//! The application state: the latest snapshot, its actions, the last error,
//! and the cursor that the keys move.
use vstd::prelude::*;
use crate::actions::{actions_of, actions_view, build_actions, command_view, Action};
use crate::collect::CollectionError;
use crate::status::{snapshot_view, Section};

verus! {

/// A decoded key press.
#[derive(Clone, Copy, Debug, PartialEq, Eq, Structural)]
pub enum Key {
    Up,
    Down,
    Left,
    Right,
    Enter,
    Refresh,
    Quit,
    Other,
}

/// What the event loop must do after a key press.
#[derive(Clone, Debug)]
pub enum Effect {
    /// Nothing beyond drawing again.
    Stay,
    /// Run the collector now and restart the refresh timer.
    Refresh,
    /// Start this command (program first) as a detached process.
    Run(Vec<String>),
    /// Leave the loop.
    Quit,
}

/// `i` kept inside `[0, len)`, or 0 when `len` is 0.
pub open spec fn clamp_index(i: int, len: int) -> int {
    if len <= 0 {
        0
    } else if i < len {
        i
    } else {
        len - 1
    }
}

pub struct App {
    pub sections: Vec<Section>,
    pub actions: Vec<Action>,
    pub last_error: Option<String>,
    /// When the last successful refresh finished, in milliseconds on a
    /// monotonic clock.
    pub last_updated: Option<u64>,
    pub selected_section: usize,
    pub selected_row: usize,
}

impl App {
    /// Rows in section `s` (0 when there is no such section).
    pub open spec fn row_count(&self, s: int) -> int {
        if 0 <= s < self.sections@.len() {
            self.sections@[s].rows@.len() as int
        } else {
            0
        }
    }

    /// The cursor stands on an existing row, or at 0 where there is none.
    pub open spec fn cursor_ok(&self) -> bool {
        &&& self.selected_section == clamp_index(
            self.selected_section as int,
            self.sections@.len() as int,
        )
        &&& self.selected_row == clamp_index(
            self.selected_row as int,
            self.row_count(self.selected_section as int),
        )
    }

    /// The cursor is in range and the actions are those the snapshot calls for.
    pub open spec fn wf(&self) -> bool {
        &&& self.cursor_ok()
        &&& actions_view(self.actions@) == actions_of(snapshot_view(self.sections@))
    }

    /// Some action at the cursor carries a command.
    pub open spec fn has_command_at_cursor(&self) -> bool {
        exists|k: int|
            0 <= k < self.actions@.len() && #[trigger] self.actions@[k].section_idx
                == self.selected_section && self.actions@[k].row_idx == self.selected_row
                && self.actions@[k].command is Some
    }

    /// An empty dashboard: no sections, no actions, no error, cursor at 0.
    pub fn new() -> (r: App)
        ensures
            r.wf(),
            r.sections@.len() == 0,
            r.actions@.len() == 0,
            r.last_error is None,
            r.last_updated is None,
            r.selected_section == 0,
            r.selected_row == 0,
    {
        let r = App {
            sections: Vec::new(),
            actions: Vec::new(),
            last_error: None,
            last_updated: None,
            selected_section: 0,
            selected_row: 0,
        };
        assert(actions_view(r.actions@) =~= actions_of(snapshot_view(r.sections@)));
        r
    }

    fn rows_in(&self, s: usize) -> (n: usize)
        ensures
            n == self.row_count(s as int),
    {
        if s < self.sections.len() {
            self.sections[s].rows.len()
        } else {
            0
        }
    }

    /// Takes in the outcome of a collection round finished at `now`. A
    /// snapshot replaces sections and actions, clears the error, records
    /// `now`, and pulls the cursor back inside the new snapshot. An error
    /// only sets the error text; everything else stays as it was.
    pub fn refresh(&mut self, outcome: Result<Vec<Section>, CollectionError>, now: u64)
        requires
            old(self).wf(),
        ensures
            final(self).wf(),
            match outcome {
                Ok(s) => {
                    &&& final(self).sections@ == s@
                    &&& actions_view(final(self).actions@) == actions_of(snapshot_view(s@))
                    &&& final(self).last_error is None
                    &&& final(self).last_updated == Some(now)
                    &&& final(self).selected_section == clamp_index(
                        old(self).selected_section as int,
                        s@.len() as int,
                    )
                    &&& final(self).selected_row == clamp_index(
                        old(self).selected_row as int,
                        final(self).row_count(final(self).selected_section as int),
                    )
                },
                Err(e) => {
                    &&& final(self).sections@ == old(self).sections@
                    &&& final(self).actions@ == old(self).actions@
                    &&& final(self).last_updated == old(self).last_updated
                    &&& final(self).selected_section == old(self).selected_section
                    &&& final(self).selected_row == old(self).selected_row
                    &&& final(self).last_error matches Some(m) && m@ == e.message_spec()
                        && m@.len() > 0
                },
            },
    {
        match outcome {
            Ok(sections) => {
                self.actions = build_actions(&sections);
                self.sections = sections;
                self.last_error = None;
                self.last_updated = Some(now);
                let n = self.sections.len();
                if n == 0 {
                    self.selected_section = 0;
                } else if self.selected_section >= n {
                    self.selected_section = n - 1;
                }
                let rows = self.rows_in(self.selected_section);
                if rows == 0 {
                    self.selected_row = 0;
                } else if self.selected_row >= rows {
                    self.selected_row = rows - 1;
                }
            },
            Err(e) => {
                self.last_error = Some(e.message());
            },
        }
    }

    /// Records that a remediation command could not be started or failed.
    pub fn record_action_failure(&mut self, message: String)
        requires
            old(self).wf(),
        ensures
            final(self).wf(),
            final(self).last_error == Some(message),
            final(self).sections@ == old(self).sections@,
            final(self).actions@ == old(self).actions@,
            final(self).last_updated == old(self).last_updated,
            final(self).selected_section == old(self).selected_section,
            final(self).selected_row == old(self).selected_row,
    {
        self.last_error = Some(message);
    }

    /// Applies a key press. Up and Down move within the section and stop at
    /// its ends; Left and Right move between sections, stop at the ends, and
    /// put the cursor on the first row when the section changes. Enter asks
    /// to run the command of the action at the cursor, if there is one.
    /// Refresh and Quit are handed back to the loop; other keys do nothing.
    pub fn handle_key(&mut self, key: Key) -> (r: Effect)
        requires
            old(self).wf(),
        ensures
            final(self).wf(),
            final(self).sections@ == old(self).sections@,
            final(self).actions@ == old(self).actions@,
            final(self).last_error == old(self).last_error,
            final(self).last_updated == old(self).last_updated,
            ({
                let s = old(self).selected_section as int;
                let row = old(self).selected_row as int;
                let n = old(self).sections@.len() as int;
                let rows = old(self).row_count(s);
                let s2 = final(self).selected_section as int;
                let row2 = final(self).selected_row as int;
                match key {
                    Key::Up => s2 == s && row2 == (if row > 0 { row - 1 } else { row }),
                    Key::Down => s2 == s && row2 == (if row + 1 < rows { row + 1 } else { row }),
                    Key::Left => if s > 0 {
                        s2 == s - 1 && row2 == 0
                    } else {
                        s2 == s && row2 == row
                    },
                    Key::Right => if s + 1 < n {
                        s2 == s + 1 && row2 == 0
                    } else {
                        s2 == s && row2 == row
                    },
                    _ => s2 == s && row2 == row,
                }
            }),
            key == Key::Quit ==> r is Quit,
            key == Key::Refresh ==> r is Refresh,
            key == Key::Enter ==> match r {
                Effect::Run(c) => exists|k: int|
                    0 <= k < old(self).actions@.len() && #[trigger] old(self).actions@[k].section_idx
                        == old(self).selected_section && old(self).actions@[k].row_idx
                        == old(self).selected_row && command_view(old(self).actions@[k].command)
                        == command_view(Some(c)),
                Effect::Stay => !old(self).has_command_at_cursor(),
                _ => false,
            },
            key != Key::Quit && key != Key::Refresh && key != Key::Enter ==> r is Stay,
    {
        match key {
            Key::Up => {
                if self.selected_row > 0 {
                    self.selected_row = self.selected_row - 1;
                }
                Effect::Stay
            },
            Key::Down => {
                let rows = self.rows_in(self.selected_section);
                if self.selected_row + 1 < rows {
                    self.selected_row = self.selected_row + 1;
                }
                Effect::Stay
            },
            Key::Left => {
                if self.selected_section > 0 {
                    self.selected_section = self.selected_section - 1;
                    self.selected_row = 0;
                }
                Effect::Stay
            },
            Key::Right => {
                if self.sections.len() > 0 && self.selected_section < self.sections.len() - 1 {
                    self.selected_section = self.selected_section + 1;
                    self.selected_row = 0;
                }
                Effect::Stay
            },
            Key::Enter => self.command_at_cursor(),
            Key::Refresh => Effect::Refresh,
            Key::Quit => Effect::Quit,
            Key::Other => Effect::Stay,
        }
    }

    fn command_at_cursor(&self) -> (r: Effect)
        ensures
            match r {
                Effect::Run(c) => exists|k: int|
                    0 <= k < self.actions@.len() && #[trigger] self.actions@[k].section_idx
                        == self.selected_section && self.actions@[k].row_idx == self.selected_row
                        && command_view(self.actions@[k].command) == command_view(Some(c)),
                Effect::Stay => !self.has_command_at_cursor(),
                _ => false,
            },
    {
        let mut k: usize = 0;
        while k < self.actions.len()
            invariant
                k <= self.actions@.len(),
                forall|j: int|
                    0 <= j < k ==> !(#[trigger] self.actions@[j].section_idx == self.selected_section
                        && self.actions@[j].row_idx == self.selected_row
                        && self.actions@[j].command is Some),
            decreases self.actions@.len() - k,
        {
            let a = &self.actions[k];
            if a.section_idx == self.selected_section && a.row_idx == self.selected_row {
                match &a.command {
                    Some(c) => {
                        let c2 = copy_texts(c);
                        return Effect::Run(c2);
                    },
                    None => {},
                }
            }
            k += 1;
        }
        Effect::Stay
    }
}

/// Copies a list of texts, keeping each one and their order.
pub fn copy_texts(v: &Vec<String>) -> (r: Vec<String>)
    ensures
        crate::text::texts_view(r@) == crate::text::texts_view(v@),
{
    let mut r: Vec<String> = Vec::new();
    let mut i: usize = 0;
    while i < v.len()
        invariant
            i <= v@.len(),
            r@.len() == i,
            forall|k: int| 0 <= k < i ==> #[trigger] r@[k]@ == v@[k]@,
        decreases v@.len() - i,
    {
        r.push(v[i].clone());
        i += 1;
    }
    assert(crate::text::texts_view(r@) =~= crate::text::texts_view(v@));
    r
}

} // verus!
