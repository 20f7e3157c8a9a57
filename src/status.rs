//! Status rows and sections: what one probe reports and how rows are grouped.
use vstd::prelude::*;

verus! {

/// Outcome of a single check. Each state has exactly one label and one colour.
#[derive(Clone, Copy, Debug, PartialEq, Eq, Structural)]
pub enum StatusState {
    Pass,
    Warn,
    Fail,
}

/// The colour a renderer paints a state with.
#[derive(Clone, Copy, Debug, PartialEq, Eq, Structural)]
pub enum StatusColor {
    Green,
    Yellow,
    Red,
}

/// The text shown for a state.
pub open spec fn state_label(s: StatusState) -> Seq<char> {
    match s {
        StatusState::Pass => "OK"@,
        StatusState::Warn => "WARN"@,
        StatusState::Fail => "FAIL"@,
    }
}

/// The colour shown for a state.
pub open spec fn state_color(s: StatusState) -> StatusColor {
    match s {
        StatusState::Pass => StatusColor::Green,
        StatusState::Warn => StatusColor::Yellow,
        StatusState::Fail => StatusColor::Red,
    }
}

impl StatusState {
    pub fn color(self) -> (r: StatusColor)
        ensures
            r == state_color(self),
    {
        match self {
            StatusState::Pass => StatusColor::Green,
            StatusState::Warn => StatusColor::Yellow,
            StatusState::Fail => StatusColor::Red,
        }
    }

    pub fn label(self) -> (r: &'static str)
        ensures
            r@ == state_label(self),
    {
        match self {
            StatusState::Pass => "OK",
            StatusState::Warn => "WARN",
            StatusState::Fail => "FAIL",
        }
    }
}

/// A row as a value: label, state and detail text.
pub struct RowView {
    pub label: Seq<char>,
    pub state: StatusState,
    pub detail: Seq<char>,
}

/// One probe's report. `label` names the probe; actions bind to it.
#[derive(Clone, Debug)]
pub struct StatusRow {
    pub label: String,
    pub state: StatusState,
    pub detail: String,
}

impl View for StatusRow {
    type V = RowView;

    open spec fn view(&self) -> RowView {
        RowView { label: self.label@, state: self.state, detail: self.detail@ }
    }
}

/// A named group of rows, in the order their probes were registered.
#[derive(Clone, Debug)]
pub struct Section {
    pub title: String,
    pub rows: Vec<StatusRow>,
}

/// The rows of a section as values.
pub open spec fn rows_view(rows: Seq<StatusRow>) -> Seq<RowView> {
    rows.map_values(|r: StatusRow| r@)
}

/// A section as values: its title and its rows.
pub struct SectionView {
    pub title: Seq<char>,
    pub rows: Seq<RowView>,
}

impl View for Section {
    type V = SectionView;

    open spec fn view(&self) -> SectionView {
        SectionView { title: self.title@, rows: rows_view(self.rows@) }
    }
}

/// A whole snapshot as values.
pub open spec fn snapshot_view(sections: Seq<Section>) -> Seq<SectionView> {
    sections.map_values(|s: Section| s@)
}

impl StatusRow {
    pub fn new(label: &str, state: StatusState, detail: String) -> (r: StatusRow)
        ensures
            r@ == (RowView { label: label@, state, detail: detail@ }),
    {
        StatusRow { label: String::from_str(label), state, detail }
    }
}

} // verus!
