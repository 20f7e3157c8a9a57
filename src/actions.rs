//! Remediation actions: a fixed table from row label to advice, and the
//! derivation of the actions a snapshot calls for.
use vstd::prelude::*;
use crate::status::{rows_view, snapshot_view, RowView, Section, SectionView, StatusState};
use crate::text::{owned, same_text, texts_view, words2, words3, words4};

verus! {

/// An optional command as values.
pub open spec fn command_view(c: Option<Vec<String>>) -> Option<Seq<Seq<char>>> {
    match c {
        Some(v) => Some(texts_view(v@)),
        None => None,
    }
}

/// Advice for one row label: what to do, and the command that does it if any.
pub struct RemedyView {
    pub description: Seq<char>,
    pub command: Option<Seq<Seq<char>>>,
}

/// Advice and an optional command (program first, then its arguments).
pub struct Remedy {
    pub description: String,
    pub command: Option<Vec<String>>,
}

impl View for Remedy {
    type V = RemedyView;

    open spec fn view(&self) -> RemedyView {
        RemedyView { description: self.description@, command: command_view(self.command) }
    }
}

pub open spec fn remedy(description: Seq<char>, command: Option<Seq<Seq<char>>>) -> Option<
    RemedyView,
> {
    Some(RemedyView { description, command })
}

/// The remediation table: the advice known for a row label, if any.
pub open spec fn remedy_of(label: Seq<char>) -> Option<RemedyView> {
    if label == "java"@ {
        remedy(
            "Install JDK 17: brew install --cask zulu@17"@,
            Some(seq!["brew"@, "install"@, "--cask"@, "zulu@17"@]),
        )
    } else if label == "ANDROID_HOME"@ {
        remedy("Install Android Studio or point ANDROID_HOME at the SDK"@, None)
    } else if label == "platform-tools"@ {
        remedy(
            "Install platform-tools: sdkmanager platform-tools"@,
            Some(seq!["sdkmanager"@, "platform-tools"@]),
        )
    } else if label == "platforms;android-34"@ {
        remedy(
            "Install the Android 34 platform: sdkmanager platforms;android-34"@,
            Some(seq!["sdkmanager"@, "platforms;android-34"@]),
        )
    } else if label == "build-tools;34.0.0"@ {
        remedy(
            "Install build-tools 34.0.0: sdkmanager build-tools;34.0.0"@,
            Some(seq!["sdkmanager"@, "build-tools;34.0.0"@]),
        )
    } else if label == "adb"@ {
        remedy("Start the adb server: adb start-server"@, Some(seq!["adb"@, "start-server"@]))
    } else if label == "xcode-select"@ {
        remedy(
            "Install the Xcode command line tools: xcode-select --install"@,
            Some(seq!["xcode-select"@, "--install"@]),
        )
    } else if label == "cocoapods"@ {
        remedy(
            "Install CocoaPods: brew install cocoapods"@,
            Some(seq!["brew"@, "install"@, "cocoapods"@]),
        )
    } else {
        None
    }
}

fn found(description: &str, command: Option<Vec<String>>) -> (r: Option<Remedy>)
    ensures
        r matches Some(x) && x@ == (RemedyView {
            description: description@,
            command: command_view(command),
        }),
{
    Some(Remedy { description: owned(description), command })
}

/// Looks a row label up in the remediation table.
pub fn remediation(label: &str) -> (r: Option<Remedy>)
    ensures
        match r {
            Some(x) => remedy_of(label@) == Some(x@),
            None => remedy_of(label@) is None,
        },
{
    if same_text(label, "java") {
        found(
            "Install JDK 17: brew install --cask zulu@17",
            Some(words4("brew", "install", "--cask", "zulu@17")),
        )
    } else if same_text(label, "ANDROID_HOME") {
        found("Install Android Studio or point ANDROID_HOME at the SDK", None)
    } else if same_text(label, "platform-tools") {
        found(
            "Install platform-tools: sdkmanager platform-tools",
            Some(words2("sdkmanager", "platform-tools")),
        )
    } else if same_text(label, "platforms;android-34") {
        found(
            "Install the Android 34 platform: sdkmanager platforms;android-34",
            Some(words2("sdkmanager", "platforms;android-34")),
        )
    } else if same_text(label, "build-tools;34.0.0") {
        found(
            "Install build-tools 34.0.0: sdkmanager build-tools;34.0.0",
            Some(words2("sdkmanager", "build-tools;34.0.0")),
        )
    } else if same_text(label, "adb") {
        found("Start the adb server: adb start-server", Some(words2("adb", "start-server")))
    } else if same_text(label, "xcode-select") {
        found(
            "Install the Xcode command line tools: xcode-select --install",
            Some(words2("xcode-select", "--install")),
        )
    } else if same_text(label, "cocoapods") {
        found("Install CocoaPods: brew install cocoapods", Some(words3("brew", "install", "cocoapods")))
    } else {
        None
    }
}

/// A suggested remediation bound to the row at (`section_idx`, `row_idx`) of
/// the snapshot it was derived from.
#[derive(Clone, Debug)]
pub struct Action {
    pub label: String,
    pub section_idx: usize,
    pub row_idx: usize,
    pub command: Option<Vec<String>>,
    pub description: String,
}

/// An action as values.
pub struct ActionView {
    pub label: Seq<char>,
    pub section_idx: int,
    pub row_idx: int,
    pub command: Option<Seq<Seq<char>>>,
    pub description: Seq<char>,
}

impl View for Action {
    type V = ActionView;

    open spec fn view(&self) -> ActionView {
        ActionView {
            label: self.label@,
            section_idx: self.section_idx as int,
            row_idx: self.row_idx as int,
            command: command_view(self.command),
            description: self.description@,
        }
    }
}

/// A list of actions as values.
pub open spec fn actions_view(v: Seq<Action>) -> Seq<ActionView> {
    v.map_values(|a: Action| a@)
}

/// Whether a row calls for an action: it is not `Pass` and its label has a
/// remedy in the table.
pub open spec fn flagged(r: RowView) -> bool {
    r.state != StatusState::Pass && remedy_of(r.label) is Some
}

/// The action the row at (`si`, `ri`) calls for: none or one.
pub open spec fn action_for(si: int, ri: int, r: RowView) -> Seq<ActionView> {
    if flagged(r) {
        seq![
            ActionView {
                label: r.label,
                section_idx: si,
                row_idx: ri,
                command: remedy_of(r.label)->0.command,
                description: remedy_of(r.label)->0.description,
            },
        ]
    } else {
        Seq::empty()
    }
}

/// The actions the rows of section `si` call for, in row order.
pub open spec fn row_actions(si: int, rows: Seq<RowView>) -> Seq<ActionView>
    decreases rows.len(),
{
    if rows.len() == 0 {
        Seq::empty()
    } else {
        row_actions(si, rows.drop_last()) + action_for(si, rows.len() - 1, rows.last())
    }
}

/// The actions a snapshot calls for, in snapshot order: section by section,
/// row by row.
pub open spec fn actions_of(secs: Seq<SectionView>) -> Seq<ActionView>
    decreases secs.len(),
{
    if secs.len() == 0 {
        Seq::empty()
    } else {
        actions_of(secs.drop_last()) + row_actions(secs.len() - 1, secs.last().rows)
    }
}

/// Derives the actions of a snapshot: one per row that is not `Pass` and has
/// a known remedy, in snapshot order.
pub fn build_actions(sections: &Vec<Section>) -> (r: Vec<Action>)
    ensures
        actions_view(r@) == actions_of(snapshot_view(sections@)),
{
    let ghost sv = snapshot_view(sections@);
    let mut out: Vec<Action> = Vec::new();
    let mut i: usize = 0;
    while i < sections.len()
        invariant
            i <= sections@.len(),
            sv == snapshot_view(sections@),
            actions_view(out@) == actions_of(sv.subrange(0, i as int)),
        decreases sections@.len() - i,
    {
        let rows = &sections[i].rows;
        let ghost rv = rows_view(rows@);
        let ghost base = actions_view(out@);
        assert(rv == sv[i as int].rows);
        assert(row_actions(i as int, rv.subrange(0, 0)) =~= Seq::<ActionView>::empty());
        assert(base + row_actions(i as int, rv.subrange(0, 0)) =~= base);
        let mut j: usize = 0;
        while j < rows.len()
            invariant
                i < sections@.len(),
                rows == sections@[i as int].rows,
                rv == rows_view(rows@),
                j <= rows@.len(),
                actions_view(out@) == base + row_actions(i as int, rv.subrange(0, j as int)),
            decreases rows@.len() - j,
        {
            let row = &rows[j];
            proof {
                let next = rv.subrange(0, j + 1);
                assert(next.drop_last() =~= rv.subrange(0, j as int));
                assert(next.last() == row@);
            }
            let ghost prev = actions_view(out@);
            if row.state != StatusState::Pass {
                match remediation(row.label.as_str()) {
                    Some(rem) => {
                        let a = Action {
                            label: row.label.clone(),
                            section_idx: i,
                            row_idx: j,
                            command: rem.command,
                            description: rem.description,
                        };
                        out.push(a);
                        assert(actions_view(out@) =~= prev + action_for(i as int, j as int, row@));
                    },
                    None => {
                        assert(action_for(i as int, j as int, row@) =~= Seq::<ActionView>::empty());
                    },
                }
            } else {
                assert(action_for(i as int, j as int, row@) =~= Seq::<ActionView>::empty());
            }
            assert(actions_view(out@) =~= base + row_actions(i as int, rv.subrange(0, j + 1)));
            j += 1;
        }
        proof {
            let next = sv.subrange(0, i + 1);
            assert(next.drop_last() =~= sv.subrange(0, i as int));
            assert(rv.subrange(0, rows@.len() as int) =~= rv);
        }
        i += 1;
    }
    assert(sv.subrange(0, sections@.len() as int) =~= sv);
    out
}

/// The number of rows that call for an action.
pub open spec fn flagged_count(rows: Seq<RowView>) -> nat
    decreases rows.len(),
{
    if rows.len() == 0 {
        0
    } else {
        flagged_count(rows.drop_last()) + if flagged(rows.last()) {
            1nat
        } else {
            0nat
        }
    }
}

/// The number of rows of a snapshot that call for an action.
pub open spec fn snapshot_flagged_count(secs: Seq<SectionView>) -> nat
    decreases secs.len(),
{
    if secs.len() == 0 {
        0
    } else {
        snapshot_flagged_count(secs.drop_last()) + flagged_count(secs.last().rows)
    }
}

/// `a` is the action that the row it points at in `secs` calls for.
pub open spec fn bound_to_row(secs: Seq<SectionView>, a: ActionView) -> bool {
    &&& 0 <= a.section_idx < secs.len()
    &&& 0 <= a.row_idx < secs[a.section_idx].rows.len()
    &&& flagged(secs[a.section_idx].rows[a.row_idx])
    &&& action_for(a.section_idx, a.row_idx, secs[a.section_idx].rows[a.row_idx]) == seq![a]
}

/// (`a`) comes strictly before (`b`) in snapshot order.
pub open spec fn before(a: ActionView, b: ActionView) -> bool {
    a.section_idx < b.section_idx || (a.section_idx == b.section_idx && a.row_idx < b.row_idx)
}

proof fn lemma_row_actions(si: int, rows: Seq<RowView>)
    ensures
        row_actions(si, rows).len() == flagged_count(rows),
        forall|k: int|
            0 <= k < row_actions(si, rows).len() ==> {
                let a = #[trigger] row_actions(si, rows)[k];
                &&& a.section_idx == si
                &&& 0 <= a.row_idx < rows.len()
                &&& flagged(rows[a.row_idx])
                &&& action_for(si, a.row_idx, rows[a.row_idx]) == seq![a]
            },
        forall|k1: int, k2: int|
            0 <= k1 < k2 < row_actions(si, rows).len() ==> row_actions(si, rows)[k1].row_idx
                < row_actions(si, rows)[k2].row_idx,
    decreases rows.len(),
{
    if rows.len() > 0 {
        let init = rows.drop_last();
        lemma_row_actions(si, init);
        assert forall|k: int| 0 <= k < init.len() implies init[k] == rows[k] by {}
    }
}

/// Every derived action points at a row of the snapshot that is not `Pass`
/// and has a remedy, carries that row's label and the remedy's command and
/// description; there is one action per such row; and the actions follow
/// snapshot order, section by section and row by row.
pub proof fn lemma_actions_follow_flagged_rows(secs: Seq<SectionView>)
    ensures
        actions_of(secs).len() == snapshot_flagged_count(secs),
        forall|k: int| 0 <= k < actions_of(secs).len() ==> bound_to_row(secs, #[trigger] actions_of(secs)[k]),
        forall|k1: int, k2: int|
            0 <= k1 < k2 < actions_of(secs).len() ==> before(actions_of(secs)[k1], actions_of(secs)[k2]),
    decreases secs.len(),
{
    if secs.len() > 0 {
        let init = secs.drop_last();
        let si = secs.len() - 1;
        lemma_actions_follow_flagged_rows(init);
        lemma_row_actions(si, secs.last().rows);
        let head = actions_of(init);
        let tail = row_actions(si, secs.last().rows);
        assert(actions_of(secs) == head + tail);
        assert forall|k: int| 0 <= k < actions_of(secs).len() implies bound_to_row(
            secs,
            #[trigger] actions_of(secs)[k],
        ) by {
            if k < head.len() {
                assert(actions_of(secs)[k] == head[k]);
                assert(bound_to_row(init, head[k]));
                assert(secs[head[k].section_idx] == init[head[k].section_idx]);
            } else {
                assert(actions_of(secs)[k] == tail[k - head.len()]);
            }
        }
        assert forall|k1: int, k2: int|
            0 <= k1 < k2 < actions_of(secs).len() implies before(
            actions_of(secs)[k1],
            actions_of(secs)[k2],
        ) by {
            if k2 < head.len() {
            } else if k1 < head.len() {
                assert(bound_to_row(init, head[k1]));
                assert(actions_of(secs)[k2] == tail[k2 - head.len()]);
            } else {
                assert(actions_of(secs)[k1] == tail[k1 - head.len()]);
                assert(actions_of(secs)[k2] == tail[k2 - head.len()]);
            }
        }
    }
}

/// A snapshot whose rows are all `Pass` calls for no action.
pub proof fn lemma_all_pass_no_actions(secs: Seq<SectionView>)
    requires
        forall|i: int, j: int|
            0 <= i < secs.len() && 0 <= j < secs[i].rows.len() ==> #[trigger] secs[i].rows[j].state
                == StatusState::Pass,
    ensures
        actions_of(secs) == Seq::<ActionView>::empty(),
{
    lemma_actions_follow_flagged_rows(secs);
    if actions_of(secs).len() > 0 {
        let a = actions_of(secs)[0];
        assert(bound_to_row(secs, a));
        assert(secs[a.section_idx].rows[a.row_idx].state == StatusState::Pass);
    }
}

} // verus!
