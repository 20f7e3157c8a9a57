//! The probe registry and the collector that turns one round of observations
//! into a snapshot.
use vstd::prelude::*;
use crate::probe::{probe_row_spec, Observation, Probe, Seen};
use crate::status::StatusState;
use crate::status::{rows_view, snapshot_view, RowView, Section, SectionView, StatusRow};

verus! {

/// A registered section: its title and its probes, in display order.
pub struct SectionSpec {
    pub title: String,
    pub probes: Vec<Probe>,
}

/// Why a collection round produced no snapshot.
#[derive(Clone, Copy, Debug, PartialEq, Eq, Structural)]
pub enum CollectionError {
    /// The observations handed in do not cover the registry one for one.
    Incomplete,
}

impl CollectionError {
    pub open spec fn message_spec(&self) -> Seq<char> {
        "collection incomplete: a probe result is missing"@
    }

    /// The banner text for this error; never empty.
    pub fn message(&self) -> (r: String)
        ensures
            r@ == self.message_spec(),
            r@.len() > 0,
    {
        proof {
            reveal_strlit("collection incomplete: a probe result is missing");
        }
        String::from_str("collection incomplete: a probe result is missing")
    }
}

/// The observations line up with the registry: one list per section, one
/// observation per probe.
pub open spec fn covers(reg: Seq<SectionSpec>, obs: Seq<Vec<Observation>>) -> bool {
    &&& reg.len() == obs.len()
    &&& forall|i: int| 0 <= i < reg.len() ==> #[trigger] obs[i]@.len() == reg[i].probes@.len()
}

/// The rows of one section, in registry order.
pub open spec fn section_rows(probes: Seq<Probe>, obs: Seq<Observation>) -> Seq<RowView> {
    Seq::new(probes.len(), |j: int| probe_row_spec(probes[j], obs[j]@))
}

/// The snapshot a round yields: section `i` carries the title of registry
/// section `i`, and its row `j` is what probe `j` of that section reports.
/// Order follows the registry alone, whatever order the probes finished in.
pub open spec fn snapshot_of(reg: Seq<SectionSpec>, obs: Seq<Vec<Observation>>) -> Seq<SectionView> {
    Seq::new(
        reg.len(),
        |i: int| SectionView { title: reg[i].title@, rows: section_rows(reg[i].probes@, obs[i]@) },
    )
}

fn section_of(spec: &SectionSpec, obs: &Vec<Observation>) -> (r: Section)
    requires
        obs@.len() == spec.probes@.len(),
    ensures
        r@ == (SectionView { title: spec.title@, rows: section_rows(spec.probes@, obs@) }),
{
    let mut rows: Vec<StatusRow> = Vec::new();
    let mut j: usize = 0;
    while j < spec.probes.len()
        invariant
            obs@.len() == spec.probes@.len(),
            j <= spec.probes@.len(),
            rows@.len() == j,
            forall|k: int|
                0 <= k < j ==> #[trigger] rows@[k]@ == probe_row_spec(spec.probes@[k], obs@[k]@),
        decreases spec.probes@.len() - j,
    {
        rows.push(spec.probes[j].row(&obs[j]));
        j += 1;
    }
    assert(rows_view(rows@) =~= section_rows(spec.probes@, obs@));
    Section { title: spec.title.clone(), rows }
}

/// Assembles one collection round. `obs[i][j]` is what probe `j` of section
/// `i` saw. The snapshot comes whole or not at all: it fails exactly when the
/// observations do not cover the registry, and no probe outcome makes it fail.
pub fn collect_sections(reg: &Vec<SectionSpec>, obs: &Vec<Vec<Observation>>) -> (r: Result<
    Vec<Section>,
    CollectionError,
>)
    ensures
        r is Ok <==> covers(reg@, obs@),
        r matches Ok(s) ==> snapshot_view(s@) == snapshot_of(reg@, obs@),
        r matches Err(e) ==> e == CollectionError::Incomplete,
{
    if reg.len() != obs.len() {
        return Err(CollectionError::Incomplete);
    }
    let mut i: usize = 0;
    while i < reg.len()
        invariant
            reg@.len() == obs@.len(),
            i <= reg@.len(),
            forall|k: int| 0 <= k < i ==> #[trigger] obs@[k]@.len() == reg@[k].probes@.len(),
        decreases reg@.len() - i,
    {
        if obs[i].len() != reg[i].probes.len() {
            return Err(CollectionError::Incomplete);
        }
        i += 1;
    }
    let mut sections: Vec<Section> = Vec::new();
    let mut i: usize = 0;
    while i < reg.len()
        invariant
            covers(reg@, obs@),
            i <= reg@.len(),
            sections@.len() == i,
            forall|k: int| 0 <= k < i ==> #[trigger] sections@[k]@ == snapshot_of(reg@, obs@)[k],
        decreases reg@.len() - i,
    {
        assert(obs@[i as int]@.len() == reg@[i as int].probes@.len());
        sections.push(section_of(&reg[i], &obs[i]));
        i += 1;
    }
    assert(snapshot_view(sections@) =~= snapshot_of(reg@, obs@));
    Ok(sections)
}

/// Whatever each probe saw, and in whatever order the probes finished, a
/// round yields a snapshot whose sections carry the registry's titles in
/// registry order and whose rows carry each section's probe labels in
/// registration order.
pub proof fn lemma_snapshot_follows_registry(reg: Seq<SectionSpec>, obs: Seq<Vec<Observation>>)
    ensures
        snapshot_of(reg, obs).len() == reg.len(),
        forall|i: int|
            0 <= i < reg.len() ==> {
                let sec = #[trigger] snapshot_of(reg, obs)[i];
                &&& sec.title == reg[i].title@
                &&& sec.rows.len() == reg[i].probes@.len()
                &&& forall|j: int|
                    0 <= j < sec.rows.len() ==> #[trigger] sec.rows[j].label
                        == reg[i].probes@[j].label@
            },
{
    assert forall|i: int| 0 <= i < reg.len() implies {
        let sec = #[trigger] snapshot_of(reg, obs)[i];
        &&& sec.title == reg[i].title@
        &&& sec.rows.len() == reg[i].probes@.len()
        &&& forall|j: int|
            0 <= j < sec.rows.len() ==> #[trigger] sec.rows[j].label == reg[i].probes@[j].label@
    } by {
        let sec = snapshot_of(reg, obs)[i];
        assert forall|j: int| 0 <= j < sec.rows.len() implies #[trigger] sec.rows[j].label
            == reg[i].probes@[j].label@ by {
            lemma_row_keeps_label(reg[i].probes@[j], obs[i]@[j]@);
        }
    }
}

/// Every row a probe reports carries the probe's label.
pub proof fn lemma_row_keeps_label(p: Probe, o: Seen)
    ensures
        probe_row_spec(p, o).label == p.label@,
{
}

/// A probe that crashed yields a `Fail` row whose detail is not empty.
pub proof fn lemma_crashed_probe_fails(p: Probe, message: Seq<char>)
    ensures
        probe_row_spec(p, Seen::Crashed(message)).state == StatusState::Fail,
        probe_row_spec(p, Seen::Crashed(message)).detail.len() > 0,
{
    reveal_strlit("probe failed: ");
}

/// In a round's snapshot, the row of a probe that crashed is a `Fail` row
/// under that probe's label, with a detail that is not empty.
pub proof fn lemma_crashed_probe_in_snapshot(
    reg: Seq<SectionSpec>,
    obs: Seq<Vec<Observation>>,
    i: int,
    j: int,
)
    requires
        0 <= i < reg.len(),
        0 <= j < reg[i].probes@.len(),
        obs[i]@[j]@ is Crashed,
    ensures
        snapshot_of(reg, obs)[i].rows[j].state == StatusState::Fail,
        snapshot_of(reg, obs)[i].rows[j].detail.len() > 0,
        snapshot_of(reg, obs)[i].rows[j].label == reg[i].probes@[j].label@,
{
    lemma_crashed_probe_fails(reg[i].probes@[j], obs[i]@[j]@->Crashed_0);
}

} // verus!
