//! Probes: what each check looks at, and how what it saw becomes a row.
//!
//! Running a process or looking at the filesystem happens outside the
//! library; the result comes back as an [`Observation`], and the functions
//! here turn it into a [`StatusRow`]. No observation makes them fail: every
//! function here that reads an observation turns a probe that crashed or
//! timed out into a `Fail` row that says so.
use vstd::prelude::*;
use crate::status::{RowView, StatusRow, StatusState};
use crate::text::{
    join, join_texts, lines_of, owned, split_lines, text_ends_with, texts_view, trim_of, trimmed,
};

verus! {

/// What a probe saw when it ran.
pub enum Observation {
    /// The process ran; `success` is whether it exited with status zero,
    /// `stdout` what it printed, `status` its exit status as text.
    Ran { success: bool, stdout: String, status: String },
    /// The process could not be started; the text says why.
    NotStarted(String),
    /// Whether the path looked at exists.
    Exists(bool),
    /// The check did not finish within its time limit.
    TimedOut,
    /// The check failed internally; the text says how.
    Crashed(String),
}

/// An observation as values.
pub enum Seen {
    Ran { success: bool, stdout: Seq<char>, status: Seq<char> },
    NotStarted(Seq<char>),
    Exists(bool),
    TimedOut,
    Crashed(Seq<char>),
}

impl View for Observation {
    type V = Seen;

    open spec fn view(&self) -> Seen {
        match self {
            Observation::Ran { success, stdout, status } => Seen::Ran {
                success: *success,
                stdout: stdout@,
                status: status@,
            },
            Observation::NotStarted(e) => Seen::NotStarted(e@),
            Observation::Exists(b) => Seen::Exists(*b),
            Observation::TimedOut => Seen::TimedOut,
            Observation::Crashed(m) => Seen::Crashed(m@),
        }
    }
}

/// What a probe looks at: a process to run, or a path whose presence counts.
pub enum Check {
    Run { program: String, args: Vec<String> },
    Exists(String),
}

/// How a probe turns what it saw into a row.
pub enum Rule {
    /// A version query: its trimmed output, or `Fail` with the exit status or
    /// launch error.
    Version,
    /// A tool query: its trimmed output, or `Warn` with the fixed text.
    Tool { absent: String },
    /// The SDK directory: `Pass` with the path, or `Fail` naming it.
    Directory,
    /// An SDK component: `Pass` with `found`, or `Warn` "missing".
    Package { found: String },
    /// Attached devices, one per line after the header line of the listing.
    Devices,
    /// A port listener query: `Pass` when something listens.
    Port,
    /// A project directory: `Pass` with the path, or `Fail` "missing".
    Project,
}

/// One registered check: the row label it reports under, what it looks at,
/// and how its observation is read.
pub struct Probe {
    pub label: String,
    pub check: Check,
    pub rule: Rule,
}

/// A rule as values.
pub enum RuleView {
    Version,
    Tool(Seq<char>),
    Directory,
    Package(Seq<char>),
    Devices,
    Port,
    Project,
}

/// A check as values: a program and its arguments, or a path.
pub enum CheckView {
    Run(Seq<char>, Seq<Seq<char>>),
    Exists(Seq<char>),
}

/// A probe as values.
pub struct ProbeView {
    pub label: Seq<char>,
    pub check: CheckView,
    pub rule: RuleView,
}

impl View for Probe {
    type V = ProbeView;

    open spec fn view(&self) -> ProbeView {
        ProbeView {
            label: self.label@,
            check: match self.check {
                Check::Run { program, args } => CheckView::Run(
                    program@,
                    crate::text::texts_view(args@),
                ),
                Check::Exists(p) => CheckView::Exists(p@),
            },
            rule: match self.rule {
                Rule::Version => RuleView::Version,
                Rule::Tool { absent } => RuleView::Tool(absent@),
                Rule::Directory => RuleView::Directory,
                Rule::Package { found } => RuleView::Package(found@),
                Rule::Devices => RuleView::Devices,
                Rule::Port => RuleView::Port,
                Rule::Project => RuleView::Project,
            },
        }
    }
}

/// The path a probe looks at (empty when it runs a process).
pub open spec fn check_path(c: Check) -> Seq<char> {
    match c {
        Check::Run { .. } => Seq::empty(),
        Check::Exists(p) => p@,
    }
}

/// Whether the observation is a run that exited with status zero.
pub open spec fn ran_ok(o: Seen) -> bool {
    match o {
        Seen::Ran { success, .. } => success,
        _ => false,
    }
}

/// The output of a run (empty for other observations).
pub open spec fn output_of(o: Seen) -> Seq<char> {
    match o {
        Seen::Ran { stdout, .. } => stdout,
        _ => Seq::empty(),
    }
}

/// Whether the observation says the path exists.
pub open spec fn exists_seen(o: Seen) -> bool {
    match o {
        Seen::Exists(b) => b,
        _ => false,
    }
}

pub open spec fn row(label: Seq<char>, state: StatusState, detail: Seq<char>) -> RowView {
    RowView { label, state, detail }
}

/// The row of a probe that did not finish: `Fail` "timed out", or `Fail`
/// "probe failed: " with what it said. None for any other observation.
pub open spec fn fault_row(label: Seq<char>, o: Seen) -> Option<RowView> {
    match o {
        Seen::TimedOut => Some(row(label, StatusState::Fail, "timed out"@)),
        Seen::Crashed(m) => Some(row(label, StatusState::Fail, "probe failed: "@ + m)),
        _ => None,
    }
}

/// Row of a version query.
pub open spec fn version_row(label: Seq<char>, o: Seen) -> RowView {
    if let Some(f) = fault_row(label, o) {
        f
    } else {
        match o {
            Seen::Ran { success, stdout, status } => if success {
                row(label, StatusState::Pass, trim_of(stdout))
            } else {
                row(label, StatusState::Fail, "exit "@ + status)
            },
            Seen::NotStarted(e) => row(
                label,
                StatusState::Fail,
                if e.len() == 0 {
                    "could not start"@
                } else {
                    e
                },
            ),
            _ => row(label, StatusState::Fail, "unexpected observation"@),
        }
    }
}

/// Row of a tool query.
pub open spec fn tool_row(label: Seq<char>, absent: Seq<char>, o: Seen) -> RowView {
    if let Some(f) = fault_row(label, o) {
        f
    } else if ran_ok(o) {
        row(label, StatusState::Pass, trim_of(output_of(o)))
    } else {
        row(label, StatusState::Warn, absent)
    }
}

/// Row of the SDK directory.
pub open spec fn directory_row(label: Seq<char>, path: Seq<char>, exists: bool) -> RowView {
    if exists {
        row(label, StatusState::Pass, path)
    } else {
        row(label, StatusState::Fail, "missing: "@ + path)
    }
}

/// Row of an SDK component.
pub open spec fn package_row(label: Seq<char>, found: Seq<char>, exists: bool) -> RowView {
    if exists {
        row(label, StatusState::Pass, found)
    } else {
        row(label, StatusState::Warn, "missing"@)
    }
}

/// Row of a project directory.
pub open spec fn project_row(label: Seq<char>, path: Seq<char>, exists: bool) -> RowView {
    if exists {
        row(label, StatusState::Pass, path)
    } else {
        row(label, StatusState::Fail, "missing"@)
    }
}

/// Row of a port listener query.
pub open spec fn port_row(label: Seq<char>, o: Seen) -> RowView {
    if let Some(f) = fault_row(label, o) {
        f
    } else if ran_ok(o) && output_of(o).len() > 0 {
        row(label, StatusState::Pass, "listening"@)
    } else {
        row(label, StatusState::Warn, "idle"@)
    }
}

/// The device lines among trimmed listing lines: every line after the first
/// (a header) that ends with "device".
pub open spec fn kept_devices(lines: Seq<Seq<char>>) -> Seq<Seq<char>>
    decreases lines.len(),
{
    if lines.len() <= 1 {
        Seq::empty()
    } else {
        let rest = kept_devices(lines.drop_last());
        if crate::text::ends_with(lines.last(), "device"@) {
            rest.push(lines.last())
        } else {
            rest
        }
    }
}

/// The attached devices of a device listing: its lines, trimmed, then the
/// device lines among them.
pub open spec fn device_entries(lines: Seq<Seq<char>>) -> Seq<Seq<char>> {
    kept_devices(lines.map_values(|l: Seq<char>| trim_of(l)))
}

/// Row of a device listing.
pub open spec fn devices_row(label: Seq<char>, o: Seen) -> RowView {
    if let Some(f) = fault_row(label, o) {
        f
    } else if ran_ok(o) {
        let found = device_entries(lines_of(output_of(o)));
        if found.len() == 0 {
            row(label, StatusState::Warn, "none"@)
        } else {
            row(label, StatusState::Pass, join(found, "; "@))
        }
    } else {
        row(label, StatusState::Warn, "unable to query"@)
    }
}

/// The row a probe reports for what it saw.
pub open spec fn probe_row_spec(p: Probe, o: Seen) -> RowView {
    let label = p.label@;
    if let Some(f) = fault_row(label, o) {
        f
    } else {
        match p.rule {
            Rule::Version => version_row(label, o),
            Rule::Tool { absent } => tool_row(label, absent@, o),
            Rule::Directory => directory_row(label, check_path(p.check), exists_seen(o)),
            Rule::Package { found } => package_row(label, found@, exists_seen(o)),
            Rule::Devices => devices_row(label, o),
            Rule::Port => port_row(label, o),
            Rule::Project => project_row(label, check_path(p.check), exists_seen(o)),
        }
    }
}

/// The row of a probe that did not finish, if `o` says so.
pub fn fault_status(label: &str, o: &Observation) -> (r: Option<StatusRow>)
    ensures
        match r {
            Some(x) => fault_row(label@, o@) == Some(x@),
            None => fault_row(label@, o@) is None,
        },
{
    match o {
        Observation::TimedOut => Some(StatusRow::new(label, StatusState::Fail, owned("timed out"))),
        Observation::Crashed(m) => Some(
            StatusRow::new(label, StatusState::Fail, owned("probe failed: ").concat(m.as_str())),
        ),
        _ => None,
    }
}

/// Row of a version query such as `node -v`: the trimmed output, or `Fail`
/// with a non-empty explanation (exit status, launch error, timeout, crash).
pub fn cmd_version(label: &str, o: &Observation) -> (r: StatusRow)
    ensures
        r@ == version_row(label@, o@),
        r@.state != StatusState::Pass ==> r@.detail.len() > 0,
{
    proof {
        reveal_strlit("timed out");
        reveal_strlit("probe failed: ");
        reveal_strlit("exit ");
        reveal_strlit("could not start");
        reveal_strlit("unexpected observation");
    }
    if let Some(f) = fault_status(label, o) {
        return f;
    }
    match o {
        Observation::Ran { success, stdout, status } => {
            if *success {
                StatusRow::new(label, StatusState::Pass, trimmed(stdout.as_str()))
            } else {
                StatusRow::new(label, StatusState::Fail, owned("exit ").concat(status.as_str()))
            }
        },
        Observation::NotStarted(e) => {
            if e.as_str().unicode_len() == 0 {
                StatusRow::new(label, StatusState::Fail, owned("could not start"))
            } else {
                StatusRow::new(label, StatusState::Fail, e.clone())
            }
        },
        _ => StatusRow::new(label, StatusState::Fail, owned("unexpected observation")),
    }
}

/// Row of a tool query: the tool's trimmed output, `Fail` when the query
/// timed out or crashed, else `Warn` with `absent`.
pub fn tool_status(label: &str, absent: &str, o: &Observation) -> (r: StatusRow)
    ensures
        r@ == tool_row(label@, absent@, o@),
{
    if let Some(f) = fault_status(label, o) {
        return f;
    }
    match o {
        Observation::Ran { success, stdout, .. } if *success => {
            StatusRow::new(label, StatusState::Pass, trimmed(stdout.as_str()))
        },
        _ => StatusRow::new(label, StatusState::Warn, owned(absent)),
    }
}

/// Row of the SDK directory at `path`.
pub fn directory_status(label: &str, path: &str, exists: bool) -> (r: StatusRow)
    ensures
        r@ == directory_row(label@, path@, exists),
{
    if exists {
        StatusRow::new(label, StatusState::Pass, owned(path))
    } else {
        StatusRow::new(label, StatusState::Fail, owned("missing: ").concat(path))
    }
}

/// Row of an SDK component: `found` when it is present, else `Warn` "missing".
pub fn package_status(label: &str, found: &str, exists: bool) -> (r: StatusRow)
    ensures
        r@ == package_row(label@, found@, exists),
{
    if exists {
        StatusRow::new(label, StatusState::Pass, owned(found))
    } else {
        StatusRow::new(label, StatusState::Warn, owned("missing"))
    }
}

/// Row of a project directory at `path`.
pub fn path_status(label: &str, path: &str, exists: bool) -> (r: StatusRow)
    ensures
        r@ == project_row(label@, path@, exists),
{
    if exists {
        StatusRow::new(label, StatusState::Pass, owned(path))
    } else {
        StatusRow::new(label, StatusState::Fail, owned("missing"))
    }
}

/// Row of a port listener query: `Pass` "listening" when the query succeeded
/// and printed something, `Fail` when it timed out or crashed, else `Warn`.
pub fn port_status(label: &str, o: &Observation) -> (r: StatusRow)
    ensures
        r@ == port_row(label@, o@),
{
    if let Some(f) = fault_status(label, o) {
        return f;
    }
    match o {
        Observation::Ran { success, stdout, .. } if *success && stdout.as_str().unicode_len() > 0 => {
            StatusRow::new(label, StatusState::Pass, owned("listening"))
        },
        _ => StatusRow::new(label, StatusState::Warn, owned("idle")),
    }
}

/// Keeps the device lines of a trimmed listing: every line after the first
/// that ends with "device", in order.
pub fn select_devices(lines: &Vec<String>) -> (r: Vec<String>)
    ensures
        texts_view(r@) == kept_devices(texts_view(lines@)),
{
    let ghost lv = texts_view(lines@);
    let mut found: Vec<String> = Vec::new();
    if lines.len() == 0 {
        assert(texts_view(found@) =~= kept_devices(lv));
        return found;
    }
    assert(kept_devices(lv.subrange(0, 1)) == Seq::<Seq<char>>::empty());
    assert(texts_view(found@) =~= Seq::<Seq<char>>::empty());
    let mut i: usize = 1;
    while i < lines.len()
        invariant
            1 <= i <= lines@.len(),
            lv == texts_view(lines@),
            texts_view(found@) == kept_devices(lv.subrange(0, i as int)),
        decreases lines@.len() - i,
    {
        proof {
            let next = lv.subrange(0, i + 1);
            assert(next.drop_last() =~= lv.subrange(0, i as int));
            assert(next.last() == lines@[i as int]@);
        }
        let ghost before = found@;
        if text_ends_with(lines[i].as_str(), "device") {
            found.push(lines[i].clone());
            assert(texts_view(found@) =~= texts_view(before).push(lines@[i as int]@));
        }
        i += 1;
    }
    assert(lv.subrange(0, lines@.len() as int) =~= lv);
    found
}

/// The attached devices named in a device listing.
pub fn device_lines(stdout: &str) -> (r: Vec<String>)
    ensures
        texts_view(r@) == device_entries(lines_of(stdout@)),
{
    let lines = split_lines(stdout);
    let ghost lv = texts_view(lines@);
    let mut trimmed_lines: Vec<String> = Vec::new();
    let mut i: usize = 0;
    while i < lines.len()
        invariant
            i <= lines@.len(),
            lv == texts_view(lines@),
            trimmed_lines@.len() == i,
            forall|k: int| 0 <= k < i ==> #[trigger] trimmed_lines@[k]@ == trim_of(lv[k]),
        decreases lines@.len() - i,
    {
        trimmed_lines.push(trimmed(lines[i].as_str()));
        i += 1;
    }
    assert(texts_view(trimmed_lines@) =~= lv.map_values(|l: Seq<char>| trim_of(l)));
    select_devices(&trimmed_lines)
}

/// Row of a device listing: the devices joined by "; ", `Fail` when the
/// listing timed out or crashed, or `Warn` when there are none or it failed.
pub fn device_status(label: &str, o: &Observation) -> (r: StatusRow)
    ensures
        r@ == devices_row(label@, o@),
{
    if let Some(f) = fault_status(label, o) {
        return f;
    }
    match o {
        Observation::Ran { success, stdout, .. } if *success => {
            let found = device_lines(stdout.as_str());
            if found.len() == 0 {
                StatusRow::new(label, StatusState::Warn, owned("none"))
            } else {
                StatusRow::new(label, StatusState::Pass, join_texts(&found, "; "))
            }
        },
        _ => StatusRow::new(label, StatusState::Warn, owned("unable to query")),
    }
}

impl Probe {
    /// The row this probe reports for what it saw. Never fails: a crash or a
    /// timeout becomes a `Fail` row that says so.
    pub fn row(&self, o: &Observation) -> (r: StatusRow)
        ensures
            r@ == probe_row_spec(*self, o@),
    {
        let label = self.label.as_str();
        if let Some(f) = fault_status(label, o) {
            return f;
        }
        let exists = match o {
            Observation::Exists(b) => *b,
            _ => false,
        };
        let path = match &self.check {
            Check::Run { .. } => "",
            Check::Exists(p) => p.as_str(),
        };
        assert(path@ == check_path(self.check)) by {
            reveal_strlit("");
        }
        match &self.rule {
            Rule::Version => cmd_version(label, o),
            Rule::Tool { absent } => tool_status(label, absent.as_str(), o),
            Rule::Directory => directory_status(label, path, exists),
            Rule::Package { found } => package_status(label, found.as_str(), exists),
            Rule::Devices => device_status(label, o),
            Rule::Port => port_status(label, o),
            Rule::Project => path_status(label, path, exists),
        }
    }
}

} // verus!
