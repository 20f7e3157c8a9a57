//! The fixed set of checks, grouped into sections, and the paths they use.
use vstd::prelude::*;
use crate::collect::SectionSpec;
use crate::probe::{Check, CheckView, Probe, ProbeView, Rule, RuleView};
use crate::text::{owned, texts_view, words1, words2, words3};

verus! {

/// The decimal digits of `n`, most significant first, without leading zeros.
pub open spec fn decimal(n: nat) -> Seq<char>
    decreases n,
{
    if n < 10 {
        seq!["0123456789"@[n as int]]
    } else {
        decimal(n / 10).push("0123456789"@[(n % 10) as int])
    }
}

/// Appends the decimal digits of `n` to `out`.
fn push_decimal(n: u16, out: &mut String)
    ensures
        final(out)@ == old(out)@ + decimal(n as nat),
    decreases n,
{
    if n >= 10 {
        push_decimal(n / 10, out);
    }
    let digits = "0123456789";
    proof {
        reveal_strlit("0123456789");
    }
    let d = (n % 10) as usize;
    let one = digits.substring_char(d, d + 1);
    assert(one@ =~= seq!["0123456789"@[d as int]]);
    let ghost before = out@;
    out.append(one);
    proof {
        if n >= 10 {
            assert(decimal(n as nat) == decimal((n / 10) as nat).push("0123456789"@[d as int]));
        }
        assert(out@ =~= old(out)@ + decimal(n as nat));
    }
}

/// The decimal digits of `n`.
fn decimal_text(n: u16) -> (r: String)
    ensures
        r@ == decimal(n as nat),
{
    let mut r = String::new();
    push_decimal(n, &mut r);
    assert(r@ =~= decimal(n as nat));
    r
}

/// The SDK directory: the configured one when set, else `Library/Android/sdk`
/// under the home directory (under the empty text when that is unset too).
pub open spec fn android_home_spec(configured: Option<Seq<char>>, home: Option<Seq<char>>) -> Seq<
    char,
> {
    match configured {
        Some(c) => c,
        None => match home {
            Some(h) => h + "/Library/Android/sdk"@,
            None => "/Library/Android/sdk"@,
        },
    }
}

/// Picks the SDK directory from the configured value and the home directory.
pub fn android_home(configured: Option<String>, home: Option<String>) -> (r: String)
    ensures
        r@ == android_home_spec(
            match configured {
                Some(c) => Some(c@),
                None => None,
            },
            match home {
                Some(h) => Some(h@),
                None => None,
            },
        ),
{
    match configured {
        Some(c) => c,
        None => match home {
            Some(h) => h.concat("/Library/Android/sdk"),
            None => String::from_str("/Library/Android/sdk"),
        },
    }
}

/// `relative` under `base`, joined by one slash.
pub fn sdk_path(base: &str, relative: &str) -> (r: String)
    ensures
        r@ == base@ + "/"@ + relative@,
{
    String::from_str(base).concat("/").concat(relative)
}

pub open spec fn run(label: Seq<char>, program: Seq<char>, args: Seq<Seq<char>>, rule: RuleView) -> ProbeView {
    ProbeView { label, check: CheckView::Run(program, args), rule }
}

pub open spec fn look(label: Seq<char>, path: Seq<char>, rule: RuleView) -> ProbeView {
    ProbeView { label, check: CheckView::Exists(path), rule }
}

pub open spec fn port_spec(port: nat) -> ProbeView {
    run(
        "port:"@ + decimal(port),
        "lsof"@,
        seq!["-i"@, "tcp:"@ + decimal(port), "-sTCP:LISTEN"@],
        RuleView::Port,
    )
}

/// The checks of each section, for the SDK directory `home`: titles and
/// probes in display order.
pub open spec fn registry_spec(home: Seq<char>) -> Seq<(Seq<char>, Seq<ProbeView>)> {
    let sdk = |rel: Seq<char>| home + "/"@ + rel;
    seq![
        (
            "System"@,
            seq![
                run("node"@, "node"@, seq!["-v"@], RuleView::Version),
                run("npm"@, "npm"@, seq!["-v"@], RuleView::Version),
                run(
                    "java"@,
                    "/usr/libexec/java_home"@,
                    seq!["-v"@, "17"@],
                    RuleView::Tool("Java 17 not detected"@),
                ),
            ],
        ),
        (
            "Android"@,
            seq![
                look("ANDROID_HOME"@, home, RuleView::Directory),
                look(
                    "sdkmanager"@,
                    sdk("cmdline-tools/latest/bin/sdkmanager"@),
                    RuleView::Package("found"@),
                ),
                look("platform-tools"@, sdk("platform-tools"@), RuleView::Package("installed"@)),
                look(
                    "platforms;android-34"@,
                    sdk("platforms/android-34"@),
                    RuleView::Package("installed"@),
                ),
                look(
                    "build-tools;34.0.0"@,
                    sdk("build-tools/34.0.0"@),
                    RuleView::Package("installed"@),
                ),
                run("adb"@, "adb"@, seq!["version"@], RuleView::Tool("adb unavailable"@)),
                run("adb devices"@, "adb"@, seq!["devices"@, "-l"@], RuleView::Devices),
            ],
        ),
        (
            "iOS"@,
            seq![
                run("xcode-select"@, "xcode-select"@, seq!["-p"@], RuleView::Tool("not configured"@)),
                run("cocoapods"@, "pod"@, seq!["--version"@], RuleView::Tool("not installed"@)),
            ],
        ),
        ("Ports"@, seq![port_spec(3000), port_spec(3001), port_spec(3100)]),
        (
            "Projects"@,
            seq![
                look("shopper-lab"@, "frontend/nativescript/shopper-lab"@, RuleView::Project),
                look("brand-lab"@, "frontend/nativescript/brand-lab"@, RuleView::Project),
            ],
        ),
    ]
}

/// A list of probes as values.
pub open spec fn probes_view(ps: Seq<Probe>) -> Seq<ProbeView> {
    ps.map_values(|p: Probe| p@)
}

/// `s` is section `i` of the table for `home`.
pub open spec fn is_section(s: SectionSpec, home: Seq<char>, i: int) -> bool {
    s.title@ == registry_spec(home)[i].0 && probes_view(s.probes@) == registry_spec(home)[i].1
}

fn run_probe(label: String, program: &str, args: Vec<String>, rule: Rule) -> (p: Probe)
    ensures
        p.label@ == label@,
        p@.check == CheckView::Run(program@, texts_view(args@)),
        p.rule == rule,
{
    Probe { label, check: Check::Run { program: owned(program), args }, rule }
}

fn exists_probe(label: &str, path: String, rule: Rule) -> (p: Probe)
    ensures
        p.label@ == label@,
        p@.check == CheckView::Exists(path@),
        p.rule == rule,
{
    Probe { label: owned(label), check: Check::Exists(path), rule }
}

fn tool(absent: &str) -> (r: Rule)
    ensures
        r matches Rule::Tool { absent: a } && a@ == absent@,
{
    Rule::Tool { absent: owned(absent) }
}

fn package(found: &str) -> (r: Rule)
    ensures
        r matches Rule::Package { found: f } && f@ == found@,
{
    Rule::Package { found: owned(found) }
}

fn port_probe(port: u16) -> (p: Probe)
    ensures
        p@ == port_spec(port as nat),
{
    let digits = decimal_text(port);
    let args = words3("-i", owned("tcp:").concat(digits.as_str()).as_str(), "-sTCP:LISTEN");
    run_probe(owned("port:").concat(digits.as_str()), "lsof", args, Rule::Port)
}

fn system_section() -> (s: SectionSpec)
    ensures
        forall|home: Seq<char>| is_section(s, home, 0),
{
    let probes = vec![
        run_probe(owned("node"), "node", words1("-v"), Rule::Version),
        run_probe(owned("npm"), "npm", words1("-v"), Rule::Version),
        run_probe(owned("java"), "/usr/libexec/java_home", words2("-v", "17"), tool("Java 17 not detected")),
    ];
    let s = SectionSpec { title: owned("System"), probes };
    assert forall|home: Seq<char>| is_section(s, home, 0) by {
        assert(probes_view(s.probes@) =~= registry_spec(home)[0].1);
    }
    s
}

fn android_section(home: &str) -> (s: SectionSpec)
    ensures
        is_section(s, home@, 1),
{
    let probes = vec![
        exists_probe("ANDROID_HOME", owned(home), Rule::Directory),
        exists_probe("sdkmanager", sdk_path(home, "cmdline-tools/latest/bin/sdkmanager"), package("found")),
        exists_probe("platform-tools", sdk_path(home, "platform-tools"), package("installed")),
        exists_probe("platforms;android-34", sdk_path(home, "platforms/android-34"), package("installed")),
        exists_probe("build-tools;34.0.0", sdk_path(home, "build-tools/34.0.0"), package("installed")),
        run_probe(owned("adb"), "adb", words1("version"), tool("adb unavailable")),
        run_probe(owned("adb devices"), "adb", words2("devices", "-l"), Rule::Devices),
    ];
    let s = SectionSpec { title: owned("Android"), probes };
    assert(probes_view(s.probes@) =~= registry_spec(home@)[1].1);
    s
}

fn ios_section() -> (s: SectionSpec)
    ensures
        forall|home: Seq<char>| is_section(s, home, 2),
{
    let probes = vec![
        run_probe(owned("xcode-select"), "xcode-select", words1("-p"), tool("not configured")),
        run_probe(owned("cocoapods"), "pod", words1("--version"), tool("not installed")),
    ];
    let s = SectionSpec { title: owned("iOS"), probes };
    assert forall|home: Seq<char>| is_section(s, home, 2) by {
        assert(probes_view(s.probes@) =~= registry_spec(home)[2].1);
    }
    s
}

fn ports_section() -> (s: SectionSpec)
    ensures
        forall|home: Seq<char>| is_section(s, home, 3),
{
    let probes = vec![port_probe(3000), port_probe(3001), port_probe(3100)];
    let s = SectionSpec { title: owned("Ports"), probes };
    assert forall|home: Seq<char>| is_section(s, home, 3) by {
        assert(probes_view(s.probes@) =~= registry_spec(home)[3].1);
    }
    s
}

fn projects_section() -> (s: SectionSpec)
    ensures
        forall|home: Seq<char>| is_section(s, home, 4),
{
    let probes = vec![
        exists_probe("shopper-lab", owned("frontend/nativescript/shopper-lab"), Rule::Project),
        exists_probe("brand-lab", owned("frontend/nativescript/brand-lab"), Rule::Project),
    ];
    let s = SectionSpec { title: owned("Projects"), probes };
    assert forall|home: Seq<char>| is_section(s, home, 4) by {
        assert(probes_view(s.probes@) =~= registry_spec(home)[4].1);
    }
    s
}

/// The registry for an SDK directory `home`: five sections, each with its
/// probes in display order, as `registry_spec` lists them.
pub fn registry(home: &str) -> (r: Vec<SectionSpec>)
    ensures
        r@.len() == registry_spec(home@).len(),
        forall|i: int| 0 <= i < r@.len() ==> #[trigger] is_section(r@[i], home@, i),
{
    let r = vec![
        system_section(),
        android_section(home),
        ios_section(),
        ports_section(),
        projects_section(),
    ];
    r
}

} // verus!
