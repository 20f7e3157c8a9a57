use lab_monitor::actions::{build_actions, remediation, Action};
use lab_monitor::collect::{collect_sections, CollectionError, SectionSpec};
use lab_monitor::probe::{
    cmd_version, device_status, package_status, path_status, port_status, select_devices,
    tool_status, Check,
    Observation, Probe, Rule,
};
use lab_monitor::refresh::{poll_timeout_ms, refresh_due, RefreshGate};
use lab_monitor::registry::{android_home, registry, sdk_path};
use lab_monitor::state::{App, Effect, Key};
use lab_monitor::status::{Section, StatusColor, StatusRow, StatusState};

fn row(label: &str, state: StatusState, detail: &str) -> StatusRow {
    StatusRow { label: label.to_string(), state, detail: detail.to_string() }
}

fn section(title: &str, rows: Vec<StatusRow>) -> Section {
    Section { title: title.to_string(), rows }
}

fn ran(success: bool, stdout: &str) -> Observation {
    Observation::Ran { success, stdout: stdout.to_string(), status: "exit status: 1".to_string() }
}

fn probe(label: &str, rule: Rule) -> Probe {
    Probe {
        label: label.to_string(),
        check: Check::Run { program: label.to_string(), args: vec![] },
        rule,
    }
}

fn tool(label: &str) -> Probe {
    probe(label, Rule::Tool { absent: "absent".to_string() })
}

#[test]
fn state_labels_and_colors() {
    assert_eq!(StatusState::Pass.label(), "OK");
    assert_eq!(StatusState::Warn.label(), "WARN");
    assert_eq!(StatusState::Fail.label(), "FAIL");
    assert_eq!(StatusState::Pass.color(), StatusColor::Green);
    assert_eq!(StatusState::Warn.color(), StatusColor::Yellow);
    assert_eq!(StatusState::Fail.color(), StatusColor::Red);
}

#[test]
fn version_row_trims_output() {
    let r = cmd_version("node", &ran(true, "  v20.1.0\n"));
    assert_eq!(r.label, "node");
    assert_eq!(r.state, StatusState::Pass);
    assert_eq!(r.detail, "v20.1.0");
}

#[test]
fn version_row_reports_exit_status_and_launch_error() {
    let r = cmd_version("npm", &ran(false, "x"));
    assert_eq!(r.state, StatusState::Fail);
    assert_eq!(r.detail, "exit exit status: 1");
    let r = cmd_version("npm", &Observation::NotStarted("not found".to_string()));
    assert_eq!(r.state, StatusState::Fail);
    assert_eq!(r.detail, "not found");
}

#[test]
fn tool_row_warns_when_absent() {
    let r = tool_status("java", "Java 17 not detected", &ran(false, ""));
    assert_eq!(r.state, StatusState::Warn);
    assert_eq!(r.detail, "Java 17 not detected");
    let r = tool_status("java", "Java 17 not detected", &ran(true, "/opt/jdk17\n"));
    assert_eq!(r.state, StatusState::Pass);
    assert_eq!(r.detail, "/opt/jdk17");
}

#[test]
fn package_and_path_rows() {
    let r = package_status("platform-tools", "installed", true);
    assert_eq!((r.state, r.detail.as_str()), (StatusState::Pass, "installed"));
    let r = package_status("platform-tools", "installed", false);
    assert_eq!((r.state, r.detail.as_str()), (StatusState::Warn, "missing"));
    let r = path_status("brand-lab", "frontend/nativescript/brand-lab", true);
    assert_eq!((r.state, r.detail.as_str()), (StatusState::Pass, "frontend/nativescript/brand-lab"));
    let r = path_status("brand-lab", "frontend/nativescript/brand-lab", false);
    assert_eq!((r.state, r.detail.as_str()), (StatusState::Fail, "missing"));
}

#[test]
fn port_row_needs_output() {
    assert_eq!(port_status("port:3000", &ran(true, "node 123 LISTEN")).detail, "listening");
    assert_eq!(port_status("port:3000", &ran(true, "")).state, StatusState::Warn);
    assert_eq!(port_status("port:3000", &ran(false, "x")).detail, "idle");
}

#[test]
fn device_listing_is_parsed() {
    let out = "List of devices attached\nemulator-5554 device\n  pixel7   device \nabc unauthorized\n";
    let r = device_status("adb devices", &ran(true, out));
    assert_eq!(r.state, StatusState::Pass);
    assert_eq!(r.detail, "emulator-5554 device; pixel7   device");
    let r = device_status("adb devices", &ran(true, "List of devices attached\n\n"));
    assert_eq!((r.state, r.detail.as_str()), (StatusState::Warn, "none"));
    let r = device_status("adb devices", &ran(false, ""));
    assert_eq!(r.detail, "unable to query");
}

#[test]
fn crashed_and_timed_out_probes_become_fail_rows() {
    let p = tool("java");
    let r = p.row(&Observation::Crashed("boom".to_string()));
    assert_eq!(r.state, StatusState::Fail);
    assert_eq!(r.detail, "probe failed: boom");
    let r = p.row(&Observation::Crashed(String::new()));
    assert_eq!(r.state, StatusState::Fail);
    assert!(!r.detail.is_empty());
    let r = p.row(&Observation::TimedOut);
    assert_eq!((r.state, r.detail.as_str()), (StatusState::Fail, "timed out"));
}

#[test]
fn crashing_probe_does_not_fail_collection() {
    let reg = vec![SectionSpec { title: "System".to_string(), probes: vec![tool("a"), tool("b")] }];
    let obs = vec![vec![Observation::Crashed("panic".to_string()), ran(true, "1.0")]];
    let snap = collect_sections(&reg, &obs).unwrap();
    assert_eq!(snap[0].rows[0].state, StatusState::Fail);
    assert!(!snap[0].rows[0].detail.is_empty());
    assert_eq!(snap[0].rows[1].state, StatusState::Pass);
}

#[test]
fn snapshot_follows_registry_order() {
    let reg = vec![
        SectionSpec { title: "One".to_string(), probes: vec![tool("a"), tool("b"), tool("c")] },
        SectionSpec { title: "Two".to_string(), probes: vec![tool("d")] },
    ];
    let obs = vec![vec![ran(true, "3"), ran(false, ""), ran(true, "1")], vec![ran(true, "2")]];
    let snap = collect_sections(&reg, &obs).unwrap();
    let titles: Vec<&str> = snap.iter().map(|s| s.title.as_str()).collect();
    assert_eq!(titles, vec!["One", "Two"]);
    let labels: Vec<&str> = snap[0].rows.iter().map(|r| r.label.as_str()).collect();
    assert_eq!(labels, vec!["a", "b", "c"]);
    assert_eq!(snap[0].rows[0].detail, "3");
    assert_eq!(snap[0].rows[2].detail, "1");
    assert_eq!(snap[1].rows[0].label, "d");
}

#[test]
fn missing_observation_is_a_collection_error() {
    let reg = vec![SectionSpec { title: "One".to_string(), probes: vec![tool("a"), tool("b")] }];
    let obs = vec![vec![ran(true, "1")]];
    assert_eq!(collect_sections(&reg, &obs).unwrap_err(), CollectionError::Incomplete);
    assert_eq!(collect_sections(&reg, &vec![]).unwrap_err(), CollectionError::Incomplete);
    assert!(!CollectionError::Incomplete.message().is_empty());
}

#[test]
fn registry_layout() {
    let reg = registry("/sdk");
    let titles: Vec<&str> = reg.iter().map(|s| s.title.as_str()).collect();
    assert_eq!(titles, vec!["System", "Android", "iOS", "Ports", "Projects"]);
    let ports: Vec<&str> = reg[3].probes.iter().map(|p| p.label.as_str()).collect();
    assert_eq!(ports, vec!["port:3000", "port:3001", "port:3100"]);
    match &reg[3].probes[2].check {
        Check::Run { program, args } => {
            assert_eq!(program, "lsof");
            assert_eq!(args, &vec!["-i".to_string(), "tcp:3100".to_string(), "-sTCP:LISTEN".to_string()]);
        }
        Check::Exists(_) => panic!("port probe runs a process"),
    }
    match &reg[1].probes[2].check {
        Check::Exists(p) => assert_eq!(p, "/sdk/platform-tools"),
        Check::Run { .. } => panic!("package probe looks at a path"),
    }
}

#[test]
fn android_home_choice() {
    assert_eq!(android_home(Some("/opt/sdk".to_string()), Some("/home/u".to_string())), "/opt/sdk");
    assert_eq!(android_home(None, Some("/home/u".to_string())), "/home/u/Library/Android/sdk");
    assert_eq!(android_home(None, None), "/Library/Android/sdk");
    assert_eq!(sdk_path("/sdk", "build-tools/34.0.0"), "/sdk/build-tools/34.0.0");
}

#[test]
fn no_actions_when_all_rows_pass() {
    let snap = vec![section(
        "System",
        vec![
            row("java", StatusState::Pass, "17"),
            row("adb", StatusState::Pass, "1.0"),
            row("cocoapods", StatusState::Pass, "1.15"),
        ],
    )];
    assert!(build_actions(&snap).is_empty());
}

#[test]
fn one_action_per_flagged_row_in_order() {
    let snap = vec![section(
        "System",
        vec![
            row("node", StatusState::Pass, "v20"),
            row("java", StatusState::Fail, "missing"),
            row("adb", StatusState::Warn, "adb unavailable"),
        ],
    )];
    let actions: Vec<Action> = build_actions(&snap);
    assert_eq!(actions.len(), 2);
    assert_eq!((actions[0].label.as_str(), actions[0].section_idx, actions[0].row_idx), ("java", 0, 1));
    assert_eq!((actions[1].label.as_str(), actions[1].section_idx, actions[1].row_idx), ("adb", 0, 2));
    assert_eq!(actions[1].command, Some(vec!["adb".to_string(), "start-server".to_string()]));
}

#[test]
fn rows_without_remedy_get_no_action() {
    let snap = vec![
        section("A", vec![row("node", StatusState::Fail, "exit 1")]),
        section("B", vec![row("ANDROID_HOME", StatusState::Fail, "missing: /sdk")]),
    ];
    let actions = build_actions(&snap);
    assert_eq!(actions.len(), 1);
    assert_eq!((actions[0].section_idx, actions[0].row_idx), (1, 0));
    assert_eq!(actions[0].command, None);
    assert!(remediation("unknown").is_none());
    assert!(remediation("cocoapods").is_some());
}

fn two_sections() -> Vec<Section> {
    vec![
        section(
            "A",
            vec![
                row("node", StatusState::Pass, ""),
                row("npm", StatusState::Pass, ""),
                row("java", StatusState::Fail, ""),
            ],
        ),
        section("B", vec![row("adb", StatusState::Warn, ""), row("sdkmanager", StatusState::Warn, "")]),
    ]
}

#[test]
fn down_stops_at_last_row() {
    let mut app = App::new();
    app.refresh(Ok(two_sections()), 10);
    app.handle_key(Key::Down);
    app.handle_key(Key::Down);
    assert_eq!(app.selected_row, 2);
    app.handle_key(Key::Down);
    assert_eq!(app.selected_row, 2);
    app.handle_key(Key::Up);
    app.handle_key(Key::Up);
    app.handle_key(Key::Up);
    assert_eq!(app.selected_row, 0);
}

#[test]
fn switching_sections_resets_row() {
    let mut app = App::new();
    app.refresh(Ok(two_sections()), 10);
    app.handle_key(Key::Down);
    app.handle_key(Key::Down);
    assert_eq!((app.selected_section, app.selected_row), (0, 2));
    app.handle_key(Key::Right);
    assert_eq!((app.selected_section, app.selected_row), (1, 0));
    app.handle_key(Key::Down);
    app.handle_key(Key::Right);
    assert_eq!((app.selected_section, app.selected_row), (1, 1));
    app.handle_key(Key::Left);
    assert_eq!((app.selected_section, app.selected_row), (0, 0));
    app.handle_key(Key::Left);
    assert_eq!((app.selected_section, app.selected_row), (0, 0));
}

#[test]
fn keys_on_empty_dashboard() {
    let mut app = App::new();
    for k in [Key::Up, Key::Down, Key::Left, Key::Right, Key::Other] {
        assert!(matches!(app.handle_key(k), Effect::Stay));
    }
    assert_eq!((app.selected_section, app.selected_row), (0, 0));
    assert!(matches!(app.handle_key(Key::Enter), Effect::Stay));
    assert!(matches!(app.handle_key(Key::Refresh), Effect::Refresh));
    assert!(matches!(app.handle_key(Key::Quit), Effect::Quit));
}

#[test]
fn enter_runs_action_at_cursor() {
    let mut app = App::new();
    app.refresh(Ok(two_sections()), 10);
    assert!(matches!(app.handle_key(Key::Enter), Effect::Stay));
    app.handle_key(Key::Down);
    app.handle_key(Key::Down);
    match app.handle_key(Key::Enter) {
        Effect::Run(c) => assert_eq!(c, vec!["brew", "install", "--cask", "zulu@17"]),
        _ => panic!("expected a command"),
    }
}

#[test]
fn failed_refresh_keeps_snapshot() {
    let mut app = App::new();
    let first = vec![
        section("A", vec![row("node", StatusState::Pass, "v20")]),
        section("B", vec![row("adb", StatusState::Warn, "adb unavailable")]),
    ];
    app.refresh(Ok(first), 100);
    assert_eq!(app.sections.len(), 2);
    assert_eq!(app.actions.len(), 1);
    assert!(app.last_error.is_none());
    app.refresh(Err(CollectionError::Incomplete), 200);
    assert_eq!(app.sections.len(), 2);
    assert_eq!(app.sections[0].title, "A");
    assert_eq!(app.sections[0].rows[0].detail, "v20");
    assert_eq!(app.sections[1].rows[0].label, "adb");
    assert_eq!(app.actions.len(), 1);
    assert_eq!(app.last_updated, Some(100));
    assert!(!app.last_error.clone().unwrap().is_empty());
    app.refresh(Ok(vec![section("C", vec![])]), 300);
    assert!(app.last_error.is_none());
    assert_eq!(app.last_updated, Some(300));
}

#[test]
fn refresh_pulls_cursor_into_smaller_snapshot() {
    let mut app = App::new();
    app.refresh(Ok(two_sections()), 1);
    app.handle_key(Key::Right);
    app.handle_key(Key::Down);
    assert_eq!((app.selected_section, app.selected_row), (1, 1));
    app.refresh(Ok(vec![section("A", vec![row("node", StatusState::Pass, "")])]), 2);
    assert_eq!((app.selected_section, app.selected_row), (0, 0));
}

#[test]
fn action_failure_is_recorded() {
    let mut app = App::new();
    app.record_action_failure("could not start brew".to_string());
    assert_eq!(app.last_error.as_deref(), Some("could not start brew"));
}

#[test]
fn repeated_refresh_requests_coalesce() {
    let mut gate = RefreshGate::new();
    assert!(gate.request());
    let mut started = 1;
    for _ in 0..10 {
        if gate.request() {
            started += 1;
        }
    }
    assert_eq!(started, 1);
    assert!(gate.finish());
    assert!(!gate.request());
    assert!(gate.finish());
    assert!(!gate.finish());
    assert!(!gate.in_flight);
    assert!(!gate.finish());
}

#[test]
fn refresh_timer() {
    assert_eq!(poll_timeout_ms(0), 2000);
    assert_eq!(poll_timeout_ms(1500), 500);
    assert_eq!(poll_timeout_ms(2000), 0);
    assert_eq!(poll_timeout_ms(u64::MAX), 0);
    assert!(!refresh_due(1999));
    assert!(refresh_due(2000));
}

#[test]
fn select_devices_skips_header_and_other_states() {
    let lines: Vec<String> = ["device", "a device", "b offline", "c device"].iter().map(|s| s.to_string()).collect();
    assert_eq!(select_devices(&lines), vec!["a device".to_string(), "c device".to_string()]);
    assert!(select_devices(&vec![]).is_empty());
    assert!(select_devices(&vec!["x device".to_string()]).is_empty());
}

#[test]
fn remediation_table_entries() {
    let r = remediation("java").unwrap();
    assert_eq!(r.description, "Install JDK 17: brew install --cask zulu@17");
    assert_eq!(r.command, Some(vec!["brew".to_string(), "install".to_string(), "--cask".to_string(), "zulu@17".to_string()]));
    assert_eq!(remediation("ANDROID_HOME").unwrap().command, None);
    assert!(remediation("jav").is_none());
    assert!(remediation("java ").is_none());
}

#[test]
fn timed_out_queries_fail_with_reason() {
    let r = cmd_version("node", &Observation::TimedOut);
    assert_eq!((r.state, r.detail.as_str()), (StatusState::Fail, "timed out"));
    let r = tool_status("java", "Java 17 not detected", &Observation::TimedOut);
    assert_eq!((r.state, r.detail.as_str()), (StatusState::Fail, "timed out"));
    let r = port_status("port:3000", &Observation::TimedOut);
    assert_eq!((r.state, r.detail.as_str()), (StatusState::Fail, "timed out"));
    let r = device_status("adb devices", &Observation::TimedOut);
    assert_eq!((r.state, r.detail.as_str()), (StatusState::Fail, "timed out"));
}

#[test]
fn crashed_queries_fail_with_reason() {
    let crash = Observation::Crashed("boom".to_string());
    assert_eq!(cmd_version("node", &crash).detail, "probe failed: boom");
    assert_eq!(tool_status("adb", "adb unavailable", &crash).state, StatusState::Fail);
    assert_eq!(port_status("port:3000", &crash).state, StatusState::Fail);
    assert_eq!(device_status("adb devices", &crash).detail, "probe failed: boom");
}

#[test]
fn empty_launch_error_still_explains() {
    let r = cmd_version("npm", &Observation::NotStarted(String::new()));
    assert_eq!((r.state, r.detail.as_str()), (StatusState::Fail, "could not start"));
}

#[test]
fn version_output_loses_unicode_white_space() {
    let r = cmd_version("node", &ran(true, "\u{3000}\t v1 \u{a0}\u{2028}\r\n"));
    assert_eq!(r.detail, "v1");
    let r = cmd_version("node", &ran(true, "\u{200b}v1"));
    assert_eq!(r.detail, "\u{200b}v1");
}

#[test]
fn device_listing_line_endings() {
    let out = "List of devices attached\r\nA device\r\n\nB device\rC device";
    let r = device_status("adb devices", &ran(true, out));
    assert_eq!(r.detail, "A device; B device\rC device");
    let r = device_status("adb devices", &ran(true, "header\nX device\r"));
    assert_eq!(r.detail, "X device");
}
