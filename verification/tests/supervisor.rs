use sidecar_supervisor::invocation::build_invocation;
use sidecar_supervisor::invocation::Invocation;
use sidecar_supervisor::monitor::EventMonitor;
use sidecar_supervisor::monitor::MonitorAction;
use sidecar_supervisor::monitor::OutputEvent;
use sidecar_supervisor::platform::triple_string;
use sidecar_supervisor::platform::Platform;
use sidecar_supervisor::resolver::AuxPathConfig;
use sidecar_supervisor::resolver::PathResolver;
use sidecar_supervisor::scan::chars_of;
use sidecar_supervisor::scan::contains_chars;
use sidecar_supervisor::shutdown::ShutdownCoordinator;

#[test]
fn triples_are_fixed_per_platform() {
    assert_eq!(triple_string(Platform::Linux).as_str(), "x86_64-unknown-linux-gnu");
    assert_eq!(triple_string(Platform::Windows).as_str(), "x86_64-pc-windows-msvc");
    assert_eq!(triple_string(Platform::Unknown).as_str(), "unknown");
}

#[test]
fn candidates_follow_naming_scheme() {
    let r = PathResolver::new(Platform::Linux, Some("/app/resources"), "/work");
    assert_eq!(
        r.next_probe().unwrap().as_str(),
        "/app/resources/binaries/tracy-x86_64-unknown-linux-gnu"
    );
    assert_eq!(
        r.dev_candidate.as_str(),
        "/work/src-tauri/binaries/tracy-x86_64-unknown-linux-gnu"
    );

    let w = PathResolver::new(Platform::Windows, Some("C:/res"), "C:/work");
    assert_eq!(
        w.next_probe().unwrap().as_str(),
        "C:/res/binaries/tracy-x86_64-pc-windows-msvc"
    );

    let u = PathResolver::new(Platform::Unknown, Some("/r"), "/w");
    assert_eq!(u.next_probe().unwrap().as_str(), "/r/binaries/tracy-unknown");
}

#[test]
fn resource_candidate_found_skips_dev_candidate() {
    let mut r = PathResolver::new(Platform::Linux, Some("/res"), "/work");
    let first = r.next_probe().unwrap();
    assert_eq!(first.as_str(), "/res/binaries/tracy-x86_64-unknown-linux-gnu");
    r.note_probe(true);
    assert!(r.finished());
    let config = r.into_config();
    assert_eq!(
        config.resolved_path.as_deref(),
        Some("/res/binaries/tracy-x86_64-unknown-linux-gnu")
    );
}

#[test]
fn resource_candidate_missing_falls_back_to_dev_candidate() {
    let mut r = PathResolver::new(Platform::Linux, Some("/res"), "/work");
    r.note_probe(false);
    assert!(!r.finished());
    let second = r.next_probe().unwrap();
    assert_eq!(second.as_str(), "/work/src-tauri/binaries/tracy-x86_64-unknown-linux-gnu");
    r.note_probe(true);
    assert!(r.finished());
    let config = r.into_config();
    assert_eq!(
        config.resolved_path.as_deref(),
        Some("/work/src-tauri/binaries/tracy-x86_64-unknown-linux-gnu")
    );
}

#[test]
fn missing_resource_dir_starts_at_dev_candidate() {
    let r = PathResolver::new(Platform::Linux, None, "/work");
    let first = r.next_probe().unwrap();
    assert_eq!(first.as_str(), "/work/src-tauri/binaries/tracy-x86_64-unknown-linux-gnu");
}

#[test]
fn no_existing_candidate_resolves_to_no_path_and_bare_invocation() {
    let mut r = PathResolver::new(Platform::Linux, Some("/res"), "/work");
    r.note_probe(false);
    r.note_probe(false);
    assert!(r.finished());
    let config = r.into_config();
    assert!(config.resolved_path.is_none());

    let inv: Invocation = build_invocation(&config);
    assert_eq!(inv.program.as_str(), "bio-engine");
    assert!(inv.args.is_empty());
    assert!(inv.env.is_empty());
}

#[test]
fn resolved_path_augments_invocation_with_identical_string() {
    let config = AuxPathConfig {
        platform_triple: triple_string(Platform::Linux),
        resolved_path: Some(String::from("/res/binaries/tracy-x86_64-unknown-linux-gnu")),
    };
    let inv = build_invocation(&config);
    assert_eq!(inv.program.as_str(), "bio-engine");
    assert_eq!(inv.args.len(), 2);
    assert_eq!(inv.args[0].as_str(), "--tracy-path");
    assert_eq!(inv.args[1].as_str(), "/res/binaries/tracy-x86_64-unknown-linux-gnu");
    assert_eq!(inv.env.len(), 1);
    assert_eq!(inv.env[0].0.as_str(), "TRACY_PATH");
    assert_eq!(inv.env[0].1.as_str(), inv.args[1].as_str());
}

#[test]
fn stderr_with_conflict_substring_emits_critical() {
    let mut m = EventMonitor::new();
    let chunk = b"bind failed: address already in use (port 8000)".to_vec();
    let acts = m.step(&OutputEvent::Stderr(chunk));
    assert_eq!(acts.len(), 2);
    match &acts[0] {
        MonitorAction::Error(s) => assert_eq!(
            s.as_str(),
            "Python Error: bind failed: address already in use (port 8000)"
        ),
        _ => panic!("expected an error line first"),
    }
    match &acts[1] {
        MonitorAction::Critical(s) => assert_eq!(
            s.as_str(),
            "CRITICAL: Port 8000 is occupied. Please ensure no other PS Analyzer instance is running."
        ),
        _ => panic!("expected the critical diagnostic second"),
    }
}

#[test]
fn stderr_with_differing_case_emits_no_critical() {
    let mut m = EventMonitor::new();
    let chunk = b"Address Already In Use".to_vec();
    let acts = m.step(&OutputEvent::Stderr(chunk));
    assert_eq!(acts.len(), 1);
    assert!(matches!(acts[0], MonitorAction::Error(_)));
}

#[test]
fn stdout_is_logged_with_child_prefix() {
    let mut m = EventMonitor::new();
    let acts = m.step(&OutputEvent::Stdout(b"ready".to_vec()));
    assert_eq!(acts.len(), 1);
    match &acts[0] {
        MonitorAction::Info(s) => assert_eq!(s.as_str(), "Python: ready"),
        _ => panic!("expected an informational line"),
    }
}

#[test]
fn invalid_utf8_is_decoded_with_replacement() {
    let mut m = EventMonitor::new();
    let acts = m.step(&OutputEvent::Stderr(vec![0xff, 0xfe]));
    assert_eq!(acts.len(), 1);
    match &acts[0] {
        MonitorAction::Error(s) => assert_eq!(s.as_str(), "Python Error: \u{fffd}\u{fffd}"),
        _ => panic!("expected an error line"),
    }
}

#[test]
fn terminated_event_stops_the_monitor() {
    let mut m = EventMonitor::new();
    let acts = m.step(&OutputEvent::Terminated(Some(0)));
    assert_eq!(acts.len(), 1);
    assert!(matches!(acts[0], MonitorAction::Exited(Some(0))));
    assert!(m.stopped);
}

#[test]
fn terminated_without_code_is_reported_as_such() {
    let mut m = EventMonitor::new();
    let acts = m.step(&OutputEvent::Terminated(None));
    assert!(matches!(acts[0], MonitorAction::Exited(None)));
}

#[test]
fn unrecognized_events_are_ignored() {
    let mut m = EventMonitor::new();
    let acts = m.step(&OutputEvent::Other);
    assert!(acts.is_empty());
    assert!(!m.stopped);
}

#[test]
fn run_stops_strictly_after_terminated() {
    let mut m = EventMonitor::new();
    let events = vec![
        OutputEvent::Stdout(b"starting".to_vec()),
        OutputEvent::Terminated(Some(0)),
        OutputEvent::Stdout(b"should never be consumed".to_vec()),
        OutputEvent::Stderr(b"address already in use".to_vec()),
    ];
    let log = m.run(&events);
    assert_eq!(log.len(), 2);
    assert!(matches!(log[0], MonitorAction::Info(_)));
    assert!(matches!(log[1], MonitorAction::Exited(Some(0))));
    assert!(m.stopped);
}

#[test]
fn dev_fallback_scenario_spawns_with_dev_path() {
    // Resource-directory lookup failed; the development candidate exists.
    let mut r = PathResolver::new(Platform::Linux, None, ".");
    let probe = r.next_probe().unwrap();
    assert_eq!(probe.as_str(), "./src-tauri/binaries/tracy-x86_64-unknown-linux-gnu");
    r.note_probe(true);
    let config = r.into_config();
    assert_eq!(
        config.resolved_path.as_deref(),
        Some("./src-tauri/binaries/tracy-x86_64-unknown-linux-gnu")
    );

    let inv = build_invocation(&config);
    assert_eq!(inv.env[0].0.as_str(), "TRACY_PATH");
    assert_eq!(inv.env[0].1.as_str(), "./src-tauri/binaries/tracy-x86_64-unknown-linux-gnu");
    assert_eq!(inv.args[0].as_str(), "--tracy-path");
    assert_eq!(inv.args[1].as_str(), "./src-tauri/binaries/tracy-x86_64-unknown-linux-gnu");
}

#[test]
fn full_session_scenario_logs_in_order_and_ends() {
    let mut m = EventMonitor::new();
    let events = vec![
        OutputEvent::Stdout(b"ready".to_vec()),
        OutputEvent::Stderr(b"address already in use".to_vec()),
        OutputEvent::Terminated(Some(1)),
    ];
    let log = m.run(&events);
    assert_eq!(log.len(), 4);
    match &log[0] {
        MonitorAction::Info(s) => assert_eq!(s.as_str(), "Python: ready"),
        _ => panic!("expected the informational line first"),
    }
    match &log[1] {
        MonitorAction::Error(s) => assert_eq!(s.as_str(), "Python Error: address already in use"),
        _ => panic!("expected the error line second"),
    }
    assert!(matches!(log[2], MonitorAction::Critical(_)));
    assert!(matches!(log[3], MonitorAction::Exited(Some(1))));
    assert!(m.stopped);
}

#[test]
fn scan_finds_exact_substring_only() {
    let text = chars_of("xxaddress already in usexx");
    let pat = chars_of("address already in use");
    assert!(contains_chars(&text, &pat));

    let absent = chars_of("address already in us");
    assert!(!contains_chars(&absent, &pat));

    let empty = chars_of("");
    assert!(contains_chars(&text, &empty));
    assert!(!contains_chars(&empty, &pat));
}

#[test]
fn shutdown_confirmation_is_logged_once_signalled() {
    let mut c = ShutdownCoordinator::new();
    assert!(!c.exit_observed);
    let msg = c.on_exit();
    assert_eq!(msg.as_str(), "Application exiting, cleaning up processes...");
    assert!(c.exit_observed);
}
