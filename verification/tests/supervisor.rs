use ext_host::lifecycle::ExtHostLifecycleState;
use ext_host::session::{NodeRuntimeInfo, StartRefusal, StartStep, StartedSession};
use ext_host::supervisor::ExtensionPlatformSupervisor;

const SECOND: u64 = 1_000_000_000;

fn host(session_id: &str, port: u16) -> StartedSession {
    StartedSession {
        port,
        session_id: session_id.to_string(),
        node_runtime: NodeRuntimeInfo {
            path: "/usr/bin/node".to_string(),
            version: Some("v20.11.0".to_string()),
            source: "system".to_string(),
            bundled: false,
        },
        server_script_path: "/app/extension-host/server.cjs".to_string(),
    }
}

fn started(supervisor: &mut ExtensionPlatformSupervisor, session_id: &str, port: u16, now: u64) {
    assert_eq!(supervisor.ensure_started(now, false), StartStep::Spawn);
    assert_eq!(supervisor.finish_start(Ok(host(session_id, port)), now), Ok(port));
}

fn looping() -> ExtensionPlatformSupervisor {
    let mut supervisor = ExtensionPlatformSupervisor::new();
    started(&mut supervisor, "a", 1, 0);
    assert_eq!(supervisor.ensure_started(10 * SECOND, true), StartStep::Spawn);
    assert_eq!(supervisor.finish_start(Ok(host("b", 2)), 10 * SECOND), Ok(2));
    assert_eq!(supervisor.ensure_started(20 * SECOND, true), StartStep::Spawn);
    assert_eq!(supervisor.finish_start(Ok(host("c", 3)), 20 * SECOND), Ok(3));
    assert_eq!(supervisor.ensure_started(30 * SECOND, true), StartStep::Spawn);
    assert_eq!(supervisor.finish_start(Ok(host("d", 4)), 30 * SECOND), Ok(4));
    assert_eq!(
        supervisor.ensure_started(40 * SECOND, true),
        StartStep::Refused(StartRefusal::CrashLoop)
    );
    supervisor
}

#[test]
fn a_new_supervisor_is_idle() {
    let mut supervisor = ExtensionPlatformSupervisor::new();
    let report = supervisor.snapshot(0, false);
    assert!(!report.running);
    assert_eq!(report.port, None);
    assert_eq!(report.session_id, None);
    assert_eq!(report.uptime_secs, None);
    assert_eq!(report.restart_count, 0);
    assert_eq!(report.total_crashes, 0);
    assert_eq!(report.lifecycle_state, ExtHostLifecycleState::Idle);
    assert!(!report.crash_loop_detected);
    assert!(supervisor.needs_session());
}

#[test]
fn a_start_is_reported_and_kept() {
    let mut supervisor = ExtensionPlatformSupervisor::new();
    assert_eq!(supervisor.ensure_started(5, false), StartStep::Spawn);
    let report = supervisor.snapshot(5, false);
    assert_eq!(report.lifecycle_state, ExtHostLifecycleState::ServerStarting);
    assert_eq!(supervisor.finish_start(Ok(host("s1", 12345)), 7 * SECOND), Ok(12345));
    let report = supervisor.snapshot(9 * SECOND + SECOND - 1, false);
    assert!(report.running);
    assert_eq!(report.port, Some(12345));
    assert_eq!(report.session_id.as_deref(), Some("s1"));
    assert_eq!(report.uptime_secs, Some(2));
    assert_eq!(report.restart_count, 1);
    assert_eq!(report.lifecycle_state, ExtHostLifecycleState::ServerListening);
    assert_eq!(supervisor.ensure_started(10 * SECOND, false), StartStep::Running(12345));
    assert_eq!(supervisor.restart_count(), 1);
    assert!(!supervisor.needs_session());
}

#[test]
fn a_clock_that_runs_back_gives_no_uptime() {
    let mut supervisor = ExtensionPlatformSupervisor::new();
    started(&mut supervisor, "s", 1, 100 * SECOND);
    assert_eq!(supervisor.snapshot(5, false).uptime_secs, Some(0));
}

#[test]
fn failed_starts_lead_to_the_state_of_their_step() {
    let cases = [
        ("ERR_NODE_MISSING: no node", ExtHostLifecycleState::NodeMissing),
        ("ERR_SERVER_SCRIPT_MISSING: gone", ExtHostLifecycleState::ServerScriptMissing),
        ("ERR_SPAWN_FAILED: denied", ExtHostLifecycleState::ServerStartFailed),
        ("ERR_PORT_TIMEOUT: late", ExtHostLifecycleState::PortTimeout),
        ("bad port JSON: ERR_NODE_MISSING: x", ExtHostLifecycleState::ServerStartFailed),
        ("", ExtHostLifecycleState::ServerStartFailed),
    ];
    for (error, state) in cases {
        let mut supervisor = ExtensionPlatformSupervisor::new();
        assert_eq!(supervisor.ensure_started(0, false), StartStep::Spawn);
        assert_eq!(supervisor.finish_start(Err(error.to_string()), 0), Err(error.to_string()));
        let report = supervisor.snapshot(0, false);
        assert_eq!(report.lifecycle_state, state);
        assert!(!report.running);
        assert_eq!(supervisor.restart_count(), 0);
    }
}

#[test]
fn a_crash_is_found_and_counted_once() {
    let mut supervisor = ExtensionPlatformSupervisor::new();
    started(&mut supervisor, "s", 9, 0);
    let report = supervisor.snapshot(SECOND, true);
    assert!(!report.running);
    assert_eq!(report.total_crashes, 1);
    assert_eq!(report.restart_count, 0);
    assert_eq!(report.lifecycle_state, ExtHostLifecycleState::HostExited);
    let report = supervisor.snapshot(2 * SECOND, true);
    assert_eq!(report.total_crashes, 1);
    assert_eq!(supervisor.restart_count(), 1);
}

#[test]
fn three_crashes_in_the_window_are_no_crash_loop() {
    let mut supervisor = ExtensionPlatformSupervisor::new();
    started(&mut supervisor, "a", 1, 0);
    supervisor.check_child_exit(1, true);
    started(&mut supervisor, "b", 2, 1);
    supervisor.check_child_exit(2, true);
    started(&mut supervisor, "c", 3, 2);
    let report = supervisor.snapshot(3, true);
    assert!(!report.crash_loop_detected);
    assert_eq!(report.lifecycle_state, ExtHostLifecycleState::HostExited);
    assert_eq!(report.total_crashes, 3);
    assert_eq!(supervisor.ensure_started(3, false), StartStep::Spawn);
}

#[test]
fn four_crashes_in_the_window_are_a_crash_loop() {
    let mut supervisor = looping();
    let report = supervisor.snapshot(40 * SECOND, false);
    assert!(report.crash_loop_detected);
    assert_eq!(report.lifecycle_state, ExtHostLifecycleState::Degraded);
    assert_eq!(report.total_crashes, 4);
    assert!(!report.running);
}

#[test]
fn a_crash_loop_lasts_until_a_restart() {
    let mut supervisor = looping();
    for now in [0, 41 * SECOND, 70 * SECOND + 1, 400 * SECOND, u64::MAX] {
        assert_eq!(
            supervisor.ensure_started(now, false),
            StartStep::Refused(StartRefusal::Degraded)
        );
        let report = supervisor.snapshot(now, false);
        assert!(report.crash_loop_detected);
        assert_eq!(report.lifecycle_state, ExtHostLifecycleState::Degraded);
        assert_eq!(report.total_crashes, 4);
    }
    assert!(supervisor.stop().is_none());
    assert_eq!(
        supervisor.ensure_started(u64::MAX, false),
        StartStep::Refused(StartRefusal::Degraded)
    );
    supervisor.begin_restart();
    assert!(!supervisor.snapshot(u64::MAX, false).crash_loop_detected);
    assert_eq!(supervisor.ensure_started(u64::MAX, false), StartStep::Spawn);
}

#[test]
fn crashes_outside_the_window_do_not_count() {
    let mut supervisor = ExtensionPlatformSupervisor::new();
    started(&mut supervisor, "a", 1, 0);
    supervisor.check_child_exit(0, true);
    started(&mut supervisor, "b", 2, 1);
    supervisor.check_child_exit(10 * SECOND, true);
    started(&mut supervisor, "c", 3, 11 * SECOND);
    supervisor.check_child_exit(20 * SECOND, true);
    started(&mut supervisor, "d", 4, 21 * SECOND);
    // The first crash is 300 seconds old.
    supervisor.check_child_exit(300 * SECOND, true);
    let report = supervisor.snapshot(300 * SECOND, false);
    assert!(!report.crash_loop_detected);
    assert_eq!(report.lifecycle_state, ExtHostLifecycleState::HostExited);
    assert_eq!(report.total_crashes, 4);
    // Now the three last crashes and this one count.
    started(&mut supervisor, "e", 5, 301 * SECOND);
    supervisor.check_child_exit(309 * SECOND, true);
    assert!(supervisor.snapshot(309 * SECOND, false).crash_loop_detected);
}

#[test]
fn events_of_the_current_host_are_noted() {
    let mut supervisor = ExtensionPlatformSupervisor::new();
    started(&mut supervisor, "s", 1, 0);
    supervisor.on_ws_connected("s");
    assert_eq!(supervisor.snapshot(0, false).lifecycle_state, ExtHostLifecycleState::WsConnected);
    supervisor.on_host_ready("s");
    assert_eq!(supervisor.snapshot(0, false).lifecycle_state, ExtHostLifecycleState::HostReady);
    supervisor.on_ws_closed("s");
    assert_eq!(supervisor.snapshot(0, false).lifecycle_state, ExtHostLifecycleState::WsClosed);
    supervisor.on_host_ready_timeout("s");
    assert_eq!(
        supervisor.snapshot(0, false).lifecycle_state,
        ExtHostLifecycleState::HostReadyTimeout
    );
    supervisor.on_activation_failed("s");
    assert_eq!(
        supervisor.snapshot(0, false).lifecycle_state,
        ExtHostLifecycleState::ActivationFailed
    );
    supervisor.on_host_exited("s");
    assert_eq!(supervisor.snapshot(0, false).lifecycle_state, ExtHostLifecycleState::HostExited);
}

#[test]
fn stale_events_are_ignored() {
    let mut supervisor = ExtensionPlatformSupervisor::new();
    supervisor.on_host_ready("s");
    assert_eq!(supervisor.snapshot(0, false).lifecycle_state, ExtHostLifecycleState::Idle);
    started(&mut supervisor, "new", 1, 0);
    supervisor.on_ws_closed("old");
    supervisor.on_ws_closed("");
    assert_eq!(
        supervisor.snapshot(0, false).lifecycle_state,
        ExtHostLifecycleState::ServerListening
    );
    let state = ExtHostLifecycleState::WsClosed;
    assert_eq!(supervisor.set_state_if_session_match(state, "old"), None);
    assert_eq!(supervisor.set_state_if_session_match(state, ""), None);
    assert_eq!(supervisor.set_state_if_session_match(state, "new"), Some(state));
}

#[test]
fn an_empty_session_id_matches_nothing() {
    let mut supervisor = ExtensionPlatformSupervisor::new();
    started(&mut supervisor, "", 1, 0);
    supervisor.on_host_ready("");
    assert_eq!(
        supervisor.snapshot(0, false).lifecycle_state,
        ExtHostLifecycleState::ServerListening
    );
}

#[test]
fn a_state_can_be_set_outright() {
    let mut supervisor = ExtensionPlatformSupervisor::new();
    supervisor.set_lifecycle_state(ExtHostLifecycleState::Ready);
    assert_eq!(supervisor.snapshot(0, false).lifecycle_state, ExtHostLifecycleState::Ready);
}

#[test]
fn a_stop_hands_out_the_host() {
    let mut supervisor = ExtensionPlatformSupervisor::new();
    assert!(supervisor.stop().is_none());
    started(&mut supervisor, "s", 77, 3 * SECOND);
    let ended = supervisor.stop().unwrap();
    assert_eq!(ended.session_id, "s");
    assert_eq!(ended.port, 77);
    assert_eq!(ended.started_at, 3 * SECOND);
    assert_eq!(ended.uptime_secs(5 * SECOND), 2);
    let report = supervisor.snapshot(0, false);
    assert!(!report.running);
    assert_eq!(report.lifecycle_state, ExtHostLifecycleState::Idle);
    assert_eq!(report.total_crashes, 0);
}

#[test]
fn a_restart_ends_a_crash_loop_and_keeps_the_counts() {
    let mut supervisor = looping();
    let (ended, step) = supervisor.restart(41 * SECOND);
    assert!(ended.is_none());
    assert_eq!(step, StartStep::Spawn);
    let report = supervisor.snapshot(41 * SECOND, false);
    assert!(!report.crash_loop_detected);
    assert_eq!(report.total_crashes, 4);
    assert_eq!(supervisor.restart_count(), 4);
    assert_eq!(report.lifecycle_state, ExtHostLifecycleState::ServerStarting);
}

#[test]
fn a_restart_replaces_a_running_host() {
    let mut supervisor = ExtensionPlatformSupervisor::new();
    started(&mut supervisor, "old", 1, 0);
    let (ended, step) = supervisor.restart(SECOND);
    assert_eq!(ended.unwrap().session_id, "old");
    assert_eq!(step, StartStep::Spawn);
    assert_eq!(supervisor.finish_start(Ok(host("new", 2)), SECOND), Ok(2));
    supervisor.on_ws_closed("old");
    let report = supervisor.snapshot(SECOND, false);
    assert_eq!(report.session_id.as_deref(), Some("new"));
    assert_eq!(report.lifecycle_state, ExtHostLifecycleState::ServerListening);
    assert_eq!(report.restart_count, 2);
}

#[test]
fn the_first_step_of_a_restart_keeps_the_host() {
    let mut supervisor = ExtensionPlatformSupervisor::new();
    started(&mut supervisor, "s", 1, 0);
    supervisor.begin_restart();
    let report = supervisor.snapshot(0, false);
    assert!(report.running);
    assert_eq!(report.lifecycle_state, ExtHostLifecycleState::Bootstrapping);
}

#[test]
fn an_installed_session_is_not_counted() {
    let mut supervisor = ExtensionPlatformSupervisor::new();
    supervisor.install_session(host("s", 4), 0);
    let report = supervisor.snapshot(0, false);
    assert_eq!(report.port, Some(4));
    assert_eq!(report.restart_count, 0);
    assert_eq!(report.lifecycle_state, ExtHostLifecycleState::Idle);
}

#[test]
fn refusals_say_what_to_do() {
    assert_eq!(
        StartRefusal::Degraded.message(),
        "Extension host is in Degraded state due to repeated crashes. \
         Use extension_platform_restart to manually restart."
    );
    assert_eq!(
        StartRefusal::CrashLoop.message(),
        "Extension host crash loop detected. State set to Degraded. \
         Please restart manually via extension_platform_restart."
    );
}
