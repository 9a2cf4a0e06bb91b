use warp_extension::host::lifecycle::{
    DEFAULT_FAILURE_WINDOW_MS, DEFAULT_MAX_FAILURES, ExtensionState, RestartDecision, RestartPolicy, StateMachine,
    StopReason,
};

fn machine() -> StateMachine {
    StateMachine::new(RestartPolicy::default())
}

fn crashed() -> StopReason {
    StopReason::Crashed { detail: "exited with status 1".to_owned() }
}

#[test]
fn a_start_timeout_counts_against_the_budget() {
    assert!(StopReason::StartTimeout.is_failure());
    assert!(StopReason::ProtocolViolation { detail: "flooding".to_owned() }.is_failure());
    assert!(!StopReason::Requested.is_failure());
}

#[test]
fn a_validated_extension_walks_the_documented_states() {
    let mut machine = machine();
    assert_eq!(machine.state(), &ExtensionState::Discovered);

    machine.validated();
    assert_eq!(machine.state(), &ExtensionState::Inactive);

    assert!(machine.start());
    assert_eq!(machine.state(), &ExtensionState::Starting);

    machine.running();
    assert!(machine.state().is_running());

    machine.stopping();
    assert_eq!(machine.state(), &ExtensionState::Stopping);

    let decision = machine.stopped(StopReason::Requested, 1_000);
    assert_eq!(decision, RestartDecision::StayInactive);
    assert_eq!(machine.state(), &ExtensionState::Inactive);
}

#[test]
fn an_invalid_manifest_keeps_the_extension_from_ever_starting() {
    let mut machine = machine();
    machine.invalidate("api_version 99 is not supported".to_owned());
    assert!(machine.state().needs_user_action());

    machine.validated();
    assert!(matches!(machine.state(), ExtensionState::Invalid { .. }));
    assert!(!machine.start());
}

#[test]
fn deactivation_is_not_counted_as_a_failure() {
    let mut machine = machine();
    machine.validated();
    for _ in 0..10 {
        assert!(machine.start());
        machine.running();
        assert_eq!(machine.stopped(StopReason::Deactivated, 5_000), RestartDecision::StayInactive);
    }
    assert_eq!(machine.state(), &ExtensionState::Inactive);
}

#[test]
fn an_unexpected_exit_is_restartable_until_the_budget_runs_out() {
    let mut machine = machine();
    machine.validated();
    let start: u64 = 10_000;

    assert_eq!(machine.stopped(crashed(), start), RestartDecision::Restart);
    assert_eq!(machine.stopped(crashed(), start + 1_000), RestartDecision::Restart);

    let decision = machine.stopped(crashed(), start + 2_000);
    let RestartDecision::GiveUp { reason } = decision else {
        panic!("the third failure inside the window must give up");
    };
    assert!(reason.contains("3 times"), "{reason}");
    assert_eq!(reason, "stopped 3 times in 300 seconds: exited with status 1");
    assert!(matches!(machine.state(), ExtensionState::Failed { .. }));
    assert!(!machine.start(), "a failed extension is not restarted automatically");
}

#[test]
fn failures_outside_the_window_do_not_accumulate() {
    let mut machine = machine();
    machine.validated();
    let mut now: u64 = 0;
    for _ in 0..10 {
        assert_eq!(machine.stopped(crashed(), now), RestartDecision::Restart);
        now += DEFAULT_FAILURE_WINDOW_MS + 1_000;
    }
}

#[test]
fn a_manual_restart_gives_a_failed_extension_a_fresh_budget() {
    let mut machine = machine();
    machine.validated();
    let start: u64 = 0;
    for offset in 0..DEFAULT_MAX_FAILURES {
        machine.stopped(crashed(), start + offset as u64 * 1_000);
    }
    assert!(matches!(machine.state(), ExtensionState::Failed { .. }));

    assert!(machine.manual_restart());
    assert_eq!(machine.state(), &ExtensionState::Starting);
    assert_eq!(machine.stopped(crashed(), start + 10_000), RestartDecision::Restart);
}

#[test]
fn a_manual_restart_cannot_revive_an_invalid_manifest() {
    let mut machine = machine();
    machine.invalidate("malformed manifest".to_owned());
    assert!(!machine.manual_restart());
    assert!(matches!(machine.state(), ExtensionState::Invalid { .. }));
}

#[test]
fn stop_details_name_what_happened() {
    assert_eq!(StopReason::Requested.detail(), "stopped by Warp");
    assert_eq!(StopReason::StartTimeout.detail(), "did not complete the handshake in time");
    assert_eq!(crashed().detail(), "exited with status 1");
}

#[test]
fn the_budget_counts_only_failures_inside_the_window() {
    let mut machine = machine();
    machine.validated();
    let window = DEFAULT_FAILURE_WINDOW_MS;
    // Two failures early on, then two more once the first has left the window.
    assert_eq!(machine.stopped(crashed(), 0), RestartDecision::Restart);
    assert_eq!(machine.stopped(crashed(), window / 2), RestartDecision::Restart);
    assert_eq!(machine.stopped(StopReason::Deactivated, window / 2 + 1), RestartDecision::StayInactive);
    assert_eq!(machine.stopped(crashed(), window + 1), RestartDecision::Restart, "the first failure has aged out");
    let RestartDecision::GiveUp { reason } = machine.stopped(crashed(), window + 2) else {
        panic!("three failures inside one window give up");
    };
    assert_eq!(reason, "stopped 3 times in 300 seconds: exited with status 1");
}
