use dsh_installer::service::{readiness_check, service_arguments, should_ask_service};
use dsh_installer::model::ServicePhase;
use dsh_installer::service::{
    ReadyResult, ServiceControl, StartAction, StartFailure, Supervisor, SupervisorAction,
    SupervisorEvent, candidate_start_check, failure_message, is_harness_start_marker,
    start_action,
};

#[test]
fn readiness_requires_the_owned_process_start_marker() {
    assert!(is_harness_start_marker("dsh web: http://127.0.0.1:3080"));
    assert!(!is_harness_start_marker(
        "another service: http://127.0.0.1:3080"
    ));
}

#[test]
fn start_marker_ignores_surrounding_whitespace() {
    assert!(is_harness_start_marker("  dsh web: http://127.0.0.1:3080\r\n"));
}

#[test]
fn stale_generations_cannot_update_service_state() {
    let control = ServiceControl {
        generation: 8,
        ..ServiceControl::default()
    };
    assert!(control.is_current(8));
    assert!(!control.is_current(7));
}

#[test]
fn advancing_the_generation_retires_the_old_one() {
    let mut control = ServiceControl { generation: u64::MAX };
    let old = control.generation;
    let new = control.advance();
    assert_eq!(new, 0);
    assert!(!control.is_current(old));
}

#[test]
fn start_requests_depend_on_the_service_phase() {
    assert_eq!(start_action(ServicePhase::Ready), StartAction::AlreadyReady);
    assert_eq!(start_action(ServicePhase::Starting), StartAction::ShowProgress);
    assert_eq!(start_action(ServicePhase::Stopping), StartAction::ShowProgress);
    assert_eq!(start_action(ServicePhase::Failed), StartAction::Launch);
    assert!(candidate_start_check(ServicePhase::Stopped).is_ok());
    assert_eq!(
        candidate_start_check(ServicePhase::Ready),
        Err("A Harness service is already running.".to_owned())
    );
}

#[test]
fn supervision_retries_once_then_fails() {
    let mut supervisor = Supervisor::new();
    assert_eq!(
        supervisor.step(SupervisorEvent::AttemptBegins { stop_requested: false, port_available: true }),
        SupervisorAction::Launch { announce_starting: false }
    );
    assert_eq!(
        supervisor.step(SupervisorEvent::Waited(ReadyResult::Exited)),
        SupervisorAction::Pause
    );
    assert_eq!(
        supervisor.step(SupervisorEvent::PauseEnded { stop_requested: false }),
        SupervisorAction::NextAttempt
    );
    assert_eq!(
        supervisor.step(SupervisorEvent::AttemptBegins { stop_requested: false, port_available: true }),
        SupervisorAction::Launch { announce_starting: true }
    );
    assert_eq!(
        supervisor.step(SupervisorEvent::Waited(ReadyResult::TimedOut)),
        SupervisorAction::Fail(StartFailure::TimedOut)
    );
    assert!(supervisor.is_done());
    let (error, key) = failure_message(StartFailure::TimedOut);
    assert_eq!(error, "Harness startup timed out.");
    assert_eq!(key, "startupTimedOut");
}

#[test]
fn supervision_fails_when_the_port_is_taken_before_the_retry() {
    let mut supervisor = Supervisor::new();
    supervisor.step(SupervisorEvent::AttemptBegins { stop_requested: false, port_available: true });
    assert_eq!(supervisor.step(SupervisorEvent::LaunchFailed), SupervisorAction::NextAttempt);
    assert_eq!(
        supervisor.step(SupervisorEvent::AttemptBegins { stop_requested: false, port_available: false }),
        SupervisorAction::Fail(StartFailure::PortTaken)
    );
    let (error, key) = failure_message(StartFailure::PortTaken);
    assert_eq!(error, "Port 3080 became occupied before Harness could restart.");
    assert_eq!(key, "portInUse");
}

#[test]
fn a_stop_cancels_and_a_ready_service_is_served() {
    let mut supervisor = Supervisor::new();
    assert_eq!(
        supervisor.step(SupervisorEvent::AttemptBegins { stop_requested: true, port_available: true }),
        SupervisorAction::Cancel
    );
    assert!(supervisor.is_done());

    let mut supervisor = Supervisor::new();
    supervisor.step(SupervisorEvent::AttemptBegins { stop_requested: false, port_available: true });
    assert_eq!(
        supervisor.step(SupervisorEvent::Waited(ReadyResult::Ready)),
        SupervisorAction::Serve
    );
    assert_eq!(supervisor.step(SupervisorEvent::ServiceExited), SupervisorAction::Pause);
    supervisor.step(SupervisorEvent::PauseEnded { stop_requested: false });
    supervisor.step(SupervisorEvent::AttemptBegins { stop_requested: false, port_available: true });
    supervisor.step(SupervisorEvent::Waited(ReadyResult::Ready));
    assert_eq!(
        supervisor.step(SupervisorEvent::ServiceExited),
        SupervisorAction::Fail(StartFailure::Exhausted)
    );
    let (error, key) = failure_message(StartFailure::Exhausted);
    assert_eq!(error, "Harness did not become ready after two attempts.");
    assert_eq!(key, "failed");
}

#[test]
fn the_service_starts_on_its_fixed_address() {
    assert_eq!(
        service_arguments("/app/dsh.js"),
        vec!["/app/dsh.js", "web", "--host", "127.0.0.1", "--port", "3080"]
    );
}

#[test]
fn readiness_is_decided_on_each_look() {
    assert!(!should_ask_service(true, true));
    assert!(!should_ask_service(false, false));
    assert!(should_ask_service(false, true));
    assert_eq!(readiness_check(true, true, true), Some(ReadyResult::Exited));
    assert_eq!(readiness_check(false, true, true), Some(ReadyResult::Ready));
    assert_eq!(readiness_check(false, false, true), Some(ReadyResult::TimedOut));
    assert_eq!(readiness_check(false, false, false), None);
}
