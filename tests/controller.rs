use kuvpn::controller::{Controller, ControllerState, Decision, Remediation, RETRY_DELAY_MS};
use kuvpn::error::AttemptError;

fn retry() -> Decision {
    Decision::Retry { delay_ms: RETRY_DELAY_MS }
}

#[test]
fn four_connection_failures_end_fatal_without_restart() {
    let mut c = Controller::new();
    let mut decisions = Vec::new();
    for _ in 0..4 {
        decisions.push(c.on_outcome(Err(AttemptError::ConnectionFailure)));
    }
    assert_eq!(decisions[0], retry());
    assert_eq!(decisions[1], retry());
    assert_eq!(decisions[2], retry());
    assert_eq!(
        decisions[3],
        Decision::Abort { error: AttemptError::ConnectionFailure, remediation: None }
    );
    assert!(!decisions.contains(&Decision::RestartDriver));
    assert_eq!(c.state, ControllerState::Fatal);
    assert!(!c.attempting());
}

#[test]
fn retry_waits_two_seconds() {
    let mut c = Controller::new();
    assert_eq!(
        c.on_outcome(Err(AttemptError::ConnectionFailure)),
        Decision::Retry { delay_ms: 2000 }
    );
    assert_eq!(c.state, ControllerState::Attempting(1));
}

#[test]
fn build_failure_restarts_driver_and_resets_count() {
    let mut c = Controller::new();
    for _ in 0..3 {
        assert_eq!(c.on_outcome(Err(AttemptError::ConnectionFailure)), retry());
    }
    assert_eq!(c.state, ControllerState::Attempting(3));
    assert_eq!(
        c.on_outcome(Err(AttemptError::ClientBuildFailure { fatal: false })),
        Decision::RestartDriver
    );
    assert_eq!(c.state, ControllerState::Attempting(0));
    for _ in 0..3 {
        assert_eq!(c.on_outcome(Err(AttemptError::ConnectionFailure)), retry());
    }
    assert!(c.attempting());
}

#[test]
fn missing_browser_is_fatal_with_remediation() {
    let mut c = Controller::new();
    let d = c.on_outcome(Err(AttemptError::ClientBuildFailure { fatal: true }));
    assert_eq!(
        d,
        Decision::Abort {
            error: AttemptError::ClientBuildFailure { fatal: true },
            remediation: Some(Remediation::InstallBrowser),
        }
    );
    assert_eq!(c.state, ControllerState::Fatal);
    assert!(Remediation::InstallBrowser.message().contains("Chrome"));
}

#[test]
fn process_start_failure_is_fatal() {
    let mut c = Controller::new();
    assert_eq!(
        c.on_outcome(Err(AttemptError::ProcessStartFailure)),
        Decision::Abort { error: AttemptError::ProcessStartFailure, remediation: None }
    );
    assert_eq!(c.state, ControllerState::Fatal);
}

#[test]
fn readiness_timeout_is_fatal() {
    let mut c = Controller::new();
    assert_eq!(
        c.on_outcome(Err(AttemptError::ReadinessTimeout)),
        Decision::Abort { error: AttemptError::ReadinessTimeout, remediation: None }
    );
}

#[test]
fn success_with_or_without_cookie_is_done() {
    let mut c = Controller::new();
    assert_eq!(
        c.on_outcome(Ok(Some("abc123".to_string()))),
        Decision::Finish(Some("abc123".to_string()))
    );
    assert_eq!(c.state, ControllerState::Done);
    let mut c = Controller::new();
    c.on_outcome(Err(AttemptError::ConnectionFailure));
    assert_eq!(c.on_outcome(Ok(None)), Decision::Finish(None));
    assert_eq!(c.state, ControllerState::Done);
}

#[test]
fn terminal_errors() {
    assert!(AttemptError::ProcessStartFailure.is_terminal());
    assert!(AttemptError::ReadinessTimeout.is_terminal());
    assert!(AttemptError::ClientBuildFailure { fatal: true }.is_terminal());
    assert!(!AttemptError::ClientBuildFailure { fatal: false }.is_terminal());
    assert!(!AttemptError::ConnectionFailure.is_terminal());
}
