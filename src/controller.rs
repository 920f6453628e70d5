use vstd::prelude::*;

use crate::error::AttemptError;

verus! {

/// Consecutive connection failures tolerated against one driver process.
pub const MAX_CONNECTION_RETRIES: u32 = 3;

/// Pause before retrying against the same driver process.
pub const RETRY_DELAY_MS: u64 = 2000;

/// What one automation attempt produced: the cookie, if one appeared in time.
pub type AttemptResult = Result<Option<String>, AttemptError>;

/// The retry/restart controller's state.
#[derive(Clone, Copy, Debug, PartialEq, Eq, Structural)]
pub enum ControllerState {
    /// Attempts are still being made; the count is the number of consecutive
    /// connection failures since the driver process was last (re)started.
    Attempting(u32),
    /// The run ended with an error that no retry can mend.
    Fatal,
    /// The run ended successfully.
    Done,
}

/// An actionable hint shown to the user alongside a fatal error.
#[derive(Clone, Copy, Debug, PartialEq, Eq, Structural)]
pub enum Remediation {
    /// The driver could not find a browser to control.
    InstallBrowser,
}

impl Remediation {
    pub fn message(&self) -> (r: &'static str)
        ensures
            r@ == "Required dependencies are not installed: install Chrome or Chromium and make sure the driver can find it."@,
    {
        match self {
            Remediation::InstallBrowser => "Required dependencies are not installed: install Chrome or Chromium and make sure the driver can find it.",
        }
    }
}

/// What the caller must do after reporting an attempt's result.
#[derive(Clone, Debug, PartialEq, Eq)]
pub enum Decision {
    /// Stop: the run succeeded, with or without a cookie.
    Finish(Option<String>),
    /// Sleep for `delay_ms`, then run another attempt on the same driver process.
    Retry { delay_ms: u64 },
    /// Release the driver process, start a new one on a freshly allocated
    /// port, then run another attempt.
    RestartDriver,
    /// Stop with `error`, showing the remediation if there is one.
    Abort { error: AttemptError, remediation: Option<Remediation> },
}

/// The transition taken from `Attempting(failures)` on an attempt's result:
/// the next state and the decision handed to the caller.
pub open spec fn transition(failures: nat, outcome: AttemptResult) -> (ControllerState, Decision) {
    match outcome {
        Ok(cookie) => (ControllerState::Done, Decision::Finish(cookie)),
        Err(error) => match error {
            AttemptError::ConnectionFailure => if failures + 1 > MAX_CONNECTION_RETRIES {
                (ControllerState::Fatal, Decision::Abort { error, remediation: None })
            } else {
                (
                    ControllerState::Attempting((failures + 1) as u32),
                    Decision::Retry { delay_ms: RETRY_DELAY_MS },
                )
            },
            AttemptError::ClientBuildFailure { fatal } => if fatal {
                (
                    ControllerState::Fatal,
                    Decision::Abort { error, remediation: Some(Remediation::InstallBrowser) },
                )
            } else {
                (ControllerState::Attempting(0), Decision::RestartDriver)
            },
            AttemptError::ProcessStartFailure => (
                ControllerState::Fatal,
                Decision::Abort { error, remediation: None },
            ),
            AttemptError::ReadinessTimeout => (
                ControllerState::Fatal,
                Decision::Abort { error, remediation: None },
            ),
        },
    }
}

/// Feeds `outcomes` to the controller one by one, starting in `state`, until
/// they run out or the controller stops attempting. Gives the final state and
/// the decisions taken, in order.
pub open spec fn replay(state: ControllerState, outcomes: Seq<AttemptResult>) -> (ControllerState, Seq<Decision>)
    decreases outcomes.len(),
{
    match state {
        ControllerState::Attempting(failures) => if outcomes.len() == 0 {
            (state, Seq::empty())
        } else {
            let (next, decision) = transition(failures as nat, outcomes[0]);
            let (last, rest) = replay(next, outcomes.drop_first());
            (last, seq![decision] + rest)
        },
        _ => (state, Seq::empty()),
    }
}


/// Four connection failures in a row, counted from a fresh start or from the
/// last driver restart, end the run: the first three are retried on the same
/// driver process, the fourth is fatal, and none of them restarts the driver.
pub proof fn four_connection_failures_are_fatal()
    ensures
        ({
            let failure: AttemptResult = Err(AttemptError::ConnectionFailure);
            let (last, decisions) = replay(
                ControllerState::Attempting(0),
                seq![failure, failure, failure, failure],
            );
            &&& last == ControllerState::Fatal
            &&& decisions == seq![
                Decision::Retry { delay_ms: RETRY_DELAY_MS },
                Decision::Retry { delay_ms: RETRY_DELAY_MS },
                Decision::Retry { delay_ms: RETRY_DELAY_MS },
                Decision::Abort { error: AttemptError::ConnectionFailure, remediation: None },
            ]
            &&& forall|i: int| 0 <= i < decisions.len() ==> decisions[i] != Decision::RestartDriver
        }),
{
    let failure: AttemptResult = Err(AttemptError::ConnectionFailure);
    let outcomes = seq![failure, failure, failure, failure];
    reveal_with_fuel(replay, 5);
    assert(outcomes.drop_first() =~= seq![failure, failure, failure]);
    assert(outcomes.drop_first().drop_first() =~= seq![failure, failure]);
    assert(outcomes.drop_first().drop_first().drop_first() =~= seq![failure]);
    assert(outcomes.drop_first().drop_first().drop_first().drop_first() =~= Seq::<AttemptResult>::empty());
    let (last, decisions) = replay(ControllerState::Attempting(0), outcomes);
    assert(decisions =~= seq![
        Decision::Retry { delay_ms: RETRY_DELAY_MS },
        Decision::Retry { delay_ms: RETRY_DELAY_MS },
        Decision::Retry { delay_ms: RETRY_DELAY_MS },
        Decision::Abort { error: AttemptError::ConnectionFailure, remediation: None },
    ]);
}

/// Whatever the failure count, a session-negotiation failure other than a
/// missing browser restarts the driver process and resets the count to zero.
pub proof fn build_failure_restarts_driver(failures: nat)
    requires
        failures <= MAX_CONNECTION_RETRIES,
    ensures
        transition(failures, Err(AttemptError::ClientBuildFailure { fatal: false }))
            == (ControllerState::Attempting(0), Decision::RestartDriver),
{
}

/// A failure to start the driver process, a driver that never becomes
/// reachable, and a missing browser end the run at once, whatever the count.
pub proof fn terminal_errors_end_the_run(failures: nat, error: AttemptError)
    requires
        error.is_terminal(),
    ensures
        transition(failures, Err(error)).0 == ControllerState::Fatal,
        transition(failures, Err(error)).1 matches Decision::Abort { error: e, .. } && e == error,
{
}

/// The top-level retry/restart state machine.
pub struct Controller {
    pub state: ControllerState,
}

impl Controller {
    /// While attempting, the failure count never exceeds the retry allowance.
    pub open spec fn wf(&self) -> bool {
        match self.state {
            ControllerState::Attempting(failures) => failures <= MAX_CONNECTION_RETRIES,
            _ => true,
        }
    }

    pub open spec fn is_attempting(&self) -> bool {
        self.state is Attempting
    }

    pub fn new() -> (r: Controller)
        ensures
            r.state == ControllerState::Attempting(0),
            r.wf(),
    {
        Controller { state: ControllerState::Attempting(0) }
    }

    /// Whether the controller still expects attempt results.
    pub fn attempting(&self) -> (r: bool)
        ensures
            r == self.is_attempting(),
    {
        match self.state {
            ControllerState::Attempting(_) => true,
            _ => false,
        }
    }

    /// Reports the result of one attempt (or of starting the driver for it)
    /// and returns what to do next.
    pub fn on_outcome(&mut self, outcome: AttemptResult) -> (r: Decision)
        requires
            old(self).wf(),
            old(self).is_attempting(),
        ensures
            final(self).wf(),
            (final(self).state, r) == transition(old(self).state->Attempting_0 as nat, outcome),
    {
        let failures = match self.state {
            ControllerState::Attempting(n) => n,
            _ => 0,
        };
        match outcome {
            Ok(cookie) => {
                self.state = ControllerState::Done;
                Decision::Finish(cookie)
            },
            Err(error) => match error {
                AttemptError::ConnectionFailure => {
                    if failures >= MAX_CONNECTION_RETRIES {
                        self.state = ControllerState::Fatal;
                        Decision::Abort { error, remediation: None }
                    } else {
                        self.state = ControllerState::Attempting(failures + 1);
                        Decision::Retry { delay_ms: RETRY_DELAY_MS }
                    }
                },
                AttemptError::ClientBuildFailure { fatal } => {
                    if fatal {
                        self.state = ControllerState::Fatal;
                        Decision::Abort { error, remediation: Some(Remediation::InstallBrowser) }
                    } else {
                        self.state = ControllerState::Attempting(0);
                        Decision::RestartDriver
                    }
                },
                AttemptError::ProcessStartFailure => {
                    self.state = ControllerState::Fatal;
                    Decision::Abort { error, remediation: None }
                },
                AttemptError::ReadinessTimeout => {
                    self.state = ControllerState::Fatal;
                    Decision::Abort { error, remediation: None }
                },
            },
        }
    }
}

} // verus!
