use vstd::prelude::*;

use crate::error::AttemptError;
use crate::text::{decimal, with_decimal};
use crate::wait::{elapsed, elapsed_ms};

verus! {

/// The port tried first for the driver process.
pub const DEFAULT_DRIVER_PORT: u16 = 9515;

/// How long the driver process gets to start accepting connections.
pub const DRIVER_START_TIMEOUT_MS: u64 = 10_000;

/// Pause between two connection attempts while the driver starts.
pub const READINESS_POLL_MS: u64 = 100;

/// Looks for a free local port: the preferred one first, then each next one,
/// wrapping from 65535 to 0. Each candidate is tried by binding it.
pub struct PortSearch {
    pub preferred: u16,
    pub candidate: u16,
    /// How many candidates were found taken so far.
    pub tried: Ghost<nat>,
}

impl PortSearch {
    /// The candidate is the preferred port moved on once for each taken one.
    pub open spec fn wf(&self) -> bool {
        self.candidate == (self.preferred + self.tried@) % 65536
    }

    /// Starts the search at `preferred`.
    pub fn new(preferred: u16) -> (r: PortSearch)
        ensures
            r.wf(),
            r.preferred == preferred,
            r.candidate == preferred,
            r.tried@ == 0,
    {
        PortSearch { preferred, candidate: preferred, tried: Ghost(0) }
    }

    /// The port to try binding next.
    pub fn candidate(&self) -> (r: u16)
        ensures
            r == self.candidate,
    {
        self.candidate
    }

    /// Reports whether binding the candidate succeeded. Gives the port to use
    /// when it did; otherwise moves on to the next port.
    pub fn on_probe(&mut self, bound: bool) -> (r: Option<u16>)
        requires
            old(self).wf(),
        ensures
            final(self).wf(),
            final(self).preferred == old(self).preferred,
            bound ==> r == Some(old(self).candidate) && final(self).candidate == old(self).candidate
                && final(self).tried@ == old(self).tried@,
            !bound ==> r is None && final(self).candidate == (old(self).candidate + 1) % 65536
                && final(self).tried@ == old(self).tried@ + 1,
    {
        if bound {
            Some(self.candidate)
        } else {
            self.candidate = self.candidate.wrapping_add(1);
            self.tried = Ghost(self.tried@ + 1);
            proof {
                let p = self.preferred as int;
                let t = old(self).tried@ as int;
                assert((((p + t) % 65536) + 1) % 65536 == (p + t + 1) % 65536) by (nonlinear_arith);
            }
            None
        }
    }
}

/// The driver executable and its arguments.
#[derive(Clone, Debug, PartialEq, Eq)]
pub struct DriverLaunch {
    pub program: String,
    pub args: Vec<String>,
}

/// How to start the driver so that it listens on `port`: the port is its only
/// argument.
pub fn driver_launch(port: u16) -> (r: DriverLaunch)
    ensures
        r.program@ == "chromedriver"@,
        r.args@.len() == 1,
        r.args@[0]@ == "--port="@ + decimal(port as nat),
{
    let mut args: Vec<String> = Vec::new();
    args.push(with_decimal("--port=", port as u64));
    DriverLaunch { program: "chromedriver".to_owned(), args }
}

/// The address at which the driver on `port` is reached for readiness checks.
pub fn driver_address(port: u16) -> (r: String)
    ensures
        r@ == "127.0.0.1:"@ + decimal(port as nat),
{
    with_decimal("127.0.0.1:", port as u64)
}

/// The remote-control endpoint of the driver on `port`.
pub fn webdriver_url(port: u16) -> (r: String)
    ensures
        r@ == "http://localhost:"@ + decimal(port as nat),
{
    with_decimal("http://localhost:", port as u64)
}

/// What happened since the readiness monitor's last command.
#[derive(Clone, Copy, Debug, PartialEq, Eq, Structural)]
pub enum ReadinessEvent {
    /// Waiting begins, or the pause it asked for is over.
    Due,
    /// A connection to the driver was attempted; whether it was accepted. An
    /// accepted connection counts only when it is reported within the bound.
    Probed(bool),
}

/// What the readiness monitor asks the caller to do next.
#[derive(Clone, Copy, Debug, PartialEq, Eq)]
pub enum ReadinessCommand {
    /// Try to connect to the driver's port and report `Probed`.
    Connect,
    /// Sleep this many milliseconds, then report `Due`.
    Pause(u64),
    /// The wait is over: the driver is up, or it timed out.
    Finish(Result<(), AttemptError>),
}

/// Waits, within a bound, until the driver accepts connections.
#[derive(Clone, Copy, Debug, PartialEq, Eq, Structural)]
pub struct ReadinessMonitor {
    pub started_ms: u64,
    pub timeout_ms: u64,
}

/// The next command of monitor `m` on `event` at time `now`.
pub open spec fn readiness_reaction(m: ReadinessMonitor, event: ReadinessEvent, now: u64) -> ReadinessCommand {
    let late = elapsed(m.started_ms, now) >= m.timeout_ms;
    match event {
        ReadinessEvent::Probed(true) => if late {
            ReadinessCommand::Finish(Err(AttemptError::ReadinessTimeout))
        } else {
            ReadinessCommand::Finish(Ok(()))
        },
        ReadinessEvent::Probed(false) => if late {
            ReadinessCommand::Finish(Err(AttemptError::ReadinessTimeout))
        } else {
            ReadinessCommand::Pause(READINESS_POLL_MS)
        },
        ReadinessEvent::Due => if late {
            ReadinessCommand::Finish(Err(AttemptError::ReadinessTimeout))
        } else {
            ReadinessCommand::Connect
        },
    }
}

impl ReadinessMonitor {
    /// Starts waiting at time `now_ms` with a bound of `timeout_ms`. The
    /// caller then reports `Due`.
    pub fn new(now_ms: u64, timeout_ms: u64) -> (r: ReadinessMonitor)
        ensures
            r.started_ms == now_ms,
            r.timeout_ms == timeout_ms,
    {
        ReadinessMonitor { started_ms: now_ms, timeout_ms }
    }

    /// The next command, given what happened at time `now_ms`.
    pub fn react(&self, event: ReadinessEvent, now_ms: u64) -> (r: ReadinessCommand)
        ensures
            r == readiness_reaction(*self, event, now_ms),
    {
        let late = elapsed_ms(self.started_ms, now_ms) >= self.timeout_ms;
        match event {
            ReadinessEvent::Probed(true) => {
                if late {
                    ReadinessCommand::Finish(Err(AttemptError::ReadinessTimeout))
                } else {
                    ReadinessCommand::Finish(Ok(()))
                }
            },
            ReadinessEvent::Probed(false) => {
                if late {
                    ReadinessCommand::Finish(Err(AttemptError::ReadinessTimeout))
                } else {
                    ReadinessCommand::Pause(READINESS_POLL_MS)
                }
            },
            ReadinessEvent::Due => {
                if late {
                    ReadinessCommand::Finish(Err(AttemptError::ReadinessTimeout))
                } else {
                    ReadinessCommand::Connect
                }
            },
        }
    }
}

} // verus!
