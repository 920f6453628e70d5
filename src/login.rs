use vstd::prelude::*;

use crate::cookie::session_cookie_of;
use crate::error::AttemptError;
use crate::wait::{
    elapsed, probe_for, retry_delay, Interaction, LoginStep, ProbeCommand, ProbeEvent, StepProbe,
    WaitRes,
};

verus! {

/// Bound for the username, "next" and password steps.
pub const FIELD_TIMEOUT_MS: u64 = 10_000;

/// Bound for the "sign in" and "stay signed in" steps. Signing in may wait on
/// a second factor, so this bound is generous, but it is a bound.
pub const SIGN_IN_TIMEOUT_MS: u64 = 300_000;

/// Bound for the optional "continue despite an existing session" prompt.
pub const CONTINUE_TIMEOUT_MS: u64 = 30_000;

/// A username and password for the login form.
#[derive(Clone, Debug, PartialEq, Eq)]
pub struct LoginCredentials {
    pub username: String,
    pub password: String,
}

/// A value is given and is not empty.
pub open spec fn is_given(s: Option<String>) -> bool {
    s matches Some(v) && v@.len() > 0
}

/// The credentials, when both parts are given and neither is empty.
pub fn credentials_from(username: Option<String>, password: Option<String>) -> (r: Option<
    LoginCredentials,
>)
    ensures
        r is Some <==> is_given(username) && is_given(password),
        r matches Some(c) ==> username == Some(c.username) && password == Some(c.password),
{
    match (username, password) {
        (Some(u), Some(p)) => {
            if u.as_str().unicode_len() > 0 && p.as_str().unicode_len() > 0 {
                Some(LoginCredentials { username: u, password: p })
            } else {
                None
            }
        },
        _ => None,
    }
}

/// `step` looks for `selector` for `timeout` milliseconds and then types
/// `keys`, or clicks when there are no keys.
pub open spec fn is_step(step: LoginStep, selector: Seq<char>, keys: Option<Seq<char>>, timeout: u64) -> bool {
    &&& step.selector@ == selector
    &&& step.timeout_ms == timeout
    &&& match keys {
        Some(text) => step.interaction matches Interaction::SendKeys(k) && k@ == text,
        None => step.interaction == Interaction::Click,
    }
}

/// `steps` is the login sequence for `credentials`.
pub open spec fn is_login_plan(steps: Seq<LoginStep>, credentials: LoginCredentials) -> bool {
    &&& steps.len() == 6
    &&& is_step(steps[0], "input[name='loginfmt']"@, Some(credentials.username@), FIELD_TIMEOUT_MS)
    &&& is_step(steps[1], "#idSIButton9"@, None, FIELD_TIMEOUT_MS)
    &&& is_step(steps[2], "input[name='passwd']"@, Some(credentials.password@), FIELD_TIMEOUT_MS)
    &&& is_step(steps[3], "#idSIButton9"@, None, SIGN_IN_TIMEOUT_MS)
    &&& is_step(steps[4], "#idSIButton9"@, None, SIGN_IN_TIMEOUT_MS)
    &&& is_step(steps[5], "#btnContinue"@, None, CONTINUE_TIMEOUT_MS)
}

/// The login sequence: username, "next", password, "sign in", "stay signed
/// in", and the prompt about an existing session.
pub fn login_steps(credentials: &LoginCredentials) -> (r: Vec<LoginStep>)
    ensures
        is_login_plan(r@, *credentials),
{
    let mut r: Vec<LoginStep> = Vec::new();
    r.push(
        LoginStep {
            selector: "input[name='loginfmt']".to_owned(),
            interaction: Interaction::SendKeys(credentials.username.as_str().to_owned()),
            timeout_ms: FIELD_TIMEOUT_MS,
        },
    );
    r.push(
        LoginStep {
            selector: "#idSIButton9".to_owned(),
            interaction: Interaction::Click,
            timeout_ms: FIELD_TIMEOUT_MS,
        },
    );
    r.push(
        LoginStep {
            selector: "input[name='passwd']".to_owned(),
            interaction: Interaction::SendKeys(credentials.password.as_str().to_owned()),
            timeout_ms: FIELD_TIMEOUT_MS,
        },
    );
    r.push(
        LoginStep {
            selector: "#idSIButton9".to_owned(),
            interaction: Interaction::Click,
            timeout_ms: SIGN_IN_TIMEOUT_MS,
        },
    );
    r.push(
        LoginStep {
            selector: "#idSIButton9".to_owned(),
            interaction: Interaction::Click,
            timeout_ms: SIGN_IN_TIMEOUT_MS,
        },
    );
    r.push(
        LoginStep {
            selector: "#btnContinue".to_owned(),
            interaction: Interaction::Click,
            timeout_ms: CONTINUE_TIMEOUT_MS,
        },
    );
    r
}

/// What the login engine asks the caller to do next.
#[derive(Debug, PartialEq, Eq)]
pub enum LoginCommand {
    /// Read the page's cookie string and report `CookieJar`.
    ReadCookies,
    /// Look up the element of the step with this index, act on it as the
    /// step says, and report `Lookup`.
    Locate(usize),
    /// Sleep this many milliseconds, then report `Due`.
    Pause(u64),
    /// The engine is done: with the session cookie if it appeared, with none
    /// if every step ran without it, or with a connection failure.
    Finish(Result<Option<String>, AttemptError>),
}

/// Drives the login steps in order. Before every lookup of a step's element
/// it checks for the session cookie and stops as soon as the cookie is there.
/// A step whose element never turns up times out and the next one begins:
/// the steps are probes, not requirements.
pub struct LoginEngine {
    pub steps: Vec<LoginStep>,
    /// The step being waited for; `steps.len()` once the engine is done.
    pub current: usize,
    /// The wait for the current step.
    pub probe: StepProbe,
}

/// The engine is done.
pub open spec fn stopped(e: LoginEngine) -> bool {
    e.current == e.steps@.len()
}

/// The engine is still waiting for the same step, in the same way.
pub open spec fn unchanged(old: LoginEngine, new: LoginEngine) -> bool {
    new.current == old.current && new.probe == old.probe
}

/// The current step is over (found, or timed out) and the next one begins at
/// `now`, or the engine finishes without a cookie after the last step.
pub open spec fn advanced(old: LoginEngine, now: u64, new: LoginEngine, r: LoginCommand) -> bool {
    &&& new.current == old.current + 1
    &&& if new.current == old.steps@.len() {
        r == LoginCommand::Finish(Ok(None))
    } else {
        r == LoginCommand::ReadCookies && new.probe == probe_for(old.steps@[new.current as int], now)
    }
}

/// The engine, in state `old`, answers `event` at time `now` with `r` and
/// moves to state `new`.
pub open spec fn engine_reacts(
    old: LoginEngine,
    event: ProbeEvent,
    now: u64,
    new: LoginEngine,
    r: LoginCommand,
) -> bool {
    let p = old.probe;
    &&& new.steps@ == old.steps@
    &&& match event {
        ProbeEvent::Due => if elapsed(p.started_ms, now) >= p.timeout_ms {
            advanced(old, now, new, r)
        } else {
            r == LoginCommand::ReadCookies && unchanged(old, new)
        },
        ProbeEvent::CookieJar(jar) => match session_cookie_of(jar@) {
            Some(value) => if value.len() > 0 {
                &&& r matches LoginCommand::Finish(Ok(Some(c)))
                &&& r->Finish_0->Ok_0->Some_0@ == value
                &&& stopped(new)
            } else {
                r == LoginCommand::Locate(old.current) && unchanged(old, new)
            },
            None => r == LoginCommand::Locate(old.current) && unchanged(old, new),
        },
        ProbeEvent::Lookup(outcome) => match outcome {
            crate::wait::LookupOutcome::Done => advanced(old, now, new, r),
            crate::wait::LookupOutcome::NotFound => r == LoginCommand::Pause(p.retry_ms) && unchanged(old, new),
            crate::wait::LookupOutcome::StaleWindow => r == LoginCommand::Pause(p.retry_ms) && unchanged(old, new),
            crate::wait::LookupOutcome::Failed => r == LoginCommand::Finish(Err(AttemptError::ConnectionFailure)) && stopped(new),
        },
        ProbeEvent::RemoteFailed => r == LoginCommand::Finish(Err(AttemptError::ConnectionFailure)) && stopped(new),
    }
}

impl LoginEngine {
    pub open spec fn wf(&self) -> bool {
        &&& self.current <= self.steps@.len()
        &&& forall|i: int| 0 <= i < self.steps@.len() ==> #[trigger] self.steps@[i].timeout_ms > 0
        &&& self.current < self.steps@.len() ==> {
            &&& self.probe.timeout_ms == self.steps@[self.current as int].timeout_ms
            &&& self.probe.retry_ms == retry_delay(self.steps@[self.current as int].interaction)
        }
    }

    pub open spec fn is_running(&self) -> bool {
        self.current < self.steps@.len()
    }

    /// Starts the login sequence for `credentials` at time `now_ms`. The
    /// caller then reports `Due`.
    pub fn new(credentials: &LoginCredentials, now_ms: u64) -> (r: LoginEngine)
        ensures
            r.wf(),
            r.is_running(),
            r.current == 0,
            is_login_plan(r.steps@, *credentials),
            r.probe == probe_for(r.steps@[0], now_ms),
    {
        let steps = login_steps(credentials);
        let probe = StepProbe::begin(&steps[0], now_ms);
        LoginEngine { steps, current: 0, probe }
    }

    /// Whether the engine still expects events.
    pub fn running(&self) -> (r: bool)
        ensures
            r == self.is_running(),
    {
        self.current < self.steps.len()
    }

    /// The next command, given what happened at time `now_ms`.
    pub fn react(&mut self, event: ProbeEvent, now_ms: u64) -> (r: LoginCommand)
        requires
            old(self).wf(),
            old(self).is_running(),
        ensures
            final(self).wf(),
            engine_reacts(*old(self), event, now_ms, *final(self), r),
    {
        let n = self.steps.len();
        let command = self.probe.react(event, now_ms);
        match command {
            ProbeCommand::ReadCookies => LoginCommand::ReadCookies,
            ProbeCommand::Locate => LoginCommand::Locate(self.current),
            ProbeCommand::Pause(ms) => LoginCommand::Pause(ms),
            ProbeCommand::Abort => {
                self.current = self.steps.len();
                LoginCommand::Finish(Err(AttemptError::ConnectionFailure))
            },
            ProbeCommand::Finish(WaitRes::FoundCookie(cookie)) => {
                self.current = self.steps.len();
                LoginCommand::Finish(Ok(Some(cookie)))
            },
            ProbeCommand::Finish(_) => {
                self.current = self.current + 1;
                if self.current == n {
                    LoginCommand::Finish(Ok(None))
                } else {
                    self.probe = StepProbe::begin(&self.steps[self.current], now_ms);
                    LoginCommand::ReadCookies
                }
            },
        }
    }
}

} // verus!
