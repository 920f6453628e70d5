use vstd::prelude::*;

use crate::cookie::{session_cookie, session_cookie_of};

verus! {

/// Pause before looking again for an input field that is not there yet.
pub const INPUT_RETRY_MS: u64 = 150;

/// Pause before looking again for a button that is not there yet.
pub const CLICK_RETRY_MS: u64 = 500;

/// Milliseconds from `started` to `now` on a monotonic clock; a reading that
/// goes backwards counts as no time at all.
pub open spec fn elapsed(started: u64, now: u64) -> nat {
    if now >= started {
        (now - started) as nat
    } else {
        0
    }
}

pub fn elapsed_ms(started: u64, now: u64) -> (r: u64)
    ensures
        r == elapsed(started, now),
{
    if now >= started {
        now - started
    } else {
        0
    }
}

/// How one wait for a page element ended.
#[derive(Clone, Debug, PartialEq, Eq)]
pub enum WaitRes {
    /// The element was found and acted on.
    Found,
    /// The element did not turn up before the step's bound.
    TimeOut,
    /// The session cookie appeared first; it carries the cookie's value.
    FoundCookie(String),
}

/// What a login step does with the element once it is found.
#[derive(Clone, Debug, PartialEq, Eq)]
pub enum Interaction {
    /// Type the text into it.
    SendKeys(String),
    /// Click it.
    Click,
}

/// One entry of the login sequence.
#[derive(Clone, Debug, PartialEq, Eq)]
pub struct LoginStep {
    /// CSS selector of the element.
    pub selector: String,
    pub interaction: Interaction,
    /// How long to keep looking for the element, in milliseconds.
    pub timeout_ms: u64,
}

/// The pause between two lookups for a step with this interaction.
pub open spec fn retry_delay(interaction: Interaction) -> u64 {
    match interaction {
        Interaction::SendKeys(_) => INPUT_RETRY_MS,
        Interaction::Click => CLICK_RETRY_MS,
    }
}

/// What came of one attempt to find the element and act on it.
#[derive(Clone, Copy, Debug, PartialEq, Eq, Structural)]
pub enum LookupOutcome {
    /// Found, and the interaction went through.
    Done,
    /// The page holds no such element (yet).
    NotFound,
    /// The window went away, as it does in the middle of a redirect.
    StaleWindow,
    /// Any other remote-control error.
    Failed,
}

/// What happened since the last command of a wait.
#[derive(Clone, Debug, PartialEq, Eq)]
pub enum ProbeEvent {
    /// The wait begins, or the pause it asked for is over.
    Due,
    /// The page's cookie string was read.
    CookieJar(String),
    /// The element was looked up.
    Lookup(LookupOutcome),
    /// Reading the cookies failed with a remote-control error.
    RemoteFailed,
}

/// What a wait asks the caller to do next.
#[derive(Clone, Debug, PartialEq, Eq)]
pub enum ProbeCommand {
    /// Read the page's cookie string and report `CookieJar`.
    ReadCookies,
    /// Look up the element, act on it and report `Lookup`.
    Locate,
    /// Sleep this many milliseconds, then report `Due`.
    Pause(u64),
    /// The wait is over.
    Finish(WaitRes),
    /// The wait failed with a remote-control error.
    Abort,
}

/// A wait for one login step's element, raced against the session cookie:
/// the cookie is checked before every lookup.
#[derive(Clone, Copy, Debug, PartialEq, Eq, Structural)]
pub struct StepProbe {
    pub started_ms: u64,
    pub timeout_ms: u64,
    pub retry_ms: u64,
}

/// The probe that waits for `step`, begun at `now`.
pub open spec fn probe_for(step: LoginStep, now: u64) -> StepProbe {
    StepProbe { started_ms: now, timeout_ms: step.timeout_ms, retry_ms: retry_delay(step.interaction) }
}

/// `r` is how the probe answers `event` at time `now`.
pub open spec fn probe_reacts(p: StepProbe, event: ProbeEvent, now: u64, r: ProbeCommand) -> bool {
    match event {
        ProbeEvent::Due => r == if elapsed(p.started_ms, now) >= p.timeout_ms {
            ProbeCommand::Finish(WaitRes::TimeOut)
        } else {
            ProbeCommand::ReadCookies
        },
        ProbeEvent::CookieJar(jar) => match session_cookie_of(jar@) {
            Some(value) => if value.len() > 0 {
                r matches ProbeCommand::Finish(WaitRes::FoundCookie(c)) && c@ == value
            } else {
                r == ProbeCommand::Locate
            },
            None => r == ProbeCommand::Locate,
        },
        ProbeEvent::Lookup(outcome) => r == match outcome {
            LookupOutcome::Done => ProbeCommand::Finish(WaitRes::Found),
            LookupOutcome::NotFound => ProbeCommand::Pause(p.retry_ms),
            LookupOutcome::StaleWindow => ProbeCommand::Pause(p.retry_ms),
            LookupOutcome::Failed => ProbeCommand::Abort,
        },
        ProbeEvent::RemoteFailed => r == ProbeCommand::Abort,
    }
}

impl StepProbe {
    /// Starts waiting for `step`'s element at time `now_ms`.
    pub fn begin(step: &LoginStep, now_ms: u64) -> (r: StepProbe)
        ensures
            r == probe_for(*step, now_ms),
    {
        let retry_ms = match step.interaction {
            Interaction::SendKeys(_) => INPUT_RETRY_MS,
            Interaction::Click => CLICK_RETRY_MS,
        };
        StepProbe { started_ms: now_ms, timeout_ms: step.timeout_ms, retry_ms }
    }

    /// The next command, given what happened at time `now_ms`. Element
    /// lookups that find nothing or a stale window are retried after a pause
    /// until the bound has elapsed; any other remote-control error aborts.
    pub fn react(&self, event: ProbeEvent, now_ms: u64) -> (r: ProbeCommand)
        ensures
            probe_reacts(*self, event, now_ms, r),
    {
        match event {
            ProbeEvent::Due => {
                if elapsed_ms(self.started_ms, now_ms) >= self.timeout_ms {
                    ProbeCommand::Finish(WaitRes::TimeOut)
                } else {
                    ProbeCommand::ReadCookies
                }
            },
            ProbeEvent::CookieJar(jar) => match session_cookie(jar.as_str()) {
                Some(value) => {
                    if value.as_str().unicode_len() > 0 {
                        ProbeCommand::Finish(WaitRes::FoundCookie(value))
                    } else {
                        ProbeCommand::Locate
                    }
                },
                None => ProbeCommand::Locate,
            },
            ProbeEvent::Lookup(outcome) => match outcome {
                LookupOutcome::Done => ProbeCommand::Finish(WaitRes::Found),
                LookupOutcome::NotFound => ProbeCommand::Pause(self.retry_ms),
                LookupOutcome::StaleWindow => ProbeCommand::Pause(self.retry_ms),
                LookupOutcome::Failed => ProbeCommand::Abort,
            },
            ProbeEvent::RemoteFailed => ProbeCommand::Abort,
        }
    }
}

} // verus!
