use vstd::prelude::*;

use crate::cookie::{session_cookie, session_cookie_of};
use crate::wait::{elapsed, elapsed_ms};

verus! {

/// Pause between two reads of the page's cookies.
pub const POLL_INTERVAL_MS: u64 = 100;

/// How long an automation attempt waits for the session cookie after login.
pub const COOKIE_WAIT_MS: u64 = 30_000;

/// What happened since the poller's last command.
#[derive(Clone, Debug, PartialEq, Eq)]
pub enum PollEvent {
    /// Polling begins, or the pause it asked for is over.
    Due,
    /// The page's cookie string was read.
    CookieJar(String),
    /// Reading the cookies failed with a remote-control error.
    RemoteFailed,
}

/// What the poller asks the caller to do next.
#[derive(Clone, Debug, PartialEq, Eq)]
pub enum PollCommand {
    /// Read the page's cookie string and report `CookieJar`.
    ReadCookies,
    /// Sleep this many milliseconds, then report `Due`.
    Pause(u64),
    /// Polling is over: with the cookie's value, or with none once the bound
    /// has elapsed. Running out of time is not an error.
    Finish(Option<String>),
    /// Polling failed with a remote-control error.
    Abort,
}

/// Polls the page for the session cookie until it shows up or the bound
/// elapses.
#[derive(Clone, Copy, Debug, PartialEq, Eq, Structural)]
pub struct CookiePoller {
    pub started_ms: u64,
    pub timeout_ms: u64,
}

/// The event tells of a page without a usable session cookie.
pub open spec fn lacks_cookie(event: PollEvent) -> bool {
    match event {
        PollEvent::Due => true,
        PollEvent::CookieJar(jar) => !(session_cookie_of(jar@) matches Some(v) && v.len() > 0),
        PollEvent::RemoteFailed => false,
    }
}

/// `r` is how the poller answers `event` at time `now`.
pub open spec fn poll_reacts(p: CookiePoller, event: PollEvent, now: u64, r: PollCommand) -> bool {
    match event {
        PollEvent::Due => r == if elapsed(p.started_ms, now) >= p.timeout_ms {
            PollCommand::Finish(None)
        } else {
            PollCommand::ReadCookies
        },
        PollEvent::CookieJar(jar) => match session_cookie_of(jar@) {
            Some(value) => if value.len() > 0 {
                r matches PollCommand::Finish(Some(c)) && c@ == value
            } else {
                r == PollCommand::Pause(POLL_INTERVAL_MS)
            },
            None => r == PollCommand::Pause(POLL_INTERVAL_MS),
        },
        PollEvent::RemoteFailed => r == PollCommand::Abort,
    }
}

impl CookiePoller {
    /// Starts polling at time `now_ms` with a bound of `timeout_ms`. The
    /// caller then reports `Due`.
    pub fn new(now_ms: u64, timeout_ms: u64) -> (r: CookiePoller)
        ensures
            r.started_ms == now_ms,
            r.timeout_ms == timeout_ms,
    {
        CookiePoller { started_ms: now_ms, timeout_ms }
    }

    /// The next command, given what happened at time `now_ms`.
    pub fn react(&self, event: PollEvent, now_ms: u64) -> (r: PollCommand)
        ensures
            poll_reacts(*self, event, now_ms, r),
    {
        match event {
            PollEvent::Due => {
                if elapsed_ms(self.started_ms, now_ms) >= self.timeout_ms {
                    PollCommand::Finish(None)
                } else {
                    PollCommand::ReadCookies
                }
            },
            PollEvent::CookieJar(jar) => match session_cookie(jar.as_str()) {
                Some(value) => {
                    if value.as_str().unicode_len() > 0 {
                        PollCommand::Finish(Some(value))
                    } else {
                        PollCommand::Pause(POLL_INTERVAL_MS)
                    }
                },
                None => PollCommand::Pause(POLL_INTERVAL_MS),
            },
            PollEvent::RemoteFailed => PollCommand::Abort,
        }
    }
}

/// On a page without the session cookie the poller never finishes before its
/// whole bound has elapsed, and then finishes with no cookie; until then it
/// keeps reading the cookies every interval.
pub proof fn gives_up_only_after_bound(p: CookiePoller, event: PollEvent, now: u64, r: PollCommand)
    requires
        lacks_cookie(event),
        poll_reacts(p, event, now, r),
    ensures
        r is Finish ==> r == PollCommand::Finish(None) && elapsed(p.started_ms, now) >= p.timeout_ms,
        elapsed(p.started_ms, now) < p.timeout_ms ==> r == PollCommand::ReadCookies || r
            == PollCommand::Pause(POLL_INTERVAL_MS),
{
}

} // verus!
