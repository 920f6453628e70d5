use vstd::prelude::*;

use crate::error::AttemptError;
use crate::login::LoginCredentials;
use crate::poller::COOKIE_WAIT_MS;

verus! {

/// How many times the host-checker bypass is invoked, at most.
pub const BYPASS_RUNS: u32 = 3;

/// What the browser is asked for when a session is negotiated.
#[derive(Clone, Debug, PartialEq, Eq)]
pub struct SessionCapabilities {
    /// Command-line arguments for the browser.
    pub browser_args: Vec<String>,
    /// When navigation counts as finished.
    pub page_load_strategy: String,
}

/// Capabilities for a browser that opens as a bare application window and
/// keeps its profile (and so its sign-in state) in `profile_dir`.
pub fn session_capabilities(profile_dir: &str) -> (r: SessionCapabilities)
    ensures
        r.browser_args@.len() == 2,
        r.browser_args@[0]@ == "--app=data:text/html,<html><body></body></html>"@,
        r.browser_args@[1]@ == "--user-data-dir="@ + profile_dir@,
        r.page_load_strategy@ == "normal"@,
{
    let mut profile_arg = "--user-data-dir=".to_owned();
    profile_arg.append(profile_dir);
    let mut browser_args: Vec<String> = Vec::new();
    browser_args.push("--app=data:text/html,<html><body></body></html>".to_owned());
    browser_args.push(profile_arg);
    SessionCapabilities { browser_args, page_load_strategy: "normal".to_owned() }
}

/// Where an automation attempt stands.
#[derive(Clone, Debug, PartialEq, Eq)]
pub enum SessionPhase {
    /// Not started.
    Idle,
    /// Waiting for session negotiation.
    Negotiating,
    /// Waiting for the target page to load.
    Navigating,
    /// Waiting for a host-checker bypass run; the count is of runs that
    /// succeeded so far.
    Bypassing(u32),
    /// Waiting for the login engine.
    LoggingIn,
    /// Waiting for the cookie poller.
    Polling,
    /// Waiting for the session to close; holds the cookie found.
    Closing(String),
    /// Over.
    Finished,
}

/// What happened since the attempt's last command.
#[derive(Clone, Debug, PartialEq, Eq)]
pub enum SessionEvent {
    /// The attempt begins.
    Start,
    /// A session was negotiated.
    Negotiated,
    /// Session negotiation failed; `browser_missing` when the driver reported
    /// that it could not find the browser.
    NegotiationFailed { browser_missing: bool },
    /// The target page was loaded.
    Navigated,
    /// A host-checker bypass run ended, successfully or not.
    BypassRan(bool),
    /// The login engine finished, with the cookie if it saw one.
    LoginEnded(Option<String>),
    /// The cookie poller finished, with the cookie if it saw one in time.
    PollEnded(Option<String>),
    /// The session was closed.
    Closed,
    /// A remote-control command failed.
    RemoteFailed,
}

/// What the attempt asks the caller to do next.
#[derive(Debug, PartialEq, Eq)]
pub enum SessionCommand {
    /// Negotiate a session with the attempt's capabilities.
    Negotiate,
    /// Load the attempt's target page.
    Navigate,
    /// Invoke the host-checker bypass script.
    RunBypass,
    /// Run the login engine with the attempt's credentials.
    LogIn,
    /// Run the cookie poller with this bound, in milliseconds.
    PollCookie(u64),
    /// Close the session.
    Close,
    /// The attempt is over.
    Finish(Result<Option<String>, AttemptError>),
}

/// The events that the caller may report in `phase`: the outcomes of the
/// command that led there.
pub open spec fn expects(phase: SessionPhase, event: SessionEvent) -> bool {
    match phase {
        SessionPhase::Idle => event is Start,
        SessionPhase::Negotiating => event is Negotiated || event is NegotiationFailed,
        SessionPhase::Navigating => event is Navigated || event is RemoteFailed,
        SessionPhase::Bypassing(_) => event is BypassRan,
        SessionPhase::LoggingIn => event is LoginEnded || event is RemoteFailed,
        SessionPhase::Polling => event is PollEnded || event is RemoteFailed,
        SessionPhase::Closing(_) => event is Closed || event is RemoteFailed,
        SessionPhase::Finished => false,
    }
}

/// Once the bypass runs are over: log in when there are credentials, else
/// go straight to polling for the cookie.
pub open spec fn after_bypass(has_credentials: bool) -> (SessionPhase, SessionCommand) {
    if has_credentials {
        (SessionPhase::LoggingIn, SessionCommand::LogIn)
    } else {
        (SessionPhase::Polling, SessionCommand::PollCookie(COOKIE_WAIT_MS))
    }
}

/// The attempt ends with a connection failure.
pub open spec fn connection_lost() -> (SessionPhase, SessionCommand) {
    (SessionPhase::Finished, SessionCommand::Finish(Err(AttemptError::ConnectionFailure)))
}

/// The next phase and command of an attempt in `phase` on an expected `event`.
pub open spec fn session_transition(phase: SessionPhase, has_credentials: bool, event: SessionEvent) -> (
    SessionPhase,
    SessionCommand,
) {
    match event {
        SessionEvent::Start => (SessionPhase::Negotiating, SessionCommand::Negotiate),
        SessionEvent::Negotiated => (SessionPhase::Navigating, SessionCommand::Navigate),
        SessionEvent::NegotiationFailed { browser_missing } => (
            SessionPhase::Finished,
            SessionCommand::Finish(Err(AttemptError::ClientBuildFailure { fatal: browser_missing })),
        ),
        SessionEvent::Navigated => (SessionPhase::Bypassing(0), SessionCommand::RunBypass),
        SessionEvent::BypassRan(ok) => {
            let runs = phase->Bypassing_0;
            if ok && runs + 1 < BYPASS_RUNS {
                (SessionPhase::Bypassing((runs + 1) as u32), SessionCommand::RunBypass)
            } else {
                after_bypass(has_credentials)
            }
        },
        SessionEvent::LoginEnded(found) => match found {
            Some(cookie) => (SessionPhase::Closing(cookie), SessionCommand::Close),
            None => (SessionPhase::Polling, SessionCommand::PollCookie(COOKIE_WAIT_MS)),
        },
        SessionEvent::PollEnded(found) => match found {
            Some(cookie) => (SessionPhase::Closing(cookie), SessionCommand::Close),
            None => (SessionPhase::Finished, SessionCommand::Finish(Ok(None))),
        },
        SessionEvent::Closed => (
            SessionPhase::Finished,
            SessionCommand::Finish(Ok(Some(phase->Closing_0))),
        ),
        SessionEvent::RemoteFailed => connection_lost(),
    }
}

/// One login attempt against one driver process: negotiate a session, load
/// the page, run the host-checker bypass, log in when there are credentials,
/// poll for the cookie, and close the session once the cookie is found.
pub struct AutomationSession {
    pub url: String,
    pub capabilities: SessionCapabilities,
    pub credentials: Option<LoginCredentials>,
    pub phase: SessionPhase,
}

impl AutomationSession {
    pub open spec fn wf(&self) -> bool {
        self.phase matches SessionPhase::Bypassing(runs) ==> runs < BYPASS_RUNS
    }

    /// A new attempt on `url`; the caller then reports `Start`.
    pub fn new(url: String, capabilities: SessionCapabilities, credentials: Option<LoginCredentials>) -> (r:
        AutomationSession)
        ensures
            r.wf(),
            r.url == url,
            r.capabilities == capabilities,
            r.credentials == credentials,
            r.phase == SessionPhase::Idle,
    {
        AutomationSession { url, capabilities, credentials, phase: SessionPhase::Idle }
    }

    /// Whether `event` is one that the attempt expects now.
    pub fn accepts(&self, event: &SessionEvent) -> (r: bool)
        ensures
            r == expects(self.phase, *event),
    {
        match self.phase {
            SessionPhase::Idle => matches!(event, SessionEvent::Start),
            SessionPhase::Negotiating => matches!(event, SessionEvent::Negotiated | SessionEvent::NegotiationFailed { .. }),
            SessionPhase::Navigating => matches!(event, SessionEvent::Navigated | SessionEvent::RemoteFailed),
            SessionPhase::Bypassing(_) => matches!(event, SessionEvent::BypassRan(_)),
            SessionPhase::LoggingIn => matches!(event, SessionEvent::LoginEnded(_) | SessionEvent::RemoteFailed),
            SessionPhase::Polling => matches!(event, SessionEvent::PollEnded(_) | SessionEvent::RemoteFailed),
            SessionPhase::Closing(_) => matches!(event, SessionEvent::Closed | SessionEvent::RemoteFailed),
            SessionPhase::Finished => false,
        }
    }

    /// The next command, given what happened.
    pub fn react(&mut self, event: SessionEvent) -> (r: SessionCommand)
        requires
            old(self).wf(),
            expects(old(self).phase, event),
        ensures
            final(self).wf(),
            final(self).url == old(self).url,
            final(self).capabilities == old(self).capabilities,
            final(self).credentials == old(self).credentials,
            (final(self).phase, r) == session_transition(
                old(self).phase,
                old(self).credentials is Some,
                event,
            ),
    {
        let mut phase = SessionPhase::Finished;
        std::mem::swap(&mut phase, &mut self.phase);
        match event {
            SessionEvent::Start => {
                self.phase = SessionPhase::Negotiating;
                SessionCommand::Negotiate
            },
            SessionEvent::Negotiated => {
                self.phase = SessionPhase::Navigating;
                SessionCommand::Navigate
            },
            SessionEvent::NegotiationFailed { browser_missing } => {
                SessionCommand::Finish(Err(AttemptError::ClientBuildFailure { fatal: browser_missing }))
            },
            SessionEvent::Navigated => {
                self.phase = SessionPhase::Bypassing(0);
                SessionCommand::RunBypass
            },
            SessionEvent::BypassRan(ok) => {
                let runs = match phase {
                    SessionPhase::Bypassing(n) => n,
                    _ => 0,
                };
                if ok && runs + 1 < BYPASS_RUNS {
                    self.phase = SessionPhase::Bypassing(runs + 1);
                    SessionCommand::RunBypass
                } else if self.credentials.is_some() {
                    self.phase = SessionPhase::LoggingIn;
                    SessionCommand::LogIn
                } else {
                    self.phase = SessionPhase::Polling;
                    SessionCommand::PollCookie(COOKIE_WAIT_MS)
                }
            },
            SessionEvent::LoginEnded(found) => match found {
                Some(cookie) => {
                    self.phase = SessionPhase::Closing(cookie);
                    SessionCommand::Close
                },
                None => {
                    self.phase = SessionPhase::Polling;
                    SessionCommand::PollCookie(COOKIE_WAIT_MS)
                },
            },
            SessionEvent::PollEnded(found) => match found {
                Some(cookie) => {
                    self.phase = SessionPhase::Closing(cookie);
                    SessionCommand::Close
                },
                None => SessionCommand::Finish(Ok(None)),
            },
            SessionEvent::Closed => match phase {
                SessionPhase::Closing(cookie) => SessionCommand::Finish(Ok(Some(cookie))),
                _ => SessionCommand::Finish(Err(AttemptError::ConnectionFailure)),
            },
            SessionEvent::RemoteFailed => SessionCommand::Finish(Err(AttemptError::ConnectionFailure)),
        }
    }
}

/// Without credentials the login engine is never asked for: once the bypass
/// runs are over the attempt goes straight to polling for the cookie.
pub proof fn no_credentials_skip_login(phase: SessionPhase, event: SessionEvent)
    requires
        expects(phase, event),
    ensures
        session_transition(phase, false, event).1 != SessionCommand::LogIn,
        event is BypassRan && session_transition(phase, false, event).1 != SessionCommand::RunBypass
            ==> session_transition(phase, false, event) == (
            SessionPhase::Polling,
            SessionCommand::PollCookie(COOKIE_WAIT_MS),
        ),
{
}

/// A cookie is handed back only once the session it came from was closed;
/// every other way out of an attempt is an error or no cookie at all.
pub proof fn cookie_returned_only_after_close(phase: SessionPhase, has_credentials: bool, event: SessionEvent)
    requires
        expects(phase, event),
    ensures
        session_transition(phase, has_credentials, event).1 matches SessionCommand::Finish(Ok(Some(c)))
            ==> event is Closed && phase == SessionPhase::Closing(c),
{
}

} // verus!
