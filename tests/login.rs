use kuvpn::error::AttemptError;
use kuvpn::login::{
    credentials_from, login_steps, LoginCommand, LoginCredentials, LoginEngine,
    CONTINUE_TIMEOUT_MS, FIELD_TIMEOUT_MS, SIGN_IN_TIMEOUT_MS,
};
use kuvpn::wait::{
    Interaction, LoginStep, LookupOutcome, ProbeCommand, ProbeEvent, StepProbe, WaitRes,
    CLICK_RETRY_MS, INPUT_RETRY_MS,
};

fn creds() -> LoginCredentials {
    LoginCredentials { username: "user@ku.edu.tr".to_string(), password: "hunter2".to_string() }
}

#[test]
fn credentials_need_both_parts() {
    assert_eq!(credentials_from(None, None), None);
    assert_eq!(credentials_from(Some("u".to_string()), None), None);
    assert_eq!(credentials_from(None, Some("p".to_string())), None);
    assert_eq!(credentials_from(Some(String::new()), Some("p".to_string())), None);
    assert_eq!(credentials_from(Some("u".to_string()), Some(String::new())), None);
    assert_eq!(
        credentials_from(Some("u".to_string()), Some("p".to_string())),
        Some(LoginCredentials { username: "u".to_string(), password: "p".to_string() })
    );
}

#[test]
fn login_sequence() {
    let steps = login_steps(&creds());
    assert_eq!(steps.len(), 6);
    assert_eq!(steps[0].selector, "input[name='loginfmt']");
    assert_eq!(steps[0].interaction, Interaction::SendKeys("user@ku.edu.tr".to_string()));
    assert_eq!(steps[0].timeout_ms, FIELD_TIMEOUT_MS);
    assert_eq!(steps[1].selector, "#idSIButton9");
    assert_eq!(steps[1].interaction, Interaction::Click);
    assert_eq!(steps[2].selector, "input[name='passwd']");
    assert_eq!(steps[2].interaction, Interaction::SendKeys("hunter2".to_string()));
    assert_eq!(steps[3].timeout_ms, SIGN_IN_TIMEOUT_MS);
    assert_eq!(steps[4].timeout_ms, SIGN_IN_TIMEOUT_MS);
    assert_eq!(steps[5].selector, "#btnContinue");
    assert_eq!(steps[5].timeout_ms, CONTINUE_TIMEOUT_MS);
    assert_eq!(FIELD_TIMEOUT_MS, 10_000);
    assert_eq!(CONTINUE_TIMEOUT_MS, 30_000);
}

#[test]
fn probe_retries_missing_element_after_its_delay() {
    let input = LoginStep {
        selector: "#a".to_string(),
        interaction: Interaction::SendKeys("x".to_string()),
        timeout_ms: 1_000,
    };
    let click = LoginStep { selector: "#b".to_string(), interaction: Interaction::Click, timeout_ms: 1_000 };
    let p = StepProbe::begin(&input, 0);
    assert_eq!(p.react(ProbeEvent::Lookup(LookupOutcome::NotFound), 5), ProbeCommand::Pause(150));
    assert_eq!(INPUT_RETRY_MS, 150);
    let q = StepProbe::begin(&click, 0);
    assert_eq!(q.react(ProbeEvent::Lookup(LookupOutcome::StaleWindow), 5), ProbeCommand::Pause(500));
    assert_eq!(CLICK_RETRY_MS, 500);
    assert_eq!(q.react(ProbeEvent::Lookup(LookupOutcome::Failed), 5), ProbeCommand::Abort);
    assert_eq!(q.react(ProbeEvent::Lookup(LookupOutcome::Done), 5), ProbeCommand::Finish(WaitRes::Found));
    assert_eq!(q.react(ProbeEvent::Due, 999), ProbeCommand::ReadCookies);
    assert_eq!(q.react(ProbeEvent::Due, 1_000), ProbeCommand::Finish(WaitRes::TimeOut));
    assert_eq!(
        q.react(ProbeEvent::CookieJar("DSID=zz".to_string()), 10),
        ProbeCommand::Finish(WaitRes::FoundCookie("zz".to_string()))
    );
    assert_eq!(q.react(ProbeEvent::CookieJar("x=y".to_string()), 10), ProbeCommand::Locate);
}

#[test]
fn engine_stops_on_cookie_before_first_lookup() {
    let mut e = LoginEngine::new(&creds(), 0);
    assert!(e.running());
    assert_eq!(e.react(ProbeEvent::Due, 0), LoginCommand::ReadCookies);
    assert_eq!(
        e.react(ProbeEvent::CookieJar("DSID=abc123".to_string()), 1),
        LoginCommand::Finish(Ok(Some("abc123".to_string())))
    );
    assert!(!e.running());
}

#[test]
fn engine_moves_on_after_a_step_times_out() {
    let mut e = LoginEngine::new(&creds(), 0);
    assert_eq!(e.react(ProbeEvent::Due, 0), LoginCommand::ReadCookies);
    assert_eq!(e.react(ProbeEvent::CookieJar(String::new()), 1), LoginCommand::Locate(0));
    assert_eq!(e.react(ProbeEvent::Lookup(LookupOutcome::NotFound), 2), LoginCommand::Pause(150));
    assert_eq!(e.react(ProbeEvent::Due, 10_002), LoginCommand::ReadCookies);
    assert_eq!(e.current, 1);
    assert_eq!(e.react(ProbeEvent::CookieJar(String::new()), 10_003), LoginCommand::Locate(1));
    assert_eq!(e.react(ProbeEvent::Lookup(LookupOutcome::Done), 10_004), LoginCommand::ReadCookies);
    assert_eq!(e.current, 2);
}

#[test]
fn engine_without_cookie_finishes_after_last_step() {
    let mut e = LoginEngine::new(&creds(), 0);
    let mut now: u64 = 0;
    for i in 0..6 {
        assert_eq!(e.react(ProbeEvent::Due, now), LoginCommand::ReadCookies);
        assert_eq!(e.react(ProbeEvent::CookieJar(String::new()), now), LoginCommand::Locate(i));
        now += 1;
        let r = e.react(ProbeEvent::Lookup(LookupOutcome::Done), now);
        if i < 5 {
            assert_eq!(r, LoginCommand::ReadCookies);
        } else {
            assert_eq!(r, LoginCommand::Finish(Ok(None)));
        }
    }
    assert!(!e.running());
}

#[test]
fn engine_fails_on_other_remote_errors() {
    let mut e = LoginEngine::new(&creds(), 0);
    e.react(ProbeEvent::Due, 0);
    e.react(ProbeEvent::CookieJar(String::new()), 0);
    assert_eq!(
        e.react(ProbeEvent::Lookup(LookupOutcome::Failed), 1),
        LoginCommand::Finish(Err(AttemptError::ConnectionFailure))
    );
    let mut e = LoginEngine::new(&creds(), 0);
    assert_eq!(
        e.react(ProbeEvent::RemoteFailed, 0),
        LoginCommand::Finish(Err(AttemptError::ConnectionFailure))
    );
}
