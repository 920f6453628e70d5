use kuvpn::args::{Args, LogLevel};
use kuvpn::driver::{
    driver_address, driver_launch, webdriver_url, PortSearch, ReadinessCommand, ReadinessEvent,
    ReadinessMonitor, DEFAULT_DRIVER_PORT,
};
use kuvpn::error::AttemptError;
use kuvpn::text::with_decimal;
use kuvpn::vpn::{first_available, openconnect_command, privilege_tools};

#[test]
fn free_preferred_port_is_used() {
    let mut s = PortSearch::new(9515);
    assert_eq!(s.candidate(), 9515);
    assert_eq!(s.on_probe(true), Some(9515));
}

#[test]
fn taken_preferred_port_moves_to_next() {
    let mut s = PortSearch::new(9515);
    assert_eq!(s.on_probe(false), None);
    assert_eq!(s.candidate(), 9516);
    assert_eq!(s.on_probe(true), Some(9516));
}

#[test]
fn port_search_wraps_at_top() {
    let mut s = PortSearch::new(65535);
    assert_eq!(s.on_probe(false), None);
    assert_eq!(s.candidate(), 0);
}

#[test]
fn driver_command_line() {
    let l = driver_launch(9515);
    assert_eq!(l.program, "chromedriver");
    assert_eq!(l.args, vec!["--port=9515".to_string()]);
    assert_eq!(webdriver_url(4444), "http://localhost:4444");
    assert_eq!(driver_address(9516), "127.0.0.1:9516");
}

#[test]
fn decimal_text() {
    assert_eq!(with_decimal("", 0), "0");
    assert_eq!(with_decimal("p", 7), "p7");
    assert_eq!(with_decimal("", 65535), "65535");
    assert_eq!(with_decimal("", 100), "100");
}

#[test]
fn readiness_monitor() {
    let m = ReadinessMonitor::new(0, 1_000);
    assert_eq!(m.react(ReadinessEvent::Due, 0), ReadinessCommand::Connect);
    assert_eq!(m.react(ReadinessEvent::Probed(false), 50), ReadinessCommand::Pause(100));
    assert_eq!(m.react(ReadinessEvent::Probed(true), 150), ReadinessCommand::Finish(Ok(())));
    assert_eq!(m.react(ReadinessEvent::Probed(true), 999), ReadinessCommand::Finish(Ok(())));
    assert_eq!(
        m.react(ReadinessEvent::Probed(true), 1_000),
        ReadinessCommand::Finish(Err(AttemptError::ReadinessTimeout))
    );
    assert_eq!(
        m.react(ReadinessEvent::Probed(false), 1_000),
        ReadinessCommand::Finish(Err(AttemptError::ReadinessTimeout))
    );
    assert_eq!(
        m.react(ReadinessEvent::Due, 1_200),
        ReadinessCommand::Finish(Err(AttemptError::ReadinessTimeout))
    );
}

#[test]
fn default_args() {
    let a = Args::default();
    assert_eq!(a.url, "https://vpn.ku.edu.tr");
    assert_eq!(a.level, LogLevel::Error);
    assert!(!a.dsid && !a.clean);
    assert_eq!(a.agent, "Mozilla/5.0");
    assert_eq!(a.port, DEFAULT_DRIVER_PORT);
    assert_eq!(a.run_command, None);
}

#[test]
fn privilege_tool_order() {
    assert_eq!(privilege_tools(None, false), vec!["doas", "sudo", "pkexec"]);
    assert_eq!(privilege_tools(Some("run0".to_string()), false), vec!["doas", "sudo", "pkexec"]);
    assert_eq!(
        privilege_tools(Some("run0".to_string()), true),
        vec!["run0", "doas", "sudo", "pkexec"]
    );
    assert_eq!(first_available(&vec![false, true, true]), Some(1));
    assert_eq!(first_available(&vec![false, false]), None);
    assert_eq!(first_available(&vec![]), None);
}

#[test]
fn vpn_client_command_line() {
    assert_eq!(
        openconnect_command("abc123", "https://vpn.ku.edu.tr"),
        vec!["openconnect", "--protocol", "nc", "-C", "DSID=abc123", "https://vpn.ku.edu.tr"]
    );
}
