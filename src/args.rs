use vstd::prelude::*;

use crate::driver::DEFAULT_DRIVER_PORT;

verus! {

/// How much the program logs.
#[derive(Clone, Copy, Debug, PartialEq, Eq, Structural)]
pub enum LogLevel {
    /// No logs
    Off,
    /// Informational messages
    Info,
    /// Warning messages
    Warn,
    /// Debugging messages
    Debug,
    /// Error messages
    Error,
    /// Detailed stacktrace messages
    Trace,
}

/// The program's options.
#[derive(Clone, Debug, PartialEq, Eq)]
pub struct Args {
    /// The page where logging in starts and the session cookie is looked for;
    /// also the server handed to the VPN client.
    pub url: String,
    /// The level of logging.
    pub level: LogLevel,
    /// Print the session cookie instead of starting the VPN client.
    pub dsid: bool,
    /// Delete the stored browser session and stop.
    pub clean: bool,
    /// User agent for the browser.
    pub agent: String,
    /// The port tried first for the driver process.
    pub port: u16,
    /// A command to run the VPN client with elevated privileges, tried before
    /// the usual ones.
    pub run_command: Option<String>,
}

impl Default for Args {
    fn default() -> (r: Args)
        ensures
            r.url@ == "https://vpn.ku.edu.tr"@,
            r.level == LogLevel::Error,
            !r.dsid,
            !r.clean,
            r.agent@ == "Mozilla/5.0"@,
            r.port == DEFAULT_DRIVER_PORT,
            r.run_command is None,
    {
        Args {
            url: "https://vpn.ku.edu.tr".to_owned(),
            level: LogLevel::Error,
            dsid: false,
            clean: false,
            agent: "Mozilla/5.0".to_owned(),
            port: DEFAULT_DRIVER_PORT,
            run_command: None,
        }
    }
}

} // verus!
