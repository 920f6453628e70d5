use vstd::prelude::*;

verus! {

/// Why one automation attempt failed.
#[derive(Clone, Copy, Debug, PartialEq, Eq, Structural)]
pub enum AttemptError {
    /// The browser-control process could not be spawned.
    ProcessStartFailure,
    /// The browser-control process did not accept connections in time.
    ReadinessTimeout,
    /// Session negotiation failed; `fatal` when the browser itself is missing.
    ClientBuildFailure { fatal: bool },
    /// A remote-control command failed after the session was negotiated.
    ConnectionFailure,
}

impl AttemptError {
    /// Whether this error ends the whole run without any retry or restart.
    pub open spec fn spec_is_terminal(&self) -> bool {
        match self {
            AttemptError::ProcessStartFailure => true,
            AttemptError::ReadinessTimeout => true,
            AttemptError::ClientBuildFailure { fatal } => *fatal,
            AttemptError::ConnectionFailure => false,
        }
    }

    #[verifier::when_used_as_spec(spec_is_terminal)]
    pub fn is_terminal(&self) -> (r: bool)
        ensures
            r == self.spec_is_terminal(),
    {
        match self {
            AttemptError::ProcessStartFailure => true,
            AttemptError::ReadinessTimeout => true,
            AttemptError::ClientBuildFailure { fatal } => *fatal,
            AttemptError::ConnectionFailure => false,
        }
    }
}

} // verus!
