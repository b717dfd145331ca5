//! The error taxonomy: I/O failures, validation failures, and external
//! command failures, surfaced to callers as one discriminated type.

use vstd::prelude::*;
use vstd::string::StringExecFns;

verus! {

/// An error raised while managing a service: an operating-system I/O
/// failure, a configuration value that violates a documented constraint,
/// or a non-zero exit of the external control executable.  Each variant
/// carries its human-readable detail text.
#[derive(Debug, Clone, PartialEq, Eq)]
pub enum Error {
    IoError(String),
    ValidationError(String),
    CommandError(String),
}

impl Error {
    /// The full human-readable description of the error.
    pub open spec fn message_spec(self) -> Seq<char> {
        match self {
            Error::IoError(m) => "I/O Error: "@ + m@,
            Error::ValidationError(m) => "Validation Error: "@ + m@,
            Error::CommandError(m) => "Command Error: "@ + m@,
        }
    }

    pub fn message(&self) -> (r: String)
        ensures
            r@ == self.message_spec(),
    {
        match self {
            Error::IoError(m) => {
                let mut s = String::from_str("I/O Error: ");
                s.append(m.as_str());
                s
            },
            Error::ValidationError(m) => {
                let mut s = String::from_str("Validation Error: ");
                s.append(m.as_str());
                s
            },
            Error::CommandError(m) => {
                let mut s = String::from_str("Command Error: ");
                s.append(m.as_str());
                s
            },
        }
    }
}

} // verus!
