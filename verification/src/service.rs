//! The generic service-management interface: the lifecycle operations a
//! service manager offers, the normalized status vocabulary, and the error
//! surfaced to generic callers.

use vstd::prelude::*;

verus! {

/// An error reported through the generic `Service` interface.
#[derive(Debug, Clone)]
pub struct ServiceError {
    pub message: String,
}

/// The lifecycle operations every service manager implementation offers.
pub trait Service {
    fn install(&self) -> Result<(), ServiceError>;

    fn uninstall(&self) -> Result<(), ServiceError>;

    fn start(&self) -> Result<(), ServiceError>;

    fn stop(&self) -> Result<(), ServiceError>;

    fn restart(&self) -> Result<(), ServiceError>;

    fn status(&self) -> Result<Status, ServiceError>;
}

/// The normalized runtime state of a managed service.
#[derive(Debug, Eq, PartialEq, Clone, Copy)]
pub enum Status {
    Running,
    Stopped,
    Unknown,
    NotInstalled,
    Failed,
}

impl Status {
    /// The display label of each state.
    pub open spec fn label_spec(self) -> Seq<char> {
        match self {
            Status::Running => "Running"@,
            Status::Stopped => "Stopped"@,
            Status::Unknown => "Unknown"@,
            Status::NotInstalled => "Not installed"@,
            Status::Failed => "Failed"@,
        }
    }

    pub fn label(&self) -> (r: &'static str)
        ensures
            r@ == self.label_spec(),
    {
        match self {
            Status::Running => "Running",
            Status::Stopped => "Stopped",
            Status::Unknown => "Unknown",
            Status::NotInstalled => "Not installed",
            Status::Failed => "Failed",
        }
    }
}

/// The kinds of service manager this library knows.
#[derive(Debug, Clone, Copy)]
pub enum Type {
    Systemd,
}

} // verus!
