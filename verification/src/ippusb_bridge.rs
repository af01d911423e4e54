//! Shutdown on interrupt, and the failures of the bridge daemon.

use vstd::prelude::*;
use vstd::string::*;

verus! {

/// Why the bridge could not start.
#[derive(Debug, PartialEq, Eq)]
pub enum Error {
    EventFd(String),
    ParseArgs(String),
    RegisterHandler(String),
    SysUtil(String),
}

/// What the message of each failure begins with.
pub open spec fn error_prefix(e: Error) -> Seq<char> {
    match e {
        Error::EventFd(_) => "Failed to create/duplicate EventFd: "@,
        Error::ParseArgs(_) => "Failed to parse arguments: "@,
        Error::RegisterHandler(_) => "Registering SIGINT handler failed: "@,
        Error::SysUtil(_) => "Sysutil error: "@,
    }
}

/// The cause that a failure carries.
pub open spec fn error_cause(e: Error) -> Seq<char> {
    match e {
        Error::EventFd(cause) => cause@,
        Error::ParseArgs(cause) => cause@,
        Error::RegisterHandler(cause) => cause@,
        Error::SysUtil(cause) => cause@,
    }
}

impl Error {
    /// The failure as text: what went wrong, then its cause.
    pub fn message(&self) -> (text: String)
        ensures
            text@ == error_prefix(*self) + error_cause(*self),
    {
        match self {
            Error::EventFd(cause) => "Failed to create/duplicate EventFd: ".to_owned().concat(
                cause.as_str(),
            ),
            Error::ParseArgs(cause) => "Failed to parse arguments: ".to_owned().concat(cause.as_str()),
            Error::RegisterHandler(cause) => "Registering SIGINT handler failed: ".to_owned().concat(
                cause.as_str(),
            ),
            Error::SysUtil(cause) => "Sysutil error: ".to_owned().concat(cause.as_str()),
        }
    }
}

/// What the interrupt handler does.
#[derive(Clone, Copy, Debug, PartialEq, Eq, Structural)]
pub enum SigintAction {
    /// An earlier interrupt did not end the program: exit at once, with
    /// status 1.
    ForceExit,
    /// Wake whoever polls this descriptor.
    Notify { fd: i32 },
    /// Nobody is polling yet; the raised flag is all there is to do.
    Nothing,
}

/// The decision of the interrupt handler, from whether shutdown was asked
/// for before and from the descriptor to wake pollers with, which is
/// negative while there is none.
pub open spec fn sigint_decision(shutdown_requested: bool, shutdown_fd: i32) -> SigintAction {
    if shutdown_requested {
        SigintAction::ForceExit
    } else if shutdown_fd >= 0 {
        SigintAction::Notify { fd: shutdown_fd }
    } else {
        SigintAction::Nothing
    }
}

/// Decides what an interrupt leads to. The flag that shutdown was asked
/// for is raised in every case, so the next interrupt forces the exit.
pub fn sigint_handler(shutdown_requested: bool, shutdown_fd: i32) -> (decided: (SigintAction, bool))
    ensures
        decided.0 == sigint_decision(shutdown_requested, shutdown_fd),
        decided.1,
        sigint_decision(decided.1, shutdown_fd) == SigintAction::ForceExit,
{
    if shutdown_requested {
        (SigintAction::ForceExit, true)
    } else if shutdown_fd >= 0 {
        (SigintAction::Notify { fd: shutdown_fd }, true)
    } else {
        (SigintAction::Nothing, true)
    }
}

} // verus!
