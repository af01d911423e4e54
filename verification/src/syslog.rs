//! The failures of setting up logging.

use vstd::prelude::*;
use vstd::string::*;

verus! {

/// Why logging could not be set up.
#[derive(Debug, PartialEq, Eq)]
pub enum Error {
    /// The socket of the system log could not be opened.
    SyslogUnix(String),
    /// A logger was already in place.
    SetLoggerError(String),
}

/// What the message of each failure begins with.
pub open spec fn error_prefix(e: Error) -> Seq<char> {
    match e {
        Error::SyslogUnix(_) => "unix socket syslog setup failed: "@,
        Error::SetLoggerError(_) => "failed to set logger: "@,
    }
}

/// The cause that a failure carries.
pub open spec fn error_cause(e: Error) -> Seq<char> {
    match e {
        Error::SyslogUnix(cause) => cause@,
        Error::SetLoggerError(cause) => cause@,
    }
}

impl Error {
    /// The failure as text: what went wrong, then its cause.
    pub fn message(&self) -> (text: String)
        ensures
            text@ == error_prefix(*self) + error_cause(*self),
    {
        match self {
            Error::SyslogUnix(cause) => "unix socket syslog setup failed: ".to_owned().concat(
                cause.as_str(),
            ),
            Error::SetLoggerError(cause) => "failed to set logger: ".to_owned().concat(cause.as_str()),
        }
    }
}

} // verus!
