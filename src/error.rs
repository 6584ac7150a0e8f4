//! Errors of the client and the text that describes each.

use vstd::prelude::*;

verus! {

/// Why an operation of the client failed.
#[derive(Debug, Clone, PartialEq, Eq)]
pub enum WarpError {
    /// The process exited unsuccessfully; holds what it wrote to standard error.
    CommandFailed(String),
    /// The binary is not on the search path.
    CommandNotFound,
    /// The output could not be understood.
    ParseError(String),
    /// The time bound passed before the process finished.
    Timeout(String),
    /// Starting the process failed; holds the system's message.
    IoError(String),
    /// JSON output could not be decoded.
    JsonError(String),
    RegistrationExists,
    NoRegistration,
    /// Connecting failed for a reason other than an existing connection.
    ConnectionFailed(String),
    /// Disconnecting failed for a reason other than an existing disconnection.
    DisconnectionFailed(String),
}

pub type WarpResult<T> = Result<T, WarpError>;

/// The text that describes an error.
pub open spec fn error_text(e: WarpError) -> Seq<char> {
    match e {
        WarpError::CommandFailed(m) => "Command execution failed: "@ + m@,
        WarpError::CommandNotFound => "Command not found: warp-cli is not installed or not in PATH"@,
        WarpError::ParseError(m) => "Failed to parse command output: "@ + m@,
        WarpError::Timeout(m) => "Command timed out: "@ + m@,
        WarpError::IoError(m) => "IO error: "@ + m@,
        WarpError::JsonError(m) => "JSON parsing error: "@ + m@,
        WarpError::RegistrationExists => "Registration already exists"@,
        WarpError::NoRegistration => "No registration found"@,
        WarpError::ConnectionFailed(m) => "Connection failed: "@ + m@,
        WarpError::DisconnectionFailed(m) => "Disconnection failed: "@ + m@,
    }
}

impl WarpError {
    /// The text that describes this error.
    pub fn message(&self) -> (r: String)
        ensures
            r@ == error_text(*self),
    {
        match self {
            WarpError::CommandFailed(m) => String::from_str("Command execution failed: ").concat(
                m.as_str(),
            ),
            WarpError::CommandNotFound => String::from_str(
                "Command not found: warp-cli is not installed or not in PATH",
            ),
            WarpError::ParseError(m) => String::from_str("Failed to parse command output: ").concat(
                m.as_str(),
            ),
            WarpError::Timeout(m) => String::from_str("Command timed out: ").concat(m.as_str()),
            WarpError::IoError(m) => String::from_str("IO error: ").concat(m.as_str()),
            WarpError::JsonError(m) => String::from_str("JSON parsing error: ").concat(m.as_str()),
            WarpError::RegistrationExists => String::from_str("Registration already exists"),
            WarpError::NoRegistration => String::from_str("No registration found"),
            WarpError::ConnectionFailed(m) => String::from_str("Connection failed: ").concat(
                m.as_str(),
            ),
            WarpError::DisconnectionFailed(m) => String::from_str("Disconnection failed: ").concat(
                m.as_str(),
            ),
        }
    }
}

} // verus!
