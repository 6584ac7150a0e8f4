//! The `warp-cli` invocations and how their outcomes become results.

use vstd::prelude::*;
use crate::client::{status_info_of, WarpClient};
use crate::error::{WarpError, WarpResult};
use crate::text::{chars_of, contains, contains_in, trim, trimmed};
use crate::types::{mode_of_token, WarpInfo, WarpMode};

verus! {

/// What running the binary gave, as plain values.
#[derive(Debug, Clone, PartialEq, Eq)]
pub enum CommandOutcome {
    /// The binary is not on the search path.
    NotFound,
    /// Starting the process failed for another reason; holds the system's message.
    SpawnFailed(String),
    /// The time bound passed before the process finished; holds what the timer reported.
    TimedOut(String),
    /// The process ran to its end; its output streams are decoded as text.
    Exited { success: bool, stdout: String, stderr: String },
}

/// An invocation of the binary.
#[derive(Debug, Clone, PartialEq, Eq)]
pub enum WarpCommand {
    Version,
    Status,
    /// The settings as JSON.
    JsonSettings,
    /// The settings as text.
    Settings,
    /// Selects a mode through the `mode` subcommand.
    Mode(String),
    /// Selects a mode through the `set-mode` subcommand.
    SetMode(String),
    Connect,
    Disconnect,
    RegistrationNew,
    RegistrationDelete,
}

/// The arguments that an invocation passes to the binary.
pub open spec fn command_args(c: WarpCommand) -> Seq<Seq<char>> {
    match c {
        WarpCommand::Version => seq!["--version"@],
        WarpCommand::Status => seq!["status"@],
        WarpCommand::JsonSettings => seq!["--json"@, "settings"@],
        WarpCommand::Settings => seq!["settings"@],
        WarpCommand::Mode(m) => seq!["mode"@, m@],
        WarpCommand::SetMode(m) => seq!["set-mode"@, m@],
        WarpCommand::Connect => seq!["connect"@],
        WarpCommand::Disconnect => seq!["disconnect"@],
        WarpCommand::RegistrationNew => seq!["registration"@, "new"@],
        WarpCommand::RegistrationDelete => seq!["registration"@, "delete"@],
    }
}

fn one_arg(a: &str) -> (r: Vec<String>)
    ensures
        r.deep_view() == seq![a@],
{
    let mut r: Vec<String> = Vec::new();
    r.push(String::from_str(a));
    assert(r.deep_view() =~= seq![a@]);
    r
}

fn two_args(a: &str, b: &str) -> (r: Vec<String>)
    ensures
        r.deep_view() == seq![a@, b@],
{
    let mut r: Vec<String> = Vec::new();
    r.push(String::from_str(a));
    r.push(String::from_str(b));
    assert(r.deep_view() =~= seq![a@, b@]);
    r
}

impl WarpCommand {
    /// The argument vector of this invocation.
    pub fn args(&self) -> (r: Vec<String>)
        ensures
            r.deep_view() == command_args(*self),
    {
        match self {
            WarpCommand::Version => one_arg("--version"),
            WarpCommand::Status => one_arg("status"),
            WarpCommand::JsonSettings => two_args("--json", "settings"),
            WarpCommand::Settings => one_arg("settings"),
            WarpCommand::Mode(m) => two_args("mode", m.as_str()),
            WarpCommand::SetMode(m) => two_args("set-mode", m.as_str()),
            WarpCommand::Connect => one_arg("connect"),
            WarpCommand::Disconnect => one_arg("disconnect"),
            WarpCommand::RegistrationNew => two_args("registration", "new"),
            WarpCommand::RegistrationDelete => two_args("registration", "delete"),
        }
    }
}

/// The outcome of a process that ran and exited with success.
pub open spec fn succeeded(o: CommandOutcome) -> bool {
    o matches CommandOutcome::Exited { success: true, .. }
}

/// What an invocation's outcome means: the trimmed standard output on
/// success, else the error that the outcome calls for.
pub open spec fn output_matches(o: CommandOutcome, r: WarpResult<String>) -> bool {
    match o {
        CommandOutcome::NotFound => r == Err::<String, WarpError>(WarpError::CommandNotFound),
        CommandOutcome::SpawnFailed(m) => r == Err::<String, WarpError>(WarpError::IoError(m)),
        CommandOutcome::TimedOut(m) => r == Err::<String, WarpError>(WarpError::Timeout(m)),
        CommandOutcome::Exited { success, stdout, stderr } => if success {
            r matches Ok(out) && out@ == trim(stdout@)
        } else {
            r == Err::<String, WarpError>(WarpError::CommandFailed(stderr))
        },
    }
}

/// Connecting succeeds where the command did, or where it failed only
/// because a connection exists; other command failures become
/// `ConnectionFailed`, and any other error passes through.
pub open spec fn connect_matches(out: WarpResult<String>, r: WarpResult<()>) -> bool {
    match out {
        Ok(_) => r is Ok,
        Err(WarpError::CommandFailed(m)) => if contains(m@, "already connected"@) {
            r is Ok
        } else {
            r == Err::<(), WarpError>(WarpError::ConnectionFailed(m))
        },
        Err(e) => r == Err::<(), WarpError>(e),
    }
}

/// Disconnecting succeeds where the command did, or where it failed only
/// because no connection exists; other command failures become
/// `DisconnectionFailed`, and any other error passes through.
pub open spec fn disconnect_matches(out: WarpResult<String>, r: WarpResult<()>) -> bool {
    match out {
        Ok(_) => r is Ok,
        Err(WarpError::CommandFailed(m)) => if contains(m@, "already disconnected"@) {
            r is Ok
        } else {
            r == Err::<(), WarpError>(WarpError::DisconnectionFailed(m))
        },
        Err(e) => r == Err::<(), WarpError>(e),
    }
}

/// The snapshot from the results of the status query and the settings
/// query: the status query's error where it failed, else the settings
/// query's error where that failed, else the parsed status output with the
/// mode from the settings.
pub open spec fn status_matches(
    output: WarpResult<String>,
    mode: WarpResult<WarpMode>,
    r: WarpResult<WarpInfo>,
) -> bool {
    match output {
        Err(e) => r == Err::<WarpInfo, WarpError>(e),
        Ok(out) => match mode {
            Err(e) => r == Err::<WarpInfo, WarpError>(e),
            Ok(m) => r matches Ok(info) && info@ == status_info_of(out@, m),
        },
    }
}

fn contains_text(s: &String, pat: &str) -> (r: bool)
    ensures
        r == contains(s@, pat@),
{
    let v = chars_of(s.as_str());
    let n = v.len();
    assert(v@.subrange(0, n as int) =~= v@);
    contains_in(&v, 0, n, &chars_of(pat))
}

impl WarpClient {
    /// Whether a `--version` run shows the binary usable.
    pub fn availability(&self, version: &CommandOutcome) -> (r: bool)
        ensures
            r == succeeded(*version),
    {
        match version {
            CommandOutcome::Exited { success, .. } => *success,
            _ => false,
        }
    }

    /// Nothing where a `--version` run shows the binary usable, else
    /// `CommandNotFound`.
    pub fn require_available(&self, version: &CommandOutcome) -> (r: WarpResult<()>)
        ensures
            succeeded(*version) ==> r is Ok,
            !succeeded(*version) ==> r == Err::<(), WarpError>(WarpError::CommandNotFound),
    {
        if self.availability(version) {
            Ok(())
        } else {
            Err(WarpError::CommandNotFound)
        }
    }

    /// The status snapshot from the result of the `status` invocation and
    /// the operation mode read from the settings.
    pub fn status_from(&self, output: WarpResult<String>, mode: WarpResult<WarpMode>) -> (r:
        WarpResult<WarpInfo>)
        ensures
            status_matches(output, mode, r),
    {
        match output {
            Err(e) => Err(e),
            Ok(out) => match mode {
                Err(e) => Err(e),
                Ok(m) => Ok(self.parse_status_output(out.as_str(), m)),
            },
        }
    }

    /// The result of an invocation: its trimmed standard output where it
    /// succeeded; else `CommandNotFound`, `IoError`, `Timeout` or
    /// `CommandFailed` with its standard error.
    pub fn command_output(&self, outcome: CommandOutcome) -> (r: WarpResult<String>)
        ensures
            output_matches(outcome, r),
    {
        match outcome {
            CommandOutcome::NotFound => Err(WarpError::CommandNotFound),
            CommandOutcome::SpawnFailed(m) => Err(WarpError::IoError(m)),
            CommandOutcome::TimedOut(m) => Err(WarpError::Timeout(m)),
            CommandOutcome::Exited { success, stdout, stderr } => {
                if success {
                    Ok(trimmed(stdout.as_str()))
                } else {
                    Err(WarpError::CommandFailed(stderr))
                }
            },
        }
    }

    /// The result of `connect` from the result of its invocation.
    pub fn connect_result(&self, out: WarpResult<String>) -> (r: WarpResult<()>)
        ensures
            connect_matches(out, r),
    {
        match out {
            Ok(_) => Ok(()),
            Err(WarpError::CommandFailed(m)) => {
                if contains_text(&m, "already connected") {
                    Ok(())
                } else {
                    Err(WarpError::ConnectionFailed(m))
                }
            },
            Err(e) => Err(e),
        }
    }

    /// The result of `disconnect` from the result of its invocation.
    pub fn disconnect_result(&self, out: WarpResult<String>) -> (r: WarpResult<()>)
        ensures
            disconnect_matches(out, r),
    {
        match out {
            Ok(_) => Ok(()),
            Err(WarpError::CommandFailed(m)) => {
                if contains_text(&m, "already disconnected") {
                    Ok(())
                } else {
                    Err(WarpError::DisconnectionFailed(m))
                }
            },
            Err(e) => Err(e),
        }
    }

    /// The operation mode from the decoded settings: the `operation_mode`
    /// token, or the decoder's message where the settings did not decode.
    pub fn operation_mode_from(&self, decoded: Result<String, String>) -> (r: WarpResult<WarpMode>)
        ensures
            decoded matches Ok(t) ==> r == Ok::<WarpMode, WarpError>(mode_of_token(t@)),
            decoded matches Err(m) ==> r == Err::<WarpMode, WarpError>(WarpError::ParseError(m)),
    {
        match decoded {
            Ok(t) => Ok(WarpMode::from_token(t.as_str())),
            Err(m) => Err(WarpError::ParseError(m)),
        }
    }
}

} // verus!
