//! The background manager's decisions. The manager drains a queue of
//! messages one at a time; each command message runs a client operation and
//! then a status query, and what they give is put back on the queue as a
//! `StatusUpdate` or an `Error`. Alongside, a poller queries the status at a
//! fixed interval. Whoever runs the manager performs each action that
//! [`ManagerState::step`] returns and hands back what it gave.

use vstd::prelude::*;
use crate::error::{error_text, WarpError, WarpResult};
use crate::types::WarpInfo;

verus! {

/// A message on the manager's queue.
#[derive(Debug, Clone)]
pub enum WarpMessage {
    Connect,
    Disconnect,
    Refresh,
    CreateRegistration,
    DeleteRegistration,
    /// A fresh status snapshot; for observers, the manager does nothing with it.
    StatusUpdate(WarpInfo),
    /// A failure report; for observers, the manager does nothing with it.
    Error(String),
}

/// A client operation that the manager asks for.
#[derive(Debug, Clone, Copy, PartialEq, Eq, Structural)]
pub enum Request {
    Connect,
    Disconnect,
    CreateRegistration,
    DeleteRegistration,
    Status,
}

/// Where the manager is in handling one message.
#[derive(Debug, Clone, Copy, PartialEq, Eq, Structural)]
pub enum ManagerState {
    /// Ready for the next message.
    Idle,
    /// Waiting for a command operation to finish.
    AwaitingCommand,
    /// Waiting for the status query that follows a command.
    AwaitingStatus,
}

/// What the manager is handed.
#[derive(Debug)]
pub enum ManagerEvent {
    /// A message taken off the queue.
    Received(WarpMessage),
    /// The result of a command operation.
    CommandDone(WarpResult<()>),
    /// The result of a status query.
    StatusDone(WarpResult<WarpInfo>),
}

/// What the manager asks to be done.
#[derive(Debug, Clone)]
pub enum ManagerAction {
    Nothing,
    Perform(Request),
    /// Put a message on the queue.
    Send(WarpMessage),
}

/// The text of the message that reports a failed command.
pub open spec fn command_failure_text(e: WarpError) -> Seq<char> {
    "Command failed: "@ + error_text(e)
}

/// The text of the message that reports a failed periodic status query.
pub open spec fn poll_failure_text(e: WarpError) -> Seq<char> {
    "Status update failed: "@ + error_text(e)
}

/// The operation that a command message asks for; none for the messages
/// that exist only to be observed.
pub open spec fn request_of(m: WarpMessage) -> Option<Request> {
    match m {
        WarpMessage::Connect => Some(Request::Connect),
        WarpMessage::Disconnect => Some(Request::Disconnect),
        WarpMessage::Refresh => Some(Request::Status),
        WarpMessage::CreateRegistration => Some(Request::CreateRegistration),
        WarpMessage::DeleteRegistration => Some(Request::DeleteRegistration),
        WarpMessage::StatusUpdate(_) => None,
        WarpMessage::Error(_) => None,
    }
}

/// The transition relation of the manager: `r` is the next state and the
/// action for `event` in `state`. A refresh goes straight to the status
/// query; another command runs first and, where it succeeds, is followed by
/// a status query. Each failure is reported as an `Error` message, and an
/// event that does not fit the state changes nothing.
pub open spec fn step_matches(
    state: ManagerState,
    event: ManagerEvent,
    r: (ManagerState, ManagerAction),
) -> bool {
    match event {
        ManagerEvent::Received(m) => if state == ManagerState::Idle {
            match request_of(m) {
                Some(Request::Status) => r.0 == ManagerState::AwaitingStatus && r.1 matches ManagerAction::Perform(Request::Status),
                Some(q) => {
                    &&& r.0 == ManagerState::AwaitingCommand
                    &&& r.1 matches ManagerAction::Perform(p)
                    &&& p == q
                },
                None => r.0 == ManagerState::Idle && r.1 is Nothing,
            }
        } else {
            r.0 == state && r.1 is Nothing
        },
        ManagerEvent::CommandDone(res) => if state == ManagerState::AwaitingCommand {
            match res {
                Ok(_) => r.0 == ManagerState::AwaitingStatus && r.1 matches ManagerAction::Perform(Request::Status),
                Err(e) => {
                    &&& r.0 == ManagerState::Idle
                    &&& r.1 matches ManagerAction::Send(WarpMessage::Error(t))
                    &&& t@ == command_failure_text(e)
                },
            }
        } else {
            r.0 == state && r.1 is Nothing
        },
        ManagerEvent::StatusDone(res) => if state == ManagerState::AwaitingStatus {
            match res {
                Ok(info) => r.0 == ManagerState::Idle && r.1 == ManagerAction::Send(WarpMessage::StatusUpdate(info)),
                Err(e) => {
                    &&& r.0 == ManagerState::Idle
                    &&& r.1 matches ManagerAction::Send(WarpMessage::Error(t))
                    &&& t@ == command_failure_text(e)
                },
            }
        } else {
            r.0 == state && r.1 is Nothing
        },
    }
}

fn command_failure(e: &WarpError) -> (r: WarpMessage)
    ensures
        r matches WarpMessage::Error(t) && t@ == command_failure_text(*e),
{
    WarpMessage::Error(String::from_str("Command failed: ").concat(e.message().as_str()))
}

impl ManagerState {
    /// The next state and the action for `event`.
    pub fn step(self, event: ManagerEvent) -> (r: (ManagerState, ManagerAction))
        ensures
            step_matches(self, event, r),
    {
        match event {
            ManagerEvent::Received(m) => {
                if self != ManagerState::Idle {
                    return (self, ManagerAction::Nothing);
                }
                match m {
                    WarpMessage::Connect => (
                        ManagerState::AwaitingCommand,
                        ManagerAction::Perform(Request::Connect),
                    ),
                    WarpMessage::Disconnect => (
                        ManagerState::AwaitingCommand,
                        ManagerAction::Perform(Request::Disconnect),
                    ),
                    WarpMessage::Refresh => (
                        ManagerState::AwaitingStatus,
                        ManagerAction::Perform(Request::Status),
                    ),
                    WarpMessage::CreateRegistration => (
                        ManagerState::AwaitingCommand,
                        ManagerAction::Perform(Request::CreateRegistration),
                    ),
                    WarpMessage::DeleteRegistration => (
                        ManagerState::AwaitingCommand,
                        ManagerAction::Perform(Request::DeleteRegistration),
                    ),
                    WarpMessage::StatusUpdate(_) => (ManagerState::Idle, ManagerAction::Nothing),
                    WarpMessage::Error(_) => (ManagerState::Idle, ManagerAction::Nothing),
                }
            },
            ManagerEvent::CommandDone(res) => {
                if self != ManagerState::AwaitingCommand {
                    return (self, ManagerAction::Nothing);
                }
                match res {
                    Ok(_) => (ManagerState::AwaitingStatus, ManagerAction::Perform(Request::Status)),
                    Err(e) => (ManagerState::Idle, ManagerAction::Send(command_failure(&e))),
                }
            },
            ManagerEvent::StatusDone(res) => {
                if self != ManagerState::AwaitingStatus {
                    return (self, ManagerAction::Nothing);
                }
                match res {
                    Ok(info) => (
                        ManagerState::Idle,
                        ManagerAction::Send(WarpMessage::StatusUpdate(info)),
                    ),
                    Err(e) => (ManagerState::Idle, ManagerAction::Send(command_failure(&e))),
                }
            },
        }
    }
}

/// The message that the periodic poller sends for the result of a status
/// query: the snapshot, or a report of the failure.
pub fn poll_message(res: WarpResult<WarpInfo>) -> (r: WarpMessage)
    ensures
        res matches Ok(info) ==> r == WarpMessage::StatusUpdate(info),
        res matches Err(e) ==> r matches WarpMessage::Error(t) && t@ == poll_failure_text(e),
{
    match res {
        Ok(info) => WarpMessage::StatusUpdate(info),
        Err(e) => WarpMessage::Error(
            String::from_str("Status update failed: ").concat(e.message().as_str()),
        ),
    }
}

} // verus!
