//! Typed status handling for the `warp-cli` command-line client: parsing of
//! its text output, mapping of command outcomes to results, the background
//! manager's decisions and the dashboard's key handling.

pub mod text;
pub mod client;
pub mod command;
pub mod error;
pub mod laws;
pub mod manager;
pub mod types;
pub mod ui;

pub use client::WarpClient;
pub use command::{CommandOutcome, WarpCommand};
pub use error::{WarpError, WarpResult};
pub use manager::{ManagerAction, ManagerEvent, ManagerState, Request, WarpMessage};
pub use types::{RegistrationInfo, WarpInfo, WarpMode, WarpStatus};
