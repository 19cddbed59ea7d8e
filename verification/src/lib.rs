//! The toggl.com time tracking service, version 8 of its API, from the client's side.
//!
//! The library holds the records of the service (workspaces, clients, projects, time
//! entries), makes the requests of every operation, and turns the replies into time
//! entries that share the records they name. Sending a request and reading its reply
//! is left to the caller: a session [`Toggl`] says what to send, and takes what came
//! back.

pub mod auth;
pub mod body;
pub mod client;
pub mod codec;
pub mod command;
pub mod error;
pub mod ident;
pub mod order;
pub mod project;
pub mod report;
pub mod request;
pub mod share;
pub mod table;
pub mod text;
pub mod time_entry;
pub mod timestamp;
pub mod toggl;
pub mod types;
pub mod user;
pub mod workspace;

pub use crate::error::TogglError;
pub use crate::time_entry::TimeEntryExt as TogglExt;
pub use crate::toggl::Toggl;
pub use crate::types::TimeEntry;
