//! Command dispatch and server registry of a Matrix chat plugin.
//!
//! A command line is parsed against a fixed grammar into a [`grammar::Command`],
//! which is then carried out against a [`registry::ServerRegistry`]: an owned
//! mapping from server names to server records. Work that only the host can do
//! (connecting, printing) is handed back to the caller as [`dispatch::Action`]s
//! and [`report::Report`]s.
mod homeserver;

pub mod grammar;
pub mod registry;
pub mod report;
pub mod dispatch;
pub mod laws;

pub use dispatch::Action;
pub use grammar::{parse_command, validate_homeserver, Argument, Command, UsageError};
pub use registry::{Server, ServerRegistry};
pub use report::{Markup, Report};
