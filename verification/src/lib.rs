//! Workspace watch engine and client broadcast protocol.
//!
//! The crate holds the decisions of a daemon that tracks project workspaces:
//! which filesystem events are worth a regeneration, which workspaces and
//! clients are known, and how events are reported to editor clients. Every
//! function carries a contract that Verus proves; the few calls into outside
//! code stand behind wrappers whose contracts are stated and documented but
//! not proved.

pub mod broadcast;
pub mod client;
pub mod dispatch;
pub mod ignore;
pub mod level;
pub mod message;
pub mod platform;
pub mod process;
pub mod registry;
pub mod run;
pub mod text;
pub mod watch;
pub mod wire;
