//! A stub editor extension that answers the host's language-server command
//! request with a fixed placeholder command, in two variants: a plain one,
//! and one that additionally keeps at most one placeholder sidecar process
//! handle alive while the extension instance exists.
//!
//! The host glue (the editor's plugin trait, process spawning) lives outside
//! this crate; here stand the decisions: which command the hook returns,
//! when a sidecar spawn is needed, how a spawn outcome changes the held
//! handle, and what teardown leaves behind.

pub mod command;
pub mod sidecar;
pub mod simple;
