//! The decisions behind Varlink IPC over Unix domain sockets.
//!
//! Sockets, file systems and event loops stay outside this crate. What is decided about them is
//! here: which ancillary data travels with a message, how peer credentials are put together,
//! which extended attributes mark a Varlink socket, and what a read, a write or a listener does
//! next. Each decision is a function or a small state machine over plain values; a runtime
//! performs the action it asks for and hands back what came of it.
//!
//! Ancillary data and error numbers come from `rustix` and `libc`. What is claimed of these crates
//! is claimed of them on Linux.

pub mod error;
pub mod platform;
pub mod server;
pub mod unix;
pub mod unix_utils;
