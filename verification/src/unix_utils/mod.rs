//! Helpers shared by all Unix socket runtimes.

pub mod credentials;
pub mod message;
pub mod xattr;
