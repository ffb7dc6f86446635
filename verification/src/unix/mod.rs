//! Unix domain socket streams and listeners.

pub mod listener;
pub mod setup;
pub mod stream;
