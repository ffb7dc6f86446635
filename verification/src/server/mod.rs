//! The server side.

pub mod listener;
