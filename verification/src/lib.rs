//! A stopwatch with lap splits, its key bindings and its shutdown handshake.

pub mod clock;
pub mod config;
pub mod laws;
pub mod shutdown;
pub mod span;
pub mod tasks;
pub mod time;
pub mod timer;
