//! Event-to-action dispatch core for a cyclical work/break timer.
//!
//! The library resolves timer and server lifecycle events to ordered lists
//! of user-configured hook commands, drives their fail-fast execution
//! through a small dispatch state machine, and selects which transport
//! protocol binds a server or connects a client.

pub mod hooks;
pub mod protocol;
pub mod args;
