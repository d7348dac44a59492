//! Server command surface.
//!
//! The command-line layer parses a `server start` invocation into a [`Cmd`]
//! value carrying the requested protocols; argument matching itself lives in
//! the application around this library.

use vstd::prelude::*;
use crate::protocol::Protocol;

verus! {

/// A parsed server command.
#[derive(Debug, PartialEq, Eq)]
pub enum Cmd {
    Start(Vec<Protocol>),
}

} // verus!
