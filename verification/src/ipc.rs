//! What the client tells the parts of the program that show its progress.

use vstd::prelude::*;

verus! {

/// A line for the log: title and optional details.
#[derive(Clone, Debug)]
pub enum LoggerOutput {
    Debug(String, Option<String>),
    Error(String, Option<String>),
    Success(String, Option<String>),
    Response(String, Option<String>),
    Request(String, Option<String>),
}

/// A signal to the reading task.
#[derive(Clone, Copy, Debug, PartialEq, Eq, Structural)]
pub enum Signal {
    /// The connection changed: read from the new one.
    Reconnect,
}

} // verus!
