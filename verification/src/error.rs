//! The errors that end one attempt of an engine.

use crate::control::ControlEngineError;
use vstd::prelude::*;

verus! {

/// Why one attempt of an engine ended without success.
#[derive(Debug, Clone, Copy, PartialEq, Eq)]
pub enum EngineError {
    /// The process was already shutting down when the attempt began.
    ShutdownInProgress,
    /// The server could not be reached.
    DialError,
    /// Reading from the server failed.
    ReadError,
    /// Writing to the server failed.
    WriteError,
    /// The control engine's own reason.
    Control(ControlEngineError),
}

/// The text of each error.
pub open spec fn engine_error_text(error: EngineError) -> Seq<char> {
    match error {
        EngineError::ShutdownInProgress => "shutdown in progress"@,
        EngineError::DialError => "cannot reach the server"@,
        EngineError::ReadError => "error while reading from the server"@,
        EngineError::WriteError => "error while writing to the server"@,
        EngineError::Control(source) => source.text(),
    }
}

impl EngineError {
    /// The error in words.
    pub fn to_string(&self) -> (text: String)
        ensures
            text@ == engine_error_text(*self),
    {
        match self {
            EngineError::ShutdownInProgress => "shutdown in progress".to_owned(),
            EngineError::DialError => "cannot reach the server".to_owned(),
            EngineError::ReadError => "error while reading from the server".to_owned(),
            EngineError::WriteError => "error while writing to the server".to_owned(),
            EngineError::Control(source) => source.to_string(),
        }
    }
}

} // verus!
