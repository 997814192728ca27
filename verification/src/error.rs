//! Errors of the library.
use vstd::prelude::*;

verus! {

/// Why JSON text could not be read, or why JSON data has the wrong shape:
/// the message, and the line and column (from 1) where reading stopped; both
/// are 0 where no position applies.
#[derive(Debug)]
pub struct JsonError {
    pub message: String,
    pub line: usize,
    pub column: usize,
}

impl JsonError {
    /// An error about the shape of data, with no position.
    pub fn data(message: String) -> (r: JsonError)
        ensures
            r.message == message,
            r.line == 0,
            r.column == 0,
    {
        JsonError { message, line: 0, column: 0 }
    }
}

/// Errors that can occur when working with structured outputs of a model.
#[derive(Debug)]
pub enum Error {
    /// JSON text that could not be read, or JSON data of the wrong shape.
    Json(JsonError),
    /// A value does not satisfy its schema.
    ValidationFailed(String),
    /// A response holds no tool calls.
    NoToolCalls,
    /// A tool call names another tool than the expected one: (called, expected).
    ToolMismatch(String, String),
    /// A response of a provider is not in the expected form.
    InvalidResponseFormat(String),
    /// A required field is missing from a response.
    MissingField(String),
}

/// The result type of the library's operations.
pub type Result<T> = core::result::Result<T, Error>;

} // verus!
