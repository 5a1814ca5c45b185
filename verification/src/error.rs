//! Error vocabulary shared by the library.

use vstd::prelude::*;

verus! {

/// Payload of an error response: one human-readable message.
#[derive(Debug)]
pub struct ErrorOutput {
    pub error: String,
}

impl ErrorOutput {
    pub fn new(error: String) -> (r: Self)
        ensures
            r.error == error,
    {
        Self { error }
    }
}

/// Application-level failures surfaced to callers.
#[derive(Debug)]
pub enum AppError {
    /// A wrapped lower-level failure, reported with its message.
    AnyError(String),
    /// A requested resource does not exist.
    NotFound(String),
    /// A caller-supplied input was rejected.
    InputParamsError(String),
}

impl AppError {
    /// The text shown for this error.
    pub fn message(&self) -> (r: String)
        ensures
            self matches AppError::AnyError(s) ==> r@ == "general error: "@ + s@,
            self matches AppError::NotFound(s) ==> r@ == "not found: "@ + s@,
            self matches AppError::InputParamsError(s) ==> r@ == "invalid input: "@ + s@,
    {
        match self {
            AppError::AnyError(s) => String::from_str("general error: ").concat(s.as_str()),
            AppError::NotFound(s) => String::from_str("not found: ").concat(s.as_str()),
            AppError::InputParamsError(s) => String::from_str("invalid input: ").concat(s.as_str()),
        }
    }

    /// The HTTP status that a transport layer should answer with.
    pub fn status_code(&self) -> (r: u16)
        ensures
            r == 500 <==> self matches AppError::AnyError(_),
            r == 404 <==> self matches AppError::NotFound(_),
            r == 400 <==> self matches AppError::InputParamsError(_),
    {
        match self {
            AppError::AnyError(_) => 500,
            AppError::NotFound(_) => 404,
            AppError::InputParamsError(_) => 400,
        }
    }
}

/// Failure to decode a wire frame: the bytes are not a recognized message
/// shape.  The connection stays open; the caller discards the single frame.
#[derive(Debug, PartialEq, Eq, Structural)]
pub enum DecodeError {
    Unrecognized,
}

} // verus!
