//! The error taxonomy: code-generation failures, session-level failures,
//! and the error records sent over the socket.
use vstd::prelude::*;

verus! {

/// Failure of one code-generation attempt.
#[derive(Debug)]
pub enum CodeError {
    /// The model reply could not be shaped into runnable code.
    BadFormat(String),
    /// The generated program exited with an error; holds the captured
    /// diagnostic output.
    ExecutionError(String),
    /// An unexpected fault inside the engine itself.
    Internal(String),
}

/// Session-level error taxonomy. Only transport loss and budget
/// exhaustion may end a session early; the other variants are either
/// recovered in place or mark programming-contract violations.
#[derive(Debug)]
pub enum PolybrainError {
    InternalError(String),
    SocketError(String),
    BadRequest(String),
    CodeError(CodeError),
    NotImplemented,
    Unreachable,
    Other,
}

/// Error record sent when a session's user could not be authenticated.
pub struct AuthenticationError {
    pub message: String,
}

impl AuthenticationError {
    /// The tag under which this record is reported on the wire.
    pub fn name() -> (r: String)
        ensures
            r@ == "AuthenticationError"@,
    {
        "AuthenticationError".to_owned()
    }
}

/// Error record for a malformed or unserviceable client request.
pub struct RequestError {
    pub message: String,
    pub operation: String,
}

impl RequestError {
    /// The tag under which this record is reported on the wire.
    pub fn name() -> (r: String)
        ensures
            r@ == "RequestError"@,
    {
        "RequestError".to_owned()
    }
}

/// Error record for an unexpected server-side fault.
pub struct InternalError {
    pub message: String,
}

impl InternalError {
    /// The tag under which this record is reported on the wire.
    pub fn name() -> (r: String)
        ensures
            r@ == "InternalError"@,
    {
        "InternalError".to_owned()
    }
}

} // verus!
