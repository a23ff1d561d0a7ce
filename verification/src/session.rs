//! The session handshake: obtaining the opening message, answering it
//! with a fresh session id, and fetching the user's initial request —
//! together with the strict-correlation checks every bridge caller
//! makes on what came back.
use vstd::prelude::*;

use crate::bridge::BackgroundResponse;
use crate::errors::PolybrainError;
use crate::types::SessionStartRequest;
use crate::types::SessionStartResponse;
use crate::types::UserPromptInitial;

verus! {

/// Relies on uuid::Uuid::new_v4 and its Display impl: a fresh random
/// version-4 UUID rendered in the 36-character hyphenated form.
#[verifier::external_body]
fn random_uuid_string() -> (r: String)
    ensures
        r@.len() == 36,
{
    uuid::Uuid::new_v4().to_string()
}

/// Draws the caller-generated, opaque id of a new session.
pub fn fresh_session_id() -> (r: String)
    ensures
        r@.len() == 36,
{
    random_uuid_string()
}

/// Builds the answer to a session-start request: a fresh session id.
pub fn make_session_start_response() -> (r: SessionStartResponse)
    ensures
        r.session_id@.len() == 36,
{
    SessionStartResponse { session_id: fresh_session_id() }
}

/// Reads the response to a session-start fetch. Any other response
/// variant is a correlation violation, not a recoverable condition.
pub fn expect_session_start(resp: BackgroundResponse) -> (r: Result<
    SessionStartRequest,
    PolybrainError,
>)
    ensures
        match resp {
            BackgroundResponse::SessionStart(s) => (r matches Ok(x) && x == s),
            _ => r matches Err(PolybrainError::Unreachable),
        },
{
    match resp {
        BackgroundResponse::SessionStart(s) => Ok(s),
        _ => Err(PolybrainError::Unreachable),
    }
}

/// Reads an acknowledgement. Any other response variant is a
/// correlation violation.
pub fn expect_ack(resp: BackgroundResponse) -> (r: Result<(), PolybrainError>)
    ensures
        match resp {
            BackgroundResponse::Ack => r is Ok,
            _ => r matches Err(PolybrainError::Unreachable),
        },
{
    match resp {
        BackgroundResponse::Ack => Ok(()),
        _ => Err(PolybrainError::Unreachable),
    }
}

/// Reads the response to an initial-input fetch. Any other response
/// variant is a correlation violation.
pub fn expect_initial_input(resp: BackgroundResponse) -> (r: Result<
    UserPromptInitial,
    PolybrainError,
>)
    ensures
        match resp {
            BackgroundResponse::InitialInput(p) => (r matches Ok(x) && x == p),
            _ => r matches Err(PolybrainError::Unreachable),
        },
{
    match resp {
        BackgroundResponse::InitialInput(p) => Ok(p),
        _ => Err(PolybrainError::Unreachable),
    }
}

/// Reads the response to a user query: the user's literal answer. Any
/// other response variant is a correlation violation.
pub fn expect_user_answer(resp: BackgroundResponse) -> (r: Result<String, PolybrainError>)
    ensures
        match resp {
            BackgroundResponse::UserResponse(a) => (r matches Ok(x) && x == a),
            _ => r matches Err(PolybrainError::Unreachable),
        },
{
    match resp {
        BackgroundResponse::UserResponse(a) => Ok(a),
        _ => Err(PolybrainError::Unreachable),
    }
}

} // verus!
