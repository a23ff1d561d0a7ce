//! The request/response contract between sequential agent logic and the
//! single-writer transport driver.
//!
//! Agents enqueue one request at a time and block for the correlated
//! response; the driver performs the matching transport operation and
//! pushes exactly one response before pulling the next request. The
//! functions here are the driver's decisions: which transport operation
//! a request calls for, and which response (or terminal error) each
//! transport outcome yields.
use vstd::prelude::*;

use crate::errors::PolybrainError;
use crate::types::ServerResponse;
use crate::types::ServerResponseType;
use crate::types::SessionStartRequest;
use crate::types::SessionStartResponse;
use crate::types::UserPromptInitial;

verus! {

/// Requests an agent may issue to the transport driver.
#[derive(Clone, Debug)]
pub enum BackgroundRequest {
    /// Wait for the client's opening message.
    GetSessionStart,
    /// Send the fresh session id back to the client.
    RespondSessionStart(SessionStartResponse),
    /// Wait for the user's initial modeling request.
    GetInitialInput,
    /// Ask the user a question and wait for the answer.
    UserQuery(String),
    /// Send a one-way status message.
    SendOutput(ServerResponse),
    /// Send a final message and end the session.
    End(ServerResponse),
}

/// Responses the transport driver hands back.
#[derive(Clone, Debug)]
pub enum BackgroundResponse {
    SessionStart(SessionStartRequest),
    InitialInput(UserPromptInitial),
    UserResponse(String),
    Ack,
}

/// Every request variant has exactly one well-typed response variant.
pub open spec fn response_matches(req: &BackgroundRequest, resp: &BackgroundResponse) -> bool {
    match (req, resp) {
        (BackgroundRequest::GetSessionStart, BackgroundResponse::SessionStart(_)) => true,
        (BackgroundRequest::RespondSessionStart(_), BackgroundResponse::Ack) => true,
        (BackgroundRequest::GetInitialInput, BackgroundResponse::InitialInput(_)) => true,
        (BackgroundRequest::UserQuery(_), BackgroundResponse::UserResponse(_)) => true,
        (BackgroundRequest::SendOutput(_), BackgroundResponse::Ack) => true,
        (BackgroundRequest::End(_), BackgroundResponse::Ack) => true,
        _ => false,
    }
}

/// The transport operation a request calls for.
pub enum TransportPlan {
    /// Read one incoming message.
    Read,
    /// Write the session-start answer.
    WriteSession(SessionStartResponse),
    /// Write a message; nothing is read back.
    Write(ServerResponse),
    /// Write a question, then read the answer.
    WriteThenRead(ServerResponse),
}

/// Decides which transport operation serves `req`. A user query goes out
/// as a message of query kind carrying the question verbatim.
pub fn plan_transport(req: BackgroundRequest) -> (p: TransportPlan)
    ensures
        match req {
            BackgroundRequest::GetSessionStart => p is Read,
            BackgroundRequest::GetInitialInput => p is Read,
            BackgroundRequest::RespondSessionStart(s) => (p matches TransportPlan::WriteSession(
                w,
            ) && w == s),
            BackgroundRequest::UserQuery(q) => (p matches TransportPlan::WriteThenRead(m)
                && m.response_type == ServerResponseType::Query && m.content == q),
            BackgroundRequest::SendOutput(o) => (p matches TransportPlan::Write(w) && w == o),
            BackgroundRequest::End(o) => (p matches TransportPlan::Write(w) && w == o),
        },
{
    match req {
        BackgroundRequest::GetSessionStart => TransportPlan::Read,
        BackgroundRequest::GetInitialInput => TransportPlan::Read,
        BackgroundRequest::RespondSessionStart(s) => TransportPlan::WriteSession(s),
        BackgroundRequest::UserQuery(q) => TransportPlan::WriteThenRead(
            ServerResponse { response_type: ServerResponseType::Query, content: q },
        ),
        BackgroundRequest::SendOutput(o) => TransportPlan::Write(o),
        BackgroundRequest::End(o) => TransportPlan::Write(o),
    }
}

/// What the transport operation for one request came back with. The
/// wire framing itself is the transport's business; the driver hands
/// the typed result in.
pub enum DriverEvent {
    /// The connection is closed or lost.
    TransportClosed,
    /// A frame arrived but was not readable.
    CorruptedFrame,
    /// A frame arrived but was not text.
    NonTextFrame,
    /// A text frame arrived but did not hold the expected payload;
    /// carries the diagnosis.
    BadPayload(String),
    /// The client's opening message.
    GotSessionStart(SessionStartRequest),
    /// The user's initial modeling request.
    GotInitialInput(UserPromptInitial),
    /// The user's free-text answer to a question.
    GotUserAnswer(String),
    /// A plain write completed; nothing was read.
    WroteOk,
}

/// Whether `ev` is the outcome the driver expects after performing the
/// transport operation for `req`.
pub open spec fn event_serves(req: &BackgroundRequest, ev: &DriverEvent) -> bool {
    match (req, ev) {
        (BackgroundRequest::GetSessionStart, DriverEvent::GotSessionStart(_)) => true,
        (BackgroundRequest::GetInitialInput, DriverEvent::GotInitialInput(_)) => true,
        (BackgroundRequest::UserQuery(_), DriverEvent::GotUserAnswer(_)) => true,
        (BackgroundRequest::RespondSessionStart(_), DriverEvent::WroteOk) => true,
        (BackgroundRequest::SendOutput(_), DriverEvent::WroteOk) => true,
        (BackgroundRequest::End(_), DriverEvent::WroteOk) => true,
        _ => false,
    }
}

/// Turns the outcome of one transport operation into the response for
/// the request that caused it, or into the error that ends the session.
///
/// A closed transport is a terminal socket error for every request: it
/// is never retried and never produces a response. A response, when one
/// is produced, always matches its request.
pub fn conclude_request(req: &BackgroundRequest, ev: DriverEvent) -> (r: Result<
    BackgroundResponse,
    PolybrainError,
>)
    ensures
        ev is TransportClosed ==> (r matches Err(PolybrainError::SocketError(m)) && m@
            == "Connection closed"@),
        ev is CorruptedFrame ==> (r matches Err(PolybrainError::SocketError(m)) && m@
            == "Corrupted message in websocket"@),
        ev is NonTextFrame ==> (r matches Err(PolybrainError::SocketError(m)) && m@
            == "Message should be type text"@),
        ev matches DriverEvent::BadPayload(d) ==> (r matches Err(PolybrainError::BadRequest(m))
            && m == d),
        r matches Ok(resp) ==> response_matches(req, &resp),
        r is Ok <==> event_serves(req, &ev),
        match (req, ev) {
            (BackgroundRequest::GetSessionStart, DriverEvent::GotSessionStart(s)) => (r matches
            Ok(BackgroundResponse::SessionStart(x)) && x == s),
            (BackgroundRequest::GetInitialInput, DriverEvent::GotInitialInput(p)) => (r matches Ok(
                BackgroundResponse::InitialInput(x),
            ) && x == p),
            (BackgroundRequest::UserQuery(_), DriverEvent::GotUserAnswer(a)) => (r matches Ok(
                BackgroundResponse::UserResponse(x),
            ) && x == a),
            _ => true,
        },
{
    match ev {
        DriverEvent::TransportClosed => Err(
            PolybrainError::SocketError("Connection closed".to_owned()),
        ),
        DriverEvent::CorruptedFrame => Err(
            PolybrainError::SocketError("Corrupted message in websocket".to_owned()),
        ),
        DriverEvent::NonTextFrame => Err(
            PolybrainError::SocketError("Message should be type text".to_owned()),
        ),
        DriverEvent::BadPayload(d) => Err(PolybrainError::BadRequest(d)),
        DriverEvent::GotSessionStart(s) => match req {
            BackgroundRequest::GetSessionStart => Ok(BackgroundResponse::SessionStart(s)),
            _ => Err(PolybrainError::Unreachable),
        },
        DriverEvent::GotInitialInput(p) => match req {
            BackgroundRequest::GetInitialInput => Ok(BackgroundResponse::InitialInput(p)),
            _ => Err(PolybrainError::Unreachable),
        },
        DriverEvent::GotUserAnswer(a) => match req {
            BackgroundRequest::UserQuery(_) => Ok(BackgroundResponse::UserResponse(a)),
            _ => Err(PolybrainError::Unreachable),
        },
        DriverEvent::WroteOk => match req {
            BackgroundRequest::RespondSessionStart(_) => Ok(BackgroundResponse::Ack),
            BackgroundRequest::SendOutput(_) => Ok(BackgroundResponse::Ack),
            BackgroundRequest::End(_) => Ok(BackgroundResponse::Ack),
            _ => Err(PolybrainError::Unreachable),
        },
    }
}

/// Whether the driver loop keeps running after serving `req`: it stops
/// once the end-of-session message has been sent.
pub fn driver_continues(req: &BackgroundRequest) -> (r: bool)
    ensures
        r == !(req is End),
{
    !matches!(req, BackgroundRequest::End(_))
}

} // verus!
