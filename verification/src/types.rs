//! The plain data carried between the client, the session, and the
//! pipeline stages.
use vstd::prelude::*;

verus! {

pub const ONSHAPE_API: &'static str = "https://cad.onshape.com/api/v6";

pub const OPENAI_API: &'static str = "https://api.openai.com/v1";

/// Opening message of a session: who the user is and which document the
/// model is built in.
#[derive(Clone, Debug)]
pub struct SessionStartRequest {
    pub user_token: String,
    pub onshape_document_id: String,
}

/// The server's answer to a session start: the fresh session id.
#[derive(Clone, Debug)]
pub struct SessionStartResponse {
    pub session_id: String,
}

/// The user's initial free-text modeling request.
#[derive(Clone, Debug)]
pub struct UserPromptInitial {
    pub contents: String,
}

/// The user's free-text answer to a question.
#[derive(Clone, Debug)]
pub struct UserInputResponse {
    pub response: String,
}

/// What kind of message the server is sending the human.
#[derive(PartialEq, Eq, Structural, Clone, Copy, Debug)]
pub enum ServerResponseType {
    /// A question that expects an answer.
    Query,
    /// An informational status update.
    Info,
    /// The final message of the session.
    Final,
}

/// A structured message to the human-facing transport.
#[derive(Clone, Debug)]
pub struct ServerResponse {
    pub response_type: ServerResponseType,
    pub content: String,
}

/// The decrypted capability bundle a session works with.
#[derive(Clone, Debug)]
pub struct ApiCredentials {
    pub openai_token: String,
    pub onshape_access_key: String,
    pub onshape_secret_key: String,
}

/// The encrypted credential fields stored with a user record; any of
/// them may be absent.
#[derive(Clone, Debug)]
pub struct UserDocumentCredentials {
    pub onshape_access: Option<String>,
    pub onshape_secret: Option<String>,
    pub open_ai_api: Option<String>,
}

/// A stored user record.
#[derive(Clone, Debug)]
pub struct UserDocument {
    pub user_id: String,
    pub email: String,
    pub credentials: UserDocumentCredentials,
}

/// The identity record returned by the account service.
#[derive(Clone, Debug)]
pub struct UserInfo {
    pub created_at: String,
    pub email: String,
    pub name: String,
    pub user_id: String,
    pub username: Option<String>,
    pub last_ip: String,
    pub last_login: String,
    pub given_name: Option<String>,
}

/// Pulls the three encrypted credential fields out of a user record,
/// or reports exactly which failure the caller must return when any is
/// missing. The fields come back in the order: model API key, document
/// access key, document secret key.
pub fn credential_cyphertexts(doc: &UserDocument) -> (r: Result<
    (String, String, String),
    String,
>)
    ensures
        match r {
            Ok(t) => {
                &&& doc.credentials.open_ai_api matches Some(a) && t.0 == a
                &&& doc.credentials.onshape_access matches Some(b) && t.1 == b
                &&& doc.credentials.onshape_secret matches Some(c) && t.2 == c
            },
            Err(m) => {
                &&& (doc.credentials.open_ai_api is None || doc.credentials.onshape_access is None
                    || doc.credentials.onshape_secret is None)
                &&& m@ == "User is missing some credentials"@
            },
        },
{
    match (&doc.credentials.open_ai_api, &doc.credentials.onshape_access, &doc.credentials.onshape_secret) {
        (Some(a), Some(b), Some(c)) => Ok((a.clone(), b.clone(), c.clone())),
        _ => Err("User is missing some credentials".to_owned()),
    }
}

} // verus!
