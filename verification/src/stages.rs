//! The small pipeline stages and the model-call gateway's uniform
//! error surface.
use vstd::prelude::*;

use crate::errors::PolybrainError;
use crate::text::replace_all;
use crate::text::replaced;
use crate::text::trim_assistant_prefix;
use crate::text::trim_assistant_prefix_spec;
use crate::types::ServerResponse;
use crate::types::ServerResponseType;

verus! {

/// How one model call ended, as the gateway saw it.
pub enum LlmOutcome {
    /// The model replied with this text.
    Reply(String),
    /// The call itself failed; carries the transport's own wording.
    RunFailure(String),
    /// The reply could not be converted to immediate form.
    ConvertFailure,
    /// The model replied with no output at all.
    NoOutput,
}

/// Surfaces a model-call outcome uniformly: the reply text, or an
/// internal error saying which way the call failed.
pub fn classify_llm_outcome(o: LlmOutcome) -> (r: Result<String, PolybrainError>)
    ensures
        match o {
            LlmOutcome::Reply(t) => (r matches Ok(x) && x == t),
            LlmOutcome::RunFailure(e) => (r matches Err(PolybrainError::InternalError(m)) && m@
                == "An error occurred when invoking LLM: "@ + e@),
            LlmOutcome::ConvertFailure => (r matches Err(PolybrainError::InternalError(m)) && m@
                == "Error converting LLM response to immediate"@),
            LlmOutcome::NoOutput => (r matches Err(PolybrainError::InternalError(m)) && m@
                == "LLM responded with no output"@),
        },
{
    match o {
        LlmOutcome::Reply(t) => Ok(t),
        LlmOutcome::RunFailure(e) => {
            let mut m = "An error occurred when invoking LLM: ".to_owned();
            m.append(e.as_str());
            Err(PolybrainError::InternalError(m))
        },
        LlmOutcome::ConvertFailure => Err(
            PolybrainError::InternalError(
                "Error converting LLM response to immediate".to_owned(),
            ),
        ),
        LlmOutcome::NoOutput => Err(
            PolybrainError::InternalError("LLM responded with no output".to_owned()),
        ),
    }
}

/// The derivation stage produces no notes in this pipeline; its output
/// is the fixed placeholder the next stage expects.
pub fn math_notes() -> (r: String)
    ensures
        r@ == "No math notes"@,
{
    "No math notes".to_owned()
}

/// Shapes the summary model's reply into the status message announced
/// while the engineer works: the reply tag is stripped and the
/// internal tool name replaced by the platform's.
pub fn prepare_status_message(reply: &str) -> (r: ServerResponse)
    ensures
        r.response_type == ServerResponseType::Info,
        r.content@ == replaced(trim_assistant_prefix_spec(reply@), "OnPy"@, "OnShape"@),
{
    proof {
        reveal_strlit("OnPy");
    }
    let t = trim_assistant_prefix(reply);
    let content = replace_all(t, "OnPy", "OnShape");
    ServerResponse { response_type: ServerResponseType::Info, content }
}

} // verus!
