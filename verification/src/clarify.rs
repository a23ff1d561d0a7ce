//! The clarifying-dialogue stage: a conversation loop that runs until
//! the model judges the request feasible and says so, then a summary
//! call that normalises what the user asked for.
use vstd::prelude::*;

use crate::text::replace_all;
use crate::text::replaced;
use crate::text::trim;
use crate::text::trim_assistant_prefix;
use crate::text::trim_assistant_prefix_spec;
use crate::text::trimmed;
use crate::types::ServerResponse;
use crate::types::ServerResponseType;

verus! {

/// Who said one conversation turn.
#[derive(PartialEq, Eq, Structural, Clone, Copy, Debug)]
pub enum Role {
    User,
    Assistant,
}

/// One turn of the clarifying dialogue.
pub struct ChatMessage {
    pub role: Role,
    pub text: String,
}

/// The reply, stripped of its tag and outer whitespace, as the loop
/// reads it.
pub open spec fn agent_response_spec(reply: Seq<char>) -> Seq<char> {
    trimmed(trim_assistant_prefix_spec(reply))
}

/// The token with which the model releases the user's request onward.
pub open spec fn begin_token() -> Seq<char> {
    "Begin!"@
}

/// Where the clarifying stage stands.
#[derive(PartialEq, Eq, Structural, Clone, Copy, Debug)]
pub enum ClarifyPhase {
    /// Expecting the next conversational model reply.
    AwaitModel,
    /// A question is out to the user.
    AwaitHuman,
    /// The release message is out; waiting for its acknowledgement.
    AwaitInfoAck,
    /// Expecting the summary model reply.
    AwaitSummary,
    /// The stage has produced the normalised request.
    Done,
}

/// What the driver must do next for the clarifying stage.
pub enum ClarifyAction {
    /// Call the model on the conversation so far.
    CallModel,
    /// Show the user the stage's parting message and await the
    /// acknowledgement.
    SendInfo { message: ServerResponse },
    /// Put the reply to the user as a question and hand the answer
    /// back.
    AskHuman { question: String },
    /// Call the summary model on the conversation so far.
    CallSummarizer,
    /// The stage is over; hand the normalised request onward.
    Finished { summary: String },
}

/// The clarifying dialogue, driven one blocking call at a time.
pub struct ClarifySession {
    /// The dialogue so far; the model sees it on every call.
    pub messages: Vec<ChatMessage>,
    /// Where the stage stands.
    pub phase: ClarifyPhase,
    /// The normalised request, once done.
    pub result: Option<String>,
}

impl ClarifySession {
    /// Opens the dialogue with the user's initial message.
    pub fn new(initial_message: String) -> (s: ClarifySession)
        ensures
            s.phase == ClarifyPhase::AwaitModel,
            s.messages@.len() == 1,
            s.messages@[0].role == Role::User,
            s.messages@[0].text == initial_message,
            s.result is None,
    {
        let mut messages: Vec<ChatMessage> = Vec::new();
        messages.push(ChatMessage { role: Role::User, text: initial_message });
        ClarifySession { messages, phase: ClarifyPhase::AwaitModel, result: None }
    }

    /// Takes one conversational reply. A reply carrying the release
    /// token sends the user the reply with the token cut out and turns
    /// to the summary; any other reply goes back to the user as a
    /// question, recorded in the dialogue with its newlines flattened.
    pub fn on_model_reply(&mut self, reply: &str) -> (a: ClarifyAction)
        requires
            old(self).phase == ClarifyPhase::AwaitModel,
        ensures
            ({
                let resp = agent_response_spec(reply@);
                if crate::text::contains_pat(resp, begin_token()) {
                    &&& final(self).phase == ClarifyPhase::AwaitInfoAck
                    &&& final(self).messages == old(self).messages
                    &&& (a matches ClarifyAction::SendInfo { message } && message.response_type
                        == ServerResponseType::Info && message.content@ == replaced(
                        resp,
                        begin_token(),
                        Seq::empty(),
                    ))
                } else {
                    &&& final(self).phase == ClarifyPhase::AwaitHuman
                    &&& final(self).messages@.len() == old(self).messages@.len() + 1
                    &&& final(self).messages@.subrange(0, old(self).messages@.len() as int)
                        == old(self).messages@
                    &&& final(self).messages@.last().role == Role::Assistant
                    &&& final(self).messages@.last().text@ == replaced(
                        resp,
                        "\n"@,
                        " "@,
                    )
                    &&& (a matches ClarifyAction::AskHuman { question } && question@ == resp)
                }
            }),
            final(self).result == old(self).result,
    {
        proof {
            reveal_strlit("Begin!");
            reveal_strlit("");
            reveal_strlit("\n");
            reveal_strlit(" ");
            assert(""@ =~= Seq::<char>::empty());
        }
        let stripped = trim_assistant_prefix(reply);
        let resp = trim(stripped);
        if crate::text::contains_str(resp.as_str(), "Begin!") {
            let content = replace_all(resp.as_str(), "Begin!", "");
            self.phase = ClarifyPhase::AwaitInfoAck;
            ClarifyAction::SendInfo {
                message: ServerResponse {
                    response_type: ServerResponseType::Info,
                    content,
                },
            }
        } else {
            let flat = replace_all(resp.as_str(), "\n", " ");
            self.messages.push(ChatMessage { role: Role::Assistant, text: flat });
            self.phase = ClarifyPhase::AwaitHuman;
            assert(self.messages@.subrange(0, old(self).messages@.len() as int) =~= old(
                self,
            ).messages@);
            ClarifyAction::AskHuman { question: resp }
        }
    }

    /// Takes the user's answer: it joins the dialogue and the model is
    /// called again.
    pub fn on_human_answer(&mut self, answer: String) -> (a: ClarifyAction)
        requires
            old(self).phase == ClarifyPhase::AwaitHuman,
        ensures
            final(self).phase == ClarifyPhase::AwaitModel,
            final(self).messages@.len() == old(self).messages@.len() + 1,
            final(self).messages@.subrange(0, old(self).messages@.len() as int) == old(
                self,
            ).messages@,
            final(self).messages@.last().role == Role::User,
            final(self).messages@.last().text == answer,
            final(self).result == old(self).result,
            a is CallModel,
    {
        self.messages.push(ChatMessage { role: Role::User, text: answer });
        self.phase = ClarifyPhase::AwaitModel;
        assert(self.messages@.subrange(0, old(self).messages@.len() as int) =~= old(
            self,
        ).messages@);
        ClarifyAction::CallModel
    }

    /// The parting message was acknowledged: call the summary model.
    pub fn on_info_ack(&mut self) -> (a: ClarifyAction)
        requires
            old(self).phase == ClarifyPhase::AwaitInfoAck,
        ensures
            final(self).phase == ClarifyPhase::AwaitSummary,
            final(self).messages == old(self).messages,
            final(self).result == old(self).result,
            a is CallSummarizer,
    {
        self.phase = ClarifyPhase::AwaitSummary;
        ClarifyAction::CallSummarizer
    }

    /// Takes the summary reply: stripped of its tag, it is the stage's
    /// normalised request.
    pub fn on_summary_reply(&mut self, reply: &str) -> (a: ClarifyAction)
        requires
            old(self).phase == ClarifyPhase::AwaitSummary,
        ensures
            final(self).phase == ClarifyPhase::Done,
            (final(self).result matches Some(x) && x@ == trim_assistant_prefix_spec(reply@)),
            (a matches ClarifyAction::Finished { summary } && summary@
                == trim_assistant_prefix_spec(reply@)),
    {
        let summary = trim_assistant_prefix(reply).to_owned();
        self.result = Some(summary.clone());
        self.phase = ClarifyPhase::Done;
        ClarifyAction::Finished { summary }
    }
}

/// The dialogue rendered as the prompt's conversation history: one line
/// per turn, tagged with who spoke.
pub open spec fn rendered_history(msgs: Seq<ChatMessage>, i: int) -> Seq<char>
    decreases msgs.len() + 1 - i,
{
    if i < 0 || i >= msgs.len() {
        Seq::empty()
    } else {
        (match msgs[i].role {
            Role::User => "User: "@,
            Role::Assistant => "Assistant: "@,
        }) + msgs[i].text@ + "\n"@ + rendered_history(msgs, i + 1)
    }
}

/// Renders the dialogue for substitution into a prompt.
pub fn build_conversation_history(msgs: &Vec<ChatMessage>) -> (r: String)
    ensures
        r@ == rendered_history(msgs@, 0),
{
    build_history_from(msgs, 0)
}

fn build_history_from(msgs: &Vec<ChatMessage>, i: usize) -> (r: String)
    requires
        i <= msgs.len(),
    ensures
        r@ == rendered_history(msgs@, i as int),
    decreases msgs.len() - i,
{
    if i == msgs.len() {
        String::new()
    } else {
        let mut line = match msgs[i].role {
            Role::User => "User: ".to_owned(),
            Role::Assistant => "Assistant: ".to_owned(),
        };
        line.append(msgs[i].text.as_str());
        line.append("\n");
        let rest = build_history_from(msgs, i + 1);
        line.append(rest.as_str());
        line
    }
}

} // verus!
