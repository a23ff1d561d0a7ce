//! The fixed pipeline: the five stages run in one order, each stage's
//! output threaded into the next, and a final acknowledgement closes
//! the session.
use vstd::prelude::*;

use crate::types::ServerResponse;
use crate::types::ServerResponseType;

verus! {

/// The stages of the pipeline, in the only order they run.
#[derive(PartialEq, Eq, Structural, Clone, Copy, Debug)]
pub enum PipelineStage {
    /// The clarifying dialogue, producing the normalised request.
    Clarify,
    /// The derivation stage, producing supplementary notes.
    Math,
    /// The planning stage, producing the build outline.
    Plan,
    /// The status stage, announcing the outline to the user.
    Summarize,
    /// The coding stage, producing the verified execution.
    Code,
    /// All stages are done; the session is closed.
    Finish,
}

/// One session's march through the pipeline, holding each stage's
/// output for the stages after it.
pub struct Pipeline {
    /// The stage whose completion is awaited.
    pub stage: PipelineStage,
    /// The user's initial free-text request.
    pub initial_input: String,
    /// The document the model is built in.
    pub onshape_document: String,
    /// This session's id.
    pub session_id: String,
    /// The clarifying stage's normalised request.
    pub parsed_prompt: Option<String>,
    /// The derivation stage's notes.
    pub math_notes: Option<String>,
    /// The planning stage's build outline.
    pub outline: Option<String>,
}

impl Pipeline {
    /// Opens the pipeline at its first stage.
    pub fn new(initial_input: String, onshape_document: String, session_id: String) -> (p:
        Pipeline)
        ensures
            p.stage == PipelineStage::Clarify,
            p.initial_input == initial_input,
            p.onshape_document == onshape_document,
            p.session_id == session_id,
            p.parsed_prompt is None,
            p.math_notes is None,
            p.outline is None,
    {
        Pipeline {
            stage: PipelineStage::Clarify,
            initial_input,
            onshape_document,
            session_id,
            parsed_prompt: None,
            math_notes: None,
            outline: None,
        }
    }

    /// Records the clarifying stage's output and moves to derivation.
    pub fn complete_clarify(&mut self, parsed_prompt: String)
        requires
            old(self).stage == PipelineStage::Clarify,
        ensures
            final(self).stage == PipelineStage::Math,
            final(self).parsed_prompt == Some(parsed_prompt),
            final(self).initial_input == old(self).initial_input,
            final(self).onshape_document == old(self).onshape_document,
            final(self).session_id == old(self).session_id,
            final(self).math_notes == old(self).math_notes,
            final(self).outline == old(self).outline,
    {
        self.parsed_prompt = Some(parsed_prompt);
        self.stage = PipelineStage::Math;
    }

    /// Records the derivation stage's notes and moves to planning.
    pub fn complete_math(&mut self, notes: String)
        requires
            old(self).stage == PipelineStage::Math,
        ensures
            final(self).stage == PipelineStage::Plan,
            final(self).math_notes == Some(notes),
            final(self).parsed_prompt == old(self).parsed_prompt,
            final(self).initial_input == old(self).initial_input,
            final(self).onshape_document == old(self).onshape_document,
            final(self).session_id == old(self).session_id,
            final(self).outline == old(self).outline,
    {
        self.math_notes = Some(notes);
        self.stage = PipelineStage::Plan;
    }

    /// Records the build outline and moves to the status stage.
    pub fn complete_plan(&mut self, outline: String)
        requires
            old(self).stage == PipelineStage::Plan,
        ensures
            final(self).stage == PipelineStage::Summarize,
            final(self).outline == Some(outline),
            final(self).parsed_prompt == old(self).parsed_prompt,
            final(self).math_notes == old(self).math_notes,
            final(self).initial_input == old(self).initial_input,
            final(self).onshape_document == old(self).onshape_document,
            final(self).session_id == old(self).session_id,
    {
        self.outline = Some(outline);
        self.stage = PipelineStage::Summarize;
    }

    /// The status message went out; the coding stage is next. It works
    /// from the outline and the normalised request, which must both be
    /// in hand by now.
    pub fn complete_summary(&mut self)
        requires
            old(self).stage == PipelineStage::Summarize,
            old(self).outline is Some,
            old(self).parsed_prompt is Some,
        ensures
            final(self).stage == PipelineStage::Code,
            final(self).parsed_prompt == old(self).parsed_prompt,
            final(self).math_notes == old(self).math_notes,
            final(self).outline == old(self).outline,
            final(self).initial_input == old(self).initial_input,
            final(self).onshape_document == old(self).onshape_document,
            final(self).session_id == old(self).session_id,
    {
        self.stage = PipelineStage::Code;
    }

    /// The coding stage is over: the session closes with its fixed
    /// acknowledgement message.
    pub fn complete_code(&mut self) -> (msg: ServerResponse)
        requires
            old(self).stage == PipelineStage::Code,
        ensures
            final(self).stage == PipelineStage::Finish,
            msg.response_type == ServerResponseType::Final,
            msg.content@ == "Your model has been created!"@,
    {
        self.stage = PipelineStage::Finish;
        ServerResponse {
            response_type: ServerResponseType::Final,
            content: "Your model has been created!".to_owned(),
        }
    }
}

} // verus!
