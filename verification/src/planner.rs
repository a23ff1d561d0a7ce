//! The bounded think-loop of the planning stage: call the model with
//! the accumulated scratchpad, recognise tool invocations in the reply,
//! recover in place from malformed output, and stop at the iteration
//! ceiling with a placeholder rather than hanging.
use vstd::prelude::*;

use crate::extract::report_cleanup_spec;
use crate::invocation::has_command;
use crate::invocation::is_malformed_reply;
use crate::invocation::is_query_reply;
use crate::invocation::is_report_reply;
use crate::invocation::malformed_detail_of;
use crate::invocation::parse_invocation;
use crate::invocation::query_command;
use crate::invocation::question_of;
use crate::invocation::render_invocation;
use crate::invocation::rendered_invocation;
use crate::invocation::ReplyParse;
use crate::invocation::ToolInvocation;
use crate::text::replace_all;
use crate::text::replaced;
use crate::text::trim;
use crate::text::trimmed;

verus! {

/// The planning stage's iteration ceiling.
pub const PLANNER_MAX_ITER: usize = 7;

/// The reply with fence delimiters removed, as the loop reads it.
pub open spec fn cleaned_reply_spec(raw: Seq<char>) -> Seq<char> {
    replaced(replaced(raw, "```yaml"@, Seq::empty()), "```"@, Seq::empty())
}

/// The terminal turn built around a report reply, as it is cleaned and
/// handed to the report transform.
pub open spec fn report_turn_spec(res: Seq<char>) -> Seq<char> {
    cleaned_reply_spec("\n"@ + trimmed(res) + "\noutput: none: null\n"@)
}

/// The final deliverable of the planning stage for a report reply.
pub open spec fn report_result_spec(res: Seq<char>) -> Seq<char> {
    report_cleanup_spec(report_turn_spec(res))
}

/// The corrective turn appended when a reply is malformed: the reply
/// and the diagnosis are echoed back with an instruction to rephrase.
pub open spec fn malformed_turn_spec(res: Seq<char>, detail: Seq<char>) -> Seq<char> {
    "YAML ERROR: Rephrase the following. Remove any mappings and respond as a string with \"|\"\nInput\n```\n"@
        + res + "\n```\nOutput\n```\n"@ + detail + "\n```"@
}

/// The placeholder result of a stage that hit its ceiling.
pub open spec fn placeholder_result() -> Seq<char> {
    "temp"@
}

/// The think-loop's state, reduced to what its laws speak about.
pub struct PlannerModel {
    pub scratchpad: Seq<char>,
    pub iterations: int,
    pub done: Option<Seq<char>>,
}

/// One step of the loop on a malformed reply: the corrective turn is
/// appended, the iteration is spent, and the stage terminates exactly
/// when the ceiling is reached.
pub open spec fn malformed_step_model(m: PlannerModel, raw: Seq<char>) -> PlannerModel {
    let res = cleaned_reply_spec(raw);
    PlannerModel {
        scratchpad: m.scratchpad + malformed_turn_spec(res, malformed_detail_of(res)),
        iterations: m.iterations + 1,
        done: if m.iterations + 1 >= PLANNER_MAX_ITER {
            Some(placeholder_result())
        } else {
            None
        },
    }
}

/// The loop run over a whole sequence of malformed replies.
pub open spec fn malformed_run(m: PlannerModel, replies: Seq<Seq<char>>) -> PlannerModel
    decreases replies.len(),
{
    if replies.len() == 0 {
        m
    } else {
        malformed_run(malformed_step_model(m, replies[0]), replies.skip(1))
    }
}

/// A fresh stage: empty scratchpad, no iterations spent, not done.
pub open spec fn fresh_model() -> PlannerModel {
    PlannerModel { scratchpad: Seq::empty(), iterations: 0, done: None }
}

/// However malformed every reply is, the stage neither dies early nor
/// runs forever: each reply before the ceiling leaves the stage running
/// with one more corrective turn appended, and the reply that reaches
/// the ceiling ends the stage with the placeholder result.
pub proof fn lemma_malformed_replies_bounded(replies: Seq<Seq<char>>)
    requires
        replies.len() <= PLANNER_MAX_ITER,
    ensures
        malformed_run(fresh_model(), replies).iterations == replies.len(),
        replies.len() < PLANNER_MAX_ITER ==> malformed_run(fresh_model(), replies).done is None,
        replies.len() == PLANNER_MAX_ITER ==> malformed_run(fresh_model(), replies).done
            == Some(placeholder_result()),
{
    lemma_malformed_run_from(fresh_model(), replies);
}

proof fn lemma_malformed_run_from(m: PlannerModel, replies: Seq<Seq<char>>)
    requires
        m.iterations + replies.len() <= PLANNER_MAX_ITER,
        m.iterations >= 0,
    ensures
        malformed_run(m, replies).iterations == m.iterations + replies.len(),
        replies.len() == 0 ==> malformed_run(m, replies) == m,
        replies.len() > 0 && m.iterations + replies.len() < PLANNER_MAX_ITER ==> malformed_run(
            m,
            replies,
        ).done is None,
        replies.len() > 0 && m.iterations + replies.len() == PLANNER_MAX_ITER ==> malformed_run(
            m,
            replies,
        ).done == Some(placeholder_result()),
    decreases replies.len(),
{
    if replies.len() > 0 {
        lemma_malformed_run_from(malformed_step_model(m, replies[0]), replies.skip(1));
    }
}

/// Where the think-loop stands.
#[derive(PartialEq, Eq, Structural, Clone, Copy, Debug)]
pub enum PlannerPhase {
    /// Expecting the next model reply.
    Thinking,
    /// A question is out to the human.
    AwaitHuman,
    /// The stage has produced its result.
    Done,
}

/// What the driver must do next for the planning stage.
pub enum PlannerStep {
    /// Call the model again with the accumulated scratchpad.
    Continue,
    /// Put the question to the human and hand the answer back.
    NeedHuman { question: String },
    /// The stage is over; hand the report onward.
    Done { report: String },
}

/// The planning stage's think-loop, driven one model reply at a time.
pub struct PlannerLoop {
    /// The accumulated context handed back to the model at each turn.
    pub scratchpad: String,
    /// Model replies processed so far.
    pub iterations: usize,
    /// Where the loop stands.
    pub phase: PlannerPhase,
    /// The parsed user-query invocation awaiting the human's answer.
    pub pending: ToolInvocation,
    /// The stage's result, once done.
    pub result: Option<String>,
}

impl PlannerLoop {
    pub open spec fn wf(self) -> bool {
        &&& self.iterations <= PLANNER_MAX_ITER
        &&& (self.phase == PlannerPhase::Done <==> self.result is Some)
    }

    /// The loop's state, reduced to what the laws speak about.
    pub open spec fn model(self) -> PlannerModel {
        PlannerModel {
            scratchpad: self.scratchpad@,
            iterations: self.iterations as int,
            done: match self.result {
                Some(s) => Some(s@),
                None => None,
            },
        }
    }

    /// Opens the stage with an empty scratchpad.
    pub fn new() -> (s: PlannerLoop)
        ensures
            s.wf(),
            s.model() == fresh_model(),
            s.phase == PlannerPhase::Thinking,
    {
        let s = PlannerLoop {
            scratchpad: String::new(),
            iterations: 0,
            phase: PlannerPhase::Thinking,
            pending: ToolInvocation {
                command: String::new(),
                input: Vec::new(),
                output: String::new(),
            },
            result: None,
        };
        assert(s.model() =~= fresh_model());
        s
    }

    /// Takes one model reply. A report invocation ends the stage with
    /// the cleaned report. A user-query invocation puts the question
    /// (its quote marks dropped) out to the human. Free-form thought is
    /// appended as is; a malformed invocation is answered by appending
    /// the corrective turn. In the latter two cases the loop continues
    /// until the reply that reaches the ceiling, which ends the stage
    /// with the placeholder result instead.
    pub fn step_model_reply(&mut self, raw: &str) -> (r: PlannerStep)
        requires
            old(self).wf(),
            old(self).phase == PlannerPhase::Thinking,
            old(self).iterations < PLANNER_MAX_ITER,
        ensures
            final(self).wf(),
            final(self).iterations == old(self).iterations + 1,
            ({
                let res = cleaned_reply_spec(raw@);
                &&& (is_report_reply(res) ==> {
                    &&& (r matches PlannerStep::Done { report } && report@ == report_result_spec(
                        res,
                    ))
                    &&& final(self).phase == PlannerPhase::Done
                    &&& (final(self).result matches Some(x) && x@ == report_result_spec(res))
                    &&& final(self).scratchpad == old(self).scratchpad
                })
                &&& (is_query_reply(res) ==> {
                    &&& (r matches PlannerStep::NeedHuman { question } && question@ == replaced(
                        question_of(res),
                        "\""@,
                        Seq::empty(),
                    ))
                    &&& final(self).phase == PlannerPhase::AwaitHuman
                    &&& final(self).pending.command@ == query_command()
                    &&& final(self).pending.input@.len() == 1
                    &&& final(self).pending.input@[0].0@ == "question"@
                    &&& final(self).pending.input@[0].1@ == question_of(res)
                    &&& final(self).pending.output@ == Seq::<char>::empty()
                    &&& final(self).scratchpad == old(self).scratchpad
                    &&& final(self).result is None
                })
                &&& (!has_command(res) ==> {
                    &&& final(self).scratchpad@ == old(self).scratchpad@ + "\n"@ + res
                    &&& final(self).ceiling_outcome(old(self).iterations + 1, r)
                })
                &&& (is_malformed_reply(res) ==> {
                    &&& final(self).model() == malformed_step_model(old(self).model(), raw@)
                    &&& final(self).ceiling_outcome(old(self).iterations + 1, r)
                })
            }),
    {
        proof {
            reveal_strlit("```yaml");
            reveal_strlit("```");
            reveal_strlit("");
            reveal_strlit("Report");
            reveal_strlit("User Query");
            reveal_strlit("temp");
            reveal_strlit("\n");
            reveal_strlit("\noutput: none: null\n");
            reveal_strlit("\"");
            assert(""@ =~= Seq::<char>::empty());
        }
        let res = replace_all(
            replace_all(raw, "```yaml", "").as_str(),
            "```",
            "",
        );
        self.iterations = self.iterations + 1;
        match parse_invocation(res.as_str()) {
            ReplyParse::Invocation(inv) => {
                if crate::text::str_eq_str(inv.command.as_str(), "Report") {
                    assert("Report"@.len() == 6 && "User Query"@.len() == 10);
                    assert(is_report_reply(res@) && !is_query_reply(res@));
                    let mut turn = "\n".to_owned();
                    let trimmed_res = trim(res.as_str());
                    turn.append(trimmed_res.as_str());
                    turn.append("\noutput: none: null\n");
                    assert(turn@ =~= "\n"@ + trimmed(res@) + "\noutput: none: null\n"@);
                    let cleaned_turn = replace_all(
                        replace_all(turn.as_str(), "```yaml", "").as_str(),
                        "```",
                        "",
                    );
                    assert(cleaned_turn@ == report_turn_spec(res@));
                    let report = crate::extract::clean_report(cleaned_turn.as_str());
                    self.phase = PlannerPhase::Done;
                    self.result = Some(report.clone());
                    PlannerStep::Done { report }
                } else {
                    let question = replace_all(inv.input[0].1.as_str(), "\"", "");
                    self.pending = inv;
                    self.phase = PlannerPhase::AwaitHuman;
                    PlannerStep::NeedHuman { question }
                }
            },
            ReplyParse::NoInvocation => {
                self.scratchpad.append("\n");
                self.scratchpad.append(res.as_str());
                self.conclude_turn()
            },
            ReplyParse::Malformed(detail) => {
                self.scratchpad.append(
                    "YAML ERROR: Rephrase the following. Remove any mappings and respond as a string with \"|\"\nInput\n```\n",
                );
                self.scratchpad.append(res.as_str());
                self.scratchpad.append("\n```\nOutput\n```\n");
                self.scratchpad.append(detail.as_str());
                self.scratchpad.append("\n```");
                assert(self.scratchpad@ =~= old(self).scratchpad@ + malformed_turn_spec(
                    res@,
                    malformed_detail_of(res@),
                ));
                self.conclude_turn()
            },
        }
    }

    /// After a non-terminal turn the loop either goes on thinking or,
    /// when the spent turn reached the ceiling, ends with the
    /// placeholder result.
    pub open spec fn ceiling_outcome(self, spent: int, r: PlannerStep) -> bool {
        if spent >= PLANNER_MAX_ITER {
            &&& self.phase == PlannerPhase::Done
            &&& (self.result matches Some(x) && x@ == placeholder_result())
            &&& (r matches PlannerStep::Done { report } && report@ == placeholder_result())
        } else {
            &&& self.phase == PlannerPhase::Thinking
            &&& self.result is None
            &&& r is Continue
        }
    }

    fn conclude_turn(&mut self) -> (r: PlannerStep)
        requires
            old(self).phase == PlannerPhase::Thinking,
            old(self).result is None,
            1 <= old(self).iterations <= PLANNER_MAX_ITER,
        ensures
            final(self).scratchpad == old(self).scratchpad,
            final(self).iterations == old(self).iterations,
            final(self).pending == old(self).pending,
            final(self).wf(),
            final(self).ceiling_outcome(old(self).iterations as int, r),
    {
        proof {
            reveal_strlit("temp");
        }
        if self.iterations >= PLANNER_MAX_ITER {
            self.phase = PlannerPhase::Done;
            self.result = Some("temp".to_owned());
            PlannerStep::Done { report: "temp".to_owned() }
        } else {
            PlannerStep::Continue
        }
    }

    /// Takes the human's answer to a pending question: the answer is
    /// substituted, literally, into the invocation's output slot and
    /// the whole turn appended to the scratchpad, answer included. The
    /// loop then goes on thinking, or ends with the placeholder if the
    /// turn that asked was the last the ceiling allowed.
    pub fn on_human_answer(&mut self, answer: &str) -> (r: PlannerStep)
        requires
            old(self).wf(),
            old(self).phase == PlannerPhase::AwaitHuman,
            1 <= old(self).iterations,
        ensures
            final(self).wf(),
            final(self).iterations == old(self).iterations,
            final(self).scratchpad@ == old(self).scratchpad@ + rendered_invocation(
                old(self).pending.command@,
                old(self).pending.input.deep_view(),
                answer@,
            ),
            final(self).ceiling_outcome(old(self).iterations as int, r),
    {
        self.pending.output = answer.to_owned();
        let turn = render_invocation(&self.pending);
        self.scratchpad.append(turn.as_str());
        self.phase = PlannerPhase::Thinking;
        self.result = None;
        self.conclude_turn()
    }
}

} // verus!
