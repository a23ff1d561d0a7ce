//! The generate-execute-repair engine: scratch-file naming, script
//! assembly, the acceptance classifier, and the bounded state machine
//! that drives code generation until the user accepts or a budget runs
//! out.
use vstd::prelude::*;

use crate::errors::CodeError;
use crate::text::contains_pat;
use crate::text::match_at;

verus! {

/// Lower-case image of one character, for the ASCII letters.
pub open spec fn to_lower_char(c: char) -> char {
    if 'A' <= c && c <= 'Z' {
        ((c as u8) + 32) as char
    } else {
        c
    }
}

/// `s` with its ASCII letters lowered.
pub open spec fn lower_seq(s: Seq<char>) -> Seq<char> {
    Seq::new(s.len(), |i: int| to_lower_char(s[i]))
}

/// The user's free-text answer counts as acceptance when it contains
/// the word `yes` in any letter case.
pub open spec fn is_acceptance_spec(s: Seq<char>) -> bool {
    contains_pat(lower_seq(s), "yes"@)
}

fn lower_char_exec(c: char) -> (r: char)
    ensures
        r == to_lower_char(c),
{
    if 'A' <= c && c <= 'Z' {
        ((c as u8) + 32) as char
    } else {
        c
    }
}

/// Interprets a free-text answer: does it contain the word `yes`,
/// ignoring letter case?
pub fn is_acceptance(s: &str) -> (r: bool)
    ensures
        r == is_acceptance_spec(s@),
{
    proof {
        reveal_strlit("yes");
    }
    let ghost low = lower_seq(s@);
    let n = s.unicode_len();
    if n < 3 {
        assert(forall|j: int| !match_at(low, "yes"@, j));
        return false;
    }
    let mut i: usize = 0;
    while i <= n - 3
        invariant
            n == s@.len(),
            3 <= n,
            low == lower_seq(s@),
            0 <= i <= n - 2,
            forall|j: int| 0 <= j < i ==> !match_at(low, "yes"@, j),
        decreases n - i,
    {
        let a = lower_char_exec(s.get_char(i));
        let b = lower_char_exec(s.get_char(i + 1));
        let c = lower_char_exec(s.get_char(i + 2));
        proof {
            reveal_strlit("yes");
            assert(low[i as int] == to_lower_char(s@[i as int]));
            assert(low[i + 1] == to_lower_char(s@[i + 1]));
            assert(low[i + 2] == to_lower_char(s@[i + 2]));
            assert(low.subrange(i as int, i + 3)[0] == low[i as int]);
            assert(low.subrange(i as int, i + 3)[1] == low[i + 1]);
            assert(low.subrange(i as int, i + 3)[2] == low[i + 2]);
            assert("yes"@[0] == 'y' && "yes"@[1] == 'e' && "yes"@[2] == 's');
        }
        if a == 'y' && b == 'e' && c == 's' {
            assert(low.subrange(i as int, i + 3) =~= "yes"@);
            assert(match_at(low, "yes"@, i as int));
            return true;
        }
        proof {
            if match_at(low, "yes"@, i as int) {
                assert(low.subrange(i as int, i + 3) == "yes"@);
                assert(false);
            }
        }
        i += 1;
    }
    assert forall|j: int| !match_at(low, "yes"@, j) by {
        if j >= i {
            assert(j + 3 > low.len());
        }
    }
    false
}

/// The decimal digit character for one digit value.
pub open spec fn dec_digit(d: int) -> char {
    if d == 0 {
        '0'
    } else if d == 1 {
        '1'
    } else if d == 2 {
        '2'
    } else if d == 3 {
        '3'
    } else if d == 4 {
        '4'
    } else if d == 5 {
        '5'
    } else if d == 6 {
        '6'
    } else if d == 7 {
        '7'
    } else if d == 8 {
        '8'
    } else {
        '9'
    }
}

/// The decimal rendering of a nonnegative number.
pub open spec fn dec_str(n: int) -> Seq<char>
    decreases n,
{
    if n < 10 {
        seq![dec_digit(n)]
    } else {
        dec_str(n / 10) + seq![dec_digit(n % 10)]
    }
}

proof fn lemma_dec_str_len(n: int)
    ensures
        dec_str(n).len() >= 1,
        n >= 10 ==> dec_str(n).len() >= 2,
    decreases n,
{
    if n >= 10 {
        lemma_dec_str_len(n / 10);
    }
}

/// Every character of a decimal rendering is a digit.
proof fn lemma_dec_str_digits(n: int, k: int)
    requires
        0 <= k < dec_str(n).len(),
    ensures
        '0' <= dec_str(n)[k] && dec_str(n)[k] <= '9',
    decreases n,
{
    if n < 10 {
    } else {
        if k < dec_str(n / 10).len() {
            lemma_dec_str_digits(n / 10, k);
        }
    }
}

/// Decimal renderings are distinct for distinct nonnegative numbers.
proof fn lemma_dec_str_injective(a: int, b: int)
    requires
        0 <= a,
        0 <= b,
        dec_str(a) == dec_str(b),
    ensures
        a == b,
    decreases a,
{
    lemma_dec_str_len(a);
    lemma_dec_str_len(b);
    if a < 10 && b < 10 {
        assert(dec_str(a)[0] == dec_digit(a));
        assert(dec_str(b)[0] == dec_digit(b));
    } else if a < 10 {
        assert(dec_str(a).len() == 1);
        assert(dec_str(b).len() >= 2);
    } else if b < 10 {
        assert(dec_str(b).len() == 1);
        assert(dec_str(a).len() >= 2);
    } else {
        let x = dec_str(a / 10);
        let y = dec_str(b / 10);
        assert(dec_str(a).last() == dec_digit(a % 10));
        assert(dec_str(b).last() == dec_digit(b % 10));
        assert(a % 10 == b % 10);
        assert(x =~= y) by {
            assert(x.len() + 1 == y.len() + 1);
            assert forall|k: int| 0 <= k < x.len() implies x[k] == y[k] by {
                assert(dec_str(a)[k] == x[k]);
                assert(dec_str(b)[k] == y[k]);
            }
        }
        lemma_dec_str_injective(a / 10, b / 10);
    }
}

fn digit_string(d: usize) -> (r: String)
    requires
        d < 10,
    ensures
        r@ == seq![dec_digit(d as int)],
{
    proof {
        reveal_strlit("0");
        reveal_strlit("1");
        reveal_strlit("2");
        reveal_strlit("3");
        reveal_strlit("4");
        reveal_strlit("5");
        reveal_strlit("6");
        reveal_strlit("7");
        reveal_strlit("8");
        reveal_strlit("9");
    }
    let r: String = if d == 0 {
        "0".to_owned()
    } else if d == 1 {
        "1".to_owned()
    } else if d == 2 {
        "2".to_owned()
    } else if d == 3 {
        "3".to_owned()
    } else if d == 4 {
        "4".to_owned()
    } else if d == 5 {
        "5".to_owned()
    } else if d == 6 {
        "6".to_owned()
    } else if d == 7 {
        "7".to_owned()
    } else if d == 8 {
        "8".to_owned()
    } else {
        "9".to_owned()
    };
    assert(r@ =~= seq![dec_digit(d as int)]);
    r
}

/// Renders a number in decimal.
pub fn render_decimal(x: usize) -> (r: String)
    ensures
        r@ == dec_str(x as int),
    decreases x,
{
    if x < 10 {
        digit_string(x)
    } else {
        let mut s = render_decimal(x / 10);
        let d = digit_string(x % 10);
        s.append(d.as_str());
        s
    }
}

/// The on-disk name of one attempt's scratch script, keyed by the
/// session and the attempt so that concurrent sessions never share a
/// file.
pub open spec fn scratch_path_spec(session: Seq<char>, attempt: int) -> Seq<char> {
    "scratch-"@ + session + "-"@ + dec_str(attempt) + ".py"@
}

/// Builds the scratch-script path for one attempt of one session.
pub fn scratch_path(session_id: &str, attempt: usize) -> (r: String)
    ensures
        r@ == scratch_path_spec(session_id@, attempt as int),
{
    let mut out = "scratch-".to_owned();
    out.append(session_id);
    out.append("-");
    let d = render_decimal(attempt);
    out.append(d.as_str());
    out.append(".py");
    out
}

/// Scratch paths collide only for the same session and attempt: two
/// concurrent sessions, or two attempts of one session, always write
/// distinct files.
pub proof fn lemma_scratch_path_injective(
    s1: Seq<char>,
    a1: int,
    s2: Seq<char>,
    a2: int,
)
    requires
        0 <= a1,
        0 <= a2,
        scratch_path_spec(s1, a1) == scratch_path_spec(s2, a2),
    ensures
        s1 == s2,
        a1 == a2,
{
    reveal_strlit("scratch-");
    reveal_strlit("-");
    reveal_strlit(".py");
    let p = "scratch-"@;
    let sep = "-"@;
    let suf = ".py"@;
    let d1 = dec_str(a1);
    let d2 = dec_str(a2);
    lemma_dec_str_len(a1);
    lemma_dec_str_len(a2);
    let t1 = scratch_path_spec(s1, a1);
    let t2 = scratch_path_spec(s2, a2);
    // strip the fixed prefix and suffix
    assert(t1.len() == 8 + s1.len() + 1 + d1.len() + 3);
    assert(t2.len() == 8 + s2.len() + 1 + d2.len() + 3);
    let m1 = s1 + sep + d1;
    let m2 = s2 + sep + d2;
    assert(m1 =~= t1.subrange(8, t1.len() - 3));
    assert(m2 =~= t2.subrange(8, t2.len() - 3));
    assert(m1 == m2);
    // the digits after the last separator decide where the split lies
    if d1.len() == d2.len() {
        assert(s1.len() == s2.len());
        assert(s1 =~= s2) by {
            assert forall|k: int| 0 <= k < s1.len() implies s1[k] == s2[k] by {
                assert(m1[k] == s1[k]);
                assert(m2[k] == s2[k]);
            }
        }
        assert(d1 =~= d2) by {
            assert forall|k: int| 0 <= k < d1.len() implies d1[k] == d2[k] by {
                assert(m1[s1.len() + 1 + k] == d1[k]);
                assert(m2[s2.len() + 1 + k] == d2[k]);
            }
        }
        lemma_dec_str_injective(a1, a2);
    } else if d1.len() < d2.len() {
        // the separator of the first path would land inside the digits
        // of the second
        let q = m1.len() - d1.len() - 1;
        assert(m1[q] == sep[0]) by {
            assert(m1[s1.len() as int] == sep[0]);
        }
        assert(m2[q] == d2[q - (s2.len() + 1)]) by {
            assert(q >= s2.len() + 1);
        }
        lemma_dec_str_digits(a2, q - (s2.len() + 1));
        assert(false);
    } else {
        let q = m2.len() - d2.len() - 1;
        assert(m2[q] == sep[0]) by {
            assert(m2[s2.len() as int] == sep[0]);
        }
        assert(m1[q] == d1[q - (s1.len() + 1)]) by {
            assert(q >= s1.len() + 1);
        }
        lemma_dec_str_digits(a1, q - (s1.len() + 1));
        assert(false);
    }
}

/// The fixed, non-negotiable preamble of every executed attempt: it
/// binds a handle to the target document and wipes any CAD state left
/// by earlier attempts. Prompt authors never re-issue these statements.
pub open spec fn preamble_spec(document_id: Seq<char>) -> Seq<char> {
    "import onpy\npartstudio = onpy.get_document('"@ + document_id
        + "').get_partstudio()\npartstudio.wipe()\n"@
}

/// The full script of one attempt: the preamble for the session's
/// document, then the generated code, verbatim.
pub open spec fn assembled_script_spec(document_id: Seq<char>, code: Seq<char>) -> Seq<char> {
    preamble_spec(document_id) + code
}

/// Prefixes the generated code with the document preamble.
pub fn assemble_script(document_id: &str, code: &str) -> (r: String)
    ensures
        r@ == assembled_script_spec(document_id@, code@),
{
    let mut out = "import onpy\npartstudio = onpy.get_document('".to_owned();
    out.append(document_id);
    out.append("').get_partstudio()\npartstudio.wipe()\n");
    out.append(code);
    out
}

/// The outer generation ceiling: how many generate-execute-confirm
/// cycles one session may run.
pub const CODING_MAX_ITER: usize = 10;

/// The repair ceiling: how many times one failing attempt may be fed
/// back to the model.
pub const REPAIR_MAX_ITER: usize = 10;

/// The scratchpad turn recording a successful execution's console
/// output.
pub open spec fn cell_output_text(out: Seq<char>) -> Seq<char> {
    "Cell Output:\n```\n"@ + out + "\n```"@
}

/// The repair-scratchpad turn recording a failed execution.
pub open spec fn cell_error_text(stderr: Seq<char>) -> Seq<char> {
    "Cell Error:\n```\nexecution error: "@ + stderr + "\n```"@
}

/// The question put to the human after every successful execution.
pub open spec fn confirm_question() -> Seq<char> {
    "Does this model meet your specifications?"@
}

/// The scratchpad turn recording the human's rejection, so that the
/// next generation cycle addresses it.
pub open spec fn rejection_text(user_input: Seq<char>) -> Seq<char> {
    "The user was asked asked if they are satisfied with the model above. They responded saying: \n\""@
        + user_input
        + "\"\nMake adjustments to the previous model such that it conforms with the user's requested change"@
}

/// One executed code-generation attempt that ran to completion.
pub struct CodeAttempt {
    /// The code that ran.
    pub code: String,
    /// Its captured console output.
    pub console: String,
    /// Which execution attempt of the session this was.
    pub index: usize,
}

/// Where one coding session stands.
#[derive(PartialEq, Eq, Structural, Clone, Copy, Debug)]
pub enum CodingPhase {
    /// Waiting for the main model's code reply.
    AwaitCode,
    /// Waiting for the outcome of executing the current attempt.
    AwaitExec,
    /// Waiting for the repair model's corrected code.
    AwaitRepairCode,
    /// Waiting for the outcome of executing a repaired attempt.
    AwaitRepairExec,
    /// Waiting for the human's reply on a successful execution.
    AwaitHumanCheck,
    /// Waiting for the classifier's reading of that reply.
    AwaitClassifier,
    /// The session is over.
    Done,
    /// The repair budget ran out: a fatal, reported condition.
    RepairFailed,
}

/// What the driver must do next for a coding session.
pub enum CodingAction {
    /// Call the main code model with the session's scratchpad.
    CallCodeModel,
    /// Call the repair model with the failing code, its error, and the
    /// repair scratchpad.
    CallRepairModel,
    /// Write `script` to `path` and run it in its own process.
    Execute { path: String, script: String },
    /// Ask the human the given question and await the answer.
    AskHuman { question: String },
    /// Ask the classifier model to read the human's reply.
    CallClassifier { answer: String },
    /// The session is complete.
    Finished,
    /// The repair budget is exhausted; report the failure.
    RepairExhausted,
}

/// The generate-execute-repair loop of one session, driven from outside
/// one blocking step at a time: the driver performs each returned
/// action and hands the outcome back.
pub struct CodingSession {
    /// The build outline handed down by the planning stage.
    pub report: String,
    /// The user's confirmed request.
    pub original_request: String,
    /// The document the model is built in.
    pub onshape_document: String,
    /// The session id keying this session's scratch files.
    pub session_id: String,
    /// The accumulated context of the generation loop.
    pub scratchpad: String,
    /// The accumulated context of the current repair loop.
    pub repair_scratchpad: String,
    /// Completed generation cycles.
    pub outer_iter: usize,
    /// Repair calls spent on the current failing attempt.
    pub repair_iter: usize,
    /// Executions attempted so far; keys the scratch file name.
    pub attempt: usize,
    /// Where the session stands.
    pub phase: CodingPhase,
    /// The formatted code of the attempt being executed.
    pub current_code: String,
    /// The first failing code of the current repair loop.
    pub erroneous_code: String,
    /// The captured error of that first failure.
    pub error_output: String,
    /// The human's reply awaiting classification.
    pub pending_answer: String,
    /// The last attempt that ran to completion.
    pub completed: Option<CodeAttempt>,
}

impl CodingSession {
    /// The session's counters stay within their ceilings, and the
    /// attempt counter within what the ceilings allow.
    pub open spec fn wf(self) -> bool {
        &&& self.outer_iter <= CODING_MAX_ITER
        &&& self.repair_iter <= REPAIR_MAX_ITER
        &&& self.attempt <= self.outer_iter * (REPAIR_MAX_ITER + 1) + self.repair_iter
    }

    /// Opens a coding session; the first action is a main model call.
    pub fn new(
        report: String,
        original_request: String,
        onshape_document: String,
        session_id: String,
    ) -> (s: CodingSession)
        ensures
            s.wf(),
            s.phase == CodingPhase::AwaitCode,
            s.outer_iter == 0,
            s.repair_iter == 0,
            s.attempt == 0,
            s.scratchpad@ == Seq::<char>::empty(),
            s.repair_scratchpad@ == Seq::<char>::empty(),
            s.completed is None,
            s.report == report,
            s.original_request == original_request,
            s.onshape_document == onshape_document,
            s.session_id == session_id,
    {
        CodingSession {
            report,
            original_request,
            onshape_document,
            session_id,
            scratchpad: String::new(),
            repair_scratchpad: String::new(),
            outer_iter: 0,
            repair_iter: 0,
            attempt: 0,
            phase: CodingPhase::AwaitCode,
            current_code: String::new(),
            erroneous_code: String::new(),
            error_output: String::new(),
            pending_answer: String::new(),
            completed: None,
        }
    }

    /// Takes the main model's reply: shapes it into code and asks the
    /// driver to execute it under this attempt's scratch path.
    pub fn on_code_reply(&mut self, reply: &str) -> (a: CodingAction)
        requires
            old(self).wf(),
            old(self).phase == CodingPhase::AwaitCode,
            old(self).outer_iter < CODING_MAX_ITER,
        ensures
            final(self).wf(),
            final(self).phase == CodingPhase::AwaitExec,
            final(self).outer_iter == old(self).outer_iter + 1,
            final(self).repair_iter == 0,
            final(self).attempt == old(self).attempt + 1,
            final(self).current_code@ == crate::extract::format_code_output_spec(reply@),
            final(self).scratchpad == old(self).scratchpad,
            final(self).report == old(self).report,
            final(self).original_request == old(self).original_request,
            final(self).onshape_document == old(self).onshape_document,
            final(self).session_id == old(self).session_id,
            final(self).completed == old(self).completed,
            (a matches CodingAction::Execute { path, script } && path@ == scratch_path_spec(
                old(self).session_id@,
                old(self).attempt + 1,
            ) && script@ == assembled_script_spec(
                old(self).onshape_document@,
                crate::extract::format_code_output_spec(reply@),
            )),
    {
        let code = match crate::extract::format_code_output(reply) {
            Ok(c) => c,
            Err(_) => {
                proof {
                    assert(false);
                }
                String::new()
            },
        };
        self.outer_iter = self.outer_iter + 1;
        self.repair_iter = 0;
        self.attempt = self.attempt + 1;
        self.current_code = code;
        self.phase = CodingPhase::AwaitExec;
        let path = scratch_path(self.session_id.as_str(), self.attempt);
        let script = assemble_script(
            self.onshape_document.as_str(),
            self.current_code.as_str(),
        );
        CodingAction::Execute { path, script }
    }

    /// Takes the outcome of executing a fresh attempt. Success records
    /// the attempt, appends code and console to the scratchpad, and
    /// turns to the human for confirmation; failure opens a repair loop
    /// around the failing code.
    pub fn on_exec_result(&mut self, success: bool, output: &str) -> (a: CodingAction)
        requires
            old(self).wf(),
            old(self).phase == CodingPhase::AwaitExec,
            old(self).repair_iter == 0,
        ensures
            final(self).wf(),
            final(self).outer_iter == old(self).outer_iter,
            final(self).attempt == old(self).attempt,
            final(self).report == old(self).report,
            final(self).original_request == old(self).original_request,
            final(self).onshape_document == old(self).onshape_document,
            final(self).session_id == old(self).session_id,
            success ==> {
                &&& final(self).phase == CodingPhase::AwaitHumanCheck
                &&& final(self).scratchpad@ == old(self).scratchpad@ + old(self).current_code@
                    + cell_output_text(output@)
                &&& (final(self).completed matches Some(att) && att.code == old(
                    self,
                ).current_code && att.console@ == output@ && att.index == old(self).attempt)
                &&& (a matches CodingAction::AskHuman { question } && question@
                    == confirm_question())
            },
            !success ==> {
                &&& final(self).phase == CodingPhase::AwaitRepairCode
                &&& final(self).repair_iter == 0
                &&& final(self).repair_scratchpad@ == Seq::<char>::empty()
                &&& final(self).scratchpad == old(self).scratchpad
                &&& final(self).erroneous_code == old(self).current_code
                &&& final(self).error_output@ == output@
                &&& final(self).completed == old(self).completed
                &&& a is CallRepairModel
            },
    {
        if success {
            self.scratchpad.append(self.current_code.as_str());
            self.scratchpad.append("Cell Output:\n```\n");
            self.scratchpad.append(output);
            self.scratchpad.append("\n```");
            self.completed = Some(
                CodeAttempt {
                    code: self.current_code.clone(),
                    console: output.to_owned(),
                    index: self.attempt,
                },
            );
            self.phase = CodingPhase::AwaitHumanCheck;
            CodingAction::AskHuman {
                question: "Does this model meet your specifications?".to_owned(),
            }
        } else {
            self.repair_iter = 0;
            self.repair_scratchpad = String::new();
            self.erroneous_code = self.current_code.clone();
            self.error_output = output.to_owned();
            self.phase = CodingPhase::AwaitRepairCode;
            CodingAction::CallRepairModel
        }
    }

    /// Takes the repair model's reply: the raw reply joins the repair
    /// scratchpad, the shaped code goes out for execution under a fresh
    /// attempt path.
    pub fn on_repair_reply(&mut self, reply: &str) -> (a: CodingAction)
        requires
            old(self).wf(),
            old(self).phase == CodingPhase::AwaitRepairCode,
            old(self).repair_iter < REPAIR_MAX_ITER,
            old(self).outer_iter >= 1,
        ensures
            final(self).wf(),
            final(self).phase == CodingPhase::AwaitRepairExec,
            final(self).repair_iter == old(self).repair_iter + 1,
            final(self).attempt == old(self).attempt + 1,
            final(self).outer_iter == old(self).outer_iter,
            final(self).repair_scratchpad@ == old(self).repair_scratchpad@ + reply@,
            final(self).scratchpad == old(self).scratchpad,
            final(self).current_code@ == crate::extract::format_code_output_spec(reply@),
            final(self).erroneous_code == old(self).erroneous_code,
            final(self).error_output == old(self).error_output,
            final(self).report == old(self).report,
            final(self).original_request == old(self).original_request,
            final(self).onshape_document == old(self).onshape_document,
            final(self).session_id == old(self).session_id,
            final(self).completed == old(self).completed,
            (a matches CodingAction::Execute { path, script } && path@ == scratch_path_spec(
                old(self).session_id@,
                old(self).attempt + 1,
            ) && script@ == assembled_script_spec(
                old(self).onshape_document@,
                crate::extract::format_code_output_spec(reply@),
            )),
    {
        self.repair_scratchpad.append(reply);
        let code = match crate::extract::format_code_output(reply) {
            Ok(c) => c,
            Err(_) => {
                proof {
                    assert(false);
                }
                String::new()
            },
        };
        self.repair_iter = self.repair_iter + 1;
        self.attempt = self.attempt + 1;
        self.current_code = code;
        self.phase = CodingPhase::AwaitRepairExec;
        let path = scratch_path(self.session_id.as_str(), self.attempt);
        let script = assemble_script(
            self.onshape_document.as_str(),
            self.current_code.as_str(),
        );
        CodingAction::Execute { path, script }
    }

    /// Takes the outcome of executing a repaired attempt. Success exits
    /// the repair loop as a fresh success; failure is recorded on the
    /// repair scratchpad and retried while the repair budget lasts, and
    /// reported as fatal once it runs out.
    pub fn on_repair_exec_result(&mut self, success: bool, output: &str) -> (a: CodingAction)
        requires
            old(self).wf(),
            old(self).phase == CodingPhase::AwaitRepairExec,
        ensures
            final(self).wf(),
            final(self).outer_iter == old(self).outer_iter,
            final(self).attempt == old(self).attempt,
            final(self).repair_iter == old(self).repair_iter,
            final(self).report == old(self).report,
            final(self).original_request == old(self).original_request,
            final(self).onshape_document == old(self).onshape_document,
            final(self).session_id == old(self).session_id,
            success ==> {
                &&& final(self).phase == CodingPhase::AwaitHumanCheck
                &&& final(self).scratchpad@ == old(self).scratchpad@ + old(self).current_code@
                    + cell_output_text(output@)
                &&& (final(self).completed matches Some(att) && att.code == old(
                    self,
                ).current_code && att.console@ == output@ && att.index == old(self).attempt)
                &&& (a matches CodingAction::AskHuman { question } && question@
                    == confirm_question())
            },
            !success ==> {
                &&& final(self).scratchpad == old(self).scratchpad
                &&& final(self).completed == old(self).completed
                &&& final(self).repair_scratchpad@ == old(self).repair_scratchpad@
                    + cell_error_text(output@)
                &&& (old(self).repair_iter < REPAIR_MAX_ITER ==> final(self).phase
                    == CodingPhase::AwaitRepairCode && a is CallRepairModel)
                &&& (old(self).repair_iter >= REPAIR_MAX_ITER ==> final(self).phase
                    == CodingPhase::RepairFailed && a is RepairExhausted)
            },
    {
        if success {
            self.scratchpad.append(self.current_code.as_str());
            self.scratchpad.append("Cell Output:\n```\n");
            self.scratchpad.append(output);
            self.scratchpad.append("\n```");
            self.completed = Some(
                CodeAttempt {
                    code: self.current_code.clone(),
                    console: output.to_owned(),
                    index: self.attempt,
                },
            );
            self.phase = CodingPhase::AwaitHumanCheck;
            CodingAction::AskHuman {
                question: "Does this model meet your specifications?".to_owned(),
            }
        } else {
            self.repair_scratchpad.append("Cell Error:\n```\nexecution error: ");
            self.repair_scratchpad.append(output);
            self.repair_scratchpad.append("\n```");
            if self.repair_iter < REPAIR_MAX_ITER {
                self.phase = CodingPhase::AwaitRepairCode;
                CodingAction::CallRepairModel
            } else {
                self.phase = CodingPhase::RepairFailed;
                CodingAction::RepairExhausted
            }
        }
    }

    /// Takes the human's free-text answer and turns to the classifier
    /// to read it.
    pub fn on_human_answer(&mut self, answer: &str) -> (a: CodingAction)
        requires
            old(self).wf(),
            old(self).phase == CodingPhase::AwaitHumanCheck,
        ensures
            final(self).wf(),
            final(self).phase == CodingPhase::AwaitClassifier,
            final(self).pending_answer@ == answer@,
            final(self).scratchpad == old(self).scratchpad,
            final(self).outer_iter == old(self).outer_iter,
            final(self).repair_iter == old(self).repair_iter,
            final(self).attempt == old(self).attempt,
            final(self).completed == old(self).completed,
            final(self).session_id == old(self).session_id,
            final(self).onshape_document == old(self).onshape_document,
            (a matches CodingAction::CallClassifier { answer: x } && x@ == answer@),
    {
        self.pending_answer = answer.to_owned();
        self.phase = CodingPhase::AwaitClassifier;
        CodingAction::CallClassifier { answer: answer.to_owned() }
    }

    /// Takes the classifier's reading of the reply. Acceptance ends
    /// the session; rejection appends the human's objection to the
    /// scratchpad and starts another generation cycle — unless the
    /// outer ceiling is reached, in which case the session ends anyway
    /// with its generic completion message rather than hanging.
    pub fn on_classifier_reply(&mut self, reply: &str) -> (a: CodingAction)
        requires
            old(self).wf(),
            old(self).phase == CodingPhase::AwaitClassifier,
        ensures
            final(self).wf(),
            final(self).outer_iter == old(self).outer_iter,
            final(self).repair_iter == old(self).repair_iter,
            final(self).attempt == old(self).attempt,
            final(self).completed == old(self).completed,
            final(self).session_id == old(self).session_id,
            final(self).onshape_document == old(self).onshape_document,
            is_acceptance_spec(reply@) ==> {
                &&& final(self).phase == CodingPhase::Done
                &&& final(self).scratchpad == old(self).scratchpad
                &&& a is Finished
            },
            !is_acceptance_spec(reply@) ==> {
                &&& final(self).scratchpad@ == old(self).scratchpad@ + rejection_text(
                    old(self).pending_answer@,
                )
                &&& (old(self).outer_iter < CODING_MAX_ITER ==> final(self).phase
                    == CodingPhase::AwaitCode && a is CallCodeModel)
                &&& (old(self).outer_iter >= CODING_MAX_ITER ==> final(self).phase
                    == CodingPhase::Done && a is Finished)
            },
    {
        if is_acceptance(reply) {
            self.phase = CodingPhase::Done;
            CodingAction::Finished
        } else {
            self.scratchpad.append(
                "The user was asked asked if they are satisfied with the model above. They responded saying: \n\"",
            );
            self.scratchpad.append(self.pending_answer.as_str());
            self.scratchpad.append(
                "\"\nMake adjustments to the previous model such that it conforms with the user's requested change",
            );
            if self.outer_iter < CODING_MAX_ITER {
                self.phase = CodingPhase::AwaitCode;
                CodingAction::CallCodeModel
            } else {
                self.phase = CodingPhase::Done;
                CodingAction::Finished
            }
        }
    }
}

impl CodeError {
    /// The one-line rendering of this failure.
    pub fn describe(&self) -> (r: String)
        ensures
            match self {
                CodeError::BadFormat(m) => r@ == "code output is malformed: "@ + m@,
                CodeError::ExecutionError(m) => r@ == "execution error: "@ + m@,
                CodeError::Internal(m) => r@
                    == "an internal, unexpected error occurred while parsing Python: "@ + m@,
            },
    {
        match self {
            CodeError::BadFormat(m) => {
                let mut s = "code output is malformed: ".to_owned();
                s.append(m.as_str());
                s
            },
            CodeError::ExecutionError(m) => {
                let mut s = "execution error: ".to_owned();
                s.append(m.as_str());
                s
            },
            CodeError::Internal(m) => {
                let mut s =
                    "an internal, unexpected error occurred while parsing Python: ".to_owned();
                s.append(m.as_str());
                s
            },
        }
    }
}

} // verus!
