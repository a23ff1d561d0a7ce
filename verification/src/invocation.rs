//! The tolerant grammar of tool invocations embedded in free-text model
//! replies: a `command:` label naming the tool, an input section of
//! labelled fields, and an `output:` field the loop fills in.
use vstd::prelude::*;

use crate::text::find_first;
use crate::text::find_pat;
use crate::text::lemma_find_pat;
use crate::text::str_eq_str;
use crate::text::trim;
use crate::text::trimmed;

verus! {

/// A structured command recognised inside a model reply.
pub struct ToolInvocation {
    /// The tool's name, as written after the `command:` label.
    pub command: String,
    /// The labelled input fields the loop read for this tool.
    pub input: Vec<(String, String)>,
    /// The output slot, empty until the loop fills it in.
    pub output: String,
}

/// What one model reply turned out to hold.
pub enum ReplyParse {
    /// No command label at all: the reply is free-form thought.
    NoInvocation,
    /// A well-formed invocation of a recognised tool.
    Invocation(ToolInvocation),
    /// A command label is present but the invocation is unusable; holds
    /// the diagnosis echoed back to the model.
    Malformed(String),
}

pub open spec fn command_label() -> Seq<char> {
    "command:"@
}

pub open spec fn question_label() -> Seq<char> {
    "question:"@
}

pub open spec fn content_label() -> Seq<char> {
    "content:"@
}

/// The name of the terminal report tool.
pub open spec fn report_command() -> Seq<char> {
    "Report"@
}

/// The name of the human round-trip tool.
pub open spec fn query_command() -> Seq<char> {
    "User Query"@
}

/// Position just past the end of the line that position `j` sits on.
pub open spec fn line_end_at(s: Seq<char>, j: int) -> int {
    let e = find_pat(s, "\n"@, j);
    if e < 0 {
        s.len() as int
    } else {
        e
    }
}

/// The trimmed text between the end of a label occurrence at `pos` and
/// the end of its line.
pub open spec fn value_after(s: Seq<char>, pos: int, label_len: int) -> Seq<char> {
    let start = pos + label_len;
    trimmed(s.subrange(start, line_end_at(s, start)))
}

/// The reply holds a command label.
pub open spec fn has_command(s: Seq<char>) -> bool {
    find_pat(s, command_label(), 0) >= 0
}

/// The command name the reply gives: the rest of the first `command:`
/// line, trimmed.
pub open spec fn command_name_of(s: Seq<char>) -> Seq<char> {
    value_after(s, find_pat(s, command_label(), 0), command_label().len() as int)
}

pub open spec fn has_question(s: Seq<char>) -> bool {
    find_pat(s, question_label(), 0) >= 0
}

/// The question the reply asks: the rest of the first `question:` line,
/// trimmed.
pub open spec fn question_of(s: Seq<char>) -> Seq<char> {
    value_after(s, find_pat(s, question_label(), 0), question_label().len() as int)
}

pub open spec fn has_content(s: Seq<char>) -> bool {
    find_pat(s, content_label(), 0) >= 0
}

/// A usable invocation of the terminal report tool.
pub open spec fn is_report_reply(s: Seq<char>) -> bool {
    has_command(s) && command_name_of(s) == report_command() && has_content(s)
}

/// A usable invocation of the human round-trip tool.
pub open spec fn is_query_reply(s: Seq<char>) -> bool {
    has_command(s) && command_name_of(s) == query_command() && has_question(s)
}

/// A command label is present but the invocation cannot be used.
pub open spec fn is_malformed_reply(s: Seq<char>) -> bool {
    has_command(s) && !is_report_reply(s) && !is_query_reply(s)
}

/// The diagnosis echoed back to the model for a malformed invocation.
pub open spec fn malformed_detail_of(s: Seq<char>) -> Seq<char> {
    if command_name_of(s) == report_command() {
        "the Report invocation has no content field"@
    } else if command_name_of(s) == query_command() {
        "the User Query invocation has no question field"@
    } else {
        "unrecognized command"@
    }
}

/// Position just past the end of the line that position `j` sits on.
fn line_end(s: &str, j: usize) -> (r: usize)
    requires
        j <= s@.len(),
    ensures
        r == line_end_at(s@, j as int),
        j <= r <= s@.len(),
{
    proof {
        reveal_strlit("\n");
        lemma_find_pat(s@, "\n"@, j as int);
    }
    match find_first(s, j, "\n") {
        Some(e) => e,
        None => s.unicode_len(),
    }
}

/// The trimmed remainder of the line that starts right after position
/// `start`.
fn value_from(s: &str, start: usize, ghost_label_pos: Ghost<int>, ghost_label_len: Ghost<int>) -> (r:
    String)
    requires
        ghost_label_pos@ + ghost_label_len@ == start,
        0 <= start <= s@.len(),
    ensures
        r@ == value_after(s@, ghost_label_pos@, ghost_label_len@),
{
    let e = line_end(s, start);
    let piece = s.substring_char(start, e);
    trim(piece)
}

/// Reads one reply for a recognised tool invocation. A reply without a
/// command label is free-form thought; a reply whose command names the
/// report tool with a `content:` section, or the user-query tool with a
/// `question:` field, is a usable invocation with its output slot still
/// empty; any other labelled reply is malformed, with the diagnosis
/// saying why.
pub fn parse_invocation(s: &str) -> (r: ReplyParse)
    ensures
        match r {
            ReplyParse::NoInvocation => !has_command(s@),
            ReplyParse::Invocation(inv) => {
                &&& is_report_reply(s@) || is_query_reply(s@)
                &&& inv.command@ == command_name_of(s@)
                &&& inv.output@ == Seq::<char>::empty()
                &&& is_query_reply(s@) ==> {
                    &&& inv.input@.len() == 1
                    &&& inv.input@[0].0@ == "question"@
                    &&& inv.input@[0].1@ == question_of(s@)
                }
                &&& is_report_reply(s@) ==> inv.input@.len() == 0
            },
            ReplyParse::Malformed(d) => {
                &&& is_malformed_reply(s@)
                &&& d@ == malformed_detail_of(s@)
            },
        },
{
    proof {
        reveal_strlit("command:");
        reveal_strlit("question:");
        reveal_strlit("content:");
        reveal_strlit("Report");
        reveal_strlit("User Query");
        reveal_strlit("");
        assert(""@ =~= Seq::<char>::empty());
    }
    let n = s.unicode_len();
    let cp = match find_first(s, 0, "command:") {
        None => {
            return ReplyParse::NoInvocation;
        },
        Some(cp) => cp,
    };
    assert(cp + 8 <= n);
    let name = value_from(s, cp + 8, Ghost(cp as int), Ghost(8));
    if str_eq_str(name.as_str(), "Report") {
        if find_first(s, 0, "content:").is_some() {
            ReplyParse::Invocation(
                ToolInvocation {
                    command: name,
                    input: Vec::new(),
                    output: "".to_owned(),
                },
            )
        } else {
            ReplyParse::Malformed("the Report invocation has no content field".to_owned())
        }
    } else if str_eq_str(name.as_str(), "User Query") {
        match find_first(s, 0, "question:") {
            Some(qp) => {
                assert(qp + 9 <= n);
                let q = value_from(s, qp + 9, Ghost(qp as int), Ghost(9));
                let mut input: Vec<(String, String)> = Vec::new();
                input.push(("question".to_owned(), q));
                ReplyParse::Invocation(
                    ToolInvocation { command: name, input, output: "".to_owned() },
                )
            },
            None => {
                ReplyParse::Malformed(
                    "the User Query invocation has no question field".to_owned(),
                )
            },
        }
    } else {
        ReplyParse::Malformed("unrecognized command".to_owned())
    }
}

/// The serialized form of a filled-in invocation, as it is appended to
/// the scratchpad: the command line, the input section, and the output
/// line carrying the tool's (or the human's) literal answer.
pub open spec fn rendered_fields(input: Seq<(Seq<char>, Seq<char>)>, i: int) -> Seq<char>
    decreases input.len() + 1 - i,
{
    if i < 0 || i >= input.len() {
        Seq::empty()
    } else {
        "  "@ + input[i].0 + ": "@ + input[i].1 + "\n"@ + rendered_fields(input, i + 1)
    }
}

pub open spec fn rendered_invocation(
    command: Seq<char>,
    input: Seq<(Seq<char>, Seq<char>)>,
    output: Seq<char>,
) -> Seq<char> {
    "command: "@ + command + "\ninput:\n"@ + rendered_fields(input, 0) + "output: "@ + output
        + "\n"@
}

fn render_fields(input: &Vec<(String, String)>, i: usize) -> (r: String)
    requires
        i <= input.len(),
    ensures
        r@ == rendered_fields(input.deep_view(), i as int),
    decreases input.len() - i,
{
    if i == input.len() {
        String::new()
    } else {
        let mut out = "  ".to_owned();
        out.append(input[i].0.as_str());
        out.append(": ");
        out.append(input[i].1.as_str());
        out.append("\n");
        let rest = render_fields(input, i + 1);
        out.append(rest.as_str());
        assert(input.deep_view()[i as int].0 == input@[i as int].0@);
        assert(input.deep_view()[i as int].1 == input@[i as int].1@);
        out
    }
}

/// Serializes a filled-in invocation back to its textual turn.
pub fn render_invocation(inv: &ToolInvocation) -> (r: String)
    ensures
        r@ == rendered_invocation(inv.command@, inv.input.deep_view(), inv.output@),
{
    let mut out = "command: ".to_owned();
    out.append(inv.command.as_str());
    out.append("\ninput:\n");
    let fields = render_fields(&inv.input, 0);
    out.append(fields.as_str());
    out.append("output: ");
    out.append(inv.output.as_str());
    out.append("\n");
    out
}

} // verus!
