//! The tools an agent may invoke from free text: submitting the final
//! report, recording an intermediate thought, and asking the user a
//! question.
use vstd::prelude::*;

verus! {

/// The terminal tool: the model submits its final report through it.
pub struct Report {}

impl Report {
    pub fn new() -> Report {
        Report {  }
    }
}

/// Input of the report tool.
pub struct ReportInput {
    pub content: String,
}

/// Output of the report tool; it produces nothing.
pub struct ReportOutput {
    pub none: (),
}

/// The scratchpad tool: the model records an intermediate thought.
pub struct RecordThought {}

impl RecordThought {
    pub fn new() -> RecordThought {
        RecordThought {  }
    }
}

/// Input of the thought tool.
pub struct RecordThoughtInput {
    pub thought: String,
}

/// Output of the thought tool; it produces nothing.
pub struct RecordThoughtOutput {
    none: (),
}

/// The human round-trip tool: the model asks the user one question.
pub struct UserQuery {}

impl UserQuery {
    pub fn new() -> UserQuery {
        UserQuery {  }
    }
}

/// Input of the user-query tool.
pub struct UserQueryInput {
    pub question: String,
}

/// Output of the user-query tool: the user's literal answer.
pub struct UserQueryOutput {
    pub result: String,
}

impl From<String> for ReportInput {
    fn from(value: String) -> ReportInput {
        ReportInput { content: value }
    }
}

impl vstd::std_specs::convert::FromSpecImpl<String> for ReportInput {
    open spec fn obeys_from_spec() -> bool {
        true
    }

    open spec fn from_spec(value: String) -> ReportInput {
        ReportInput { content: value }
    }
}

impl From<&str> for ReportInput {
    fn from(value: &str) -> ReportInput {
        ReportInput { content: value.to_owned() }
    }
}

impl vstd::std_specs::convert::FromSpecImpl<&str> for ReportInput {
    open spec fn obeys_from_spec() -> bool {
        false
    }

    open spec fn from_spec(value: &str) -> ReportInput {
        arbitrary()
    }
}

impl From<String> for RecordThoughtInput {
    fn from(value: String) -> RecordThoughtInput {
        RecordThoughtInput { thought: value }
    }
}

impl vstd::std_specs::convert::FromSpecImpl<String> for RecordThoughtInput {
    open spec fn obeys_from_spec() -> bool {
        true
    }

    open spec fn from_spec(value: String) -> RecordThoughtInput {
        RecordThoughtInput { thought: value }
    }
}

impl From<&str> for RecordThoughtInput {
    fn from(value: &str) -> RecordThoughtInput {
        RecordThoughtInput { thought: value.to_owned() }
    }
}

impl vstd::std_specs::convert::FromSpecImpl<&str> for RecordThoughtInput {
    open spec fn obeys_from_spec() -> bool {
        false
    }

    open spec fn from_spec(value: &str) -> RecordThoughtInput {
        arbitrary()
    }
}

impl From<String> for UserQueryInput {
    fn from(value: String) -> UserQueryInput {
        UserQueryInput { question: value }
    }
}

impl vstd::std_specs::convert::FromSpecImpl<String> for UserQueryInput {
    open spec fn obeys_from_spec() -> bool {
        true
    }

    open spec fn from_spec(value: String) -> UserQueryInput {
        UserQueryInput { question: value }
    }
}

impl From<&str> for UserQueryInput {
    fn from(value: &str) -> UserQueryInput {
        UserQueryInput { question: value.to_owned() }
    }
}

impl vstd::std_specs::convert::FromSpecImpl<&str> for UserQueryInput {
    open spec fn obeys_from_spec() -> bool {
        false
    }

    open spec fn from_spec(value: &str) -> UserQueryInput {
        arbitrary()
    }
}

impl From<String> for UserQueryOutput {
    fn from(value: String) -> UserQueryOutput {
        UserQueryOutput { result: value }
    }
}

impl vstd::std_specs::convert::FromSpecImpl<String> for UserQueryOutput {
    open spec fn obeys_from_spec() -> bool {
        true
    }

    open spec fn from_spec(value: String) -> UserQueryOutput {
        UserQueryOutput { result: value }
    }
}

} // verus!
