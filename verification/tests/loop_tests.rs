use polybrain::clarify::ClarifyAction;
use polybrain::clarify::ClarifySession;
use polybrain::clarify::build_conversation_history;
use polybrain::engine::CodingAction;
use polybrain::engine::CodingPhase;
use polybrain::engine::CodingSession;
use polybrain::engine::assemble_script;
use polybrain::engine::is_acceptance;
use polybrain::engine::render_decimal;
use polybrain::engine::scratch_path;
use polybrain::invocation::ReplyParse;
use polybrain::invocation::parse_invocation;
use polybrain::invocation::render_invocation;
use polybrain::planner::PlannerLoop;
use polybrain::planner::PlannerStep;
use polybrain::types::ServerResponseType;

fn new_coding_session() -> CodingSession {
    CodingSession::new(
        "outline".to_string(),
        "a box".to_string(),
        "doc123".to_string(),
        "sess".to_string(),
    )
}

#[test]
fn ask_user_turn_substitutes_answer_verbatim() {
    // the model asks a question; the human's literal answer lands in
    // the output field and the full turn joins the scratchpad
    let mut planner = PlannerLoop::new();
    let reply = "command: User Query\ninput:\n  question: \"What height?\"\noutput:";
    let step = planner.step_model_reply(reply);
    match step {
        PlannerStep::NeedHuman { question } => assert_eq!(question, "What height?"),
        _ => panic!("expected a human round trip"),
    }
    let step2 = planner.on_human_answer("12 inches");
    assert!(matches!(step2, PlannerStep::Continue));
    assert_eq!(
        planner.scratchpad,
        "command: User Query\ninput:\n  question: \"What height?\"\noutput: 12 inches\n"
    );
}

#[test]
fn malformed_replies_never_kill_the_stage() {
    // seven hopeless replies: each appends a corrective turn, and the
    // seventh ends the stage with the placeholder instead of hanging
    let mut planner = PlannerLoop::new();
    for i in 0..7usize {
        let step = planner.step_model_reply("command: Nonsense\nwhatever");
        assert_eq!(planner.iterations, i + 1);
        if i < 6 {
            assert!(matches!(step, PlannerStep::Continue));
        } else {
            match step {
                PlannerStep::Done { report } => assert_eq!(report, "temp"),
                _ => panic!("expected the placeholder result at the ceiling"),
            }
        }
    }
    assert!(planner.scratchpad.contains("YAML ERROR"));
    assert!(planner.scratchpad.contains("unrecognized command"));
}

#[test]
fn report_reply_ends_the_stage() {
    let mut planner = PlannerLoop::new();
    let reply = "command: Report\ninput:\n  content: |\n    Extrude a cube.";
    match planner.step_model_reply(reply) {
        PlannerStep::Done { report } => assert_eq!(report, "\n    Extrude a cube."),
        _ => panic!("expected the stage to finish"),
    }
}

#[test]
fn thought_reply_joins_scratchpad() {
    let mut planner = PlannerLoop::new();
    let step = planner.step_model_reply("Let me think about the base first.");
    assert!(matches!(step, PlannerStep::Continue));
    assert_eq!(planner.scratchpad, "\nLet me think about the base first.");
}

#[test]
fn parse_tolerates_surrounding_prose() {
    let reply = "I think I should ask.\ncommand: User Query\ninput:\n  question: Which way?\nThat should help.";
    match parse_invocation(reply) {
        ReplyParse::Invocation(inv) => {
            assert_eq!(inv.command, "User Query");
            assert_eq!(inv.input[0].1, "Which way?");
        },
        _ => panic!("expected an invocation despite the prose"),
    }
}

#[test]
fn question_on_last_turn_still_reaches_the_human() {
    let mut planner = PlannerLoop::new();
    for _ in 0..6 {
        planner.step_model_reply("thinking aloud");
    }
    let step = planner.step_model_reply("command: User Query\ninput:\n  question: Color?\n");
    assert!(matches!(step, PlannerStep::NeedHuman { .. }));
    match planner.on_human_answer("red") {
        PlannerStep::Done { report } => assert_eq!(report, "temp"),
        _ => panic!("expected the placeholder after the ceiling"),
    }
    assert!(planner.scratchpad.contains("output: red"));
}

#[test]
fn parse_recognises_the_three_shapes() {
    match parse_invocation("command: User Query\ninput:\n  question: How tall?\n") {
        ReplyParse::Invocation(inv) => {
            assert_eq!(inv.command, "User Query");
            assert_eq!(inv.input.len(), 1);
            assert_eq!(inv.input[0].0, "question");
            assert_eq!(inv.input[0].1, "How tall?");
            assert_eq!(inv.output, "");
        },
        _ => panic!("expected an invocation"),
    }
    assert!(matches!(parse_invocation("just prose"), ReplyParse::NoInvocation));
    match parse_invocation("command: User Query\nno question field") {
        ReplyParse::Malformed(d) => {
            assert_eq!(d, "the User Query invocation has no question field")
        },
        _ => panic!("expected a malformed reply"),
    }
    match parse_invocation("command: Report\nno content") {
        ReplyParse::Malformed(d) => {
            assert_eq!(d, "the Report invocation has no content field")
        },
        _ => panic!("expected a malformed reply"),
    }
}

#[test]
fn render_fills_every_section() {
    let mut inv = match parse_invocation("command: User Query\ninput:\n  question: Size?\n") {
        ReplyParse::Invocation(inv) => inv,
        _ => panic!("expected an invocation"),
    };
    inv.output = "Large".to_string();
    assert_eq!(
        render_invocation(&inv),
        "command: User Query\ninput:\n  question: Size?\noutput: Large\n"
    );
}

#[test]
fn failed_attempt_is_repaired_and_second_attempt_survives() {
    // attempt 1 exits non-zero; attempt 2 succeeds: the session keeps
    // attempt 2's code and console, not attempt 1's
    let mut s = new_coding_session();
    let a1 = s.on_code_reply("```py\nprint(x)\n```");
    match a1 {
        CodingAction::Execute { path, script } => {
            assert_eq!(path, "scratch-sess-1.py");
            assert!(script.ends_with("print(x)"));
        },
        _ => panic!("expected an execution"),
    }
    let a2 = s.on_exec_result(false, "NameError: x is not defined");
    assert!(matches!(a2, CodingAction::CallRepairModel));
    assert_eq!(s.error_output, "NameError: x is not defined");
    let a3 = s.on_repair_reply("```py\nx = 1\nprint(x)\n```");
    match a3 {
        CodingAction::Execute { path, .. } => assert_eq!(path, "scratch-sess-2.py"),
        _ => panic!("expected an execution"),
    }
    let a4 = s.on_repair_exec_result(true, "1\n");
    match a4 {
        CodingAction::AskHuman { question } => {
            assert_eq!(question, "Does this model meet your specifications?")
        },
        _ => panic!("expected the confirmation question"),
    }
    let done = s.completed.as_ref().expect("an attempt should have completed");
    assert_eq!(done.code, "x = 1\nprint(x)");
    assert_eq!(done.console, "1\n");
    assert_eq!(done.index, 2);
}

#[test]
fn repair_budget_exhaustion_is_fatal() {
    let mut s = new_coding_session();
    s.on_code_reply("```py\nboom()\n```");
    let mut a = s.on_exec_result(false, "boom");
    for _ in 0..10 {
        assert!(matches!(a, CodingAction::CallRepairModel));
        s.on_repair_reply("```py\nboom()\n```");
        a = s.on_repair_exec_result(false, "boom again");
    }
    assert!(matches!(a, CodingAction::RepairExhausted));
    assert_eq!(s.phase, CodingPhase::RepairFailed);
}

#[test]
fn outer_ceiling_ends_the_session_gracefully() {
    // ten generate-confirm cycles, every one rejected: the session
    // finishes rather than hanging
    let mut s = new_coding_session();
    let mut last = CodingAction::CallCodeModel;
    for i in 0..10 {
        s.on_code_reply("```py\nprint('model')\n```");
        s.on_exec_result(true, "ok");
        s.on_human_answer("no, make it taller");
        last = s.on_classifier_reply("No");
        if i < 9 {
            assert!(matches!(last, CodingAction::CallCodeModel));
        }
    }
    assert!(matches!(last, CodingAction::Finished));
    assert_eq!(s.phase, CodingPhase::Done);
    assert_eq!(s.outer_iter, 10);
}

#[test]
fn acceptance_finishes_the_session() {
    let mut s = new_coding_session();
    s.on_code_reply("```py\nprint('model')\n```");
    s.on_exec_result(true, "ok");
    s.on_human_answer("looks great");
    let a = s.on_classifier_reply("Yes");
    assert!(matches!(a, CodingAction::Finished));
    assert_eq!(s.phase, CodingPhase::Done);
}

#[test]
fn acceptance_check_ignores_letter_case() {
    assert!(is_acceptance("Yes"));
    assert!(is_acceptance("YES, do it"));
    assert!(is_acceptance("oh yes"));
    assert!(!is_acceptance("No"));
    assert!(!is_acceptance("absolutely not"));
}

#[test]
fn scratch_paths_are_segregated_by_session_and_attempt() {
    let p = scratch_path("alpha", 1);
    assert_eq!(p, "scratch-alpha-1.py");
    assert_ne!(scratch_path("alpha", 1), scratch_path("alpha", 2));
    assert_ne!(scratch_path("alpha", 1), scratch_path("beta", 1));
    assert_ne!(scratch_path("a-1", 2), scratch_path("a", 12));
}

#[test]
fn decimal_rendering_is_plain() {
    assert_eq!(render_decimal(0), "0");
    assert_eq!(render_decimal(42), "42");
    assert_eq!(render_decimal(1005), "1005");
}

#[test]
fn script_carries_the_document_preamble() {
    let script = assemble_script("docXYZ", "partstudio.add_sketch()");
    assert_eq!(
        script,
        "import onpy\npartstudio = onpy.get_document('docXYZ').get_partstudio()\npartstudio.wipe()\npartstudio.add_sketch()"
    );
}

#[test]
fn clarify_question_flow_records_the_dialogue() {
    let mut c = ClarifySession::new("make me a box".to_string());
    let a = c.on_model_reply("Assistant: What size\nof box?");
    match a {
        ClarifyAction::AskHuman { question } => assert_eq!(question, "What size\nof box?"),
        _ => panic!("expected a question to the user"),
    }
    let a2 = c.on_human_answer("a small one".to_string());
    assert!(matches!(a2, ClarifyAction::CallModel));
    let history = build_conversation_history(&c.messages);
    assert_eq!(
        history,
        "User: make me a box\nAssistant: What size of box?\nUser: a small one\n"
    );
}

#[test]
fn clarify_release_sends_info_and_summarises() {
    let mut c = ClarifySession::new("make me a box".to_string());
    let a = c.on_model_reply("Sounds good. Begin!");
    match a {
        ClarifyAction::SendInfo { message } => {
            assert_eq!(message.response_type, ServerResponseType::Info);
            assert_eq!(message.content, "Sounds good. ");
        },
        _ => panic!("expected the release message"),
    }
    let a2 = c.on_info_ack();
    assert!(matches!(a2, ClarifyAction::CallSummarizer));
    let a3 = c.on_summary_reply("Assistant: A small box.");
    match a3 {
        ClarifyAction::Finished { summary } => assert_eq!(summary, "A small box."),
        _ => panic!("expected the stage to finish"),
    }
    assert_eq!(c.result.as_deref(), Some("A small box."));
}
