use polybrain::bridge::BackgroundRequest;
use polybrain::tools::RecordThoughtInput;
use polybrain::tools::ReportInput;
use polybrain::tools::UserQueryInput;
use polybrain::tools::UserQueryOutput;
use polybrain::bridge::BackgroundResponse;
use polybrain::bridge::DriverEvent;
use polybrain::bridge::TransportPlan;
use polybrain::bridge::conclude_request;
use polybrain::bridge::driver_continues;
use polybrain::bridge::plan_transport;
use polybrain::errors::AuthenticationError;
use polybrain::errors::CodeError;
use polybrain::errors::InternalError;
use polybrain::errors::PolybrainError;
use polybrain::errors::RequestError;
use polybrain::pipeline::Pipeline;
use polybrain::pipeline::PipelineStage;
use polybrain::session::expect_ack;
use polybrain::session::expect_initial_input;
use polybrain::session::expect_session_start;
use polybrain::session::expect_user_answer;
use polybrain::session::fresh_session_id;
use polybrain::session::make_session_start_response;
use polybrain::stages::LlmOutcome;
use polybrain::stages::classify_llm_outcome;
use polybrain::stages::math_notes;
use polybrain::stages::prepare_status_message;
use polybrain::types::ServerResponse;
use polybrain::types::ServerResponseType;
use polybrain::types::SessionStartRequest;
use polybrain::types::SessionStartResponse;
use polybrain::types::UserDocument;
use polybrain::types::UserDocumentCredentials;
use polybrain::types::UserPromptInitial;
use polybrain::types::credential_cyphertexts;

fn all_requests() -> Vec<BackgroundRequest> {
    vec![
        BackgroundRequest::GetSessionStart,
        BackgroundRequest::RespondSessionStart(SessionStartResponse {
            session_id: "s".to_string(),
        }),
        BackgroundRequest::GetInitialInput,
        BackgroundRequest::UserQuery("q".to_string()),
        BackgroundRequest::SendOutput(ServerResponse {
            response_type: ServerResponseType::Info,
            content: "i".to_string(),
        }),
        BackgroundRequest::End(ServerResponse {
            response_type: ServerResponseType::Final,
            content: "f".to_string(),
        }),
    ]
}

#[test]
fn send_on_closed_transport_is_a_terminal_socket_error() {
    // whatever the request, a closed transport yields the terminal
    // socket error and never a response
    for req in all_requests() {
        match conclude_request(&req, DriverEvent::TransportClosed) {
            Err(PolybrainError::SocketError(m)) => assert_eq!(m, "Connection closed"),
            _ => panic!("expected the terminal socket error"),
        }
    }
}

#[test]
fn responses_correlate_with_their_requests() {
    let req = BackgroundRequest::GetSessionStart;
    let ev = DriverEvent::GotSessionStart(SessionStartRequest {
        user_token: "t".to_string(),
        onshape_document_id: "d".to_string(),
    });
    match conclude_request(&req, ev) {
        Ok(BackgroundResponse::SessionStart(s)) => assert_eq!(s.onshape_document_id, "d"),
        _ => panic!("expected the session start to come back"),
    }
    let req = BackgroundRequest::UserQuery("how big?".to_string());
    match conclude_request(&req, DriverEvent::GotUserAnswer("very".to_string())) {
        Ok(BackgroundResponse::UserResponse(a)) => assert_eq!(a, "very"),
        _ => panic!("expected the user's answer to come back"),
    }
    // a mismatched event is a contract violation, not a response
    let req = BackgroundRequest::GetInitialInput;
    match conclude_request(&req, DriverEvent::GotUserAnswer("stray".to_string())) {
        Err(PolybrainError::Unreachable) => {},
        _ => panic!("expected a correlation violation"),
    }
}

#[test]
fn corrupt_and_nontext_frames_are_socket_errors() {
    let req = BackgroundRequest::GetSessionStart;
    match conclude_request(&req, DriverEvent::CorruptedFrame) {
        Err(PolybrainError::SocketError(m)) => {
            assert_eq!(m, "Corrupted message in websocket")
        },
        _ => panic!("expected a socket error"),
    }
    match conclude_request(&req, DriverEvent::NonTextFrame) {
        Err(PolybrainError::SocketError(m)) => assert_eq!(m, "Message should be type text"),
        _ => panic!("expected a socket error"),
    }
    match conclude_request(&req, DriverEvent::BadPayload("bad json".to_string())) {
        Err(PolybrainError::BadRequest(m)) => assert_eq!(m, "bad json"),
        _ => panic!("expected a bad-request error"),
    }
}

#[test]
fn user_query_plans_a_query_frame() {
    match plan_transport(BackgroundRequest::UserQuery("what color?".to_string())) {
        TransportPlan::WriteThenRead(m) => {
            assert!(matches!(m.response_type, ServerResponseType::Query));
            assert_eq!(m.content, "what color?");
        },
        _ => panic!("expected a write-then-read plan"),
    }
    assert!(matches!(
        plan_transport(BackgroundRequest::GetSessionStart),
        TransportPlan::Read
    ));
}

#[test]
fn driver_stops_only_on_end() {
    for req in all_requests() {
        let stops = matches!(req, BackgroundRequest::End(_));
        assert_eq!(driver_continues(&req), !stops);
    }
}

#[test]
fn session_ids_take_the_hyphenated_form() {
    let id = fresh_session_id();
    assert_eq!(id.len(), 36);
    let resp = make_session_start_response();
    assert_eq!(resp.session_id.len(), 36);
}

#[test]
fn handshake_expectations_enforce_correlation() {
    let ok = expect_session_start(BackgroundResponse::SessionStart(SessionStartRequest {
        user_token: "t".to_string(),
        onshape_document_id: "d".to_string(),
    }));
    assert_eq!(ok.unwrap().user_token, "t");
    assert!(matches!(
        expect_session_start(BackgroundResponse::Ack),
        Err(PolybrainError::Unreachable)
    ));
    assert!(expect_ack(BackgroundResponse::Ack).is_ok());
    assert!(matches!(
        expect_ack(BackgroundResponse::UserResponse("x".to_string())),
        Err(PolybrainError::Unreachable)
    ));
    let inp = expect_initial_input(BackgroundResponse::InitialInput(UserPromptInitial {
        contents: "a box".to_string(),
    }));
    assert_eq!(inp.unwrap().contents, "a box");
    let ans = expect_user_answer(BackgroundResponse::UserResponse("blue".to_string()));
    assert_eq!(ans.unwrap(), "blue");
}

#[test]
fn gateway_outcomes_surface_uniformly() {
    assert_eq!(
        classify_llm_outcome(LlmOutcome::Reply("hi".to_string())).unwrap(),
        "hi"
    );
    match classify_llm_outcome(LlmOutcome::RunFailure("rate limit".to_string())) {
        Err(PolybrainError::InternalError(m)) => {
            assert_eq!(m, "An error occurred when invoking LLM: rate limit")
        },
        _ => panic!("expected an internal error"),
    }
    match classify_llm_outcome(LlmOutcome::ConvertFailure) {
        Err(PolybrainError::InternalError(m)) => {
            assert_eq!(m, "Error converting LLM response to immediate")
        },
        _ => panic!("expected an internal error"),
    }
    match classify_llm_outcome(LlmOutcome::NoOutput) {
        Err(PolybrainError::InternalError(m)) => {
            assert_eq!(m, "LLM responded with no output")
        },
        _ => panic!("expected an internal error"),
    }
}

#[test]
fn status_message_renames_the_tool() {
    let msg = prepare_status_message("Assistant: I will sketch it in OnPy first.");
    assert!(matches!(msg.response_type, ServerResponseType::Info));
    assert_eq!(msg.content, "I will sketch it in OnShape first.");
}

#[test]
fn math_stage_yields_its_placeholder() {
    assert_eq!(math_notes(), "No math notes");
}

#[test]
fn pipeline_runs_its_fixed_order() {
    let mut p = Pipeline::new("a box".to_string(), "doc".to_string(), "sess".to_string());
    assert_eq!(p.stage, PipelineStage::Clarify);
    p.complete_clarify("a small box".to_string());
    assert_eq!(p.stage, PipelineStage::Math);
    p.complete_math(math_notes());
    assert_eq!(p.stage, PipelineStage::Plan);
    p.complete_plan("sketch then extrude".to_string());
    assert_eq!(p.stage, PipelineStage::Summarize);
    p.complete_summary();
    assert_eq!(p.stage, PipelineStage::Code);
    let closing = p.complete_code();
    assert_eq!(p.stage, PipelineStage::Finish);
    assert!(matches!(closing.response_type, ServerResponseType::Final));
    assert_eq!(closing.content, "Your model has been created!");
    assert_eq!(p.parsed_prompt.as_deref(), Some("a small box"));
    assert_eq!(p.outline.as_deref(), Some("sketch then extrude"));
}

#[test]
fn credentials_require_all_three_fields() {
    let full = UserDocument {
        user_id: "u".to_string(),
        email: "e".to_string(),
        credentials: UserDocumentCredentials {
            onshape_access: Some("a".to_string()),
            onshape_secret: Some("s".to_string()),
            open_ai_api: Some("o".to_string()),
        },
    };
    assert_eq!(
        credential_cyphertexts(&full).unwrap(),
        ("o".to_string(), "a".to_string(), "s".to_string())
    );
    let partial = UserDocument {
        user_id: "u".to_string(),
        email: "e".to_string(),
        credentials: UserDocumentCredentials {
            onshape_access: Some("a".to_string()),
            onshape_secret: None,
            open_ai_api: Some("o".to_string()),
        },
    };
    assert_eq!(
        credential_cyphertexts(&partial).unwrap_err(),
        "User is missing some credentials"
    );
}

#[test]
fn error_records_carry_their_wire_tags() {
    assert_eq!(AuthenticationError::name(), "AuthenticationError");
    assert_eq!(RequestError::name(), "RequestError");
    assert_eq!(InternalError::name(), "InternalError");
}

#[test]
fn tool_inputs_convert_from_plain_text() {
    assert_eq!(ReportInput::from("a report".to_string()).content, "a report");
    assert_eq!(ReportInput::from("borrowed").content, "borrowed");
    assert_eq!(RecordThoughtInput::from("a thought".to_string()).thought, "a thought");
    assert_eq!(RecordThoughtInput::from("hm").thought, "hm");
    assert_eq!(UserQueryInput::from("how wide?".to_string()).question, "how wide?");
    assert_eq!(UserQueryInput::from("how tall?").question, "how tall?");
    assert_eq!(UserQueryOutput::from("three".to_string()).result, "three");
}

#[test]
fn code_errors_describe_themselves() {
    assert_eq!(
        CodeError::ExecutionError("NameError".to_string()).describe(),
        "execution error: NameError"
    );
    assert_eq!(
        CodeError::BadFormat("no fence".to_string()).describe(),
        "code output is malformed: no fence"
    );
    assert_eq!(
        CodeError::Internal("oops".to_string()).describe(),
        "an internal, unexpected error occurred while parsing Python: oops"
    );
}
