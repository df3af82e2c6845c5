use ifm_ruta::errors::{ToolError, ValidationError};
use ifm_ruta::feedback_tool::{Effect, FeedbackRun, InteractiveFeedbackTool, Stage, StepOutcome};
use ifm_ruta::json::{to_json_text, JsonValue};
use ifm_ruta::protocol::{MCPResponse, INTERNAL_ERROR, INVALID_PARAMS, METHOD_NOT_FOUND, PARSE_ERROR};
use ifm_ruta::server::{Dispatch, MCPServer, RegisteredTool};

fn to_value(v: &serde_json::Value) -> JsonValue {
    match v {
        serde_json::Value::Null => JsonValue::Null,
        serde_json::Value::Bool(b) => JsonValue::Bool(*b),
        serde_json::Value::Number(n) => JsonValue::Number(n.to_string()),
        serde_json::Value::String(s) => JsonValue::Str(s.clone()),
        serde_json::Value::Array(items) => JsonValue::Array(items.iter().map(to_value).collect()),
        serde_json::Value::Object(members) => {
            JsonValue::Object(members.iter().map(|(k, v)| (k.clone(), to_value(v))).collect())
        }
    }
}

fn line(text: &str) -> Option<JsonValue> {
    serde_json::from_str::<serde_json::Value>(text).ok().map(|v| to_value(&v))
}

fn server() -> MCPServer {
    let mut s = MCPServer::new();
    s.register_tool(RegisteredTool::InteractiveFeedback(InteractiveFeedbackTool::new()));
    s
}

fn reply(d: Dispatch) -> MCPResponse {
    match d {
        Dispatch::Reply(r) => r,
        _ => panic!("expected a reply"),
    }
}

fn error_of(r: &MCPResponse) -> (i32, String) {
    let e = r.error.as_ref().expect("an error reply");
    assert!(r.result.is_none());
    (e.code, e.message.clone())
}

fn start_call(s: &MCPServer, args: &str) -> (JsonValue, FeedbackRun, Effect) {
    let text = format!(
        r#"{{"jsonrpc":"2.0","id":7,"method":"tools/call","params":{{"name":"interactive_feedback","arguments":{}}}}}"#,
        args
    );
    match s.handle_message(line(&text)) {
        Dispatch::RunFeedback { id, run, effect } => (id, run, effect),
        _ => panic!("expected the tool to start"),
    }
}

const GOOD_ARGS: &str =
    r#"{"projectDirectory":"/tmp/p","prompt":"Done?","previousUserRequest":"Fix it"}"#;

#[test]
fn initialize_reply_line() {
    let s = server();
    let r = reply(s.handle_message(line(r#"{"jsonrpc":"2.0","id":1,"method":"initialize","params":{}}"#)));
    assert_eq!(
        r.to_line(),
        r#"{"jsonrpc":"2.0","id":1,"result":{"protocolVersion":"2024-11-05","capabilities":{"tools":{"listChanged":true}},"serverInfo":{"name":"interactive-feedback-mcp","version":"1.0.0"}}}"#
    );
}

#[test]
fn reply_keeps_string_id() {
    let s = server();
    let r = reply(s.handle_message(line(r#"{"jsonrpc":"2.0","id":"abc","method":"tools/list"}"#)));
    assert!(r.to_line().starts_with(r#"{"jsonrpc":"2.0","id":"abc","result":"#));
}

#[test]
fn notifications_get_no_reply() {
    let s = server();
    for m in ["notifications/initialized", "initialize", "tools/list", "tools/call", "nope"] {
        let text = format!(r#"{{"jsonrpc":"2.0","method":"{}"}}"#, m);
        assert!(matches!(s.handle_message(line(&text)), Dispatch::Silent));
    }
    let null_id = r#"{"jsonrpc":"2.0","id":null,"method":"initialize"}"#;
    assert!(matches!(s.handle_message(line(null_id)), Dispatch::Silent));
}

#[test]
fn unknown_method_is_method_not_found() {
    let s = server();
    let r = reply(s.handle_message(line(r#"{"jsonrpc":"2.0","id":3,"method":"resources/list"}"#)));
    assert_eq!(error_of(&r), (METHOD_NOT_FOUND, "Method not found".to_string()));
    assert_eq!(
        r.to_line(),
        r#"{"jsonrpc":"2.0","id":3,"error":{"code":-32601,"message":"Method not found"}}"#
    );
}

#[test]
fn tools_list_offers_feedback_tool() {
    let s = server();
    let r = reply(s.handle_message(line(r#"{"jsonrpc":"2.0","id":2,"method":"tools/list"}"#)));
    let text = r.to_line();
    assert!(text.contains(r#""tools":[{"name":"interactive_feedback""#));
    assert!(text.contains(r#""required":["projectDirectory","prompt","previousUserRequest"]"#));
    assert!(text.contains(r#""prompt":{"type":"string""#));
}

#[test]
fn registering_twice_keeps_one_tool() {
    let s = {
        let mut s = server();
        s.register_tool(RegisteredTool::InteractiveFeedback(InteractiveFeedbackTool::new()));
        s
    };
    assert_eq!(s.tools.tools.len(), 1);
    assert_eq!(s.tools.find("interactive_feedback"), Some(0));
    assert_eq!(s.tools.find("other"), None);
}

#[test]
fn call_without_prompt_is_an_error() {
    let s = server();
    let text = r#"{"jsonrpc":"2.0","id":4,"method":"tools/call","params":{"name":"interactive_feedback","arguments":{"projectDirectory":"/p","previousUserRequest":"x"}}}"#;
    let r = reply(s.handle_message(line(text)));
    assert_eq!(
        error_of(&r),
        (INVALID_PARAMS, "Validation error: Missing required field: prompt".to_string())
    );
}

#[test]
fn call_without_arguments_is_an_error() {
    let s = server();
    let text = r#"{"jsonrpc":"2.0","id":4,"method":"tools/call","params":{"name":"interactive_feedback"}}"#;
    let r = reply(s.handle_message(line(text)));
    assert_eq!(
        error_of(&r),
        (INVALID_PARAMS, "Validation error: Missing required field: projectDirectory".to_string())
    );
}

#[test]
fn call_with_wrong_type_is_an_error() {
    let s = server();
    let text = r#"{"jsonrpc":"2.0","id":4,"method":"tools/call","params":{"name":"interactive_feedback","arguments":{"projectDirectory":"/p","prompt":5,"previousUserRequest":"x"}}}"#;
    let r = reply(s.handle_message(line(text)));
    assert_eq!(
        error_of(&r),
        (INVALID_PARAMS, "Validation error: Invalid field type: prompt expected string".to_string())
    );
}

#[test]
fn call_with_non_object_arguments_is_an_error() {
    let s = server();
    let text = r#"{"jsonrpc":"2.0","id":4,"method":"tools/call","params":{"name":"interactive_feedback","arguments":"x"}}"#;
    let r = reply(s.handle_message(line(text)));
    assert_eq!(
        error_of(&r),
        (INVALID_PARAMS, "Validation error: Invalid input: Input must be an object".to_string())
    );
}

#[test]
fn call_without_tool_name_is_an_error() {
    let s = server();
    let text = r#"{"jsonrpc":"2.0","id":5,"method":"tools/call","params":{"arguments":{}}}"#;
    let r = reply(s.handle_message(line(text)));
    assert_eq!(error_of(&r), (INVALID_PARAMS, "Missing tool name".to_string()));
    let r = reply(s.handle_message(line(r#"{"jsonrpc":"2.0","id":5,"method":"tools/call"}"#)));
    assert_eq!(error_of(&r), (INVALID_PARAMS, "Missing tool name".to_string()));
}

#[test]
fn call_of_unknown_tool_is_an_error() {
    let s = server();
    let text = r#"{"jsonrpc":"2.0","id":6,"method":"tools/call","params":{"name":"shell","arguments":{}}}"#;
    let r = reply(s.handle_message(line(text)));
    assert_eq!(error_of(&r), (INVALID_PARAMS, "Tool not found: shell".to_string()));
}

#[test]
fn feedback_round_trip() {
    let s = server();
    let (id, mut run, effect) = start_call(&s, GOOD_ARGS);
    match effect {
        Effect::PrepareStorage { project_directory } => assert_eq!(project_directory, "/tmp/p"),
        _ => panic!("storage comes first"),
    }
    match run.advance(StepOutcome::Completed) {
        Effect::SaveSession { session } => {
            assert!(session.session_id.starts_with("cursor-chat-"));
            assert_eq!(session.session_id.chars().count(), 20);
            assert_eq!(session.project_directory, "/tmp/p");
            assert_eq!(session.messages.len(), 2);
            assert_eq!(session.messages[0].role, "user");
            assert_eq!(session.messages[0].content, "Fix it");
            assert_eq!(session.messages[1].role, "assistant");
            assert_eq!(session.messages[1].content, "Done?");
        }
        _ => panic!("the session is saved next"),
    }
    assert!(matches!(run.advance(StepOutcome::Completed), Effect::LocateCollector));
    match run.advance(StepOutcome::Located { program: "/bin/collector".to_string() }) {
        Effect::RunCollector { program, project_directory, prompt } => {
            assert_eq!(program, "/bin/collector");
            assert_eq!(project_directory, "/tmp/p");
            assert_eq!(prompt, "Done?");
        }
        _ => panic!("the collector runs next"),
    }
    let out = StepOutcome::Exited {
        success: true,
        stdout: "looks good\n".to_string(),
        stderr: String::new(),
    };
    let result = match run.advance(out) {
        Effect::Finish(r) => r,
        _ => panic!("the call is over"),
    };
    assert!(matches!(run.stage, Stage::Finished));
    let payload = match &result {
        Ok(p) => to_json_text(p),
        Err(_) => panic!("the call succeeded"),
    };
    assert!(payload.contains(r#""interactive_feedback":"looks good""#));
    assert!(payload.starts_with(r#"{"command_logs":"","#));
    assert!(payload.contains(r#""role":"user","content":"Fix it""#));
    let r = s.finish_tool_call(id, result);
    let text = r.to_line();
    assert!(text.starts_with(r#"{"jsonrpc":"2.0","id":7,"result":{"content":[{"type":"text","text":"{\"command_logs\":\"\",\"interactive_feedback\":\"looks good\""#));
}

#[test]
fn empty_feedback_is_valid() {
    let s = server();
    let (_, mut run, _) = start_call(&s, GOOD_ARGS);
    run.advance(StepOutcome::Completed);
    run.advance(StepOutcome::Completed);
    run.advance(StepOutcome::Located { program: "c".to_string() });
    let out = StepOutcome::Exited { success: true, stdout: "  \n".to_string(), stderr: String::new() };
    match run.advance(out) {
        Effect::Finish(Ok(p)) => assert!(to_json_text(&p).contains(r#""interactive_feedback":"""#)),
        _ => panic!("empty output is no error"),
    }
}

#[test]
fn empty_previous_request_is_not_stored() {
    let s = server();
    let args = r#"{"projectDirectory":"/p","prompt":"Q","previousUserRequest":""}"#;
    let (_, mut run, _) = start_call(&s, args);
    match run.advance(StepOutcome::Completed) {
        Effect::SaveSession { session } => {
            assert_eq!(session.messages.len(), 1);
            assert_eq!(session.messages[0].role, "assistant");
        }
        _ => panic!("the session is saved next"),
    }
}

#[test]
fn collector_failure_reports_stderr() {
    let s = server();
    let (id, mut run, _) = start_call(&s, GOOD_ARGS);
    run.advance(StepOutcome::Completed);
    run.advance(StepOutcome::Completed);
    run.advance(StepOutcome::Located { program: "c".to_string() });
    let out = StepOutcome::Exited { success: false, stdout: String::new(), stderr: "boom".to_string() };
    let result = match run.advance(out) {
        Effect::Finish(r) => r,
        _ => panic!("the call is over"),
    };
    let r = s.finish_tool_call(id, result);
    let (code, message) = error_of(&r);
    assert_eq!(code, INTERNAL_ERROR);
    assert_eq!(message, "Execution error: egui GUI failed: boom");
    assert!(message.contains("boom"));
}

#[test]
fn missing_collector_is_an_error() {
    let s = server();
    let (_, mut run, _) = start_call(&s, GOOD_ARGS);
    run.advance(StepOutcome::Completed);
    run.advance(StepOutcome::Completed);
    match run.advance(StepOutcome::Missing) {
        Effect::Finish(Err(ToolError::ExecutionError { message })) => {
            assert!(message.contains("ifm-ruta-egui"))
        }
        _ => panic!("a missing collector ends the call"),
    }
}

#[test]
fn storage_failure_short_circuits() {
    let s = server();
    let (_, mut run, _) = start_call(&s, GOOD_ARGS);
    match run.advance(StepOutcome::Failed { cause: "disk full".to_string() }) {
        Effect::Finish(Err(ToolError::ExecutionError { message })) => assert_eq!(message, "disk full"),
        _ => panic!("a storage failure ends the call"),
    }
    assert!(matches!(run.stage, Stage::Finished));
    match run.advance(StepOutcome::Completed) {
        Effect::Finish(Err(ToolError::InternalError { .. })) => {}
        _ => panic!("a finished call takes no more steps"),
    }
}

#[test]
fn session_save_failure_names_cause() {
    let s = server();
    let (_, mut run, _) = start_call(&s, GOOD_ARGS);
    run.advance(StepOutcome::Completed);
    match run.advance(StepOutcome::Failed { cause: "denied".to_string() }) {
        Effect::Finish(Err(e)) => assert_eq!(e.to_text(), "Execution error: Failed to save conversation: denied"),
        _ => panic!("a save failure ends the call"),
    }
}

#[test]
fn spawn_failure_names_cause() {
    let s = server();
    let (_, mut run, _) = start_call(&s, GOOD_ARGS);
    run.advance(StepOutcome::Completed);
    run.advance(StepOutcome::Completed);
    run.advance(StepOutcome::Located { program: "c".to_string() });
    match run.advance(StepOutcome::Failed { cause: "no such file".to_string() }) {
        Effect::Finish(Err(e)) => assert_eq!(e.to_text(), "Execution error: Failed to run egui GUI: no such file"),
        _ => panic!("a spawn failure ends the call"),
    }
}

#[test]
fn malformed_line_then_initialize() {
    let s = server();
    assert!(matches!(s.handle_message(line("not json")), Dispatch::Dropped));
    let r = reply(s.handle_message(line(r#"{"jsonrpc":"2.0","id":1,"method":"initialize","params":{}}"#)));
    assert!(r.result.is_some());
    assert!(r.to_line().contains(r#""id":1,"result":{"protocolVersion":"2024-11-05""#));
}

#[test]
fn malformed_request_with_id_is_parse_error() {
    let s = server();
    let r = reply(s.handle_message(line(r#"{"jsonrpc":"2.0","id":9,"method":5}"#)));
    assert_eq!(error_of(&r), (PARSE_ERROR, "Parse error".to_string()));
    assert_eq!(
        r.to_line(),
        r#"{"jsonrpc":"2.0","id":9,"error":{"code":-32700,"message":"Parse error"}}"#
    );
    assert!(matches!(s.handle_message(line(r#"{"method":"initialize"}"#)), Dispatch::Dropped));
    assert!(matches!(s.handle_message(line("[1,2]")), Dispatch::Dropped));
}

#[test]
fn tool_error_texts() {
    let v = ToolError::ValidationError(ValidationError::OutOfRange { field: "n".to_string() });
    assert_eq!(v.to_text(), "Validation error: Value out of range: n");
    assert_eq!(ToolError::TimeoutError.to_text(), "Timeout error: tool execution timed out");
    let p = ToolError::PermissionError { message: "no".to_string() };
    assert_eq!(p.to_text(), "Permission error: no");
    let i = ToolError::InternalError { message: "bad".to_string() };
    assert_eq!(i.to_text(), "Internal error: bad");
    let s = server();
    let r = s.finish_tool_call(JsonValue::Number("1".to_string()), Err(v));
    assert_eq!(error_of(&r).0, INVALID_PARAMS);
}
