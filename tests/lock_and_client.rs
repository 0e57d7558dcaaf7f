use copilot_mcp_tool::cli::{parse_command, CliCommand, CliError};
use copilot_mcp_tool::client::{
    call_arguments, call_tool_request, initialize_request, initialized_notification, list_tools_request,
    response_result, split_argument, ClientError,
};
use copilot_mcp_tool::json::JsonValue;
use copilot_mcp_tool::lock::{
    lock_status, server_is_running, start_action, stop_outcome, stop_server, LockError, LockRecord, StartAction,
    StopOutcome,
};
use copilot_mcp_tool::protocol::{CallError, RequestId, RpcMessage};

fn s(t: &str) -> JsonValue {
    JsonValue::Str(t.to_string())
}

fn field<'a>(v: &'a JsonValue, key: &str) -> Option<&'a JsonValue> {
    match v {
        JsonValue::Object(e) => e.iter().find(|(k, _)| k == key).map(|(_, v)| v),
        _ => None,
    }
}

fn strings(v: &[&str]) -> Vec<String> {
    v.iter().map(|x| x.to_string()).collect()
}

#[test]
fn lock_record_json_round_trip() {
    let r = LockRecord { pid: 12345, port: 51723 };
    let v = r.to_json();
    assert_eq!(field(&v, "pid"), Some(&JsonValue::Int(12345)));
    assert_eq!(field(&v, "port"), Some(&JsonValue::Int(51723)));
    assert_eq!(LockRecord::from_json(&v), Ok(r));
}

#[test]
fn lock_record_parse_errors() {
    let bad_port = JsonValue::Object(vec![
        ("pid".to_string(), JsonValue::Int(1)),
        ("port".to_string(), JsonValue::Int(70000)),
    ]);
    assert_eq!(LockRecord::from_json(&bad_port), Err(LockError::ParseError));
    assert_eq!(LockRecord::from_json(&JsonValue::Null), Err(LockError::ParseError));
    let missing = JsonValue::Object(vec![("pid".to_string(), JsonValue::Int(1))]);
    assert_eq!(LockRecord::from_json(&missing), Err(LockError::ParseError));
}

#[test]
fn lock_status_follows_liveness() {
    let r = LockRecord { pid: 7, port: 8 };
    assert_eq!(lock_status(Some(r), true), Some(r));
    assert_eq!(lock_status(Some(r), false), None);
    assert_eq!(lock_status(None, true), None);
}

#[test]
fn stale_lock_is_not_running() {
    let stale = LockRecord { pid: u32::MAX, port: 4000 };
    assert_eq!(server_is_running(Ok(stale)), None);
    assert_eq!(server_is_running(Err(LockError::NotFound)), None);
}

#[test]
fn start_sees_running_server() {
    let r = LockRecord { pid: 3, port: 9 };
    assert_eq!(start_action(Some(r)), StartAction::AlreadyRunning(r));
    assert_eq!(start_action(None), StartAction::Launch);
}

#[test]
fn client_requests() {
    match initialize_request() {
        RpcMessage::Request { id: RequestId::Number(1), method, params } => {
            assert_eq!(method, "initialize");
            assert_eq!(field(&params, "protocolVersion"), Some(&s("2024-11-05")));
        },
        _ => panic!("expected a request"),
    }
    match initialized_notification() {
        RpcMessage::Notification { method, params: None } => assert_eq!(method, "notifications/initialized"),
        _ => panic!("expected a notification"),
    }
    match list_tools_request() {
        RpcMessage::Request { method, params: JsonValue::Object(e), .. } => {
            assert_eq!(method, "tools/list");
            assert!(e.is_empty());
        },
        _ => panic!("expected a request"),
    }
    match call_tool_request("echo", JsonValue::Null) {
        RpcMessage::Request { method, params, .. } => {
            assert_eq!(method, "tools/call");
            assert_eq!(field(&params, "name"), Some(&s("echo")));
            assert_eq!(field(&params, "arguments"), Some(&JsonValue::Null));
        },
        _ => panic!("expected a request"),
    }
}

#[test]
fn response_results() {
    let ok = RpcMessage::Response { id: RequestId::Number(1), outcome: Ok(JsonValue::Int(2)) };
    assert!(matches!(response_result(ok), Ok(JsonValue::Int(2))));
    let err = RpcMessage::Response {
        id: RequestId::Number(1),
        outcome: Err(CallError { code: -32602, message: "bad".to_string(), data: None }),
    };
    match response_result(err) {
        Err(ClientError::Server(e)) => assert_eq!(e.message, "bad"),
        _ => panic!("expected the server error"),
    }
    let n = RpcMessage::Notification { method: "x".to_string(), params: None };
    assert!(matches!(response_result(n), Err(ClientError::UnexpectedMessage)));
}

#[test]
fn arguments_split_at_first_equals() {
    assert_eq!(split_argument("message=a=b"), Some(("message".to_string(), "a=b".to_string())));
    assert_eq!(split_argument("=v"), Some((String::new(), "v".to_string())));
    assert_eq!(split_argument("novalue"), None);
}

#[test]
fn call_arguments_later_value_wins() {
    let v = call_arguments(&strings(&["message=hello world", "pid=3", "message=again"])).unwrap();
    match v {
        JsonValue::Object(e) => {
            assert_eq!(e.len(), 2);
            assert_eq!(e[0], ("message".to_string(), s("again")));
            assert_eq!(e[1], ("pid".to_string(), s("3")));
        },
        _ => panic!("expected an object"),
    }
    assert_eq!(call_arguments(&strings(&["a=1", "oops", "c"])), Err("oops".to_string()));
}

#[test]
fn command_line() {
    assert!(matches!(parse_command(&strings(&["tool"])), Ok(CliCommand::Status)));
    assert!(matches!(parse_command(&strings(&["tool", "start"])), Ok(CliCommand::Start)));
    assert!(matches!(parse_command(&strings(&["tool", "stop"])), Ok(CliCommand::Stop)));
    assert!(matches!(parse_command(&strings(&["tool", "list"])), Ok(CliCommand::List)));
    assert!(matches!(parse_command(&strings(&["tool", "run-server-internal"])), Ok(CliCommand::RunServer)));
    assert!(matches!(parse_command(&strings(&["tool", "bogus"])), Ok(CliCommand::Usage)));
    assert!(matches!(parse_command(&strings(&["tool", "call"])), Err(CliError::MissingToolName)));
    match parse_command(&strings(&["tool", "call", "echo_message", "message=hi"])) {
        Ok(CliCommand::Call { tool, arguments }) => {
            assert_eq!(tool, "echo_message");
            assert_eq!(arguments, strings(&["message=hi"]));
        },
        _ => panic!("expected a call"),
    }
}

#[test]
fn stop_outcomes() {
    let r = LockRecord { pid: 11, port: 12 };
    assert_eq!(stop_outcome(None, true, Some(true)), StopOutcome::NotRunning);
    assert_eq!(stop_outcome(Some(r), false, None), StopOutcome::StaleLock(r));
    assert_eq!(stop_outcome(Some(r), true, Some(true)), StopOutcome::Stopped(r));
    assert_eq!(stop_outcome(Some(r), true, Some(false)), StopOutcome::KillFailed(r));
    assert_eq!(stop_outcome(Some(r), true, None), StopOutcome::KillFailed(r));
}

#[test]
fn stop_of_stale_lock_removes_it_without_signal() {
    let stale = LockRecord { pid: u32::MAX, port: 4000 };
    assert_eq!(stop_server(Ok(stale)), StopOutcome::StaleLock(stale));
    assert_eq!(stop_server(Err(LockError::NotFound)), StopOutcome::NotRunning);
}
