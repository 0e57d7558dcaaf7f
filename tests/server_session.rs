use copilot_mcp_tool::json::JsonValue;
use copilot_mcp_tool::protocol::{RequestId, RpcMessage};
use copilot_mcp_tool::router::{SystemBackend, INVALID_PARAMS, METHOD_NOT_FOUND};
use copilot_mcp_tool::server::{read_call_params, Action, ConnectionEvent, ConnectionState};
use copilot_mcp_tool::syscmd::{BinSystemCommand, CommandOutcome, LibSystemCommand};
use copilot_mcp_tool::EchoServerTool;

fn s(t: &str) -> JsonValue {
    JsonValue::Str(t.to_string())
}

fn obj(entries: Vec<(&str, JsonValue)>) -> JsonValue {
    JsonValue::Object(entries.into_iter().map(|(k, v)| (k.to_string(), v)).collect())
}

fn field<'a>(v: &'a JsonValue, key: &str) -> Option<&'a JsonValue> {
    match v {
        JsonValue::Object(e) => e.iter().find(|(k, _)| k == key).map(|(_, v)| v),
        _ => None,
    }
}

fn request(id: i64, method: &str, params: JsonValue) -> ConnectionEvent {
    ConnectionEvent::Received(RpcMessage::Request { id: RequestId::Number(id), method: method.to_string(), params })
}

fn reply_result(a: Action) -> JsonValue {
    match a {
        Action::Reply(RpcMessage::Response { outcome: Ok(v), .. }) => v,
        _ => panic!("expected a success reply"),
    }
}

#[test]
fn handshake_reaches_ready() {
    let server = EchoServerTool::new(SystemBackend::Native(LibSystemCommand {}));
    let (st, a) = server.handle(ConnectionState::Accepted, request(1, "initialize", obj(vec![])));
    assert_eq!(st, ConnectionState::Handshaking);
    let result = reply_result(a);
    assert_eq!(field(&result, "protocolVersion"), Some(&s("2024-11-05")));
    let (st, a) = server.handle(
        st,
        ConnectionEvent::Received(RpcMessage::Notification {
            method: "notifications/initialized".to_string(),
            params: None,
        }),
    );
    assert_eq!(st, ConnectionState::Ready);
    assert!(matches!(a, Action::Nothing));
    let (st, a) = server.handle(st, ConnectionEvent::EndOfStream);
    assert_eq!(st, ConnectionState::Closed);
    assert!(matches!(a, Action::Close));
}

#[test]
fn malformed_line_closes() {
    let server = EchoServerTool::new(SystemBackend::Native(LibSystemCommand {}));
    let (st, a) = server.handle(ConnectionState::Ready, ConnectionEvent::Malformed);
    assert_eq!(st, ConnectionState::Closed);
    assert!(matches!(a, Action::Close));
}

#[test]
fn tools_call_and_unknown_method() {
    let server = EchoServerTool::new(SystemBackend::Native(LibSystemCommand {}));
    let params = obj(vec![("name", s("echo_message")), ("arguments", obj(vec![("message", s("hi"))]))]);
    let (_, a) = server.handle(ConnectionState::Ready, request(2, "tools/call", params));
    let result = reply_result(a);
    assert_eq!(field(&result, "structuredContent"), Some(&s("Echoing: hi")));
    assert_eq!(field(&result, "isError"), Some(&JsonValue::Bool(false)));
    let (_, a) = server.handle(ConnectionState::Ready, request(3, "resources/list", obj(vec![])));
    match a {
        Action::Reply(RpcMessage::Response { id: RequestId::Number(3), outcome: Err(e) }) => {
            assert_eq!(e.code, METHOD_NOT_FOUND)
        },
        _ => panic!("expected method not found"),
    }
    let (_, a) = server.handle(ConnectionState::Ready, request(4, "tools/call", obj(vec![("name", JsonValue::Int(1))])));
    match a {
        Action::Reply(RpcMessage::Response { outcome: Err(e), .. }) => assert_eq!(e.code, INVALID_PARAMS),
        _ => panic!("expected invalid params"),
    }
}

#[test]
fn tools_list_reply() {
    let server = EchoServerTool::new(SystemBackend::Native(LibSystemCommand {}));
    let (_, a) = server.handle(ConnectionState::Ready, request(5, "tools/list", obj(vec![])));
    match field(&reply_result(a), "tools") {
        Some(JsonValue::Array(items)) => assert_eq!(items.len(), 5),
        _ => panic!("expected the tool list"),
    }
}

#[test]
fn kill_missing_pid_then_connection_still_usable() {
    let server = EchoServerTool::new(SystemBackend::External(BinSystemCommand { os: "linux".to_string() }));
    let params = obj(vec![("name", s("kill_process")), ("arguments", obj(vec![("pid", JsonValue::Int(999999))]))]);
    let (st, a) = server.handle(ConnectionState::Ready, request(6, "tools/call", params));
    assert_eq!(st, ConnectionState::Ready);
    let (id, pid) = match a {
        Action::Run { id, pid, command } => {
            assert_eq!(command.program, "kill");
            (id, pid)
        },
        _ => panic!("expected a command to run"),
    };
    let stderr = "kill: (999999) - No such process\n".to_string();
    let reply = server.finish_kill_call(
        id,
        pid,
        CommandOutcome::Completed { success: false, stdout: String::new(), stderr: stderr.clone() },
    );
    let result = match reply {
        RpcMessage::Response { id: RequestId::Number(6), outcome: Ok(v) } => v,
        _ => panic!("expected a response to request 6"),
    };
    assert_eq!(field(&result, "isError"), Some(&JsonValue::Bool(true)));
    let payload = field(&result, "structuredContent").unwrap();
    assert_eq!(
        field(payload, "error"),
        Some(&s("Failed to kill process 999999: kill: (999999) - No such process\n"))
    );
    assert_eq!(field(payload, "stderr"), Some(&JsonValue::Str(stderr)));
    let params = obj(vec![("name", s("echo_message")), ("arguments", obj(vec![("message", s("still here"))]))]);
    let (st, a) = server.handle(st, request(7, "tools/call", params));
    assert_eq!(st, ConnectionState::Ready);
    assert_eq!(field(&reply_result(a), "structuredContent"), Some(&s("Echoing: still here")));
}

#[test]
fn call_params_default_arguments() {
    match read_call_params(obj(vec![("name", s("echo"))])) {
        Some((name, JsonValue::Object(a))) => {
            assert_eq!(name, "echo");
            assert!(a.is_empty());
        },
        _ => panic!("expected empty arguments"),
    }
    assert!(read_call_params(obj(vec![("name", s("echo")), ("arguments", JsonValue::Int(1))])).is_none());
}
