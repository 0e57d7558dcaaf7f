use copilot_mcp_tool::json::JsonValue;
use copilot_mcp_tool::protocol::{frame, split_frame, CallError, ProtocolError, RequestId, RpcMessage};

fn s(t: &str) -> JsonValue {
    JsonValue::Str(t.to_string())
}

fn obj(entries: Vec<(&str, JsonValue)>) -> JsonValue {
    JsonValue::Object(entries.into_iter().map(|(k, v)| (k.to_string(), v)).collect())
}

fn field<'a>(v: &'a JsonValue, key: &str) -> Option<&'a JsonValue> {
    match v {
        JsonValue::Object(e) => e.iter().find(|(k, _)| k == key).map(|(_, v)| v),
        _ => None,
    }
}

#[test]
fn request_round_trip() {
    let m = RpcMessage::Request {
        id: RequestId::Number(7),
        method: "tools/call".to_string(),
        params: obj(vec![("name", s("echo_message")), ("arguments", obj(vec![("message", s("hi"))]))]),
    };
    let v = m.to_json();
    assert_eq!(field(&v, "jsonrpc"), Some(&s("2.0")));
    assert_eq!(field(&v, "id"), Some(&JsonValue::Int(7)));
    match RpcMessage::from_json(v) {
        Ok(RpcMessage::Request { id: RequestId::Number(7), method, params }) => {
            assert_eq!(method, "tools/call");
            assert_eq!(field(&params, "name"), Some(&s("echo_message")));
        },
        _ => panic!("expected the request back"),
    }
}

#[test]
fn notification_round_trip_without_params() {
    let m = RpcMessage::Notification { method: "notifications/initialized".to_string(), params: None };
    let v = m.to_json();
    assert_eq!(field(&v, "params"), None);
    match RpcMessage::from_json(v) {
        Ok(RpcMessage::Notification { method, params: None }) => assert_eq!(method, "notifications/initialized"),
        _ => panic!("expected the notification back"),
    }
}

#[test]
fn notification_round_trip_with_params() {
    let m = RpcMessage::Notification { method: "progress".to_string(), params: Some(JsonValue::Int(3)) };
    match RpcMessage::from_json(m.to_json()) {
        Ok(RpcMessage::Notification { method, params: Some(JsonValue::Int(3)) }) => assert_eq!(method, "progress"),
        _ => panic!("expected the notification back"),
    }
}

#[test]
fn success_response_round_trip() {
    let m = RpcMessage::Response { id: RequestId::Text("a".to_string()), outcome: Ok(JsonValue::Null) };
    match RpcMessage::from_json(m.to_json()) {
        Ok(RpcMessage::Response { id: RequestId::Text(id), outcome: Ok(JsonValue::Null) }) => assert_eq!(id, "a"),
        _ => panic!("expected the response back"),
    }
}

#[test]
fn error_response_round_trip() {
    let e = CallError { code: -32601, message: "Tool not found: x".to_string(), data: Some(s("detail")) };
    let m = RpcMessage::Response { id: RequestId::Number(1), outcome: Err(e) };
    match RpcMessage::from_json(m.to_json()) {
        Ok(RpcMessage::Response { id: RequestId::Number(1), outcome: Err(e) }) => {
            assert_eq!(e.code, -32601);
            assert_eq!(e.message, "Tool not found: x");
            assert_eq!(e.data, Some(s("detail")));
        },
        _ => panic!("expected the error response back"),
    }
}

#[test]
fn decode_rejects_non_object() {
    assert!(matches!(RpcMessage::from_json(JsonValue::Int(1)), Err(ProtocolError::NotAnObject)));
}

#[test]
fn decode_rejects_unknown_shape() {
    let v = obj(vec![("jsonrpc", s("2.0"))]);
    assert!(matches!(RpcMessage::from_json(v), Err(ProtocolError::UnrecognisedShape)));
    let both = obj(vec![("id", JsonValue::Int(1)), ("result", JsonValue::Null), ("error", JsonValue::Null)]);
    assert!(matches!(RpcMessage::from_json(both), Err(ProtocolError::UnrecognisedShape)));
}

#[test]
fn decode_rejects_bad_fields() {
    let v = obj(vec![("id", JsonValue::Bool(true)), ("method", s("m"))]);
    assert!(matches!(RpcMessage::from_json(v), Err(ProtocolError::InvalidField)));
    let v = obj(vec![("method", JsonValue::Int(2))]);
    assert!(matches!(RpcMessage::from_json(v), Err(ProtocolError::InvalidField)));
    let v = obj(vec![("id", JsonValue::Int(1)), ("error", obj(vec![("code", s("x"))]))]);
    assert!(matches!(RpcMessage::from_json(v), Err(ProtocolError::InvalidField)));
}

#[test]
fn request_without_params_reads_null() {
    let v = obj(vec![("id", JsonValue::Int(4)), ("method", s("tools/list"))]);
    match RpcMessage::from_json(v) {
        Ok(RpcMessage::Request { params: JsonValue::Null, .. }) => {},
        _ => panic!("expected a request with null params"),
    }
}

#[test]
fn frame_and_split() {
    let f = frame("{\"a\":1}");
    assert_eq!(f, "{\"a\":1}\n");
    let buf = format!("{}rest", f);
    let (line, rest) = split_frame(&buf).unwrap();
    assert_eq!(line, "{\"a\":1}");
    assert_eq!(rest, "rest");
    assert!(split_frame("no newline yet").is_none());
}
