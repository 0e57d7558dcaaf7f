use copilot_mcp_tool::json::JsonValue;
use copilot_mcp_tool::protocol::ToolCallResult;
use copilot_mcp_tool::router::{
    validate, Dispatch, FieldKind, InputField, RegisterError, RegisteredTool, SystemBackend, ToolDescriptor, ToolKind,
    ToolRouter, INVALID_PARAMS, METHOD_NOT_FOUND,
};
use copilot_mcp_tool::syscmd::{native_kill_result, BinSystemCommand, CommandOutcome, LibSystemCommand};

fn s(t: &str) -> JsonValue {
    JsonValue::Str(t.to_string())
}

fn obj(entries: Vec<(&str, JsonValue)>) -> JsonValue {
    JsonValue::Object(entries.into_iter().map(|(k, v)| (k.to_string(), v)).collect())
}

fn field<'a>(v: &'a JsonValue, key: &str) -> Option<&'a JsonValue> {
    match v {
        JsonValue::Object(e) => e.iter().find(|(k, _)| k == key).map(|(_, v)| v),
        _ => None,
    }
}

fn native() -> ToolRouter {
    ToolRouter::new(SystemBackend::Native(LibSystemCommand {}))
}

fn success_text(d: Dispatch) -> String {
    match d {
        Dispatch::Finished(Ok(ToolCallResult::Success(JsonValue::Str(t)))) => t,
        _ => panic!("expected a text success"),
    }
}

#[test]
fn nonexistent_tool_is_method_not_found() {
    let r = native();
    match r.dispatch("nonexistent_tool", &obj(vec![])) {
        Dispatch::Finished(Err(e)) => {
            assert_eq!(e.code, METHOD_NOT_FOUND);
            assert_eq!(e.message, "Tool not found: nonexistent_tool");
        },
        _ => panic!("expected method not found"),
    }
}

#[test]
fn echo_message_hi() {
    let r = native();
    assert_eq!(success_text(r.dispatch("echo_message", &obj(vec![("message", s("hi"))]))), "Echoing: hi");
}

#[test]
fn weather_time_city_embeds_time_tool() {
    let r = native();
    let text = success_text(r.dispatch("get_weather", &obj(vec![("location", s("TimeCity"))])));
    assert_eq!(text, "Weather in TimeCity is sunny, and The current time in TimeCity is 12:00 PM. Echo: Time for TimeCity");
    let plain = success_text(r.dispatch("get_weather", &obj(vec![("location", s("Paris"))])));
    assert_eq!(plain, "The weather in Paris is sunny.");
}

#[test]
fn time_city_embeds_echo_tool() {
    let r = native();
    let text = success_text(r.dispatch("get_time_in_location", &obj(vec![("location", s("TimeCity"))])));
    assert_eq!(text, "The current time in TimeCity is 12:00 PM. Echo: Time for TimeCity");
    let echo = success_text(r.dispatch("echo", &obj(vec![("message", s("x"))])));
    assert_eq!(echo, "Echo: x");
}

#[test]
fn missing_or_mistyped_argument_is_invalid_params() {
    let r = native();
    for args in [obj(vec![]), obj(vec![("message", JsonValue::Int(1))]), JsonValue::Null] {
        match r.dispatch("echo_message", &args) {
            Dispatch::Finished(Err(e)) => assert_eq!(e.code, INVALID_PARAMS),
            _ => panic!("expected invalid params"),
        }
    }
    match r.dispatch("kill_process", &obj(vec![("pid", JsonValue::Int(-1))])) {
        Dispatch::Finished(Err(e)) => assert_eq!(e.code, INVALID_PARAMS),
        _ => panic!("expected invalid params"),
    }
}

#[test]
fn extra_arguments_are_ignored() {
    let r = native();
    let args = obj(vec![("other", JsonValue::Bool(true)), ("message", s("a"))]);
    assert_eq!(success_text(r.dispatch("echo_message", &args)), "Echoing: a");
}

#[test]
fn list_returns_each_tool_once_with_accepting_schema() {
    let r = native();
    let names: Vec<&str> = r.list().iter().map(|t| t.descriptor.name.as_str()).collect();
    assert_eq!(names, vec!["echo_message", "kill_process", "echo", "get_time_in_location", "get_weather"]);
    for t in r.list() {
        let sample = obj(
            t.descriptor
                .input_schema
                .iter()
                .map(|f| {
                    (
                        f.name.as_str(),
                        match f.kind {
                            FieldKind::Text => s(""),
                            FieldKind::Unsigned32 => JsonValue::Int(0),
                        },
                    )
                })
                .collect(),
        );
        assert!(validate(&t.descriptor.input_schema, &sample));
    }
    let listing = r.list_value();
    match field(&listing, "tools") {
        Some(JsonValue::Array(items)) => {
            assert_eq!(items.len(), 5);
            assert_eq!(field(&items[0], "name"), Some(&s("echo_message")));
            let schema = field(&items[1], "inputSchema").unwrap();
            assert_eq!(field(schema, "type"), Some(&s("object")));
            assert_eq!(field(schema, "required"), Some(&JsonValue::Array(vec![s("pid")])));
        },
        _ => panic!("expected a tools array"),
    }
}

fn tool(name: &str, field_names: &[&str], kind: ToolKind) -> RegisteredTool {
    RegisteredTool {
        descriptor: ToolDescriptor {
            name: name.to_string(),
            description: String::new(),
            input_schema: field_names.iter().map(|n| InputField { name: n.to_string(), kind: FieldKind::Text }).collect(),
        },
        kind,
    }
}

#[test]
fn register_checks_name_and_schema() {
    let mut r = native();
    assert_eq!(r.register(tool("echo", &["message"], ToolKind::Echo)), Err(RegisterError::DuplicateName));
    assert_eq!(
        r.register(tool("shout", &["message", "message"], ToolKind::Echo)),
        Err(RegisterError::DuplicateField)
    );
    assert_eq!(r.register(tool("shout", &["text"], ToolKind::Echo)), Err(RegisterError::SchemaMismatch));
    assert_eq!(r.register(tool("shout", &["message"], ToolKind::Echo)), Ok(()));
    assert_eq!(r.list().len(), 6);
    assert_eq!(success_text(r.dispatch("shout", &obj(vec![("message", s("m"))]))), "Echo: m");
}

#[test]
fn external_kill_runs_platform_command() {
    let r = ToolRouter::new(SystemBackend::External(BinSystemCommand { os: "linux".to_string() }));
    match r.dispatch("kill_process", &obj(vec![("pid", JsonValue::Int(4242))])) {
        Dispatch::Run { pid, command } => {
            assert_eq!(pid, 4242);
            assert_eq!(command.program, "kill");
            assert_eq!(command.args, vec!["-9".to_string(), "4242".to_string()]);
        },
        _ => panic!("expected a command to run"),
    }
    let w = BinSystemCommand { os: "windows".to_string() };
    let c = w.kill_command(7).unwrap();
    assert_eq!(c.program, "taskkill");
    assert_eq!(c.args, vec!["/PID".to_string(), "7".to_string(), "/F".to_string()]);
}

#[test]
fn external_kill_unsupported_os() {
    let r = ToolRouter::new(SystemBackend::External(BinSystemCommand { os: "plan9".to_string() }));
    match r.dispatch("kill_process", &obj(vec![("pid", JsonValue::Int(1))])) {
        Dispatch::Finished(Ok(ToolCallResult::Failure(v))) => {
            assert_eq!(field(&v, "error"), Some(&s("Unsupported operating system: plan9")));
        },
        _ => panic!("expected an unsupported-OS failure"),
    }
}

#[test]
fn external_kill_outcomes() {
    let ok = BinSystemCommand::finish_kill(
        12,
        CommandOutcome::Completed { success: true, stdout: String::new(), stderr: String::new() },
    );
    match ok {
        ToolCallResult::Success(v) => assert_eq!(field(&v, "message"), Some(&s("Process 12 killed successfully."))),
        _ => panic!("expected success"),
    }
    let not_started = BinSystemCommand::finish_kill(12, CommandOutcome::NotStarted { reason: "no kill".to_string() });
    match not_started {
        ToolCallResult::Failure(v) => {
            assert_eq!(field(&v, "error"), Some(&s("Failed to execute kill command for PID 12: no kill")))
        },
        _ => panic!("expected failure"),
    }
}

#[test]
fn native_kill_of_missing_process_is_structured_error() {
    let r = native();
    match r.dispatch("kill_process", &obj(vec![("pid", JsonValue::Int(4294967295))])) {
        Dispatch::Finished(Ok(ToolCallResult::Failure(v))) => {
            assert_eq!(field(&v, "error"), Some(&s("No process with PID 4294967295 was found.")));
        },
        _ => panic!("expected a structured failure"),
    }
}

#[test]
fn native_kill_result_cases() {
    assert!(matches!(native_kill_result(5, Some(true)), ToolCallResult::Success(_)));
    match native_kill_result(5, Some(false)) {
        ToolCallResult::Failure(v) => {
            assert_eq!(field(&v, "error"), Some(&s("Failed to send the kill signal to process 5.")))
        },
        _ => panic!("expected failure"),
    }
}

#[test]
fn tool_call_result_json() {
    let v = ToolCallResult::Failure(s("e")).to_json();
    assert_eq!(field(&v, "isError"), Some(&JsonValue::Bool(true)));
    assert_eq!(field(&v, "structuredContent"), Some(&s("e")));
    assert!(!ToolCallResult::Success(JsonValue::Null).is_error());
}

#[test]
fn invalid_params_name_the_failing_field() {
    let r = native();
    match r.dispatch("echo_message", &obj(vec![("message", JsonValue::Int(1))])) {
        Dispatch::Finished(Err(e)) => assert_eq!(
            e.message,
            "Invalid params for tool echo_message: field `message` is missing or is not a string"
        ),
        _ => panic!("expected invalid params"),
    }
    match r.dispatch("kill_process", &obj(vec![])) {
        Dispatch::Finished(Err(e)) => assert_eq!(
            e.message,
            "Invalid params for tool kill_process: field `pid` is missing or is not an unsigned 32-bit integer"
        ),
        _ => panic!("expected invalid params"),
    }
    match r.dispatch("get_weather", &JsonValue::Null) {
        Dispatch::Finished(Err(e)) => {
            assert_eq!(e.message, "Invalid params for tool get_weather: the arguments are not an object")
        },
        _ => panic!("expected invalid params"),
    }
}
