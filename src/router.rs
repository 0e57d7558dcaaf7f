//! The tool registry: descriptors with input schemas, registration, listing and dispatch.

use vstd::prelude::*;

use std::sync::Arc;

use crate::json::{
    entries_view, entry, field, first_index, get_field, items_view, json_str, lemma_entries_view_index,
    lemma_field_at, lemma_items_view_index, Json, JsonValue,
};
use crate::protocol::{CallError, CallOutcome, ToolCallResult};
use crate::syscmd::{
    error_payload, kill_command_spec, native_kill_outcome, strings_view, unsupported_os_text, BinSystemCommand,
    KillCommand, KillProcessInput, KillStep, LibSystemCommand,
};
use crate::tools::{
    echo_text, new_echo_tool, new_time_tool, new_weather_tool, time_text, weather_text, EchoInput, EchoTool,
    TimeInput, TimeTool, WeatherInput, WeatherTool,
};

verus! {

/// JSON-RPC code of an unknown method or tool.
pub const METHOD_NOT_FOUND: i64 = -32601;

/// JSON-RPC code of arguments that do not fit the tool's input.
pub const INVALID_PARAMS: i64 = -32602;

/// JSON-RPC code of a fault inside a tool.
pub const INTERNAL_ERROR: i64 = -32603;

/// The type of one input field.
#[derive(PartialEq, Eq, Structural, Clone, Copy, Debug)]
pub enum FieldKind {
    /// A JSON string.
    Text,
    /// A JSON integer that fits in a `u32`.
    Unsigned32,
}

/// One required field of a tool's input object.
pub struct InputField {
    pub name: String,
    pub kind: FieldKind,
}

/// A tool's name, description and input schema (an object with these required fields).
pub struct ToolDescriptor {
    pub name: String,
    pub description: String,
    pub input_schema: Vec<InputField>,
}

/// Whether `v` is a value of type `kind`.
pub open spec fn kind_accepts(kind: FieldKind, v: Json) -> bool {
    match kind {
        FieldKind::Text => v is Str,
        FieldKind::Unsigned32 => v is Int && 0 <= v->Int_0 <= u32::MAX,
    }
}

/// Whether `args` is an object that has every field of `schema`, each of its type.
pub open spec fn validates(schema: Seq<InputField>, args: Json) -> bool {
    match args {
        Json::Object(s) => forall|i: int|
            0 <= i < schema.len() ==> match #[trigger] field(s, schema[i].name@) {
                Some(v) => kind_accepts(schema[i].kind, v),
                None => false,
            },
        _ => false,
    }
}

/// Whether `s` holds the field `f` with a value of its type.
pub open spec fn field_ok(s: Seq<(Seq<char>, Json)>, f: InputField) -> bool {
    match field(s, f.name@) {
        Some(v) => kind_accepts(f.kind, v),
        None => false,
    }
}

/// The index of the first field of `schema`, from `i` on, that `s` lacks or holds with a
/// value of another type.
pub open spec fn first_bad_field(schema: Seq<InputField>, s: Seq<(Seq<char>, Json)>, i: int) -> Option<int>
    decreases schema.len() - i,
{
    if i < 0 || i >= schema.len() {
        None
    } else if !field_ok(s, schema[i]) {
        Some(i)
    } else {
        first_bad_field(schema, s, i + 1)
    }
}

pub open spec fn kind_text(kind: FieldKind) -> Seq<char> {
    match kind {
        FieldKind::Text => "a string"@,
        FieldKind::Unsigned32 => "an unsigned 32-bit integer"@,
    }
}

/// Why `args` does not fit `schema`: it is not an object, or names the first field that
/// is missing or of another type.
pub open spec fn invalid_args_detail(schema: Seq<InputField>, args: Json) -> Seq<char> {
    match args {
        Json::Object(s) => match first_bad_field(schema, s, 0) {
            Some(i) => "field `"@ + schema[i].name@ + "` is missing or is not "@ + kind_text(schema[i].kind),
            None => Seq::empty(),
        },
        _ => "the arguments are not an object"@,
    }
}

/// The message of the invalid-params error of a call of tool `name` with `args`.
pub open spec fn invalid_params_text(name: Seq<char>, schema: Seq<InputField>, args: Json) -> Seq<char> {
    "Invalid params for tool "@ + name + ": "@ + invalid_args_detail(schema, args)
}

pub proof fn lemma_first_bad_at(schema: Seq<InputField>, s: Seq<(Seq<char>, Json)>, k: int, i: int)
    requires
        0 <= k <= i < schema.len(),
        forall|j: int| k <= j < i ==> #[trigger] field_ok(s, schema[j]),
        !field_ok(s, schema[i]),
    ensures
        first_bad_field(schema, s, k) == Some(i),
    decreases i - k,
{
    if k < i {
        assert(field_ok(s, schema[k]));
        lemma_first_bad_at(schema, s, k + 1, i);
    }
}

/// The field names of a schema are distinct.
pub open spec fn schema_wf(schema: Seq<InputField>) -> bool {
    forall|i: int, j: int| 0 <= i < j < schema.len() ==> schema[i].name@ != schema[j].name@
}

pub open spec fn sample_value(kind: FieldKind) -> Json {
    match kind {
        FieldKind::Text => Json::Str(Seq::empty()),
        FieldKind::Unsigned32 => Json::Int(0),
    }
}

/// An input that a schema accepts: each field set to an empty string or zero.
pub open spec fn sample_input(schema: Seq<InputField>) -> Json {
    Json::Object(Seq::new(schema.len(), |i: int| (schema[i].name@, sample_value(schema[i].kind))))
}

/// Every well-formed schema accepts its sample input.
pub proof fn lemma_schema_accepts_sample(schema: Seq<InputField>)
    requires
        schema_wf(schema),
    ensures
        validates(schema, sample_input(schema)),
{
    let s = sample_input(schema)->Object_0;
    assert forall|i: int| 0 <= i < schema.len() implies match #[trigger] field(s, schema[i].name@) {
        Some(v) => kind_accepts(schema[i].kind, v),
        None => false,
    } by {
        assert(first_index(s, schema[i].name@, i));
        lemma_field_at(s, schema[i].name@, i);
    }
}

/// The handler behind a registered tool.
#[derive(PartialEq, Eq, Structural, Clone, Copy, Debug)]
pub enum ToolKind {
    EchoMessage,
    KillProcess,
    Echo,
    TimeInLocation,
    Weather,
}

pub struct RegisteredTool {
    pub descriptor: ToolDescriptor,
    pub kind: ToolKind,
}

/// The system-command backend, chosen when the router is built.
pub enum SystemBackend {
    Native(LibSystemCommand),
    External(BinSystemCommand),
}

/// Why a tool could not be registered.
#[derive(PartialEq, Eq, Structural, Clone, Copy, Debug)]
pub enum RegisterError {
    /// A tool of that name is already registered.
    DuplicateName,
    /// The input schema names a field twice.
    DuplicateField,
    /// The input schema lacks the field that the handler reads.
    SchemaMismatch,
}

/// What a dispatch asks for next.
pub enum Dispatch {
    /// The call is answered.
    Finished(Result<ToolCallResult, CallError>),
    /// The external backend must run this command; its outcome goes to
    /// `BinSystemCommand::finish_kill` with this pid.
    Run { pid: u32, command: KillCommand },
}

/// Maps tool names to handlers. The tools of the composition chain are built once and
/// shared: the weather tool holds the time tool, which holds the echo tool.
pub struct ToolRouter {
    pub tools: Vec<RegisteredTool>,
    pub echo_tool: Arc<EchoTool>,
    pub time_tool: Arc<TimeTool>,
    pub weather_tool: Arc<WeatherTool>,
    pub backend: SystemBackend,
}

pub open spec fn tool_names(tools: Seq<RegisteredTool>) -> Seq<Seq<char>> {
    tools.map_values(|t: RegisteredTool| t.descriptor.name@)
}

/// Whether a tool is named `name`.
pub open spec fn has_tool(tools: Seq<RegisteredTool>, name: Seq<char>) -> bool {
    exists|i: int| 0 <= i < tools.len() && #[trigger] tools[i].descriptor.name@ == name
}

pub open spec fn text_arg(args: Json, name: Seq<char>) -> Seq<char> {
    field(args->Object_0, name)->Some_0->Str_0
}

pub open spec fn int_arg(args: Json, name: Seq<char>) -> int {
    field(args->Object_0, name)->Some_0->Int_0
}

/// The answer of a tool that needs no system backend, on arguments that its schema accepts.
pub open spec fn pure_tool_outcome(kind: ToolKind, args: Json) -> CallOutcome {
    match kind {
        ToolKind::EchoMessage => CallOutcome::Success(
            Json::Str("Echoing: "@ + text_arg(args, "message"@)),
        ),
        ToolKind::Echo => CallOutcome::Success(Json::Str(echo_text(text_arg(args, "message"@)))),
        ToolKind::TimeInLocation => CallOutcome::Success(
            Json::Str(time_text(text_arg(args, "location"@))),
        ),
        _ => CallOutcome::Success(Json::Str(weather_text(text_arg(args, "location"@)))),
    }
}

/// The input field that a handler reads.
pub open spec fn required_field(kind: ToolKind) -> (Seq<char>, FieldKind) {
    match kind {
        ToolKind::EchoMessage => ("message"@, FieldKind::Text),
        ToolKind::Echo => ("message"@, FieldKind::Text),
        ToolKind::KillProcess => ("pid"@, FieldKind::Unsigned32),
        _ => ("location"@, FieldKind::Text),
    }
}

/// The schema holds the field that the handler reads, with its type.
pub open spec fn fits_kind(schema: Seq<InputField>, kind: ToolKind) -> bool {
    exists|j: int|
        0 <= j < schema.len() && #[trigger] schema[j].name@ == required_field(kind).0 && schema[j].kind
            == required_field(kind).1
}

/// A tool that can stand in a router: distinct field names, and the field its handler reads.
pub open spec fn tool_wf(t: RegisteredTool) -> bool {
    schema_wf(t.descriptor.input_schema@) && fits_kind(t.descriptor.input_schema@, t.kind)
}

pub proof fn lemma_names_unique(tools: Seq<RegisteredTool>, i: int, k: int)
    requires
        tool_names(tools).no_duplicates(),
        0 <= i < tools.len(),
        0 <= k < tools.len(),
        tools[i].descriptor.name@ == tools[k].descriptor.name@,
    ensures
        i == k,
{
    assert(tool_names(tools)[i] == tool_names(tools)[k]);
}

fn kind_accepts_value(kind: FieldKind, v: &JsonValue) -> (r: bool)
    ensures
        r == kind_accepts(kind, v@),
{
    match kind {
        FieldKind::Text => match v {
            JsonValue::Str(_) => true,
            _ => false,
        },
        FieldKind::Unsigned32 => match v {
            JsonValue::Int(n) => 0 <= *n && *n <= u32::MAX as i64,
            _ => false,
        },
    }
}

/// Checks `args` against `schema`: `Ok` when it fits, otherwise the reason.
pub fn check_arguments(schema: &Vec<InputField>, args: &JsonValue) -> (r: Result<(), String>)
    ensures
        r is Ok <==> validates(schema@, args@),
        r matches Err(d) ==> d@ == invalid_args_detail(schema@, args@),
{
    match args {
        JsonValue::Object(entries) => {
            let ghost s = entries_view(entries@);
            let mut i: usize = 0;
            while i < schema.len()
                invariant
                    i <= schema@.len(),
                    args@ == Json::Object(s),
                    s == entries_view(entries@),
                    forall|j: int| 0 <= j < i ==> #[trigger] field_ok(s, schema@[j]),
                decreases schema@.len() - i,
            {
                let ok = match get_field(entries, &schema[i].name) {
                    Some(v) => kind_accepts_value(schema[i].kind, v),
                    None => false,
                };
                if !ok {
                    proof {
                        lemma_first_bad_at(schema@, s, 0, i as int);
                    }
                    let kind = match schema[i].kind {
                        FieldKind::Text => "a string",
                        FieldKind::Unsigned32 => "an unsigned 32-bit integer",
                    };
                    return Err(
                        String::from_str("field `").concat(schema[i].name.as_str()).concat(
                            "` is missing or is not ",
                        ).concat(kind),
                    );
                }
                i = i + 1;
            }
            proof {
                assert forall|j: int| 0 <= j < schema@.len() implies match #[trigger] field(
                    s,
                    schema@[j].name@,
                ) {
                    Some(v) => kind_accepts(schema@[j].kind, v),
                    None => false,
                } by {
                    assert(field_ok(s, schema@[j]));
                }
            }
            Ok(())
        },
        _ => Err(String::from_str("the arguments are not an object")),
    }
}

/// Whether `args` fits `schema`.
pub fn validate(schema: &Vec<InputField>, args: &JsonValue) -> (r: bool)
    ensures
        r == validates(schema@, args@),
{
    check_arguments(schema, args).is_ok()
}

/// Whether the field names of `schema` are distinct.
pub fn schema_is_wf(schema: &Vec<InputField>) -> (r: bool)
    ensures
        r == schema_wf(schema@),
{
    let mut i: usize = 0;
    while i < schema.len()
        invariant
            i <= schema@.len(),
            forall|a: int, b: int| 0 <= a < b < schema@.len() && a < i ==> schema@[a].name@ != schema@[b].name@,
        decreases schema@.len() - i,
    {
        let mut j: usize = i + 1;
        while j < schema.len()
            invariant
                i < schema@.len(),
                i + 1 <= j <= schema@.len(),
                forall|a: int, b: int| 0 <= a < b < schema@.len() && a < i ==> schema@[a].name@ != schema@[b].name@,
                forall|b: int| i < b < j ==> schema@[i as int].name@ != schema@[b].name@,
            decreases schema@.len() - j,
        {
            if schema[i].name == schema[j].name {
                return false;
            }
            j = j + 1;
        }
        i = i + 1;
    }
    true
}

/// Whether `schema` holds the field that the handler `kind` reads.
pub fn schema_fits(schema: &Vec<InputField>, kind: ToolKind) -> (r: bool)
    ensures
        r == fits_kind(schema@, kind),
{
    let name = match kind {
        ToolKind::EchoMessage => String::from_str("message"),
        ToolKind::Echo => String::from_str("message"),
        ToolKind::KillProcess => String::from_str("pid"),
        _ => String::from_str("location"),
    };
    let want = match kind {
        ToolKind::KillProcess => FieldKind::Unsigned32,
        _ => FieldKind::Text,
    };
    let mut i: usize = 0;
    while i < schema.len()
        invariant
            i <= schema@.len(),
            name@ == required_field(kind).0,
            want == required_field(kind).1,
            forall|j: int|
                0 <= j < i ==> !(#[trigger] schema@[j].name@ == required_field(kind).0 && schema@[j].kind
                    == required_field(kind).1),
        decreases schema@.len() - i,
    {
        if schema[i].name == name && schema[i].kind == want {
            return true;
        }
        i = i + 1;
    }
    false
}

/// The text field `name` of arguments that a schema holding it accepts.
fn text_argument(args: &JsonValue, name: &str) -> (r: String)
    requires
        args@ is Object,
        field(args@->Object_0, name@) matches Some(Json::Str(_)),
    ensures
        r@ == text_arg(args@, name@),
{
    match args {
        JsonValue::Object(entries) => match get_field(entries, &String::from_str(name)) {
            Some(JsonValue::Str(s)) => s.clone(),
            _ => String::new(),
        },
        _ => String::new(),
    }
}

/// The `u32` field `name` of arguments that a schema holding it accepts.
fn unsigned_argument(args: &JsonValue, name: &str) -> (r: u32)
    requires
        args@ is Object,
        field(args@->Object_0, name@) matches Some(Json::Int(n)) && 0 <= n <= u32::MAX,
    ensures
        r as int == int_arg(args@, name@),
{
    match args {
        JsonValue::Object(entries) => match get_field(entries, &String::from_str(name)) {
            Some(JsonValue::Int(n)) => *n as u32,
            _ => 0,
        },
        _ => 0,
    }
}

impl CallError {
    /// No tool is named `name`.
    pub fn method_not_found(name: &str) -> (r: CallError)
        ensures
            r.code == METHOD_NOT_FOUND,
            r.message@ == "Tool not found: "@ + name@,
            r.data is None,
    {
        CallError {
            code: METHOD_NOT_FOUND,
            message: String::from_str("Tool not found: ").concat(name),
            data: None,
        }
    }

    /// The arguments do not fit the tool's input.
    pub fn invalid_params(message: String) -> (r: CallError)
        ensures
            r.code == INVALID_PARAMS,
            r.message == message,
            r.data is None,
    {
        CallError { code: INVALID_PARAMS, message, data: None }
    }

    /// A fault inside a tool.
    pub fn internal(message: String) -> (r: CallError)
        ensures
            r.code == INTERNAL_ERROR,
            r.message == message,
            r.data is None,
    {
        CallError { code: INTERNAL_ERROR, message, data: None }
    }
}

impl ToolRouter {
    /// Names are unique, and each tool's schema fits its handler.
    pub open spec fn wf(&self) -> bool {
        &&& tool_names(self.tools@).no_duplicates()
        &&& forall|i: int| 0 <= i < self.tools@.len() ==> tool_wf(#[trigger] self.tools@[i])
    }

    pub open spec fn names(&self) -> Seq<Seq<char>> {
        tool_names(self.tools@)
    }

    /// What `dispatch` promises for a call of `name` with `args`.
    pub open spec fn dispatch_spec(&self, name: Seq<char>, args: Json, r: Dispatch) -> bool {
        if !has_tool(self.tools@, name) {
            r matches Dispatch::Finished(Err(e)) && e.code == METHOD_NOT_FOUND
        } else {
            forall|i: int|
                0 <= i < self.tools@.len() && #[trigger] self.tools@[i].descriptor.name@ == name
                    ==> self.call_spec(self.tools@[i], args, r)
        }
    }

    /// What a call of the registered tool `t` with `args` gives.
    pub open spec fn call_spec(&self, t: RegisteredTool, args: Json, r: Dispatch) -> bool {
        if !validates(t.descriptor.input_schema@, args) {
            r matches Dispatch::Finished(Err(e)) && e.code == INVALID_PARAMS && e.message@ == invalid_params_text(
                t.descriptor.name@,
                t.descriptor.input_schema@,
                args,
            ) && e.data is None
        } else if t.kind == ToolKind::KillProcess {
            let pid = int_arg(args, "pid"@);
            match self.backend {
                SystemBackend::Native(_) => r matches Dispatch::Finished(Ok(res)) && exists|
                    signal: Option<bool>,
                | res@ == #[trigger] native_kill_outcome(pid as nat, signal),
                SystemBackend::External(b) => match kill_command_spec(b.os@, pid as nat) {
                    Some(c) => r matches Dispatch::Run { pid: p, command } && p == pid && c == (
                        command.program@,
                        strings_view(command.args@),
                    ),
                    None => r matches Dispatch::Finished(Ok(res)) && res@ == CallOutcome::Failure(
                        error_payload(unsupported_os_text(b.os@)),
                    ),
                },
            }
        } else {
            r matches Dispatch::Finished(Ok(res)) && res@ == pure_tool_outcome(t.kind, args)
        }
    }
}

impl ToolRouter {
    /// The index of the tool named `name`.
    pub fn find_tool(&self, name: &str) -> (r: Option<usize>)
        requires
            self.wf(),
        ensures
            match r {
                Some(i) => i < self.tools@.len() && self.tools@[i as int].descriptor.name@ == name@,
                None => !has_tool(self.tools@, name@),
            },
    {
        let key = String::from_str(name);
        let mut i: usize = 0;
        while i < self.tools.len()
            invariant
                i <= self.tools@.len(),
                self.wf(),
                key@ == name@,
                forall|j: int| 0 <= j < i ==> self.tools@[j].descriptor.name@ != name@,
            decreases self.tools@.len() - i,
        {
            if self.tools[i].descriptor.name == key {
                return Some(i);
            }
            i = i + 1;
        }
        None
    }

    /// The registered tools, in the order they were registered.
    pub fn list(&self) -> (r: &Vec<RegisteredTool>)
        ensures
            r@ == self.tools@,
    {
        &self.tools
    }

    /// Adds a tool. Fails when its name is taken, when its schema names a field twice, or
    /// when its schema lacks the field that its handler reads; then nothing changes.
    pub fn register(&mut self, tool: RegisteredTool) -> (r: Result<(), RegisterError>)
        requires
            old(self).wf(),
        ensures
            final(self).wf(),
            match r {
                Ok(()) => {
                    &&& !old(self).names().contains(tool.descriptor.name@)
                    &&& tool_wf(tool)
                    &&& final(self).tools@ == old(self).tools@.push(tool)
                    &&& final(self).echo_tool == old(self).echo_tool
                    &&& final(self).time_tool == old(self).time_tool
                    &&& final(self).weather_tool == old(self).weather_tool
                    &&& final(self).backend == old(self).backend
                },
                Err(e) => {
                    &&& *final(self) == *old(self)
                    &&& e == RegisterError::DuplicateName <==> old(self).names().contains(
                        tool.descriptor.name@,
                    )
                    &&& e == RegisterError::DuplicateField ==> !schema_wf(tool.descriptor.input_schema@)
                    &&& e == RegisterError::SchemaMismatch ==> schema_wf(tool.descriptor.input_schema@)
                        && !fits_kind(tool.descriptor.input_schema@, tool.kind)
                },
            },
    {
        let mut i: usize = 0;
        while i < self.tools.len()
            invariant
                i <= self.tools@.len(),
                self.wf(),
                *self == *old(self),
                forall|j: int| 0 <= j < i ==> self.tools@[j].descriptor.name@ != tool.descriptor.name@,
            decreases self.tools@.len() - i,
        {
            if self.tools[i].descriptor.name == tool.descriptor.name {
                proof {
                    assert(self.names()[i as int] == tool.descriptor.name@);
                }
                return Err(RegisterError::DuplicateName);
            }
            i = i + 1;
        }
        proof {
            assert(!self.names().contains(tool.descriptor.name@)) by {
                if self.names().contains(tool.descriptor.name@) {
                    let k = choose|k: int| 0 <= k < self.names().len() && self.names()[k] == tool.descriptor.name@;
                    assert(self.tools@[k].descriptor.name@ == tool.descriptor.name@);
                }
            }
        }
        if !schema_is_wf(&tool.descriptor.input_schema) {
            return Err(RegisterError::DuplicateField);
        }
        if !schema_fits(&tool.descriptor.input_schema, tool.kind) {
            return Err(RegisterError::SchemaMismatch);
        }
        let ghost before = self.tools@;
        self.tools.push(tool);
        proof {
            assert(tool_names(self.tools@) =~= tool_names(before).push(tool.descriptor.name@));
            assert forall|i: int| 0 <= i < self.tools@.len() implies tool_wf(#[trigger] self.tools@[i]) by {
                if i < before.len() {
                    assert(self.tools@[i] == before[i]);
                }
            }
        }
        Ok(())
    }

    /// Calls the tool `name` with `args`: an unknown name gives a method-not-found error,
    /// arguments that do not fit the schema an invalid-params error; otherwise the tool
    /// answers (see `dispatch_spec`).
    pub fn dispatch(&self, name: &str, args: &JsonValue) -> (r: Dispatch)
        requires
            self.wf(),
        ensures
            self.dispatch_spec(name@, args@, r),
    {
        match self.find_tool(name) {
            None => Dispatch::Finished(Err(CallError::method_not_found(name))),
            Some(i) => {
                let t = &self.tools[i];
                proof {
                    assert forall|k: int|
                        0 <= k < self.tools@.len() && #[trigger] self.tools@[k].descriptor.name@ == name@
                            implies k == i by {
                        lemma_names_unique(self.tools@, i as int, k);
                    }
                }
                match check_arguments(&t.descriptor.input_schema, args) {
                    Err(detail) => {
                        return Dispatch::Finished(
                            Err(
                                CallError::invalid_params(
                                    String::from_str("Invalid params for tool ").concat(name).concat(
                                        ": ",
                                    ).concat(detail.as_str()),
                                ),
                            ),
                        );
                    },
                    Ok(()) => {},
                }
                proof {
                    assert(tool_wf(self.tools@[i as int]));
                    let schema = t.descriptor.input_schema@;
                    let j = choose|j: int|
                        0 <= j < schema.len() && #[trigger] schema[j].name@ == required_field(t.kind).0
                            && schema[j].kind == required_field(t.kind).1;
                    assert(schema[j].name@ == required_field(t.kind).0);
                }
                match t.kind {
                    ToolKind::KillProcess => {
                        let pid = unsigned_argument(args, "pid");
                        match &self.backend {
                            SystemBackend::Native(lib) => Dispatch::Finished(
                                Ok(lib.kill_process(KillProcessInput { pid })),
                            ),
                            SystemBackend::External(bin) => match bin.kill_process(
                                KillProcessInput { pid },
                            ) {
                                KillStep::Run(command) => Dispatch::Run { pid, command },
                                KillStep::Done(res) => Dispatch::Finished(Ok(res)),
                            },
                        }
                    },
                    ToolKind::EchoMessage => {
                        let message = text_argument(args, "message");
                        Dispatch::Finished(
                            Ok(
                                ToolCallResult::Success(
                                    JsonValue::Str(String::from_str("Echoing: ").concat(message.as_str())),
                                ),
                            ),
                        )
                    },
                    ToolKind::Echo => {
                        let message = text_argument(args, "message");
                        let text = self.echo_tool.echo(EchoInput { message });
                        Dispatch::Finished(Ok(ToolCallResult::Success(JsonValue::Str(text))))
                    },
                    ToolKind::TimeInLocation => {
                        let location = text_argument(args, "location");
                        let text = self.time_tool.get_time_in_location(TimeInput { location });
                        Dispatch::Finished(Ok(ToolCallResult::Success(JsonValue::Str(text))))
                    },
                    ToolKind::Weather => {
                        let location = text_argument(args, "location");
                        let text = self.weather_tool.get_weather(WeatherInput { location });
                        Dispatch::Finished(Ok(ToolCallResult::Success(JsonValue::Str(text))))
                    },
                }
            },
        }
    }
}

/// The names of the tools of a new router, in order.
pub open spec fn default_names() -> Seq<Seq<char>> {
    seq!["echo_message"@, "kill_process"@, "echo"@, "get_time_in_location"@, "get_weather"@]
}

pub proof fn lemma_default_names_distinct()
    ensures
        default_names().no_duplicates(),
{
    reveal_strlit("echo_message");
    reveal_strlit("kill_process");
    reveal_strlit("echo");
    reveal_strlit("get_time_in_location");
    reveal_strlit("get_weather");
    let n = default_names();
    assert(n[0][0] != n[1][0]);
    assert forall|i: int, j: int| 0 <= i < n.len() && 0 <= j < n.len() && i != j implies n[i] != n[j] by {
        if n[i].len() == n[j].len() {
            assert(n[0][0] != n[1][0]);
        }
    }
}

fn single_field_tool(name: &str, description: &str, field_name: &str, kind: FieldKind, handler: ToolKind) -> (r:
    RegisteredTool)
    requires
        field_name@ == required_field(handler).0,
        kind == required_field(handler).1,
    ensures
        r.descriptor.name@ == name@,
        r.descriptor.description@ == description@,
        r.kind == handler,
        tool_wf(r),
        r.descriptor.input_schema@.len() == 1,
        r.descriptor.input_schema@[0].name@ == field_name@,
        r.descriptor.input_schema@[0].kind == kind,
{
    let mut schema: Vec<InputField> = Vec::new();
    schema.push(InputField { name: String::from_str(field_name), kind });
    let r = RegisteredTool {
        descriptor: ToolDescriptor {
            name: String::from_str(name),
            description: String::from_str(description),
            input_schema: schema,
        },
        kind: handler,
    };
    proof {
        assert(r.descriptor.input_schema@[0].name@ == required_field(handler).0);
    }
    r
}

impl ToolRouter {
    /// The router holds the server's tools over `backend`: `echo_message`, `kill_process`,
    /// `echo`, `get_time_in_location`, `get_weather`, in that order, each with its handler
    /// and a schema of exactly the field that handler reads.
    pub open spec fn is_default(&self, backend: SystemBackend) -> bool {
        &&& self.wf()
        &&& self.names() == default_names()
        &&& self.backend == backend
        &&& self.tools@[0].kind == ToolKind::EchoMessage
        &&& self.tools@[1].kind == ToolKind::KillProcess
        &&& self.tools@[2].kind == ToolKind::Echo
        &&& self.tools@[3].kind == ToolKind::TimeInLocation
        &&& self.tools@[4].kind == ToolKind::Weather
        &&& forall|k: int|
            0 <= k < self.tools@.len() ==> {
                let schema = (#[trigger] self.tools@[k]).descriptor.input_schema@;
                &&& schema.len() == 1
                &&& schema[0].name@ == required_field(self.tools@[k].kind).0
                &&& schema[0].kind == required_field(self.tools@[k].kind).1
            }
    }

    /// A router with the server's tools: `echo_message`, `kill_process`, and the chain
    /// `echo`, `get_time_in_location`, `get_weather`, in that order.
    pub fn new(backend: SystemBackend) -> (r: ToolRouter)
        ensures
            r.is_default(backend),
    {
        let echo_tool = Arc::new(new_echo_tool());
        let time_tool = Arc::new(new_time_tool(echo_tool.clone()));
        let weather_tool = Arc::new(new_weather_tool(time_tool.clone()));
        let mut tools: Vec<RegisteredTool> = Vec::new();
        tools.push(
            single_field_tool(
                "echo_message",
                "Echoes a message back",
                "message",
                FieldKind::Text,
                ToolKind::EchoMessage,
            ),
        );
        tools.push(
            single_field_tool(
                "kill_process",
                "Kills a process by PID.",
                "pid",
                FieldKind::Unsigned32,
                ToolKind::KillProcess,
            ),
        );
        tools.push(
            single_field_tool(
                "echo",
                "Echoes a message with an echo prefix.",
                "message",
                FieldKind::Text,
                ToolKind::Echo,
            ),
        );
        tools.push(
            single_field_tool(
                "get_time_in_location",
                "Tells the time in a location.",
                "location",
                FieldKind::Text,
                ToolKind::TimeInLocation,
            ),
        );
        tools.push(
            single_field_tool(
                "get_weather",
                "Reports the weather in a location.",
                "location",
                FieldKind::Text,
                ToolKind::Weather,
            ),
        );
        let r = ToolRouter { tools, echo_tool, time_tool, weather_tool, backend };
        proof {
            lemma_default_names_distinct();
            assert(tool_names(r.tools@) =~= default_names());
        }
        r
    }
}

/// The schema of one field's type.
pub open spec fn kind_schema(kind: FieldKind) -> Json {
    match kind {
        FieldKind::Text => Json::Object(seq![("type"@, Json::Str("string"@))]),
        FieldKind::Unsigned32 => Json::Object(
            seq![
                ("type"@, Json::Str("integer"@)),
                ("format"@, Json::Str("uint32"@)),
                ("minimum"@, Json::Int(0)),
            ],
        ),
    }
}

/// The JSON schema of an input: an object with these properties, all required.
pub open spec fn schema_json(schema: Seq<InputField>) -> Json {
    Json::Object(
        seq![
            ("type"@, Json::Str("object"@)),
            (
                "properties"@,
                Json::Object(Seq::new(schema.len(), |i: int| (schema[i].name@, kind_schema(schema[i].kind)))),
            ),
            ("required"@, Json::Array(Seq::new(schema.len(), |i: int| Json::Str(schema[i].name@)))),
        ],
    )
}

/// The JSON object that describes a tool in a tool listing.
pub open spec fn descriptor_json(d: ToolDescriptor) -> Json {
    Json::Object(
        seq![
            ("name"@, Json::Str(d.name@)),
            ("description"@, Json::Str(d.description@)),
            ("inputSchema"@, schema_json(d.input_schema@)),
        ],
    )
}

/// The result of a tool listing: `{"tools": [...]}` in registration order.
pub open spec fn listing_json(tools: Seq<RegisteredTool>) -> Json {
    Json::Object(
        seq![("tools"@, Json::Array(Seq::new(tools.len(), |i: int| descriptor_json(tools[i].descriptor))))],
    )
}

fn kind_schema_value(kind: FieldKind) -> (r: JsonValue)
    ensures
        r@ == kind_schema(kind),
{
    let mut e: Vec<(String, JsonValue)> = Vec::new();
    match kind {
        FieldKind::Text => {
            e.push(entry("type", json_str("string")));
        },
        FieldKind::Unsigned32 => {
            e.push(entry("type", json_str("integer")));
            e.push(entry("format", json_str("uint32")));
            e.push(entry("minimum", JsonValue::Int(0)));
        },
    }
    proof {
        lemma_entries_view_index(e@);
        assert(entries_view(e@) =~= kind_schema(kind)->Object_0);
    }
    JsonValue::Object(e)
}

/// The JSON schema of `schema`.
pub fn schema_value(schema: &Vec<InputField>) -> (r: JsonValue)
    ensures
        r@ == schema_json(schema@),
{
    let mut props: Vec<(String, JsonValue)> = Vec::new();
    let mut required: Vec<JsonValue> = Vec::new();
    let mut i: usize = 0;
    while i < schema.len()
        invariant
            i <= schema@.len(),
            props@.len() == i,
            required@.len() == i,
            forall|j: int|
                0 <= j < i ==> (#[trigger] props@[j]).0@ == schema@[j].name@ && props@[j].1@ == kind_schema(
                    schema@[j].kind,
                ),
            forall|j: int| 0 <= j < i ==> #[trigger] required@[j]@ == Json::Str(schema@[j].name@),
        decreases schema@.len() - i,
    {
        let name = schema[i].name.clone();
        let ks = kind_schema_value(schema[i].kind);
        props.push((name, ks));
        required.push(JsonValue::Str(schema[i].name.clone()));
        i = i + 1;
    }
    let mut e: Vec<(String, JsonValue)> = Vec::new();
    e.push(entry("type", json_str("object")));
    let ghost pv = props@;
    let ghost rv = required@;
    e.push(entry("properties", JsonValue::Object(props)));
    e.push(entry("required", JsonValue::Array(required)));
    proof {
        lemma_entries_view_index(pv);
        lemma_items_view_index(rv);
        lemma_entries_view_index(e@);
        assert(entries_view(pv) =~= Seq::new(
            schema@.len(),
            |i: int| (schema@[i].name@, kind_schema(schema@[i].kind)),
        ));
        assert(items_view(rv) =~= Seq::new(schema@.len(), |i: int| Json::Str(schema@[i].name@)));
        assert(entries_view(e@) =~= schema_json(schema@)->Object_0);
    }
    JsonValue::Object(e)
}

/// The JSON object that describes `d`.
pub fn descriptor_value(d: &ToolDescriptor) -> (r: JsonValue)
    ensures
        r@ == descriptor_json(*d),
{
    let mut e: Vec<(String, JsonValue)> = Vec::new();
    e.push(entry("name", JsonValue::Str(d.name.clone())));
    e.push(entry("description", JsonValue::Str(d.description.clone())));
    e.push(entry("inputSchema", schema_value(&d.input_schema)));
    proof {
        lemma_entries_view_index(e@);
        assert(entries_view(e@) =~= descriptor_json(*d)->Object_0);
    }
    JsonValue::Object(e)
}

impl ToolRouter {
    /// The result of `tools/list`: every registered tool, in registration order.
    pub fn list_value(&self) -> (r: JsonValue)
        ensures
            r@ == listing_json(self.tools@),
    {
        let mut items: Vec<JsonValue> = Vec::new();
        let mut i: usize = 0;
        while i < self.tools.len()
            invariant
                i <= self.tools@.len(),
                items@.len() == i,
                forall|j: int| 0 <= j < i ==> #[trigger] items@[j]@ == descriptor_json(self.tools@[j].descriptor),
            decreases self.tools@.len() - i,
        {
            items.push(descriptor_value(&self.tools[i].descriptor));
            i = i + 1;
        }
        let ghost iv = items@;
        let mut e: Vec<(String, JsonValue)> = Vec::new();
        e.push(entry("tools", JsonValue::Array(items)));
        proof {
            lemma_items_view_index(iv);
            lemma_entries_view_index(e@);
            assert(items_view(iv) =~= Seq::new(
                self.tools@.len(),
                |i: int| descriptor_json(self.tools@[i].descriptor),
            ));
            assert(entries_view(e@) =~= listing_json(self.tools@)->Object_0);
        }
        JsonValue::Object(e)
    }
}

/// A tool listing names each registered tool exactly once, and each listed schema accepts
/// a known-good input.
pub proof fn lemma_listing_complete(router: ToolRouter)
    requires
        router.wf(),
    ensures
        forall|i: int, j: int|
            0 <= i < router.tools@.len() && 0 <= j < router.tools@.len() && i != j
                ==> #[trigger] router.tools@[i].descriptor.name@ != #[trigger] router.tools@[j].descriptor.name@,
        forall|i: int|
            0 <= i < router.tools@.len() ==> validates(
                #[trigger] router.tools@[i].descriptor.input_schema@,
                sample_input(router.tools@[i].descriptor.input_schema@),
            ),
{
    assert forall|i: int, j: int|
        0 <= i < router.tools@.len() && 0 <= j < router.tools@.len() && i != j
            implies #[trigger] router.tools@[i].descriptor.name@ != #[trigger] router.tools@[j].descriptor.name@ by {
        if router.tools@[i].descriptor.name@ == router.tools@[j].descriptor.name@ {
            lemma_names_unique(router.tools@, i, j);
        }
    }
    assert forall|i: int| 0 <= i < router.tools@.len() implies validates(
        #[trigger] router.tools@[i].descriptor.input_schema@,
        sample_input(router.tools@[i].descriptor.input_schema@),
    ) by {
        assert(tool_wf(router.tools@[i]));
        lemma_schema_accepts_sample(router.tools@[i].descriptor.input_schema@);
    }
}

/// A call of a name that no tool has is answered with a method-not-found error.
pub proof fn lemma_unknown_tool(router: ToolRouter, name: Seq<char>, args: Json, r: Dispatch)
    requires
        router.wf(),
        !router.names().contains(name),
        router.dispatch_spec(name, args, r),
    ensures
        r matches Dispatch::Finished(Err(e)) && e.code == METHOD_NOT_FOUND,
{
    if has_tool(router.tools@, name) {
        let i = choose|i: int| 0 <= i < router.tools@.len() && #[trigger] router.tools@[i].descriptor.name@ == name;
        assert(router.names()[i] == name);
    }
}

/// A new router answers a call of "nonexistent_tool" with a method-not-found error,
/// whatever the arguments.
pub proof fn lemma_nonexistent_tool(router: ToolRouter, args: Json, r: Dispatch)
    requires
        router.wf(),
        router.names() == default_names(),
        router.dispatch_spec("nonexistent_tool"@, args, r),
    ensures
        r matches Dispatch::Finished(Err(e)) && e.code == METHOD_NOT_FOUND,
{
    reveal_strlit("nonexistent_tool");
    reveal_strlit("echo_message");
    reveal_strlit("kill_process");
    reveal_strlit("echo");
    reveal_strlit("get_time_in_location");
    reveal_strlit("get_weather");
    let n = default_names();
    assert forall|k: int| 0 <= k < n.len() implies n[k] != "nonexistent_tool"@ by {
        if n[k].len() == "nonexistent_tool"@.len() {
            assert(n[k][0] != "nonexistent_tool"@[0]);
        }
    }
    lemma_unknown_tool(router, "nonexistent_tool"@, args, r);
}

} // verus!
