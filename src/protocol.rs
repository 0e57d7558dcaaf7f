//! The wire protocol: messages, their JSON objects, framing, and tool-call results.

use vstd::prelude::*;

use crate::json::{
    entries_view, entry, field, json_str, lemma_entries_view_index, take_field, Json, JsonValue,
};

verus! {

/// The model of a request id.
pub enum MsgId {
    Num(int),
    Text(Seq<char>),
}

/// The model of an error object.
pub struct ErrorView {
    pub code: int,
    pub message: Seq<char>,
    pub data: Option<Json>,
}

/// The model of one protocol message.
#[allow(inconsistent_fields)]
pub enum Message {
    Request { id: MsgId, method: Seq<char>, params: Json },
    Notification { method: Seq<char>, params: Option<Json> },
    Response { id: MsgId, outcome: Result<Json, ErrorView> },
}

/// Why a frame could not be read as a message.
#[derive(PartialEq, Eq, Structural, Debug, Clone, Copy)]
pub enum ProtocolError {
    /// The text of the frame is not JSON.
    MalformedJson,
    /// The frame is JSON but not an object.
    NotAnObject,
    /// The object is neither a request, a notification nor a response.
    UnrecognisedShape,
    /// A field that the shape needs has the wrong type.
    InvalidField,
}

/// A request id: a number or a string.
#[derive(Debug)]
pub enum RequestId {
    Number(i64),
    Text(String),
}

impl View for RequestId {
    type V = MsgId;

    open spec fn view(&self) -> MsgId {
        match self {
            RequestId::Number(n) => MsgId::Num(*n as int),
            RequestId::Text(s) => MsgId::Text(s@),
        }
    }
}

/// The error of a failed call: a code, a message, and optional structured detail.
#[derive(Debug)]
pub struct CallError {
    pub code: i64,
    pub message: String,
    pub data: Option<JsonValue>,
}

pub open spec fn opt_view(o: Option<JsonValue>) -> Option<Json> {
    match o {
        Some(v) => Some(v@),
        None => None,
    }
}

impl View for CallError {
    type V = ErrorView;

    open spec fn view(&self) -> ErrorView {
        ErrorView { code: self.code as int, message: self.message@, data: opt_view(self.data) }
    }
}

/// One message of the wire protocol.
#[allow(inconsistent_fields)]
#[derive(Debug)]
pub enum RpcMessage {
    Request { id: RequestId, method: String, params: JsonValue },
    Notification { method: String, params: Option<JsonValue> },
    Response { id: RequestId, outcome: Result<JsonValue, CallError> },
}

impl View for RpcMessage {
    type V = Message;

    open spec fn view(&self) -> Message {
        match self {
            RpcMessage::Request { id, method, params } => Message::Request {
                id: id@,
                method: method@,
                params: params@,
            },
            RpcMessage::Notification { method, params } => Message::Notification {
                method: method@,
                params: opt_view(*params),
            },
            RpcMessage::Response { id, outcome } => Message::Response {
                id: id@,
                outcome: match outcome {
                    Ok(v) => Ok(v@),
                    Err(e) => Err(e@),
                },
            },
        }
    }
}

pub open spec fn key_jsonrpc() -> Seq<char> {
    "jsonrpc"@
}

pub open spec fn key_id() -> Seq<char> {
    "id"@
}

pub open spec fn key_method() -> Seq<char> {
    "method"@
}

pub open spec fn key_params() -> Seq<char> {
    "params"@
}

pub open spec fn key_result() -> Seq<char> {
    "result"@
}

pub open spec fn key_error() -> Seq<char> {
    "error"@
}

pub open spec fn key_code() -> Seq<char> {
    "code"@
}

pub open spec fn key_message() -> Seq<char> {
    "message"@
}

pub open spec fn key_data() -> Seq<char> {
    "data"@
}

pub open spec fn version_json() -> Json {
    Json::Str("2.0"@)
}

pub open spec fn id_json(id: MsgId) -> Json {
    match id {
        MsgId::Num(n) => Json::Int(n),
        MsgId::Text(s) => Json::Str(s),
    }
}

pub open spec fn error_json(e: ErrorView) -> Json {
    let base = seq![(key_code(), Json::Int(e.code)), (key_message(), Json::Str(e.message))];
    match e.data {
        Some(d) => Json::Object(base.push((key_data(), d))),
        None => Json::Object(base),
    }
}

/// The JSON object that carries a message on the wire.
pub open spec fn message_json(m: Message) -> Json {
    match m {
        Message::Request { id, method, params } => Json::Object(
            seq![
                (key_jsonrpc(), version_json()),
                (key_id(), id_json(id)),
                (key_method(), Json::Str(method)),
                (key_params(), params),
            ],
        ),
        Message::Notification { method, params } => {
            let base = seq![(key_jsonrpc(), version_json()), (key_method(), Json::Str(method))];
            match params {
                Some(p) => Json::Object(base.push((key_params(), p))),
                None => Json::Object(base),
            }
        },
        Message::Response { id, outcome } => {
            let base = seq![(key_jsonrpc(), version_json()), (key_id(), id_json(id))];
            match outcome {
                Ok(r) => Json::Object(base.push((key_result(), r))),
                Err(e) => Json::Object(base.push((key_error(), error_json(e)))),
            }
        },
    }
}

pub open spec fn id_of_json(v: Json) -> Result<MsgId, ProtocolError> {
    match v {
        Json::Int(n) => Ok(MsgId::Num(n)),
        Json::Str(s) => Ok(MsgId::Text(s)),
        _ => Err(ProtocolError::InvalidField),
    }
}

pub open spec fn error_of_json(v: Json) -> Result<ErrorView, ProtocolError> {
    match v {
        Json::Object(s) => match (field(s, key_code()), field(s, key_message())) {
            (Some(Json::Int(code)), Some(Json::Str(message))) => Ok(
                ErrorView { code, message, data: field(s, key_data()) },
            ),
            _ => Err(ProtocolError::InvalidField),
        },
        _ => Err(ProtocolError::InvalidField),
    }
}

/// How a JSON value is read as a message: with `id` and `method` it is a request (absent
/// params read as null), with `method` alone a notification, with `id` and exactly one of
/// `result` and `error` a response.
pub open spec fn message_of_json(v: Json) -> Result<Message, ProtocolError> {
    match v {
        Json::Object(s) => {
            let id = field(s, key_id());
            let method = field(s, key_method());
            let params = field(s, key_params());
            let result = field(s, key_result());
            let error = field(s, key_error());
            if method is Some {
                match method {
                    Some(Json::Str(name)) => {
                        match id {
                            Some(i) => match id_of_json(i) {
                                Ok(id) => Ok(
                                    Message::Request {
                                        id,
                                        method: name,
                                        params: match params {
                                            Some(p) => p,
                                            None => Json::Null,
                                        },
                                    },
                                ),
                                Err(e) => Err(e),
                            },
                            None => Ok(Message::Notification { method: name, params }),
                        }
                    },
                    _ => Err(ProtocolError::InvalidField),
                }
            } else {
                match id {
                    Some(i) => {
                        if result is Some && error is None {
                            match id_of_json(i) {
                                Ok(id) => Ok(Message::Response { id, outcome: Ok(result->0) }),
                                Err(e) => Err(e),
                            }
                        } else if result is None && error is Some {
                            match (id_of_json(i), error_of_json(error->0)) {
                                (Ok(id), Ok(e)) => Ok(Message::Response { id, outcome: Err(e) }),
                                (Err(e), _) => Err(e),
                                (_, Err(e)) => Err(e),
                            }
                        } else {
                            Err(ProtocolError::UnrecognisedShape)
                        }
                    },
                    None => Err(ProtocolError::UnrecognisedShape),
                }
            }
        },
        _ => Err(ProtocolError::NotAnObject),
    }
}

pub proof fn lemma_keys_distinct()
    ensures
        key_id() != key_method(),
        key_id() != key_params(),
        key_id() != key_result(),
        key_id() != key_error(),
        key_id() != key_jsonrpc(),
        key_method() != key_params(),
        key_method() != key_result(),
        key_method() != key_error(),
        key_method() != key_jsonrpc(),
        key_params() != key_result(),
        key_params() != key_error(),
        key_params() != key_jsonrpc(),
        key_result() != key_error(),
        key_result() != key_jsonrpc(),
        key_error() != key_jsonrpc(),
        key_code() != key_message(),
        key_code() != key_data(),
        key_message() != key_data(),
{
    reveal_strlit("jsonrpc");
    reveal_strlit("id");
    reveal_strlit("method");
    reveal_strlit("params");
    reveal_strlit("result");
    reveal_strlit("error");
    reveal_strlit("code");
    reveal_strlit("message");
    reveal_strlit("data");
    assert(key_id().len() != key_method().len());
    assert(key_id().len() != key_params().len());
    assert(key_id().len() != key_result().len());
    assert(key_id().len() != key_error().len());
    assert(key_id().len() != key_jsonrpc().len());
    assert(key_method()[0] != key_params()[0]);
    assert(key_method()[0] != key_result()[0]);
    assert(key_method().len() != key_error().len());
    assert(key_method().len() != key_jsonrpc().len());
    assert(key_params()[0] != key_result()[0]);
    assert(key_params().len() != key_error().len());
    assert(key_params().len() != key_jsonrpc().len());
    assert(key_result().len() != key_error().len());
    assert(key_result().len() != key_jsonrpc().len());
    assert(key_error().len() != key_jsonrpc().len());
    assert(key_code()[0] != key_message()[0]);
    assert(key_code()[0] != key_data()[0]);
    assert(key_message().len() != key_data().len());
}

/// Reading back the JSON object of any message gives that message.
pub proof fn lemma_message_round_trip(m: Message)
    ensures
        message_of_json(message_json(m)) == Ok::<Message, ProtocolError>(m),
{
    reveal_with_fuel(field, 5);
    lemma_keys_distinct();
    match m {
        Message::Request { id, method, params } => {
            let s = seq![
                (key_jsonrpc(), version_json()),
                (key_id(), id_json(id)),
                (key_method(), Json::Str(method)),
                (key_params(), params),
            ];
            assert(s.drop_first().drop_first().drop_first().drop_first() =~= Seq::<(Seq<char>, Json)>::empty());
            assert(field(s, key_id()) == Some(id_json(id)));
            assert(field(s, key_method()) == Some(Json::Str(method)));
            assert(field(s, key_params()) == Some(params));
        },
        Message::Notification { method, params } => {
            let base = seq![(key_jsonrpc(), version_json()), (key_method(), Json::Str(method))];
            match params {
                Some(p) => {
                    let s = base.push((key_params(), p));
                    assert(s.drop_first().drop_first().drop_first() =~= Seq::<(Seq<char>, Json)>::empty());
                    assert(field(s, key_id()) is None);
                    assert(field(s, key_method()) == Some(Json::Str(method)));
                    assert(field(s, key_params()) == Some(p));
                },
                None => {
                    assert(base.drop_first().drop_first() =~= Seq::<(Seq<char>, Json)>::empty());
                    assert(field(base, key_id()) is None);
                    assert(field(base, key_method()) == Some(Json::Str(method)));
                    assert(field(base, key_params()) is None);
                },
            }
        },
        Message::Response { id, outcome } => {
            let base = seq![(key_jsonrpc(), version_json()), (key_id(), id_json(id))];
            match outcome {
                Ok(r) => {
                    let s = base.push((key_result(), r));
                    assert(s.drop_first().drop_first().drop_first() =~= Seq::<(Seq<char>, Json)>::empty());
                    assert(field(s, key_method()) is None);
                    assert(field(s, key_id()) == Some(id_json(id)));
                    assert(field(s, key_result()) == Some(r));
                    assert(field(s, key_error()) is None);
                },
                Err(e) => {
                    let s = base.push((key_error(), error_json(e)));
                    assert(s.drop_first().drop_first().drop_first() =~= Seq::<(Seq<char>, Json)>::empty());
                    assert(field(s, key_method()) is None);
                    assert(field(s, key_id()) == Some(id_json(id)));
                    assert(field(s, key_result()) is None);
                    assert(field(s, key_error()) == Some(error_json(e)));
                    let eb = seq![(key_code(), Json::Int(e.code)), (key_message(), Json::Str(e.message))];
                    match e.data {
                        Some(d) => {
                            let es = eb.push((key_data(), d));
                            assert(es.drop_first().drop_first().drop_first() =~= Seq::<(Seq<char>, Json)>::empty());
                            assert(field(es, key_code()) == Some(Json::Int(e.code)));
                            assert(field(es, key_message()) == Some(Json::Str(e.message)));
                            assert(field(es, key_data()) == Some(d));
                        },
                        None => {
                            assert(eb.drop_first().drop_first() =~= Seq::<(Seq<char>, Json)>::empty());
                            assert(field(eb, key_code()) == Some(Json::Int(e.code)));
                            assert(field(eb, key_message()) == Some(Json::Str(e.message)));
                            assert(field(eb, key_data()) is None);
                        },
                    }
                },
            }
        },
    }
}

fn id_to_json(id: RequestId) -> (r: JsonValue)
    ensures
        r@ == id_json(id@),
{
    match id {
        RequestId::Number(n) => JsonValue::Int(n),
        RequestId::Text(s) => JsonValue::Str(s),
    }
}

fn id_from_json(v: JsonValue) -> (r: Result<RequestId, ProtocolError>)
    ensures
        match r {
            Ok(id) => id_of_json(v@) == Ok::<MsgId, ProtocolError>(id@),
            Err(e) => id_of_json(v@) == Err::<MsgId, ProtocolError>(e),
        },
{
    match v {
        JsonValue::Int(n) => Ok(RequestId::Number(n)),
        JsonValue::Str(s) => Ok(RequestId::Text(s)),
        _ => Err(ProtocolError::InvalidField),
    }
}

impl CallError {
    /// The error object of this error.
    pub fn to_json(self) -> (r: JsonValue)
        ensures
            r@ == error_json(self@),
    {
        let ghost sv = self@;
        let mut e: Vec<(String, JsonValue)> = Vec::new();
        e.push(entry("code", JsonValue::Int(self.code)));
        e.push(entry("message", JsonValue::Str(self.message)));
        let ghost base = e@;
        match self.data {
            Some(d) => {
                e.push(entry("data", d));
            },
            None => {},
        }
        proof {
            lemma_entries_view_index(e@);
            let eb = seq![(key_code(), Json::Int(sv.code)), (key_message(), Json::Str(sv.message))];
            match sv.data {
                Some(d) => {
                    assert(entries_view(e@) =~= eb.push((key_data(), d)));
                },
                None => {
                    assert(entries_view(e@) =~= eb);
                },
            }
        }
        JsonValue::Object(e)
    }

    /// Reads an error object.
    pub fn from_json(v: JsonValue) -> (r: Result<CallError, ProtocolError>)
        ensures
            match r {
                Ok(e) => error_of_json(v@) == Ok::<ErrorView, ProtocolError>(e@),
                Err(e) => error_of_json(v@) == Err::<ErrorView, ProtocolError>(e),
            },
    {
        match v {
            JsonValue::Object(entries) => {
                let mut entries = entries;
                let ghost s = entries_view(entries@);
                proof {
                    lemma_entries_view_index(entries@);
                    lemma_keys_distinct();
                }
                let code = take_field(&mut entries, &String::from_str("code"));
                let ghost s1 = entries_view(entries@);
                let message = take_field(&mut entries, &String::from_str("message"));
                let ghost s2 = entries_view(entries@);
                let data = take_field(&mut entries, &String::from_str("data"));
                proof {
                    assert(field(s1, key_message()) == field(s, key_message()));
                    assert(field(s1, key_data()) == field(s, key_data()));
                    assert(field(s2, key_data()) == field(s1, key_data()));
                    assert(opt_view(data) == field(s, key_data()));
                }
                match (code, message) {
                    (Some(JsonValue::Int(code)), Some(JsonValue::Str(message))) => Ok(
                        CallError { code, message, data },
                    ),
                    _ => Err(ProtocolError::InvalidField),
                }
            },
            _ => Err(ProtocolError::InvalidField),
        }
    }
}

impl RpcMessage {
    /// The JSON object that carries this message.
    pub fn to_json(self) -> (r: JsonValue)
        ensures
            r@ == message_json(self@),
    {
        let mut e: Vec<(String, JsonValue)> = Vec::new();
        e.push(entry("jsonrpc", json_str("2.0")));
        match self {
            RpcMessage::Request { id, method, params } => {
                let ghost mv = self@;
                e.push(entry("id", id_to_json(id)));
                e.push(entry("method", JsonValue::Str(method)));
                e.push(entry("params", params));
                proof {
                    lemma_entries_view_index(e@);
                    assert(entries_view(e@) =~= message_json(mv)->Object_0);
                }
            },
            RpcMessage::Notification { method, params } => {
                let ghost mv = self@;
                e.push(entry("method", JsonValue::Str(method)));
                match params {
                    Some(p) => {
                        e.push(entry("params", p));
                    },
                    None => {},
                }
                proof {
                    lemma_entries_view_index(e@);
                    assert(entries_view(e@) =~= message_json(mv)->Object_0);
                }
            },
            RpcMessage::Response { id, outcome } => {
                let ghost mv = self@;
                e.push(entry("id", id_to_json(id)));
                match outcome {
                    Ok(r) => {
                        e.push(entry("result", r));
                    },
                    Err(err) => {
                        e.push(entry("error", err.to_json()));
                    },
                }
                proof {
                    lemma_entries_view_index(e@);
                    assert(entries_view(e@) =~= message_json(mv)->Object_0);
                }
            },
        }
        JsonValue::Object(e)
    }

    /// Reads a JSON value as a message.
    pub fn from_json(v: JsonValue) -> (r: Result<RpcMessage, ProtocolError>)
        ensures
            match r {
                Ok(m) => message_of_json(v@) == Ok::<Message, ProtocolError>(m@),
                Err(e) => message_of_json(v@) == Err::<Message, ProtocolError>(e),
            },
    {
        match v {
            JsonValue::Object(entries) => {
                let mut entries = entries;
                let ghost s = entries_view(entries@);
                proof {
                    lemma_entries_view_index(entries@);
                    lemma_keys_distinct();
                }
                let id = take_field(&mut entries, &String::from_str("id"));
                let ghost s1 = entries_view(entries@);
                let method = take_field(&mut entries, &String::from_str("method"));
                let ghost s2 = entries_view(entries@);
                let params = take_field(&mut entries, &String::from_str("params"));
                let ghost s3 = entries_view(entries@);
                let result = take_field(&mut entries, &String::from_str("result"));
                let ghost s4 = entries_view(entries@);
                let error = take_field(&mut entries, &String::from_str("error"));
                proof {
                    assert(field(s1, key_method()) == field(s, key_method()));
                    assert(field(s1, key_params()) == field(s, key_params()));
                    assert(field(s1, key_result()) == field(s, key_result()));
                    assert(field(s1, key_error()) == field(s, key_error()));
                    assert(field(s2, key_params()) == field(s1, key_params()));
                    assert(field(s2, key_result()) == field(s1, key_result()));
                    assert(field(s2, key_error()) == field(s1, key_error()));
                    assert(field(s3, key_result()) == field(s2, key_result()));
                    assert(field(s3, key_error()) == field(s2, key_error()));
                    assert(field(s4, key_error()) == field(s3, key_error()));
                    assert(opt_view(id) == field(s, key_id()));
                    assert(opt_view(method) == field(s, key_method()));
                    assert(opt_view(params) == field(s, key_params()));
                    assert(opt_view(result) == field(s, key_result()));
                    assert(opt_view(error) == field(s, key_error()));
                }
                match method {
                    Some(JsonValue::Str(name)) => match id {
                        Some(i) => match id_from_json(i) {
                            Ok(id) => {
                                let params = match params {
                                    Some(p) => p,
                                    None => JsonValue::Null,
                                };
                                Ok(RpcMessage::Request { id, method: name, params })
                            },
                            Err(e) => Err(e),
                        },
                        None => Ok(RpcMessage::Notification { method: name, params }),
                    },
                    Some(_) => Err(ProtocolError::InvalidField),
                    None => match id {
                        Some(i) => match (result, error) {
                            (Some(res), None) => match id_from_json(i) {
                                Ok(id) => Ok(RpcMessage::Response { id, outcome: Ok(res) }),
                                Err(e) => Err(e),
                            },
                            (None, Some(err)) => match id_from_json(i) {
                                Ok(id) => match CallError::from_json(err) {
                                    Ok(ce) => Ok(RpcMessage::Response { id, outcome: Err(ce) }),
                                    Err(e) => Err(e),
                                },
                                Err(e) => Err(e),
                            },
                            _ => Err(ProtocolError::UnrecognisedShape),
                        },
                        None => Err(ProtocolError::UnrecognisedShape),
                    },
                }
            },
            _ => Err(ProtocolError::NotAnObject),
        }
    }
}

/// The model of a tool call's result.
pub enum CallOutcome {
    Success(Json),
    Failure(Json),
}

/// The result of a tool call: a structured success payload or a structured error payload.
#[derive(Debug)]
pub enum ToolCallResult {
    Success(JsonValue),
    Failure(JsonValue),
}

impl View for ToolCallResult {
    type V = CallOutcome;

    open spec fn view(&self) -> CallOutcome {
        match self {
            ToolCallResult::Success(v) => CallOutcome::Success(v@),
            ToolCallResult::Failure(v) => CallOutcome::Failure(v@),
        }
    }
}

pub open spec fn key_structured() -> Seq<char> {
    "structuredContent"@
}

pub open spec fn key_is_error() -> Seq<char> {
    "isError"@
}

/// The JSON object that carries a tool call's result in a response.
pub open spec fn outcome_json(o: CallOutcome) -> Json {
    match o {
        CallOutcome::Success(v) => Json::Object(
            seq![(key_structured(), v), (key_is_error(), Json::Bool(false))],
        ),
        CallOutcome::Failure(v) => Json::Object(
            seq![(key_structured(), v), (key_is_error(), Json::Bool(true))],
        ),
    }
}

impl ToolCallResult {
    pub open spec fn is_error_spec(&self) -> bool {
        self is Failure
    }

    /// Whether this is an error payload.
    pub fn is_error(&self) -> (r: bool)
        ensures
            r == self.is_error_spec(),
    {
        match self {
            ToolCallResult::Success(_) => false,
            ToolCallResult::Failure(_) => true,
        }
    }

    /// The JSON object of this result.
    pub fn to_json(self) -> (r: JsonValue)
        ensures
            r@ == outcome_json(self@),
    {
        let ghost sv = self@;
        let (payload, failed) = match self {
            ToolCallResult::Success(v) => (v, false),
            ToolCallResult::Failure(v) => (v, true),
        };
        let mut e: Vec<(String, JsonValue)> = Vec::new();
        e.push(entry("structuredContent", payload));
        e.push(entry("isError", JsonValue::Bool(failed)));
        proof {
            lemma_entries_view_index(e@);
            assert(entries_view(e@) =~= outcome_json(sv)->Object_0);
        }
        JsonValue::Object(e)
    }
}

/// An object with one text entry.
pub open spec fn text_object(key: Seq<char>, text: Seq<char>) -> Json {
    Json::Object(seq![(key, Json::Str(text))])
}

/// An object with one text entry under `key`.
pub fn text_object_value(key: &str, text: String) -> (r: JsonValue)
    ensures
        r@ == text_object(key@, text@),
{
    let mut e: Vec<(String, JsonValue)> = Vec::new();
    e.push(entry(key, JsonValue::Str(text)));
    proof {
        lemma_entries_view_index(e@);
        assert(entries_view(e@) =~= seq![(key@, Json::Str(text@))]);
    }
    JsonValue::Object(e)
}

/// No character of `s` is a line feed.
pub open spec fn no_newline(s: Seq<char>) -> bool {
    forall|i: int| 0 <= i < s.len() ==> s[i] != '\n'
}

/// The frame of one encoded message: its text and a line feed.
pub fn frame(text: &str) -> (r: String)
    requires
        no_newline(text@),
    ensures
        r@ == text@.push('\n'),
{
    proof {
        reveal_strlit("\n");
    }
    let r = String::from_str(text).concat("\n");
    proof {
        assert(r@ =~= text@.push('\n'));
    }
    r
}

/// Splits off the first line of `buf`: the text before the first line feed, and what follows
/// that line feed. `None` when `buf` holds no line feed yet.
pub fn split_frame(buf: &str) -> (r: Option<(String, String)>)
    ensures
        match r {
            Some((line, rest)) => no_newline(line@) && buf@ == line@ + seq!['\n'] + rest@,
            None => no_newline(buf@),
        },
{
    let n = buf.unicode_len();
    let mut i: usize = 0;
    while i < n
        invariant
            n == buf@.len(),
            i <= n,
            forall|j: int| 0 <= j < i ==> buf@[j] != '\n',
        decreases n - i,
    {
        if buf.get_char(i) == '\n' {
            let line = String::from_str(buf.substring_char(0, i));
            let rest = String::from_str(buf.substring_char(i + 1, n));
            proof {
                assert(buf@ =~= line@ + seq!['\n'] + rest@);
            }
            return Some((line, rest));
        }
        i = i + 1;
    }
    None
}

/// A frame splits back into the text it was made of and what followed it.
pub proof fn lemma_frame_split(text: Seq<char>, rest: Seq<char>, line: Seq<char>, after: Seq<char>)
    requires
        no_newline(text),
        no_newline(line),
        text.push('\n') + rest == line + seq!['\n'] + after,
    ensures
        line == text,
        after == rest,
{
    let b = text.push('\n') + rest;
    assert(b[text.len() as int] == '\n');
    if line.len() < text.len() {
        assert(b[line.len() as int] == '\n');
        assert(b[line.len() as int] == text[line.len() as int]);
    } else if line.len() > text.len() {
        assert(b[text.len() as int] == line[text.len() as int]);
    }
    assert(line =~= b.subrange(0, line.len() as int));
    assert(text =~= b.subrange(0, text.len() as int));
    assert(after =~= b.subrange(line.len() as int + 1, b.len() as int));
    assert(rest =~= b.subrange(text.len() as int + 1, b.len() as int));
}

/// Reading back the JSON object of a message gives a message equal to it.
pub proof fn lemma_encode_decode(m: RpcMessage, v: JsonValue)
    requires
        v@ == message_json(m@),
    ensures
        message_of_json(v@) == Ok::<Message, ProtocolError>(m@),
{
    lemma_message_round_trip(m@);
}

} // verus!
