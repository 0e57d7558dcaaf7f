//! The client side of the protocol: the requests it sends, how it reads responses, and the
//! `key=value` arguments of a tool call.

use vstd::prelude::*;

use crate::json::{
    entries_view, entry, find_field, first_index, json_str, lemma_entries_view_index,
    lemma_first_index_raw, object_of, Json, JsonValue,
};
use crate::protocol::{CallError, Message, MsgId, ProtocolError, RequestId, RpcMessage};

verus! {

/// The id that the client gives each request.
pub const REQUEST_ID: i64 = 1;

/// The params of the client's `initialize` request.
pub open spec fn initialize_params_json() -> Json {
    Json::Object(
        seq![
            ("protocolVersion"@, Json::Str("2024-11-05"@)),
            ("capabilities"@, Json::Object(seq![("roots"@, Json::Object(seq![("listChanged"@, Json::Bool(true))]))])),
            (
                "clientInfo"@,
                Json::Object(
                    seq![("name"@, Json::Str("copilot_mcp_tool_client"@)), ("version"@, Json::Str("0.1.0"@))],
                ),
            ),
        ],
    )
}

/// Step one of the handshake: the `initialize` request.
pub fn initialize_request() -> (m: RpcMessage)
    ensures
        m@ == (Message::Request {
            id: MsgId::Num(REQUEST_ID as int),
            method: "initialize"@,
            params: initialize_params_json(),
        }),
{
    let mut listed: Vec<(String, JsonValue)> = Vec::new();
    listed.push(entry("listChanged", JsonValue::Bool(true)));
    let ghost w0 = seq![("listChanged"@, Json::Bool(true))];
    let roots = object_of(listed, Ghost(w0));
    let mut caps: Vec<(String, JsonValue)> = Vec::new();
    caps.push(entry("roots", roots));
    let ghost w1 = seq![("roots"@, Json::Object(w0))];
    let caps = object_of(caps, Ghost(w1));
    let mut info: Vec<(String, JsonValue)> = Vec::new();
    info.push(entry("name", json_str("copilot_mcp_tool_client")));
    info.push(entry("version", json_str("0.1.0")));
    let ghost w2 = seq![("name"@, Json::Str("copilot_mcp_tool_client"@)), ("version"@, Json::Str("0.1.0"@))];
    let info = object_of(info, Ghost(w2));
    let mut e: Vec<(String, JsonValue)> = Vec::new();
    e.push(entry("protocolVersion", json_str("2024-11-05")));
    e.push(entry("capabilities", caps));
    e.push(entry("clientInfo", info));
    let ghost w3 = initialize_params_json()->Object_0;
    let params = object_of(e, Ghost(w3));
    RpcMessage::Request {
        id: RequestId::Number(REQUEST_ID),
        method: String::from_str("initialize"),
        params,
    }
}

/// Step three of the handshake: the `notifications/initialized` notification.
pub fn initialized_notification() -> (m: RpcMessage)
    ensures
        m@ == (Message::Notification { method: "notifications/initialized"@, params: None }),
{
    RpcMessage::Notification { method: String::from_str("notifications/initialized"), params: None }
}

/// The `tools/list` request.
pub fn list_tools_request() -> (m: RpcMessage)
    ensures
        m@ == (Message::Request {
            id: MsgId::Num(REQUEST_ID as int),
            method: "tools/list"@,
            params: Json::Object(Seq::empty()),
        }),
{
    let e: Vec<(String, JsonValue)> = Vec::new();
    let ghost w: Seq<(Seq<char>, Json)> = Seq::empty();
    RpcMessage::Request {
        id: RequestId::Number(REQUEST_ID),
        method: String::from_str("tools/list"),
        params: object_of(e, Ghost(w)),
    }
}

/// The `tools/call` request for tool `name` with `arguments`.
pub fn call_tool_request(name: &str, arguments: JsonValue) -> (m: RpcMessage)
    ensures
        m@ == (Message::Request {
            id: MsgId::Num(REQUEST_ID as int),
            method: "tools/call"@,
            params: Json::Object(seq![("name"@, Json::Str(name@)), ("arguments"@, arguments@)]),
        }),
{
    let ghost w = seq![("name"@, Json::Str(name@)), ("arguments"@, arguments@)];
    let mut e: Vec<(String, JsonValue)> = Vec::new();
    e.push(entry("name", json_str(name)));
    e.push(entry("arguments", arguments));
    RpcMessage::Request {
        id: RequestId::Number(REQUEST_ID),
        method: String::from_str("tools/call"),
        params: object_of(e, Ghost(w)),
    }
}

/// Why a client operation failed.
#[derive(Debug)]
pub enum ClientError {
    /// The server could not be reached.
    Connection,
    /// The server's line was not a message.
    Protocol(ProtocolError),
    /// The server answered with an error.
    Server(CallError),
    /// The server's message was not a response.
    UnexpectedMessage,
}

/// The result that a response carries; an error response becomes `Server`, so that the
/// caller can report it and go on.
pub fn response_result(m: RpcMessage) -> (r: Result<JsonValue, ClientError>)
    ensures
        match m@ {
            Message::Response { outcome: Ok(v), .. } => r matches Ok(x) && x@ == v,
            Message::Response { outcome: Err(e), .. } => r matches Err(ClientError::Server(x)) && x@ == e,
            _ => r matches Err(ClientError::UnexpectedMessage),
        },
{
    match m {
        RpcMessage::Response { outcome: Ok(v), .. } => Ok(v),
        RpcMessage::Response { outcome: Err(e), .. } => Err(ClientError::Server(e)),
        _ => Err(ClientError::UnexpectedMessage),
    }
}

/// Splits `s` at its first '=': the key before it and the value after it.
pub open spec fn split_eq(s: Seq<char>) -> Option<(Seq<char>, Seq<char>)>
    decreases s.len(),
{
    if s.len() == 0 {
        None
    } else if s[0] == '=' {
        Some((Seq::empty(), s.drop_first()))
    } else {
        match split_eq(s.drop_first()) {
            Some((k, v)) => Some((seq![s[0]] + k, v)),
            None => None,
        }
    }
}

pub open spec fn no_eq(s: Seq<char>) -> bool {
    forall|i: int| 0 <= i < s.len() ==> s[i] != '='
}

pub proof fn lemma_split_eq(k: Seq<char>, v: Seq<char>)
    requires
        no_eq(k),
    ensures
        split_eq(k + seq!['='] + v) == Some((k, v)),
    decreases k.len(),
{
    let s = k + seq!['='] + v;
    if k.len() == 0 {
        assert(s.drop_first() =~= v);
    } else {
        assert(s.drop_first() =~= k.drop_first() + seq!['='] + v);
        lemma_split_eq(k.drop_first(), v);
        assert(seq![s[0]] + k.drop_first() =~= k);
    }
}

pub proof fn lemma_split_eq_none(s: Seq<char>)
    requires
        no_eq(s),
    ensures
        split_eq(s) is None,
    decreases s.len(),
{
    if s.len() > 0 {
        lemma_split_eq_none(s.drop_first());
    }
}

/// Splits a `key=value` argument at its first '='.
pub fn split_argument(arg: &str) -> (r: Option<(String, String)>)
    ensures
        match r {
            Some((k, v)) => split_eq(arg@) == Some((k@, v@)),
            None => split_eq(arg@) is None,
        },
{
    let n = arg.unicode_len();
    let mut i: usize = 0;
    while i < n
        invariant
            n == arg@.len(),
            i <= n,
            forall|j: int| 0 <= j < i ==> arg@[j] != '=',
        decreases n - i,
    {
        if arg.get_char(i) == '=' {
            let k = String::from_str(arg.substring_char(0, i));
            let v = String::from_str(arg.substring_char(i + 1, n));
            proof {
                assert(arg@ =~= k@ + seq!['='] + v@);
                lemma_split_eq(k@, v@);
            }
            return Some((k, v));
        }
        i = i + 1;
    }
    proof {
        lemma_split_eq_none(arg@);
    }
    None
}

/// Sets `key` to `v`: the first entry of that key takes the new value, or a new entry goes
/// at the end.
pub open spec fn upsert(s: Seq<(Seq<char>, Json)>, key: Seq<char>, v: Json) -> Seq<(Seq<char>, Json)>
    decreases s.len(),
{
    if s.len() == 0 {
        seq![(key, v)]
    } else if s[0].0 == key {
        s.update(0, (key, v))
    } else {
        seq![s[0]] + upsert(s.drop_first(), key, v)
    }
}

pub proof fn lemma_upsert_at(s: Seq<(Seq<char>, Json)>, key: Seq<char>, v: Json, i: int)
    requires
        first_index(s, key, i),
    ensures
        upsert(s, key, v) == s.update(i, (key, v)),
    decreases i,
{
    if i > 0 {
        lemma_upsert_at(s.drop_first(), key, v, i - 1);
        assert(seq![s[0]] + s.drop_first().update(i - 1, (key, v)) =~= s.update(i, (key, v)));
    }
}

pub proof fn lemma_upsert_absent(s: Seq<(Seq<char>, Json)>, key: Seq<char>, v: Json)
    requires
        forall|j: int| 0 <= j < s.len() ==> s[j].0 != key,
    ensures
        upsert(s, key, v) == s.push((key, v)),
    decreases s.len(),
{
    if s.len() > 0 {
        lemma_upsert_absent(s.drop_first(), key, v);
        assert(seq![s[0]] + s.drop_first().push((key, v)) =~= s.push((key, v)));
    }
}

/// The object that `key=value` arguments make, a later value of a key replacing an earlier
/// one; `None` when an argument has no '='.
pub open spec fn arguments_object(args: Seq<Seq<char>>) -> Option<Seq<(Seq<char>, Json)>>
    decreases args.len(),
{
    if args.len() == 0 {
        Some(Seq::empty())
    } else {
        match arguments_object(args.drop_last()) {
            Some(s) => match split_eq(args.last()) {
                Some((k, v)) => Some(upsert(s, k, Json::Str(v))),
                None => None,
            },
            None => None,
        }
    }
}

pub open spec fn strings_of(v: Seq<String>) -> Seq<Seq<char>> {
    v.map_values(|s: String| s@)
}

/// The arguments object of a `call` from its `key=value` arguments; the first argument
/// without '=' is the error.
pub fn call_arguments(args: &Vec<String>) -> (r: Result<JsonValue, String>)
    ensures
        match r {
            Ok(v) => arguments_object(strings_of(args@)) matches Some(s) && v@ == Json::Object(s),
            Err(bad) => arguments_object(strings_of(args@)) is None && exists|i: int|
                0 <= i < args@.len() && #[trigger] args@[i]@ == bad@ && split_eq(bad@) is None && forall|j: int|
                    0 <= j < i ==> #[trigger] split_eq(args@[j]@) is Some,
        },
{
    let mut entries: Vec<(String, JsonValue)> = Vec::new();
    let mut i: usize = 0;
    while i < args.len()
        invariant
            i <= args@.len(),
            arguments_object(strings_of(args@.subrange(0, i as int))) == Some(entries_view(entries@)),
            forall|j: int| 0 <= j < i ==> #[trigger] split_eq(args@[j]@) is Some,
        decreases args@.len() - i,
    {
        proof {
            assert(strings_of(args@.subrange(0, i as int + 1)).drop_last() =~= strings_of(
                args@.subrange(0, i as int),
            ));
            assert(strings_of(args@.subrange(0, i as int + 1)).last() == args@[i as int]@);
        }
        match split_argument(args[i].as_str()) {
            None => {
                proof {
                    assert(arguments_object(strings_of(args@.subrange(0, i as int + 1))) is None);
                    lemma_none_extends(args@, i as int + 1);
                }
                return Err(args[i].clone());
            },
            Some((k, v)) => {
                let ghost before = entries@;
                let ghost sv = entries_view(before);
                match find_field(&entries, &k) {
                    Some(j) => {
                        proof {
                            lemma_first_index_raw(before, k@, j as int);
                            lemma_upsert_at(sv, k@, Json::Str(v@), j as int);
                        }
                        entries.set(j, (k, JsonValue::Str(v)));
                        proof {
                            lemma_entries_view_index(before);
                            lemma_entries_view_index(entries@);
                            assert(entries_view(entries@) =~= sv.update(j as int, (k@, Json::Str(v@))));
                        }
                    },
                    None => {
                        proof {
                            lemma_entries_view_index(before);
                            assert forall|j: int| 0 <= j < sv.len() implies sv[j].0 != k@ by {
                                assert(sv[j] == (before[j].0@, before[j].1@));
                            }
                            lemma_upsert_absent(sv, k@, Json::Str(v@));
                        }
                        entries.push((k, JsonValue::Str(v)));
                        proof {
                            lemma_entries_view_index(entries@);
                            assert(entries_view(entries@) =~= sv.push((k@, Json::Str(v@))));
                        }
                    },
                }
            },
        }
        i = i + 1;
    }
    proof {
        assert(args@.subrange(0, args@.len() as int) =~= args@);
    }
    Ok(JsonValue::Object(entries))
}

pub proof fn lemma_none_extends(args: Seq<String>, n: int)
    requires
        0 <= n <= args.len(),
        arguments_object(strings_of(args.subrange(0, n))) is None,
    ensures
        arguments_object(strings_of(args)) is None,
    decreases args.len() - n,
{
    if n < args.len() {
        assert(strings_of(args.subrange(0, n + 1)).drop_last() =~= strings_of(args.subrange(0, n)));
        lemma_none_extends(args, n + 1);
    } else {
        assert(args.subrange(0, n) =~= args);
    }
}

} // verus!
