//! The server side of one connection: the handshake state machine and request handling.

use vstd::prelude::*;

use crate::json::{
    entries_view, entry, field, json_str, lemma_entries_view_index, object_of, take_field, Json,
    JsonValue,
};
use crate::protocol::{outcome_json, CallError, Message, MsgId, RequestId, RpcMessage};
use crate::router::{Dispatch, SystemBackend, ToolRouter, INVALID_PARAMS, METHOD_NOT_FOUND};
use crate::syscmd::{external_kill_outcome, BinSystemCommand, CommandOutcome, KillCommand};

verus! {

/// Where a connection stands in its life.
#[derive(PartialEq, Eq, Structural, Clone, Copy, Debug)]
pub enum ConnectionState {
    /// Nothing has arrived yet.
    Accepted,
    /// Messages have arrived, the handshake is not complete.
    Handshaking,
    /// `initialize` was answered and `notifications/initialized` has arrived.
    Ready,
    /// The connection is over.
    Closed,
}

/// What happened on a connection.
pub enum ConnectionEvent {
    /// A line that decoded into a message.
    Received(RpcMessage),
    /// A line that did not decode.
    Malformed,
    /// The peer closed the stream.
    EndOfStream,
}

/// What the connection loop does next.
pub enum Action {
    /// Nothing to send.
    Nothing,
    /// Send this message.
    Reply(RpcMessage),
    /// Run this command for the request `id`, then hand its outcome to `finish_kill_call`.
    Run { id: RequestId, pid: u32, command: KillCommand },
    /// Close the connection.
    Close,
}

pub open spec fn protocol_version() -> Seq<char> {
    "2024-11-05"@
}

pub open spec fn server_name() -> Seq<char> {
    "copilot_mcp_tool"@
}

pub open spec fn server_version() -> Seq<char> {
    "0.1.0"@
}

/// The result of `initialize`: protocol version, capabilities and server info.
pub open spec fn initialize_result_json() -> Json {
    Json::Object(
        seq![
            ("protocolVersion"@, Json::Str(protocol_version())),
            ("capabilities"@, Json::Object(seq![("tools"@, Json::Object(Seq::empty()))])),
            (
                "serverInfo"@,
                Json::Object(seq![("name"@, Json::Str(server_name())), ("version"@, Json::Str(server_version()))]),
            ),
        ],
    )
}

/// The state after a message arrives in `state`.
pub open spec fn state_after_message(state: ConnectionState, m: Message) -> ConnectionState {
    if state == ConnectionState::Closed {
        ConnectionState::Closed
    } else {
        match m {
            Message::Notification { method, .. } => if method == "notifications/initialized"@ && state
                == ConnectionState::Handshaking {
                ConnectionState::Ready
            } else if state == ConnectionState::Accepted {
                ConnectionState::Handshaking
            } else {
                state
            },
            _ => if state == ConnectionState::Accepted {
                ConnectionState::Handshaking
            } else {
                state
            },
        }
    }
}

/// The tool name and arguments of a `tools/call` request, if its params have them: a
/// string `name`, and `arguments` that are an object or absent (read as `{}`).
pub open spec fn call_params(params: Json) -> Option<(Seq<char>, Json)> {
    match params {
        Json::Object(s) => match field(s, "name"@) {
            Some(Json::Str(name)) => match field(s, "arguments"@) {
                None => Some((name, Json::Object(Seq::empty()))),
                Some(Json::Object(a)) => Some((name, Json::Object(a))),
                _ => None,
            },
            _ => None,
        },
        _ => None,
    }
}

/// The action that answers request `id` with the outcome `d` of a dispatch.
pub open spec fn reply_for(id: RequestId, d: Dispatch, a: Action) -> bool {
    match d {
        Dispatch::Finished(Ok(res)) => a matches Action::Reply(m) && m@ == Message::Response {
            id: id@,
            outcome: Ok(outcome_json(res@)),
        },
        Dispatch::Finished(Err(e)) => a matches Action::Reply(m) && m@ == Message::Response {
            id: id@,
            outcome: Err(e@),
        },
        Dispatch::Run { pid, command } => a matches Action::Run { id: rid, pid: p, command: c } && rid@
            == id@ && p == pid && c == command,
    }
}

/// The server side of a connection: the router, fixed for the server's lifetime.
pub struct EchoServerTool {
    pub router: ToolRouter,
}

impl EchoServerTool {
    pub open spec fn wf(&self) -> bool {
        self.router.wf()
    }

    /// A server with the default tools over `backend`.
    pub fn new(backend: SystemBackend) -> (r: Self)
        ensures
            r.wf(),
            r.router.is_default(backend),
    {
        EchoServerTool { router: ToolRouter::new(backend) }
    }

    /// What one step of a connection does. The end of the stream or a line that does not
    /// decode closes the connection. Requests are answered in every state but `Closed`: the
    /// handshake order is tracked in the state, not enforced.
    pub open spec fn handle_spec(&self, state: ConnectionState, event: ConnectionEvent, r: (ConnectionState, Action)) -> bool {
        match event {
            ConnectionEvent::EndOfStream => r.0 == ConnectionState::Closed && r.1 is Close,
            ConnectionEvent::Malformed => r.0 == ConnectionState::Closed && r.1 is Close,
            ConnectionEvent::Received(m) => {
                &&& r.0 == state_after_message(state, m@)
                &&& state == ConnectionState::Closed ==> r.1 is Nothing
                &&& state != ConnectionState::Closed ==> match m {
                    RpcMessage::Request { id, method, params } => self.request_spec(id, method@, params@, r.1),
                    _ => r.1 is Nothing,
                }
            },
        }
    }

    /// What the reply to a request with `id`, `method` and `params` is.
    pub open spec fn request_spec(&self, id: RequestId, method: Seq<char>, params: Json, a: Action) -> bool {
        if method == "initialize"@ {
            a matches Action::Reply(m) && m@ == Message::Response { id: id@, outcome: Ok(initialize_result_json()) }
        } else if method == "tools/list"@ {
            a matches Action::Reply(m) && m@ == Message::Response {
                id: id@,
                outcome: Ok(crate::router::listing_json(self.router.tools@)),
            }
        } else if method == "tools/call"@ {
            if call_params(params) is None {
                a matches Action::Reply(RpcMessage::Response { id: rid, outcome: Err(e) }) && rid@ == id@
                    && e.code == INVALID_PARAMS
            } else {
                exists|d: Dispatch|
                    #[trigger] self.router.dispatch_spec(
                        call_params(params)->Some_0.0,
                        call_params(params)->Some_0.1,
                        d,
                    ) && reply_for(id, d, a)
            }
        } else {
            a matches Action::Reply(RpcMessage::Response { id: rid, outcome: Err(e) }) && rid@ == id@
                && e.code == METHOD_NOT_FOUND
        }
    }
}

/// The result of `initialize`.
pub fn initialize_result() -> (r: JsonValue)
    ensures
        r@ == initialize_result_json(),
{
    let tools_cap: Vec<(String, JsonValue)> = Vec::new();
    let ghost w0: Seq<(Seq<char>, Json)> = Seq::empty();
    let tools_obj = object_of(tools_cap, Ghost(w0));
    let mut caps: Vec<(String, JsonValue)> = Vec::new();
    caps.push(entry("tools", tools_obj));
    let ghost w1 = seq![("tools"@, Json::Object(Seq::empty()))];
    let caps_obj = object_of(caps, Ghost(w1));
    let mut info: Vec<(String, JsonValue)> = Vec::new();
    info.push(entry("name", json_str("copilot_mcp_tool")));
    info.push(entry("version", json_str("0.1.0")));
    let ghost w2 = seq![("name"@, Json::Str(server_name())), ("version"@, Json::Str(server_version()))];
    let info_obj = object_of(info, Ghost(w2));
    let mut e: Vec<(String, JsonValue)> = Vec::new();
    e.push(entry("protocolVersion", json_str("2024-11-05")));
    e.push(entry("capabilities", caps_obj));
    e.push(entry("serverInfo", info_obj));
    let ghost w3 = initialize_result_json()->Object_0;
    object_of(e, Ghost(w3))
}

/// Reads the tool name and arguments of a `tools/call` request.
pub fn read_call_params(params: JsonValue) -> (r: Option<(String, JsonValue)>)
    ensures
        match r {
            Some((name, args)) => call_params(params@) == Some((name@, args@)),
            None => call_params(params@) is None,
        },
{
    match params {
        JsonValue::Object(entries) => {
            let mut entries = entries;
            let ghost s = entries_view(entries@);
            proof {
                reveal_strlit("name");
                reveal_strlit("arguments");
                assert("name"@.len() != "arguments"@.len());
            }
            let name = take_field(&mut entries, &String::from_str("name"));
            let ghost s1 = entries_view(entries@);
            let args = take_field(&mut entries, &String::from_str("arguments"));
            proof {
                assert(field(s1, "arguments"@) == field(s, "arguments"@));
            }
            match name {
                Some(JsonValue::Str(n)) => match args {
                    None => {
                        let empty: Vec<(String, JsonValue)> = Vec::new();
                        let ghost w: Seq<(Seq<char>, Json)> = Seq::empty();
                        Some((n, object_of(empty, Ghost(w))))
                    },
                    Some(JsonValue::Object(a)) => Some((n, JsonValue::Object(a))),
                    _ => None,
                },
                _ => None,
            }
        },
        _ => None,
    }
}

impl EchoServerTool {
    /// Answers a request.
    pub fn handle_request(&self, id: RequestId, method: String, params: JsonValue) -> (a: Action)
        requires
            self.wf(),
        ensures
            self.request_spec(id, method@, params@, a),
    {
        let ghost idv = id;
        let ghost pv = params@;
        if method == String::from_str("initialize") {
            let a = Action::Reply(RpcMessage::Response { id, outcome: Ok(initialize_result()) });
            proof {
                assert(method@ == "initialize"@);
                assert(self.request_spec(idv, method@, pv, a));
            }
            a
        } else if method == String::from_str("tools/list") {
            let a = Action::Reply(RpcMessage::Response { id, outcome: Ok(self.router.list_value()) });
            proof {
                assert(self.request_spec(idv, method@, pv, a));
            }
            a
        } else if method == String::from_str("tools/call") {
            match read_call_params(params) {
                None => Action::Reply(
                    RpcMessage::Response {
                        id,
                        outcome: Err(
                            CallError::invalid_params(
                                String::from_str(
                                    "tools/call needs a string name and object arguments.",
                                ),
                            ),
                        ),
                    },
                ),
                Some((name, args)) => {
                    let d = self.router.dispatch(name.as_str(), &args);
                    let ghost dg = d;
                    proof {
                        assert(self.router.dispatch_spec(name@, args@, dg));
                    }
                    let a = match d {
                        Dispatch::Finished(Ok(res)) => Action::Reply(
                            RpcMessage::Response { id, outcome: Ok(res.to_json()) },
                        ),
                        Dispatch::Finished(Err(e)) => Action::Reply(
                            RpcMessage::Response { id, outcome: Err(e) },
                        ),
                        Dispatch::Run { pid, command } => Action::Run { id, pid, command },
                    };
                    proof {
                        assert(call_params(pv) == Some((name@, args@)));
                        assert(reply_for(idv, dg, a));
                        let cp = call_params(pv);
                        assert(cp->Some_0.0 == name@);
                        assert(cp->Some_0.1 == args@);
                        assert(self.router.dispatch_spec(cp->Some_0.0, cp->Some_0.1, dg));
                        assert(self.request_spec(idv, method@, pv, a));
                    }
                    a
                },
            }
        } else {
            Action::Reply(
                RpcMessage::Response {
                    id,
                    outcome: Err(CallError::method_not_found(method.as_str())),
                },
            )
        }
    }

    /// One step of a connection: the next state and what to do.
    pub fn handle(&self, state: ConnectionState, event: ConnectionEvent) -> (r: (ConnectionState, Action))
        requires
            self.wf(),
        ensures
            self.handle_spec(state, event, r),
    {
        match event {
            ConnectionEvent::EndOfStream => (ConnectionState::Closed, Action::Close),
            ConnectionEvent::Malformed => (ConnectionState::Closed, Action::Close),
            ConnectionEvent::Received(m) => {
                if state == ConnectionState::Closed {
                    return (ConnectionState::Closed, Action::Nothing);
                }
                let base = if state == ConnectionState::Accepted {
                    ConnectionState::Handshaking
                } else {
                    state
                };
                match m {
                    RpcMessage::Request { id, method, params } => (base, self.handle_request(id, method, params)),
                    RpcMessage::Notification { method, params } => {
                        let next = if method == String::from_str("notifications/initialized") && state
                            == ConnectionState::Handshaking {
                            ConnectionState::Ready
                        } else {
                            base
                        };
                        (next, Action::Nothing)
                    },
                    RpcMessage::Response { .. } => (base, Action::Nothing),
                }
            },
        }
    }

    /// The reply to request `id` once the kill command for `pid` ended as `outcome`.
    pub fn finish_kill_call(&self, id: RequestId, pid: u32, outcome: CommandOutcome) -> (m: RpcMessage)
        ensures
            m@ == (Message::Response { id: id@, outcome: Ok(outcome_json(external_kill_outcome(pid as nat, outcome))) }),
    {
        let res = BinSystemCommand::finish_kill(pid, outcome);
        RpcMessage::Response { id, outcome: Ok(res.to_json()) }
    }
}

/// Whether `a` answers the request `id`: a response with that id, or a command whose
/// outcome `finish_kill_call` turns into one.
pub open spec fn answers(a: Action, id: MsgId) -> bool {
    match a {
        Action::Reply(RpcMessage::Response { id: rid, .. }) => rid@ == id,
        Action::Run { id: rid, .. } => rid@ == id,
        _ => false,
    }
}

/// On an open connection every request is answered exactly once, by one response that
/// carries its id, and no notification or response is answered.
pub proof fn lemma_requests_answered(
    server: EchoServerTool,
    state: ConnectionState,
    m: RpcMessage,
    r: (ConnectionState, Action),
)
    requires
        server.wf(),
        state != ConnectionState::Closed,
        server.handle_spec(state, ConnectionEvent::Received(m), r),
    ensures
        m is Request ==> answers(r.1, m->Request_id@),
        !(m is Request) ==> r.1 is Nothing,
{
    match m {
        RpcMessage::Request { id, method, params } => {
            reveal_strlit("tools/call");
            reveal_strlit("tools/list");
            reveal_strlit("initialize");
            assert("tools/call"@[0] != "initialize"@[0]);
            assert("tools/call"@[6] != "tools/list"@[6]);
            if method@ == "tools/call"@ && call_params(params@) is Some {
                let cp = call_params(params@);
                let d = choose|d: Dispatch|
                    #[trigger] server.router.dispatch_spec(cp->Some_0.0, cp->Some_0.1, d) && reply_for(
                        id,
                        d,
                        r.1,
                    );
                assert(reply_for(id, d, r.1));
            }
        },
        _ => {},
    }
}

} // verus!
