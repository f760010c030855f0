//! The typed client layer over a transport: the initialization state
//! machine, the builders for the protocol's requests, and the decisions the
//! client takes on what servers send back.
//!
//! Two of those decisions are deliberate interoperability choices: a
//! `method not found` error from a listing call means the capability is
//! simply absent, and a tool result that does not conform to the tool-call
//! payload is wrapped as one text item carrying its pretty-printed JSON.

use vstd::prelude::*;

verus! {

use crate::json::{JsonValue, pretty_bytes_of, to_json_bytes_pretty, bytes_to_string, lossy_utf8};
use crate::messages::{JsonRpcId, JsonRpcRequest, JsonRpcResponse, JsonRpcNotification,
    wf_message, JsonRpcMessage};
use crate::errors::{McpError, ProtocolError, METHOD_NOT_FOUND};
use crate::tools::{Implementation, CallToolResponse, ToolResult, call_tool_content_of_json,
    call_tool_is_error_of_json};

/// Where initialization stands. Only `Ready` permits tool, resource and
/// prompt calls; `Failed` is terminal, `Retrying` returns to the failed step.
#[derive(Debug, PartialEq)]
pub enum NegotiationState {
    Idle,
    Connecting { transport_type: String },
    Initializing { protocol_version: String },
    Awaiting { timeout_remaining_ms: u64 },
    Processing { capability_count: usize },
    Finalizing { notifications_pending: usize },
    Ready { session_id: String },
    Retrying { attempt: u32, reason: String },
    Failed { reason: String },
}

impl NegotiationState {
    /// Whether typed calls are permitted: only in the ready state.
    pub fn calls_permitted(&self) -> (r: bool)
        ensures
            r == (self matches NegotiationState::Ready { .. }),
    {
        matches!(self, NegotiationState::Ready { .. })
    }

    /// Whether the state is terminal.
    pub fn is_terminal(&self) -> (r: bool)
        ensures
            r == (self matches NegotiationState::Failed { .. }),
    {
        matches!(self, NegotiationState::Failed { .. })
    }
}

/// The forward step order of the handshake: each state hands over to the
/// next, the `initialized` notification standing exactly between finalizing
/// and ready.
pub open spec fn handshake_order(s: NegotiationState) -> Option<int> {
    match s {
        NegotiationState::Idle => Some(0),
        NegotiationState::Connecting { .. } => Some(1),
        NegotiationState::Initializing { .. } => Some(2),
        NegotiationState::Awaiting { .. } => Some(3),
        NegotiationState::Processing { .. } => Some(4),
        NegotiationState::Finalizing { .. } => Some(5),
        NegotiationState::Ready { .. } => Some(6),
        _ => None,
    }
}

/// Whether one handshake state may directly follow another: one forward step
/// at a time, or a branch to retrying or failed.
pub open spec fn valid_transition(from: NegotiationState, to: NegotiationState) -> bool {
    match (handshake_order(from), handshake_order(to)) {
        (Some(a), Some(b)) => b == a + 1,
        (Some(_), None) => true,
        (None, _) => from matches NegotiationState::Retrying { .. },
    }
}

/// Whether one state may directly follow another in a running handshake.
pub fn is_valid_transition(from: &NegotiationState, to: &NegotiationState) -> (r: bool)
    ensures
        r == valid_transition(*from, *to),
{
    let from_order = handshake_position(from);
    let to_order = handshake_position(to);
    match (from_order, to_order) {
        (Some(a), Some(b)) => b == a + 1,
        (Some(_), None) => true,
        (None, _) => matches!(from, NegotiationState::Retrying { .. }),
    }
}

/// The handshake position of a state, if it lies on the forward path.
fn handshake_position(s: &NegotiationState) -> (r: Option<u8>)
    ensures
        match r {
            Some(n) => handshake_order(*s) == Some(n as int),
            None => handshake_order(*s) is None,
        },
{
    match s {
        NegotiationState::Idle => Some(0),
        NegotiationState::Connecting { .. } => Some(1),
        NegotiationState::Initializing { .. } => Some(2),
        NegotiationState::Awaiting { .. } => Some(3),
        NegotiationState::Processing { .. } => Some(4),
        NegotiationState::Finalizing { .. } => Some(5),
        NegotiationState::Ready { .. } => Some(6),
        _ => None,
    }
}

/// Stepping one position forward along the handshake, or branching off it,
/// is always a valid transition; only the retrying state re-enters the path.
pub proof fn lemma_handshake_steps_are_valid(a: NegotiationState, b: NegotiationState)
    ensures
        (handshake_order(a) matches Some(x) && handshake_order(b) == Some(x + 1))
            ==> valid_transition(a, b),
        (handshake_order(a) is Some && handshake_order(b) is None) ==> valid_transition(a, b),
{
}

/// The handshake path itself, materialized: the seven states a successful
/// run passes through, idle first and ready last, each following the one
/// before it by a valid transition. The closing notification is sent between
/// the sixth state and the seventh.
pub fn handshake_path(
    transport_type: &str,
    protocol_version: &str,
    timeout_ms: u64,
    capability_count: usize,
    session_id: String,
) -> (r: Vec<NegotiationState>)
    ensures
        r@.len() == 7,
        r@[0] == NegotiationState::Idle,
        forall|k: int| 0 <= k < 7 ==> handshake_order(#[trigger] r@[k]) == Some(k),
        forall|k: int| 0 <= k < 6 ==> valid_transition(#[trigger] r@[k], r@[k + 1]),
        r@[5] matches NegotiationState::Finalizing { notifications_pending } &&
            notifications_pending == 1,
        r@[6] matches NegotiationState::Ready { session_id: sid } && sid == session_id,
{
    let mut r: Vec<NegotiationState> = Vec::new();
    r.push(NegotiationState::Idle);
    r.push(NegotiationState::Connecting { transport_type: String::from_str(transport_type) });
    r.push(NegotiationState::Initializing {
        protocol_version: String::from_str(protocol_version),
    });
    r.push(NegotiationState::Awaiting { timeout_remaining_ms: timeout_ms });
    r.push(NegotiationState::Processing { capability_count });
    r.push(NegotiationState::Finalizing { notifications_pending: 1 });
    r.push(NegotiationState::Ready { session_id });
    r
}

/// Builds the `initialize` request: the declared protocol version, an empty
/// capability set, and the client's identity, under the fixed handshake id.
pub fn build_initialize_request(client_info: Implementation, protocol_version: &str) -> (r:
    JsonRpcRequest)
    ensures
        wf_message(JsonRpcMessage::Request(r)),
        r.id matches JsonRpcId::Str(id) && id@ == "init_1"@,
        r.method@ == "initialize"@,
        r.params matches Some(p) && crate::json::get_field(p, "protocol_version"@) matches Some(
            JsonValue::Str(pv),
        ) && pv@ == protocol_version@,
{
    proof {
        reveal_strlit("protocol_version");
        reveal_strlit("capabilities");
        reveal_strlit("client_info");
        reveal_strlit("name");
        reveal_strlit("version");
        assert("protocol_version"@.len() == 16 && "capabilities"@.len() == 12
            && "client_info"@.len() == 11);
    }
    let mut ci: Vec<(String, JsonValue)> = Vec::new();
    ci.push((String::from_str("name"), JsonValue::Str(client_info.name)));
    ci.push((String::from_str("version"), JsonValue::Str(client_info.version)));
    let caps: Vec<(String, JsonValue)> = Vec::new();
    let mut p: Vec<(String, JsonValue)> = Vec::new();
    p.push((String::from_str("protocol_version"), JsonValue::Str(String::from_str(
        protocol_version,
    ))));
    p.push((String::from_str("capabilities"), JsonValue::Obj(caps)));
    p.push((String::from_str("client_info"), JsonValue::Obj(ci)));
    proof {
        crate::messages::lemma_obj_lookup_unfold(p@);
        crate::messages::lemma_obj_lookup_unfold(p@.drop_first());
        crate::messages::lemma_obj_lookup_unfold(p@.drop_first().drop_first());
    }
    JsonRpcRequest::new(
        JsonRpcId::Str(String::from_str("init_1")),
        "initialize",
        Some(JsonValue::Obj(p)),
    )
}

/// The `initialized` notification, sent exactly once after the capabilities
/// are processed and before the client is ready.
pub fn initialized_notification() -> (r: JsonRpcNotification)
    ensures
        wf_message(JsonRpcMessage::Notification(r)),
        r.method@ == "initialized"@,
        r.params matches Some(p) && p matches JsonValue::Obj(o) && o@.len() == 0,
{
    let o: Vec<(String, JsonValue)> = Vec::new();
    JsonRpcNotification::new("initialized", Some(JsonValue::Obj(o)))
}

/// Builds a `tools/call` request for the named tool under the given id.
pub fn build_call_tool_request(id: JsonRpcId, name: &str, arguments: Option<JsonValue>) -> (r:
    JsonRpcRequest)
    ensures
        wf_message(JsonRpcMessage::Request(r)),
        r.id == id,
        r.method@ == "tools/call"@,
        r.params matches Some(p) && crate::json::get_field(p, "name"@) matches Some(
            JsonValue::Str(n),
        ) && n@ == name@,
{
    proof {
        reveal_strlit("name");
        reveal_strlit("arguments");
        assert("name"@.len() == 4 && "arguments"@.len() == 9);
    }
    let mut p: Vec<(String, JsonValue)> = Vec::new();
    p.push((String::from_str("name"), JsonValue::Str(String::from_str(name))));
    match arguments {
        Some(a) => {
            p.push((String::from_str("arguments"), a));
        },
        None => {},
    }
    proof {
        crate::messages::lemma_obj_lookup_unfold(p@);
        crate::messages::lemma_obj_lookup_unfold(p@.drop_first());
    }
    JsonRpcRequest::new(id, "tools/call", Some(JsonValue::Obj(p)))
}

/// How a typed listing call reads a response.
#[derive(Debug, PartialEq)]
pub enum ListOutcome {
    /// The server answered; the payload is the `result` member.
    Listed(JsonValue),
    /// The server does not provide the method: the capability is absent and
    /// the caller reports an empty list rather than an error.
    Unsupported,
    /// The server answered with some other error, surfaced verbatim.
    Failed(i32),
}

/// Classifies a response to a listing call: a well-formed `method not found`
/// error means the capability is simply unsupported; any other error is
/// surfaced; a result is handed to the caller's decoder.
pub fn classify_list_response(resp: JsonRpcResponse) -> (r: ListOutcome)
    requires
        wf_message(JsonRpcMessage::Response(resp)),
    ensures
        match resp.error {
            Some(e) => {
                if e.code == METHOD_NOT_FOUND {
                    r == ListOutcome::Unsupported
                } else {
                    r == ListOutcome::Failed(e.code)
                }
            },
            None => resp.result matches Some(v) && r == ListOutcome::Listed(v),
        },
{
    match resp.error {
        Some(e) => {
            if e.code == METHOD_NOT_FOUND {
                ListOutcome::Unsupported
            } else {
                ListOutcome::Failed(e.code)
            }
        },
        None => {
            match resp.result {
                Some(v) => ListOutcome::Listed(v),
                None => {
                    proof {
                        assert(false);
                    }
                    ListOutcome::Unsupported
                },
            }
        },
    }
}

/// What the tool-call fallback produces for a payload: one text item holding
/// the payload's indented JSON, not an error.
pub open spec fn fallback_text(v: JsonValue) -> Seq<char> {
    lossy_utf8(pretty_bytes_of(v, Seq::empty()))
}

/// Reads a tool-call result. A payload that conforms to the tool-call shape
/// and carries content is returned as decoded. Anything else — a shape the
/// decoder rejects, or one without content, as real servers commonly return —
/// is wrapped as a single text item holding the pretty-printed payload, with
/// the error flag clear: a deliberate interoperability choice, not a failure.
/// A response with no result at all fails.
pub fn call_tool_outcome(result: Option<JsonValue>) -> (r: Result<CallToolResponse, McpError>)
    ensures
        match result {
            None => r is Err,
            Some(v) => {
                &&& r matches Ok(c)
                &&& {
                    if call_tool_content_of_json(v) matches Some(items) && items.len() > 0
                        && call_tool_is_error_of_json(v) is Some {
                        c.content@ == call_tool_content_of_json(v)->Some_0 && Some(c.is_error)
                            == call_tool_is_error_of_json(v)
                    } else {
                        c.content@.len() == 1 && (c.content@[0] matches ToolResult::Text { text }
                            && text@ == fallback_text(v)) && c.is_error == Some(false)
                    }
                }
            },
        },
{
    let v = match result {
        Some(v) => v,
        None => {
            return Err(McpError::Protocol(ProtocolError::RequestFailed {
                reason: String::from_str("no result in tool call response"),
            }));
        },
    };
    match crate::tools::decode_call_tool_response(&v) {
        Some(c) => {
            if c.content.len() > 0 {
                return Ok(c);
            }
        },
        None => {},
    }
    let pretty = to_json_bytes_pretty(&v);
    let text = bytes_to_string(pretty.as_slice());
    let mut content: Vec<ToolResult> = Vec::new();
    content.push(ToolResult::Text { text });
    Ok(CallToolResponse { content, is_error: Some(false) })
}

} // verus!
