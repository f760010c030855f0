//! JSON-RPC 2.0 envelopes: requests, responses and notifications.
//!
//! The decoder is specified by `decode_spec`, a total function from a JSON
//! value to either an envelope or a rejection; the encoder's contract states
//! that decoding what it built gives back exactly the original envelope, so
//! the encode/decode round trip is part of the encoder's interface. A
//! response must carry exactly one of `result` and `error`; the decoder
//! rejects anything else.

use vstd::prelude::*;

verus! {

use crate::json::{JsonValue, obj_lookup, to_json_bytes, json_bytes_of, parse_json_bytes,
    json_parsed};

/// A request id: the string-or-integer distinction is kept on the wire.
#[derive(Debug, Clone, PartialEq, Eq)]
pub enum JsonRpcId {
    Str(String),
    Int(i64),
}

/// A well-formed JSON-RPC error object.
#[derive(Debug, PartialEq)]
pub struct JsonRpcError {
    pub code: i32,
    pub message: String,
    pub data: Option<JsonValue>,
}

/// A client-to-server (or server-to-client) call that awaits a response.
#[derive(Debug, PartialEq)]
pub struct JsonRpcRequest {
    pub jsonrpc: String,
    pub id: JsonRpcId,
    pub method: String,
    pub params: Option<JsonValue>,
}

/// The answer to a request, carrying exactly one of `result` and `error`.
#[derive(Debug, PartialEq)]
pub struct JsonRpcResponse {
    pub jsonrpc: String,
    pub id: JsonRpcId,
    pub result: Option<JsonValue>,
    pub error: Option<JsonRpcError>,
}

/// A fire-and-forget message: no id, no response.
#[derive(Debug, PartialEq)]
pub struct JsonRpcNotification {
    pub jsonrpc: String,
    pub method: String,
    pub params: Option<JsonValue>,
}

/// Any of the three envelope variants.
#[derive(Debug, PartialEq)]
pub enum JsonRpcMessage {
    Request(JsonRpcRequest),
    Response(JsonRpcResponse),
    Notification(JsonRpcNotification),
}

/// Why a JSON value was rejected as an envelope.
#[derive(Debug, Clone, PartialEq, Eq)]
pub enum DecodeError {
    /// The bytes did not parse as a JSON document.
    NotJson,
    /// The document is not a JSON object.
    NotAnObject,
    /// The `jsonrpc` field is missing or is not the string `2.0`.
    BadVersion,
    /// The `id` field is neither a string nor a 64-bit integer.
    BadId,
    /// A message without an id carries no `method` string.
    MissingMethod,
    /// The `method` field is present but is not a string.
    BadMethod,
    /// A response's `error` member is not a well-formed error object.
    BadErrorObject,
    /// A response carries both `result` and `error`.
    BothResultAndError,
    /// A response carries neither `result` nor `error`.
    NeitherResultNorError,
}

/// The envelope is well formed: the version literal is right, and a response
/// carries exactly one of `result` and `error`.
pub open spec fn wf_message(m: JsonRpcMessage) -> bool {
    match m {
        JsonRpcMessage::Request(q) => q.jsonrpc@ == "2.0"@,
        JsonRpcMessage::Response(p) => p.jsonrpc@ == "2.0"@ && (p.result is Some)
            != (p.error is Some),
        JsonRpcMessage::Notification(n) => n.jsonrpc@ == "2.0"@,
    }
}

/// The JSON form of a request id.
pub open spec fn json_of_id(id: JsonRpcId) -> JsonValue {
    match id {
        JsonRpcId::Str(s) => JsonValue::Str(s),
        JsonRpcId::Int(n) => JsonValue::Int(n),
    }
}

/// The request id a JSON value stands for, if any.
pub open spec fn id_of_json(v: JsonValue) -> Option<JsonRpcId> {
    match v {
        JsonValue::Str(s) => Some(JsonRpcId::Str(s)),
        JsonValue::Int(n) => Some(JsonRpcId::Int(n)),
        _ => None,
    }
}

/// The error object a JSON value stands for, if any: an object with an
/// integer `code` that fits `i32`, a string `message`, and optional `data`.
pub open spec fn error_of_json(v: JsonValue) -> Option<JsonRpcError> {
    match v {
        JsonValue::Obj(o) => {
            match (obj_lookup(o@, "code"@), obj_lookup(o@, "message"@)) {
                (Some(JsonValue::Int(c)), Some(JsonValue::Str(msg))) => {
                    if i32::MIN <= c <= i32::MAX {
                        Some(JsonRpcError { code: c as i32, message: msg,
                            data: obj_lookup(o@, "data"@) })
                    } else {
                        None
                    }
                },
                _ => None,
            }
        },
        _ => None,
    }
}

/// What decoding a JSON value yields: the envelope it stands for, or the
/// exact reason it is rejected. An object with an id and a `method` is a
/// request; with an id and no `method` it is a response and must carry
/// exactly one of `result` and `error`; without an id it is a notification.
pub open spec fn decode_spec(v: JsonValue) -> Result<JsonRpcMessage, DecodeError> {
    match v {
        JsonValue::Obj(o) => {
            let fields = o@;
            if obj_lookup(fields, "jsonrpc"@) matches Some(JsonValue::Str(ver))
                && ver@ == "2.0"@ {
                decode_classified(
                    obj_lookup(fields, "jsonrpc"@)->Some_0,
                    obj_lookup(fields, "id"@),
                    obj_lookup(fields, "method"@),
                    obj_lookup(fields, "params"@),
                    obj_lookup(fields, "result"@),
                    obj_lookup(fields, "error"@),
                )
            } else {
                Err(DecodeError::BadVersion)
            }
        },
        _ => Err(DecodeError::NotAnObject),
    }
}

/// Classification of an envelope's extracted members; `ver` is the value of
/// the `jsonrpc` field, already known to be the string `2.0`.
pub open spec fn decode_classified(
    ver: JsonValue,
    id: Option<JsonValue>,
    method: Option<JsonValue>,
    params: Option<JsonValue>,
    result: Option<JsonValue>,
    error: Option<JsonValue>,
) -> Result<JsonRpcMessage, DecodeError> {
    match id {
        Some(idv) => {
            match id_of_json(idv) {
                Some(rid) => {
                    match method {
                        Some(JsonValue::Str(m)) => Ok(JsonRpcMessage::Request(JsonRpcRequest {
                            jsonrpc: ver->Str_0,
                            id: rid,
                            method: m,
                            params,
                        })),
                        Some(_) => Err(DecodeError::BadMethod),
                        None => {
                            if result is Some && error is Some {
                                Err(DecodeError::BothResultAndError)
                            } else if result is None && error is None {
                                Err(DecodeError::NeitherResultNorError)
                            } else if error is Some {
                                match error_of_json(error->0) {
                                    Some(e) => Ok(JsonRpcMessage::Response(JsonRpcResponse {
                                        jsonrpc: ver->Str_0,
                                        id: rid,
                                        result: None,
                                        error: Some(e),
                                    })),
                                    None => Err(DecodeError::BadErrorObject),
                                }
                            } else {
                                Ok(JsonRpcMessage::Response(JsonRpcResponse {
                                    jsonrpc: ver->Str_0,
                                    id: rid,
                                    result,
                                    error: None,
                                }))
                            }
                        },
                    }
                },
                None => Err(DecodeError::BadId),
            }
        },
        None => {
            match method {
                Some(JsonValue::Str(m)) => Ok(JsonRpcMessage::Notification(JsonRpcNotification {
                    jsonrpc: ver->Str_0,
                    method: m,
                    params,
                })),
                Some(_) => Err(DecodeError::BadMethod),
                None => Err(DecodeError::MissingMethod),
            }
        },
    }
}

/// The envelope member names are pairwise distinct strings.
pub proof fn lemma_envelope_keys_distinct()
    ensures
        "jsonrpc"@.len() == 7,
        "id"@.len() == 2,
        "method"@.len() == 6,
        "params"@.len() == 6,
        "result"@.len() == 6,
        "error"@.len() == 5,
        "code"@.len() == 4,
        "message"@.len() == 7,
        "data"@.len() == 4,
        "jsonrpc"@ != "id"@ && "jsonrpc"@ != "method"@ && "jsonrpc"@ != "params"@,
        "jsonrpc"@ != "result"@ && "jsonrpc"@ != "error"@,
        "id"@ != "method"@ && "id"@ != "params"@ && "id"@ != "result"@ && "id"@ != "error"@,
        "method"@ != "params"@ && "method"@ != "result"@ && "method"@ != "error"@,
        "params"@ != "result"@ && "params"@ != "error"@,
        "result"@ != "error"@,
        "code"@ != "message"@ && "code"@ != "data"@ && "message"@ != "data"@,
{
    reveal_strlit("jsonrpc");
    reveal_strlit("id");
    reveal_strlit("method");
    reveal_strlit("params");
    reveal_strlit("result");
    reveal_strlit("error");
    reveal_strlit("code");
    reveal_strlit("message");
    reveal_strlit("data");
    assert("method"@[0] == 'm' && "params"@[0] == 'p' && "result"@[0] == 'r');
    assert("method"@ != "params"@ && "method"@ != "result"@ && "params"@ != "result"@);
    assert("code"@[0] == 'c' && "data"@[0] == 'd');
    assert("code"@ != "data"@);
}

/// One unfolding step of `obj_lookup`, for every key at once.
pub proof fn lemma_obj_lookup_unfold(s: Seq<(String, JsonValue)>)
    ensures
        forall|key: Seq<char>| #![all_triggers]
            obj_lookup(s, key) == (if s.len() == 0 {
                None::<JsonValue>
            } else if s[0].0@ == key {
                Some(s[0].1)
            } else {
                obj_lookup(s.drop_first(), key)
            }),
{
    assert forall|key: Seq<char>| #![all_triggers]
        obj_lookup(s, key) == (if s.len() == 0 {
            None::<JsonValue>
        } else if s[0].0@ == key {
            Some(s[0].1)
        } else {
            obj_lookup(s.drop_first(), key)
        }) by {
        reveal_with_fuel(obj_lookup, 1);
    }
}

/// The JSON form of a request id.
pub fn id_to_json(id: JsonRpcId) -> (r: JsonValue)
    ensures
        r == json_of_id(id),
{
    match id {
        JsonRpcId::Str(s) => JsonValue::Str(s),
        JsonRpcId::Int(n) => JsonValue::Int(n),
    }
}

/// Encodes an envelope as a JSON object. Decoding the result gives back
/// exactly the envelope that was encoded: the round trip holds by contract,
/// with the string-or-integer id distinction kept.
pub fn encode_message(m: JsonRpcMessage) -> (r: JsonValue)
    requires
        wf_message(m),
    ensures
        decode_spec(r) == Ok::<JsonRpcMessage, DecodeError>(m),
{
    proof {
        reveal_strlit("jsonrpc");
        reveal_strlit("id");
        reveal_strlit("method");
        reveal_strlit("params");
        reveal_strlit("result");
        reveal_strlit("error");
        reveal_strlit("code");
        reveal_strlit("message");
        reveal_strlit("data");
        reveal_strlit("2.0");
    }
    match m {
        JsonRpcMessage::Request(q) => {
            let ghost qq = q;
            let mut o: Vec<(String, JsonValue)> = Vec::new();
            o.push((String::from_str("jsonrpc"), JsonValue::Str(q.jsonrpc)));
            o.push((String::from_str("id"), id_to_json(q.id)));
            o.push((String::from_str("method"), JsonValue::Str(q.method)));
            match q.params {
                Some(p) => {
                    o.push((String::from_str("params"), p));
                },
                None => {},
            }
            proof {
                lemma_envelope_keys_distinct();
                reveal_strlit("2.0");
                let s0 = o@;
                lemma_obj_lookup_unfold(s0);
                lemma_obj_lookup_unfold(s0.drop_first());
                lemma_obj_lookup_unfold(s0.drop_first().drop_first());
                lemma_obj_lookup_unfold(s0.drop_first().drop_first().drop_first());
                lemma_obj_lookup_unfold(
                    s0.drop_first().drop_first().drop_first().drop_first());
                assert(obj_lookup(s0, "jsonrpc"@) == Some(JsonValue::Str(qq.jsonrpc)));
                assert(obj_lookup(s0, "id"@) == Some(json_of_id(qq.id)));
                assert(obj_lookup(s0, "method"@) == Some(JsonValue::Str(qq.method)));
                assert(obj_lookup(s0, "params"@) == qq.params);
                assert(obj_lookup(s0, "result"@) is None);
                assert(obj_lookup(s0, "error"@) is None);
                assert(id_of_json(json_of_id(qq.id)) == Some(qq.id));
                assert(m == JsonRpcMessage::Request(qq));
            }
            JsonValue::Obj(o)
        },
        JsonRpcMessage::Response(p) => {
            let ghost pp = p;
            let mut o: Vec<(String, JsonValue)> = Vec::new();
            o.push((String::from_str("jsonrpc"), JsonValue::Str(p.jsonrpc)));
            o.push((String::from_str("id"), id_to_json(p.id)));
            match p.result {
                Some(res) => {
                    o.push((String::from_str("result"), res));
                },
                None => {},
            }
            match p.error {
                Some(e) => {
                    let mut eo: Vec<(String, JsonValue)> = Vec::new();
                    eo.push((String::from_str("code"), JsonValue::Int(e.code as i64)));
                    eo.push((String::from_str("message"), JsonValue::Str(e.message)));
                    match e.data {
                        Some(d) => {
                            eo.push((String::from_str("data"), d));
                        },
                        None => {},
                    }
                    proof {
                        lemma_envelope_keys_distinct();
                        let t0 = eo@;
                        lemma_obj_lookup_unfold(t0);
                        lemma_obj_lookup_unfold(t0.drop_first());
                        lemma_obj_lookup_unfold(t0.drop_first().drop_first());
                        lemma_obj_lookup_unfold(t0.drop_first().drop_first().drop_first());
                    }
                    o.push((String::from_str("error"), JsonValue::Obj(eo)));
                },
                None => {},
            }
            proof {
                lemma_envelope_keys_distinct();
                reveal_strlit("2.0");
                let s0 = o@;
                lemma_obj_lookup_unfold(s0);
                lemma_obj_lookup_unfold(s0.drop_first());
                lemma_obj_lookup_unfold(s0.drop_first().drop_first());
                lemma_obj_lookup_unfold(s0.drop_first().drop_first().drop_first());
            }
            JsonValue::Obj(o)
        },
        JsonRpcMessage::Notification(n) => {
            let ghost nn = n;
            let mut o: Vec<(String, JsonValue)> = Vec::new();
            o.push((String::from_str("jsonrpc"), JsonValue::Str(n.jsonrpc)));
            o.push((String::from_str("method"), JsonValue::Str(n.method)));
            match n.params {
                Some(p) => {
                    o.push((String::from_str("params"), p));
                },
                None => {},
            }
            proof {
                lemma_envelope_keys_distinct();
                reveal_strlit("2.0");
                let s0 = o@;
                lemma_obj_lookup_unfold(s0);
                lemma_obj_lookup_unfold(s0.drop_first());
                lemma_obj_lookup_unfold(s0.drop_first().drop_first());
                lemma_obj_lookup_unfold(s0.drop_first().drop_first().drop_first());
            }
            JsonValue::Obj(o)
        },
    }
}


/// Decodes a JSON value into an envelope, returning exactly what
/// `decode_spec` prescribes.
pub fn decode_message(v: JsonValue) -> (r: Result<JsonRpcMessage, DecodeError>)
    ensures
        r == decode_spec(v),
{
    proof {
        lemma_envelope_keys_distinct();
    }
    let mut o: Vec<(String, JsonValue)> = match v {
        JsonValue::Obj(fields) => fields,
        _ => {
            return Err(DecodeError::NotAnObject);
        },
    };
    let ghost full = o@;
    let k_jsonrpc = String::from_str("jsonrpc");
    let k_id = String::from_str("id");
    let k_method = String::from_str("method");
    let k_params = String::from_str("params");
    let k_result = String::from_str("result");
    let k_error = String::from_str("error");
    let mut f_ver: Option<JsonValue> = None;
    let mut f_id: Option<JsonValue> = None;
    let mut f_method: Option<JsonValue> = None;
    let mut f_params: Option<JsonValue> = None;
    let mut f_result: Option<JsonValue> = None;
    let mut f_error: Option<JsonValue> = None;
    proof {
        assert(full.subrange(full.len() as int, full.len() as int) =~= Seq::empty());
        lemma_obj_lookup_unfold(full.subrange(full.len() as int, full.len() as int));
    }
    while o.len() > 0
        invariant
            o@ =~= full.subrange(0, o@.len() as int),
            o@.len() <= full.len(),
            k_jsonrpc@ == "jsonrpc"@ && k_id@ == "id"@ && k_method@ == "method"@,
            k_params@ == "params"@ && k_result@ == "result"@ && k_error@ == "error"@,
            f_ver == obj_lookup(full.subrange(o@.len() as int, full.len() as int), "jsonrpc"@),
            f_id == obj_lookup(full.subrange(o@.len() as int, full.len() as int), "id"@),
            f_method == obj_lookup(full.subrange(o@.len() as int, full.len() as int), "method"@),
            f_params == obj_lookup(full.subrange(o@.len() as int, full.len() as int), "params"@),
            f_result == obj_lookup(full.subrange(o@.len() as int, full.len() as int), "result"@),
            f_error == obj_lookup(full.subrange(o@.len() as int, full.len() as int), "error"@),
        decreases o@.len(),
    {
        let ghost old_len = o@.len() as int;
        let entry = match o.pop() {
            Some(e) => e,
            None => {
                proof {
                    assert(false);
                }
                return Err(DecodeError::NotAnObject);
            },
        };
        proof {
            assert(full.subrange(0, old_len).drop_last() =~= full.subrange(0, old_len - 1));
            assert(full.subrange(0, old_len).last() == full[old_len - 1]);
            assert(o@ =~= full.subrange(0, old_len - 1));
            assert(entry == full[old_len - 1]);
        }
        let (key, val) = entry;
        let ghost new_suffix = full.subrange(old_len - 1, full.len() as int);
        proof {
            lemma_envelope_keys_distinct();
            assert(new_suffix.len() > 0);
            assert(new_suffix[0] == full[old_len - 1]);
            assert(new_suffix.drop_first() =~= full.subrange(old_len, full.len() as int));
            lemma_obj_lookup_unfold(new_suffix);
        }
        if key == k_jsonrpc {
            f_ver = Some(val);
        } else if key == k_id {
            f_id = Some(val);
        } else if key == k_method {
            f_method = Some(val);
        } else if key == k_params {
            f_params = Some(val);
        } else if key == k_result {
            f_result = Some(val);
        } else if key == k_error {
            f_error = Some(val);
        }
    }
    proof {
        assert(full.subrange(0, full.len() as int) =~= full);
    }
    let ver = match f_ver {
        Some(JsonValue::Str(ver)) => ver,
        _ => {
            return Err(DecodeError::BadVersion);
        },
    };
    let v20 = String::from_str("2.0");
    if !(ver == v20) {
        return Err(DecodeError::BadVersion);
    }
    match f_id {
        Some(idv) => {
            let rid = match idv {
                JsonValue::Str(s) => JsonRpcId::Str(s),
                JsonValue::Int(n) => JsonRpcId::Int(n),
                _ => {
                    return Err(DecodeError::BadId);
                },
            };
            match f_method {
                Some(JsonValue::Str(m)) => Ok(JsonRpcMessage::Request(JsonRpcRequest {
                    jsonrpc: ver,
                    id: rid,
                    method: m,
                    params: f_params,
                })),
                Some(_) => Err(DecodeError::BadMethod),
                None => {
                    if f_result.is_some() && f_error.is_some() {
                        Err(DecodeError::BothResultAndError)
                    } else if f_result.is_none() && f_error.is_none() {
                        Err(DecodeError::NeitherResultNorError)
                    } else {
                        match f_error {
                            Some(ev) => {
                                match decode_error_object(ev) {
                                    Some(e) => Ok(JsonRpcMessage::Response(JsonRpcResponse {
                                        jsonrpc: ver,
                                        id: rid,
                                        result: None,
                                        error: Some(e),
                                    })),
                                    None => Err(DecodeError::BadErrorObject),
                                }
                            },
                            None => Ok(JsonRpcMessage::Response(JsonRpcResponse {
                                jsonrpc: ver,
                                id: rid,
                                result: f_result,
                                error: None,
                            })),
                        }
                    }
                },
            }
        },
        None => {
            match f_method {
                Some(JsonValue::Str(m)) => Ok(JsonRpcMessage::Notification(JsonRpcNotification {
                    jsonrpc: ver,
                    method: m,
                    params: f_params,
                })),
                Some(_) => Err(DecodeError::BadMethod),
                None => Err(DecodeError::MissingMethod),
            }
        },
    }
}

/// Decodes a JSON-RPC error object, returning exactly `error_of_json`.
fn decode_error_object(v: JsonValue) -> (r: Option<JsonRpcError>)
    ensures
        r == error_of_json(v),
{
    proof {
        lemma_envelope_keys_distinct();
    }
    let mut o: Vec<(String, JsonValue)> = match v {
        JsonValue::Obj(fields) => fields,
        _ => {
            return None;
        },
    };
    let ghost full = o@;
    let k_code = String::from_str("code");
    let k_message = String::from_str("message");
    let k_data = String::from_str("data");
    let mut f_code: Option<JsonValue> = None;
    let mut f_message: Option<JsonValue> = None;
    let mut f_data: Option<JsonValue> = None;
    proof {
        assert(full.subrange(full.len() as int, full.len() as int) =~= Seq::empty());
        lemma_obj_lookup_unfold(full.subrange(full.len() as int, full.len() as int));
    }
    while o.len() > 0
        invariant
            o@ =~= full.subrange(0, o@.len() as int),
            o@.len() <= full.len(),
            k_code@ == "code"@ && k_message@ == "message"@ && k_data@ == "data"@,
            f_code == obj_lookup(full.subrange(o@.len() as int, full.len() as int), "code"@),
            f_message == obj_lookup(full.subrange(o@.len() as int, full.len() as int),
                "message"@),
            f_data == obj_lookup(full.subrange(o@.len() as int, full.len() as int), "data"@),
        decreases o@.len(),
    {
        let ghost old_len = o@.len() as int;
        let entry = match o.pop() {
            Some(e) => e,
            None => {
                proof {
                    assert(false);
                }
                return None;
            },
        };
        proof {
            assert(full.subrange(0, old_len).drop_last() =~= full.subrange(0, old_len - 1));
            assert(full.subrange(0, old_len).last() == full[old_len - 1]);
            assert(o@ =~= full.subrange(0, old_len - 1));
            assert(entry == full[old_len - 1]);
        }
        let (key, val) = entry;
        let ghost new_suffix = full.subrange(old_len - 1, full.len() as int);
        proof {
            lemma_envelope_keys_distinct();
            assert(new_suffix.len() > 0);
            assert(new_suffix[0] == full[old_len - 1]);
            assert(new_suffix.drop_first() =~= full.subrange(old_len, full.len() as int));
            lemma_obj_lookup_unfold(new_suffix);
        }
        if key == k_code {
            f_code = Some(val);
        } else if key == k_message {
            f_message = Some(val);
        } else if key == k_data {
            f_data = Some(val);
        }
    }
    proof {
        assert(full.subrange(0, full.len() as int) =~= full);
    }
    match (f_code, f_message) {
        (Some(JsonValue::Int(c)), Some(JsonValue::Str(msg))) => {
            if i32::MIN as i64 <= c && c <= i32::MAX as i64 {
                Some(JsonRpcError { code: c as i32, message: msg, data: f_data })
            } else {
                None
            }
        },
        _ => None,
    }
}

/// Encodes an envelope as compact JSON bytes. Some JSON value both carries
/// exactly this envelope (decoding it gives the envelope back) and prints to
/// exactly these bytes.
pub fn encode_message_bytes(m: JsonRpcMessage) -> (r: Vec<u8>)
    requires
        wf_message(m),
    ensures
        exists|v: JsonValue|
            decode_spec(v) == Ok::<JsonRpcMessage, DecodeError>(m) && r@ == json_bytes_of(v),
{
    let v = encode_message(m);
    let ghost gv = v;
    let r = to_json_bytes(&v);
    proof {
        assert(decode_spec(gv) == Ok::<JsonRpcMessage, DecodeError>(m)
            && r@ == json_bytes_of(gv));
    }
    r
}

/// Decodes one JSON document from bytes and classifies it as an envelope.
pub fn decode_message_bytes(s: &[u8]) -> (r: Result<JsonRpcMessage, DecodeError>)
    ensures
        r == match json_parsed(s@) {
            Some(v) => decode_spec(v),
            None => Err::<JsonRpcMessage, DecodeError>(DecodeError::NotJson),
        },
{
    match parse_json_bytes(s) {
        Some(v) => decode_message(v),
        None => Err(DecodeError::NotJson),
    }
}

impl JsonRpcRequest {
    /// A well-formed request for `method` under the given id.
    pub fn new(id: JsonRpcId, method: &str, params: Option<JsonValue>) -> (r: JsonRpcRequest)
        ensures
            wf_message(JsonRpcMessage::Request(r)),
            r.id == id,
            r.method@ == method@,
            r.params == params,
    {
        JsonRpcRequest {
            jsonrpc: String::from_str("2.0"),
            id,
            method: String::from_str(method),
            params,
        }
    }
}

impl JsonRpcResponse {
    /// A well-formed successful response echoing `id`.
    pub fn success(id: JsonRpcId, result: JsonValue) -> (r: JsonRpcResponse)
        ensures
            wf_message(JsonRpcMessage::Response(r)),
            r.id == id,
            r.result == Some(result),
            r.error is None,
    {
        JsonRpcResponse {
            jsonrpc: String::from_str("2.0"),
            id,
            result: Some(result),
            error: None,
        }
    }

    /// A well-formed error response echoing `id`.
    pub fn failure(id: JsonRpcId, error: JsonRpcError) -> (r: JsonRpcResponse)
        ensures
            wf_message(JsonRpcMessage::Response(r)),
            r.id == id,
            r.result is None,
            r.error == Some(error),
    {
        JsonRpcResponse {
            jsonrpc: String::from_str("2.0"),
            id,
            result: None,
            error: Some(error),
        }
    }
}

impl JsonRpcNotification {
    /// A well-formed notification for `method`.
    pub fn new(method: &str, params: Option<JsonValue>) -> (r: JsonRpcNotification)
        ensures
            wf_message(JsonRpcMessage::Notification(r)),
            r.method@ == method@,
            r.params == params,
    {
        JsonRpcNotification {
            jsonrpc: String::from_str("2.0"),
            method: String::from_str(method),
            params,
        }
    }
}

/// Every envelope the decoder accepts is well formed; in particular a decoded
/// response carries exactly one of `result` and `error`.
pub proof fn lemma_decoded_message_wf(v: JsonValue)
    ensures
        decode_spec(v) matches Ok(m) ==> wf_message(m),
{
}

/// An object that looks like a response but carries both `result` and
/// `error`, or neither, never decodes to an envelope.
pub proof fn lemma_response_exclusivity(v: JsonValue)
    ensures
        (v matches JsonValue::Obj(o) && obj_lookup(o@, "id"@) is Some
            && obj_lookup(o@, "method"@) is None
            && obj_lookup(o@, "result"@) is Some && obj_lookup(o@, "error"@) is Some)
            ==> decode_spec(v) is Err,
        (v matches JsonValue::Obj(o) && obj_lookup(o@, "id"@) is Some
            && obj_lookup(o@, "method"@) is None
            && obj_lookup(o@, "result"@) is None && obj_lookup(o@, "error"@) is None)
            ==> decode_spec(v) is Err,
{
}

} // verus!
