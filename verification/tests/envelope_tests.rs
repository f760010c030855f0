//! The JSON-RPC envelope codec, end to end: round trips, response
//! exclusivity, and the literal handshake wire forms.

use mcp_probe::json::{parse_json_bytes, to_json_bytes, to_json_bytes_pretty, JsonValue};
use mcp_probe::messages::{
    decode_message, decode_message_bytes, encode_message, encode_message_bytes, DecodeError,
    JsonRpcError, JsonRpcId, JsonRpcMessage, JsonRpcNotification, JsonRpcRequest, JsonRpcResponse,
};

fn obj(fields: Vec<(&str, JsonValue)>) -> JsonValue {
    JsonValue::Obj(fields.into_iter().map(|(k, v)| (k.to_string(), v)).collect())
}

#[test]
fn envelope_roundtrip_request_string_id() {
    let m = JsonRpcMessage::Request(JsonRpcRequest::new(
        JsonRpcId::Str("init_1".to_string()),
        "initialize",
        Some(obj(vec![("protocol_version", JsonValue::Str("2024-11-05".to_string()))])),
    ));
    let expected = JsonRpcMessage::Request(JsonRpcRequest::new(
        JsonRpcId::Str("init_1".to_string()),
        "initialize",
        Some(obj(vec![("protocol_version", JsonValue::Str("2024-11-05".to_string()))])),
    ));
    let decoded = decode_message(encode_message(m)).unwrap();
    assert_eq!(decoded, expected);
}

#[test]
fn envelope_roundtrip_request_integer_id() {
    let m = JsonRpcMessage::Request(JsonRpcRequest::new(JsonRpcId::Int(1), "tools/list", None));
    let bytes = encode_message_bytes(m);
    let decoded = decode_message_bytes(&bytes).unwrap();
    match decoded {
        JsonRpcMessage::Request(q) => {
            assert_eq!(q.id, JsonRpcId::Int(1));
            assert_eq!(q.method, "tools/list");
            assert!(q.params.is_none());
        }
        _ => panic!("expected a request"),
    }
}

#[test]
fn envelope_roundtrip_response_result() {
    let m = JsonRpcMessage::Response(JsonRpcResponse::success(
        JsonRpcId::Int(7),
        obj(vec![("sum", JsonValue::Int(70))]),
    ));
    let expected = JsonRpcMessage::Response(JsonRpcResponse::success(
        JsonRpcId::Int(7),
        obj(vec![("sum", JsonValue::Int(70))]),
    ));
    assert_eq!(decode_message(encode_message(m)).unwrap(), expected);
}

#[test]
fn envelope_roundtrip_response_error() {
    let m = JsonRpcMessage::Response(JsonRpcResponse::failure(
        JsonRpcId::Str("2".to_string()),
        JsonRpcError { code: -32601, message: "Method not found".to_string(), data: None },
    ));
    let decoded = decode_message(encode_message(m)).unwrap();
    match decoded {
        JsonRpcMessage::Response(p) => {
            let e = p.error.unwrap();
            assert_eq!(e.code, -32601);
            assert_eq!(e.message, "Method not found");
            assert!(p.result.is_none());
        }
        _ => panic!("expected a response"),
    }
}

#[test]
fn envelope_roundtrip_notification() {
    let m = JsonRpcMessage::Notification(JsonRpcNotification::new(
        "initialized",
        Some(obj(vec![])),
    ));
    let expected = JsonRpcMessage::Notification(JsonRpcNotification::new(
        "initialized",
        Some(obj(vec![])),
    ));
    assert_eq!(decode_message(encode_message(m)).unwrap(), expected);
}

#[test]
fn response_with_both_result_and_error_fails() {
    let bytes =
        b"{\"jsonrpc\":\"2.0\",\"id\":1,\"result\":{},\"error\":{\"code\":-1,\"message\":\"x\"}}";
    assert_eq!(decode_message_bytes(bytes), Err(DecodeError::BothResultAndError));
}

#[test]
fn response_with_neither_result_nor_error_fails() {
    let bytes = b"{\"jsonrpc\":\"2.0\",\"id\":1}";
    assert_eq!(decode_message_bytes(bytes), Err(DecodeError::NeitherResultNorError));
}

#[test]
fn request_without_method_is_rejected() {
    let bytes = b"{\"jsonrpc\":\"2.0\",\"params\":{}}";
    assert_eq!(decode_message_bytes(bytes), Err(DecodeError::MissingMethod));
}

#[test]
fn wrong_version_is_rejected() {
    let bytes = b"{\"jsonrpc\":\"1.0\",\"id\":1,\"method\":\"x\"}";
    assert_eq!(decode_message_bytes(bytes), Err(DecodeError::BadVersion));
}

#[test]
fn bad_id_is_rejected() {
    let bytes = b"{\"jsonrpc\":\"2.0\",\"id\":true,\"method\":\"x\"}";
    assert_eq!(decode_message_bytes(bytes), Err(DecodeError::BadId));
}

#[test]
fn non_json_bytes_are_rejected() {
    assert_eq!(decode_message_bytes(b"not json"), Err(DecodeError::NotJson));
}

#[test]
fn handshake_request_wire_form() {
    let line = b"{\"jsonrpc\":\"2.0\",\"id\":\"init_1\",\"method\":\"initialize\",\"params\":{\"protocol_version\":\"2024-11-05\",\"capabilities\":{},\"client_info\":{\"name\":\"probe\",\"version\":\"1\"}}}";
    match decode_message_bytes(line).unwrap() {
        JsonRpcMessage::Request(q) => {
            assert_eq!(q.id, JsonRpcId::Str("init_1".to_string()));
            assert_eq!(q.method, "initialize");
            let params = q.params.unwrap();
            match mcp_probe::json::get(&params, "protocol_version") {
                Some(JsonValue::Str(v)) => assert_eq!(v, "2024-11-05"),
                other => panic!("unexpected protocol_version: {:?}", other),
            }
        }
        _ => panic!("expected a request"),
    }
}

#[test]
fn json_encoder_emits_expected_bytes() {
    let v = obj(vec![
        ("a", JsonValue::Int(-5)),
        ("b", JsonValue::Arr(vec![JsonValue::Bool(true), JsonValue::Null])),
        ("c", JsonValue::Str("x\"y\n".to_string())),
    ]);
    let bytes = to_json_bytes(&v);
    assert_eq!(
        String::from_utf8(bytes).unwrap(),
        "{\"a\":-5,\"b\":[true,null],\"c\":\"x\\\"y\\n\"}"
    );
}

#[test]
fn json_encoder_output_reparses() {
    let v = obj(vec![
        ("name", JsonValue::Str("add".to_string())),
        ("count", JsonValue::Int(12345)),
    ]);
    let bytes = to_json_bytes(&v);
    let back = parse_json_bytes(&bytes).unwrap();
    assert_eq!(mcp_probe::json::get(&back, "name"), Some(&JsonValue::Str("add".to_string())));
    assert_eq!(mcp_probe::json::get(&back, "count"), Some(&JsonValue::Int(12345)));
}

#[test]
fn json_parser_reads_documents() {
    let v = parse_json_bytes(b"{\"sum\": 70}").unwrap();
    match mcp_probe::json::get(&v, "sum") {
        Some(JsonValue::Int(70)) => {}
        other => panic!("unexpected member: {:?}", other),
    }
    assert!(parse_json_bytes(b"{broken").is_none());
}

#[test]
fn pretty_printer_indents_members() {
    let v = obj(vec![("sum", JsonValue::Int(70))]);
    let bytes = to_json_bytes_pretty(&v);
    assert_eq!(String::from_utf8(bytes).unwrap(), "{\n  \"sum\": 70\n}");
}
