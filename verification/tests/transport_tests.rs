//! Transport configuration, the security policy, session lifecycle, SSE
//! resumption, and the wire framing.

use mcp_probe::client::{is_valid_transition, NegotiationState};
use mcp_probe::json::JsonValue;
use mcp_probe::session::{HttpSseTransport, HttpStreamTransport, StderrTail};
use mcp_probe::sse::{parse_decimal, SseEvent, SseParser};
use mcp_probe::transport::{LineBuffer, TransportConfig};

#[test]
fn test_transport_config_conversion() {
    let transport_args = mcp_probe::cli::TransportArgs {
        stdio: Some("test-server".to_string()),
        args: vec!["--arg1".to_string(), "--arg2".to_string()],
        working_dir: Some("/tmp".to_string()),
        http_sse: None,
        http_stream: None,
        auth_header: None,
        headers: vec![],
    };
    let config = transport_args.to_transport_config().unwrap();
    match config {
        TransportConfig::Stdio(stdio_config) => {
            assert_eq!(stdio_config.command, "test-server");
            assert_eq!(stdio_config.args, vec!["--arg1", "--arg2"]);
        }
        _ => panic!("Expected Stdio transport config"),
    }
}

#[test]
fn test_http_sse_transport_config() {
    let transport_args = mcp_probe::cli::TransportArgs {
        stdio: None,
        args: vec![],
        working_dir: None,
        http_sse: Some("http://localhost:3000".to_string()),
        http_stream: None,
        auth_header: Some("Bearer token123".to_string()),
        headers: vec!["Content-Type=application/json".to_string()],
    };
    let config = transport_args.to_transport_config().unwrap();
    match config {
        TransportConfig::HttpSse(http_config) => {
            assert_eq!(http_config.base_url.text, "http://localhost:3000/");
        }
        _ => panic!("Expected HttpSse transport config"),
    }
}

#[test]
fn test_http_stream_transport_config() {
    let transport_args = mcp_probe::cli::TransportArgs {
        stdio: None,
        args: vec![],
        working_dir: None,
        http_sse: None,
        http_stream: Some("http://localhost:3000".to_string()),
        auth_header: None,
        headers: vec![],
    };
    let config = transport_args.to_transport_config().unwrap();
    match config {
        TransportConfig::HttpStream(stream_config) => {
            assert_eq!(stream_config.base_url.text, "http://localhost:3000/");
        }
        _ => panic!("Expected HttpStream transport config"),
    }
}

#[test]
fn test_streamable_http_transport_creation() {
    let config = TransportConfig::http_sse("https://example.com/mcp").unwrap();
    let transport = HttpSseTransport::new(config).unwrap();
    assert_eq!(transport.get_info().transport_type, "streamable-http");
    assert!(!transport.is_connected());
    assert!(transport.session_id().is_none());
}

#[test]
fn test_base_url_extraction() {
    let config = TransportConfig::http_sse("https://example.com/mcp").unwrap();
    let transport = HttpSseTransport::new(config).unwrap();
    assert_eq!(transport.config.base_url.text, "https://example.com/mcp");
}

#[test]
fn http_sse_test_transport_info_metadata() {
    let config = TransportConfig::http_sse("https://example.com/mcp").unwrap();
    let transport = HttpSseTransport::new(config).unwrap();
    let info = transport.get_info();
    assert!(info.metadata_contains_key("base_url"));
    assert!(info.metadata_contains_key("session_id"));
    assert!(info.metadata_contains_key("has_sse_stream"));
    assert!(info.metadata_contains_key("last_event_id"));
    assert!(info.metadata_contains_key("can_resume"));
    assert!(info.metadata_contains_key("security_enabled"));
}

#[test]
fn test_security_config_https_enforcement() {
    let config = TransportConfig::http_sse("http://example.com/mcp").unwrap();
    assert!(HttpSseTransport::new(config).is_err());

    let config = TransportConfig::http_sse("http://localhost:3000/mcp").unwrap();
    assert!(HttpSseTransport::new(config).is_ok());
}

#[test]
fn test_session_id_validation() {
    let config = TransportConfig::http_sse("http://localhost:3000/mcp").unwrap();
    let transport = HttpSseTransport::new(config).unwrap();

    assert!(transport.validate_session_id("550e8400-e29b-41d4-a716-446655440000").is_ok());
    assert!(transport.validate_session_id("short").is_err());
    assert!(transport.validate_session_id("invalid@session!id").is_err());
}

#[test]
fn test_resumability_features() {
    let config = TransportConfig::http_sse("http://localhost:3000/mcp").unwrap();
    let transport = HttpSseTransport::new(config).unwrap();
    assert!(!transport.can_resume());
    assert!(transport.last_event_id().is_none());
}

#[test]
fn session_assignment_is_sticky() {
    let config = TransportConfig::http_sse("http://localhost:3000/mcp").unwrap();
    let mut transport = HttpSseTransport::new(config).unwrap();
    transport.connect().unwrap();

    assert!(transport.observe_session_header(Some("550e8400-e29b-41d4-a716-446655440000")).is_ok());
    assert_eq!(
        transport.session_id().unwrap(),
        "550e8400-e29b-41d4-a716-446655440000"
    );

    let headers = transport.request_headers();
    assert_eq!(headers[0].0, "Content-Type");
    assert_eq!(headers[1].0, "Mcp-Session-Id");
    assert_eq!(headers[1].1, "550e8400-e29b-41d4-a716-446655440000");

    assert!(transport.observe_session_header(Some("550e8400-e29b-41d4-a716-446655440000")).is_ok());
    assert!(transport.observe_session_header(Some("another-session-id-0000")).is_err());
    assert!(!transport.is_connected());
}

#[test]
fn malformed_session_id_disconnects() {
    let config = TransportConfig::http_sse("http://localhost:3000/mcp").unwrap();
    let mut transport = HttpSseTransport::new(config).unwrap();
    transport.connect().unwrap();
    assert!(transport.observe_session_header(Some("short")).is_err());
    assert!(!transport.is_connected());
    assert!(transport.session_id().is_none());
}

#[test]
fn sse_resume_uses_last_event_id() {
    let config = TransportConfig::http_sse("http://localhost:3000/mcp").unwrap();
    let mut transport = HttpSseTransport::new(config).unwrap();
    transport.connect().unwrap();

    let mut parser = SseParser::new();
    let mut events: Vec<SseEvent> = Vec::new();
    for line in [
        &b"id: a"[..], b"data: one", b"", b"id: b", b"data: two", b"", b"id: c", b"data: three",
        b"",
    ] {
        if let Some(ev) = parser.process_line(line) {
            transport.note_sse_event(&ev);
            events.push(ev);
        }
    }
    assert_eq!(events.len(), 3);
    assert_eq!(events[0].id, "a");
    assert_eq!(events[2].data, "three");
    assert_eq!(transport.last_event_id().unwrap(), "c");
    assert!(transport.can_resume());

    let headers = transport.resume_headers().unwrap();
    assert_eq!(headers[0], ("Accept".to_string(), "text/event-stream".to_string()));
    assert_eq!(headers[1], ("Last-Event-ID".to_string(), "c".to_string()));
}

#[test]
fn sse_parser_never_dispatches_partial_events() {
    let mut parser = SseParser::new();
    assert!(parser.process_line(b"id: 1").is_none());
    assert!(parser.process_line(b"event: note").is_none());
    assert!(parser.process_line(b"data: first").is_none());
    assert!(parser.process_line(b"data: second").is_none());
    let ev = parser.process_line(b"").unwrap();
    assert_eq!(ev.id, "1");
    assert_eq!(ev.event, "note");
    assert_eq!(ev.data, "first\nsecond");
}

#[test]
fn sse_parser_reads_retry_and_keeps_id() {
    let mut parser = SseParser::new();
    assert!(parser.process_line(b"retry: 2500").is_none());
    assert!(parser.process_line(b"id: 9").is_none());
    assert!(parser.process_line(b"data: x").is_none());
    let ev = parser.process_line(b"").unwrap();
    assert_eq!(ev.retry, Some(2500));
    assert_eq!(ev.event, "message");

    assert!(parser.process_line(b"data: y").is_none());
    let ev2 = parser.process_line(b"").unwrap();
    assert_eq!(ev2.id, "9");
}

#[test]
fn decimal_parsing_is_exact() {
    assert_eq!(parse_decimal(b"2500"), Some(2500));
    assert_eq!(parse_decimal(b""), None);
    assert_eq!(parse_decimal(b"12x"), None);
    assert_eq!(parse_decimal(b"99999999999999999999999"), None);
}

#[test]
fn line_buffer_recovers_frames() {
    let mut buf = LineBuffer::new();
    buf.push_chunk(b"{\"a\":1}\n{\"b\"");
    assert_eq!(buf.pop_line().unwrap(), b"{\"a\":1}".to_vec());
    assert!(buf.pop_line().is_none());
    buf.push_chunk(b":2}\n");
    assert_eq!(buf.pop_line().unwrap(), b"{\"b\":2}".to_vec());
}

#[test]
fn test_http_stream_transport_creation() {
    let transport = HttpStreamTransport::new(
        "http://localhost:8080".to_string(),
        Some("Bearer token123".to_string()),
    );
    assert_eq!(transport.get_info().transport_type, "http-stream");
    assert!(!transport.is_connected());
    assert_eq!(transport.base_url, "http://localhost:8080");
    assert_eq!(transport.auth_header, Some("Bearer token123".to_string()));
}

#[test]
fn http_stream_test_transport_info_metadata() {
    let transport = HttpStreamTransport::new("https://api.example.com".to_string(), None);
    let info = transport.get_info();
    assert!(info.metadata_contains_key("base_url"));
    assert!(info.metadata_contains_key("has_auth"));
    match info.metadata_get("has_auth") {
        Some(JsonValue::Bool(false)) => {}
        other => panic!("unexpected has_auth: {:?}", other),
    }
}

#[test]
fn test_auth_header_handling() {
    let transport = HttpStreamTransport::new(
        "http://localhost:8080".to_string(),
        Some("Basic dXNlcjpwYXNz".to_string()),
    );
    assert!(transport.auth_header.is_some());
    assert!(transport.auth_header.unwrap().starts_with("Basic "));
}

#[test]
fn stderr_tail_is_bounded() {
    let mut tail = StderrTail::new(2);
    tail.push("one".to_string());
    tail.push("two".to_string());
    tail.push("three".to_string());
    assert_eq!(tail.len(), 2);
}

#[test]
fn legacy_binding_derives_its_two_endpoints() {
    assert_eq!(
        mcp_probe::session::legacy_sse_endpoint("http://localhost:8931"),
        "http://localhost:8931/sse"
    );
    assert_eq!(
        mcp_probe::session::legacy_message_endpoint("http://localhost:8931"),
        "http://localhost:8931/message"
    );
}

#[test]
fn stdio_transport_frames_one_document_per_line() {
    let config = match TransportConfig::stdio("server", vec!["--flag".to_string()]) {
        TransportConfig::Stdio(c) => c,
        _ => panic!("expected a stdio configuration"),
    };
    let mut transport = mcp_probe::session::StdioTransport::new(config);
    assert_eq!(transport.info.transport_type, "stdio");
    let framed = transport.frame_outgoing(b"{}".to_vec());
    assert_eq!(framed, b"{}\n".to_vec());
    transport.note_stderr_line("warning: slow start".to_string());
    assert_eq!(transport.stderr_tail.len(), 1);
}

#[test]
fn handshake_transitions_step_forward() {
    let idle = NegotiationState::Idle;
    let connecting = NegotiationState::Connecting { transport_type: "stdio".to_string() };
    let ready = NegotiationState::Ready { session_id: "s".to_string() };
    let failed = NegotiationState::Failed { reason: "x".to_string() };
    assert!(is_valid_transition(&idle, &connecting));
    assert!(!is_valid_transition(&idle, &ready));
    assert!(is_valid_transition(&connecting, &failed));
    assert!(!is_valid_transition(&failed, &idle));
}
