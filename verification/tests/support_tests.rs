//! Configuration, paths, flows, validation verdicts, tool payloads and the
//! client's interoperability decisions.

use mcp_probe::cli::{
    generate_dev_config, generate_full_config, generate_minimal_config, generate_prod_config,
    should_display_result, Severity,
};
use mcp_probe::client::{
    build_initialize_request, call_tool_outcome, classify_list_response, initialized_notification,
    ListOutcome, NegotiationState,
};
use mcp_probe::config::Config;
use mcp_probe::flow::{
    retry_decision, Connect, FlowDurationExt, FlowStep, Initialize, ProcessCapabilities,
    RetryDecision, RetryPolicy, SendNotification, TransitionTo, WaitForResponse,
};
use mcp_probe::json::{parse_json_bytes, JsonValue};
use mcp_probe::messages::{JsonRpcError, JsonRpcId, JsonRpcResponse};
use mcp_probe::paths::{format_file_size, get_log_path, get_report_path, get_session_path,
    McpProbePaths, u64_to_string};
use mcp_probe::tools::{encode_tool_result, CallToolResponse, Implementation, Tool, ToolResult};
use mcp_probe::validation::{
    calculate_summary, classify_init_response, classify_transport_features,
    invalid_method_status, invalid_params_status, listing_results, listing_status,
    validate_tool_schema, ValidationCategory, ValidationResult, ValidationStatus,
};
use std::time::Duration;

#[test]
fn test_format_file_size() {
    assert_eq!(format_file_size(0), "0 B");
    assert_eq!(format_file_size(512), "512 B");
    assert_eq!(format_file_size(1024), "1.0 KB");
    assert_eq!(format_file_size(1536), "1.5 KB");
    assert_eq!(format_file_size(1024 * 1024), "1.0 MB");
    assert_eq!(format_file_size(1024 * 1024 * 1024), "1.0 GB");
}

#[test]
fn decimal_rendering_matches() {
    assert_eq!(u64_to_string(0), "0");
    assert_eq!(u64_to_string(90210), "90210");
}

#[test]
fn test_default_config() {
    let config = Config::default();
    assert_eq!(config.client.name, "mcp-probe");
    assert_eq!(config.logging.level, "info");
    assert!(!config.debug.show_raw_messages);
}

#[test]
fn test_config_merge() {
    let mut base = Config::default();
    let mut other = Config::default();
    other.debug.show_raw_messages = true;
    other.logging.level = "debug".to_string();

    base.merge(other);

    assert!(base.debug.show_raw_messages);
    assert_eq!(base.logging.level, "debug");
}

#[test]
fn test_config_templates_valid_toml() {
    let templates = [
        generate_minimal_config(),
        generate_full_config(),
        generate_dev_config(),
        generate_prod_config(),
    ];
    for template in &templates {
        toml::from_str::<toml::Value>(template).expect("template should generate valid TOML");
    }
}

#[test]
fn test_path_generation() {
    let paths = McpProbePaths::new("/tmp/probe-home");

    let log_path = paths.log_file("test");
    assert!(log_path.contains("test-"));
    assert!(log_path.ends_with(".log"));

    let report_path = paths.report_file("test-report", "json");
    assert!(report_path.contains("test-report"));
    assert!(report_path.ends_with(".json"));

    let dated_report = paths.dated_report_file("daily-report", "json");
    assert!(dated_report.contains("daily-report"));

    let session_path = paths.session_file("debug-session");
    assert!(session_path.contains("debug-session"));
    assert!(session_path.ends_with(".json"));

    assert_eq!(paths.logs_dir, "/tmp/probe-home/logs");
    assert_eq!(paths.config_file("x"), "/tmp/probe-home/config/x.toml");
    assert_eq!(
        paths.relative_to_home("/tmp/probe-home/logs/a.log"),
        Some("logs/a.log".to_string())
    );
    assert_eq!(paths.relative_to_home("/elsewhere/a.log"), None);
}

#[test]
fn test_directory_creation() {
    let paths = McpProbePaths::new("/tmp/probe-home");
    assert_eq!(paths.home_dir, "/tmp/probe-home");
    assert_eq!(paths.logs_dir, "/tmp/probe-home/logs");
    assert_eq!(paths.reports_dir, "/tmp/probe-home/reports");
    assert_eq!(paths.sessions_dir, "/tmp/probe-home/sessions");
    assert_eq!(paths.config_dir, "/tmp/probe-home/config");
}

#[test]
fn test_helper_functions() {
    let report_path = get_report_path("/tmp/probe-home", "test", "json");
    assert!(report_path.ends_with(".json"));

    let log_path = get_log_path("/tmp/probe-home", "test");
    assert!(log_path.ends_with(".log"));

    let session_path = get_session_path("/tmp/probe-home", "test");
    assert!(session_path.ends_with(".json"));
}

#[test]
fn test_duration_extensions() {
    assert_eq!(30.secs(), Duration::from_secs(30));
    assert_eq!(500.millis(), Duration::from_millis(500));
}

#[test]
fn test_flow_builder() {
    let client_info = Implementation::new("test-client", "1.0.0");
    let flow = FlowStep::chain(Connect::with_default_timeout())
        .then(Initialize::with_client_info(Implementation::new("test-client", "1.0.0")))
        .then(WaitForResponse::with_validation())
        .then(ProcessCapabilities::extract_all())
        .then(SendNotification::initialized())
        .then(TransitionTo::ready_state())
        .build(client_info);

    assert_eq!(flow.steps.len(), 6);
    assert_eq!(flow.context.state, NegotiationState::Idle);
}

#[test]
fn test_capability_processing() {
    let capabilities = mcp_probe::flow::CapabilitySet::empty();
    assert!(!capabilities.tools.list_allowed);
    assert_eq!(capabilities.tools.available_tools.len(), 0);
}

#[test]
fn backoff_grows_and_caps() {
    let policy =
        RetryPolicy { max_attempts: 5, initial_delay_ms: 1000, max_delay_ms: 30000, backoff_multiplier: 2 };
    assert_eq!(retry_decision(&policy, 1, true), RetryDecision::RetryAfter(1000));
    assert_eq!(retry_decision(&policy, 2, true), RetryDecision::RetryAfter(2000));
    assert_eq!(retry_decision(&policy, 3, true), RetryDecision::RetryAfter(4000));
    assert_eq!(retry_decision(&policy, 4, true), RetryDecision::RetryAfter(8000));
    assert_eq!(retry_decision(&policy, 5, true), RetryDecision::GiveUp);
    assert_eq!(retry_decision(&policy, 1, false), RetryDecision::GiveUp);

    let tight =
        RetryPolicy { max_attempts: 9, initial_delay_ms: 9000, max_delay_ms: 10000, backoff_multiplier: 3 };
    assert_eq!(retry_decision(&tight, 2, true), RetryDecision::RetryAfter(10000));
}

#[test]
fn test_tool_creation() {
    let schema = JsonValue::Obj(vec![
        ("type".to_string(), JsonValue::Str("object".to_string())),
        (
            "properties".to_string(),
            JsonValue::Obj(vec![(
                "expression".to_string(),
                JsonValue::Obj(vec![(
                    "type".to_string(),
                    JsonValue::Str("string".to_string()),
                )]),
            )]),
        ),
        (
            "required".to_string(),
            JsonValue::Arr(vec![JsonValue::Str("expression".to_string())]),
        ),
    ]);
    let tool = Tool::new("calculator", "A simple calculator tool").with_input_schema(schema);

    assert_eq!(tool.name, "calculator");
    assert_eq!(tool.description, "A simple calculator tool");
    assert!(tool.input_schema.is_some());
}

#[test]
fn test_list_tools_request() {
    let request = mcp_probe::tools::ListToolsRequest { cursor: None };
    let same = mcp_probe::tools::ListToolsRequest { cursor: None };
    assert_eq!(request, same);
    assert!(request.cursor.is_none());
}

#[test]
fn test_call_tool_request() {
    let request = mcp_probe::tools::CallToolRequest {
        name: "calculator".to_string(),
        arguments: Some(JsonValue::Obj(vec![(
            "expression".to_string(),
            JsonValue::Str("2 + 2".to_string()),
        )])),
    };
    assert_eq!(request.name, "calculator");
    assert!(request.arguments.is_some());
}

#[test]
fn test_tool_result_text() {
    let result = ToolResult::Text { text: "The answer is 4".to_string() };
    let json = encode_tool_result(result);
    match mcp_probe::json::get(&json, "type") {
        Some(JsonValue::Str(t)) => assert_eq!(t, "text"),
        other => panic!("unexpected type member: {:?}", other),
    }
    match mcp_probe::json::get(&json, "text") {
        Some(JsonValue::Str(t)) => assert_eq!(t, "The answer is 4"),
        other => panic!("unexpected text member: {:?}", other),
    }
}

#[test]
fn test_tool_result_image() {
    let result =
        ToolResult::Image { data: "base64data".to_string(), mime_type: "image/png".to_string() };
    let json = encode_tool_result(result);
    match mcp_probe::json::get(&json, "type") {
        Some(JsonValue::Str(t)) => assert_eq!(t, "image"),
        other => panic!("unexpected type member: {:?}", other),
    }
    match mcp_probe::json::get(&json, "mimeType") {
        Some(JsonValue::Str(t)) => assert_eq!(t, "image/png"),
        other => panic!("unexpected mimeType member: {:?}", other),
    }
}

#[test]
fn tool_result_roundtrip() {
    let result = ToolResult::Text { text: "hello".to_string() };
    let json = encode_tool_result(ToolResult::Text { text: "hello".to_string() });
    assert_eq!(mcp_probe::tools::decode_tool_result(&json), Some(result));
}

#[test]
fn tools_listing_decodes_and_feeds_the_index() {
    let payload = parse_json_bytes(
        b"{\"tools\":[{\"name\":\"add\",\"description\":\"adds numbers\"},{\"name\":\"echo\",\"description\":\"repeats input\",\"input_schema\":{\"type\":\"object\"}}]}",
    )
    .unwrap();
    let listing = mcp_probe::tools::decode_list_tools_response(&payload).unwrap();
    assert_eq!(listing.tools.len(), 2);
    assert_eq!(listing.tools[0].name, "add");
    assert_eq!(listing.tools[1].description, "repeats input");
    assert!(listing.tools[1].input_schema.is_some());
    assert!(listing.next_cursor.is_none());

    let mut engine = mcp_probe::search::SearchEngine::new();
    for (i, tool) in listing.tools.iter().enumerate() {
        engine.index_item(mcp_probe::search::IndexedItem {
            category: mcp_probe::search::SearchCategory::Tool,
            name: tool.name.clone(),
            description: tool.description.clone(),
            source_index: i,
        });
    }
    let hits = engine.search("echo", 5);
    assert_eq!(engine.get_item(hits[0].index).unwrap().name, "echo");

    let broken = parse_json_bytes(b"{\"tools\":[{\"description\":\"nameless\"}]}").unwrap();
    assert!(mcp_probe::tools::decode_list_tools_response(&broken).is_none());
}

#[test]
fn https_policy_is_checked_per_url() {
    let public_http = mcp_probe::transport::BaseUrl::parse("http://example.com/mcp").unwrap();
    assert!(mcp_probe::transport::check_https_policy(&public_http).is_err());
    let local_http = mcp_probe::transport::BaseUrl::parse("http://127.0.0.1/mcp").unwrap();
    assert!(mcp_probe::transport::check_https_policy(&local_http).is_ok());
    let public_https = mcp_probe::transport::BaseUrl::parse("https://example.com/mcp").unwrap();
    assert!(mcp_probe::transport::check_https_policy(&public_https).is_ok());
}

#[test]
fn call_tool_graceful_fallback_wraps_plain_results() {
    let raw = parse_json_bytes(b"{\"sum\":70}").unwrap();
    let response: CallToolResponse = call_tool_outcome(Some(raw)).unwrap();
    assert_eq!(response.content.len(), 1);
    match &response.content[0] {
        ToolResult::Text { text } => assert_eq!(text, "{\n  \"sum\": 70\n}"),
        other => panic!("unexpected content: {:?}", other),
    }
    assert_eq!(response.is_error, Some(false));
}

#[test]
fn call_tool_keeps_conforming_results() {
    let raw = parse_json_bytes(
        b"{\"content\":[{\"type\":\"text\",\"text\":\"done\"}],\"is_error\":false}",
    )
    .unwrap();
    let response = call_tool_outcome(Some(raw)).unwrap();
    assert_eq!(response.content.len(), 1);
    match &response.content[0] {
        ToolResult::Text { text } => assert_eq!(text, "done"),
        other => panic!("unexpected content: {:?}", other),
    }
    assert_eq!(response.is_error, Some(false));
}

#[test]
fn call_tool_without_result_fails() {
    assert!(call_tool_outcome(None).is_err());
}

#[test]
fn method_not_found_translates_to_unsupported() {
    let resp = JsonRpcResponse::failure(
        JsonRpcId::Int(3),
        JsonRpcError { code: -32601, message: "Method not found".to_string(), data: None },
    );
    assert_eq!(classify_list_response(resp), ListOutcome::Unsupported);

    let ok = JsonRpcResponse::success(JsonRpcId::Int(4), JsonValue::Obj(vec![]));
    match classify_list_response(ok) {
        ListOutcome::Listed(_) => {}
        other => panic!("unexpected outcome: {:?}", other),
    }
}

#[test]
fn validator_skips_unsupported_listings() {
    assert_eq!(listing_status(&ListOutcome::Unsupported), ValidationStatus::Skipped);
    assert_eq!(
        listing_status(&ListOutcome::Listed(JsonValue::Null)),
        ValidationStatus::Pass
    );
    assert_eq!(listing_status(&ListOutcome::Failed(-32603)), ValidationStatus::Error);
}

#[test]
fn invalid_method_probe_passes_on_reserved_code() {
    assert_eq!(invalid_method_status(Some(-32601)), ValidationStatus::Pass);
    assert_eq!(invalid_method_status(Some(-32000)), ValidationStatus::Warning);
    assert_eq!(invalid_method_status(None), ValidationStatus::Error);
    assert_eq!(invalid_params_status(Some(-32602)), ValidationStatus::Pass);
}

#[test]
fn schema_validation_compiles_real_schemas() {
    let good = parse_json_bytes(
        b"{\"type\":\"object\",\"properties\":{\"a\":{\"type\":\"number\"}}}",
    )
    .unwrap();
    assert_eq!(validate_tool_schema(&good), ValidationStatus::Pass);

    let bad = parse_json_bytes(b"{\"type\":\"not-a-real-type\"}").unwrap();
    assert_eq!(validate_tool_schema(&bad), ValidationStatus::Error);
}

#[test]
fn summary_counts_every_verdict() {
    fn result(status: ValidationStatus) -> ValidationResult {
        ValidationResult {
            test_id: "t".to_string(),
            test_name: "t".to_string(),
            category: ValidationCategory::Protocol,
            status,
            message: String::new(),
            details: None,
            duration_ms: 1,
            timestamp_ms: 0,
        }
    }
    let results = vec![
        result(ValidationStatus::Pass),
        result(ValidationStatus::Pass),
        result(ValidationStatus::Skipped),
        result(ValidationStatus::Error),
    ];
    let summary = calculate_summary(&results);
    assert_eq!(summary.total_tests, 4);
    assert_eq!(summary.passed, 2);
    assert_eq!(summary.skipped, 1);
    assert_eq!(summary.errors, 1);
    assert_eq!(summary.compliance_percentage, 50);
}

#[test]
fn results_are_stamped_with_their_fields() {
    let r = mcp_probe::validation::make_result(
        "error_handling",
        "Invalid Method Handling",
        ValidationCategory::ErrorHandling,
        ValidationStatus::Pass,
        "the server rejects unknown methods",
        12,
    );
    assert_eq!(r.test_id, "error_handling");
    assert_eq!(r.category, ValidationCategory::ErrorHandling);
    assert_eq!(r.status, ValidationStatus::Pass);
    assert_eq!(r.duration_ms, 12);
}

#[test]
fn severity_floor_filters_results() {
    let result_pass = ValidationResult {
        test_id: "test".to_string(),
        test_name: "Test".to_string(),
        category: ValidationCategory::Protocol,
        status: ValidationStatus::Pass,
        message: "Test message".to_string(),
        details: None,
        duration_ms: 1,
        timestamp_ms: 0,
    };
    let result_error = ValidationResult {
        test_id: "test".to_string(),
        test_name: "Test".to_string(),
        category: ValidationCategory::Protocol,
        status: ValidationStatus::Error,
        message: "Test message".to_string(),
        details: None,
        duration_ms: 1,
        timestamp_ms: 0,
    };

    assert!(should_display_result(&result_pass, &Severity::Info));
    assert!(should_display_result(&result_error, &Severity::Info));
    assert!(!should_display_result(&result_pass, &Severity::Error));
    assert!(should_display_result(&result_error, &Severity::Error));
}

#[test]
fn handshake_builders_emit_the_protocol_messages() {
    let request = build_initialize_request(Implementation::new("probe", "1"), "2024-11-05");
    assert_eq!(request.method, "initialize");
    assert_eq!(request.id, JsonRpcId::Str("init_1".to_string()));

    let notification = initialized_notification();
    assert_eq!(notification.method, "initialized");
    let bytes = mcp_probe::messages::encode_message_bytes(
        mcp_probe::messages::JsonRpcMessage::Notification(notification),
    );
    assert_eq!(
        String::from_utf8(bytes).unwrap(),
        "{\"jsonrpc\":\"2.0\",\"method\":\"initialized\",\"params\":{}}"
    );
}

#[test]
fn ready_state_alone_permits_calls() {
    let token = mcp_probe::flow::new_session_token();
    assert_eq!(token.len(), 36);
    let ready = NegotiationState::Ready { session_id: token };
    assert!(ready.calls_permitted());
    assert!(!NegotiationState::Idle.calls_permitted());
    assert!(!NegotiationState::Finalizing { notifications_pending: 1 }.calls_permitted());
    assert!(NegotiationState::Failed { reason: "x".to_string() }.is_terminal());
}

#[test]
fn test_debug_command_creation() {
    let cmd = mcp_probe::cli::DebugCommand {
        transport: mcp_probe::cli::TransportArgs {
            stdio: Some("test-server".to_string()),
            args: vec![],
            working_dir: None,
            http_sse: None,
            http_stream: None,
            auth_header: None,
            headers: vec![],
        },
        config: None,
        non_interactive: true,
        show_raw: false,
        save_session: None,
        replay_session: None,
        timeout: 30,
        max_retries: 3,
    };
    assert_eq!(cmd.timeout, 30);
    assert_eq!(cmd.max_retries, 3);
    assert!(cmd.non_interactive);
}

#[test]
fn parameter_form_follows_the_schema() {
    let schema = parse_json_bytes(
        b"{\"type\":\"object\",\"properties\":{\"a\":{\"type\":\"number\",\"description\":\"first\"},\"b\":{\"enum\":[1,2]}},\"required\":[\"a\"]}",
    )
    .unwrap();
    let form = mcp_probe::debugger::build_parameter_form(&schema);
    assert_eq!(form.len(), 2);
    assert_eq!(form[0].0, "a");
    assert!(form[0].1.required);
    assert_eq!(form[0].1.description, Some("first".to_string()));
    assert_eq!(form[0].1.param_type, Some("number".to_string()));
    assert_eq!(form[1].0, "b");
    assert!(!form[1].1.required);
    assert_eq!(form[1].1.param_type, Some("enum".to_string()));
}

#[test]
fn protocol_detection_reads_the_endpoint_path() {
    let modern = mcp_probe::cli::TransportArgs {
        stdio: None,
        args: vec![],
        working_dir: None,
        http_sse: Some("http://localhost:8931/mcp".to_string()),
        http_stream: None,
        auth_header: None,
        headers: vec![],
    }
    .to_transport_config()
    .unwrap();
    let info = mcp_probe::discovery::detect_protocol_info(&modern);
    assert_eq!(info.version, "Modern Streamable HTTP");

    let all = mcp_probe::discovery::get_all_protocol_versions();
    assert_eq!(all.len(), 3);
    assert_eq!(all[1].version, "Legacy HTTP+SSE");
    assert_eq!(mcp_probe::discovery::TestStatus::Pass.name(), "PASS");
}

#[test]
fn initialization_verdict_reads_the_server_identity() {
    let payload = parse_json_bytes(
        b"{\"protocol_version\":\"2024-11-05\",\"capabilities\":{},\"server_info\":{\"name\":\"demo\",\"version\":\"1.2\"}}",
    )
    .unwrap();
    let resp = JsonRpcResponse::success(JsonRpcId::Str("init_1".to_string()), payload);
    let (status, info) = classify_init_response(&resp);
    assert_eq!(status, ValidationStatus::Pass);
    let info = info.unwrap();
    assert_eq!(info.name, "demo");
    assert_eq!(info.version, "1.2");
    assert_eq!(info.protocol_version, "2024-11-05");

    let malformed = JsonRpcResponse::success(
        JsonRpcId::Str("init_1".to_string()),
        parse_json_bytes(b"{\"protocol_version\":\"2024-11-05\"}").unwrap(),
    );
    let (status, info) = classify_init_response(&malformed);
    assert_eq!(status, ValidationStatus::Error);
    assert!(info.is_none());

    let refused = JsonRpcResponse::failure(
        JsonRpcId::Str("init_1".to_string()),
        JsonRpcError { code: -32602, message: "bad params".to_string(), data: None },
    );
    let (status, _) = classify_init_response(&refused);
    assert_eq!(status, ValidationStatus::Error);
}

#[test]
fn transport_feature_verdicts_follow_the_metadata() {
    let config = mcp_probe::transport::TransportConfig::http_sse("http://localhost:3000/mcp")
        .unwrap();
    let mut transport = mcp_probe::session::HttpSseTransport::new(config).unwrap();
    transport.connect().unwrap();
    transport
        .observe_session_header(Some("550e8400-e29b-41d4-a716-446655440000"))
        .unwrap();
    let verdicts = classify_transport_features(&transport.get_info());
    assert_eq!(
        verdicts,
        vec![
            (ValidationCategory::Security, ValidationStatus::Pass),
            (ValidationCategory::Protocol, ValidationStatus::Info),
            (ValidationCategory::Security, ValidationStatus::Pass),
            (ValidationCategory::Security, ValidationStatus::Info),
        ]
    );
}

#[test]
fn listing_entries_skip_unsupported_capabilities() {
    let rows = listing_results(
        &ListOutcome::Listed(JsonValue::Obj(vec![])),
        &ListOutcome::Unsupported,
        &ListOutcome::Unsupported,
    );
    assert_eq!(rows.len(), 3);
    assert_eq!(rows[0].category, ValidationCategory::Tools);
    assert_eq!(rows[0].status, ValidationStatus::Pass);
    assert_eq!(rows[1].category, ValidationCategory::Resources);
    assert_eq!(rows[1].status, ValidationStatus::Skipped);
    assert_eq!(rows[2].category, ValidationCategory::Prompts);
    assert_eq!(rows[2].status, ValidationStatus::Skipped);
}

#[test]
fn timeout_errors_name_the_request_method() {
    let mut table = mcp_probe::correlation::CorrelationTable::new();
    table.register("9", "tools/call", 1000).unwrap();
    let entry = table.remove("9").unwrap();
    let err = mcp_probe::correlation::timeout_error("streamable-http", &entry, 1000);
    match err {
        mcp_probe::errors::TransportError::TimeoutError { transport_type, location, duration_ms } => {
            assert_eq!(transport_type, "streamable-http");
            assert_eq!(location, "tools/call");
            assert_eq!(duration_ms, 1000);
        }
        other => panic!("unexpected error: {:?}", other),
    }
}

#[test]
fn handshake_path_walks_the_forward_states() {
    let path = mcp_probe::client::handshake_path("stdio", "2024-11-05", 30000, 4, "s".to_string());
    assert_eq!(path.len(), 7);
    assert_eq!(path[0], NegotiationState::Idle);
    for pair in path.windows(2) {
        assert!(mcp_probe::client::is_valid_transition(&pair[0], &pair[1]));
    }
    assert!(path[6].calls_permitted());
}
