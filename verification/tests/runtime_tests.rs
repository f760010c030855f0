//! The correlation engine under concurrent-request patterns: distinct ids,
//! duplicate registration, timeout removal, late responses, disconnect, and
//! the notification queue's ordering.

use mcp_probe::correlation::{CorrelationError, CorrelationTable, MessageQueue};
use mcp_probe::errors::TransportError;
use mcp_probe::json::JsonValue;
use mcp_probe::messages::{JsonRpcId, JsonRpcMessage, JsonRpcNotification, JsonRpcResponse};
use mcp_probe::session::HttpStreamTransport;

#[test]
fn correlation_distinct_ids_complete_independently() {
    let mut table = CorrelationTable::new();
    table.register("1", "tools/list", 1000).unwrap();
    table.register("2", "tools/list", 1000).unwrap();
    assert_eq!(table.len(), 2);

    let first = table.remove("1").unwrap();
    assert_eq!(first.id, "1");
    assert!(table.contains("2"));
    assert!(!table.contains("1"));
}

#[test]
fn correlation_duplicate_id_fails_at_registration() {
    let mut table = CorrelationTable::new();
    table.register("7", "tools/list", 1000).unwrap();
    assert_eq!(
        table.register("7", "tools/call", 2000),
        Err(CorrelationError::DuplicateId)
    );
    assert_eq!(table.len(), 1);

    let _ = table.remove("7");
    assert!(table.register("7", "tools/call", 2000).is_ok());
}

#[test]
fn correlation_timeout_removes_entry_and_late_response_is_dropped() {
    let mut table = CorrelationTable::new();
    table.register("slow", "tools/list", 1000).unwrap();
    table.register("fast", "tools/list", 5000).unwrap();

    let expired = table.expired_ids(1000);
    assert_eq!(expired.len(), 1);
    assert_eq!(expired[0], "slow");

    let entry = table.remove("slow").unwrap();
    let timeout = TransportError::TimeoutError {
        transport_type: "streamable-http".to_string(),
        location: entry.method,
        duration_ms: 1000,
    };
    assert!(timeout.is_timeout());
    assert!(!table.contains("slow"));

    assert!(table.remove("slow").is_none());
    assert!(table.contains("fast"));

    table.register("slow", "tools/list", 9000).unwrap();
    assert_eq!(table.len(), 2);
}

#[test]
fn disconnect_resolves_every_outstanding_waiter() {
    let mut table = CorrelationTable::new();
    table.register("a", "tools/list", 1000).unwrap();
    table.register("b", "resources/list", 1000).unwrap();
    table.register("c", "prompts/list", 1000).unwrap();

    let drained = table.fail_all();
    assert_eq!(drained.len(), 3);
    assert_eq!(table.len(), 0);
    assert_eq!(drained[0].id, "a");
    assert_eq!(drained[1].id, "b");
    assert_eq!(drained[2].id, "c");
}

#[test]
fn ten_concurrent_requests_answered_in_reverse_order() {
    let mut table = CorrelationTable::new();
    let ids: Vec<String> = (0..10).map(|i| format!("req-{}", i)).collect();
    for id in &ids {
        table.register(id, "tools/list", 1000).unwrap();
    }
    assert_eq!(table.len(), 10);
    for id in ids.iter().rev() {
        let entry = table.remove(id).unwrap();
        assert_eq!(&entry.id, id);
    }
    assert_eq!(table.len(), 0);
}

#[test]
fn notification_queue_keeps_arrival_order() {
    let mut q = MessageQueue::new();
    q.push(JsonRpcMessage::Notification(JsonRpcNotification::new("first", None)));
    q.push(JsonRpcMessage::Notification(JsonRpcNotification::new("second", None)));
    match q.pop().unwrap() {
        JsonRpcMessage::Notification(n) => assert_eq!(n.method, "first"),
        _ => panic!("expected a notification"),
    }
    match q.pop().unwrap() {
        JsonRpcMessage::Notification(n) => assert_eq!(n.method, "second"),
        _ => panic!("expected a notification"),
    }
    assert!(q.pop().is_none());
}

#[test]
fn inbound_routing_completes_waiters_and_queues_notifications() {
    let mut transport = HttpStreamTransport::new("http://localhost:8080".to_string(), None);
    transport.pending.register("5", "tools/list", 1000).unwrap();
    transport.pending.register("-3", "tools/call", 1000).unwrap();

    let note = JsonRpcMessage::Notification(JsonRpcNotification::new("tools/list_changed", None));
    assert!(transport.route_inbound(note).is_none());
    assert_eq!(transport.inbound.len(), 1);

    let response = JsonRpcMessage::Response(JsonRpcResponse::success(
        JsonRpcId::Int(-3),
        JsonValue::Null,
    ));
    let (entry, resp) = transport.route_inbound(response).unwrap();
    assert_eq!(entry.id, "-3");
    assert_eq!(entry.method, "tools/call");
    assert_eq!(resp.id, JsonRpcId::Int(-3));

    let late = JsonRpcMessage::Response(JsonRpcResponse::success(
        JsonRpcId::Int(-3),
        JsonValue::Null,
    ));
    assert!(transport.route_inbound(late).is_none());
    assert!(transport.pending.contains("5"));
    assert_eq!(transport.inbound.len(), 1);
}
