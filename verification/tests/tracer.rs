use beejs::str_map::StrMap;
use beejs::tracing::{hex_encode, DistributedTracer, TraceContext};

#[test]
fn test_tracer_creation() {
    let tracer = DistributedTracer::new("beejs-service".to_string());
    assert_eq!(tracer.service_name, "beejs-service");
}

#[test]
fn test_start_span() {
    let tracer = DistributedTracer::new("beejs-service".to_string());
    let span = tracer.start_span("api_request");

    assert!(!span.trace_id.is_empty());
    assert!(!span.span_id.is_empty());
    assert_eq!(span.operation_name, "api_request");
    assert_eq!(span.parent_span_id, None);
    assert_eq!(span.tags.len(), 0);
    assert_eq!(span.logs.len(), 0);
}

#[test]
fn test_inject_context() {
    let tracer = DistributedTracer::new("beejs-service".to_string());
    let span = tracer.start_span("database_query");

    let mut headers = StrMap::new();
    tracer.inject_context(&span, &mut headers);

    assert_eq!(headers.get("trace-id"), Some(&span.trace_id));
    assert_eq!(headers.get("span-id"), Some(&span.span_id));
    assert_eq!(headers.get("parent-span-id"), None);
}

#[test]
fn test_extract_context() {
    let tracer = DistributedTracer::new("beejs-service".to_string());

    let mut headers = StrMap::new();
    headers.insert("trace-id".to_string(), "test-trace-id".to_string());
    headers.insert("span-id".to_string(), "test-span-id".to_string());

    let context = tracer.extract_context(&headers).unwrap();

    assert_eq!(context.trace_id, "test-trace-id");
    assert_eq!(context.span_id, "test-span-id");
}

#[test]
fn test_span_with_context() {
    let tracer = DistributedTracer::new("beejs-service".to_string());

    let mut headers = StrMap::new();
    headers.insert("trace-id".to_string(), "parent-trace".to_string());
    headers.insert("span-id".to_string(), "parent-span".to_string());

    let child_span = tracer.start_span_with_context("child_operation", &headers);

    assert_eq!(child_span.trace_id, "parent-trace");
    assert_eq!(child_span.parent_span_id, Some("parent-span".to_string()));
    assert_eq!(child_span.operation_name, "child_operation");
}

#[test]
fn test_span_tags() {
    let tracer = DistributedTracer::new("beejs-service".to_string());
    let mut span = tracer.start_span("api_request");

    span.add_tag("user_id", "12345");
    span.add_tag("auth_method", "oauth");

    assert_eq!(span.tags.get("user_id"), Some(&"12345".to_string()));
    assert_eq!(span.tags.get("auth_method"), Some(&"oauth".to_string()));
}

#[test]
fn test_span_logs() {
    let tracer = DistributedTracer::new("beejs-service".to_string());
    let mut span = tracer.start_span("api_request");

    span.log_event("request_received");
    span.log_event("response_sent");

    assert_eq!(span.logs.len(), 2);
    assert!(span.logs.contains(&"request_received".to_string()));
    assert!(span.logs.contains(&"response_sent".to_string()));
}

#[test]
fn test_trace_context_baggage() {
    let mut context = TraceContext::new("trace-123".to_string(), "span-456".to_string());

    context.add_baggage("user_id", "12345");
    context.add_baggage("tenant", "acme");

    assert_eq!(context.get_baggage("user_id"), Some(&"12345".to_string()));
    assert_eq!(context.get_baggage("tenant"), Some(&"acme".to_string()));
}

#[test]
fn test_span_duration() {
    let tracer = DistributedTracer::new("beejs-service".to_string());
    let span = tracer.start_span("api_request");

    let waited = std::time::Instant::now();
    while waited.elapsed() < std::time::Duration::from_millis(10) {}

    let duration = span.get_duration();
    assert!(duration.as_millis() >= 10);
}

#[test]
fn test_trace_id_generation() {
    let tracer = DistributedTracer::new("beejs-service".to_string());
    let span1 = tracer.start_span("op1");
    let span2 = tracer.start_span("op2");

    assert_ne!(span1.span_id, span2.span_id);
    assert_eq!(span1.trace_id.len(), 32);
}

#[test]
fn test_span_id_generation() {
    let tracer = DistributedTracer::new("beejs-service".to_string());
    let span1 = tracer.start_span("op1");
    let span2 = tracer.start_span("op2");

    assert_ne!(span1.span_id, span2.span_id);
    assert_eq!(span1.span_id.len(), 16);
}

#[test]
fn hex_encoding_is_lowercase_two_digits_per_byte() {
    assert_eq!(hex_encode(&vec![0x00, 0x0f, 0xa5, 0xff]), "000fa5ff");
    assert_eq!(hex_encode(&vec![]), "");
}

#[test]
fn generated_ids_are_lowercase_hex() {
    let tracer = DistributedTracer::new("s".to_string());
    let span = tracer.start_span("op");
    assert!(span.trace_id.chars().all(|c| c.is_ascii_digit() || ('a'..='f').contains(&c)));
    assert!(span.span_id.chars().all(|c| c.is_ascii_digit() || ('a'..='f').contains(&c)));
}

#[test]
fn inject_then_extract_round_trips() {
    let tracer = DistributedTracer::new("s".to_string());
    let mut headers = StrMap::new();
    headers.insert("trace-id".to_string(), "t0".to_string());
    headers.insert("span-id".to_string(), "s0".to_string());
    let child = tracer.start_span_with_context("child", &headers);
    let mut out = StrMap::new();
    tracer.inject_context(&child, &mut out);
    assert_eq!(out.get("parent-span-id"), Some(&"s0".to_string()));
    let ctx = tracer.extract_context(&out).unwrap();
    assert_eq!(ctx.trace_id, "t0");
    assert_eq!(ctx.span_id, child.span_id);
}

#[test]
fn extract_needs_both_ids() {
    let tracer = DistributedTracer::new("s".to_string());
    let mut headers = StrMap::new();
    headers.insert("trace-id".to_string(), "t".to_string());
    assert!(tracer.extract_context(&headers).is_none());
    let fresh = tracer.start_span_with_context("op", &StrMap::new());
    assert_eq!(fresh.trace_id.len(), 32);
    assert_eq!(fresh.parent_span_id, None);
}

#[test]
fn span_duration_from_clock_comparison() {
    let d = std::time::Duration::from_millis(250);
    assert_eq!(beejs::tracing::duration_from_elapsed(Some(d)), d);
    assert_eq!(beejs::tracing::duration_from_elapsed(None), std::time::Duration::from_secs(0));
}

#[test]
fn span_tags_and_logs_keep_the_start_time() {
    let tracer = DistributedTracer::new("svc".to_string());
    let mut span = tracer.start_span("op");
    let start = span.start_time;
    span.add_tag("k", "v");
    span.log_event("e");
    assert_eq!(span.start_time, start);
    assert_eq!(span.operation_name, "op");
    assert_eq!(span.parent_span_id, None);
}
