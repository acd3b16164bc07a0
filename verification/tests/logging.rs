use beejs::logging::{ConsoleLogWriter, LogAggregator, LogContext, LogEntry, LogLevel, LogSink};
use beejs::str_map::StrMap;

#[test]
fn test_log_entry_creation() {
    let mut context = StrMap::new();
    context.insert("service".to_string(), "beejs".to_string());

    let log_entry = LogEntry::new(LogLevel::Info, "Test message".to_string(), context);

    assert!(matches!(log_entry.level, LogLevel::Info));
    assert_eq!(log_entry.message, "Test message");
    assert_eq!(log_entry.context.get("service"), Some(&"beejs".to_string()));
}

#[test]
fn test_log_entry_with_context() {
    let context_pairs = &[("service", "beejs"), ("version", "1.0")];
    let log_entry = LogEntry::with_context(LogLevel::Debug, "Test message", context_pairs);

    assert_eq!(log_entry.context.get("service"), Some(&"beejs".to_string()));
    assert_eq!(log_entry.context.get("version"), Some(&"1.0".to_string()));
}

#[test]
fn test_log_context_creation() {
    let context = LogContext::new("beejs", "1.0.0");
    assert_eq!(context.service, "beejs");
    assert_eq!(context.version, "1.0.0");
    assert_eq!(context.request_id, None);
    assert_eq!(context.user_id, None);
}

#[test]
fn test_log_context_with_request_id() {
    let context = LogContext::new("beejs", "1.0.0").with_request_id("req-12345");

    assert_eq!(context.service, "beejs");
    assert_eq!(context.request_id, Some("req-12345".to_string()));
}

#[test]
fn test_log_context_with_user_id() {
    let context = LogContext::new("beejs", "1.0.0").with_user_id("user-789");

    assert_eq!(context.user_id, Some("user-789".to_string()));
}

#[test]
fn test_log_context_with_tags() {
    let context = LogContext::new("beejs", "1.0.0")
        .with_tag("env", "production")
        .with_tag("region", "us-east-1");

    assert_eq!(context.tags.get("env"), Some(&"production".to_string()));
    assert_eq!(context.tags.get("region"), Some(&"us-east-1".to_string()));
}

#[test]
fn test_log_context_to_hashmap() {
    let context = LogContext::new("beejs", "1.0.0")
        .with_request_id("req-12345")
        .with_tag("env", "production");

    let map = context.to_hashmap();
    assert_eq!(map.get("service"), Some(&"beejs".to_string()));
    assert_eq!(map.get("version"), Some(&"1.0.0".to_string()));
    assert_eq!(map.get("request_id"), Some(&"req-12345".to_string()));
    assert_eq!(map.get("env"), Some(&"production".to_string()));
}

#[test]
fn test_log_aggregator_info() {
    let writer = LogSink::Console(ConsoleLogWriter::new(false));
    let mut aggregator = LogAggregator::new(writer);

    let context = LogContext::new("beejs", "1.0.0").with_request_id("req-12345");

    aggregator.info("Request processed", &context);
    assert_eq!(aggregator.pending_count(), 1);
}

#[test]
fn log_context_tag_overrides_field_in_flat_map() {
    let context = LogContext::new("beejs", "1.0.0").with_tag("service", "other");
    let map = context.to_hashmap();
    assert_eq!(map.get("service"), Some(&"other".to_string()));
    assert_eq!(map.get("request_id"), None);
    assert_eq!(map.len(), 2);
}

#[test]
fn log_entry_later_pair_wins() {
    let pairs = &[("k", "first"), ("k", "second")];
    let entry = LogEntry::with_context(LogLevel::Warn, "m", pairs);
    assert_eq!(entry.get_tag("k"), Some(&"second".to_string()));
    assert_eq!(entry.context.len(), 1);
}

#[test]
fn log_entry_add_tag_then_get() {
    let mut entry = LogEntry::new(LogLevel::Error, "boom".to_string(), StrMap::new());
    assert_eq!(entry.get_tag("a"), None);
    entry.add_tag("a", "1");
    entry.add_tag("a", "2");
    assert_eq!(entry.get_tag("a"), Some(&"2".to_string()));
}

#[test]
fn log_aggregator_records_levels_in_order() {
    let mut aggregator = LogAggregator::new(LogSink::Console(ConsoleLogWriter::new(true)));
    let context = LogContext::new("svc", "2").with_user_id("u1");
    aggregator.trace("a", &context);
    aggregator.debug("b", &context);
    aggregator.warn("c", &context);
    aggregator.error("d", &context);
    let pending = aggregator.take_pending();
    assert_eq!(pending.len(), 4);
    assert_eq!(pending[0].level, LogLevel::Trace);
    assert_eq!(pending[3].level, LogLevel::Error);
    assert_eq!(pending[2].message, "c");
    assert_eq!(pending[1].context.get("user_id"), Some(&"u1".to_string()));
    assert_eq!(aggregator.pending_count(), 0);
}
