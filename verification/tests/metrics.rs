use beejs::metrics::{MetricsCollector, RequestStatus};
use std::time::Duration;

#[test]
fn test_metrics_collector_creation() {
    let collector = MetricsCollector::new();
    assert_eq!(collector.requests_total, 0);
    assert_eq!(collector.total_latency_ms, 0);
    assert_eq!(collector.active_connections, 0);
}

#[test]
fn test_record_request() {
    let mut collector = MetricsCollector::new();

    collector.record_request(Duration::from_millis(150), RequestStatus::Success);

    assert_eq!(collector.requests_total, 1);
    assert_eq!(collector.total_latency_ms, 150);
}

#[test]
fn test_memory_usage() {
    let mut collector = MetricsCollector::new();

    collector.record_memory_usage(2048);
    assert_eq!(collector.memory_usage_bytes, 2048);

    collector.record_memory_usage(1024);
    assert_eq!(collector.memory_usage_bytes, 3072);
}

#[test]
fn test_active_connections() {
    let mut collector = MetricsCollector::new();

    collector.update_active_connections(10);
    assert_eq!(collector.active_connections, 10);

    collector.update_active_connections(5);
    assert_eq!(collector.active_connections, 5);
}

#[test]
fn test_export_prometheus() {
    let mut collector = MetricsCollector::new();

    collector.record_request(Duration::from_millis(150), RequestStatus::Success);
    collector.update_active_connections(5);
    collector.record_memory_usage(1024 * 1024);
    collector.set_cpu_usage_percent((45.5f64).round() as u64);

    let output = collector.export_prometheus("150");

    assert!(output.contains("beejs_requests_total 1"));
    assert!(output.contains("beejs_request_duration_ms_total 150"));
    assert!(output.contains("beejs_active_connections 5"));
    assert!(output.contains("beejs_memory_usage_bytes 1048576"));
    assert!(output.contains("beejs_cpu_usage_percent 46"));
    assert!(output.contains("# HELP"));
    assert!(output.contains("# TYPE"));
}

#[test]
fn counters_wrap_around() {
    let mut collector = MetricsCollector::new();
    collector.record_memory_usage(u64::MAX);
    collector.record_memory_usage(2);
    assert_eq!(collector.memory_usage_bytes, 1);
}

#[test]
fn latency_is_counted_in_whole_milliseconds() {
    let mut collector = MetricsCollector::new();
    collector.record_request(Duration::from_micros(1999), RequestStatus::Error("x".to_string()));
    assert_eq!(collector.total_latency_ms, 1);
    let snapshot = collector.get_metrics_snapshot();
    assert_eq!(snapshot.requests_total, 1);
    assert_eq!(snapshot.total_latency_ms, 1);
}
