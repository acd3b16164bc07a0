use beejs::error::BeejsError;
use beejs::fallback::{
    create_fallback_manager, create_fallback_manager_with_strategies, FallbackStrategy, FallbackUtils, Feature,
};
use std::time::{Duration, Instant};

#[test]
fn test_should_fallback() {
    let v8_error = BeejsError::V8Error("Test".to_string());
    let config_error = BeejsError::ConfigurationError("Test".to_string());

    assert!(FallbackUtils::should_fallback(&v8_error));
    assert!(!FallbackUtils::should_fallback(&config_error));
}

#[test]
fn test_default_strategy() {
    let v8_strategy = FallbackUtils::get_default_strategy(&Feature::V8Optimization);
    assert!(matches!(v8_strategy, FallbackStrategy::DegradeToBasic));

    let python_strategy = FallbackUtils::get_default_strategy(&Feature::PythonRuntime);
    assert!(matches!(python_strategy, FallbackStrategy::UseAlternative(_)));
}

#[test]
fn test_fallback_suggestions() {
    let suggestions = FallbackUtils::create_fallback_suggestions(&Feature::V8Optimization);
    assert!(!suggestions.is_empty());
    assert!(suggestions.iter().any(|s| s.contains("V8")));
}

#[test]
fn test_fallback_manager_creation() {
    let manager = create_fallback_manager();
    assert!(manager.is_feature_active(&Feature::V8Optimization));
}

#[test]
fn test_fallback_manager_with_strategies() {
    let mut manager = create_fallback_manager_with_strategies();

    manager.register_strategy(Feature::PythonRuntime, FallbackStrategy::UseAlternative("Test alternative".to_string()));

    let strategies = manager.get_strategies(&Feature::PythonRuntime);
    assert!(strategies.is_some());
    assert!(!strategies.unwrap().is_empty());
}

#[test]
fn failure_applies_first_strategy() {
    let mut manager = create_fallback_manager_with_strategies();
    let r = manager.handle_feature_failure(Feature::PythonRuntime, Instant::now(), Duration::from_millis(3));
    assert_eq!(r, Ok("Using alternative: Python subprocess".to_string()));
    assert_eq!(manager.get_stats().total_fallbacks, 1);
    assert_eq!(manager.get_stats().successful_recoveries, 1);
    assert_eq!(manager.get_event_history().len(), 1);
    let key = "UseAlternative(\"Python subprocess\")".to_string();
    assert!(manager.get_stats().strategy_usage_counts.iter().any(|(k, n)| *k == key && *n == 1));
}

#[test]
fn failure_without_strategy_is_counted_as_failed() {
    let mut manager = create_fallback_manager();
    let r = manager.handle_feature_failure(Feature::RustNative, Instant::now(), Duration::from_millis(1));
    assert_eq!(r, Err(BeejsError::RuntimeError("All fallback strategies failed for feature: Rust Native".to_string())));
    assert_eq!(manager.get_stats().failed_recoveries, 1);
    assert!(manager.get_stats().feature_fallback_counts.iter().any(|(f, n)| *f == Feature::RustNative && *n == 1));
}

#[test]
fn disabling_strategy_switches_feature_off() {
    let mut manager = create_fallback_manager();
    manager.register_strategy(Feature::V8Optimization, FallbackStrategy::DisableFeature);
    let r = manager.handle_feature_failure(Feature::V8Optimization, Instant::now(), Duration::from_millis(1));
    assert_eq!(r, Ok("Feature V8 Optimization disabled".to_string()));
    assert!(!manager.is_feature_active(&Feature::V8Optimization));
    manager.enable_feature(Feature::V8Optimization);
    assert!(manager.is_feature_active(&Feature::V8Optimization));
    assert!(!manager.is_feature_active(&Feature::EdgeComputing));
}

#[test]
fn cleanup_drops_retry_strategies() {
    let mut manager = create_fallback_manager_with_strategies();
    manager.cleanup_retry_strategies();
    let v8 = manager.get_strategies(&Feature::V8Optimization).unwrap();
    assert_eq!(v8.len(), 2);
    assert!(matches!(v8[0], FallbackStrategy::DegradeToBasic));
    assert!(matches!(manager.next_strategy(Feature::WebAssembly), Some(FallbackStrategy::UseAlternative(_))));
}

#[test]
fn reset_clears_stats_and_history() {
    let mut manager = create_fallback_manager_with_strategies();
    let _ = manager.handle_feature_failure(Feature::GoRuntime, Instant::now(), Duration::from_millis(1));
    manager.reset_stats();
    assert_eq!(manager.get_stats().total_fallbacks, 0);
    assert_eq!(manager.get_event_history().len(), 0);
}

#[test]
fn feature_names() {
    assert_eq!(Feature::IOSRuntime.to_string(), "iOS Runtime");
    assert_eq!(Feature::NetworkOptimizer.to_string(), "Network Optimizer");
}
