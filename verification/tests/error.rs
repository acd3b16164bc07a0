use beejs::error::recovery::AutoRecovery;
use beejs::error::{
    create_error_context, create_simple_error_context, BeejsError, ErrorContext, ErrorHandler, ErrorSeverity,
    SourceLocation,
};
use std::time::{Duration, Instant};

type Result<T> = std::result::Result<T, BeejsError>;

#[test]
fn test_beejs_try_macro() -> Result<()> {
    let result: Result<i32> = Ok(42);
    let value = match result {
        Ok(value) => value,
        Err(error) => return Err(ErrorHandler::convert_error(error)),
    };
    assert_eq!(value, 42);
    Ok(())
}

#[test]
fn test_beejs_try_macro_error() {
    fn helper() -> Result<()> {
        let result: Result<i32> = Err(BeejsError::V8Error("Test".to_string()));
        let _error = match result {
            Ok(value) => value,
            Err(error) => return Err(ErrorHandler::convert_error(error)),
        };
        assert!(false);
        Ok(())
    }
    let res = helper();
    assert!(res.is_err());
    assert!(matches!(res.err().unwrap(), BeejsError::V8Error(_)));
}

#[test]
fn test_error_context_creation() {
    let error = BeejsError::V8Error("Test error".to_string());
    let context = create_error_context(error.clone(), "test.rs".to_string(), 42, "test_function".to_string());
    assert_eq!(context.error_type, error);
    assert_eq!(context.source_location.as_ref().unwrap().file, "test.rs");
    assert_eq!(context.source_location.as_ref().unwrap().line, 42);
}

#[test]
fn test_simple_error_context() {
    let error = BeejsError::RuntimeError("Simple error".to_string());
    let context = create_simple_error_context(error.clone());
    assert_eq!(context.error_type, error);
    assert!(context.source_location.is_none());
}

#[test]
fn test_error_conversion() {
    let std_error = "Standard error";
    let beejs_error = ErrorHandler::convert_display_error(std_error.to_string());
    assert!(matches!(beejs_error, BeejsError::RuntimeError(_)));
}

#[test]
fn severity_and_suggestions_follow_error_kind() {
    assert!(matches!(ErrorContext::determine_severity(&BeejsError::SecurityError("x".into())), ErrorSeverity::Critical));
    let ctx = ErrorContext::new_without_location(BeejsError::NetworkError("down".into()));
    assert!(!ctx.get_recovery_suggestions().is_empty());
}

#[test]
fn source_location_renders_with_optional_column() {
    let loc = SourceLocation::new("a.rs".to_string(), 7, "f".to_string());
    assert_eq!(loc.to_string(), "a.rs:7");
    let loc = loc.with_column(3);
    assert_eq!(loc.to_string(), "a.rs:7:3");
}

#[test]
fn display_text_prefixes_label() {
    assert_eq!(BeejsError::IoError("disk".into()).display_text(), "IO Error: disk");
}

#[test]
fn recovery_attempts_follow_error_kind() {
    assert_eq!(
        AutoRecovery::attempt_recovery(&BeejsError::V8Error("x".into()), 1),
        Ok("V8 reinitialized (attempt 1)".to_string())
    );
    assert_eq!(
        AutoRecovery::attempt_recovery(&BeejsError::V8Error("x".into()), 3),
        Ok("Switched to simplified mode (attempt 3)".to_string())
    );
    assert_eq!(
        AutoRecovery::attempt_recovery(&BeejsError::IoError("x".into()), 2),
        Err(BeejsError::RuntimeError("Failed to recover after 2 attempts".to_string()))
    );
}

#[test]
fn generic_errors_recover_on_first_attempt() {
    let recovery = AutoRecovery::new();
    let (outcome, attempts) = recovery.run_attempts(&BeejsError::IoError("x".into()));
    assert_eq!(outcome, Ok("Runtime state reset".to_string()));
    assert_eq!(attempts, 1);
}

#[test]
fn security_errors_are_not_recovered() {
    let recovery = AutoRecovery::new();
    assert!(!recovery.should_attempt_recovery(&BeejsError::SecurityError("x".into())));
    assert!(recovery.should_attempt_recovery(&BeejsError::ConfigurationError("x".into())));
}

#[test]
fn failed_recovery_falls_back_when_enabled() {
    let mut recovery = AutoRecovery::new();
    let error = BeejsError::IoError("x".into());
    let failure = Err(BeejsError::RuntimeError("Failed to recover after 4 attempts".into()));
    let r = recovery.conclude_recovery(&error, failure.clone(), Instant::now(), Duration::from_millis(1), Some("cached".into()));
    assert_eq!(r, Ok("Fallback: cached".to_string()));
    assert_eq!(recovery.get_stats().fallbacks_used, 1);
    let r = recovery.conclude_recovery(&error, failure, Instant::now(), Duration::from_millis(1), None);
    assert!(r.is_err());
    assert_eq!(recovery.get_stats().failed_recoveries, 1);
    assert_eq!(recovery.get_retry_history().len(), 1);
}

#[test]
fn retry_history_keeps_newest_hundred() {
    let mut recovery = AutoRecovery::new();
    let error = BeejsError::IoError("x".into());
    for _ in 0..105 {
        let r = recovery.conclude_recovery(&error, Ok("ok".into()), Instant::now(), Duration::from_millis(2), None);
        assert_eq!(r, Ok("ok".to_string()));
    }
    assert_eq!(recovery.get_retry_history().len(), 100);
    assert_eq!(recovery.get_stats().successful_recoveries, 105);
    recovery.reset_stats();
    assert_eq!(recovery.get_retry_history().len(), 0);
    assert_eq!(recovery.get_stats().successful_recoveries, 0);
}

#[test]
fn error_context_display_text() {
    let context = create_error_context(
        BeejsError::NetworkError("timeout".to_string()),
        "net.rs".to_string(),
        7,
        "fetch".to_string(),
    );
    assert_eq!(
        context.display_text(),
        "Error: Network Error: timeout (Severity: MEDIUM) at net.rs:7\nSuggestions:\n  - Check network connectivity\n  - Verify URL/endpoint\n  - Review timeout settings"
    );

    let mut bare = create_simple_error_context(BeejsError::RuntimeError("boom".to_string()));
    bare.recovery_suggestions.clear();
    assert_eq!(bare.display_text(), "Error: Runtime Error: boom (Severity: HIGH)");
}

#[test]
fn test_error_handler_creation() {
    let handler = beejs::error_handler::ErrorHandler::new(true);
    let stats = handler.get_stats();
    assert_eq!(stats.total_errors, 0);
    assert_eq!(stats.compilation_errors, 0);
    assert_eq!(stats.runtime_errors, 0);
}

#[test]
fn test_error_stats_reset() {
    let mut handler = beejs::error_handler::ErrorHandler::new(false);
    let message = handler.handle_compilation_error("unexpected token", Instant::now());
    assert_eq!(message, "JavaScript compilation error: unexpected token");
    handler.handle_compilation_error("missing brace", Instant::now());
    assert_eq!(handler.get_stats().total_errors, 2);
    assert_eq!(handler.get_stats().compilation_errors, 2);
    assert!(handler.get_stats().last_error_time.is_some());

    handler.reset_stats();
    let new_stats = handler.get_stats();
    assert_eq!(new_stats.total_errors, 0);
    assert_eq!(new_stats.compilation_errors, 0);
    assert_eq!(new_stats.runtime_errors, 0);
}
