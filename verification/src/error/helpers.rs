//! Convenience constructors, global configuration and error conversion.

use vstd::prelude::*;
use crate::error::types::{severity_of, BeejsError, ErrorContext, SourceLocation};
use crate::text::strings_view;
use crate::error::types::suggestions_for;

verus! {

/// Context for `error` raised at `file:line` in `function`.
pub fn create_error_context(error: BeejsError, file: String, line: u32, function: String) -> (r: ErrorContext)
    ensures
        r.error_type == error,
        r.source_location == Some(SourceLocation { file, line, column: None, function }),
        r.stack_trace@.len() == 0,
        r.severity == severity_of(error),
        strings_view(r.recovery_suggestions@) == suggestions_for(error),
        r.metadata@ == Map::<Seq<char>, Seq<char>>::empty(),
{
    ErrorContext::new(error, file, line, function)
}

/// Context for `error` without a source location.
pub fn create_simple_error_context(error: BeejsError) -> (r: ErrorContext)
    ensures
        r.error_type == error,
        r.source_location is None,
        r.stack_trace@.len() == 0,
        r.severity == severity_of(error),
        strings_view(r.recovery_suggestions@) == suggestions_for(error),
        r.metadata@ == Map::<Seq<char>, Seq<char>>::empty(),
{
    ErrorContext::new_without_location(error)
}

/// Process-wide switches for error handling.
#[derive(Debug, Clone, Copy, PartialEq, Eq, Structural)]
pub struct GlobalErrorConfig {
    pub enable_auto_recovery: bool,
    pub enable_fallback: bool,
    pub max_error_history: usize,
    pub enable_error_logging: bool,
}

impl Default for GlobalErrorConfig {
    fn default() -> (r: GlobalErrorConfig)
        ensures
            r.enable_auto_recovery,
            r.enable_fallback,
            r.max_error_history == 1000,
            r.enable_error_logging,
    {
        GlobalErrorConfig {
            enable_auto_recovery: true,
            enable_fallback: true,
            max_error_history: 1000,
            enable_error_logging: true,
        }
    }
}

/// Conversion of errors into [`BeejsError`] and the outcome of guarded operations.
pub struct ErrorHandler;

impl ErrorHandler {
    /// An error that already is a [`BeejsError`] converts to itself.
    pub fn convert_error(error: BeejsError) -> (r: BeejsError)
        ensures
            r == error,
    {
        error
    }

    /// Any other error converts to a runtime error carrying its displayed text.
    pub fn convert_display_error(text: String) -> (r: BeejsError)
        ensures
            r == BeejsError::RuntimeError(text),
    {
        BeejsError::RuntimeError(text)
    }

    /// The outcome of an operation wrapped with context: a success passes through;
    /// a failure is reported under `error_type`, with the context built for the
    /// original error (to be logged when logging is enabled).
    pub fn wrap_outcome<T>(
        error_type: BeejsError,
        file: String,
        line: u32,
        function: String,
        outcome: Result<T, BeejsError>,
    ) -> (r: (Result<T, BeejsError>, Option<ErrorContext>))
        ensures
            match outcome {
                Ok(v) => r.0 == Ok::<T, BeejsError>(v) && r.1 is None,
                Err(e) => {
                    &&& r.0 == Err::<T, BeejsError>(error_type)
                    &&& r.1 matches Some(ctx)
                    &&& ctx.error_type == e
                    &&& ctx.source_location == Some(SourceLocation { file, line, column: None, function })
                },
            },
    {
        match outcome {
            Ok(v) => (Ok(v), None),
            Err(e) => {
                let ctx = ErrorContext::new(e, file, line, function);
                (Err(error_type), Some(ctx))
            },
        }
    }

    /// The outcome of an operation executed safely: a success passes through; a
    /// failure is returned unchanged, with a context (without location) for logging.
    pub fn safe_outcome<T>(outcome: Result<T, BeejsError>) -> (r: (Result<T, BeejsError>, Option<ErrorContext>))
        ensures
            match outcome {
                Ok(v) => r.0 == Ok::<T, BeejsError>(v) && r.1 is None,
                Err(e) => {
                    &&& r.0 == Err::<T, BeejsError>(e)
                    &&& r.1 matches Some(ctx)
                    &&& ctx.error_type == e
                    &&& ctx.source_location is None
                },
            },
    {
        match outcome {
            Ok(v) => (Ok(v), None),
            Err(e) => {
                let ctx = ErrorContext::new_without_location(e);
                let err = ctx.error_type.duplicate();
                (Err(err), Some(ctx))
            },
        }
    }
}

} // verus!
