//! The runtime's error model: error kinds, context, recovery and helpers.

pub mod helpers;
pub mod recovery;
pub mod types;

pub use helpers::{create_error_context, create_simple_error_context, ErrorHandler, GlobalErrorConfig};
pub use recovery::{AutoRecovery, AutoRecoveryConfig, RecoveryStats, RetryPolicy};
pub use types::{BeejsError, ErrorContext, ErrorSeverity, SourceLocation, StackFrame};
