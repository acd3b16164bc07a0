//! Counting of script errors.

use vstd::prelude::*;
use crate::text::owned;

verus! {

/// Counters of script errors. (The error rate, a floating-point figure, is
/// kept by the caller.)
#[derive(Debug, Clone)]
pub struct ErrorCounts {
    pub total_errors: usize,
    pub compilation_errors: usize,
    pub runtime_errors: usize,
    pub last_error_time: Option<std::time::Instant>,
}

impl ErrorCounts {
    /// All counters at zero.
    pub fn new() -> (c: ErrorCounts)
        ensures
            c.total_errors == 0,
            c.compilation_errors == 0,
            c.runtime_errors == 0,
            c.last_error_time is None,
    {
        ErrorCounts { total_errors: 0, compilation_errors: 0, runtime_errors: 0, last_error_time: None }
    }
}

/// The message of a compilation error.
pub open spec fn compilation_error_text(message: Seq<char>) -> Seq<char> {
    "JavaScript compilation error: "@ + message
}

/// Counts script errors; `verbose` asks the caller to echo them.
pub struct ErrorHandler {
    stats: ErrorCounts,
    verbose: bool,
}

impl ErrorHandler {
    /// The counters.
    pub closed spec fn counts(&self) -> ErrorCounts {
        self.stats
    }

    /// Whether errors are echoed.
    pub closed spec fn verbose_spec(&self) -> bool {
        self.verbose
    }

    pub fn new(verbose: bool) -> (h: ErrorHandler)
        ensures
            h.counts().total_errors == 0,
            h.counts().compilation_errors == 0,
            h.counts().runtime_errors == 0,
            h.counts().last_error_time is None,
            h.verbose_spec() == verbose,
    {
        ErrorHandler { stats: ErrorCounts::new(), verbose }
    }

    /// Whether errors are echoed.
    pub fn is_verbose(&self) -> (r: bool)
        ensures
            r == self.verbose_spec(),
    {
        self.verbose
    }

    /// Counts a compilation error seen at `now` and gives its message.
    pub fn handle_compilation_error(&mut self, error_msg: &str, now: std::time::Instant) -> (r: String)
        requires
            old(self).counts().total_errors < usize::MAX,
            old(self).counts().compilation_errors < usize::MAX,
        ensures
            r@ == compilation_error_text(error_msg@),
            final(self).counts().compilation_errors == old(self).counts().compilation_errors + 1,
            final(self).counts().total_errors == old(self).counts().total_errors + 1,
            final(self).counts().runtime_errors == old(self).counts().runtime_errors,
            final(self).counts().last_error_time == Some(now),
            final(self).verbose_spec() == old(self).verbose_spec(),
    {
        self.stats.compilation_errors = self.stats.compilation_errors + 1;
        self.stats.total_errors = self.stats.total_errors + 1;
        self.stats.last_error_time = Some(now);
        owned("JavaScript compilation error: ").concat(error_msg)
    }

    /// The counters.
    pub fn get_stats(&self) -> (c: &ErrorCounts)
        ensures
            *c == self.counts(),
    {
        &self.stats
    }

    /// Sets the counters back to zero.
    pub fn reset_stats(&mut self)
        ensures
            final(self).counts().total_errors == 0,
            final(self).counts().compilation_errors == 0,
            final(self).counts().runtime_errors == 0,
            final(self).counts().last_error_time is None,
            final(self).verbose_spec() == old(self).verbose_spec(),
    {
        self.stats = ErrorCounts::new();
    }
}

} // verus!
