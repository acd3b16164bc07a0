//! Retry policies and automatic recovery from runtime errors.

use vstd::prelude::*;
use crate::error::types::BeejsError;
use crate::num_text::{decimal, push_decimal};
use crate::text::owned;

verus! {

/// How often, and after which delays, a failed operation is retried.
pub struct RetryPolicy {
    pub max_retries: u32,
    pub base_delay: std::time::Duration,
    pub max_delay: std::time::Duration,
    pub exponential_backoff: bool,
    pub jitter: bool,
}

/// The default policy: three retries from 100 ms up to 10 s, with
/// exponential backoff and jitter.
pub open spec fn default_retry_policy() -> RetryPolicy {
    RetryPolicy {
        max_retries: 3,
        base_delay: crate::time::duration_of_millis(100),
        max_delay: crate::time::duration_of_secs(10),
        exponential_backoff: true,
        jitter: true,
    }
}

impl Default for RetryPolicy {
    /// Three retries from 100 ms up to 10 s, with exponential backoff and jitter.
    fn default() -> (r: RetryPolicy)
        ensures
            r == default_retry_policy(),
    {
        RetryPolicy {
            max_retries: 3,
            base_delay: crate::time::duration_from_millis(100),
            max_delay: crate::time::duration_from_secs(10),
            exponential_backoff: true,
            jitter: true,
        }
    }
}

impl RetryPolicy {
    /// The default policy.
    pub fn new() -> (r: RetryPolicy)
        ensures
            r == default_retry_policy(),
    {
        RetryPolicy::default()
    }

    pub fn with_max_retries(self, max_retries: u32) -> (r: RetryPolicy)
        ensures
            r == (RetryPolicy { max_retries, ..self }),
    {
        RetryPolicy { max_retries, ..self }
    }

    pub fn with_base_delay(self, delay: std::time::Duration) -> (r: RetryPolicy)
        ensures
            r == (RetryPolicy { base_delay: delay, ..self }),
    {
        RetryPolicy { base_delay: delay, ..self }
    }

    pub fn with_max_delay(self, delay: std::time::Duration) -> (r: RetryPolicy)
        ensures
            r == (RetryPolicy { max_delay: delay, ..self }),
    {
        RetryPolicy { max_delay: delay, ..self }
    }

    pub fn with_exponential_backoff(self, enabled: bool) -> (r: RetryPolicy)
        ensures
            r == (RetryPolicy { exponential_backoff: enabled, ..self }),
    {
        RetryPolicy { exponential_backoff: enabled, ..self }
    }

    pub fn with_jitter(self, enabled: bool) -> (r: RetryPolicy)
        ensures
            r == (RetryPolicy { jitter: enabled, ..self }),
    {
        RetryPolicy { jitter: enabled, ..self }
    }
}

/// Settings of automatic recovery. A custom fallback strategy, being a closure of
/// the caller's, is held by the caller beside this configuration.
pub struct AutoRecoveryConfig {
    pub retry_policy: RetryPolicy,
    pub enable_fallback: bool,
    pub enable_auto_repair: bool,
    pub recovery_timeout: std::time::Duration,
}

/// The default settings: the default policy, fallback and repair on, and a
/// recovery timeout of 30 s.
pub open spec fn default_recovery_config() -> AutoRecoveryConfig {
    AutoRecoveryConfig {
        retry_policy: default_retry_policy(),
        enable_fallback: true,
        enable_auto_repair: true,
        recovery_timeout: crate::time::duration_of_secs(30),
    }
}

impl Default for AutoRecoveryConfig {
    fn default() -> (r: AutoRecoveryConfig)
        ensures
            r == default_recovery_config(),
    {
        AutoRecoveryConfig {
            retry_policy: RetryPolicy::default(),
            enable_fallback: true,
            enable_auto_repair: true,
            recovery_timeout: crate::time::duration_from_secs(30),
        }
    }
}

/// Counters of recovery activity.
pub struct RecoveryStats {
    pub total_recovery_attempts: u64,
    pub successful_recoveries: u64,
    pub failed_recoveries: u64,
    pub fallbacks_used: u64,
    pub avg_recovery_time: std::time::Duration,
    pub last_recovery_time: Option<std::time::Instant>,
}

/// No recovery activity yet.
pub open spec fn no_recovery_stats() -> RecoveryStats {
    RecoveryStats {
        total_recovery_attempts: 0,
        successful_recoveries: 0,
        failed_recoveries: 0,
        fallbacks_used: 0,
        avg_recovery_time: crate::time::duration_of_nanos(0),
        last_recovery_time: None,
    }
}

impl Default for RecoveryStats {
    fn default() -> (r: RecoveryStats)
        ensures
            r == no_recovery_stats(),
    {
        RecoveryStats {
            total_recovery_attempts: 0,
            successful_recoveries: 0,
            failed_recoveries: 0,
            fallbacks_used: 0,
            avg_recovery_time: crate::time::duration_from_nanos(0),
            last_recovery_time: None,
        }
    }
}

/// The message of a successful recovery attempt, or the error of a failed one, by
/// error kind and attempt number (the first attempt is 1).
pub open spec fn attempt_outcome(error: BeejsError, attempt: u32) -> Result<Seq<char>, BeejsError> {
    match error {
        BeejsError::V8Error(_) => if attempt <= 2 {
            Ok("V8 reinitialized (attempt "@ + decimal(attempt as nat) + ")"@)
        } else {
            Ok("Switched to simplified mode (attempt "@ + decimal(attempt as nat) + ")"@)
        },
        BeejsError::JsExecutionError(_) => if attempt <= 1 {
            Ok("Syntax validated"@)
        } else {
            Ok("Bypassed validation"@)
        },
        BeejsError::MultiLanguageError(_) => Ok("Language runtime reinitialized"@),
        BeejsError::PlatformError(_) => Ok("Platform compatibility verified"@),
        _ => if attempt <= 1 {
            Ok("Runtime state reset"@)
        } else {
            Err(BeejsError::RuntimeError(arbitrary()))
        },
    }
}

/// The text of the error of a failed generic recovery attempt.
pub open spec fn failed_after_text(attempt: u32) -> Seq<char> {
    "Failed to recover after "@ + decimal(attempt as nat) + " attempts"@
}

/// How many of the retry history's entries are kept.
pub const MAX_RETRY_HISTORY: usize = 100;

/// Automatic recovery: retries by error kind, statistics and a bounded history.
pub struct AutoRecovery {
    config: AutoRecoveryConfig,
    stats: RecoveryStats,
    retry_history: Vec<(BeejsError, std::time::Instant, std::time::Duration)>,
}

impl AutoRecovery {
    /// The settings in force.
    pub closed spec fn config_spec(&self) -> &AutoRecoveryConfig {
        &self.config
    }

    /// The statistics so far.
    pub closed spec fn stats_spec(&self) -> &RecoveryStats {
        &self.stats
    }

    /// The recorded recoveries, oldest first.
    pub closed spec fn history_spec(&self) -> Seq<(BeejsError, std::time::Instant, std::time::Duration)> {
        self.retry_history@
    }

    /// Recovery with the default settings.
    pub fn new() -> (r: AutoRecovery)
        ensures
            *r.config_spec() == default_recovery_config(),
            *r.stats_spec() == no_recovery_stats(),
            r.history_spec().len() == 0,
    {
        AutoRecovery {
            config: AutoRecoveryConfig::default(),
            stats: RecoveryStats::default(),
            retry_history: Vec::new(),
        }
    }

    /// Recovery with the given settings.
    pub fn with_config(config: AutoRecoveryConfig) -> (r: AutoRecovery)
        ensures
            *r.config_spec() == config,
            *r.stats_spec() == no_recovery_stats(),
            r.history_spec().len() == 0,
    {
        AutoRecovery { config, stats: RecoveryStats::default(), retry_history: Vec::new() }
    }

    /// The recovery with at most `max_retries` retries.
    pub fn with_max_retries(self, max_retries: u32) -> (r: AutoRecovery)
        ensures
            *r.config_spec() == (AutoRecoveryConfig {
                retry_policy: RetryPolicy { max_retries, ..self.config_spec().retry_policy },
                ..*self.config_spec()
            }),
            r.stats_spec() == self.stats_spec(),
            r.history_spec() == self.history_spec(),
    {
        let AutoRecovery { config, stats, retry_history } = self;
        let retry_policy = config.retry_policy.with_max_retries(max_retries);
        AutoRecovery { config: AutoRecoveryConfig { retry_policy, ..config }, stats, retry_history }
    }

    /// The recovery with `delay` as the base delay of retries.
    pub fn with_base_delay(self, delay: std::time::Duration) -> (r: AutoRecovery)
        ensures
            *r.config_spec() == (AutoRecoveryConfig {
                retry_policy: RetryPolicy { base_delay: delay, ..self.config_spec().retry_policy },
                ..*self.config_spec()
            }),
            r.stats_spec() == self.stats_spec(),
            r.history_spec() == self.history_spec(),
    {
        let AutoRecovery { config, stats, retry_history } = self;
        let retry_policy = config.retry_policy.with_base_delay(delay);
        AutoRecovery { config: AutoRecoveryConfig { retry_policy, ..config }, stats, retry_history }
    }

    /// The recovery with fallback switched on or off.
    pub fn with_fallback_enabled(self, enabled: bool) -> (r: AutoRecovery)
        ensures
            *r.config_spec() == (AutoRecoveryConfig { enable_fallback: enabled, ..*self.config_spec() }),
            r.stats_spec() == self.stats_spec(),
            r.history_spec() == self.history_spec(),
    {
        let AutoRecovery { config, stats, retry_history } = self;
        AutoRecovery { config: AutoRecoveryConfig { enable_fallback: enabled, ..config }, stats, retry_history }
    }

    /// The recovery with automatic repair switched on or off.
    pub fn with_auto_repair_enabled(self, enabled: bool) -> (r: AutoRecovery)
        ensures
            *r.config_spec() == (AutoRecoveryConfig { enable_auto_repair: enabled, ..*self.config_spec() }),
            r.stats_spec() == self.stats_spec(),
            r.history_spec() == self.history_spec(),
    {
        let AutoRecovery { config, stats, retry_history } = self;
        AutoRecovery { config: AutoRecoveryConfig { enable_auto_repair: enabled, ..config }, stats, retry_history }
    }

    /// The settings in force.
    pub fn config(&self) -> (r: &AutoRecoveryConfig)
        ensures
            r == self.config_spec(),
    {
        &self.config
    }

    /// One recovery attempt for `error`, numbered from 1.
    pub fn attempt_recovery(error: &BeejsError, attempt: u32) -> (r: Result<String, BeejsError>)
        ensures
            match (r, attempt_outcome(*error, attempt)) {
                (Ok(m), Ok(s)) => m@ == s,
                (Err(BeejsError::RuntimeError(m)), Err(_)) => m@ == failed_after_text(attempt),
                _ => false,
            },
    {
        proof {
            reveal_strlit(")");
            reveal_strlit(" attempts");
        }
        match error {
            BeejsError::V8Error(_) => {
                let mut s = if attempt <= 2 {
                    owned("V8 reinitialized (attempt ")
                } else {
                    owned("Switched to simplified mode (attempt ")
                };
                push_decimal(&mut s, attempt as u64);
                s.append(")");
                Ok(s)
            },
            BeejsError::JsExecutionError(_) => if attempt <= 1 {
                Ok(owned("Syntax validated"))
            } else {
                Ok(owned("Bypassed validation"))
            },
            BeejsError::MultiLanguageError(_) => Ok(owned("Language runtime reinitialized")),
            BeejsError::PlatformError(_) => Ok(owned("Platform compatibility verified")),
            _ => if attempt <= 1 {
                Ok(owned("Runtime state reset"))
            } else {
                let mut s = owned("Failed to recover after ");
                push_decimal(&mut s, attempt as u64);
                s.append(" attempts");
                Err(BeejsError::RuntimeError(s))
            },
        }
    }

    /// Runs the attempts `1..=max_retries + 1` in order until one succeeds. Returns
    /// the outcome and the number of attempts made; before attempt `k > 1` the
    /// caller waits the policy's delay for `k - 1`.
    pub fn run_attempts(&self, error: &BeejsError) -> (r: (Result<String, BeejsError>, u32))
        ensures
            1 <= r.1,
            r.1 as int <= self.config_spec().retry_policy.max_retries as int + 1,
            forall|k: u32| 1 <= k < r.1 ==> attempt_outcome(*error, k) is Err,
            match (r.0, attempt_outcome(*error, r.1)) {
                (Ok(m), Ok(s)) => m@ == s,
                (Err(BeejsError::RuntimeError(m)), Err(_)) => m@ == failed_after_text(r.1)
                    && r.1 as int == self.config_spec().retry_policy.max_retries as int + 1,
                _ => false,
            },
    {
        let max = self.config.retry_policy.max_retries;
        let mut attempt: u32 = 1;
        loop
            invariant
                1 <= attempt,
                attempt as int <= max as int + 1,
                max == self.config_spec().retry_policy.max_retries,
                forall|k: u32| 1 <= k < attempt ==> attempt_outcome(*error, k) is Err,
            decreases max as int + 1 - attempt,
        {
            let outcome = Self::attempt_recovery(error, attempt);
            match outcome {
                Ok(m) => {
                    return (Ok(m), attempt);
                },
                Err(e) => {
                    if attempt > max {
                        return (Err(e), attempt);
                    }
                    proof {
                        // The first attempt always succeeds, so a failure comes no earlier
                        // than the second, and every earlier one failed too.
                        assert(attempt_outcome(*error, 1) is Ok);
                        if attempt > 1 {
                            assert(attempt_outcome(*error, 1u32) is Err);
                        }
                    }
                    attempt = attempt + 1;
                },
            }
        }
    }

    /// Security errors are never recovered automatically; all others are.
    pub fn should_attempt_recovery(&self, error: &BeejsError) -> (r: bool)
        ensures
            r == !(error is SecurityError),
    {
        match error {
            BeejsError::SecurityError(_) => false,
            BeejsError::ConfigurationError(_) => true,
            _ => true,
        }
    }

    /// Counts the start of a recovery.
    pub fn record_attempt(&mut self)
        requires
            old(self).stats_spec().total_recovery_attempts < u64::MAX,
        ensures
            final(self).stats_spec().total_recovery_attempts == old(self).stats_spec().total_recovery_attempts + 1,
            final(self).stats_spec().successful_recoveries == old(self).stats_spec().successful_recoveries,
            final(self).stats_spec().failed_recoveries == old(self).stats_spec().failed_recoveries,
            final(self).stats_spec().fallbacks_used == old(self).stats_spec().fallbacks_used,
            final(self).history_spec() == old(self).history_spec(),
            final(self).config_spec() == old(self).config_spec(),
    {
        self.stats.total_recovery_attempts = self.stats.total_recovery_attempts + 1;
    }

    /// Records a successful recovery: the counter, the time, the new average, and
    /// the history entry (the oldest entry is dropped beyond the limit).
    pub fn record_success(
        &mut self,
        error: BeejsError,
        now: std::time::Instant,
        duration: std::time::Duration,
        new_average: std::time::Duration,
    )
        requires
            old(self).stats_spec().successful_recoveries < u64::MAX,
        ensures
            final(self).stats_spec().successful_recoveries == old(self).stats_spec().successful_recoveries + 1,
            final(self).stats_spec().total_recovery_attempts == old(self).stats_spec().total_recovery_attempts,
            final(self).stats_spec().failed_recoveries == old(self).stats_spec().failed_recoveries,
            final(self).stats_spec().fallbacks_used == old(self).stats_spec().fallbacks_used,
            final(self).stats_spec().last_recovery_time == Some(now),
            final(self).stats_spec().avg_recovery_time == new_average,
            final(self).history_spec() == bounded_push(old(self).history_spec(), (error, now, duration), MAX_RETRY_HISTORY as nat),
            final(self).config_spec() == old(self).config_spec(),
    {
        self.stats.successful_recoveries = self.stats.successful_recoveries + 1;
        self.stats.last_recovery_time = Some(now);
        self.stats.avg_recovery_time = new_average;
        self.push_history((error, now, duration));
    }

    /// Records a recovery by the fallback strategy.
    pub fn record_fallback(&mut self, error: BeejsError, now: std::time::Instant, elapsed: std::time::Duration)
        requires
            old(self).stats_spec().fallbacks_used < u64::MAX,
        ensures
            final(self).stats_spec().fallbacks_used == old(self).stats_spec().fallbacks_used + 1,
            final(self).stats_spec().total_recovery_attempts == old(self).stats_spec().total_recovery_attempts,
            final(self).stats_spec().successful_recoveries == old(self).stats_spec().successful_recoveries,
            final(self).stats_spec().failed_recoveries == old(self).stats_spec().failed_recoveries,
            final(self).history_spec() == old(self).history_spec().push((error, now, elapsed)),
            final(self).config_spec() == old(self).config_spec(),
    {
        self.stats.fallbacks_used = self.stats.fallbacks_used + 1;
        self.retry_history.push((error, now, elapsed));
    }

    /// Records a recovery that failed.
    pub fn record_failure(&mut self)
        requires
            old(self).stats_spec().failed_recoveries < u64::MAX,
        ensures
            final(self).stats_spec().failed_recoveries == old(self).stats_spec().failed_recoveries + 1,
            final(self).stats_spec().total_recovery_attempts == old(self).stats_spec().total_recovery_attempts,
            final(self).stats_spec().successful_recoveries == old(self).stats_spec().successful_recoveries,
            final(self).stats_spec().fallbacks_used == old(self).stats_spec().fallbacks_used,
            final(self).history_spec() == old(self).history_spec(),
            final(self).config_spec() == old(self).config_spec(),
    {
        self.stats.failed_recoveries = self.stats.failed_recoveries + 1;
    }

    fn push_history(&mut self, entry: (BeejsError, std::time::Instant, std::time::Duration))
        ensures
            final(self).history_spec() == bounded_push(old(self).history_spec(), entry, MAX_RETRY_HISTORY as nat),
            final(self).stats_spec() == old(self).stats_spec(),
            final(self).config_spec() == old(self).config_spec(),
    {
        self.retry_history.push(entry);
        if self.retry_history.len() > MAX_RETRY_HISTORY {
            self.retry_history.remove(0);
        }
    }

    /// Concludes a recovery whose attempts gave `outcome` (the last attempt's
    /// result), `duration` after it started: a success is recorded with its
    /// duration; a failure falls back to `fallback_message` (the fallback
    /// strategy's answer, where one was asked) when fallback is enabled, and is
    /// otherwise counted as failed and answered with the attempt's error.
    pub fn conclude_recovery(
        &mut self,
        error: &BeejsError,
        outcome: Result<String, BeejsError>,
        now: std::time::Instant,
        duration: std::time::Duration,
        fallback_message: Option<String>,
    ) -> (r: Result<String, BeejsError>)
        requires
            old(self).stats_spec().successful_recoveries < u64::MAX,
            old(self).stats_spec().fallbacks_used < u64::MAX,
            old(self).stats_spec().failed_recoveries < u64::MAX,
        ensures
            final(self).config_spec() == old(self).config_spec(),
            final(self).stats_spec().total_recovery_attempts == old(self).stats_spec().total_recovery_attempts,
            match outcome {
                Ok(m) => r == Ok::<String, BeejsError>(m)
                    && final(self).stats_spec().successful_recoveries == old(self).stats_spec().successful_recoveries + 1
                    && final(self).stats_spec().last_recovery_time == Some(now)
                    && final(self).stats_spec().avg_recovery_time == crate::time::duration_of_nanos(
                        crate::time::mean_nanos(old(self).stats_spec().avg_recovery_time, duration),
                    )
                    && final(self).history_spec() == bounded_push(old(self).history_spec(), (*error, now, duration), MAX_RETRY_HISTORY as nat)
                    && final(self).stats_spec().failed_recoveries == old(self).stats_spec().failed_recoveries
                    && final(self).stats_spec().fallbacks_used == old(self).stats_spec().fallbacks_used,
                Err(e) => if old(self).config_spec().enable_fallback && fallback_message is Some {
                    &&& r matches Ok(m) && m@ == "Fallback: "@ + fallback_message->0@
                    &&& final(self).stats_spec().fallbacks_used == old(self).stats_spec().fallbacks_used + 1
                    &&& final(self).history_spec() == old(self).history_spec().push((*error, now, duration))
                    &&& final(self).stats_spec().failed_recoveries == old(self).stats_spec().failed_recoveries
                    &&& final(self).stats_spec().successful_recoveries == old(self).stats_spec().successful_recoveries
                } else {
                    &&& r == Err::<String, BeejsError>(e)
                    &&& final(self).stats_spec().failed_recoveries == old(self).stats_spec().failed_recoveries + 1
                    &&& final(self).history_spec() == old(self).history_spec()
                    &&& final(self).stats_spec().fallbacks_used == old(self).stats_spec().fallbacks_used
                    &&& final(self).stats_spec().successful_recoveries == old(self).stats_spec().successful_recoveries
                },
            },
    {
        match outcome {
            Ok(m) => {
                let avg = crate::time::mean_duration(&self.stats.avg_recovery_time, &duration);
                self.record_success(error.duplicate(), now, duration, avg);
                Ok(m)
            },
            Err(e) => {
                if self.config.enable_fallback {
                    match fallback_message {
                        Some(msg) => {
                            self.record_fallback(error.duplicate(), now, duration);
                            return Ok(owned("Fallback: ").concat(msg.as_str()));
                        },
                        None => {},
                    }
                }
                self.record_failure();
                Err(e)
            },
        }
    }

    /// The statistics so far.
    pub fn get_stats(&self) -> (r: &RecoveryStats)
        ensures
            r == self.stats_spec(),
    {
        &self.stats
    }

    /// The recorded recoveries, oldest first.
    pub fn get_retry_history(&self) -> (r: &Vec<(BeejsError, std::time::Instant, std::time::Duration)>)
        ensures
            r@ == self.history_spec(),
    {
        &self.retry_history
    }

    /// Clears the statistics and the history.
    pub fn reset_stats(&mut self)
        ensures
            *final(self).stats_spec() == no_recovery_stats(),
            final(self).history_spec().len() == 0,
            final(self).config_spec() == old(self).config_spec(),
    {
        self.stats = RecoveryStats::default();
        self.retry_history = Vec::new();
    }
}

/// `s` with `x` appended, keeping only the newest `cap` elements.
pub open spec fn bounded_push<T>(s: Seq<T>, x: T, cap: nat) -> Seq<T> {
    if s.len() + 1 > cap {
        s.push(x).skip(1)
    } else {
        s.push(x)
    }
}

/// Every kind of error is recovered at the first attempt, so a run of attempts
/// stops there and never reaches the fallback.
pub proof fn law_first_attempt_recovers(error: BeejsError)
    ensures
        attempt_outcome(error, 1) is Ok,
{
}

/// A history fed by bounded pushes never grows past its limit, and keeps the
/// newest entry last.
pub proof fn law_bounded_history<T>(s: Seq<T>, x: T, cap: nat)
    requires
        cap >= 1,
        s.len() <= cap,
    ensures
        bounded_push(s, x, cap).len() <= cap,
        bounded_push(s, x, cap).last() == x,
        s.len() < cap ==> bounded_push(s, x, cap) == s.push(x),
{
}

} // verus!
