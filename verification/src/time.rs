//! Clock readings, held opaquely.

use vstd::prelude::*;

verus! {

/// A monotonic clock reading (`std::time::Instant`).
#[verifier::external_type_specification]
#[verifier::external_body]
pub struct ExInstant(std::time::Instant);

/// A wall-clock reading (`std::time::SystemTime`).
#[verifier::external_type_specification]
#[verifier::external_body]
pub struct ExSystemTime(std::time::SystemTime);

/// `Instant` is `Copy`: its `clone` gives back the same reading.
pub assume_specification[<std::time::Instant as Clone>::clone](t: &std::time::Instant) -> (r: std::time::Instant)
    ensures
        r == *t,
;

/// `SystemTime` is `Copy`: its `clone` gives back the same reading.
pub assume_specification[<std::time::SystemTime as Clone>::clone](t: &std::time::SystemTime) -> (r: std::time::SystemTime)
    ensures
        r == *t,
;

/// `Duration` is `Copy`: its `clone` gives back the same span.
pub assume_specification[<std::time::Duration as Clone>::clone](d: &std::time::Duration) -> (r: std::time::Duration)
    ensures
        r == *d,
;

/// Reads the monotonic clock (`Instant::now`); nothing is promised of the reading.
#[verifier::external_body]
pub(crate) fn instant_now() -> (t: std::time::Instant) {
    std::time::Instant::now()
}

/// Reads the wall clock (`SystemTime::now`); nothing is promised of the reading.
#[verifier::external_body]
pub(crate) fn system_now() -> (t: std::time::SystemTime) {
    std::time::SystemTime::now()
}

/// Time elapsed since `t` (`Instant::elapsed`); nothing is promised of it.
#[verifier::external_body]
pub(crate) fn instant_elapsed(t: &std::time::Instant) -> (d: std::time::Duration) {
    t.elapsed()
}

/// The span of `ms` milliseconds, as `Duration::from_millis` builds it.
pub uninterp spec fn duration_of_millis(ms: u64) -> std::time::Duration;

/// `Duration::from_millis`: the span of `ms` milliseconds, so its whole number
/// of milliseconds (`as_millis`) is `ms` again.
#[verifier::external_body]
pub(crate) fn duration_from_millis(ms: u64) -> (d: std::time::Duration)
    ensures
        d == duration_of_millis(ms),
        millis_of(d) == ms,
{
    std::time::Duration::from_millis(ms)
}

/// The span of `secs` seconds, as `Duration::from_secs` builds it.
pub uninterp spec fn duration_of_secs(secs: u64) -> std::time::Duration;

/// `Duration::from_secs`: the span of `secs` seconds, so `secs * 1000` whole
/// milliseconds.
#[verifier::external_body]
pub(crate) fn duration_from_secs(secs: u64) -> (d: std::time::Duration)
    ensures
        d == duration_of_secs(secs),
        millis_of(d) == secs * 1000,
{
    std::time::Duration::from_secs(secs)
}

/// The span of `nanos` nanoseconds, as `Duration::from_nanos` builds it.
pub uninterp spec fn duration_of_nanos(nanos: u64) -> std::time::Duration;

/// The length of a span in nanoseconds, as `Duration::as_nanos` gives it.
pub uninterp spec fn nanos_of(d: std::time::Duration) -> u128;

/// The length of a span in whole milliseconds, as `Duration::as_millis` gives it.
pub uninterp spec fn millis_of(d: std::time::Duration) -> u128;

/// The text `format!("{:?}", d)` gives for a span, such as `100ms`.
pub uninterp spec fn duration_debug_text(d: std::time::Duration) -> Seq<char>;

/// `Duration::from_nanos`: the span of `nanos` nanoseconds, so its whole
/// number of nanoseconds (`as_nanos`) is `nanos` again.
#[verifier::external_body]
pub(crate) fn duration_from_nanos(nanos: u64) -> (d: std::time::Duration)
    ensures
        d == duration_of_nanos(nanos),
        nanos_of(d) == nanos,
{
    std::time::Duration::from_nanos(nanos)
}

/// `Duration::as_nanos`: the whole number of nanoseconds in the span.
#[verifier::external_body]
pub(crate) fn duration_as_nanos(d: &std::time::Duration) -> (n: u128)
    ensures
        n == nanos_of(*d),
{
    d.as_nanos()
}

/// `Duration::as_millis`: the whole number of milliseconds in the span.
#[verifier::external_body]
pub(crate) fn duration_as_millis(d: &std::time::Duration) -> (n: u128)
    ensures
        n == millis_of(*d),
{
    d.as_millis()
}

/// The debug text of a span (`format!("{:?}", d)`).
#[verifier::external_body]
pub(crate) fn duration_debug(d: &std::time::Duration) -> (r: String)
    ensures
        r@ == duration_debug_text(*d),
{
    format!("{:?}", d)
}

/// The mean of two spans, in whole nanoseconds: each span is first cut to its
/// low 64 bits of nanoseconds, as a `u64` cast does.
pub open spec fn mean_nanos(a: std::time::Duration, b: std::time::Duration) -> u64 {
    (((nanos_of(a) as u64) as int + (nanos_of(b) as u64) as int) / 2) as u64
}

/// The mean of two spans, as `mean_nanos` gives it.
pub fn mean_duration(a: &std::time::Duration, b: &std::time::Duration) -> (r: std::time::Duration)
    ensures
        r == duration_of_nanos(mean_nanos(*a, *b)),
{
    let x: u64 = duration_as_nanos(a) as u64;
    let y: u64 = duration_as_nanos(b) as u64;
    let sum: u128 = x as u128 + y as u128;
    duration_from_nanos((sum / 2) as u64)
}

} // verus!
