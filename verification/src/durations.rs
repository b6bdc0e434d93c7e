use core::time::Duration;
use vstd::prelude::*;

verus! {

/// The whole length of a duration in nanoseconds, as `Duration::as_nanos` reports it.
pub uninterp spec fn duration_nanos(d: Duration) -> u128;

/// The whole length of a duration in milliseconds, as `Duration::as_millis` reports it.
pub uninterp spec fn duration_millis(d: Duration) -> u128;

/// `Duration::as_nanos`: the contract only names the result.
#[verifier::external_body]
pub(crate) fn nanos(d: Duration) -> (r: u128)
    ensures
        r == duration_nanos(d),
{
    d.as_nanos()
}

/// `Duration::as_millis`: the whole milliseconds of the duration, which are its whole
/// nanoseconds divided by a million.
#[verifier::external_body]
pub(crate) fn millis(d: Duration) -> (r: u128)
    ensures
        r == duration_millis(d),
        r == duration_nanos(d) / 1_000_000,
{
    d.as_millis()
}

/// `Duration::from_secs`: a duration of `s` whole seconds, which is `s * 10^9` nanoseconds and
/// `s * 1000` whole milliseconds.
#[verifier::external_body]
pub(crate) fn from_seconds(s: u64) -> (r: Duration)
    ensures
        duration_nanos(r) == s as u128 * 1_000_000_000,
        duration_millis(r) == s as u128 * 1000,
{
    Duration::from_secs(s)
}

/// `Duration::saturating_sub`: `a - b`, or zero when `b` is the longer.
#[verifier::external_body]
pub(crate) fn saturating_sub(a: Duration, b: Duration) -> (r: Duration)
    ensures
        duration_nanos(r) == if duration_nanos(a) >= duration_nanos(b) {
            (duration_nanos(a) - duration_nanos(b)) as u128
        } else {
            0u128
        },
{
    a.saturating_sub(b)
}

/// `Duration`'s `Clone`: `Duration` is `Copy`, and its clone is the same duration.
pub assume_specification[<Duration as Clone>::clone](d: &Duration) -> (r: Duration)
    ensures
        r == *d,
;

/// A millisecond count clamped to `u64`.
pub open spec fn clamp_millis(m: u128) -> u64 {
    if m > u64::MAX as u128 { u64::MAX } else { m as u64 }
}

/// Whole milliseconds of a duration, saturating at `u64::MAX`.
pub fn millis_u64(d: Duration) -> (r: u64)
    ensures
        r == clamp_millis(duration_millis(d)),
{
    let m = millis(d);
    if m > u64::MAX as u128 {
        u64::MAX
    } else {
        m as u64
    }
}

} // verus!
