//! Timestamp unit inference: turns an integer timestamp of unknown unit into
//! nanoseconds by classifying its order of magnitude.

use vstd::prelude::*;

verus! {

/// Nanosecond value that a raw timestamp scales to, by magnitude:
/// below 10^9 the value is read as seconds, below 10^12 as milliseconds,
/// below 10^15 as microseconds, anything larger as nanoseconds already.
/// A raw value of zero means "unknown" and is not covered here (callers
/// substitute the current wall-clock time for it).
pub open spec fn spec_scale_to_ns(t: u128) -> u128 {
    if t < 1_000_000_000 {
        (t * 1_000_000_000) as u128
    } else if t < 1_000_000_000_000 {
        (t * 1_000_000) as u128
    } else if t < 1_000_000_000_000_000 {
        (t * 1_000) as u128
    } else {
        t
    }
}

/// Scaling with the "unknown" case made explicit: a raw value of zero
/// becomes `now`, anything else scales by magnitude.
pub open spec fn spec_scale_to_ns_at(t: u128, now: u128) -> u128 {
    if t == 0 {
        now
    } else {
        spec_scale_to_ns(t)
    }
}

/// Current wall-clock time in nanoseconds since the Unix epoch.
///
/// Relies on `std::time::SystemTime::now` and
/// `SystemTime::duration_since(UNIX_EPOCH)`; a clock set before the epoch
/// yields zero rather than a panic.
#[verifier::external_body]
pub fn now_ns() -> u128 {
    match std::time::SystemTime::now().duration_since(std::time::UNIX_EPOCH) {
        Ok(d) => d.as_nanos(),
        Err(_) => 0,
    }
}

/// Converts a raw timestamp of unknown unit into nanoseconds, substituting
/// the supplied wall-clock reading for an unknown (zero) raw value.
pub fn scale_to_ns_at(ts: u128, now: u128) -> (r: u128)
    ensures
        r == spec_scale_to_ns_at(ts, now),
{
    if ts == 0 {
        now
    } else if ts < 1_000_000_000 {
        ts * 1_000_000_000
    } else if ts < 1_000_000_000_000 {
        ts * 1_000_000
    } else if ts < 1_000_000_000_000_000 {
        ts * 1_000
    } else {
        ts
    }
}

/// Converts a raw timestamp of unknown unit into nanoseconds; a zero raw
/// value is replaced with the current wall-clock time.
pub fn scale_to_ns(ts: u128) -> (r: u128)
    ensures
        ts != 0 ==> r == spec_scale_to_ns(ts),
{
    if ts == 0 {
        now_ns()
    } else {
        scale_to_ns_at(ts, 0)
    }
}

/// Every non-zero raw timestamp lands in the nanosecond band that its
/// magnitude class prescribes: a value read as seconds scales into
/// [10^9, 10^18), one read as milliseconds or microseconds into
/// [10^15, 10^18), and a value already at nanosecond scale passes through
/// unchanged.
pub proof fn lemma_scale_bands(t: u128)
    requires
        t != 0,
    ensures
        t < 1_000_000_000 ==> 1_000_000_000 <= spec_scale_to_ns(t) < 1_000_000_000_000_000_000,
        1_000_000_000 <= t < 1_000_000_000_000 ==> 1_000_000_000_000_000 <= spec_scale_to_ns(t)
            < 1_000_000_000_000_000_000,
        1_000_000_000_000 <= t < 1_000_000_000_000_000 ==> 1_000_000_000_000_000
            <= spec_scale_to_ns(t) < 1_000_000_000_000_000_000,
        t >= 1_000_000_000_000_000 ==> spec_scale_to_ns(t) == t,
{
}

} // verus!
