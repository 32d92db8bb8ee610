//! The clocks of the machine.
use std::time::{Duration, Instant};
use vstd::prelude::*;

verus! {

/// A moment on the monotonic clock, carried as it is.
#[verifier::external_type_specification]
#[verifier::external_body]
pub struct ExInstant(std::time::Instant);

/// `chrono::Utc::now`: the present moment, handed on as milliseconds since the Unix epoch.
/// Nothing is claimed of it. A system clock set before 1970 makes it panic.
#[verifier::external_body]
pub(crate) fn now_timestamp() -> (millis: i64) {
    chrono::Utc::now().timestamp_millis()
}

/// `std::time::Instant::now`: the present moment on the monotonic clock. Nothing is claimed of
/// it.
#[verifier::external_body]
pub(crate) fn monotonic_now() -> (now: Instant) {
    Instant::now()
}

/// Where a moment stands on the monotonic clock, in nanoseconds.
pub uninterp spec fn clock_nanos(moment: Instant) -> int;

/// How long a span is, in nanoseconds.
pub uninterp spec fn span_nanos(span: Duration) -> nat;

/// Nanoseconds from one moment to another, none if the second is not later.
pub open spec fn nanos_between(earlier: Instant, later: Instant) -> nat {
    if clock_nanos(earlier) < clock_nanos(later) {
        (clock_nanos(later) - clock_nanos(earlier)) as nat
    } else {
        0
    }
}

/// Whole seconds from one moment to another, none if the second is not later.
pub open spec fn seconds_between(earlier: Instant, later: Instant) -> nat {
    nanos_between(earlier, later) / 1_000_000_000
}

/// `std::time::Instant::saturating_duration_since`: the time elapsed from one moment to another,
/// or a span of no length if the second is not later.
#[verifier::external_body]
fn time_between(earlier: &Instant, later: &Instant) -> (span: Duration)
    ensures
        span_nanos(span) == if clock_nanos(*earlier) < clock_nanos(*later) {
            clock_nanos(*later) - clock_nanos(*earlier)
        } else {
            0
        },
{
    later.saturating_duration_since(*earlier)
}

/// `std::time::Duration::as_secs`: the whole seconds that a span contains.
#[verifier::external_body]
fn whole_seconds(span: &Duration) -> (seconds: u64)
    ensures
        seconds == span_nanos(*span) / 1_000_000_000,
{
    span.as_secs()
}

/// Whole seconds from one moment to another.
pub(crate) fn seconds_from(earlier: &Instant, later: &Instant) -> (seconds: u64)
    ensures
        seconds == seconds_between(*earlier, *later),
{
    let span = time_between(earlier, later);
    whole_seconds(&span)
}

/// Whole seconds since a moment, by the clock now.
pub(crate) fn seconds_since(moment: &Instant) -> (seconds: u64)
    ensures
        exists|now: Instant| seconds == #[trigger] seconds_between(*moment, now),
{
    let now = monotonic_now();
    seconds_from(moment, &now)
}

}
