//! The monotonic clock and spans of time. Instants and spans are opaque values here.
//! Reading the clock (`instant_now`, `instant_elapsed`) gives a value of which nothing
//! is claimed. The other operations depend on their arguments alone; each result is
//! named by a spec function below, so that the same arguments are known to give the
//! same result.

use vstd::prelude::*;
use std::time::{Duration, Instant};

verus! {

#[verifier::external_type_specification]
#[verifier::external_body]
pub struct ExInstant(Instant);

/// The span from `earlier` to `later` (`Instant::duration_since`), zero when `earlier`
/// is the later one.
pub uninterp spec fn span_since(later: Instant, earlier: Instant) -> Duration;

/// Whether span `a` is strictly longer than span `b` (`Duration > Duration`).
pub uninterp spec fn span_longer(a: Duration, b: Duration) -> bool;

/// Span `d` taken `k` times, or the longest span where that overflows
/// (`Duration::saturating_mul`).
pub uninterp spec fn span_times(d: Duration, k: u32) -> Duration;

/// The whole seconds of a span (`Duration::as_secs`).
pub uninterp spec fn span_secs(d: Duration) -> u64;

/// Whether a span is zero (`Duration::is_zero`).
pub uninterp spec fn span_is_zero(d: Duration) -> bool;

/// The span of `ms` milliseconds (`Duration::from_millis`).
pub uninterp spec fn span_from_millis(ms: u64) -> Duration;

/// `Instant::now`: reads the monotonic clock. Nothing is claimed of the result.
#[verifier::external_body]
pub(crate) fn instant_now() -> Instant {
    Instant::now()
}

/// `Instant::elapsed`: the time since `t` (zero if `t` is in the future), read from the
/// clock. Nothing is claimed of the result, which depends on when it is called.
#[verifier::external_body]
pub(crate) fn instant_elapsed(t: &Instant) -> Duration {
    t.elapsed()
}

/// `Instant::duration_since`: the span from `earlier` to `later`, zero when `earlier`
/// is the later one (it saturates, it does not panic). Claimed: the result is
/// `span_since` of the two instants.
#[verifier::external_body]
pub(crate) fn instant_duration_since(later: &Instant, earlier: &Instant) -> (r: Duration)
    ensures
        r == span_since(*later, *earlier),
{
    later.duration_since(*earlier)
}

/// `Duration::as_secs`: the whole seconds of a span. Claimed: the result is
/// `span_secs` of the span.
#[verifier::external_body]
pub(crate) fn duration_as_secs(d: &Duration) -> (r: u64)
    ensures
        r == span_secs(*d),
{
    d.as_secs()
}

/// `Duration > Duration` (`PartialOrd::gt`): whether span `a` is strictly longer than
/// span `b`. Claimed: the answer is `span_longer` of the two spans.
#[verifier::external_body]
pub(crate) fn duration_exceeds(a: &Duration, b: &Duration) -> (r: bool)
    ensures
        r == span_longer(*a, *b),
{
    *a > *b
}

/// `Duration::saturating_mul`: `d` times `k`, or the longest span if that overflows.
/// Claimed: the result is `span_times` of the span and the factor.
#[verifier::external_body]
pub(crate) fn duration_saturating_mul(d: Duration, k: u32) -> (r: Duration)
    ensures
        r == span_times(d, k),
{
    d.saturating_mul(k)
}

/// `Duration::is_zero`: whether a span is zero. Claimed: the answer is `span_is_zero`
/// of the span.
#[verifier::external_body]
pub(crate) fn duration_is_zero(d: &Duration) -> (r: bool)
    ensures
        r == span_is_zero(*d),
{
    d.is_zero()
}

/// `Duration::from_millis`: the span of `ms` milliseconds. Claimed: the result is
/// `span_from_millis(ms)`, and it is zero exactly when `ms` is zero.
#[verifier::external_body]
pub(crate) fn duration_from_millis(ms: u64) -> (r: Duration)
    ensures
        r == span_from_millis(ms),
        span_is_zero(r) == (ms == 0),
{
    Duration::from_millis(ms)
}

} // verus!
