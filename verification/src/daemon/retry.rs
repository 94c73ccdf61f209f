//! Exponential backoff retry policy, used by the daemons to recover from bus and
//! network errors. Delays are whole seconds.

use vstd::prelude::*;
use vstd::arithmetic::power2::{pow2, lemma_pow2_strictly_increases, lemma_pow2_adds, lemma_pow2_pos, lemma2_to64};
use vstd::bits::{lemma_u64_pow2_no_overflow, lemma_u64_shl_is_mul};
use std::time::Instant;
use crate::time::{instant_now, instant_duration_since, duration_as_secs, span_secs, span_since};

verus! {

/// Backoff state: the base and cap of the delay in seconds and the number of
/// consecutive failures so far.
pub struct Backoff {
    /// Base delay, seconds.
    pub base: u64,
    /// Longest delay, seconds.
    pub max: u64,
    /// Number of consecutive failures.
    pub current: u32,
}

/// The uncapped delay after `current` failures: `base * 2^(current - 1)` seconds.
pub open spec fn raw_delay(base: u64, current: u32) -> int {
    base * pow2((current - 1) as nat)
}

/// Whether the delay can be computed without overflow (the computation panics
/// otherwise): no failure yet, or a shift below 64 whose product fits in 64 bits.
pub open spec fn delay_defined(base: u64, current: u32) -> bool {
    current == 0 || (current <= 64 && raw_delay(base, current) <= u64::MAX)
}

/// The delay after `current` failures, in seconds: none before the first failure,
/// then `base * 2^(current - 1)` (at least one second), capped at `max`.
pub open spec fn spec_delay(base: u64, max: u64, current: u32) -> int {
    if current == 0 {
        0
    } else {
        let d = if raw_delay(base, current) == 0 {
            1
        } else {
            raw_delay(base, current)
        };
        if d <= max {
            d
        } else {
            max as int
        }
    }
}

impl Backoff {
    pub fn new(base_secs: u64, max_secs: u64) -> (b: Self)
        ensures
            b.base == base_secs,
            b.max == max_secs,
            b.current == 0,
    {
        Backoff { base: base_secs, max: max_secs, current: 0 }
    }

    /// Whether [`Backoff::delay`] can be computed for this state.
    pub fn delay_is_defined(&self) -> (r: bool)
        ensures
            r == delay_defined(self.base, self.current),
    {
        if self.current == 0 {
            return true;
        }
        if self.current > 64 {
            return false;
        }
        let shift: u64 = (self.current - 1) as u64;
        proof {
            lemma_u64_pow2_no_overflow(shift as nat);
            lemma_u64_shl_is_mul(1, shift);
        }
        let p: u64 = 1u64 << shift;
        assert(p == pow2(shift as nat));
        let q: u64 = u64::MAX / p;
        assert((self.base <= q) == (self.base * p <= u64::MAX)) by (nonlinear_arith)
            requires
                p > 0,
                q == u64::MAX / p,
        ;
        self.base <= q
    }

    /// Current backoff delay, in seconds.
    pub fn delay(&self) -> (d: u64)
        requires
            delay_defined(self.base, self.current),
        ensures
            d == spec_delay(self.base, self.max, self.current),
    {
        if self.current == 0 {
            return 0;
        }
        let shift: u64 = (self.current - 1) as u64;
        proof {
            lemma_u64_pow2_no_overflow(shift as nat);
            lemma_u64_shl_is_mul(1, shift);
        }
        let p: u64 = 1u64 << shift;
        assert(p == pow2(shift as nat));
        let d: u64 = self.base * p;
        let d: u64 = if d == 0 {
            1
        } else {
            d
        };
        if d <= self.max {
            d
        } else {
            self.max
        }
    }

    /// After a failure: the wait owed before the next attempt, which is the current
    /// delay in seconds, and the failure count goes up by one. The caller sleeps for
    /// the returned span.
    pub fn wait_and_advance(&mut self) -> (wait_secs: u64)
        requires
            delay_defined(old(self).base, old(self).current),
            old(self).current < u32::MAX,
        ensures
            wait_secs == spec_delay(old(self).base, old(self).max, old(self).current),
            final(self).current == old(self).current + 1,
            final(self).base == old(self).base,
            final(self).max == old(self).max,
    {
        let d = self.delay();
        self.current = self.current + 1;
        d
    }

    /// Reset after successful recovery.
    pub fn reset(&mut self)
        ensures
            final(self).current == 0,
            final(self).base == old(self).base,
            final(self).max == old(self).max,
    {
        self.current = 0;
    }

    /// Whether a retry is due when `elapsed_secs` whole seconds have passed since the
    /// last attempt: always before the first failure, otherwise once the delay has
    /// passed.
    pub fn should_retry_after(&self, elapsed_secs: u64) -> (r: bool)
        requires
            delay_defined(self.base, self.current),
        ensures
            r == (spec_delay(self.base, self.max, self.current) == 0 || elapsed_secs >= spec_delay(
                self.base,
                self.max,
                self.current,
            )),
    {
        let d = self.delay();
        if d == 0 {
            return true;
        }
        elapsed_secs >= d
    }

    /// Whether a retry should be attempted now, given the time of the last attempt: the
    /// answer `should_retry_after` gives for the whole seconds from `last_attempt` to a
    /// reading of the clock made during the call. That reading is not stated, so the
    /// contract says there is an instant `now` for which this holds.
    pub fn should_retry(&self, last_attempt: Instant) -> (r: bool)
        requires
            delay_defined(self.base, self.current),
        ensures
            spec_delay(self.base, self.max, self.current) == 0 ==> r,
            exists|now: Instant|
                r == retry_due(
                    self.base,
                    self.max,
                    self.current,
                    span_secs(#[trigger] span_since(now, last_attempt)),
                ),
    {
        let now = instant_now();
        let elapsed = instant_duration_since(&now, &last_attempt);
        let secs = duration_as_secs(&elapsed);
        let r = self.should_retry_after(secs);
        assert(r == retry_due(self.base, self.max, self.current, span_secs(span_since(now, last_attempt))));
        r
    }
}

/// Whether a retry is due `elapsed_secs` whole seconds after the last attempt: always
/// before the first failure, otherwise once the delay has passed.
pub open spec fn retry_due(base: u64, max: u64, current: u32, elapsed_secs: u64) -> bool {
    spec_delay(base, max, current) == 0 || elapsed_secs >= spec_delay(base, max, current)
}

/// A retry is always due once the longest delay has passed, however many failures
/// there were; and once due, it stays due as more time passes.
pub proof fn lemma_retry_due_after_cap(base: u64, max: u64, current: u32, secs: u64, later: u64)
    ensures
        secs >= max ==> retry_due(base, max, current, secs),
        retry_due(base, max, current, secs) && later >= secs ==> retry_due(base, max, current, later),
{
    lemma_delay_capped(base, max, current);
}

/// No delay is ever longer than the cap, and there is a delay exactly from the first
/// failure on (when the cap allows one).
pub proof fn lemma_delay_capped(base: u64, max: u64, current: u32)
    ensures
        spec_delay(base, max, current) <= max,
        spec_delay(base, max, current) >= 0,
        current == 0 ==> spec_delay(base, max, current) == 0,
        current > 0 && max > 0 ==> spec_delay(base, max, current) > 0,
{
    if current > 0 {
        lemma_pow2_pos((current - 1) as nat);
        assert(base * pow2((current - 1) as nat) >= 0) by (nonlinear_arith)
            requires
                pow2((current - 1) as nat) > 0,
        ;
    }
}

/// Each further failure doubles the delay until it reaches the cap.
pub proof fn lemma_delay_doubles(base: u64, max: u64, current: u32)
    requires
        current >= 1,
        current < u32::MAX,
        base > 0,
        2 * raw_delay(base, current) <= max,
    ensures
        spec_delay(base, max, (current + 1) as u32) == 2 * spec_delay(base, max, current),
{
    let k = (current - 1) as nat;
    lemma_pow2_adds(k, 1);
    lemma2_to64();
    lemma_pow2_pos(k);
    assert(((current + 1) as u32 - 1) as nat == k + 1);
    assert(base * pow2(k + 1) == 2 * (base * pow2(k))) by (nonlinear_arith)
        requires
            pow2(k + 1) == pow2(k) * 2,
    ;
    assert(base * pow2(k) > 0) by (nonlinear_arith)
        requires
            base > 0,
            pow2(k) > 0,
    ;
}

/// Delays never shrink as failures accumulate.
pub proof fn lemma_delay_monotonic(base: u64, max: u64, c1: u32, c2: u32)
    requires
        c1 <= c2,
    ensures
        spec_delay(base, max, c1) <= spec_delay(base, max, c2),
{
    lemma_delay_capped(base, max, c1);
    lemma_delay_capped(base, max, c2);
    if c1 > 0 {
        let k1 = (c1 - 1) as nat;
        let k2 = (c2 - 1) as nat;
        if k1 < k2 {
            lemma_pow2_strictly_increases(k1, k2);
        }
        lemma_pow2_pos(k1);
        assert(base * pow2(k1) <= base * pow2(k2)) by (nonlinear_arith)
            requires
                pow2(k1) <= pow2(k2),
        ;
    }
}

} // verus!
