//! Spans of time and readings of a monotonic clock.
use vstd::prelude::*;

verus! {

/// The number of nanoseconds in the longest span: all seconds that 64 bits count, and just short
/// of one more.
pub const MAX_DURATION_NANOS: u128 = 0xffff_ffff_ffff_ffff * 1_000_000_000 + 999_999_999;

/// A span of time, in whole nanoseconds.
#[derive(Clone, Copy, Debug, PartialEq, Eq, Structural)]
pub struct Duration {
    nanos: u128,
}

/// A reading of the monotonic clock: the time since an arbitrary start.
#[derive(Clone, Copy, Debug, PartialEq, Eq, Structural)]
pub struct Instant {
    pub since_start: Duration,
}

impl View for Duration {
    type V = int;

    closed spec fn view(&self) -> int {
        self.nanos as int
    }
}

impl View for Instant {
    type V = int;

    open spec fn view(&self) -> int {
        self.since_start@
    }
}

/// The smaller of two numbers.
pub open spec fn lesser(a: int, b: int) -> int {
    if a <= b {
        a
    } else {
        b
    }
}

impl Duration {
    #[verifier::type_invariant]
    spec fn bounded(self) -> bool {
        self.nanos <= MAX_DURATION_NANOS
    }

    /// The span of `nanos` nanoseconds, or the longest span when there are more.
    pub fn from_nanos(nanos: u128) -> (span: Duration)
        ensures
            span@ == lesser(nanos as int, MAX_DURATION_NANOS as int),
    {
        if nanos > MAX_DURATION_NANOS {
            Duration { nanos: MAX_DURATION_NANOS }
        } else {
            Duration { nanos }
        }
    }

    pub fn from_millis(millis: u64) -> (span: Duration)
        ensures
            span@ == millis * 1_000_000,
    {
        Duration { nanos: millis as u128 * 1_000_000 }
    }

    pub fn from_secs(secs: u64) -> (span: Duration)
        ensures
            span@ == secs * 1_000_000_000,
    {
        Duration { nanos: secs as u128 * 1_000_000_000 }
    }

    pub fn as_nanos(&self) -> (nanos: u128)
        ensures
            nanos == self@,
            nanos <= MAX_DURATION_NANOS,
    {
        proof {
            use_type_invariant(&*self);
        }
        self.nanos
    }

    pub fn as_micros(&self) -> (micros: u128)
        ensures
            micros == self@ / 1000,
    {
        self.nanos / 1000
    }

    pub fn as_millis(&self) -> (millis: u128)
        ensures
            millis == self@ / 1_000_000,
    {
        self.nanos / 1_000_000
    }

    /// The span `factor` times, or the longest span when that is longer.
    pub fn saturating_mul(self, factor: u32) -> (span: Duration)
        ensures
            span@ == lesser(self@ * factor, MAX_DURATION_NANOS as int),
    {
        proof {
            use_type_invariant(&self);
            assert(self.nanos * factor <= MAX_DURATION_NANOS * 0xffff_ffff) by (nonlinear_arith)
                requires
                    self.nanos <= MAX_DURATION_NANOS,
                    factor <= 0xffff_ffff,
            ;
        }
        Duration::from_nanos(self.nanos * factor as u128)
    }

    /// Both spans together, or the longest span when that is longer.
    pub fn saturating_add(self, other: Duration) -> (span: Duration)
        ensures
            span@ == lesser(self@ + other@, MAX_DURATION_NANOS as int),
    {
        proof {
            use_type_invariant(&self);
            use_type_invariant(&other);
        }
        Duration::from_nanos(self.nanos + other.nanos)
    }

    /// The shorter of two spans.
    pub fn min(self, other: Duration) -> (span: Duration)
        ensures
            span@ == lesser(self@, other@),
            span == self || span == other,
    {
        if self.nanos <= other.nanos {
            self
        } else {
            other
        }
    }

    /// Whether the span lasts at least as long as `other`.
    pub fn at_least(self, other: Duration) -> (result: bool)
        ensures
            result == (self@ >= other@),
    {
        self.nanos >= other.nanos
    }
}

/// Spans of equal length are equal.
pub broadcast proof fn duration_is_its_length(a: Duration, b: Duration)
    requires
        #[trigger] a@ == #[trigger] b@,
    ensures
        a == b,
{
}

impl Instant {
    /// The reading `span` later, or the last one that can be told.
    pub fn plus(self, span: Duration) -> (later: Instant)
        ensures
            later@ == lesser(self@ + span@, MAX_DURATION_NANOS as int),
    {
        Instant { since_start: self.since_start.saturating_add(span) }
    }

    /// How long before this reading `earlier` was, zero when it was not before it.
    pub fn duration_since(self, earlier: Instant) -> (span: Duration)
        ensures
            span@ == if self@ >= earlier@ {
                self@ - earlier@
            } else {
                0
            },
    {
        let now = self.since_start.as_nanos();
        let then = earlier.since_start.as_nanos();
        if now >= then {
            Duration::from_nanos(now - then)
        } else {
            Duration::from_nanos(0)
        }
    }
}

/// The wait before the next restart: twice the current one, at most `maximum`.
pub fn next_backoff(current: Duration, maximum: Duration) -> (next: Duration)
    ensures
        next@ == lesser(current@ * 2, maximum@),
{
    proof {
        use_type_invariant(&maximum);
    }
    current.saturating_mul(2).min(maximum)
}

/// The wait after `failures` failures in a row, from `first` on, at most `maximum`.
pub open spec fn backoff_after(first: int, maximum: int, failures: nat) -> int
    decreases failures,
{
    if failures == 0 {
        first
    } else {
        lesser(backoff_after(first, maximum, (failures - 1) as nat) * 2, maximum)
    }
}

/// Restart waits double with each failure until they reach the maximum, and stay there.
pub proof fn backoff_doubles_to_its_cap(first: int, maximum: int, failures: nat)
    requires
        0 <= first <= maximum,
    ensures
        backoff_after(first, maximum, failures) == lesser(
            first * vstd::arithmetic::power2::pow2(failures),
            maximum,
        ),
    decreases failures,
{
    vstd::arithmetic::power2::lemma_pow2_pos(failures);
    if failures == 0 {
        vstd::arithmetic::power2::lemma2_to64();
    } else {
        let before = (failures - 1) as nat;
        backoff_doubles_to_its_cap(first, maximum, before);
        vstd::arithmetic::power2::lemma_pow2_unfold(failures);
        let power = vstd::arithmetic::power2::pow2(before) as int;
        assert(first * (2 * power) == (first * power) * 2) by (nonlinear_arith);
    }
}

/// The smaller of two numbers is one of them and exceeds neither.
pub proof fn lesser_is_the_smaller_one(a: int, b: int)
    ensures
        lesser(a, b) == a || lesser(a, b) == b,
        lesser(a, b) <= a,
        lesser(a, b) <= b,
{
}

} // verus!
