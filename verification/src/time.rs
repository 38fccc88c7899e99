//! Monotonic time, counted in nanoseconds.

use vstd::prelude::*;

verus! {

/// A span of time.
#[derive(Clone, Copy, Debug, PartialEq, Eq, Structural)]
pub struct Duration {
    pub nanos: u64,
}

/// A reading of the monotonic clock: the nanoseconds since an epoch that the program
/// chooses once.
#[derive(Clone, Copy, Debug, PartialEq, Eq, Structural)]
pub struct Instant {
    pub nanos: u64,
}

/// The span of `ms` milliseconds.
pub open spec fn millis(ms: int) -> int {
    ms * 1_000_000
}

/// The whole microseconds between `earlier` and `later`, zero if `later` is not later.
pub open spec fn micros_between(later: Instant, earlier: Instant) -> int {
    later.since(earlier).nanos as int / 1_000
}

/// The whole milliseconds between `earlier` and `later`, zero if `later` is not later.
pub open spec fn millis_between(later: Instant, earlier: Instant) -> int {
    later.since(earlier).nanos as int / 1_000_000
}

/// The distance of `x` from zero.
pub open spec fn magnitude(x: int) -> int {
    if x >= 0 {
        x
    } else {
        -x
    }
}

/// The first of the instants `at`, `at + period`, `at + 2 * period` and so on that lies
/// after `now`, all in nanoseconds.
pub open spec fn first_after(at: int, period: int, now: int) -> int {
    if at > now {
        at
    } else {
        at + ((now - at) / period + 1) * period
    }
}

/// Stepping past an instant that does not lie after `now` changes nothing.
pub proof fn lemma_first_after_step(at: int, period: int, now: int)
    requires
        period > 0,
        at <= now,
    ensures
        first_after(at + period, period, now) == first_after(at, period, now),
        first_after(at, period, now) >= at + period,
{
    let q = (now - at) / period;
    assert(q >= 0 && period * q <= now - at < period * q + period) by (nonlinear_arith)
        requires
            period > 0,
            now - at >= 0,
            q == (now - at) / period,
    ;
    if at + period > now {
        assert(q == 0) by (nonlinear_arith)
            requires
                period > 0,
                q >= 0,
                period * q <= now - at,
                now - at < period,
        ;
    } else {
        assert((now - at - period) / period == q - 1) by (nonlinear_arith)
            requires
                period > 0,
                q == (now - at) / period,
        ;
        assert(q * period + period == (q + 1) * period) by (nonlinear_arith);
        assert((q + 1) * period >= period) by (nonlinear_arith)
            requires
                q >= 0,
                period > 0,
        ;
    }
}

/// Law: the instant that `first_after` picks lies on the grid of `period` steps from `at`,
/// lies after `now`, and no earlier instant of the grid does.
pub proof fn law_first_after(at: int, period: int, now: int)
    requires
        period > 0,
    ensures
        first_after(at, period, now) > now,
        first_after(at, period, now) >= at,
        (first_after(at, period, now) - at) % period == 0,
        first_after(at, period, now) == at || first_after(at, period, now) - period <= now,
{
    let q = (now - at) / period;
    if at <= now {
        assert(q >= 0 && period * q <= now - at < period * q + period) by (nonlinear_arith)
            requires
                period > 0,
                now - at >= 0,
                q == (now - at) / period,
        ;
        assert((q + 1) * period == period * q + period) by (nonlinear_arith);
        assert(((q + 1) * period) % period == 0) by (nonlinear_arith)
            requires
                period > 0,
        ;
    } else {
        assert(0int % period == 0) by (nonlinear_arith)
            requires
                period > 0,
        ;
    }
}

impl Duration {
    /// The span of `ms` milliseconds.
    pub fn from_millis(ms: u64) -> (d: Duration)
        requires
            millis(ms as int) <= u64::MAX,
        ensures
            d.nanos == millis(ms as int),
    {
        Duration { nanos: ms * 1_000_000 }
    }

    /// The span of `us` microseconds.
    pub fn from_micros(us: u64) -> (d: Duration)
        requires
            us * 1_000 <= u64::MAX,
        ensures
            d.nanos == us * 1_000,
    {
        Duration { nanos: us * 1_000 }
    }

    /// The whole microseconds in the span.
    pub fn as_micros(self) -> (us: u64)
        ensures
            us == self.nanos as int / 1_000,
    {
        self.nanos / 1_000
    }

    /// The whole milliseconds in the span.
    pub fn as_millis(self) -> (ms: u64)
        ensures
            ms == self.nanos as int / 1_000_000,
    {
        self.nanos / 1_000_000
    }

    /// The whole seconds in the span.
    pub fn as_secs(self) -> (secs: u64)
        ensures
            secs == self.nanos as int / 1_000_000_000,
    {
        self.nanos / 1_000_000_000
    }
}

impl Instant {
    /// The span from `earlier` to this instant, zero if `earlier` is not earlier.
    pub open spec fn since(self, earlier: Instant) -> Duration {
        if self.nanos >= earlier.nanos {
            Duration { nanos: (self.nanos - earlier.nanos) as u64 }
        } else {
            Duration { nanos: 0 }
        }
    }

    /// The instant `span` nanoseconds later.
    pub open spec fn after(self, span: int) -> Instant {
        Instant { nanos: (self.nanos + span) as u64 }
    }

    /// Whether the instant `span` nanoseconds later can be written down.
    pub open spec fn has_after(self, span: int) -> bool {
        self.nanos + span <= u64::MAX
    }

    /// The span from `earlier` to this instant, zero if `earlier` is not earlier.
    pub fn saturating_duration_since(self, earlier: Instant) -> (d: Duration)
        ensures
            d == self.since(earlier),
    {
        if self.nanos >= earlier.nanos {
            Duration { nanos: self.nanos - earlier.nanos }
        } else {
            Duration { nanos: 0 }
        }
    }

    /// The instant one `span` later.
    pub fn plus(self, span: Duration) -> (later: Instant)
        requires
            self.has_after(span.nanos as int),
        ensures
            later == self.after(span.nanos as int),
    {
        Instant { nanos: self.nanos + span.nanos }
    }
}

/// Law: a span from an earlier to a later instant leads from the one to the other, and there is
/// no span back in time.
pub proof fn law_since_and_after(a: Instant, b: Instant)
    ensures
        a.nanos <= b.nanos ==> a.nanos + b.since(a).nanos == b.nanos && a.after(
            b.since(a).nanos as int,
        ) == b,
        b.nanos <= a.nanos ==> b.since(a).nanos == 0,
{
}

/// Law: whole microseconds and milliseconds are what is left of a span when the rest, less than
/// one of them, is cut off.
pub proof fn law_whole_units(later: Instant, earlier: Instant)
    requires
        earlier.nanos <= later.nanos,
    ensures
        ({
            let nanos = later.nanos - earlier.nanos;
            &&& 0 <= nanos - 1_000 * micros_between(later, earlier) < 1_000
            &&& 0 <= nanos - 1_000_000 * millis_between(later, earlier) < 1_000_000
            &&& micros_between(earlier, later) == 0
            &&& millis_between(earlier, later) == 0
        }),
{
}

/// Law: a millisecond is a million nanoseconds, and a number and its opposite are as far from
/// zero.
pub proof fn law_units_and_magnitudes(x: int)
    ensures
        millis(x) == 1_000_000 * x,
        magnitude(x) >= 0,
        magnitude(x) == x || magnitude(x) == -x,
{
}

} // verus!
