//! Points in time and spans between them, in whole nanoseconds.
//!
//! A caller reads its clock and hands the reading in as an [`Instant`]; only
//! differences between readings of one clock mean anything.

use vstd::prelude::*;

verus! {

/// Nanoseconds in a millisecond.
pub const NANOS_PER_MILLI: u128 = 1_000_000;

/// Nanoseconds in a second.
pub const NANOS_PER_SEC: u128 = 1_000_000_000;

/// The longest span that arithmetic on spans yields: the largest count of
/// seconds that fits in 64 bits, and all but one of the nanoseconds of the next.
pub const LONGEST_NANOS: u128 = 18_446_744_073_709_551_615_999_999_999;

/// A span of time.
#[derive(Debug, Clone, Copy, PartialEq, Eq, Structural)]
pub struct Duration {
    pub nanos: u128,
}

/// A reading of a monotonic clock.
#[derive(Debug, Clone, Copy, PartialEq, Eq, Structural)]
pub struct Instant {
    pub nanos: u128,
}

/// The span of `count` milliseconds.
pub open spec fn millis(count: int) -> Duration {
    Duration { nanos: (count * NANOS_PER_MILLI) as u128 }
}

/// The span of `count` seconds.
pub open spec fn seconds(count: int) -> Duration {
    Duration { nanos: (count * NANOS_PER_SEC) as u128 }
}

/// The span from `earlier` to `later`; none at all where `later` comes first.
pub open spec fn span(earlier: Instant, later: Instant) -> Duration {
    if earlier.nanos <= later.nanos {
        Duration { nanos: (later.nanos - earlier.nanos) as u128 }
    } else {
        Duration { nanos: 0 }
    }
}

/// The instant `length` after `start`.
pub open spec fn after(start: Instant, length: Duration) -> Instant {
    Instant { nanos: (start.nanos + length.nanos) as u128 }
}

/// Whether the instant `length` after `start` can be represented.
pub open spec fn in_range(start: Instant, length: Duration) -> bool {
    start.nanos + length.nanos <= u128::MAX
}

/// Twice a span, but no more than the longest one.
pub open spec fn doubled(length: Duration) -> Duration {
    if 2 * length.nanos <= LONGEST_NANOS {
        Duration { nanos: (2 * length.nanos) as u128 }
    } else {
        Duration { nanos: LONGEST_NANOS }
    }
}

impl Duration {
    /// The span of `count` milliseconds.
    pub fn from_millis(count: u64) -> (length: Duration)
        ensures
            length == millis(count as int),
            length.nanos == count * NANOS_PER_MILLI,
    {
        Duration { nanos: count as u128 * NANOS_PER_MILLI }
    }

    /// The span of `count` seconds.
    pub fn from_secs(count: u64) -> (length: Duration)
        ensures
            length == seconds(count as int),
            length.nanos == count * NANOS_PER_SEC,
    {
        Duration { nanos: count as u128 * NANOS_PER_SEC }
    }

    /// The whole milliseconds in this span.
    pub fn as_millis(&self) -> (count: u128)
        ensures
            count == self.nanos / NANOS_PER_MILLI,
    {
        self.nanos / NANOS_PER_MILLI
    }

    /// The whole seconds in this span.
    pub fn as_secs(&self) -> (count: u128)
        ensures
            count == self.nanos / NANOS_PER_SEC,
    {
        self.nanos / NANOS_PER_SEC
    }

    /// Twice this span, but no more than the longest one.
    pub fn doubled(&self) -> (length: Duration)
        ensures
            length == doubled(*self),
    {
        if self.nanos <= LONGEST_NANOS / 2 {
            Duration { nanos: 2 * self.nanos }
        } else {
            Duration { nanos: LONGEST_NANOS }
        }
    }
}

impl Instant {
    /// The span since `earlier`; none at all where `earlier` is the later one.
    pub fn duration_since(&self, earlier: Instant) -> (length: Duration)
        ensures
            length == span(earlier, *self),
    {
        if earlier.nanos <= self.nanos {
            Duration { nanos: self.nanos - earlier.nanos }
        } else {
            Duration { nanos: 0 }
        }
    }

    /// The instant `length` after this one.
    pub fn plus(&self, length: Duration) -> (later: Instant)
        requires
            in_range(*self, length),
        ensures
            later == after(*self, length),
    {
        Instant { nanos: self.nanos + length.nanos }
    }
}

/// How long a millisecond and a second are.
pub proof fn law_lengths_of_spans(count: u64)
    ensures
        millis(count as int).nanos == count * 1_000_000,
        seconds(count as int).nanos == count * 1_000_000_000,
        NANOS_PER_MILLI == 1_000_000,
        NANOS_PER_SEC == 1_000_000_000,
{
}

/// The instant a span after another lies that span after it, and no span lies backwards.
pub proof fn law_spans_lie_between_instants(start: Instant, length: Duration, end: Instant)
    ensures
        in_range(start, length) ==> span(start, after(start, length)) == length,
        in_range(start, length) ==> after(start, length).nanos == start.nanos + length.nanos,
        start.nanos <= end.nanos ==> span(start, end).nanos == end.nanos - start.nanos,
        end.nanos <= start.nanos ==> span(start, end).nanos == 0,
        in_range(start, length) <==> start.nanos + length.nanos
            <= 0xffff_ffff_ffff_ffff_ffff_ffff_ffff_ffff,
{
}

/// Twice a span is just that, up to the longest one.
pub proof fn law_doubling(length: Duration)
    ensures
        2 * length.nanos <= 18_446_744_073_709_551_615_999_999_999 ==> doubled(length).nanos == 2
            * length.nanos,
        2 * length.nanos > 18_446_744_073_709_551_615_999_999_999 ==> doubled(length).nanos
            == 18_446_744_073_709_551_615_999_999_999,
{
}

} // verus!
