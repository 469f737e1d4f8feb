//! Time in whole nanoseconds.

use vstd::prelude::*;

verus! {

/// The longest span that [`Duration`] stands for: `u64::MAX` seconds and
/// 999 999 999 nanoseconds.
pub const MAX_NANOS: u128 = 18_446_744_073_709_551_615_999_999_999;

/// A span of time, or a position counted from the start of the timeline.
#[derive(Clone, Copy, PartialEq, Eq, Structural, Debug)]
pub struct Duration {
    pub nanos: u128,
}

/// The distance between two instants, in nanoseconds.
pub open spec fn distance(a: int, b: int) -> int {
    if a < b {
        b - a
    } else {
        a - b
    }
}

impl Duration {
    /// No time at all.
    pub fn zero() -> (d: Self)
        ensures
            d.nanos == 0,
    {
        Duration { nanos: 0 }
    }

    /// A whole number of seconds.
    pub fn from_secs(secs: u64) -> (d: Self)
        ensures
            d.nanos == secs * 1_000_000_000,
            d.nanos <= MAX_NANOS,
    {
        Duration { nanos: secs as u128 * 1_000_000_000 }
    }

    /// A whole number of milliseconds.
    pub fn from_millis(millis: u64) -> (d: Self)
        ensures
            d.nanos == millis * 1_000_000,
            d.nanos <= MAX_NANOS,
    {
        Duration { nanos: millis as u128 * 1_000_000 }
    }

    /// The whole seconds of this span.
    pub fn as_secs(self) -> (secs: u64)
        requires
            self.nanos <= MAX_NANOS,
        ensures
            secs == self.nanos / 1_000_000_000,
    {
        (self.nanos / 1_000_000_000) as u64
    }

    /// The milliseconds of this span past its last whole second.
    pub fn subsec_millis(self) -> (millis: u32)
        ensures
            millis == (self.nanos % 1_000_000_000) / 1_000_000,
            millis < 1000,
    {
        ((self.nanos % 1_000_000_000) / 1_000_000) as u32
    }

    /// The two spans end to end.
    pub fn plus(self, other: Self) -> (sum: Self)
        requires
            self.nanos + other.nanos <= MAX_NANOS,
        ensures
            sum.nanos == self.nanos + other.nanos,
    {
        Duration { nanos: self.nanos + other.nanos }
    }

    /// This span shortened by `other`, or zero where `other` is longer.
    pub fn saturating_sub(self, other: Self) -> (rest: Self)
        ensures
            rest.nanos == (if self.nanos >= other.nanos {
                self.nanos - other.nanos
            } else {
                0
            }),
    {
        if self.nanos >= other.nanos {
            Duration { nanos: self.nanos - other.nanos }
        } else {
            Duration { nanos: 0 }
        }
    }

    /// The shorter of the two.
    pub fn min(self, other: Self) -> (d: Self)
        ensures
            d == (if other.nanos < self.nanos {
                other
            } else {
                self
            }),
    {
        if other.nanos < self.nanos {
            other
        } else {
            self
        }
    }

    /// The longer of the two.
    pub fn max(self, other: Self) -> (d: Self)
        ensures
            d == (if other.nanos > self.nanos {
                other
            } else {
                self
            }),
    {
        if other.nanos > self.nanos {
            other
        } else {
            self
        }
    }

    /// How far apart the two instants lie.
    pub fn abs_diff(self, other: Self) -> (d: Self)
        ensures
            d.nanos == distance(self.nanos as int, other.nanos as int),
    {
        if self.nanos < other.nanos {
            Duration { nanos: other.nanos - self.nanos }
        } else {
            Duration { nanos: self.nanos - other.nanos }
        }
    }
}

/// The distance of two instants is the same from both sides, leads from the earlier to the
/// later one, and is no time only between an instant and itself.
pub proof fn distance_leads_from_one_to_the_other(a: int, b: int)
    ensures
        distance(a, b) == distance(b, a),
        a <= b ==> a + distance(a, b) == b,
        distance(a, b) == 0 <==> a == b,
{
}

/// The longest span has as many whole seconds as 64 bits count, and all but one of the
/// nanoseconds of another.
pub proof fn longest_span()
    ensures
        MAX_NANOS / 1_000_000_000 == u64::MAX,
        MAX_NANOS % 1_000_000_000 == 999_999_999,
{
}

} // verus!
