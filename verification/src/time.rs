//! Spans of time as whole nanoseconds.

use vstd::prelude::*;

verus! {

/// Nanoseconds in one millisecond.
pub const NANOS_PER_MILLI: u128 = 1_000_000;

/// Nanoseconds in one second.
pub const NANOS_PER_SEC: u128 = 1_000_000_000;

/// A span of time, held as a count of nanoseconds.
///
/// The view of a `Duration` is that count.
#[derive(Debug, Clone, Copy, PartialEq, Eq, PartialOrd, Ord, Structural)]
pub struct Duration {
    pub nanos: u128,
}

impl View for Duration {
    type V = nat;

    open spec fn view(&self) -> nat {
        self.nanos as nat
    }
}

impl Duration {
    /// The empty span.
    pub fn zero() -> (d: Duration)
        ensures
            d@ == 0,
    {
        Duration { nanos: 0 }
    }

    /// The span of `nanos` nanoseconds.
    pub fn from_nanos(nanos: u128) -> (d: Duration)
        ensures
            d@ == nanos,
    {
        Duration { nanos }
    }

    /// The span of `millis` milliseconds.
    pub fn from_millis(millis: u64) -> (d: Duration)
        ensures
            d@ == millis * 1_000_000,
    {
        Duration { nanos: millis as u128 * NANOS_PER_MILLI }
    }

    /// The span of `secs` seconds.
    pub fn from_secs(secs: u64) -> (d: Duration)
        ensures
            d@ == secs * 1_000_000_000,
    {
        Duration { nanos: secs as u128 * NANOS_PER_SEC }
    }

    /// The number of nanoseconds in the span.
    pub fn as_nanos(&self) -> (n: u128)
        ensures
            n == self@,
    {
        self.nanos
    }

    /// The number of whole milliseconds in the span.
    pub fn as_millis(&self) -> (n: u128)
        ensures
            n == self@ / 1_000_000,
    {
        self.nanos / NANOS_PER_MILLI
    }

    /// Whether the span is empty.
    pub fn is_zero(&self) -> (b: bool)
        ensures
            b == (self@ == 0),
    {
        self.nanos == 0
    }

    /// The sum of two spans, or `None` when it does not fit.
    pub fn checked_add(self, rhs: Duration) -> (sum: Option<Duration>)
        ensures
            sum matches Some(d) ==> d@ == self@ + rhs@,
            sum is Some <==> self@ + rhs@ <= u128::MAX,
    {
        if rhs.nanos <= u128::MAX - self.nanos {
            Some(Duration { nanos: self.nanos + rhs.nanos })
        } else {
            None
        }
    }

    /// The difference of two spans, or `None` when `rhs` is the longer one.
    pub fn checked_sub(self, rhs: Duration) -> (diff: Option<Duration>)
        ensures
            diff matches Some(d) ==> d@ == self@ - rhs@,
            diff is Some <==> rhs@ <= self@,
    {
        if rhs.nanos <= self.nanos {
            Some(Duration { nanos: self.nanos - rhs.nanos })
        } else {
            None
        }
    }

    /// The difference of two spans, or the empty span when `rhs` is the longer one.
    pub fn saturating_sub(self, rhs: Duration) -> (diff: Duration)
        ensures
            diff@ == if rhs@ <= self@ { self@ - rhs@ } else { 0 },
    {
        if rhs.nanos <= self.nanos {
            Duration { nanos: self.nanos - rhs.nanos }
        } else {
            Duration { nanos: 0 }
        }
    }
}

} // verus!
