//! Points in time and non-negative spans of time, both counted in microseconds.

use vstd::prelude::*;

verus! {

/// Microseconds in one millisecond.
pub const MICROS_PER_MILLI: u64 = 1000;

/// Microseconds in one second.
pub const MICROS_PER_SEC: u64 = 1_000_000;

/// A non-negative span of time, in whole microseconds.
#[derive(Clone, Copy, Debug, PartialEq, Eq, Structural)]
pub struct Duration {
    pub micros: u64,
}

/// A point in time: microseconds since the Unix epoch, UTC.
#[derive(Clone, Copy, Debug, PartialEq, Eq, Structural)]
pub struct Timestamp {
    pub micros: i64,
}

/// Relies on chrono's `Utc::now`, read out with `DateTime::timestamp_micros`:
/// the current UTC time, which chrono takes from the system clock as a span
/// since the Unix epoch (panicking where the clock is set before it), so it
/// never lies before the epoch.
#[verifier::external_body]
pub(crate) fn utc_now() -> (r: Timestamp)
    ensures
        r.micros >= 0,
{
    Timestamp { micros: chrono::Utc::now().timestamp_micros() }
}

/// The span from `from` to `to`, zero where `to` is not later.
pub open spec fn span(from: Timestamp, to: Timestamp) -> u64 {
    if to.micros > from.micros {
        (to.micros - from.micros) as u64
    } else {
        0
    }
}

impl Duration {
    /// The empty span.
    pub fn zero() -> (d: Duration)
        ensures
            d.micros == 0,
    {
        Duration { micros: 0 }
    }

    pub fn microseconds(micros: u64) -> (d: Duration)
        ensures
            d.micros == micros,
    {
        Duration { micros }
    }

    pub fn milliseconds(millis: u64) -> (d: Duration)
        requires
            millis * MICROS_PER_MILLI <= u64::MAX,
        ensures
            d.micros == millis * MICROS_PER_MILLI,
    {
        Duration { micros: millis * MICROS_PER_MILLI }
    }

    pub fn seconds(secs: u64) -> (d: Duration)
        requires
            secs * MICROS_PER_SEC <= u64::MAX,
        ensures
            d.micros == secs * MICROS_PER_SEC,
    {
        Duration { micros: secs * MICROS_PER_SEC }
    }

    /// Whole seconds in the span, the remainder dropped.
    pub fn num_seconds(&self) -> (r: u64)
        ensures
            r == self.micros / MICROS_PER_SEC,
    {
        self.micros / MICROS_PER_SEC
    }

    /// Whole milliseconds in the span, the remainder dropped.
    pub fn num_milliseconds(&self) -> (r: u64)
        ensures
            r == self.micros / MICROS_PER_MILLI,
    {
        self.micros / MICROS_PER_MILLI
    }

    pub fn num_microseconds(&self) -> (r: u64)
        ensures
            r == self.micros,
    {
        self.micros
    }

    /// The sum of two spans, or `None` where it does not fit.
    pub fn checked_add(self, other: Duration) -> (r: Option<Duration>)
        ensures
            r == (if self.micros + other.micros <= u64::MAX {
                Some(Duration { micros: (self.micros + other.micros) as u64 })
            } else {
                None
            }),
    {
        match self.micros.checked_add(other.micros) {
            Some(micros) => Some(Duration { micros }),
            None => None,
        }
    }

    /// The part of `self` that exceeds `other`; zero where `other` is the longer.
    pub fn saturating_sub(self, other: Duration) -> (r: Duration)
        ensures
            r.micros == (if self.micros > other.micros {
                self.micros - other.micros
            } else {
                0
            }),
    {
        if self.micros > other.micros {
            Duration { micros: self.micros - other.micros }
        } else {
            Duration { micros: 0 }
        }
    }

    /// The longer of the two spans.
    pub fn max(self, other: Duration) -> (r: Duration)
        ensures
            r.micros == (if self.micros >= other.micros { self.micros } else { other.micros }),
    {
        if self.micros >= other.micros {
            self
        } else {
            other
        }
    }

    /// The shorter of the two spans.
    pub fn min(self, other: Duration) -> (r: Duration)
        ensures
            r.micros == (if self.micros <= other.micros { self.micros } else { other.micros }),
    {
        if self.micros <= other.micros {
            self
        } else {
            other
        }
    }
}

impl Timestamp {
    pub fn from_micros(micros: i64) -> (t: Timestamp)
        ensures
            t.micros == micros,
    {
        Timestamp { micros }
    }

    pub fn timestamp_micros(&self) -> (r: i64)
        ensures
            r == self.micros,
    {
        self.micros
    }

    /// The point `d` after `self`, or `None` where it does not fit.
    pub fn checked_add(self, d: Duration) -> (r: Option<Timestamp>)
        ensures
            r == (if self.micros + d.micros <= i64::MAX {
                Some(Timestamp { micros: (self.micros + d.micros) as i64 })
            } else {
                None
            }),
    {
        let sum: i128 = self.micros as i128 + d.micros as i128;
        if sum <= i64::MAX as i128 {
            Some(Timestamp { micros: sum as i64 })
        } else {
            None
        }
    }

    /// The span from `earlier` to `self`; zero where `earlier` is not before `self`.
    pub fn duration_since(self, earlier: Timestamp) -> (d: Duration)
        ensures
            d.micros == span(earlier, self),
    {
        if self.micros > earlier.micros {
            Duration { micros: (self.micros as i128 - earlier.micros as i128) as u64 }
        } else {
            Duration { micros: 0 }
        }
    }
}

} // verus!
