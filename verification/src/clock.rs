//! Time as plain integers: lengths of time and readings of a monotonic clock,
//! both in whole nanoseconds, and the clock that produces the readings.

use std::time::{Instant, SystemTime, UNIX_EPOCH};
use vstd::prelude::*;

verus! {

pub const NANOS_PER_MILLI: u64 = 1_000_000;

pub const NANOS_PER_SEC: u64 = 1_000_000_000;

/// A periodic statistics report is due only when more than this many
/// nanoseconds have passed since the last one.
pub const STATS_LOG_NANOS: u64 = 60_000_000_000;

/// The sum of two nanosecond counts, held at `u64::MAX` where it would exceed it.
pub open spec fn saturating_sum(a: int, b: int) -> u64 {
    if a + b >= u64::MAX {
        u64::MAX
    } else if a + b <= 0 {
        0
    } else {
        (a + b) as u64
    }
}

/// The product of two counts, held at `u64::MAX` where it would exceed it.
pub open spec fn saturating_product(a: int, b: int) -> u64 {
    if a * b >= u64::MAX {
        u64::MAX
    } else if a * b <= 0 {
        0
    } else {
        (a * b) as u64
    }
}

/// A length of time in whole nanoseconds.
#[derive(Clone, Copy, Debug, PartialEq, Eq, PartialOrd, Ord, Hash, Structural)]
pub struct Span {
    pub nanos: u64,
}

impl Span {
    /// The empty length of time.
    pub fn zero() -> (s: Span)
        ensures
            s.nanos == 0,
    {
        Span { nanos: 0 }
    }

    pub fn from_nanos(nanos: u64) -> (s: Span)
        ensures
            s.nanos == nanos,
    {
        Span { nanos }
    }

    /// `millis` milliseconds; the longest span where that many nanoseconds do not fit.
    pub fn from_millis(millis: u64) -> (s: Span)
        ensures
            s.nanos == saturating_product(millis as int, NANOS_PER_MILLI as int),
    {
        Span { nanos: scale(millis, NANOS_PER_MILLI) }
    }

    /// `secs` seconds; the longest span where that many nanoseconds do not fit.
    pub fn from_secs(secs: u64) -> (s: Span)
        ensures
            s.nanos == saturating_product(secs as int, NANOS_PER_SEC as int),
    {
        Span { nanos: scale(secs, NANOS_PER_SEC) }
    }

    pub fn as_nanos(&self) -> (n: u64)
        ensures
            n == self.nanos,
    {
        self.nanos
    }

    /// The two spans one after the other, held at the longest span.
    pub fn saturating_add(self, other: Span) -> (s: Span)
        ensures
            s.nanos == saturating_sum(self.nanos as int, other.nanos as int),
    {
        Span { nanos: plus(self.nanos, other.nanos) }
    }

}

/// A reading of the monotonic clock: nanoseconds since the clock's origin.
#[derive(Clone, Copy, Debug, PartialEq, Eq, PartialOrd, Ord, Hash, Structural)]
pub struct Timestamp {
    pub nanos: u64,
}

impl Timestamp {
    pub fn from_nanos(nanos: u64) -> (t: Timestamp)
        ensures
            t.nanos == nanos,
    {
        Timestamp { nanos }
    }

    pub fn as_nanos(&self) -> (n: u64)
        ensures
            n == self.nanos,
    {
        self.nanos
    }

    /// The time from `earlier` to this reading, as a model value.
    pub open spec fn since(self, earlier: Timestamp) -> Span {
        Span { nanos: saturating_sum(self.nanos as int, -(earlier.nanos as int)) }
    }

    /// This reading moved later by `span`, as a model value.
    pub open spec fn after(self, span: Span) -> Timestamp {
        Timestamp { nanos: saturating_sum(self.nanos as int, span.nanos as int) }
    }

    /// The time that passed from `earlier` to this reading; nothing where
    /// `earlier` is in fact the later of the two.
    pub fn duration_since(self, earlier: Timestamp) -> (s: Span)
        ensures
            s == self.since(earlier),
    {
        Span { nanos: minus(self.nanos, earlier.nanos) }
    }

    /// The reading `span` later, held at the last reading the clock can give.
    pub fn saturating_add(self, span: Span) -> (t: Timestamp)
        ensures
            t == self.after(span),
    {
        Timestamp { nanos: plus(self.nanos, span.nanos) }
    }

}

fn plus(a: u64, b: u64) -> (r: u64)
    ensures
        r == saturating_sum(a as int, b as int),
{
    if a > u64::MAX - b {
        u64::MAX
    } else {
        a + b
    }
}

fn minus(a: u64, b: u64) -> (r: u64)
    ensures
        r == saturating_sum(a as int, -(b as int)),
{
    if a <= b {
        0
    } else {
        a - b
    }
}

fn scale(count: u64, unit: u64) -> (r: u64)
    requires
        unit > 0,
    ensures
        r == saturating_product(count as int, unit as int),
{
    if count > u64::MAX / unit {
        assert(count * unit >= u64::MAX) by (nonlinear_arith)
            requires
                count > u64::MAX / unit,
                unit > 0,
        ;
        u64::MAX
    } else {
        assert(0 <= count * unit <= u64::MAX) by (nonlinear_arith)
            requires
                count <= u64::MAX / unit,
                unit > 0,
        ;
        count * unit
    }
}

#[verifier::external_type_specification]
#[verifier::external_body]
pub struct ExInstant(Instant);

/// A monotonic clock whose readings count the nanoseconds since it was made.
pub struct Clock {
    origin: Instant,
}

impl Clock {
    /// Starts a clock; its origin is the moment of this call.
    pub fn new() -> Clock {
        Clock { origin: instant_now() }
    }

    /// Reads the clock. Nothing is known of the reading in advance.
    pub fn now(&self) -> Timestamp {
        Timestamp { nanos: nanos_since(&self.origin) }
    }
}

/// Reads the system's calendar clock: milliseconds since the start of 1970.
/// Nothing is known of the reading in advance.
pub fn unix_millis() -> u64 {
    system_millis()
}

/// `std::time::SystemTime::now`, as a count of milliseconds since
/// `UNIX_EPOCH`, none where the system's clock is set before it. Nothing is
/// claimed of the value.
#[verifier::external_body]
fn system_millis() -> u64 {
    SystemTime::now().duration_since(UNIX_EPOCH).unwrap_or_default().as_millis() as u64
}

/// `std::time::Instant::now`: the current moment of the monotonic clock.
/// Nothing is claimed of the value.
#[verifier::external_body]
fn instant_now() -> Instant {
    Instant::now()
}

/// `std::time::Instant::elapsed`, as a count of nanoseconds: the time since
/// `origin` on the monotonic clock. Nothing is claimed of the value.
#[verifier::external_body]
fn nanos_since(origin: &Instant) -> u64 {
    origin.elapsed().as_nanos() as u64
}

} // verus!
