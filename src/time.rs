//! Durations in whole units, and a stopwatch.
use vstd::prelude::*;

use crate::text::{decimal, push_decimal};

verus! {

#[verifier::external_type_specification]
#[verifier::external_body]
pub struct ExInstant(std::time::Instant);

/// Relies on `std::time::Instant::now`; nothing is known of the instant.
#[verifier::external_body]
fn instant_now() -> std::time::Instant {
    std::time::Instant::now()
}

/// Relies on `std::time::Instant::elapsed` and `Duration::as_nanos`; the
/// count depends on the clock.
#[verifier::external_body]
fn nanos_since(start: &std::time::Instant) -> u128 {
    start.elapsed().as_nanos()
}

pub const NANOS_PER_SECOND: u128 = 1_000_000_000;

pub const NANOS_PER_MILLI: u128 = 1_000_000;

pub const NANOS_PER_MICRO: u128 = 1_000;

#[derive(Debug, Clone, Copy, PartialEq, Eq, Structural)]
pub enum TimeUnit {
    Seconds,
    Milliseconds,
    Microseconds,
    Nanoseconds,
}

impl TimeUnit {
    /// Nanoseconds in one of the unit.
    pub open spec fn nanos(self) -> nat {
        match self {
            TimeUnit::Seconds => 1_000_000_000,
            TimeUnit::Milliseconds => 1_000_000,
            TimeUnit::Microseconds => 1_000,
            TimeUnit::Nanoseconds => 1,
        }
    }

    pub open spec fn symbol(self) -> Seq<char> {
        match self {
            TimeUnit::Seconds => "s"@,
            TimeUnit::Milliseconds => "ms"@,
            TimeUnit::Microseconds => "μs"@,
            TimeUnit::Nanoseconds => "ns"@,
        }
    }
}

/// A duration as a whole number of some unit, rounded down.
#[derive(Debug, Clone, Copy, PartialEq, Eq, Structural)]
pub struct TimeValue {
    pub unit: TimeUnit,
    pub value: u128,
}

impl TimeValue {
    /// The value followed by its unit symbol, such as `12ms`.
    pub fn to_text(&self) -> (r: String)
        ensures
            r@ == decimal(self.value as nat) + self.unit.symbol(),
    {
        let mut r = String::new();
        push_decimal_u128(&mut r, self.value);
        let symbol = match self.unit {
            TimeUnit::Seconds => "s",
            TimeUnit::Milliseconds => "ms",
            TimeUnit::Microseconds => "μs",
            TimeUnit::Nanoseconds => "ns",
        };
        r.append(symbol);
        r
    }
}

/// Appends the decimal notation of `n`.
fn push_decimal_u128(out: &mut String, n: u128)
    ensures
        final(out)@ == old(out)@ + decimal(n as nat),
    decreases n,
{
    if n <= u64::MAX as u128 {
        push_decimal(out, n as u64);
    } else {
        push_decimal_u128(out, n / 10);
        let last = (n % 10) as u64;
        push_decimal(out, last);
        assert(decimal(last as nat) == seq![crate::text::digit_char(last as nat)]);
        assert(final(out)@ =~= old(out)@ + decimal(n as nat));
    }
}

/// The unit that `optimal` picks for a duration of `nanos`: the largest
/// unit of which the duration holds at least one.
pub open spec fn optimal_unit(nanos: nat) -> TimeUnit {
    if nanos >= 1_000_000_000 {
        TimeUnit::Seconds
    } else if nanos >= 1_000_000 {
        TimeUnit::Milliseconds
    } else if nanos >= 1_000 {
        TimeUnit::Microseconds
    } else {
        TimeUnit::Nanoseconds
    }
}

/// A span of time.
#[derive(Debug, Clone, Copy, PartialEq, Eq, Structural)]
pub struct Time {
    pub nanos: u128,
}

impl Time {
    pub fn from_nanos(nanos: u128) -> (r: Time)
        ensures
            r.nanos == nanos,
    {
        Time { nanos }
    }

    fn in_unit(&self, unit: TimeUnit) -> (r: TimeValue)
        ensures
            r.unit == unit,
            r.value as nat == self.nanos as nat / unit.nanos(),
    {
        let value = match unit {
            TimeUnit::Seconds => self.nanos / NANOS_PER_SECOND,
            TimeUnit::Milliseconds => self.nanos / NANOS_PER_MILLI,
            TimeUnit::Microseconds => self.nanos / NANOS_PER_MICRO,
            TimeUnit::Nanoseconds => self.nanos,
        };
        TimeValue { unit, value }
    }

    /// Whole seconds.
    pub fn s(&self) -> (r: TimeValue)
        ensures
            r.unit == TimeUnit::Seconds,
            r.value as nat == self.nanos as nat / 1_000_000_000,
    {
        self.in_unit(TimeUnit::Seconds)
    }

    /// Whole milliseconds.
    pub fn ms(&self) -> (r: TimeValue)
        ensures
            r.unit == TimeUnit::Milliseconds,
            r.value as nat == self.nanos as nat / 1_000_000,
    {
        self.in_unit(TimeUnit::Milliseconds)
    }

    /// Whole microseconds.
    pub fn us(&self) -> (r: TimeValue)
        ensures
            r.unit == TimeUnit::Microseconds,
            r.value as nat == self.nanos as nat / 1_000,
    {
        self.in_unit(TimeUnit::Microseconds)
    }

    /// Nanoseconds.
    pub fn ns(&self) -> (r: TimeValue)
        ensures
            r.unit == TimeUnit::Nanoseconds,
            r.value == self.nanos,
    {
        self.in_unit(TimeUnit::Nanoseconds)
    }

    /// The duration in the largest unit of which it holds at least one.
    pub fn optimal(&self) -> (r: TimeValue)
        ensures
            r.unit == optimal_unit(self.nanos as nat),
            r.value as nat == self.nanos as nat / r.unit.nanos(),
    {
        let unit = if self.nanos >= NANOS_PER_SECOND {
            TimeUnit::Seconds
        } else if self.nanos >= NANOS_PER_MILLI {
            TimeUnit::Milliseconds
        } else if self.nanos >= NANOS_PER_MICRO {
            TimeUnit::Microseconds
        } else {
            TimeUnit::Nanoseconds
        };
        self.in_unit(unit)
    }
}

/// Measures the time since it was started.
pub struct Stopwatch {
    start_time: Option<std::time::Instant>,
}

impl Stopwatch {
    pub closed spec fn is_running(self) -> bool {
        self.start_time is Some
    }

    /// A stopwatch that has not been started.
    pub fn new() -> (r: Stopwatch)
        ensures
            !r.is_running(),
    {
        Stopwatch { start_time: None }
    }

    /// Starts (or restarts) the stopwatch now.
    pub fn start(&mut self)
        ensures
            final(self).is_running(),
    {
        self.start_time = Some(instant_now());
    }

    /// The time since the stopwatch was started; none before it was.
    pub fn elapsed(&self) -> (r: Option<Time>)
        ensures
            r is Some <==> self.is_running(),
    {
        match &self.start_time {
            Some(start) => Some(Time::from_nanos(nanos_since(start))),
            None => None,
        }
    }

    /// Stops the stopwatch, consuming it.
    pub fn stop(self) {
    }
}

} // verus!
