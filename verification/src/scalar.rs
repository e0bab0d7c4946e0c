//! Scalars beyond the primitive types: floating-point numbers, which are
//! carried as their IEEE 754 bit patterns, and dates and times, which are
//! carried as day and second counts.

use vstd::prelude::*;

verus! {

/// A single-precision floating-point number, as its bit pattern.
#[derive(Clone, Copy, Debug, PartialEq, Eq, Structural)]
pub struct Real {
    pub bits: u32,
}

impl DeepView for Real {
    type V = u32;

    open spec fn deep_view(&self) -> u32 {
        self.bits
    }
}

/// A double-precision floating-point number, as its bit pattern.
#[derive(Clone, Copy, Debug, PartialEq, Eq, Structural)]
pub struct Double {
    pub bits: u64,
}

impl DeepView for Double {
    type V = u64;

    open spec fn deep_view(&self) -> u64 {
        self.bits
    }
}

/// The day number of 0001-01-01, the first day that a `Date` can be.
pub const FIRST_DAY: i32 = 1;

/// The day number of 9999-12-31, the last day that a `Date` can be.
pub const LAST_DAY: i32 = 3_652_059;

/// The seconds of a day.
pub const SECONDS_PER_DAY: u32 = 86_400;

/// The nanoseconds of a second.
pub const NANOS_PER_SECOND: u32 = 1_000_000_000;

/// The nanoseconds of a day.
pub const NANOS_PER_DAY: u64 = 86_400_000_000_000;

/// Whether `day` is the number of a day that a `Date` can be.
pub open spec fn is_day(day: int) -> bool {
    FIRST_DAY <= day <= LAST_DAY
}

/// Whether `nanos` is a number of nanoseconds since midnight that a `Time`
/// can be.
pub open spec fn is_time(nanos: int) -> bool {
    0 <= nanos < NANOS_PER_DAY
}

/// Whether `moment` is the day number and the nanoseconds since midnight
/// that a `Timestamp` can be.
pub open spec fn is_moment(moment: (int, int)) -> bool {
    is_day(moment.0) && is_time(moment.1)
}

/// A calendar date between 0001-01-01 and 9999-12-31, the dates that both
/// backends store. It is seen as the number of its day, where 0001-01-01 is
/// day 1 of the proleptic Gregorian calendar.
#[derive(Clone, Copy, Debug, PartialEq, Eq)]
pub struct Date {
    days: i32,
}

impl DeepView for Date {
    type V = int;

    closed spec fn deep_view(&self) -> int {
        self.days as int
    }
}

impl Date {
    #[verifier::type_invariant]
    spec fn inv(self) -> bool {
        FIRST_DAY <= self.days <= LAST_DAY
    }

    /// The date of the day with the number `days`, if it is in range.
    pub fn from_days_from_ce(days: i32) -> (r: Option<Date>)
        ensures
            r is Some <==> is_day(days as int),
            r matches Some(date) ==> date.deep_view() == days,
    {
        if FIRST_DAY <= days && days <= LAST_DAY {
            Some(Date { days })
        } else {
            None
        }
    }

    /// The number of the day.
    pub fn days_from_ce(&self) -> (days: i32)
        ensures
            days == self.deep_view(),
            is_day(days as int),
    {
        proof {
            use_type_invariant(self);
        }
        self.days
    }
}

/// A time of day, to the nanosecond, without leap seconds. It is seen as
/// the nanoseconds since midnight.
#[derive(Clone, Copy, Debug, PartialEq, Eq)]
pub struct Time {
    secs: u32,
    nanos: u32,
}

impl DeepView for Time {
    type V = int;

    closed spec fn deep_view(&self) -> int {
        self.secs as int * 1_000_000_000 + self.nanos as int
    }
}

impl Time {
    #[verifier::type_invariant]
    spec fn inv(self) -> bool {
        self.secs < SECONDS_PER_DAY && self.nanos < NANOS_PER_SECOND
    }

    /// The time `secs` seconds and `nanos` nanoseconds after midnight, if
    /// there is such a time in a day.
    pub fn new(secs: u32, nanos: u32) -> (r: Option<Time>)
        ensures
            r is Some <==> secs < SECONDS_PER_DAY && nanos < NANOS_PER_SECOND,
            r matches Some(time) ==> time.deep_view() == secs * 1_000_000_000 + nanos,
    {
        if secs < SECONDS_PER_DAY && nanos < NANOS_PER_SECOND {
            Some(Time { secs, nanos })
        } else {
            None
        }
    }

    /// The time `nanos` nanoseconds after midnight, if there is such a time
    /// in a day.
    pub fn from_nanos(nanos: u64) -> (r: Option<Time>)
        ensures
            r is Some <==> is_time(nanos as int),
            r matches Some(time) ==> time.deep_view() == nanos,
    {
        if nanos < NANOS_PER_DAY {
            let secs = (nanos / 1_000_000_000) as u32;
            let rest = (nanos % 1_000_000_000) as u32;
            Some(Time { secs, nanos: rest })
        } else {
            None
        }
    }

    /// The whole seconds since midnight.
    pub fn num_seconds_from_midnight(&self) -> (secs: u32)
        ensures
            secs == self.deep_view() / 1_000_000_000,
            secs < SECONDS_PER_DAY,
    {
        proof {
            use_type_invariant(self);
        }
        self.secs
    }

    /// The nanoseconds since the last whole second.
    pub fn nanosecond(&self) -> (nanos: u32)
        ensures
            nanos == self.deep_view() % 1_000_000_000,
            nanos < NANOS_PER_SECOND,
    {
        proof {
            use_type_invariant(self);
        }
        self.nanos
    }

    /// The nanoseconds since midnight.
    pub fn nanos_of_day(&self) -> (nanos: u64)
        ensures
            nanos == self.deep_view(),
            is_time(nanos as int),
    {
        proof {
            use_type_invariant(self);
        }
        self.secs as u64 * 1_000_000_000 + self.nanos as u64
    }
}

/// A date and a time of day, without a time zone. It is seen as the day
/// number and the nanoseconds since midnight.
#[derive(Clone, Copy, Debug, PartialEq, Eq)]
pub struct Timestamp {
    pub date: Date,
    pub time: Time,
}

impl DeepView for Timestamp {
    type V = (int, int);

    open spec fn deep_view(&self) -> (int, int) {
        (self.date.deep_view(), self.time.deep_view())
    }
}

/// A point in time, as its date and time of day in UTC.
#[derive(Clone, Copy, Debug, PartialEq, Eq)]
pub struct TimestampTz {
    pub utc: Timestamp,
}

impl DeepView for TimestampTz {
    type V = (int, int);

    open spec fn deep_view(&self) -> (int, int) {
        self.utc.deep_view()
    }
}

} // verus!
