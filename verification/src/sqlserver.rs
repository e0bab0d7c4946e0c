//! The SQL Server side of the value codec: a native value says of which
//! server type it is and holds the value, or nothing for SQL NULL.
//!
//! Which integer, `bit` and character values read as which Rust type is
//! decided by `tiberius`; the functions that ask it are trusted to do what
//! their contracts say. Dates and times are counts of days and of fractions
//! of a second, and are turned into day numbers and nanoseconds here.

use std::borrow::Cow;
use tiberius::{ColumnData, FromSql};
use vstd::prelude::*;
use crate::scalar::{is_day, Date, Time, Timestamp, LAST_DAY, NANOS_PER_DAY};

verus! {

/// The day number of 1900-01-01, from which the older date types count.
pub const DAY_OF_1900: i32 = 693_596;

/// A native `time`: a count of increments since midnight, an increment being
/// the `scale`-th negative power of ten of a second.
#[derive(Clone, Copy, Debug, PartialEq, Eq, Structural)]
pub struct SqlServerTime {
    pub increments: u64,
    pub scale: u8,
}

/// A native `datetime2`: the days since 0001-01-01 and the time of day.
#[derive(Clone, Copy, Debug, PartialEq, Eq, Structural)]
pub struct SqlServerDateTime2 {
    pub days: u32,
    pub time: SqlServerTime,
}

/// A native `datetime`: the days since 1900-01-01 and the three-hundredths
/// of a second since midnight.
#[derive(Clone, Copy, Debug, PartialEq, Eq, Structural)]
pub struct SqlServerDateTime {
    pub days: i32,
    pub fragments: u32,
}

/// A native `smalldatetime`: the days since 1900-01-01 and the minutes since
/// midnight.
#[derive(Clone, Copy, Debug, PartialEq, Eq, Structural)]
pub struct SqlServerSmallDateTime {
    pub days: u16,
    pub minutes: u16,
}

/// A value in SQL Server's native form, as the driver hands it out and takes
/// it in. `None` stands for SQL NULL.
#[derive(Clone, Debug, PartialEq, Eq)]
pub enum SqlServerValue {
    /// `tinyint`. A NULL of any integer column arrives in this form.
    TinyInt(Option<u8>),
    /// `smallint`.
    SmallInt(Option<i16>),
    /// `int`.
    Int(Option<i32>),
    /// `bigint`.
    BigInt(Option<i64>),
    /// `bit`.
    Bit(Option<bool>),
    /// Any of the character types.
    Text(Option<String>),
    /// `real`, as its bit pattern.
    Real(Option<u32>),
    /// `float`, as its bit pattern.
    Double(Option<u64>),
    /// `date`, as the days since 0001-01-01.
    Date(Option<u32>),
    /// `time`.
    Time(Option<SqlServerTime>),
    /// `datetime2`.
    DateTime2(Option<SqlServerDateTime2>),
    /// `datetime`.
    DateTime(Option<SqlServerDateTime>),
    /// `smalldatetime`.
    SmallDateTime(Option<SqlServerSmallDateTime>),
    /// A value of a server type outside the scalar types of this layer, of
    /// which only whether it is NULL is kept.
    Unsupported { null: bool },
}

/// What a `SqlServerValue` is, with text as a sequence of characters.
pub enum SqlServerCell {
    TinyInt(Option<u8>),
    SmallInt(Option<i16>),
    Int(Option<i32>),
    BigInt(Option<i64>),
    Bit(Option<bool>),
    Text(Option<Seq<char>>),
    Real(Option<u32>),
    Double(Option<u64>),
    Date(Option<u32>),
    Time(Option<SqlServerTime>),
    DateTime2(Option<SqlServerDateTime2>),
    DateTime(Option<SqlServerDateTime>),
    SmallDateTime(Option<SqlServerSmallDateTime>),
    Unsupported { null: bool },
}

impl DeepView for SqlServerValue {
    type V = SqlServerCell;

    open spec fn deep_view(&self) -> SqlServerCell {
        match self {
            SqlServerValue::TinyInt(v) => SqlServerCell::TinyInt(*v),
            SqlServerValue::SmallInt(v) => SqlServerCell::SmallInt(*v),
            SqlServerValue::Int(v) => SqlServerCell::Int(*v),
            SqlServerValue::BigInt(v) => SqlServerCell::BigInt(*v),
            SqlServerValue::Bit(v) => SqlServerCell::Bit(*v),
            SqlServerValue::Text(v) => SqlServerCell::Text(
                match v {
                    Some(s) => Some(s@),
                    None => None,
                },
            ),
            SqlServerValue::Real(v) => SqlServerCell::Real(*v),
            SqlServerValue::Double(v) => SqlServerCell::Double(*v),
            SqlServerValue::Date(v) => SqlServerCell::Date(*v),
            SqlServerValue::Time(v) => SqlServerCell::Time(*v),
            SqlServerValue::DateTime2(v) => SqlServerCell::DateTime2(*v),
            SqlServerValue::DateTime(v) => SqlServerCell::DateTime(*v),
            SqlServerValue::SmallDateTime(v) => SqlServerCell::SmallDateTime(*v),
            SqlServerValue::Unsupported { null } => SqlServerCell::Unsupported { null: *null },
        }
    }
}

impl SqlServerCell {
    /// Whether the value is SQL NULL.
    pub open spec fn is_null(self) -> bool {
        match self {
            SqlServerCell::TinyInt(v) => v is None,
            SqlServerCell::SmallInt(v) => v is None,
            SqlServerCell::Int(v) => v is None,
            SqlServerCell::BigInt(v) => v is None,
            SqlServerCell::Bit(v) => v is None,
            SqlServerCell::Text(v) => v is None,
            SqlServerCell::Real(v) => v is None,
            SqlServerCell::Double(v) => v is None,
            SqlServerCell::Date(v) => v is None,
            SqlServerCell::Time(v) => v is None,
            SqlServerCell::DateTime2(v) => v is None,
            SqlServerCell::DateTime(v) => v is None,
            SqlServerCell::SmallDateTime(v) => v is None,
            SqlServerCell::Unsupported { null } => null,
        }
    }

    /// Whether the value is of one of the integer types, `bit` or a
    /// character type.
    pub open spec fn is_basic(self) -> bool {
        match self {
            SqlServerCell::TinyInt(_) => true,
            SqlServerCell::SmallInt(_) => true,
            SqlServerCell::Int(_) => true,
            SqlServerCell::BigInt(_) => true,
            SqlServerCell::Bit(_) => true,
            SqlServerCell::Text(_) => true,
            _ => false,
        }
    }
}

impl SqlServerValue {
    /// Whether the value is SQL NULL.
    pub fn is_null(&self) -> (b: bool)
        ensures
            b == self.deep_view().is_null(),
    {
        match self {
            SqlServerValue::TinyInt(v) => v.is_none(),
            SqlServerValue::SmallInt(v) => v.is_none(),
            SqlServerValue::Int(v) => v.is_none(),
            SqlServerValue::BigInt(v) => v.is_none(),
            SqlServerValue::Bit(v) => v.is_none(),
            SqlServerValue::Text(v) => v.is_none(),
            SqlServerValue::Real(v) => v.is_none(),
            SqlServerValue::Double(v) => v.is_none(),
            SqlServerValue::Date(v) => v.is_none(),
            SqlServerValue::Time(v) => v.is_none(),
            SqlServerValue::DateTime2(v) => v.is_none(),
            SqlServerValue::DateTime(v) => v.is_none(),
            SqlServerValue::SmallDateTime(v) => v.is_none(),
            SqlServerValue::Unsupported { null } => *null,
        }
    }

    /// Whether the value is of one of the integer types, `bit` or a
    /// character type.
    pub fn is_basic(&self) -> (b: bool)
        ensures
            b == self.deep_view().is_basic(),
    {
        match self {
            SqlServerValue::TinyInt(_) => true,
            SqlServerValue::SmallInt(_) => true,
            SqlServerValue::Int(_) => true,
            SqlServerValue::BigInt(_) => true,
            SqlServerValue::Bit(_) => true,
            SqlServerValue::Text(_) => true,
            _ => false,
        }
    }
}

/// How a native value reads as `bool`: `Err` where the driver refuses the
/// conversion, `Ok(None)` for a NULL it accepts.
pub open spec fn bit_of_cell(cell: SqlServerCell) -> Result<Option<bool>, ()> {
    match cell {
        SqlServerCell::Bit(v) => Ok(v),
        _ => Err(()),
    }
}

/// How a native value reads as `i16`.
pub open spec fn smallint_of_cell(cell: SqlServerCell) -> Result<Option<i16>, ()> {
    match cell {
        SqlServerCell::SmallInt(v) => Ok(v),
        SqlServerCell::TinyInt(None) => Ok(None),
        SqlServerCell::Int(None) => Ok(None),
        _ => Err(()),
    }
}

/// How a native value reads as `i32`.
pub open spec fn int_of_cell(cell: SqlServerCell) -> Result<Option<i32>, ()> {
    match cell {
        SqlServerCell::Int(v) => Ok(v),
        SqlServerCell::TinyInt(None) => Ok(None),
        _ => Err(()),
    }
}

/// How a native value reads as `i64`.
pub open spec fn bigint_of_cell(cell: SqlServerCell) -> Result<Option<i64>, ()> {
    match cell {
        SqlServerCell::BigInt(v) => Ok(v),
        SqlServerCell::TinyInt(None) => Ok(None),
        SqlServerCell::Int(None) => Ok(None),
        _ => Err(()),
    }
}

/// How a native value reads as text.
pub open spec fn text_of_cell(cell: SqlServerCell) -> Result<Option<Seq<char>>, ()> {
    match cell {
        SqlServerCell::Text(v) => Ok(v),
        _ => Err(()),
    }
}

/// The view of what a text read returned.
pub open spec fn text_read_view(r: Result<Option<String>, ()>) -> Result<Option<Seq<char>>, ()> {
    match r {
        Ok(Some(s)) => Ok(Some(s@)),
        Ok(None) => Ok(None),
        Err(e) => Err(e),
    }
}

/// `<bool as FromSql>::from_sql` of tiberius, on the `ColumnData` that the
/// value stands for; asked only of integer, `bit` and character values.
/// Claimed: of those only `Bit` reads as `bool`.
#[verifier::external_body]
pub(crate) fn read_bit(cell: &SqlServerValue) -> (r: Result<Option<bool>, ()>)
    requires
        cell.deep_view().is_basic(),
    ensures
        r == bit_of_cell(cell.deep_view()),
{
    let data: ColumnData<'static> = match cell {
        SqlServerValue::TinyInt(v) => ColumnData::U8(*v),
        SqlServerValue::SmallInt(v) => ColumnData::I16(*v),
        SqlServerValue::Int(v) => ColumnData::I32(*v),
        SqlServerValue::BigInt(v) => ColumnData::I64(*v),
        SqlServerValue::Bit(v) => ColumnData::Bit(*v),
        SqlServerValue::Text(v) => ColumnData::String(v.clone().map(Cow::Owned)),
        _ => ColumnData::Binary(None),
    };
    <bool as FromSql>::from_sql(&data).map_err(|_| ())
}

/// `<i16 as FromSql>::from_sql` of tiberius, on the `ColumnData` that the
/// value stands for; asked only of integer, `bit` and character values.
/// Claimed: `I16` reads as `i16`, and so do the NULLs of `U8` and `I32`;
/// nothing else does.
#[verifier::external_body]
pub(crate) fn read_smallint(cell: &SqlServerValue) -> (r: Result<Option<i16>, ()>)
    requires
        cell.deep_view().is_basic(),
    ensures
        r == smallint_of_cell(cell.deep_view()),
{
    let data: ColumnData<'static> = match cell {
        SqlServerValue::TinyInt(v) => ColumnData::U8(*v),
        SqlServerValue::SmallInt(v) => ColumnData::I16(*v),
        SqlServerValue::Int(v) => ColumnData::I32(*v),
        SqlServerValue::BigInt(v) => ColumnData::I64(*v),
        SqlServerValue::Bit(v) => ColumnData::Bit(*v),
        SqlServerValue::Text(v) => ColumnData::String(v.clone().map(Cow::Owned)),
        _ => ColumnData::Binary(None),
    };
    <i16 as FromSql>::from_sql(&data).map_err(|_| ())
}

/// `<i32 as FromSql>::from_sql` of tiberius, on the `ColumnData` that the
/// value stands for; asked only of integer, `bit` and character values.
/// Claimed: `I32` reads as `i32`, and so does the NULL of `U8`; nothing else
/// does.
#[verifier::external_body]
pub(crate) fn read_int(cell: &SqlServerValue) -> (r: Result<Option<i32>, ()>)
    requires
        cell.deep_view().is_basic(),
    ensures
        r == int_of_cell(cell.deep_view()),
{
    let data: ColumnData<'static> = match cell {
        SqlServerValue::TinyInt(v) => ColumnData::U8(*v),
        SqlServerValue::SmallInt(v) => ColumnData::I16(*v),
        SqlServerValue::Int(v) => ColumnData::I32(*v),
        SqlServerValue::BigInt(v) => ColumnData::I64(*v),
        SqlServerValue::Bit(v) => ColumnData::Bit(*v),
        SqlServerValue::Text(v) => ColumnData::String(v.clone().map(Cow::Owned)),
        _ => ColumnData::Binary(None),
    };
    <i32 as FromSql>::from_sql(&data).map_err(|_| ())
}

/// `<i64 as FromSql>::from_sql` of tiberius, on the `ColumnData` that the
/// value stands for; asked only of integer, `bit` and character values.
/// Claimed: `I64` reads as `i64`, and so do the NULLs of `U8` and `I32`;
/// nothing else does.
#[verifier::external_body]
pub(crate) fn read_bigint(cell: &SqlServerValue) -> (r: Result<Option<i64>, ()>)
    requires
        cell.deep_view().is_basic(),
    ensures
        r == bigint_of_cell(cell.deep_view()),
{
    let data: ColumnData<'static> = match cell {
        SqlServerValue::TinyInt(v) => ColumnData::U8(*v),
        SqlServerValue::SmallInt(v) => ColumnData::I16(*v),
        SqlServerValue::Int(v) => ColumnData::I32(*v),
        SqlServerValue::BigInt(v) => ColumnData::I64(*v),
        SqlServerValue::Bit(v) => ColumnData::Bit(*v),
        SqlServerValue::Text(v) => ColumnData::String(v.clone().map(Cow::Owned)),
        _ => ColumnData::Binary(None),
    };
    <i64 as FromSql>::from_sql(&data).map_err(|_| ())
}

/// `<&str as FromSql>::from_sql` of tiberius, on the `ColumnData` that the
/// value stands for, the text copied; asked only of integer, `bit` and
/// character values. Claimed: only `String` reads as text, with the
/// characters it holds.
#[verifier::external_body]
pub(crate) fn read_text(cell: &SqlServerValue) -> (r: Result<Option<String>, ()>)
    requires
        cell.deep_view().is_basic(),
    ensures
        text_read_view(r) == text_of_cell(cell.deep_view()),
{
    let data: ColumnData<'static> = match cell {
        SqlServerValue::TinyInt(v) => ColumnData::U8(*v),
        SqlServerValue::SmallInt(v) => ColumnData::I16(*v),
        SqlServerValue::Int(v) => ColumnData::I32(*v),
        SqlServerValue::BigInt(v) => ColumnData::I64(*v),
        SqlServerValue::Bit(v) => ColumnData::Bit(*v),
        SqlServerValue::Text(v) => ColumnData::String(v.clone().map(Cow::Owned)),
        _ => ColumnData::Binary(None),
    };
    <&str as FromSql>::from_sql(&data).map(|s| s.map(str::to_owned)).map_err(|_| ())
}

/// The nanoseconds of one increment of a native time of the given scale, and
/// 0 for a scale that the server does not have.
pub open spec fn nanos_per_increment(scale: u8) -> int {
    if scale == 0 {
        1_000_000_000
    } else if scale == 1 {
        100_000_000
    } else if scale == 2 {
        10_000_000
    } else if scale == 3 {
        1_000_000
    } else if scale == 4 {
        100_000
    } else if scale == 5 {
        10_000
    } else if scale == 6 {
        1_000
    } else if scale == 7 {
        100
    } else {
        0
    }
}

/// The day number of a native date, if it is a day that a `Date` can be.
pub open spec fn day_of_native(days: u32) -> Option<int> {
    if days + 1 <= LAST_DAY {
        Some(days + 1)
    } else {
        None
    }
}

/// The nanoseconds since midnight of a native time, if its scale is one of
/// the server's and it is a time of day.
pub open spec fn nanos_of_native(time: SqlServerTime) -> Option<int> {
    if time.scale <= 7 && time.increments * nanos_per_increment(time.scale) < NANOS_PER_DAY {
        Some(time.increments * nanos_per_increment(time.scale))
    } else {
        None
    }
}

/// The day number and nanoseconds of a native `datetime2`.
pub open spec fn moment_of_datetime2(value: SqlServerDateTime2) -> Option<(int, int)> {
    match (day_of_native(value.days), nanos_of_native(value.time)) {
        (Some(day), Some(nanos)) => Some((day, nanos)),
        _ => None,
    }
}

/// The day number and nanoseconds of a native `datetime`: a fragment is a
/// three-hundredth of a second, cut to whole nanoseconds.
pub open spec fn moment_of_datetime(value: SqlServerDateTime) -> Option<(int, int)> {
    let day = DAY_OF_1900 + value.days;
    let nanos = value.fragments * 1_000_000_000 / 300;
    if is_day(day) && nanos < NANOS_PER_DAY {
        Some((day, nanos))
    } else {
        None
    }
}

/// The day number and nanoseconds of a native `smalldatetime`.
pub open spec fn moment_of_smalldatetime(value: SqlServerSmallDateTime) -> Option<(int, int)> {
    if value.minutes < 1440 {
        Some((DAY_OF_1900 + value.days, value.minutes * 60_000_000_000))
    } else {
        None
    }
}

/// What a native value reads as when a date is asked for: `None` where it
/// is NULL, no date or out of range.
pub open spec fn date_of_cell(cell: SqlServerCell) -> Option<int> {
    match cell {
        SqlServerCell::Date(Some(days)) => day_of_native(days),
        _ => None,
    }
}

/// What a native value reads as when a time of day is asked for.
pub open spec fn time_of_cell(cell: SqlServerCell) -> Option<int> {
    match cell {
        SqlServerCell::Time(Some(time)) => nanos_of_native(time),
        _ => None,
    }
}

/// What a native value reads as when a date with a time is asked for: any of
/// the three date-and-time types will do.
pub open spec fn timestamp_of_cell(cell: SqlServerCell) -> Option<(int, int)> {
    match cell {
        SqlServerCell::DateTime2(Some(value)) => moment_of_datetime2(value),
        SqlServerCell::DateTime(Some(value)) => moment_of_datetime(value),
        SqlServerCell::SmallDateTime(Some(value)) => moment_of_smalldatetime(value),
        _ => None,
    }
}

/// What a native value reads as when a point in time is asked for: a
/// `datetime2`, taken to be in UTC.
pub open spec fn timestamptz_of_cell(cell: SqlServerCell) -> Option<(int, int)> {
    match cell {
        SqlServerCell::DateTime2(Some(value)) => moment_of_datetime2(value),
        _ => None,
    }
}

/// What a native value reads as when a single-precision number is asked
/// for.
pub open spec fn real_of_cell(cell: SqlServerCell) -> Option<u32> {
    match cell {
        SqlServerCell::Real(Some(bits)) => Some(bits),
        _ => None,
    }
}

/// What a native value reads as when a double-precision number is asked
/// for.
pub open spec fn double_of_cell(cell: SqlServerCell) -> Option<u64> {
    match cell {
        SqlServerCell::Double(Some(bits)) => Some(bits),
        _ => None,
    }
}

/// The native date of a day number.
pub open spec fn native_day(day: int) -> u32 {
    (day - 1) as u32
}

/// The native time of a number of nanoseconds since midnight: increments of
/// a hundred nanoseconds, what is less being cut off.
pub open spec fn native_nanos(nanos: int) -> SqlServerTime {
    SqlServerTime { increments: (nanos / 100) as u64, scale: 7 }
}

/// The native `datetime2` of a day number and nanoseconds since midnight.
pub open spec fn native_moment(moment: (int, int)) -> SqlServerDateTime2 {
    SqlServerDateTime2 { days: native_day(moment.0), time: native_nanos(moment.1) }
}

/// The native date of a date.
pub fn date_to_native(date: &Date) -> (days: u32)
    ensures
        days == native_day(date.deep_view()),
{
    (date.days_from_ce() - 1) as u32
}

/// The native time of a time of day.
pub fn time_to_native(time: &Time) -> (native: SqlServerTime)
    ensures
        native == native_nanos(time.deep_view()),
{
    SqlServerTime { increments: time.nanos_of_day() / 100, scale: 7 }
}

/// The native `datetime2` of a date with a time.
pub fn timestamp_to_native(timestamp: &Timestamp) -> (native: SqlServerDateTime2)
    ensures
        native == native_moment(timestamp.deep_view()),
{
    SqlServerDateTime2 {
        days: date_to_native(&timestamp.date),
        time: time_to_native(&timestamp.time),
    }
}

/// The date of a native date.
pub fn date_from_native(days: u32) -> (r: Option<Date>)
    ensures
        r.deep_view() == day_of_native(days),
{
    if days < LAST_DAY as u32 {
        Date::from_days_from_ce((days + 1) as i32)
    } else {
        None
    }
}

/// The time of day of a native time.
pub fn time_from_native(native: SqlServerTime) -> (r: Option<Time>)
    ensures
        r.deep_view() == nanos_of_native(native),
{
    let factor: u64 = if native.scale == 0 {
        1_000_000_000
    } else if native.scale == 1 {
        100_000_000
    } else if native.scale == 2 {
        10_000_000
    } else if native.scale == 3 {
        1_000_000
    } else if native.scale == 4 {
        100_000
    } else if native.scale == 5 {
        10_000
    } else if native.scale == 6 {
        1_000
    } else if native.scale == 7 {
        100
    } else {
        return None;
    };
    if native.increments >= NANOS_PER_DAY / factor {
        assert(native.increments * factor >= NANOS_PER_DAY) by (nonlinear_arith)
            requires
                native.increments >= NANOS_PER_DAY / factor,
                factor > 0,
                NANOS_PER_DAY % factor == 0,
        ;
        return None;
    }
    assert(native.increments * factor < NANOS_PER_DAY) by (nonlinear_arith)
        requires
            native.increments < NANOS_PER_DAY / factor,
            factor > 0,
            NANOS_PER_DAY % factor == 0,
    ;
    Time::from_nanos(native.increments * factor)
}

/// The date with a time of a native `datetime2`.
pub fn timestamp_from_datetime2(native: SqlServerDateTime2) -> (r: Option<Timestamp>)
    ensures
        r.deep_view() == moment_of_datetime2(native),
{
    match (date_from_native(native.days), time_from_native(native.time)) {
        (Some(date), Some(time)) => Some(Timestamp { date, time }),
        _ => None,
    }
}

/// The date with a time of a native `datetime`.
pub fn timestamp_from_datetime(native: SqlServerDateTime) -> (r: Option<Timestamp>)
    ensures
        r.deep_view() == moment_of_datetime(native),
{
    let day: i64 = DAY_OF_1900 as i64 + native.days as i64;
    let nanos: u64 = native.fragments as u64 * 1_000_000_000 / 300;
    if day < 1 || day > LAST_DAY as i64 {
        return None;
    }
    match (Date::from_days_from_ce(day as i32), Time::from_nanos(nanos)) {
        (Some(date), Some(time)) => Some(Timestamp { date, time }),
        _ => None,
    }
}

/// The date with a time of a native `smalldatetime`.
pub fn timestamp_from_smalldatetime(native: SqlServerSmallDateTime) -> (r: Option<Timestamp>)
    ensures
        r.deep_view() == moment_of_smalldatetime(native),
{
    if native.minutes >= 1440 {
        return None;
    }
    let day: i32 = DAY_OF_1900 + native.days as i32;
    match (
        Date::from_days_from_ce(day),
        Time::from_nanos(native.minutes as u64 * 60_000_000_000),
    ) {
        (Some(date), Some(time)) => Some(Timestamp { date, time }),
        _ => None,
    }
}

} // verus!
