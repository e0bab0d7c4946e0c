//! The PostgreSQL side of the value codec: a native value is a type OID with
//! the bytes of the binary format, or with no bytes for SQL NULL.
//!
//! Booleans, integers and text are written and read by `postgres-types`; the
//! functions that call it are trusted to do what their contracts say. Dates,
//! times and floating-point numbers are integers on the wire, so they are
//! turned into those integers here and go through the same functions.

use bytes::BytesMut;
use tokio_postgres::types::{FromSql, ToSql, Type};
use vstd::prelude::*;
use vstd::utf8::{decode_utf8, encode_utf8, valid_utf8};
use crate::scalar::{is_day, Date, Double, Real, Time, Timestamp, LAST_DAY};
use crate::wire::{
    be_bytes, be_value, lemma_be_value_bound, lemma_radix_values, signed_be_bytes,
    signed_be_value,
};

verus! {

/// OID of `BOOL`.
pub const BOOL_OID: u32 = 16;

/// OID of `NAME`.
pub const NAME_OID: u32 = 19;

/// OID of `INT8`.
pub const INT8_OID: u32 = 20;

/// OID of `INT2`.
pub const INT2_OID: u32 = 21;

/// OID of `INT4`.
pub const INT4_OID: u32 = 23;

/// OID of `TEXT`.
pub const TEXT_OID: u32 = 25;

/// OID of `FLOAT4`.
pub const FLOAT4_OID: u32 = 700;

/// OID of `FLOAT8`.
pub const FLOAT8_OID: u32 = 701;

/// OID of the pseudo-type `UNKNOWN`.
pub const UNKNOWN_OID: u32 = 705;

/// OID of `BPCHAR`.
pub const BPCHAR_OID: u32 = 1042;

/// OID of `VARCHAR`.
pub const VARCHAR_OID: u32 = 1043;

/// OID of `DATE`.
pub const DATE_OID: u32 = 1082;

/// OID of `TIME`.
pub const TIME_OID: u32 = 1083;

/// OID of `TIMESTAMP`.
pub const TIMESTAMP_OID: u32 = 1114;

/// OID of `TIMESTAMPTZ`.
pub const TIMESTAMPTZ_OID: u32 = 1184;

/// The day number of 2000-01-01, from which PostgreSQL counts.
pub const DAY_OF_2000: i32 = 730_120;

/// The microseconds of a day.
pub const MICROS_PER_DAY: i64 = 86_400_000_000;

/// A value in PostgreSQL's native form: the OID of its type and its
/// binary-format bytes, `None` standing for SQL NULL.
#[derive(Clone, Debug, PartialEq, Eq)]
pub struct PostgresValue {
    pub type_oid: u32,
    pub raw: Option<Vec<u8>>,
}

impl DeepView for PostgresValue {
    type V = (u32, Option<Seq<u8>>);

    open spec fn deep_view(&self) -> (u32, Option<Seq<u8>>) {
        (
            self.type_oid,
            match self.raw {
                Some(bytes) => Some(bytes@),
                None => None,
            },
        )
    }
}

/// The OIDs of the types whose values are text.
pub open spec fn is_text_oid(oid: u32) -> bool {
    oid == TEXT_OID || oid == VARCHAR_OID || oid == BPCHAR_OID || oid == NAME_OID || oid
        == UNKNOWN_OID
}

/// What one byte of `BOOL` holds: any non-zero byte is true.
pub open spec fn bool_of_bytes(raw: Seq<u8>) -> Option<bool> {
    if raw.len() == 1 {
        Some(raw[0] != 0)
    } else {
        None
    }
}

/// The byte of a `BOOL`.
pub open spec fn bytes_of_bool(v: bool) -> Seq<u8> {
    seq![if v { 1u8 } else { 0u8 }]
}

/// What the bytes of an `INT2` hold.
pub open spec fn int2_of_bytes(raw: Seq<u8>) -> Option<i16> {
    if raw.len() == 2 {
        Some(signed_be_value(raw) as i16)
    } else {
        None
    }
}

/// What the bytes of an `INT4` hold.
pub open spec fn int4_of_bytes(raw: Seq<u8>) -> Option<i32> {
    if raw.len() == 4 {
        Some(signed_be_value(raw) as i32)
    } else {
        None
    }
}

/// What the bytes of an `INT8` hold.
pub open spec fn int8_of_bytes(raw: Seq<u8>) -> Option<i64> {
    if raw.len() == 8 {
        Some(signed_be_value(raw) as i64)
    } else {
        None
    }
}

/// What the bytes of a text value hold: the characters they encode in UTF-8.
pub open spec fn text_of_bytes(raw: Seq<u8>) -> Option<Seq<char>> {
    if valid_utf8(raw) {
        Some(decode_utf8(raw))
    } else {
        None
    }
}

/// `<bool as FromSql>::accepts` of postgres-types, asked of the built-in type
/// that `Type::from_oid` finds for `oid`. Claimed: only `BOOL` is accepted,
/// and an OID that names no built-in type is accepted by nothing.
#[verifier::external_body]
pub(crate) fn accepts_bool(oid: u32) -> (r: bool)
    ensures
        r == (oid == BOOL_OID),
{
    match Type::from_oid(oid) {
        Some(ty) => <bool as FromSql>::accepts(&ty),
        None => false,
    }
}

/// `<i16 as FromSql>::accepts` of postgres-types, on the built-in type with
/// this OID. Claimed: only `INT2` is accepted.
#[verifier::external_body]
pub(crate) fn accepts_int2(oid: u32) -> (r: bool)
    ensures
        r == (oid == INT2_OID),
{
    match Type::from_oid(oid) {
        Some(ty) => <i16 as FromSql>::accepts(&ty),
        None => false,
    }
}

/// `<i32 as FromSql>::accepts` of postgres-types, on the built-in type with
/// this OID. Claimed: only `INT4` is accepted.
#[verifier::external_body]
pub(crate) fn accepts_int4(oid: u32) -> (r: bool)
    ensures
        r == (oid == INT4_OID),
{
    match Type::from_oid(oid) {
        Some(ty) => <i32 as FromSql>::accepts(&ty),
        None => false,
    }
}

/// `<i64 as FromSql>::accepts` of postgres-types, on the built-in type with
/// this OID. Claimed: only `INT8` is accepted.
#[verifier::external_body]
pub(crate) fn accepts_int8(oid: u32) -> (r: bool)
    ensures
        r == (oid == INT8_OID),
{
    match Type::from_oid(oid) {
        Some(ty) => <i64 as FromSql>::accepts(&ty),
        None => false,
    }
}

/// `<String as FromSql>::accepts` of postgres-types, on the built-in type
/// with this OID. Claimed: of the built-in types exactly `TEXT`, `VARCHAR`,
/// `BPCHAR`, `NAME` and `UNKNOWN` are accepted. (The extension types that the
/// crate also accepts by name have no built-in OID.)
#[verifier::external_body]
pub(crate) fn accepts_text(oid: u32) -> (r: bool)
    ensures
        r == is_text_oid(oid),
{
    match Type::from_oid(oid) {
        Some(ty) => <String as FromSql>::accepts(&ty),
        None => false,
    }
}

/// `<bool as FromSql>::from_sql` of postgres-types. Claimed: it succeeds on
/// exactly one byte, and the value is whether that byte is non-zero.
#[verifier::external_body]
pub(crate) fn read_bool(raw: &[u8]) -> (r: Option<bool>)
    ensures
        r == bool_of_bytes(raw@),
{
    <bool as FromSql>::from_sql(&Type::BOOL, raw).ok()
}

/// `<i16 as FromSql>::from_sql` of postgres-types. Claimed: it succeeds on
/// exactly two bytes and reads them as a big-endian two's-complement number.
#[verifier::external_body]
pub(crate) fn read_int2(raw: &[u8]) -> (r: Option<i16>)
    ensures
        r == int2_of_bytes(raw@),
{
    <i16 as FromSql>::from_sql(&Type::INT2, raw).ok()
}

/// `<i32 as FromSql>::from_sql` of postgres-types. Claimed: it succeeds on
/// exactly four bytes and reads them as a big-endian two's-complement number.
#[verifier::external_body]
pub(crate) fn read_int4(raw: &[u8]) -> (r: Option<i32>)
    ensures
        r == int4_of_bytes(raw@),
{
    <i32 as FromSql>::from_sql(&Type::INT4, raw).ok()
}

/// `<i64 as FromSql>::from_sql` of postgres-types. Claimed: it succeeds on
/// exactly eight bytes and reads them as a big-endian two's-complement
/// number.
#[verifier::external_body]
pub(crate) fn read_int8(raw: &[u8]) -> (r: Option<i64>)
    ensures
        r == int8_of_bytes(raw@),
{
    <i64 as FromSql>::from_sql(&Type::INT8, raw).ok()
}

/// `<String as FromSql>::from_sql` of postgres-types, for the type `TEXT`.
/// Claimed: it succeeds exactly on well-formed UTF-8 and yields the
/// characters that the bytes encode.
#[verifier::external_body]
pub(crate) fn read_text(raw: &[u8]) -> (r: Option<String>)
    ensures
        r is Some <==> valid_utf8(raw@),
        r matches Some(s) ==> s@ == decode_utf8(raw@),
{
    <String as FromSql>::from_sql(&Type::TEXT, raw).ok()
}

/// `<bool as ToSql>::to_sql` of postgres-types. Claimed: it writes one byte,
/// 1 for true and 0 for false, and cannot fail.
#[verifier::external_body]
pub(crate) fn write_bool(v: bool) -> (out: Vec<u8>)
    ensures
        out@ == bytes_of_bool(v),
{
    let mut buf = BytesMut::new();
    let _ = v.to_sql(&Type::BOOL, &mut buf);
    buf.to_vec()
}

/// `<i16 as ToSql>::to_sql` of postgres-types. Claimed: it writes the two
/// big-endian two's-complement bytes of the number and cannot fail.
#[verifier::external_body]
pub(crate) fn write_int2(v: i16) -> (out: Vec<u8>)
    ensures
        out@ == signed_be_bytes(v as int, 2),
{
    let mut buf = BytesMut::new();
    let _ = v.to_sql(&Type::INT2, &mut buf);
    buf.to_vec()
}

/// `<i32 as ToSql>::to_sql` of postgres-types. Claimed: it writes the four
/// big-endian two's-complement bytes of the number and cannot fail.
#[verifier::external_body]
pub(crate) fn write_int4(v: i32) -> (out: Vec<u8>)
    ensures
        out@ == signed_be_bytes(v as int, 4),
{
    let mut buf = BytesMut::new();
    let _ = v.to_sql(&Type::INT4, &mut buf);
    buf.to_vec()
}

/// `<i64 as ToSql>::to_sql` of postgres-types. Claimed: it writes the eight
/// big-endian two's-complement bytes of the number and cannot fail.
#[verifier::external_body]
pub(crate) fn write_int8(v: i64) -> (out: Vec<u8>)
    ensures
        out@ == signed_be_bytes(v as int, 8),
{
    let mut buf = BytesMut::new();
    let _ = v.to_sql(&Type::INT8, &mut buf);
    buf.to_vec()
}

/// `<&str as ToSql>::to_sql` of postgres-types, for the type `TEXT`. Claimed:
/// it writes the UTF-8 bytes of the text and cannot fail.
#[verifier::external_body]
pub(crate) fn write_text(v: &str) -> (out: Vec<u8>)
    ensures
        out@ == encode_utf8(v@),
{
    let mut buf = BytesMut::new();
    let _ = v.to_sql(&Type::TEXT, &mut buf);
    buf.to_vec()
}

/// The bytes of a `DATE`: the days since 2000-01-01.
pub open spec fn bytes_of_day(day: int) -> Seq<u8> {
    signed_be_bytes(day - DAY_OF_2000, 4)
}

/// The day number that the bytes of a `DATE` hold, if it is a day that a
/// `Date` can be.
pub open spec fn day_of_bytes(raw: Seq<u8>) -> Option<int> {
    match int4_of_bytes(raw) {
        Some(days) => if is_day(days + DAY_OF_2000) {
            Some(days + DAY_OF_2000)
        } else {
            None
        },
        None => None,
    }
}

/// The bytes of a `TIME`: the microseconds since midnight, what is less
/// than a microsecond being cut off.
pub open spec fn bytes_of_nanos(nanos: int) -> Seq<u8> {
    signed_be_bytes(nanos / 1000, 8)
}

/// The nanoseconds since midnight that the bytes of a `TIME` hold, if they
/// are a time of day.
pub open spec fn nanos_of_bytes(raw: Seq<u8>) -> Option<int> {
    match int8_of_bytes(raw) {
        Some(micros) => if 0 <= micros < MICROS_PER_DAY {
            Some(micros * 1000)
        } else {
            None
        },
        None => None,
    }
}

/// The microseconds from the midnight that 2000-01-01 began with to a date
/// with a time. A fraction of a microsecond is cut off toward that midnight:
/// downward from 2000 on, upward before.
pub open spec fn micros_of_moment(moment: (int, int)) -> int {
    (moment.0 - DAY_OF_2000) * MICROS_PER_DAY + moment.1 / 1000 + if moment.0 < DAY_OF_2000
        && moment.1 % 1000 != 0 {
        1int
    } else {
        0int
    }
}

/// The date with a time that is `micros` microseconds from the midnight
/// that 2000-01-01 began with.
pub open spec fn moment_of_micros(micros: int) -> (int, int) {
    let since = micros + (DAY_OF_2000 - 1) * MICROS_PER_DAY;
    (since / (MICROS_PER_DAY as int) + 1, (since % (MICROS_PER_DAY as int)) * 1000)
}

/// The bytes of a `TIMESTAMP`: the microseconds since the midnight that
/// 2000-01-01 began with.
pub open spec fn bytes_of_moment(moment: (int, int)) -> Seq<u8> {
    signed_be_bytes(micros_of_moment(moment), 8)
}

/// The day number and the nanoseconds since midnight that the bytes of a
/// `TIMESTAMP` hold, if the day is one that a `Date` can be.
pub open spec fn moment_of_bytes(raw: Seq<u8>) -> Option<(int, int)> {
    match int8_of_bytes(raw) {
        Some(micros) => {
            let since = micros + (DAY_OF_2000 - 1) * MICROS_PER_DAY;
            if 0 <= since < LAST_DAY * MICROS_PER_DAY {
                Some(moment_of_micros(micros as int))
            } else {
                None
            }
        },
        None => None,
    }
}

/// The bit pattern that the bytes of a `FLOAT4` hold.
pub open spec fn real_of_bytes(raw: Seq<u8>) -> Option<u32> {
    if raw.len() == 4 {
        Some(be_value(raw) as u32)
    } else {
        None
    }
}

/// The bit pattern that the bytes of a `FLOAT8` hold.
pub open spec fn double_of_bytes(raw: Seq<u8>) -> Option<u64> {
    if raw.len() == 8 {
        Some(be_value(raw) as u64)
    } else {
        None
    }
}

/// Writes a date as a `DATE`.
pub fn write_date(date: &Date) -> (out: Vec<u8>)
    ensures
        out@ == bytes_of_day(date.deep_view()),
{
    write_int4(date.days_from_ce() - DAY_OF_2000)
}

/// Reads the bytes of a `DATE`.
pub fn read_date(raw: &[u8]) -> (r: Option<Date>)
    ensures
        r.deep_view() == day_of_bytes(raw@),
{
    match read_int4(raw) {
        Some(days) => {
            if days >= 1 - DAY_OF_2000 && days <= LAST_DAY - DAY_OF_2000 {
                Date::from_days_from_ce(days + DAY_OF_2000)
            } else {
                None
            }
        },
        None => None,
    }
}

/// The microseconds since midnight of a time of day.
fn micros_of(time: &Time) -> (micros: i64)
    ensures
        micros == time.deep_view() / 1000,
        0 <= micros < MICROS_PER_DAY,
{
    (time.nanos_of_day() / 1000) as i64
}

/// Writes a time of day as a `TIME`.
pub fn write_time(time: &Time) -> (out: Vec<u8>)
    ensures
        out@ == bytes_of_nanos(time.deep_view()),
{
    write_int8(micros_of(time))
}

/// Reads the bytes of a `TIME`.
pub fn read_time(raw: &[u8]) -> (r: Option<Time>)
    ensures
        r.deep_view() == nanos_of_bytes(raw@),
{
    match read_int8(raw) {
        Some(micros) => {
            if 0 <= micros && micros < MICROS_PER_DAY {
                Time::from_nanos(micros as u64 * 1000)
            } else {
                None
            }
        },
        None => None,
    }
}

/// Writes a date with a time as a `TIMESTAMP`.
pub fn write_timestamp(timestamp: &Timestamp) -> (out: Vec<u8>)
    ensures
        out@ == bytes_of_moment(timestamp.deep_view()),
{
    let days: i64 = (timestamp.date.days_from_ce() - DAY_OF_2000) as i64;
    assert(-730_119 <= days <= 2_921_939);
    let toward_2000: i64 = if days < 0 && timestamp.time.nanosecond() % 1000 != 0 {
        1
    } else {
        0
    };
    write_int8(days * MICROS_PER_DAY + micros_of(&timestamp.time) + toward_2000)
}

/// Reads the bytes of a `TIMESTAMP`.
pub fn read_timestamp(raw: &[u8]) -> (r: Option<Timestamp>)
    ensures
        r.deep_view() == moment_of_bytes(raw@),
{
    match read_int8(raw) {
        Some(micros) => {
            let first: i64 = (DAY_OF_2000 as i64 - 1) * MICROS_PER_DAY;
            let span: i64 = LAST_DAY as i64 * MICROS_PER_DAY;
            if micros < -first || micros >= span - first {
                return None;
            }
            let since: u64 = (micros + first) as u64;
            let day: i32 = (since / 86_400_000_000) as i32 + 1;
            let rest: u64 = since % 86_400_000_000;
            match (Date::from_days_from_ce(day), Time::from_nanos(rest * 1000)) {
                (Some(date), Some(time)) => Some(Timestamp { date, time }),
                _ => None,
            }
        },
        None => None,
    }
}

/// Writes a single-precision number as a `FLOAT4`: the four bytes of its bit
/// pattern, the most significant first.
pub fn write_real(value: Real) -> (out: Vec<u8>)
    ensures
        out@ == be_bytes(value.bits as nat, 4),
{
    proof {
        lemma_radix_values();
    }
    let signed: i32 = if value.bits < 0x8000_0000 {
        value.bits as i32
    } else {
        (value.bits - 0x8000_0000) as i32 + i32::MIN
    };
    write_int4(signed)
}

/// Reads the bytes of a `FLOAT4`.
pub fn read_real(raw: &[u8]) -> (r: Option<Real>)
    ensures
        r.deep_view() == real_of_bytes(raw@),
{
    proof {
        lemma_radix_values();
        lemma_be_value_bound(raw@);
    }
    match read_int4(raw) {
        Some(signed) => {
            let bits: u32 = if signed >= 0 {
                signed as u32
            } else {
                (signed - i32::MIN) as u32 + 0x8000_0000
            };
            Some(Real { bits })
        },
        None => None,
    }
}

/// Writes a double-precision number as a `FLOAT8`: the eight bytes of its
/// bit pattern, the most significant first.
pub fn write_double(value: Double) -> (out: Vec<u8>)
    ensures
        out@ == be_bytes(value.bits as nat, 8),
{
    proof {
        lemma_radix_values();
    }
    let signed: i64 = if value.bits < 0x8000_0000_0000_0000 {
        value.bits as i64
    } else {
        (value.bits - 0x8000_0000_0000_0000) as i64 + i64::MIN
    };
    write_int8(signed)
}

/// Reads the bytes of a `FLOAT8`.
pub fn read_double(raw: &[u8]) -> (r: Option<Double>)
    ensures
        r.deep_view() == double_of_bytes(raw@),
{
    proof {
        lemma_radix_values();
        lemma_be_value_bound(raw@);
    }
    match read_int8(raw) {
        Some(signed) => {
            let bits: u64 = if signed >= 0 {
                signed as u64
            } else {
                (signed - i64::MIN) as u64 + 0x8000_0000_0000_0000
            };
            Some(Double { bits })
        },
        None => None,
    }
}

} // verus!
