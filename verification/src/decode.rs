//! Reading native values back: what each backend's values read as, type by
//! type, and the round trip of a value through either backend.

use vstd::prelude::*;
use vstd::utf8::{encode_utf8_decode_utf8, encode_utf8_valid_utf8};
use crate::error::ErrorKind;
use crate::postgres::{
    accepts_bool, accepts_int2, accepts_int4, accepts_int8, accepts_text, bool_of_bytes,
    bytes_of_moment, day_of_bytes, double_of_bytes, int2_of_bytes, int4_of_bytes,
    int8_of_bytes, is_text_oid, micros_of_moment, moment_of_bytes, moment_of_micros,
    nanos_of_bytes, read_bool, read_date, read_double, read_int2, read_int4, read_int8,
    read_real, read_time, read_timestamp, real_of_bytes, text_of_bytes, PostgresValue, BOOL_OID,
    DATE_OID, DAY_OF_2000, FLOAT4_OID, FLOAT8_OID, INT2_OID, INT4_OID, INT8_OID,
    TIMESTAMPTZ_OID, TIMESTAMP_OID, TIME_OID,
};
use crate::scalar::{
    is_day, is_moment, is_time, Date, Double, Real, Time, Timestamp, TimestampTz,
};
use crate::sqlserver::{
    bigint_of_cell, bit_of_cell, date_from_native, date_of_cell, double_of_cell, int_of_cell,
    read_bigint, read_bit, read_int, read_smallint, real_of_cell, smallint_of_cell,
    text_of_cell, time_from_native, time_of_cell, timestamp_from_datetime,
    timestamp_from_datetime2, timestamp_from_smalldatetime, timestamp_of_cell,
    timestamptz_of_cell, SqlServerCell, SqlServerValue,
};
use crate::value::{
    postgres_encoding, sqlserver_encoding, Parameter, ParameterValue, QueryParameter,
    ScalarKind,
};
use crate::wire::{
    lemma_be_bytes_len, lemma_be_round_trip, lemma_radix_values, lemma_signed_round_trip,
    signed_be_value,
};

verus! {

/// A Rust type that the value of a column can be read as. Such a type is a
/// parameter too, and what either backend takes for one of its values reads
/// back as what that backend keeps of the value.
pub trait ColumnValue: Sized + DeepView + QueryParameter {
    /// What the bytes of a PostgreSQL value of the type `oid` read as, and
    /// `None` where the type or the bytes are not those of this Rust type.
    spec fn of_postgres(oid: u32, raw: Seq<u8>) -> Option<Self::V>;

    /// Reads the bytes of a PostgreSQL value that is not NULL.
    fn from_postgres(oid: u32, raw: &[u8]) -> (r: Option<Self>)
        ensures
            r.deep_view() == Self::of_postgres(oid, raw@),
    ;

    /// What a SQL Server value reads as, and `None` where it is NULL or not
    /// of this Rust type.
    spec fn of_sqlserver(cell: SqlServerCell) -> Option<Self::V>;

    /// Reads a SQL Server value.
    fn from_sqlserver(cell: &SqlServerValue) -> (r: Option<Self>)
        ensures
            r.deep_view() == Self::of_sqlserver(cell.deep_view()),
    ;

    /// Whether `v` is what a value of this type can be.
    spec fn in_range(v: Self::V) -> bool;

    /// What PostgreSQL keeps of `v`.
    spec fn kept_by_postgres(v: Self::V) -> Self::V;

    /// What SQL Server keeps of `v`.
    spec fn kept_by_sqlserver(v: Self::V) -> Self::V;

    /// What either backend takes for a value is never NULL, and it reads
    /// back as what that backend keeps of the value.
    proof fn lemma_round_trip(v: Self)
        requires
            Self::in_range(v.deep_view()),
        ensures
            postgres_encoding(v.parameter()).1 matches Some(raw) && Self::of_postgres(
                postgres_encoding(v.parameter()).0,
                raw,
            ) == Some(Self::kept_by_postgres(v.deep_view())),
            !sqlserver_encoding(v.parameter()).is_null(),
            Self::of_sqlserver(sqlserver_encoding(v.parameter())) == Some(
                Self::kept_by_sqlserver(v.deep_view()),
            ),
    ;
}

impl ColumnValue for bool {
    open spec fn of_postgres(oid: u32, raw: Seq<u8>) -> Option<bool> {
        if oid == BOOL_OID {
            bool_of_bytes(raw)
        } else {
            None
        }
    }

    fn from_postgres(oid: u32, raw: &[u8]) -> (r: Option<bool>) {
        if accepts_bool(oid) {
            read_bool(raw)
        } else {
            None
        }
    }

    open spec fn of_sqlserver(cell: SqlServerCell) -> Option<bool> {
        match bit_of_cell(cell) {
            Ok(Some(v)) => Some(v),
            _ => None,
        }
    }

    fn from_sqlserver(cell: &SqlServerValue) -> (r: Option<bool>) {
        if !cell.is_basic() {
            return None;
        }
        match read_bit(cell) {
            Ok(Some(v)) => Some(v),
            _ => None,
        }
    }

    open spec fn in_range(v: bool) -> bool {
        true
    }

    open spec fn kept_by_postgres(v: bool) -> bool {
        v
    }

    open spec fn kept_by_sqlserver(v: bool) -> bool {
        v
    }

    proof fn lemma_round_trip(v: bool) {
    }
}

impl ColumnValue for i16 {
    open spec fn of_postgres(oid: u32, raw: Seq<u8>) -> Option<i16> {
        if oid == INT2_OID {
            int2_of_bytes(raw)
        } else {
            None
        }
    }

    fn from_postgres(oid: u32, raw: &[u8]) -> (r: Option<i16>) {
        if accepts_int2(oid) {
            read_int2(raw)
        } else {
            None
        }
    }

    open spec fn of_sqlserver(cell: SqlServerCell) -> Option<i16> {
        match smallint_of_cell(cell) {
            Ok(Some(v)) => Some(v),
            _ => None,
        }
    }

    fn from_sqlserver(cell: &SqlServerValue) -> (r: Option<i16>) {
        if !cell.is_basic() {
            return None;
        }
        match read_smallint(cell) {
            Ok(Some(v)) => Some(v),
            _ => None,
        }
    }

    open spec fn in_range(v: i16) -> bool {
        true
    }

    open spec fn kept_by_postgres(v: i16) -> i16 {
        v
    }

    open spec fn kept_by_sqlserver(v: i16) -> i16 {
        v
    }

    proof fn lemma_round_trip(v: i16) {
        lemma_radix_values();
        lemma_signed_round_trip(v as int, 2);
    }
}

impl ColumnValue for i32 {
    open spec fn of_postgres(oid: u32, raw: Seq<u8>) -> Option<i32> {
        if oid == INT4_OID {
            int4_of_bytes(raw)
        } else {
            None
        }
    }

    fn from_postgres(oid: u32, raw: &[u8]) -> (r: Option<i32>) {
        if accepts_int4(oid) {
            read_int4(raw)
        } else {
            None
        }
    }

    open spec fn of_sqlserver(cell: SqlServerCell) -> Option<i32> {
        match int_of_cell(cell) {
            Ok(Some(v)) => Some(v),
            _ => None,
        }
    }

    fn from_sqlserver(cell: &SqlServerValue) -> (r: Option<i32>) {
        if !cell.is_basic() {
            return None;
        }
        match read_int(cell) {
            Ok(Some(v)) => Some(v),
            _ => None,
        }
    }

    open spec fn in_range(v: i32) -> bool {
        true
    }

    open spec fn kept_by_postgres(v: i32) -> i32 {
        v
    }

    open spec fn kept_by_sqlserver(v: i32) -> i32 {
        v
    }

    proof fn lemma_round_trip(v: i32) {
        lemma_radix_values();
        lemma_signed_round_trip(v as int, 4);
    }
}

impl ColumnValue for i64 {
    open spec fn of_postgres(oid: u32, raw: Seq<u8>) -> Option<i64> {
        if oid == INT8_OID {
            int8_of_bytes(raw)
        } else {
            None
        }
    }

    fn from_postgres(oid: u32, raw: &[u8]) -> (r: Option<i64>) {
        if accepts_int8(oid) {
            read_int8(raw)
        } else {
            None
        }
    }

    open spec fn of_sqlserver(cell: SqlServerCell) -> Option<i64> {
        match bigint_of_cell(cell) {
            Ok(Some(v)) => Some(v),
            _ => None,
        }
    }

    fn from_sqlserver(cell: &SqlServerValue) -> (r: Option<i64>) {
        if !cell.is_basic() {
            return None;
        }
        match read_bigint(cell) {
            Ok(Some(v)) => Some(v),
            _ => None,
        }
    }

    open spec fn in_range(v: i64) -> bool {
        true
    }

    open spec fn kept_by_postgres(v: i64) -> i64 {
        v
    }

    open spec fn kept_by_sqlserver(v: i64) -> i64 {
        v
    }

    proof fn lemma_round_trip(v: i64) {
        lemma_radix_values();
        lemma_signed_round_trip(v as int, 8);
    }
}

impl ColumnValue for String {
    open spec fn of_postgres(oid: u32, raw: Seq<u8>) -> Option<Seq<char>> {
        if is_text_oid(oid) {
            text_of_bytes(raw)
        } else {
            None
        }
    }

    fn from_postgres(oid: u32, raw: &[u8]) -> (r: Option<String>) {
        if accepts_text(oid) {
            crate::postgres::read_text(raw)
        } else {
            None
        }
    }

    open spec fn of_sqlserver(cell: SqlServerCell) -> Option<Seq<char>> {
        match text_of_cell(cell) {
            Ok(Some(v)) => Some(v),
            _ => None,
        }
    }

    fn from_sqlserver(cell: &SqlServerValue) -> (r: Option<String>) {
        if !cell.is_basic() {
            return None;
        }
        match crate::sqlserver::read_text(cell) {
            Ok(Some(v)) => Some(v),
            _ => None,
        }
    }

    open spec fn in_range(v: Seq<char>) -> bool {
        true
    }

    open spec fn kept_by_postgres(v: Seq<char>) -> Seq<char> {
        v
    }

    open spec fn kept_by_sqlserver(v: Seq<char>) -> Seq<char> {
        v
    }

    proof fn lemma_round_trip(v: String) {
        encode_utf8_valid_utf8(v@);
        encode_utf8_decode_utf8(v@);
    }
}

impl ColumnValue for Real {
    open spec fn of_postgres(oid: u32, raw: Seq<u8>) -> Option<u32> {
        if oid == FLOAT4_OID {
            real_of_bytes(raw)
        } else {
            None
        }
    }

    fn from_postgres(oid: u32, raw: &[u8]) -> (r: Option<Real>) {
        if oid == FLOAT4_OID {
            read_real(raw)
        } else {
            None
        }
    }

    open spec fn of_sqlserver(cell: SqlServerCell) -> Option<u32> {
        real_of_cell(cell)
    }

    fn from_sqlserver(cell: &SqlServerValue) -> (r: Option<Real>) {
        match cell {
            SqlServerValue::Real(Some(bits)) => Some(Real { bits: *bits }),
            _ => None,
        }
    }

    open spec fn in_range(v: u32) -> bool {
        true
    }

    open spec fn kept_by_postgres(v: u32) -> u32 {
        v
    }

    open spec fn kept_by_sqlserver(v: u32) -> u32 {
        v
    }

    proof fn lemma_round_trip(v: Real) {
        lemma_radix_values();
        lemma_be_bytes_len(v.bits as nat, 4);
        lemma_be_round_trip(v.bits as nat, 4);
    }
}

impl ColumnValue for Double {
    open spec fn of_postgres(oid: u32, raw: Seq<u8>) -> Option<u64> {
        if oid == FLOAT8_OID {
            double_of_bytes(raw)
        } else {
            None
        }
    }

    fn from_postgres(oid: u32, raw: &[u8]) -> (r: Option<Double>) {
        if oid == FLOAT8_OID {
            read_double(raw)
        } else {
            None
        }
    }

    open spec fn of_sqlserver(cell: SqlServerCell) -> Option<u64> {
        double_of_cell(cell)
    }

    fn from_sqlserver(cell: &SqlServerValue) -> (r: Option<Double>) {
        match cell {
            SqlServerValue::Double(Some(bits)) => Some(Double { bits: *bits }),
            _ => None,
        }
    }

    open spec fn in_range(v: u64) -> bool {
        true
    }

    open spec fn kept_by_postgres(v: u64) -> u64 {
        v
    }

    open spec fn kept_by_sqlserver(v: u64) -> u64 {
        v
    }

    proof fn lemma_round_trip(v: Double) {
        lemma_radix_values();
        lemma_be_bytes_len(v.bits as nat, 8);
        lemma_be_round_trip(v.bits as nat, 8);
    }
}

impl ColumnValue for Date {
    open spec fn of_postgres(oid: u32, raw: Seq<u8>) -> Option<int> {
        if oid == DATE_OID {
            day_of_bytes(raw)
        } else {
            None
        }
    }

    fn from_postgres(oid: u32, raw: &[u8]) -> (r: Option<Date>) {
        if oid == DATE_OID {
            read_date(raw)
        } else {
            None
        }
    }

    open spec fn of_sqlserver(cell: SqlServerCell) -> Option<int> {
        date_of_cell(cell)
    }

    fn from_sqlserver(cell: &SqlServerValue) -> (r: Option<Date>) {
        match cell {
            SqlServerValue::Date(Some(days)) => date_from_native(*days),
            _ => None,
        }
    }

    open spec fn in_range(v: int) -> bool {
        is_day(v)
    }

    open spec fn kept_by_postgres(v: int) -> int {
        v
    }

    open spec fn kept_by_sqlserver(v: int) -> int {
        v
    }

    proof fn lemma_round_trip(v: Date) {
        lemma_radix_values();
        lemma_signed_round_trip(v.deep_view() - DAY_OF_2000, 4);
    }
}

impl ColumnValue for Time {
    open spec fn of_postgres(oid: u32, raw: Seq<u8>) -> Option<int> {
        if oid == TIME_OID {
            nanos_of_bytes(raw)
        } else {
            None
        }
    }

    fn from_postgres(oid: u32, raw: &[u8]) -> (r: Option<Time>) {
        if oid == TIME_OID {
            read_time(raw)
        } else {
            None
        }
    }

    open spec fn of_sqlserver(cell: SqlServerCell) -> Option<int> {
        time_of_cell(cell)
    }

    fn from_sqlserver(cell: &SqlServerValue) -> (r: Option<Time>) {
        match cell {
            SqlServerValue::Time(Some(native)) => time_from_native(*native),
            _ => None,
        }
    }

    open spec fn in_range(v: int) -> bool {
        is_time(v)
    }

    open spec fn kept_by_postgres(v: int) -> int {
        v - v % 1000
    }

    open spec fn kept_by_sqlserver(v: int) -> int {
        v - v % 100
    }

    proof fn lemma_round_trip(v: Time) {
        lemma_radix_values();
        lemma_signed_round_trip(v.deep_view() / 1000, 8);
    }
}

impl ColumnValue for Timestamp {
    open spec fn of_postgres(oid: u32, raw: Seq<u8>) -> Option<(int, int)> {
        if oid == TIMESTAMP_OID {
            moment_of_bytes(raw)
        } else {
            None
        }
    }

    fn from_postgres(oid: u32, raw: &[u8]) -> (r: Option<Timestamp>) {
        if oid == TIMESTAMP_OID {
            read_timestamp(raw)
        } else {
            None
        }
    }

    open spec fn of_sqlserver(cell: SqlServerCell) -> Option<(int, int)> {
        timestamp_of_cell(cell)
    }

    fn from_sqlserver(cell: &SqlServerValue) -> (r: Option<Timestamp>) {
        match cell {
            SqlServerValue::DateTime2(Some(native)) => timestamp_from_datetime2(*native),
            SqlServerValue::DateTime(Some(native)) => timestamp_from_datetime(*native),
            SqlServerValue::SmallDateTime(Some(native)) => timestamp_from_smalldatetime(*native),
            _ => None,
        }
    }

    open spec fn in_range(v: (int, int)) -> bool {
        is_moment(v)
    }

    open spec fn kept_by_postgres(v: (int, int)) -> (int, int) {
        moment_of_micros(micros_of_moment(v))
    }

    open spec fn kept_by_sqlserver(v: (int, int)) -> (int, int) {
        (v.0, v.1 - v.1 % 100)
    }

    proof fn lemma_round_trip(v: Timestamp) {
        lemma_radix_values();
        lemma_moment_micros(v.deep_view());
    }
}

impl ColumnValue for TimestampTz {
    open spec fn of_postgres(oid: u32, raw: Seq<u8>) -> Option<(int, int)> {
        if oid == TIMESTAMPTZ_OID {
            moment_of_bytes(raw)
        } else {
            None
        }
    }

    fn from_postgres(oid: u32, raw: &[u8]) -> (r: Option<TimestampTz>) {
        if oid == TIMESTAMPTZ_OID {
            match read_timestamp(raw) {
                Some(utc) => Some(TimestampTz { utc }),
                None => None,
            }
        } else {
            None
        }
    }

    open spec fn of_sqlserver(cell: SqlServerCell) -> Option<(int, int)> {
        timestamptz_of_cell(cell)
    }

    fn from_sqlserver(cell: &SqlServerValue) -> (r: Option<TimestampTz>) {
        match cell {
            SqlServerValue::DateTime2(Some(native)) => match timestamp_from_datetime2(*native) {
                Some(utc) => Some(TimestampTz { utc }),
                None => None,
            },
            _ => None,
        }
    }

    open spec fn in_range(v: (int, int)) -> bool {
        is_moment(v)
    }

    open spec fn kept_by_postgres(v: (int, int)) -> (int, int) {
        moment_of_micros(micros_of_moment(v))
    }

    open spec fn kept_by_sqlserver(v: (int, int)) -> (int, int) {
        (v.0, v.1 - v.1 % 100)
    }

    proof fn lemma_round_trip(v: TimestampTz) {
        lemma_radix_values();
        lemma_moment_micros(v.deep_view());
    }
}

/// The microseconds of a date with a time since 2000-01-01 fit in eight
/// bytes, come back from them, and are those of a day in range.
pub proof fn lemma_moment_micros(moment: (int, int))
    requires
        is_moment(moment),
    ensures
        bytes_of_moment(moment).len() == 8,
        signed_be_value(bytes_of_moment(moment)) == micros_of_moment(moment),
        moment_of_bytes(bytes_of_moment(moment)) == Some(
            moment_of_micros(micros_of_moment(moment)),
        ),
        is_moment(moment_of_micros(micros_of_moment(moment))),
        moment.1 % 1000 == 0 ==> moment_of_micros(micros_of_moment(moment)) == moment,
{
    lemma_radix_values();
    lemma_signed_round_trip(micros_of_moment(moment), 8);
}

/// What a native PostgreSQL value reads as when the Rust type `V` is asked
/// for: NULL reads as `None` whatever its type, bytes read as the value they
/// encode, and bytes or a type that are not those of `V` are a mismatch.
pub open spec fn postgres_read<V: ColumnValue>(cell: (u32, Option<Seq<u8>>)) -> Result<
    Option<V::V>,
    ErrorKind,
> {
    match cell.1 {
        None => Ok(None),
        Some(raw) => match V::of_postgres(cell.0, raw) {
            Some(v) => Ok(Some(v)),
            None => Err(ErrorKind::TypeMismatch),
        },
    }
}

/// What a native SQL Server value reads as when the Rust type `V` is asked
/// for: NULL reads as `None` whatever column it comes from, and a value of
/// another type is a mismatch.
pub open spec fn sqlserver_read<V: ColumnValue>(cell: SqlServerCell) -> Result<
    Option<V::V>,
    ErrorKind,
> {
    if cell.is_null() {
        Ok(None)
    } else {
        match V::of_sqlserver(cell) {
            Some(v) => Ok(Some(v)),
            None => Err(ErrorKind::TypeMismatch),
        }
    }
}

/// The view of what an optional read returned.
pub open spec fn optional_view<V: DeepView>(r: Result<Option<V>, ErrorKind>) -> Result<
    Option<V::V>,
    ErrorKind,
> {
    match r {
        Ok(Some(v)) => Ok(Some(v.deep_view())),
        Ok(None) => Ok(None),
        Err(e) => Err(e),
    }
}

/// The view of what a read returned.
pub open spec fn read_view<V: DeepView>(r: Result<V, ErrorKind>) -> Result<V::V, ErrorKind> {
    match r {
        Ok(v) => Ok(v.deep_view()),
        Err(e) => Err(e),
    }
}

/// A read that must find a value: NULL is a mismatch.
pub open spec fn required<A>(r: Result<Option<A>, ErrorKind>) -> Result<A, ErrorKind> {
    match r {
        Ok(Some(v)) => Ok(v),
        Ok(None) => Err(ErrorKind::TypeMismatch),
        Err(e) => Err(e),
    }
}

/// Reads a native PostgreSQL value as an optional `V`.
pub fn read_postgres<V: ColumnValue>(cell: &PostgresValue) -> (r: Result<Option<V>, ErrorKind>)
    ensures
        optional_view(r) == postgres_read::<V>(cell.deep_view()),
{
    match &cell.raw {
        None => Ok(None),
        Some(bytes) => match V::from_postgres(cell.type_oid, bytes.as_slice()) {
            Some(v) => Ok(Some(v)),
            None => Err(ErrorKind::TypeMismatch),
        },
    }
}

/// Reads a native SQL Server value as an optional `V`.
pub fn read_sqlserver<V: ColumnValue>(cell: &SqlServerValue) -> (r: Result<Option<V>, ErrorKind>)
    ensures
        optional_view(r) == sqlserver_read::<V>(cell.deep_view()),
{
    if cell.is_null() {
        Ok(None)
    } else {
        match V::from_sqlserver(cell) {
            Some(v) => Ok(Some(v)),
            None => Err(ErrorKind::TypeMismatch),
        }
    }
}

/// Turns an optional read into one that must find a value.
pub fn require_value<V: DeepView>(r: Result<Option<V>, ErrorKind>) -> (out: Result<V, ErrorKind>)
    ensures
        read_view(out) == required(optional_view(r)),
{
    match r {
        Ok(Some(v)) => Ok(v),
        Ok(None) => Err(ErrorKind::TypeMismatch),
        Err(e) => Err(e),
    }
}

/// The parameter that an optional read of a scalar type found.
pub open spec fn found<A>(
    r: Result<Option<A>, ErrorKind>,
    wrap: spec_fn(Option<A>) -> Parameter,
) -> Result<Parameter, ErrorKind> {
    match r {
        Ok(v) => Ok(wrap(v)),
        Err(e) => Err(e),
    }
}

/// What a native PostgreSQL value reads as when a value of the scalar type
/// `kind` is asked for: NULL is the absent optional, bytes are the value
/// they encode, and bytes or a type that are not of that kind are a
/// mismatch.
pub open spec fn postgres_decoding(kind: ScalarKind, cell: (u32, Option<Seq<u8>>)) -> Result<
    Parameter,
    ErrorKind,
> {
    match kind {
        ScalarKind::Bool => found(
            postgres_read::<bool>(cell),
            |v: Option<bool>| Parameter::Bool(v),
        ),
        ScalarKind::SmallInt => found(
            postgres_read::<i16>(cell),
            |v: Option<i16>| Parameter::SmallInt(v),
        ),
        ScalarKind::Int => found(
            postgres_read::<i32>(cell),
            |v: Option<i32>| Parameter::Int(v),
        ),
        ScalarKind::BigInt => found(
            postgres_read::<i64>(cell),
            |v: Option<i64>| Parameter::BigInt(v),
        ),
        ScalarKind::Text => found(
            postgres_read::<String>(cell),
            |v: Option<Seq<char>>| Parameter::Text(v),
        ),
        ScalarKind::Real => found(
            postgres_read::<Real>(cell),
            |v: Option<u32>| Parameter::Real(v),
        ),
        ScalarKind::Double => found(
            postgres_read::<Double>(cell),
            |v: Option<u64>| Parameter::Double(v),
        ),
        ScalarKind::Date => found(
            postgres_read::<Date>(cell),
            |v: Option<int>| Parameter::Date(v),
        ),
        ScalarKind::Time => found(
            postgres_read::<Time>(cell),
            |v: Option<int>| Parameter::Time(v),
        ),
        ScalarKind::Timestamp => found(
            postgres_read::<Timestamp>(cell),
            |v: Option<(int, int)>| Parameter::Timestamp(v),
        ),
        ScalarKind::TimestampTz => found(
            postgres_read::<TimestampTz>(cell),
            |v: Option<(int, int)>| Parameter::TimestampTz(v),
        ),
    }
}

/// What a native SQL Server value reads as when a value of the scalar type
/// `kind` is asked for: NULL is the absent optional, whatever column it
/// comes from, and a value of another type is a mismatch.
pub open spec fn sqlserver_decoding(kind: ScalarKind, cell: SqlServerCell) -> Result<
    Parameter,
    ErrorKind,
> {
    match kind {
        ScalarKind::Bool => found(
            sqlserver_read::<bool>(cell),
            |v: Option<bool>| Parameter::Bool(v),
        ),
        ScalarKind::SmallInt => found(
            sqlserver_read::<i16>(cell),
            |v: Option<i16>| Parameter::SmallInt(v),
        ),
        ScalarKind::Int => found(
            sqlserver_read::<i32>(cell),
            |v: Option<i32>| Parameter::Int(v),
        ),
        ScalarKind::BigInt => found(
            sqlserver_read::<i64>(cell),
            |v: Option<i64>| Parameter::BigInt(v),
        ),
        ScalarKind::Text => found(
            sqlserver_read::<String>(cell),
            |v: Option<Seq<char>>| Parameter::Text(v),
        ),
        ScalarKind::Real => found(
            sqlserver_read::<Real>(cell),
            |v: Option<u32>| Parameter::Real(v),
        ),
        ScalarKind::Double => found(
            sqlserver_read::<Double>(cell),
            |v: Option<u64>| Parameter::Double(v),
        ),
        ScalarKind::Date => found(
            sqlserver_read::<Date>(cell),
            |v: Option<int>| Parameter::Date(v),
        ),
        ScalarKind::Time => found(
            sqlserver_read::<Time>(cell),
            |v: Option<int>| Parameter::Time(v),
        ),
        ScalarKind::Timestamp => found(
            sqlserver_read::<Timestamp>(cell),
            |v: Option<(int, int)>| Parameter::Timestamp(v),
        ),
        ScalarKind::TimestampTz => found(
            sqlserver_read::<TimestampTz>(cell),
            |v: Option<(int, int)>| Parameter::TimestampTz(v),
        ),
    }
}

/// The view of what a decoding returned.
pub open spec fn decoded_view(r: Result<ParameterValue, ErrorKind>) -> Result<
    Parameter,
    ErrorKind,
> {
    match r {
        Ok(v) => Ok(v.deep_view()),
        Err(e) => Err(e),
    }
}

impl ParameterValue {
    /// The scalar type of the parameter.
    pub fn kind(&self) -> (k: ScalarKind)
        ensures
            k == self.deep_view().kind(),
    {
        match self {
            ParameterValue::Bool(_) => ScalarKind::Bool,
            ParameterValue::SmallInt(_) => ScalarKind::SmallInt,
            ParameterValue::Int(_) => ScalarKind::Int,
            ParameterValue::BigInt(_) => ScalarKind::BigInt,
            ParameterValue::Text(_) => ScalarKind::Text,
            ParameterValue::Real(_) => ScalarKind::Real,
            ParameterValue::Double(_) => ScalarKind::Double,
            ParameterValue::Date(_) => ScalarKind::Date,
            ParameterValue::Time(_) => ScalarKind::Time,
            ParameterValue::Timestamp(_) => ScalarKind::Timestamp,
            ParameterValue::TimestampTz(_) => ScalarKind::TimestampTz,
        }
    }

    /// Whether the parameter is an absent optional.
    pub fn is_null(&self) -> (b: bool)
        ensures
            b == self.deep_view().is_null(),
    {
        match self {
            ParameterValue::Bool(v) => v.is_none(),
            ParameterValue::SmallInt(v) => v.is_none(),
            ParameterValue::Int(v) => v.is_none(),
            ParameterValue::BigInt(v) => v.is_none(),
            ParameterValue::Text(v) => v.is_none(),
            ParameterValue::Real(v) => v.is_none(),
            ParameterValue::Double(v) => v.is_none(),
            ParameterValue::Date(v) => v.is_none(),
            ParameterValue::Time(v) => v.is_none(),
            ParameterValue::Timestamp(v) => v.is_none(),
            ParameterValue::TimestampTz(v) => v.is_none(),
        }
    }

    /// The absent optional of a scalar type.
    pub fn null(kind: ScalarKind) -> (v: ParameterValue)
        ensures
            v.deep_view() == Parameter::null(kind),
    {
        match kind {
            ScalarKind::Bool => ParameterValue::Bool(None),
            ScalarKind::SmallInt => ParameterValue::SmallInt(None),
            ScalarKind::Int => ParameterValue::Int(None),
            ScalarKind::BigInt => ParameterValue::BigInt(None),
            ScalarKind::Text => ParameterValue::Text(None),
            ScalarKind::Real => ParameterValue::Real(None),
            ScalarKind::Double => ParameterValue::Double(None),
            ScalarKind::Date => ParameterValue::Date(None),
            ScalarKind::Time => ParameterValue::Time(None),
            ScalarKind::Timestamp => ParameterValue::Timestamp(None),
            ScalarKind::TimestampTz => ParameterValue::TimestampTz(None),
        }
    }

    /// Reads a native PostgreSQL value as a value of the scalar type `kind`.
    pub fn from_postgres(kind: ScalarKind, cell: &PostgresValue) -> (r: Result<
        ParameterValue,
        ErrorKind,
    >)
        ensures
            decoded_view(r) == postgres_decoding(kind, cell.deep_view()),
    {
        match kind {
            ScalarKind::Bool => match read_postgres::<bool>(cell) {
                Ok(v) => Ok(ParameterValue::Bool(v)),
                Err(e) => Err(e),
            },
            ScalarKind::SmallInt => match read_postgres::<i16>(cell) {
                Ok(v) => Ok(ParameterValue::SmallInt(v)),
                Err(e) => Err(e),
            },
            ScalarKind::Int => match read_postgres::<i32>(cell) {
                Ok(v) => Ok(ParameterValue::Int(v)),
                Err(e) => Err(e),
            },
            ScalarKind::BigInt => match read_postgres::<i64>(cell) {
                Ok(v) => Ok(ParameterValue::BigInt(v)),
                Err(e) => Err(e),
            },
            ScalarKind::Text => match read_postgres::<String>(cell) {
                Ok(v) => Ok(ParameterValue::Text(v)),
                Err(e) => Err(e),
            },
            ScalarKind::Real => match read_postgres::<Real>(cell) {
                Ok(v) => Ok(ParameterValue::Real(v)),
                Err(e) => Err(e),
            },
            ScalarKind::Double => match read_postgres::<Double>(cell) {
                Ok(v) => Ok(ParameterValue::Double(v)),
                Err(e) => Err(e),
            },
            ScalarKind::Date => match read_postgres::<Date>(cell) {
                Ok(v) => Ok(ParameterValue::Date(v)),
                Err(e) => Err(e),
            },
            ScalarKind::Time => match read_postgres::<Time>(cell) {
                Ok(v) => Ok(ParameterValue::Time(v)),
                Err(e) => Err(e),
            },
            ScalarKind::Timestamp => match read_postgres::<Timestamp>(cell) {
                Ok(v) => Ok(ParameterValue::Timestamp(v)),
                Err(e) => Err(e),
            },
            ScalarKind::TimestampTz => match read_postgres::<TimestampTz>(cell) {
                Ok(v) => Ok(ParameterValue::TimestampTz(v)),
                Err(e) => Err(e),
            },
        }
    }

    /// Reads a native SQL Server value as a value of the scalar type `kind`.
    pub fn from_sqlserver(kind: ScalarKind, cell: &SqlServerValue) -> (r: Result<
        ParameterValue,
        ErrorKind,
    >)
        ensures
            decoded_view(r) == sqlserver_decoding(kind, cell.deep_view()),
    {
        match kind {
            ScalarKind::Bool => match read_sqlserver::<bool>(cell) {
                Ok(v) => Ok(ParameterValue::Bool(v)),
                Err(e) => Err(e),
            },
            ScalarKind::SmallInt => match read_sqlserver::<i16>(cell) {
                Ok(v) => Ok(ParameterValue::SmallInt(v)),
                Err(e) => Err(e),
            },
            ScalarKind::Int => match read_sqlserver::<i32>(cell) {
                Ok(v) => Ok(ParameterValue::Int(v)),
                Err(e) => Err(e),
            },
            ScalarKind::BigInt => match read_sqlserver::<i64>(cell) {
                Ok(v) => Ok(ParameterValue::BigInt(v)),
                Err(e) => Err(e),
            },
            ScalarKind::Text => match read_sqlserver::<String>(cell) {
                Ok(v) => Ok(ParameterValue::Text(v)),
                Err(e) => Err(e),
            },
            ScalarKind::Real => match read_sqlserver::<Real>(cell) {
                Ok(v) => Ok(ParameterValue::Real(v)),
                Err(e) => Err(e),
            },
            ScalarKind::Double => match read_sqlserver::<Double>(cell) {
                Ok(v) => Ok(ParameterValue::Double(v)),
                Err(e) => Err(e),
            },
            ScalarKind::Date => match read_sqlserver::<Date>(cell) {
                Ok(v) => Ok(ParameterValue::Date(v)),
                Err(e) => Err(e),
            },
            ScalarKind::Time => match read_sqlserver::<Time>(cell) {
                Ok(v) => Ok(ParameterValue::Time(v)),
                Err(e) => Err(e),
            },
            ScalarKind::Timestamp => match read_sqlserver::<Timestamp>(cell) {
                Ok(v) => Ok(ParameterValue::Timestamp(v)),
                Err(e) => Err(e),
            },
            ScalarKind::TimestampTz => match read_sqlserver::<TimestampTz>(cell) {
                Ok(v) => Ok(ParameterValue::TimestampTz(v)),
                Err(e) => Err(e),
            },
        }
    }
}

/// Round trip through PostgreSQL: the native value that a parameter is
/// encoded to, read as a value of the parameter's own scalar type, is what
/// PostgreSQL keeps of the parameter. That is the parameter itself, an
/// absent optional included, unless it is a time with a fraction of a
/// microsecond.
pub proof fn lemma_postgres_round_trip(p: Parameter)
    requires
        p.in_range(),
    ensures
        postgres_decoding(p.kind(), postgres_encoding(p)) == Ok::<Parameter, ErrorKind>(
            p.kept_by_postgres(),
        ),
        p.kind() != ScalarKind::Time && p.kind() != ScalarKind::Timestamp && p.kind()
            != ScalarKind::TimestampTz ==> p.kept_by_postgres() == p,
{
    lemma_radix_values();
    match p {
        Parameter::SmallInt(Some(v)) => {
            lemma_signed_round_trip(v as int, 2);
        },
        Parameter::Int(Some(v)) => {
            lemma_signed_round_trip(v as int, 4);
        },
        Parameter::BigInt(Some(v)) => {
            lemma_signed_round_trip(v as int, 8);
        },
        Parameter::Text(Some(v)) => {
            encode_utf8_valid_utf8(v);
            encode_utf8_decode_utf8(v);
        },
        Parameter::Real(Some(v)) => {
            lemma_be_bytes_len(v as nat, 4);
            lemma_be_round_trip(v as nat, 4);
        },
        Parameter::Double(Some(v)) => {
            lemma_be_bytes_len(v as nat, 8);
            lemma_be_round_trip(v as nat, 8);
        },
        Parameter::Date(Some(v)) => {
            lemma_signed_round_trip(v - DAY_OF_2000, 4);
        },
        Parameter::Time(Some(v)) => {
            lemma_signed_round_trip(v / 1000, 8);
        },
        Parameter::Timestamp(Some(v)) => {
            lemma_moment_micros(v);
        },
        Parameter::TimestampTz(Some(v)) => {
            lemma_moment_micros(v);
        },
        _ => {},
    }
}

/// Round trip through SQL Server: the native value that a parameter is
/// encoded to, read as a value of the parameter's own scalar type, is what
/// SQL Server keeps of the parameter. That is the parameter itself, an
/// absent optional included, unless it is a time with a fraction of a
/// hundred nanoseconds.
pub proof fn lemma_sqlserver_round_trip(p: Parameter)
    requires
        p.in_range(),
    ensures
        sqlserver_decoding(p.kind(), sqlserver_encoding(p)) == Ok::<Parameter, ErrorKind>(
            p.kept_by_sqlserver(),
        ),
        p.kind() != ScalarKind::Time && p.kind() != ScalarKind::Timestamp && p.kind()
            != ScalarKind::TimestampTz ==> p.kept_by_sqlserver() == p,
{
}

/// A time of day in whole microseconds comes back from either backend as it
/// was.
pub proof fn lemma_whole_micros_are_kept(p: Parameter)
    requires
        p.in_range(),
        match p {
            Parameter::Time(Some(v)) => v % 1000 == 0,
            Parameter::Timestamp(Some(v)) => v.1 % 1000 == 0,
            Parameter::TimestampTz(Some(v)) => v.1 % 1000 == 0,
            _ => true,
        },
    ensures
        p.kept_by_postgres() == p,
        p.kept_by_sqlserver() == p,
{
    match p {
        Parameter::Timestamp(Some(v)) => {
            lemma_moment_micros(v);
        },
        Parameter::TimestampTz(Some(v)) => {
            lemma_moment_micros(v);
        },
        _ => {},
    }
}

/// An absent optional is NULL on either backend, a present value is not, and
/// NULL reads as `None` for every Rust type.
pub proof fn lemma_null_encoding<V: ColumnValue>(p: Parameter)
    ensures
        postgres_encoding(p).1 is None <==> p.is_null(),
        sqlserver_encoding(p).is_null() <==> p.is_null(),
        p.is_null() ==> postgres_read::<V>(postgres_encoding(p)) == Ok::<
            Option<V::V>,
            ErrorKind,
        >(None),
        p.is_null() ==> sqlserver_read::<V>(sqlserver_encoding(p)) == Ok::<
            Option<V::V>,
            ErrorKind,
        >(None),
{
}

} // verus!
