//! The value codec: application-level scalars and what each backend takes
//! for them.

use vstd::prelude::*;
use vstd::utf8::encode_utf8;
use crate::postgres::{
    bytes_of_bool, bytes_of_day, bytes_of_moment, bytes_of_nanos, micros_of_moment,
    moment_of_micros, write_bool, write_date, write_double, write_int2, write_int4, write_int8,
    write_real, write_text, write_time, write_timestamp, PostgresValue, BOOL_OID, DATE_OID,
    FLOAT4_OID, FLOAT8_OID, INT2_OID, INT4_OID, INT8_OID, TEXT_OID, TIMESTAMPTZ_OID,
    TIMESTAMP_OID, TIME_OID,
};
use crate::scalar::{
    is_day, is_moment, is_time, Date, Double, Real, Time, Timestamp, TimestampTz,
};
use crate::sqlserver::{
    date_to_native, native_day, native_moment, native_nanos, time_to_native,
    timestamp_to_native, SqlServerCell, SqlServerValue,
};
use crate::wire::{be_bytes, signed_be_bytes};

verus! {

/// The scalar types that parameters and columns can have.
#[derive(Clone, Copy, Debug, PartialEq, Eq, Structural)]
pub enum ScalarKind {
    Bool,
    SmallInt,
    Int,
    BigInt,
    Text,
    Real,
    Double,
    Date,
    Time,
    Timestamp,
    TimestampTz,
}

/// A query parameter with its type erased: a scalar of one of the supported
/// types, or the absence (`None`) of one.
#[derive(Clone, Debug, PartialEq, Eq)]
pub enum ParameterValue {
    Bool(Option<bool>),
    SmallInt(Option<i16>),
    Int(Option<i32>),
    BigInt(Option<i64>),
    Text(Option<String>),
    Real(Option<Real>),
    Double(Option<Double>),
    Date(Option<Date>),
    Time(Option<Time>),
    Timestamp(Option<Timestamp>),
    TimestampTz(Option<TimestampTz>),
}

/// What a `ParameterValue` is: text is a sequence of characters, a
/// floating-point number its bit pattern, a date the number of its day, a
/// time of day the nanoseconds since midnight, and a date with a time the
/// two together.
pub enum Parameter {
    Bool(Option<bool>),
    SmallInt(Option<i16>),
    Int(Option<i32>),
    BigInt(Option<i64>),
    Text(Option<Seq<char>>),
    Real(Option<u32>),
    Double(Option<u64>),
    Date(Option<int>),
    Time(Option<int>),
    Timestamp(Option<(int, int)>),
    TimestampTz(Option<(int, int)>),
}

impl DeepView for ParameterValue {
    type V = Parameter;

    open spec fn deep_view(&self) -> Parameter {
        match self {
            ParameterValue::Bool(v) => Parameter::Bool(v.deep_view()),
            ParameterValue::SmallInt(v) => Parameter::SmallInt(v.deep_view()),
            ParameterValue::Int(v) => Parameter::Int(v.deep_view()),
            ParameterValue::BigInt(v) => Parameter::BigInt(v.deep_view()),
            ParameterValue::Text(v) => Parameter::Text(v.deep_view()),
            ParameterValue::Real(v) => Parameter::Real(v.deep_view()),
            ParameterValue::Double(v) => Parameter::Double(v.deep_view()),
            ParameterValue::Date(v) => Parameter::Date(v.deep_view()),
            ParameterValue::Time(v) => Parameter::Time(v.deep_view()),
            ParameterValue::Timestamp(v) => Parameter::Timestamp(v.deep_view()),
            ParameterValue::TimestampTz(v) => Parameter::TimestampTz(v.deep_view()),
        }
    }
}

impl Parameter {
    /// The scalar type of the parameter.
    pub open spec fn kind(self) -> ScalarKind {
        match self {
            Parameter::Bool(_) => ScalarKind::Bool,
            Parameter::SmallInt(_) => ScalarKind::SmallInt,
            Parameter::Int(_) => ScalarKind::Int,
            Parameter::BigInt(_) => ScalarKind::BigInt,
            Parameter::Text(_) => ScalarKind::Text,
            Parameter::Real(_) => ScalarKind::Real,
            Parameter::Double(_) => ScalarKind::Double,
            Parameter::Date(_) => ScalarKind::Date,
            Parameter::Time(_) => ScalarKind::Time,
            Parameter::Timestamp(_) => ScalarKind::Timestamp,
            Parameter::TimestampTz(_) => ScalarKind::TimestampTz,
        }
    }

    /// Whether the parameter is an absent optional.
    pub open spec fn is_null(self) -> bool {
        match self {
            Parameter::Bool(v) => v is None,
            Parameter::SmallInt(v) => v is None,
            Parameter::Int(v) => v is None,
            Parameter::BigInt(v) => v is None,
            Parameter::Text(v) => v is None,
            Parameter::Real(v) => v is None,
            Parameter::Double(v) => v is None,
            Parameter::Date(v) => v is None,
            Parameter::Time(v) => v is None,
            Parameter::Timestamp(v) => v is None,
            Parameter::TimestampTz(v) => v is None,
        }
    }

    /// The absent optional of a scalar type.
    pub open spec fn null(kind: ScalarKind) -> Parameter {
        match kind {
            ScalarKind::Bool => Parameter::Bool(None),
            ScalarKind::SmallInt => Parameter::SmallInt(None),
            ScalarKind::Int => Parameter::Int(None),
            ScalarKind::BigInt => Parameter::BigInt(None),
            ScalarKind::Text => Parameter::Text(None),
            ScalarKind::Real => Parameter::Real(None),
            ScalarKind::Double => Parameter::Double(None),
            ScalarKind::Date => Parameter::Date(None),
            ScalarKind::Time => Parameter::Time(None),
            ScalarKind::Timestamp => Parameter::Timestamp(None),
            ScalarKind::TimestampTz => Parameter::TimestampTz(None),
        }
    }

    /// Whether the parameter is one that a `ParameterValue` can be: a date is
    /// a day between 0001-01-01 and 9999-12-31, and a time is a time of day.
    pub open spec fn in_range(self) -> bool {
        match self {
            Parameter::Date(Some(v)) => is_day(v),
            Parameter::Time(Some(v)) => is_time(v),
            Parameter::Timestamp(Some(v)) => is_moment(v),
            Parameter::TimestampTz(Some(v)) => is_moment(v),
            _ => true,
        }
    }

    /// What PostgreSQL keeps of the parameter: all of it, but of a time only
    /// the whole microseconds. A fraction of a microsecond is cut off from a
    /// time of day, and from a date with a time it is cut off toward
    /// 2000-01-01.
    pub open spec fn kept_by_postgres(self) -> Parameter {
        match self {
            Parameter::Time(Some(v)) => Parameter::Time(Some(v - v % 1000)),
            Parameter::Timestamp(Some(v)) => Parameter::Timestamp(Some(moment_of_micros(micros_of_moment(v)))),
            Parameter::TimestampTz(Some(v)) => Parameter::TimestampTz(Some(moment_of_micros(micros_of_moment(v)))),
            _ => self,
        }
    }

    /// What SQL Server keeps of the parameter: all of it, but of a time of
    /// day only the whole hundreds of nanoseconds.
    pub open spec fn kept_by_sqlserver(self) -> Parameter {
        match self {
            Parameter::Time(Some(v)) => Parameter::Time(Some(v - v % 100)),
            Parameter::Timestamp(Some(v)) => Parameter::Timestamp(Some((v.0, v.1 - v.1 % 100))),
            Parameter::TimestampTz(Some(v)) => Parameter::TimestampTz(Some((v.0, v.1 - v.1 % 100))),
            _ => self,
        }
    }
}

/// The native PostgreSQL value of a parameter: the OID of the matching type
/// with the bytes of the binary format, and no bytes for an absent optional.
pub open spec fn postgres_encoding(p: Parameter) -> (u32, Option<Seq<u8>>) {
    match p {
        Parameter::Bool(Some(v)) => (BOOL_OID, Some(bytes_of_bool(v))),
        Parameter::Bool(None) => (BOOL_OID, None),
        Parameter::SmallInt(Some(v)) => (INT2_OID, Some(signed_be_bytes(v as int, 2))),
        Parameter::SmallInt(None) => (INT2_OID, None),
        Parameter::Int(Some(v)) => (INT4_OID, Some(signed_be_bytes(v as int, 4))),
        Parameter::Int(None) => (INT4_OID, None),
        Parameter::BigInt(Some(v)) => (INT8_OID, Some(signed_be_bytes(v as int, 8))),
        Parameter::BigInt(None) => (INT8_OID, None),
        Parameter::Text(Some(v)) => (TEXT_OID, Some(encode_utf8(v))),
        Parameter::Text(None) => (TEXT_OID, None),
        Parameter::Real(Some(v)) => (FLOAT4_OID, Some(be_bytes(v as nat, 4))),
        Parameter::Real(None) => (FLOAT4_OID, None),
        Parameter::Double(Some(v)) => (FLOAT8_OID, Some(be_bytes(v as nat, 8))),
        Parameter::Double(None) => (FLOAT8_OID, None),
        Parameter::Date(Some(v)) => (DATE_OID, Some(bytes_of_day(v))),
        Parameter::Date(None) => (DATE_OID, None),
        Parameter::Time(Some(v)) => (TIME_OID, Some(bytes_of_nanos(v))),
        Parameter::Time(None) => (TIME_OID, None),
        Parameter::Timestamp(Some(v)) => (TIMESTAMP_OID, Some(bytes_of_moment(v))),
        Parameter::Timestamp(None) => (TIMESTAMP_OID, None),
        Parameter::TimestampTz(Some(v)) => (TIMESTAMPTZ_OID, Some(bytes_of_moment(v))),
        Parameter::TimestampTz(None) => (TIMESTAMPTZ_OID, None),
    }
}

/// The native SQL Server value of a parameter: the variant of the matching
/// server type, holding the value or NULL.
pub open spec fn sqlserver_encoding(p: Parameter) -> SqlServerCell {
    match p {
        Parameter::Bool(v) => SqlServerCell::Bit(v),
        Parameter::SmallInt(v) => SqlServerCell::SmallInt(v),
        Parameter::Int(v) => SqlServerCell::Int(v),
        Parameter::BigInt(v) => SqlServerCell::BigInt(v),
        Parameter::Text(v) => SqlServerCell::Text(v),
        Parameter::Real(v) => SqlServerCell::Real(v),
        Parameter::Double(v) => SqlServerCell::Double(v),
        Parameter::Date(Some(v)) => SqlServerCell::Date(Some(native_day(v))),
        Parameter::Date(None) => SqlServerCell::Date(None),
        Parameter::Time(Some(v)) => SqlServerCell::Time(Some(native_nanos(v))),
        Parameter::Time(None) => SqlServerCell::Time(None),
        Parameter::Timestamp(Some(v)) => SqlServerCell::DateTime2(Some(native_moment(v))),
        Parameter::Timestamp(None) => SqlServerCell::DateTime2(None),
        Parameter::TimestampTz(Some(v)) => SqlServerCell::DateTime2(Some(native_moment(v))),
        Parameter::TimestampTz(None) => SqlServerCell::DateTime2(None),
    }
}

/// A value that can be bound to a placeholder of a statement, on either
/// backend.
pub trait QueryParameter {
    /// The parameter that the value stands for.
    spec fn parameter(&self) -> Parameter;

    /// The value with its type erased.
    fn to_value(&self) -> (v: ParameterValue)
        ensures
            v.deep_view() == self.parameter(),
    ;

    /// The value as PostgreSQL takes it.
    fn as_postgres_param(&self) -> (p: PostgresValue)
        ensures
            p.deep_view() == postgres_encoding(self.parameter()),
    ;

    /// The value as SQL Server takes it.
    fn as_sqlserver_param(&self) -> (c: SqlServerValue)
        ensures
            c.deep_view() == sqlserver_encoding(self.parameter()),
    ;
}

impl QueryParameter for ParameterValue {
    open spec fn parameter(&self) -> Parameter {
        self.deep_view()
    }

    fn to_value(&self) -> (v: ParameterValue) {
        match self {
            ParameterValue::Bool(v) => ParameterValue::Bool(*v),
            ParameterValue::SmallInt(v) => ParameterValue::SmallInt(*v),
            ParameterValue::Int(v) => ParameterValue::Int(*v),
            ParameterValue::BigInt(v) => ParameterValue::BigInt(*v),
            ParameterValue::Text(v) => ParameterValue::Text(v.clone()),
            ParameterValue::Real(v) => ParameterValue::Real(*v),
            ParameterValue::Double(v) => ParameterValue::Double(*v),
            ParameterValue::Date(v) => ParameterValue::Date(*v),
            ParameterValue::Time(v) => ParameterValue::Time(*v),
            ParameterValue::Timestamp(v) => ParameterValue::Timestamp(*v),
            ParameterValue::TimestampTz(v) => ParameterValue::TimestampTz(*v),
        }
    }

    fn as_postgres_param(&self) -> (p: PostgresValue) {
        match self {
            ParameterValue::Bool(v) => v.as_postgres_param(),
            ParameterValue::SmallInt(v) => v.as_postgres_param(),
            ParameterValue::Int(v) => v.as_postgres_param(),
            ParameterValue::BigInt(v) => v.as_postgres_param(),
            ParameterValue::Text(v) => v.as_postgres_param(),
            ParameterValue::Real(v) => v.as_postgres_param(),
            ParameterValue::Double(v) => v.as_postgres_param(),
            ParameterValue::Date(v) => v.as_postgres_param(),
            ParameterValue::Time(v) => v.as_postgres_param(),
            ParameterValue::Timestamp(v) => v.as_postgres_param(),
            ParameterValue::TimestampTz(v) => v.as_postgres_param(),
        }
    }

    fn as_sqlserver_param(&self) -> (c: SqlServerValue) {
        match self {
            ParameterValue::Bool(v) => v.as_sqlserver_param(),
            ParameterValue::SmallInt(v) => v.as_sqlserver_param(),
            ParameterValue::Int(v) => v.as_sqlserver_param(),
            ParameterValue::BigInt(v) => v.as_sqlserver_param(),
            ParameterValue::Text(v) => v.as_sqlserver_param(),
            ParameterValue::Real(v) => v.as_sqlserver_param(),
            ParameterValue::Double(v) => v.as_sqlserver_param(),
            ParameterValue::Date(v) => v.as_sqlserver_param(),
            ParameterValue::Time(v) => v.as_sqlserver_param(),
            ParameterValue::Timestamp(v) => v.as_sqlserver_param(),
            ParameterValue::TimestampTz(v) => v.as_sqlserver_param(),
        }
    }
}

impl QueryParameter for bool {
    open spec fn parameter(&self) -> Parameter {
        Parameter::Bool(Some(*self))
    }

    fn to_value(&self) -> (v: ParameterValue) {
        ParameterValue::Bool(Some(*self))
    }

    fn as_postgres_param(&self) -> (p: PostgresValue) {
        PostgresValue { type_oid: BOOL_OID, raw: Some(write_bool(*self)) }
    }

    fn as_sqlserver_param(&self) -> (c: SqlServerValue) {
        SqlServerValue::Bit(Some(*self))
    }
}

impl QueryParameter for Option<bool> {
    open spec fn parameter(&self) -> Parameter {
        Parameter::Bool(self.deep_view())
    }

    fn to_value(&self) -> (v: ParameterValue) {
        ParameterValue::Bool(*self)
    }

    fn as_postgres_param(&self) -> (p: PostgresValue) {
        match self {
            Some(v) => PostgresValue { type_oid: BOOL_OID, raw: Some(write_bool(*v)) },
            None => PostgresValue { type_oid: BOOL_OID, raw: None },
        }
    }

    fn as_sqlserver_param(&self) -> (c: SqlServerValue) {
        match self {
            Some(v) => SqlServerValue::Bit(Some(*v)),
            None => SqlServerValue::Bit(None),
        }
    }
}

impl QueryParameter for i16 {
    open spec fn parameter(&self) -> Parameter {
        Parameter::SmallInt(Some(*self))
    }

    fn to_value(&self) -> (v: ParameterValue) {
        ParameterValue::SmallInt(Some(*self))
    }

    fn as_postgres_param(&self) -> (p: PostgresValue) {
        PostgresValue { type_oid: INT2_OID, raw: Some(write_int2(*self)) }
    }

    fn as_sqlserver_param(&self) -> (c: SqlServerValue) {
        SqlServerValue::SmallInt(Some(*self))
    }
}

impl QueryParameter for Option<i16> {
    open spec fn parameter(&self) -> Parameter {
        Parameter::SmallInt(self.deep_view())
    }

    fn to_value(&self) -> (v: ParameterValue) {
        ParameterValue::SmallInt(*self)
    }

    fn as_postgres_param(&self) -> (p: PostgresValue) {
        match self {
            Some(v) => PostgresValue { type_oid: INT2_OID, raw: Some(write_int2(*v)) },
            None => PostgresValue { type_oid: INT2_OID, raw: None },
        }
    }

    fn as_sqlserver_param(&self) -> (c: SqlServerValue) {
        match self {
            Some(v) => SqlServerValue::SmallInt(Some(*v)),
            None => SqlServerValue::SmallInt(None),
        }
    }
}

impl QueryParameter for i32 {
    open spec fn parameter(&self) -> Parameter {
        Parameter::Int(Some(*self))
    }

    fn to_value(&self) -> (v: ParameterValue) {
        ParameterValue::Int(Some(*self))
    }

    fn as_postgres_param(&self) -> (p: PostgresValue) {
        PostgresValue { type_oid: INT4_OID, raw: Some(write_int4(*self)) }
    }

    fn as_sqlserver_param(&self) -> (c: SqlServerValue) {
        SqlServerValue::Int(Some(*self))
    }
}

impl QueryParameter for Option<i32> {
    open spec fn parameter(&self) -> Parameter {
        Parameter::Int(self.deep_view())
    }

    fn to_value(&self) -> (v: ParameterValue) {
        ParameterValue::Int(*self)
    }

    fn as_postgres_param(&self) -> (p: PostgresValue) {
        match self {
            Some(v) => PostgresValue { type_oid: INT4_OID, raw: Some(write_int4(*v)) },
            None => PostgresValue { type_oid: INT4_OID, raw: None },
        }
    }

    fn as_sqlserver_param(&self) -> (c: SqlServerValue) {
        match self {
            Some(v) => SqlServerValue::Int(Some(*v)),
            None => SqlServerValue::Int(None),
        }
    }
}

impl QueryParameter for i64 {
    open spec fn parameter(&self) -> Parameter {
        Parameter::BigInt(Some(*self))
    }

    fn to_value(&self) -> (v: ParameterValue) {
        ParameterValue::BigInt(Some(*self))
    }

    fn as_postgres_param(&self) -> (p: PostgresValue) {
        PostgresValue { type_oid: INT8_OID, raw: Some(write_int8(*self)) }
    }

    fn as_sqlserver_param(&self) -> (c: SqlServerValue) {
        SqlServerValue::BigInt(Some(*self))
    }
}

impl QueryParameter for Option<i64> {
    open spec fn parameter(&self) -> Parameter {
        Parameter::BigInt(self.deep_view())
    }

    fn to_value(&self) -> (v: ParameterValue) {
        ParameterValue::BigInt(*self)
    }

    fn as_postgres_param(&self) -> (p: PostgresValue) {
        match self {
            Some(v) => PostgresValue { type_oid: INT8_OID, raw: Some(write_int8(*v)) },
            None => PostgresValue { type_oid: INT8_OID, raw: None },
        }
    }

    fn as_sqlserver_param(&self) -> (c: SqlServerValue) {
        match self {
            Some(v) => SqlServerValue::BigInt(Some(*v)),
            None => SqlServerValue::BigInt(None),
        }
    }
}

impl QueryParameter for String {
    open spec fn parameter(&self) -> Parameter {
        Parameter::Text(Some(self@))
    }

    fn to_value(&self) -> (v: ParameterValue) {
        ParameterValue::Text(Some(self.clone()))
    }

    fn as_postgres_param(&self) -> (p: PostgresValue) {
        PostgresValue { type_oid: TEXT_OID, raw: Some(write_text(self.as_str())) }
    }

    fn as_sqlserver_param(&self) -> (c: SqlServerValue) {
        SqlServerValue::Text(Some(self.clone()))
    }
}

impl QueryParameter for Option<String> {
    open spec fn parameter(&self) -> Parameter {
        Parameter::Text(self.deep_view())
    }

    fn to_value(&self) -> (v: ParameterValue) {
        ParameterValue::Text(self.clone())
    }

    fn as_postgres_param(&self) -> (p: PostgresValue) {
        match self {
            Some(v) => PostgresValue { type_oid: TEXT_OID, raw: Some(write_text(v.as_str())) },
            None => PostgresValue { type_oid: TEXT_OID, raw: None },
        }
    }

    fn as_sqlserver_param(&self) -> (c: SqlServerValue) {
        SqlServerValue::Text(self.clone())
    }
}

impl<'a> QueryParameter for &'a str {
    open spec fn parameter(&self) -> Parameter {
        Parameter::Text(Some(self@))
    }

    fn to_value(&self) -> (v: ParameterValue) {
        ParameterValue::Text(Some((*self).to_owned()))
    }

    fn as_postgres_param(&self) -> (p: PostgresValue) {
        PostgresValue { type_oid: TEXT_OID, raw: Some(write_text(*self)) }
    }

    fn as_sqlserver_param(&self) -> (c: SqlServerValue) {
        SqlServerValue::Text(Some((*self).to_owned()))
    }
}

impl<'a> QueryParameter for Option<&'a str> {
    open spec fn parameter(&self) -> Parameter {
        Parameter::Text(
            match self {
                Some(s) => Some(s@),
                None => None,
            },
        )
    }

    fn to_value(&self) -> (v: ParameterValue) {
        match *self {
            Some(s) => ParameterValue::Text(Some(s.to_owned())),
            None => ParameterValue::Text(None),
        }
    }

    fn as_postgres_param(&self) -> (p: PostgresValue) {
        match *self {
            Some(s) => PostgresValue { type_oid: TEXT_OID, raw: Some(write_text(s)) },
            None => PostgresValue { type_oid: TEXT_OID, raw: None },
        }
    }

    fn as_sqlserver_param(&self) -> (c: SqlServerValue) {
        match *self {
            Some(s) => SqlServerValue::Text(Some(s.to_owned())),
            None => SqlServerValue::Text(None),
        }
    }
}

impl QueryParameter for Real {
    open spec fn parameter(&self) -> Parameter {
        Parameter::Real(Some(self.deep_view()))
    }

    fn to_value(&self) -> (v: ParameterValue) {
        ParameterValue::Real(Some(*self))
    }

    fn as_postgres_param(&self) -> (p: PostgresValue) {
        PostgresValue { type_oid: FLOAT4_OID, raw: Some(write_real(*self)) }
    }

    fn as_sqlserver_param(&self) -> (c: SqlServerValue) {
        SqlServerValue::Real(Some(self.bits))
    }
}

impl QueryParameter for Option<Real> {
    open spec fn parameter(&self) -> Parameter {
        Parameter::Real(self.deep_view())
    }

    fn to_value(&self) -> (v: ParameterValue) {
        ParameterValue::Real(*self)
    }

    fn as_postgres_param(&self) -> (p: PostgresValue) {
        match self {
            Some(v) => PostgresValue { type_oid: FLOAT4_OID, raw: Some(write_real(*v)) },
            None => PostgresValue { type_oid: FLOAT4_OID, raw: None },
        }
    }

    fn as_sqlserver_param(&self) -> (c: SqlServerValue) {
        match self {
            Some(v) => SqlServerValue::Real(Some(v.bits)),
            None => SqlServerValue::Real(None),
        }
    }
}

impl QueryParameter for Double {
    open spec fn parameter(&self) -> Parameter {
        Parameter::Double(Some(self.deep_view()))
    }

    fn to_value(&self) -> (v: ParameterValue) {
        ParameterValue::Double(Some(*self))
    }

    fn as_postgres_param(&self) -> (p: PostgresValue) {
        PostgresValue { type_oid: FLOAT8_OID, raw: Some(write_double(*self)) }
    }

    fn as_sqlserver_param(&self) -> (c: SqlServerValue) {
        SqlServerValue::Double(Some(self.bits))
    }
}

impl QueryParameter for Option<Double> {
    open spec fn parameter(&self) -> Parameter {
        Parameter::Double(self.deep_view())
    }

    fn to_value(&self) -> (v: ParameterValue) {
        ParameterValue::Double(*self)
    }

    fn as_postgres_param(&self) -> (p: PostgresValue) {
        match self {
            Some(v) => PostgresValue { type_oid: FLOAT8_OID, raw: Some(write_double(*v)) },
            None => PostgresValue { type_oid: FLOAT8_OID, raw: None },
        }
    }

    fn as_sqlserver_param(&self) -> (c: SqlServerValue) {
        match self {
            Some(v) => SqlServerValue::Double(Some(v.bits)),
            None => SqlServerValue::Double(None),
        }
    }
}

impl QueryParameter for Date {
    open spec fn parameter(&self) -> Parameter {
        Parameter::Date(Some(self.deep_view()))
    }

    fn to_value(&self) -> (v: ParameterValue) {
        ParameterValue::Date(Some(*self))
    }

    fn as_postgres_param(&self) -> (p: PostgresValue) {
        PostgresValue { type_oid: DATE_OID, raw: Some(write_date(self)) }
    }

    fn as_sqlserver_param(&self) -> (c: SqlServerValue) {
        SqlServerValue::Date(Some(date_to_native(self)))
    }
}

impl QueryParameter for Option<Date> {
    open spec fn parameter(&self) -> Parameter {
        Parameter::Date(self.deep_view())
    }

    fn to_value(&self) -> (v: ParameterValue) {
        ParameterValue::Date(*self)
    }

    fn as_postgres_param(&self) -> (p: PostgresValue) {
        match self {
            Some(v) => PostgresValue { type_oid: DATE_OID, raw: Some(write_date(v)) },
            None => PostgresValue { type_oid: DATE_OID, raw: None },
        }
    }

    fn as_sqlserver_param(&self) -> (c: SqlServerValue) {
        match self {
            Some(v) => SqlServerValue::Date(Some(date_to_native(v))),
            None => SqlServerValue::Date(None),
        }
    }
}

impl QueryParameter for Time {
    open spec fn parameter(&self) -> Parameter {
        Parameter::Time(Some(self.deep_view()))
    }

    fn to_value(&self) -> (v: ParameterValue) {
        ParameterValue::Time(Some(*self))
    }

    fn as_postgres_param(&self) -> (p: PostgresValue) {
        PostgresValue { type_oid: TIME_OID, raw: Some(write_time(self)) }
    }

    fn as_sqlserver_param(&self) -> (c: SqlServerValue) {
        SqlServerValue::Time(Some(time_to_native(self)))
    }
}

impl QueryParameter for Option<Time> {
    open spec fn parameter(&self) -> Parameter {
        Parameter::Time(self.deep_view())
    }

    fn to_value(&self) -> (v: ParameterValue) {
        ParameterValue::Time(*self)
    }

    fn as_postgres_param(&self) -> (p: PostgresValue) {
        match self {
            Some(v) => PostgresValue { type_oid: TIME_OID, raw: Some(write_time(v)) },
            None => PostgresValue { type_oid: TIME_OID, raw: None },
        }
    }

    fn as_sqlserver_param(&self) -> (c: SqlServerValue) {
        match self {
            Some(v) => SqlServerValue::Time(Some(time_to_native(v))),
            None => SqlServerValue::Time(None),
        }
    }
}

impl QueryParameter for Timestamp {
    open spec fn parameter(&self) -> Parameter {
        Parameter::Timestamp(Some(self.deep_view()))
    }

    fn to_value(&self) -> (v: ParameterValue) {
        ParameterValue::Timestamp(Some(*self))
    }

    fn as_postgres_param(&self) -> (p: PostgresValue) {
        PostgresValue { type_oid: TIMESTAMP_OID, raw: Some(write_timestamp(self)) }
    }

    fn as_sqlserver_param(&self) -> (c: SqlServerValue) {
        SqlServerValue::DateTime2(Some(timestamp_to_native(self)))
    }
}

impl QueryParameter for Option<Timestamp> {
    open spec fn parameter(&self) -> Parameter {
        Parameter::Timestamp(self.deep_view())
    }

    fn to_value(&self) -> (v: ParameterValue) {
        ParameterValue::Timestamp(*self)
    }

    fn as_postgres_param(&self) -> (p: PostgresValue) {
        match self {
            Some(v) => PostgresValue { type_oid: TIMESTAMP_OID, raw: Some(write_timestamp(v)) },
            None => PostgresValue { type_oid: TIMESTAMP_OID, raw: None },
        }
    }

    fn as_sqlserver_param(&self) -> (c: SqlServerValue) {
        match self {
            Some(v) => SqlServerValue::DateTime2(Some(timestamp_to_native(v))),
            None => SqlServerValue::DateTime2(None),
        }
    }
}

impl QueryParameter for TimestampTz {
    open spec fn parameter(&self) -> Parameter {
        Parameter::TimestampTz(Some(self.deep_view()))
    }

    fn to_value(&self) -> (v: ParameterValue) {
        ParameterValue::TimestampTz(Some(*self))
    }

    fn as_postgres_param(&self) -> (p: PostgresValue) {
        PostgresValue { type_oid: TIMESTAMPTZ_OID, raw: Some(write_timestamp(&self.utc)) }
    }

    fn as_sqlserver_param(&self) -> (c: SqlServerValue) {
        SqlServerValue::DateTime2(Some(timestamp_to_native(&self.utc)))
    }
}

impl QueryParameter for Option<TimestampTz> {
    open spec fn parameter(&self) -> Parameter {
        Parameter::TimestampTz(self.deep_view())
    }

    fn to_value(&self) -> (v: ParameterValue) {
        ParameterValue::TimestampTz(*self)
    }

    fn as_postgres_param(&self) -> (p: PostgresValue) {
        match self {
            Some(v) => PostgresValue { type_oid: TIMESTAMPTZ_OID, raw: Some(write_timestamp(&v.utc)) },
            None => PostgresValue { type_oid: TIMESTAMPTZ_OID, raw: None },
        }
    }

    fn as_sqlserver_param(&self) -> (c: SqlServerValue) {
        match self {
            Some(v) => SqlServerValue::DateTime2(Some(timestamp_to_native(&v.utc))),
            None => SqlServerValue::DateTime2(None),
        }
    }
}

} // verus!
