use bytes::BytesMut;
use canyon_crud::error::ErrorKind;
use canyon_crud::postgres::PostgresValue;
use canyon_crud::scalar::{Date, Double, Real, Time, Timestamp, TimestampTz};
use canyon_crud::sqlserver::{
    SqlServerDateTime, SqlServerDateTime2, SqlServerSmallDateTime, SqlServerTime, SqlServerValue,
};
use canyon_crud::decode::{read_postgres, read_sqlserver, ColumnValue};
use canyon_crud::value::{ParameterValue, QueryParameter, ScalarKind};
use chrono::{DateTime, Datelike, NaiveDate, NaiveDateTime, NaiveTime, Timelike, Utc};
use tiberius::{ColumnData, IntoSql};
use tokio_postgres::types::{FromSql, ToSql, Type};

fn date_of(d: NaiveDate) -> Date {
    Date::from_days_from_ce(d.num_days_from_ce()).unwrap()
}

fn time_of(t: NaiveTime) -> Time {
    Time::new(t.num_seconds_from_midnight(), t.nanosecond()).unwrap()
}

fn timestamp_of(dt: NaiveDateTime) -> Timestamp {
    Timestamp { date: date_of(dt.date()), time: time_of(dt.time()) }
}

fn naive_date(d: Date) -> NaiveDate {
    NaiveDate::from_num_days_from_ce_opt(d.days_from_ce()).unwrap()
}

fn naive_time(t: Time) -> NaiveTime {
    NaiveTime::from_num_seconds_from_midnight_opt(t.num_seconds_from_midnight(), t.nanosecond())
        .unwrap()
}

fn naive_datetime(ts: Timestamp) -> NaiveDateTime {
    NaiveDateTime::new(naive_date(ts.date), naive_time(ts.time))
}

fn driver_bytes<T: ToSql>(value: &T, ty: &Type) -> Vec<u8> {
    let mut buf = BytesMut::new();
    value.to_sql(ty, &mut buf).unwrap();
    buf.to_vec()
}

fn dates() -> Vec<NaiveDate> {
    vec![
        NaiveDate::from_ymd_opt(1, 1, 1).unwrap(),
        NaiveDate::from_ymd_opt(1582, 10, 15).unwrap(),
        NaiveDate::from_ymd_opt(1899, 12, 31).unwrap(),
        NaiveDate::from_ymd_opt(1900, 1, 1).unwrap(),
        NaiveDate::from_ymd_opt(1970, 1, 1).unwrap(),
        NaiveDate::from_ymd_opt(1999, 12, 31).unwrap(),
        NaiveDate::from_ymd_opt(2000, 1, 1).unwrap(),
        NaiveDate::from_ymd_opt(2015, 3, 14).unwrap(),
        NaiveDate::from_ymd_opt(2024, 2, 29).unwrap(),
        NaiveDate::from_ymd_opt(9999, 12, 31).unwrap(),
    ]
}

fn times() -> Vec<NaiveTime> {
    vec![
        NaiveTime::from_hms_opt(0, 0, 0).unwrap(),
        NaiveTime::from_hms_nano_opt(0, 0, 0, 1_000).unwrap(),
        NaiveTime::from_hms_micro_opt(12, 34, 56, 789_012).unwrap(),
        NaiveTime::from_hms_nano_opt(23, 59, 59, 999_999_000).unwrap(),
        NaiveTime::from_hms_nano_opt(6, 7, 8, 900).unwrap(),
        NaiveTime::from_hms_nano_opt(23, 59, 59, 999_999_500).unwrap(),
    ]
}

#[test]
fn dates_are_held_by_their_day_number() {
    assert!(Date::from_days_from_ce(0).is_none());
    assert!(Date::from_days_from_ce(-1).is_none());
    assert!(Date::from_days_from_ce(3_652_060).is_none());
    assert_eq!(Date::from_days_from_ce(1).unwrap().days_from_ce(), 1);
    assert_eq!(Date::from_days_from_ce(3_652_059).unwrap().days_from_ce(), 3_652_059);
    assert_eq!(date_of(NaiveDate::from_ymd_opt(2000, 1, 1).unwrap()).days_from_ce(), 730_120);
    assert_eq!(date_of(NaiveDate::from_ymd_opt(9999, 12, 31).unwrap()).days_from_ce(), 3_652_059);
}

#[test]
fn times_are_held_by_their_seconds_and_nanoseconds() {
    assert!(Time::new(86_400, 0).is_none());
    assert!(Time::new(0, 1_000_000_000).is_none());
    let t = Time::new(86_399, 999_999_999).unwrap();
    assert_eq!(t.num_seconds_from_midnight(), 86_399);
    assert_eq!(t.nanosecond(), 999_999_999);
    assert_eq!(t.nanos_of_day(), 86_399_999_999_999);
    assert!(Time::from_nanos(86_400_000_000_000).is_none());
    assert_eq!(Time::from_nanos(86_399_999_999_999), Some(t));
    assert_eq!(Time::from_nanos(0), Time::new(0, 0));
    assert_eq!(Time::from_nanos(3_600_000_000_001), Time::new(3_600, 1));
}

#[test]
fn postgres_date_bytes_are_those_of_the_driver() {
    for d in dates() {
        let ours = date_of(d).as_postgres_param();
        assert_eq!(ours.type_oid, Type::DATE.oid());
        assert_eq!(ours.raw, Some(driver_bytes(&d, &Type::DATE)));
        assert_eq!(read_postgres::<Date>(&ours), Ok(Some(date_of(d))));
        let theirs = NaiveDate::from_sql(&Type::DATE, ours.raw.as_ref().unwrap()).ok();
        assert_eq!(theirs, Some(d));
    }
    assert_eq!(
        date_of(NaiveDate::from_ymd_opt(2000, 1, 2).unwrap()).as_postgres_param().raw,
        Some(vec![0, 0, 0, 1])
    );
}

#[test]
fn postgres_time_bytes_are_those_of_the_driver() {
    for t in times() {
        let ours = time_of(t).as_postgres_param();
        assert_eq!(ours.type_oid, Type::TIME.oid());
        assert_eq!(ours.raw, Some(driver_bytes(&t, &Type::TIME)));
        let back = read_postgres::<Time>(&ours).unwrap().unwrap();
        let theirs = NaiveTime::from_sql(&Type::TIME, ours.raw.as_ref().unwrap()).unwrap();
        assert_eq!(naive_time(back), theirs);
    }
    let one_second = Time::new(1, 0).unwrap().as_postgres_param();
    assert_eq!(one_second.raw, Some(vec![0, 0, 0, 0, 0, 0x0F, 0x42, 0x40]));
}

#[test]
fn postgres_keeps_the_whole_microseconds_of_a_time() {
    let fine = Time::new(1, 123_456_789).unwrap();
    assert_eq!(read_postgres::<Time>(&fine.as_postgres_param()), Ok(Time::new(1, 123_456_000)));
    let whole = Time::new(1, 123_456_000).unwrap();
    assert_eq!(read_postgres::<Time>(&whole.as_postgres_param()), Ok(Some(whole)));
}

#[test]
fn postgres_timestamp_bytes_are_those_of_the_driver() {
    for d in dates() {
        for t in times() {
            let dt = NaiveDateTime::new(d, t);
            let ours = timestamp_of(dt).as_postgres_param();
            assert_eq!(ours.type_oid, Type::TIMESTAMP.oid());
            assert_eq!(ours.raw, Some(driver_bytes(&dt, &Type::TIMESTAMP)));
            let back = read_postgres::<Timestamp>(&ours).unwrap().unwrap();
            let theirs =
                NaiveDateTime::from_sql(&Type::TIMESTAMP, ours.raw.as_ref().unwrap()).unwrap();
            assert_eq!(naive_datetime(back), theirs);
            let utc: DateTime<Utc> = dt.and_utc();
            let ours = TimestampTz { utc: timestamp_of(dt) }.as_postgres_param();
            assert_eq!(ours.type_oid, Type::TIMESTAMPTZ.oid());
            assert_eq!(ours.raw, Some(driver_bytes(&utc, &Type::TIMESTAMPTZ)));
            let back = read_postgres::<TimestampTz>(&ours).unwrap().unwrap();
            let theirs =
                DateTime::<Utc>::from_sql(&Type::TIMESTAMPTZ, ours.raw.as_ref().unwrap()).unwrap();
            assert_eq!(naive_datetime(back.utc), theirs.naive_utc());
        }
    }
}

#[test]
fn postgres_cuts_a_fraction_of_a_microsecond_toward_2000() {
    let last_of_1999 = NaiveDate::from_ymd_opt(1999, 12, 31).unwrap();
    let almost = Timestamp {
        date: date_of(last_of_1999),
        time: Time::new(86_399, 999_999_500).unwrap(),
    };
    let native = almost.as_postgres_param();
    assert_eq!(native.raw, Some(vec![0; 8]));
    let read = read_postgres::<Timestamp>(&native).unwrap().unwrap();
    assert_eq!(read.date.days_from_ce(), 730_120);
    assert_eq!(read.time.nanos_of_day(), 0);
    let after = Timestamp {
        date: Date::from_days_from_ce(730_120).unwrap(),
        time: Time::new(0, 1_999).unwrap(),
    };
    let native = after.as_postgres_param();
    assert_eq!(native.raw, Some(vec![0, 0, 0, 0, 0, 0, 0, 1]));
    let read = read_postgres::<Timestamp>(&native).unwrap().unwrap();
    assert_eq!(read.time.nanos_of_day(), 1_000);
    let whole = Timestamp {
        date: date_of(last_of_1999),
        time: Time::new(86_399, 999_999_000).unwrap(),
    };
    assert_eq!(read_postgres::<Timestamp>(&whole.as_postgres_param()), Ok(Some(whole)));
    assert_eq!(whole.as_postgres_param().raw, Some(vec![0xFF; 8]));
}

#[test]
fn postgres_temporal_values_of_another_type_or_out_of_range_do_not_read() {
    let date = date_of(NaiveDate::from_ymd_opt(2015, 3, 14).unwrap()).as_postgres_param();
    assert_eq!(read_postgres::<Time>(&date), Err(ErrorKind::TypeMismatch));
    assert_eq!(read_postgres::<i32>(&date), Err(ErrorKind::TypeMismatch));
    assert_eq!(read_postgres::<Timestamp>(&date), Err(ErrorKind::TypeMismatch));
    let as_int = PostgresValue { type_oid: 23, raw: date.raw.clone() };
    assert_eq!(read_postgres::<Date>(&as_int), Err(ErrorKind::TypeMismatch));
    let before_first = PostgresValue { type_oid: 1082, raw: Some((-730_120i32).to_be_bytes().to_vec()) };
    assert_eq!(read_postgres::<Date>(&before_first), Err(ErrorKind::TypeMismatch));
    let first = PostgresValue { type_oid: 1082, raw: Some((-730_119i32).to_be_bytes().to_vec()) };
    assert_eq!(read_postgres::<Date>(&first), Ok(Date::from_days_from_ce(1)));
    let after_last = PostgresValue { type_oid: 1082, raw: Some(2_921_940i32.to_be_bytes().to_vec()) };
    assert_eq!(read_postgres::<Date>(&after_last), Err(ErrorKind::TypeMismatch));
    let infinity = PostgresValue { type_oid: 1082, raw: Some(i32::MAX.to_be_bytes().to_vec()) };
    assert_eq!(read_postgres::<Date>(&infinity), Err(ErrorKind::TypeMismatch));
    let short = PostgresValue { type_oid: 1082, raw: Some(vec![0, 0, 1]) };
    assert_eq!(read_postgres::<Date>(&short), Err(ErrorKind::TypeMismatch));
    let a_day = PostgresValue { type_oid: 1083, raw: Some(86_400_000_000i64.to_be_bytes().to_vec()) };
    assert_eq!(read_postgres::<Time>(&a_day), Err(ErrorKind::TypeMismatch));
    let negative = PostgresValue { type_oid: 1083, raw: Some((-1i64).to_be_bytes().to_vec()) };
    assert_eq!(read_postgres::<Time>(&negative), Err(ErrorKind::TypeMismatch));
    let last = PostgresValue { type_oid: 1083, raw: Some(86_399_999_999i64.to_be_bytes().to_vec()) };
    assert_eq!(read_postgres::<Time>(&last), Ok(Time::new(86_399, 999_999_000)));
    let far = PostgresValue { type_oid: 1114, raw: Some(i64::MAX.to_be_bytes().to_vec()) };
    assert_eq!(read_postgres::<Timestamp>(&far), Err(ErrorKind::TypeMismatch));
    let far = PostgresValue { type_oid: 1114, raw: Some(i64::MIN.to_be_bytes().to_vec()) };
    assert_eq!(read_postgres::<Timestamp>(&far), Err(ErrorKind::TypeMismatch));
    let tz = PostgresValue { type_oid: 1184, raw: Some(0i64.to_be_bytes().to_vec()) };
    assert_eq!(read_postgres::<Timestamp>(&tz), Err(ErrorKind::TypeMismatch));
    assert_eq!(
        read_postgres::<TimestampTz>(&tz),
        Ok(Some(TimestampTz {
            utc: timestamp_of(NaiveDate::from_ymd_opt(2000, 1, 1).unwrap().into())
        }))
    );
}

#[test]
fn postgres_timestamp_range_ends_with_the_last_day() {
    let first = (1i64 - 730_120) * 86_400_000_000;
    let value = PostgresValue { type_oid: 1114, raw: Some(first.to_be_bytes().to_vec()) };
    let read = read_postgres::<Timestamp>(&value).unwrap().unwrap();
    assert_eq!(read.date.days_from_ce(), 1);
    assert_eq!(read.time.nanos_of_day(), 0);
    let value = PostgresValue { type_oid: 1114, raw: Some((first - 1).to_be_bytes().to_vec()) };
    assert_eq!(read_postgres::<Timestamp>(&value), Err(ErrorKind::TypeMismatch));
    let last = (3_652_059i64 - 730_120 + 1) * 86_400_000_000 - 1;
    let value = PostgresValue { type_oid: 1114, raw: Some(last.to_be_bytes().to_vec()) };
    let read = read_postgres::<Timestamp>(&value).unwrap().unwrap();
    assert_eq!(read.date.days_from_ce(), 3_652_059);
    assert_eq!(read.time.nanos_of_day(), 86_399_999_999_000);
    let value = PostgresValue { type_oid: 1114, raw: Some((last + 1).to_be_bytes().to_vec()) };
    assert_eq!(read_postgres::<Timestamp>(&value), Err(ErrorKind::TypeMismatch));
}

#[test]
fn postgres_float_bytes_are_those_of_the_driver() {
    for v in [0.0f32, -0.0, 1.5, -2.25, f32::MAX, f32::MIN_POSITIVE, f32::INFINITY, f32::NAN] {
        let ours = Real { bits: v.to_bits() }.as_postgres_param();
        assert_eq!(ours.type_oid, Type::FLOAT4.oid());
        assert_eq!(ours.raw, Some(driver_bytes(&v, &Type::FLOAT4)));
        assert_eq!(read_postgres::<Real>(&ours), Ok(Some(Real { bits: v.to_bits() })));
        let theirs = f32::from_sql(&Type::FLOAT4, ours.raw.as_ref().unwrap()).unwrap();
        assert_eq!(theirs.to_bits(), v.to_bits());
    }
    for v in [0.0f64, -0.0, 1.5, -2.25, f64::MAX, f64::MIN_POSITIVE, f64::NEG_INFINITY, f64::NAN] {
        let ours = Double { bits: v.to_bits() }.as_postgres_param();
        assert_eq!(ours.type_oid, Type::FLOAT8.oid());
        assert_eq!(ours.raw, Some(driver_bytes(&v, &Type::FLOAT8)));
        assert_eq!(read_postgres::<Double>(&ours), Ok(Some(Double { bits: v.to_bits() })));
        let theirs = f64::from_sql(&Type::FLOAT8, ours.raw.as_ref().unwrap()).unwrap();
        assert_eq!(theirs.to_bits(), v.to_bits());
    }
    assert_eq!(Real { bits: 0x3FC0_0000 }.as_postgres_param().raw, Some(vec![0x3F, 0xC0, 0, 0]));
    assert_eq!(Real { bits: u32::MAX }.as_postgres_param().raw, Some(vec![0xFF; 4]));
    assert_eq!(
        Double { bits: 0x8000_0000_0000_0001 }.as_postgres_param().raw,
        Some(vec![0x80, 0, 0, 0, 0, 0, 0, 1])
    );
    let short = PostgresValue { type_oid: 700, raw: Some(vec![0, 0, 0]) };
    assert_eq!(read_postgres::<Real>(&short), Err(ErrorKind::TypeMismatch));
    let wrong = PostgresValue { type_oid: 701, raw: Some(vec![0, 0, 0, 0]) };
    assert_eq!(read_postgres::<Real>(&wrong), Err(ErrorKind::TypeMismatch));
    assert_eq!(read_postgres::<Double>(&wrong), Err(ErrorKind::TypeMismatch));
}

#[test]
fn sqlserver_temporal_values_are_those_of_the_driver() {
    for d in dates() {
        let ours = date_of(d).as_sqlserver_param();
        match (ours.clone(), d.into_sql()) {
            (SqlServerValue::Date(Some(days)), ColumnData::Date(Some(theirs))) => {
                assert_eq!(days, theirs.days())
            }
            other => panic!("{:?}", other),
        }
        assert_eq!(read_sqlserver::<Date>(&ours), Ok(Some(date_of(d))));
        for t in times() {
            let dt = NaiveDateTime::new(d, t);
            let ours = timestamp_of(dt).as_sqlserver_param();
            match (ours.clone(), dt.into_sql()) {
                (SqlServerValue::DateTime2(Some(native)), ColumnData::DateTime2(Some(theirs))) => {
                    assert_eq!(native.days, theirs.date().days());
                    assert_eq!(native.time.increments, theirs.time().increments());
                    assert_eq!(native.time.scale, theirs.time().scale());
                }
                other => panic!("{:?}", other),
            }
            let back = read_sqlserver::<Timestamp>(&ours).unwrap().unwrap();
            let theirs: NaiveDateTime =
                <NaiveDateTime as tiberius::FromSql>::from_sql(&dt.into_sql()).unwrap().unwrap();
            assert_eq!(naive_datetime(back), theirs);
            let utc = TimestampTz { utc: timestamp_of(dt) };
            assert_eq!(utc.as_sqlserver_param(), ours);
            assert_eq!(
                read_sqlserver::<TimestampTz>(&ours).unwrap().unwrap().utc,
                back
            );
            let theirs: DateTime<Utc> =
                <DateTime<Utc> as tiberius::FromSql>::from_sql(&dt.and_utc().into_sql())
                    .unwrap()
                    .unwrap();
            assert_eq!(naive_datetime(back), theirs.naive_utc());
        }
    }
    for t in times() {
        let ours = time_of(t).as_sqlserver_param();
        match (ours.clone(), t.into_sql()) {
            (SqlServerValue::Time(Some(native)), ColumnData::Time(Some(theirs))) => {
                assert_eq!(native.increments, theirs.increments());
                assert_eq!(native.scale, theirs.scale());
            }
            other => panic!("{:?}", other),
        }
        let back = read_sqlserver::<Time>(&ours).unwrap().unwrap();
        let theirs: NaiveTime =
            <NaiveTime as tiberius::FromSql>::from_sql(&t.into_sql()).unwrap().unwrap();
        assert_eq!(naive_time(back), theirs);
    }
}

#[test]
fn sqlserver_keeps_the_whole_hundreds_of_nanoseconds_of_a_time() {
    let fine = Time::new(1, 123_456_789).unwrap();
    assert_eq!(
        fine.as_sqlserver_param(),
        SqlServerValue::Time(Some(SqlServerTime { increments: 11_234_567, scale: 7 }))
    );
    assert_eq!(read_sqlserver::<Time>(&fine.as_sqlserver_param()), Ok(Time::new(1, 123_456_700)));
    let whole = Time::new(1, 123_456_700).unwrap();
    assert_eq!(read_sqlserver::<Time>(&whole.as_sqlserver_param()), Ok(Some(whole)));
}

#[test]
fn sqlserver_times_of_every_scale_read_as_the_driver_reads_them() {
    let cases: [(u64, u8); 9] = [
        (86_399, 0),
        (863_999, 1),
        (1_234, 2),
        (45_296_789, 3),
        (1, 4),
        (8_639_999_999, 5),
        (12_345_678_901, 6),
        (863_999_999_999, 7),
        (0, 7),
    ];
    for (increments, scale) in cases {
        let ours = read_sqlserver::<Time>(&SqlServerValue::Time(Some(SqlServerTime {
            increments,
            scale,
        })))
        .unwrap()
        .unwrap();
        let native = ColumnData::Time(Some(tiberius::time::Time::new(increments, scale)));
        let theirs: NaiveTime =
            <NaiveTime as tiberius::FromSql>::from_sql(&native).unwrap().unwrap();
        assert_eq!(naive_time(ours), theirs);
    }
    let bad_scale = SqlServerValue::Time(Some(SqlServerTime { increments: 1, scale: 8 }));
    assert_eq!(read_sqlserver::<Time>(&bad_scale), Err(ErrorKind::TypeMismatch));
    let a_day = SqlServerValue::Time(Some(SqlServerTime { increments: 864_000_000_000, scale: 7 }));
    assert_eq!(read_sqlserver::<Time>(&a_day), Err(ErrorKind::TypeMismatch));
    let a_day = SqlServerValue::Time(Some(SqlServerTime { increments: 86_400, scale: 0 }));
    assert_eq!(read_sqlserver::<Time>(&a_day), Err(ErrorKind::TypeMismatch));
    let huge = SqlServerValue::Time(Some(SqlServerTime { increments: u64::MAX, scale: 0 }));
    assert_eq!(read_sqlserver::<Time>(&huge), Err(ErrorKind::TypeMismatch));
}

#[test]
fn sqlserver_older_date_types_read_as_the_driver_reads_them() {
    let cases: [(i32, u32); 6] = [
        (0, 0),
        (42_000, 1),
        (-53_690, 25_919_999),
        (2_958_463, 299),
        (45_000, 12_345_678),
        (1, 300),
    ];
    for (days, fragments) in cases {
        let ours = read_sqlserver::<Timestamp>(&SqlServerValue::DateTime(Some(
            SqlServerDateTime { days, fragments },
        )))
        .unwrap()
        .unwrap();
        let native = ColumnData::DateTime(Some(tiberius::time::DateTime::new(days, fragments)));
        let theirs: NaiveDateTime =
            <NaiveDateTime as tiberius::FromSql>::from_sql(&native).unwrap().unwrap();
        assert_eq!(naive_datetime(ours), theirs);
    }
    let late = SqlServerValue::DateTime(Some(SqlServerDateTime { days: 0, fragments: 25_920_000 }));
    assert_eq!(read_sqlserver::<Timestamp>(&late), Err(ErrorKind::TypeMismatch));
    let early = SqlServerValue::DateTime(Some(SqlServerDateTime { days: -693_596, fragments: 0 }));
    assert_eq!(read_sqlserver::<Timestamp>(&early), Err(ErrorKind::TypeMismatch));
    let first = SqlServerValue::DateTime(Some(SqlServerDateTime { days: -693_595, fragments: 0 }));
    assert_eq!(read_sqlserver::<Timestamp>(&first).unwrap().unwrap().date.days_from_ce(), 1);
    let after = SqlServerValue::DateTime(Some(SqlServerDateTime { days: 2_958_464, fragments: 0 }));
    assert_eq!(read_sqlserver::<Timestamp>(&after), Err(ErrorKind::TypeMismatch));
    let extreme = SqlServerValue::DateTime(Some(SqlServerDateTime { days: i32::MAX, fragments: 0 }));
    assert_eq!(read_sqlserver::<Timestamp>(&extreme), Err(ErrorKind::TypeMismatch));
    for (days, minutes) in [(0u16, 0u16), (45_000, 1_439), (65_535, 720)] {
        let ours = read_sqlserver::<Timestamp>(&SqlServerValue::SmallDateTime(Some(
            SqlServerSmallDateTime { days, minutes },
        )))
        .unwrap()
        .unwrap();
        let native =
            ColumnData::SmallDateTime(Some(tiberius::time::SmallDateTime::new(days, minutes)));
        let theirs: NaiveDateTime =
            <NaiveDateTime as tiberius::FromSql>::from_sql(&native).unwrap().unwrap();
        assert_eq!(naive_datetime(ours), theirs);
    }
    let late = SqlServerValue::SmallDateTime(Some(SqlServerSmallDateTime { days: 0, minutes: 1_440 }));
    assert_eq!(read_sqlserver::<Timestamp>(&late), Err(ErrorKind::TypeMismatch));
    let older = SqlServerValue::DateTime(Some(SqlServerDateTime { days: 0, fragments: 0 }));
    assert_eq!(read_sqlserver::<TimestampTz>(&older), Err(ErrorKind::TypeMismatch));
}

#[test]
fn sqlserver_dates_out_of_range_do_not_read() {
    assert_eq!(
        read_sqlserver::<Date>(&SqlServerValue::Date(Some(3_652_058))),
        Ok(Date::from_days_from_ce(3_652_059))
    );
    assert_eq!(
        read_sqlserver::<Date>(&SqlServerValue::Date(Some(3_652_059))),
        Err(ErrorKind::TypeMismatch)
    );
    assert_eq!(
        read_sqlserver::<Date>(&SqlServerValue::Date(Some(u32::MAX))),
        Err(ErrorKind::TypeMismatch)
    );
    assert_eq!(read_sqlserver::<Date>(&SqlServerValue::Date(Some(0))), Ok(Date::from_days_from_ce(1)));
    assert_eq!(read_sqlserver::<Date>(&SqlServerValue::Date(None)), Ok(None));
    let mixed = SqlServerValue::DateTime2(Some(SqlServerDateTime2 {
        days: 3_652_059,
        time: SqlServerTime { increments: 0, scale: 7 },
    }));
    assert_eq!(read_sqlserver::<Timestamp>(&mixed), Err(ErrorKind::TypeMismatch));
    let mixed = SqlServerValue::DateTime2(Some(SqlServerDateTime2 {
        days: 0,
        time: SqlServerTime { increments: 0, scale: 9 },
    }));
    assert_eq!(read_sqlserver::<Timestamp>(&mixed), Err(ErrorKind::TypeMismatch));
}

#[test]
fn sqlserver_floats_are_their_bit_patterns() {
    let real = Real { bits: 1.5f32.to_bits() };
    assert_eq!(real.as_sqlserver_param(), SqlServerValue::Real(Some(0x3FC0_0000)));
    assert_eq!(read_sqlserver::<Real>(&real.as_sqlserver_param()), Ok(Some(real)));
    let double = Double { bits: (-2.25f64).to_bits() };
    assert_eq!(double.as_sqlserver_param(), SqlServerValue::Double(Some((-2.25f64).to_bits())));
    assert_eq!(read_sqlserver::<Double>(&double.as_sqlserver_param()), Ok(Some(double)));
    assert_eq!(
        read_sqlserver::<Real>(&double.as_sqlserver_param()),
        Err(ErrorKind::TypeMismatch)
    );
    assert_eq!(
        read_sqlserver::<Double>(&real.as_sqlserver_param()),
        Err(ErrorKind::TypeMismatch)
    );
    assert_eq!(read_sqlserver::<Real>(&SqlServerValue::Real(None)), Ok(None));
}

#[test]
fn temporal_and_float_values_are_none_of_the_basic_types() {
    let natives = vec![
        SqlServerValue::Real(Some(1)),
        SqlServerValue::Double(Some(1)),
        SqlServerValue::Date(Some(1)),
        SqlServerValue::Time(Some(SqlServerTime { increments: 1, scale: 7 })),
        SqlServerValue::DateTime(Some(SqlServerDateTime { days: 1, fragments: 1 })),
        SqlServerValue::SmallDateTime(Some(SqlServerSmallDateTime { days: 1, minutes: 1 })),
    ];
    for native in &natives {
        assert!(!native.is_basic());
        assert!(!native.is_null());
        assert_eq!(<bool as ColumnValue>::from_sqlserver(native), None);
        assert_eq!(<i16 as ColumnValue>::from_sqlserver(native), None);
        assert_eq!(<i32 as ColumnValue>::from_sqlserver(native), None);
        assert_eq!(<i64 as ColumnValue>::from_sqlserver(native), None);
        assert_eq!(<String as ColumnValue>::from_sqlserver(native), None);
    }
    assert!(SqlServerValue::Int(None).is_basic());
    assert!(SqlServerValue::Text(Some(String::new())).is_basic());
    assert!(!SqlServerValue::Unsupported { null: false }.is_basic());
    assert!(SqlServerValue::Unsupported { null: true }.is_null());
    assert_eq!(read_sqlserver::<i32>(&SqlServerValue::Unsupported { null: true }), Ok(None));
    assert_eq!(
        read_sqlserver::<Date>(&SqlServerValue::Unsupported { null: false }),
        Err(ErrorKind::TypeMismatch)
    );
    assert!(SqlServerValue::Date(None).is_null());
    assert!(SqlServerValue::DateTime2(None).is_null());
}

#[test]
fn absent_temporal_and_float_optionals_are_typed_nulls() {
    assert_eq!(None::<Date>.as_postgres_param(), PostgresValue { type_oid: 1082, raw: None });
    assert_eq!(None::<Time>.as_postgres_param(), PostgresValue { type_oid: 1083, raw: None });
    assert_eq!(None::<Timestamp>.as_postgres_param(), PostgresValue { type_oid: 1114, raw: None });
    assert_eq!(None::<TimestampTz>.as_postgres_param(), PostgresValue { type_oid: 1184, raw: None });
    assert_eq!(None::<Real>.as_postgres_param(), PostgresValue { type_oid: 700, raw: None });
    assert_eq!(None::<Double>.as_postgres_param(), PostgresValue { type_oid: 701, raw: None });
    assert_eq!(None::<Date>.as_sqlserver_param(), SqlServerValue::Date(None));
    assert_eq!(None::<Time>.as_sqlserver_param(), SqlServerValue::Time(None));
    assert_eq!(None::<Timestamp>.as_sqlserver_param(), SqlServerValue::DateTime2(None));
    assert_eq!(None::<TimestampTz>.as_sqlserver_param(), SqlServerValue::DateTime2(None));
    assert_eq!(None::<Real>.as_sqlserver_param(), SqlServerValue::Real(None));
    assert_eq!(None::<Double>.as_sqlserver_param(), SqlServerValue::Double(None));
    let present = Some(Date::from_days_from_ce(730_120).unwrap());
    assert_eq!(present.as_postgres_param(), present.unwrap().as_postgres_param());
    assert_eq!(present.to_value(), ParameterValue::Date(present));
}

#[test]
fn every_temporal_and_float_parameter_comes_back_from_both_backends() {
    let date = date_of(NaiveDate::from_ymd_opt(2015, 3, 14).unwrap());
    let time = Time::new(45_296, 789_012_300).unwrap();
    let moment = Timestamp { date, time };
    let parameters = vec![
        ParameterValue::Real(Some(Real { bits: 0x7FC0_0001 })),
        ParameterValue::Real(None),
        ParameterValue::Double(Some(Double { bits: u64::MAX })),
        ParameterValue::Double(None),
        ParameterValue::Date(Some(date)),
        ParameterValue::Date(None),
        ParameterValue::Time(Some(Time::new(45_296, 789_012_000).unwrap())),
        ParameterValue::Time(None),
        ParameterValue::Timestamp(Some(Timestamp { date, time: Time::new(1, 5_000).unwrap() })),
        ParameterValue::Timestamp(None),
        ParameterValue::TimestampTz(Some(TimestampTz {
            utc: Timestamp { date, time: Time::new(86_399, 999_999_000).unwrap() },
        })),
        ParameterValue::TimestampTz(None),
    ];
    for p in parameters {
        assert_eq!(ParameterValue::from_postgres(p.kind(), &p.as_postgres_param()), Ok(p.to_value()));
        assert_eq!(
            ParameterValue::from_sqlserver(p.kind(), &p.as_sqlserver_param()),
            Ok(p.to_value())
        );
    }
    assert_eq!(
        ParameterValue::from_sqlserver(ScalarKind::Timestamp, &moment.as_sqlserver_param()),
        Ok(ParameterValue::Timestamp(Some(moment)))
    );
    assert_eq!(
        ParameterValue::from_postgres(ScalarKind::Timestamp, &moment.as_postgres_param()),
        Ok(ParameterValue::Timestamp(Some(Timestamp {
            date,
            time: Time::new(45_296, 789_012_000).unwrap()
        })))
    );
    assert_eq!(ParameterValue::null(ScalarKind::Date), ParameterValue::Date(None));
    assert_eq!(ParameterValue::null(ScalarKind::TimestampTz), ParameterValue::TimestampTz(None));
    assert_eq!(ParameterValue::Time(None).kind(), ScalarKind::Time);
    assert_eq!(ParameterValue::Real(None).kind(), ScalarKind::Real);
    assert_eq!(ParameterValue::Double(None).kind(), ScalarKind::Double);
}
