use canyon_crud::error::ErrorKind;
use canyon_crud::postgres::PostgresValue;
use canyon_crud::sqlserver::SqlServerValue;
use canyon_crud::decode::{read_postgres, read_sqlserver, require_value, ColumnValue};
use canyon_crud::value::{ParameterValue, QueryParameter, ScalarKind};

fn pg(type_oid: u32, raw: &[u8]) -> PostgresValue {
    PostgresValue { type_oid, raw: Some(raw.to_vec()) }
}

fn pg_null(type_oid: u32) -> PostgresValue {
    PostgresValue { type_oid, raw: None }
}

#[test]
fn bool_is_one_byte_for_postgres() {
    assert_eq!(true.as_postgres_param(), pg(16, &[1]));
    assert_eq!(false.as_postgres_param(), pg(16, &[0]));
}

#[test]
fn smallint_is_two_big_endian_bytes_for_postgres() {
    assert_eq!(258i16.as_postgres_param(), pg(21, &[1, 2]));
    assert_eq!((-2i16).as_postgres_param(), pg(21, &[0xFF, 0xFE]));
    assert_eq!(i16::MIN.as_postgres_param(), pg(21, &[0x80, 0x00]));
}

#[test]
fn int_is_four_big_endian_bytes_for_postgres() {
    assert_eq!(1i32.as_postgres_param(), pg(23, &[0, 0, 0, 1]));
    assert_eq!(0x0102_0304i32.as_postgres_param(), pg(23, &[1, 2, 3, 4]));
    assert_eq!((-1i32).as_postgres_param(), pg(23, &[0xFF, 0xFF, 0xFF, 0xFF]));
    assert_eq!(i32::MAX.as_postgres_param(), pg(23, &[0x7F, 0xFF, 0xFF, 0xFF]));
}

#[test]
fn bigint_is_eight_big_endian_bytes_for_postgres() {
    assert_eq!(1i64.as_postgres_param(), pg(20, &[0, 0, 0, 0, 0, 0, 0, 1]));
    assert_eq!(i64::MIN.as_postgres_param(), pg(20, &[0x80, 0, 0, 0, 0, 0, 0, 0]));
}

#[test]
fn text_is_its_utf8_bytes_for_postgres() {
    assert_eq!("LEC".as_postgres_param(), pg(25, &[76, 69, 67]));
    assert_eq!("é".to_string().as_postgres_param(), pg(25, &[0xC3, 0xA9]));
    assert_eq!("".as_postgres_param(), pg(25, &[]));
}

#[test]
fn absent_optional_is_null_for_postgres() {
    assert_eq!(None::<bool>.as_postgres_param(), pg_null(16));
    assert_eq!(None::<i16>.as_postgres_param(), pg_null(21));
    assert_eq!(None::<i32>.as_postgres_param(), pg_null(23));
    assert_eq!(None::<i64>.as_postgres_param(), pg_null(20));
    assert_eq!(None::<String>.as_postgres_param(), pg_null(25));
    assert_eq!(None::<&str>.as_postgres_param(), pg_null(25));
}

#[test]
fn present_optional_encodes_as_its_value_for_postgres() {
    assert_eq!(Some(true).as_postgres_param(), true.as_postgres_param());
    assert_eq!(Some(7i16).as_postgres_param(), 7i16.as_postgres_param());
    assert_eq!(Some(7i32).as_postgres_param(), 7i32.as_postgres_param());
    assert_eq!(Some(7i64).as_postgres_param(), 7i64.as_postgres_param());
    assert_eq!(Some("a".to_string()).as_postgres_param(), "a".as_postgres_param());
    assert_eq!(Some("a").as_postgres_param(), "a".as_postgres_param());
}

#[test]
fn scalars_take_the_variant_of_their_server_type_for_sqlserver() {
    assert_eq!(true.as_sqlserver_param(), SqlServerValue::Bit(Some(true)));
    assert_eq!(5i16.as_sqlserver_param(), SqlServerValue::SmallInt(Some(5)));
    assert_eq!(5i32.as_sqlserver_param(), SqlServerValue::Int(Some(5)));
    assert_eq!(5i64.as_sqlserver_param(), SqlServerValue::BigInt(Some(5)));
    assert_eq!("LEC".as_sqlserver_param(), SqlServerValue::Text(Some("LEC".to_string())));
    assert_eq!(
        "LEC".to_string().as_sqlserver_param(),
        SqlServerValue::Text(Some("LEC".to_string()))
    );
}

#[test]
fn absent_optional_is_a_typed_null_for_sqlserver() {
    assert_eq!(None::<bool>.as_sqlserver_param(), SqlServerValue::Bit(None));
    assert_eq!(None::<i16>.as_sqlserver_param(), SqlServerValue::SmallInt(None));
    assert_eq!(None::<i32>.as_sqlserver_param(), SqlServerValue::Int(None));
    assert_eq!(None::<i64>.as_sqlserver_param(), SqlServerValue::BigInt(None));
    assert_eq!(None::<String>.as_sqlserver_param(), SqlServerValue::Text(None));
    assert_eq!(None::<&str>.as_sqlserver_param(), SqlServerValue::Text(None));
    assert_eq!(Some(3i32).as_sqlserver_param(), SqlServerValue::Int(Some(3)));
    assert_eq!(Some("x").as_sqlserver_param(), SqlServerValue::Text(Some("x".to_string())));
}

#[test]
fn to_value_erases_the_type_and_keeps_the_value() {
    assert_eq!(true.to_value(), ParameterValue::Bool(Some(true)));
    assert_eq!(1i16.to_value(), ParameterValue::SmallInt(Some(1)));
    assert_eq!(1i32.to_value(), ParameterValue::Int(Some(1)));
    assert_eq!(1i64.to_value(), ParameterValue::BigInt(Some(1)));
    assert_eq!("a".to_value(), ParameterValue::Text(Some("a".to_string())));
    assert_eq!(None::<i32>.to_value(), ParameterValue::Int(None));
    assert_eq!(None::<String>.to_value(), ParameterValue::Text(None));
    let erased = ParameterValue::Text(Some("a".to_string()));
    assert_eq!(erased.to_value(), erased);
}

#[test]
fn erased_parameter_encodes_as_the_typed_one() {
    assert_eq!(ParameterValue::Int(Some(9)).as_postgres_param(), 9i32.as_postgres_param());
    assert_eq!(ParameterValue::Int(None).as_postgres_param(), pg_null(23));
    assert_eq!(ParameterValue::Bool(Some(true)).as_postgres_param(), pg(16, &[1]));
    assert_eq!(ParameterValue::SmallInt(Some(1)).as_postgres_param(), pg(21, &[0, 1]));
    assert_eq!(ParameterValue::BigInt(None).as_postgres_param(), pg_null(20));
    assert_eq!(
        ParameterValue::Text(Some("ab".to_string())).as_postgres_param(),
        pg(25, &[97, 98])
    );
    assert_eq!(ParameterValue::Int(Some(9)).as_sqlserver_param(), SqlServerValue::Int(Some(9)));
    assert_eq!(ParameterValue::Bool(None).as_sqlserver_param(), SqlServerValue::Bit(None));
    assert_eq!(
        ParameterValue::Text(Some("ab".to_string())).as_sqlserver_param(),
        SqlServerValue::Text(Some("ab".to_string()))
    );
}

#[test]
fn kind_and_nullness_of_a_parameter() {
    assert_eq!(ParameterValue::Bool(None).kind(), ScalarKind::Bool);
    assert_eq!(ParameterValue::SmallInt(Some(1)).kind(), ScalarKind::SmallInt);
    assert_eq!(ParameterValue::Int(Some(1)).kind(), ScalarKind::Int);
    assert_eq!(ParameterValue::BigInt(Some(1)).kind(), ScalarKind::BigInt);
    assert_eq!(ParameterValue::Text(None).kind(), ScalarKind::Text);
    assert!(ParameterValue::Text(None).is_null());
    assert!(!ParameterValue::Int(Some(0)).is_null());
    assert_eq!(ParameterValue::null(ScalarKind::BigInt), ParameterValue::BigInt(None));
    assert_eq!(ParameterValue::null(ScalarKind::Bool), ParameterValue::Bool(None));
}

#[test]
fn postgres_bytes_read_as_the_type_of_their_oid() {
    assert_eq!(<bool as ColumnValue>::from_postgres(16, &[1]), Some(true));
    assert_eq!(<bool as ColumnValue>::from_postgres(16, &[0]), Some(false));
    assert_eq!(<bool as ColumnValue>::from_postgres(16, &[2]), Some(true));
    assert_eq!(<i16 as ColumnValue>::from_postgres(21, &[0xFF, 0xFE]), Some(-2));
    assert_eq!(<i32 as ColumnValue>::from_postgres(23, &[1, 2, 3, 4]), Some(0x0102_0304));
    assert_eq!(<i32 as ColumnValue>::from_postgres(23, &[0x80, 0, 0, 0]), Some(i32::MIN));
    assert_eq!(
        <i64 as ColumnValue>::from_postgres(20, &[0, 0, 0, 0, 0, 0, 1, 0]),
        Some(256)
    );
    assert_eq!(
        <String as ColumnValue>::from_postgres(25, &[76, 69, 67]),
        Some("LEC".to_string())
    );
}

#[test]
fn postgres_bytes_of_another_type_do_not_read() {
    assert_eq!(<bool as ColumnValue>::from_postgres(23, &[1]), None);
    assert_eq!(<i16 as ColumnValue>::from_postgres(23, &[0, 1]), None);
    assert_eq!(<i32 as ColumnValue>::from_postgres(20, &[0, 0, 0, 1]), None);
    assert_eq!(<i32 as ColumnValue>::from_postgres(21, &[0, 0, 0, 1]), None);
    assert_eq!(<i64 as ColumnValue>::from_postgres(23, &[0, 0, 0, 0, 0, 0, 0, 1]), None);
    assert_eq!(<String as ColumnValue>::from_postgres(23, &[76]), None);
    assert_eq!(<i32 as ColumnValue>::from_postgres(0, &[0, 0, 0, 1]), None);
    assert_eq!(<i32 as ColumnValue>::from_postgres(4_000_000_000, &[0, 0, 0, 1]), None);
}

#[test]
fn postgres_bytes_of_the_wrong_length_do_not_read() {
    assert_eq!(<bool as ColumnValue>::from_postgres(16, &[]), None);
    assert_eq!(<bool as ColumnValue>::from_postgres(16, &[1, 1]), None);
    assert_eq!(<i16 as ColumnValue>::from_postgres(21, &[1]), None);
    assert_eq!(<i16 as ColumnValue>::from_postgres(21, &[0, 0, 1]), None);
    assert_eq!(<i32 as ColumnValue>::from_postgres(23, &[0, 0, 1]), None);
    assert_eq!(<i32 as ColumnValue>::from_postgres(23, &[0, 0, 0, 0, 1]), None);
    assert_eq!(<i64 as ColumnValue>::from_postgres(20, &[0, 0, 0, 1]), None);
}

#[test]
fn every_text_type_of_postgres_reads_as_text() {
    for oid in [25u32, 1043, 1042, 19, 705] {
        assert_eq!(<String as ColumnValue>::from_postgres(oid, &[97]), Some("a".to_string()));
    }
    assert_eq!(<String as ColumnValue>::from_postgres(17, &[97]), None);
}

#[test]
fn ill_formed_utf8_does_not_read_as_text() {
    assert_eq!(<String as ColumnValue>::from_postgres(25, &[0xFF]), None);
    assert_eq!(<String as ColumnValue>::from_postgres(25, &[0xC3]), None);
    assert_eq!(<String as ColumnValue>::from_postgres(25, &[0xED, 0xA0, 0x80]), None);
    assert_eq!(<String as ColumnValue>::from_postgres(25, &[0xC0, 0x80]), None);
    assert_eq!(
        <String as ColumnValue>::from_postgres(25, &[0xF0, 0x9F, 0x98, 0x80]),
        Some("😀".to_string())
    );
}

#[test]
fn sqlserver_values_read_as_their_own_type() {
    assert_eq!(<bool as ColumnValue>::from_sqlserver(&SqlServerValue::Bit(Some(true))), Some(true));
    assert_eq!(<i16 as ColumnValue>::from_sqlserver(&SqlServerValue::SmallInt(Some(5))), Some(5));
    assert_eq!(<i32 as ColumnValue>::from_sqlserver(&SqlServerValue::Int(Some(5))), Some(5));
    assert_eq!(<i64 as ColumnValue>::from_sqlserver(&SqlServerValue::BigInt(Some(5))), Some(5));
    assert_eq!(
        <String as ColumnValue>::from_sqlserver(&SqlServerValue::Text(Some("LEC".to_string()))),
        Some("LEC".to_string())
    );
}

#[test]
fn sqlserver_values_of_another_type_do_not_read() {
    assert_eq!(<bool as ColumnValue>::from_sqlserver(&SqlServerValue::Int(Some(1))), None);
    assert_eq!(<i16 as ColumnValue>::from_sqlserver(&SqlServerValue::Int(Some(1))), None);
    assert_eq!(<i16 as ColumnValue>::from_sqlserver(&SqlServerValue::TinyInt(Some(1))), None);
    assert_eq!(<i32 as ColumnValue>::from_sqlserver(&SqlServerValue::SmallInt(Some(1))), None);
    assert_eq!(<i32 as ColumnValue>::from_sqlserver(&SqlServerValue::BigInt(Some(1))), None);
    assert_eq!(<i32 as ColumnValue>::from_sqlserver(&SqlServerValue::TinyInt(Some(1))), None);
    assert_eq!(<i64 as ColumnValue>::from_sqlserver(&SqlServerValue::Int(Some(1))), None);
    assert_eq!(<i64 as ColumnValue>::from_sqlserver(&SqlServerValue::Bit(Some(true))), None);
    assert_eq!(<String as ColumnValue>::from_sqlserver(&SqlServerValue::Int(Some(1))), None);
    assert_eq!(<i32 as ColumnValue>::from_sqlserver(&SqlServerValue::Unsupported { null: false }), None);
    assert_eq!(<String as ColumnValue>::from_sqlserver(&SqlServerValue::Unsupported { null: false }), None);
    assert_eq!(
        <i32 as ColumnValue>::from_sqlserver(&SqlServerValue::Text(Some("1".to_string()))),
        None
    );
}

#[test]
fn sqlserver_null_is_no_value() {
    assert_eq!(<i32 as ColumnValue>::from_sqlserver(&SqlServerValue::Int(None)), None);
    assert_eq!(<i32 as ColumnValue>::from_sqlserver(&SqlServerValue::TinyInt(None)), None);
    assert_eq!(<String as ColumnValue>::from_sqlserver(&SqlServerValue::Text(None)), None);
    assert!(SqlServerValue::Int(None).is_null());
    assert!(SqlServerValue::TinyInt(None).is_null());
    assert!(SqlServerValue::Text(None).is_null());
    assert!(!SqlServerValue::Int(Some(0)).is_null());
    assert!(!SqlServerValue::Unsupported { null: false }.is_null());
}

#[test]
fn optional_read_tells_null_from_mismatch_on_postgres() {
    assert_eq!(read_postgres::<i32>(&pg_null(23)), Ok(None));
    assert_eq!(read_postgres::<i32>(&pg_null(25)), Ok(None));
    assert_eq!(read_postgres::<i32>(&pg(23, &[0, 0, 0, 7])), Ok(Some(7)));
    assert_eq!(read_postgres::<i32>(&pg(25, &[0, 0, 0, 7])), Err(ErrorKind::TypeMismatch));
    assert_eq!(read_postgres::<i32>(&pg(23, &[7])), Err(ErrorKind::TypeMismatch));
    assert_eq!(read_postgres::<String>(&pg(25, &[0xFF])), Err(ErrorKind::TypeMismatch));
    assert_eq!(read_postgres::<String>(&pg_null(25)), Ok(None));
}

#[test]
fn optional_read_tells_null_from_mismatch_on_sqlserver() {
    assert_eq!(read_sqlserver::<i32>(&SqlServerValue::Int(None)), Ok(None));
    assert_eq!(read_sqlserver::<i32>(&SqlServerValue::TinyInt(None)), Ok(None));
    assert_eq!(read_sqlserver::<i32>(&SqlServerValue::Text(None)), Ok(None));
    assert_eq!(read_sqlserver::<i32>(&SqlServerValue::Int(Some(7))), Ok(Some(7)));
    assert_eq!(
        read_sqlserver::<i32>(&SqlServerValue::BigInt(Some(7))),
        Err(ErrorKind::TypeMismatch)
    );
    assert_eq!(read_sqlserver::<i32>(&SqlServerValue::Unsupported { null: false }), Err(ErrorKind::TypeMismatch));
    assert_eq!(
        read_sqlserver::<String>(&SqlServerValue::Text(Some("a".to_string()))),
        Ok(Some("a".to_string()))
    );
}

#[test]
fn required_read_takes_null_for_a_mismatch() {
    assert_eq!(require_value(Ok(Some(3i32))), Ok(3));
    assert_eq!(require_value::<i32>(Ok(None)), Err(ErrorKind::TypeMismatch));
    assert_eq!(
        require_value::<i32>(Err(ErrorKind::ColumnNotFound)),
        Err(ErrorKind::ColumnNotFound)
    );
}

#[test]
fn dynamic_read_from_postgres() {
    assert_eq!(
        ParameterValue::from_postgres(ScalarKind::Int, &pg(23, &[0, 0, 0, 7])),
        Ok(ParameterValue::Int(Some(7)))
    );
    assert_eq!(
        ParameterValue::from_postgres(ScalarKind::Bool, &pg(16, &[0])),
        Ok(ParameterValue::Bool(Some(false)))
    );
    assert_eq!(
        ParameterValue::from_postgres(ScalarKind::SmallInt, &pg(21, &[0, 9])),
        Ok(ParameterValue::SmallInt(Some(9)))
    );
    assert_eq!(
        ParameterValue::from_postgres(ScalarKind::BigInt, &pg(20, &[0, 0, 0, 0, 0, 0, 0, 9])),
        Ok(ParameterValue::BigInt(Some(9)))
    );
    assert_eq!(
        ParameterValue::from_postgres(ScalarKind::Text, &pg(1043, &[97])),
        Ok(ParameterValue::Text(Some("a".to_string())))
    );
    assert_eq!(
        ParameterValue::from_postgres(ScalarKind::Text, &pg_null(23)),
        Ok(ParameterValue::Text(None))
    );
    assert_eq!(
        ParameterValue::from_postgres(ScalarKind::Int, &pg(25, &[0, 0, 0, 7])),
        Err(ErrorKind::TypeMismatch)
    );
}

#[test]
fn dynamic_read_from_sqlserver() {
    assert_eq!(
        ParameterValue::from_sqlserver(ScalarKind::Int, &SqlServerValue::Int(Some(7))),
        Ok(ParameterValue::Int(Some(7)))
    );
    assert_eq!(
        ParameterValue::from_sqlserver(ScalarKind::Bool, &SqlServerValue::Bit(Some(true))),
        Ok(ParameterValue::Bool(Some(true)))
    );
    assert_eq!(
        ParameterValue::from_sqlserver(ScalarKind::SmallInt, &SqlServerValue::SmallInt(Some(2))),
        Ok(ParameterValue::SmallInt(Some(2)))
    );
    assert_eq!(
        ParameterValue::from_sqlserver(ScalarKind::BigInt, &SqlServerValue::BigInt(Some(2))),
        Ok(ParameterValue::BigInt(Some(2)))
    );
    assert_eq!(
        ParameterValue::from_sqlserver(
            ScalarKind::Text,
            &SqlServerValue::Text(Some("a".to_string()))
        ),
        Ok(ParameterValue::Text(Some("a".to_string())))
    );
    assert_eq!(
        ParameterValue::from_sqlserver(ScalarKind::Int, &SqlServerValue::TinyInt(None)),
        Ok(ParameterValue::Int(None))
    );
    assert_eq!(
        ParameterValue::from_sqlserver(ScalarKind::Int, &SqlServerValue::SmallInt(Some(7))),
        Err(ErrorKind::TypeMismatch)
    );
}

fn sample_parameters() -> Vec<ParameterValue> {
    vec![
        ParameterValue::Bool(Some(true)),
        ParameterValue::Bool(Some(false)),
        ParameterValue::Bool(None),
        ParameterValue::SmallInt(Some(i16::MIN)),
        ParameterValue::SmallInt(Some(-1)),
        ParameterValue::SmallInt(Some(i16::MAX)),
        ParameterValue::SmallInt(None),
        ParameterValue::Int(Some(i32::MIN)),
        ParameterValue::Int(Some(0)),
        ParameterValue::Int(Some(i32::MAX)),
        ParameterValue::Int(None),
        ParameterValue::BigInt(Some(i64::MIN)),
        ParameterValue::BigInt(Some(-123_456_789_012)),
        ParameterValue::BigInt(Some(i64::MAX)),
        ParameterValue::BigInt(None),
        ParameterValue::Text(Some(String::new())),
        ParameterValue::Text(Some("League Europe Champions".to_string())),
        ParameterValue::Text(Some("日本語 😀 é".to_string())),
        ParameterValue::Text(None),
    ]
}

#[test]
fn every_parameter_comes_back_from_postgres() {
    for p in sample_parameters() {
        let native = p.as_postgres_param();
        assert_eq!(ParameterValue::from_postgres(p.kind(), &native), Ok(p.to_value()));
        assert_eq!(native.raw.is_none(), p.is_null());
    }
}

#[test]
fn every_parameter_comes_back_from_sqlserver() {
    for p in sample_parameters() {
        let native = p.as_sqlserver_param();
        assert_eq!(ParameterValue::from_sqlserver(p.kind(), &native), Ok(p.to_value()));
        assert_eq!(native.is_null(), p.is_null());
    }
}

#[test]
fn typed_values_come_back_from_both_backends() {
    for v in [i32::MIN, -1, 0, 1, 65_536, i32::MAX] {
        assert_eq!(read_postgres::<i32>(&v.as_postgres_param()), Ok(Some(v)));
        assert_eq!(read_sqlserver::<i32>(&v.as_sqlserver_param()), Ok(Some(v)));
    }
    for v in [i16::MIN, -1, 0, 255, 256, i16::MAX] {
        assert_eq!(read_postgres::<i16>(&v.as_postgres_param()), Ok(Some(v)));
        assert_eq!(read_sqlserver::<i16>(&v.as_sqlserver_param()), Ok(Some(v)));
    }
    for v in [i64::MIN, -1, 0, 4_294_967_296, i64::MAX] {
        assert_eq!(read_postgres::<i64>(&v.as_postgres_param()), Ok(Some(v)));
        assert_eq!(read_sqlserver::<i64>(&v.as_sqlserver_param()), Ok(Some(v)));
    }
    for v in [true, false] {
        assert_eq!(read_postgres::<bool>(&v.as_postgres_param()), Ok(Some(v)));
        assert_eq!(read_sqlserver::<bool>(&v.as_sqlserver_param()), Ok(Some(v)));
    }
    let text = "https://lec.eu".to_string();
    assert_eq!(read_postgres::<String>(&text.as_postgres_param()), Ok(Some(text.clone())));
    assert_eq!(read_sqlserver::<String>(&text.as_sqlserver_param()), Ok(Some(text)));
    assert_eq!(read_postgres::<i32>(&None::<i32>.as_postgres_param()), Ok(None));
    assert_eq!(read_sqlserver::<i32>(&None::<i32>.as_sqlserver_param()), Ok(None));
}
