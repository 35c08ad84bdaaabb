use mariadb::encryption::trunc_or_extend;
use mariadb::util::str2bool;
use mariadb::value::{parse_i64, parse_value, FieldType, Value};
use mariadb::version::{parse_version_str, version_int, VersionError};

#[test]
fn test_version_int() {
    assert_eq!(version_int("5.2"), Ok(0x0502));
    assert_eq!(version_int("11.0"), Ok(0x0b00));
}

#[test]
fn test_parse_version_str() {
    assert_eq!(parse_version_str("1.2"), 0x0102);
    assert_eq!(parse_version_str("0.1"), 0x0001);
    assert_eq!(parse_version_str("100.255"), 0x64ff);
}

#[test]
fn version_int_round_trips_each_part() {
    let packed = version_int("0.1").unwrap();
    assert_eq!(packed, 0x0001);
    assert_eq!(packed >> 8, 0);
    assert_eq!(packed & 0xff, 1);

    let packed = version_int("255.255").unwrap();
    assert_eq!(packed >> 8, 255);
    assert_eq!(packed & 0xff, 255);
}

#[test]
fn version_int_accepts_a_leading_plus() {
    assert_eq!(version_int("+5.2"), Ok(0x0502));
}

#[test]
fn version_int_rejects_missing_separator() {
    assert_eq!(version_int("52"), Err(VersionError::MissingSeparator));
    assert_eq!(version_int("5.2.1"), Err(VersionError::MissingSeparator));
    assert_eq!(version_int(""), Err(VersionError::MissingSeparator));
}

#[test]
fn version_int_rejects_non_numbers() {
    assert_eq!(version_int("a.2"), Err(VersionError::NotANumber));
    assert_eq!(version_int(".5"), Err(VersionError::NotANumber));
    assert_eq!(version_int("5."), Err(VersionError::NotANumber));
    assert_eq!(version_int("5.2x"), Err(VersionError::NotANumber));
}

#[test]
fn version_int_rejects_oversized_parts() {
    assert_eq!(version_int("300.1"), Err(VersionError::PartTooLarge));
    assert_eq!(version_int("1.256"), Err(VersionError::PartTooLarge));
}

#[test]
fn trunc_or_extend_keeps_exact_input() {
    let (out, ok, action) = trunc_or_extend(4, &[1, 2, 3, 4]);
    assert_eq!(out, vec![1, 2, 3, 4]);
    assert!(ok);
    assert_eq!(action, "");
}

#[test]
fn trunc_or_extend_zero_extends_short_input() {
    let (out, ok, action) = trunc_or_extend(6, &[9, 8]);
    assert_eq!(out, vec![9, 8, 0, 0, 0, 0]);
    assert!(!ok);
    assert_eq!(action, "Zero extending");
}

#[test]
fn trunc_or_extend_truncates_long_input() {
    let (out, ok, action) = trunc_or_extend(2, &[7, 6, 5]);
    assert_eq!(out, vec![7, 6]);
    assert!(!ok);
    assert_eq!(action, "Truncating");
}

#[test]
fn str2bool_reads_boolean_words() {
    assert_eq!(str2bool("on"), Some(true));
    assert_eq!(str2bool("TRUE"), Some(true));
    assert_eq!(str2bool("1"), Some(true));
    assert_eq!(str2bool("Off"), Some(false));
    assert_eq!(str2bool("false"), Some(false));
    assert_eq!(str2bool("0"), Some(false));
    assert_eq!(str2bool("maybe"), None);
    assert_eq!(str2bool(""), None);
}

#[test]
fn parse_i64_reads_signed_decimals() {
    assert_eq!(parse_i64(b"0"), 0);
    assert_eq!(parse_i64(b"12345"), 12345);
    assert_eq!(parse_i64(b"-987"), -987);
    assert_eq!(parse_i64(b"9223372036854775807"), i64::MAX);
    assert_eq!(parse_i64(b"-9223372036854775808"), i64::MIN);
}

#[test]
fn parse_value_recovers_typed_columns() {
    match parse_value(FieldType::Tiny, b"-12") {
        Value::I8(v) => assert_eq!(v, -12),
        _ => panic!("wrong variant"),
    }
    match parse_value(FieldType::Short, b"300") {
        Value::I16(v) => assert_eq!(v, 300),
        _ => panic!("wrong variant"),
    }
    match parse_value(FieldType::Long, b"70000") {
        Value::Long(v) => assert_eq!(v, 70000),
        _ => panic!("wrong variant"),
    }
    match parse_value(FieldType::LongLong, b"-5000000000") {
        Value::LongLong(v) => assert_eq!(v, -5000000000),
        _ => panic!("wrong variant"),
    }
    match parse_value(FieldType::Null, b"") {
        Value::Null => {}
        _ => panic!("wrong variant"),
    }
    match parse_value(FieldType::FieldString, b"abc") {
        Value::Text(b) => assert_eq!(b, b"abc"),
        _ => panic!("wrong variant"),
    }
    match parse_value(FieldType::Blob, b"\x01\x02") {
        Value::Blob(b) => assert_eq!(b, &[1, 2]),
        _ => panic!("wrong variant"),
    }
}

#[test]
fn parsed_values_expose_ints_and_bytes() {
    let v = parse_value(FieldType::Long, b"42");
    assert_eq!(v.as_int(), Some(42));
    assert_eq!(v.as_bytes(), None);
    let v = parse_value(FieldType::Decimal, b"1.5");
    assert_eq!(v.as_int(), None);
    assert_eq!(v.as_bytes().unwrap(), b"1.5");
}
