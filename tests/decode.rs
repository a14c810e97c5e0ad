use api_bindings::deserialize_null_boolean;
use api_bindings::deserialize_null_i32;
use api_bindings::deserialize_null_i64;
use api_bindings::deserialize_null_string;
use api_bindings::utils::{encode_bool, encode_i32, encode_i64, encode_string, zero_i32, zero_i64};
use api_bindings::wire::{DecodeError, WireValue};

fn text(s: &str) -> WireValue {
    WireValue::Text(s.to_string())
}

#[test]
fn string_missing_is_empty() {
    assert_eq!(deserialize_null_string::deserialize(&WireValue::Absent), "");
    assert_eq!(deserialize_null_string::deserialize(&WireValue::Null), "");
}

#[test]
fn string_passes_through() {
    assert_eq!(deserialize_null_string::deserialize(&text("héllo world")), "héllo world");
    assert_eq!(deserialize_null_string::deserialize(&text("")), "");
}

#[test]
fn string_of_other_kind_is_empty() {
    assert_eq!(deserialize_null_string::deserialize(&WireValue::Signed(5)), "");
    assert_eq!(deserialize_null_string::deserialize(&WireValue::Bool(true)), "");
    assert!(matches!(
        deserialize_null_string::strict(&WireValue::Compound),
        Err(DecodeError::InvalidType)
    ));
    assert!(matches!(deserialize_null_string::strict(&WireValue::Null), Err(DecodeError::Missing)));
}

#[test]
fn bool_native_passes_through() {
    assert!(deserialize_null_boolean::deserialize(&WireValue::Bool(true)));
    assert!(!deserialize_null_boolean::deserialize(&WireValue::Bool(false)));
}

#[test]
fn bool_text_is_parsed() {
    assert!(deserialize_null_boolean::deserialize(&text("true")));
    assert!(!deserialize_null_boolean::deserialize(&text("false")));
    assert_eq!(deserialize_null_boolean::strict(&text("false")), Ok(false));
}

#[test]
fn bool_other_text_is_false() {
    for s in ["True", "TRUE", "1", "0", "yes", "", " true"] {
        assert!(!deserialize_null_boolean::deserialize(&text(s)), "{}", s);
        assert_eq!(deserialize_null_boolean::strict(&text(s)), Err(DecodeError::InvalidValue));
    }
    assert_eq!(deserialize_null_boolean::parse_bool_text("true"), Some(true));
    assert_eq!(deserialize_null_boolean::parse_bool_text("fals"), None);
}

#[test]
fn bool_missing_is_false() {
    assert!(!deserialize_null_boolean::deserialize(&WireValue::Absent));
    assert!(!deserialize_null_boolean::deserialize(&WireValue::Null));
    assert_eq!(deserialize_null_boolean::strict(&WireValue::Null), Err(DecodeError::Missing));
    assert_eq!(deserialize_null_boolean::strict(&WireValue::Signed(1)), Err(DecodeError::InvalidType));
}

#[test]
fn i32_in_range_is_exact() {
    assert_eq!(deserialize_null_i32::deserialize(&WireValue::Signed(-2147483648)), i32::MIN);
    assert_eq!(deserialize_null_i32::deserialize(&WireValue::Signed(2147483647)), i32::MAX);
    assert_eq!(deserialize_null_i32::deserialize(&WireValue::Unsigned(2147483647)), i32::MAX);
    assert_eq!(deserialize_null_i32::deserialize(&WireValue::Signed(-7)), -7);
    assert_eq!(deserialize_null_i32::deserialize(&WireValue::Unsigned(42)), 42);
}

#[test]
fn i32_out_of_range_is_zero() {
    assert_eq!(deserialize_null_i32::deserialize(&WireValue::Signed(2147483648)), 0);
    assert_eq!(deserialize_null_i32::deserialize(&WireValue::Signed(-2147483649)), 0);
    assert_eq!(deserialize_null_i32::deserialize(&WireValue::Unsigned(3000000000)), 0);
    assert_eq!(deserialize_null_i32::strict(&WireValue::Signed(i64::MAX)), Err(DecodeError::OutOfRange));
}

#[test]
fn i32_missing_or_other_is_zero() {
    assert_eq!(deserialize_null_i32::deserialize(&WireValue::Absent), 0);
    assert_eq!(deserialize_null_i32::deserialize(&WireValue::Null), 0);
    assert_eq!(deserialize_null_i32::deserialize(&WireValue::Fractional), 0);
    assert_eq!(deserialize_null_i32::deserialize(&text("12")), 0);
}

#[test]
fn i64_wraps_large_unsigned() {
    assert_eq!(deserialize_null_i64::deserialize(&WireValue::Unsigned(u64::MAX)), -1);
    assert_eq!(deserialize_null_i64::deserialize(&WireValue::Unsigned(1u64 << 63)), i64::MIN);
    assert_eq!(
        deserialize_null_i64::deserialize(&WireValue::Unsigned(9223372036854775807)),
        i64::MAX
    );
    assert_eq!(deserialize_null_i64::deserialize(&WireValue::Signed(-5)), -5);
}

#[test]
fn i64_missing_or_other_is_zero() {
    assert_eq!(deserialize_null_i64::deserialize(&WireValue::Absent), 0);
    assert_eq!(deserialize_null_i64::deserialize(&WireValue::Null), 0);
    assert_eq!(deserialize_null_i64::deserialize(&WireValue::Bool(true)), 0);
    assert_eq!(deserialize_null_i64::strict(&WireValue::Fractional), Err(DecodeError::InvalidType));
}

#[test]
fn zero_predicates() {
    assert!(zero_i32(&0));
    assert!(!zero_i32(&-1));
    assert!(zero_i64(&0));
    assert!(!zero_i64(&i64::MIN));
}

#[test]
fn defaults_round_trip_to_absent() {
    for v in [WireValue::Absent, WireValue::Null] {
        let s = deserialize_null_string::deserialize(&v);
        assert!(matches!(encode_string(s), WireValue::Absent));
        let b = deserialize_null_boolean::deserialize(&v);
        assert!(matches!(encode_bool(b), WireValue::Absent));
        let x = deserialize_null_i32::deserialize(&v);
        assert!(matches!(encode_i32(x), WireValue::Absent));
        let y = deserialize_null_i64::deserialize(&v);
        assert!(matches!(encode_i64(y), WireValue::Absent));
    }
    assert_eq!(deserialize_null_i32::deserialize(&encode_i32(0)), 0);
}

#[test]
fn non_defaults_are_written() {
    assert!(matches!(encode_i32(7), WireValue::Signed(7)));
    assert!(matches!(encode_i64(-3), WireValue::Signed(-3)));
    assert!(matches!(encode_bool(true), WireValue::Bool(true)));
    match encode_string("x".to_string()) {
        WireValue::Text(s) => assert_eq!(s, "x"),
        _ => panic!("expected text"),
    }
}
