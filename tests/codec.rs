use tester::codec::parse_unsigned_text;
use tester::codec::{
    Literal, MalformedLiteral, RuntimeValue, SafeSV, TAG_F32, TAG_F64, TAG_I32, TAG_I64,
};

fn lit_i32(s: &str) -> Literal {
    Literal::I32(s.to_string())
}

fn lit_i64(s: &str) -> Literal {
    Literal::I64(s.to_string())
}

fn lit_f32(s: &str) -> Literal {
    Literal::F32(s.to_string())
}

fn lit_f64(s: &str) -> Literal {
    Literal::F64(s.to_string())
}

#[test]
fn i32_literals_round_trip() {
    for (text, value) in [
        ("0", 0i32),
        ("5", 5),
        ("+7", 7),
        ("2147483647", i32::MAX),
        ("2147483648", i32::MIN),
        ("4294967295", -1),
        ("007", 7),
    ] {
        let v = lit_i32(text).encode().unwrap();
        assert_eq!(v.tag, TAG_I32);
        assert_eq!(v.decode(), SafeSV::I32(value));
        assert_eq!(value as u32 as u64, text.trim_start_matches('+').parse::<u64>().unwrap());
    }
}

#[test]
fn i64_literals_round_trip() {
    for (text, value) in [
        ("0", 0i64),
        ("123456789012", 123456789012),
        ("9223372036854775807", i64::MAX),
        ("9223372036854775808", i64::MIN),
        ("18446744073709551615", -1),
    ] {
        let v = lit_i64(text).encode().unwrap();
        assert_eq!(v.tag, TAG_I64);
        assert_eq!(v.decode(), SafeSV::I64(value));
    }
}

#[test]
fn malformed_integer_text_is_rejected() {
    for text in ["", "+", "-1", "-0", "12a", " 1", "4294967296", "nan:canonical", "1.5"] {
        assert_eq!(lit_i32(text).encode(), Err(MalformedLiteral), "{text:?}");
    }
    assert_eq!(lit_i64("18446744073709551616").encode(), Err(MalformedLiteral));
    assert_eq!(lit_i64("99999999999999999999999").encode(), Err(MalformedLiteral));
}

#[test]
fn f32_canonical_nan_bits() {
    let v = lit_f32("nan:canonical").encode().unwrap();
    assert_eq!(v, RuntimeValue { tag: TAG_F32, payload: 0x7fc0_0000 });
    assert_eq!(v.decode(), SafeSV::F32(0x7fc0_0000));
    assert!(f32::from_bits(0x7fc0_0000).is_nan());
}

#[test]
fn f64_canonical_nan_bits() {
    let v = lit_f64("nan:canonical").encode().unwrap();
    assert_eq!(v, RuntimeValue { tag: TAG_F64, payload: 0x7ff8_0000_0000_0000 });
    assert_eq!(v.decode(), SafeSV::F64(0x7ff8_0000_0000_0000));
}

#[test]
fn f32_arithmetic_nan_bits() {
    let v = lit_f32("nan:arithmetic").encode().unwrap();
    assert_eq!(v, RuntimeValue { tag: TAG_F32, payload: 0x7fc0_0001 });
}

#[test]
fn f64_arithmetic_nan_bits() {
    let v = lit_f64("nan:arithmetic").encode().unwrap();
    assert_eq!(v, RuntimeValue { tag: TAG_F64, payload: 0x7ff8_0000_0000_0001 });
}

#[test]
fn float_text_is_a_bit_pattern() {
    let v = lit_f32("1065353216").encode().unwrap();
    assert_eq!(v.decode(), SafeSV::F32(1.0f32.to_bits()));
    let v = lit_f64("4611686018427387904").encode().unwrap();
    assert_eq!(v.decode(), SafeSV::F64(2.0f64.to_bits()));
    assert_eq!(lit_f32("4294967296").encode(), Err(MalformedLiteral));
    assert_eq!(lit_f32("1.0").encode(), Err(MalformedLiteral));
    assert_eq!(lit_f32("nan").encode(), Err(MalformedLiteral));
    assert_eq!(lit_f64("nan:Canonical").encode(), Err(MalformedLiteral));
}

#[test]
fn unknown_tag_decodes_to_invalid() {
    assert_eq!(RuntimeValue { tag: 0x40, payload: 5 }.decode(), SafeSV::Invalid);
    assert_eq!(RuntimeValue { tag: 0, payload: 0 }.decode(), SafeSV::Invalid);
}

#[test]
fn narrow_values_read_the_low_half() {
    let v = RuntimeValue { tag: TAG_I32, payload: 0xdead_beef_ffff_fffe };
    assert_eq!(v.decode(), SafeSV::I32(-2));
    let v = RuntimeValue { tag: TAG_F32, payload: 0x1234_5678_3f80_0000 };
    assert_eq!(v.decode(), SafeSV::F32(0x3f80_0000));
}

#[test]
fn text_comparison() {
    assert!(tester::codec::same_text("abc", "abc"));
    assert!(!tester::codec::same_text("abc", "abd"));
    assert!(!tester::codec::same_text("abc", "ab"));
    assert!(tester::codec::same_text("", ""));
}

#[test]
fn unsigned_parsing_respects_the_bound() {
    assert_eq!(parse_unsigned_text("255", 255), Some(255));
    assert_eq!(parse_unsigned_text("256", 255), None);
    assert_eq!(parse_unsigned_text("18446744073709551615", u64::MAX), Some(u64::MAX));
    assert_eq!(parse_unsigned_text("+0", 0), Some(0));
    assert_eq!(parse_unsigned_text("++1", 10), None);
}
