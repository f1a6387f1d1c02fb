use tester::codec::SafeSV;
use tester::compare::{equal, floats_of_same_width, nan32, nan64};

#[test]
fn nan_matches_nan_whatever_the_payload() {
    assert!(equal(&SafeSV::F32(0x7fc0_0000), &SafeSV::F32(0x7fc0_0001)));
    assert!(equal(&SafeSV::F32(0xffc0_1234), &SafeSV::F32(0x7f80_0001)));
    assert!(equal(&SafeSV::F64(0x7ff8_0000_0000_0000), &SafeSV::F64(0xfff0_0000_0000_0001)));
}

#[test]
fn integer_never_matches_float() {
    for x in [0u32, 1, 0x7fc0_0000] {
        assert!(!equal(&SafeSV::I32(x as i32), &SafeSV::F32(x)));
        assert!(!equal(&SafeSV::F32(x), &SafeSV::I32(x as i32)));
        assert!(!equal(&SafeSV::U32(x), &SafeSV::F32(x)));
        assert!(!equal(&SafeSV::I64(x as i64), &SafeSV::F64(x as u64)));
    }
}

#[test]
fn widths_and_kinds_must_agree() {
    assert!(!equal(&SafeSV::I32(5), &SafeSV::I64(5)));
    assert!(!equal(&SafeSV::F32(0x7fc0_0000), &SafeSV::F64(0x7ff8_0000_0000_0000)));
    assert!(!equal(&SafeSV::U32(5), &SafeSV::I32(5)));
}

#[test]
fn invalid_matches_nothing() {
    assert!(!equal(&SafeSV::Invalid, &SafeSV::Invalid));
    assert!(!equal(&SafeSV::Invalid, &SafeSV::I32(0)));
    assert!(!equal(&SafeSV::I32(0), &SafeSV::Invalid));
}

#[test]
fn integers_match_exactly() {
    assert!(equal(&SafeSV::I32(-7), &SafeSV::I32(-7)));
    assert!(!equal(&SafeSV::I32(-7), &SafeSV::I32(7)));
    assert!(equal(&SafeSV::U64(u64::MAX), &SafeSV::U64(u64::MAX)));
    assert!(!equal(&SafeSV::I64(1), &SafeSV::I64(2)));
}

#[test]
fn floats_match_by_bits() {
    assert!(equal(&SafeSV::F32(1.5f32.to_bits()), &SafeSV::F32(1.5f32.to_bits())));
    assert!(!equal(&SafeSV::F32(0.0f32.to_bits()), &SafeSV::F32((-0.0f32).to_bits())));
    assert!(!equal(&SafeSV::F64(1.0f64.to_bits()), &SafeSV::F64(1.5f64.to_bits())));
    assert!(!equal(&SafeSV::F32(f32::INFINITY.to_bits()), &SafeSV::F32(0x7fc0_0000)));
}

#[test]
fn nan_classification() {
    assert!(nan32(0x7fc0_0000));
    assert!(nan32(0xff80_0001));
    assert!(!nan32(0x7f80_0000));
    assert!(!nan32(0x3f80_0000));
    assert!(nan64(0x7ff8_0000_0000_0000));
    assert!(!nan64(0x7ff0_0000_0000_0000));
    assert!(nan64(f64::NAN.to_bits()));
}

#[test]
fn same_width_floats() {
    assert!(floats_of_same_width(&SafeSV::F32(1), &SafeSV::F32(2)));
    assert!(floats_of_same_width(&SafeSV::F64(1), &SafeSV::F64(2)));
    assert!(!floats_of_same_width(&SafeSV::F32(1), &SafeSV::F64(2)));
    assert!(!floats_of_same_width(&SafeSV::I32(1), &SafeSV::I32(2)));
}
