//! The comparator: whether an observed value matches an expected one.
use vstd::prelude::*;

use crate::codec::SafeSV;

verus! {

/// A 32-bit float bit pattern is a NaN: all exponent bits set, a nonzero
/// fraction.
pub open spec fn is_nan32(bits: u32) -> bool {
    bits & 0x7f80_0000 == 0x7f80_0000 && bits & 0x007f_ffff != 0
}

/// A 64-bit float bit pattern is a NaN: all exponent bits set, a nonzero
/// fraction.
pub open spec fn is_nan64(bits: u64) -> bool {
    bits & 0x7ff0_0000_0000_0000 == 0x7ff0_0000_0000_0000 && bits & 0x000f_ffff_ffff_ffff != 0
}

/// The strict matching rule. Values of different kinds never match;
/// integers match when equal; floats of one width match when their bits are
/// identical or both are NaN, whatever the payloads; `Invalid` matches
/// nothing, itself included.
pub open spec fn matches_value(observed: SafeSV, expected: SafeSV) -> bool {
    match (observed, expected) {
        (SafeSV::U32(a), SafeSV::U32(b)) => a == b,
        (SafeSV::I32(a), SafeSV::I32(b)) => a == b,
        (SafeSV::U64(a), SafeSV::U64(b)) => a == b,
        (SafeSV::I64(a), SafeSV::I64(b)) => a == b,
        (SafeSV::F32(a), SafeSV::F32(b)) => a == b || (is_nan32(a) && is_nan32(b)),
        (SafeSV::F64(a), SafeSV::F64(b)) => a == b || (is_nan64(a) && is_nan64(b)),
        _ => false,
    }
}

/// Both values are floats of the same width.
pub open spec fn same_float_width(a: SafeSV, b: SafeSV) -> bool {
    (a is F32 && b is F32) || (a is F64 && b is F64)
}

pub open spec fn is_integer(v: SafeSV) -> bool {
    v is U32 || v is I32 || v is U64 || v is I64
}

pub open spec fn is_float(v: SafeSV) -> bool {
    v is F32 || v is F64
}

/// Whether a 32-bit float bit pattern is a NaN.
pub fn nan32(bits: u32) -> (r: bool)
    ensures
        r == is_nan32(bits),
{
    bits & 0x7f80_0000 == 0x7f80_0000 && bits & 0x007f_ffff != 0
}

/// Whether a 64-bit float bit pattern is a NaN.
pub fn nan64(bits: u64) -> (r: bool)
    ensures
        r == is_nan64(bits),
{
    bits & 0x7ff0_0000_0000_0000 == 0x7ff0_0000_0000_0000 && bits & 0x000f_ffff_ffff_ffff != 0
}

/// Judges an observed value against an expected one by the strict rule.
pub fn equal(observed: &SafeSV, expected: &SafeSV) -> (r: bool)
    ensures
        r == matches_value(*observed, *expected),
{
    match (observed, expected) {
        (SafeSV::U32(a), SafeSV::U32(b)) => *a == *b,
        (SafeSV::I32(a), SafeSV::I32(b)) => *a == *b,
        (SafeSV::U64(a), SafeSV::U64(b)) => *a == *b,
        (SafeSV::I64(a), SafeSV::I64(b)) => *a == *b,
        (SafeSV::F32(a), SafeSV::F32(b)) => *a == *b || (nan32(*a) && nan32(*b)),
        (SafeSV::F64(a), SafeSV::F64(b)) => *a == *b || (nan64(*a) && nan64(*b)),
        _ => false,
    }
}

/// Whether both values are floats of one width, so that a numeric
/// tolerance could be weighed between them.
pub fn floats_of_same_width(a: &SafeSV, b: &SafeSV) -> (r: bool)
    ensures
        r == same_float_width(*a, *b),
{
    match (a, b) {
        (SafeSV::F32(_), SafeSV::F32(_)) => true,
        (SafeSV::F64(_), SafeSV::F64(_)) => true,
        _ => false,
    }
}

/// Any two 32-bit NaNs match, whatever their payloads.
pub proof fn lemma_nan32_matches_nan32(a: u32, b: u32)
    requires
        is_nan32(a),
        is_nan32(b),
    ensures
        matches_value(SafeSV::F32(a), SafeSV::F32(b)),
{
}

/// Any two 64-bit NaNs match, whatever their payloads.
pub proof fn lemma_nan64_matches_nan64(a: u64, b: u64)
    requires
        is_nan64(a),
        is_nan64(b),
    ensures
        matches_value(SafeSV::F64(a), SafeSV::F64(b)),
{
}

/// An integer never matches a float, in either order.
pub proof fn lemma_integer_never_matches_float(i: SafeSV, f: SafeSV)
    requires
        is_integer(i),
        is_float(f),
    ensures
        !matches_value(i, f),
        !matches_value(f, i),
{
}

/// An invalid value matches nothing, on either side.
pub proof fn lemma_invalid_matches_nothing(v: SafeSV)
    ensures
        !matches_value(SafeSV::Invalid, v),
        !matches_value(v, SafeSV::Invalid),
{
}

} // verus!
