//! The value codec: textual test literals, the engine's tagged runtime
//! values, and their decoded form.
use vstd::prelude::*;

verus! {

/// Type tag of a 32-bit integer value.
pub const TAG_I32: u8 = 0x7f;

/// Type tag of a 64-bit integer value.
pub const TAG_I64: u8 = 0x7e;

/// Type tag of a 32-bit float value.
pub const TAG_F32: u8 = 0x7d;

/// Type tag of a 64-bit float value.
pub const TAG_F64: u8 = 0x7c;

/// Bits of the 32-bit canonical NaN: quiet, with a zero payload.
pub const CANONICAL_NAN_32: u32 = 0x7fc0_0000;

/// Bits of the 32-bit arithmetic NaN used for tests: quiet, payload low bit set.
pub const ARITHMETIC_NAN_32: u32 = 0x7fc0_0001;

/// Bits of the 64-bit canonical NaN: quiet, with a zero payload.
pub const CANONICAL_NAN_64: u64 = 0x7ff8_0000_0000_0000;

/// Bits of the 64-bit arithmetic NaN used for tests: quiet, payload low bit set.
pub const ARITHMETIC_NAN_64: u64 = 0x7ff8_0000_0000_0001;

/// A value as a test script writes it: a type and a text. Integer text is
/// unsigned decimal; float text is the bit pattern as an unsigned decimal
/// integer, or one of `nan:canonical` and `nan:arithmetic`.
#[derive(Debug, PartialEq, Eq)]
pub enum Literal {
    I32(String),
    I64(String),
    F32(String),
    F64(String),
}

/// A value as the engine holds it: a one-byte type tag and an 8-byte payload.
/// A 32-bit value sits in the low 32 bits of the payload.
#[derive(Debug, Clone, Copy, PartialEq, Eq, Structural)]
pub struct RuntimeValue {
    pub tag: u8,
    pub payload: u64,
}

/// A decoded runtime value. Floats are held as their bit patterns.
#[derive(Debug, Clone, Copy, PartialEq, Eq, Structural)]
pub enum SafeSV {
    U32(u32),
    I32(i32),
    U64(u64),
    I64(i64),
    F32(u32),
    F64(u64),
    Invalid,
}

/// Literal text that neither names a NaN class nor is a number in range.
#[derive(Debug, Clone, Copy, PartialEq, Eq, Structural)]
pub struct MalformedLiteral;

/// A character in `'0'..='9'`.
pub open spec fn is_digit(c: char) -> bool {
    '0' <= c && c <= '9'
}

/// The numeric value of a decimal digit.
pub open spec fn digit_value(c: char) -> int {
    c as int - '0' as int
}

pub open spec fn all_digits(s: Seq<char>) -> bool {
    forall|i: int| 0 <= i < s.len() ==> is_digit(#[trigger] s[i])
}

/// The value of a string of decimal digits, most significant first.
pub open spec fn decimal_value(s: Seq<char>) -> int
    decreases s.len(),
{
    if s.len() == 0 {
        0
    } else {
        10 * decimal_value(s.drop_last()) + digit_value(s.last())
    }
}

/// The digits of an unsigned decimal literal, past an optional leading `+`.
pub open spec fn unsigned_digits(s: Seq<char>) -> Seq<char> {
    if s.len() > 0 && s[0] == '+' {
        s.drop_first()
    } else {
        s
    }
}

/// Unsigned decimal text: an optional `+`, then one digit or more.
pub open spec fn is_unsigned_text(s: Seq<char>) -> bool {
    unsigned_digits(s).len() > 0 && all_digits(unsigned_digits(s))
}

pub open spec fn unsigned_value(s: Seq<char>) -> int {
    decimal_value(unsigned_digits(s))
}

/// The value of unsigned decimal text that does not exceed `max`.
pub open spec fn parse_unsigned(s: Seq<char>, max: int) -> Option<int> {
    if is_unsigned_text(s) && unsigned_value(s) <= max {
        Some(unsigned_value(s))
    } else {
        None
    }
}

proof fn lemma_decimal_value_nonneg(s: Seq<char>)
    requires
        all_digits(s),
    ensures
        decimal_value(s) >= 0,
    decreases s.len(),
{
    if s.len() > 0 {
        assert(all_digits(s.drop_last())) by {
            assert forall|i: int| 0 <= i < s.drop_last().len() implies is_digit(
                #[trigger] s.drop_last()[i],
            ) by {
                assert(is_digit(s[i]));
            }
        }
        lemma_decimal_value_nonneg(s.drop_last());
        assert(is_digit(s[s.len() - 1]));
    }
}

/// A longer string of digits is worth at least as much as its prefix.
proof fn lemma_prefix_value_le(s: Seq<char>, k: int)
    requires
        all_digits(s),
        0 <= k <= s.len(),
    ensures
        decimal_value(s.subrange(0, k)) <= decimal_value(s),
    decreases s.len() - k,
{
    if k < s.len() {
        let p = s.subrange(0, k + 1);
        assert(p.drop_last() =~= s.subrange(0, k));
        assert(all_digits(s.subrange(0, k))) by {
            assert forall|i: int| 0 <= i < k implies is_digit(#[trigger] s.subrange(0, k)[i]) by {
                assert(is_digit(s[i]));
            }
        }
        lemma_decimal_value_nonneg(s.subrange(0, k));
        assert(is_digit(s[k]));
        lemma_prefix_value_le(s, k + 1);
    } else {
        assert(s.subrange(0, k) =~= s);
    }
}

/// Parses unsigned decimal text as `u64::from_str` does for a type whose
/// largest value is `max`: an optional `+`, then digits, with no overflow.
pub fn parse_unsigned_text(s: &str, max: u64) -> (r: Option<u64>)
    ensures
        r is Some <==> parse_unsigned(s@, max as int) is Some,
        r is Some ==> r->0 as int == parse_unsigned(s@, max as int)->0,
{
    let n = s.unicode_len();
    let mut start: usize = 0;
    if n > 0 && s.get_char(0) == '+' {
        start = 1;
    }
    let ghost d = unsigned_digits(s@);
    assert(d =~= s@.subrange(start as int, n as int));
    if start == n {
        assert(d.len() == 0);
        return None;
    }
    let mut i: usize = start;
    let mut acc: u64 = 0;
    assert(d.subrange(0, 0) =~= Seq::<char>::empty());
    while i < n
        invariant
            start <= i <= n,
            n == s@.len(),
            d == unsigned_digits(s@),
            d =~= s@.subrange(start as int, n as int),
            all_digits(d.subrange(0, i - start)),
            acc as int == decimal_value(d.subrange(0, i - start)),
            acc <= max,
        decreases n - i,
    {
        let c = s.get_char(i);
        let ghost k = i - start;
        assert(d[k] == c);
        if !('0' <= c && c <= '9') {
            assert(!all_digits(d));
            return None;
        }
        let digit = (c as u32 - '0' as u32) as u64;
        assert(d.subrange(0, k + 1).drop_last() =~= d.subrange(0, k));
        assert(decimal_value(d.subrange(0, k + 1)) == 10 * acc + digit);
        assert(all_digits(d.subrange(0, k + 1))) by {
            assert forall|j: int| 0 <= j < k + 1 implies is_digit(
                #[trigger] d.subrange(0, k + 1)[j],
            ) by {
                if j < k {
                    assert(d.subrange(0, k + 1)[j] == d.subrange(0, k)[j]);
                }
            }
        }
        if digit > max || acc > (max - digit) / 10 {
            proof {
                assert(acc * 10 + digit > max) by (nonlinear_arith)
                    requires
                        digit > max || acc > (max - digit) / 10,
                        acc >= 0,
                ;
                if all_digits(d) {
                    lemma_prefix_value_le(d, k + 1);
                    assert(decimal_value(d) > max);
                }
            }
            return None;
        }
        assert(acc * 10 + digit <= max) by (nonlinear_arith)
            requires
                digit <= max,
                acc <= (max - digit) / 10,
        ;
        acc = acc * 10 + digit;
        i = i + 1;
    }
    assert(d.subrange(0, n - start) =~= d);
    Some(acc)
}

/// The signed integer that 32 bits stand for in two's complement.
pub open spec fn signed32(bits: int) -> int {
    if bits < 0x8000_0000 {
        bits
    } else {
        bits - 0x1_0000_0000
    }
}

/// The signed integer that 64 bits stand for in two's complement.
pub open spec fn signed64(bits: int) -> int {
    if bits < 0x8000_0000_0000_0000 {
        bits
    } else {
        bits - 0x1_0000_0000_0000_0000
    }
}

/// The two's complement bits of a 32-bit signed integer.
pub open spec fn bits_of_i32(x: i32) -> int {
    if x >= 0 {
        x as int
    } else {
        x + 0x1_0000_0000
    }
}

/// The two's complement bits of a 64-bit signed integer.
pub open spec fn bits_of_i64(x: i64) -> int {
    if x >= 0 {
        x as int
    } else {
        x + 0x1_0000_0000_0000_0000
    }
}

/// The low 32 bits of a payload.
pub open spec fn low32(payload: u64) -> int {
    payload as int % 0x1_0000_0000
}

/// Float text: a NaN class by name, else a bit pattern no larger than `max`.
pub open spec fn float_bits(s: Seq<char>, canonical: int, arithmetic: int, max: int) -> Option<int> {
    if s == "nan:canonical"@ {
        Some(canonical)
    } else if s == "nan:arithmetic"@ {
        Some(arithmetic)
    } else {
        parse_unsigned(s, max)
    }
}

/// The runtime value with the given tag and payload, if the payload is there.
pub open spec fn tagged(tag: u8, payload: Option<int>) -> Option<RuntimeValue> {
    match payload {
        Some(p) => Some(RuntimeValue { tag, payload: p as u64 }),
        None => None,
    }
}

/// What a literal encodes to; `None` where its text is malformed.
pub open spec fn encoded(lit: Literal) -> Option<RuntimeValue> {
    match lit {
        Literal::I32(s) => tagged(TAG_I32, parse_unsigned(s@, u32::MAX as int)),
        Literal::I64(s) => tagged(TAG_I64, parse_unsigned(s@, u64::MAX as int)),
        Literal::F32(s) => tagged(
            TAG_F32,
            float_bits(s@, CANONICAL_NAN_32 as int, ARITHMETIC_NAN_32 as int, u32::MAX as int),
        ),
        Literal::F64(s) => tagged(
            TAG_F64,
            float_bits(s@, CANONICAL_NAN_64 as int, ARITHMETIC_NAN_64 as int, u64::MAX as int),
        ),
    }
}

/// What a runtime value decodes to; an unknown tag decodes to `Invalid`.
pub open spec fn decoded(v: RuntimeValue) -> SafeSV {
    if v.tag == TAG_I64 {
        SafeSV::I64(signed64(v.payload as int) as i64)
    } else if v.tag == TAG_I32 {
        SafeSV::I32(signed32(low32(v.payload)) as i32)
    } else if v.tag == TAG_F32 {
        SafeSV::F32(low32(v.payload) as u32)
    } else if v.tag == TAG_F64 {
        SafeSV::F64(v.payload)
    } else {
        SafeSV::Invalid
    }
}

/// Whether two texts hold the same characters.
pub fn same_text(a: &str, b: &str) -> (r: bool)
    ensures
        r == (a@ == b@),
{
    let n = a.unicode_len();
    if n != b.unicode_len() {
        return false;
    }
    let mut i: usize = 0;
    while i < n
        invariant
            i <= n,
            n == a@.len(),
            n == b@.len(),
            a@.subrange(0, i as int) =~= b@.subrange(0, i as int),
        decreases n - i,
    {
        if a.get_char(i) != b.get_char(i) {
            return false;
        }
        assert(a@.subrange(0, i + 1) =~= a@.subrange(0, i as int).push(a@[i as int]));
        assert(b@.subrange(0, i + 1) =~= b@.subrange(0, i as int).push(b@[i as int]));
        i = i + 1;
    }
    assert(a@ =~= a@.subrange(0, n as int));
    assert(b@ =~= b@.subrange(0, n as int));
    true
}

fn float_text_bits(s: &str, canonical: u64, arithmetic: u64, max: u64) -> (r: Option<u64>)
    ensures
        r is Some <==> float_bits(s@, canonical as int, arithmetic as int, max as int) is Some,
        r is Some ==> r->0 as int == float_bits(
            s@,
            canonical as int,
            arithmetic as int,
            max as int,
        )->0,
{
    if same_text(s, "nan:canonical") {
        Some(canonical)
    } else if same_text(s, "nan:arithmetic") {
        Some(arithmetic)
    } else {
        parse_unsigned_text(s, max)
    }
}

/// The signed reading of 32 bits.
fn i32_from_bits(bits: u32) -> (r: i32)
    ensures
        r as int == signed32(bits as int),
{
    if bits <= 0x7fff_ffff {
        bits as i32
    } else {
        (bits - 0x8000_0000) as i32 + i32::MIN
    }
}

/// The signed reading of 64 bits.
fn i64_from_bits(bits: u64) -> (r: i64)
    ensures
        r as int == signed64(bits as int),
{
    if bits <= 0x7fff_ffff_ffff_ffff {
        bits as i64
    } else {
        (bits - 0x8000_0000_0000_0000) as i64 + i64::MIN
    }
}

impl Literal {
    /// Encodes the literal as the engine's runtime value.
    pub fn encode(&self) -> (r: Result<RuntimeValue, MalformedLiteral>)
        ensures
            r is Ok <==> encoded(*self) is Some,
            r is Ok ==> r->Ok_0 == encoded(*self)->0,
    {
        let (tag, bits) = match self {
            Literal::I32(s) => (TAG_I32, parse_unsigned_text(s.as_str(), u32::MAX as u64)),
            Literal::I64(s) => (TAG_I64, parse_unsigned_text(s.as_str(), u64::MAX)),
            Literal::F32(s) => (
                TAG_F32,
                float_text_bits(
                    s.as_str(),
                    CANONICAL_NAN_32 as u64,
                    ARITHMETIC_NAN_32 as u64,
                    u32::MAX as u64,
                ),
            ),
            Literal::F64(s) => (
                TAG_F64,
                float_text_bits(s.as_str(), CANONICAL_NAN_64, ARITHMETIC_NAN_64, u64::MAX),
            ),
        };
        match bits {
            Some(payload) => Ok(RuntimeValue { tag, payload }),
            None => Err(MalformedLiteral),
        }
    }
}

impl RuntimeValue {
    /// Decodes the value by its tag.
    pub fn decode(&self) -> (r: SafeSV)
        ensures
            r == decoded(*self),
    {
        let low = self.payload & 0xffff_ffff;
        proof {
            let p = self.payload;
            assert(p & 0xffff_ffff == p % 0x1_0000_0000) by (bit_vector);
        }
        let low = low as u32;
        if self.tag == TAG_I64 {
            SafeSV::I64(i64_from_bits(self.payload))
        } else if self.tag == TAG_I32 {
            SafeSV::I32(i32_from_bits(low))
        } else if self.tag == TAG_F32 {
            SafeSV::F32(low)
        } else if self.tag == TAG_F64 {
            SafeSV::F64(self.payload)
        } else {
            SafeSV::Invalid
        }
    }
}

/// Every unsigned decimal literal of 32-bit range round-trips through
/// `I32`: decoding its encoding gives the integer whose two's complement
/// bits are the literal's value.
pub proof fn lemma_i32_literal_round_trip(s: String)
    requires
        parse_unsigned(s@, u32::MAX as int) is Some,
    ensures
        encoded(Literal::I32(s)) matches Some(v) && decoded(v) matches SafeSV::I32(x) && bits_of_i32(x)
            == unsigned_value(s@),
{
    lemma_decimal_value_nonneg(unsigned_digits(s@));
}

/// Every unsigned decimal literal of 64-bit range round-trips through
/// `I64`: decoding its encoding gives the integer whose two's complement
/// bits are the literal's value.
pub proof fn lemma_i64_literal_round_trip(s: String)
    requires
        parse_unsigned(s@, u64::MAX as int) is Some,
    ensures
        encoded(Literal::I64(s)) matches Some(v) && decoded(v) matches SafeSV::I64(x) && bits_of_i64(x)
            == unsigned_value(s@),
{
    lemma_decimal_value_nonneg(unsigned_digits(s@));
}

} // verus!
