//! The typed-value codec: turns payload bytes and a four-character type tag
//! into a [`DataValue`]. Decoding is total: any tag or length that is not
//! recognised yields [`DataValue::Unknown`] with the bytes.

use vstd::prelude::*;
use vstd::slice::slice_to_vec;
use crate::text::{lossy_text, utf8_lossy};
use vstd::utf8::{decode_utf8, valid_utf8};

verus! {

/// Tag `flag`: a boolean.
pub const TAG_FLAG: u32 = 0x666c6167;
/// Tag `flt `: an IEEE-754 binary32 value, least significant byte first.
pub const TAG_FLT: u32 = 0x666c7420;
/// Tag `hex_`: an unsigned integer whose width is the payload length.
pub const TAG_HEX: u32 = 0x6865785f;
/// Tag `ch8*`: a C string.
pub const TAG_CH8: u32 = 0x6368382a;
/// Leading characters `fp` of an unsigned fixed-point tag.
pub const PREFIX_FP: u32 = 0x6670;
/// Leading characters `sp` of a signed fixed-point tag.
pub const PREFIX_SP: u32 = 0x7370;
/// Leading characters `ui` of an unsigned integer tag.
pub const PREFIX_UI: u32 = 0x7569;
/// Leading characters `si` of a signed integer tag.
pub const PREFIX_SI: u32 = 0x7369;
/// Trailing characters `8 ` of an integer tag.
pub const WIDTH_8: u32 = 0x3820;
/// Trailing characters `16` of an integer tag.
pub const WIDTH_16: u32 = 0x3136;
/// Trailing characters `32` of an integer tag.
pub const WIDTH_32: u32 = 0x3332;
/// Trailing characters `64` of an integer tag.
pub const WIDTH_64: u32 = 0x3634;

/// A real-valued reading, held exactly as the controller encoded it.
#[derive(Clone, Copy, Debug, PartialEq, Eq, Structural)]
pub enum Real {
    /// The bit pattern of an IEEE-754 binary32 value.
    Bits(u32),
    /// The quotient `num / den`; `den` is positive.
    Ratio { num: i64, den: u64 },
}

impl Real {
    /// A well-formed ratio has a positive denominator.
    pub open spec fn wf(self) -> bool {
        match self {
            Real::Bits(_) => true,
            Real::Ratio { num: _, den } => den > 0,
        }
    }

    /// Whether the value is zero (either sign of zero for a bit pattern).
    pub open spec fn spec_is_zero(&self) -> bool {
        match self {
            Real::Bits(b) => *b == 0 || *b == 0x8000_0000,
            Real::Ratio { num, den: _ } => *num == 0,
        }
    }

    /// Whether the value is zero (either sign of zero for a bit pattern).
    #[verifier::when_used_as_spec(spec_is_zero)]
    pub fn is_zero(&self) -> (r: bool)
        ensures
            r == self.spec_is_zero(),
    {
        match self {
            Real::Bits(b) => *b == 0 || *b == 0x8000_0000,
            Real::Ratio { num, den: _ } => *num == 0,
        }
    }

    /// The whole number `v`.
    pub fn from_int(v: i64) -> (r: Real)
        ensures
            r == (Real::Ratio { num: v, den: 1 }),
            r.wf(),
    {
        Real::Ratio { num: v, den: 1 }
    }
}

/// What a decoded value is, over mathematical integers and sequences.
pub enum Value {
    Flag(bool),
    Float(Real),
    Int(int),
    Uint(int),
    Str(Seq<char>),
    Unknown(Seq<u8>),
}

/// A decoded register value.
#[derive(Clone, Debug, PartialEq)]
pub enum DataValue {
    /// A boolean flag.
    Flag(bool),
    /// A real number.
    Float(Real),
    /// A signed integer.
    Int(i64),
    /// An unsigned integer.
    Uint(u64),
    /// A string.
    Str(String),
    /// A value of a type that could not be decoded, with its bytes.
    Unknown(Vec<u8>),
}

impl View for DataValue {
    type V = Value;

    open spec fn view(&self) -> Value {
        match self {
            DataValue::Flag(b) => Value::Flag(*b),
            DataValue::Float(r) => Value::Float(*r),
            DataValue::Int(i) => Value::Int(*i as int),
            DataValue::Uint(u) => Value::Uint(*u as int),
            DataValue::Str(s) => Value::Str(s@),
            DataValue::Unknown(v) => Value::Unknown(v@),
        }
    }
}

/// `256` raised to `n`.
pub open spec fn pow256(n: nat) -> nat
    decreases n,
{
    if n == 0 {
        1
    } else {
        256 * pow256((n - 1) as nat)
    }
}

/// `2` raised to `n`.
pub open spec fn two_to(n: nat) -> nat
    decreases n,
{
    if n == 0 {
        1
    } else {
        2 * two_to((n - 1) as nat)
    }
}

/// The unsigned value of bytes read most significant first.
pub open spec fn be_value(s: Seq<u8>) -> nat
    decreases s.len(),
{
    if s.len() == 0 {
        0
    } else {
        (be_value(s.drop_last()) * 256 + s.last()) as nat
    }
}

/// The two's complement value of bytes read most significant first.
pub open spec fn be_signed(s: Seq<u8>) -> int {
    if 2 * be_value(s) >= pow256(s.len()) {
        be_value(s) - pow256(s.len())
    } else {
        be_value(s) as int
    }
}

/// The unsigned value of four bytes read least significant first.
pub open spec fn le_u32(s: Seq<u8>) -> int {
    s[0] + s[1] * 256 + s[2] * 65536 + s[3] * 16777216
}

/// The value of a lower-case hexadecimal digit; any other byte counts as zero.
pub open spec fn hex_digit(c: u8) -> int {
    if 0x61 <= c <= 0x66 {
        c - 0x61 + 10
    } else if 0x30 <= c <= 0x39 {
        c - 0x30
    } else {
        0
    }
}

/// Whether a byte is a lower-case hexadecimal digit, `0`-`9` or `a`-`f`.
pub open spec fn is_hex_char(c: u8) -> bool {
    (0x30 <= c <= 0x39) || (0x61 <= c <= 0x66)
}

/// Whether the last two characters of a fixed-point tag are both
/// hexadecimal digits.
pub open spec fn widths_are_hex(tag: u32) -> bool {
    is_hex_char(((tag / 256) % 256) as u8) && is_hex_char((tag % 256) as u8)
}

/// Width in bytes named by the last two characters of an integer tag, or
/// zero where they name none.
pub open spec fn int_width(suffix: u32) -> int {
    if suffix == WIDTH_8 {
        1
    } else if suffix == WIDTH_16 {
        2
    } else if suffix == WIDTH_32 {
        4
    } else if suffix == WIDTH_64 {
        8
    } else {
        0
    }
}

/// `n` is where the text of a C string ends: the first NUL, or the end.
pub open spec fn is_text_end(s: Seq<u8>, n: int) -> bool {
    &&& 0 <= n <= s.len()
    &&& forall|j: int| 0 <= j < n ==> s[j] != 0
    &&& (n == s.len() || s[n] == 0)
}

/// Where the text of a C string ends.
pub open spec fn text_end(s: Seq<u8>) -> int {
    choose|n: int| is_text_end(s, n)
}

/// The integer-width tag of a payload length that can carry a `hex_` value.
pub open spec fn is_int_len(n: int) -> bool {
    n == 1 || n == 2 || n == 4 || n == 8
}

/// What a payload decodes to under a type tag.
pub open spec fn decode(data: Seq<u8>, tag: u32) -> Value {
    let prefix = tag / 65536;
    let i = hex_digit(((tag / 256) % 256) as u8);
    let f = hex_digit((tag % 256) as u8);
    if tag == TAG_FLAG {
        Value::Flag(data.len() > 0 && data[0] != 0)
    } else if tag == TAG_FLT && data.len() == 4 {
        Value::Float(Real::Bits(le_u32(data) as u32))
    } else if tag == TAG_HEX && is_int_len(data.len() as int) {
        Value::Uint(be_value(data) as int)
    } else if tag == TAG_CH8 {
        Value::Str(utf8_lossy(data.take(text_end(data))))
    } else if prefix == PREFIX_FP && widths_are_hex(tag) && i + f == 16 && data.len() == 2 {
        Value::Float(Real::Ratio { num: be_value(data) as i64, den: two_to(f as nat) as u64 })
    } else if prefix == PREFIX_SP && widths_are_hex(tag) && i + f == 15 && data.len() == 2 {
        Value::Float(Real::Ratio { num: be_signed(data) as i64, den: two_to(f as nat) as u64 })
    } else if prefix == PREFIX_UI && int_width(tag % 65536) == data.len() && data.len() > 0 {
        Value::Uint(be_value(data) as int)
    } else if prefix == PREFIX_SI && int_width(tag % 65536) == data.len() && data.len() > 0 {
        Value::Int(be_signed(data))
    } else {
        Value::Unknown(data)
    }
}

/// `256` raised to at most the eighth power stays within 64 bits.
pub proof fn lemma_pow256_bound(n: nat)
    requires
        n <= 8,
    ensures
        1 <= pow256(n) <= pow256(8),
        pow256(8) == 0x1_0000_0000_0000_0000,
    decreases 8 - n,
{
    reveal_with_fuel(pow256, 9);
    if n < 8 {
        lemma_pow256_bound(n + 1);
    }
}

/// The big-endian value of a prefix extended by one byte.
pub proof fn lemma_be_value_step(s: Seq<u8>, i: int)
    requires
        0 <= i < s.len(),
    ensures
        be_value(s.take(i + 1)) == be_value(s.take(i)) * 256 + s[i],
{
    assert(s.take(i + 1).drop_last() =~= s.take(i));
}

/// The unsigned value of at most eight bytes, most significant first.
pub fn be_unsigned(data: &[u8]) -> (r: u64)
    requires
        data@.len() <= 8,
    ensures
        r == be_value(data@),
        r < pow256(data@.len()),
{
    let mut acc: u64 = 0;
    let mut i: usize = 0;
    while i < data.len()
        invariant
            0 <= i <= data@.len() <= 8,
            acc == be_value(data@.take(i as int)),
            acc < pow256(i as nat),
        decreases data@.len() - i,
    {
        proof {
            lemma_be_value_step(data@, i as int);
            lemma_pow256_bound((i + 1) as nat);
            assert(pow256((i + 1) as nat) == 256 * pow256(i as nat));
            assert(acc * 256 + data@[i as int] < pow256((i + 1) as nat)) by (nonlinear_arith)
                requires
                    acc < pow256(i as nat),
                    data@[i as int] < 256,
                    pow256((i + 1) as nat) == 256 * pow256(i as nat),
            ;
        }
        acc = acc * 256 + data[i] as u64;
        i += 1;
    }
    assert(data@.take(i as int) =~= data@);
    acc
}

/// `256` raised to `n`, for `n` below eight.
fn pow256_small(n: usize) -> (r: u64)
    requires
        n < 8,
    ensures
        r == pow256(n as nat),
{
    let mut r: u64 = 1;
    let mut i: usize = 0;
    while i < n
        invariant
            0 <= i <= n < 8,
            r == pow256(i as nat),
        decreases n - i,
    {
        proof {
            lemma_pow256_mono((i + 1) as nat, 7);
            assert(pow256(7) == 0x100_0000_0000_0000) by {
                reveal_with_fuel(pow256, 8);
            }
            assert(pow256((i + 1) as nat) == 256 * pow256(i as nat));
        }
        r = r * 256;
        i += 1;
    }
    r
}

/// The two's complement value of one to eight bytes, most significant first.
pub fn be_signed_value(data: &[u8]) -> (r: i64)
    requires
        1 <= data@.len() <= 8,
    ensures
        r == be_signed(data@),
{
    let v = be_unsigned(data);
    proof {
        lemma_pow256_bound(data@.len());
    }
    if data.len() == 8 {
        if v >= 0x8000_0000_0000_0000 {
            -((u64::MAX - v) as i64) - 1
        } else {
            v as i64
        }
    } else {
        let full = pow256_small(data.len());
        proof {
            lemma_pow256_bound(7);
            assert(pow256(7) == 0x100_0000_0000_0000) by {
                reveal_with_fuel(pow256, 8);
            }
            if data@.len() < 7 {
                lemma_pow256_mono(data@.len(), 7);
            }
        }
        if v >= full - v {
            (v as i64) - (full as i64)
        } else {
            v as i64
        }
    }
}

/// `pow256` grows with its exponent.
pub proof fn lemma_pow256_mono(a: nat, b: nat)
    requires
        a <= b,
    ensures
        pow256(a) <= pow256(b),
    decreases b - a,
{
    if a < b {
        lemma_pow256_mono(a, (b - 1) as nat);
    }
}

/// `2` raised to `n`, for `n` at most sixteen.
fn two_to_small(n: u8) -> (r: u64)
    requires
        n <= 16,
    ensures
        r == two_to(n as nat),
        0 < r <= 65536,
{
    let mut r: u64 = 1;
    let mut i: u8 = 0;
    while i < n
        invariant
            0 <= i <= n <= 16,
            r == two_to(i as nat),
        decreases n - i,
    {
        proof {
            lemma_two_to_bound((i + 1) as nat);
            assert(two_to((i + 1) as nat) == 2 * two_to(i as nat));
        }
        r = r * 2;
        i += 1;
    }
    proof {
        lemma_two_to_bound(n as nat);
    }
    r
}

/// `2` raised to at most the sixteenth power is between one and `65536`.
pub proof fn lemma_two_to_bound(n: nat)
    requires
        n <= 16,
    ensures
        1 <= two_to(n) <= two_to(16),
        two_to(16) == 65536,
    decreases 16 - n,
{
    reveal_with_fuel(two_to, 17);
    if n < 16 {
        lemma_two_to_bound(n + 1);
    }
}

/// The value of a lower-case hexadecimal digit; any other byte counts as zero.
pub fn char_to_int(c: u8) -> (r: u8)
    ensures
        r == hex_digit(c),
        r <= 15,
{
    if c >= 0x61 && c <= 0x66 {
        c - 0x61 + 10
    } else if c >= 0x30 && c <= 0x39 {
        c - 0x30
    } else {
        0
    }
}

/// Whether a byte is a lower-case hexadecimal digit.
pub fn is_hex_byte(c: u8) -> (r: bool)
    ensures
        r == is_hex_char(c),
{
    (c >= 0x30 && c <= 0x39) || (c >= 0x61 && c <= 0x66)
}

/// There is exactly one place where the text of a C string ends.
pub proof fn lemma_text_end(s: Seq<u8>, n: int)
    requires
        is_text_end(s, n),
    ensures
        text_end(s) == n,
{
    let m = text_end(s);
    assert(is_text_end(s, m));
    if m < n {
        assert(s[m] != 0);
    } else if n < m {
        assert(s[n] != 0);
    }
}

/// The position of the first NUL byte, or the length where there is none.
pub fn find_text_end(data: &[u8]) -> (r: usize)
    ensures
        r == text_end(data@),
        is_text_end(data@, r as int),
{
    let mut i: usize = 0;
    while i < data.len()
        invariant
            0 <= i <= data@.len(),
            forall|j: int| 0 <= j < i ==> data@[j] != 0,
        decreases data@.len() - i,
    {
        if data[i] == 0 {
            proof {
                lemma_text_end(data@, i as int);
            }
            return i;
        }
        i += 1;
    }
    proof {
        lemma_text_end(data@, i as int);
    }
    i
}

impl DataValue {
    /// Decodes a payload under its type tag. Decoding never fails: a tag or
    /// length that is not recognised gives `Unknown` with the bytes.
    pub fn convert(data: &[u8], tpe: u32) -> (r: DataValue)
        ensures
            r@ == decode(data@, tpe),
            tpe == TAG_CH8 && valid_utf8(data@.take(text_end(data@))) ==> r@ == Value::Str(
                decode_utf8(data@.take(text_end(data@))),
            ),
    {
        let n = data.len();
        let prefix = tpe / 65536;
        let i = char_to_int(((tpe / 256) % 256) as u8);
        let f = char_to_int((tpe % 256) as u8);
        let hex = is_hex_byte(((tpe / 256) % 256) as u8) && is_hex_byte((tpe % 256) as u8);
        if tpe == TAG_FLAG {
            DataValue::Flag(n > 0 && data[0] != 0)
        } else if tpe == TAG_FLT && n == 4 {
            let bits: u32 = data[0] as u32 + data[1] as u32 * 256 + data[2] as u32 * 65536
                + data[3] as u32 * 16777216;
            DataValue::Float(Real::Bits(bits))
        } else if tpe == TAG_HEX && (n == 1 || n == 2 || n == 4 || n == 8) {
            DataValue::Uint(be_unsigned(data))
        } else if tpe == TAG_CH8 {
            let end = find_text_end(data);
            let text = lossy_text(&data[0..end]);
            proof {
                assert(data@.subrange(0, end as int) =~= data@.take(end as int));
            }
            DataValue::Str(text)
        } else if prefix == PREFIX_FP && hex && i + f == 16 && n == 2 {
            let raw = be_unsigned(data);
            let den = two_to_small(f);
            proof {
                lemma_pow256_bound(2);
                reveal_with_fuel(pow256, 3);
            }
            DataValue::Float(Real::Ratio { num: raw as i64, den })
        } else if prefix == PREFIX_SP && hex && i + f == 15 && n == 2 {
            let raw = be_signed_value(data);
            let den = two_to_small(f);
            DataValue::Float(Real::Ratio { num: raw, den })
        } else if prefix == PREFIX_UI && int_width_of(tpe % 65536) as usize == n && n > 0 {
            DataValue::Uint(be_unsigned(data))
        } else if prefix == PREFIX_SI && int_width_of(tpe % 65536) as usize == n && n > 0 {
            DataValue::Int(be_signed_value(data))
        } else {
            DataValue::Unknown(slice_to_vec(data))
        }
    }
}

impl DataValue {
    /// The value as a boolean: a flag as it is, an integer as whether it is
    /// nonzero; `None` for other values.
    pub fn as_bool(&self) -> (r: Option<bool>)
        ensures
            r == match self@ {
                Value::Flag(b) => Some(b),
                Value::Int(i) => Some(i != 0),
                Value::Uint(u) => Some(u != 0),
                _ => None::<bool>,
            },
    {
        match self {
            DataValue::Flag(b) => Some(*b),
            DataValue::Int(i) => Some(*i != 0),
            DataValue::Uint(u) => Some(*u != 0),
            _ => None,
        }
    }

    /// The value as an unsigned integer: an unsigned integer as it is, a
    /// signed one reinterpreted in two's complement; `None` for other values.
    pub fn as_u64(&self) -> (r: Option<u64>)
        ensures
            match self {
                DataValue::Uint(u) => r == Some(*u),
                DataValue::Int(i) => r == Some((if *i >= 0 { *i as int } else { *i + 0x1_0000_0000_0000_0000 }) as u64),
                _ => r is None,
            },
    {
        match self {
            DataValue::Uint(u) => Some(*u),
            DataValue::Int(i) => {
                if *i >= 0 {
                    Some(*i as u64)
                } else {
                    Some((u64::MAX - ((-(*i + 1)) as u64)))
                }
            },
            _ => None,
        }
    }

    /// The value as text; `None` for values that are not strings.
    pub fn as_string(&self) -> (r: Option<String>)
        ensures
            match self@ {
                Value::Str(t) => r is Some && r->Some_0@ == t,
                _ => r is None,
            },
    {
        match self {
            DataValue::Str(t) => Some(t.clone()),
            _ => None,
        }
    }
}

/// Width in bytes named by the last two characters of an integer tag, or
/// zero where they name none.
pub fn int_width_of(suffix: u32) -> (r: u8)
    ensures
        r == int_width(suffix),
{
    if suffix == WIDTH_8 {
        1
    } else if suffix == WIDTH_16 {
        2
    } else if suffix == WIDTH_32 {
        4
    } else if suffix == WIDTH_64 {
        8
    } else {
        0
    }
}

} // verus!
