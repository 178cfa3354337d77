use macsmc::codec::{char_to_int, DataValue, Real, TAG_CH8, TAG_FLAG, TAG_FLT, TAG_HEX};
use macsmc::keys::key_to_u32;

fn real_value(r: &Real) -> f64 {
    match r {
        Real::Bits(b) => f32::from_bits(*b) as f64,
        Real::Ratio { num, den } => *num as f64 / *den as f64,
    }
}

fn float_of(v: &DataValue) -> f64 {
    match v {
        DataValue::Float(r) => real_value(r),
        other => panic!("not a float: {:?}", other),
    }
}

#[test]
fn flt_is_little_endian() {
    let v = DataValue::convert(&[0x00, 0x00, 0x80, 0x3F], TAG_FLT);
    assert_eq!(v, DataValue::Float(Real::Bits(0x3F80_0000)));
    assert_eq!(float_of(&v), 1.0);
}

#[test]
fn flt_with_wrong_length_is_unknown() {
    let v = DataValue::convert(&[0x00, 0x80, 0x3F], TAG_FLT);
    assert_eq!(v, DataValue::Unknown(vec![0x00, 0x80, 0x3F]));
}

#[test]
fn ui8_reads_unsigned() {
    let v = DataValue::convert(&[0xFF], key_to_u32("ui8 "));
    assert_eq!(v, DataValue::Uint(255));
}

#[test]
fn si8_sign_extends() {
    let v = DataValue::convert(&[0xFF], key_to_u32("si8 "));
    assert_eq!(v, DataValue::Int(-1));
}

#[test]
fn wider_integers_are_big_endian() {
    assert_eq!(DataValue::convert(&[0x01, 0x02], key_to_u32("ui16")), DataValue::Uint(0x0102));
    assert_eq!(DataValue::convert(&[0x01, 0x02, 0x03, 0x04], key_to_u32("ui32")), DataValue::Uint(0x0102_0304));
    assert_eq!(
        DataValue::convert(&[0xFF; 8], key_to_u32("ui64")),
        DataValue::Uint(u64::MAX)
    );
    assert_eq!(DataValue::convert(&[0xFF, 0xFE], key_to_u32("si16")), DataValue::Int(-2));
    assert_eq!(DataValue::convert(&[0x80, 0, 0, 0], key_to_u32("si32")), DataValue::Int(i32::MIN as i64));
    assert_eq!(
        DataValue::convert(&[0x80, 0, 0, 0, 0, 0, 0, 0], key_to_u32("si64")),
        DataValue::Int(i64::MIN)
    );
    assert_eq!(DataValue::convert(&[0x7F, 0xFF], key_to_u32("si16")), DataValue::Int(32767));
}

#[test]
fn integer_with_wrong_length_is_unknown() {
    assert_eq!(DataValue::convert(&[0x01, 0x02], key_to_u32("ui8 ")), DataValue::Unknown(vec![1, 2]));
    assert_eq!(DataValue::convert(&[0x01], key_to_u32("ui1x")), DataValue::Unknown(vec![1]));
}

#[test]
fn hex_width_follows_length() {
    assert_eq!(DataValue::convert(&[0xAB], TAG_HEX), DataValue::Uint(0xAB));
    assert_eq!(DataValue::convert(&[0x12, 0x34], TAG_HEX), DataValue::Uint(0x1234));
    assert_eq!(DataValue::convert(&[1, 2, 3], TAG_HEX), DataValue::Unknown(vec![1, 2, 3]));
}

#[test]
fn sp78_minus_one() {
    let v = DataValue::convert(&[0xFF, 0x00], key_to_u32("sp78"));
    assert_eq!(v, DataValue::Float(Real::Ratio { num: -256, den: 256 }));
    assert_eq!(float_of(&v), -1.0);
}

#[test]
fn fp_fixed_point() {
    let v = DataValue::convert(&[0x01, 0x80], key_to_u32("fp88"));
    assert_eq!(float_of(&v), 1.5);
    let v = DataValue::convert(&[0x00, 0x0A], key_to_u32("fpe2"));
    assert_eq!(float_of(&v), 2.5);
    let v = DataValue::convert(&[0x00, 0x0A], key_to_u32("fp78"));
    assert_eq!(v, DataValue::Unknown(vec![0x00, 0x0A]));
}

#[test]
fn flag_values() {
    assert_eq!(DataValue::convert(&[0x01], TAG_FLAG), DataValue::Flag(true));
    assert_eq!(DataValue::convert(&[], TAG_FLAG), DataValue::Flag(false));
    assert_eq!(DataValue::convert(&[0x00, 0x01], TAG_FLAG), DataValue::Flag(false));
}

#[test]
fn c_strings_stop_at_nul() {
    assert_eq!(DataValue::convert(b"abc\0def", TAG_CH8), DataValue::Str("abc".to_string()));
    assert_eq!(DataValue::convert(b"abcd", TAG_CH8), DataValue::Str("abcd".to_string()));
    assert_eq!(DataValue::convert(&[0x61, 0xFF], TAG_CH8), DataValue::Str("a\u{FFFD}".to_string()));
}

#[test]
fn unknown_tags_keep_bytes() {
    let v = DataValue::convert(&[1, 2, 3], key_to_u32("{jst"));
    assert_eq!(v, DataValue::Unknown(vec![1, 2, 3]));
}

#[test]
fn hex_digits() {
    assert_eq!(char_to_int(b'0'), 0);
    assert_eq!(char_to_int(b'9'), 9);
    assert_eq!(char_to_int(b'a'), 10);
    assert_eq!(char_to_int(b'f'), 15);
    assert_eq!(char_to_int(b'g'), 0);
    assert_eq!(char_to_int(b'A'), 0);
}

#[test]
fn decoding_is_deterministic() {
    let a = DataValue::convert(&[0x12, 0x34], key_to_u32("sp4b"));
    let b = DataValue::convert(&[0x12, 0x34], key_to_u32("sp4b"));
    assert_eq!(a, b);
    assert_eq!(float_of(&a), 0x1234 as f64 / 2048.0);
}

#[test]
fn fixed_point_widths_must_be_hex_digits() {
    assert_eq!(DataValue::convert(&[0xFF, 0x00], key_to_u32("spgf")), DataValue::Unknown(vec![0xFF, 0x00]));
    assert_eq!(DataValue::convert(&[0xFF, 0x00], key_to_u32("spAf")), DataValue::Unknown(vec![0xFF, 0x00]));
    assert_eq!(DataValue::convert(&[0x01, 0x00], key_to_u32("fpg0")), DataValue::Unknown(vec![0x01, 0x00]));
    assert_eq!(DataValue::convert(&[0xFF, 0x00], key_to_u32("sp0f")), DataValue::Float(Real::Ratio { num: -256, den: 32768 }));
}

#[test]
fn plain_conversions() {
    assert_eq!(DataValue::Flag(true).as_bool(), Some(true));
    assert_eq!(DataValue::Int(0).as_bool(), Some(false));
    assert_eq!(DataValue::Uint(3).as_bool(), Some(true));
    assert_eq!(DataValue::Str("x".to_string()).as_bool(), None);
    assert_eq!(DataValue::Uint(7).as_u64(), Some(7));
    assert_eq!(DataValue::Int(-1).as_u64(), Some(u64::MAX));
    assert_eq!(DataValue::Int(i64::MIN).as_u64(), Some(1u64 << 63));
    assert_eq!(DataValue::Flag(true).as_u64(), None);
    assert_eq!(DataValue::Str("abc".to_string()).as_string(), Some("abc".to_string()));
    assert_eq!(DataValue::Uint(1).as_string(), None);
}
