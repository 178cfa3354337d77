//! Four-character register keys and their 32-bit big-endian encoding.

use vstd::prelude::*;
use vstd::string::{is_ascii, is_ascii_spec_bytes, StringSliceAdditionalSpecFns};
use vstd::utf8::{decode_utf8, encode_utf8_decode_utf8, encode_utf8_valid_utf8, valid_utf8};
use crate::text::{lossy_text, utf8_lossy};

verus! {

/// The value of four bytes read in big-endian order.
pub open spec fn be_key(b: Seq<u8>) -> int
    recommends
        b.len() == 4,
{
    b[0] * 16777216 + b[1] * 65536 + b[2] * 256 + b[3]
}

/// The four bytes of a key, most significant first.
pub open spec fn key_bytes(k: u32) -> Seq<u8> {
    seq![
        (k / 16777216) as u8,
        ((k / 65536) % 256) as u8,
        ((k / 256) % 256) as u8,
        (k % 256) as u8,
    ]
}

/// Encodes four bytes as a key, most significant byte first.
pub fn key_from_bytes(b0: u8, b1: u8, b2: u8, b3: u8) -> (r: u32)
    ensures
        r as int == be_key(seq![b0, b1, b2, b3]),
        key_bytes(r) == seq![b0, b1, b2, b3],
{
    let r: u32 = (b0 as u32) * 16777216 + (b1 as u32) * 65536 + (b2 as u32) * 256 + (b3 as u32);
    proof {
        lemma_key_bytes_of(b0, b1, b2, b3);
    }
    r
}

/// The bytes of a key, most significant first.
pub fn key_to_bytes(k: u32) -> (r: Vec<u8>)
    ensures
        r@ == key_bytes(k),
{
    let mut r: Vec<u8> = Vec::new();
    r.push((k / 16777216) as u8);
    r.push(((k / 65536) % 256) as u8);
    r.push(((k / 256) % 256) as u8);
    r.push((k % 256) as u8);
    proof {
        assert(r@ =~= key_bytes(k));
    }
    r
}

/// Splitting the encoding of four bytes gives the same four bytes back.
pub proof fn lemma_key_bytes_of(b0: u8, b1: u8, b2: u8, b3: u8)
    ensures
        ({
            let k = (b0 * 16777216 + b1 * 65536 + b2 * 256 + b3) as u32;
            key_bytes(k) == seq![b0, b1, b2, b3] && k as int == be_key(seq![b0, b1, b2, b3])
        }),
{
    let k: int = b0 * 16777216 + b1 * 65536 + b2 * 256 + b3;
    assert(k / 16777216 == b0) by (nonlinear_arith)
        requires k == b0 * 16777216 + b1 * 65536 + b2 * 256 + b3, b0 < 256, b1 < 256, b2 < 256, b3 < 256;
    assert((k / 65536) % 256 == b1) by (nonlinear_arith)
        requires k == b0 * 16777216 + b1 * 65536 + b2 * 256 + b3, b0 < 256, b1 < 256, b2 < 256, b3 < 256;
    assert((k / 256) % 256 == b2) by (nonlinear_arith)
        requires k == b0 * 16777216 + b1 * 65536 + b2 * 256 + b3, b0 < 256, b1 < 256, b2 < 256, b3 < 256;
    assert(k % 256 == b3) by (nonlinear_arith)
        requires k == b0 * 16777216 + b1 * 65536 + b2 * 256 + b3, b0 < 256, b1 < 256, b2 < 256, b3 < 256;
    assert(key_bytes(k as u32) =~= seq![b0, b1, b2, b3]);
    let s = seq![b0, b1, b2, b3];
    assert(s[0] == b0 && s[1] == b1 && s[2] == b2 && s[3] == b3);
}

/// The key that a text names: the big-endian value of its four bytes, or zero
/// for a text that is not four bytes long.
pub open spec fn key_of_text(b: Seq<u8>) -> u32 {
    if b.len() == 4 {
        be_key(b) as u32
    } else {
        0
    }
}

/// The text of a key: its four bytes decoded as UTF-8, lossily.
pub open spec fn text_of_key(k: u32) -> Seq<char> {
    utf8_lossy(key_bytes(k))
}

/// Whether a text is the text of a key: its four bytes decoded lossily,
/// which for bytes that are valid UTF-8 are the characters they encode.
pub open spec fn is_key_text(k: u32, s: Seq<char>) -> bool {
    &&& s == text_of_key(k)
    &&& valid_utf8(key_bytes(k)) ==> s == decode_utf8(key_bytes(k))
}

/// Converts a four-byte text to its key. Only four-byte texts name keys;
/// `commands::key_from_name` refuses any other length.
pub fn key_to_u32(key: &str) -> (r: u32)
    requires
        key.spec_bytes().len() == 4,
    ensures
        r == be_key(key.spec_bytes()),
        r == key_of_text(key.spec_bytes()),
{
    if key.len() != 4 {
        return 0;
    }
    let b = key.as_bytes();
    key_from_bytes(b[0], b[1], b[2], b[3])
}

/// Converts a key back to its four-character text.
pub fn u32_to_key(key: u32) -> (r: String)
    ensures
        r@ == text_of_key(key),
        valid_utf8(key_bytes(key)) ==> r@ == decode_utf8(key_bytes(key)),
        is_key_text(key, r@),
{
    let bytes = key_to_bytes(key);
    lossy_text(bytes.as_slice())
}

/// Encoding a four-character ASCII text as a key and decoding the key again
/// gives back the same text.
pub proof fn lemma_key_round_trip(s: &str)
    requires
        s@.len() == 4,
        is_ascii(s),
    ensures
        valid_utf8(key_bytes(key_of_text(s.spec_bytes()))),
        decode_utf8(key_bytes(key_of_text(s.spec_bytes()))) == s@,
{
    is_ascii_spec_bytes(s);
    let b = s.spec_bytes();
    assert(b.len() == 4);
    lemma_key_bytes_of(b[0], b[1], b[2], b[3]);
    assert(seq![b[0], b[1], b[2], b[3]] =~= b);
    encode_utf8_valid_utf8(s@);
    encode_utf8_decode_utf8(s@);
}


/// The part of the machine a catalog key belongs to.
#[derive(Clone, Copy, Debug, PartialEq, Eq, Structural)]
pub enum KeyCategory {
    /// Processor.
    Cpu,
    /// Graphics processor.
    Gpu,
    /// System sensors such as memory and storage.
    System,
    /// General sensors such as air flow.
    Sensor,
    /// Fans.
    Fan,
    /// Battery.
    Battery,
    /// Power management.
    Power,
}

/// What a catalog key holds.
#[derive(Clone, Copy, Debug, PartialEq, Eq, Structural)]
pub enum KeyDataType {
    /// A temperature.
    Temperature,
    /// A voltage.
    Voltage,
    /// A current.
    Current,
    /// A power draw.
    Power,
    /// A fan speed.
    FanSpeed,
    /// A boolean flag.
    Flag,
    /// A number.
    Numeric,
    /// A string.
    String,
}

/// A key of the catalog, with its name for people.
#[derive(Clone, Copy, Debug, PartialEq, Eq)]
pub struct SmcKey {
    /// The four characters of the key.
    pub key: &'static str,
    /// Its name for people.
    pub name: &'static str,
    /// The part of the machine it belongs to.
    pub category: KeyCategory,
    /// What it holds.
    pub data_type: KeyDataType,
}

/// A catalog key, over sequences.
pub struct SmcKeyView {
    pub key: Seq<char>,
    pub name: Seq<char>,
    pub category: KeyCategory,
    pub data_type: KeyDataType,
}

impl View for SmcKey {
    type V = SmcKeyView;

    open spec fn view(&self) -> SmcKeyView {
        SmcKeyView { key: self.key@, name: self.name@, category: self.category, data_type: self.data_type }
    }
}

/// The catalog key with the given fields.
pub open spec fn key_entry(
    key: &'static str,
    name: &'static str,
    category: KeyCategory,
    data_type: KeyDataType,
) -> SmcKeyView {
    SmcKeyView { key: key@, name: name@, category, data_type }
}

impl SmcKey {
    /// A catalog key.
    pub fn new(key: &'static str, name: &'static str, category: KeyCategory, data_type: KeyDataType) -> (r: SmcKey)
        ensures
            r@ == key_entry(key, name, category, data_type),
    {
        SmcKey { key, name, category, data_type }
    }
}

/// All M2 processor core temperature keys.
pub open spec fn m2_cpu_temperature_keys_spec() -> Seq<SmcKeyView> {
    seq![
        key_entry("Te05", "CPU Efficiency Core", KeyCategory::Cpu, KeyDataType::Temperature),
        key_entry("Tp01", "CPU Performance Core 1", KeyCategory::Cpu, KeyDataType::Temperature),
        key_entry("Tp05", "CPU Performance Core 2", KeyCategory::Cpu, KeyDataType::Temperature),
        key_entry("Tp09", "CPU Performance Core 3", KeyCategory::Cpu, KeyDataType::Temperature),
        key_entry("Tp0D", "CPU Performance Core 4", KeyCategory::Cpu, KeyDataType::Temperature),
        key_entry("Tp0X", "CPU Performance Core 5", KeyCategory::Cpu, KeyDataType::Temperature),
        key_entry("Tp0b", "CPU Performance Core 6", KeyCategory::Cpu, KeyDataType::Temperature),
        key_entry("Tp0f", "CPU Performance Core 7", KeyCategory::Cpu, KeyDataType::Temperature),
        key_entry("Tp0j", "CPU Performance Core 8", KeyCategory::Cpu, KeyDataType::Temperature),
    ]
}

/// All M2 processor core temperature keys.
pub fn m2_cpu_temperature_keys() -> (r: Vec<SmcKey>)
    ensures
        r@.map_values(|k: SmcKey| k@) == m2_cpu_temperature_keys_spec(),
{
    let mut r: Vec<SmcKey> = Vec::new();
    r.push(SmcKey::new("Te05", "CPU Efficiency Core", KeyCategory::Cpu, KeyDataType::Temperature));
    r.push(SmcKey::new("Tp01", "CPU Performance Core 1", KeyCategory::Cpu, KeyDataType::Temperature));
    r.push(SmcKey::new("Tp05", "CPU Performance Core 2", KeyCategory::Cpu, KeyDataType::Temperature));
    r.push(SmcKey::new("Tp09", "CPU Performance Core 3", KeyCategory::Cpu, KeyDataType::Temperature));
    r.push(SmcKey::new("Tp0D", "CPU Performance Core 4", KeyCategory::Cpu, KeyDataType::Temperature));
    r.push(SmcKey::new("Tp0X", "CPU Performance Core 5", KeyCategory::Cpu, KeyDataType::Temperature));
    r.push(SmcKey::new("Tp0b", "CPU Performance Core 6", KeyCategory::Cpu, KeyDataType::Temperature));
    r.push(SmcKey::new("Tp0f", "CPU Performance Core 7", KeyCategory::Cpu, KeyDataType::Temperature));
    r.push(SmcKey::new("Tp0j", "CPU Performance Core 8", KeyCategory::Cpu, KeyDataType::Temperature));
    assert(r@.map_values(|k: SmcKey| k@) =~= m2_cpu_temperature_keys_spec());
    r
}

/// All M2 graphics temperature keys.
pub open spec fn m2_gpu_temperature_keys_spec() -> Seq<SmcKeyView> {
    seq![
        key_entry("Tg0f", "GPU 1", KeyCategory::Gpu, KeyDataType::Temperature),
    ]
}

/// All M2 graphics temperature keys.
pub fn m2_gpu_temperature_keys() -> (r: Vec<SmcKey>)
    ensures
        r@.map_values(|k: SmcKey| k@) == m2_gpu_temperature_keys_spec(),
{
    let mut r: Vec<SmcKey> = Vec::new();
    r.push(SmcKey::new("Tg0f", "GPU 1", KeyCategory::Gpu, KeyDataType::Temperature));
    assert(r@.map_values(|k: SmcKey| k@) =~= m2_gpu_temperature_keys_spec());
    r
}

/// System temperature keys.
pub open spec fn system_temperature_keys_spec() -> Seq<SmcKeyView> {
    seq![
        key_entry("TH0x", "NAND Storage", KeyCategory::System, KeyDataType::Temperature),
        key_entry("TW0P", "Airport", KeyCategory::System, KeyDataType::Temperature),
    ]
}

/// System temperature keys.
pub fn system_temperature_keys() -> (r: Vec<SmcKey>)
    ensures
        r@.map_values(|k: SmcKey| k@) == system_temperature_keys_spec(),
{
    let mut r: Vec<SmcKey> = Vec::new();
    r.push(SmcKey::new("TH0x", "NAND Storage", KeyCategory::System, KeyDataType::Temperature));
    r.push(SmcKey::new("TW0P", "Airport", KeyCategory::System, KeyDataType::Temperature));
    assert(r@.map_values(|k: SmcKey| k@) =~= system_temperature_keys_spec());
    r
}

/// Power monitoring keys.
pub open spec fn power_keys_spec() -> Seq<SmcKeyView> {
    seq![
        key_entry("PSTR", "System Total Power", KeyCategory::Power, KeyDataType::Power),
        key_entry("PDTR", "DC Input Power", KeyCategory::Power, KeyDataType::Power),
    ]
}

/// Power monitoring keys.
pub fn power_keys() -> (r: Vec<SmcKey>)
    ensures
        r@.map_values(|k: SmcKey| k@) == power_keys_spec(),
{
    let mut r: Vec<SmcKey> = Vec::new();
    r.push(SmcKey::new("PSTR", "System Total Power", KeyCategory::Power, KeyDataType::Power));
    r.push(SmcKey::new("PDTR", "DC Input Power", KeyCategory::Power, KeyDataType::Power));
    assert(r@.map_values(|k: SmcKey| k@) =~= power_keys_spec());
    r
}

} // verus!
