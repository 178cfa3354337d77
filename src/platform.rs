//! Platforms, their sensor catalog, and the platform-aware command resolver.

use vstd::prelude::*;
use vstd::string::StringSliceAdditionalSpecFns;
use vstd::utf8::encode_utf8_decode_utf8;
use crate::text::{contains_text, has_infix, lower_of, lowercase};
use vstd::utf8::encode_utf8;
use crate::commands::{CommandKey, TEMP_CPU_DIODE, TEMP_CPU_GFX, TEMP_CPU_PACKAGE, TEMP_CPU_PROXIMITY, TEMP_GPU_DIE, TEMP_GPU_PROXIMITY};

verus! {

/// A family of machines.
#[derive(Clone, Copy, Debug, PartialEq, Eq, Hash, Structural)]
pub enum Platform {
    /// Intel-based machines
    Intel,
    /// Apple M1
    M1,
    /// Apple M1 Pro
    M1Pro,
    /// Apple M1 Max
    M1Max,
    /// Apple M1 Ultra
    M1Ultra,
    /// Apple M2
    M2,
    /// Apple M2 Pro
    M2Pro,
    /// Apple M2 Max
    M2Max,
    /// Apple M2 Ultra
    M2Ultra,
    /// Apple M3
    M3,
    /// Apple M3 Pro
    M3Pro,
    /// Apple M3 Max
    M3Max,
    /// Apple M3 Ultra
    M3Ultra,
    /// Apple M4
    M4,
    /// Apple M4 Pro
    M4Pro,
    /// Apple M4 Max
    M4Max,
    /// Apple M4 Ultra
    M4Ultra,
}

/// Every platform.
pub open spec fn all_platforms() -> Seq<Platform> {
    seq![
        Platform::Intel,
        Platform::M1,
        Platform::M1Pro,
        Platform::M1Max,
        Platform::M1Ultra,
        Platform::M2,
        Platform::M2Pro,
        Platform::M2Max,
        Platform::M2Ultra,
        Platform::M3,
        Platform::M3Pro,
        Platform::M3Max,
        Platform::M3Ultra,
        Platform::M4,
        Platform::M4Pro,
        Platform::M4Max,
        Platform::M4Ultra,
    ]
}

/// The Apple silicon platforms.
pub open spec fn apple_silicon_platforms() -> Seq<Platform> {
    seq![
        Platform::M1,
        Platform::M1Pro,
        Platform::M1Max,
        Platform::M1Ultra,
        Platform::M2,
        Platform::M2Pro,
        Platform::M2Max,
        Platform::M2Ultra,
        Platform::M3,
        Platform::M3Pro,
        Platform::M3Max,
        Platform::M3Ultra,
        Platform::M4,
        Platform::M4Pro,
        Platform::M4Max,
        Platform::M4Ultra,
    ]
}

/// The M1 generation.
pub open spec fn m1_platforms() -> Seq<Platform> {
    seq![
        Platform::M1,
        Platform::M1Pro,
        Platform::M1Max,
        Platform::M1Ultra,
    ]
}

/// The M2 generation.
pub open spec fn m2_platforms() -> Seq<Platform> {
    seq![
        Platform::M2,
        Platform::M2Pro,
        Platform::M2Max,
        Platform::M2Ultra,
    ]
}

/// The M3 generation.
pub open spec fn m3_platforms() -> Seq<Platform> {
    seq![
        Platform::M3,
        Platform::M3Pro,
        Platform::M3Max,
        Platform::M3Ultra,
    ]
}

/// The M4 generation.
pub open spec fn m4_platforms() -> Seq<Platform> {
    seq![
        Platform::M4,
        Platform::M4Pro,
        Platform::M4Max,
        Platform::M4Ultra,
    ]
}

/// The generation of a platform: 1 to 4 for Apple silicon, 0 for Intel.
pub open spec fn generation_of(p: Platform) -> u8 {
    match p {
        Platform::Intel => 0,
        Platform::M1 | Platform::M1Pro | Platform::M1Max | Platform::M1Ultra => 1,
        Platform::M2 | Platform::M2Pro | Platform::M2Max | Platform::M2Ultra => 2,
        Platform::M3 | Platform::M3Pro | Platform::M3Max | Platform::M3Ultra => 3,
        Platform::M4 | Platform::M4Pro | Platform::M4Max | Platform::M4Ultra => 4,
    }
}

impl Platform {
    /// Every platform.
    pub fn all() -> (r: Vec<Platform>)
        ensures
            r@ == all_platforms(),
    {
        let r = vec![
            Platform::Intel,
            Platform::M1,
            Platform::M1Pro,
            Platform::M1Max,
            Platform::M1Ultra,
            Platform::M2,
            Platform::M2Pro,
            Platform::M2Max,
            Platform::M2Ultra,
            Platform::M3,
            Platform::M3Pro,
            Platform::M3Max,
            Platform::M3Ultra,
            Platform::M4,
            Platform::M4Pro,
            Platform::M4Max,
            Platform::M4Ultra,
        ];
        assert(r@ =~= all_platforms());
        r
    }

    /// The Apple silicon platforms.
    pub fn apple_silicon() -> (r: Vec<Platform>)
        ensures
            r@ == apple_silicon_platforms(),
    {
        let r = vec![
            Platform::M1,
            Platform::M1Pro,
            Platform::M1Max,
            Platform::M1Ultra,
            Platform::M2,
            Platform::M2Pro,
            Platform::M2Max,
            Platform::M2Ultra,
            Platform::M3,
            Platform::M3Pro,
            Platform::M3Max,
            Platform::M3Ultra,
            Platform::M4,
            Platform::M4Pro,
            Platform::M4Max,
            Platform::M4Ultra,
        ];
        assert(r@ =~= apple_silicon_platforms());
        r
    }

    /// The M1 generation.
    pub fn m1_gen() -> (r: Vec<Platform>)
        ensures
            r@ == m1_platforms(),
    {
        let r = vec![
            Platform::M1,
            Platform::M1Pro,
            Platform::M1Max,
            Platform::M1Ultra,
        ];
        assert(r@ =~= m1_platforms());
        r
    }

    /// The M2 generation.
    pub fn m2_gen() -> (r: Vec<Platform>)
        ensures
            r@ == m2_platforms(),
    {
        let r = vec![
            Platform::M2,
            Platform::M2Pro,
            Platform::M2Max,
            Platform::M2Ultra,
        ];
        assert(r@ =~= m2_platforms());
        r
    }

    /// The M3 generation.
    pub fn m3_gen() -> (r: Vec<Platform>)
        ensures
            r@ == m3_platforms(),
    {
        let r = vec![
            Platform::M3,
            Platform::M3Pro,
            Platform::M3Max,
            Platform::M3Ultra,
        ];
        assert(r@ =~= m3_platforms());
        r
    }

    /// The M4 generation.
    pub fn m4_gen() -> (r: Vec<Platform>)
        ensures
            r@ == m4_platforms(),
    {
        let r = vec![
            Platform::M4,
            Platform::M4Pro,
            Platform::M4Max,
            Platform::M4Ultra,
        ];
        assert(r@ =~= m4_platforms());
        r
    }

    /// Whether this is an Intel-based machine.
    pub fn is_intel(&self) -> (r: bool)
        ensures
            r == (*self == Platform::Intel),
    {
        match self {
            Platform::Intel => true,
            _ => false,
        }
    }

    /// Whether this is an Apple silicon machine.
    pub fn is_apple_silicon(&self) -> (r: bool)
        ensures
            r == (*self != Platform::Intel),
    {
        !self.is_intel()
    }

    /// The generation: 1 to 4 for Apple silicon, 0 for Intel.
    pub fn generation(&self) -> (r: u8)
        ensures
            r == generation_of(*self),
    {
        match self {
            Platform::Intel => 0,
            Platform::M1 | Platform::M1Pro | Platform::M1Max | Platform::M1Ultra => 1,
            Platform::M2 | Platform::M2Pro | Platform::M2Max | Platform::M2Ultra => 2,
            Platform::M3 | Platform::M3Pro | Platform::M3Max | Platform::M3Ultra => 3,
            Platform::M4 | Platform::M4Pro | Platform::M4Max | Platform::M4Ultra => 4,
        }
    }
}

/// The part of the machine a sensor belongs to.
#[derive(Clone, Copy, Debug, PartialEq, Eq, Structural)]
pub enum SensorGroup {
    /// Processor.
    CPU,
    /// Graphics processor.
    GPU,
    /// The system as a whole.
    System,
    /// Other sensors.
    Sensor,
}

/// What a sensor measures.
#[derive(Clone, Copy, Debug, PartialEq, Eq, Structural)]
pub enum SensorType {
    /// Temperature.
    Temperature,
    /// Voltage.
    Voltage,
    /// Current.
    Current,
    /// Power.
    Power,
}

/// A sensor of the catalog.
#[derive(Clone, Debug)]
pub struct SensorDef {
    /// Its key.
    pub key: &'static str,
    /// Its name for people.
    pub name: &'static str,
    /// The part of the machine it belongs to.
    pub group: SensorGroup,
    /// What it measures.
    pub sensor_type: SensorType,
    /// The platforms that have it.
    pub platforms: Vec<Platform>,
    /// Whether its readings are averaged with those of its kind.
    pub average: bool,
}

/// A sensor of the catalog, over sequences.
pub struct SensorView {
    pub key: Seq<char>,
    pub name: Seq<char>,
    pub group: SensorGroup,
    pub sensor_type: SensorType,
    pub platforms: Seq<Platform>,
    pub average: bool,
}

impl View for SensorDef {
    type V = SensorView;

    open spec fn view(&self) -> SensorView {
        SensorView {
            key: self.key@,
            name: self.name@,
            group: self.group,
            sensor_type: self.sensor_type,
            platforms: self.platforms@,
            average: self.average,
        }
    }
}

/// The catalog entry with the given fields.
pub open spec fn entry(
    key: &'static str,
    name: &'static str,
    group: SensorGroup,
    sensor_type: SensorType,
    platforms: Seq<Platform>,
    average: bool,
) -> SensorView {
    SensorView { key: key@, name: name@, group, sensor_type, platforms, average }
}

fn intel_only() -> (r: Vec<Platform>)
    ensures
        r@ == seq![Platform::Intel],
{
    let r = vec![Platform::Intel];
    assert(r@ =~= seq![Platform::Intel]);
    r
}

fn m4_base_only() -> (r: Vec<Platform>)
    ensures
        r@ == seq![Platform::M4],
{
    let r = vec![Platform::M4];
    assert(r@ =~= seq![Platform::M4]);
    r
}

fn m4_large_only() -> (r: Vec<Platform>)
    ensures
        r@ == seq![Platform::M4Pro, Platform::M4Max, Platform::M4Ultra],
{
    let r = vec![Platform::M4Pro, Platform::M4Max, Platform::M4Ultra];
    assert(r@ =~= seq![Platform::M4Pro, Platform::M4Max, Platform::M4Ultra]);
    r
}

/// Temperature sensors found on every platform.
pub open spec fn universal_sensors() -> Seq<SensorView> {
    seq![
        entry("TC0D", "CPU diode", SensorGroup::CPU, SensorType::Temperature, all_platforms(), false),
        entry("TC0F", "CPU diode filtered", SensorGroup::CPU, SensorType::Temperature, all_platforms(), false),
        entry("TC0P", "CPU proximity", SensorGroup::CPU, SensorType::Temperature, all_platforms(), false),
        entry("TCGC", "GPU Intel Graphics", SensorGroup::GPU, SensorType::Temperature, all_platforms(), false),
        entry("TG0P", "GPU proximity", SensorGroup::GPU, SensorType::Temperature, all_platforms(), false),
        entry("TGDD", "GPU AMD Radeon", SensorGroup::GPU, SensorType::Temperature, all_platforms(), false),
    ]
}

/// Appends the universal sensors.
fn add_universal_sensors(r: &mut Vec<SensorDef>)
    ensures
        final(r)@.map_values(|d: SensorDef| d@) == old(r)@.map_values(|d: SensorDef| d@) + universal_sensors(),
{
    let ghost start = r@;
    r.push(SensorDef { key: "TC0D", name: "CPU diode", group: SensorGroup::CPU, sensor_type: SensorType::Temperature, platforms: Platform::all(), average: false });
    r.push(SensorDef { key: "TC0F", name: "CPU diode filtered", group: SensorGroup::CPU, sensor_type: SensorType::Temperature, platforms: Platform::all(), average: false });
    r.push(SensorDef { key: "TC0P", name: "CPU proximity", group: SensorGroup::CPU, sensor_type: SensorType::Temperature, platforms: Platform::all(), average: false });
    r.push(SensorDef { key: "TCGC", name: "GPU Intel Graphics", group: SensorGroup::GPU, sensor_type: SensorType::Temperature, platforms: Platform::all(), average: false });
    r.push(SensorDef { key: "TG0P", name: "GPU proximity", group: SensorGroup::GPU, sensor_type: SensorType::Temperature, platforms: Platform::all(), average: false });
    r.push(SensorDef { key: "TGDD", name: "GPU AMD Radeon", group: SensorGroup::GPU, sensor_type: SensorType::Temperature, platforms: Platform::all(), average: false });
    assert(r@.map_values(|d: SensorDef| d@) =~= start.map_values(|d: SensorDef| d@) + universal_sensors());
}

/// Sensors of Intel-based machines.
pub open spec fn intel_sensors() -> Seq<SensorView> {
    seq![
        entry("Th1H", "Heatpipe 1", SensorGroup::Sensor, SensorType::Temperature, seq![Platform::Intel], false),
        entry("Th2H", "Heatpipe 2", SensorGroup::Sensor, SensorType::Temperature, seq![Platform::Intel], false),
    ]
}

/// Appends the intel sensors.
fn add_intel_sensors(r: &mut Vec<SensorDef>)
    ensures
        final(r)@.map_values(|d: SensorDef| d@) == old(r)@.map_values(|d: SensorDef| d@) + intel_sensors(),
{
    let ghost start = r@;
    r.push(SensorDef { key: "Th1H", name: "Heatpipe 1", group: SensorGroup::Sensor, sensor_type: SensorType::Temperature, platforms: intel_only(), average: false });
    r.push(SensorDef { key: "Th2H", name: "Heatpipe 2", group: SensorGroup::Sensor, sensor_type: SensorType::Temperature, platforms: intel_only(), average: false });
    assert(r@.map_values(|d: SensorDef| d@) =~= start.map_values(|d: SensorDef| d@) + intel_sensors());
}

/// Sensors of the M1 generation.
pub open spec fn m1_sensors() -> Seq<SensorView> {
    seq![
        entry("Tp09", "CPU efficiency core 1", SensorGroup::CPU, SensorType::Temperature, m1_platforms(), true),
        entry("Tp0T", "CPU efficiency core 2", SensorGroup::CPU, SensorType::Temperature, m1_platforms(), true),
        entry("Tp01", "CPU performance core 1", SensorGroup::CPU, SensorType::Temperature, m1_platforms(), true),
        entry("Tp05", "CPU performance core 2", SensorGroup::CPU, SensorType::Temperature, m1_platforms(), true),
        entry("Tg05", "GPU 1", SensorGroup::GPU, SensorType::Temperature, m1_platforms(), true),
        entry("Tg0D", "GPU 2", SensorGroup::GPU, SensorType::Temperature, m1_platforms(), true),
    ]
}

/// Appends the m1 sensors.
fn add_m1_sensors(r: &mut Vec<SensorDef>)
    ensures
        final(r)@.map_values(|d: SensorDef| d@) == old(r)@.map_values(|d: SensorDef| d@) + m1_sensors(),
{
    let ghost start = r@;
    r.push(SensorDef { key: "Tp09", name: "CPU efficiency core 1", group: SensorGroup::CPU, sensor_type: SensorType::Temperature, platforms: Platform::m1_gen(), average: true });
    r.push(SensorDef { key: "Tp0T", name: "CPU efficiency core 2", group: SensorGroup::CPU, sensor_type: SensorType::Temperature, platforms: Platform::m1_gen(), average: true });
    r.push(SensorDef { key: "Tp01", name: "CPU performance core 1", group: SensorGroup::CPU, sensor_type: SensorType::Temperature, platforms: Platform::m1_gen(), average: true });
    r.push(SensorDef { key: "Tp05", name: "CPU performance core 2", group: SensorGroup::CPU, sensor_type: SensorType::Temperature, platforms: Platform::m1_gen(), average: true });
    r.push(SensorDef { key: "Tg05", name: "GPU 1", group: SensorGroup::GPU, sensor_type: SensorType::Temperature, platforms: Platform::m1_gen(), average: true });
    r.push(SensorDef { key: "Tg0D", name: "GPU 2", group: SensorGroup::GPU, sensor_type: SensorType::Temperature, platforms: Platform::m1_gen(), average: true });
    assert(r@.map_values(|d: SensorDef| d@) =~= start.map_values(|d: SensorDef| d@) + m1_sensors());
}

/// Sensors of the M2 generation.
pub open spec fn m2_sensors() -> Seq<SensorView> {
    seq![
        entry("Tp1h", "CPU efficiency core 1", SensorGroup::CPU, SensorType::Temperature, m2_platforms(), true),
        entry("Tp1t", "CPU efficiency core 2", SensorGroup::CPU, SensorType::Temperature, m2_platforms(), true),
        entry("Tp1p", "CPU efficiency core 3", SensorGroup::CPU, SensorType::Temperature, m2_platforms(), true),
        entry("Tp1l", "CPU efficiency core 4", SensorGroup::CPU, SensorType::Temperature, m2_platforms(), true),
        entry("Tp01", "CPU performance core 1", SensorGroup::CPU, SensorType::Temperature, m2_platforms(), true),
        entry("Tp05", "CPU performance core 2", SensorGroup::CPU, SensorType::Temperature, m2_platforms(), true),
        entry("Tp09", "CPU performance core 3", SensorGroup::CPU, SensorType::Temperature, m2_platforms(), true),
        entry("Tp0D", "CPU performance core 4", SensorGroup::CPU, SensorType::Temperature, m2_platforms(), true),
        entry("Tp0X", "CPU performance core 5", SensorGroup::CPU, SensorType::Temperature, m2_platforms(), true),
        entry("Tp0b", "CPU performance core 6", SensorGroup::CPU, SensorType::Temperature, m2_platforms(), true),
        entry("Tp0f", "CPU performance core 7", SensorGroup::CPU, SensorType::Temperature, m2_platforms(), true),
        entry("Tp0j", "CPU performance core 8", SensorGroup::CPU, SensorType::Temperature, m2_platforms(), true),
        entry("Tg0f", "GPU 1", SensorGroup::GPU, SensorType::Temperature, m2_platforms(), true),
        entry("Tg0j", "GPU 2", SensorGroup::GPU, SensorType::Temperature, m2_platforms(), true),
    ]
}

/// Appends the m2 sensors.
fn add_m2_sensors(r: &mut Vec<SensorDef>)
    ensures
        final(r)@.map_values(|d: SensorDef| d@) == old(r)@.map_values(|d: SensorDef| d@) + m2_sensors(),
{
    let ghost start = r@;
    r.push(SensorDef { key: "Tp1h", name: "CPU efficiency core 1", group: SensorGroup::CPU, sensor_type: SensorType::Temperature, platforms: Platform::m2_gen(), average: true });
    r.push(SensorDef { key: "Tp1t", name: "CPU efficiency core 2", group: SensorGroup::CPU, sensor_type: SensorType::Temperature, platforms: Platform::m2_gen(), average: true });
    r.push(SensorDef { key: "Tp1p", name: "CPU efficiency core 3", group: SensorGroup::CPU, sensor_type: SensorType::Temperature, platforms: Platform::m2_gen(), average: true });
    r.push(SensorDef { key: "Tp1l", name: "CPU efficiency core 4", group: SensorGroup::CPU, sensor_type: SensorType::Temperature, platforms: Platform::m2_gen(), average: true });
    r.push(SensorDef { key: "Tp01", name: "CPU performance core 1", group: SensorGroup::CPU, sensor_type: SensorType::Temperature, platforms: Platform::m2_gen(), average: true });
    r.push(SensorDef { key: "Tp05", name: "CPU performance core 2", group: SensorGroup::CPU, sensor_type: SensorType::Temperature, platforms: Platform::m2_gen(), average: true });
    r.push(SensorDef { key: "Tp09", name: "CPU performance core 3", group: SensorGroup::CPU, sensor_type: SensorType::Temperature, platforms: Platform::m2_gen(), average: true });
    r.push(SensorDef { key: "Tp0D", name: "CPU performance core 4", group: SensorGroup::CPU, sensor_type: SensorType::Temperature, platforms: Platform::m2_gen(), average: true });
    r.push(SensorDef { key: "Tp0X", name: "CPU performance core 5", group: SensorGroup::CPU, sensor_type: SensorType::Temperature, platforms: Platform::m2_gen(), average: true });
    r.push(SensorDef { key: "Tp0b", name: "CPU performance core 6", group: SensorGroup::CPU, sensor_type: SensorType::Temperature, platforms: Platform::m2_gen(), average: true });
    r.push(SensorDef { key: "Tp0f", name: "CPU performance core 7", group: SensorGroup::CPU, sensor_type: SensorType::Temperature, platforms: Platform::m2_gen(), average: true });
    r.push(SensorDef { key: "Tp0j", name: "CPU performance core 8", group: SensorGroup::CPU, sensor_type: SensorType::Temperature, platforms: Platform::m2_gen(), average: true });
    r.push(SensorDef { key: "Tg0f", name: "GPU 1", group: SensorGroup::GPU, sensor_type: SensorType::Temperature, platforms: Platform::m2_gen(), average: true });
    r.push(SensorDef { key: "Tg0j", name: "GPU 2", group: SensorGroup::GPU, sensor_type: SensorType::Temperature, platforms: Platform::m2_gen(), average: true });
    assert(r@.map_values(|d: SensorDef| d@) =~= start.map_values(|d: SensorDef| d@) + m2_sensors());
}

/// Sensors of the M3 generation.
pub open spec fn m3_sensors() -> Seq<SensorView> {
    seq![
        entry("Te05", "CPU efficiency core 1", SensorGroup::CPU, SensorType::Temperature, m3_platforms(), true),
        entry("Te0L", "CPU efficiency core 2", SensorGroup::CPU, SensorType::Temperature, m3_platforms(), true),
        entry("Tf04", "CPU performance core 1", SensorGroup::CPU, SensorType::Temperature, m3_platforms(), true),
        entry("Tf09", "CPU performance core 2", SensorGroup::CPU, SensorType::Temperature, m3_platforms(), true),
        entry("Tf14", "GPU 1", SensorGroup::GPU, SensorType::Temperature, m3_platforms(), true),
        entry("Tf18", "GPU 2", SensorGroup::GPU, SensorType::Temperature, m3_platforms(), true),
    ]
}

/// Appends the m3 sensors.
fn add_m3_sensors(r: &mut Vec<SensorDef>)
    ensures
        final(r)@.map_values(|d: SensorDef| d@) == old(r)@.map_values(|d: SensorDef| d@) + m3_sensors(),
{
    let ghost start = r@;
    r.push(SensorDef { key: "Te05", name: "CPU efficiency core 1", group: SensorGroup::CPU, sensor_type: SensorType::Temperature, platforms: Platform::m3_gen(), average: true });
    r.push(SensorDef { key: "Te0L", name: "CPU efficiency core 2", group: SensorGroup::CPU, sensor_type: SensorType::Temperature, platforms: Platform::m3_gen(), average: true });
    r.push(SensorDef { key: "Tf04", name: "CPU performance core 1", group: SensorGroup::CPU, sensor_type: SensorType::Temperature, platforms: Platform::m3_gen(), average: true });
    r.push(SensorDef { key: "Tf09", name: "CPU performance core 2", group: SensorGroup::CPU, sensor_type: SensorType::Temperature, platforms: Platform::m3_gen(), average: true });
    r.push(SensorDef { key: "Tf14", name: "GPU 1", group: SensorGroup::GPU, sensor_type: SensorType::Temperature, platforms: Platform::m3_gen(), average: true });
    r.push(SensorDef { key: "Tf18", name: "GPU 2", group: SensorGroup::GPU, sensor_type: SensorType::Temperature, platforms: Platform::m3_gen(), average: true });
    assert(r@.map_values(|d: SensorDef| d@) =~= start.map_values(|d: SensorDef| d@) + m3_sensors());
}

/// Sensors of the M4 generation.
pub open spec fn m4_sensors() -> Seq<SensorView> {
    seq![
        entry("Te05", "CPU efficiency core 1", SensorGroup::CPU, SensorType::Temperature, m4_platforms(), true),
        entry("Te0S", "CPU efficiency core 2", SensorGroup::CPU, SensorType::Temperature, m4_platforms(), true),
        entry("Tp01", "CPU performance core 1", SensorGroup::CPU, SensorType::Temperature, m4_platforms(), true),
        entry("Tp05", "CPU performance core 2", SensorGroup::CPU, SensorType::Temperature, m4_platforms(), true),
        entry("Tg0G", "GPU 1", SensorGroup::GPU, SensorType::Temperature, seq![Platform::M4], true),
        entry("Tg1U", "GPU 1", SensorGroup::GPU, SensorType::Temperature, seq![Platform::M4Pro, Platform::M4Max, Platform::M4Ultra], true),
    ]
}

/// Appends the m4 sensors.
fn add_m4_sensors(r: &mut Vec<SensorDef>)
    ensures
        final(r)@.map_values(|d: SensorDef| d@) == old(r)@.map_values(|d: SensorDef| d@) + m4_sensors(),
{
    let ghost start = r@;
    r.push(SensorDef { key: "Te05", name: "CPU efficiency core 1", group: SensorGroup::CPU, sensor_type: SensorType::Temperature, platforms: Platform::m4_gen(), average: true });
    r.push(SensorDef { key: "Te0S", name: "CPU efficiency core 2", group: SensorGroup::CPU, sensor_type: SensorType::Temperature, platforms: Platform::m4_gen(), average: true });
    r.push(SensorDef { key: "Tp01", name: "CPU performance core 1", group: SensorGroup::CPU, sensor_type: SensorType::Temperature, platforms: Platform::m4_gen(), average: true });
    r.push(SensorDef { key: "Tp05", name: "CPU performance core 2", group: SensorGroup::CPU, sensor_type: SensorType::Temperature, platforms: Platform::m4_gen(), average: true });
    r.push(SensorDef { key: "Tg0G", name: "GPU 1", group: SensorGroup::GPU, sensor_type: SensorType::Temperature, platforms: m4_base_only(), average: true });
    r.push(SensorDef { key: "Tg1U", name: "GPU 1", group: SensorGroup::GPU, sensor_type: SensorType::Temperature, platforms: m4_large_only(), average: true });
    assert(r@.map_values(|d: SensorDef| d@) =~= start.map_values(|d: SensorDef| d@) + m4_sensors());
}

/// Power sensors found on every platform.
pub open spec fn power_sensors() -> Seq<SensorView> {
    seq![
        entry("PCPC", "CPU Package", SensorGroup::CPU, SensorType::Power, all_platforms(), false),
        entry("PCPT", "CPU Package total", SensorGroup::CPU, SensorType::Power, all_platforms(), false),
        entry("PG0R", "GPU 1", SensorGroup::GPU, SensorType::Power, all_platforms(), false),
        entry("PDTR", "DC In", SensorGroup::Sensor, SensorType::Power, all_platforms(), false),
        entry("PSTR", "System Total", SensorGroup::Sensor, SensorType::Power, all_platforms(), false),
    ]
}

/// Appends the power sensors.
fn add_power_sensors(r: &mut Vec<SensorDef>)
    ensures
        final(r)@.map_values(|d: SensorDef| d@) == old(r)@.map_values(|d: SensorDef| d@) + power_sensors(),
{
    let ghost start = r@;
    r.push(SensorDef { key: "PCPC", name: "CPU Package", group: SensorGroup::CPU, sensor_type: SensorType::Power, platforms: Platform::all(), average: false });
    r.push(SensorDef { key: "PCPT", name: "CPU Package total", group: SensorGroup::CPU, sensor_type: SensorType::Power, platforms: Platform::all(), average: false });
    r.push(SensorDef { key: "PG0R", name: "GPU 1", group: SensorGroup::GPU, sensor_type: SensorType::Power, platforms: Platform::all(), average: false });
    r.push(SensorDef { key: "PDTR", name: "DC In", group: SensorGroup::Sensor, sensor_type: SensorType::Power, platforms: Platform::all(), average: false });
    r.push(SensorDef { key: "PSTR", name: "System Total", group: SensorGroup::Sensor, sensor_type: SensorType::Power, platforms: Platform::all(), average: false });
    assert(r@.map_values(|d: SensorDef| d@) =~= start.map_values(|d: SensorDef| d@) + power_sensors());
}

/// The sensor catalog, in its order.
pub open spec fn sensor_catalog() -> Seq<SensorView> {
    universal_sensors() + intel_sensors() + m1_sensors() + m2_sensors() + m3_sensors() + m4_sensors() + power_sensors()
}

/// The sensor catalog, in its order.
pub fn get_sensor_definitions() -> (r: Vec<SensorDef>)
    ensures
        r@.map_values(|d: SensorDef| d@) == sensor_catalog(),
{
    let mut r: Vec<SensorDef> = Vec::new();
    assert(r@.map_values(|d: SensorDef| d@) =~= Seq::<SensorView>::empty());
    add_universal_sensors(&mut r);
    add_intel_sensors(&mut r);
    add_m1_sensors(&mut r);
    add_m2_sensors(&mut r);
    add_m3_sensors(&mut r);
    add_m4_sensors(&mut r);
    add_power_sensors(&mut r);
    r
}

/// The views of a list of sensors.
pub open spec fn views(v: Seq<SensorDef>) -> Seq<SensorView> {
    v.map_values(|d: SensorDef| d@)
}

/// Whether a platform is in a list.
pub fn platform_in(ps: &Vec<Platform>, p: Platform) -> (r: bool)
    ensures
        r == ps@.contains(p),
{
    let mut i: usize = 0;
    while i < ps.len()
        invariant
            0 <= i <= ps@.len(),
            forall|j: int| 0 <= j < i ==> ps@[j] != p,
        decreases ps@.len() - i,
    {
        if ps[i] == p {
            assert(ps@[i as int] == p);
            return true;
        }
        i += 1;
    }
    false
}

/// Whether two texts are the same.
pub fn same_text(a: &str, b: &str) -> (r: bool)
    ensures
        r == (a@ == b@),
{
    let x = a.as_bytes();
    let y = b.as_bytes();
    if x.len() != y.len() {
        return false;
    }
    let mut i: usize = 0;
    while i < x.len()
        invariant
            0 <= i <= x@.len(),
            x@.len() == y@.len(),
            x@ == a.spec_bytes(),
            y@ == b.spec_bytes(),
            forall|j: int| 0 <= j < i ==> x@[j] == y@[j],
        decreases x@.len() - i,
    {
        if x[i] != y[i] {
            return false;
        }
        i += 1;
    }
    proof {
        assert(x@ =~= y@);
        encode_utf8_decode_utf8(a@);
        encode_utf8_decode_utf8(b@);
    }
    true
}

impl SensorDef {
    /// A copy of this definition.
    pub fn duplicate(&self) -> (r: SensorDef)
        ensures
            r@ == self@,
    {
        let mut platforms: Vec<Platform> = Vec::new();
        let mut i: usize = 0;
        while i < self.platforms.len()
            invariant
                0 <= i <= self.platforms@.len(),
                platforms@ == self.platforms@.take(i as int),
            decreases self.platforms@.len() - i,
        {
            platforms.push(self.platforms[i]);
            i += 1;
            assert(platforms@ =~= self.platforms@.take(i as int));
        }
        assert(platforms@ =~= self.platforms@);
        SensorDef {
            key: self.key,
            name: self.name,
            group: self.group,
            sensor_type: self.sensor_type,
            platforms,
            average: self.average,
        }
    }
}

/// Whether a sensor is available on a platform.
pub open spec fn on_platform(p: Platform) -> spec_fn(SensorView) -> bool {
    |d: SensorView| d.platforms.contains(p)
}

/// The sensors of the catalog available on a platform, in catalog order.
pub fn get_sensors_for_platform(platform: Platform) -> (r: Vec<SensorDef>)
    ensures
        views(r@) == sensor_catalog().filter(on_platform(platform)),
{
    let defs = get_sensor_definitions();
    let mut out: Vec<SensorDef> = Vec::new();
    let mut i: usize = 0;
    while i < defs.len()
        invariant
            0 <= i <= defs@.len(),
            views(defs@) == sensor_catalog(),
            views(out@) == views(defs@).take(i as int).filter(on_platform(platform)),
        decreases defs@.len() - i,
    {
        let ghost before = out@;
        let keep = platform_in(&defs[i].platforms, platform);
        proof {
            assert(views(defs@).take(i + 1) =~= views(defs@).take(i as int).push(defs@[i as int]@));
            views(defs@).take(i as int).lemma_filter_push(defs@[i as int]@, on_platform(platform));
        }
        if keep {
            let d = defs[i].duplicate();
            out.push(d);
            assert(views(out@) =~= views(before).push(d@));
        }
        i += 1;
    }
    assert(views(defs@).take(i as int) =~= views(defs@));
    out
}

/// The sensors of a platform, looked up by key. Within a platform the catalog
/// names each key once, so a lookup finds the one definition of its key.
pub fn create_sensor_map(platform: Platform) -> (r: Vec<SensorDef>)
    ensures
        views(r@) == sensor_catalog().filter(on_platform(platform)),
        keys_unique_on(views(r@)),
{
    proof {
        lemma_platform_keys_unique(platform);
    }
    get_sensors_for_platform(platform)
}

/// A platform and the sensors it has.
#[derive(Clone, Debug)]
pub struct PlatformInfo {
    /// The platform.
    pub platform: Platform,
    /// The sensors of the catalog it has.
    pub available_sensors: Vec<SensorDef>,
}

/// Whether a list of sensors has one with the given key.
pub open spec fn has_key(s: Seq<SensorView>, key: Seq<char>) -> bool {
    exists|i: int| 0 <= i < s.len() && #[trigger] s[i].key == key
}

/// The first index of a sensor with the given key.
pub open spec fn is_first_key(s: Seq<SensorView>, key: Seq<char>, i: int) -> bool {
    &&& 0 <= i < s.len()
    &&& s[i].key == key
    &&& forall|j: int| 0 <= j < i ==> #[trigger] s[j].key != key
}

/// The index of the first sensor with the given key.
pub open spec fn first_key_index(s: Seq<SensorView>, key: Seq<char>) -> int {
    choose|i: int| is_first_key(s, key, i)
}

/// There is one first index of a key.
pub proof fn lemma_first_key_index(s: Seq<SensorView>, key: Seq<char>, i: int)
    requires
        is_first_key(s, key, i),
    ensures
        first_key_index(s, key) == i,
{
    let j = first_key_index(s, key);
    assert(is_first_key(s, key, j));
    if j < i {
        assert(s[j].key != key);
    } else if i < j {
        assert(s[i].key != key);
    }
}

/// Finds the first sensor with the given key.
pub fn find_sensor(defs: &Vec<SensorDef>, key: &str) -> (r: Option<usize>)
    ensures
        r is None <==> !has_key(views(defs@), key@),
        r matches Some(i) ==> is_first_key(views(defs@), key@, i as int),
{
    let mut i: usize = 0;
    while i < defs.len()
        invariant
            0 <= i <= defs@.len(),
            forall|j: int| 0 <= j < i ==> #[trigger] views(defs@)[j].key != key@,
        decreases defs@.len() - i,
    {
        if same_text(defs[i].key, key) {
            assert(views(defs@)[i as int] == defs@[i as int]@);
            assert(views(defs@)[i as int].key == key@);
            assert(has_key(views(defs@), key@));
            return Some(i);
        }
        assert(views(defs@)[i as int] == defs@[i as int]@);
        i += 1;
    }
    None
}

/// Whether a sensor is a temperature of a group, and averaged where only
/// averaged sensors are asked for.
pub open spec fn temps_of(group: SensorGroup, averaged_only: bool) -> spec_fn(SensorView) -> bool {
    |d: SensorView| d.group == group && d.sensor_type == SensorType::Temperature && (averaged_only ==> d.average)
}

/// Whether a sensor is a processor temperature that is averaged.
pub open spec fn is_core_temp() -> spec_fn(SensorView) -> bool {
    temps_of(SensorGroup::CPU, true)
}

/// Whether a sensor is a graphics temperature.
pub open spec fn is_gpu_temp() -> spec_fn(SensorView) -> bool {
    temps_of(SensorGroup::GPU, false)
}

/// The keys of the sensors that pass a test, in order.
pub open spec fn keys_where(s: Seq<SensorView>, pred: spec_fn(SensorView) -> bool) -> Seq<Seq<char>> {
    s.filter(pred).map_values(|d: SensorView| d.key)
}

/// The platform-aware resolver of sensor keys.
#[derive(Debug)]
pub struct PlatformCommands {
    platform: Platform,
    sensor_map: Vec<SensorDef>,
}

impl PlatformCommands {
    /// The platform resolved for.
    pub closed spec fn spec_platform(&self) -> Platform {
        self.platform
    }

    /// The sensors of the platform, in catalog order.
    pub closed spec fn sensors(&self) -> Seq<SensorView> {
        views(self.sensor_map@)
    }

    /// The resolver for a platform.
    pub fn new(platform: Platform) -> (r: PlatformCommands)
        ensures
            r.spec_platform() == platform,
            r.sensors() == sensor_catalog().filter(on_platform(platform)),
            keys_unique_on(r.sensors()),
    {
        let sensor_map = create_sensor_map(platform);
        PlatformCommands { platform, sensor_map }
    }

    /// The platform resolved for.
    pub fn platform(&self) -> (r: Platform)
        ensures
            r == self.spec_platform(),
    {
        self.platform
    }

    /// Whether the platform has a sensor with this key.
    pub fn has_sensor(&self, key: &str) -> (r: bool)
        ensures
            r == has_key(self.sensors(), key@),
    {
        find_sensor(&self.sensor_map, key).is_some()
    }

    /// The definition of the sensor with this key, if the platform has one.
    pub fn get_sensor(&self, key: &str) -> (r: Option<&SensorDef>)
        ensures
            r is None <==> !has_key(self.sensors(), key@),
            r is Some ==> r->Some_0@ == self.sensors()[first_key_index(self.sensors(), key@)],
    {
        match find_sensor(&self.sensor_map, key) {
            Some(i) => {
                assert(self.sensors()[i as int] == self.sensor_map@[i as int]@);
                proof {
                    lemma_first_key_index(self.sensors(), key@, i as int);
                }
                Some(&self.sensor_map[i])
            },
            None => None,
        }
    }

    /// The keys of the sensors that pass a test, in catalog order.
    fn keys_matching(&self, group: SensorGroup, averaged_only: bool) -> (r: Vec<String>)
        ensures
            r@.map_values(|s: String| s@) == keys_where(self.sensors(), temps_of(group, averaged_only)),
    {
        let mut out: Vec<String> = Vec::new();
        let mut i: usize = 0;
        while i < self.sensor_map.len()
            invariant
                0 <= i <= self.sensor_map@.len(),
                out@.map_values(|s: String| s@) == keys_where(self.sensors().take(i as int), temps_of(group, averaged_only)),
            decreases self.sensor_map@.len() - i,
        {
            let d = &self.sensor_map[i];
            proof {
                assert(self.sensors().take(i + 1) =~= self.sensors().take(i as int).push(d@));
                self.sensors().take(i as int).lemma_filter_push(d@, temps_of(group, averaged_only));
            }
            let ghost before = out@;
            if d.group == group && d.sensor_type == SensorType::Temperature && (!averaged_only || d.average) {
                let k = d.key.to_owned();
                out.push(k);
                assert(d@.group == group && d@.sensor_type == SensorType::Temperature && (averaged_only ==> d@.average));
                assert(temps_of(group, averaged_only)(d@));
                assert(out@.map_values(|s: String| s@) =~= before.map_values(|s: String| s@).push(d@.key));
                assert(self.sensors().take(i as int).filter(temps_of(group, averaged_only)).push(d@).map_values(|e: SensorView| e.key)
                    =~= self.sensors().take(i as int).filter(temps_of(group, averaged_only)).map_values(|e: SensorView| e.key).push(d@.key));
            } else {
                assert(!(d@.group == group && d@.sensor_type == SensorType::Temperature && (averaged_only ==> d@.average)));
                assert(!temps_of(group, averaged_only)(d@));
            }
            i += 1;
        }
        assert(self.sensors().take(i as int) =~= self.sensors());
        out
    }

    /// The keys of the averaged processor temperature sensors, in catalog order.
    pub fn cpu_core_temp_keys(&self) -> (r: Vec<String>)
        ensures
            r@.map_values(|s: String| s@) == keys_where(self.sensors(), is_core_temp()),
    {
        self.keys_matching(SensorGroup::CPU, true)
    }

    /// The keys of the graphics temperature sensors, in catalog order.
    pub fn gpu_temp_keys(&self) -> (r: Vec<String>)
        ensures
            r@.map_values(|s: String| s@) == keys_where(self.sensors(), is_gpu_temp()),
    {
        self.keys_matching(SensorGroup::GPU, false)
    }

    /// The processor proximity key: the first of `TC0P`, `TCAD` and `TC0D`
    /// that the platform has, and `TC0P` where it has none of them.
    pub fn cpu_proximity_key(&self) -> (r: Option<CommandKey>)
        ensures
            r == Some(CommandKey(
                if has_key(self.sensors(), "TC0P"@) {
                    TEMP_CPU_PROXIMITY
                } else if has_key(self.sensors(), "TCAD"@) {
                    TEMP_CPU_PACKAGE
                } else if has_key(self.sensors(), "TC0D"@) {
                    TEMP_CPU_DIODE
                } else {
                    TEMP_CPU_PROXIMITY
                },
            )),
    {
        if self.has_sensor("TC0P") {
            Some(CommandKey(TEMP_CPU_PROXIMITY))
        } else if self.has_sensor("TCAD") {
            Some(CommandKey(TEMP_CPU_PACKAGE))
        } else if self.has_sensor("TC0D") {
            Some(CommandKey(TEMP_CPU_DIODE))
        } else {
            Some(CommandKey(TEMP_CPU_PROXIMITY))
        }
    }

    /// The graphics proximity key: the first of `TG0P`, `TGDD` and `TCGC`
    /// that the platform has, and `TG0P` where it has none of them.
    pub fn gpu_proximity_key(&self) -> (r: Option<CommandKey>)
        ensures
            r == Some(CommandKey(
                if has_key(self.sensors(), "TG0P"@) {
                    TEMP_GPU_PROXIMITY
                } else if has_key(self.sensors(), "TGDD"@) {
                    TEMP_GPU_DIE
                } else if has_key(self.sensors(), "TCGC"@) {
                    TEMP_CPU_GFX
                } else {
                    TEMP_GPU_PROXIMITY
                },
            )),
    {
        if self.has_sensor("TG0P") {
            Some(CommandKey(TEMP_GPU_PROXIMITY))
        } else if self.has_sensor("TGDD") {
            Some(CommandKey(TEMP_GPU_DIE))
        } else if self.has_sensor("TCGC") {
            Some(CommandKey(TEMP_CPU_GFX))
        } else {
            Some(CommandKey(TEMP_GPU_PROXIMITY))
        }
    }
}

/// The tier within a generation that a lower-case brand string names.
pub open spec fn tier_of(b: Seq<u8>, ultra: Platform, max: Platform, pro: Platform, base: Platform) -> Platform {
    if has_infix(b, "ultra".spec_bytes()) {
        ultra
    } else if has_infix(b, "max".spec_bytes()) {
        max
    } else if has_infix(b, "pro".spec_bytes()) {
        pro
    } else {
        base
    }
}

/// The platform that a lower-case processor brand string names; M1 where it
/// names none.
pub open spec fn platform_of_lowered(b: Seq<u8>) -> Platform {
    if has_infix(b, "apple m1".spec_bytes()) {
        tier_of(b, Platform::M1Ultra, Platform::M1Max, Platform::M1Pro, Platform::M1)
    } else if has_infix(b, "apple m2".spec_bytes()) {
        tier_of(b, Platform::M2Ultra, Platform::M2Max, Platform::M2Pro, Platform::M2)
    } else if has_infix(b, "apple m3".spec_bytes()) {
        tier_of(b, Platform::M3Ultra, Platform::M3Max, Platform::M3Pro, Platform::M3)
    } else if has_infix(b, "apple m4".spec_bytes()) {
        tier_of(b, Platform::M4Ultra, Platform::M4Max, Platform::M4Pro, Platform::M4)
    } else if has_infix(b, "intel".spec_bytes()) {
        Platform::Intel
    } else {
        Platform::M1
    }
}

/// The platform that a processor brand string names, read without regard to
/// case.
pub open spec fn platform_of_brand(brand: Seq<char>) -> Platform {
    platform_of_lowered(encode_utf8(lower_of(brand)))
}

fn tier(b: &str, ultra: Platform, max: Platform, pro: Platform, base: Platform) -> (r: Platform)
    ensures
        r == tier_of(b.spec_bytes(), ultra, max, pro, base),
{
    if contains_text(b, "ultra") {
        ultra
    } else if contains_text(b, "max") {
        max
    } else if contains_text(b, "pro") {
        pro
    } else {
        base
    }
}

/// The platform that a lower-case processor brand string names; M1 where it
/// names none.
pub fn platform_from_lowered(b: &str) -> (r: Platform)
    ensures
        r == platform_of_lowered(b.spec_bytes()),
{
    if contains_text(b, "apple m1") {
        tier(b, Platform::M1Ultra, Platform::M1Max, Platform::M1Pro, Platform::M1)
    } else if contains_text(b, "apple m2") {
        tier(b, Platform::M2Ultra, Platform::M2Max, Platform::M2Pro, Platform::M2)
    } else if contains_text(b, "apple m3") {
        tier(b, Platform::M3Ultra, Platform::M3Max, Platform::M3Pro, Platform::M3)
    } else if contains_text(b, "apple m4") {
        tier(b, Platform::M4Ultra, Platform::M4Max, Platform::M4Pro, Platform::M4)
    } else if contains_text(b, "intel") {
        Platform::Intel
    } else {
        Platform::M1
    }
}

/// The platform that a processor brand string names.
pub fn detect_platform(brand: &str) -> (r: Platform)
    ensures
        r == platform_of_brand(brand@),
{
    let lowered = lowercase(brand);
    platform_from_lowered(lowered.as_str())
}

/// No key appears twice in a list of sensors.
pub open spec fn keys_unique_on(s: Seq<SensorView>) -> bool {
    forall|i: int, j: int| 0 <= i < j < s.len() ==> #[trigger] s[i].key != #[trigger] s[j].key
}

/// Whether two keys differ in one of their first four characters.
pub open spec fn keys_differ(a: Seq<char>, b: Seq<char>) -> bool {
    a[0] != b[0] || a[1] != b[1] || a[2] != b[2] || a[3] != b[3]
}

/// Whether no sensor in a list has the given key.
pub open spec fn key_absent(k: Seq<char>, s: Seq<SensorView>) -> bool
    decreases s.len(),
{
    s.len() == 0 || (keys_differ(s.last().key, k) && key_absent(k, s.drop_last()))
}

/// Whether a platform is in a list, checked from the back.
pub open spec fn listed(p: Platform, ps: Seq<Platform>) -> bool
    decreases ps.len(),
{
    ps.len() > 0 && (ps.last() == p || listed(p, ps.drop_last()))
}

/// The sensors of a list that a platform has, in order.
pub open spec fn select(s: Seq<SensorView>, p: Platform) -> Seq<SensorView>
    decreases s.len(),
{
    if s.len() == 0 {
        s
    } else if listed(p, s.last().platforms) {
        select(s.drop_last(), p).push(s.last())
    } else {
        select(s.drop_last(), p)
    }
}

/// Whether the keys of a list are pairwise different, checked one sensor
/// against those before it.
pub open spec fn distinct_keys(s: Seq<SensorView>) -> bool
    decreases s.len(),
{
    s.len() == 0 || (key_absent(s.last().key, s.drop_last()) && distinct_keys(s.drop_last()))
}

/// Selecting from a concatenation selects from each part.
pub proof fn lemma_select_add(a: Seq<SensorView>, b: Seq<SensorView>, p: Platform)
    ensures
        select(a + b, p) == select(a, p) + select(b, p),
    decreases b.len(),
{
    if b.len() == 0 {
        assert(a + b =~= a);
        assert(select(a, p) + select(b, p) =~= select(a, p));
    } else {
        lemma_select_add(a, b.drop_last(), p);
        assert((a + b).drop_last() =~= a + b.drop_last());
        assert((a + b).last() == b.last());
        if listed(p, b.last().platforms) {
            assert(select(a, p) + select(b, p) =~= (select(a, p) + select(b.drop_last(), p)).push(b.last()));
        }
    }
}

/// `listed` is membership.
pub proof fn lemma_listed(p: Platform, ps: Seq<Platform>)
    ensures
        listed(p, ps) == ps.contains(p),
    decreases ps.len(),
{
    if ps.len() > 0 {
        lemma_listed(p, ps.drop_last());
        if ps.contains(p) && ps.last() != p {
            let i = choose|i: int| 0 <= i < ps.len() && ps[i] == p;
            assert(ps.drop_last()[i] == p);
        }
        if ps.drop_last().contains(p) {
            let i = choose|i: int| 0 <= i < ps.drop_last().len() && ps.drop_last()[i] == p;
            assert(ps[i] == p);
        }
        if ps.last() == p {
            assert(ps[ps.len() - 1] == p);
        }
    }
}

/// `select` is the filter by platform.
pub proof fn lemma_select_filter(s: Seq<SensorView>, p: Platform)
    ensures
        select(s, p) == s.filter(on_platform(p)),
    decreases s.len(),
{
    if s.len() == 0 {
        reveal(Seq::filter);
    } else {
        lemma_select_filter(s.drop_last(), p);
        lemma_listed(p, s.last().platforms);
        assert(s.drop_last().push(s.last()) =~= s);
        s.drop_last().lemma_filter_push(s.last(), on_platform(p));
    }
}

/// Every sensor of a list passes a check that its key differs from `k`.
proof fn lemma_key_absent(k: Seq<char>, t: Seq<SensorView>, i: int)
    requires
        key_absent(k, t),
        0 <= i < t.len(),
    ensures
        keys_differ(t[i].key, k),
    decreases t.len(),
{
    if i < t.len() - 1 {
        lemma_key_absent(k, t.drop_last(), i);
        assert(t.drop_last()[i] == t[i]);
    }
}

/// Keys checked one against those before them are pairwise different.
pub proof fn lemma_distinct_keys(s: Seq<SensorView>)
    requires
        distinct_keys(s),
    ensures
        keys_unique_on(s),
    decreases s.len(),
{
    if s.len() > 0 {
        lemma_distinct_keys(s.drop_last());
        assert forall|i: int, j: int| 0 <= i < j < s.len() implies #[trigger] s[i].key != #[trigger] s[j].key by {
            if j < s.len() - 1 {
                assert(s.drop_last()[i] == s[i] && s.drop_last()[j] == s[j]);
            } else {
                lemma_key_absent(s.last().key, s.drop_last(), i);
                assert(s.drop_last()[i] == s[i]);
                if s[i].key == s[j].key {
                    assert(s[i].key[0] == s[j].key[0]);
                }
            }
        }
    }
}

/// The sensors of Intel-based machines have pairwise different keys.
proof fn lemma_intel_list_distinct()
    ensures
        distinct_keys(universal_sensors() + intel_sensors() + power_sensors()),
{
        reveal_strlit("PCPC");
        reveal_strlit("PCPT");
        reveal_strlit("PDTR");
        reveal_strlit("PG0R");
        reveal_strlit("PSTR");
        reveal_strlit("TC0D");
        reveal_strlit("TC0F");
        reveal_strlit("TC0P");
        reveal_strlit("TCGC");
        reveal_strlit("TG0P");
        reveal_strlit("TGDD");
        reveal_strlit("Te05");
        reveal_strlit("Te0L");
        reveal_strlit("Te0S");
        reveal_strlit("Tf04");
        reveal_strlit("Tf09");
        reveal_strlit("Tf14");
        reveal_strlit("Tf18");
        reveal_strlit("Tg05");
        reveal_strlit("Tg0D");
        reveal_strlit("Tg0G");
        reveal_strlit("Tg0f");
        reveal_strlit("Tg0j");
        reveal_strlit("Tg1U");
        reveal_strlit("Th1H");
        reveal_strlit("Th2H");
        reveal_strlit("Tp01");
        reveal_strlit("Tp05");
        reveal_strlit("Tp09");
        reveal_strlit("Tp0D");
        reveal_strlit("Tp0T");
        reveal_strlit("Tp0X");
        reveal_strlit("Tp0b");
        reveal_strlit("Tp0f");
        reveal_strlit("Tp0j");
        reveal_strlit("Tp1h");
        reveal_strlit("Tp1l");
        reveal_strlit("Tp1p");
        reveal_strlit("Tp1t");
    reveal_with_fuel(distinct_keys, 26);
    reveal_with_fuel(key_absent, 26);
}

/// The sensors of Intel-based machines, selected from the catalog, have pairwise different keys.
#[verifier::rlimit(100)]
proof fn lemma_intel_distinct(p: Platform)
    requires
        p == Platform::Intel,
    ensures
        distinct_keys(select(sensor_catalog(), p)),
{
    assert(select(universal_sensors(), p) == universal_sensors()) by {
        reveal_with_fuel(select, 15);
        reveal_with_fuel(listed, 18);
    }
    assert(select(intel_sensors(), p) == intel_sensors()) by {
        reveal_with_fuel(select, 15);
        reveal_with_fuel(listed, 18);
    }
    assert(select(m1_sensors(), p) == Seq::<SensorView>::empty()) by {
        reveal_with_fuel(select, 15);
        reveal_with_fuel(listed, 18);
    }
    assert(select(m2_sensors(), p) == Seq::<SensorView>::empty()) by {
        reveal_with_fuel(select, 15);
        reveal_with_fuel(listed, 18);
    }
    assert(select(m3_sensors(), p) == Seq::<SensorView>::empty()) by {
        reveal_with_fuel(select, 15);
        reveal_with_fuel(listed, 18);
    }
    assert(select(m4_sensors(), p) == Seq::<SensorView>::empty()) by {
        reveal_with_fuel(select, 15);
        reveal_with_fuel(listed, 18);
    }
    assert(select(power_sensors(), p) == power_sensors()) by {
        reveal_with_fuel(select, 15);
        reveal_with_fuel(listed, 18);
    }
    lemma_select_add(universal_sensors(), intel_sensors(), p);
    lemma_select_add(universal_sensors() + intel_sensors(), m1_sensors(), p);
    lemma_select_add(universal_sensors() + intel_sensors() + m1_sensors(), m2_sensors(), p);
    lemma_select_add(universal_sensors() + intel_sensors() + m1_sensors() + m2_sensors(), m3_sensors(), p);
    lemma_select_add(universal_sensors() + intel_sensors() + m1_sensors() + m2_sensors() + m3_sensors(), m4_sensors(), p);
    lemma_select_add(universal_sensors() + intel_sensors() + m1_sensors() + m2_sensors() + m3_sensors() + m4_sensors(), power_sensors(), p);
    lemma_intel_list_distinct();
    assert(select(sensor_catalog(), p) == universal_sensors() + intel_sensors() + power_sensors());
}

/// The sensors of the M1 generation have pairwise different keys.
proof fn lemma_m1_list_distinct()
    ensures
        distinct_keys(universal_sensors() + m1_sensors() + power_sensors()),
{
        reveal_strlit("PCPC");
        reveal_strlit("PCPT");
        reveal_strlit("PDTR");
        reveal_strlit("PG0R");
        reveal_strlit("PSTR");
        reveal_strlit("TC0D");
        reveal_strlit("TC0F");
        reveal_strlit("TC0P");
        reveal_strlit("TCGC");
        reveal_strlit("TG0P");
        reveal_strlit("TGDD");
        reveal_strlit("Te05");
        reveal_strlit("Te0L");
        reveal_strlit("Te0S");
        reveal_strlit("Tf04");
        reveal_strlit("Tf09");
        reveal_strlit("Tf14");
        reveal_strlit("Tf18");
        reveal_strlit("Tg05");
        reveal_strlit("Tg0D");
        reveal_strlit("Tg0G");
        reveal_strlit("Tg0f");
        reveal_strlit("Tg0j");
        reveal_strlit("Tg1U");
        reveal_strlit("Th1H");
        reveal_strlit("Th2H");
        reveal_strlit("Tp01");
        reveal_strlit("Tp05");
        reveal_strlit("Tp09");
        reveal_strlit("Tp0D");
        reveal_strlit("Tp0T");
        reveal_strlit("Tp0X");
        reveal_strlit("Tp0b");
        reveal_strlit("Tp0f");
        reveal_strlit("Tp0j");
        reveal_strlit("Tp1h");
        reveal_strlit("Tp1l");
        reveal_strlit("Tp1p");
        reveal_strlit("Tp1t");
    reveal_with_fuel(distinct_keys, 26);
    reveal_with_fuel(key_absent, 26);
}

/// The sensors of the M1 generation, selected from the catalog, have pairwise different keys.
#[verifier::rlimit(100)]
proof fn lemma_m1_distinct(p: Platform)
    requires
        p == Platform::M1 || p == Platform::M1Pro || p == Platform::M1Max || p == Platform::M1Ultra,
    ensures
        distinct_keys(select(sensor_catalog(), p)),
{
    assert(select(universal_sensors(), p) == universal_sensors()) by {
        reveal_with_fuel(select, 15);
        reveal_with_fuel(listed, 18);
    }
    assert(select(intel_sensors(), p) == Seq::<SensorView>::empty()) by {
        reveal_with_fuel(select, 15);
        reveal_with_fuel(listed, 18);
    }
    assert(select(m1_sensors(), p) == m1_sensors()) by {
        reveal_with_fuel(select, 15);
        reveal_with_fuel(listed, 18);
    }
    assert(select(m2_sensors(), p) == Seq::<SensorView>::empty()) by {
        reveal_with_fuel(select, 15);
        reveal_with_fuel(listed, 18);
    }
    assert(select(m3_sensors(), p) == Seq::<SensorView>::empty()) by {
        reveal_with_fuel(select, 15);
        reveal_with_fuel(listed, 18);
    }
    assert(select(m4_sensors(), p) == Seq::<SensorView>::empty()) by {
        reveal_with_fuel(select, 15);
        reveal_with_fuel(listed, 18);
    }
    assert(select(power_sensors(), p) == power_sensors()) by {
        reveal_with_fuel(select, 15);
        reveal_with_fuel(listed, 18);
    }
    lemma_select_add(universal_sensors(), intel_sensors(), p);
    lemma_select_add(universal_sensors() + intel_sensors(), m1_sensors(), p);
    lemma_select_add(universal_sensors() + intel_sensors() + m1_sensors(), m2_sensors(), p);
    lemma_select_add(universal_sensors() + intel_sensors() + m1_sensors() + m2_sensors(), m3_sensors(), p);
    lemma_select_add(universal_sensors() + intel_sensors() + m1_sensors() + m2_sensors() + m3_sensors(), m4_sensors(), p);
    lemma_select_add(universal_sensors() + intel_sensors() + m1_sensors() + m2_sensors() + m3_sensors() + m4_sensors(), power_sensors(), p);
    lemma_m1_list_distinct();
    assert(select(sensor_catalog(), p) == universal_sensors() + m1_sensors() + power_sensors());
}

/// The sensors of the M2 generation have pairwise different keys.
proof fn lemma_m2_list_distinct()
    ensures
        distinct_keys(universal_sensors() + m2_sensors() + power_sensors()),
{
        reveal_strlit("PCPC");
        reveal_strlit("PCPT");
        reveal_strlit("PDTR");
        reveal_strlit("PG0R");
        reveal_strlit("PSTR");
        reveal_strlit("TC0D");
        reveal_strlit("TC0F");
        reveal_strlit("TC0P");
        reveal_strlit("TCGC");
        reveal_strlit("TG0P");
        reveal_strlit("TGDD");
        reveal_strlit("Te05");
        reveal_strlit("Te0L");
        reveal_strlit("Te0S");
        reveal_strlit("Tf04");
        reveal_strlit("Tf09");
        reveal_strlit("Tf14");
        reveal_strlit("Tf18");
        reveal_strlit("Tg05");
        reveal_strlit("Tg0D");
        reveal_strlit("Tg0G");
        reveal_strlit("Tg0f");
        reveal_strlit("Tg0j");
        reveal_strlit("Tg1U");
        reveal_strlit("Th1H");
        reveal_strlit("Th2H");
        reveal_strlit("Tp01");
        reveal_strlit("Tp05");
        reveal_strlit("Tp09");
        reveal_strlit("Tp0D");
        reveal_strlit("Tp0T");
        reveal_strlit("Tp0X");
        reveal_strlit("Tp0b");
        reveal_strlit("Tp0f");
        reveal_strlit("Tp0j");
        reveal_strlit("Tp1h");
        reveal_strlit("Tp1l");
        reveal_strlit("Tp1p");
        reveal_strlit("Tp1t");
    reveal_with_fuel(distinct_keys, 26);
    reveal_with_fuel(key_absent, 26);
}

/// The sensors of the M2 generation, selected from the catalog, have pairwise different keys.
#[verifier::rlimit(100)]
proof fn lemma_m2_distinct(p: Platform)
    requires
        p == Platform::M2 || p == Platform::M2Pro || p == Platform::M2Max || p == Platform::M2Ultra,
    ensures
        distinct_keys(select(sensor_catalog(), p)),
{
    assert(select(universal_sensors(), p) == universal_sensors()) by {
        reveal_with_fuel(select, 15);
        reveal_with_fuel(listed, 18);
    }
    assert(select(intel_sensors(), p) == Seq::<SensorView>::empty()) by {
        reveal_with_fuel(select, 15);
        reveal_with_fuel(listed, 18);
    }
    assert(select(m1_sensors(), p) == Seq::<SensorView>::empty()) by {
        reveal_with_fuel(select, 15);
        reveal_with_fuel(listed, 18);
    }
    assert(select(m2_sensors(), p) == m2_sensors()) by {
        reveal_with_fuel(select, 15);
        reveal_with_fuel(listed, 18);
    }
    assert(select(m3_sensors(), p) == Seq::<SensorView>::empty()) by {
        reveal_with_fuel(select, 15);
        reveal_with_fuel(listed, 18);
    }
    assert(select(m4_sensors(), p) == Seq::<SensorView>::empty()) by {
        reveal_with_fuel(select, 15);
        reveal_with_fuel(listed, 18);
    }
    assert(select(power_sensors(), p) == power_sensors()) by {
        reveal_with_fuel(select, 15);
        reveal_with_fuel(listed, 18);
    }
    lemma_select_add(universal_sensors(), intel_sensors(), p);
    lemma_select_add(universal_sensors() + intel_sensors(), m1_sensors(), p);
    lemma_select_add(universal_sensors() + intel_sensors() + m1_sensors(), m2_sensors(), p);
    lemma_select_add(universal_sensors() + intel_sensors() + m1_sensors() + m2_sensors(), m3_sensors(), p);
    lemma_select_add(universal_sensors() + intel_sensors() + m1_sensors() + m2_sensors() + m3_sensors(), m4_sensors(), p);
    lemma_select_add(universal_sensors() + intel_sensors() + m1_sensors() + m2_sensors() + m3_sensors() + m4_sensors(), power_sensors(), p);
    lemma_m2_list_distinct();
    assert(select(sensor_catalog(), p) == universal_sensors() + m2_sensors() + power_sensors());
}

/// The sensors of the M3 generation have pairwise different keys.
proof fn lemma_m3_list_distinct()
    ensures
        distinct_keys(universal_sensors() + m3_sensors() + power_sensors()),
{
        reveal_strlit("PCPC");
        reveal_strlit("PCPT");
        reveal_strlit("PDTR");
        reveal_strlit("PG0R");
        reveal_strlit("PSTR");
        reveal_strlit("TC0D");
        reveal_strlit("TC0F");
        reveal_strlit("TC0P");
        reveal_strlit("TCGC");
        reveal_strlit("TG0P");
        reveal_strlit("TGDD");
        reveal_strlit("Te05");
        reveal_strlit("Te0L");
        reveal_strlit("Te0S");
        reveal_strlit("Tf04");
        reveal_strlit("Tf09");
        reveal_strlit("Tf14");
        reveal_strlit("Tf18");
        reveal_strlit("Tg05");
        reveal_strlit("Tg0D");
        reveal_strlit("Tg0G");
        reveal_strlit("Tg0f");
        reveal_strlit("Tg0j");
        reveal_strlit("Tg1U");
        reveal_strlit("Th1H");
        reveal_strlit("Th2H");
        reveal_strlit("Tp01");
        reveal_strlit("Tp05");
        reveal_strlit("Tp09");
        reveal_strlit("Tp0D");
        reveal_strlit("Tp0T");
        reveal_strlit("Tp0X");
        reveal_strlit("Tp0b");
        reveal_strlit("Tp0f");
        reveal_strlit("Tp0j");
        reveal_strlit("Tp1h");
        reveal_strlit("Tp1l");
        reveal_strlit("Tp1p");
        reveal_strlit("Tp1t");
    reveal_with_fuel(distinct_keys, 26);
    reveal_with_fuel(key_absent, 26);
}

/// The sensors of the M3 generation, selected from the catalog, have pairwise different keys.
#[verifier::rlimit(100)]
proof fn lemma_m3_distinct(p: Platform)
    requires
        p == Platform::M3 || p == Platform::M3Pro || p == Platform::M3Max || p == Platform::M3Ultra,
    ensures
        distinct_keys(select(sensor_catalog(), p)),
{
    assert(select(universal_sensors(), p) == universal_sensors()) by {
        reveal_with_fuel(select, 15);
        reveal_with_fuel(listed, 18);
    }
    assert(select(intel_sensors(), p) == Seq::<SensorView>::empty()) by {
        reveal_with_fuel(select, 15);
        reveal_with_fuel(listed, 18);
    }
    assert(select(m1_sensors(), p) == Seq::<SensorView>::empty()) by {
        reveal_with_fuel(select, 15);
        reveal_with_fuel(listed, 18);
    }
    assert(select(m2_sensors(), p) == Seq::<SensorView>::empty()) by {
        reveal_with_fuel(select, 15);
        reveal_with_fuel(listed, 18);
    }
    assert(select(m3_sensors(), p) == m3_sensors()) by {
        reveal_with_fuel(select, 15);
        reveal_with_fuel(listed, 18);
    }
    assert(select(m4_sensors(), p) == Seq::<SensorView>::empty()) by {
        reveal_with_fuel(select, 15);
        reveal_with_fuel(listed, 18);
    }
    assert(select(power_sensors(), p) == power_sensors()) by {
        reveal_with_fuel(select, 15);
        reveal_with_fuel(listed, 18);
    }
    lemma_select_add(universal_sensors(), intel_sensors(), p);
    lemma_select_add(universal_sensors() + intel_sensors(), m1_sensors(), p);
    lemma_select_add(universal_sensors() + intel_sensors() + m1_sensors(), m2_sensors(), p);
    lemma_select_add(universal_sensors() + intel_sensors() + m1_sensors() + m2_sensors(), m3_sensors(), p);
    lemma_select_add(universal_sensors() + intel_sensors() + m1_sensors() + m2_sensors() + m3_sensors(), m4_sensors(), p);
    lemma_select_add(universal_sensors() + intel_sensors() + m1_sensors() + m2_sensors() + m3_sensors() + m4_sensors(), power_sensors(), p);
    lemma_m3_list_distinct();
    assert(select(sensor_catalog(), p) == universal_sensors() + m3_sensors() + power_sensors());
}

/// The sensors of the M4 have pairwise different keys.
proof fn lemma_m4_base_list_distinct()
    ensures
        distinct_keys(universal_sensors() + m4_sensors().take(5) + power_sensors()),
{
        reveal_strlit("PCPC");
        reveal_strlit("PCPT");
        reveal_strlit("PDTR");
        reveal_strlit("PG0R");
        reveal_strlit("PSTR");
        reveal_strlit("TC0D");
        reveal_strlit("TC0F");
        reveal_strlit("TC0P");
        reveal_strlit("TCGC");
        reveal_strlit("TG0P");
        reveal_strlit("TGDD");
        reveal_strlit("Te05");
        reveal_strlit("Te0L");
        reveal_strlit("Te0S");
        reveal_strlit("Tf04");
        reveal_strlit("Tf09");
        reveal_strlit("Tf14");
        reveal_strlit("Tf18");
        reveal_strlit("Tg05");
        reveal_strlit("Tg0D");
        reveal_strlit("Tg0G");
        reveal_strlit("Tg0f");
        reveal_strlit("Tg0j");
        reveal_strlit("Tg1U");
        reveal_strlit("Th1H");
        reveal_strlit("Th2H");
        reveal_strlit("Tp01");
        reveal_strlit("Tp05");
        reveal_strlit("Tp09");
        reveal_strlit("Tp0D");
        reveal_strlit("Tp0T");
        reveal_strlit("Tp0X");
        reveal_strlit("Tp0b");
        reveal_strlit("Tp0f");
        reveal_strlit("Tp0j");
        reveal_strlit("Tp1h");
        reveal_strlit("Tp1l");
        reveal_strlit("Tp1p");
        reveal_strlit("Tp1t");
    reveal_with_fuel(distinct_keys, 26);
    reveal_with_fuel(key_absent, 26);
}

/// The sensors of the M4, selected from the catalog, have pairwise different keys.
#[verifier::rlimit(100)]
proof fn lemma_m4_base_distinct(p: Platform)
    requires
        p == Platform::M4,
    ensures
        distinct_keys(select(sensor_catalog(), p)),
{
    assert(select(universal_sensors(), p) == universal_sensors()) by {
        reveal_with_fuel(select, 15);
        reveal_with_fuel(listed, 18);
    }
    assert(select(intel_sensors(), p) == Seq::<SensorView>::empty()) by {
        reveal_with_fuel(select, 15);
        reveal_with_fuel(listed, 18);
    }
    assert(select(m1_sensors(), p) == Seq::<SensorView>::empty()) by {
        reveal_with_fuel(select, 15);
        reveal_with_fuel(listed, 18);
    }
    assert(select(m2_sensors(), p) == Seq::<SensorView>::empty()) by {
        reveal_with_fuel(select, 15);
        reveal_with_fuel(listed, 18);
    }
    assert(select(m3_sensors(), p) == Seq::<SensorView>::empty()) by {
        reveal_with_fuel(select, 15);
        reveal_with_fuel(listed, 18);
    }
    assert(select(m4_sensors(), p) == m4_sensors().take(5)) by {
        reveal_with_fuel(select, 15);
        reveal_with_fuel(listed, 18);
    }
    assert(select(power_sensors(), p) == power_sensors()) by {
        reveal_with_fuel(select, 15);
        reveal_with_fuel(listed, 18);
    }
    lemma_select_add(universal_sensors(), intel_sensors(), p);
    lemma_select_add(universal_sensors() + intel_sensors(), m1_sensors(), p);
    lemma_select_add(universal_sensors() + intel_sensors() + m1_sensors(), m2_sensors(), p);
    lemma_select_add(universal_sensors() + intel_sensors() + m1_sensors() + m2_sensors(), m3_sensors(), p);
    lemma_select_add(universal_sensors() + intel_sensors() + m1_sensors() + m2_sensors() + m3_sensors(), m4_sensors(), p);
    lemma_select_add(universal_sensors() + intel_sensors() + m1_sensors() + m2_sensors() + m3_sensors() + m4_sensors(), power_sensors(), p);
    lemma_m4_base_list_distinct();
    assert(select(sensor_catalog(), p) == universal_sensors() + m4_sensors().take(5) + power_sensors());
}

/// The sensors of the larger M4 variants have pairwise different keys.
proof fn lemma_m4_large_list_distinct()
    ensures
        distinct_keys(universal_sensors() + m4_sensors().take(4).push(m4_sensors()[5]) + power_sensors()),
{
        reveal_strlit("PCPC");
        reveal_strlit("PCPT");
        reveal_strlit("PDTR");
        reveal_strlit("PG0R");
        reveal_strlit("PSTR");
        reveal_strlit("TC0D");
        reveal_strlit("TC0F");
        reveal_strlit("TC0P");
        reveal_strlit("TCGC");
        reveal_strlit("TG0P");
        reveal_strlit("TGDD");
        reveal_strlit("Te05");
        reveal_strlit("Te0L");
        reveal_strlit("Te0S");
        reveal_strlit("Tf04");
        reveal_strlit("Tf09");
        reveal_strlit("Tf14");
        reveal_strlit("Tf18");
        reveal_strlit("Tg05");
        reveal_strlit("Tg0D");
        reveal_strlit("Tg0G");
        reveal_strlit("Tg0f");
        reveal_strlit("Tg0j");
        reveal_strlit("Tg1U");
        reveal_strlit("Th1H");
        reveal_strlit("Th2H");
        reveal_strlit("Tp01");
        reveal_strlit("Tp05");
        reveal_strlit("Tp09");
        reveal_strlit("Tp0D");
        reveal_strlit("Tp0T");
        reveal_strlit("Tp0X");
        reveal_strlit("Tp0b");
        reveal_strlit("Tp0f");
        reveal_strlit("Tp0j");
        reveal_strlit("Tp1h");
        reveal_strlit("Tp1l");
        reveal_strlit("Tp1p");
        reveal_strlit("Tp1t");
    reveal_with_fuel(distinct_keys, 26);
    reveal_with_fuel(key_absent, 26);
}

/// The sensors of the larger M4 variants, selected from the catalog, have pairwise different keys.
#[verifier::rlimit(100)]
proof fn lemma_m4_large_distinct(p: Platform)
    requires
        p == Platform::M4Pro || p == Platform::M4Max || p == Platform::M4Ultra,
    ensures
        distinct_keys(select(sensor_catalog(), p)),
{
    assert(select(universal_sensors(), p) == universal_sensors()) by {
        reveal_with_fuel(select, 15);
        reveal_with_fuel(listed, 18);
    }
    assert(select(intel_sensors(), p) == Seq::<SensorView>::empty()) by {
        reveal_with_fuel(select, 15);
        reveal_with_fuel(listed, 18);
    }
    assert(select(m1_sensors(), p) == Seq::<SensorView>::empty()) by {
        reveal_with_fuel(select, 15);
        reveal_with_fuel(listed, 18);
    }
    assert(select(m2_sensors(), p) == Seq::<SensorView>::empty()) by {
        reveal_with_fuel(select, 15);
        reveal_with_fuel(listed, 18);
    }
    assert(select(m3_sensors(), p) == Seq::<SensorView>::empty()) by {
        reveal_with_fuel(select, 15);
        reveal_with_fuel(listed, 18);
    }
    assert(select(m4_sensors(), p) == m4_sensors().take(4).push(m4_sensors()[5])) by {
        reveal_with_fuel(select, 15);
        reveal_with_fuel(listed, 18);
    }
    assert(select(power_sensors(), p) == power_sensors()) by {
        reveal_with_fuel(select, 15);
        reveal_with_fuel(listed, 18);
    }
    lemma_select_add(universal_sensors(), intel_sensors(), p);
    lemma_select_add(universal_sensors() + intel_sensors(), m1_sensors(), p);
    lemma_select_add(universal_sensors() + intel_sensors() + m1_sensors(), m2_sensors(), p);
    lemma_select_add(universal_sensors() + intel_sensors() + m1_sensors() + m2_sensors(), m3_sensors(), p);
    lemma_select_add(universal_sensors() + intel_sensors() + m1_sensors() + m2_sensors() + m3_sensors(), m4_sensors(), p);
    lemma_select_add(universal_sensors() + intel_sensors() + m1_sensors() + m2_sensors() + m3_sensors() + m4_sensors(), power_sensors(), p);
    lemma_m4_large_list_distinct();
    assert(select(sensor_catalog(), p) == universal_sensors() + m4_sensors().take(4).push(m4_sensors()[5]) + power_sensors());
}

/// No platform has two sensors with the same key: the sensors of a platform,
/// as the catalog lists them, name each key once.
pub proof fn lemma_platform_keys_unique(p: Platform)
    ensures
        keys_unique_on(sensor_catalog().filter(on_platform(p))),
{
    match p {
        Platform::Intel => lemma_intel_distinct(p),
        Platform::M1 | Platform::M1Pro | Platform::M1Max | Platform::M1Ultra => lemma_m1_distinct(p),
        Platform::M2 | Platform::M2Pro | Platform::M2Max | Platform::M2Ultra => lemma_m2_distinct(p),
        Platform::M3 | Platform::M3Pro | Platform::M3Max | Platform::M3Ultra => lemma_m3_distinct(p),
        Platform::M4 => lemma_m4_base_distinct(p),
        Platform::M4Pro | Platform::M4Max | Platform::M4Ultra => lemma_m4_large_distinct(p),
    }
    lemma_select_filter(sensor_catalog(), p);
    lemma_distinct_keys(select(sensor_catalog(), p));
}

} // verus!
