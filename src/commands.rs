//! The command registry: the keys of the controller and the unit each read
//! expects, with digit substitution into template keys.

use vstd::prelude::*;
use vstd::string::StringSliceAdditionalSpecFns;
use crate::error::Error;
use crate::keys::{be_key, key_bytes, key_from_bytes, key_to_bytes};
use crate::parsers::ValueKind;

verus! {

/// A key of the controller.
#[derive(Clone, Copy, Debug, PartialEq, Eq, Structural)]
pub struct CommandKey(pub u32);

/// A key with the byte at `pos` replaced by the ASCII digit `d`.
pub open spec fn with_digit(k: u32, pos: int, d: u8) -> u32 {
    be_key(key_bytes(k).update(pos, (0x30 + d) as u8)) as u32
}

impl CommandKey {
    /// The key with its second character replaced by the digit `value`;
    /// `None` where `value` is not a single digit.
    pub fn set1(self, value: u8) -> (r: Option<CommandKey>)
        ensures
            value <= 9 ==> r == Some(CommandKey(with_digit(self.0, 1, value))),
            value > 9 ==> r is None,
    {
        if value > 9 {
            return None;
        }
        let b = key_to_bytes(self.0);
        let k = key_from_bytes(b[0], 0x30 + value, b[2], b[3]);
        assert(seq![b@[0], (0x30 + value) as u8, b@[2], b@[3]] =~= key_bytes(self.0).update(1, (0x30 + value) as u8));
        Some(CommandKey(k))
    }

    /// The key with its third character replaced by the digit `value`;
    /// `None` where `value` is not a single digit.
    pub fn set2(self, value: u8) -> (r: Option<CommandKey>)
        ensures
            value <= 9 ==> r == Some(CommandKey(with_digit(self.0, 2, value))),
            value > 9 ==> r is None,
    {
        if value > 9 {
            return None;
        }
        let b = key_to_bytes(self.0);
        let k = key_from_bytes(b[0], b[1], 0x30 + value, b[3]);
        assert(seq![b@[0], b@[1], (0x30 + value) as u8, b@[3]] =~= key_bytes(self.0).update(2, (0x30 + value) as u8));
        Some(CommandKey(k))
    }
}

/// The key of the first four bytes of `key`.
pub fn smc_key(key: &[u8]) -> (r: CommandKey)
    requires
        key@.len() >= 4,
    ensures
        r.0 == be_key(key@.take(4)),
{
    let k = key_from_bytes(key[0], key[1], key[2], key[3]);
    assert(seq![key@[0], key@[1], key@[2], key@[3]] =~= key@.take(4));
    CommandKey(k)
}

/// The key that a text names, if the text is four bytes long.
pub open spec fn key_of_name(b: Seq<u8>) -> core::result::Result<CommandKey, Error> {
    if b.len() == 4 {
        Ok(CommandKey(be_key(b) as u32))
    } else {
        Err(Error::InvalidKeyFormat)
    }
}

/// Builds the key a caller names by its four characters.
pub fn key_from_name(name: &str) -> (r: core::result::Result<CommandKey, Error>)
    ensures
        r == key_of_name(name.spec_bytes()),
{
    let b = name.as_bytes();
    if b.len() != 4 {
        return Err(Error::InvalidKeyFormat);
    }
    let k = smc_key(b);
    assert(b@.take(4) =~= b@);
    Ok(k)
}

/// A read of one key, with the unit its value is expected in.
#[derive(Clone, Copy, Debug, PartialEq, Eq, Structural)]
pub struct ReadOp {
    /// The key to read.
    pub key: CommandKey,
    /// The unit expected.
    pub kind: ValueKind,
}

/// The read of `key` in unit `kind`.
pub open spec fn op(key: u32, kind: ValueKind) -> ReadOp {
    ReadOp { key: CommandKey(key), kind }
}

/// Key `#KEY`.
pub const NUMBER_OF_KEYS: u32 = 0x234b4559;

/// Key `FNum`.
pub const NUM_FANS: u32 = 0x464e756d;

/// Key `F0Md`.
pub const FAN_MODE: u32 = 0x46304d64;

/// Key `F0Ac`.
pub const FAN_SPEED_ACTUAL: u32 = 0x46304163;

/// Key `F0Mx`.
pub const FAN_SPEED_MAX: u32 = 0x46304d78;

/// Key `F0Mn`.
pub const FAN_SPEED_MIN: u32 = 0x46304d6e;

/// Key `F0Sf`.
pub const FAN_SPEED_SAFE: u32 = 0x46305366;

/// Key `F0Tg`.
pub const FAN_SPEED_TARGET: u32 = 0x46305467;

/// Key `BNum`.
pub const NUM_BATTERIES: u32 = 0x424e756d;

/// Key `BATP`.
pub const BATTERY_POWERED: u32 = 0x42415450;

/// Key `BSIn`.
pub const BATTERY_INFO: u32 = 0x4253496e;

/// Key `B0CT`.
pub const BATTERY_CYCLES: u32 = 0x42304354;

/// Key `B0RM`.
pub const BATTERY_CURRENT_CAPACITY: u32 = 0x4230524d;

/// Key `B0FC`.
pub const BATTERY_FULL_CAPACITY: u32 = 0x42304643;

/// Key `B0AP`.
pub const BATTERY_POWER: u32 = 0x42304150;

/// Key `B0AC`.
pub const BATTERY_AMPERAGE: u32 = 0x42304143;

/// Key `B0AV`.
pub const BATTERY_VOLTAGE: u32 = 0x42304156;

/// Key `TB0T`.
pub const TEMP_BATTERY_MAX: u32 = 0x54423054;

/// Key `TB1T`.
pub const TEMP_BATTERY_1: u32 = 0x54423154;

/// Key `TB2T`.
pub const TEMP_BATTERY_2: u32 = 0x54423254;

/// Key `TC0C`.
pub const TEMP_CPU_CORE: u32 = 0x54433043;

/// Key `TC0F`.
pub const TEMP_CPU_DIE: u32 = 0x54433046;

/// Key `TCSA`.
pub const TEMP_CPU_SYSTEM_AGENT: u32 = 0x54435341;

/// Key `TCGC`.
pub const TEMP_CPU_GFX: u32 = 0x54434743;

/// Key `TCAD`.
pub const TEMP_CPU_PACKAGE: u32 = 0x54434144;

/// Key `TC0D`.
pub const TEMP_CPU_DIODE: u32 = 0x54433044;

/// Key `TC0P`.
pub const TEMP_CPU_PROXIMITY: u32 = 0x54433050;

/// Key `TG0P`.
pub const TEMP_GPU_PROXIMITY: u32 = 0x54473050;

/// Key `TGDD`.
pub const TEMP_GPU_DIE: u32 = 0x54474444;

/// Key `TM0P`.
pub const TEMP_MEM_PROXIMITY: u32 = 0x544d3050;

/// Key `TPCD`.
pub const TEMP_PLATFORM_CONTROLLER_HUB_DIE: u32 = 0x54504344;

/// Key `Th1H`.
pub const TEMP_HEATPIPE_1: u32 = 0x54683148;

/// Key `Th2H`.
pub const TEMP_HEATPIPE_2: u32 = 0x54683248;

/// Key `Tm0P`.
pub const TEMP_MAINBOARD_PROXIMITY: u32 = 0x546d3050;

/// Key `Ts0P`.
pub const TEMP_PALM_REST_1: u32 = 0x54733050;

/// Key `Ts1P`.
pub const TEMP_PALM_REST_2: u32 = 0x54733150;

/// Key `TW0P`.
pub const TEMP_AIRPORT: u32 = 0x54573050;

/// Key `TaLC`.
pub const TEMP_AIRFLOW_LEFT: u32 = 0x54614c43;

/// Key `TaRC`.
pub const TEMP_AIRFLOW_RIGHT: u32 = 0x54615243;

/// Key `TTLD`.
pub const TEMP_THUNDERBOLT_LEFT: u32 = 0x54544c44;

/// Key `TTRD`.
pub const TEMP_THUNDERBOLT_RIGHT: u32 = 0x54545244;

/// Key `PCPC`.
pub const POWER_CPU_CORE: u32 = 0x50435043;

/// Key `PCPD`.
pub const POWER_CPU_DRAM: u32 = 0x50435044;

/// Key `PCPG`.
pub const POWER_CPU_GFX: u32 = 0x50435047;

/// Key `PC0R`.
pub const POWER_CPU_RAIL: u32 = 0x50433052;

/// Key `PCPT`.
pub const POWER_CPU_TOTAL: u32 = 0x50435054;

/// Key `PDTR`.
pub const POWER_DC_IN: u32 = 0x50445452;

/// Key `PG0R`.
pub const POWER_GPU_RAIL: u32 = 0x50473052;

/// Key `PSTR`.
pub const POWER_SYSTEM_TOTAL: u32 = 0x50535452;

/// The number of keys the controller knows.
pub fn number_of_keys_op() -> (r: ReadOp)
    ensures
        r == op(NUMBER_OF_KEYS, ValueKind::Count32),
{
    ReadOp { key: CommandKey(NUMBER_OF_KEYS), kind: ValueKind::Count32 }
}

/// The number of fans.
pub fn number_of_fans_op() -> (r: ReadOp)
    ensures
        r == op(NUM_FANS, ValueKind::Count8),
{
    ReadOp { key: CommandKey(NUM_FANS), kind: ValueKind::Count8 }
}

/// The number of batteries.
pub fn number_of_batteries_op() -> (r: ReadOp)
    ensures
        r == op(NUM_BATTERIES, ValueKind::Count8),
{
    ReadOp { key: CommandKey(NUM_BATTERIES), kind: ValueKind::Count8 }
}

/// The speeds and mode of fan `fan`: actual, minimum, maximum, target and
/// safe speed, then mode, each from its template key with the fan number
/// as second character.
pub open spec fn fan_speed_plan(fan: u8) -> Seq<ReadOp> {
    seq![
        op(with_digit(FAN_SPEED_ACTUAL, 1, fan), ValueKind::Speed),
        op(with_digit(FAN_SPEED_MIN, 1, fan), ValueKind::Speed),
        op(with_digit(FAN_SPEED_MAX, 1, fan), ValueKind::Speed),
        op(with_digit(FAN_SPEED_TARGET, 1, fan), ValueKind::Speed),
        op(with_digit(FAN_SPEED_SAFE, 1, fan), ValueKind::Speed),
        op(with_digit(FAN_MODE, 1, fan), ValueKind::Mode),
    ]
}

/// The reads for fan `fan`; `None` for a fan number above nine.
pub fn fan_speed_ops(fan: u8) -> (r: Option<Vec<ReadOp>>)
    ensures
        fan <= 9 ==> r is Some && r->Some_0@ == fan_speed_plan(fan),
        fan > 9 ==> r is None,
{
    if fan > 9 {
        return None;
    }
    let actual = CommandKey(FAN_SPEED_ACTUAL).set1(fan).unwrap();
    let min = CommandKey(FAN_SPEED_MIN).set1(fan).unwrap();
    let max = CommandKey(FAN_SPEED_MAX).set1(fan).unwrap();
    let target = CommandKey(FAN_SPEED_TARGET).set1(fan).unwrap();
    let safe = CommandKey(FAN_SPEED_SAFE).set1(fan).unwrap();
    let mode = CommandKey(FAN_MODE).set1(fan).unwrap();
    let r = vec![
        ReadOp { key: actual, kind: ValueKind::Speed },
        ReadOp { key: min, kind: ValueKind::Speed },
        ReadOp { key: max, kind: ValueKind::Speed },
        ReadOp { key: target, kind: ValueKind::Speed },
        ReadOp { key: safe, kind: ValueKind::Speed },
        ReadOp { key: mode, kind: ValueKind::Mode },
    ];
    assert(r@ =~= fan_speed_plan(fan));
    Some(r)
}

/// The details of battery `battery`: cycle count, current and full
/// capacity, current, voltage and power, each from its template key with the
/// battery number as second character.
pub open spec fn battery_detail_plan(battery: u8) -> Seq<ReadOp> {
    seq![
        op(with_digit(BATTERY_CYCLES, 1, battery), ValueKind::Count32),
        op(with_digit(BATTERY_CURRENT_CAPACITY, 1, battery), ValueKind::Capacity),
        op(with_digit(BATTERY_FULL_CAPACITY, 1, battery), ValueKind::Capacity),
        op(with_digit(BATTERY_AMPERAGE, 1, battery), ValueKind::Current),
        op(with_digit(BATTERY_VOLTAGE, 1, battery), ValueKind::Voltage),
        op(with_digit(BATTERY_POWER, 1, battery), ValueKind::Power),
    ]
}

/// The reads for battery `battery`; `None` for a battery number above nine.
pub fn battery_detail_ops(battery: u8) -> (r: Option<Vec<ReadOp>>)
    ensures
        battery <= 9 ==> r is Some && r->Some_0@ == battery_detail_plan(battery),
        battery > 9 ==> r is None,
{
    if battery > 9 {
        return None;
    }
    let cycles = CommandKey(BATTERY_CYCLES).set1(battery).unwrap();
    let current = CommandKey(BATTERY_CURRENT_CAPACITY).set1(battery).unwrap();
    let full = CommandKey(BATTERY_FULL_CAPACITY).set1(battery).unwrap();
    let amperage = CommandKey(BATTERY_AMPERAGE).set1(battery).unwrap();
    let voltage = CommandKey(BATTERY_VOLTAGE).set1(battery).unwrap();
    let power = CommandKey(BATTERY_POWER).set1(battery).unwrap();
    let r = vec![
        ReadOp { key: cycles, kind: ValueKind::Count32 },
        ReadOp { key: current, kind: ValueKind::Capacity },
        ReadOp { key: full, kind: ValueKind::Capacity },
        ReadOp { key: amperage, kind: ValueKind::Current },
        ReadOp { key: voltage, kind: ValueKind::Voltage },
        ReadOp { key: power, kind: ValueKind::Power },
    ];
    assert(r@ =~= battery_detail_plan(battery));
    Some(r)
}

/// The temperature of core `core`, counted from zero; its key carries the
/// core number plus one as third character. `None` where that is not a
/// single digit.
pub fn cpu_core_temperature_op(core: u8) -> (r: Option<ReadOp>)
    ensures
        core < 9 ==> r == Some(op(with_digit(TEMP_CPU_CORE, 2, (core + 1) as u8), ValueKind::Temperature)),
        core >= 9 ==> r is None,
{
    if core >= 9 {
        return None;
    }
    let key = CommandKey(TEMP_CPU_CORE).set2(core + 1).unwrap();
    Some(ReadOp { key, kind: ValueKind::Temperature })
}

/// Power on the graphics rail.
pub fn gpu_power_op() -> (r: ReadOp)
    ensures
        r == op(POWER_GPU_RAIL, ValueKind::Power),
{
    ReadOp { key: CommandKey(POWER_GPU_RAIL), kind: ValueKind::Power }
}

/// Power drawn from the external supply.
pub fn power_dc_in_op() -> (r: ReadOp)
    ensures
        r == op(POWER_DC_IN, ValueKind::Power),
{
    ReadOp { key: CommandKey(POWER_DC_IN), kind: ValueKind::Power }
}

/// Power drawn by the whole system.
pub fn power_system_total_op() -> (r: ReadOp)
    ensures
        r == op(POWER_SYSTEM_TOTAL, ValueKind::Power),
{
    ReadOp { key: CommandKey(POWER_SYSTEM_TOTAL), kind: ValueKind::Power }
}

/// Temperatures around the processor: proximity, die, graphics, system agent.
pub open spec fn cpu_temperature_plan() -> Seq<ReadOp> {
    seq![
        op(TEMP_CPU_PROXIMITY, ValueKind::Temperature),
        op(TEMP_CPU_DIE, ValueKind::Temperature),
        op(TEMP_CPU_GFX, ValueKind::Temperature),
        op(TEMP_CPU_SYSTEM_AGENT, ValueKind::Temperature),
    ]
}

/// Temperatures around the processor: proximity, die, graphics, system agent.
pub fn cpu_temperature_ops() -> (r: Vec<ReadOp>)
    ensures
        r@ == cpu_temperature_plan(),
{
    let r = vec![
        ReadOp { key: CommandKey(TEMP_CPU_PROXIMITY), kind: ValueKind::Temperature },
        ReadOp { key: CommandKey(TEMP_CPU_DIE), kind: ValueKind::Temperature },
        ReadOp { key: CommandKey(TEMP_CPU_GFX), kind: ValueKind::Temperature },
        ReadOp { key: CommandKey(TEMP_CPU_SYSTEM_AGENT), kind: ValueKind::Temperature },
    ];
    assert(r@ =~= cpu_temperature_plan());
    r
}

/// Temperatures around the graphics processor: proximity, die.
pub open spec fn gpu_temperature_plan() -> Seq<ReadOp> {
    seq![
        op(TEMP_GPU_PROXIMITY, ValueKind::Temperature),
        op(TEMP_GPU_DIE, ValueKind::Temperature),
    ]
}

/// Temperatures around the graphics processor: proximity, die.
pub fn gpu_temperature_ops() -> (r: Vec<ReadOp>)
    ensures
        r@ == gpu_temperature_plan(),
{
    let r = vec![
        ReadOp { key: CommandKey(TEMP_GPU_PROXIMITY), kind: ValueKind::Temperature },
        ReadOp { key: CommandKey(TEMP_GPU_DIE), kind: ValueKind::Temperature },
    ];
    assert(r@ =~= gpu_temperature_plan());
    r
}

/// The other temperatures, in the order of the fields of `OtherTemperatures`.
pub open spec fn other_temperatures_plan() -> Seq<ReadOp> {
    seq![
        op(TEMP_MEM_PROXIMITY, ValueKind::Temperature),
        op(TEMP_MAINBOARD_PROXIMITY, ValueKind::Temperature),
        op(TEMP_PLATFORM_CONTROLLER_HUB_DIE, ValueKind::Temperature),
        op(TEMP_AIRPORT, ValueKind::Temperature),
        op(TEMP_AIRFLOW_LEFT, ValueKind::Temperature),
        op(TEMP_AIRFLOW_RIGHT, ValueKind::Temperature),
        op(TEMP_THUNDERBOLT_LEFT, ValueKind::Temperature),
        op(TEMP_THUNDERBOLT_RIGHT, ValueKind::Temperature),
        op(TEMP_HEATPIPE_1, ValueKind::Temperature),
        op(TEMP_HEATPIPE_2, ValueKind::Temperature),
        op(TEMP_PALM_REST_1, ValueKind::Temperature),
        op(TEMP_PALM_REST_2, ValueKind::Temperature),
    ]
}

/// The other temperatures, in the order of the fields of `OtherTemperatures`.
pub fn other_temperatures_ops() -> (r: Vec<ReadOp>)
    ensures
        r@ == other_temperatures_plan(),
{
    let r = vec![
        ReadOp { key: CommandKey(TEMP_MEM_PROXIMITY), kind: ValueKind::Temperature },
        ReadOp { key: CommandKey(TEMP_MAINBOARD_PROXIMITY), kind: ValueKind::Temperature },
        ReadOp { key: CommandKey(TEMP_PLATFORM_CONTROLLER_HUB_DIE), kind: ValueKind::Temperature },
        ReadOp { key: CommandKey(TEMP_AIRPORT), kind: ValueKind::Temperature },
        ReadOp { key: CommandKey(TEMP_AIRFLOW_LEFT), kind: ValueKind::Temperature },
        ReadOp { key: CommandKey(TEMP_AIRFLOW_RIGHT), kind: ValueKind::Temperature },
        ReadOp { key: CommandKey(TEMP_THUNDERBOLT_LEFT), kind: ValueKind::Temperature },
        ReadOp { key: CommandKey(TEMP_THUNDERBOLT_RIGHT), kind: ValueKind::Temperature },
        ReadOp { key: CommandKey(TEMP_HEATPIPE_1), kind: ValueKind::Temperature },
        ReadOp { key: CommandKey(TEMP_HEATPIPE_2), kind: ValueKind::Temperature },
        ReadOp { key: CommandKey(TEMP_PALM_REST_1), kind: ValueKind::Temperature },
        ReadOp { key: CommandKey(TEMP_PALM_REST_2), kind: ValueKind::Temperature },
    ];
    assert(r@ =~= other_temperatures_plan());
    r
}

/// Power draws of the processor: core, memory, graphics, rail, total.
pub open spec fn cpu_power_plan() -> Seq<ReadOp> {
    seq![
        op(POWER_CPU_CORE, ValueKind::Power),
        op(POWER_CPU_DRAM, ValueKind::Power),
        op(POWER_CPU_GFX, ValueKind::Power),
        op(POWER_CPU_RAIL, ValueKind::Power),
        op(POWER_CPU_TOTAL, ValueKind::Power),
    ]
}

/// Power draws of the processor: core, memory, graphics, rail, total.
pub fn cpu_power_ops() -> (r: Vec<ReadOp>)
    ensures
        r@ == cpu_power_plan(),
{
    let r = vec![
        ReadOp { key: CommandKey(POWER_CPU_CORE), kind: ValueKind::Power },
        ReadOp { key: CommandKey(POWER_CPU_DRAM), kind: ValueKind::Power },
        ReadOp { key: CommandKey(POWER_CPU_GFX), kind: ValueKind::Power },
        ReadOp { key: CommandKey(POWER_CPU_RAIL), kind: ValueKind::Power },
        ReadOp { key: CommandKey(POWER_CPU_TOTAL), kind: ValueKind::Power },
    ];
    assert(r@ =~= cpu_power_plan());
    r
}

/// The battery system: status bits, battery power, three temperatures.
pub open spec fn battery_info_plan() -> Seq<ReadOp> {
    seq![
        op(BATTERY_INFO, ValueKind::Battery),
        op(BATTERY_POWERED, ValueKind::Flag),
        op(TEMP_BATTERY_MAX, ValueKind::Temperature),
        op(TEMP_BATTERY_1, ValueKind::Temperature),
        op(TEMP_BATTERY_2, ValueKind::Temperature),
    ]
}

/// The battery system: status bits, battery power, three temperatures.
pub fn battery_info_ops() -> (r: Vec<ReadOp>)
    ensures
        r@ == battery_info_plan(),
{
    let r = vec![
        ReadOp { key: CommandKey(BATTERY_INFO), kind: ValueKind::Battery },
        ReadOp { key: CommandKey(BATTERY_POWERED), kind: ValueKind::Flag },
        ReadOp { key: CommandKey(TEMP_BATTERY_MAX), kind: ValueKind::Temperature },
        ReadOp { key: CommandKey(TEMP_BATTERY_1), kind: ValueKind::Temperature },
        ReadOp { key: CommandKey(TEMP_BATTERY_2), kind: ValueKind::Temperature },
    ];
    assert(r@ =~= battery_info_plan());
    r
}
} // verus!
