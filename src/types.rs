//! Units and composite readings.

use vstd::prelude::*;
use crate::codec::Real;

verus! {

/// Temperature in degrees Celsius.
#[derive(Clone, Copy, Debug, PartialEq, Eq, Structural)]
pub struct Celsius(pub Real);

/// Fan speed in revolutions per minute.
#[derive(Clone, Copy, Debug, PartialEq, Eq, Structural)]
pub struct Rpm(pub Real);

/// Electric potential in volts.
#[derive(Clone, Copy, Debug, PartialEq, Eq, Structural)]
pub struct Volt(pub Real);

/// Power in watts.
#[derive(Clone, Copy, Debug, PartialEq, Eq, Structural)]
pub struct Watt(pub Real);

/// Charge in milliampere-hours.
#[derive(Clone, Copy, Debug, PartialEq, Eq, Structural)]
pub struct MilliAmpereHours(pub u32);

/// Current in milliamperes.
#[derive(Clone, Copy, Debug, PartialEq, Eq, Structural)]
pub struct MilliAmpere(pub i32);

/// How a fan is operated.
#[derive(Clone, Copy, Debug, PartialEq, Eq, Structural)]
pub enum FanMode {
    /// The speed is forced by a setting.
    Forced,
    /// The speed is controlled by the system.
    Auto,
}

/// The real number zero.
pub open spec fn zero() -> Real {
    Real::Ratio { num: 0, den: 1 }
}

/// The whole number `v` as a real.
pub open spec fn whole(v: int) -> Real {
    Real::Ratio { num: v as i64, den: 1 }
}

impl FanMode {
    /// `Forced` for a set flag, `Auto` otherwise.
    pub fn from_flag(v: bool) -> (r: FanMode)
        ensures
            r == (if v { FanMode::Forced } else { FanMode::Auto }),
    {
        if v {
            FanMode::Forced
        } else {
            FanMode::Auto
        }
    }
}

impl Celsius {
    /// Temperatures that split readings into four bands: warm, quite hot,
    /// hot and very hot.
    pub fn thresholds() -> (r: [Celsius; 4])
        ensures
            r@ == seq![Celsius(whole(50)), Celsius(whole(68)), Celsius(whole(80)), Celsius(whole(90))],
    {
        let r = [
            Celsius(Real::from_int(50)),
            Celsius(Real::from_int(68)),
            Celsius(Real::from_int(80)),
            Celsius(Real::from_int(90)),
        ];
        assert(r@ =~= seq![Celsius(whole(50)), Celsius(whole(68)), Celsius(whole(80)), Celsius(whole(90))]);
        r
    }
}

impl Watt {
    /// Power draws that split readings into four bands.
    pub fn thresholds() -> (r: [Watt; 4])
        ensures
            r@ == seq![Watt(whole(35)), Watt(whole(50)), Watt(whole(70)), Watt(whole(85))],
    {
        let r = [
            Watt(Real::from_int(35)),
            Watt(Real::from_int(50)),
            Watt(Real::from_int(70)),
            Watt(Real::from_int(85)),
        ];
        assert(r@ =~= seq![Watt(whole(35)), Watt(whole(50)), Watt(whole(70)), Watt(whole(85))]);
        r
    }
}

/// Status bits of the battery system.
#[derive(Clone, Copy, Debug, PartialEq, Eq, Structural)]
pub struct BatteryStatus {
    /// The battery is being charged.
    pub charging: bool,
    /// External power is connected.
    pub ac_present: bool,
    /// The battery health is fine.
    pub health_ok: bool,
}

/// Temperatures around the processor; a missing sensor reads zero.
#[derive(Clone, Copy, Debug, PartialEq, Eq, Structural)]
pub struct CpuTemperatures {
    /// Near the processor; usually the figure shown for it.
    pub proximity: Celsius,
    /// On the die.
    pub die: Celsius,
    /// Of the integrated graphics unit.
    pub graphics: Celsius,
    /// Of the system agent.
    pub system_agent: Celsius,
}

/// Temperatures around the graphics processor; a missing sensor reads zero.
#[derive(Clone, Copy, Debug, PartialEq, Eq, Structural)]
pub struct GpuTemperatures {
    /// Near the graphics processor.
    pub proximity: Celsius,
    /// On its die.
    pub die: Celsius,
}

/// Other temperatures of the machine; a missing sensor reads zero.
#[derive(Clone, Copy, Debug, PartialEq, Eq, Structural)]
pub struct OtherTemperatures {
    /// Memory bank.
    pub memory_bank_proximity: Celsius,
    /// Mainboard.
    pub mainboard_proximity: Celsius,
    /// Platform controller hub.
    pub platform_controller_hub_die: Celsius,
    /// Wireless module.
    pub airport: Celsius,
    /// Left air flow.
    pub airflow_left: Celsius,
    /// Right air flow.
    pub airflow_right: Celsius,
    /// Left thunderbolt ports.
    pub thunderbolt_left: Celsius,
    /// Right thunderbolt ports.
    pub thunderbolt_right: Celsius,
    /// Heat pipe or heat sink 1.
    pub heatpipe_1: Celsius,
    /// Heat pipe or heat sink 2.
    pub heatpipe_2: Celsius,
    /// Palm rest 1.
    pub palm_rest_1: Celsius,
    /// Palm rest 2.
    pub palm_rest_2: Celsius,
}

/// Speeds of one fan; a missing sensor reads zero.
#[derive(Clone, Copy, Debug, PartialEq, Eq, Structural)]
pub struct FanSpeed {
    /// Current speed.
    pub actual: Rpm,
    /// Lowest speed.
    pub min: Rpm,
    /// Highest speed.
    pub max: Rpm,
    /// Speed aimed at.
    pub target: Rpm,
    /// Lowest safe speed; zero where there is no reading.
    pub safe: Rpm,
    /// How the fan is operated.
    pub mode: FanMode,
}

/// The battery system as a whole.
#[derive(Clone, Copy, Debug, PartialEq, Eq, Structural)]
pub struct BatteryInfo {
    /// The machine runs on battery power.
    pub battery_powered: bool,
    /// The battery is being charged.
    pub charging: bool,
    /// External power is connected.
    pub ac_present: bool,
    /// The battery health is fine.
    pub health_ok: bool,
    /// Highest battery temperature.
    pub temperature_max: Celsius,
    /// First battery sensor.
    pub temperature_1: Celsius,
    /// Second battery sensor.
    pub temperature_2: Celsius,
}

/// One battery in detail.
#[derive(Clone, Copy, Debug, PartialEq, Eq, Structural)]
pub struct BatteryDetail {
    /// Charge cycles.
    pub cycles: u32,
    /// Charge held now.
    pub current_capacity: MilliAmpereHours,
    /// Charge held when full.
    pub full_capacity: MilliAmpereHours,
    /// Current through the battery.
    pub amperage: MilliAmpere,
    /// Voltage of the battery.
    pub voltage: Volt,
    /// Power delivered (positive) or taken in (negative).
    pub power: Watt,
}

/// Power draws of the processor; a missing sensor reads zero.
#[derive(Clone, Copy, Debug, PartialEq, Eq, Structural)]
pub struct CpuPower {
    /// Cores.
    pub core: Watt,
    /// Memory unit.
    pub dram: Watt,
    /// Graphics unit.
    pub gfx: Watt,
    /// Supply rail.
    pub rail: Watt,
    /// Whole processor.
    pub total: Watt,
}

/// Metadata of a key, as text.
#[derive(Clone, Debug)]
pub struct DbgKeyInfo {
    /// The key.
    pub key: String,
    /// Its type tag.
    pub data_type: String,
    /// Its payload size in bytes.
    pub data_size: usize,
}

/// A key and what reading it gave, undecoded into a unit.
#[derive(Debug)]
pub struct Dbg {
    /// The key.
    pub key: String,
    /// The value; `None` where the key is unknown.
    pub value: crate::error::Result<Option<crate::codec::DataValue>>,
}

} // verus!
