//! Conversion of decoded values into the unit each command expects.

use vstd::prelude::*;
use crate::codec::{DataValue, Real, Value};
use crate::types::{whole, zero, BatteryStatus, Celsius, FanMode, MilliAmpere, MilliAmpereHours, Rpm, Volt, Watt};

verus! {

/// The unit a command expects its value in.
#[derive(Clone, Copy, Debug, PartialEq, Eq, Structural)]
pub enum ValueKind {
    /// A temperature in degrees Celsius.
    Temperature,
    /// A fan speed.
    Speed,
    /// A fan mode.
    Mode,
    /// A boolean flag.
    Flag,
    /// A count below 256.
    Count8,
    /// A count below 2^32.
    Count32,
    /// A battery charge.
    Capacity,
    /// A current.
    Current,
    /// A voltage.
    Voltage,
    /// A power draw.
    Power,
    /// The battery status bits.
    Battery,
}

/// A value in the unit its command expects.
#[derive(Clone, Copy, Debug, PartialEq, Eq, Structural)]
pub enum Reading {
    Temperature(Celsius),
    Speed(Rpm),
    Mode(FanMode),
    Flag(bool),
    Count8(u8),
    Count32(u32),
    Capacity(MilliAmpereHours),
    Current(MilliAmpere),
    Voltage(Volt),
    Power(Watt),
    Battery(BatteryStatus),
}

/// The unit of a reading.
pub open spec fn kind_of(r: Reading) -> ValueKind {
    match r {
        Reading::Temperature(_) => ValueKind::Temperature,
        Reading::Speed(_) => ValueKind::Speed,
        Reading::Mode(_) => ValueKind::Mode,
        Reading::Flag(_) => ValueKind::Flag,
        Reading::Count8(_) => ValueKind::Count8,
        Reading::Count32(_) => ValueKind::Count32,
        Reading::Capacity(_) => ValueKind::Capacity,
        Reading::Current(_) => ValueKind::Current,
        Reading::Voltage(_) => ValueKind::Voltage,
        Reading::Power(_) => ValueKind::Power,
        Reading::Battery(_) => ValueKind::Battery,
    }
}

/// The status bits of the battery system: bit 0 charging, bit 1 external
/// power, bit 6 health.
pub open spec fn battery_status_of(v: int) -> BatteryStatus {
    BatteryStatus {
        charging: v % 2 == 1,
        ac_present: (v / 2) % 2 == 1,
        health_ok: (v / 64) % 2 == 1,
    }
}

/// What a decoded value gives in a unit, or `None` where it cannot be had in it.
pub open spec fn parse_value(kind: ValueKind, v: Value) -> Option<Reading> {
    match kind {
        ValueKind::Temperature => match v {
            Value::Float(r) => Some(Reading::Temperature(Celsius(r))),
            _ => None,
        },
        ValueKind::Speed => match v {
            Value::Float(r) => Some(Reading::Speed(Rpm(r))),
            Value::Uint(u) => if u <= u16::MAX {
                Some(Reading::Speed(Rpm(whole(u))))
            } else {
                None
            },
            _ => None,
        },
        ValueKind::Mode => match v {
            Value::Flag(b) => Some(Reading::Mode(if b { FanMode::Forced } else { FanMode::Auto })),
            Value::Int(i) => Some(Reading::Mode(if i != 0 { FanMode::Forced } else { FanMode::Auto })),
            Value::Uint(u) => Some(Reading::Mode(if u != 0 { FanMode::Forced } else { FanMode::Auto })),
            Value::Float(r) => Some(Reading::Mode(if !r.spec_is_zero() { FanMode::Forced } else { FanMode::Auto })),
            _ => None,
        },
        ValueKind::Flag => match v {
            Value::Flag(b) => Some(Reading::Flag(b)),
            _ => None,
        },
        ValueKind::Count8 => match v {
            Value::Uint(u) => if u <= u8::MAX {
                Some(Reading::Count8(u as u8))
            } else {
                None
            },
            _ => None,
        },
        ValueKind::Count32 => match v {
            Value::Uint(u) => if u <= u32::MAX {
                Some(Reading::Count32(u as u32))
            } else {
                None
            },
            _ => None,
        },
        ValueKind::Capacity => match v {
            Value::Uint(u) => if u <= u32::MAX {
                Some(Reading::Capacity(MilliAmpereHours(u as u32)))
            } else {
                None
            },
            _ => None,
        },
        ValueKind::Current => match v {
            Value::Int(i) => if i32::MIN <= i <= i32::MAX {
                Some(Reading::Current(MilliAmpere(i as i32)))
            } else {
                None
            },
            _ => None,
        },
        ValueKind::Voltage => match v {
            Value::Float(r) => Some(Reading::Voltage(Volt(r))),
            Value::Uint(u) => if u <= u16::MAX {
                Some(Reading::Voltage(Volt(Real::Ratio { num: u as i64, den: 1000 })))
            } else {
                None
            },
            _ => None,
        },
        ValueKind::Power => match v {
            Value::Float(r) => Some(Reading::Power(Watt(r))),
            _ => None,
        },
        ValueKind::Battery => match v {
            Value::Uint(u) => Some(Reading::Battery(battery_status_of(u))),
            _ => None,
        },
    }
}

/// The reading of a missing sensor: zero, false, or automatic mode.
pub open spec fn default_of(kind: ValueKind) -> Reading {
    match kind {
        ValueKind::Temperature => Reading::Temperature(Celsius(zero())),
        ValueKind::Speed => Reading::Speed(Rpm(zero())),
        ValueKind::Mode => Reading::Mode(FanMode::Auto),
        ValueKind::Flag => Reading::Flag(false),
        ValueKind::Count8 => Reading::Count8(0),
        ValueKind::Count32 => Reading::Count32(0),
        ValueKind::Capacity => Reading::Capacity(MilliAmpereHours(0)),
        ValueKind::Current => Reading::Current(MilliAmpere(0)),
        ValueKind::Voltage => Reading::Voltage(Volt(zero())),
        ValueKind::Power => Reading::Power(Watt(zero())),
        ValueKind::Battery => Reading::Battery(BatteryStatus { charging: false, ac_present: false, health_ok: false }),
    }
}

/// Reads the status bits of the battery system.
pub fn battery_status(v: u64) -> (r: BatteryStatus)
    ensures
        r == battery_status_of(v as int),
{
    BatteryStatus { charging: v % 2 == 1, ac_present: (v / 2) % 2 == 1, health_ok: (v / 64) % 2 == 1 }
}

/// Converts a decoded value into a unit, where it can be had in it.
pub fn parse_reading(kind: ValueKind, v: &DataValue) -> (r: Option<Reading>)
    ensures
        r == parse_value(kind, v@),
{
    match kind {
        ValueKind::Temperature => match v {
            DataValue::Float(r) => Some(Reading::Temperature(Celsius(*r))),
            _ => None,
        },
        ValueKind::Speed => match v {
            DataValue::Float(r) => Some(Reading::Speed(Rpm(*r))),
            DataValue::Uint(u) => if *u <= 65535 {
                Some(Reading::Speed(Rpm(Real::from_int(*u as i64))))
            } else {
                None
            },
            _ => None,
        },
        ValueKind::Mode => match v {
            DataValue::Flag(b) => Some(Reading::Mode(FanMode::from_flag(*b))),
            DataValue::Int(i) => Some(Reading::Mode(FanMode::from_flag(*i != 0))),
            DataValue::Uint(u) => Some(Reading::Mode(FanMode::from_flag(*u != 0))),
            DataValue::Float(r) => Some(Reading::Mode(FanMode::from_flag(!r.is_zero()))),
            _ => None,
        },
        ValueKind::Flag => match v {
            DataValue::Flag(b) => Some(Reading::Flag(*b)),
            _ => None,
        },
        ValueKind::Count8 => match v {
            DataValue::Uint(u) => if *u <= 255 {
                Some(Reading::Count8(*u as u8))
            } else {
                None
            },
            _ => None,
        },
        ValueKind::Count32 => match v {
            DataValue::Uint(u) => if *u <= 0xffff_ffff {
                Some(Reading::Count32(*u as u32))
            } else {
                None
            },
            _ => None,
        },
        ValueKind::Capacity => match v {
            DataValue::Uint(u) => if *u <= 0xffff_ffff {
                Some(Reading::Capacity(MilliAmpereHours(*u as u32)))
            } else {
                None
            },
            _ => None,
        },
        ValueKind::Current => match v {
            DataValue::Int(i) => if *i >= -2147483648 && *i <= 2147483647 {
                Some(Reading::Current(MilliAmpere(*i as i32)))
            } else {
                None
            },
            _ => None,
        },
        ValueKind::Voltage => match v {
            DataValue::Float(r) => Some(Reading::Voltage(Volt(*r))),
            DataValue::Uint(u) => if *u <= 65535 {
                Some(Reading::Voltage(Volt(Real::Ratio { num: *u as i64, den: 1000 })))
            } else {
                None
            },
            _ => None,
        },
        ValueKind::Power => match v {
            DataValue::Float(r) => Some(Reading::Power(Watt(*r))),
            _ => None,
        },
        ValueKind::Battery => match v {
            DataValue::Uint(u) => Some(Reading::Battery(battery_status(*u))),
            _ => None,
        },
    }
}

/// The reading of a missing sensor.
pub fn default_reading(kind: ValueKind) -> (r: Reading)
    ensures
        r == default_of(kind),
        kind_of(r) == kind,
{
    match kind {
        ValueKind::Temperature => Reading::Temperature(Celsius(Real::from_int(0))),
        ValueKind::Speed => Reading::Speed(Rpm(Real::from_int(0))),
        ValueKind::Mode => Reading::Mode(FanMode::Auto),
        ValueKind::Flag => Reading::Flag(false),
        ValueKind::Count8 => Reading::Count8(0),
        ValueKind::Count32 => Reading::Count32(0),
        ValueKind::Capacity => Reading::Capacity(MilliAmpereHours(0)),
        ValueKind::Current => Reading::Current(MilliAmpere(0)),
        ValueKind::Voltage => Reading::Voltage(Volt(Real::from_int(0))),
        ValueKind::Power => Reading::Power(Watt(Real::from_int(0))),
        ValueKind::Battery => Reading::Battery(BatteryStatus { charging: false, ac_present: false, health_ok: false }),
    }
}

/// A parsed reading is in the unit asked for.
pub proof fn lemma_parse_kind(kind: ValueKind, v: Value)
    ensures
        parse_value(kind, v) is Some ==> kind_of(parse_value(kind, v)->Some_0) == kind,
{
}

} // verus!
