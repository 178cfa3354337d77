use macsmc::codec::{DataValue, Real};
use macsmc::parsers::{battery_status, default_reading, parse_reading, Reading, ValueKind};
use macsmc::types::BatteryStatus;
use macsmc::{Celsius, FanMode, MilliAmpere, MilliAmpereHours, Rpm, Volt, Watt};

#[test]
fn temperatures_need_floats() {
    let v = DataValue::Float(Real::Ratio { num: 3, den: 2 });
    assert_eq!(parse_reading(ValueKind::Temperature, &v), Some(Reading::Temperature(Celsius(Real::Ratio { num: 3, den: 2 }))));
    assert_eq!(parse_reading(ValueKind::Temperature, &DataValue::Uint(3)), None);
}

#[test]
fn speeds_from_small_integers() {
    assert_eq!(
        parse_reading(ValueKind::Speed, &DataValue::Uint(1200)),
        Some(Reading::Speed(Rpm(Real::Ratio { num: 1200, den: 1 })))
    );
    assert_eq!(parse_reading(ValueKind::Speed, &DataValue::Uint(70000)), None);
}

#[test]
fn fan_mode_from_any_number() {
    assert_eq!(parse_reading(ValueKind::Mode, &DataValue::Flag(true)), Some(Reading::Mode(FanMode::Forced)));
    assert_eq!(parse_reading(ValueKind::Mode, &DataValue::Int(0)), Some(Reading::Mode(FanMode::Auto)));
    assert_eq!(parse_reading(ValueKind::Mode, &DataValue::Uint(2)), Some(Reading::Mode(FanMode::Forced)));
    assert_eq!(
        parse_reading(ValueKind::Mode, &DataValue::Float(Real::Bits(0x8000_0000))),
        Some(Reading::Mode(FanMode::Auto))
    );
    assert_eq!(parse_reading(ValueKind::Mode, &DataValue::Str("x".to_string())), None);
}

#[test]
fn battery_status_bits() {
    assert_eq!(battery_status(0x43), BatteryStatus { charging: true, ac_present: true, health_ok: true });
    assert_eq!(battery_status(0x02), BatteryStatus { charging: false, ac_present: true, health_ok: false });
    assert_eq!(
        parse_reading(ValueKind::Battery, &DataValue::Uint(0x40)),
        Some(Reading::Battery(BatteryStatus { charging: false, ac_present: false, health_ok: true }))
    );
}

#[test]
fn counts_must_fit() {
    assert_eq!(parse_reading(ValueKind::Count8, &DataValue::Uint(255)), Some(Reading::Count8(255)));
    assert_eq!(parse_reading(ValueKind::Count8, &DataValue::Uint(256)), None);
    assert_eq!(parse_reading(ValueKind::Count32, &DataValue::Uint(1 << 32)), None);
    assert_eq!(
        parse_reading(ValueKind::Capacity, &DataValue::Uint(4000)),
        Some(Reading::Capacity(MilliAmpereHours(4000)))
    );
    assert_eq!(
        parse_reading(ValueKind::Current, &DataValue::Int(-1500)),
        Some(Reading::Current(MilliAmpere(-1500)))
    );
    assert_eq!(parse_reading(ValueKind::Current, &DataValue::Int(1 << 40)), None);
}

#[test]
fn voltage_from_millivolts() {
    assert_eq!(
        parse_reading(ValueKind::Voltage, &DataValue::Uint(12_500)),
        Some(Reading::Voltage(Volt(Real::Ratio { num: 12_500, den: 1000 })))
    );
    assert_eq!(
        parse_reading(ValueKind::Power, &DataValue::Float(Real::Bits(1))),
        Some(Reading::Power(Watt(Real::Bits(1))))
    );
    assert_eq!(parse_reading(ValueKind::Flag, &DataValue::Uint(1)), None);
}

#[test]
fn missing_sensors_read_zero() {
    assert_eq!(default_reading(ValueKind::Mode), Reading::Mode(FanMode::Auto));
    assert_eq!(default_reading(ValueKind::Count32), Reading::Count32(0));
    assert_eq!(default_reading(ValueKind::Power), Reading::Power(Watt(Real::Ratio { num: 0, den: 1 })));
}

#[test]
fn thresholds() {
    assert_eq!(Celsius::thresholds()[3], Celsius(Real::Ratio { num: 90, den: 1 }));
    assert_eq!(Watt::thresholds()[0], Watt(Real::Ratio { num: 35, den: 1 }));
    assert!(Real::Bits(0).is_zero());
    assert!(!Real::Ratio { num: 1, den: 3 }.is_zero());
}
