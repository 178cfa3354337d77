use macsmc::commands::{
    battery_detail_ops, cpu_core_temperature_op, fan_speed_ops, key_from_name, smc_key, CommandKey, FAN_SPEED_ACTUAL,
    NUMBER_OF_KEYS, TEMP_CPU_CORE,
};
use macsmc::keys::{key_to_u32, m2_cpu_temperature_keys, power_keys, system_temperature_keys, u32_to_key, SmcKey};
use macsmc::keys::{m2_gpu_temperature_keys, KeyCategory, KeyDataType};
use macsmc::parsers::ValueKind;
use macsmc::Error;

#[test]
fn key_encoding_round_trips() {
    for s in ["TC0P", "#KEY", "F0Ac", "ui8 ", "ch8*", "Tp0b"] {
        assert_eq!(u32_to_key(key_to_u32(s)), s);
    }
    assert_eq!(key_to_u32("TC0P"), 0x5443_3050);
    assert_eq!(key_to_u32("#KEY"), NUMBER_OF_KEYS);
}

#[test]
fn undecodable_key_bytes_are_replaced() {
    assert_eq!(u32_to_key(0x41FF_4243), "A\u{FFFD}BC");
}

#[test]
fn digit_substitution_sets_fan_index() {
    let k = CommandKey(FAN_SPEED_ACTUAL).set1(3);
    assert_eq!(k, Some(CommandKey(key_to_u32("F3Ac"))));
    assert_eq!(CommandKey(FAN_SPEED_ACTUAL).set1(10), None);
    assert_eq!(CommandKey(FAN_SPEED_ACTUAL).set1(255), None);
    assert_eq!(CommandKey(FAN_SPEED_ACTUAL).set1(9), Some(CommandKey(key_to_u32("F9Ac"))));
}

#[test]
fn digit_substitution_third_position() {
    assert_eq!(CommandKey(TEMP_CPU_CORE).set2(4), Some(CommandKey(key_to_u32("TC4C"))));
    assert_eq!(CommandKey(TEMP_CPU_CORE).set2(12), None);
}

#[test]
fn core_keys_count_from_one() {
    let op = cpu_core_temperature_op(0).unwrap();
    assert_eq!(op.key, CommandKey(key_to_u32("TC1C")));
    assert_eq!(op.kind, ValueKind::Temperature);
    assert_eq!(cpu_core_temperature_op(8).unwrap().key, CommandKey(key_to_u32("TC9C")));
    assert!(cpu_core_temperature_op(9).is_none());
}

#[test]
fn fan_plan_uses_fan_index() {
    let ops = fan_speed_ops(2).unwrap();
    let keys: Vec<String> = ops.iter().map(|o| u32_to_key(o.key.0)).collect();
    assert_eq!(keys, vec!["F2Ac", "F2Mn", "F2Mx", "F2Tg", "F2Sf", "F2Md"]);
    assert_eq!(ops[5].kind, ValueKind::Mode);
    assert!(fan_speed_ops(10).is_none());
}

#[test]
fn battery_plan_uses_battery_index() {
    let ops = battery_detail_ops(1).unwrap();
    let keys: Vec<String> = ops.iter().map(|o| u32_to_key(o.key.0)).collect();
    assert_eq!(keys, vec!["B1CT", "B1RM", "B1FC", "B1AC", "B1AV", "B1AP"]);
    assert!(battery_detail_ops(10).is_none());
}

#[test]
fn names_must_be_four_bytes() {
    assert_eq!(key_from_name("TC0P"), Ok(CommandKey(0x5443_3050)));
    assert_eq!(key_from_name("TC0"), Err(Error::InvalidKeyFormat));
    assert_eq!(key_from_name("TC0PP"), Err(Error::InvalidKeyFormat));
    assert_eq!(smc_key(b"#KEYS"), CommandKey(NUMBER_OF_KEYS));
}

#[test]
fn key_catalog_lists() {
    let cpu = m2_cpu_temperature_keys();
    assert_eq!(cpu.len(), 9);
    assert_eq!(cpu[0].key, "Te05");
    assert_eq!(cpu[8].name, "CPU Performance Core 8");
    assert_eq!(m2_gpu_temperature_keys()[0].key, "Tg0f");
    let sys: Vec<&str> = system_temperature_keys().iter().map(|k| k.key).collect();
    assert_eq!(sys, vec!["TH0x", "TW0P"]);
    let power: Vec<&str> = power_keys().iter().map(|k| k.key).collect();
    assert_eq!(power, vec!["PSTR", "PDTR"]);
    let k = SmcKey::new("VD0R", "DC In", KeyCategory::Power, KeyDataType::Voltage);
    assert_eq!(k.key, "VD0R");
    assert_eq!(k.category, KeyCategory::Power);
}
