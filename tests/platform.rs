use macsmc::client::{key_for_read, key_info_text, list_keys};
use macsmc::commands::{CommandKey, TEMP_CPU_PACKAGE, TEMP_CPU_PROXIMITY, TEMP_GPU_PROXIMITY};
use macsmc::platform::{
    create_sensor_map, detect_platform, get_sensor_definitions, get_sensors_for_platform, platform_from_lowered,
    PlatformCommands,
};
use macsmc::protocol::{KeyInfo, RawValue};
use macsmc::codec::{DataValue, TAG_FLT};
use macsmc::keys::key_to_u32;
use macsmc::{Error, Platform, SensorGroup, SensorType, Smc};

#[test]
fn platform_groups() {
    assert_eq!(Platform::all().len(), 17);
    assert_eq!(Platform::apple_silicon().len(), 16);
    assert_eq!(Platform::m3_gen(), vec![Platform::M3, Platform::M3Pro, Platform::M3Max, Platform::M3Ultra]);
    assert_eq!(Platform::m1_gen()[0], Platform::M1);
    assert_eq!(Platform::m2_gen()[3], Platform::M2Ultra);
    assert_eq!(Platform::m4_gen()[1], Platform::M4Pro);
    assert!(Platform::Intel.is_intel());
    assert!(Platform::M2.is_apple_silicon());
    assert_eq!(Platform::Intel.generation(), 0);
    assert_eq!(Platform::M3Max.generation(), 3);
    assert_eq!(Platform::M4Ultra.generation(), 4);
}

#[test]
fn catalog_contents() {
    let defs = get_sensor_definitions();
    assert_eq!(defs.len(), 45);
    assert_eq!(defs[0].key, "TC0D");
    assert_eq!(defs[44].key, "PSTR");
    assert_eq!(defs[6].platforms, vec![Platform::Intel]);
}

#[test]
fn sensors_for_intel() {
    let keys: Vec<&str> = get_sensors_for_platform(Platform::Intel).iter().map(|d| d.key).collect();
    assert_eq!(
        keys,
        vec!["TC0D", "TC0F", "TC0P", "TCGC", "TG0P", "TGDD", "Th1H", "Th2H", "PCPC", "PCPT", "PG0R", "PDTR", "PSTR"]
    );
    assert_eq!(create_sensor_map(Platform::M4).len(), 16);
}

#[test]
fn resolver_keys_for_m1() {
    let cmds = PlatformCommands::new(Platform::M1);
    assert_eq!(cmds.platform(), Platform::M1);
    assert_eq!(cmds.cpu_core_temp_keys(), vec!["Tp09", "Tp0T", "Tp01", "Tp05"]);
    assert_eq!(cmds.gpu_temp_keys(), vec!["TCGC", "TG0P", "TGDD", "Tg05", "Tg0D"]);
    assert!(cmds.has_sensor("Tg05"));
    assert!(!cmds.has_sensor("Tg0f"));
    let d = cmds.get_sensor("Tp0T").unwrap();
    assert_eq!(d.name, "CPU efficiency core 2");
    assert_eq!(d.group, SensorGroup::CPU);
    assert_eq!(d.sensor_type, SensorType::Temperature);
    assert!(cmds.get_sensor("Tp1h").is_none());
    assert_eq!(cmds.cpu_proximity_key(), Some(CommandKey(TEMP_CPU_PROXIMITY)));
    assert_eq!(cmds.gpu_proximity_key(), Some(CommandKey(TEMP_GPU_PROXIMITY)));
    assert_ne!(TEMP_CPU_PACKAGE, TEMP_CPU_PROXIMITY);
}

#[test]
fn resolver_for_m4_pro_gpu() {
    let cmds = PlatformCommands::new(Platform::M4Pro);
    let gpu = cmds.gpu_temp_keys();
    assert!(gpu.contains(&"Tg1U".to_string()));
    assert!(!gpu.contains(&"Tg0G".to_string()));
}

#[test]
fn brand_strings_name_platforms() {
    assert_eq!(detect_platform("Apple M2 Pro"), Platform::M2Pro);
    assert_eq!(detect_platform("  APPLE M3 MAX \n"), Platform::M3Max);
    assert_eq!(detect_platform("Apple M1 Ultra"), Platform::M1Ultra);
    assert_eq!(detect_platform("Apple M4"), Platform::M4);
    assert_eq!(detect_platform("Intel(R) Core(TM) i7-8750H CPU @ 2.20GHz"), Platform::Intel);
    assert_eq!(detect_platform(""), Platform::M1);
    assert_eq!(platform_from_lowered("apple m2 max"), Platform::M2Max);
    assert_eq!(platform_from_lowered("APPLE M2 MAX"), Platform::M1);
}

#[test]
fn session_setup() {
    assert_eq!(Smc::connect_with_platform(Platform::M2, Err(Error::ResourceUnavailable)).unwrap_err(), Error::ResourceUnavailable);
    let smc = Smc::connect_with_platform(Platform::M2, Ok(())).unwrap();
    assert_eq!(smc.platform(), Platform::M2);
    assert!(smc.has_sensor("Tp1h"));
    assert_eq!(smc.get_sensor_info("Tp0j").unwrap().name, "CPU performance core 8");
    let smc = Smc::connect("Apple M3 Pro", Ok(())).unwrap();
    assert_eq!(smc.platform(), Platform::M3Pro);
    assert_eq!(smc.cpu_core_temp_keys(), vec!["Te05", "Te0L", "Tf04", "Tf09"]);
    assert_eq!(smc.gpu_temp_keys().len(), 5);
}

fn count_raw(tag: &str, bytes: Vec<u8>) -> Result<RawValue, Error> {
    Ok(RawValue { key: key_to_u32("FNum"), data_type: key_to_u32(tag), bytes })
}

#[test]
fn session_iterators() {
    let smc = Smc::connect_with_platform(Platform::Intel, Ok(())).unwrap();
    let mut fans = smc.fans(count_raw("ui8 ", vec![2])).unwrap();
    assert_eq!(fans.next(), Some(0));
    assert_eq!(fans.next(), Some(1));
    assert_eq!(fans.next(), None);
    assert_eq!(smc.fans(Err(Error::UnknownKey)).unwrap().count(), 0);
    assert_eq!(smc.fans(Err(Error::NotPrivileged)).unwrap_err(), Error::NotPrivileged);
    assert_eq!(smc.battery_details(count_raw("ui8 ", vec![1])).unwrap().count(), 1);
    assert_eq!(smc.cpu_core_temps(8).count(), 8);
    assert_eq!(smc.cpu_core_temps(0).count(), 1);
    assert_eq!(smc.cpu_core_temps(1000).count(), 255);
    assert_eq!(smc.number_of_keys(count_raw("ui32", vec![0, 0, 4, 0])), Ok(1024));
    assert_eq!(smc.all_keys(count_raw("ui32", vec![0, 0, 0, 3])).unwrap().count(), 3);
    assert_eq!(smc.all_data(count_raw("ui32", vec![0, 0, 0, 3])).unwrap().count(), 3);
    assert!(smc.fans(count_raw("flt ", vec![0, 0, 0, 0])).is_err());
}

#[test]
fn key_listing_and_metadata() {
    let smc = Smc::connect_with_platform(Platform::Intel, Ok(())).unwrap();
    let info = KeyInfo { key: key_to_u32("TC0P"), data_type: key_to_u32("sp78"), data_size: 2 };
    let text = smc.key_info(info);
    assert_eq!(text.key, "TC0P");
    assert_eq!(text.data_type, "sp78");
    assert_eq!(text.data_size, 2);
    assert_eq!(smc.key_by_index(info), Ok(CommandKey(key_to_u32("TC0P"))));
    let bad = KeyInfo { key: 0xFF00_0000, data_type: 7, data_size: 0 };
    assert_eq!(smc.key_by_index(bad), Err(Error::DecodeError { key: 0xFF00_0000, tpe: 7 }));
    let dbg = smc.check(key_to_u32("TC0P"), Ok(RawValue { key: 1, data_type: TAG_FLT, bytes: vec![0, 0, 0x80, 0x3F] }));
    assert_eq!(dbg.key, "TC0P");
    assert!(matches!(dbg.value, Ok(Some(DataValue::Float(_)))));
    assert!(matches!(smc.check(1, Err(Error::UnknownKey)).value, Ok(None)));
    assert_eq!(smc.read_sensor(Err(Error::UnknownKey)), Err(Error::UnknownKey));
    let names = list_keys(&vec![Ok(info), Err(Error::UnknownKey), Ok(KeyInfo { key: key_to_u32("#KEY"), data_type: 0, data_size: 4 })]);
    assert_eq!(names, vec!["TC0P", "#KEY"]);
    assert_eq!(key_for_read("TC0"), Err(Error::InvalidKeyFormat));
    assert_eq!(key_for_read("TC0P"), Ok(CommandKey(key_to_u32("TC0P"))));
    let t = key_info_text("TC0P", info);
    assert_eq!(t.key, "TC0P");
    assert_eq!(t.data_type, "sp78");
}
