use macsmc::codec::{DataValue, Real, TAG_FLT};
use macsmc::commands::{cpu_temperature_ops, CommandKey, TEMP_CPU_PROXIMITY};
use macsmc::connection::{
    assemble_cpu_temperatures, opt_read_raw, opt_read_value, platform_temperature, read_required, read_value, Batch,
    BatchStep,
};
use macsmc::keys::key_to_u32;
use macsmc::parsers::{Reading, ValueKind};
use macsmc::protocol::{
    check_call, index_info_from_reply, key_index_request, key_info_from_reply, KeyInfo, KeyRead, RawValue, ReadPhase,
    ReadStep, Reply, Request, CMD_READ_DATA, CMD_READ_INDEX, CMD_READ_KEY_INFO, STATUS_NOT_PRIVILEGED,
    STATUS_SUCCESS,
};
use macsmc::{Celsius, Error};

fn reply(data_size: u32, data_type: u32, result: u8, payload: &[u8]) -> Reply {
    let mut bytes = [0u8; 32];
    bytes[..payload.len()].copy_from_slice(payload);
    Reply { key: 0, data_size, data_type, result, bytes }
}

/// Runs a whole read against a fabricated controller that answers the
/// metadata request with `info` and the payload request with `data`.
fn run_read(key: u32, info: (i32, Reply), data: (i32, Reply)) -> (Result<RawValue, Error>, usize) {
    let (mut read, first) = KeyRead::start(key);
    assert_eq!(first, Request { key, command: CMD_READ_KEY_INFO, data_size: 0, index: 0 });
    let mut calls = 1;
    match read.on_reply(info.0, &info.1) {
        ReadStep::Done(r) => (r, calls),
        ReadStep::Call(req) => {
            assert_eq!(req.command, CMD_READ_DATA);
            assert_eq!(req.key, key);
            assert_eq!(req.data_size, info.1.data_size);
            calls += 1;
            match read.on_reply(data.0, &data.1) {
                ReadStep::Done(r) => (r, calls),
                ReadStep::Call(_) => panic!("a read makes two calls at most"),
            }
        }
    }
}

#[test]
fn end_to_end_temperature() {
    let key = TEMP_CPU_PROXIMITY;
    let bytes = 42.5f32.to_le_bytes();
    let (raw, calls) = run_read(key, (STATUS_SUCCESS, reply(4, TAG_FLT, 0, &[])), (STATUS_SUCCESS, reply(4, TAG_FLT, 0, &bytes)));
    assert_eq!(calls, 2);
    let raw = raw.unwrap();
    assert_eq!(raw.key, key);
    assert_eq!(raw.bytes, bytes.to_vec());
    let reading = read_required(ValueKind::Temperature, Ok(raw)).unwrap();
    assert_eq!(reading, Reading::Temperature(Celsius(Real::Bits(42.5f32.to_bits()))));
    match reading {
        Reading::Temperature(Celsius(Real::Bits(b))) => assert_eq!(f32::from_bits(b), 42.5),
        other => panic!("unexpected {:?}", other),
    }
}

#[test]
fn oversized_payload_stops_before_data_phase() {
    let (r, calls) = run_read(0x1234_5678, (STATUS_SUCCESS, reply(33, TAG_FLT, 0, &[])), (STATUS_SUCCESS, reply(0, 0, 0, &[])));
    assert_eq!(calls, 1);
    assert_eq!(r.unwrap_err(), Error::OversizedPayload { key: 0x1234_5678, data_size: 33 });
}

#[test]
fn full_buffer_is_accepted() {
    let payload = [7u8; 32];
    let (r, calls) = run_read(1, (STATUS_SUCCESS, reply(32, 0, 0, &[])), (STATUS_SUCCESS, reply(32, 0, 0, &payload)));
    assert_eq!(calls, 2);
    assert_eq!(r.unwrap().bytes, payload.to_vec());
}

#[test]
fn empty_payload_is_valid() {
    let (r, _) = run_read(1, (STATUS_SUCCESS, reply(0, key_to_u32("flag"), 0, &[])), (STATUS_SUCCESS, reply(0, 0, 0, &[9, 9])));
    let raw = r.unwrap();
    assert!(raw.bytes.is_empty());
    assert_eq!(read_required(ValueKind::Flag, Ok(raw)), Ok(Reading::Flag(false)));
}

#[test]
fn unknown_key_is_absent_or_error() {
    let (r, calls) = run_read(5, (STATUS_SUCCESS, reply(0, 0, 132, &[])), (STATUS_SUCCESS, reply(0, 0, 0, &[])));
    assert_eq!(calls, 1);
    assert_eq!(r.clone().unwrap_err(), Error::UnknownKey);
    assert_eq!(opt_read_value(ValueKind::Temperature, r.clone()), Ok(None));
    assert_eq!(read_required(ValueKind::Temperature, r.clone()), Err(Error::UnknownKey));
    assert_eq!(
        read_value(ValueKind::Temperature, r.clone()),
        Ok(Reading::Temperature(Celsius(Real::Ratio { num: 0, den: 1 })))
    );
    assert!(matches!(opt_read_raw(r), Ok(None)));
}

#[test]
fn call_failures_are_classified() {
    assert_eq!(check_call(STATUS_NOT_PRIVILEGED, 0), Err(Error::NotPrivileged));
    assert_eq!(check_call(-5, 0), Err(Error::ProtocolError(-5)));
    assert_eq!(check_call(STATUS_SUCCESS, 132), Err(Error::UnknownKey));
    assert_eq!(check_call(STATUS_SUCCESS, 0), Ok(()));
    let (r, _) = run_read(1, (STATUS_SUCCESS, reply(4, TAG_FLT, 0, &[])), (-7, reply(4, TAG_FLT, 0, &[])));
    assert_eq!(r.unwrap_err(), Error::ProtocolError(-7));
}

#[test]
fn decode_error_names_key_and_type() {
    let raw = RawValue { key: 0x4142_4344, data_type: TAG_FLT, bytes: vec![1, 2, 3, 4] };
    assert_eq!(
        read_required(ValueKind::Count8, Ok(raw)),
        Err(Error::DecodeError { key: 0x4142_4344, tpe: TAG_FLT })
    );
    let raw = RawValue { key: 1, data_type: key_to_u32("ui16"), bytes: vec![1, 0] };
    assert_eq!(read_required(ValueKind::Count8, Ok(raw)), Err(Error::DecodeError { key: 1, tpe: key_to_u32("ui16") }));
}

#[test]
fn metadata_queries() {
    let mut r = reply(4, TAG_FLT, 0, &[]);
    assert_eq!(key_info_from_reply(9, STATUS_SUCCESS, &r), Ok(KeyInfo { key: 9, data_type: TAG_FLT, data_size: 4 }));
    assert_eq!(key_index_request(17), Request { key: 0, command: CMD_READ_INDEX, data_size: 0, index: 17 });
    r.key = 0x5443_3050;
    assert_eq!(index_info_from_reply(STATUS_SUCCESS, &r).unwrap().key, 0x5443_3050);
    r.result = 132;
    assert_eq!(index_info_from_reply(STATUS_SUCCESS, &r), Err(Error::UnknownKey));
}

#[test]
fn read_phases_advance() {
    let (mut read, _) = KeyRead::start(3);
    assert_eq!(read.phase, ReadPhase::Info);
    let _ = read.on_reply(STATUS_SUCCESS, &reply(2, 7, 0, &[]));
    assert_eq!(read.phase, ReadPhase::Data { data_type: 7, data_size: 2 });
    let _ = read.on_reply(STATUS_SUCCESS, &reply(2, 7, 0, &[1, 2]));
    assert_eq!(read.phase, ReadPhase::Finished);
}

fn flt(key: u32, v: f32) -> Result<RawValue, Error> {
    Ok(RawValue { key, data_type: TAG_FLT, bytes: v.to_le_bytes().to_vec() })
}

#[test]
fn composite_read_defaults_missing_sensors() {
    let ops = cpu_temperature_ops();
    let mut outcomes = vec![flt(1, 50.0), Err(Error::UnknownKey), flt(3, 40.0), flt(4, 30.0)].into_iter();
    let mut step = Batch::start(ops);
    let mut keys = Vec::new();
    let readings = loop {
        match step {
            BatchStep::Read(b, k) => {
                keys.push(k);
                step = b.on_outcome(outcomes.next().unwrap());
            }
            BatchStep::Done(r) => break r.unwrap(),
        }
    };
    assert_eq!(keys.len(), 4);
    assert_eq!(keys[0], CommandKey(key_to_u32("TC0P")));
    let t = assemble_cpu_temperatures(&readings);
    assert_eq!(t.proximity, Celsius(Real::Bits(50.0f32.to_bits())));
    assert_eq!(t.die, Celsius(Real::Ratio { num: 0, den: 1 }));
    assert_eq!(t.system_agent, Celsius(Real::Bits(30.0f32.to_bits())));
}

#[test]
fn composite_read_stops_at_first_error() {
    let ops = cpu_temperature_ops();
    let mut step = Batch::start(ops);
    let mut reads = 0;
    let result = loop {
        match step {
            BatchStep::Read(b, _) => {
                reads += 1;
                let outcome = if reads == 2 { Err(Error::NotPrivileged) } else { flt(1, 1.0) };
                step = b.on_outcome(outcome);
            }
            BatchStep::Done(r) => break r,
        }
    };
    assert_eq!(reads, 2);
    assert_eq!(result.unwrap_err(), Error::NotPrivileged);
}

#[test]
fn empty_plan_is_done_at_once() {
    match Batch::start(Vec::new()) {
        BatchStep::Done(Ok(v)) => assert!(v.is_empty()),
        _ => panic!("nothing to read"),
    }
}

#[test]
fn platform_temperature_needs_a_float() {
    assert_eq!(platform_temperature(flt(1, 20.0)), Ok(Celsius(Real::Bits(20.0f32.to_bits()))));
    let raw = RawValue { key: 2, data_type: key_to_u32("ui8 "), bytes: vec![1] };
    assert_eq!(platform_temperature(Ok(raw)), Err(Error::DecodeError { key: 2, tpe: key_to_u32("ui8 ") }));
    assert_eq!(platform_temperature(Err(Error::UnknownKey)), Err(Error::UnknownKey));
    let v = DataValue::convert(&20.0f32.to_le_bytes(), TAG_FLT);
    assert_eq!(v, DataValue::Float(Real::Bits(20.0f32.to_bits())));
}
