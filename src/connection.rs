//! Reads through a connection: what a finished read gives in the unit its
//! command expects, and composite reads that issue several reads one after
//! another. The calls themselves are made by the owner of the connection
//! handle, which hands each outcome back.

use vstd::prelude::*;
use crate::codec::{decode, DataValue, Real, Value};
use crate::commands::{CommandKey, ReadOp};
use crate::error::Error;
use crate::parsers::{default_of, default_reading, kind_of, parse_reading, parse_value, lemma_parse_kind, Reading, ValueKind};
use crate::iterators::IndexCursor;
use crate::keys::{is_key_text, u32_to_key};
use crate::platform::{first_key_index, has_key, on_platform, sensor_catalog, Platform, PlatformCommands, SensorDef};
use crate::text::utf8_valid;
use crate::types::{Dbg, DbgKeyInfo};
use crate::keys::key_bytes;
use crate::protocol::{KeyInfo, after_info, call_outcome, RawValue, Reply, Request, RESULT_KEY_NOT_FOUND, STATUS_SUCCESS};
use crate::types::{BatteryDetail, BatteryInfo, BatteryStatus, Celsius, CpuPower, CpuTemperatures, FanMode, FanSpeed, GpuTemperatures, MilliAmpere, MilliAmpereHours, OtherTemperatures, Rpm, Volt, Watt, zero};

verus! {

/// What an optional read gives for a finished read: the value in the unit
/// asked for, `None` for an unknown key, or the error. A value that cannot be
/// had in the unit is a decode error naming the key and its type tag.
pub open spec fn settled(kind: ValueKind, outcome: core::result::Result<RawValue, Error>) -> core::result::Result<Option<Reading>, Error> {
    match outcome {
        Err(Error::UnknownKey) => Ok(None),
        Err(e) => Err(e),
        Ok(raw) => match parse_value(kind, decode(raw.bytes@, raw.data_type)) {
            Some(x) => Ok(Some(x)),
            None => Err(Error::DecodeError { key: raw.key, tpe: raw.data_type }),
        },
    }
}

/// What a required read gives: as an optional read, with an unknown key an error.
pub open spec fn required(kind: ValueKind, outcome: core::result::Result<RawValue, Error>) -> core::result::Result<Reading, Error> {
    match settled(kind, outcome) {
        Ok(Some(x)) => Ok(x),
        Ok(None) => Err(Error::UnknownKey),
        Err(e) => Err(e),
    }
}

/// What a read with default gives: as an optional read, with an unknown key
/// the reading of a missing sensor.
pub open spec fn or_default(kind: ValueKind, outcome: core::result::Result<RawValue, Error>) -> core::result::Result<Reading, Error> {
    match settled(kind, outcome) {
        Ok(Some(x)) => Ok(x),
        Ok(None) => Ok(default_of(kind)),
        Err(e) => Err(e),
    }
}

/// Decodes a finished read; an unknown key gives `None`.
pub fn opt_read_value(kind: ValueKind, outcome: core::result::Result<RawValue, Error>) -> (r: core::result::Result<Option<Reading>, Error>)
    ensures
        r == settled(kind, outcome),
        r matches Ok(Some(x)) ==> kind_of(x) == kind,
{
    match outcome {
        Err(Error::UnknownKey) => Ok(None),
        Err(e) => Err(e),
        Ok(raw) => {
            let v = DataValue::convert(raw.bytes.as_slice(), raw.data_type);
            proof {
                lemma_parse_kind(kind, v@);
            }
            match parse_reading(kind, &v) {
                Some(x) => Ok(Some(x)),
                None => Err(Error::DecodeError { key: raw.key, tpe: raw.data_type }),
            }
        },
    }
}

/// Decodes a finished read; an unknown key is an error.
pub fn read_required(kind: ValueKind, outcome: core::result::Result<RawValue, Error>) -> (r: core::result::Result<Reading, Error>)
    ensures
        r == required(kind, outcome),
{
    match opt_read_value(kind, outcome) {
        Ok(Some(x)) => Ok(x),
        Ok(None) => Err(Error::UnknownKey),
        Err(e) => Err(e),
    }
}

/// Decodes a finished read; an unknown key gives the reading of a missing sensor.
pub fn read_value(kind: ValueKind, outcome: core::result::Result<RawValue, Error>) -> (r: core::result::Result<Reading, Error>)
    ensures
        r == or_default(kind, outcome),
        r matches Ok(x) ==> kind_of(x) == kind,
{
    match opt_read_value(kind, outcome) {
        Ok(Some(x)) => Ok(x),
        Ok(None) => Ok(default_reading(kind)),
        Err(e) => Err(e),
    }
}

/// What a read of a value of any type gives: `None` for an unknown key.
pub open spec fn settled_raw(outcome: core::result::Result<RawValue, Error>) -> core::result::Result<Option<Value>, Error> {
    match outcome {
        Err(Error::UnknownKey) => Ok(None),
        Err(e) => Err(e),
        Ok(raw) => Ok(Some(decode(raw.bytes@, raw.data_type))),
    }
}

/// Decodes a finished read of a value of any type; an unknown key gives `None`.
pub fn opt_read_raw(outcome: core::result::Result<RawValue, Error>) -> (r: core::result::Result<Option<DataValue>, Error>)
    ensures
        match settled_raw(outcome) {
            Ok(Some(v)) => r is Ok && r->Ok_0 is Some && r->Ok_0->Some_0@ == v,
            Ok(None) => r matches Ok(None),
            Err(e) => r == Err::<Option<DataValue>, Error>(e),
        },
{
    match outcome {
        Err(Error::UnknownKey) => Ok(None),
        Err(e) => Err(e),
        Ok(raw) => Ok(Some(DataValue::convert(raw.bytes.as_slice(), raw.data_type))),
    }
}

/// Decodes a finished read of a value of any type; an unknown key is an error.
pub fn read_raw_required(outcome: core::result::Result<RawValue, Error>) -> (r: core::result::Result<DataValue, Error>)
    ensures
        match settled_raw(outcome) {
            Ok(Some(v)) => r is Ok && r->Ok_0@ == v,
            Ok(None) => r == Err::<DataValue, Error>(Error::UnknownKey),
            Err(e) => r == Err::<DataValue, Error>(e),
        },
{
    match opt_read_raw(outcome) {
        Ok(Some(v)) => Ok(v),
        Ok(None) => Err(Error::UnknownKey),
        Err(e) => Err(e),
    }
}

/// Several reads issued one after another, each with default for an unknown
/// key; the first other error ends them all.
pub struct Batch {
    ops: Vec<ReadOp>,
    readings: Vec<Reading>,
}

/// What a composite read asks of its caller next.
pub enum BatchStep {
    /// Read this key to the end and hand the outcome to the batch.
    Read(Batch, CommandKey),
    /// All reads are over: one reading per read, or the error that ended them.
    Done(core::result::Result<Vec<Reading>, Error>),
}

impl Batch {
    /// The reads of the batch.
    pub closed spec fn ops(&self) -> Seq<ReadOp> {
        self.ops@
    }

    /// The readings gathered so far, one per finished read.
    pub closed spec fn readings(&self) -> Seq<Reading> {
        self.readings@
    }

    /// A running batch has a read left, and each reading is in its unit.
    pub closed spec fn wf(&self) -> bool {
        &&& self.readings@.len() < self.ops@.len()
        &&& forall|i: int| 0 <= i < self.readings@.len() ==> kind_of(#[trigger] self.readings@[i]) == self.ops@[i].kind
    }

    /// Starts the reads; the first key to read, or no readings at all for
    /// an empty list.
    pub fn start(ops: Vec<ReadOp>) -> (r: BatchStep)
        ensures
            ops@.len() == 0 ==> (r matches BatchStep::Done(Ok(v)) && v@.len() == 0),
            ops@.len() > 0 ==> (r matches BatchStep::Read(b, k) && b.wf() && b.ops() == ops@
                && b.readings().len() == 0 && k == ops@[0].key),
    {
        if ops.len() == 0 {
            return BatchStep::Done(Ok(Vec::new()));
        }
        let k = ops[0].key;
        BatchStep::Read(Batch { ops, readings: Vec::new() }, k)
    }

    /// Takes the outcome of the read asked for last and says what comes next.
    pub fn on_outcome(self, outcome: core::result::Result<RawValue, Error>) -> (r: BatchStep)
        requires
            self.wf(),
        ensures
            ({
                let i = self.readings().len() as int;
                let kind = self.ops()[i].kind;
                match or_default(kind, outcome) {
                    Err(e) => r matches BatchStep::Done(Err(x)) && x == e,
                    Ok(x) => if i + 1 < self.ops().len() {
                        r matches BatchStep::Read(b, k) && b.wf() && b.ops() == self.ops()
                            && b.readings() == self.readings().push(x) && k == self.ops()[i + 1].key
                    } else {
                        r matches BatchStep::Done(Ok(v)) && v@ == self.readings().push(x)
                    },
                }
            }),
            r matches BatchStep::Done(Ok(v)) ==> (v@.len() == self.ops().len()
                && forall|j: int| 0 <= j < v@.len() ==> kind_of(#[trigger] v@[j]) == self.ops()[j].kind),
    {
        let Batch { ops, mut readings } = self;
        let i = readings.len();
        let kind = ops[i].kind;
        match read_value(kind, outcome) {
            Err(e) => BatchStep::Done(Err(e)),
            Ok(x) => {
                readings.push(x);
                if i < ops.len() - 1 {
                    let k = ops[i + 1].key;
                    let b = Batch { ops, readings };
                    assert(forall|j: int| 0 <= j < b.readings@.len() ==> kind_of(#[trigger] b.readings@[j]) == b.ops@[j].kind);
                    BatchStep::Read(b, k)
                } else {
                    assert(forall|j: int| 0 <= j < readings@.len() ==> kind_of(#[trigger] readings@[j]) == ops@[j].kind);
                    BatchStep::Done(Ok(readings))
                }
            },
        }
    }
}

/// The Celsius a reading holds; a reading in another unit counts as missing.
pub open spec fn celsius_in(x: Reading) -> Celsius {
    match x {
        Reading::Temperature(v) => v,
        _ => Celsius(zero()),
    }
}

fn take_celsius_in(x: Reading) -> (r: Celsius)
    ensures
        r == celsius_in(x),
{
    match x {
        Reading::Temperature(v) => v,
        _ => Celsius(Real::from_int(0)),
    }
}

/// The Rpm a reading holds; a reading in another unit counts as missing.
pub open spec fn rpm_in(x: Reading) -> Rpm {
    match x {
        Reading::Speed(v) => v,
        _ => Rpm(zero()),
    }
}

fn take_rpm_in(x: Reading) -> (r: Rpm)
    ensures
        r == rpm_in(x),
{
    match x {
        Reading::Speed(v) => v,
        _ => Rpm(Real::from_int(0)),
    }
}

/// The FanMode a reading holds; a reading in another unit counts as missing.
pub open spec fn mode_in(x: Reading) -> FanMode {
    match x {
        Reading::Mode(v) => v,
        _ => FanMode::Auto,
    }
}

fn take_mode_in(x: Reading) -> (r: FanMode)
    ensures
        r == mode_in(x),
{
    match x {
        Reading::Mode(v) => v,
        _ => FanMode::Auto,
    }
}

/// The flag a reading holds; a reading in another unit counts as missing.
pub open spec fn flag_in(x: Reading) -> bool {
    match x {
        Reading::Flag(v) => v,
        _ => false,
    }
}

fn take_flag_in(x: Reading) -> (r: bool)
    ensures
        r == flag_in(x),
{
    match x {
        Reading::Flag(v) => v,
        _ => false,
    }
}

/// The count a reading holds; a reading in another unit counts as missing.
pub open spec fn count32_in(x: Reading) -> u32 {
    match x {
        Reading::Count32(v) => v,
        _ => 0,
    }
}

fn take_count32_in(x: Reading) -> (r: u32)
    ensures
        r == count32_in(x),
{
    match x {
        Reading::Count32(v) => v,
        _ => 0,
    }
}

/// The MilliAmpereHours a reading holds; a reading in another unit counts as missing.
pub open spec fn capacity_in(x: Reading) -> MilliAmpereHours {
    match x {
        Reading::Capacity(v) => v,
        _ => MilliAmpereHours(0),
    }
}

fn take_capacity_in(x: Reading) -> (r: MilliAmpereHours)
    ensures
        r == capacity_in(x),
{
    match x {
        Reading::Capacity(v) => v,
        _ => MilliAmpereHours(0),
    }
}

/// The MilliAmpere a reading holds; a reading in another unit counts as missing.
pub open spec fn current_in(x: Reading) -> MilliAmpere {
    match x {
        Reading::Current(v) => v,
        _ => MilliAmpere(0),
    }
}

fn take_current_in(x: Reading) -> (r: MilliAmpere)
    ensures
        r == current_in(x),
{
    match x {
        Reading::Current(v) => v,
        _ => MilliAmpere(0),
    }
}

/// The Volt a reading holds; a reading in another unit counts as missing.
pub open spec fn volt_in(x: Reading) -> Volt {
    match x {
        Reading::Voltage(v) => v,
        _ => Volt(zero()),
    }
}

fn take_volt_in(x: Reading) -> (r: Volt)
    ensures
        r == volt_in(x),
{
    match x {
        Reading::Voltage(v) => v,
        _ => Volt(Real::from_int(0)),
    }
}

/// The Watt a reading holds; a reading in another unit counts as missing.
pub open spec fn watt_in(x: Reading) -> Watt {
    match x {
        Reading::Power(v) => v,
        _ => Watt(zero()),
    }
}

fn take_watt_in(x: Reading) -> (r: Watt)
    ensures
        r == watt_in(x),
{
    match x {
        Reading::Power(v) => v,
        _ => Watt(Real::from_int(0)),
    }
}

/// The BatteryStatus a reading holds; a reading in another unit counts as missing.
pub open spec fn battery_in(x: Reading) -> BatteryStatus {
    match x {
        Reading::Battery(v) => v,
        _ => BatteryStatus { charging: false, ac_present: false, health_ok: false },
    }
}

fn take_battery_in(x: Reading) -> (r: BatteryStatus)
    ensures
        r == battery_in(x),
{
    match x {
        Reading::Battery(v) => v,
        _ => BatteryStatus { charging: false, ac_present: false, health_ok: false },
    }
}

/// The CpuTemperatures that the readings of its plan give, in the order of the plan.
pub open spec fn of_cpu_temperatures(r: Seq<Reading>) -> CpuTemperatures {
    CpuTemperatures {
            proximity: celsius_in(r[0]),
            die: celsius_in(r[1]),
            graphics: celsius_in(r[2]),
            system_agent: celsius_in(r[3]),
    }
}

/// Gathers a CpuTemperatures from the readings of its plan.
pub fn assemble_cpu_temperatures(r: &Vec<Reading>) -> (out: CpuTemperatures)
    requires
        r@.len() == 4,
    ensures
        out == of_cpu_temperatures(r@),
{
    let proximity = take_celsius_in(r[0]);
    let die = take_celsius_in(r[1]);
    let graphics = take_celsius_in(r[2]);
    let system_agent = take_celsius_in(r[3]);
    CpuTemperatures { proximity, die, graphics, system_agent }
}

/// The GpuTemperatures that the readings of its plan give, in the order of the plan.
pub open spec fn of_gpu_temperatures(r: Seq<Reading>) -> GpuTemperatures {
    GpuTemperatures {
            proximity: celsius_in(r[0]),
            die: celsius_in(r[1]),
    }
}

/// Gathers a GpuTemperatures from the readings of its plan.
pub fn assemble_gpu_temperatures(r: &Vec<Reading>) -> (out: GpuTemperatures)
    requires
        r@.len() == 2,
    ensures
        out == of_gpu_temperatures(r@),
{
    let proximity = take_celsius_in(r[0]);
    let die = take_celsius_in(r[1]);
    GpuTemperatures { proximity, die }
}

/// The OtherTemperatures that the readings of its plan give, in the order of the plan.
pub open spec fn of_other_temperatures(r: Seq<Reading>) -> OtherTemperatures {
    OtherTemperatures {
            memory_bank_proximity: celsius_in(r[0]),
            mainboard_proximity: celsius_in(r[1]),
            platform_controller_hub_die: celsius_in(r[2]),
            airport: celsius_in(r[3]),
            airflow_left: celsius_in(r[4]),
            airflow_right: celsius_in(r[5]),
            thunderbolt_left: celsius_in(r[6]),
            thunderbolt_right: celsius_in(r[7]),
            heatpipe_1: celsius_in(r[8]),
            heatpipe_2: celsius_in(r[9]),
            palm_rest_1: celsius_in(r[10]),
            palm_rest_2: celsius_in(r[11]),
    }
}

/// Gathers a OtherTemperatures from the readings of its plan.
pub fn assemble_other_temperatures(r: &Vec<Reading>) -> (out: OtherTemperatures)
    requires
        r@.len() == 12,
    ensures
        out == of_other_temperatures(r@),
{
    let memory_bank_proximity = take_celsius_in(r[0]);
    let mainboard_proximity = take_celsius_in(r[1]);
    let platform_controller_hub_die = take_celsius_in(r[2]);
    let airport = take_celsius_in(r[3]);
    let airflow_left = take_celsius_in(r[4]);
    let airflow_right = take_celsius_in(r[5]);
    let thunderbolt_left = take_celsius_in(r[6]);
    let thunderbolt_right = take_celsius_in(r[7]);
    let heatpipe_1 = take_celsius_in(r[8]);
    let heatpipe_2 = take_celsius_in(r[9]);
    let palm_rest_1 = take_celsius_in(r[10]);
    let palm_rest_2 = take_celsius_in(r[11]);
    OtherTemperatures { memory_bank_proximity, mainboard_proximity, platform_controller_hub_die, airport, airflow_left, airflow_right, thunderbolt_left, thunderbolt_right, heatpipe_1, heatpipe_2, palm_rest_1, palm_rest_2 }
}

/// The CpuPower that the readings of its plan give, in the order of the plan.
pub open spec fn of_cpu_power(r: Seq<Reading>) -> CpuPower {
    CpuPower {
            core: watt_in(r[0]),
            dram: watt_in(r[1]),
            gfx: watt_in(r[2]),
            rail: watt_in(r[3]),
            total: watt_in(r[4]),
    }
}

/// Gathers a CpuPower from the readings of its plan.
pub fn assemble_cpu_power(r: &Vec<Reading>) -> (out: CpuPower)
    requires
        r@.len() == 5,
    ensures
        out == of_cpu_power(r@),
{
    let core = take_watt_in(r[0]);
    let dram = take_watt_in(r[1]);
    let gfx = take_watt_in(r[2]);
    let rail = take_watt_in(r[3]);
    let total = take_watt_in(r[4]);
    CpuPower { core, dram, gfx, rail, total }
}

/// The FanSpeed that the readings of its plan give, in the order of the plan.
pub open spec fn of_fan_speed(r: Seq<Reading>) -> FanSpeed {
    FanSpeed {
            actual: rpm_in(r[0]),
            min: rpm_in(r[1]),
            max: rpm_in(r[2]),
            target: rpm_in(r[3]),
            safe: rpm_in(r[4]),
            mode: mode_in(r[5]),
    }
}

/// Gathers a FanSpeed from the readings of its plan.
pub fn assemble_fan_speed(r: &Vec<Reading>) -> (out: FanSpeed)
    requires
        r@.len() == 6,
    ensures
        out == of_fan_speed(r@),
{
    let actual = take_rpm_in(r[0]);
    let min = take_rpm_in(r[1]);
    let max = take_rpm_in(r[2]);
    let target = take_rpm_in(r[3]);
    let safe = take_rpm_in(r[4]);
    let mode = take_mode_in(r[5]);
    FanSpeed { actual, min, max, target, safe, mode }
}

/// The BatteryDetail that the readings of its plan give, in the order of the plan.
pub open spec fn of_battery_detail(r: Seq<Reading>) -> BatteryDetail {
    BatteryDetail {
            cycles: count32_in(r[0]),
            current_capacity: capacity_in(r[1]),
            full_capacity: capacity_in(r[2]),
            amperage: current_in(r[3]),
            voltage: volt_in(r[4]),
            power: watt_in(r[5]),
    }
}

/// Gathers a BatteryDetail from the readings of its plan.
pub fn assemble_battery_detail(r: &Vec<Reading>) -> (out: BatteryDetail)
    requires
        r@.len() == 6,
    ensures
        out == of_battery_detail(r@),
{
    let cycles = take_count32_in(r[0]);
    let current_capacity = take_capacity_in(r[1]);
    let full_capacity = take_capacity_in(r[2]);
    let amperage = take_current_in(r[3]);
    let voltage = take_volt_in(r[4]);
    let power = take_watt_in(r[5]);
    BatteryDetail { cycles, current_capacity, full_capacity, amperage, voltage, power }
}

/// The battery system that the readings of its plan give: the status bits,
/// the battery power flag and three temperatures.
pub open spec fn of_battery_info(r: Seq<Reading>) -> BatteryInfo {
    BatteryInfo {
        battery_powered: flag_in(r[1]),
        charging: battery_in(r[0]).charging,
        ac_present: battery_in(r[0]).ac_present,
        health_ok: battery_in(r[0]).health_ok,
        temperature_max: celsius_in(r[2]),
        temperature_1: celsius_in(r[3]),
        temperature_2: celsius_in(r[4]),
    }
}

/// Gathers the battery system from the readings of its plan.
pub fn assemble_battery_info(r: &Vec<Reading>) -> (out: BatteryInfo)
    requires
        r@.len() == 5,
    ensures
        out == of_battery_info(r@),
{
    let status = take_battery_in(r[0]);
    let battery_powered = take_flag_in(r[1]);
    let temperature_max = take_celsius_in(r[2]);
    let temperature_1 = take_celsius_in(r[3]);
    let temperature_2 = take_celsius_in(r[4]);
    BatteryInfo {
        battery_powered,
        charging: status.charging,
        ac_present: status.ac_present,
        health_ok: status.health_ok,
        temperature_max,
        temperature_1,
        temperature_2,
    }
}

/// An unknown key: the controller's not-found result ends the metadata phase
/// with `UnknownKey`; an optional read turns it into an absent value, a read
/// with default into the reading of a missing sensor, and a required read
/// reports it.
pub proof fn lemma_unknown_key(key: u32, kind: ValueKind, reply: Reply)
    requires
        reply.result == RESULT_KEY_NOT_FOUND,
    ensures
        call_outcome(STATUS_SUCCESS, reply.result) == Err::<(), Error>(Error::UnknownKey),
        after_info(key, STATUS_SUCCESS, reply) == Err::<Request, Error>(Error::UnknownKey),
        settled(kind, Err(Error::UnknownKey)) == Ok::<Option<Reading>, Error>(None),
        or_default(kind, Err(Error::UnknownKey)) == Ok::<Reading, Error>(default_of(kind)),
        required(kind, Err(Error::UnknownKey)) == Err::<Reading, Error>(Error::UnknownKey),
{
}

/// A session with the controller: the platform it runs on and the sensors
/// that platform has. The handle itself is held by the caller, which makes
/// every call and hands the outcomes to the session.
#[derive(Debug)]
pub struct Smc {
    platform_commands: PlatformCommands,
}

/// The error that a key named in a reply by index gives where its bytes are
/// not text.
pub open spec fn key_name_of(info: KeyInfo) -> core::result::Result<CommandKey, Error> {
    if vstd::utf8::valid_utf8(key_bytes(info.key)) {
        Ok(CommandKey(info.key))
    } else {
        Err(Error::DecodeError { key: info.key, tpe: info.data_type })
    }
}

impl Smc {
    /// The platform of the session.
    pub closed spec fn spec_platform(&self) -> Platform {
        self.platform_commands.spec_platform()
    }

    /// The sensors of the platform of the session, in catalog order.
    pub closed spec fn sensors(&self) -> Seq<crate::platform::SensorView> {
        self.platform_commands.sensors()
    }

    /// Starts a session on a platform once the handle has been opened; a
    /// failure to open ends it with that error.
    pub fn connect_with_platform(platform: Platform, opened: core::result::Result<(), Error>) -> (r: core::result::Result<Smc, Error>)
        ensures
            opened matches Err(e) ==> r == Err::<Smc, Error>(e),
            opened is Ok ==> (r matches Ok(smc) && smc.spec_platform() == platform
                && smc.sensors() == sensor_catalog().filter(on_platform(platform))
                && crate::platform::keys_unique_on(smc.sensors())),
    {
        match opened {
            Err(e) => Err(e),
            Ok(()) => Ok(Smc { platform_commands: PlatformCommands::new(platform) }),
        }
    }

    /// Starts a session on the platform that a processor brand string names,
    /// once the handle has been opened.
    pub fn connect(brand: &str, opened: core::result::Result<(), Error>) -> (r: core::result::Result<Smc, Error>)
        ensures
            opened matches Err(e) ==> r == Err::<Smc, Error>(e),
            opened is Ok ==> (r matches Ok(smc) && smc.spec_platform() == crate::platform::platform_of_brand(brand@)
                && smc.sensors() == sensor_catalog().filter(on_platform(crate::platform::platform_of_brand(brand@)))),
    {
        let platform = crate::platform::detect_platform(brand);
        Smc::connect_with_platform(platform, opened)
    }

    /// The platform of the session.
    pub fn platform(&self) -> (r: Platform)
        ensures
            r == self.spec_platform(),
    {
        self.platform_commands.platform()
    }

    /// Whether the platform has a sensor with this key.
    pub fn has_sensor(&self, sensor_key: &str) -> (r: bool)
        ensures
            r == has_key(self.sensors(), sensor_key@),
    {
        self.platform_commands.has_sensor(sensor_key)
    }

    /// The definition of the sensor with this key, if the platform has one.
    pub fn get_sensor_info(&self, sensor_key: &str) -> (r: Option<&SensorDef>)
        ensures
            r is None <==> !has_key(self.sensors(), sensor_key@),
            r is Some ==> r->Some_0@ == self.sensors()[first_key_index(self.sensors(), sensor_key@)],
    {
        self.platform_commands.get_sensor(sensor_key)
    }

    /// The keys of the averaged processor temperature sensors of the platform.
    pub fn cpu_core_temp_keys(&self) -> (r: Vec<String>)
        ensures
            r@.map_values(|s: String| s@) == crate::platform::keys_where(self.sensors(), crate::platform::is_core_temp()),
    {
        self.platform_commands.cpu_core_temp_keys()
    }

    /// The keys of the graphics temperature sensors of the platform.
    pub fn gpu_temp_keys(&self) -> (r: Vec<String>)
        ensures
            r@.map_values(|s: String| s@) == crate::platform::keys_where(self.sensors(), crate::platform::is_gpu_temp()),
    {
        self.platform_commands.gpu_temp_keys()
    }

    /// The iterator over the fans, from the read of the fan count.
    pub fn fans(&self, count: core::result::Result<RawValue, Error>) -> (r: core::result::Result<IndexCursor, Error>)
        ensures
            match or_default(ValueKind::Count8, count) {
                Ok(Reading::Count8(n)) => r matches Ok(c) && c.wf() && c.remaining() == crate::iterators::index_range(0, n as u32),
                Ok(_) => false,
                Err(e) => r == Err::<IndexCursor, Error>(e),
            },
    {
        counted(ValueKind::Count8, count)
    }

    /// The iterator over the batteries, from the read of the battery count.
    pub fn battery_details(&self, count: core::result::Result<RawValue, Error>) -> (r: core::result::Result<IndexCursor, Error>)
        ensures
            match or_default(ValueKind::Count8, count) {
                Ok(Reading::Count8(n)) => r matches Ok(c) && c.wf() && c.remaining() == crate::iterators::index_range(0, n as u32),
                Ok(_) => false,
                Err(e) => r == Err::<IndexCursor, Error>(e),
            },
    {
        counted(ValueKind::Count8, count)
    }

    /// The iterator over the processor cores, from the number of physical
    /// cores the system reports; at least one and at most 255.
    pub fn cpu_core_temps(&self, cpus: i32) -> (r: IndexCursor)
        ensures
            r.wf(),
            r.remaining() == crate::iterators::index_range(0, (if cpus < 1 { 1 } else if cpus > 255 { 255 } else { cpus }) as u32),
    {
        let n: u32 = if cpus < 1 {
            1
        } else if cpus > 255 {
            255
        } else {
            cpus as u32
        };
        IndexCursor::new(n)
    }

    /// The number of keys, from its read.
    pub fn number_of_keys(&self, count: core::result::Result<RawValue, Error>) -> (r: core::result::Result<u32, Error>)
        ensures
            match or_default(ValueKind::Count32, count) {
                Ok(Reading::Count32(n)) => r == Ok::<u32, Error>(n),
                Ok(_) => false,
                Err(e) => r == Err::<u32, Error>(e),
            },
    {
        match read_value(ValueKind::Count32, count) {
            Ok(Reading::Count32(n)) => Ok(n),
            Ok(_) => Ok(0),
            Err(e) => Err(e),
        }
    }

    /// The iterator over the metadata of all keys, from the read of the key count.
    pub fn all_keys(&self, count: core::result::Result<RawValue, Error>) -> (r: core::result::Result<IndexCursor, Error>)
        ensures
            match or_default(ValueKind::Count32, count) {
                Ok(Reading::Count32(n)) => r matches Ok(c) && c.wf() && c.remaining() == crate::iterators::index_range(0, n),
                Ok(_) => false,
                Err(e) => r == Err::<IndexCursor, Error>(e),
            },
    {
        counted(ValueKind::Count32, count)
    }

    /// The iterator over the values of all keys, from the read of the key count.
    pub fn all_data(&self, count: core::result::Result<RawValue, Error>) -> (r: core::result::Result<IndexCursor, Error>)
        ensures
            match or_default(ValueKind::Count32, count) {
                Ok(Reading::Count32(n)) => r matches Ok(c) && c.wf() && c.remaining() == crate::iterators::index_range(0, n),
                Ok(_) => false,
                Err(e) => r == Err::<IndexCursor, Error>(e),
            },
    {
        counted(ValueKind::Count32, count)
    }

    /// The key named in a reply by index, where its bytes are text.
    pub fn key_by_index(&self, info: KeyInfo) -> (r: core::result::Result<CommandKey, Error>)
        ensures
            r == key_name_of(info),
    {
        let bytes = crate::keys::key_to_bytes(info.key);
        if utf8_valid(bytes.as_slice()) {
            Ok(CommandKey(info.key))
        } else {
            Err(Error::DecodeError { key: info.key, tpe: info.data_type })
        }
    }

    /// The metadata of a key, as text.
    pub fn key_info(&self, info: KeyInfo) -> (r: DbgKeyInfo)
        ensures
            is_key_text(info.key, r.key@),
            is_key_text(info.data_type, r.data_type@),
            r.data_size == info.data_size,
    {
        DbgKeyInfo {
            key: u32_to_key(info.key),
            data_type: u32_to_key(info.data_type),
            data_size: info.data_size as usize,
        }
    }

    /// The value of a key of any type, with the key as text; an unknown key
    /// gives `None`.
    pub fn check(&self, key: u32, outcome: core::result::Result<RawValue, Error>) -> (r: Dbg)
        ensures
            is_key_text(key, r.key@),
            match settled_raw(outcome) {
                Ok(Some(v)) => r.value is Ok && r.value->Ok_0 is Some && r.value->Ok_0->Some_0@ == v,
                Ok(None) => r.value matches Ok(None),
                Err(e) => r.value == Err::<Option<DataValue>, Error>(e),
            },
    {
        Dbg { key: u32_to_key(key), value: opt_read_raw(outcome) }
    }

    /// The value of a sensor named by its key, of any type; an unknown key
    /// is an error.
    pub fn read_sensor(&self, outcome: core::result::Result<RawValue, Error>) -> (r: core::result::Result<DataValue, Error>)
        ensures
            match settled_raw(outcome) {
                Ok(Some(v)) => r is Ok && r->Ok_0@ == v,
                Ok(None) => r == Err::<DataValue, Error>(Error::UnknownKey),
                Err(e) => r == Err::<DataValue, Error>(e),
            },
    {
        read_raw_required(outcome)
    }
}

/// A temperature read by a key of the platform catalog: a real number, or a
/// decode error naming the key and its type tag; an unknown key is an error.
pub open spec fn platform_temperature_of(outcome: core::result::Result<RawValue, Error>) -> core::result::Result<Celsius, Error> {
    match outcome {
        Err(e) => Err(e),
        Ok(raw) => match decode(raw.bytes@, raw.data_type) {
            Value::Float(x) => Ok(Celsius(x)),
            _ => Err(Error::DecodeError { key: raw.key, tpe: raw.data_type }),
        },
    }
}

/// Turns the read of a catalog temperature key into a temperature.
pub fn platform_temperature(outcome: core::result::Result<RawValue, Error>) -> (r: core::result::Result<Celsius, Error>)
    ensures
        r == platform_temperature_of(outcome),
{
    match outcome {
        Err(e) => Err(e),
        Ok(raw) => match DataValue::convert(raw.bytes.as_slice(), raw.data_type) {
            DataValue::Float(x) => Ok(Celsius(x)),
            _ => Err(Error::DecodeError { key: raw.key, tpe: raw.data_type }),
        },
    }
}

/// An iterator over as many indices as a count read gives.
fn counted(kind: ValueKind, count: core::result::Result<RawValue, Error>) -> (r: core::result::Result<IndexCursor, Error>)
    requires
        kind == ValueKind::Count8 || kind == ValueKind::Count32,
    ensures
        match or_default(kind, count) {
            Ok(Reading::Count8(n)) => r matches Ok(c) && c.wf() && c.remaining() == crate::iterators::index_range(0, n as u32),
            Ok(Reading::Count32(n)) => r matches Ok(c) && c.wf() && c.remaining() == crate::iterators::index_range(0, n),
            Ok(_) => false,
            Err(e) => r == Err::<IndexCursor, Error>(e),
        },
{
    match read_value(kind, count) {
        Ok(Reading::Count8(n)) => Ok(IndexCursor::new(n as u32)),
        Ok(Reading::Count32(n)) => Ok(IndexCursor::new(n)),
        Ok(_) => Ok(IndexCursor::new(0)),
        Err(e) => Err(e),
    }
}

} // verus!
