//! Client library for the key-addressed register protocol of the system
//! management controller: key encoding, the typed-value codec, the two-phase
//! read protocol, the command registry and lazy index iteration.

pub mod client;
pub mod codec;
pub mod config;
pub mod commands;
pub mod connection;
pub mod error;
pub mod influx;
pub mod iterators;
pub mod keys;
pub mod metrics;
pub mod parsers;
pub mod platform;
pub mod protocol;
pub mod text;
pub mod types;

pub use codec::{DataValue, Real};
pub use connection::Smc;
pub use error::{Error, Result};
pub use iterators::{BatteryIter, CpuIter, DataIter, FanIter, IndexCursor, KeysIter};
pub use platform::{Platform, SensorDef, SensorGroup, SensorType};
pub use types::{
    BatteryDetail, BatteryInfo, Celsius, CpuPower, CpuTemperatures, Dbg, DbgKeyInfo, FanMode, FanSpeed,
    GpuTemperatures, MilliAmpere, MilliAmpereHours, OtherTemperatures, Rpm, Volt, Watt,
};
