//! Platform agnostic driver for the TMP117 digital temperature sensor.
//!
//! The sensor sits on a two-wire bus and is worked through sixteen-bit
//! registers. This crate holds the register map, the encodings of the
//! registers, and a device handle whose operations each put one register
//! access on the bus, or two where they read a pair of registers. The
//! handle owns its bus through the [`Transport`] trait, so it runs on any
//! bus that can write, and write then read.
//!
//! Temperatures are exchanged in degrees Celsius as single precision bit
//! patterns: see [`Celsius`].

pub mod address;
pub mod configuration;
pub mod device;
pub mod device_id;
pub mod fields;
pub mod register;
pub mod temperature;
pub mod transport;

pub use address::{Add0Connection, Address};
pub use configuration::Configuration;
pub use device::Tmp117;
pub use device_id::DeviceId;
pub use fields::{AlertMode, AlertSelect, Average, ConversionMode, Polarity};
pub use register::Register;
pub use temperature::Celsius;
pub use transport::{Transaction, Transport};
