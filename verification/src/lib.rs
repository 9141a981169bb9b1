//! Codec for the CAN messages of an electric-vehicle powertrain: a battery
//! management unit, a WaveSculptor motor controller and the driver controls
//! that command them.
//!
//! Decoders merge broadcast frames into a status snapshot; encoders build
//! command frames. Every byte offset and byte order is stated in a contract.

pub mod bms;
pub mod bytes;
pub mod driver_controls;
pub mod flags;
pub mod frame;
pub mod ieee754;
pub mod wavesculptor;
