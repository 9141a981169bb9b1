//! EV Driver Controls
//!
//! This module lets you emulate driver controls messages to, for example,
//! control a BMU or WaveSculptor. Each command is one data frame with a
//! standard identifier, the base identifier plus the command's offset, and
//! eight payload bytes.

use crate::bytes::{u32_be_bytes, u32_le_bytes, write_u32_be, write_u32_le};
use crate::frame::{
    broadcast_offset, frame_payload, frame_standard_id, new_standard_data_frame, STANDARD_ID_MAX,
};
use crate::ieee754::FloatBits;
use bxcan::Frame;
use vstd::prelude::*;

verus! {

/// Default base identifier value
pub const ID_BASE_DEFAULT: u16 = 0x500;

/// Offset of the motor drive command.
pub const ID_CMD_MOTOR_DRIVE: u16 = 0x01;

/// Offset of the motor power command.
pub const ID_CMD_MOTOR_POWER: u16 = 0x02;

/// Offset of the reset command.
pub const ID_CMD_RESET: u16 = 0x03;

/// Offset of the switch position message.
pub const ID_CMD_SWITCH_POSITION: u16 = 0x05;

/// First payload byte of the switch position message with the ignition at
/// run.
pub const SWITCH_RUN: u8 = 0x20;

/// First payload byte of the switch position message with the ignition at
/// start.
pub const SWITCH_START: u8 = 0x40;

/// Ignition position options
#[derive(Debug, Clone, Copy, PartialEq, Eq)]
pub enum IgnitionPosition {
    Run,
    Start,
}

/// EV Driver Controls
#[derive(Debug, Clone, Copy)]
pub struct DriverControls {
    base_id: u16,
}

/// Payload of the motor drive command: the velocity least significant byte
/// first, then the current most significant byte first. The two byte orders
/// differ, as the controller expects.
pub open spec fn motor_drive_payload(velocity_rpm: FloatBits, current_percent: FloatBits) -> Seq<
    u8,
> {
    u32_le_bytes(velocity_rpm.bits) + u32_be_bytes(current_percent.bits)
}

/// Payload of the motor power command: four zero bytes, then the bus current
/// least significant byte first.
pub open spec fn motor_power_payload(bus_current_percent: FloatBits) -> Seq<u8> {
    seq![0u8, 0u8, 0u8, 0u8] + u32_le_bytes(bus_current_percent.bits)
}

/// Payload of the reset command: eight zero bytes.
pub open spec fn reset_payload() -> Seq<u8> {
    seq![0u8, 0u8, 0u8, 0u8, 0u8, 0u8, 0u8, 0u8]
}

/// Payload of the switch position message: the position in the first byte,
/// zero in the others.
pub open spec fn switch_position_payload(position: IgnitionPosition) -> Seq<u8> {
    seq![
        match position {
            IgnitionPosition::Run => SWITCH_RUN,
            IgnitionPosition::Start => SWITCH_START,
        },
        0u8,
        0u8,
        0u8,
        0u8,
        0u8,
        0u8,
        0u8,
    ]
}

impl DriverControls {
    /// The base identifier that commands are offset from.
    pub closed spec fn base(&self) -> u16 {
        self.base_id
    }

    /// Whether the command at `offset` has a standard identifier.
    pub open spec fn can_send(&self, offset: u16) -> bool {
        self.base() + offset <= STANDARD_ID_MAX
    }

    /// Create a new driver controls instance.
    pub fn new(base_id: u16) -> (r: DriverControls)
        ensures
            r.base() == base_id,
    {
        Self { base_id }
    }

    /// The base identifier.
    pub fn base_id(&self) -> (r: u16)
        ensures
            r == self.base(),
    {
        self.base_id
    }

    /// Motor drive command
    pub fn motor_drive(self, velocity_rpm: FloatBits, current_percent: FloatBits) -> (r: Frame)
        requires
            self.can_send(ID_CMD_MOTOR_DRIVE),
        ensures
            frame_standard_id(r) == Some((self.base() + ID_CMD_MOTOR_DRIVE) as u16),
            broadcast_offset(self.base(), frame_standard_id(r)) == Some(ID_CMD_MOTOR_DRIVE),
            frame_payload(r) == Some(motor_drive_payload(velocity_rpm, current_percent)),
            frame_payload(r).unwrap().len() == 8,
    {
        let vel: [u8; 4] = write_u32_le(velocity_rpm.bits);
        let cur: [u8; 4] = write_u32_be(current_percent.bits);
        let data: [u8; 8] = [vel[0], vel[1], vel[2], vel[3], cur[0], cur[1], cur[2], cur[3]];
        assert(data@ =~= motor_drive_payload(velocity_rpm, current_percent));
        new_standard_data_frame(self.base_id + ID_CMD_MOTOR_DRIVE, data).unwrap()
    }

    /// Motor power command
    pub fn motor_power(self, bus_current_percent: FloatBits) -> (r: Frame)
        requires
            self.can_send(ID_CMD_MOTOR_POWER),
        ensures
            frame_standard_id(r) == Some((self.base() + ID_CMD_MOTOR_POWER) as u16),
            broadcast_offset(self.base(), frame_standard_id(r)) == Some(ID_CMD_MOTOR_POWER),
            frame_payload(r) == Some(motor_power_payload(bus_current_percent)),
            frame_payload(r).unwrap().len() == 8,
    {
        let bus: [u8; 4] = write_u32_le(bus_current_percent.bits);
        let data: [u8; 8] = [0, 0, 0, 0, bus[0], bus[1], bus[2], bus[3]];
        assert(data@ =~= motor_power_payload(bus_current_percent));
        new_standard_data_frame(self.base_id + ID_CMD_MOTOR_POWER, data).unwrap()
    }

    /// Reset WaveSculptor
    pub fn reset_wavesculptor(self) -> (r: Frame)
        requires
            self.can_send(ID_CMD_RESET),
        ensures
            frame_standard_id(r) == Some((self.base() + ID_CMD_RESET) as u16),
            broadcast_offset(self.base(), frame_standard_id(r)) == Some(ID_CMD_RESET),
            frame_payload(r) == Some(reset_payload()),
            frame_payload(r).unwrap().len() == 8,
    {
        let data: [u8; 8] = [0, 0, 0, 0, 0, 0, 0, 0];
        assert(data@ =~= reset_payload());
        new_standard_data_frame(self.base_id + ID_CMD_RESET, data).unwrap()
    }

    /// Form a switch position frame
    pub fn switch_position(self, ignition_position: IgnitionPosition) -> (r: Frame)
        requires
            self.can_send(ID_CMD_SWITCH_POSITION),
        ensures
            frame_standard_id(r) == Some((self.base() + ID_CMD_SWITCH_POSITION) as u16),
            broadcast_offset(self.base(), frame_standard_id(r)) == Some(ID_CMD_SWITCH_POSITION),
            frame_payload(r) == Some(switch_position_payload(ignition_position)),
            frame_payload(r).unwrap().len() == 8,
    {
        let position: u8 = match ignition_position {
            IgnitionPosition::Run => SWITCH_RUN,
            IgnitionPosition::Start => SWITCH_START,
        };
        // only the first byte is occupied
        let data: [u8; 8] = [position, 0, 0, 0, 0, 0, 0, 0];
        assert(data@ =~= switch_position_payload(ignition_position));
        new_standard_data_frame(self.base_id + ID_CMD_SWITCH_POSITION, data).unwrap()
    }
}

impl Default for DriverControls {
    /// Driver controls at the default base identifier.
    fn default() -> (r: DriverControls)
        ensures
            r.base() == ID_BASE_DEFAULT,
    {
        DriverControls::new(ID_BASE_DEFAULT)
    }
}

} // verus!
