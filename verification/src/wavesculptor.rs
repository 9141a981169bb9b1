//! WaveSculptor 22 and 200 motor controller.
//!
//! The controller broadcasts its measurements in a block of standard
//! identifiers that starts at a configurable base. `WaveSculptor` merges
//! those frames into a `Status` snapshot, one message at a time, and builds
//! the command that selects the active motor.

use crate::bytes::{le_u16, le_u32, read_u16_le, read_u32_le};
use crate::flags::{ErrorFlags, LimitFlags};
use crate::frame::{
    broadcast_offset, frame_payload, frame_standard_id, new_standard_data_frame, offset_from,
    payload_bytes, payload_of, standard_id_of, STANDARD_ID_MAX,
};
use crate::ieee754::{le_complex, le_float, read_complex_le, read_float_le, ComplexBits, FloatBits};
use bxcan::Frame;
use vstd::prelude::*;

verus! {

/// Offset of the identification message.
pub const ID_BROAD_ID: u16 = 0x00;

/// Offset of the status message.
pub const ID_BROAD_STATUS: u16 = 0x01;

/// Offset of the bus measurement message.
pub const ID_BROAD_BUS_MEAS: u16 = 0x02;

/// Offset of the velocity message.
pub const ID_BROAD_VELOCITY: u16 = 0x03;

/// Offset of the phase current message.
pub const ID_BROAD_PHASE_CURRENT: u16 = 0x04;

/// Offset of the motor voltage vector message.
pub const ID_BROAD_MOTOR_VOLTAGE: u16 = 0x05;

/// Offset of the motor current vector message.
pub const ID_BROAD_MOTOR_CURRENT: u16 = 0x06;

/// Offset of the back-EMF vector message.
pub const ID_BROAD_BACK_EMF: u16 = 0x07;

/// Offset of the 15 V rail message.
pub const ID_BROAD_RAIL_15V: u16 = 0x08;

/// Offset of the 3.3 V and 1.9 V rail message.
pub const ID_BROAD_RAIL_3V3_1V9: u16 = 0x09;

/// Offset of the heat-sink and motor temperature message.
pub const ID_BROAD_TEMP_HSINK_MOTOR: u16 = 0x0B;

/// Offset of the DSP board temperature message.
pub const ID_BROAD_TEMP_DSP: u16 = 0x0C;

/// Offset of the odometer and bus amp-hours message.
pub const ID_BROAD_ODOMETER: u16 = 0x0E;

/// Offset of the slip speed message.
pub const ID_BROAD_SLIP_SPEED: u16 = 0x17;

/// Offset of the active-motor-change command.
pub const ID_CMD_MOTOR_CHANGE: u16 = 0x12;

/// Default base identifier.
pub const ID_BASE: u16 = 0x600;

/// Highest motor profile that can be selected.
pub const MOTOR_MAX: u8 = 9;

/// What the controller has reported so far. A field is absent until a
/// message that carries it has been received, and afterwards holds what the
/// latest such message said.
#[derive(Debug, Clone, Copy, PartialEq, Eq)]
pub struct Status {
    /// Device serial number, allocated at manufacture
    pub serial_number: Option<u32>,
    /// Device identifier (Tritium ID or Prohelion ID)
    pub identifier: Option<u32>,
    /// CAN receive error count
    pub can_rx_error_count: Option<u8>,
    /// CAN transmit error count
    pub can_tx_error_count: Option<u8>,
    /// Active motor identifier
    pub active_motor: Option<u16>,
    /// Error flags; absent also while the latest status message had a
    /// reserved bit set in them
    pub error_flags: Option<ErrorFlags>,
    /// Limit flags; absent also while the latest status message had a
    /// reserved bit set in them
    pub limit_flags: Option<LimitFlags>,
    /// Bus current in amps
    pub bus_current: Option<FloatBits>,
    /// Bus voltage in volts
    pub bus_voltage: Option<FloatBits>,
    /// Vehicle velocity in meters/second
    pub vehicle_velocity: Option<FloatBits>,
    /// Motor velocity in RPM
    pub motor_velocity: Option<FloatBits>,
    /// Phase C current in amps RMS
    pub phase_c_current: Option<FloatBits>,
    /// Phase B current in amps RMS
    pub phase_b_current: Option<FloatBits>,
    /// Motor voltage vector in volts
    pub motor_voltage_vector: Option<ComplexBits>,
    /// Motor current vector in amps
    pub motor_current_vector: Option<ComplexBits>,
    /// Motor back-EMF vector in volts
    pub motor_back_emf_vector: Option<ComplexBits>,
    /// 15V rail measurement in volts
    pub rail_15v: Option<FloatBits>,
    /// 3.3V rail measurement in volts
    pub rail_3v3: Option<FloatBits>,
    /// 1.9V rail measurement in volts
    pub rail_1v9: Option<FloatBits>,
    /// Heat-sink temperature in degrees celsius
    pub heatsink_temperature: Option<FloatBits>,
    /// Motor temperature in degrees celsius
    pub motor_temperature: Option<FloatBits>,
    /// DSP board temperature in degrees celsius
    pub dsp_board_temperature: Option<FloatBits>,
    /// DC bus amp-hours measurement
    pub bus_amp_hours: Option<FloatBits>,
    /// Odometer (distance traveled since last reset) in meters.
    pub odometer: Option<FloatBits>,
    /// Slip speed measurement in Hz
    pub slip_speed: Option<FloatBits>,
}

/// Whether the controller broadcasts a message at `offset` that this
/// library decodes.
pub open spec fn is_broadcast(offset: u16) -> bool {
    ||| offset == ID_BROAD_ID
    ||| offset == ID_BROAD_STATUS
    ||| offset == ID_BROAD_BUS_MEAS
    ||| offset == ID_BROAD_VELOCITY
    ||| offset == ID_BROAD_PHASE_CURRENT
    ||| offset == ID_BROAD_MOTOR_VOLTAGE
    ||| offset == ID_BROAD_MOTOR_CURRENT
    ||| offset == ID_BROAD_BACK_EMF
    ||| offset == ID_BROAD_RAIL_15V
    ||| offset == ID_BROAD_RAIL_3V3_1V9
    ||| offset == ID_BROAD_TEMP_HSINK_MOTOR
    ||| offset == ID_BROAD_TEMP_DSP
    ||| offset == ID_BROAD_ODOMETER
    ||| offset == ID_BROAD_SLIP_SPEED
}

/// How many leading payload bytes the message at `offset` has fields in.
/// The DSP temperature message uses four, every other message eight, and an
/// offset without a message none.
pub open spec fn payload_len(offset: u16) -> nat {
    if offset == ID_BROAD_TEMP_DSP {
        4
    } else if is_broadcast(offset) {
        8
    } else {
        0
    }
}

/// Whether a frame with these parts, sent to a decoder with this base, has
/// every byte that its message's fields are read from. Frames that are
/// ignored anyway always do.
pub open spec fn complete(base: u16, id: Option<u16>, payload: Option<Seq<u8>>) -> bool {
    match (broadcast_offset(base, id), payload) {
        (Some(offset), Some(data)) => data.len() >= payload_len(offset),
        _ => true,
    }
}

impl Status {
    /// The snapshot before anything was received: every field absent.
    pub open spec fn empty() -> Status {
        Status {
            serial_number: None,
            identifier: None,
            can_rx_error_count: None,
            can_tx_error_count: None,
            active_motor: None,
            error_flags: None,
            limit_flags: None,
            bus_current: None,
            bus_voltage: None,
            vehicle_velocity: None,
            motor_velocity: None,
            phase_c_current: None,
            phase_b_current: None,
            motor_voltage_vector: None,
            motor_current_vector: None,
            motor_back_emf_vector: None,
            rail_15v: None,
            rail_3v3: None,
            rail_1v9: None,
            heatsink_temperature: None,
            motor_temperature: None,
            dsp_board_temperature: None,
            bus_amp_hours: None,
            odometer: None,
            slip_speed: None,
        }
    }

    /// The snapshot after the message at `offset` with payload `data` has
    /// been merged in: the fields of that message are overwritten, all
    /// others kept. An offset without a message changes nothing.
    pub open spec fn updated(self, offset: u16, data: Seq<u8>) -> Status {
        if offset == ID_BROAD_ID {
            Status { identifier: Some(le_u32(data, 0)), serial_number: Some(le_u32(data, 4)), ..self }
        } else if offset == ID_BROAD_STATUS {
            Status {
                can_rx_error_count: Some(data[0]),
                can_tx_error_count: Some(data[1]),
                active_motor: Some(le_u16(data, 2)),
                error_flags: ErrorFlags::parse(le_u16(data, 4)),
                limit_flags: LimitFlags::parse(le_u16(data, 6)),
                ..self
            }
        } else if offset == ID_BROAD_BUS_MEAS {
            Status {
                bus_voltage: Some(le_float(data, 0)),
                bus_current: Some(le_float(data, 4)),
                ..self
            }
        } else if offset == ID_BROAD_VELOCITY {
            Status {
                motor_velocity: Some(le_float(data, 0)),
                vehicle_velocity: Some(le_float(data, 4)),
                ..self
            }
        } else if offset == ID_BROAD_PHASE_CURRENT {
            Status {
                phase_b_current: Some(le_float(data, 0)),
                phase_c_current: Some(le_float(data, 4)),
                ..self
            }
        } else if offset == ID_BROAD_MOTOR_VOLTAGE {
            Status { motor_voltage_vector: Some(le_complex(data)), ..self }
        } else if offset == ID_BROAD_MOTOR_CURRENT {
            Status { motor_current_vector: Some(le_complex(data)), ..self }
        } else if offset == ID_BROAD_BACK_EMF {
            Status { motor_back_emf_vector: Some(le_complex(data)), ..self }
        } else if offset == ID_BROAD_RAIL_15V {
            Status { rail_15v: Some(le_float(data, 4)), ..self }
        } else if offset == ID_BROAD_RAIL_3V3_1V9 {
            Status { rail_1v9: Some(le_float(data, 0)), rail_3v3: Some(le_float(data, 4)), ..self }
        } else if offset == ID_BROAD_TEMP_HSINK_MOTOR {
            Status {
                motor_temperature: Some(le_float(data, 0)),
                heatsink_temperature: Some(le_float(data, 4)),
                ..self
            }
        } else if offset == ID_BROAD_TEMP_DSP {
            Status { dsp_board_temperature: Some(le_float(data, 0)), ..self }
        } else if offset == ID_BROAD_ODOMETER {
            Status {
                odometer: Some(le_float(data, 0)),
                bus_amp_hours: Some(le_float(data, 4)),
                ..self
            }
        } else if offset == ID_BROAD_SLIP_SPEED {
            Status { slip_speed: Some(le_float(data, 4)), ..self }
        } else {
            self
        }
    }

    /// The snapshot after a decoder with base identifier `base` has received
    /// a frame with these parts. Only a frame with a standard identifier at
    /// or above `base` and with a payload is looked at.
    pub open spec fn received(self, base: u16, id: Option<u16>, payload: Option<Seq<u8>>) -> Status {
        match (broadcast_offset(base, id), payload) {
            (Some(offset), Some(data)) => self.updated(offset, data),
            _ => self,
        }
    }

    /// Whether `self` and `other` agree on every field that the message at
    /// `offset` does not carry.
    pub open spec fn same_outside(self, other: Status, offset: u16) -> bool {
        &&& offset != ID_BROAD_ID ==> {
            &&& other.identifier == self.identifier
            &&& other.serial_number == self.serial_number
        }
        &&& offset != ID_BROAD_STATUS ==> {
            &&& other.can_rx_error_count == self.can_rx_error_count
            &&& other.can_tx_error_count == self.can_tx_error_count
            &&& other.active_motor == self.active_motor
            &&& other.error_flags == self.error_flags
            &&& other.limit_flags == self.limit_flags
        }
        &&& offset != ID_BROAD_BUS_MEAS ==> {
            &&& other.bus_voltage == self.bus_voltage
            &&& other.bus_current == self.bus_current
        }
        &&& offset != ID_BROAD_VELOCITY ==> {
            &&& other.motor_velocity == self.motor_velocity
            &&& other.vehicle_velocity == self.vehicle_velocity
        }
        &&& offset != ID_BROAD_PHASE_CURRENT ==> {
            &&& other.phase_b_current == self.phase_b_current
            &&& other.phase_c_current == self.phase_c_current
        }
        &&& offset != ID_BROAD_MOTOR_VOLTAGE ==> other.motor_voltage_vector
            == self.motor_voltage_vector
        &&& offset != ID_BROAD_MOTOR_CURRENT ==> other.motor_current_vector
            == self.motor_current_vector
        &&& offset != ID_BROAD_BACK_EMF ==> other.motor_back_emf_vector
            == self.motor_back_emf_vector
        &&& offset != ID_BROAD_RAIL_15V ==> other.rail_15v == self.rail_15v
        &&& offset != ID_BROAD_RAIL_3V3_1V9 ==> {
            &&& other.rail_1v9 == self.rail_1v9
            &&& other.rail_3v3 == self.rail_3v3
        }
        &&& offset != ID_BROAD_TEMP_HSINK_MOTOR ==> {
            &&& other.motor_temperature == self.motor_temperature
            &&& other.heatsink_temperature == self.heatsink_temperature
        }
        &&& offset != ID_BROAD_TEMP_DSP ==> other.dsp_board_temperature
            == self.dsp_board_temperature
        &&& offset != ID_BROAD_ODOMETER ==> {
            &&& other.odometer == self.odometer
            &&& other.bus_amp_hours == self.bus_amp_hours
        }
        &&& offset != ID_BROAD_SLIP_SPEED ==> other.slip_speed == self.slip_speed
    }

    /// A message changes no field but its own.
    pub proof fn lemma_updated_keeps_other_fields(self, offset: u16, data: Seq<u8>)
        ensures
            self.same_outside(self.updated(offset, data), offset),
    {
    }

    /// An offset at which the controller broadcasts nothing changes nothing.
    pub proof fn lemma_updated_ignores_unknown_offset(self, offset: u16, data: Seq<u8>)
        requires
            !is_broadcast(offset),
        ensures
            self.updated(offset, data) == self,
    {
    }

    /// Merges the message at `offset` into the snapshot.
    pub fn update(&mut self, offset: u16, data: &[u8])
        requires
            data@.len() >= payload_len(offset),
        ensures
            *final(self) == old(self).updated(offset, data@),
            old(self).same_outside(*final(self), offset),
            !is_broadcast(offset) ==> *final(self) == *old(self),
    {
        if offset == ID_BROAD_ID {
            self.identifier = Some(read_u32_le(data, 0));
            self.serial_number = Some(read_u32_le(data, 4));
        } else if offset == ID_BROAD_STATUS {
            self.can_rx_error_count = Some(data[0]);
            self.can_tx_error_count = Some(data[1]);
            self.active_motor = Some(read_u16_le(data, 2));
            self.error_flags = ErrorFlags::from_bits(read_u16_le(data, 4));
            self.limit_flags = LimitFlags::from_bits(read_u16_le(data, 6));
        } else if offset == ID_BROAD_BUS_MEAS {
            self.bus_voltage = Some(read_float_le(data, 0));
            self.bus_current = Some(read_float_le(data, 4));
        } else if offset == ID_BROAD_VELOCITY {
            self.motor_velocity = Some(read_float_le(data, 0));
            self.vehicle_velocity = Some(read_float_le(data, 4));
        } else if offset == ID_BROAD_PHASE_CURRENT {
            self.phase_b_current = Some(read_float_le(data, 0));
            self.phase_c_current = Some(read_float_le(data, 4));
        } else if offset == ID_BROAD_MOTOR_VOLTAGE {
            self.motor_voltage_vector = Some(read_complex_le(data));
        } else if offset == ID_BROAD_MOTOR_CURRENT {
            self.motor_current_vector = Some(read_complex_le(data));
        } else if offset == ID_BROAD_BACK_EMF {
            self.motor_back_emf_vector = Some(read_complex_le(data));
        } else if offset == ID_BROAD_RAIL_15V {
            self.rail_15v = Some(read_float_le(data, 4));
        } else if offset == ID_BROAD_RAIL_3V3_1V9 {
            self.rail_1v9 = Some(read_float_le(data, 0));
            self.rail_3v3 = Some(read_float_le(data, 4));
        } else if offset == ID_BROAD_TEMP_HSINK_MOTOR {
            self.motor_temperature = Some(read_float_le(data, 0));
            self.heatsink_temperature = Some(read_float_le(data, 4));
        } else if offset == ID_BROAD_TEMP_DSP {
            self.dsp_board_temperature = Some(read_float_le(data, 0));
        } else if offset == ID_BROAD_ODOMETER {
            self.odometer = Some(read_float_le(data, 0));
            self.bus_amp_hours = Some(read_float_le(data, 4));
        } else if offset == ID_BROAD_SLIP_SPEED {
            self.slip_speed = Some(read_float_le(data, 4));
        }
    }
}

impl Default for Status {
    fn default() -> (r: Status)
        ensures
            r == Status::empty(),
    {
        Status {
            serial_number: None,
            identifier: None,
            can_rx_error_count: None,
            can_tx_error_count: None,
            active_motor: None,
            error_flags: None,
            limit_flags: None,
            bus_current: None,
            bus_voltage: None,
            vehicle_velocity: None,
            motor_velocity: None,
            phase_c_current: None,
            phase_b_current: None,
            motor_voltage_vector: None,
            motor_current_vector: None,
            motor_back_emf_vector: None,
            rail_15v: None,
            rail_3v3: None,
            rail_1v9: None,
            heatsink_temperature: None,
            motor_temperature: None,
            dsp_board_temperature: None,
            bus_amp_hours: None,
            odometer: None,
            slip_speed: None,
        }
    }
}

/// Decoder for the broadcasts of one WaveSculptor, and encoder for the
/// command that selects its active motor.
///
/// The decoder owns the snapshot. Nothing but `receive`, `receive_parts` and
/// `try_receive` changes it.
#[derive(Debug, Clone, Copy)]
pub struct WaveSculptor {
    base_id: u16,
    status: Status,
}

/// The payload of the active-motor-change command: a reserved zero byte,
/// the motor, and the letters `ACTMOT`.
pub open spec fn motor_change_payload(motor: u8) -> Seq<u8> {
    seq![0u8, motor, 0x41u8, 0x43u8, 0x54u8, 0x4Du8, 0x4Fu8, 0x54u8]
}

impl WaveSculptor {
    /// The base identifier that the decoder was made for.
    pub closed spec fn base(&self) -> u16 {
        self.base_id
    }

    /// The snapshot that the decoder holds.
    pub closed spec fn snapshot(&self) -> Status {
        self.status
    }

    /// Whether `next` is this decoder after it has received a frame with
    /// these parts: the same base, and the snapshot with the frame merged in.
    pub open spec fn steps_to(
        &self,
        id: Option<u16>,
        payload: Option<Seq<u8>>,
        next: WaveSculptor,
    ) -> bool {
        &&& next.base() == self.base()
        &&& next.snapshot() == self.snapshot().received(self.base(), id, payload)
    }

    /// Create a new WaveSculptor instance with an empty snapshot.
    pub fn new(base_id: u16) -> (r: WaveSculptor)
        ensures
            r.base() == base_id,
            r.snapshot() == Status::empty(),
    {
        WaveSculptor { base_id, status: Status::default() }
    }

    /// Get the current status state of the device.
    pub fn status(self) -> (r: Status)
        ensures
            r == self.snapshot(),
    {
        self.status
    }

    /// The base identifier of the device.
    pub fn base_id(&self) -> (r: u16)
        ensures
            r == self.base(),
    {
        self.base_id
    }

    /// Receives a frame given by its parts: the standard identifier, absent
    /// for an extended one, and the payload, absent for a remote frame.
    ///
    /// A frame with an extended identifier, with an identifier below the
    /// base, without a payload, or at an offset where the controller
    /// broadcasts nothing is ignored. Otherwise the fields of the message at
    /// that offset are overwritten with what the payload holds.
    pub fn receive_parts(
        &mut self,
        id: Option<u16>,
        payload: Option<&[u8]>,
    ) -> (r: Result<(), &'static str>)
        requires
            complete(old(self).base(), id, payload_bytes(payload)),
        ensures
            r is Ok,
            old(self).steps_to(id, payload_bytes(payload), *final(self)),
            id is None ==> final(self).snapshot() == old(self).snapshot(),
            id matches Some(raw) && raw < old(self).base()
                ==> final(self).snapshot() == old(self).snapshot(),
            payload is None ==> final(self).snapshot() == old(self).snapshot(),
            broadcast_offset(old(self).base(), id) matches Some(offset) ==> {
                &&& !is_broadcast(offset) ==> final(self).snapshot() == old(self).snapshot()
                &&& old(self).snapshot().same_outside(final(self).snapshot(), offset)
            },
    {
        match offset_from(self.base_id, id) {
            Some(offset) => {
                match payload {
                    Some(data) => {
                        self.status.update(offset, data);
                    },
                    None => {},
                }
            },
            None => {},
        }
        Ok(())
    }

    /// Receives a frame.
    ///
    /// The frame must carry every byte that the fields of its message are
    /// read from; `try_receive` takes any frame. What happens to the
    /// snapshot is what `receive_parts` does with the frame's standard
    /// identifier and payload.
    pub fn receive(&mut self, frame: Frame) -> (r: Result<(), &'static str>)
        requires
            complete(old(self).base(), frame_standard_id(frame), frame_payload(frame)),
        ensures
            r is Ok,
            old(self).steps_to(frame_standard_id(frame), frame_payload(frame), *final(self)),
            frame_standard_id(frame) is None ==> final(self).snapshot() == old(self).snapshot(),
            frame_standard_id(frame) matches Some(raw) && raw < old(self).base()
                ==> final(self).snapshot() == old(self).snapshot(),
            frame_payload(frame) is None ==> final(self).snapshot() == old(self).snapshot(),
            broadcast_offset(old(self).base(), frame_standard_id(frame)) matches Some(offset) ==> {
                &&& !is_broadcast(offset) ==> final(self).snapshot() == old(self).snapshot()
                &&& old(self).snapshot().same_outside(final(self).snapshot(), offset)
            },
    {
        let id: Option<u16> = standard_id_of(&frame);
        let payload: Option<&[u8]> = payload_of(&frame);
        self.receive_parts(id, payload)
    }

    /// Receives a frame if it is complete, and refuses it otherwise.
    ///
    /// A frame that lacks a byte of its message's fields leaves the snapshot
    /// as it was and is reported as an error. Every other frame is received
    /// as `receive` does.
    pub fn try_receive(&mut self, frame: Frame) -> (r: Result<(), &'static str>)
        ensures
            r is Ok <==> complete(old(self).base(), frame_standard_id(frame), frame_payload(frame)),
            r is Ok ==> old(self).steps_to(
                frame_standard_id(frame),
                frame_payload(frame),
                *final(self),
            ),
            r is Err ==> *final(self) == *old(self),
    {
        let id: Option<u16> = standard_id_of(&frame);
        let payload: Option<&[u8]> = payload_of(&frame);
        if is_complete(self.base_id, id, payload) {
            self.receive(frame)
        } else {
            Err("payload is shorter than the fields of its message")
        }
    }

    /// Change the active motor profile.
    ///
    /// `motor` must be between 0 and 9 (inclusive), and the command's
    /// identifier, the base plus `0x12`, must be a standard identifier.
    pub fn active_motor_change(self, motor: u8) -> (r: Frame)
        requires
            motor <= MOTOR_MAX,
            self.base() + ID_CMD_MOTOR_CHANGE <= STANDARD_ID_MAX,
        ensures
            frame_standard_id(r) == Some((self.base() + ID_CMD_MOTOR_CHANGE) as u16),
            broadcast_offset(self.base(), frame_standard_id(r)) == Some(ID_CMD_MOTOR_CHANGE),
            frame_payload(r) == Some(motor_change_payload(motor)),
            frame_payload(r).unwrap().len() == 8,
    {
        let id: u16 = self.base_id + ID_CMD_MOTOR_CHANGE;
        let data: [u8; 8] = [0, motor, 0x41, 0x43, 0x54, 0x4D, 0x4F, 0x54];
        assert(data@ =~= motor_change_payload(motor));
        new_standard_data_frame(id, data).unwrap()
    }
}

impl Default for WaveSculptor {
    /// A decoder at the default base identifier, with an empty snapshot.
    fn default() -> (r: WaveSculptor)
        ensures
            r.base() == ID_BASE,
            r.snapshot() == Status::empty(),
    {
        WaveSculptor::new(ID_BASE)
    }
}

/// Tests whether a frame with these parts is complete for a decoder with
/// base identifier `base`.
pub fn is_complete(base: u16, id: Option<u16>, payload: Option<&[u8]>) -> (r: bool)
    ensures
        r == complete(base, id, payload_bytes(payload)),
{
    match offset_from(base, id) {
        Some(offset) => {
            match payload {
                Some(data) => data.len() >= needed_len(offset),
                None => true,
            }
        },
        None => true,
    }
}

/// Computes `payload_len`.
pub fn needed_len(offset: u16) -> (r: usize)
    ensures
        r == payload_len(offset),
{
    if offset == ID_BROAD_TEMP_DSP {
        4
    } else if offset <= ID_BROAD_RAIL_3V3_1V9 || offset == ID_BROAD_TEMP_HSINK_MOTOR || offset
        == ID_BROAD_ODOMETER || offset == ID_BROAD_SLIP_SPEED {
        8
    } else {
        0
    }
}

/// Whether `states` is what a decoder goes through while it receives
/// `frames` in order: one state before the first frame and one after each.
pub open spec fn is_run(states: Seq<WaveSculptor>, frames: Seq<Frame>) -> bool {
    &&& states.len() == frames.len() + 1
    &&& forall|i: int|
        0 <= i < frames.len() ==> (#[trigger] states[i]).steps_to(
            frame_standard_id(frames[i]),
            frame_payload(frames[i]),
            states[i + 1],
        )
}

/// Decoding is deterministic. Two decoders with the same base identifier
/// that start with the same snapshot, as two new ones do, and receive the
/// same frames in the same order hold the same snapshot after each frame.
pub proof fn lemma_decoding_is_deterministic(
    a: Seq<WaveSculptor>,
    b: Seq<WaveSculptor>,
    frames: Seq<Frame>,
    k: int,
)
    requires
        is_run(a, frames),
        is_run(b, frames),
        a[0].base() == b[0].base(),
        a[0].snapshot() == b[0].snapshot(),
        0 <= k <= frames.len(),
    ensures
        a[k].base() == b[k].base(),
        a[k].snapshot() == b[k].snapshot(),
    decreases k,
{
    if k > 0 {
        lemma_decoding_is_deterministic(a, b, frames, k - 1);
    }
}

} // verus!
