//! Battery management unit.
//!
//! The unit broadcasts the state of the pack in a block of standard
//! identifiers that starts at a configurable base. `Bmu` merges those frames
//! into a `Status` snapshot, one message at a time.
//!
//! Five messages are decoded: heartbeat, state of charge, balance state of
//! charge, charger control and precharge. The unit broadcasts more than
//! those: per-CMU measurements, the extreme cells, pack voltage and current,
//! pack and fan status. Their offsets are named here and the snapshot has
//! fields for most of what they report, but their frames are ignored like
//! any other frame without a decoder, so those fields stay absent.

use crate::bytes::{le_u16, le_u32, read_u16_le, read_u32_le};
use crate::flags::ContactorDriverStatus;
use crate::frame::{
    broadcast_offset, frame_payload, frame_standard_id, offset_from, payload_bytes, payload_of,
    standard_id_of,
};
use crate::ieee754::{le_float, read_float_le, FloatBits};
use bxcan::Frame;
use vstd::prelude::*;

verus! {

/// Offset of the heartbeat message.
pub const ID_BROAD_HEARTBEAT: u16 = 0x00;

/// Offset of the first per-CMU status message.
pub const ID_BROAD_CMU_STATUS: u16 = 0x01;

/// Offset of the state-of-charge message.
pub const ID_BROAD_SOC: u16 = 0xF4;

/// Offset of the balance state-of-charge message.
pub const ID_BROAD_BALANCE_SOC: u16 = 0xF5;

/// Offset of the charger control message.
pub const ID_BROAD_CHG_CTL: u16 = 0xF6;

/// Offset of the precharge message.
pub const ID_BROAD_PRECHARGE: u16 = 0xF7;

/// Offset of the minimum and maximum cell voltage message.
pub const ID_BROAD_MIN_MAX_CELL_VOLT: u16 = 0xF8;

/// Offset of the minimum and maximum cell temperature message.
pub const ID_BROAD_MIN_MAX_CELL_TEMP: u16 = 0xF9;

/// Offset of the pack voltage and current message.
pub const ID_BROAD_VOLT_CURR: u16 = 0xFA;

/// Offset of the pack status message.
pub const ID_BROAD_STATUS: u16 = 0xFB;

/// Offset of the fan status message.
pub const ID_BROAD_FAN_STATUS: u16 = 0xFC;

/// Offset of the extended pack status message.
pub const ID_BROAD_STATUS_EXT: u16 = 0xFD;

/// Measurements of one cell management unit.
#[derive(Debug, Clone, Copy, PartialEq, Eq)]
pub struct CmuStatus {
    pub serial_number: u32,
    pub pcb_temperature: u16,
    pub cell_temperature: u16,
    pub cell_voltage: [i16; 8],
}

/// Precharge state
#[derive(Debug, Clone, Copy, PartialEq, Eq)]
pub enum PrechargeState {
    Error,
    Idle,
    Measure,
    Precharge,
    Run,
    EnablePack,
}

/// A cell, named by its cell management unit and its number there.
#[derive(Debug, Clone, Copy, PartialEq, Eq)]
pub struct Cell {
    pub cmu: u8,
    pub number: u8,
}

/// A cell and its voltage.
#[derive(Debug, Clone, Copy, PartialEq, Eq)]
pub struct CellWithVoltage {
    pub cell: Cell,
    pub voltage: u16,
}

/// A cell and its temperature.
#[derive(Debug, Clone, Copy, PartialEq, Eq)]
pub struct CellWithTemperature {
    pub cell: Cell,
    pub temperature: u16,
}

/// What the unit has reported so far. A field is absent until a message
/// that carries it has been received, and afterwards holds what the latest
/// such message said.
#[derive(Debug, Clone, Copy, PartialEq, Eq)]
pub struct Status {
    pub device_identifier: Option<u32>,
    pub device_serial_number: Option<u32>,
    /// Carried by a message that is not decoded: always absent.
    pub cmu_status: [Option<CmuStatus>; 8],
    pub soc_amp_hours: Option<FloatBits>,
    pub soc_percent: Option<FloatBits>,
    pub balance_soc_amp_hours: Option<FloatBits>,
    pub balance_soc_percent: Option<FloatBits>,
    pub charging_cell_voltage_error: Option<u16>,
    pub cell_temperature_margin: Option<u16>,
    /// Holds the last two bytes of the charger control message; see
    /// `Status::updated`.
    pub discharging_cell_voltage_error: Option<u16>,
    /// No message is decoded into this field: always absent.
    pub total_pack_capacity: Option<u16>,
    /// Absent also while the latest precharge message had the reserved bit
    /// set in its first byte.
    pub contactor_driver_status: Option<ContactorDriverStatus>,
    /// Absent also while the latest precharge message named no state.
    pub precharge_state: Option<PrechargeState>,
    pub contactor_supply_voltage: Option<u16>,
    pub precharge_timer_elapsed: Option<bool>,
    pub precharge_timer_counter: Option<u8>,
    /// Carried by a message that is not decoded: always absent.
    pub minimum_voltage_cell: Option<CellWithVoltage>,
    /// Carried by a message that is not decoded: always absent.
    pub maximum_voltage_cell: Option<CellWithVoltage>,
    /// Carried by a message that is not decoded: always absent.
    pub minimum_temperature_cell: Option<CellWithTemperature>,
    /// Carried by a message that is not decoded: always absent.
    pub maximum_temperature_cell: Option<CellWithTemperature>,
    /// Carried by a message that is not decoded: always absent.
    pub pack_voltage_mv: Option<u32>,
    /// Carried by a message that is not decoded: always absent.
    pub pack_current_ma: Option<u32>,
}

impl PrechargeState {
    /// The state that a byte of the precharge message names: 0 is `Error`,
    /// 1 `Idle`, 2 `Measure`, 3 `Precharge`, 4 `Run` and 5 `EnablePack`. No
    /// other byte names a state.
    pub open spec fn of_u8(value: u8) -> Option<PrechargeState> {
        if value == 0 {
            Some(PrechargeState::Error)
        } else if value == 1 {
            Some(PrechargeState::Idle)
        } else if value == 2 {
            Some(PrechargeState::Measure)
        } else if value == 3 {
            Some(PrechargeState::Precharge)
        } else if value == 4 {
            Some(PrechargeState::Run)
        } else if value == 5 {
            Some(PrechargeState::EnablePack)
        } else {
            None
        }
    }

    /// Reads a state from its byte.
    pub fn from_u8(value: u8) -> (r: Option<PrechargeState>)
        ensures
            r == Self::of_u8(value),
            r is Some <==> value <= 5,
    {
        match value {
            0 => Some(PrechargeState::Error),
            1 => Some(PrechargeState::Idle),
            5 => Some(PrechargeState::EnablePack),
            2 => Some(PrechargeState::Measure),
            3 => Some(PrechargeState::Precharge),
            4 => Some(PrechargeState::Run),
            _ => None,
        }
    }
}

/// Whether the unit broadcasts a message at `offset` that this library
/// decodes.
pub open spec fn is_broadcast(offset: u16) -> bool {
    ||| offset == ID_BROAD_HEARTBEAT
    ||| offset == ID_BROAD_SOC
    ||| offset == ID_BROAD_BALANCE_SOC
    ||| offset == ID_BROAD_CHG_CTL
    ||| offset == ID_BROAD_PRECHARGE
}

/// How many leading payload bytes the message at `offset` has fields in:
/// eight for every message, and none for an offset without one.
pub open spec fn payload_len(offset: u16) -> nat {
    if is_broadcast(offset) {
        8
    } else {
        0
    }
}

/// Whether a frame with these parts, sent to a decoder with this base, has
/// every byte that its message's fields are read from. Frames that are
/// ignored anyway always do.
pub open spec fn complete(base: u16, id: Option<u16>, payload: Option<Seq<u8>>) -> bool {
    match (broadcast_offset(base, id), payload) {
        (Some(offset), Some(data)) => data.len() >= payload_len(offset),
        _ => true,
    }
}

impl Status {
    /// The snapshot before anything was received: every field absent.
    pub open spec fn empty() -> Status {
        Status {
            device_identifier: None,
            device_serial_number: None,
            cmu_status: [None, None, None, None, None, None, None, None],
            soc_amp_hours: None,
            soc_percent: None,
            balance_soc_amp_hours: None,
            balance_soc_percent: None,
            charging_cell_voltage_error: None,
            cell_temperature_margin: None,
            discharging_cell_voltage_error: None,
            total_pack_capacity: None,
            contactor_driver_status: None,
            precharge_state: None,
            contactor_supply_voltage: None,
            precharge_timer_elapsed: None,
            precharge_timer_counter: None,
            minimum_voltage_cell: None,
            maximum_voltage_cell: None,
            minimum_temperature_cell: None,
            maximum_temperature_cell: None,
            pack_voltage_mv: None,
            pack_current_ma: None,
        }
    }

    /// The snapshot after the message at `offset` with payload `data` has
    /// been merged in: the fields of that message are overwritten, all
    /// others kept. An offset without a message changes nothing.
    ///
    /// The charger control message holds four 16-bit values. The first two
    /// are stored under their names; the third, at bytes 4 and 5, is not
    /// kept; the fourth, at bytes 6 and 7, is stored as
    /// `discharging_cell_voltage_error`.
    pub open spec fn updated(self, offset: u16, data: Seq<u8>) -> Status {
        if offset == ID_BROAD_HEARTBEAT {
            Status {
                device_identifier: Some(le_u32(data, 0)),
                device_serial_number: Some(le_u32(data, 4)),
                ..self
            }
        } else if offset == ID_BROAD_SOC {
            Status {
                soc_amp_hours: Some(le_float(data, 0)),
                soc_percent: Some(le_float(data, 4)),
                ..self
            }
        } else if offset == ID_BROAD_BALANCE_SOC {
            Status {
                balance_soc_amp_hours: Some(le_float(data, 0)),
                balance_soc_percent: Some(le_float(data, 4)),
                ..self
            }
        } else if offset == ID_BROAD_CHG_CTL {
            Status {
                charging_cell_voltage_error: Some(le_u16(data, 0)),
                cell_temperature_margin: Some(le_u16(data, 2)),
                discharging_cell_voltage_error: Some(le_u16(data, 6)),
                ..self
            }
        } else if offset == ID_BROAD_PRECHARGE {
            Status {
                contactor_driver_status: ContactorDriverStatus::parse(data[0]),
                precharge_state: PrechargeState::of_u8(data[1]),
                contactor_supply_voltage: Some(le_u16(data, 2)),
                precharge_timer_elapsed: Some(data[6] == 1),
                precharge_timer_counter: Some(data[7]),
                ..self
            }
        } else {
            self
        }
    }

    /// The snapshot after a decoder with base identifier `base` has received
    /// a frame with these parts. Only a frame with a standard identifier at
    /// or above `base` and with a payload is looked at.
    pub open spec fn received(self, base: u16, id: Option<u16>, payload: Option<Seq<u8>>) -> Status {
        match (broadcast_offset(base, id), payload) {
            (Some(offset), Some(data)) => self.updated(offset, data),
            _ => self,
        }
    }

    /// Whether `self` and `other` agree on every field that the message at
    /// `offset` does not carry.
    pub open spec fn same_outside(self, other: Status, offset: u16) -> bool {
        &&& offset != ID_BROAD_HEARTBEAT ==> {
            &&& other.device_identifier == self.device_identifier
            &&& other.device_serial_number == self.device_serial_number
        }
        &&& offset != ID_BROAD_SOC ==> {
            &&& other.soc_amp_hours == self.soc_amp_hours
            &&& other.soc_percent == self.soc_percent
        }
        &&& offset != ID_BROAD_BALANCE_SOC ==> {
            &&& other.balance_soc_amp_hours == self.balance_soc_amp_hours
            &&& other.balance_soc_percent == self.balance_soc_percent
        }
        &&& offset != ID_BROAD_CHG_CTL ==> {
            &&& other.charging_cell_voltage_error == self.charging_cell_voltage_error
            &&& other.cell_temperature_margin == self.cell_temperature_margin
            &&& other.discharging_cell_voltage_error == self.discharging_cell_voltage_error
        }
        &&& offset != ID_BROAD_PRECHARGE ==> {
            &&& other.contactor_driver_status == self.contactor_driver_status
            &&& other.precharge_state == self.precharge_state
            &&& other.contactor_supply_voltage == self.contactor_supply_voltage
            &&& other.precharge_timer_elapsed == self.precharge_timer_elapsed
            &&& other.precharge_timer_counter == self.precharge_timer_counter
        }
        &&& other.cmu_status == self.cmu_status
        &&& other.total_pack_capacity == self.total_pack_capacity
        &&& other.minimum_voltage_cell == self.minimum_voltage_cell
        &&& other.maximum_voltage_cell == self.maximum_voltage_cell
        &&& other.minimum_temperature_cell == self.minimum_temperature_cell
        &&& other.maximum_temperature_cell == self.maximum_temperature_cell
        &&& other.pack_voltage_mv == self.pack_voltage_mv
        &&& other.pack_current_ma == self.pack_current_ma
    }

    /// A message changes no field but its own.
    pub proof fn lemma_updated_keeps_other_fields(self, offset: u16, data: Seq<u8>)
        ensures
            self.same_outside(self.updated(offset, data), offset),
    {
    }

    /// An offset at which the unit broadcasts nothing that is decoded
    /// changes nothing.
    pub proof fn lemma_updated_ignores_unknown_offset(self, offset: u16, data: Seq<u8>)
        requires
            !is_broadcast(offset),
        ensures
            self.updated(offset, data) == self,
    {
    }

    /// Merges the message at `offset` into the snapshot.
    pub fn update(&mut self, offset: u16, data: &[u8])
        requires
            data@.len() >= payload_len(offset),
        ensures
            *final(self) == old(self).updated(offset, data@),
            old(self).same_outside(*final(self), offset),
            !is_broadcast(offset) ==> *final(self) == *old(self),
    {
        if offset == ID_BROAD_HEARTBEAT {
            self.device_identifier = Some(read_u32_le(data, 0));
            self.device_serial_number = Some(read_u32_le(data, 4));
        } else if offset == ID_BROAD_SOC {
            self.soc_amp_hours = Some(read_float_le(data, 0));
            self.soc_percent = Some(read_float_le(data, 4));
        } else if offset == ID_BROAD_BALANCE_SOC {
            self.balance_soc_amp_hours = Some(read_float_le(data, 0));
            self.balance_soc_percent = Some(read_float_le(data, 4));
        } else if offset == ID_BROAD_CHG_CTL {
            self.charging_cell_voltage_error = Some(read_u16_le(data, 0));
            self.cell_temperature_margin = Some(read_u16_le(data, 2));
            self.discharging_cell_voltage_error = Some(read_u16_le(data, 6));
        } else if offset == ID_BROAD_PRECHARGE {
            self.contactor_driver_status = ContactorDriverStatus::from_bits(data[0]);
            self.precharge_state = PrechargeState::from_u8(data[1]);
            self.contactor_supply_voltage = Some(read_u16_le(data, 2));
            self.precharge_timer_elapsed = Some(data[6] == 1);
            self.precharge_timer_counter = Some(data[7]);
        }
    }
}

impl Default for Status {
    fn default() -> (r: Status)
        ensures
            r == Status::empty(),
    {
        Status {
            device_identifier: None,
            device_serial_number: None,
            cmu_status: [None, None, None, None, None, None, None, None],
            soc_amp_hours: None,
            soc_percent: None,
            balance_soc_amp_hours: None,
            balance_soc_percent: None,
            charging_cell_voltage_error: None,
            cell_temperature_margin: None,
            discharging_cell_voltage_error: None,
            total_pack_capacity: None,
            contactor_driver_status: None,
            precharge_state: None,
            contactor_supply_voltage: None,
            precharge_timer_elapsed: None,
            precharge_timer_counter: None,
            minimum_voltage_cell: None,
            maximum_voltage_cell: None,
            minimum_temperature_cell: None,
            maximum_temperature_cell: None,
            pack_voltage_mv: None,
            pack_current_ma: None,
        }
    }
}

/// Decoder for the broadcasts of one battery management unit.
///
/// The decoder owns the snapshot. Nothing but `receive`, `receive_parts` and
/// `try_receive` changes it.
#[derive(Debug, Clone, Copy)]
pub struct Bmu {
    base_id: u16,
    status: Status,
}

impl Bmu {
    /// The base identifier that the decoder was made for.
    pub closed spec fn base(&self) -> u16 {
        self.base_id
    }

    /// The snapshot that the decoder holds.
    pub closed spec fn snapshot(&self) -> Status {
        self.status
    }

    /// Whether `next` is this decoder after it has received a frame with
    /// these parts: the same base, and the snapshot with the frame merged in.
    pub open spec fn steps_to(&self, id: Option<u16>, payload: Option<Seq<u8>>, next: Bmu) -> bool {
        &&& next.base() == self.base()
        &&& next.snapshot() == self.snapshot().received(self.base(), id, payload)
    }

    /// Creates a decoder with an empty snapshot.
    pub fn new(base_id: u16) -> (r: Bmu)
        ensures
            r.base() == base_id,
            r.snapshot() == Status::empty(),
    {
        Bmu { base_id, status: Status::default() }
    }

    /// The snapshot as it stands.
    pub fn status(self) -> (r: Status)
        ensures
            r == self.snapshot(),
    {
        self.status
    }

    /// The base identifier of the unit.
    pub fn base_id(&self) -> (r: u16)
        ensures
            r == self.base(),
    {
        self.base_id
    }

    /// Receives a frame given by its parts: the standard identifier, absent
    /// for an extended one, and the payload, absent for a remote frame.
    ///
    /// A frame with an extended identifier, with an identifier below the
    /// base, without a payload, or at an offset without a decoded message is
    /// ignored. Otherwise the fields of the message at that offset are
    /// overwritten with what the payload holds.
    pub fn receive_parts(
        &mut self,
        id: Option<u16>,
        payload: Option<&[u8]>,
    ) -> (r: Result<(), &'static str>)
        requires
            complete(old(self).base(), id, payload_bytes(payload)),
        ensures
            r is Ok,
            old(self).steps_to(id, payload_bytes(payload), *final(self)),
            id is None ==> final(self).snapshot() == old(self).snapshot(),
            id matches Some(raw) && raw < old(self).base()
                ==> final(self).snapshot() == old(self).snapshot(),
            payload is None ==> final(self).snapshot() == old(self).snapshot(),
            broadcast_offset(old(self).base(), id) matches Some(offset) ==> {
                &&& !is_broadcast(offset) ==> final(self).snapshot() == old(self).snapshot()
                &&& old(self).snapshot().same_outside(final(self).snapshot(), offset)
            },
    {
        match offset_from(self.base_id, id) {
            Some(offset) => {
                match payload {
                    Some(data) => {
                        self.status.update(offset, data);
                    },
                    None => {},
                }
            },
            None => {},
        }
        Ok(())
    }

    /// Receives a frame.
    ///
    /// The frame must carry every byte that the fields of its message are
    /// read from; `try_receive` takes any frame. What happens to the
    /// snapshot is what `receive_parts` does with the frame's standard
    /// identifier and payload.
    pub fn receive(&mut self, frame: Frame) -> (r: Result<(), &'static str>)
        requires
            complete(old(self).base(), frame_standard_id(frame), frame_payload(frame)),
        ensures
            r is Ok,
            old(self).steps_to(frame_standard_id(frame), frame_payload(frame), *final(self)),
            frame_standard_id(frame) is None ==> final(self).snapshot() == old(self).snapshot(),
            frame_standard_id(frame) matches Some(raw) && raw < old(self).base()
                ==> final(self).snapshot() == old(self).snapshot(),
            frame_payload(frame) is None ==> final(self).snapshot() == old(self).snapshot(),
            broadcast_offset(old(self).base(), frame_standard_id(frame)) matches Some(offset) ==> {
                &&& !is_broadcast(offset) ==> final(self).snapshot() == old(self).snapshot()
                &&& old(self).snapshot().same_outside(final(self).snapshot(), offset)
            },
    {
        let id: Option<u16> = standard_id_of(&frame);
        let payload: Option<&[u8]> = payload_of(&frame);
        self.receive_parts(id, payload)
    }

    /// Receives a frame if it is complete, and refuses it otherwise.
    ///
    /// A frame that lacks a byte of its message's fields leaves the snapshot
    /// as it was and is reported as an error. Every other frame is received
    /// as `receive` does.
    pub fn try_receive(&mut self, frame: Frame) -> (r: Result<(), &'static str>)
        ensures
            r is Ok <==> complete(old(self).base(), frame_standard_id(frame), frame_payload(frame)),
            r is Ok ==> old(self).steps_to(
                frame_standard_id(frame),
                frame_payload(frame),
                *final(self),
            ),
            r is Err ==> *final(self) == *old(self),
    {
        let id: Option<u16> = standard_id_of(&frame);
        let payload: Option<&[u8]> = payload_of(&frame);
        if is_complete(self.base_id, id, payload) {
            self.receive(frame)
        } else {
            Err("payload is shorter than the fields of its message")
        }
    }
}

/// Tests whether a frame with these parts is complete for a decoder with
/// base identifier `base`.
pub fn is_complete(base: u16, id: Option<u16>, payload: Option<&[u8]>) -> (r: bool)
    ensures
        r == complete(base, id, payload_bytes(payload)),
{
    match offset_from(base, id) {
        Some(offset) => {
            match payload {
                Some(data) => data.len() >= needed_len(offset),
                None => true,
            }
        },
        None => true,
    }
}

/// Computes `payload_len`.
pub fn needed_len(offset: u16) -> (r: usize)
    ensures
        r == payload_len(offset),
{
    if offset == ID_BROAD_HEARTBEAT || (ID_BROAD_SOC <= offset && offset <= ID_BROAD_PRECHARGE) {
        8
    } else {
        0
    }
}

/// Whether `states` is what a decoder goes through while it receives
/// `frames` in order: one state before the first frame and one after each.
pub open spec fn is_run(states: Seq<Bmu>, frames: Seq<Frame>) -> bool {
    &&& states.len() == frames.len() + 1
    &&& forall|i: int|
        0 <= i < frames.len() ==> (#[trigger] states[i]).steps_to(
            frame_standard_id(frames[i]),
            frame_payload(frames[i]),
            states[i + 1],
        )
}

/// Decoding is deterministic. Two decoders with the same base identifier
/// that start with the same snapshot and receive the same frames in the same
/// order hold the same snapshot after each frame.
pub proof fn lemma_decoding_is_deterministic(
    a: Seq<Bmu>,
    b: Seq<Bmu>,
    frames: Seq<Frame>,
    k: int,
)
    requires
        is_run(a, frames),
        is_run(b, frames),
        a[0].base() == b[0].base(),
        a[0].snapshot() == b[0].snapshot(),
        0 <= k <= frames.len(),
    ensures
        a[k].base() == b[k].base(),
        a[k].snapshot() == b[k].snapshot(),
    decreases k,
{
    if k > 0 {
        lemma_decoding_is_deterministic(a, b, frames, k - 1);
    }
}

} // verus!
