//! The CAN frame as this library sees it.
//!
//! Frames are `bxcan::Frame` values. The library reads two things from a
//! frame, its standard identifier and its payload, and builds data frames
//! with a standard identifier and eight payload bytes. Those three calls are
//! the only code here that is believed rather than proved.

use bxcan::{Frame, Id, StandardId};
use vstd::prelude::*;

verus! {

/// Largest standard (11-bit) identifier.
pub const STANDARD_ID_MAX: u16 = 0x7FF;

/// Declares `bxcan::Frame`, a data or remote frame, as a type whose inside
/// is not looked into.
#[verifier::external_type_specification]
#[verifier::external_body]
pub struct ExFrame(bxcan::Frame);

/// The raw standard identifier of `frame` as `bxcan::Frame::id` reports it,
/// or `None` where the frame carries an extended identifier.
pub uninterp spec fn frame_standard_id(frame: Frame) -> Option<u16>;

/// The payload of `frame` as `bxcan::Frame::data` hands it out, or `None`
/// for a remote frame, which carries no payload.
pub uninterp spec fn frame_payload(frame: Frame) -> Option<Seq<u8>>;

/// Calls `bxcan::Frame::id` and, for a standard identifier,
/// `bxcan::StandardId::as_raw`.
///
/// Believed: the result is what `frame_standard_id` names. An extended
/// identifier gives `None`.
#[verifier::external_body]
pub(crate) fn standard_id_of(frame: &Frame) -> (r: Option<u16>)
    ensures
        r == frame_standard_id(*frame),
{
    match frame.id() {
        Id::Standard(id) => Some(id.as_raw()),
        Id::Extended(_) => None,
    }
}

/// Calls `bxcan::Frame::data` and borrows the bytes of the `Data` it returns.
///
/// Believed: the result is what `frame_payload` names. A remote frame gives
/// `None`; a data frame gives its bytes, as many as it carries.
#[verifier::external_body]
pub(crate) fn payload_of(frame: &Frame) -> (r: Option<&[u8]>)
    ensures
        match r {
            Some(bytes) => frame_payload(*frame) == Some(bytes@),
            None => frame_payload(*frame) is None,
        },
{
    match frame.data() {
        Some(data) => Some(&data[..]),
        None => None,
    }
}

/// Calls `bxcan::StandardId::new` and, where that accepts `id`,
/// `bxcan::Frame::new_data` with all eight bytes of `data`.
///
/// Believed: an identifier above `0x7FF` is refused and gives `None`. Any
/// other gives a data frame that reports `id` as its standard identifier and
/// the eight bytes of `data`, in order, as its payload.
#[verifier::external_body]
pub(crate) fn new_standard_data_frame(id: u16, data: [u8; 8]) -> (r: Option<Frame>)
    ensures
        match r {
            Some(frame) => {
                &&& id <= STANDARD_ID_MAX
                &&& frame_standard_id(frame) == Some(id)
                &&& frame_payload(frame) == Some(data@)
            },
            None => id > STANDARD_ID_MAX,
        },
{
    match StandardId::new(id) {
        Some(id) => Some(Frame::new_data(id, data)),
        None => None,
    }
}

/// The bytes behind an optional payload.
pub open spec fn payload_bytes(payload: Option<&[u8]>) -> Option<Seq<u8>> {
    match payload {
        Some(bytes) => Some(bytes@),
        None => None,
    }
}

/// Where a frame falls in the block of identifiers that starts at `base`:
/// the distance of its identifier from `base`. Extended identifiers and
/// identifiers below `base` fall outside the block.
pub open spec fn broadcast_offset(base: u16, id: Option<u16>) -> Option<u16> {
    match id {
        Some(raw) => if raw >= base {
            Some((raw - base) as u16)
        } else {
            None
        },
        None => None,
    }
}

/// Computes the offset of an identifier from `base`, if it has one.
pub fn offset_from(base: u16, id: Option<u16>) -> (r: Option<u16>)
    ensures
        r == broadcast_offset(base, id),
        id is None ==> r is None,
        id matches Some(raw) ==> (r is Some <==> raw >= base),
        r matches Some(offset) ==> id == Some((base + offset) as u16),
{
    match id {
        Some(raw) => {
            if raw >= base {
                Some(raw - base)
            } else {
                None
            }
        },
        None => None,
    }
}

} // verus!
