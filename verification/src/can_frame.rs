//! Trusted boundary to the SocketCAN frame type: construction of classic data
//! frames with an 11-bit identifier, and reading their identifier and data.
use socketcan::{CanFrame, EmbeddedFrame, Id, StandardId};
use vstd::prelude::*;

verus! {

/// A classic CAN 2.0 frame (opaque).
#[verifier::external_type_specification]
#[verifier::external_body]
pub struct ExCanFrame(socketcan::CanFrame);

/// An 11-bit CAN identifier (opaque).
#[verifier::external_type_specification]
#[verifier::external_body]
pub struct ExStandardId(socketcan::StandardId);

/// The data bytes a frame carries.
pub uninterp spec fn can_frame_data(frame: CanFrame) -> Seq<u8>;

/// The 11-bit identifier of a frame; `None` for a frame with an extended identifier.
pub uninterp spec fn can_frame_standard_id(frame: CanFrame) -> Option<u16>;

/// The raw value of an 11-bit identifier.
pub uninterp spec fn standard_id_raw(id: StandardId) -> u16;

/// `StandardId::new`: an identifier exactly when the raw value fits in 11 bits,
/// and then one that holds that raw value.
#[verifier::external_body]
pub(crate) fn standard_id_new(raw: u16) -> (r: Option<StandardId>)
    ensures
        r is Some <==> raw <= 0x7FF,
        r matches Some(id) ==> standard_id_raw(id) == raw,
{
    StandardId::new(raw)
}

/// `CanFrame::new` (`EmbeddedFrame::new`) on a standard identifier: a data frame
/// exactly when there are at most 8 bytes, carrying those bytes and that identifier.
#[verifier::external_body]
pub(crate) fn can_frame_new(id: StandardId, data: &[u8]) -> (r: Option<CanFrame>)
    ensures
        r is Some <==> data@.len() <= 8,
        r matches Some(f) ==> can_frame_data(f) == data@ && can_frame_standard_id(f) == Some(
            standard_id_raw(id),
        ),
{
    <CanFrame as EmbeddedFrame>::new(id, data)
}

/// `EmbeddedFrame::data` of a frame.
#[verifier::external_body]
pub(crate) fn frame_data(frame: &CanFrame) -> (r: &[u8])
    ensures
        r@ == can_frame_data(*frame),
{
    frame.data()
}

/// `EmbeddedFrame::id` of a frame, as the raw 11-bit value when it is a standard identifier.
#[verifier::external_body]
pub(crate) fn frame_standard_id(frame: &CanFrame) -> (r: Option<u16>)
    ensures
        r == can_frame_standard_id(*frame),
{
    match frame.id() {
        Id::Standard(s) => Some(s.as_raw()),
        Id::Extended(_) => None,
    }
}

} // verus!
