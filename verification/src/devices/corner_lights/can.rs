//! CAN envelope adapter for corner-light device payloads.
use crate::corner_light_actuation_can::{
    ack_kind, command_kind, frame_payload, is_frame_for, nack_kind, wire_meta, FrameBuildError,
};
use crate::devices::corner_lights::codec::CornerLightActuationPayload;
use crate::engine::controller::ActuationCommand;
use socketcan::CanFrame;
use vstd::prelude::*;

pub use crate::corner_light_actuation_can::ID_CORNER_LIGHTS;

verus! {

/// Truncated `(session_id, sequence_no)` of a command as on the wire.
pub fn actuation_command_wire_meta(cmd: &ActuationCommand) -> (r: (u16, u32))
    ensures
        r == wire_meta(*cmd),
{
    crate::corner_light_actuation_can::actuation_command_wire_meta(cmd)
}

/// Command frame of a command.
pub fn encode_command_frame(cmd: &ActuationCommand) -> (r: Result<CanFrame, FrameBuildError>)
    ensures
        r matches Ok(f) && is_frame_for(f, command_kind(*cmd), *cmd),
{
    crate::corner_light_actuation_can::encode_command_frame(cmd)
}

/// ACK frame of a command.
pub fn encode_ack_frame(cmd: &ActuationCommand) -> (r: Result<CanFrame, FrameBuildError>)
    ensures
        r matches Ok(f) && is_frame_for(f, ack_kind(*cmd), *cmd),
{
    crate::corner_light_actuation_can::encode_ack_frame(cmd)
}

/// NACK frame of a command.
pub fn encode_nack_frame(cmd: &ActuationCommand) -> (r: Result<CanFrame, FrameBuildError>)
    ensures
        r matches Ok(f) && is_frame_for(f, nack_kind(*cmd), *cmd),
{
    crate::corner_light_actuation_can::encode_nack_frame(cmd)
}

/// Payload of a frame on the corner-light identifier; `None` for any other frame.
pub fn decode_payload_from_can_frame(frame: &CanFrame) -> (r: Option<CornerLightActuationPayload>)
    ensures
        r == frame_payload(*frame),
{
    crate::corner_light_actuation_can::decode_corner_light_payload_from_can_frame(frame)
}

} // verus!
