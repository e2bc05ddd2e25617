//! Decisions of the simulated corner-light actuator (the plant): the frames it
//! answers a command with. Timing, randomness and bus writes stay with the runtime.
use crate::corner_light_actuation_can::{
    ack_kind, encode_ack_frame, encode_nack_frame, is_frame_for, nack_kind, FrameBuildError,
};
use crate::engine::controller::ActuationCommand;
use socketcan::CanFrame;
use vstd::prelude::*;

verus! {

/// Capacity of the controller-to-plant command channel.
pub const DEFAULT_CHANNEL_CAPACITY: usize = 64;

/// The response frame to a command: ACK when `send_ack`, NACK otherwise.
pub fn response_frame(cmd: &ActuationCommand, send_ack: bool) -> (r: Result<
    CanFrame,
    FrameBuildError,
>)
    ensures
        r matches Ok(f) && is_frame_for(
            f,
            if send_ack {
                ack_kind(*cmd)
            } else {
                nack_kind(*cmd)
            },
            *cmd,
        ),
{
    if send_ack {
        encode_ack_frame(cmd)
    } else {
        encode_nack_frame(cmd)
    }
}

} // verus!
