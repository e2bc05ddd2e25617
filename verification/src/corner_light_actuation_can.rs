//! Corner-light actuation on-wire framing.
//!
//! Wire format (11-bit standard ID `ID_CORNER_LIGHTS`, DLC 8):
//! - `data[0]`: kind (command, ACK or NACK, for ON or OFF)
//! - `data[1..3]`: `session_id` as u16 big-endian (truncated from `CorrelationId::session_id`)
//! - `data[3..7]`: `sequence_no` as u32 big-endian (truncated from `CorrelationId::sequence_no`)
//! - `data[7]`: reserved `0`
//!
//! `source_id` is not carried on the bus.
use crate::can_frame::{
    can_frame_data, can_frame_new, can_frame_standard_id, frame_data, frame_standard_id,
    standard_id_new, standard_id_raw,
};
use crate::codec::corner_light_actuation::{
    decode_payload, encode_payload, law_decode_inverts_encode, payload_bytes, payload_from_bytes,
    CornerLightActuationPayload,
};
use crate::codec::kinds::{
    KIND_CORNER_LIGHT_ACK_OFF, KIND_CORNER_LIGHT_ACK_ON, KIND_CORNER_LIGHT_CMD_OFF,
    KIND_CORNER_LIGHT_CMD_ON, KIND_CORNER_LIGHT_NACK_OFF, KIND_CORNER_LIGHT_NACK_ON,
};
use crate::domain_types::PhysicalCarVocabulary;
use crate::engine::controller::actuation_contract::{command_correlation, command_is_on};
use crate::engine::controller::ActuationCommand;
use socketcan::{CanFrame, StandardId};
use vstd::prelude::*;

verus! {

pub const ID_CORNER_LIGHTS: u16 = 0x204;

/// Why a corner-light frame could not be built.
#[derive(Debug, Clone, Copy, PartialEq, Eq, Structural)]
pub enum FrameBuildError {
    /// The identifier does not fit in 11 bits.
    InvalidStandardId,
    /// The data does not fit in a classic frame.
    InvalidData,
}

/// Truncated `(session_id, sequence_no)` of a command as on the wire.
pub open spec fn wire_meta(cmd: ActuationCommand) -> (u16, u32) {
    let cid = command_correlation(cmd);
    ((cid.session_id % 0x1_0000) as u16, (cid.sequence_no % 0x1_0000_0000) as u32)
}

/// The payload a frame of the given kind carries for a command.
pub open spec fn command_payload(kind: u8, cmd: ActuationCommand) -> CornerLightActuationPayload {
    CornerLightActuationPayload {
        kind,
        session_id: wire_meta(cmd).0,
        sequence_no: wire_meta(cmd).1,
    }
}

/// A frame on the corner-light identifier carrying exactly the payload of `kind` for `cmd`.
pub open spec fn is_frame_for(frame: CanFrame, kind: u8, cmd: ActuationCommand) -> bool {
    &&& can_frame_standard_id(frame) == Some(ID_CORNER_LIGHTS)
    &&& can_frame_data(frame) == payload_bytes(command_payload(kind, cmd))
}

pub open spec fn command_kind(cmd: ActuationCommand) -> u8 {
    if command_is_on(cmd) {
        KIND_CORNER_LIGHT_CMD_ON
    } else {
        KIND_CORNER_LIGHT_CMD_OFF
    }
}

pub open spec fn ack_kind(cmd: ActuationCommand) -> u8 {
    if command_is_on(cmd) {
        KIND_CORNER_LIGHT_ACK_ON
    } else {
        KIND_CORNER_LIGHT_ACK_OFF
    }
}

pub open spec fn nack_kind(cmd: ActuationCommand) -> u8 {
    if command_is_on(cmd) {
        KIND_CORNER_LIGHT_NACK_ON
    } else {
        KIND_CORNER_LIGHT_NACK_OFF
    }
}

/// The payload a frame carries when it is on the corner-light identifier.
pub open spec fn frame_payload(frame: CanFrame) -> Option<CornerLightActuationPayload> {
    if can_frame_standard_id(frame) == Some(ID_CORNER_LIGHTS) {
        payload_from_bytes(can_frame_data(frame))
    } else {
        None
    }
}

/// Physical vocabulary of a response payload; commands and unknown kinds have none.
pub open spec fn physical_of_payload(payload: CornerLightActuationPayload) -> Option<
    PhysicalCarVocabulary,
> {
    if payload.kind == KIND_CORNER_LIGHT_ACK_ON {
        Some(PhysicalCarVocabulary::CornerLightsCommandConfirmed { on_command: true })
    } else if payload.kind == KIND_CORNER_LIGHT_ACK_OFF {
        Some(PhysicalCarVocabulary::CornerLightsCommandConfirmed { on_command: false })
    } else if payload.kind == KIND_CORNER_LIGHT_NACK_ON {
        Some(PhysicalCarVocabulary::CornerLightsCommandRejected { on_command: true })
    } else if payload.kind == KIND_CORNER_LIGHT_NACK_OFF {
        Some(PhysicalCarVocabulary::CornerLightsCommandRejected { on_command: false })
    } else {
        None
    }
}

fn standard_id() -> (r: Result<StandardId, FrameBuildError>)
    ensures
        r matches Ok(id) && standard_id_raw(id) == ID_CORNER_LIGHTS,
{
    match standard_id_new(ID_CORNER_LIGHTS) {
        Some(id) => Ok(id),
        None => Err(FrameBuildError::InvalidStandardId),
    }
}

fn build_frame(kind: u8, cmd: &ActuationCommand) -> (r: Result<CanFrame, FrameBuildError>)
    ensures
        r matches Ok(f) && is_frame_for(f, kind, *cmd),
{
    let sid = match standard_id() {
        Ok(sid) => sid,
        Err(e) => return Err(e),
    };
    let (session_id, sequence_no) = actuation_command_wire_meta(cmd);
    let data = encode_payload(CornerLightActuationPayload { kind, session_id, sequence_no });
    match can_frame_new(sid, data.as_slice()) {
        Some(frame) => Ok(frame),
        None => Err(FrameBuildError::InvalidData),
    }
}

/// Truncated `(session_id, sequence_no)` as on the wire (for logs / correlation with ingress).
pub fn actuation_command_wire_meta(cmd: &ActuationCommand) -> (r: (u16, u32))
    ensures
        r == wire_meta(*cmd),
{
    let cid = match cmd {
        ActuationCommand::SwitchCornerLightsOn { correlation_id } => correlation_id,
        ActuationCommand::SwitchCornerLightsOff { correlation_id } => correlation_id,
    };
    let s = cid.session_id;
    let q = cid.sequence_no;
    assert(s as u16 == (s % 0x1_0000) as u16) by (bit_vector);
    assert(q as u32 == (q % 0x1_0000_0000) as u32) by (bit_vector);
    (s as u16, q as u32)
}

/// Encode a controller command (gateway egress -> bus).
pub fn encode_command_frame(cmd: &ActuationCommand) -> (r: Result<CanFrame, FrameBuildError>)
    ensures
        r matches Ok(f) && is_frame_for(f, command_kind(*cmd), *cmd),
{
    let kind = match cmd {
        ActuationCommand::SwitchCornerLightsOn { .. } => KIND_CORNER_LIGHT_CMD_ON,
        ActuationCommand::SwitchCornerLightsOff { .. } => KIND_CORNER_LIGHT_CMD_OFF,
    };
    build_frame(kind, cmd)
}

/// Encode ACK after the plant delay (same correlation packing as command).
pub fn encode_ack_frame(cmd: &ActuationCommand) -> (r: Result<CanFrame, FrameBuildError>)
    ensures
        r matches Ok(f) && is_frame_for(f, ack_kind(*cmd), *cmd),
{
    let kind = match cmd {
        ActuationCommand::SwitchCornerLightsOn { .. } => KIND_CORNER_LIGHT_ACK_ON,
        ActuationCommand::SwitchCornerLightsOff { .. } => KIND_CORNER_LIGHT_ACK_OFF,
    };
    build_frame(kind, cmd)
}

/// Encode NACK after the plant delay when command execution is rejected.
pub fn encode_nack_frame(cmd: &ActuationCommand) -> (r: Result<CanFrame, FrameBuildError>)
    ensures
        r matches Ok(f) && is_frame_for(f, nack_kind(*cmd), *cmd),
{
    let kind = match cmd {
        ActuationCommand::SwitchCornerLightsOn { .. } => KIND_CORNER_LIGHT_NACK_ON,
        ActuationCommand::SwitchCornerLightsOff { .. } => KIND_CORNER_LIGHT_NACK_OFF,
    };
    build_frame(kind, cmd)
}

/// Session / sequence of a corner-light frame (for logging).
pub fn wire_correlation_meta(frame: &CanFrame) -> (r: Option<(u16, u32)>)
    ensures
        r == match frame_payload(*frame) {
            Some(p) => Some((p.session_id, p.sequence_no)),
            None => None,
        },
{
    if !is_corner_light_frame(frame) {
        return None;
    }
    match decode_payload(frame_data(frame)) {
        Some(payload) => Some((payload.session_id, payload.sequence_no)),
        None => None,
    }
}

fn is_corner_light_frame(frame: &CanFrame) -> (r: bool)
    ensures
        r == (can_frame_standard_id(*frame) == Some(ID_CORNER_LIGHTS)),
{
    match frame_standard_id(frame) {
        Some(id) => id == ID_CORNER_LIGHTS,
        None => false,
    }
}

/// Decode a corner-light payload from a CAN frame if the frame belongs to this protocol.
pub fn decode_corner_light_payload_from_can_frame(frame: &CanFrame) -> (r: Option<
    CornerLightActuationPayload,
>)
    ensures
        r == frame_payload(*frame),
{
    if !is_corner_light_frame(frame) {
        return None;
    }
    decode_payload(frame_data(frame))
}

/// Map a decoded corner-light payload to physical vocabulary.
/// Command kinds return `None` so ingress does not double-feed the twin.
pub fn physical_from_corner_light_payload(payload: CornerLightActuationPayload) -> (r: Option<
    PhysicalCarVocabulary,
>)
    ensures
        r == physical_of_payload(payload),
{
    match payload.kind {
        KIND_CORNER_LIGHT_ACK_ON => Some(
            PhysicalCarVocabulary::CornerLightsCommandConfirmed { on_command: true },
        ),
        KIND_CORNER_LIGHT_ACK_OFF => Some(
            PhysicalCarVocabulary::CornerLightsCommandConfirmed { on_command: false },
        ),
        KIND_CORNER_LIGHT_NACK_ON => Some(
            PhysicalCarVocabulary::CornerLightsCommandRejected { on_command: true },
        ),
        KIND_CORNER_LIGHT_NACK_OFF => Some(
            PhysicalCarVocabulary::CornerLightsCommandRejected { on_command: false },
        ),
        _ => None,
    }
}

/// A frame built for a command decodes back to the kind and the command's wire
/// correlation, and its logged correlation is the command's wire correlation.
pub proof fn law_frame_round_trip(frame: CanFrame, kind: u8, cmd: ActuationCommand)
    requires
        is_frame_for(frame, kind, cmd),
    ensures
        frame_payload(frame) == Some(command_payload(kind, cmd)),
        frame_payload(frame)->0.session_id == wire_meta(cmd).0,
        frame_payload(frame)->0.sequence_no == wire_meta(cmd).1,
{
    law_decode_inverts_encode(command_payload(kind, cmd));
}

/// Responses map onto the physical vocabulary of the command's direction: an ACK
/// confirms it, a NACK rejects it; the command frame itself maps to nothing, so
/// ingress never feeds a command back to the twin as a response.
pub proof fn law_response_semantics(cmd: ActuationCommand)
    ensures
        physical_of_payload(command_payload(ack_kind(cmd), cmd)) == Some(
            PhysicalCarVocabulary::CornerLightsCommandConfirmed { on_command: command_is_on(cmd) },
        ),
        physical_of_payload(command_payload(nack_kind(cmd), cmd)) == Some(
            PhysicalCarVocabulary::CornerLightsCommandRejected { on_command: command_is_on(cmd) },
        ),
        physical_of_payload(command_payload(command_kind(cmd), cmd)) is None,
{
}

/// Kinds and correlation on the wire: an ON command travels as kind 0x01 and is
/// answered by ACK 0x81 or NACK 0xC1; an OFF command travels as 0x02 and is
/// answered by 0x82 or 0xC2. The wire session and sequence number are the low 16
/// and 32 bits of the command's correlation, so values that fit are carried as
/// they are. Exactly the four response kinds map onto the physical vocabulary.
pub proof fn law_wire_kinds_and_correlation(cmd: ActuationCommand, payload: CornerLightActuationPayload)
    ensures
        command_is_on(cmd) ==> command_kind(cmd) == 0x01 && ack_kind(cmd) == 0x81 && nack_kind(cmd)
            == 0xC1,
        !command_is_on(cmd) ==> command_kind(cmd) == 0x02 && ack_kind(cmd) == 0x82 && nack_kind(
            cmd,
        ) == 0xC2,
        command_correlation(cmd).session_id < 0x1_0000 ==> wire_meta(cmd).0
            == command_correlation(cmd).session_id,
        command_correlation(cmd).sequence_no < 0x1_0000_0000 ==> wire_meta(cmd).1
            == command_correlation(cmd).sequence_no,
        wire_meta(cmd).0 == command_correlation(cmd).session_id % 0x1_0000,
        wire_meta(cmd).1 == command_correlation(cmd).sequence_no % 0x1_0000_0000,
        physical_of_payload(payload) is Some <==> (payload.kind == 0x81 || payload.kind == 0x82
            || payload.kind == 0xC1 || payload.kind == 0xC2),
{
}

/// Frames on another identifier are never read as corner-light payloads.
pub proof fn law_foreign_frames_ignored(frame: CanFrame)
    requires
        can_frame_standard_id(frame) != Some(ID_CORNER_LIGHTS),
    ensures
        frame_payload(frame) is None,
{
}

} // verus!
