//! Corner-lights device payload codec and its semantic mapping.
use crate::codec::corner_light_actuation::{payload_bytes, payload_from_bytes};
use crate::corner_light_actuation_can::{physical_from_corner_light_payload, physical_of_payload};
use crate::domain_types::PhysicalCarVocabulary;
use vstd::prelude::*;

pub use crate::codec::corner_light_actuation::CornerLightActuationPayload;
pub use crate::codec::kinds::{
    KIND_CORNER_LIGHT_ACK_OFF as KIND_ACK_OFF, KIND_CORNER_LIGHT_ACK_ON as KIND_ACK_ON,
    KIND_CORNER_LIGHT_CMD_OFF as KIND_CMD_OFF, KIND_CORNER_LIGHT_CMD_ON as KIND_CMD_ON,
    KIND_CORNER_LIGHT_NACK_OFF as KIND_NACK_OFF, KIND_CORNER_LIGHT_NACK_ON as KIND_NACK_ON,
};

verus! {

/// The 8 big-endian wire bytes of a payload.
pub fn encode_payload(payload: CornerLightActuationPayload) -> (data: [u8; 8])
    ensures
        data@ == payload_bytes(payload),
{
    crate::codec::corner_light_actuation::encode_payload(payload)
}

/// The payload of at least 8 wire bytes; `None` for fewer.
pub fn decode_payload(data: &[u8]) -> (r: Option<CornerLightActuationPayload>)
    ensures
        r == payload_from_bytes(data@),
{
    crate::codec::corner_light_actuation::decode_payload(data)
}

/// Physical vocabulary of an ACK/NACK payload; command and unknown kinds map to `None`.
pub fn payload_to_physical(payload: CornerLightActuationPayload) -> (r: Option<
    PhysicalCarVocabulary,
>)
    ensures
        r == physical_of_payload(payload),
{
    physical_from_corner_light_payload(payload)
}

} // verus!
