//! Transport-agnostic payload codec for corner-light actuation.
//!
//! Payload layout (8 bytes):
//! - `data[0]`: kind
//! - `data[1..3]`: session_id (u16, big-endian)
//! - `data[3..7]`: sequence_no (u32, big-endian)
//! - `data[7]`: reserved (always 0 when encoding, ignored when decoding)
use vstd::prelude::*;

verus! {

#[derive(Debug, Clone, Copy, PartialEq, Eq, Structural)]
pub struct CornerLightActuationPayload {
    pub kind: u8,
    pub session_id: u16,
    pub sequence_no: u32,
}

/// Big-endian wire bytes of a payload.
pub open spec fn payload_bytes(p: CornerLightActuationPayload) -> Seq<u8> {
    seq![
        p.kind,
        (p.session_id / 0x100) as u8,
        (p.session_id % 0x100) as u8,
        (p.sequence_no / 0x100_0000) as u8,
        ((p.sequence_no / 0x1_0000) % 0x100) as u8,
        ((p.sequence_no / 0x100) % 0x100) as u8,
        (p.sequence_no % 0x100) as u8,
        0u8,
    ]
}

/// The payload that a byte string carries: `None` when it is shorter than 8 bytes.
pub open spec fn payload_from_bytes(data: Seq<u8>) -> Option<CornerLightActuationPayload> {
    if data.len() < 8 {
        None
    } else {
        Some(
            CornerLightActuationPayload {
                kind: data[0],
                session_id: (data[1] * 0x100 + data[2]) as u16,
                sequence_no: (data[3] * 0x100_0000 + data[4] * 0x1_0000 + data[5] * 0x100
                    + data[6]) as u32,
            },
        )
    }
}

/// The wire layout: byte 0 is the kind, bytes 1..3 the session in big-endian
/// order, bytes 3..7 the sequence number in big-endian order, byte 7 is zero.
pub proof fn law_payload_layout_big_endian(p: CornerLightActuationPayload)
    ensures
        payload_bytes(p).len() == 8,
        payload_bytes(p)[0] == p.kind,
        payload_bytes(p)[1] * 0x100 + payload_bytes(p)[2] == p.session_id,
        payload_bytes(p)[3] * 0x100_0000 + payload_bytes(p)[4] * 0x1_0000 + payload_bytes(p)[5]
            * 0x100 + payload_bytes(p)[6] == p.sequence_no,
        payload_bytes(p)[7] == 0,
{
    let s = p.session_id as int;
    let q = p.sequence_no as int;
    assert((s / 0x100) * 0x100 + s % 0x100 == s) by (nonlinear_arith);
    assert((q / 0x100_0000) * 0x100_0000 + ((q / 0x1_0000) % 0x100) * 0x1_0000 + ((q / 0x100)
        % 0x100) * 0x100 + q % 0x100 == q) by (nonlinear_arith)
        requires
            0 <= q < 0x1_0000_0000,
    ;
}

pub fn encode_payload(payload: CornerLightActuationPayload) -> (data: [u8; 8])
    ensures
        data@ == payload_bytes(payload),
{
    let s = payload.session_id;
    let q = payload.sequence_no;
    let data: [u8; 8] = [
        payload.kind,
        (s / 0x100) as u8,
        (s % 0x100) as u8,
        (q / 0x100_0000) as u8,
        ((q / 0x1_0000) % 0x100) as u8,
        ((q / 0x100) % 0x100) as u8,
        (q % 0x100) as u8,
        0u8,
    ];
    assert(data@ =~= payload_bytes(payload));
    data
}

pub fn decode_payload(data: &[u8]) -> (r: Option<CornerLightActuationPayload>)
    ensures
        r == payload_from_bytes(data@),
{
    if data.len() < 8 {
        return None;
    }
    let session_id: u16 = (data[1] as u16) * 0x100 + (data[2] as u16);
    let sequence_no: u32 = (data[3] as u32) * 0x100_0000 + (data[4] as u32) * 0x1_0000
        + (data[5] as u32) * 0x100 + (data[6] as u32);
    Some(CornerLightActuationPayload { kind: data[0], session_id, sequence_no })
}

/// Decoding what was encoded gives back the payload.
pub proof fn law_decode_inverts_encode(p: CornerLightActuationPayload)
    ensures
        payload_from_bytes(payload_bytes(p)) == Some(p),
{
    let s = p.session_id as int;
    let q = p.sequence_no as int;
    assert((s / 0x100) * 0x100 + s % 0x100 == s);
    assert((q / 0x100_0000) * 0x100_0000 + ((q / 0x1_0000) % 0x100) * 0x1_0000 + ((q / 0x100)
        % 0x100) * 0x100 + q % 0x100 == q);
}

/// Encoding a decoded 8-byte payload whose reserved byte is 0 gives back the bytes.
pub proof fn law_encode_inverts_decode(data: Seq<u8>)
    requires
        data.len() == 8,
        data[7] == 0,
    ensures
        payload_from_bytes(data) matches Some(p) && payload_bytes(p) == data,
{
    let p = payload_from_bytes(data)->0;
    let b1 = data[1] as int;
    let b2 = data[2] as int;
    let b3 = data[3] as int;
    let b4 = data[4] as int;
    let b5 = data[5] as int;
    let b6 = data[6] as int;
    let s = b1 * 0x100 + b2;
    let q = b3 * 0x100_0000 + b4 * 0x1_0000 + b5 * 0x100 + b6;
    assert(s / 0x100 == b1 && s % 0x100 == b2);
    assert(q / 0x100_0000 == b3);
    assert((q / 0x1_0000) % 0x100 == b4) by {
        assert(q / 0x1_0000 == b3 * 0x100 + b4);
    }
    assert((q / 0x100) % 0x100 == b5) by {
        assert(q / 0x100 == b3 * 0x1_0000 + b4 * 0x100 + b5);
    }
    assert(q % 0x100 == b6);
    assert(payload_bytes(p) =~= data);
}

/// Decoding reads the first seven bytes only: longer inputs, and the reserved
/// byte, do not change the payload.
pub proof fn law_decode_reads_only_first_seven_bytes(data: Seq<u8>, other: Seq<u8>)
    requires
        data.len() >= 8,
        other.len() >= 8,
        data.take(7) == other.take(7),
    ensures
        payload_from_bytes(data) == payload_from_bytes(other),
{
    assert forall|i: int| 0 <= i < 7 implies data[i] == other[i] by {
        assert(data.take(7)[i] == data[i]);
        assert(other.take(7)[i] == other[i]);
    }
}

} // verus!
