use sdv_twin::codec::corner_light_actuation::{
    decode_payload, encode_payload, CornerLightActuationPayload,
};
use sdv_twin::codec::kinds::{KIND_CORNER_LIGHT_ACK_ON, KIND_CORNER_LIGHT_NACK_OFF};
use sdv_twin::devices::corner_lights::codec as device_codec;
use sdv_twin::devices::corner_lights::codec::KIND_ACK_ON;

#[test]
fn corner_light_actuation_payload_round_trip() {
    let payload = CornerLightActuationPayload {
        kind: KIND_CORNER_LIGHT_ACK_ON,
        session_id: 0xabcd,
        sequence_no: 0x11223344,
    };
    let data = encode_payload(payload);
    assert_eq!(decode_payload(&data), Some(payload));
}

#[test]
fn corner_light_actuation_decode_rejects_short_payload() {
    assert!(decode_payload(&[KIND_CORNER_LIGHT_ACK_ON, 0x00, 0x01]).is_none());
}

#[test]
fn codec_payload_round_trip() {
    let payload = device_codec::CornerLightActuationPayload {
        kind: KIND_ACK_ON,
        session_id: 0xabcd,
        sequence_no: 0x11223344,
    };
    let data = device_codec::encode_payload(payload);
    assert_eq!(device_codec::decode_payload(&data), Some(payload));
}

#[test]
fn codec_decode_rejects_short_payload() {
    assert!(device_codec::decode_payload(&[KIND_ACK_ON, 0x00, 0x01]).is_none());
}

#[test]
fn encode_lays_out_big_endian_bytes_with_zero_reserved() {
    let data = encode_payload(CornerLightActuationPayload {
        kind: KIND_CORNER_LIGHT_NACK_OFF,
        session_id: 0x0102,
        sequence_no: 0xa1b2c3d4,
    });
    assert_eq!(data, [0xC2, 0x01, 0x02, 0xa1, 0xb2, 0xc3, 0xd4, 0x00]);
}

#[test]
fn decode_reads_big_endian_fields() {
    let p = decode_payload(&[0x81, 0xff, 0x00, 0x00, 0x00, 0x01, 0x00, 0x00]).unwrap();
    assert_eq!(p.kind, 0x81);
    assert_eq!(p.session_id, 0xff00);
    assert_eq!(p.sequence_no, 0x0000_0100);
}

#[test]
fn decode_rejects_seven_bytes_and_accepts_eight() {
    assert!(decode_payload(&[1, 2, 3, 4, 5, 6, 7]).is_none());
    assert!(decode_payload(&[1, 2, 3, 4, 5, 6, 7, 8]).is_some());
    assert!(decode_payload(&[]).is_none());
}

#[test]
fn decode_ignores_reserved_and_trailing_bytes() {
    let a = decode_payload(&[0x01, 0x12, 0x34, 0x56, 0x78, 0x9a, 0xbc, 0x00]);
    let b = decode_payload(&[0x01, 0x12, 0x34, 0x56, 0x78, 0x9a, 0xbc, 0xff, 0xee, 0xdd]);
    assert_eq!(a, b);
}

#[test]
fn encode_inverts_decode_for_zero_reserved_byte() {
    let bytes = [0x82, 0xde, 0xad, 0xbe, 0xef, 0x00, 0x11, 0x00];
    let p = decode_payload(&bytes).unwrap();
    assert_eq!(encode_payload(p), bytes);
}

#[test]
fn extreme_field_values_round_trip() {
    for payload in [
        CornerLightActuationPayload { kind: 0, session_id: 0, sequence_no: 0 },
        CornerLightActuationPayload { kind: 0xff, session_id: 0xffff, sequence_no: 0xffff_ffff },
    ] {
        assert_eq!(decode_payload(&encode_payload(payload)), Some(payload));
    }
}
