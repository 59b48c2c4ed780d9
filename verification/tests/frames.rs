use modbus_server::frame::{
    decode_request, encode_adu, encode_request, DecodeError, Header, Request, MBAP_LEN,
    MIN_FRAME_LEN,
};
use modbus_server::wire::{push_be_u16, u16_from_be};

fn sample_request() -> Request {
    Request {
        header: Header { transaction_id: 0xABCD, protocol_id: 0, length: 6, unit_id: 0x11 },
        function_code: 0x03,
        starting_address: 0x006B,
        quantity: 0x0003,
    }
}

#[test]
fn reads_big_endian_pairs() {
    assert_eq!(u16_from_be(0x12, 0x34), 0x1234);
    assert_eq!(u16_from_be(0x00, 0x00), 0);
    assert_eq!(u16_from_be(0x00, 0xFF), 255);
    assert_eq!(u16_from_be(0x01, 0x00), 256);
    assert_eq!(u16_from_be(0xFF, 0xFF), 65535);
}

#[test]
fn appends_most_significant_byte_first() {
    let mut out = vec![0xAA];
    push_be_u16(&mut out, 0x1234);
    push_be_u16(&mut out, 0x00FF);
    push_be_u16(&mut out, 0xFF00);
    assert_eq!(out, vec![0xAA, 0x12, 0x34, 0x00, 0xFF, 0xFF, 0x00]);
}

#[test]
fn big_endian_pairs_survive_a_round_trip() {
    for x in [0u16, 1, 255, 256, 0x1234, 0x8000, 0xFFFE, 0xFFFF] {
        let mut out = Vec::new();
        push_be_u16(&mut out, x);
        assert_eq!(out.len(), 2);
        assert_eq!(u16_from_be(out[0], out[1]), x);
    }
}

#[test]
fn frame_sizes() {
    assert_eq!(MBAP_LEN, 7);
    assert_eq!(MIN_FRAME_LEN, 12);
}

#[test]
fn decodes_fields_at_fixed_offsets() {
    let buf = [0x00, 0x01, 0x00, 0x00, 0x00, 0x06, 0x01, 0x03, 0x00, 0x00, 0x00, 0x03];
    let expected = Request {
        header: Header { transaction_id: 1, protocol_id: 0, length: 6, unit_id: 1 },
        function_code: 0x03,
        starting_address: 0,
        quantity: 3,
    };
    assert_eq!(decode_request(&buf), Ok(expected));
}

#[test]
fn decodes_every_field_big_endian() {
    let buf = [0x12, 0x34, 0x56, 0x78, 0x9A, 0xBC, 0xDE, 0xF0, 0x01, 0x02, 0x03, 0x04];
    let req = decode_request(&buf).unwrap();
    assert_eq!(req.header.transaction_id, 0x1234);
    assert_eq!(req.header.protocol_id, 0x5678);
    assert_eq!(req.header.length, 0x9ABC);
    assert_eq!(req.header.unit_id, 0xDE);
    assert_eq!(req.function_code, 0xF0);
    assert_eq!(req.starting_address, 0x0102);
    assert_eq!(req.quantity, 0x0304);
}

#[test]
fn bytes_after_the_twelfth_are_ignored() {
    let short = [0x00, 0x01, 0x00, 0x00, 0x00, 0x06, 0x01, 0x03, 0x00, 0x00, 0x00, 0x03];
    let mut long = short.to_vec();
    long.extend_from_slice(&[0xFF, 0xEE, 0xDD]);
    assert_eq!(decode_request(&long), decode_request(&short));
}

#[test]
fn every_buffer_under_twelve_bytes_is_too_short() {
    let full = [0x00, 0x01, 0x00, 0x00, 0x00, 0x06, 0x01, 0x03, 0x00, 0x00, 0x00, 0x03];
    for n in 0..12 {
        assert_eq!(decode_request(&full[..n]), Err(DecodeError::FrameTooShort));
    }
    assert!(decode_request(&full).is_ok());
}

#[test]
fn eight_byte_buffer_is_too_short() {
    let buf = [0x00, 0x01, 0x00, 0x00, 0x00, 0x06, 0x01, 0x03];
    assert_eq!(decode_request(&buf), Err(DecodeError::FrameTooShort));
}

#[test]
fn encodes_header_then_unit() {
    let adu = encode_adu(0x0102, 0x0304, 0x05, &[0xAA, 0xBB, 0xCC]);
    assert_eq!(adu, vec![0x01, 0x02, 0x03, 0x04, 0x00, 0x04, 0x05, 0xAA, 0xBB, 0xCC]);
}

#[test]
fn encodes_an_empty_unit() {
    let adu = encode_adu(1, 0, 9, &[]);
    assert_eq!(adu, vec![0x00, 0x01, 0x00, 0x00, 0x00, 0x01, 0x09]);
}

#[test]
fn length_field_counts_unit_id_and_unit() {
    let pdu = vec![0x5A; 300];
    let adu = encode_adu(7, 0, 1, &pdu);
    assert_eq!(adu.len(), 307);
    assert_eq!(&adu[4..6], &[0x01, 0x2D]);
    assert_eq!(&adu[7..], &pdu[..]);
}

#[test]
fn length_field_keeps_sixteen_bits() {
    let pdu = vec![0u8; 65535];
    let adu = encode_adu(7, 0, 1, &pdu);
    assert_eq!(adu.len(), 65542);
    assert_eq!(&adu[4..6], &[0x00, 0x00]);
    let pdu = vec![0u8; 65534];
    let adu = encode_adu(7, 0, 1, &pdu);
    assert_eq!(&adu[4..6], &[0xFF, 0xFF]);
}

#[test]
fn encodes_a_request() {
    let adu = encode_request(&sample_request());
    assert_eq!(
        adu,
        vec![0xAB, 0xCD, 0x00, 0x00, 0x00, 0x06, 0x11, 0x03, 0x00, 0x6B, 0x00, 0x03]
    );
}

#[test]
fn decoding_an_encoded_request_recovers_it() {
    let req = sample_request();
    assert_eq!(decode_request(&encode_request(&req)), Ok(req));
    let other = Request {
        header: Header { transaction_id: 0xFFFF, protocol_id: 0x8001, length: 6, unit_id: 0xFF },
        function_code: 0x10,
        starting_address: 0xFFFE,
        quantity: 0x0100,
    };
    assert_eq!(decode_request(&encode_request(&other)), Ok(other));
}

#[test]
fn encoding_recomputes_the_length() {
    let mut req = sample_request();
    req.header.length = 999;
    let decoded = decode_request(&encode_request(&req)).unwrap();
    assert_eq!(decoded.header.length, 6);
    assert_eq!(decoded.header.transaction_id, req.header.transaction_id);
    assert_eq!(decoded.header.protocol_id, req.header.protocol_id);
    assert_eq!(decoded.header.unit_id, req.header.unit_id);
    assert_eq!(decoded.function_code, req.function_code);
    assert_eq!(decoded.starting_address, req.starting_address);
    assert_eq!(decoded.quantity, req.quantity);
}

#[test]
fn decoding_an_encoded_frame_recovers_the_identifiers() {
    let adu = encode_adu(0xBEEF, 0x0000, 0x2A, &[0x03, 0x00, 0x10, 0x00, 0x02, 0x99]);
    let req = decode_request(&adu).unwrap();
    assert_eq!(req.header.transaction_id, 0xBEEF);
    assert_eq!(req.header.protocol_id, 0);
    assert_eq!(req.header.length, 7);
    assert_eq!(req.header.unit_id, 0x2A);
    assert_eq!(req.function_code, 0x03);
    assert_eq!(req.starting_address, 0x0010);
    assert_eq!(req.quantity, 0x0002);
}
