//! The Modbus TCP application data unit: a seven-byte MBAP header followed by
//! a protocol data unit, decoded from and encoded into plain bytes.

use crate::wire::{be_bytes, be_u16, lemma_be_u16_of_bytes, push_be_u16, u16_from_be};
use vstd::prelude::*;

verus! {

/// Number of bytes in the MBAP header.
pub const MBAP_LEN: usize = 7;

/// Fewest bytes a request may have: the header, the function code and two
/// 16-bit fields.
pub const MIN_FRAME_LEN: usize = 12;

/// The MBAP header that precedes every protocol data unit.
#[derive(Clone, Copy, Debug, PartialEq, Eq, Structural)]
pub struct Header {
    /// Correlation token chosen by the client and echoed in the reply.
    pub transaction_id: u16,
    /// Protocol identifier, echoed in the reply.
    pub protocol_id: u16,
    /// Declared count of the bytes that follow the length field.
    pub length: u16,
    /// Identifier of the addressed device, echoed in the reply.
    pub unit_id: u8,
}

/// A decoded request: the header, the function code and the two 16-bit
/// fields that follow it.
#[derive(Clone, Copy, Debug, PartialEq, Eq, Structural)]
pub struct Request {
    pub header: Header,
    pub function_code: u8,
    pub starting_address: u16,
    pub quantity: u16,
}

/// Why a buffer could not be decoded.
#[derive(Clone, Copy, Debug, PartialEq, Eq, Structural)]
pub enum DecodeError {
    /// Fewer than twelve bytes were received.
    FrameTooShort,
}

/// The header held by the first seven bytes of `buf`.
pub open spec fn header_of(buf: Seq<u8>) -> Header
    recommends
        buf.len() >= MBAP_LEN,
{
    Header {
        transaction_id: be_u16(buf[0], buf[1]),
        protocol_id: be_u16(buf[2], buf[3]),
        length: be_u16(buf[4], buf[5]),
        unit_id: buf[6],
    }
}

/// The request held by the first twelve bytes of `buf`.
pub open spec fn request_of(buf: Seq<u8>) -> Request
    recommends
        buf.len() >= MIN_FRAME_LEN,
{
    Request {
        header: header_of(buf),
        function_code: buf[7],
        starting_address: be_u16(buf[8], buf[9]),
        quantity: be_u16(buf[10], buf[11]),
    }
}

/// What decoding `buf` yields: a buffer of fewer than twelve bytes is too
/// short, any other is read at fixed offsets and its remaining bytes ignored.
pub open spec fn decode_spec(buf: Seq<u8>) -> Result<Request, DecodeError> {
    if buf.len() < MIN_FRAME_LEN {
        Err(DecodeError::FrameTooShort)
    } else {
        Ok(request_of(buf))
    }
}

/// The value of the length field for a protocol data unit of `pdu_len` bytes:
/// the unit identifier plus the unit, kept to sixteen bits.
pub open spec fn length_field(pdu_len: nat) -> u16 {
    ((1 + pdu_len) % 0x1_0000) as u16
}

/// The seven bytes of a header on the wire.
pub open spec fn header_bytes(h: Header) -> Seq<u8> {
    be_bytes(h.transaction_id) + be_bytes(h.protocol_id) + be_bytes(h.length) + seq![h.unit_id]
}

/// The full frame that carries `pdu`, with the length field computed from it.
pub open spec fn adu_bytes(transaction_id: u16, protocol_id: u16, unit_id: u8, pdu: Seq<u8>) -> Seq<
    u8,
> {
    header_bytes(
        Header { transaction_id, protocol_id, length: length_field(pdu.len()), unit_id },
    ) + pdu
}

/// The protocol data unit of a request: function code, starting address,
/// quantity.
pub open spec fn request_pdu(req: Request) -> Seq<u8> {
    seq![req.function_code] + be_bytes(req.starting_address) + be_bytes(req.quantity)
}

/// Decodes the header and the request fields from the bytes received.
pub fn decode_request(buf: &[u8]) -> (res: Result<Request, DecodeError>)
    ensures
        res == decode_spec(buf@),
        res is Err <==> buf@.len() < MIN_FRAME_LEN,
{
    if buf.len() < MIN_FRAME_LEN {
        return Err(DecodeError::FrameTooShort);
    }
    let header = Header {
        transaction_id: u16_from_be(buf[0], buf[1]),
        protocol_id: u16_from_be(buf[2], buf[3]),
        length: u16_from_be(buf[4], buf[5]),
        unit_id: buf[6],
    };
    Ok(
        Request {
            header,
            function_code: buf[7],
            starting_address: u16_from_be(buf[8], buf[9]),
            quantity: u16_from_be(buf[10], buf[11]),
        },
    )
}

/// Builds a frame: transaction id, protocol id, a length of one plus the
/// unit's size, the unit id, then the unit itself.
pub fn encode_adu(transaction_id: u16, protocol_id: u16, unit_id: u8, pdu: &[u8]) -> (adu: Vec<u8>)
    ensures
        adu@ == adu_bytes(transaction_id, protocol_id, unit_id, pdu@),
{
    let low: usize = pdu.len() % 0x1_0000;
    let length: u16 = if low == 0xFFFF {
        0
    } else {
        (low + 1) as u16
    };
    let mut adu: Vec<u8> = Vec::new();
    push_be_u16(&mut adu, transaction_id);
    push_be_u16(&mut adu, protocol_id);
    push_be_u16(&mut adu, length);
    adu.push(unit_id);
    let ghost head = header_bytes(Header { transaction_id, protocol_id, length, unit_id });
    assert(adu@ =~= head);
    let mut i: usize = 0;
    while i < pdu.len()
        invariant
            i <= pdu.len(),
            adu@ =~= head + pdu@.subrange(0, i as int),
        decreases pdu.len() - i,
    {
        adu.push(pdu[i]);
        i += 1;
    }
    assert(pdu@.subrange(0, pdu.len() as int) =~= pdu@);
    adu
}

/// Builds the frame of a request, with the length field computed anew.
pub fn encode_request(req: &Request) -> (adu: Vec<u8>)
    ensures
        adu@ == adu_bytes(
            req.header.transaction_id,
            req.header.protocol_id,
            req.header.unit_id,
            request_pdu(*req),
        ),
{
    let mut pdu: Vec<u8> = Vec::new();
    pdu.push(req.function_code);
    push_be_u16(&mut pdu, req.starting_address);
    push_be_u16(&mut pdu, req.quantity);
    encode_adu(req.header.transaction_id, req.header.protocol_id, req.header.unit_id, pdu.as_slice())
}

/// A frame is seven bytes longer than its unit, starts with a header that
/// holds the identifiers it was built from and the length computed from the
/// unit, and ends with the unit itself.
pub proof fn lemma_adu_layout(transaction_id: u16, protocol_id: u16, unit_id: u8, pdu: Seq<u8>)
    ensures
        adu_bytes(transaction_id, protocol_id, unit_id, pdu).len() == MBAP_LEN + pdu.len(),
        header_of(adu_bytes(transaction_id, protocol_id, unit_id, pdu)) == (Header {
            transaction_id,
            protocol_id,
            length: length_field(pdu.len()),
            unit_id,
        }),
        adu_bytes(transaction_id, protocol_id, unit_id, pdu).subrange(
            MBAP_LEN as int,
            MBAP_LEN + pdu.len() as int,
        ) == pdu,
{
    let length = length_field(pdu.len());
    let adu = adu_bytes(transaction_id, protocol_id, unit_id, pdu);
    lemma_be_u16_of_bytes(transaction_id);
    lemma_be_u16_of_bytes(protocol_id);
    lemma_be_u16_of_bytes(length);
    assert(adu.subrange(7, 7 + pdu.len() as int) =~= pdu);
}

/// Decoding an encoded frame whose unit has at least five bytes succeeds and
/// recovers the identifiers exactly, together with the computed length and
/// the leading fields of the unit.
pub proof fn lemma_decode_encoded_adu(
    transaction_id: u16,
    protocol_id: u16,
    unit_id: u8,
    pdu: Seq<u8>,
)
    requires
        pdu.len() >= MIN_FRAME_LEN - MBAP_LEN,
    ensures
        decode_spec(adu_bytes(transaction_id, protocol_id, unit_id, pdu)) == Ok::<
            Request,
            DecodeError,
        >(
            Request {
                header: Header {
                    transaction_id,
                    protocol_id,
                    length: length_field(pdu.len()),
                    unit_id,
                },
                function_code: pdu[0],
                starting_address: be_u16(pdu[1], pdu[2]),
                quantity: be_u16(pdu[3], pdu[4]),
            },
        ),
{
    lemma_adu_layout(transaction_id, protocol_id, unit_id, pdu);
}

/// Decoding the encoding of a request gives the request back, with the
/// length field set to the six bytes that follow it; a request that declares
/// that length is recovered exactly.
pub proof fn lemma_decode_encoded_request(req: Request)
    ensures
        decode_spec(
            adu_bytes(
                req.header.transaction_id,
                req.header.protocol_id,
                req.header.unit_id,
                request_pdu(req),
            ),
        ) == Ok::<Request, DecodeError>(
            Request { header: Header { length: 6, ..req.header }, ..req },
        ),
        req.header.length == 6 ==> decode_spec(
            adu_bytes(
                req.header.transaction_id,
                req.header.protocol_id,
                req.header.unit_id,
                request_pdu(req),
            ),
        ) == Ok::<Request, DecodeError>(req),
{
    let pdu = request_pdu(req);
    lemma_be_u16_of_bytes(req.starting_address);
    lemma_be_u16_of_bytes(req.quantity);
    lemma_decode_encoded_adu(
        req.header.transaction_id,
        req.header.protocol_id,
        req.header.unit_id,
        pdu,
    );
}

} // verus!
