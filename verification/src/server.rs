//! The function dispatcher and the handling of one request, from the bytes
//! received to the bytes of the reply.

use crate::frame::{
    adu_bytes, decode_request, decode_spec, header_of, lemma_adu_layout, DecodeError, Header,
    Request, MIN_FRAME_LEN,
};
use crate::functions::{
    exception_pdu, handle_illegal_function, read_holding_pdu, read_holding_registers,
    register_data, EXCEPTION_FLAG, ILLEGAL_FUNCTION, READ_HOLDING_REGISTERS,
};
use vstd::prelude::*;

verus! {

/// The decision the dispatcher takes on a function code.
#[derive(Clone, Copy, Debug, PartialEq, Eq, Structural)]
pub enum Dispatch {
    /// A handler exists for the code.
    Recognized(u8),
    /// No handler exists: the request is answered with an exception.
    Unrecognized(u8),
}

/// Only Read Holding Registers has a handler.
pub open spec fn dispatch_spec(function_code: u8) -> Dispatch {
    if function_code == READ_HOLDING_REGISTERS {
        Dispatch::Recognized(function_code)
    } else {
        Dispatch::Unrecognized(function_code)
    }
}

/// The reply owed to a decoded request: the register reply where the
/// function code has a handler, an Illegal Function exception otherwise.
pub open spec fn response_bytes(req: Request) -> Seq<u8> {
    match dispatch_spec(req.function_code) {
        Dispatch::Recognized(_) => adu_bytes(
            req.header.transaction_id,
            req.header.protocol_id,
            req.header.unit_id,
            read_holding_pdu(req.quantity),
        ),
        Dispatch::Unrecognized(code) => adu_bytes(
            req.header.transaction_id,
            req.header.protocol_id,
            req.header.unit_id,
            exception_pdu(code, ILLEGAL_FUNCTION),
        ),
    }
}

/// What handling the received bytes yields: the reply to the decoded
/// request, or the decoding error and no reply.
pub open spec fn handle_spec(buf: Seq<u8>) -> Result<Seq<u8>, DecodeError> {
    match decode_spec(buf) {
        Ok(req) => Ok(response_bytes(req)),
        Err(e) => Err(e),
    }
}

/// The human-readable name of a function code.
pub open spec fn function_name_spec(function_code: u8) -> Seq<char> {
    if function_code == 0x01 {
        "Read Coils"@
    } else if function_code == 0x02 {
        "Read Discrete Inputs"@
    } else if function_code == 0x03 {
        "Read Holding Registers"@
    } else if function_code == 0x04 {
        "Read Input Registers"@
    } else if function_code == 0x05 {
        "Write Single Coil"@
    } else if function_code == 0x06 {
        "Write Single Register"@
    } else if function_code == 0x07 {
        "Read Exception Status"@
    } else if function_code == 0x08 {
        "Diagnostics"@
    } else if function_code == 0x0B {
        "Get Comm Event Counter"@
    } else if function_code == 0x0C {
        "Get Comm Event Log"@
    } else if function_code == 0x0F {
        "Write Multiple Coils"@
    } else if function_code == 0x10 {
        "Write Multiple Registers"@
    } else if function_code == 0x11 {
        "Report Server ID"@
    } else if function_code == 0x14 {
        "Read File Record"@
    } else if function_code == 0x15 {
        "Write File Record"@
    } else if function_code == 0x16 {
        "Mask Write Register"@
    } else if function_code == 0x17 {
        "Read/Write Multiple Registers"@
    } else if function_code == 0x18 {
        "Read FIFO Queue"@
    } else {
        "Unknown"@
    }
}

/// Decides whether a function code has a handler.
pub fn dispatch(function_code: u8) -> (d: Dispatch)
    ensures
        d == dispatch_spec(function_code),
{
    if function_code == READ_HOLDING_REGISTERS {
        Dispatch::Recognized(function_code)
    } else {
        Dispatch::Unrecognized(function_code)
    }
}

/// Names a function code for diagnostics. The name has no part in the
/// handling of a request.
pub fn function_name(function_code: u8) -> (name: &'static str)
    ensures
        name@ == function_name_spec(function_code),
{
    match function_code {
        0x01 => "Read Coils",
        0x02 => "Read Discrete Inputs",
        0x03 => "Read Holding Registers",
        0x04 => "Read Input Registers",
        0x05 => "Write Single Coil",
        0x06 => "Write Single Register",
        0x07 => "Read Exception Status",
        0x08 => "Diagnostics",
        0x0B => "Get Comm Event Counter",
        0x0C => "Get Comm Event Log",
        0x0F => "Write Multiple Coils",
        0x10 => "Write Multiple Registers",
        0x11 => "Report Server ID",
        0x14 => "Read File Record",
        0x15 => "Write File Record",
        0x16 => "Mask Write Register",
        0x17 => "Read/Write Multiple Registers",
        0x18 => "Read FIFO Queue",
        _ => "Unknown",
    }
}

/// Builds the reply to a decoded request.
pub fn respond(req: &Request) -> (adu: Vec<u8>)
    ensures
        adu@ == response_bytes(*req),
{
    match dispatch(req.function_code) {
        Dispatch::Recognized(_) => read_holding_registers(
            req.header.transaction_id,
            req.header.protocol_id,
            req.header.unit_id,
            req.quantity,
        ),
        Dispatch::Unrecognized(code) => handle_illegal_function(
            req.header.transaction_id,
            req.header.protocol_id,
            req.header.unit_id,
            code,
            ILLEGAL_FUNCTION,
        ),
    }
}

/// Handles the bytes of one request: decodes them, dispatches on the function
/// code and builds the reply. A buffer that cannot be decoded gets no reply.
pub fn handle_request(buf: &[u8]) -> (res: Result<Vec<u8>, DecodeError>)
    ensures
        match res {
            Ok(adu) => handle_spec(buf@) == Ok::<Seq<u8>, DecodeError>(adu@),
            Err(e) => handle_spec(buf@) == Err::<Seq<u8>, DecodeError>(e),
        },
        res is Err <==> buf@.len() < MIN_FRAME_LEN,
{
    match decode_request(buf) {
        Ok(req) => Ok(respond(&req)),
        Err(e) => Err(e),
    }
}

/// The reply to a Read Holding Registers request for one to 125 registers
/// echoes the transaction, protocol and unit identifiers, declares a length
/// of three plus twice the quantity, announces a byte count of twice the
/// quantity, and carries exactly that many data bytes.
pub proof fn lemma_read_holding_reply(req: Request)
    requires
        req.function_code == READ_HOLDING_REGISTERS,
        1 <= req.quantity <= 125,
    ensures
        response_bytes(req).len() == 9 + 2 * req.quantity,
        header_of(response_bytes(req)) == (Header {
            transaction_id: req.header.transaction_id,
            protocol_id: req.header.protocol_id,
            length: (3 + 2 * req.quantity) as u16,
            unit_id: req.header.unit_id,
        }),
        response_bytes(req)[7] == READ_HOLDING_REGISTERS,
        response_bytes(req)[8] == 2 * req.quantity,
        response_bytes(req).subrange(9, 9 + 2 * req.quantity) == register_data(
            req.quantity as nat,
        ),
{
    let pdu = read_holding_pdu(req.quantity);
    let adu = response_bytes(req);
    lemma_adu_layout(req.header.transaction_id, req.header.protocol_id, req.header.unit_id, pdu);
    assert(adu.subrange(9, 9 + 2 * req.quantity) =~= register_data(req.quantity as nat));
}

/// The reply to a request whose function code has no handler is an exception
/// reply: it echoes the three identifiers, declares a length of three, and
/// holds the function code with its high bit set and the Illegal Function
/// code.
pub proof fn lemma_unrecognized_reply(req: Request)
    requires
        req.function_code != READ_HOLDING_REGISTERS,
    ensures
        response_bytes(req).len() == 9,
        header_of(response_bytes(req)) == (Header {
            transaction_id: req.header.transaction_id,
            protocol_id: req.header.protocol_id,
            length: 3,
            unit_id: req.header.unit_id,
        }),
        response_bytes(req)[7] == req.function_code | EXCEPTION_FLAG,
        response_bytes(req)[8] == ILLEGAL_FUNCTION,
{
    let pdu = exception_pdu(req.function_code, ILLEGAL_FUNCTION);
    lemma_adu_layout(req.header.transaction_id, req.header.protocol_id, req.header.unit_id, pdu);
}

/// A buffer of fewer than twelve bytes is answered with `FrameTooShort` and
/// nothing else: no reply exists for it.
pub proof fn lemma_short_buffer_gets_no_reply(buf: Seq<u8>)
    requires
        buf.len() < MIN_FRAME_LEN,
    ensures
        decode_spec(buf) == Err::<Request, DecodeError>(DecodeError::FrameTooShort),
        handle_spec(buf) == Err::<Seq<u8>, DecodeError>(DecodeError::FrameTooShort),
{
}

} // verus!
