//! The handlers behind the dispatcher: one builds the reply to Read Holding
//! Registers, the other an exception reply.

use crate::frame::{adu_bytes, encode_adu};
use vstd::prelude::*;

verus! {

/// Function code of Read Holding Registers.
pub const READ_HOLDING_REGISTERS: u8 = 0x03;

/// Exception code "Illegal Function".
pub const ILLEGAL_FUNCTION: u8 = 0x01;

/// Bit that marks a function code as an exception reply.
pub const EXCEPTION_FLAG: u8 = 0x80;

/// First byte of every placeholder register.
pub const REGISTER_HIGH: u8 = 0x12;

/// Second byte of every placeholder register.
pub const REGISTER_LOW: u8 = 0x34;

/// The data bytes of `quantity` placeholder registers: two bytes each, the
/// same value every time.
pub open spec fn register_data(quantity: nat) -> Seq<u8> {
    Seq::new(
        2 * quantity,
        |i: int|
            if i % 2 == 0 {
                REGISTER_HIGH
            } else {
                REGISTER_LOW
            },
    )
}

/// The byte count announced for `quantity` registers: twice the quantity,
/// kept to eight bits.
pub open spec fn byte_count(quantity: u16) -> u8 {
    ((2 * quantity) % 256) as u8
}

/// The protocol data unit of a successful Read Holding Registers reply.
pub open spec fn read_holding_pdu(quantity: u16) -> Seq<u8> {
    seq![READ_HOLDING_REGISTERS, byte_count(quantity)] + register_data(quantity as nat)
}

/// The protocol data unit of an exception reply.
pub open spec fn exception_pdu(function_code: u8, exception_code: u8) -> Seq<u8> {
    seq![function_code | EXCEPTION_FLAG, exception_code]
}

/// Builds the reply to a Read Holding Registers request for `quantity`
/// registers, echoing the three identifiers of the request.
pub fn read_holding_registers(
    transaction_id: u16,
    protocol_id: u16,
    unit_id: u8,
    quantity: u16,
) -> (adu: Vec<u8>)
    ensures
        adu@ == adu_bytes(transaction_id, protocol_id, unit_id, read_holding_pdu(quantity)),
{
    let count: u8 = ((quantity % 128) * 2) as u8;
    let mut pdu: Vec<u8> = Vec::new();
    pdu.push(READ_HOLDING_REGISTERS);
    pdu.push(count);
    let ghost head = pdu@;
    let mut n: u16 = 0;
    while n < quantity
        invariant
            n <= quantity,
            pdu@ =~= head + register_data(n as nat),
        decreases quantity - n,
    {
        pdu.push(REGISTER_HIGH);
        pdu.push(REGISTER_LOW);
        n += 1;
    }
    assert(pdu@ =~= read_holding_pdu(quantity));
    encode_adu(transaction_id, protocol_id, unit_id, pdu.as_slice())
}

/// Builds the exception reply to a request with `function_code`.
pub fn handle_illegal_function(
    transaction_id: u16,
    protocol_id: u16,
    unit_id: u8,
    function_code: u8,
    exception_code: u8,
) -> (adu: Vec<u8>)
    ensures
        adu@ == adu_bytes(
            transaction_id,
            protocol_id,
            unit_id,
            exception_pdu(function_code, exception_code),
        ),
{
    let mut pdu: Vec<u8> = Vec::new();
    pdu.push(function_code | EXCEPTION_FLAG);
    pdu.push(exception_code);
    assert(pdu@ =~= exception_pdu(function_code, exception_code));
    encode_adu(transaction_id, protocol_id, unit_id, pdu.as_slice())
}

} // verus!
