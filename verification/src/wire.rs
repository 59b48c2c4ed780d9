//! Big-endian 16-bit integers, the only multi-byte field of a Modbus frame.

use vstd::prelude::*;

verus! {

/// The value whose big-endian encoding is `hi` followed by `lo`.
pub open spec fn be_u16(hi: u8, lo: u8) -> u16 {
    (hi as int * 256 + lo as int) as u16
}

/// The first (most significant) byte of the big-endian encoding of `x`.
pub open spec fn high_byte(x: u16) -> u8 {
    (x as int / 256) as u8
}

/// The second (least significant) byte of the big-endian encoding of `x`.
pub open spec fn low_byte(x: u16) -> u8 {
    (x as int % 256) as u8
}

/// The two bytes of `x` in network byte order.
pub open spec fn be_bytes(x: u16) -> Seq<u8> {
    seq![high_byte(x), low_byte(x)]
}

/// Reads a big-endian 16-bit value from its two bytes.
pub fn u16_from_be(hi: u8, lo: u8) -> (x: u16)
    ensures
        x == be_u16(hi, lo),
{
    (hi as u16) * 256 + (lo as u16)
}

/// Appends the two bytes of `x`, most significant first.
pub fn push_be_u16(out: &mut Vec<u8>, x: u16)
    ensures
        final(out)@ == old(out)@ + be_bytes(x),
{
    out.push((x / 256) as u8);
    out.push((x % 256) as u8);
}

/// Encoding a value and reading the two bytes back gives the value again.
pub proof fn lemma_be_u16_of_bytes(x: u16)
    ensures
        be_u16(high_byte(x), low_byte(x)) == x,
        be_u16(be_bytes(x)[0], be_bytes(x)[1]) == x,
{
}

/// Reading two bytes and encoding the value gives the two bytes again.
pub proof fn lemma_bytes_of_be_u16(hi: u8, lo: u8)
    ensures
        high_byte(be_u16(hi, lo)) == hi,
        low_byte(be_u16(hi, lo)) == lo,
        be_bytes(be_u16(hi, lo)) == seq![hi, lo],
{
}

} // verus!
