//! Register transport framing and raw-word decoding.
//!
//! The device frames every exchange as an address byte followed by
//! payload bytes; the high bit of the address byte selects the
//! direction, and callers never set it themselves.  Data words arrive
//! big-endian, two bytes per signed 16-bit axis value; this module is
//! the only place byte order is interpreted.

use vstd::prelude::*;

verus! {

/// Direction flag of the address byte: set for a read exchange.
pub const READ_FLAG: u8 = 0x80;

/// Signed big-endian 16-bit value held by two bytes.
pub open spec fn be_i16_spec(hi: u8, lo: u8) -> int {
    let v = hi * 256 + lo;
    if v < 32768 {
        v as int
    } else {
        v - 65536
    }
}

/// Decodes a signed big-endian 16-bit word.
pub fn decode_be_i16(hi: u8, lo: u8) -> (r: i16)
    ensures
        r as int == be_i16_spec(hi, lo),
{
    let v: i32 = (hi as i32) * 256 + (lo as i32);
    if v < 32768 {
        v as i16
    } else {
        (v - 65536) as i16
    }
}

/// Decodes an unsigned big-endian 16-bit word.
pub fn decode_be_u16(hi: u8, lo: u8) -> (r: u16)
    ensures
        r as int == hi * 256 + lo,
{
    (hi as u16) * 256 + (lo as u16)
}

/// Decodes three consecutive big-endian signed words: one axis triple
/// as the device lays it out in its data registers.
pub fn decode_axis_triple(b: &[u8]) -> (r: (i16, i16, i16))
    requires
        b@.len() == 6,
    ensures
        r.0 as int == be_i16_spec(b@[0], b@[1]),
        r.1 as int == be_i16_spec(b@[2], b@[3]),
        r.2 as int == be_i16_spec(b@[4], b@[5]),
{
    let x = decode_be_i16(b[0], b[1]);
    let y = decode_be_i16(b[2], b[3]);
    let z = decode_be_i16(b[4], b[5]);
    (x, y, z)
}

/// Builds the exchange buffer for a read of `len` payload bytes: the
/// address byte with the read flag set, then `len` placeholder zeros.
pub fn read_frame(addr: u8, len: usize) -> (r: Vec<u8>)
    requires
        len < usize::MAX,
    ensures
        r@.len() == len + 1,
        r@[0] == (addr | READ_FLAG),
        forall|i: int| 1 <= i < r@.len() ==> r@[i] == 0u8,
{
    let mut r: Vec<u8> = Vec::new();
    r.push(addr | READ_FLAG);
    let mut i: usize = 0;
    while i < len
        invariant
            i <= len,
            r@.len() == i + 1,
            r@[0] == (addr | READ_FLAG),
            forall|j: int| 1 <= j < r@.len() ==> r@[j] == 0u8,
        decreases len - i,
    {
        r.push(0);
        i = i + 1;
    }
    r
}

/// Builds the two-byte buffer for a register write: the address byte
/// with the read flag cleared, then the value.
pub fn write_frame(addr: u8, value: u8) -> (r: Vec<u8>)
    ensures
        r@.len() == 2,
        r@[0] == (addr & 0x7F),
        r@[1] == value,
{
    let mut r: Vec<u8> = Vec::new();
    r.push(addr & 0x7F);
    r.push(value);
    r
}

} // verus!
