//! Little-endian integer assembly from raw bytes.

use vstd::prelude::*;

verus! {

/// The unsigned 16-bit value whose little-endian encoding is `b0, b1`.
pub open spec fn le_u16(b0: u8, b1: u8) -> int {
    b0 as int + 256 * (b1 as int)
}

/// The signed (two's complement) 16-bit value whose little-endian encoding is `b0, b1`.
pub open spec fn le_i16(b0: u8, b1: u8) -> int {
    if b1 < 128 {
        le_u16(b0, b1)
    } else {
        le_u16(b0, b1) - 65536
    }
}

/// The unsigned 32-bit value whose little-endian encoding is `b0, b1, b2, b3`.
pub open spec fn le_u32(b0: u8, b1: u8, b2: u8, b3: u8) -> int {
    b0 as int + 256 * (b1 as int) + 65536 * (b2 as int) + 16777216 * (b3 as int)
}

/// Assembles four little-endian bytes into a `u32`.
pub fn u8x4_to_u32(u8s: [u8; 4]) -> (r: u32)
    ensures
        r as int == le_u32(u8s[0], u8s[1], u8s[2], u8s[3]),
{
    let b0: u8 = u8s[0];
    let b1: u8 = u8s[1];
    let b2: u8 = u8s[2];
    let b3: u8 = u8s[3];
    let lowest: u32 = b0 as u32;
    let low: u32 = (b1 as u32) << 8;
    let high: u32 = (b2 as u32) << 16;
    let highest: u32 = (b3 as u32) << 24;
    assert((b0 as u32) | ((b1 as u32) << 8) | ((b2 as u32) << 16) | ((b3 as u32) << 24)
        == (b0 as u32) + 256 * (b1 as u32) + 65536 * (b2 as u32) + 16777216 * (b3 as u32))
        by (bit_vector);
    lowest | low | high | highest
}

/// Assembles two little-endian bytes into an `i16` (two's complement).
pub fn u8x2_to_i16(u8s: [u8; 2]) -> (r: i16)
    ensures
        r as int == le_i16(u8s[0], u8s[1]),
{
    let b0: u8 = u8s[0];
    let b1: u8 = u8s[1];
    let unsigned: u16 = (b0 as u16) | ((b1 as u16) << 8);
    assert((b0 as u16) | ((b1 as u16) << 8) == (b0 as u16) + 256 * (b1 as u16)) by (bit_vector);
    assert(unsigned < 0x8000 ==> unsigned as i16 == unsigned) by (bit_vector);
    assert(unsigned >= 0x8000 ==> unsigned as i16 == unsigned - 0x10000) by (bit_vector);
    unsigned as i16
}

/// Reads a little-endian `u32` from a slice of exactly four bytes.
pub fn u8ref_to_u32(u8s: &[u8]) -> (r: u32)
    requires
        u8s@.len() == 4,
    ensures
        r as int == le_u32(u8s@[0], u8s@[1], u8s@[2], u8s@[3]),
{
    u8x4_to_u32([u8s[0], u8s[1], u8s[2], u8s[3]])
}

/// Reads a little-endian `i16` (two's complement) from a slice of exactly two bytes.
pub fn u8ref_to_i16(u8s: &[u8]) -> (r: i16)
    requires
        u8s@.len() == 2,
    ensures
        r as int == le_i16(u8s@[0], u8s@[1]),
{
    u8x2_to_i16([u8s[0], u8s[1]])
}

/// Reads a little-endian `u16` from a slice of exactly two bytes.
pub fn u8ref_to_u16(u8s: &[u8]) -> (r: u16)
    requires
        u8s@.len() == 2,
    ensures
        r as int == le_u16(u8s@[0], u8s@[1]),
{
    let b0: u8 = u8s[0];
    let b1: u8 = u8s[1];
    assert((b0 as u16) | ((b1 as u16) << 8) == (b0 as u16) + 256 * (b1 as u16)) by (bit_vector);
    (b0 as u16) | ((b1 as u16) << 8)
}

} // verus!
