//! Big-endian register pair decoding shared by the I2C sensor drivers.

use vstd::prelude::*;

verus! {

/// The unsigned 16-bit value of a big-endian byte pair.
pub open spec fn be_u16_value(msb: u8, lsb: u8) -> int {
    msb as int * 256 + lsb as int
}

/// The two's-complement signed 16-bit value of a big-endian byte pair.
pub open spec fn be_i16_value(msb: u8, lsb: u8) -> int {
    if be_u16_value(msb, lsb) >= 32768 {
        be_u16_value(msb, lsb) - 65536
    } else {
        be_u16_value(msb, lsb)
    }
}

/// The signed value of a big-endian pair is the one 16-bit two's-complement
/// number that agrees with the pair's unsigned value modulo 2^16.
pub proof fn lemma_be_i16_value_twos_complement(msb: u8, lsb: u8)
    ensures
        -32768 <= be_i16_value(msb, lsb) <= 32767,
        (be_u16_value(msb, lsb) - be_i16_value(msb, lsb)) % 65536 == 0,
        0 <= be_u16_value(msb, lsb) <= 65535,
        be_u16_value(msb, lsb) == msb as int * 256 + lsb as int,
{
}

/// Unsigned 16-bit integer from a big-endian byte pair.
pub fn be_u16(msb: u8, lsb: u8) -> (v: u16)
    ensures
        v as int == be_u16_value(msb, lsb),
{
    msb as u16 * 256 + lsb as u16
}

/// Signed 16-bit integer from a big-endian byte pair (two's complement).
pub fn be_i16(msb: u8, lsb: u8) -> (v: i16)
    ensures
        v as int == be_i16_value(msb, lsb),
{
    let raw: i32 = msb as i32 * 256 + lsb as i32;
    if raw >= 32768 {
        (raw - 65536) as i16
    } else {
        raw as i16
    }
}

} // verus!
