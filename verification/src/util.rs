//! Small byte- and bit-level helpers shared by the CPU, PPU and loader.

use vstd::prelude::*;

verus! {

/// Assembles a little-endian 16-bit value from its two bytes.
pub fn combine_u8(lsb: u8, msb: u8) -> (r: u16)
    ensures
        r == msb as u16 * 256 + lsb as u16,
        r & 0xFF == lsb as u16,
        r >> 8 == msb as u16,
{
    let r: u16 = ((msb as u16) << 8u16) | (lsb as u16);
    proof {
        assert(((msb as u16) << 8u16) | (lsb as u16) == msb as u16 * 256 + lsb as u16
            && (((msb as u16) << 8u16) | (lsb as u16)) & 0xFF == lsb as u16
            && (((msb as u16) << 8u16) | (lsb as u16)) >> 8 == msb as u16) by (bit_vector);
    }
    r
}

/// Packs two 4-bit nibbles into one byte, high nibble first.
pub fn combine_nibbles(high: u8, low: u8) -> (r: u8)
    ensures
        r == ((high << 4u8) | low),
        high < 16 && low < 16 ==> r == high * 16 + low,
{
    let r: u8 = (high << 4u8) | low;
    proof {
        assert(high < 16 && low < 16 ==> ((high << 4u8) | low) == high * 16 + low) by (bit_vector);
    }
    r
}

/// The most significant bit of a byte, as 0 or 1.
pub fn msb(value: u8) -> (r: u8)
    ensures
        r == value >> 7u8,
        r == if value >= 128 { 1u8 } else { 0u8 },
{
    proof {
        assert(value >> 7u8 == if value >= 128 { 1u8 } else { 0u8 }) by (bit_vector);
    }
    value >> 7u8
}

/// The least significant bit of a byte, as 0 or 1.
pub fn lsb(value: u8) -> (r: u8)
    ensures
        r == value & 1,
        r == value % 2,
{
    proof {
        assert(value & 1 == value % 2) by (bit_vector);
    }
    value & 1
}

/// Whether bit `n` (counted from the least significant end) of `input` is set.
/// Bits past the top of the byte read as clear.
pub fn nth_bit(input: u8, n: u8) -> (r: bool)
    ensures
        n < 8 ==> r == (input >> n & 1 == 1),
        n >= 8 ==> r == false,
{
    if n < 8 {
        let r = input & (1u8 << n) != 0;
        proof {
            assert(n < 8 ==> ((input & (1u8 << n) != 0) == (input >> n & 1 == 1))) by (bit_vector);
        }
        r
    } else {
        false
    }
}

} // verus!
