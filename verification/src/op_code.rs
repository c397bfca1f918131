//! An opcode byte split into the three 6502 dispatch fields
//! `aaa` (bits 7..5), `bbb` (bits 4..2) and `cc` (bits 1..0).

use vstd::prelude::*;

verus! {

#[derive(Clone, Copy, Debug, PartialEq, Eq, Structural)]
pub struct OpCode {
    pub value: u8,
}

impl OpCode {
    pub fn new(value: u8) -> (r: OpCode)
        ensures
            r.value == value,
    {
        OpCode { value }
    }

    /// The `aaa` field, bits 7..5.
    pub fn upper_op_code(&self) -> (r: u8)
        ensures
            r == (self.value & 0xE0) >> 5u8,
            r < 8,
    {
        let r = (self.value & 0xE0) >> 5u8;
        proof {
            let v = self.value;
            assert((v & 0xE0) >> 5u8 < 8) by (bit_vector);
        }
        r
    }

    /// The `bbb` field, bits 4..2.
    pub fn mid_op_code(&self) -> (r: u8)
        ensures
            r == (self.value & 0x1C) >> 2u8,
            r < 8,
    {
        let r = (self.value & 0x1C) >> 2u8;
        proof {
            let v = self.value;
            assert((v & 0x1C) >> 2u8 < 8) by (bit_vector);
        }
        r
    }

    /// The `cc` field, bits 1..0.
    pub fn lower_op_code(&self) -> (r: u8)
        ensures
            r == self.value & 0x03,
            r < 4,
    {
        let r = self.value & 0x03;
        proof {
            let v = self.value;
            assert(v & 0x03 < 4) by (bit_vector);
        }
        r
    }
}

} // verus!
