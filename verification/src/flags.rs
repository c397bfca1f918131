//! The 6502 status register: one byte with named bit masks.

use vstd::prelude::*;

verus! {

pub const NEGATIVE: u8 = 0x80;
pub const OVERFLOW: u8 = 0x40;
pub const PLACEHOLDER: u8 = 0x20;
pub const BRK: u8 = 0x10;
pub const DECIMAL: u8 = 0x08;
pub const IRQ_DIS: u8 = 0x04;
pub const ZERO: u8 = 0x02;
pub const CARRY: u8 = 0x01;

/// The processor status byte. Bit 5 (`PLACEHOLDER`) has no meaning of its own
/// but reads back as set whenever the status travels over the stack.
#[derive(Clone, Copy, Debug, PartialEq, Eq, Structural)]
pub struct Flags {
    pub bits: u8,
}

impl Flags {
    /// A status with exactly the given bits set.
    pub fn from_bits(bits: u8) -> (r: Flags)
        ensures
            r.bits == bits,
    {
        Flags { bits }
    }

    /// The raw byte.
    pub fn bits(&self) -> (r: u8)
        ensures
            r == self.bits,
    {
        self.bits
    }

    /// Sets every bit of `flag`.
    pub fn insert(&mut self, flag: u8)
        ensures
            final(self).bits == old(self).bits | flag,
    {
        self.bits = self.bits | flag;
    }

    /// Clears every bit of `flag`.
    pub fn remove(&mut self, flag: u8)
        ensures
            final(self).bits == old(self).bits & !flag,
    {
        self.bits = self.bits & !flag;
    }

    /// Whether every bit of `flag` is set.
    pub fn contains(&self, flag: u8) -> (r: bool)
        ensures
            r == (self.bits & flag == flag),
    {
        self.bits & flag == flag
    }

    /// Sets or clears `flag` according to `value`.
    pub fn set_flag(&mut self, value: bool, flag: u8)
        ensures
            value ==> final(self).bits == old(self).bits | flag,
            !value ==> final(self).bits == old(self).bits & !flag,
    {
        if value {
            self.insert(flag);
        } else {
            self.remove(flag);
        }
    }
}

} // verus!
