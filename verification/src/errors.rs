//! The fatal conditions an emulation session can surface.

use vstd::prelude::*;

verus! {

/// A condition that aborts execution; the CPU never recovers from one.
#[derive(Clone, Copy, Debug, PartialEq, Eq, Structural)]
pub enum EmuError {
    /// A CPU access landed outside every declared bus range.
    UnmappedAddress(u16),
    /// The fetched byte is no opcode this core decodes.
    UnknownOpCode(u8),
}

/// A reason a byte sequence is no loadable cartridge.
#[derive(Clone, Copy, Debug, PartialEq, Eq, Structural)]
pub enum LoadError {
    /// The iNES magic is missing, or the payload is shorter than its
    /// own header claims.
    MalformedRom,
    /// The header names a mapper this core does not implement.
    UnsupportedMapper(u8),
}

} // verus!
