//! A verified NES emulation core: a 6502-family CPU, the PPU state machine,
//! the address-mapped bus between them, and an iNES cartridge loader.
//!
//! The crate holds the machine model only; presenting frames and reading ROM
//! files from disk belong to the host around it.

pub mod addressing;
pub mod bus;
pub mod cartridge;
pub mod cpu;
pub mod errors;
pub mod flags;
pub mod op_code;
pub mod ppu;
pub mod util;
