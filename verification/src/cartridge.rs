//! The cartridge: iNES container parsing and the NROM (mapper 0) address map.

use vstd::prelude::*;
use crate::errors::{EmuError, LoadError};
use crate::ppu::NameTableMirroring;

verus! {

/// The PRG mask mapper 0 applies to CPU addresses: with two 16 KiB banks the
/// whole 32 KiB window is backed; with one, the upper half mirrors the lower.
pub open spec fn spec_prg_mask(banks: u8) -> u16 {
    if banks > 1 { 0x7FFF } else { 0x3FFF }
}

/// What a mapper-0 CPU read of `address` returns, for mapped addresses.
pub open spec fn spec_cpu_read(c: Cartridge, address: u16) -> u8 {
    c.prg_rom@[(address & spec_prg_mask(c.prg_rom_banks)) as int]
}

#[derive(Debug)]
pub struct Cartridge {
    pub prg_rom_banks: u8,
    pub prg_rom: Vec<u8>,
    pub chr_rom: Vec<u8>,
    pub mapper_code: u8,
    pub nametable_mirroring: NameTableMirroring,
}

impl Cartridge {
    /// PRG storage matches the bank count the header declared.
    pub open spec fn wf(&self) -> bool {
        self.prg_rom@.len() == self.prg_rom_banks as int * 0x4000
    }

    /// An empty cartridge: no banks, every CPU read of it unmapped.
    pub fn new() -> (r: Cartridge)
        ensures
            r.prg_rom@.len() == 0,
            r.chr_rom@.len() == 0,
            r.prg_rom_banks == 0,
            r.mapper_code == 0,
            r.nametable_mirroring == NameTableMirroring::HORIZONTAL,
            r.wf(),
    {
        Cartridge {
            prg_rom: Vec::new(),
            chr_rom: Vec::new(),
            mapper_code: 0,
            prg_rom_banks: 0,
            nametable_mirroring: NameTableMirroring::HORIZONTAL,
        }
    }

    /// A CPU read through mapper 0: addresses from 0x8000 up index PRG-ROM
    /// under the bank mask; everything below the window is unmapped.
    pub fn cpu_read(&self, address: u16) -> (r: Result<u8, EmuError>)
        ensures
            address >= 0x8000 && (address & spec_prg_mask(self.prg_rom_banks)) < self.prg_rom@.len()
                ==> r == Ok::<u8, EmuError>(spec_cpu_read(*self, address)),
            !(address >= 0x8000 && (address & spec_prg_mask(self.prg_rom_banks)) < self.prg_rom@.len())
                ==> r == Err::<u8, EmuError>(EmuError::UnmappedAddress(address)),
            self.wf() && self.prg_rom_banks >= 1 && address >= 0x8000 ==> r.is_ok(),
    {
        if address >= 0x8000 {
            let mask: u16 = if self.prg_rom_banks > 1 { 0x7FFF } else { 0x3FFF };
            let mapped: u16 = address & mask;
            proof {
                assert(address & 0x7FFFu16 < 0x8000 && address & 0x3FFFu16 < 0x4000) by (bit_vector);
            }
            if (mapped as usize) < self.prg_rom.len() {
                Ok(self.prg_rom[mapped as usize])
            } else {
                Err(EmuError::UnmappedAddress(address))
            }
        } else {
            Err(EmuError::UnmappedAddress(address))
        }
    }

    /// A PPU read through mapper 0: pattern-table addresses index CHR-ROM
    /// directly.
    pub fn ppu_read(&self, address: u16) -> (r: Result<u8, EmuError>)
        ensures
            address < 0x2000 && address < self.chr_rom@.len()
                ==> r == Ok::<u8, EmuError>(self.chr_rom@[address as int]),
            !(address < 0x2000 && address < self.chr_rom@.len())
                ==> r == Err::<u8, EmuError>(EmuError::UnmappedAddress(address)),
    {
        if address < 0x2000 && (address as usize) < self.chr_rom.len() {
            Ok(self.chr_rom[address as usize])
        } else {
            Err(EmuError::UnmappedAddress(address))
        }
    }

    /// A CPU write through mapper 0: NROM has no registers and its ROM is
    /// read-only, so the write is ignored.
    pub fn cpu_write(&mut self, address: u16, value: u8)
        ensures
            *final(self) == *old(self),
    {
        let _ = address;
        let _ = value;
    }
}

/// Whether the payload starts with the iNES magic bytes.
pub open spec fn spec_has_magic(p: Seq<u8>) -> bool {
    p.len() >= 16 && p[0] == 0x4E && p[1] == 0x45 && p[2] == 0x53 && p[3] == 0x1A
}

/// The mapper code: high nibble of byte 7 joined with the high nibble of
/// byte 6.
pub open spec fn spec_mapper(p: Seq<u8>) -> u8 {
    (p[7] & 0xF0) | (p[6] >> 4)
}

/// Whether byte 6 announces a 512-byte trainer between header and PRG.
pub open spec fn spec_has_trainer(p: Seq<u8>) -> bool {
    p[6] & 0x04 != 0
}

pub open spec fn spec_prg_size(p: Seq<u8>) -> int {
    p[4] as int * 0x4000
}

pub open spec fn spec_chr_size(p: Seq<u8>) -> int {
    p[5] as int * 0x2000
}

pub open spec fn spec_prg_start(p: Seq<u8>) -> int {
    16 + if spec_has_trainer(p) { 512int } else { 0int }
}

pub open spec fn spec_mirroring(p: Seq<u8>) -> NameTableMirroring {
    if p[6] & 0x01 != 0 { NameTableMirroring::VERTICAL } else { NameTableMirroring::HORIZONTAL }
}

/// A payload this loader accepts: magic present, mapper 0, and long enough
/// to hold the banks its own header declares.
pub open spec fn spec_rom_ok(p: Seq<u8>) -> bool {
    &&& spec_has_magic(p)
    &&& spec_mapper(p) == 0
    &&& p.len() >= spec_prg_start(p) + spec_prg_size(p) + spec_chr_size(p)
}

#[derive(Debug)]
pub struct CartridgeLoader {
    pub payload: Vec<u8>,
}

impl CartridgeLoader {
    /// Parses an iNES image. Succeeds exactly on payloads with the magic
    /// bytes, mapper 0, and enough data for the declared PRG and CHR banks;
    /// the cartridge then holds those banks and the header's mirroring mode.
    pub fn load_cartridge(payload: Vec<u8>) -> (r: Result<Cartridge, LoadError>)
        ensures
            r.is_ok() <==> spec_rom_ok(payload@),
            !spec_has_magic(payload@) ==> r == Err::<Cartridge, LoadError>(LoadError::MalformedRom),
            spec_has_magic(payload@) && spec_mapper(payload@) != 0
                ==> r == Err::<Cartridge, LoadError>(LoadError::UnsupportedMapper(spec_mapper(payload@))),
            spec_has_magic(payload@) && spec_mapper(payload@) == 0 && !spec_rom_ok(payload@)
                ==> r == Err::<Cartridge, LoadError>(LoadError::MalformedRom),
            r matches Ok(c) ==> {
                &&& c.prg_rom_banks == payload@[4]
                &&& c.prg_rom@ == payload@.subrange(spec_prg_start(payload@), spec_prg_start(payload@) + spec_prg_size(payload@))
                &&& c.chr_rom@ == payload@.subrange(spec_prg_start(payload@) + spec_prg_size(payload@), spec_prg_start(payload@) + spec_prg_size(payload@) + spec_chr_size(payload@))
                &&& c.mapper_code == 0
                &&& c.nametable_mirroring == spec_mirroring(payload@)
                &&& c.wf()
            },
    {
        let loader = CartridgeLoader { payload };
        if !loader.has_magic() {
            return Err(LoadError::MalformedRom);
        }
        let mapper_code = loader.load_mapper();
        if mapper_code != 0 {
            return Err(LoadError::UnsupportedMapper(mapper_code));
        }
        let prg_start: usize = 16 + loader.trainer_offset();
        let prg_size: usize = loader.prg_size();
        let chr_size: usize = loader.chr_size();
        if loader.payload.len() < prg_start || loader.payload.len() - prg_start < prg_size
            || loader.payload.len() - prg_start - prg_size < chr_size {
            return Err(LoadError::MalformedRom);
        }
        let prg_rom = copy_range(&loader.payload, prg_start, prg_size);
        let chr_rom = copy_range(&loader.payload, prg_start + prg_size, chr_size);
        let prg_rom_banks = loader.prg_banks();
        let nametable_mirroring = loader.load_nametable_mirroring();
        Ok(Cartridge {
            prg_rom_banks,
            prg_rom,
            chr_rom,
            mapper_code,
            nametable_mirroring,
        })
    }

    /// Whether the payload begins with the iNES magic.
    pub fn has_magic(&self) -> (r: bool)
        ensures
            r == spec_has_magic(self.payload@),
    {
        self.payload.len() >= 16
            && *self.payload.get(0).unwrap() == 0x4E
            && *self.payload.get(1).unwrap() == 0x45
            && *self.payload.get(2).unwrap() == 0x53
            && *self.payload.get(3).unwrap() == 0x1A
    }

    /// The mapper code from the two header nibbles.
    pub fn load_mapper(&self) -> (r: u8)
        requires
            self.payload@.len() >= 16,
        ensures
            r == spec_mapper(self.payload@),
    {
        let lower_nibble: u8 = self.payload[6] >> 4u8;
        let upper_nibble: u8 = self.payload[7] & 0xF0;
        upper_nibble | lower_nibble
    }

    /// The declared count of 16 KiB PRG banks.
    pub fn prg_banks(&self) -> (r: u8)
        requires
            self.payload@.len() >= 16,
        ensures
            r == self.payload@[4],
    {
        self.payload[4]
    }

    /// The PRG section size in bytes.
    pub fn prg_size(&self) -> (r: usize)
        requires
            self.payload@.len() >= 16,
        ensures
            r == spec_prg_size(self.payload@),
    {
        self.payload[4] as usize * 16384
    }

    /// The CHR section size in bytes.
    pub fn chr_size(&self) -> (r: usize)
        requires
            self.payload@.len() >= 16,
        ensures
            r == spec_chr_size(self.payload@),
    {
        self.payload[5] as usize * 8192
    }

    /// How many bytes a trainer, if any, puts between header and PRG.
    pub fn trainer_offset(&self) -> (r: usize)
        requires
            self.payload@.len() >= 16,
        ensures
            spec_has_trainer(self.payload@) ==> r == 512,
            !spec_has_trainer(self.payload@) ==> r == 0,
    {
        if self.payload[6] & 0x04 != 0 {
            512
        } else {
            0
        }
    }

    /// The nametable mirroring bit of byte 6.
    pub fn load_nametable_mirroring(&self) -> (r: NameTableMirroring)
        requires
            self.payload@.len() >= 16,
        ensures
            r == spec_mirroring(self.payload@),
    {
        if self.payload[6] & 0x01 != 0 {
            NameTableMirroring::VERTICAL
        } else {
            NameTableMirroring::HORIZONTAL
        }
    }
}

/// Copies `len` bytes of `v` starting at `start` into a fresh vector.
fn copy_range(v: &Vec<u8>, start: usize, len: usize) -> (r: Vec<u8>)
    requires
        start + len <= v@.len(),
    ensures
        r@ == v@.subrange(start as int, start as int + len as int),
{
    let n = v.len();
    let mut r: Vec<u8> = Vec::new();
    let mut i: usize = 0;
    while i < len
        invariant
            i <= len,
            start + len <= v@.len(),
            n == v@.len(),
            r@ == v@.subrange(start as int, start as int + i as int),
        decreases len - i,
    {
        r.push(v[start + i]);
        proof {
            assert(r@ =~= v@.subrange(start as int, start as int + (i + 1) as int));
        }
        i = i + 1;
    }
    r
}


/// With a single PRG bank, mapper 0 mirrors the upper 16 KiB window onto
/// the lower one: reads at 0x8000+k and 0xC000+k answer from the same
/// byte.
pub proof fn lemma_mapper0_single_bank_mirror(c: Cartridge, k: u16)
    requires
        c.wf(),
        c.prg_rom_banks == 1,
        k < 0x4000,
    ensures
        spec_cpu_read(c, (0x8000 + k) as u16) == spec_cpu_read(c, (0xC000 + k) as u16),
{
    assert(k < 0x4000 ==> (0x8000 + k) as u16 & 0x3FFF == k && (0xC000 + k) as u16 & 0x3FFF == k)
        by (bit_vector);
}

} // verus!
