//! The memory bus: routes 16-bit CPU addresses to RAM, the PPU register
//! window, the APU/controller stub, or the cartridge, and latches the PPU's
//! NMI edge for the CPU to sample.

use vstd::prelude::*;
use crate::cartridge::{spec_cpu_read, spec_prg_mask, Cartridge};
use crate::errors::EmuError;
use crate::ppu::{reg_read_rel, reg_write_rel, spec_nmi_line, tick_rel, Ppu};

verus! {

/// CPU RAM, mirrored through 0x1FFF.
pub open spec fn is_ram(address: u16) -> bool {
    address <= 0x1FFF
}

/// The eight PPU registers, mirrored through 0x3FFF.
pub open spec fn is_ppu(address: u16) -> bool {
    0x2000 <= address <= 0x3FFF
}

/// The APU and controller ports, stubbed: reads are 0, writes are dropped.
pub open spec fn is_apu(address: u16) -> bool {
    0x4000 <= address <= 0x401F
}

/// The cartridge window, handed to the mapper.
pub open spec fn is_cartridge(address: u16) -> bool {
    address >= 0x4020
}

/// The RAM cell behind a mirrored RAM address.
pub open spec fn spec_ram_index(address: u16) -> int {
    (address & 0x07FF) as int
}

/// The register a mirrored PPU address reaches.
pub open spec fn spec_ppu_register(address: u16) -> u16 {
    (0x2000 + (address & 0x0007)) as u16
}

/// Whether reading `address` neither faults nor disturbs any state: RAM and
/// the APU stub always qualify, the cartridge when the mapper backs the
/// address, the PPU window never (its registers have read side effects).
pub open spec fn read_pure_ok(b: Bus, address: u16) -> bool {
    ||| is_ram(address)
    ||| is_apu(address)
    ||| (address >= 0x8000 && (address & spec_prg_mask(b.cartridge.prg_rom_banks))
            < b.cartridge.prg_rom@.len())
}

/// The byte a side-effect-free read of `address` returns.
pub open spec fn read_pure(b: Bus, address: u16) -> u8 {
    if is_ram(address) {
        b.memory@[spec_ram_index(address)]
    } else if is_apu(address) {
        0
    } else {
        spec_cpu_read(b.cartridge, address)
    }
}

/// What one CPU read through the bus returns and does.
pub open spec fn bus_fetch_rel(pre: Bus, post: Bus, address: u16, r: Result<u8, EmuError>) -> bool {
    if is_ppu(address) {
        &&& post.memory == pre.memory
        &&& post.cartridge == pre.cartridge
        &&& post.nmi == pre.nmi
        &&& r matches Ok(v) && reg_read_rel(pre.ppu, post.ppu, spec_ppu_register(address), v)
    } else {
        &&& post == pre
        &&& if read_pure_ok(pre, address) {
            r == Ok::<u8, EmuError>(read_pure(pre, address))
        } else {
            r == Err::<u8, EmuError>(EmuError::UnmappedAddress(address))
        }
    }
}

/// Whether every byte of the OAM DMA source page can be read purely.
pub open spec fn dma_source_ok(pre: Bus, page: u8) -> bool {
    forall|j: int| 0 <= j < 256 ==> #[trigger] read_pure_ok(pre, (page as u16 * 256 + j) as u16)
}

/// What one CPU write through the bus does. A write to 0x4014 performs the
/// OAM DMA copy: 256 bytes from the named CPU page land in OAM, starting at
/// the current OAM address and wrapping. DMA sources must read purely; a
/// page under PPU registers or outside the mapper faults.
pub open spec fn bus_store_rel(pre: Bus, post: Bus, value: u8, address: u16, r: Result<(), EmuError>) -> bool {
    if is_ram(address) {
        &&& r is Ok
        &&& post.memory@ == pre.memory@.update(spec_ram_index(address), value)
        &&& post.ppu == pre.ppu
        &&& post.cartridge == pre.cartridge
        &&& post.nmi == pre.nmi
    } else if is_ppu(address) {
        &&& r is Ok
        &&& post.memory == pre.memory
        &&& post.cartridge == pre.cartridge
        &&& post.nmi == pre.nmi
        &&& reg_write_rel(pre.ppu, post.ppu, spec_ppu_register(address), value)
    } else if address == 0x4014 {
        if dma_source_ok(pre, value) {
            &&& r is Ok
            &&& post.memory == pre.memory
            &&& post.cartridge == pre.cartridge
            &&& post.nmi == pre.nmi
            &&& forall|j: int| 0 <= j < 256
                ==> post.ppu.oam@[(pre.ppu.oam_address + j) % 256]
                    == #[trigger] read_pure(pre, (value as u16 * 256 + j) as u16)
            &&& post.ppu == (Ppu { oam: post.ppu.oam, ..pre.ppu })
        } else {
            &&& (r matches Err(e) && e matches EmuError::UnmappedAddress(_))
            &&& post == pre
        }
    } else {
        &&& r is Ok
        &&& post == pre
    }
}

pub struct Bus {
    /// CPU RAM; at least the 2 KiB the mirrored window exposes.
    pub memory: Vec<u8>,
    pub ppu: Ppu,
    pub cartridge: Cartridge,
    /// Latched NMI request: set on the PPU's rising edge, cleared by the
    /// CPU when it services the interrupt.
    pub nmi: bool,
}

impl Bus {
    pub open spec fn wf(&self) -> bool {
        &&& self.memory@.len() >= 0x0800
        &&& self.ppu.wf()
        &&& self.cartridge.wf()
    }

    /// Composes a bus over the given RAM image, PPU and cartridge. RAM
    /// shorter than the 2 KiB window grows with zero bytes.
    pub fn new(memory: Vec<u8>, ppu: Ppu, cartridge: Cartridge) -> (r: Bus)
        requires
            ppu.wf(),
            cartridge.wf(),
        ensures
            r.wf(),
            r.memory@.len() >= memory@.len(),
            forall|i: int| 0 <= i < memory@.len() ==> r.memory@[i] == memory@[i],
            forall|i: int| memory@.len() <= i < r.memory@.len() ==> r.memory@[i] == 0u8,
            r.ppu == ppu,
            r.cartridge == cartridge,
            r.nmi == false,
    {
        let ghost orig = memory@;
        let mut mem = memory;
        while mem.len() < 0x0800
            invariant
                forall|i: int| 0 <= i < orig.len() ==> mem@[i] == orig[i],
                forall|i: int| orig.len() <= i < mem@.len() ==> mem@[i] == 0u8,
                mem@.len() >= orig.len(),
            decreases 0x0800 - mem.len(),
        {
            mem.push(0);
        }
        Bus { memory: mem, ppu, cartridge, nmi: false }
    }

    /// Advances the PPU by the three dots one CPU cycle is worth, and
    /// latches an NMI request on the rising edge of the PPU's NMI line.
    pub fn emulate(&mut self)
        requires
            old(self).wf(),
        ensures
            final(self).wf(),
            final(self).memory == old(self).memory,
            final(self).cartridge == old(self).cartridge,
            exists|m1: Ppu, m2: Ppu|
                tick_rel(old(self).ppu, m1) && tick_rel(m1, m2) && tick_rel(m2, final(self).ppu),
            final(self).nmi == (old(self).nmi
                || (!spec_nmi_line(old(self).ppu) && spec_nmi_line(final(self).ppu))),
    {
        let previous_state = self.ppu.nmi_line();
        self.ppu.emulate();
        if !previous_state && self.ppu.nmi_line() {
            self.nmi = true;
        }
    }

    /// A side-effect-free read, used directly as the OAM DMA source path.
    fn read_pure_at(&self, address: u16) -> (r: Result<u8, EmuError>)
        requires
            self.wf(),
        ensures
            read_pure_ok(*self, address) ==> r == Ok::<u8, EmuError>(read_pure(*self, address)),
            !read_pure_ok(*self, address) ==> r == Err::<u8, EmuError>(EmuError::UnmappedAddress(address)),
    {
        if address <= 0x1FFF {
            let idx = (address & 0x07FF) as usize;
            proof {
                assert(address & 0x07FF < 0x0800) by (bit_vector);
            }
            Ok(self.memory[idx])
        } else if 0x4000 <= address && address <= 0x401F {
            Ok(0)
        } else if address >= 0x4020 {
            self.cartridge.cpu_read(address)
        } else {
            Err(EmuError::UnmappedAddress(address))
        }
    }

    /// A CPU read: RAM and cartridge answer from storage, the APU stub with
    /// zero, PPU registers with their read semantics and side effects.
    pub fn fetch(&mut self, address: u16) -> (r: Result<u8, EmuError>)
        requires
            old(self).wf(),
        ensures
            final(self).wf(),
            bus_fetch_rel(*old(self), *final(self), address, r),
    {
        if 0x2000 <= address && address <= 0x3FFF {
            proof {
                assert(address & 0x0007 < 8) by (bit_vector);
            }
            let reg = 0x2000 + (address & 0x0007);
            Ok(self.ppu.fetch(reg))
        } else {
            self.read_pure_at(address)
        }
    }

    /// A CPU write: RAM stores through the mirror, PPU registers take their
    /// write semantics, 0x4014 runs the OAM DMA copy, the APU range and the
    /// cartridge drop the value.
    pub fn store(&mut self, value: u8, address: u16) -> (r: Result<(), EmuError>)
        requires
            old(self).wf(),
        ensures
            final(self).wf(),
            bus_store_rel(*old(self), *final(self), value, address, r),
    {
        if address <= 0x1FFF {
            let idx = (address & 0x07FF) as usize;
            proof {
                assert(address & 0x07FF < 0x0800) by (bit_vector);
            }
            self.memory.set(idx, value);
            Ok(())
        } else if 0x2000 <= address && address <= 0x3FFF {
            proof {
                assert(address & 0x0007 < 8) by (bit_vector);
            }
            let reg = 0x2000 + (address & 0x0007);
            self.ppu.save(reg, value);
            Ok(())
        } else if address == 0x4014 {
            self.oam_dma(value)
        } else {
            Ok(())
        }
    }

    /// Copies the 256-byte CPU page `value << 8` into OAM.
    fn oam_dma(&mut self, value: u8) -> (r: Result<(), EmuError>)
        requires
            old(self).wf(),
        ensures
            final(self).wf(),
            bus_store_rel(*old(self), *final(self), value, 0x4014, r),
    {
        let base: u16 = (value as u16) << 8u16;
        proof {
            assert((value as u16) << 8u16 == value as u16 * 256 && (value as u16) << 8u16 <= 0xFF00)
                by (bit_vector);
        }
        let mut buffer: Vec<u8> = Vec::new();
        let mut j: usize = 0;
        while j < 256
            invariant
                j <= 256,
                base == value as u16 * 256,
                base <= 0xFF00,
                self.wf(),
                *self == *old(self),
                buffer@.len() == j,
                forall|i: int| 0 <= i < j
                    ==> #[trigger] read_pure_ok(*old(self), (value as u16 * 256 + i) as u16),
                forall|i: int| 0 <= i < j
                    ==> buffer@[i] == #[trigger] read_pure(*old(self), (value as u16 * 256 + i) as u16),
            decreases 256 - j,
        {
            let addr: u16 = base + (j as u16);
            proof {
                assert(addr == (value as u16 * 256 + j as int) as u16);
            }
            match self.read_pure_at(addr) {
                Ok(b) => {
                    buffer.push(b);
                },
                Err(e) => {
                    return Err(e);
                },
            }
            j = j + 1;
        }
        self.ppu.write_oamdma(buffer.as_slice());
        Ok(())
    }
}

} // verus!
