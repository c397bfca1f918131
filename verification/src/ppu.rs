//! The picture processing unit: its register file as the CPU sees it at
//! 0x2000–0x2007, the dot/scanline clock with the vblank edge, and the
//! 16 KiB VRAM address space with nametable and palette mirroring.

use vstd::prelude::*;

verus! {

#[derive(Clone, Copy, Debug, PartialEq, Eq, Structural)]
pub enum NameTableMirroring {
    HORIZONTAL,
    VERTICAL,
}

/// One RGB pixel of the fixed master palette.
#[derive(Clone, Copy, Debug, PartialEq, Eq, Structural)]
pub struct Colour {
    pub r: u8,
    pub g: u8,
    pub b: u8,
}

pub struct Ppu {
    /// Backing store for the whole 16 KiB PPU address space: pattern tables
    /// (copied from CHR-ROM), nametables and palette RAM.
    pub ram: Vec<u8>,
    /// Dot counter within the current scanline, 0..=340.
    pub cycles: u16,
    /// Scanline counter, 0..=261.
    pub scanline: u16,
    /// The PPUSTATUS byte; bit 7 is the vblank flag.
    pub ppu_status: u8,
    /// The current VRAM address, 14 bits.
    pub vram_address: u16,
    /// The high PPUADDR byte waiting for its low partner.
    pub addr_latch: u8,
    /// False when the next PPUSCROLL/PPUADDR write is the first of its pair.
    pub write_toggle: bool,
    pub scroll_x: u8,
    pub scroll_y: u8,
    pub nametable_mirroring: NameTableMirroring,
    /// The shared data bus latch; reads of write-only registers return it.
    pub latch: u8,
    /// The PPUCTRL byte.
    pub control: u8,
    /// The PPUMASK byte; accepted but not applied by this renderer.
    pub mask: u8,
    /// Set at the vblank edge, cleared on the pre-render line.
    pub nmi_occurred: bool,
    /// Next background tile cell to compose, 0..960.
    pub current_pixel: u16,
    /// Pixels composed for the frame under construction.
    pub frame: Vec<(u16, u16, Colour)>,
    /// The buffer PPUDATA reads return one access late.
    pub internal_buffer: u8,
    /// Object attribute memory: 64 sprites of 4 bytes.
    pub oam: Vec<u8>,
    pub oam_address: u8,
    /// Dots since power-on, wrapping.
    pub total_cycles: u64,
}

/// Resolves mirroring for a nametable address already folded into
/// 0x2000..=0x2FFF: horizontal mirroring merges tables (0,1) and (2,3),
/// vertical merges (0,2) and (1,3).
pub open spec fn spec_mirror_nametable(m: NameTableMirroring, a: u16) -> int {
    let table = (a - 0x2000) / 0x400;
    match m {
        NameTableMirroring::HORIZONTAL => if table == 1 || table == 3 { a - 0x400 } else { a as int },
        NameTableMirroring::VERTICAL => if table == 2 || table == 3 { a - 0x800 } else { a as int },
    }
}

/// The backing index a VRAM address reads or writes: pattern space maps
/// through unchanged, 0x3000..=0x3EFF mirrors the nametables below it,
/// mirrored nametables fold together, and the palette repeats every 32
/// bytes with 0x3F10/14/18/1C over 0x3F00/04/08/0C.
pub open spec fn spec_vram_index(m: NameTableMirroring, a: u16) -> int {
    if a < 0x2000 {
        a as int
    } else if a < 0x3F00 {
        let b: u16 = if a >= 0x3000 { (a - 0x1000) as u16 } else { a };
        spec_mirror_nametable(m, b)
    } else {
        let pi = (a - 0x3F00) % 0x20;
        let pj: int = if pi == 0x10 || pi == 0x14 || pi == 0x18 || pi == 0x1C { pi - 0x10 } else { pi as int };
        0x3F00 + pj
    }
}

/// How far a PPUDATA access moves the VRAM address.
pub open spec fn spec_vram_increment(control: u8) -> u16 {
    if control & 0x04 != 0 { 32 } else { 1 }
}

/// Whether PPUCTRL bit 7 routes the vblank flag out as an NMI.
pub open spec fn spec_nmi_output(control: u8) -> bool {
    control & 0x80 != 0
}

/// The nametable PPUCTRL bits 1..0 select.
pub open spec fn spec_base_nametable(control: u8) -> u16 {
    (0x2000 + 0x400 * ((control & 0x03) as u16)) as u16
}

/// The level of the PPU side of the NMI line: vblank reached and reported.
pub open spec fn spec_nmi_line(p: Ppu) -> bool {
    p.nmi_occurred && spec_nmi_output(p.control)
}

/// What one dot of the clock does: advance the dot counter, wrap it into a
/// new scanline at 341 dots, raise vblank and the NMI flag at dot 1 of
/// scanline 241, clear both at dot 1 of the pre-render scanline 261.
pub open spec fn tick_rel(pre: Ppu, post: Ppu) -> bool {
    let c2: u16 = if pre.cycles == 340 { 0 } else { (pre.cycles + 1) as u16 };
    let s2: u16 = if pre.cycles == 340 {
        if pre.scanline == 261 { 0 } else { (pre.scanline + 1) as u16 }
    } else {
        pre.scanline
    };
    let vblank_edge = s2 == 241 && c2 == 1;
    let prerender_edge = s2 == 261 && c2 == 1;
    &&& post.cycles == c2
    &&& post.scanline == s2
    &&& post.ppu_status == if vblank_edge { pre.ppu_status | 0x80u8 }
        else if prerender_edge { pre.ppu_status & 0x7Fu8 }
        else { pre.ppu_status }
    &&& post.nmi_occurred == if vblank_edge { true } else if prerender_edge { false } else { pre.nmi_occurred }
    &&& post.total_cycles == if pre.total_cycles == 0xFFFF_FFFF_FFFF_FFFFu64 { 0u64 } else { (pre.total_cycles + 1) as u64 }
    &&& post.ram == pre.ram
    &&& post.vram_address == pre.vram_address
    &&& post.addr_latch == pre.addr_latch
    &&& post.write_toggle == pre.write_toggle
    &&& post.scroll_x == pre.scroll_x
    &&& post.scroll_y == pre.scroll_y
    &&& post.nametable_mirroring == pre.nametable_mirroring
    &&& post.latch == pre.latch
    &&& post.control == pre.control
    &&& post.mask == pre.mask
    &&& post.current_pixel == pre.current_pixel
    &&& post.frame == pre.frame
    &&& post.internal_buffer == pre.internal_buffer
    &&& post.oam == pre.oam
    &&& post.oam_address == pre.oam_address
}

/// The fields a register access never touches.
pub open spec fn reg_quiet(pre: Ppu, post: Ppu) -> bool {
    &&& post.cycles == pre.cycles
    &&& post.scanline == pre.scanline
    &&& post.nametable_mirroring == pre.nametable_mirroring
    &&& post.nmi_occurred == pre.nmi_occurred
    &&& post.current_pixel == pre.current_pixel
    &&& post.frame == pre.frame
    &&& post.total_cycles == pre.total_cycles
}

/// What a CPU read of register `address` (0x2000..=0x2007) returns and does.
/// Write-only registers answer with the shared latch and change nothing;
/// PPUSTATUS reports vblank and clears it together with the write toggle;
/// OAMDATA reads OAM; PPUDATA reads VRAM one access behind through the
/// internal buffer, except for palette addresses, and moves the address on.
pub open spec fn reg_read_rel(pre: Ppu, post: Ppu, address: u16, r: u8) -> bool {
    let reg = address - 0x2000;
    &&& reg_quiet(pre, post)
    &&& post.control == pre.control
    &&& post.mask == pre.mask
    &&& post.latch == pre.latch
    &&& post.oam == pre.oam
    &&& post.oam_address == pre.oam_address
    &&& post.ram == pre.ram
    &&& post.addr_latch == pre.addr_latch
    &&& post.scroll_x == pre.scroll_x
    &&& post.scroll_y == pre.scroll_y
    &&& if reg == 2 {
        &&& r == if pre.ppu_status & 0x80 != 0 { (pre.latch & 0x1F) | 0x80u8 } else { pre.latch & 0x1F }
        &&& post.ppu_status == pre.ppu_status & 0x7F
        &&& post.write_toggle == false
        &&& post.vram_address == pre.vram_address
        &&& post.internal_buffer == pre.internal_buffer
    } else if reg == 4 {
        &&& r == pre.oam@[pre.oam_address as int]
        &&& post.ppu_status == pre.ppu_status
        &&& post.write_toggle == pre.write_toggle
        &&& post.vram_address == pre.vram_address
        &&& post.internal_buffer == pre.internal_buffer
    } else if reg == 7 {
        &&& post.ppu_status == pre.ppu_status
        &&& post.write_toggle == pre.write_toggle
        &&& post.vram_address == (pre.vram_address + spec_vram_increment(pre.control)) % 0x4000
        &&& if pre.vram_address >= 0x3F00 {
            &&& r == pre.ram@[spec_vram_index(pre.nametable_mirroring, pre.vram_address)]
            &&& post.internal_buffer == pre.internal_buffer
        } else {
            &&& r == pre.internal_buffer
            &&& post.internal_buffer == pre.ram@[spec_vram_index(pre.nametable_mirroring, pre.vram_address)]
        }
    } else {
        &&& r == pre.latch
        &&& post.ppu_status == pre.ppu_status
        &&& post.write_toggle == pre.write_toggle
        &&& post.vram_address == pre.vram_address
        &&& post.internal_buffer == pre.internal_buffer
    }
}

/// What a CPU write of `value` to register `address` (0x2000..=0x2007) does.
/// Every write refreshes the shared latch; PPUSCROLL and PPUADDR take their
/// two bytes through the write toggle; PPUDATA stores at the current VRAM
/// address (pattern space is ROM and ignores it) and moves the address on.
pub open spec fn reg_write_rel(pre: Ppu, post: Ppu, address: u16, value: u8) -> bool {
    let reg = address - 0x2000;
    &&& reg_quiet(pre, post)
    &&& post.latch == value
    &&& post.ppu_status == pre.ppu_status
    &&& post.control == if reg == 0 { value } else { pre.control }
    &&& post.mask == if reg == 1 { value } else { pre.mask }
    &&& post.oam_address == if reg == 3 { value }
        else if reg == 4 { if pre.oam_address == 255 { 0u8 } else { (pre.oam_address + 1) as u8 } }
        else { pre.oam_address }
    &&& post.oam@ == if reg == 4 { pre.oam@.update(pre.oam_address as int, value) } else { pre.oam@ }
    &&& post.scroll_x == if reg == 5 && !pre.write_toggle { value } else { pre.scroll_x }
    &&& post.scroll_y == if reg == 5 && pre.write_toggle { value } else { pre.scroll_y }
    &&& post.addr_latch == if reg == 6 && !pre.write_toggle { value } else { pre.addr_latch }
    &&& post.write_toggle == if reg == 5 || reg == 6 { !pre.write_toggle } else { pre.write_toggle }
    &&& post.vram_address == if reg == 6 && pre.write_toggle {
            (((pre.addr_latch as u16) << 8u16 | value as u16) & 0x3FFF) as int
        } else if reg == 7 {
            (pre.vram_address + spec_vram_increment(pre.control)) % 0x4000
        } else {
            pre.vram_address as int
        }
    &&& post.ram@ == if reg == 7 && pre.vram_address >= 0x2000 {
            pre.ram@.update(spec_vram_index(pre.nametable_mirroring, pre.vram_address), value)
        } else {
            pre.ram@
        }
    &&& post.internal_buffer == pre.internal_buffer
}

impl Ppu {
    /// Storage sizes and counter ranges every operation preserves.
    pub open spec fn wf(&self) -> bool {
        &&& self.ram@.len() == 0x4000
        &&& self.oam@.len() == 256
        &&& self.cycles <= 340
        &&& self.scanline <= 261
        &&& self.vram_address < 0x4000
    }

    /// A PPU whose pattern space holds the cartridge CHR-ROM (up to 8 KiB;
    /// anything past that cannot be addressed by mapper 0) and whose
    /// registers and counters start cleared.
    pub fn new(chr_rom: Vec<u8>, mirroring: NameTableMirroring) -> (r: Ppu)
        ensures
            r.wf(),
            forall|i: int| 0 <= i < 0x4000 ==> r.ram@[i] == (
                if i < chr_rom@.len() && i < 0x2000 { chr_rom@[i] } else { 0u8 }
            ),
            r.nametable_mirroring == mirroring,
            r.cycles == 0 && r.scanline == 0 && r.ppu_status == 0,
            r.vram_address == 0 && r.addr_latch == 0 && r.write_toggle == false,
            r.scroll_x == 0 && r.scroll_y == 0,
            r.latch == 0 && r.control == 0 && r.mask == 0,
            r.nmi_occurred == false,
            r.current_pixel == 0 && r.frame@.len() == 0,
            r.internal_buffer == 0 && r.oam_address == 0 && r.total_cycles == 0,
            forall|i: int| 0 <= i < 256 ==> r.oam@[i] == 0u8,
    {
        let mut ram: Vec<u8> = Vec::new();
        let mut i: usize = 0;
        while i < 0x4000
            invariant
                i <= 0x4000,
                ram@.len() == i,
                forall|j: int| 0 <= j < i ==> ram@[j] == (
                    if j < chr_rom@.len() && j < 0x2000 { chr_rom@[j] } else { 0u8 }
                ),
            decreases 0x4000 - i,
        {
            if i < chr_rom.len() && i < 0x2000 {
                ram.push(chr_rom[i]);
            } else {
                ram.push(0);
            }
            i = i + 1;
        }
        let mut oam: Vec<u8> = Vec::new();
        let mut k: usize = 0;
        while k < 256
            invariant
                k <= 256,
                oam@.len() == k,
                forall|j: int| 0 <= j < k ==> oam@[j] == 0u8,
            decreases 256 - k,
        {
            oam.push(0);
            k = k + 1;
        }
        Ppu {
            ram,
            cycles: 0,
            scanline: 0,
            ppu_status: 0,
            vram_address: 0,
            addr_latch: 0,
            write_toggle: false,
            scroll_x: 0,
            scroll_y: 0,
            nametable_mirroring: mirroring,
            latch: 0,
            control: 0,
            mask: 0,
            nmi_occurred: false,
            current_pixel: 0,
            frame: Vec::new(),
            internal_buffer: 0,
            oam,
            oam_address: 0,
            total_cycles: 0,
        }
    }

    /// Advances the clock by one dot.
    pub fn tick(&mut self)
        requires
            old(self).wf(),
        ensures
            final(self).wf(),
            tick_rel(*old(self), *final(self)),
    {
        if self.cycles == 340 {
            self.cycles = 0;
            if self.scanline == 261 {
                self.scanline = 0;
            } else {
                self.scanline = self.scanline + 1;
            }
        } else {
            self.cycles = self.cycles + 1;
        }
        self.total_cycles = self.total_cycles.wrapping_add(1);
        if self.scanline == 241 && self.cycles == 1 {
            self.set_vblank();
            self.nmi_occurred = true;
        } else if self.scanline == 261 && self.cycles == 1 {
            self.clear_vblank();
            self.nmi_occurred = false;
        }
    }

    /// Advances the clock by the three dots one CPU cycle is worth.
    pub fn emulate(&mut self)
        requires
            old(self).wf(),
        ensures
            final(self).wf(),
            exists|m1: Ppu, m2: Ppu|
                tick_rel(*old(self), m1) && tick_rel(m1, m2) && tick_rel(m2, *final(self)),
    {
        self.tick();
        let ghost m1 = *self;
        self.tick();
        let ghost m2 = *self;
        self.tick();
        proof {
            assert(tick_rel(*old(self), m1) && tick_rel(m1, m2) && tick_rel(m2, *final(self)));
        }
    }

    fn set_vblank(&mut self)
        ensures
            *final(self) == (Ppu { ppu_status: old(self).ppu_status | 0x80, ..*old(self) }),
    {
        self.ppu_status = self.ppu_status | 0x80;
    }

    fn clear_vblank(&mut self)
        ensures
            *final(self) == (Ppu { ppu_status: old(self).ppu_status & 0x7F, ..*old(self) }),
    {
        self.ppu_status = self.ppu_status & 0x7F;
    }

    fn is_vblank(&self) -> (r: bool)
        ensures
            r == (self.ppu_status & 0x80 != 0),
    {
        (self.ppu_status & 0x80) != 0
    }

    /// Whether PPUCTRL routes vblank out as an NMI.
    pub fn get_nmi_output(&self) -> (r: bool)
        ensures
            r == spec_nmi_output(self.control),
    {
        (self.control & 0x80) != 0
    }

    /// The level of the PPU side of the NMI line.
    pub fn nmi_line(&self) -> (r: bool)
        ensures
            r == spec_nmi_line(*self),
    {
        self.nmi_occurred && self.get_nmi_output()
    }

    fn get_vram_increment(&self) -> (r: u16)
        ensures
            r == spec_vram_increment(self.control),
    {
        if (self.control & 0x04) != 0 { 32 } else { 1 }
    }

    /// The backing index the current mirroring assigns to a VRAM address.
    fn map_vram(&self, a: u16) -> (r: usize)
        requires
            a < 0x4000,
        ensures
            r == spec_vram_index(self.nametable_mirroring, a),
            r < 0x4000,
    {
        if a < 0x2000 {
            a as usize
        } else if a < 0x3F00 {
            let b: u16 = if a >= 0x3000 { a - 0x1000 } else { a };
            let table: u16 = (b - 0x2000) / 0x400;
            let folded: u16 = match self.nametable_mirroring {
                NameTableMirroring::HORIZONTAL => if table == 1 || table == 3 { b - 0x400 } else { b },
                NameTableMirroring::VERTICAL => if table == 2 || table == 3 { b - 0x800 } else { b },
            };
            folded as usize
        } else {
            let pi: u16 = (a - 0x3F00) % 0x20;
            let pj: u16 = if pi == 0x10 || pi == 0x14 || pi == 0x18 || pi == 0x1C { pi - 0x10 } else { pi };
            (0x3F00 + pj) as usize
        }
    }

    /// Moves the VRAM address on by the configured increment, inside the
    /// 14-bit space.
    fn increment_vram(&mut self)
        requires
            old(self).vram_address < 0x4000,
        ensures
            *final(self) == (Ppu {
                vram_address: ((old(self).vram_address + spec_vram_increment(old(self).control)) % 0x4000) as u16,
                ..*old(self)
            }),
    {
        let inc = self.get_vram_increment();
        self.vram_address = (self.vram_address + inc) % 0x4000;
    }

    /// A CPU read of one of the eight memory-mapped registers.
    pub fn fetch(&mut self, address: u16) -> (r: u8)
        requires
            old(self).wf(),
            0x2000 <= address <= 0x2007,
        ensures
            final(self).wf(),
            reg_read_rel(*old(self), *final(self), address, r),
    {
        let reg = address - 0x2000;
        if reg == 2 {
            let mut result = self.latch & 0x1F;
            if self.is_vblank() {
                result = result | 0x80;
            }
            self.clear_vblank();
            self.write_toggle = false;
            result
        } else if reg == 4 {
            self.oam[self.oam_address as usize]
        } else if reg == 7 {
            let idx = self.map_vram(self.vram_address);
            let data = self.ram[idx];
            if self.vram_address >= 0x3F00 {
                self.increment_vram();
                data
            } else {
                let result = self.internal_buffer;
                self.internal_buffer = data;
                self.increment_vram();
                result
            }
        } else {
            self.latch
        }
    }

    /// A CPU write to one of the eight memory-mapped registers.
    pub fn save(&mut self, address: u16, value: u8)
        requires
            old(self).wf(),
            0x2000 <= address <= 0x2007,
        ensures
            final(self).wf(),
            reg_write_rel(*old(self), *final(self), address, value),
    {
        let reg = address - 0x2000;
        if reg == 0 {
            self.control = value;
        } else if reg == 1 {
            self.mask = value;
        } else if reg == 3 {
            self.oam_address = value;
        } else if reg == 4 {
            let idx = self.oam_address as usize;
            self.oam.set(idx, value);
            self.oam_address = self.oam_address.wrapping_add(1);
        } else if reg == 5 {
            if !self.write_toggle {
                self.scroll_x = value;
            } else {
                self.scroll_y = value;
            }
            self.write_toggle = !self.write_toggle;
        } else if reg == 6 {
            if !self.write_toggle {
                self.addr_latch = value;
            } else {
                let high = self.addr_latch as u16;
                let combined: u16 = (high << 8u16 | value as u16) & 0x3FFF;
                proof {
                    let c = (old(self).addr_latch as u16) << 8u16 | value as u16;
                    assert(c & 0x3FFF < 0x4000) by (bit_vector);
                }
                self.vram_address = combined;
            }
            self.write_toggle = !self.write_toggle;
        } else if reg == 7 {
            if self.vram_address >= 0x2000 {
                let idx = self.map_vram(self.vram_address);
                self.ram.set(idx, value);
            }
            self.increment_vram();
        }
        self.latch = value;
    }

    /// Copies one 256-byte page into OAM, starting at the current OAM
    /// address and wrapping.
    pub fn write_oamdma(&mut self, data: &[u8])
        requires
            old(self).wf(),
            data@.len() == 256,
        ensures
            final(self).wf(),
            forall|j: int| 0 <= j < 256
                ==> final(self).oam@[(old(self).oam_address + j) % 256] == data@[j],
            *final(self) == (Ppu { oam: final(self).oam, ..*old(self) }),
    {
        let start = self.oam_address as usize;
        let mut idx: usize = start;
        while idx < 256
            invariant
                start <= idx <= 256,
                start < 256,
                self.oam@.len() == 256,
                data@.len() == 256,
                forall|k: int| start <= k < idx ==> self.oam@[k] == data@[k - start],
                *self == (Ppu { oam: self.oam, ..*old(self) }),
            decreases 256 - idx,
        {
            self.oam.set(idx, data[idx - start]);
            idx = idx + 1;
        }
        let mut idx2: usize = 0;
        while idx2 < start
            invariant
                idx2 <= start,
                start < 256,
                self.oam@.len() == 256,
                data@.len() == 256,
                forall|k: int| start <= k < 256 ==> self.oam@[k] == data@[k - start],
                forall|k: int| 0 <= k < idx2 ==> self.oam@[k] == data@[k + 256 - start],
                *self == (Ppu { oam: self.oam, ..*old(self) }),
            decreases start - idx2,
        {
            self.oam.set(idx2, data[idx2 + (256 - start)]);
            idx2 = idx2 + 1;
        }
        proof {
            assert forall|j: int| 0 <= j < 256
                implies self.oam@[(start + j) % 256] == data@[j] by {
                if start + j < 256 {
                    assert((start + j) % 256 == start + j);
                } else {
                    assert((start + j) % 256 == start + j - 256);
                }
            }
        }
    }
}

/// Two consecutive PPUADDR writes point VRAM at the 14 low bits of
/// `first << 8 | second`.
pub proof fn lemma_ppuaddr_pair(p0: Ppu, p1: Ppu, p2: Ppu, first: u8, second: u8)
    requires
        !p0.write_toggle,
        reg_write_rel(p0, p1, 0x2006, first),
        reg_write_rel(p1, p2, 0x2006, second),
    ensures
        p2.vram_address == ((first as u16) << 8u16 | second as u16) & 0x3FFF,
        p2.write_toggle == p0.write_toggle,
{
    assert(p1.addr_latch == first && p1.write_toggle);
}

/// Reading PPUSTATUS reports the vblank bit and, as its side effect, clears
/// both vblank and the PPUSCROLL/PPUADDR write toggle.
pub proof fn lemma_ppustatus_read(p0: Ppu, p1: Ppu, r: u8)
    requires
        reg_read_rel(p0, p1, 0x2002, r),
    ensures
        (r & 0x80 != 0) == (p0.ppu_status & 0x80 != 0),
        p1.ppu_status & 0x80 == 0,
        !p1.write_toggle,
{
    let l = p0.latch;
    let st = p0.ppu_status;
    assert(((l & 0x1F) | 0x80) & 0x80 != 0) by (bit_vector);
    assert((l & 0x1F) & 0x80 == 0) by (bit_vector);
    assert((st & 0x7F) & 0x80 == 0) by (bit_vector);
}

/// A read of a write-only PPU register returns the shared data-bus latch,
/// which always holds the last value any register write carried.
pub proof fn lemma_open_bus_read(p0: Ppu, p1: Ppu, p2: Ppu, waddr: u16, raddr: u16, value: u8, r: u8)
    requires
        0x2000 <= waddr <= 0x2007,
        reg_write_rel(p0, p1, waddr, value),
        raddr == 0x2000 || raddr == 0x2001 || raddr == 0x2003 || raddr == 0x2005 || raddr == 0x2006,
        reg_read_rel(p1, p2, raddr, r),
    ensures
        r == value,
{
}

/// Nametable mirroring folds the tables in pairs: under horizontal
/// mirroring table 1 reads table 0's storage and table 3 reads table 2's;
/// under vertical mirroring table 2 reads table 0's and table 3 table 1's.
pub proof fn lemma_nametable_mirror_rules(m: NameTableMirroring, k: u16)
    requires
        k < 0x400,
    ensures
        m == NameTableMirroring::HORIZONTAL ==> {
            &&& spec_vram_index(m, (0x2400 + k) as u16) == spec_vram_index(m, (0x2000 + k) as u16)
            &&& spec_vram_index(m, (0x2C00 + k) as u16) == spec_vram_index(m, (0x2800 + k) as u16)
        },
        m == NameTableMirroring::VERTICAL ==> {
            &&& spec_vram_index(m, (0x2800 + k) as u16) == spec_vram_index(m, (0x2000 + k) as u16)
            &&& spec_vram_index(m, (0x2C00 + k) as u16) == spec_vram_index(m, (0x2400 + k) as u16)
        },
{
}

/// A PPUDATA write lands in the backing cell of the written nametable
/// address, and a later buffered PPUDATA read through any address that
/// mirrors it refills the internal buffer with the written value.
pub proof fn lemma_vram_write_then_read(p0: Ppu, p1: Ppu, p2: Ppu, p3: Ppu, value: u8, r: u8)
    requires
        p0.wf(),
        0x2000 <= p0.vram_address < 0x3000,
        reg_write_rel(p0, p1, 0x2007, value),
        0x2000 <= p2.vram_address < 0x3000,
        spec_vram_index(p2.nametable_mirroring, p2.vram_address)
            == spec_vram_index(p0.nametable_mirroring, p0.vram_address),
        p2.nametable_mirroring == p0.nametable_mirroring,
        p2.ram == p1.ram,
        reg_read_rel(p2, p3, 0x2007, r),
    ensures
        p3.internal_buffer == value,
{
}


/// The fixed 64-entry master palette, indexed by the 6-bit colour code
/// read from palette RAM.
pub open spec fn spec_master_palette(code: u8) -> Colour {
    let c = code & 0x3F;
    if c == 0 { Colour { r: 84, g: 84, b: 84 } }
    else if c == 1 { Colour { r: 0, g: 30, b: 116 } }
    else if c == 2 { Colour { r: 8, g: 16, b: 144 } }
    else if c == 3 { Colour { r: 48, g: 0, b: 136 } }
    else if c == 4 { Colour { r: 68, g: 0, b: 100 } }
    else if c == 5 { Colour { r: 92, g: 0, b: 48 } }
    else if c == 6 { Colour { r: 84, g: 4, b: 0 } }
    else if c == 7 { Colour { r: 60, g: 24, b: 0 } }
    else if c == 8 { Colour { r: 32, g: 42, b: 0 } }
    else if c == 9 { Colour { r: 8, g: 58, b: 0 } }
    else if c == 10 { Colour { r: 0, g: 64, b: 0 } }
    else if c == 11 { Colour { r: 0, g: 60, b: 0 } }
    else if c == 12 { Colour { r: 0, g: 50, b: 60 } }
    else if c == 13 { Colour { r: 0, g: 0, b: 0 } }
    else if c == 14 { Colour { r: 0, g: 0, b: 0 } }
    else if c == 15 { Colour { r: 0, g: 0, b: 0 } }
    else if c == 16 { Colour { r: 152, g: 150, b: 152 } }
    else if c == 17 { Colour { r: 8, g: 76, b: 196 } }
    else if c == 18 { Colour { r: 48, g: 50, b: 236 } }
    else if c == 19 { Colour { r: 92, g: 30, b: 228 } }
    else if c == 20 { Colour { r: 136, g: 20, b: 176 } }
    else if c == 21 { Colour { r: 160, g: 20, b: 100 } }
    else if c == 22 { Colour { r: 152, g: 34, b: 32 } }
    else if c == 23 { Colour { r: 120, g: 60, b: 0 } }
    else if c == 24 { Colour { r: 84, g: 90, b: 0 } }
    else if c == 25 { Colour { r: 40, g: 114, b: 0 } }
    else if c == 26 { Colour { r: 8, g: 124, b: 0 } }
    else if c == 27 { Colour { r: 0, g: 118, b: 40 } }
    else if c == 28 { Colour { r: 0, g: 102, b: 120 } }
    else if c == 29 { Colour { r: 0, g: 0, b: 0 } }
    else if c == 30 { Colour { r: 0, g: 0, b: 0 } }
    else if c == 31 { Colour { r: 0, g: 0, b: 0 } }
    else if c == 32 { Colour { r: 236, g: 238, b: 236 } }
    else if c == 33 { Colour { r: 76, g: 154, b: 236 } }
    else if c == 34 { Colour { r: 120, g: 124, b: 236 } }
    else if c == 35 { Colour { r: 176, g: 98, b: 236 } }
    else if c == 36 { Colour { r: 228, g: 84, b: 236 } }
    else if c == 37 { Colour { r: 236, g: 88, b: 180 } }
    else if c == 38 { Colour { r: 236, g: 106, b: 100 } }
    else if c == 39 { Colour { r: 212, g: 136, b: 32 } }
    else if c == 40 { Colour { r: 160, g: 170, b: 0 } }
    else if c == 41 { Colour { r: 116, g: 196, b: 0 } }
    else if c == 42 { Colour { r: 76, g: 208, b: 32 } }
    else if c == 43 { Colour { r: 56, g: 204, b: 108 } }
    else if c == 44 { Colour { r: 56, g: 180, b: 204 } }
    else if c == 45 { Colour { r: 60, g: 60, b: 60 } }
    else if c == 46 { Colour { r: 0, g: 0, b: 0 } }
    else if c == 47 { Colour { r: 0, g: 0, b: 0 } }
    else if c == 48 { Colour { r: 236, g: 238, b: 236 } }
    else if c == 49 { Colour { r: 168, g: 204, b: 236 } }
    else if c == 50 { Colour { r: 188, g: 188, b: 236 } }
    else if c == 51 { Colour { r: 212, g: 178, b: 236 } }
    else if c == 52 { Colour { r: 236, g: 174, b: 236 } }
    else if c == 53 { Colour { r: 236, g: 174, b: 212 } }
    else if c == 54 { Colour { r: 236, g: 180, b: 176 } }
    else if c == 55 { Colour { r: 228, g: 196, b: 144 } }
    else if c == 56 { Colour { r: 204, g: 210, b: 120 } }
    else if c == 57 { Colour { r: 180, g: 222, b: 120 } }
    else if c == 58 { Colour { r: 168, g: 226, b: 144 } }
    else if c == 59 { Colour { r: 152, g: 226, b: 180 } }
    else if c == 60 { Colour { r: 160, g: 214, b: 228 } }
    else if c == 61 { Colour { r: 160, g: 162, b: 160 } }
    else if c == 62 { Colour { r: 0, g: 0, b: 0 } }
    else { Colour { r: 0, g: 0, b: 0 } }
}

/// The RGB triple the master palette assigns to a colour code; codes use
/// only their low six bits.
pub fn master_palette(code: u8) -> (r: Colour)
    ensures
        r == spec_master_palette(code),
{
        match code & 0x3F {
            0 => Colour { r: 84, g: 84, b: 84 },
            1 => Colour { r: 0, g: 30, b: 116 },
            2 => Colour { r: 8, g: 16, b: 144 },
            3 => Colour { r: 48, g: 0, b: 136 },
            4 => Colour { r: 68, g: 0, b: 100 },
            5 => Colour { r: 92, g: 0, b: 48 },
            6 => Colour { r: 84, g: 4, b: 0 },
            7 => Colour { r: 60, g: 24, b: 0 },
            8 => Colour { r: 32, g: 42, b: 0 },
            9 => Colour { r: 8, g: 58, b: 0 },
            10 => Colour { r: 0, g: 64, b: 0 },
            11 => Colour { r: 0, g: 60, b: 0 },
            12 => Colour { r: 0, g: 50, b: 60 },
            13 => Colour { r: 0, g: 0, b: 0 },
            14 => Colour { r: 0, g: 0, b: 0 },
            15 => Colour { r: 0, g: 0, b: 0 },
            16 => Colour { r: 152, g: 150, b: 152 },
            17 => Colour { r: 8, g: 76, b: 196 },
            18 => Colour { r: 48, g: 50, b: 236 },
            19 => Colour { r: 92, g: 30, b: 228 },
            20 => Colour { r: 136, g: 20, b: 176 },
            21 => Colour { r: 160, g: 20, b: 100 },
            22 => Colour { r: 152, g: 34, b: 32 },
            23 => Colour { r: 120, g: 60, b: 0 },
            24 => Colour { r: 84, g: 90, b: 0 },
            25 => Colour { r: 40, g: 114, b: 0 },
            26 => Colour { r: 8, g: 124, b: 0 },
            27 => Colour { r: 0, g: 118, b: 40 },
            28 => Colour { r: 0, g: 102, b: 120 },
            29 => Colour { r: 0, g: 0, b: 0 },
            30 => Colour { r: 0, g: 0, b: 0 },
            31 => Colour { r: 0, g: 0, b: 0 },
            32 => Colour { r: 236, g: 238, b: 236 },
            33 => Colour { r: 76, g: 154, b: 236 },
            34 => Colour { r: 120, g: 124, b: 236 },
            35 => Colour { r: 176, g: 98, b: 236 },
            36 => Colour { r: 228, g: 84, b: 236 },
            37 => Colour { r: 236, g: 88, b: 180 },
            38 => Colour { r: 236, g: 106, b: 100 },
            39 => Colour { r: 212, g: 136, b: 32 },
            40 => Colour { r: 160, g: 170, b: 0 },
            41 => Colour { r: 116, g: 196, b: 0 },
            42 => Colour { r: 76, g: 208, b: 32 },
            43 => Colour { r: 56, g: 204, b: 108 },
            44 => Colour { r: 56, g: 180, b: 204 },
            45 => Colour { r: 60, g: 60, b: 60 },
            46 => Colour { r: 0, g: 0, b: 0 },
            47 => Colour { r: 0, g: 0, b: 0 },
            48 => Colour { r: 236, g: 238, b: 236 },
            49 => Colour { r: 168, g: 204, b: 236 },
            50 => Colour { r: 188, g: 188, b: 236 },
            51 => Colour { r: 212, g: 178, b: 236 },
            52 => Colour { r: 236, g: 174, b: 236 },
            53 => Colour { r: 236, g: 174, b: 212 },
            54 => Colour { r: 236, g: 180, b: 176 },
            55 => Colour { r: 228, g: 196, b: 144 },
            56 => Colour { r: 204, g: 210, b: 120 },
            57 => Colour { r: 180, g: 222, b: 120 },
            58 => Colour { r: 168, g: 226, b: 144 },
            59 => Colour { r: 152, g: 226, b: 180 },
            60 => Colour { r: 160, g: 214, b: 228 },
            61 => Colour { r: 160, g: 162, b: 160 },
            62 => Colour { r: 0, g: 0, b: 0 },
            _ => Colour { r: 0, g: 0, b: 0 },
        }
}

/// The pattern table PPUCTRL bit 4 selects for the background.
pub open spec fn spec_bg_pattern(control: u8) -> u16 {
    if control & 0x10 != 0 { 0x1000 } else { 0 }
}

/// The pattern table PPUCTRL bit 3 selects for sprites.
pub open spec fn spec_sprite_pattern(control: u8) -> u16 {
    if control & 0x08 != 0 { 0x1000 } else { 0 }
}

/// The four palette RAM addresses of a sprite palette group.
pub open spec fn spec_sprite_colors(palette_idx: u8) -> Seq<u16> {
    let inc: u16 = (0x11 + 4 * palette_idx as u16) as u16;
    seq![
        0x3F00u16,
        (0x3F00 + inc) as u16,
        (0x3F00 + inc + 1) as u16,
        (0x3F00 + inc + 2) as u16,
    ]
}

/// Which two attribute bits colour a background cell: the attribute byte
/// packs four 2-bit palette selectors, one per 2x2 tile quadrant.
pub open spec fn spec_attr_shift(tile_row: u16, tile_column: u16) -> u8 {
    if tile_column % 4 / 2 == 0 && tile_row % 4 / 2 == 0 { 0 }
    else if tile_column % 4 / 2 == 1 && tile_row % 4 / 2 == 0 { 2 }
    else if tile_column % 4 / 2 == 0 && tile_row % 4 / 2 == 1 { 4 }
    else { 6 }
}

/// The four palette RAM addresses of the background palette group that
/// covers a tile cell.
pub open spec fn spec_bg_colors(p: Ppu, tile_row: u16, tile_column: u16) -> Seq<u16> {
    let attribute_table = spec_base_nametable(p.control) + 0x3C0;
    let attribute_idx = tile_column / 4 * 8 + tile_row / 4;
    let attribute = p.ram@[attribute_table + attribute_idx];
    let palette_idx = (attribute >> spec_attr_shift(tile_row, tile_column)) & 0x03;
    let inc: u16 = (1 + 4 * palette_idx as u16) as u16;
    seq![
        0x3F00u16,
        (0x3F00 + inc) as u16,
        (0x3F00 + inc + 1) as u16,
        (0x3F00 + inc + 2) as u16,
    ]
}

/// Pixel `k` (of 64, in fetch order) of the background tile cell the PPU
/// composes next.
pub open spec fn spec_tile_pixel(p: Ppu, k: int) -> (u16, u16, Colour) {
    let x = k / 8;
    let y = k % 8;
    let tile_id = p.ram@[spec_base_nametable(p.control) + p.current_pixel];
    let pattern = spec_bg_pattern(p.control) + tile_id as int * 16;
    let left = p.ram@[pattern + x];
    let right = p.ram@[pattern + x + 8];
    let lp = (left >> ((7 - y) as u8)) & 1;
    let rp = (right >> ((7 - y) as u8)) & 1;
    let pixel = (rp * 2 + lp) as u8;
    let tile_row = p.current_pixel % 32;
    let tile_column = p.current_pixel / 32;
    let chosen = p.ram@[spec_bg_colors(p, tile_row as u16, tile_column as u16)[pixel as int] as int];
    (((tile_row as int * 8 + y) as u16), ((tile_column as int * 8 + x) as u16), spec_master_palette(chosen))
}

/// The 64 pixels of the next background tile cell.
pub open spec fn spec_tile_pixels(p: Ppu, n: nat) -> Seq<(u16, u16, Colour)>
    decreases n,
{
    if n == 0 {
        Seq::empty()
    } else {
        spec_tile_pixels(p, (n - 1) as nat).push(spec_tile_pixel(p, n - 1))
    }
}

/// Whether sprite `i` sits outside the drawable area and is skipped.
pub open spec fn spec_sprite_skip(p: Ppu, i: int) -> bool {
    p.oam@[4 * i] > 239 || p.oam@[4 * i + 3] > 249
}

/// Pixel `k` (of 64, in fetch order) of sprite `i`, or `None` where the
/// colour index is 0 and the pixel is transparent.
pub open spec fn spec_sprite_pixel_opt(p: Ppu, i: int, k: int) -> Option<(u16, u16, Colour)> {
    let x = k / 8;
    let y = k % 8;
    let tile_y = p.oam@[4 * i] as u16;
    let tile_idx = p.oam@[4 * i + 1];
    let attributes = p.oam@[4 * i + 2];
    let tile_x = p.oam@[4 * i + 3] as u16;
    let pattern = spec_sprite_pattern(p.control) + tile_idx as int * 16;
    let left = p.ram@[pattern + x];
    let right = p.ram@[pattern + x + 8];
    let lp = (left >> ((7 - y) as u8)) & 1;
    let rp = (right >> ((7 - y) as u8)) & 1;
    let pixel = (rp * 2 + lp) as u8;
    if pixel == 0 {
        None
    } else {
        let chosen = p.ram@[spec_sprite_colors(attributes & 0x03)[pixel as int] as int];
        Some((((tile_x + x) as u16), ((tile_y + y) as u16), spec_master_palette(chosen)))
    }
}

/// The visible pixels of sprite `i`, first `n` fetch positions.
pub open spec fn spec_sprite_pix_seq(p: Ppu, i: int, n: nat) -> Seq<(u16, u16, Colour)>
    decreases n,
{
    if n == 0 {
        Seq::empty()
    } else {
        spec_sprite_pix_seq(p, i, (n - 1) as nat) + match spec_sprite_pixel_opt(p, i, n - 1) {
            Some(px) => seq![px],
            None => Seq::empty(),
        }
    }
}

/// The pixels of the first `n` sprites, in OAM order, skipped sprites
/// contributing nothing.
pub open spec fn spec_sprites_seq(p: Ppu, n: nat) -> Seq<(u16, u16, Colour)>
    decreases n,
{
    if n == 0 {
        Seq::empty()
    } else {
        spec_sprites_seq(p, (n - 1) as nat) + if spec_sprite_skip(p, n - 1) {
            Seq::empty()
        } else {
            spec_sprite_pix_seq(p, n - 1, 64)
        }
    }
}

impl Ppu {
    /// The four palette RAM addresses of a sprite palette group.
    pub fn get_sprite_color(&self, palette_idx: u8) -> (r: Vec<u16>)
        requires
            palette_idx <= 3,
        ensures
            r@ == spec_sprite_colors(palette_idx),
            forall|j: int| 0 <= j < r@.len() ==> r@[j] < 0x4000,
    {
        let background: u16 = 0x3F00;
        let palette_increment: u16 = 0x11 + 4 * (palette_idx as u16);
        let mut r: Vec<u16> = Vec::new();
        r.push(background);
        r.push(background + palette_increment);
        r.push(background + palette_increment + 1);
        r.push(background + palette_increment + 2);
        proof {
            assert(r@ =~= spec_sprite_colors(palette_idx));
        }
        r
    }

    /// The four palette RAM addresses colouring a background tile cell.
    fn get_background_colour(&self, tile_row: u16, tile_column: u16) -> (r: Vec<u16>)
        requires
            self.wf(),
            tile_row < 32,
            tile_column < 30,
        ensures
            r@ == spec_bg_colors(*self, tile_row, tile_column),
            r@.len() == 4,
            forall|j: int| 0 <= j < r@.len() ==> r@[j] < 0x4000,
    {
        let attribute_table: u16 = self.get_base_nametable_address() + 0x03C0;
        let attribute_idx: u16 = tile_column / 4 * 8 + tile_row / 4;
        let attribute: u8 = self.ram[(attribute_table + attribute_idx) as usize];
        let shift: u8 = if tile_column % 4 / 2 == 0 && tile_row % 4 / 2 == 0 { 0 }
            else if tile_column % 4 / 2 == 1 && tile_row % 4 / 2 == 0 { 2 }
            else if tile_column % 4 / 2 == 0 && tile_row % 4 / 2 == 1 { 4 }
            else { 6 };
        let palette_idx: u8 = (attribute >> shift) & 0x03;
        proof {
            let a = attribute;
            let sh = shift;
            assert((a >> sh) & 0x03 <= 3) by (bit_vector);
        }
        let background: u16 = 0x3F00;
        let palette_increment: u16 = 1 + 4 * (palette_idx as u16);
        let mut r: Vec<u16> = Vec::new();
        r.push(background);
        r.push(background + palette_increment);
        r.push(background + palette_increment + 1);
        r.push(background + palette_increment + 2);
        proof {
            assert(r@ =~= spec_bg_colors(*self, tile_row, tile_column));
        }
        r
    }

    /// The nametable PPUCTRL selects.
    fn get_base_nametable_address(&self) -> (r: u16)
        ensures
            r == spec_base_nametable(self.control),
            0x2000 <= r <= 0x2C00,
    {
        proof {
            let c = self.control;
            assert(c & 0x03 <= 3) by (bit_vector);
        }
        match self.control & 0b0000_0011 {
            0 => 0x2000,
            1 => 0x2400,
            2 => 0x2800,
            _ => 0x2C00,
        }
    }

    fn get_background_pattern_table(&self) -> (r: u16)
        ensures
            r == spec_bg_pattern(self.control),
    {
        if self.control & 0x10 != 0 { 0x1000 } else { 0x0000 }
    }

    fn get_sprite_pattern_table(&self) -> (r: u16)
        ensures
            r == spec_sprite_pattern(self.control),
    {
        if self.control & 0x08 != 0 { 0x1000 } else { 0x0000 }
    }

    /// Composes the 64 pixels of the next background tile cell onto the
    /// frame and moves to the following cell.
    pub fn draw_tile(&mut self)
        requires
            old(self).wf(),
            old(self).current_pixel < 960,
        ensures
            final(self).wf(),
            final(self).frame@ == old(self).frame@ + spec_tile_pixels(*old(self), 64),
            *final(self) == (Ppu {
                current_pixel: (old(self).current_pixel + 1) as u16,
                frame: final(self).frame,
                ..*old(self)
            }),
    {
        let address: u16 = self.get_base_nametable_address() + self.current_pixel;
        let tile_id: u8 = self.ram[address as usize];
        let pattern_idx: u16 = self.get_background_pattern_table() + (tile_id as u16) * 16;
        let tile_row: u16 = self.current_pixel % 32;
        let tile_column: u16 = self.current_pixel / 32;
        let colours = self.get_background_colour(tile_row, tile_column);
        let cor_x: u16 = tile_row * 8;
        let cor_y: u16 = tile_column * 8;
        let ghost pre = *old(self);
        let mut x: usize = 0;
        while x < 8
            invariant
                x <= 8,
                pre.wf(),
                pre.current_pixel < 960,
                *self == (Ppu { frame: self.frame, ..pre }),
                address == spec_base_nametable(pre.control) + pre.current_pixel,
                tile_id == pre.ram@[address as int],
                pattern_idx == spec_bg_pattern(pre.control) + tile_id as int * 16,
                tile_row == pre.current_pixel % 32,
                tile_column == pre.current_pixel / 32,
                colours@ == spec_bg_colors(pre, tile_row, tile_column),
                colours@.len() == 4,
                forall|j: int| 0 <= j < 4 ==> colours@[j] < 0x4000,
                cor_x == tile_row * 8,
                cor_y == tile_column * 8,
                self.frame@ == pre.frame@ + spec_tile_pixels(pre, (8 * x) as nat),
            decreases 8 - x,
        {
            let left: u8 = self.ram[(pattern_idx as usize) + x];
            let right: u8 = self.ram[(pattern_idx as usize) + x + 8];
            let mut y: usize = 0;
            while y < 8
                invariant
                    x < 8,
                    y <= 8,
                    pre.wf(),
                    pre.current_pixel < 960,
                    *self == (Ppu { frame: self.frame, ..pre }),
                    address == spec_base_nametable(pre.control) + pre.current_pixel,
                    tile_id == pre.ram@[address as int],
                    pattern_idx == spec_bg_pattern(pre.control) + tile_id as int * 16,
                    tile_row == pre.current_pixel % 32,
                    tile_column == pre.current_pixel / 32,
                    colours@ == spec_bg_colors(pre, tile_row, tile_column),
                    colours@.len() == 4,
                    forall|j: int| 0 <= j < 4 ==> colours@[j] < 0x4000,
                    cor_x == tile_row * 8,
                    cor_y == tile_column * 8,
                    left == pre.ram@[pattern_idx + x],
                    right == pre.ram@[pattern_idx + x + 8],
                    self.frame@ == pre.frame@ + spec_tile_pixels(pre, (8 * x + y) as nat),
                decreases 8 - y,
            {
                let left_pixel: u8 = (left >> ((7 - y) as u8)) & 1;
                let right_pixel: u8 = (right >> ((7 - y) as u8)) & 1;
                proof {
                    let l = left;
                    let rgt = right;
                    let sh = (7 - y) as u8;
                    assert((l >> sh) & 1 <= 1 && (rgt >> sh) & 1 <= 1) by (bit_vector);
                }
                let pixel: u8 = right_pixel * 2 + left_pixel;
                let chosen_colour: u8 = self.ram[colours[pixel as usize] as usize];
                let rgb = master_palette(chosen_colour);
                let px: u16 = cor_x + (y as u16);
                let py: u16 = cor_y + (x as u16);
                self.frame.push((px, py, rgb));
                proof {
                    let k = 8 * x + y;
                    assert(spec_tile_pixel(pre, k as int) == (px, py, rgb));
                    assert(spec_tile_pixels(pre, (k + 1) as nat)
                        == spec_tile_pixels(pre, k as nat).push(spec_tile_pixel(pre, k as int)));
                    assert(self.frame@ == pre.frame@ + spec_tile_pixels(pre, (k + 1) as nat));
                }
                y = y + 1;
            }
            x = x + 1;
        }
        self.current_pixel = self.current_pixel + 1;
    }

    /// Draws every visible sprite from OAM onto the frame; pixels with
    /// colour index 0 are transparent and sprites outside the visible
    /// area are skipped.
    pub fn draw_sprites(&mut self)
        requires
            old(self).wf(),
        ensures
            final(self).wf(),
            final(self).frame@ == old(self).frame@ + spec_sprites_seq(*old(self), 64),
            *final(self) == (Ppu { frame: final(self).frame, ..*old(self) }),
    {
        let ghost pre = *old(self);
        let mut i: usize = 0;
        while i < 64
            invariant
                i <= 64,
                pre.wf(),
                *self == (Ppu { frame: self.frame, ..pre }),
                self.frame@ == pre.frame@ + spec_sprites_seq(pre, i as nat),
            decreases 64 - i,
        {
            let tile_y: u8 = self.oam[4 * i];
            let tile_idx: u8 = self.oam[4 * i + 1];
            let attributes: u8 = self.oam[4 * i + 2];
            let tile_x: u8 = self.oam[4 * i + 3];
            if tile_y <= 239 && tile_x <= 249 {
                let pattern_start: u16 = self.get_sprite_pattern_table() + (tile_idx as u16) * 16;
                let palette_idx: u8 = attributes & 0x03;
                proof {
                    let a = attributes;
                    assert(a & 0x03 <= 3) by (bit_vector);
                }
                let colors = self.get_sprite_color(palette_idx);
                let mut x: usize = 0;
                while x < 8
                    invariant
                        x <= 8,
                        i < 64,
                        pre.wf(),
                        *self == (Ppu { frame: self.frame, ..pre }),
                        !spec_sprite_skip(pre, i as int),
                        tile_y == pre.oam@[4 * i],
                        tile_idx == pre.oam@[4 * i + 1],
                        attributes == pre.oam@[4 * i + 2],
                        tile_x == pre.oam@[4 * i + 3],
                        pattern_start == spec_sprite_pattern(pre.control) + tile_idx as int * 16,
                        colors@ == spec_sprite_colors(attributes & 0x03),
                        colors@.len() == 4,
                        forall|j: int| 0 <= j < 4 ==> colors@[j] < 0x4000,
                        self.frame@ == pre.frame@ + spec_sprites_seq(pre, i as nat)
                            + spec_sprite_pix_seq(pre, i as int, (8 * x) as nat),
                    decreases 8 - x,
                {
                    let left: u8 = self.ram[(pattern_start as usize) + x];
                    let right: u8 = self.ram[(pattern_start as usize) + x + 8];
                    let mut y: usize = 0;
                    while y < 8
                        invariant
                            x < 8,
                            y <= 8,
                            i < 64,
                            pre.wf(),
                            *self == (Ppu { frame: self.frame, ..pre }),
                            !spec_sprite_skip(pre, i as int),
                            tile_y == pre.oam@[4 * i],
                            tile_idx == pre.oam@[4 * i + 1],
                            attributes == pre.oam@[4 * i + 2],
                            tile_x == pre.oam@[4 * i + 3],
                            pattern_start == spec_sprite_pattern(pre.control) + tile_idx as int * 16,
                            colors@ == spec_sprite_colors(attributes & 0x03),
                            colors@.len() == 4,
                            forall|j: int| 0 <= j < 4 ==> colors@[j] < 0x4000,
                            left == pre.ram@[pattern_start + x],
                            right == pre.ram@[pattern_start + x + 8],
                            self.frame@ == pre.frame@ + spec_sprites_seq(pre, i as nat)
                                + spec_sprite_pix_seq(pre, i as int, (8 * x + y) as nat),
                        decreases 8 - y,
                    {
                        let left_pixel: u8 = (left >> ((7 - y) as u8)) & 1;
                        let right_pixel: u8 = (right >> ((7 - y) as u8)) & 1;
                        proof {
                            let l = left;
                            let rgt = right;
                            let sh = (7 - y) as u8;
                            assert((l >> sh) & 1 <= 1 && (rgt >> sh) & 1 <= 1) by (bit_vector);
                        }
                        let pixel: u8 = right_pixel * 2 + left_pixel;
                        let ghost k = 8 * x + y;
                        if pixel != 0 {
                            let chosen_colour: u8 = self.ram[colors[pixel as usize] as usize];
                            let rgb = master_palette(chosen_colour);
                            let px: u16 = (tile_x as u16) + (x as u16);
                            let py: u16 = (tile_y as u16) + (y as u16);
                            self.frame.push((px, py, rgb));
                            proof {
                                assert(spec_sprite_pixel_opt(pre, i as int, k as int)
                                    == Some((px, py, rgb)));
                                assert(spec_sprite_pix_seq(pre, i as int, (k + 1) as nat)
                                    =~= spec_sprite_pix_seq(pre, i as int, k as nat)
                                        + seq![(px, py, rgb)]);
                                assert(self.frame@ =~= pre.frame@ + spec_sprites_seq(pre, i as nat)
                                    + spec_sprite_pix_seq(pre, i as int, (k + 1) as nat));
                            }
                        } else {
                            proof {
                                assert(spec_sprite_pixel_opt(pre, i as int, k as int) is None);
                                assert(spec_sprite_pix_seq(pre, i as int, (k + 1) as nat)
                                    =~= spec_sprite_pix_seq(pre, i as int, k as nat));
                            }
                        }
                        y = y + 1;
                    }
                    x = x + 1;
                }
                proof {
                    assert(spec_sprites_seq(pre, (i + 1) as nat)
                        =~= spec_sprites_seq(pre, i as nat)
                            + spec_sprite_pix_seq(pre, i as int, 64));
                    assert(self.frame@ =~= pre.frame@ + spec_sprites_seq(pre, (i + 1) as nat));
                }
            } else {
                proof {
                    assert(spec_sprite_skip(pre, i as int));
                    assert(spec_sprites_seq(pre, (i + 1) as nat)
                        =~= spec_sprites_seq(pre, i as nat));
                }
            }
            i = i + 1;
        }
    }

    /// Hands the composed frame to the host and starts a fresh one.
    pub fn take_frame(&mut self) -> (r: Vec<(u16, u16, Colour)>)
        ensures
            r == old(self).frame,
            *final(self) == (Ppu { frame: final(self).frame, ..*old(self) }),
            final(self).frame@.len() == 0,
    {
        let mut taken: Vec<(u16, u16, Colour)> = Vec::new();
        core::mem::swap(&mut taken, &mut self.frame);
        taken
    }
}

} // verus!
