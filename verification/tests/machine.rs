use nes_core::bus::Bus;
use nes_core::cartridge::{Cartridge, CartridgeLoader};
use nes_core::cpu::Cpu;
use nes_core::errors::EmuError;
use nes_core::flags::{Flags, CARRY, NEGATIVE, OVERFLOW, PLACEHOLDER, ZERO};
use nes_core::op_code::OpCode;
use nes_core::ppu::{NameTableMirroring, Ppu};

fn fresh_bus(memory: Vec<u8>, mirroring: NameTableMirroring) -> Bus {
    let ppu = Ppu::new(vec![], mirroring);
    let cartridge = Cartridge::new();
    Bus::new(memory, ppu, cartridge)
}

fn fresh_cpu(memory: Vec<u8>) -> Cpu {
    let bus = fresh_bus(memory, NameTableMirroring::HORIZONTAL);
    let mut cpu = Cpu::new(bus, Some(0)).unwrap();
    cpu.status = Flags::from_bits(PLACEHOLDER);
    cpu
}

#[test]
fn adc_with_carry_in() {
    let mut cpu = fresh_cpu(vec![0x69, 0x02]);
    cpu.acc = 0x03;
    cpu.status = Flags::from_bits(PLACEHOLDER | CARRY);
    let cycles = cpu.evaluate(OpCode::new(0x69)).unwrap();
    assert_eq!(cpu.acc, 0x06);
    assert_eq!(cpu.status.bits() & CARRY, 0);
    assert_eq!(cpu.status.bits() & ZERO, 0);
    assert_eq!(cpu.status.bits() & NEGATIVE, 0);
    assert_eq!(cpu.status.bits() & OVERFLOW, 0);
    assert_eq!(cycles, 2);
}

#[test]
fn adc_signed_overflow() {
    let mut cpu = fresh_cpu(vec![0x69, 0x50]);
    cpu.acc = 0x50;
    let _ = cpu.evaluate(OpCode::new(0x69)).unwrap();
    assert_eq!(cpu.acc, 0xA0);
    assert_ne!(cpu.status.bits() & OVERFLOW, 0);
    assert_ne!(cpu.status.bits() & NEGATIVE, 0);
    assert_eq!(cpu.status.bits() & CARRY, 0);
}

#[test]
fn cmp_equal() {
    let mut cpu = fresh_cpu(vec![0xC9, 0x0A]);
    cpu.acc = 0x0A;
    let _ = cpu.evaluate(OpCode::new(0xC9)).unwrap();
    assert_eq!(cpu.acc, 0x0A);
    assert_ne!(cpu.status.bits() & ZERO, 0);
    assert_ne!(cpu.status.bits() & CARRY, 0);
    assert_eq!(cpu.status.bits() & NEGATIVE, 0);
}

#[test]
fn branch_taken_across_page() {
    let mut memory = vec![0u8; 0x800];
    memory[0xF0] = 0x30;
    memory[0xF1] = 0x10;
    let mut cpu = fresh_cpu(memory);
    cpu.program_counter = 0x00F0;
    cpu.status = Flags::from_bits(PLACEHOLDER | NEGATIVE);
    let cycles = cpu.evaluate(OpCode::new(0x30)).unwrap();
    assert_eq!(cpu.program_counter, 0x0102);
    assert_eq!(cycles, 4);
}

#[test]
fn branch_not_taken_costs_base_cycles() {
    let mut memory = vec![0u8; 0x800];
    memory[0xF0] = 0x30;
    memory[0xF1] = 0x10;
    let mut cpu = fresh_cpu(memory);
    cpu.program_counter = 0x00F0;
    let cycles = cpu.evaluate(OpCode::new(0x30)).unwrap();
    assert_eq!(cpu.program_counter, 0x00F2);
    assert_eq!(cycles, 2);
}

#[test]
fn branch_taken_same_page_costs_one_extra() {
    let mut memory = vec![0u8; 0x800];
    memory[0x10] = 0x30;
    memory[0x11] = 0x10;
    let mut cpu = fresh_cpu(memory);
    cpu.program_counter = 0x0010;
    cpu.status = Flags::from_bits(PLACEHOLDER | NEGATIVE);
    let cycles = cpu.evaluate(OpCode::new(0x30)).unwrap();
    assert_eq!(cpu.program_counter, 0x0022);
    assert_eq!(cycles, 3);
}

#[test]
fn ppuaddr_ppudata_autoincrement() {
    let mut bus = fresh_bus(vec![0; 0x800], NameTableMirroring::HORIZONTAL);
    bus.store(0x21, 0x2006).unwrap();
    bus.store(0x08, 0x2006).unwrap();
    bus.store(0xAA, 0x2007).unwrap();
    bus.store(0xBB, 0x2007).unwrap();
    assert_eq!(bus.ppu.ram[0x2108], 0xAA);
    assert_eq!(bus.ppu.ram[0x2109], 0xBB);
    assert_eq!(bus.ppu.vram_address, 0x210A);
}

#[test]
fn ppustatus_clears_vblank() {
    let mut bus = fresh_bus(vec![0; 0x800], NameTableMirroring::HORIZONTAL);
    bus.ppu.ppu_status = 0x80;
    let first = bus.fetch(0x2002).unwrap();
    let second = bus.fetch(0x2002).unwrap();
    assert_ne!(first & 0x80, 0);
    assert_eq!(second & 0x80, 0);
    // The status read also reset the address toggle, so a fresh high/low
    // pair lands where it should.
    bus.store(0x21, 0x2006).unwrap();
    bus.store(0x08, 0x2006).unwrap();
    assert_eq!(bus.ppu.vram_address, 0x2108);
}

#[test]
fn write_only_registers_read_back_the_latch() {
    let mut bus = fresh_bus(vec![0; 0x800], NameTableMirroring::HORIZONTAL);
    bus.store(0x55, 0x2000).unwrap();
    assert_eq!(bus.fetch(0x2000).unwrap(), 0x55);
    assert_eq!(bus.fetch(0x2001).unwrap(), 0x55);
    assert_eq!(bus.fetch(0x2005).unwrap(), 0x55);
    bus.store(0x77, 0x2003).unwrap();
    assert_eq!(bus.fetch(0x2006).unwrap(), 0x77);
}

#[test]
fn ppudata_reads_are_buffered() {
    let mut bus = fresh_bus(vec![0; 0x800], NameTableMirroring::HORIZONTAL);
    bus.store(0x21, 0x2006).unwrap();
    bus.store(0x00, 0x2006).unwrap();
    bus.store(0x5A, 0x2007).unwrap();
    bus.store(0x21, 0x2006).unwrap();
    bus.store(0x00, 0x2006).unwrap();
    let first = bus.fetch(0x2007).unwrap();
    let second = bus.fetch(0x2007).unwrap();
    assert_eq!(first, 0x00);
    assert_eq!(second, 0x5A);
}

#[test]
fn nametable_mirroring_folds_tables() {
    // Horizontal mirroring merges tables 0 and 1: a write through 0x2400
    // reads back through 0x2000.
    let mut bus = fresh_bus(vec![0; 0x800], NameTableMirroring::HORIZONTAL);
    bus.store(0x24, 0x2006).unwrap();
    bus.store(0x05, 0x2006).unwrap();
    bus.store(0x99, 0x2007).unwrap();
    assert_eq!(bus.ppu.ram[0x2005], 0x99);

    // Vertical mirroring merges tables 0 and 2.
    let mut bus = fresh_bus(vec![0; 0x800], NameTableMirroring::VERTICAL);
    bus.store(0x28, 0x2006).unwrap();
    bus.store(0x07, 0x2006).unwrap();
    bus.store(0x77, 0x2007).unwrap();
    assert_eq!(bus.ppu.ram[0x2007], 0x77);
}

#[test]
fn oam_dma_copies_a_page() {
    let mut memory = vec![0u8; 0x800];
    for i in 0..256usize {
        memory[0x0200 + i] = i as u8;
    }
    let mut bus = fresh_bus(memory, NameTableMirroring::HORIZONTAL);
    bus.store(0x03, 0x2003).unwrap();
    bus.store(0x02, 0x4014).unwrap();
    // The copy starts at the current OAM address and wraps within OAM.
    assert_eq!(bus.ppu.oam[3], 0);
    assert_eq!(bus.ppu.oam[4], 1);
    assert_eq!(bus.ppu.oam[2], 255);
}

#[test]
fn oam_data_writes_advance_the_address() {
    let mut bus = fresh_bus(vec![0; 0x800], NameTableMirroring::HORIZONTAL);
    bus.store(0x10, 0x2003).unwrap();
    bus.store(0xAB, 0x2004).unwrap();
    bus.store(0xCD, 0x2004).unwrap();
    assert_eq!(bus.ppu.oam[0x10], 0xAB);
    assert_eq!(bus.ppu.oam[0x11], 0xCD);
    assert_eq!(bus.ppu.oam_address, 0x12);
    assert_eq!(bus.fetch(0x2004).unwrap(), bus.ppu.oam[0x12]);
}

#[test]
fn unmapped_reads_report_the_address() {
    let mut bus = fresh_bus(vec![0; 0x800], NameTableMirroring::HORIZONTAL);
    assert_eq!(bus.fetch(0x5000), Err(EmuError::UnmappedAddress(0x5000)));
    assert_eq!(bus.fetch(0x4000).unwrap(), 0);
}

#[test]
fn unknown_opcode_reports_the_byte() {
    let mut cpu = fresh_cpu(vec![0x03]);
    assert_eq!(cpu.evaluate(OpCode::new(0x03)), Err(EmuError::UnknownOpCode(0x03)));
}

#[test]
fn reset_vector_seeds_the_program_counter() {
    let mut payload = vec![0u8; 16 + 16384];
    payload[0] = 0x4E;
    payload[1] = 0x45;
    payload[2] = 0x53;
    payload[3] = 0x1A;
    payload[4] = 1;
    payload[16 + 0x3FFC] = 0x34;
    payload[16 + 0x3FFD] = 0x12;
    let cartridge = CartridgeLoader::load_cartridge(payload).unwrap();
    let ppu = Ppu::new(cartridge.chr_rom.clone(), cartridge.nametable_mirroring);
    let bus = Bus::new(vec![0; 0x800], ppu, cartridge);
    let cpu = Cpu::new(bus, None).unwrap();
    assert_eq!(cpu.program_counter, 0x1234);
    assert_eq!(cpu.stack_pointer, 0xFD);
}

#[test]
fn nmi_entry_takes_the_vector_and_charges_seven() {
    let mut payload = vec![0u8; 16 + 16384];
    payload[0] = 0x4E;
    payload[1] = 0x45;
    payload[2] = 0x53;
    payload[3] = 0x1A;
    payload[4] = 1;
    payload[16 + 0x3FFA] = 0x00;
    payload[16 + 0x3FFB] = 0x90;
    let cartridge = CartridgeLoader::load_cartridge(payload).unwrap();
    let ppu = Ppu::new(vec![], NameTableMirroring::HORIZONTAL);
    let bus = Bus::new(vec![0; 0x800], ppu, cartridge);
    let mut cpu = Cpu::new(bus, Some(0x4321)).unwrap();
    cpu.bus.nmi = true;
    cpu.emulate().unwrap();
    assert_eq!(cpu.program_counter, 0x9000);
    assert_eq!(cpu.cycles, 7);
    assert!(!cpu.bus.nmi);
}

#[test]
fn pending_cycles_drain_before_the_next_opcode() {
    let mut cpu = fresh_cpu(vec![0xEA, 0xEA]);
    cpu.emulate().unwrap();
    assert_eq!(cpu.cycles, 2);
    assert_eq!(cpu.program_counter, 1);
    cpu.emulate().unwrap();
    assert_eq!(cpu.cycles, 1);
    assert_eq!(cpu.program_counter, 1);
    cpu.emulate().unwrap();
    assert_eq!(cpu.cycles, 0);
    cpu.emulate().unwrap();
    assert_eq!(cpu.program_counter, 2);
}

#[test]
fn vblank_edge_raises_and_clears_the_nmi_flag() {
    let mut bus = fresh_bus(vec![0; 0x800], NameTableMirroring::HORIZONTAL);
    bus.ppu.control = 0x80;
    bus.ppu.scanline = 241;
    bus.ppu.cycles = 0;
    bus.emulate();
    assert!(bus.ppu.nmi_occurred);
    assert_ne!(bus.ppu.ppu_status & 0x80, 0);
    assert!(bus.nmi);
    // The latch holds until the CPU services it, even as ticks continue.
    bus.emulate();
    assert!(bus.nmi);

    let mut bus = fresh_bus(vec![0; 0x800], NameTableMirroring::HORIZONTAL);
    bus.ppu.ppu_status = 0x80;
    bus.ppu.nmi_occurred = true;
    bus.ppu.scanline = 261;
    bus.ppu.cycles = 0;
    bus.emulate();
    assert!(!bus.ppu.nmi_occurred);
    assert_eq!(bus.ppu.ppu_status & 0x80, 0);
}

#[test]
fn ram_mirrors_through_the_low_window() {
    let mut bus = fresh_bus(vec![0; 0x800], NameTableMirroring::HORIZONTAL);
    bus.store(0x42, 0x0005).unwrap();
    assert_eq!(bus.fetch(0x0805).unwrap(), 0x42);
    assert_eq!(bus.fetch(0x1805).unwrap(), 0x42);
}

#[test]
fn background_tile_compose_uses_palette_ram() {
    let mut chr = vec![0u8; 8192];
    // Tile 1: a solid colour-index-1 tile (low plane all ones).
    for row in 0..8 {
        chr[16 + row] = 0xFF;
    }
    let mut ppu = Ppu::new(chr, NameTableMirroring::HORIZONTAL);
    // Nametable cell 0 shows tile 1; palette entry 1 holds colour code 0x16.
    ppu.ram[0x2000] = 1;
    ppu.ram[0x3F01] = 0x16;
    ppu.draw_tile();
    assert_eq!(ppu.frame.len(), 64);
    assert_eq!(ppu.current_pixel, 1);
    let (x, y, colour) = ppu.frame[0];
    assert_eq!((x, y), (0, 0));
    // Master palette entry 0x16: (152, 34, 32).
    assert_eq!((colour.r, colour.g, colour.b), (152, 34, 32));
}

#[test]
fn sprites_skip_offscreen_and_transparent_pixels() {
    let mut chr = vec![0u8; 8192];
    for row in 0..8 {
        chr[row] = 0xFF;
    }
    let mut ppu = Ppu::new(chr, NameTableMirroring::HORIZONTAL);
    // Every sprite but the first sits below the screen and is skipped.
    for i in 1..64 {
        ppu.oam[4 * i] = 240;
    }
    // Sprite 0 at (10, 20) with tile 0.
    ppu.oam[0] = 20;
    ppu.oam[1] = 0;
    ppu.oam[2] = 0;
    ppu.oam[3] = 10;
    ppu.ram[0x3F11] = 0x01;
    ppu.draw_sprites();
    // One visible sprite, fully opaque: 64 pixels.
    assert_eq!(ppu.frame.len(), 64);
    let (x, y, _colour) = ppu.frame[0];
    assert_eq!((x, y), (10, 20));
}

#[test]
fn sprite_palette_groups_sit_above_the_background_groups() {
    let ppu = Ppu::new(vec![], NameTableMirroring::HORIZONTAL);
    let colors = ppu.get_sprite_color(2);
    assert_eq!(colors, vec![0x3F00, 0x3F19, 0x3F1A, 0x3F1B]);
}

#[test]
fn take_frame_hands_back_the_pixels_and_clears() {
    let mut ppu = Ppu::new(vec![], NameTableMirroring::HORIZONTAL);
    ppu.draw_tile();
    let frame = ppu.take_frame();
    assert_eq!(frame.len(), 64);
    assert_eq!(ppu.frame.len(), 0);
}

#[test]
fn stack_pointer_wraps_inside_the_stack_page() {
    let memory = vec![0u8; 0x800];
    let mut cpu = fresh_cpu(memory);
    cpu.stack_pointer = 0x00;
    cpu.acc = 0x7E;
    cpu.evaluate(OpCode::new(0x48)).unwrap();
    assert_eq!(cpu.stack_pointer, 0xFF);
    assert_eq!(cpu.fetch(0x0100).unwrap(), 0x7E);
}

#[test]
fn zero_page_indexing_wraps_inside_page_zero() {
    // LDA 0xFF,X with X=2 reads from 0x0001, not 0x0101.
    let mut memory = vec![0u8; 0x800];
    memory[0x200] = 0xB5;
    memory[0x201] = 0xFF;
    memory[0x0001] = 0x5C;
    memory[0x0101] = 0x99;
    let mut cpu = fresh_cpu(memory);
    cpu.program_counter = 0x200;
    cpu.reg_x = 2;
    cpu.evaluate(OpCode::new(0xB5)).unwrap();
    assert_eq!(cpu.acc, 0x5C);
}

#[test]
fn increment_wraps_and_sets_zero() {
    let mut memory = vec![0u8; 0x800];
    memory[0] = 0xE6;
    memory[1] = 0x10;
    memory[0x10] = 0xFF;
    let mut cpu = fresh_cpu(memory);
    cpu.evaluate(OpCode::new(0xE6)).unwrap();
    assert_eq!(cpu.fetch(0x10).unwrap(), 0);
    assert_ne!(cpu.status.bits() & ZERO, 0);
}

#[test]
fn program_in_rom_drives_the_ppu() {
    // A program in PRG-ROM points PPUADDR at palette RAM, stores one byte
    // through PPUDATA, and parks in a jump-to-self.
    let code: [u8; 18] = [
        0xA9, 0x3F, // LDA #$3F
        0x8D, 0x06, 0x20, // STA $2006
        0xA9, 0x00, // LDA #$00
        0x8D, 0x06, 0x20, // STA $2006
        0xA9, 0x16, // LDA #$16
        0x8D, 0x07, 0x20, // STA $2007
        0x4C, 0x0F, 0x80, // JMP $800F
    ];
    let mut payload = vec![0u8; 16 + 16384];
    payload[0] = 0x4E;
    payload[1] = 0x45;
    payload[2] = 0x53;
    payload[3] = 0x1A;
    payload[4] = 1;
    for (i, byte) in code.iter().enumerate() {
        payload[16 + i] = *byte;
    }
    payload[16 + 0x3FFC] = 0x00;
    payload[16 + 0x3FFD] = 0x80;
    let cartridge = CartridgeLoader::load_cartridge(payload).unwrap();
    let ppu = Ppu::new(vec![], NameTableMirroring::HORIZONTAL);
    let bus = Bus::new(vec![0; 0x800], ppu, cartridge);
    let mut cpu = Cpu::new(bus, None).unwrap();
    assert_eq!(cpu.program_counter, 0x8000);
    for _ in 0..100 {
        cpu.emulate().unwrap();
        cpu.bus.emulate();
    }
    assert_eq!(cpu.bus.ppu.ram[0x3F00], 0x16);
    assert_eq!(cpu.program_counter, 0x800F);
}

#[test]
fn stepping_into_unmapped_space_faults() {
    let mut cpu = fresh_cpu(vec![0; 0x800]);
    cpu.program_counter = 0x5000;
    assert_eq!(cpu.emulate(), Err(EmuError::UnmappedAddress(0x5000)));
}
