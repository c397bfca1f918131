use nes_core::cartridge::{Cartridge, CartridgeLoader};
use nes_core::errors::LoadError;
use nes_core::op_code::OpCode;
use nes_core::ppu::NameTableMirroring;
use nes_core::util::{combine_nibbles, combine_u8, lsb, msb, nth_bit};

fn rom_image(prg_banks: u8, chr_banks: u8, flags6: u8) -> Vec<u8> {
    let mut payload = vec![0u8; 16 + prg_banks as usize * 16384 + chr_banks as usize * 8192];
    payload[0] = 0x4E;
    payload[1] = 0x45;
    payload[2] = 0x53;
    payload[3] = 0x1A;
    payload[4] = prg_banks;
    payload[5] = chr_banks;
    payload[6] = flags6;
    payload
}

#[test]
fn test_get_first_bit() {
    let value: u8 = 0b00_01_00_00;
    assert_eq!(nth_bit(value, 7) as u8, 0);
    assert_eq!(nth_bit(value, 6) as u8, 0);
    assert_eq!(nth_bit(value, 5) as u8, 0);
    assert_eq!(nth_bit(value, 4) as u8, 1);
    assert_eq!(nth_bit(value, 3) as u8, 0);
    assert_eq!(nth_bit(value, 2) as u8, 0);
    assert_eq!(nth_bit(value, 1) as u8, 0);
    assert_eq!(nth_bit(value, 0) as u8, 0)
}

#[test]
fn test_get_first_bit_v2() {
    let value: u8 = 0b00_00_00_01;
    assert_eq!(nth_bit(value, 7) as u8, 0);
    assert_eq!(nth_bit(value, 6) as u8, 0);
    assert_eq!(nth_bit(value, 5) as u8, 0);
    assert_eq!(nth_bit(value, 4) as u8, 0);
    assert_eq!(nth_bit(value, 3) as u8, 0);
    assert_eq!(nth_bit(value, 2) as u8, 0);
    assert_eq!(nth_bit(value, 1) as u8, 0);
    assert_eq!(nth_bit(value, 0) as u8, 1)
}

#[test]
fn test_combine_u8() {
    let lsb = 0x12;
    let msb = 0x34;
    assert_eq!(combine_u8(lsb, msb), 0x3412)
}

#[test]
fn test_combine_nibbles() {
    let lsb = 0x01;
    let msb = 0x02;
    assert_eq!(combine_nibbles(lsb, msb), 0x12)
}

#[test]
fn msb_and_lsb_pick_the_outer_bits() {
    assert_eq!(msb(0b1000_0000), 1);
    assert_eq!(msb(0b0111_1111), 0);
    assert_eq!(lsb(0b0000_0001), 1);
    assert_eq!(lsb(0b1111_1110), 0);
}

#[test]
fn op_code_fields_split_the_byte() {
    let op = OpCode::new(0b101_110_01);
    assert_eq!(op.upper_op_code(), 0b101);
    assert_eq!(op.mid_op_code(), 0b110);
    assert_eq!(op.lower_op_code(), 0b01);
}

#[test]
fn loader_accepts_a_plain_nrom_image() {
    let mut payload = rom_image(1, 1, 0x01);
    payload[16] = 0xAB;
    payload[16 + 16384] = 0xCD;
    let cartridge = CartridgeLoader::load_cartridge(payload).unwrap();
    assert_eq!(cartridge.prg_rom_banks, 1);
    assert_eq!(cartridge.prg_rom.len(), 16384);
    assert_eq!(cartridge.chr_rom.len(), 8192);
    assert_eq!(cartridge.prg_rom[0], 0xAB);
    assert_eq!(cartridge.chr_rom[0], 0xCD);
    assert_eq!(cartridge.mapper_code, 0);
    assert_eq!(cartridge.nametable_mirroring, NameTableMirroring::VERTICAL);
}

#[test]
fn loader_reads_horizontal_mirroring_and_trainer_offset() {
    // A trainer shifts PRG by 512 bytes.
    let mut payload = rom_image(1, 0, 0x04);
    payload.extend(vec![0u8; 512]);
    payload[16 + 512] = 0x99;
    let cartridge = CartridgeLoader::load_cartridge(payload).unwrap();
    assert_eq!(cartridge.nametable_mirroring, NameTableMirroring::HORIZONTAL);
    assert_eq!(cartridge.prg_rom[0], 0x99);
}

#[test]
fn loader_rejects_a_missing_magic() {
    let mut payload = rom_image(1, 0, 0);
    payload[0] = 0x00;
    assert!(matches!(CartridgeLoader::load_cartridge(payload), Err(LoadError::MalformedRom)));
}

#[test]
fn loader_rejects_a_short_payload() {
    let payload = vec![0x4E, 0x45, 0x53, 0x1A];
    assert!(matches!(CartridgeLoader::load_cartridge(payload), Err(LoadError::MalformedRom)));
}

#[test]
fn loader_rejects_a_truncated_prg_section() {
    let mut payload = rom_image(1, 0, 0);
    payload.truncate(16 + 1000);
    assert!(matches!(CartridgeLoader::load_cartridge(payload), Err(LoadError::MalformedRom)));
}

#[test]
fn loader_rejects_other_mappers() {
    let mut payload = rom_image(1, 0, 0x10);
    payload[7] = 0x30;
    assert!(matches!(CartridgeLoader::load_cartridge(payload), Err(LoadError::UnsupportedMapper(0x31))));
}

#[test]
fn mapper_zero_mirrors_a_single_bank() {
    // One PRG bank: a read at 0x8000+k answers from the same byte as
    // 0xC000+k.
    let mut payload = rom_image(1, 0, 0);
    for k in 0..16384usize {
        payload[16 + k] = (k % 251) as u8;
    }
    let cartridge = CartridgeLoader::load_cartridge(payload).unwrap();
    for k in [0u16, 1, 0x123, 0x3FFF] {
        assert_eq!(
            cartridge.cpu_read(0x8000 + k).unwrap(),
            cartridge.cpu_read(0xC000 + k).unwrap()
        );
    }
}

#[test]
fn mapper_zero_uses_both_banks_when_present() {
    let mut payload = rom_image(2, 0, 0);
    payload[16] = 0x11;
    payload[16 + 16384] = 0x22;
    let cartridge = CartridgeLoader::load_cartridge(payload).unwrap();
    assert_eq!(cartridge.cpu_read(0x8000).unwrap(), 0x11);
    assert_eq!(cartridge.cpu_read(0xC000).unwrap(), 0x22);
}

#[test]
fn mapper_zero_rejects_reads_below_the_window() {
    let cartridge = Cartridge::new();
    assert!(cartridge.cpu_read(0x5000).is_err());
}

#[test]
fn ppu_read_indexes_chr_rom() {
    let mut payload = rom_image(1, 1, 0);
    payload[16 + 16384 + 7] = 0x5A;
    let cartridge = CartridgeLoader::load_cartridge(payload).unwrap();
    assert_eq!(cartridge.ppu_read(7).unwrap(), 0x5A);
    assert!(cartridge.ppu_read(0x2000).is_err());
}
