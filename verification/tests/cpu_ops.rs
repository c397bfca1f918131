use nes_core::bus::Bus;
use nes_core::cartridge::{Cartridge, CartridgeLoader};
use nes_core::cpu::Cpu;
use nes_core::flags::{Flags, BRK, CARRY, DECIMAL, IRQ_DIS, NEGATIVE, OVERFLOW, PLACEHOLDER, ZERO};
use nes_core::op_code::OpCode;
use nes_core::ppu::{NameTableMirroring, Ppu};
use nes_core::util::combine_u8;

fn create_test_bus(input: Vec<u8>) -> Bus {
    let ppu = Ppu::new(vec![], NameTableMirroring::HORIZONTAL);
    let cartridge = Cartridge::new();
    Bus::new(input, ppu, cartridge)
}

fn create_test_cpu(input: Vec<u8>) -> Cpu {
    let bus = create_test_bus(input);
    Cpu::new(bus, Some(0)).unwrap()
}

fn reset_cpu(cpu: &mut Cpu) {
    cpu.cycles = 0;
    cpu.acc = 0;
    cpu.reg_x = 0;
    cpu.reg_y = 0;
    cpu.program_counter = 0;
    cpu.status = Flags::from_bits(PLACEHOLDER);
}

fn stack_byte(cpu: &mut Cpu, offset: u8) -> u8 {
    let addr = 0x0100 + (cpu.stack_pointer.wrapping_add(offset) as u16);
    cpu.fetch(addr).unwrap()
}

#[test]
fn test_bit_or() {
    let mut cpu = create_test_cpu(vec![0x01, 0x02, 0x04, 0x00, 0b1111_1111]);
    reset_cpu(&mut cpu);
    cpu.evaluate(OpCode::new(0x01)).unwrap();
    assert_eq!(cpu.acc, 0b1111_1111);
    assert_eq!(cpu.status.bits(), NEGATIVE | PLACEHOLDER)
}

#[test]
fn test_bit_and() {
    let mut cpu = create_test_cpu(vec![0x21, 0x02, 0x04, 0x00, 0b1111_1111]);
    reset_cpu(&mut cpu);
    cpu.evaluate(OpCode::new(0x21)).unwrap();
    assert_eq!(cpu.acc, 0b0000_0000);
    assert_eq!(cpu.status.bits(), ZERO | PLACEHOLDER)
}

#[test]
fn test_bit_xor() {
    let mut cpu = create_test_cpu(vec![0x41, 0x02, 0x04, 0x00, 0b1111_1111]);
    reset_cpu(&mut cpu);
    cpu.acc = 0b1111_1111;
    cpu.evaluate(OpCode::new(0x41)).unwrap();
    assert_eq!(cpu.acc, 0b0000_0000);
    assert_eq!(cpu.status.bits(), ZERO | PLACEHOLDER)
}

#[test]
fn test_adc() {
    let mut cpu = create_test_cpu(vec![0x61, 0x02, 0x04, 0x00, 2]);
    reset_cpu(&mut cpu);
    cpu.acc = 3;
    cpu.evaluate(OpCode::new(0x61)).unwrap();
    assert_eq!(cpu.acc, 5);
    assert_eq!(cpu.status.bits(), PLACEHOLDER)
}

#[test]
fn test_sbc() {
    // SBC subtracts the borrow !CARRY, so the conventional SEC precedes it:
    // with the carry set, 3 - 2 leaves 1 and no borrow.
    let mut cpu = create_test_cpu(vec![0xE1, 0x02, 0x04, 0x00, 2]);
    reset_cpu(&mut cpu);
    cpu.status = Flags::from_bits(PLACEHOLDER | CARRY);
    cpu.acc = 3;
    cpu.evaluate(OpCode::new(0xE1)).unwrap();
    assert_eq!(cpu.acc, 1);
    assert_eq!(cpu.status.bits(), PLACEHOLDER | CARRY)
}

#[test]
fn test_overflow_add() {
    let mut cpu = create_test_cpu(vec![0x61, 0x02, 0x04, 0x00, 80]);
    reset_cpu(&mut cpu);
    cpu.acc = 80;
    cpu.evaluate(OpCode::new(0x61)).unwrap();
    assert_eq!(cpu.acc, 160);
    assert_eq!(cpu.status.bits(), PLACEHOLDER | OVERFLOW | NEGATIVE)
}

#[test]
fn test_carry() {
    let mut cpu = create_test_cpu(vec![0x61, 0x02, 0x04, 0x00, 80]);
    reset_cpu(&mut cpu);
    cpu.acc = 208;
    cpu.evaluate(OpCode::new(0x61)).unwrap();
    assert_eq!(cpu.acc, 32);
    assert_eq!(cpu.status.bits(), PLACEHOLDER | CARRY)
}

#[test]
fn test_compare() {
    let mut cpu = create_test_cpu(vec![0xE1, 0x02, 0x04, 0x00, 10]);
    reset_cpu(&mut cpu);
    cpu.acc = 10;
    cpu.evaluate(OpCode::new(0xC1)).unwrap();
    assert_eq!(cpu.acc, 10);
    assert_eq!(cpu.status.bits(), PLACEHOLDER | ZERO | CARRY);

    let mut cpu = create_test_cpu(vec![0xE1, 0x02, 0x04, 0x00, 9]);
    reset_cpu(&mut cpu);
    cpu.acc = 10;
    cpu.evaluate(OpCode::new(0xC1)).unwrap();
    assert_eq!(cpu.status.bits(), PLACEHOLDER | CARRY);

    let mut cpu = create_test_cpu(vec![0xE1, 0x02, 0x04, 0x00, 11]);
    reset_cpu(&mut cpu);
    cpu.acc = 10;
    cpu.evaluate(OpCode::new(0xC1)).unwrap();
    assert_eq!(cpu.status.bits(), PLACEHOLDER | NEGATIVE);

    // cpy
    let mut cpu = create_test_cpu(vec![0xCC, 0x03, 0x00, 11]);
    reset_cpu(&mut cpu);
    cpu.reg_y = 10;
    cpu.evaluate(OpCode::new(0xCC)).unwrap();
    assert_eq!(cpu.status.bits(), PLACEHOLDER | NEGATIVE);

    // cpx
    let mut cpu = create_test_cpu(vec![0xCC, 0x03, 0x00, 11]);
    reset_cpu(&mut cpu);
    cpu.reg_x = 10;
    cpu.evaluate(OpCode::new(0xCC)).unwrap();
    assert_eq!(cpu.status.bits(), PLACEHOLDER | NEGATIVE);
}

#[test]
fn test_load_accumulator() {
    let mut cpu = create_test_cpu(vec![0xE1, 0x02, 0x04, 0x00, 180]);
    reset_cpu(&mut cpu);
    cpu.acc = 0;
    cpu.evaluate(OpCode::new(0xA1)).unwrap();
    assert_eq!(cpu.acc, 180);
}

#[test]
fn test_store_accumulator() {
    let mut cpu = create_test_cpu(vec![0xE1, 0x02, 0x04, 0x00, 180]);
    reset_cpu(&mut cpu);
    cpu.acc = 10;
    cpu.evaluate(OpCode::new(0x81)).unwrap();
    assert_eq!(cpu.fetch(4).unwrap(), 10);
}

#[test]
fn test_shift_left() {
    let mut cpu = create_test_cpu(vec![0x0E, 0x03, 0x00, 20, 5, 6, 7]);
    reset_cpu(&mut cpu);
    cpu.evaluate(OpCode::new(0x0E)).unwrap();
    assert_eq!(cpu.fetch(3).unwrap(), 40);

    // acc
    let mut cpu = create_test_cpu(vec![0x0A]);
    reset_cpu(&mut cpu);
    cpu.acc = 250;
    cpu.evaluate(OpCode::new(0x0A)).unwrap();
    assert_eq!(cpu.acc, 244);
    assert_eq!(cpu.status.bits(), PLACEHOLDER | CARRY | NEGATIVE);
}

#[test]
fn test_rotate_left() {
    let mut cpu = create_test_cpu(vec![0x2E, 0x03, 0x00, 0b1000_0000]);
    reset_cpu(&mut cpu);
    cpu.status = Flags::from_bits(PLACEHOLDER | CARRY);
    cpu.evaluate(OpCode::new(0x2E)).unwrap();
    assert_eq!(cpu.fetch(3).unwrap(), 0b0000_0001);
    assert_eq!(cpu.status.bits(), PLACEHOLDER | CARRY);
}

#[test]
fn test_logical_shift_right() {
    let mut cpu = create_test_cpu(vec![0x4E, 0x03, 0x00, 0b1000_0001]);
    reset_cpu(&mut cpu);
    cpu.evaluate(OpCode::new(0x4E)).unwrap();
    assert_eq!(cpu.fetch(3).unwrap(), 0b0100_0000);
    assert_eq!(cpu.status.bits(), PLACEHOLDER | CARRY);
}

#[test]
fn test_rotate_right() {
    let mut cpu = create_test_cpu(vec![0x6E, 0x03, 0x00, 0b0000_0000]);
    reset_cpu(&mut cpu);
    cpu.status = Flags::from_bits(PLACEHOLDER | CARRY);
    cpu.evaluate(OpCode::new(0x6E)).unwrap();
    assert_eq!(cpu.fetch(3).unwrap(), 0b1000_0000);
    assert_eq!(cpu.status.bits(), PLACEHOLDER | NEGATIVE);
}

#[test]
fn test_store_register_x() {
    let mut cpu = create_test_cpu(vec![0x96, 0x03, 0x00, 0b0000_0000]);
    reset_cpu(&mut cpu);
    cpu.reg_x = 10;
    cpu.evaluate(OpCode::new(0x96)).unwrap();
    assert_eq!(cpu.fetch(3).unwrap(), 10);
}

#[test]
fn test_load_register_x() {
    let mut cpu = create_test_cpu(vec![0xB6, 0x03, 0x00, 150]);
    reset_cpu(&mut cpu);
    cpu.reg_x = 10;
    cpu.evaluate(OpCode::new(0xB6)).unwrap();
    assert_eq!(cpu.reg_x, 150);
    assert_eq!(cpu.status.bits(), NEGATIVE | PLACEHOLDER)
}

#[test]
fn test_store_register_y() {
    let mut cpu = create_test_cpu(vec![0x8C, 0x03, 0x00, 0b0000_0000]);
    reset_cpu(&mut cpu);
    cpu.reg_y = 10;
    cpu.evaluate(OpCode::new(0x8C)).unwrap();
    assert_eq!(cpu.fetch(3).unwrap(), 10);
}

#[test]
fn test_load_register_y() {
    let mut cpu = create_test_cpu(vec![0xAC, 0x03, 0x00, 150]);
    reset_cpu(&mut cpu);
    cpu.reg_y = 10;
    cpu.evaluate(OpCode::new(0xAC)).unwrap();
    assert_eq!(cpu.reg_y, 150);
    assert_eq!(cpu.status.bits(), NEGATIVE | PLACEHOLDER)
}

#[test]
fn test_increment() {
    let mut cpu = create_test_cpu(vec![0xEE, 0x03, 0x00, 0b0000_0000]);
    reset_cpu(&mut cpu);
    cpu.evaluate(OpCode::new(0xFE)).unwrap();
    assert_eq!(cpu.fetch(3).unwrap(), 1);
}

#[test]
fn test_decrement() {
    let mut cpu = create_test_cpu(vec![0xCE, 0x03, 0x00, 1]);
    reset_cpu(&mut cpu);
    cpu.evaluate(OpCode::new(0xCE)).unwrap();
    assert_eq!(cpu.fetch(3).unwrap(), 0);
}

#[test]
fn test_increment_reg_x() {
    let mut cpu = create_test_cpu(vec![0xE8]);
    reset_cpu(&mut cpu);
    cpu.reg_x = 0;
    cpu.status = Flags::from_bits(ZERO | PLACEHOLDER | NEGATIVE);
    cpu.evaluate(OpCode::new(0xE8)).unwrap();
    assert_eq!(cpu.reg_x, 1);
    assert_eq!(cpu.status.bits(), PLACEHOLDER)
}

#[test]
fn test_decrement_reg_y() {
    let mut cpu = create_test_cpu(vec![0x88]);
    reset_cpu(&mut cpu);
    cpu.reg_y = 1;
    cpu.evaluate(OpCode::new(0x88)).unwrap();
    assert_eq!(cpu.reg_y, 0);
    assert_eq!(cpu.status.bits(), ZERO | PLACEHOLDER)
}

#[test]
fn test_bit_test() {
    let mut cpu = create_test_cpu(vec![0x2C, 0x03, 0x00, 0b1100_0000]);
    reset_cpu(&mut cpu);
    cpu.acc = 0;
    cpu.evaluate(OpCode::new(0x2C)).unwrap();
    assert_eq!(cpu.status.bits(), NEGATIVE | PLACEHOLDER | OVERFLOW | ZERO)
}

#[test]
fn test_jmp() {
    let mut cpu = create_test_cpu(vec![0x4C, 0x04, 0x00]);
    reset_cpu(&mut cpu);
    cpu.evaluate(OpCode::new(0x4C)).unwrap();
    assert_eq!(cpu.program_counter, 4)
}

#[test]
fn test_jmp_indirect() {
    let mut cpu = create_test_cpu(vec![0x6C, 0x03, 0x00, 20, 0]);
    reset_cpu(&mut cpu);
    cpu.evaluate(OpCode::new(0x6C)).unwrap();
    assert_eq!(cpu.program_counter, 20)
}

#[test]
fn test_branch_on_flag() {
    // The offset is relative to the instruction after the branch: opcode at
    // 0, offset byte 4 at 1, next instruction at 2, so the branch lands at 6.
    let mut cpu = create_test_cpu(vec![0x30, 0x04, 0x00, 20, 0]);
    reset_cpu(&mut cpu);
    cpu.status = Flags::from_bits(PLACEHOLDER | NEGATIVE);
    cpu.evaluate(OpCode::new(0x30)).unwrap();
    assert_eq!(cpu.program_counter, 6)
}

#[test]
fn test_break() {
    // The interrupt vectors live in the cartridge window, so the BRK vector
    // comes from a two-bank NROM image: 0xFFFE/0xFFFF map to the last two
    // PRG bytes.
    let mut payload = vec![0u8; 16 + 2 * 16384];
    payload[0] = 0x4E;
    payload[1] = 0x45;
    payload[2] = 0x53;
    payload[3] = 0x1A;
    payload[4] = 2;
    payload[16 + 0x7FFE] = 0x66;
    payload[16 + 0x7FFF] = 0x44;
    let cartridge = CartridgeLoader::load_cartridge(payload).unwrap();
    let ppu = Ppu::new(vec![], NameTableMirroring::HORIZONTAL);
    let bus = Bus::new(vec![0; 0x800], ppu, cartridge);
    let mut cpu = Cpu::new(bus, Some(0)).unwrap();
    reset_cpu(&mut cpu);
    cpu.program_counter = 0x1234;
    cpu.evaluate(OpCode::new(0x00)).unwrap();
    assert_eq!(cpu.program_counter, 0x4466);
    assert_eq!(cpu.status.bits(), PLACEHOLDER | IRQ_DIS);

    // The pushed status carries BRK and the placeholder bit; the interrupt
    // disable bit is set only after the push.
    let stored_flags = stack_byte(&mut cpu, 1);
    assert_eq!(stored_flags, BRK | PLACEHOLDER);

    // BRK pushes the address past its padding byte.
    let lsb_stored_program_counter = stack_byte(&mut cpu, 2);
    let msb_stored_program_counter = stack_byte(&mut cpu, 3);
    assert_eq!(combine_u8(lsb_stored_program_counter, msb_stored_program_counter), 0x1236)
}

#[test]
fn test_jsr() {
    let mut memory = vec![0u8; 0x800];
    memory[0] = 0x60;
    memory[1] = 0x20;
    memory[3] = 0x03;

    let mut cpu = create_test_cpu(memory);
    reset_cpu(&mut cpu);
    cpu.program_counter = 2;
    cpu.evaluate(OpCode::new(0x20)).unwrap();
    assert_eq!(cpu.program_counter, 0x03);

    // JSR pushes the address of its own last byte: opcode at 2, operands at
    // 3 and 4, so 4 goes to the stack.
    let lsb_stored_program_counter = stack_byte(&mut cpu, 1);
    let msb_stored_program_counter = stack_byte(&mut cpu, 2);
    assert_eq!(combine_u8(lsb_stored_program_counter, msb_stored_program_counter), 4)
}

#[test]
fn test_rti() {
    let mut memory = vec![0u8; 0x800];
    let flags_on_stack = NEGATIVE | PLACEHOLDER | OVERFLOW;
    memory[0] = 0x40;
    memory[0x01FD] = 0x44;
    memory[0x01FC] = 0x66;
    memory[0x01FB] = flags_on_stack;

    let mut cpu = create_test_cpu(memory);
    reset_cpu(&mut cpu);
    cpu.stack_pointer = 0xFD - 3;
    cpu.program_counter = 2;

    cpu.evaluate(OpCode::new(0x40)).unwrap();
    assert_eq!(cpu.program_counter, 0x4466);
    assert_eq!(cpu.status.bits(), flags_on_stack)
}

#[test]
fn test_rts() {
    // The pulled address is 0x4466; RTS resumes one past it.
    let mut memory = vec![0u8; 0x800];
    memory[0] = 0x40;
    memory[0x01FD] = 0x44;
    memory[0x01FC] = 0x66;

    let mut cpu = create_test_cpu(memory);
    reset_cpu(&mut cpu);
    cpu.stack_pointer = 0xFD - 2;
    cpu.program_counter = 2;

    cpu.evaluate(OpCode::new(0x60)).unwrap();
    assert_eq!(cpu.program_counter, 0x4467);
}

#[test]
fn test_php() {
    let memory = vec![0u8; 0x800];
    let mut cpu = create_test_cpu(memory);
    reset_cpu(&mut cpu);
    let current_flags = NEGATIVE | PLACEHOLDER | OVERFLOW;
    cpu.status = Flags::from_bits(current_flags);
    cpu.evaluate(OpCode::new(0x08)).unwrap();

    let stored_flags = stack_byte(&mut cpu, 1);
    assert_eq!(stored_flags, current_flags)
}

#[test]
fn test_plp() {
    let mut memory = vec![0u8; 0x800];
    let stored_flags = NEGATIVE | PLACEHOLDER | OVERFLOW;
    memory[0x01FD] = stored_flags;

    let mut cpu = create_test_cpu(memory);
    reset_cpu(&mut cpu);
    cpu.stack_pointer = 0xFD - 1;

    cpu.evaluate(OpCode::new(0x28)).unwrap();

    assert_eq!(cpu.status.bits(), stored_flags)
}

#[test]
fn test_push_acc() {
    let memory = vec![0u8; 0x800];
    let mut cpu = create_test_cpu(memory);
    reset_cpu(&mut cpu);
    cpu.acc = 20;
    cpu.evaluate(OpCode::new(0x48)).unwrap();

    let stored_acc = stack_byte(&mut cpu, 1);
    assert_eq!(cpu.acc, stored_acc)
}

#[test]
fn test_pull_acc() {
    let mut memory = vec![0u8; 0x800];
    let acc = 20;
    memory[0x01FD] = acc;
    let mut cpu = create_test_cpu(memory);
    reset_cpu(&mut cpu);
    cpu.stack_pointer = 0xFD - 1;
    cpu.evaluate(OpCode::new(0x68)).unwrap();

    assert_eq!(cpu.acc, acc)
}

#[test]
fn test_transfer() {
    let mut cpu = create_test_cpu(vec![0xAA]);
    reset_cpu(&mut cpu);
    cpu.acc = 10;
    cpu.evaluate(OpCode::new(0xAA)).unwrap();
    assert_eq!(cpu.reg_x, 10);

    reset_cpu(&mut cpu);
    cpu.reg_x = 0b1111_1111;
    cpu.evaluate(OpCode::new(0x9A)).unwrap();
    assert_eq!(cpu.stack_pointer, 0b1111_1111);
    assert_eq!(cpu.status.bits(), PLACEHOLDER)
}

#[test]
fn test_set_flag() {
    let mut cpu = create_test_cpu(vec![0x38]);
    reset_cpu(&mut cpu);
    cpu.status = Flags::from_bits(PLACEHOLDER);
    cpu.evaluate(OpCode::new(0x38)).unwrap();
    assert_eq!(cpu.status.bits(), PLACEHOLDER | CARRY)
}

#[test]
fn test_clear_carry() {
    let mut cpu = create_test_cpu(vec![0x18]);
    reset_cpu(&mut cpu);
    cpu.status = Flags::from_bits(PLACEHOLDER | CARRY);
    cpu.evaluate(OpCode::new(0x18)).unwrap();
    assert_eq!(cpu.status.bits(), PLACEHOLDER)
}

#[test]
fn test_clear_decimal() {
    let mut cpu = create_test_cpu(vec![0xD8]);
    reset_cpu(&mut cpu);
    cpu.status = Flags::from_bits(PLACEHOLDER | DECIMAL);
    cpu.evaluate(OpCode::new(0xD8)).unwrap();
    assert_eq!(cpu.status.bits(), PLACEHOLDER)
}

#[test]
fn test_clear_irq_dis() {
    let mut cpu = create_test_cpu(vec![0x58]);
    reset_cpu(&mut cpu);
    cpu.status = Flags::from_bits(PLACEHOLDER | IRQ_DIS);
    cpu.evaluate(OpCode::new(0x58)).unwrap();
    assert_eq!(cpu.status.bits(), PLACEHOLDER)
}

#[test]
fn test_clear_overflow() {
    let mut cpu = create_test_cpu(vec![0xB8]);
    reset_cpu(&mut cpu);
    cpu.status = Flags::from_bits(PLACEHOLDER | OVERFLOW);
    cpu.evaluate(OpCode::new(0xB8)).unwrap();
    assert_eq!(cpu.status.bits(), PLACEHOLDER)
}

#[test]
fn test_indexed_indirect() {
    let mut cpu = create_test_cpu(vec![0x01, 0x02, 0x04, 0x00, 0b1111_1111]);
    reset_cpu(&mut cpu);
    cpu.evaluate(OpCode::new(0x01)).unwrap();
    assert_eq!(cpu.acc, 0b1111_1111);
    assert_eq!(cpu.status.bits(), NEGATIVE | PLACEHOLDER)
}

#[test]
fn test_zero_page() {
    let mut cpu = create_test_cpu(vec![0x05, 0x02, 0b1111_1111]);
    reset_cpu(&mut cpu);
    cpu.evaluate(OpCode::new(0x05)).unwrap();
    assert_eq!(cpu.acc, 0b1111_1111);
    assert_eq!(cpu.status.bits(), NEGATIVE | PLACEHOLDER)
}

#[test]
fn test_immediate() {
    let mut cpu = create_test_cpu(vec![0x05, 0b1111_1111]);
    reset_cpu(&mut cpu);
    cpu.evaluate(OpCode::new(0x09)).unwrap();
    assert_eq!(cpu.acc, 0b1111_1111);
    assert_eq!(cpu.status.bits(), NEGATIVE | PLACEHOLDER)
}

#[test]
fn test_absolute() {
    let mut cpu = create_test_cpu(vec![0x05, 0x3, 0x0, 0b1111_1111]);
    reset_cpu(&mut cpu);
    cpu.evaluate(OpCode::new(0x0D)).unwrap();
    assert_eq!(cpu.acc, 0b1111_1111);
    assert_eq!(cpu.status.bits(), NEGATIVE | PLACEHOLDER)
}

#[test]
fn test_indirect_indexed() {
    // ORA (0x03),Y with the zero-page pointer at 3 holding 0x0000 and Y=2:
    // the operand comes from address 2.
    let mut cpu = create_test_cpu(vec![0x11, 0x03, 0b1111_1111, 0x00, 0x00]);
    reset_cpu(&mut cpu);
    cpu.reg_y = 2;
    cpu.evaluate(OpCode::new(0x11)).unwrap();
    assert_eq!(cpu.acc, 0b1111_1111);
    assert_eq!(cpu.status.bits(), NEGATIVE | PLACEHOLDER)
}

#[test]
fn test_zero_page_indexed() {
    let mut cpu = create_test_cpu(vec![0x05, 0x0, 0b1111_1111]);
    reset_cpu(&mut cpu);
    cpu.reg_x = 2;
    cpu.evaluate(OpCode::new(0x15)).unwrap();
    assert_eq!(cpu.acc, 0b1111_1111);
    assert_eq!(cpu.status.bits(), NEGATIVE | PLACEHOLDER)
}

#[test]
fn test_absolute_indexed() {
    let mut cpu = create_test_cpu(vec![0x05, 0x3, 0x0, 0b1111_1111]);
    reset_cpu(&mut cpu);
    cpu.evaluate(OpCode::new(0x19)).unwrap();
    assert_eq!(cpu.acc, 0b1111_1111);
    assert_eq!(cpu.status.bits(), NEGATIVE | PLACEHOLDER)
}
