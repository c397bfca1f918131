//! The 6502-family CPU: register file, stack, addressing-mode resolution,
//! the full documented instruction set, interrupt entry and cycle
//! accounting, all running against the bus.

use vstd::prelude::*;
use crate::addressing::{Addressing, AddressingMode, AddressingRegistry};
use crate::bus::{bus_fetch_rel, bus_store_rel, read_pure, read_pure_ok, Bus};
use crate::errors::EmuError;
use crate::flags::{Flags, BRK, CARRY, DECIMAL, IRQ_DIS, NEGATIVE, OVERFLOW, PLACEHOLDER, ZERO};
use crate::op_code::OpCode;
use crate::util::{combine_u8, lsb, msb};

verus! {

pub struct Cpu {
    pub stack_pointer: u8,
    pub program_counter: u16,
    pub acc: u8,
    pub reg_x: u8,
    pub reg_y: u8,
    pub status: Flags,
    /// Cycles still owed for the instruction in flight; while nonzero a step
    /// drains one instead of decoding.
    pub cycles: u8,
    pub bus: Bus,
}

/// 16-bit wrapping addition, as the program counter and absolute indexing
/// use it.
pub open spec fn wadd16(a: u16, d: u16) -> u16 {
    if a + d > 0xFFFF { (a + d - 0x10000) as u16 } else { (a + d) as u16 }
}

/// 8-bit wrapping addition, as zero-page indexing and the stack use it.
pub open spec fn wadd8(a: u8, d: u8) -> u8 {
    if a + d > 0xFF { (a + d - 0x100) as u8 } else { (a + d) as u8 }
}

/// 8-bit wrapping subtraction.
pub open spec fn wsub8(a: u8, d: u8) -> u8 {
    if a >= d { (a - d) as u8 } else { (a - d + 0x100) as u8 }
}

/// The byte a pure read of `address` through the CPU's bus returns.
pub open spec fn rd(c: Cpu, address: u16) -> u8 {
    read_pure(c.bus, address)
}

/// Whether `address` reads purely: RAM, the APU stub, or mapped PRG-ROM.
pub open spec fn rd_ok(c: Cpu, address: u16) -> bool {
    read_pure_ok(c.bus, address)
}

/// A status byte with one flag forced on or off.
pub open spec fn spec_setf(bits: u8, flag: u8, on: bool) -> u8 {
    if on { bits | flag } else { bits & !flag }
}

/// A status byte updated by a result: ZERO iff the result is zero, NEGATIVE
/// iff its bit 7 is set.
pub open spec fn spec_zn(bits: u8, v: u8) -> u8 {
    spec_setf(spec_setf(bits, ZERO, v == 0), NEGATIVE, v >= 0x80)
}



/// The register substitution LDX and STX apply: X-indexed modes index by Y.
pub open spec fn spec_adjust(a: Addressing, target: AddressingRegistry) -> Addressing {
    if target == AddressingRegistry::X && a.register == Some(AddressingRegistry::X)
        && (a.mode == AddressingMode::ZeroPageIndexed || a.mode == AddressingMode::AbsoluteIndexed) {
        Addressing { register: Some(AddressingRegistry::Y), add_cycles: false, mode: a.mode }
    } else {
        a
    }
}

/// The value a register selector names.
pub open spec fn spec_register(c: Cpu, reg: AddressingRegistry) -> u8 {
    match reg {
        AddressingRegistry::X => c.reg_x,
        AddressingRegistry::Y => c.reg_y,
        AddressingRegistry::Acc => c.acc,
        AddressingRegistry::StackPtr => c.stack_pointer,
    }
}

/// The index register an addressing descriptor names.
pub open spec fn spec_index_value(c: Cpu, a: Addressing) -> u8 {
    match a.register {
        Some(AddressingRegistry::X) => c.reg_x,
        Some(AddressingRegistry::Y) => c.reg_y,
        _ => 0,
    }
}

/// How many operand bytes follow the opcode in each mode.
pub open spec fn spec_operand_count(mode: AddressingMode) -> u16 {
    match mode {
        AddressingMode::Absolute => 2,
        AddressingMode::AbsoluteIndexed => 2,
        AddressingMode::Indirect => 2,
        AddressingMode::Accumulator => 0,
        AddressingMode::Implied => 0,
        _ => 1,
    }
}

/// The little-endian 16-bit operand after the opcode.
pub open spec fn spec_absolute_base(c: Cpu, pc: u16) -> u16 {
    (rd(c, wadd16(pc, 2)) as int * 256 + rd(c, wadd16(pc, 1)) as int) as u16
}

/// The effective address an addressing mode resolves to, as a pure function
/// of the machine state at the opcode. The program counter still points at
/// the opcode byte itself.
pub open spec fn spec_operand_addr(c: Cpu, a: Addressing) -> u16 {
    let pc = c.program_counter;
    match a.mode {
        AddressingMode::Immediate => wadd16(pc, 1),
        AddressingMode::Relative => wadd16(pc, 1),
        AddressingMode::ZeroPage => rd(c, wadd16(pc, 1)) as u16,
        AddressingMode::ZeroPageIndexed => wadd8(rd(c, wadd16(pc, 1)), spec_index_value(c, a)) as u16,
        AddressingMode::Absolute => spec_absolute_base(c, pc),
        AddressingMode::AbsoluteIndexed => wadd16(spec_absolute_base(c, pc), spec_index_value(c, a) as u16),
        AddressingMode::IndexedIndirect => {
            let p = wadd8(rd(c, wadd16(pc, 1)), c.reg_x);
            (rd(c, wadd8(p, 1) as u16) as int * 256 + rd(c, p as u16) as int) as u16
        },
        AddressingMode::IndirectIndexed => {
            let arg = rd(c, wadd16(pc, 1));
            let base = (rd(c, wadd8(arg, 1) as u16) as int * 256 + rd(c, arg as u16) as int) as u16;
            wadd16(base, c.reg_y as u16)
        },
        AddressingMode::Indirect => {
            let ptr = spec_absolute_base(c, pc);
            let hi_addr = (ptr & 0xFF00) | (wadd8((ptr & 0x00FF) as u8, 1) as u16);
            (rd(c, hi_addr) as int * 256 + rd(c, ptr) as int) as u16
        },
        _ => 0,
    }
}

/// Whether every byte the address computation itself reads comes from a
/// pure address. Zero-page pointer bytes always live in RAM, so only the
/// operand bytes after the opcode and an indirect pointer matter.
pub open spec fn spec_resolve_ok(c: Cpu, a: Addressing) -> bool {
    let pc = c.program_counter;
    match a.mode {
        AddressingMode::Immediate => true,
        AddressingMode::Relative => true,
        AddressingMode::Accumulator => true,
        AddressingMode::Implied => true,
        AddressingMode::ZeroPage => rd_ok(c, wadd16(pc, 1)),
        AddressingMode::ZeroPageIndexed => rd_ok(c, wadd16(pc, 1)),
        AddressingMode::IndexedIndirect => rd_ok(c, wadd16(pc, 1)),
        AddressingMode::IndirectIndexed => rd_ok(c, wadd16(pc, 1)),
        AddressingMode::Absolute => rd_ok(c, wadd16(pc, 1)) && rd_ok(c, wadd16(pc, 2)),
        AddressingMode::AbsoluteIndexed => rd_ok(c, wadd16(pc, 1)) && rd_ok(c, wadd16(pc, 2)),
        AddressingMode::Indirect => {
            let ptr = spec_absolute_base(c, pc);
            let hi_addr = (ptr & 0xFF00) | (wadd8((ptr & 0x00FF) as u8, 1) as u16);
            rd_ok(c, wadd16(pc, 1)) && rd_ok(c, wadd16(pc, 2)) && rd_ok(c, ptr) && rd_ok(c, hi_addr)
        },
        _ => false,
    }
}

/// Whether resolving the mode and reading the operand byte are both pure.
pub open spec fn spec_operand_ok(c: Cpu, a: Addressing) -> bool {
    spec_resolve_ok(c, a)
        && (a.mode != AddressingMode::Accumulator ==> rd_ok(c, spec_operand_addr(c, a)))
}

/// The operand value the instruction consumes.
pub open spec fn spec_operand_value(c: Cpu, a: Addressing) -> u8 {
    if a.mode == AddressingMode::Accumulator {
        c.acc
    } else {
        rd(c, spec_operand_addr(c, a))
    }
}

/// Whether indexing stepped the effective address over a page boundary,
/// which costs the read instructions one extra cycle.
pub open spec fn spec_page_crossed(c: Cpu, a: Addressing) -> bool {
    match a.mode {
        AddressingMode::AbsoluteIndexed => {
            let base = spec_absolute_base(c, c.program_counter);
            base & 0xFF00 != spec_operand_addr(c, a) & 0xFF00
        },
        AddressingMode::IndirectIndexed => {
            let arg = rd(c, wadd16(c.program_counter, 1));
            let base = (rd(c, wadd8(arg, 1) as u16) as int * 256 + rd(c, arg as u16) as int) as u16;
            base & 0xFF00 != spec_operand_addr(c, a) & 0xFF00
        },
        _ => false,
    }
}

/// The registers and counters an operand fetch never touches.
pub open spec fn regs_quiet(pre: Cpu, post: Cpu) -> bool {
    &&& post.stack_pointer == pre.stack_pointer
    &&& post.acc == pre.acc
    &&& post.reg_x == pre.reg_x
    &&& post.reg_y == pre.reg_y
    &&& post.status == pre.status
    &&& post.cycles == pre.cycles
}

/// The bus parts no CPU read can change.
pub open spec fn bus_read_quiet(pre: Cpu, post: Cpu) -> bool {
    &&& post.bus.memory == pre.bus.memory
    &&& post.bus.cartridge == pre.bus.cartridge
    &&& post.bus.nmi == pre.bus.nmi
}


/// Modes `fetch_address` accepts: everything that names a memory cell, with
/// an index register present where the mode requires one.
pub open spec fn spec_addr_mode_ok(a: Addressing) -> bool {
    match a.mode {
        AddressingMode::Accumulator => false,
        AddressingMode::Implied => false,
        AddressingMode::ZeroPageIndexed => a.register == Some(AddressingRegistry::X)
            || a.register == Some(AddressingRegistry::Y),
        AddressingMode::AbsoluteIndexed => a.register == Some(AddressingRegistry::X)
            || a.register == Some(AddressingRegistry::Y),
        _ => true,
    }
}

/// Modes an operand fetch accepts: accumulator, or any addressable mode.
pub open spec fn spec_operand_mode_ok(a: Addressing) -> bool {
    a.mode == AddressingMode::Accumulator || spec_addr_mode_ok(a)
}

/// An address below 0x0800 is its own RAM cell.
proof fn lemma_low_ram(a: u16)
    requires
        a < 0x0800,
    ensures
        a & 0x07FF == a,
{
    assert(a < 0x0800 ==> a & 0x07FF == a) by (bit_vector);
}

/// A mirrored RAM index always lands inside the 2 KiB window.
proof fn lemma_ram_mask(a: u16)
    ensures
        a & 0x07FF < 0x0800,
{
    assert(a & 0x07FF < 0x0800) by (bit_vector);
}

impl Cpu {
    pub open spec fn wf(&self) -> bool {
        self.bus.wf()
    }

    /// The stack cell the stack pointer designates, in the fixed page
    /// 0x0100..=0x01FF.
    pub open spec fn spec_stack_addr(sp: u8) -> u16 {
        (0x0100 + sp as u16) as u16
    }

    /// A CPU over the given bus. With a caller-chosen program counter the
    /// construction always succeeds; without one the reset vector at
    /// 0xFFFC/0xFFFD supplies it, which requires those two cartridge
    /// addresses to be mapped. The stack pointer starts at 0xFD and the
    /// status carries the placeholder and interrupt-disable bits.
    pub fn new(bus: Bus, program_counter: Option<u16>) -> (r: Result<Cpu, EmuError>)
        requires
            bus.wf(),
        ensures
            program_counter matches Some(p) ==> (r matches Ok(c) && {
                &&& c.program_counter == p
                &&& c.stack_pointer == 0xFD
                &&& c.acc == 0 && c.reg_x == 0 && c.reg_y == 0 && c.cycles == 0
                &&& c.status.bits == (PLACEHOLDER | IRQ_DIS)
                &&& c.bus == bus
                &&& c.wf()
            }),
            program_counter is None && read_pure_ok(bus, 0xFFFC) && read_pure_ok(bus, 0xFFFD)
                ==> (r matches Ok(c) && {
                    &&& c.program_counter == read_pure(bus, 0xFFFD) as int * 256 + read_pure(bus, 0xFFFC) as int
                    &&& c.stack_pointer == 0xFD
                    &&& c.acc == 0 && c.reg_x == 0 && c.reg_y == 0 && c.cycles == 0
                    &&& c.status.bits == (PLACEHOLDER | IRQ_DIS)
                    &&& c.bus == bus
                    &&& c.wf()
                }),
            program_counter is None && !(read_pure_ok(bus, 0xFFFC) && read_pure_ok(bus, 0xFFFD))
                ==> r is Err,
    {
        let mut cpu = Cpu {
            stack_pointer: 0xFD,
            program_counter: 0,
            acc: 0,
            reg_x: 0,
            reg_y: 0,
            cycles: 0,
            status: Flags::from_bits(PLACEHOLDER | IRQ_DIS),
            bus,
        };
        match program_counter {
            Some(x) => {
                cpu.program_counter = x;
                Ok(cpu)
            },
            None => {
                match cpu.startup() {
                    Ok(()) => Ok(cpu),
                    Err(e) => Err(e),
                }
            },
        }
    }

    /// Loads the program counter from the reset vector.
    fn startup(&mut self) -> (r: Result<(), EmuError>)
        requires
            old(self).wf(),
        ensures
            final(self).wf(),
            rd_ok(*old(self), 0xFFFC) && rd_ok(*old(self), 0xFFFD) ==> r is Ok
                && *final(self) == (Cpu {
                    program_counter: (rd(*old(self), 0xFFFD) as int * 256 + rd(*old(self), 0xFFFC) as int) as u16,
                    ..*old(self)
                }),
            !(rd_ok(*old(self), 0xFFFC) && rd_ok(*old(self), 0xFFFD)) ==> r is Err
                && *final(self) == *old(self),
    {
        let msb = match self.fetch(0xFFFD) {
            Ok(v) => v,
            Err(e) => {
                return Err(e);
            },
        };
        let lsb = match self.fetch(0xFFFC) {
            Ok(v) => v,
            Err(e) => {
                return Err(e);
            },
        };
        self.program_counter = combine_u8(lsb, msb);
        Ok(())
    }

    /// One bus read. High addresses are pure; reads in the PPU window take
    /// the register read side effects with them.
    pub fn fetch(&mut self, address: u16) -> (r: Result<u8, EmuError>)
        requires
            old(self).wf(),
        ensures
            final(self).wf(),
            bus_fetch_rel(old(self).bus, final(self).bus, address, r),
            regs_quiet(*old(self), *final(self)),
            final(self).program_counter == old(self).program_counter,
            bus_read_quiet(*old(self), *final(self)),
            rd_ok(*old(self), address) ==> r == Ok::<u8, EmuError>(rd(*old(self), address))
                && *final(self) == *old(self),
    {
        self.bus.fetch(address)
    }

    /// One bus write, or an accumulator update when the addressing mode
    /// named no memory cell.
    pub fn store(&mut self, value: u8, address: Option<u16>) -> (r: Result<(), EmuError>)
        requires
            old(self).wf(),
        ensures
            final(self).wf(),
            address is None ==> r is Ok && *final(self) == (Cpu { acc: value, ..*old(self) }),
            address matches Some(a) ==> {
                &&& bus_store_rel(old(self).bus, final(self).bus, value, a, r)
                &&& regs_quiet(*old(self), *final(self))
                &&& final(self).program_counter == old(self).program_counter
            },
    {
        match address {
            None => {
                self.acc = value;
                Ok(())
            },
            Some(add) => self.bus.store(value, add),
        }
    }

    /// Pushes a byte: store at 0x0100 | SP, then decrement SP, wrapping
    /// inside the stack page.
    fn push_on_stack(&mut self, value: u8)
        requires
            old(self).wf(),
        ensures
            final(self).wf(),
            final(self).bus.memory@ == old(self).bus.memory@.update(
                Self::spec_stack_addr(old(self).stack_pointer) as int, value),
            final(self).bus.memory@[Self::spec_stack_addr(old(self).stack_pointer) as int] == value,
            final(self).stack_pointer == wsub8(old(self).stack_pointer, 1),
            final(self).bus.ppu == old(self).bus.ppu,
            final(self).bus.cartridge == old(self).bus.cartridge,
            final(self).bus.nmi == old(self).bus.nmi,
            final(self).program_counter == old(self).program_counter,
            final(self).acc == old(self).acc,
            final(self).reg_x == old(self).reg_x,
            final(self).reg_y == old(self).reg_y,
            final(self).status == old(self).status,
            final(self).cycles == old(self).cycles,
    {
        let addr: u16 = 0x0100 + (self.stack_pointer as u16);
        proof {
            lemma_low_ram(addr);
        }
        let r = self.bus.store(value, addr);
        proof {
            assert(r is Ok);
        }
        self.stack_pointer = self.stack_pointer.wrapping_sub(1);
    }

    /// Pulls a byte: increment SP, wrapping inside the stack page, then
    /// read at 0x0100 | SP.
    fn pull_from_stack(&mut self) -> (r: u8)
        requires
            old(self).wf(),
        ensures
            final(self).wf(),
            r == old(self).bus.memory@[Self::spec_stack_addr(wadd8(old(self).stack_pointer, 1)) as int],
            *final(self) == (Cpu { stack_pointer: wadd8(old(self).stack_pointer, 1), ..*old(self) }),
    {
        self.stack_pointer = self.stack_pointer.wrapping_add(1);
        let addr: u16 = 0x0100 + (self.stack_pointer as u16);
        proof {
            lemma_low_ram(addr);
        }
        let r = self.fetch(addr);
        match r {
            Ok(v) => v,
            Err(_) => 0,
        }
    }

    /// Pushes the status byte; the placeholder bit is always set in the
    /// pushed copy.
    fn push_flags_on_stack(&mut self)
        requires
            old(self).wf(),
        ensures
            final(self).wf(),
            final(self).bus.memory@ == old(self).bus.memory@.update(
                Self::spec_stack_addr(old(self).stack_pointer) as int,
                old(self).status.bits | PLACEHOLDER),
            final(self).stack_pointer == wsub8(old(self).stack_pointer, 1),
            final(self).bus.ppu == old(self).bus.ppu,
            final(self).bus.cartridge == old(self).bus.cartridge,
            final(self).bus.nmi == old(self).bus.nmi,
            final(self).program_counter == old(self).program_counter,
            final(self).acc == old(self).acc,
            final(self).reg_x == old(self).reg_x,
            final(self).reg_y == old(self).reg_y,
            final(self).status == old(self).status,
            final(self).cycles == old(self).cycles,
    {
        let bits = self.status.bits() | PLACEHOLDER;
        self.push_on_stack(bits);
    }

    /// Pushes the program counter, high byte first.
    fn push_program_counter_on_stack(&mut self)
        requires
            old(self).wf(),
        ensures
            final(self).wf(),
            final(self).bus.memory@ == old(self).bus.memory@
                .update(Self::spec_stack_addr(old(self).stack_pointer) as int,
                    (old(self).program_counter >> 8u16) as u8)
                .update(Self::spec_stack_addr(wsub8(old(self).stack_pointer, 1)) as int,
                    (old(self).program_counter & 0xFF) as u8),
            final(self).stack_pointer == wsub8(old(self).stack_pointer, 2),
            final(self).bus.ppu == old(self).bus.ppu,
            final(self).bus.cartridge == old(self).bus.cartridge,
            final(self).bus.nmi == old(self).bus.nmi,
            final(self).program_counter == old(self).program_counter,
            final(self).acc == old(self).acc,
            final(self).reg_x == old(self).reg_x,
            final(self).reg_y == old(self).reg_y,
            final(self).status == old(self).status,
            final(self).cycles == old(self).cycles,
    {
        let hi = (self.program_counter >> 8u16) as u8;
        let lo = (self.program_counter & 0xFF) as u8;
        self.push_on_stack(hi);
        self.push_on_stack(lo);
        proof {
            assert(wsub8(wsub8(old(self).stack_pointer, 1), 1) == wsub8(old(self).stack_pointer, 2));
        }
    }

    /// Pulls a status byte: the BRK bit is dropped and the placeholder bit
    /// forced on.
    fn read_flags_from_stack(&mut self) -> (r: Flags)
        requires
            old(self).wf(),
        ensures
            final(self).wf(),
            r.bits == (old(self).bus.memory@[
                Self::spec_stack_addr(wadd8(old(self).stack_pointer, 1)) as int
            ] & !BRK) | PLACEHOLDER,
            *final(self) == (Cpu { stack_pointer: wadd8(old(self).stack_pointer, 1), ..*old(self) }),
    {
        let raw = self.pull_from_stack();
        let mut flags = Flags::from_bits(raw);
        flags.remove(BRK);
        flags.insert(PLACEHOLDER);
        flags
    }

    /// Pulls the program counter, low byte first.
    fn read_pc_from_stack(&mut self) -> (r: u16)
        requires
            old(self).wf(),
        ensures
            final(self).wf(),
            r == old(self).bus.memory@[
                    Self::spec_stack_addr(wadd8(old(self).stack_pointer, 2)) as int
                ] as int * 256
                + old(self).bus.memory@[
                    Self::spec_stack_addr(wadd8(old(self).stack_pointer, 1)) as int
                ] as int,
            *final(self) == (Cpu { stack_pointer: wadd8(old(self).stack_pointer, 2), ..*old(self) }),
    {
        let lsb = self.pull_from_stack();
        let msb = self.pull_from_stack();
        proof {
            assert(wadd8(wadd8(old(self).stack_pointer, 1), 1) == wadd8(old(self).stack_pointer, 2));
        }
        combine_u8(lsb, msb)
    }

    fn set_carry(&mut self, result: u16)
        ensures
            *final(self) == (Cpu {
                status: Flags { bits: spec_setf(old(self).status.bits, CARRY, result > 0xFF) },
                ..*old(self)
            }),
    {
        if result > 0xFF {
            self.status.insert(CARRY);
        } else {
            self.status.remove(CARRY);
        }
    }

    fn set_borrow(&mut self, result: u16)
        ensures
            *final(self) == (Cpu {
                status: Flags { bits: spec_setf(old(self).status.bits, CARRY, result < 0x100) },
                ..*old(self)
            }),
    {
        if result < 0x100 {
            self.status.insert(CARRY);
        } else {
            self.status.remove(CARRY);
        }
    }

    fn set_zero(&mut self, result: u8)
        ensures
            *final(self) == (Cpu {
                status: Flags { bits: spec_setf(old(self).status.bits, ZERO, result == 0) },
                ..*old(self)
            }),
    {
        if result == 0 {
            self.status.insert(ZERO);
        } else {
            self.status.remove(ZERO);
        }
    }

    fn set_negative(&mut self, result: u8)
        ensures
            *final(self) == (Cpu {
                status: Flags { bits: spec_setf(old(self).status.bits, NEGATIVE, result >= 0x80) },
                ..*old(self)
            }),
    {
        if msb(result) != 0 {
            self.status.insert(NEGATIVE);
        } else {
            self.status.remove(NEGATIVE);
        }
    }

    /// Sets ZERO and NEGATIVE from a result byte.
    fn set_zn(&mut self, result: u8)
        ensures
            *final(self) == (Cpu {
                status: Flags { bits: spec_zn(old(self).status.bits, result) },
                ..*old(self)
            }),
    {
        self.set_zero(result);
        self.set_negative(result);
    }

    /// The operand address, or `None` in accumulator mode.
    pub open spec fn spec_addr_opt(c: Cpu, a: Addressing) -> Option<u16> {
        if a.mode == AddressingMode::Accumulator {
            None
        } else {
            Some(spec_operand_addr(c, a))
        }
    }

    fn indexed_indirect_address(&mut self) -> (r: Result<u16, EmuError>)
        requires
            old(self).wf(),
        ensures
            final(self).wf(),
            regs_quiet(*old(self), *final(self)),
            bus_read_quiet(*old(self), *final(self)),
            spec_resolve_ok(*old(self), crate::addressing::spec_indexed_indirect())
                ==> r == Ok::<u16, EmuError>(spec_operand_addr(*old(self), crate::addressing::spec_indexed_indirect()))
                    && *final(self) == (Cpu { program_counter: wadd16(old(self).program_counter, 1), ..*old(self) }),
    {
        self.program_counter = self.program_counter.wrapping_add(1);
        let op_code_arg = match self.fetch(self.program_counter) {
            Ok(v) => v,
            Err(e) => { return Err(e); },
        };
        let p = op_code_arg.wrapping_add(self.reg_x);
        let lsb = match self.fetch(p as u16) {
            Ok(v) => v,
            Err(e) => { return Err(e); },
        };
        let msb = match self.fetch(p.wrapping_add(1) as u16) {
            Ok(v) => v,
            Err(e) => { return Err(e); },
        };
        Ok(combine_u8(lsb, msb))
    }

    fn indirect_indexed_address(&mut self) -> (r: Result<u16, EmuError>)
        requires
            old(self).wf(),
        ensures
            final(self).wf(),
            regs_quiet(*old(self), *final(self)),
            bus_read_quiet(*old(self), *final(self)),
            spec_resolve_ok(*old(self), crate::addressing::spec_indirect_indexed())
                ==> r == Ok::<u16, EmuError>(spec_operand_addr(*old(self), crate::addressing::spec_indirect_indexed()))
                    && *final(self) == (Cpu { program_counter: wadd16(old(self).program_counter, 1), ..*old(self) }),
    {
        self.program_counter = self.program_counter.wrapping_add(1);
        let op_code_arg = match self.fetch(self.program_counter) {
            Ok(v) => v,
            Err(e) => { return Err(e); },
        };
        let lsb = match self.fetch(op_code_arg as u16) {
            Ok(v) => v,
            Err(e) => { return Err(e); },
        };
        let msb = match self.fetch(op_code_arg.wrapping_add(1) as u16) {
            Ok(v) => v,
            Err(e) => { return Err(e); },
        };
        let base = combine_u8(lsb, msb);
        Ok(base.wrapping_add(self.reg_y as u16))
    }

    fn zero_page_address(&mut self) -> (r: Result<u16, EmuError>)
        requires
            old(self).wf(),
        ensures
            final(self).wf(),
            regs_quiet(*old(self), *final(self)),
            bus_read_quiet(*old(self), *final(self)),
            spec_resolve_ok(*old(self), crate::addressing::spec_zero_page())
                ==> r == Ok::<u16, EmuError>(spec_operand_addr(*old(self), crate::addressing::spec_zero_page()))
                    && *final(self) == (Cpu { program_counter: wadd16(old(self).program_counter, 1), ..*old(self) }),
    {
        self.program_counter = self.program_counter.wrapping_add(1);
        let lsb = match self.fetch(self.program_counter) {
            Ok(v) => v,
            Err(e) => { return Err(e); },
        };
        Ok(lsb as u16)
    }

    fn immediate_address(&mut self) -> (r: u16)
        ensures
            r == wadd16(old(self).program_counter, 1),
            *final(self) == (Cpu { program_counter: wadd16(old(self).program_counter, 1), ..*old(self) }),
    {
        self.program_counter = self.program_counter.wrapping_add(1);
        self.program_counter
    }

    fn absolute_address(&mut self) -> (r: Result<u16, EmuError>)
        requires
            old(self).wf(),
        ensures
            final(self).wf(),
            regs_quiet(*old(self), *final(self)),
            bus_read_quiet(*old(self), *final(self)),
            spec_resolve_ok(*old(self), crate::addressing::spec_absolute())
                ==> r == Ok::<u16, EmuError>(spec_absolute_base(*old(self), old(self).program_counter))
                    && *final(self) == (Cpu { program_counter: wadd16(old(self).program_counter, 2), ..*old(self) }),
    {
        self.program_counter = self.program_counter.wrapping_add(1);
        let lsb = match self.fetch(self.program_counter) {
            Ok(v) => v,
            Err(e) => { return Err(e); },
        };
        self.program_counter = self.program_counter.wrapping_add(1);
        let msb = match self.fetch(self.program_counter) {
            Ok(v) => v,
            Err(e) => { return Err(e); },
        };
        Ok(combine_u8(lsb, msb))
    }

    /// The absolute operand plus the named index register, wrapping at 16
    /// bits.
    fn indexed_address(&mut self, addressing: &Addressing) -> (r: Result<u16, EmuError>)
        requires
            old(self).wf(),
            addressing.mode == AddressingMode::AbsoluteIndexed,
            addressing.register == Some(AddressingRegistry::X)
                || addressing.register == Some(AddressingRegistry::Y),
        ensures
            final(self).wf(),
            regs_quiet(*old(self), *final(self)),
            bus_read_quiet(*old(self), *final(self)),
            spec_resolve_ok(*old(self), *addressing)
                ==> r == Ok::<u16, EmuError>(spec_operand_addr(*old(self), *addressing))
                    && *final(self) == (Cpu { program_counter: wadd16(old(self).program_counter, 2), ..*old(self) }),
    {
        self.program_counter = self.program_counter.wrapping_add(1);
        let lsb = match self.fetch(self.program_counter) {
            Ok(v) => v,
            Err(e) => { return Err(e); },
        };
        self.program_counter = self.program_counter.wrapping_add(1);
        let msb = match self.fetch(self.program_counter) {
            Ok(v) => v,
            Err(e) => { return Err(e); },
        };
        let to_add = match addressing.register {
            Some(AddressingRegistry::X) => self.reg_x,
            _ => self.reg_y,
        };
        Ok(combine_u8(lsb, msb).wrapping_add(to_add as u16))
    }

    fn zero_page_indexed_address(&mut self, addressing: &Addressing) -> (r: Result<u16, EmuError>)
        requires
            old(self).wf(),
            addressing.mode == AddressingMode::ZeroPageIndexed,
            addressing.register == Some(AddressingRegistry::X)
                || addressing.register == Some(AddressingRegistry::Y),
        ensures
            final(self).wf(),
            regs_quiet(*old(self), *final(self)),
            bus_read_quiet(*old(self), *final(self)),
            spec_resolve_ok(*old(self), *addressing)
                ==> r == Ok::<u16, EmuError>(spec_operand_addr(*old(self), *addressing))
                    && *final(self) == (Cpu { program_counter: wadd16(old(self).program_counter, 1), ..*old(self) }),
            r matches Ok(a) ==> a <= 0xFF,
    {
        self.program_counter = self.program_counter.wrapping_add(1);
        let base = match self.fetch(self.program_counter) {
            Ok(v) => v,
            Err(e) => { return Err(e); },
        };
        let to_add = match addressing.register {
            Some(AddressingRegistry::X) => self.reg_x,
            _ => self.reg_y,
        };
        Ok(base.wrapping_add(to_add) as u16)
    }

    fn absolute_indexed_address(&mut self, addressing: &Addressing) -> (r: Result<u16, EmuError>)
        requires
            old(self).wf(),
            addressing.mode == AddressingMode::AbsoluteIndexed,
            addressing.register == Some(AddressingRegistry::X)
                || addressing.register == Some(AddressingRegistry::Y),
        ensures
            final(self).wf(),
            regs_quiet(*old(self), *final(self)),
            bus_read_quiet(*old(self), *final(self)),
            spec_resolve_ok(*old(self), *addressing)
                ==> r == Ok::<u16, EmuError>(spec_operand_addr(*old(self), *addressing))
                    && *final(self) == (Cpu { program_counter: wadd16(old(self).program_counter, 2), ..*old(self) }),
    {
        self.indexed_address(addressing)
    }

    /// JMP (indirect), with the 6502's page-boundary quirk: the high byte
    /// of the target comes from the same page as the low byte.
    fn indirect_address(&mut self, addressing: &Addressing) -> (r: Result<u16, EmuError>)
        requires
            old(self).wf(),
            addressing.mode == AddressingMode::Indirect,
        ensures
            final(self).wf(),
            regs_quiet(*old(self), *final(self)),
            bus_read_quiet(*old(self), *final(self)),
            spec_resolve_ok(*old(self), *addressing)
                ==> r == Ok::<u16, EmuError>(spec_operand_addr(*old(self), *addressing))
                    && *final(self) == (Cpu { program_counter: wadd16(old(self).program_counter, 2), ..*old(self) }),
    {
        self.program_counter = self.program_counter.wrapping_add(1);
        let lsb = match self.fetch(self.program_counter) {
            Ok(v) => v,
            Err(e) => { return Err(e); },
        };
        self.program_counter = self.program_counter.wrapping_add(1);
        let msb = match self.fetch(self.program_counter) {
            Ok(v) => v,
            Err(e) => { return Err(e); },
        };
        let ptr = combine_u8(lsb, msb);
        let real_lsb = match self.fetch(ptr) {
            Ok(v) => v,
            Err(e) => { return Err(e); },
        };
        let low_byte = (ptr & 0x00FF) as u8;
        let hi_addr = (ptr & 0xFF00) | (low_byte.wrapping_add(1) as u16);
        let real_msb = match self.fetch(hi_addr) {
            Ok(v) => v,
            Err(e) => { return Err(e); },
        };
        Ok(combine_u8(real_lsb, real_msb))
    }

    fn relative(&mut self) -> (r: u16)
        ensures
            r == wadd16(old(self).program_counter, 1),
            *final(self) == (Cpu { program_counter: wadd16(old(self).program_counter, 1), ..*old(self) }),
    {
        self.program_counter = self.program_counter.wrapping_add(1);
        self.program_counter
    }

    /// Resolves an addressing descriptor to an effective address, consuming
    /// the operand bytes after the opcode.
    fn fetch_address(&mut self, addressing: &Addressing) -> (r: Result<u16, EmuError>)
        requires
            old(self).wf(),
            spec_addr_mode_ok(*addressing),
        ensures
            final(self).wf(),
            regs_quiet(*old(self), *final(self)),
            bus_read_quiet(*old(self), *final(self)),
            spec_resolve_ok(*old(self), *addressing)
                ==> r == Ok::<u16, EmuError>(spec_operand_addr(*old(self), *addressing))
                    && *final(self) == (Cpu {
                        program_counter: wadd16(old(self).program_counter, spec_operand_count(addressing.mode)),
                        ..*old(self)
                    }),
    {
        match addressing.mode {
            AddressingMode::IndexedIndirect => self.indexed_indirect_address(),
            AddressingMode::ZeroPage => self.zero_page_address(),
            AddressingMode::Immediate => Ok(self.immediate_address()),
            AddressingMode::Absolute => self.absolute_address(),
            AddressingMode::IndirectIndexed => self.indirect_indexed_address(),
            AddressingMode::ZeroPageIndexed => self.zero_page_indexed_address(addressing),
            AddressingMode::AbsoluteIndexed => self.absolute_indexed_address(addressing),
            AddressingMode::Indirect => self.indirect_address(addressing),
            AddressingMode::Relative => Ok(self.relative()),
            _ => Err(EmuError::UnknownOpCode(0)),
        }
    }

    /// Resolves the operand: its value, and its address unless the mode
    /// operates on the accumulator.
    fn fetch_with_addressing_mode(&mut self, addressing: &Addressing) -> (r: Result<(u8, Option<u16>), EmuError>)
        requires
            old(self).wf(),
            spec_operand_mode_ok(*addressing),
        ensures
            final(self).wf(),
            regs_quiet(*old(self), *final(self)),
            bus_read_quiet(*old(self), *final(self)),
            r matches Ok(t) ==> (t.1 is Some <==> addressing.mode != AddressingMode::Accumulator),
            spec_operand_ok(*old(self), *addressing)
                ==> r == Ok::<(u8, Option<u16>), EmuError>((
                        spec_operand_value(*old(self), *addressing),
                        Self::spec_addr_opt(*old(self), *addressing),
                    ))
                    && *final(self) == (Cpu {
                        program_counter: wadd16(old(self).program_counter, spec_operand_count(addressing.mode)),
                        ..*old(self)
                    }),
    {
        if addressing.mode == AddressingMode::Accumulator {
            Ok((self.acc, None))
        } else {
            let address = match self.fetch_address(addressing) {
                Ok(a) => a,
                Err(e) => { return Err(e); },
            };
            let value = match self.fetch(address) {
                Ok(v) => v,
                Err(e) => { return Err(e); },
            };
            Ok((value, Some(address)))
        }
    }

}

/// Base cycle counts for the read instructions, plus one where indexing
/// crossed a page.
pub open spec fn spec_read_cycles(mode: AddressingMode, crossed: bool) -> u8 {
    match mode {
        AddressingMode::Immediate => 2,
        AddressingMode::ZeroPage => 3,
        AddressingMode::ZeroPageIndexed => 4,
        AddressingMode::Absolute => 4,
        AddressingMode::AbsoluteIndexed => if crossed { 5 } else { 4 },
        AddressingMode::IndexedIndirect => 6,
        AddressingMode::IndirectIndexed => if crossed { 6 } else { 5 },
        _ => 2,
    }
}

/// Cycle counts for the store instructions; indexed stores always pay the
/// fixup cycle.
pub open spec fn spec_store_cycles(mode: AddressingMode) -> u8 {
    match mode {
        AddressingMode::ZeroPage => 3,
        AddressingMode::ZeroPageIndexed => 4,
        AddressingMode::Absolute => 4,
        AddressingMode::AbsoluteIndexed => 5,
        AddressingMode::IndexedIndirect => 6,
        AddressingMode::IndirectIndexed => 6,
        _ => 2,
    }
}

/// Cycle counts for the read-modify-write instructions.
pub open spec fn spec_rmw_cycles(mode: AddressingMode) -> u8 {
    match mode {
        AddressingMode::Accumulator => 2,
        AddressingMode::ZeroPage => 5,
        AddressingMode::ZeroPageIndexed => 6,
        AddressingMode::Absolute => 6,
        AddressingMode::AbsoluteIndexed => 7,
        _ => 2,
    }
}

/// 1 when the carry flag is set, else 0.
pub open spec fn spec_carry_in(bits: u8) -> int {
    if bits & CARRY == CARRY { 1 } else { 0 }
}

/// The accumulator after ADC.
pub open spec fn spec_adc_res(a: u8, m: u8, bits: u8) -> u8 {
    ((a + m + spec_carry_in(bits)) % 256) as u8
}

/// The status after ADC: carry from the 9th bit, zero and negative from
/// the result, overflow when both operands share a sign the result lacks.
pub open spec fn spec_adc_bits(a: u8, m: u8, bits: u8) -> u8 {
    let sum = a + m + spec_carry_in(bits);
    let res = spec_adc_res(a, m, bits);
    spec_setf(
        spec_zn(spec_setf(bits, CARRY, sum > 0xFF), res),
        OVERFLOW,
        ((a ^ res) & (m ^ res) & 0x80) != 0,
    )
}

/// The accumulator after SBC: subtraction with the borrow `!CARRY`.
pub open spec fn spec_sbc_res(a: u8, m: u8, bits: u8) -> u8 {
    ((a - m - (1 - spec_carry_in(bits))) % 256) as u8
}

/// The status after SBC: carry reports that no borrow occurred.
pub open spec fn spec_sbc_bits(a: u8, m: u8, bits: u8) -> u8 {
    let borrow = 1 - spec_carry_in(bits);
    let res = spec_sbc_res(a, m, bits);
    spec_setf(
        spec_zn(spec_setf(bits, CARRY, a >= m + borrow), res),
        OVERFLOW,
        ((a ^ res) & (a ^ m) & 0x80) != 0,
    )
}

/// The status after CMP/CPX/CPY against register value `target`.
pub open spec fn spec_cmp_bits(bits: u8, target: u8, m: u8) -> u8 {
    let res = ((target - m) % 256) as u8;
    spec_setf(spec_setf(spec_setf(bits, NEGATIVE, res >= 0x80), CARRY, m <= target), ZERO, res == 0)
}

/// The status after a shift or rotate: zero and negative from the result,
/// carry from the bit shifted out.
pub open spec fn spec_shift_bits(bits: u8, res: u8, carry: bool) -> u8 {
    spec_setf(spec_zn(bits, res), CARRY, carry)
}

/// The status after BIT: zero from the masked accumulator, negative and
/// overflow copied from bits 7 and 6 of the operand.
pub open spec fn spec_bit_bits(bits: u8, acc: u8, m: u8) -> u8 {
    spec_setf(spec_setf(spec_setf(bits, ZERO, (m & acc) == 0), NEGATIVE, m >= 0x80), OVERFLOW, m & 0x40 != 0)
}

/// A branch offset byte sign-extended to 16 bits.
pub open spec fn spec_sign_ext(v: u8) -> u16 {
    if v < 0x80 { v as u16 } else { (v as u16 + 0xFF00) as u16 }
}

/// The flag a branch opcode tests, from the top two bits of its `aaa`
/// field.
pub open spec fn spec_branch_mask(upper: u8) -> u8 {
    if (upper >> 1u8) & 0x03 == 0 { NEGATIVE }
    else if (upper >> 1u8) & 0x03 == 1 { OVERFLOW }
    else if (upper >> 1u8) & 0x03 == 2 { CARRY }
    else { ZERO }
}

/// Whether a branch is taken: the tested flag must match the polarity bit.
pub open spec fn spec_branch_taken(bits: u8, upper: u8) -> bool {
    (bits & spec_branch_mask(upper) == spec_branch_mask(upper)) == (upper & 1 == 1)
}

/// The program counter after the whole instruction: opcode byte, operand
/// bytes, and the final advance.
pub open spec fn spec_pc_next(c: Cpu, mode: AddressingMode) -> u16 {
    wadd16(c.program_counter, (spec_operand_count(mode) + 1) as u16)
}

/// Whether a bus write of `value` at `addr` succeeds; only an OAM DMA
/// trigger with an impure source page faults.
pub open spec fn spec_store_ok(b: Bus, value: u8, addr: u16) -> bool {
    !(addr == 0x4014 && !crate::bus::dma_source_ok(b, value))
}

impl Cpu {
    fn read_base_cycles(&self, mode: AddressingMode) -> (r: u8)
        ensures
            r == spec_read_cycles(mode, false),
    {
        match mode {
            AddressingMode::Immediate => 2,
            AddressingMode::ZeroPage => 3,
            AddressingMode::ZeroPageIndexed => 4,
            AddressingMode::Absolute => 4,
            AddressingMode::AbsoluteIndexed => 4,
            AddressingMode::IndexedIndirect => 6,
            AddressingMode::IndirectIndexed => 5,
            _ => 2,
        }
    }

    fn store_cycles(&self, mode: AddressingMode) -> (r: u8)
        ensures
            r == spec_store_cycles(mode),
    {
        match mode {
            AddressingMode::ZeroPage => 3,
            AddressingMode::ZeroPageIndexed => 4,
            AddressingMode::Absolute => 4,
            AddressingMode::AbsoluteIndexed => 5,
            AddressingMode::IndexedIndirect => 6,
            AddressingMode::IndirectIndexed => 6,
            _ => 2,
        }
    }

    fn rmw_cycles(&self, mode: AddressingMode) -> (r: u8)
        ensures
            r == spec_rmw_cycles(mode),
    {
        match mode {
            AddressingMode::Accumulator => 2,
            AddressingMode::ZeroPage => 5,
            AddressingMode::ZeroPageIndexed => 6,
            AddressingMode::Absolute => 6,
            AddressingMode::AbsoluteIndexed => 7,
            _ => 2,
        }
    }

    /// NOP: spend a cycle pair and move on.
    fn noop(&mut self) -> (r: u8)
        ensures
            r == 2,
            *final(self) == (Cpu { program_counter: wadd16(old(self).program_counter, 1), ..*old(self) }),
    {
        self.program_counter = self.program_counter.wrapping_add(1);
        2
    }

    /// CLC, CLD, CLI, CLV: clear one status flag.
    fn clear_flag(&mut self, flag: u8) -> (r: u8)
        ensures
            r == 2,
            *final(self) == (Cpu {
                status: Flags { bits: spec_setf(old(self).status.bits, flag, false) },
                program_counter: wadd16(old(self).program_counter, 1),
                ..*old(self)
            }),
    {
        self.status.set_flag(false, flag);
        self.program_counter = self.program_counter.wrapping_add(1);
        2
    }

    /// SEC, SED, SEI: set one status flag.
    pub fn set_flag(&mut self, flag: u8) -> (r: u8)
        ensures
            r == 2,
            *final(self) == (Cpu {
                status: Flags { bits: spec_setf(old(self).status.bits, flag, true) },
                program_counter: wadd16(old(self).program_counter, 1),
                ..*old(self)
            }),
    {
        self.status.set_flag(true, flag);
        self.program_counter = self.program_counter.wrapping_add(1);
        2
    }

    /// The register value a transfer source names.
    fn read_register(&self, reg: AddressingRegistry) -> (r: u8)
        ensures
            r == spec_register(*self, reg),
    {
        match reg {
            AddressingRegistry::X => self.reg_x,
            AddressingRegistry::Y => self.reg_y,
            AddressingRegistry::Acc => self.acc,
            AddressingRegistry::StackPtr => self.stack_pointer,
        }
    }

    /// TAX, TAY, TSX, TXA, TXS, TYA: copy one register into another. Every
    /// transfer but the one into the stack pointer updates zero and
    /// negative.
    fn transfer(&mut self, from: AddressingRegistry, into: AddressingRegistry) -> (r: u8)
        ensures
            r == 2,
            ({
                let v = spec_register(*old(self), from);
                &&& final(self).program_counter == wadd16(old(self).program_counter, 1)
                &&& final(self).acc == if into == AddressingRegistry::Acc { v } else { old(self).acc }
                &&& final(self).reg_x == if into == AddressingRegistry::X { v } else { old(self).reg_x }
                &&& final(self).reg_y == if into == AddressingRegistry::Y { v } else { old(self).reg_y }
                &&& final(self).stack_pointer
                    == if into == AddressingRegistry::StackPtr { v } else { old(self).stack_pointer }
                &&& final(self).status.bits == if into == AddressingRegistry::StackPtr {
                    old(self).status.bits
                } else {
                    spec_zn(old(self).status.bits, v)
                }
                &&& final(self).bus == old(self).bus
                &&& final(self).cycles == old(self).cycles
            }),
    {
        let from_value = self.read_register(from);
        match into {
            AddressingRegistry::X => self.reg_x = from_value,
            AddressingRegistry::Y => self.reg_y = from_value,
            AddressingRegistry::Acc => self.acc = from_value,
            AddressingRegistry::StackPtr => self.stack_pointer = from_value,
        };
        if !(into == AddressingRegistry::StackPtr) {
            self.set_zn(from_value);
        }
        self.program_counter = self.program_counter.wrapping_add(1);
        2
    }

    /// PHA: push the accumulator.
    fn push_accumulator(&mut self) -> (r: u8)
        requires
            old(self).wf(),
        ensures
            final(self).wf(),
            r == 3,
            final(self).bus.memory@ == old(self).bus.memory@.update(
                Self::spec_stack_addr(old(self).stack_pointer) as int, old(self).acc),
            final(self).stack_pointer == wsub8(old(self).stack_pointer, 1),
            final(self).program_counter == wadd16(old(self).program_counter, 1),
            final(self).acc == old(self).acc,
            final(self).reg_x == old(self).reg_x,
            final(self).reg_y == old(self).reg_y,
            final(self).status == old(self).status,
            final(self).cycles == old(self).cycles,
            final(self).bus.ppu == old(self).bus.ppu,
            final(self).bus.cartridge == old(self).bus.cartridge,
            final(self).bus.nmi == old(self).bus.nmi,
    {
        let acc = self.acc;
        self.push_on_stack(acc);
        self.program_counter = self.program_counter.wrapping_add(1);
        3
    }

    /// PLA: pull the accumulator and set zero and negative from it.
    fn pull_accumulator(&mut self) -> (r: u8)
        requires
            old(self).wf(),
        ensures
            final(self).wf(),
            r == 4,
            ({
                let v = old(self).bus.memory@[
                    Self::spec_stack_addr(wadd8(old(self).stack_pointer, 1)) as int];
                *final(self) == (Cpu {
                    acc: v,
                    status: Flags { bits: spec_zn(old(self).status.bits, v) },
                    stack_pointer: wadd8(old(self).stack_pointer, 1),
                    program_counter: wadd16(old(self).program_counter, 1),
                    ..*old(self)
                })
            }),
    {
        let v = self.pull_from_stack();
        self.acc = v;
        self.set_zn(v);
        self.program_counter = self.program_counter.wrapping_add(1);
        4
    }

    /// PHP: push the status byte, placeholder bit set.
    fn push_processor_status(&mut self) -> (r: u8)
        requires
            old(self).wf(),
        ensures
            final(self).wf(),
            r == 3,
            final(self).bus.memory@ == old(self).bus.memory@.update(
                Self::spec_stack_addr(old(self).stack_pointer) as int,
                old(self).status.bits | PLACEHOLDER),
            final(self).stack_pointer == wsub8(old(self).stack_pointer, 1),
            final(self).program_counter == wadd16(old(self).program_counter, 1),
            final(self).acc == old(self).acc,
            final(self).reg_x == old(self).reg_x,
            final(self).reg_y == old(self).reg_y,
            final(self).status == old(self).status,
            final(self).cycles == old(self).cycles,
            final(self).bus.ppu == old(self).bus.ppu,
            final(self).bus.cartridge == old(self).bus.cartridge,
            final(self).bus.nmi == old(self).bus.nmi,
    {
        self.push_flags_on_stack();
        self.program_counter = self.program_counter.wrapping_add(1);
        3
    }

    /// PLP: pull the status byte; BRK drops, the placeholder bit holds.
    fn pull_processor_status(&mut self) -> (r: u8)
        requires
            old(self).wf(),
        ensures
            final(self).wf(),
            r == 4,
            ({
                let raw = old(self).bus.memory@[
                    Self::spec_stack_addr(wadd8(old(self).stack_pointer, 1)) as int];
                *final(self) == (Cpu {
                    status: Flags { bits: (raw & !BRK) | PLACEHOLDER },
                    stack_pointer: wadd8(old(self).stack_pointer, 1),
                    program_counter: wadd16(old(self).program_counter, 1),
                    ..*old(self)
                })
            }),
    {
        let flags = self.read_flags_from_stack();
        self.status = flags;
        self.program_counter = self.program_counter.wrapping_add(1);
        4
    }

    /// INX, INY, DEX, DEY: step an index register by one, wrapping.
    fn offset_register_by_one(&mut self, addressing: Addressing, increment: bool) -> (r: u8)
        requires
            addressing.register == Some(AddressingRegistry::X)
                || addressing.register == Some(AddressingRegistry::Y),
        ensures
            r == 2,
            ({
                let v = spec_index_value(*old(self), addressing);
                let res = if increment { wadd8(v, 1) } else { wsub8(v, 1) };
                &&& final(self).program_counter == wadd16(old(self).program_counter, 1)
                &&& final(self).reg_x == if addressing.register == Some(AddressingRegistry::X) {
                    res
                } else {
                    old(self).reg_x
                }
                &&& final(self).reg_y == if addressing.register == Some(AddressingRegistry::Y) {
                    res
                } else {
                    old(self).reg_y
                }
                &&& final(self).status.bits == spec_zn(old(self).status.bits, res)
                &&& final(self).acc == old(self).acc
                &&& final(self).stack_pointer == old(self).stack_pointer
                &&& final(self).cycles == old(self).cycles
                &&& final(self).bus == old(self).bus
            }),
    {
        match addressing.register {
            Some(AddressingRegistry::X) => {
                let result = self.offset_by_one(self.reg_x, increment);
                self.reg_x = result;
            },
            _ => {
                let result = self.offset_by_one(self.reg_y, increment);
                self.reg_y = result;
            },
        };
        self.program_counter = self.program_counter.wrapping_add(1);
        2
    }

    /// A value stepped by one, wrapping, with zero and negative updated.
    fn offset_by_one(&mut self, value: u8, increment: bool) -> (r: u8)
        ensures
            r == if increment { wadd8(value, 1) } else { wsub8(value, 1) },
            *final(self) == (Cpu {
                status: Flags { bits: spec_zn(old(self).status.bits, r) },
                ..*old(self)
            }),
    {
        let result = if increment {
            value.wrapping_add(1)
        } else {
            value.wrapping_sub(1)
        };
        self.set_zn(result);
        result
    }

    /// RTS and RTI. Both pull the program counter from the stack; RTI first
    /// pulls the status, and only RTS adds one to the pulled address.
    fn return_from(&mut self, read_flags: bool) -> (r: u8)
        requires
            old(self).wf(),
        ensures
            final(self).wf(),
            r == 6,
            read_flags ==> ({
                let raw = old(self).bus.memory@[
                    Self::spec_stack_addr(wadd8(old(self).stack_pointer, 1)) as int];
                let lo = old(self).bus.memory@[
                    Self::spec_stack_addr(wadd8(old(self).stack_pointer, 2)) as int];
                let hi = old(self).bus.memory@[
                    Self::spec_stack_addr(wadd8(old(self).stack_pointer, 3)) as int];
                *final(self) == (Cpu {
                    status: Flags { bits: (raw & !BRK) | PLACEHOLDER },
                    stack_pointer: wadd8(old(self).stack_pointer, 3),
                    program_counter: (hi as int * 256 + lo as int) as u16,
                    ..*old(self)
                })
            }),
            !read_flags ==> ({
                let lo = old(self).bus.memory@[
                    Self::spec_stack_addr(wadd8(old(self).stack_pointer, 1)) as int];
                let hi = old(self).bus.memory@[
                    Self::spec_stack_addr(wadd8(old(self).stack_pointer, 2)) as int];
                *final(self) == (Cpu {
                    stack_pointer: wadd8(old(self).stack_pointer, 2),
                    program_counter: wadd16((hi as int * 256 + lo as int) as u16, 1),
                    ..*old(self)
                })
            }),
    {
        if read_flags {
            let flags = self.read_flags_from_stack();
            self.status = flags;
            let new_pc = self.read_pc_from_stack();
            proof {
                assert(wadd8(wadd8(old(self).stack_pointer, 1), 2) == wadd8(old(self).stack_pointer, 3));
                assert(wadd8(wadd8(old(self).stack_pointer, 1), 1) == wadd8(old(self).stack_pointer, 2));
            }
            self.program_counter = new_pc;
        } else {
            let new_pc = self.read_pc_from_stack();
            self.program_counter = new_pc.wrapping_add(1);
        }
        6
    }
}


/// 16-bit wrapping subtraction.
pub open spec fn wsub16(a: u16, d: u16) -> u16 {
    if a >= d { (a - d) as u16 } else { (a - d + 0x10000) as u16 }
}

/// An accumulator logic operation.
#[derive(Clone, Copy, Debug, PartialEq, Eq, Structural)]
pub enum LogicalOp {
    Or,
    And,
    Xor,
}

/// The result of an accumulator logic operation.
pub open spec fn spec_logical(op: LogicalOp, a: u8, m: u8) -> u8 {
    match op {
        LogicalOp::Or => a | m,
        LogicalOp::And => a & m,
        LogicalOp::Xor => a ^ m,
    }
}

/// The signed-overflow test the 6502 applies after ADC (`add`) or SBC.
pub open spec fn spec_overflow_occurred(lhs: u8, rhs: u8, result: u8, add: bool) -> bool {
    if add {
        ((lhs ^ result) & (rhs ^ result) & 0x80) != 0
    } else {
        ((lhs ^ result) & (lhs ^ rhs) & 0x80) != 0
    }
}

/// The register file fields an ALU instruction leaves alone.
pub open spec fn alu_quiet(pre: Cpu, post: Cpu) -> bool {
    &&& post.stack_pointer == pre.stack_pointer
    &&& post.reg_x == pre.reg_x
    &&& post.reg_y == pre.reg_y
    &&& post.cycles == pre.cycles
    &&& bus_read_quiet(pre, post)
}

impl Cpu {
    /// Resolves the operand and computes the page-crossing cycle penalty
    /// the read instructions pay on indexed modes.
    fn fetch_operand_with_penalty(&mut self, addressing: &Addressing) -> (r: Result<(u8, Option<u16>, u8), EmuError>)
        requires
            old(self).wf(),
            spec_operand_mode_ok(*addressing),
        ensures
            final(self).wf(),
            regs_quiet(*old(self), *final(self)),
            bus_read_quiet(*old(self), *final(self)),
            r matches Ok(t) ==> t.2 <= 1 && (t.1 is Some <==> addressing.mode != AddressingMode::Accumulator),
            spec_operand_ok(*old(self), *addressing)
                ==> r == Ok::<(u8, Option<u16>, u8), EmuError>((
                        spec_operand_value(*old(self), *addressing),
                        Self::spec_addr_opt(*old(self), *addressing),
                        if spec_page_crossed(*old(self), *addressing) { 1u8 } else { 0u8 },
                    ))
                    && *final(self) == (Cpu {
                        program_counter: wadd16(old(self).program_counter, spec_operand_count(addressing.mode)),
                        ..*old(self)
                    }),
    {
        let (value, address) = match self.fetch_with_addressing_mode(addressing) {
            Ok(p) => p,
            Err(e) => { return Err(e); },
        };
        let penalty: u8 = match addressing.mode {
            AddressingMode::AbsoluteIndexed => {
                let idx = match addressing.register {
                    Some(AddressingRegistry::X) => self.reg_x,
                    _ => self.reg_y,
                };
                match address {
                    Some(ad) => {
                        let base = ad.wrapping_sub(idx as u16);
                        if (base & 0xFF00) != (ad & 0xFF00) { 1 } else { 0 }
                    },
                    None => 0,
                }
            },
            AddressingMode::IndirectIndexed => {
                let idx = self.reg_y;
                match address {
                    Some(ad) => {
                        let base = ad.wrapping_sub(idx as u16);
                        if (base & 0xFF00) != (ad & 0xFF00) { 1 } else { 0 }
                    },
                    None => 0,
                }
            },
            _ => 0,
        };
        proof {
            if spec_operand_ok(*old(self), *addressing) {
                if addressing.mode == AddressingMode::AbsoluteIndexed {
                    let b = spec_absolute_base(*old(self), old(self).program_counter);
                    let d = spec_index_value(*old(self), *addressing) as u16;
                    assert(wsub16(wadd16(b, d), d) == b);
                }
                if addressing.mode == AddressingMode::IndirectIndexed {
                    let arg = rd(*old(self), wadd16(old(self).program_counter, 1));
                    let b = (rd(*old(self), wadd8(arg, 1) as u16) as int * 256
                        + rd(*old(self), arg as u16) as int) as u16;
                    let d = old(self).reg_y as u16;
                    assert(wsub16(wadd16(b, d), d) == b);
                }
            }
        }
        Ok((value, address, penalty))
    }

    fn overflow_occurred(&self, lhs: u8, rhs: u8, result: u8, add: bool) -> (r: bool)
        ensures
            r == spec_overflow_occurred(lhs, rhs, result, add),
    {
        if add {
            ((lhs ^ result) & (rhs ^ result) & 0x80) != 0
        } else {
            ((lhs ^ result) & (lhs ^ rhs) & 0x80) != 0
        }
    }

    fn set_overflow(&mut self, lhs: u8, rhs: u8, result: u8, add: bool)
        ensures
            *final(self) == (Cpu {
                status: Flags {
                    bits: spec_setf(old(self).status.bits, OVERFLOW,
                        spec_overflow_occurred(lhs, rhs, result, add)),
                },
                ..*old(self)
            }),
    {
        let o = self.overflow_occurred(lhs, rhs, result, add);
        self.status.set_flag(o, OVERFLOW);
    }

    /// ADC: accumulator plus operand plus carry, with carry, zero,
    /// negative and signed overflow updated.
    fn add_with_carry(&mut self, addressing: Addressing) -> (r: Result<u8, EmuError>)
        requires
            old(self).wf(),
            spec_operand_mode_ok(addressing),
        ensures
            final(self).wf(),
            alu_quiet(*old(self), *final(self)),
            spec_operand_ok(*old(self), addressing) ==> ({
                let m = spec_operand_value(*old(self), addressing);
                &&& r == Ok::<u8, EmuError>(spec_read_cycles(addressing.mode, spec_page_crossed(*old(self), addressing)))
                &&& *final(self) == (Cpu {
                    acc: spec_adc_res(old(self).acc, m, old(self).status.bits),
                    status: Flags { bits: spec_adc_bits(old(self).acc, m, old(self).status.bits) },
                    program_counter: spec_pc_next(*old(self), addressing.mode),
                    ..*old(self)
                })
            }),
    {
        let (value, _, penalty) = match self.fetch_operand_with_penalty(&addressing) {
            Ok(t) => t,
            Err(e) => { return Err(e); },
        };
        let carry: u16 = if self.status.contains(CARRY) { 1 } else { 0 };
        let result: u16 = self.acc as u16 + value as u16 + carry;
        let res8: u8 = (result % 256) as u8;
        let acc_before = self.acc;
        self.set_carry(result);
        self.set_zn(res8);
        self.set_overflow(acc_before, value, res8, true);
        self.acc = res8;
        let cycles = self.read_base_cycles(addressing.mode) + penalty;
        self.program_counter = self.program_counter.wrapping_add(1);
        Ok(cycles)
    }

    /// SBC: accumulator minus operand minus borrow, carry reporting that no
    /// borrow occurred.
    fn sub_with_borrow(&mut self, addressing: Addressing) -> (r: Result<u8, EmuError>)
        requires
            old(self).wf(),
            spec_operand_mode_ok(addressing),
        ensures
            final(self).wf(),
            alu_quiet(*old(self), *final(self)),
            spec_operand_ok(*old(self), addressing) ==> ({
                let m = spec_operand_value(*old(self), addressing);
                &&& r == Ok::<u8, EmuError>(spec_read_cycles(addressing.mode, spec_page_crossed(*old(self), addressing)))
                &&& *final(self) == (Cpu {
                    acc: spec_sbc_res(old(self).acc, m, old(self).status.bits),
                    status: Flags { bits: spec_sbc_bits(old(self).acc, m, old(self).status.bits) },
                    program_counter: spec_pc_next(*old(self), addressing.mode),
                    ..*old(self)
                })
            }),
    {
        let (value, _, penalty) = match self.fetch_operand_with_penalty(&addressing) {
            Ok(t) => t,
            Err(e) => { return Err(e); },
        };
        let borrow: u16 = if self.status.contains(CARRY) { 0 } else { 1 };
        let diff: u16 = self.acc as u16 + 0x100 - value as u16 - borrow;
        let no_borrow = self.acc as u16 >= value as u16 + borrow;
        let res8: u8 = (diff % 256) as u8;
        let acc_before = self.acc;
        self.status.set_flag(no_borrow, CARRY);
        self.set_zn(res8);
        self.set_overflow(acc_before, value, res8, false);
        self.acc = res8;
        let cycles = self.read_base_cycles(addressing.mode) + penalty;
        self.program_counter = self.program_counter.wrapping_add(1);
        Ok(cycles)
    }

    /// CMP, CPX, CPY: compare a register against the operand without
    /// changing it.
    fn compare(&mut self, addressing: Addressing, target: u8) -> (r: Result<u8, EmuError>)
        requires
            old(self).wf(),
            spec_operand_mode_ok(addressing),
        ensures
            final(self).wf(),
            alu_quiet(*old(self), *final(self)),
            final(self).acc == old(self).acc,
            spec_operand_ok(*old(self), addressing) ==> ({
                let m = spec_operand_value(*old(self), addressing);
                &&& r == Ok::<u8, EmuError>(spec_read_cycles(addressing.mode, spec_page_crossed(*old(self), addressing)))
                &&& *final(self) == (Cpu {
                    status: Flags { bits: spec_cmp_bits(old(self).status.bits, target, m) },
                    program_counter: spec_pc_next(*old(self), addressing.mode),
                    ..*old(self)
                })
            }),
    {
        let (value, _, penalty) = match self.fetch_operand_with_penalty(&addressing) {
            Ok(t) => t,
            Err(e) => { return Err(e); },
        };
        let result: u16 = target as u16 + 0x100 - value as u16;
        let res8: u8 = (result % 256) as u8;
        let negative = res8 >= 0x80;
        let carry = value <= target;
        let zero = res8 == 0;
        self.status.set_flag(negative, NEGATIVE);
        self.status.set_flag(carry, CARRY);
        self.status.set_flag(zero, ZERO);
        let cycles = self.read_base_cycles(addressing.mode) + penalty;
        self.program_counter = self.program_counter.wrapping_add(1);
        Ok(cycles)
    }

    /// ORA, AND, EOR: a logic operation into the accumulator.
    fn bitwise_instruction(&mut self, addressing: Addressing, operation: LogicalOp) -> (r: Result<u8, EmuError>)
        requires
            old(self).wf(),
            spec_operand_mode_ok(addressing),
        ensures
            final(self).wf(),
            alu_quiet(*old(self), *final(self)),
            spec_operand_ok(*old(self), addressing) ==> ({
                let m = spec_operand_value(*old(self), addressing);
                let res = spec_logical(operation, old(self).acc, m);
                &&& r == Ok::<u8, EmuError>(spec_read_cycles(addressing.mode, spec_page_crossed(*old(self), addressing)))
                &&& *final(self) == (Cpu {
                    acc: res,
                    status: Flags { bits: spec_zn(old(self).status.bits, res) },
                    program_counter: spec_pc_next(*old(self), addressing.mode),
                    ..*old(self)
                })
            }),
    {
        let (value, _, penalty) = match self.fetch_operand_with_penalty(&addressing) {
            Ok(t) => t,
            Err(e) => { return Err(e); },
        };
        let res = match operation {
            LogicalOp::Or => self.acc | value,
            LogicalOp::And => self.acc & value,
            LogicalOp::Xor => self.acc ^ value,
        };
        self.acc = res;
        self.set_zn(res);
        let cycles = self.read_base_cycles(addressing.mode) + penalty;
        self.program_counter = self.program_counter.wrapping_add(1);
        Ok(cycles)
    }

    /// LDA: load the accumulator and set zero and negative.
    fn load_accumulator(&mut self, addressing: Addressing) -> (r: Result<u8, EmuError>)
        requires
            old(self).wf(),
            spec_operand_mode_ok(addressing),
        ensures
            final(self).wf(),
            alu_quiet(*old(self), *final(self)),
            spec_operand_ok(*old(self), addressing) ==> ({
                let m = spec_operand_value(*old(self), addressing);
                &&& r == Ok::<u8, EmuError>(spec_read_cycles(addressing.mode, spec_page_crossed(*old(self), addressing)))
                &&& *final(self) == (Cpu {
                    acc: m,
                    status: Flags { bits: spec_zn(old(self).status.bits, m) },
                    program_counter: spec_pc_next(*old(self), addressing.mode),
                    ..*old(self)
                })
            }),
    {
        let (value, _, penalty) = match self.fetch_operand_with_penalty(&addressing) {
            Ok(t) => t,
            Err(e) => { return Err(e); },
        };
        self.set_zn(value);
        self.acc = value;
        let cycles = self.read_base_cycles(addressing.mode) + penalty;
        self.program_counter = self.program_counter.wrapping_add(1);
        Ok(cycles)
    }

    /// The descriptor with X-indexing turned into Y-indexing, which LDX and
    /// STX require.
    fn adjust_addressing(&self, addressing: Addressing, target: AddressingRegistry) -> (r: Addressing)
        ensures
            r == spec_adjust(addressing, target),
    {
        if target == AddressingRegistry::X {
            if addressing.mode == AddressingMode::ZeroPageIndexed
                && addressing.register == Some(AddressingRegistry::X) {
                return Addressing::zero_page_indexed(Some(AddressingRegistry::Y), false);
            }
            if addressing.mode == AddressingMode::AbsoluteIndexed
                && addressing.register == Some(AddressingRegistry::X) {
                return Addressing::absolute_indexed(Some(AddressingRegistry::Y), false);
            }
        }
        addressing
    }

    /// LDX, LDY: load an index register and set zero and negative.
    fn load_register(&mut self, addressing: Addressing, target: AddressingRegistry) -> (r: Result<u8, EmuError>)
        requires
            old(self).wf(),
            target == AddressingRegistry::X || target == AddressingRegistry::Y,
            spec_operand_mode_ok(spec_adjust(addressing, target)),
        ensures
            final(self).wf(),
            final(self).stack_pointer == old(self).stack_pointer,
            final(self).acc == old(self).acc,
            final(self).cycles == old(self).cycles,
            bus_read_quiet(*old(self), *final(self)),
            spec_operand_ok(*old(self), spec_adjust(addressing, target)) ==> ({
                let adj = spec_adjust(addressing, target);
                let m = spec_operand_value(*old(self), adj);
                &&& r == Ok::<u8, EmuError>(spec_read_cycles(adj.mode, spec_page_crossed(*old(self), adj)))
                &&& *final(self) == (Cpu {
                    reg_x: if target == AddressingRegistry::X { m } else { old(self).reg_x },
                    reg_y: if target == AddressingRegistry::Y { m } else { old(self).reg_y },
                    status: Flags { bits: spec_zn(old(self).status.bits, m) },
                    program_counter: spec_pc_next(*old(self), adj.mode),
                    ..*old(self)
                })
            }),
    {
        let adjusted = self.adjust_addressing(addressing, target);
        let (value, _, penalty) = match self.fetch_operand_with_penalty(&adjusted) {
            Ok(t) => t,
            Err(e) => { return Err(e); },
        };
        self.set_zn(value);
        if target == AddressingRegistry::X {
            self.reg_x = value;
        } else {
            self.reg_y = value;
        }
        let cycles = self.read_base_cycles(adjusted.mode) + penalty;
        self.program_counter = self.program_counter.wrapping_add(1);
        Ok(cycles)
    }

    /// BIT: test the operand against the accumulator, copying its top bits
    /// into negative and overflow.
    fn bit_test(&mut self, addressing: Addressing) -> (r: Result<u8, EmuError>)
        requires
            old(self).wf(),
            spec_operand_mode_ok(addressing),
        ensures
            final(self).wf(),
            alu_quiet(*old(self), *final(self)),
            final(self).acc == old(self).acc,
            spec_operand_ok(*old(self), addressing) ==> ({
                let m = spec_operand_value(*old(self), addressing);
                &&& r == Ok::<u8, EmuError>(spec_read_cycles(addressing.mode, spec_page_crossed(*old(self), addressing)))
                &&& *final(self) == (Cpu {
                    status: Flags { bits: spec_bit_bits(old(self).status.bits, old(self).acc, m) },
                    program_counter: spec_pc_next(*old(self), addressing.mode),
                    ..*old(self)
                })
            }),
    {
        let (to_test, _, penalty) = match self.fetch_operand_with_penalty(&addressing) {
            Ok(t) => t,
            Err(e) => { return Err(e); },
        };
        let zero = (to_test & self.acc) == 0;
        let negative = to_test >= 0x80;
        let overflow = to_test & 0x40 != 0;
        self.status.set_flag(zero, ZERO);
        self.status.set_flag(negative, NEGATIVE);
        self.status.set_flag(overflow, OVERFLOW);
        let cycles = self.read_base_cycles(addressing.mode) + penalty;
        self.program_counter = self.program_counter.wrapping_add(1);
        Ok(cycles)
    }
}


/// The outcome of a shift or rotate: result written to the accumulator or
/// back through the bus, flags from `spec_shift_bits`, read-modify-write
/// cycle cost. Holds when the write-back target accepts the store.
pub open spec fn shift_outcome_rel(pre: Cpu, post: Cpu, a: Addressing, res: u8, carry: bool, r: Result<u8, EmuError>) -> bool {
    if a.mode == AddressingMode::Accumulator {
        &&& r == Ok::<u8, EmuError>(spec_rmw_cycles(a.mode))
        &&& post == (Cpu {
            acc: res,
            status: Flags { bits: spec_shift_bits(pre.status.bits, res, carry) },
            program_counter: wadd16(pre.program_counter, 1),
            ..pre
        })
    } else {
        spec_store_ok(pre.bus, res, spec_operand_addr(pre, a)) ==> {
            &&& r == Ok::<u8, EmuError>(spec_rmw_cycles(a.mode))
            &&& bus_store_rel(pre.bus, post.bus, res, spec_operand_addr(pre, a), Ok(()))
            &&& post.acc == pre.acc
            &&& post.status.bits == spec_shift_bits(pre.status.bits, res, carry)
            &&& post.program_counter == spec_pc_next(pre, a.mode)
        }
    }
}


impl Cpu {
    fn set_rotation_flags(&mut self, result: u8, carry: bool)
        ensures
            *final(self) == (Cpu {
                status: Flags { bits: spec_shift_bits(old(self).status.bits, result, carry) },
                ..*old(self)
            }),
    {
        self.set_zn(result);
        self.status.set_flag(carry, CARRY);
    }

    /// The shared tail of the four shift and rotate instructions: write the
    /// result back, update the flags, charge the read-modify-write cycles.
    fn finish_shift(&mut self, addressing: Addressing, result: u8, carry: bool, address: Option<u16>) -> (r: Result<u8, EmuError>)
        requires
            old(self).wf(),
        ensures
            final(self).wf(),
            final(self).stack_pointer == old(self).stack_pointer,
            final(self).reg_x == old(self).reg_x,
            final(self).reg_y == old(self).reg_y,
            final(self).cycles == old(self).cycles,
            final(self).bus.memory@.len() == old(self).bus.memory@.len(),
            final(self).bus.cartridge == old(self).bus.cartridge,
            address is None ==> ({
                &&& r == Ok::<u8, EmuError>(spec_rmw_cycles(addressing.mode))
                &&& *final(self) == (Cpu {
                    acc: result,
                    status: Flags { bits: spec_shift_bits(old(self).status.bits, result, carry) },
                    program_counter: wadd16(old(self).program_counter, 1),
                    ..*old(self)
                })
            }),
            address matches Some(ad) ==> spec_store_ok(old(self).bus, result, ad) ==> ({
                &&& r == Ok::<u8, EmuError>(spec_rmw_cycles(addressing.mode))
                &&& bus_store_rel(old(self).bus, final(self).bus, result, ad, Ok(()))
                &&& *final(self) == (Cpu {
                    status: Flags { bits: spec_shift_bits(old(self).status.bits, result, carry) },
                    program_counter: wadd16(old(self).program_counter, 1),
                    bus: final(self).bus,
                    ..*old(self)
                })
            }),
    {
        proof {
            match address {
                Some(ad) => lemma_ram_mask(ad),
                None => {},
            }
        }
        match self.store(result, address) {
            Ok(()) => {},
            Err(e) => { return Err(e); },
        }
        self.set_rotation_flags(result, carry);
        let cycles = self.rmw_cycles(addressing.mode);
        self.program_counter = self.program_counter.wrapping_add(1);
        Ok(cycles)
    }

    /// ASL: shift left; the old bit 7 becomes the carry.
    fn shift_left(&mut self, addressing: Addressing) -> (r: Result<u8, EmuError>)
        requires
            old(self).wf(),
            spec_operand_mode_ok(addressing),
        ensures
            final(self).wf(),
            final(self).stack_pointer == old(self).stack_pointer,
            final(self).reg_x == old(self).reg_x,
            final(self).reg_y == old(self).reg_y,
            final(self).cycles == old(self).cycles,
            spec_operand_ok(*old(self), addressing) ==> ({
                let m = spec_operand_value(*old(self), addressing);
                let res = m << 1u8;
                let carry = m >= 0x80;
                shift_outcome_rel(*old(self), *final(self), addressing, res, carry, r)
            }),
    {
        let (value, address, _) = match self.fetch_operand_with_penalty(&addressing) {
            Ok(t) => t,
            Err(e) => { return Err(e); },
        };
        let result = value << 1u8;
        let carry = msb(value) == 1;
        self.finish_shift(addressing, result, carry, address)
    }

    /// LSR: shift right; the old bit 0 becomes the carry.
    fn logical_shift_right(&mut self, addressing: Addressing) -> (r: Result<u8, EmuError>)
        requires
            old(self).wf(),
            spec_operand_mode_ok(addressing),
        ensures
            final(self).wf(),
            final(self).stack_pointer == old(self).stack_pointer,
            final(self).reg_x == old(self).reg_x,
            final(self).reg_y == old(self).reg_y,
            final(self).cycles == old(self).cycles,
            spec_operand_ok(*old(self), addressing) ==> ({
                let m = spec_operand_value(*old(self), addressing);
                let res = m >> 1u8;
                let carry = m & 1 == 1;
                shift_outcome_rel(*old(self), *final(self), addressing, res, carry, r)
            }),
    {
        let (value, address, _) = match self.fetch_operand_with_penalty(&addressing) {
            Ok(t) => t,
            Err(e) => { return Err(e); },
        };
        let result = value >> 1u8;
        let carry = lsb(value) == 1;
        self.finish_shift(addressing, result, carry, address)
    }

    /// ROL: rotate left through the carry.
    fn rotate_left(&mut self, addressing: Addressing) -> (r: Result<u8, EmuError>)
        requires
            old(self).wf(),
            spec_operand_mode_ok(addressing),
        ensures
            final(self).wf(),
            final(self).stack_pointer == old(self).stack_pointer,
            final(self).reg_x == old(self).reg_x,
            final(self).reg_y == old(self).reg_y,
            final(self).cycles == old(self).cycles,
            spec_operand_ok(*old(self), addressing) ==> ({
                let m = spec_operand_value(*old(self), addressing);
                let res = if old(self).status.bits & CARRY == CARRY { (m << 1u8) | 1u8 } else { m << 1u8 };
                let carry = m >= 0x80;
                shift_outcome_rel(*old(self), *final(self), addressing, res, carry, r)
            }),
    {
        let (value, address, _) = match self.fetch_operand_with_penalty(&addressing) {
            Ok(t) => t,
            Err(e) => { return Err(e); },
        };
        let carry = msb(value) == 1;
        let mut result = value << 1u8;
        if self.status.contains(CARRY) {
            result = result | 1;
        }
        self.finish_shift(addressing, result, carry, address)
    }

    /// ROR: rotate right through the carry.
    fn rotate_right(&mut self, addressing: Addressing) -> (r: Result<u8, EmuError>)
        requires
            old(self).wf(),
            spec_operand_mode_ok(addressing),
        ensures
            final(self).wf(),
            final(self).stack_pointer == old(self).stack_pointer,
            final(self).reg_x == old(self).reg_x,
            final(self).reg_y == old(self).reg_y,
            final(self).cycles == old(self).cycles,
            spec_operand_ok(*old(self), addressing) ==> ({
                let m = spec_operand_value(*old(self), addressing);
                let res = if old(self).status.bits & CARRY == CARRY { (m >> 1u8) | 0x80u8 } else { m >> 1u8 };
                let carry = m & 1 == 1;
                shift_outcome_rel(*old(self), *final(self), addressing, res, carry, r)
            }),
    {
        let (value, address, _) = match self.fetch_operand_with_penalty(&addressing) {
            Ok(t) => t,
            Err(e) => { return Err(e); },
        };
        let carry = lsb(value) == 1;
        let mut result = value >> 1u8;
        if self.status.contains(CARRY) {
            result = result | 0x80;
        }
        self.finish_shift(addressing, result, carry, address)
    }

    /// STA: store the accumulator.
    fn store_accumulator(&mut self, addressing: Addressing) -> (r: Result<u8, EmuError>)
        requires
            old(self).wf(),
            spec_addr_mode_ok(addressing),
        ensures
            final(self).wf(),
            regs_quiet(*old(self), *final(self)),
            spec_resolve_ok(*old(self), addressing)
                && spec_store_ok(old(self).bus, old(self).acc, spec_operand_addr(*old(self), addressing))
                ==> ({
                    &&& r == Ok::<u8, EmuError>(spec_store_cycles(addressing.mode))
                    &&& bus_store_rel(old(self).bus, final(self).bus, old(self).acc,
                        spec_operand_addr(*old(self), addressing), Ok(()))
                    &&& final(self).program_counter == spec_pc_next(*old(self), addressing.mode)
                }),
    {
        let address = match self.fetch_address(&addressing) {
            Ok(a) => a,
            Err(e) => { return Err(e); },
        };
        let acc = self.acc;
        match self.store(acc, Some(address)) {
            Ok(()) => {},
            Err(e) => { return Err(e); },
        }
        let cycles = self.store_cycles(addressing.mode);
        self.program_counter = self.program_counter.wrapping_add(1);
        Ok(cycles)
    }

    /// STX, STY: store an index register; STX swaps X-indexing for
    /// Y-indexing first.
    fn store_register(&mut self, addressing: Addressing, target: AddressingRegistry) -> (r: Result<u8, EmuError>)
        requires
            old(self).wf(),
            target == AddressingRegistry::X || target == AddressingRegistry::Y,
            spec_addr_mode_ok(spec_adjust(addressing, target)),
        ensures
            final(self).wf(),
            regs_quiet(*old(self), *final(self)),
            ({
                let adj = spec_adjust(addressing, target);
                let v = if target == AddressingRegistry::X { old(self).reg_x } else { old(self).reg_y };
                spec_resolve_ok(*old(self), adj)
                    && spec_store_ok(old(self).bus, v, spec_operand_addr(*old(self), adj))
                    ==> {
                        &&& r == Ok::<u8, EmuError>(spec_store_cycles(adj.mode))
                        &&& bus_store_rel(old(self).bus, final(self).bus, v,
                            spec_operand_addr(*old(self), adj), Ok(()))
                        &&& final(self).program_counter == spec_pc_next(*old(self), adj.mode)
                    }
            }),
    {
        let adjusted = self.adjust_addressing(addressing, target);
        let address = match self.fetch_address(&adjusted) {
            Ok(a) => a,
            Err(e) => { return Err(e); },
        };
        let register_value = if target == AddressingRegistry::X {
            self.reg_x
        } else {
            self.reg_y
        };
        match self.store(register_value, Some(address)) {
            Ok(()) => {},
            Err(e) => { return Err(e); },
        }
        let cycles = self.store_cycles(adjusted.mode);
        self.program_counter = self.program_counter.wrapping_add(1);
        Ok(cycles)
    }

    /// INC, DEC: step a memory cell by one, wrapping, and set zero and
    /// negative from the result.
    fn offset_memory_by_one(&mut self, addressing: Addressing, increment: bool) -> (r: Result<u8, EmuError>)
        requires
            old(self).wf(),
            spec_addr_mode_ok(addressing),
        ensures
            final(self).wf(),
            final(self).stack_pointer == old(self).stack_pointer,
            final(self).reg_x == old(self).reg_x,
            final(self).reg_y == old(self).reg_y,
            final(self).acc == old(self).acc,
            final(self).cycles == old(self).cycles,
            ({
                let m = spec_operand_value(*old(self), addressing);
                let res = if increment { wadd8(m, 1) } else { wsub8(m, 1) };
                spec_operand_ok(*old(self), addressing)
                    && spec_store_ok(old(self).bus, res, spec_operand_addr(*old(self), addressing))
                    ==> {
                        &&& r == Ok::<u8, EmuError>(spec_rmw_cycles(addressing.mode))
                        &&& bus_store_rel(old(self).bus, final(self).bus, res,
                            spec_operand_addr(*old(self), addressing), Ok(()))
                        &&& final(self).status.bits == spec_zn(old(self).status.bits, res)
                        &&& final(self).program_counter == spec_pc_next(*old(self), addressing.mode)
                    }
            }),
    {
        let (value, address, _) = match self.fetch_operand_with_penalty(&addressing) {
            Ok(t) => t,
            Err(e) => { return Err(e); },
        };
        let result = self.offset_by_one(value, increment);
        match self.store(result, address) {
            Ok(()) => {},
            Err(e) => { return Err(e); },
        }
        let cycles = self.rmw_cycles(addressing.mode);
        self.program_counter = self.program_counter.wrapping_add(1);
        Ok(cycles)
    }

    /// JMP, absolute or indirect.
    fn jump(&mut self, addressing: Addressing) -> (r: Result<u8, EmuError>)
        requires
            old(self).wf(),
            addressing.mode == AddressingMode::Absolute || addressing.mode == AddressingMode::Indirect,
        ensures
            final(self).wf(),
            regs_quiet(*old(self), *final(self)),
            bus_read_quiet(*old(self), *final(self)),
            spec_resolve_ok(*old(self), addressing) ==> ({
                &&& r == Ok::<u8, EmuError>(if addressing.mode == AddressingMode::Indirect { 5u8 } else { 3u8 })
                &&& *final(self) == (Cpu {
                    program_counter: spec_operand_addr(*old(self), addressing),
                    ..*old(self)
                })
            }),
    {
        let target = match self.fetch_address(&addressing) {
            Ok(a) => a,
            Err(e) => { return Err(e); },
        };
        self.program_counter = target;
        if addressing.mode == AddressingMode::Indirect {
            Ok(5)
        } else {
            Ok(3)
        }
    }

    /// JSR: push the address of the instruction's last byte, then jump;
    /// RTS adds the one back.
    fn jump_to_subroutine(&mut self, addressing: Addressing) -> (r: Result<u8, EmuError>)
        requires
            old(self).wf(),
            addressing.mode == AddressingMode::Absolute,
        ensures
            final(self).wf(),
            final(self).acc == old(self).acc,
            final(self).reg_x == old(self).reg_x,
            final(self).reg_y == old(self).reg_y,
            final(self).status == old(self).status,
            final(self).cycles == old(self).cycles,
            spec_resolve_ok(*old(self), addressing) ==> ({
                let ret = wadd16(old(self).program_counter, 2);
                &&& r == Ok::<u8, EmuError>(6)
                &&& final(self).program_counter == spec_operand_addr(*old(self), addressing)
                &&& final(self).stack_pointer == wsub8(old(self).stack_pointer, 2)
                &&& final(self).bus.memory@ == old(self).bus.memory@
                    .update(Self::spec_stack_addr(old(self).stack_pointer) as int, (ret >> 8u16) as u8)
                    .update(Self::spec_stack_addr(wsub8(old(self).stack_pointer, 1)) as int, (ret & 0xFF) as u8)
                &&& final(self).bus.ppu == old(self).bus.ppu
                &&& final(self).bus.cartridge == old(self).bus.cartridge
                &&& final(self).bus.nmi == old(self).bus.nmi
            }),
    {
        let new_pc = match self.fetch_address(&addressing) {
            Ok(a) => a,
            Err(e) => { return Err(e); },
        };
        self.push_program_counter_on_stack();
        self.program_counter = new_pc;
        Ok(6)
    }

    /// A conditional branch. Taken branches cost one extra cycle, and one
    /// more when the target sits on a different page than the next
    /// instruction.
    fn branch(&mut self, addressing: Addressing, branch_instruction: u8) -> (r: Result<u8, EmuError>)
        requires
            old(self).wf(),
            addressing.mode == AddressingMode::Relative,
        ensures
            final(self).wf(),
            regs_quiet(*old(self), *final(self)),
            bus_read_quiet(*old(self), *final(self)),
            spec_operand_ok(*old(self), addressing) ==> ({
                let off = spec_sign_ext(rd(*old(self), wadd16(old(self).program_counter, 1)));
                let next = wadd16(old(self).program_counter, 2);
                let target = wadd16(next, off);
                if spec_branch_taken(old(self).status.bits, branch_instruction) {
                    &&& *final(self) == (Cpu { program_counter: target, ..*old(self) })
                    &&& r == Ok::<u8, EmuError>(
                        if target & 0xFF00 != next & 0xFF00 { 4u8 } else { 3u8 })
                } else {
                    &&& *final(self) == (Cpu { program_counter: next, ..*old(self) })
                    &&& r == Ok::<u8, EmuError>(2)
                }
            }),
    {
        let (raw, _) = match self.fetch_with_addressing_mode(&addressing) {
            Ok(t) => t,
            Err(e) => { return Err(e); },
        };
        let offset: u16 = if raw < 0x80 { raw as u16 } else { raw as u16 + 0xFF00 };
        let selector = (branch_instruction >> 1u8) & 0x03;
        let mask: u8 = if selector == 0 { NEGATIVE }
            else if selector == 1 { OVERFLOW }
            else if selector == 2 { CARRY }
            else { ZERO };
        let equality = branch_instruction & 1 == 1;
        let flag = self.status.contains(mask);
        let next = self.program_counter.wrapping_add(1);
        if flag == equality {
            let target = next.wrapping_add(offset);
            self.program_counter = target;
            if (target & 0xFF00) != (next & 0xFF00) {
                Ok(4)
            } else {
                Ok(3)
            }
        } else {
            self.program_counter = next;
            Ok(2)
        }
    }

    /// BRK: push the address past the padding byte and the status with the
    /// break bit set, disable interrupts, and take the 0xFFFE/0xFFFF
    /// vector.
    fn force_break(&mut self) -> (r: Result<u8, EmuError>)
        requires
            old(self).wf(),
        ensures
            final(self).wf(),
            final(self).acc == old(self).acc,
            final(self).reg_x == old(self).reg_x,
            final(self).reg_y == old(self).reg_y,
            final(self).cycles == old(self).cycles,
            final(self).bus.ppu == old(self).bus.ppu,
            final(self).bus.cartridge == old(self).bus.cartridge,
            final(self).bus.nmi == old(self).bus.nmi,
            !(rd_ok(*old(self), 0xFFFE) && rd_ok(*old(self), 0xFFFF)) ==> r is Err,
            rd_ok(*old(self), 0xFFFE) && rd_ok(*old(self), 0xFFFF) ==> ({
                let pushed = wadd16(old(self).program_counter, 2);
                &&& r == Ok::<u8, EmuError>(7)
                &&& final(self).bus.memory@ == old(self).bus.memory@
                    .update(Self::spec_stack_addr(old(self).stack_pointer) as int, (pushed >> 8u16) as u8)
                    .update(Self::spec_stack_addr(wsub8(old(self).stack_pointer, 1)) as int, (pushed & 0xFF) as u8)
                    .update(Self::spec_stack_addr(wsub8(old(self).stack_pointer, 2)) as int,
                        (old(self).status.bits | BRK) | PLACEHOLDER)
                &&& final(self).stack_pointer == wsub8(old(self).stack_pointer, 3)
                &&& final(self).status.bits == old(self).status.bits | IRQ_DIS
                &&& final(self).program_counter
                    == rd(*old(self), 0xFFFF) as int * 256 + rd(*old(self), 0xFFFE) as int
            }),
    {
        let pushed = self.program_counter.wrapping_add(2);
        self.program_counter = pushed;
        self.push_program_counter_on_stack();
        let bits = (self.status.bits() | BRK) | PLACEHOLDER;
        self.push_on_stack(bits);
        self.status.insert(IRQ_DIS);
        let lsb_v = match self.fetch(0xFFFE) {
            Ok(v) => v,
            Err(e) => { return Err(e); },
        };
        let msb_v = match self.fetch(0xFFFF) {
            Ok(v) => v,
            Err(e) => { return Err(e); },
        };
        self.program_counter = combine_u8(lsb_v, msb_v);
        Ok(7)
    }

    /// The NMI entry: acknowledge the latched request, push the program
    /// counter and status, disable interrupts, and take the 0xFFFA/0xFFFB
    /// vector. Charged the canonical seven cycles.
    fn nmi_interrupt(&mut self) -> (r: Result<u8, EmuError>)
        requires
            old(self).wf(),
        ensures
            final(self).wf(),
            final(self).acc == old(self).acc,
            final(self).reg_x == old(self).reg_x,
            final(self).reg_y == old(self).reg_y,
            final(self).cycles == old(self).cycles,
            final(self).bus.ppu == old(self).bus.ppu,
            final(self).bus.cartridge == old(self).bus.cartridge,
            final(self).bus.nmi == false,
            !(rd_ok(*old(self), 0xFFFA) && rd_ok(*old(self), 0xFFFB)) ==> r is Err,
            rd_ok(*old(self), 0xFFFA) && rd_ok(*old(self), 0xFFFB) ==> ({
                &&& r == Ok::<u8, EmuError>(7)
                &&& final(self).bus.memory@ == old(self).bus.memory@
                    .update(Self::spec_stack_addr(old(self).stack_pointer) as int,
                        (old(self).program_counter >> 8u16) as u8)
                    .update(Self::spec_stack_addr(wsub8(old(self).stack_pointer, 1)) as int,
                        (old(self).program_counter & 0xFF) as u8)
                    .update(Self::spec_stack_addr(wsub8(old(self).stack_pointer, 2)) as int,
                        old(self).status.bits | PLACEHOLDER)
                &&& final(self).stack_pointer == wsub8(old(self).stack_pointer, 3)
                &&& final(self).status.bits == old(self).status.bits | IRQ_DIS
                &&& final(self).program_counter
                    == rd(*old(self), 0xFFFB) as int * 256 + rd(*old(self), 0xFFFA) as int
            }),
    {
        self.bus.nmi = false;
        self.push_program_counter_on_stack();
        self.push_flags_on_stack();
        self.status.insert(IRQ_DIS);
        let lsb_v = match self.fetch(0xFFFA) {
            Ok(v) => v,
            Err(e) => { return Err(e); },
        };
        let msb_v = match self.fetch(0xFFFB) {
            Ok(v) => v,
            Err(e) => { return Err(e); },
        };
        self.program_counter = combine_u8(lsb_v, msb_v);
        Ok(7)
    }
}


/// The single-byte opcodes dispatched by full value before the field
/// decoder runs.
pub open spec fn is_single_byte_op(v: u8) -> bool {
    ||| v == 0x18 ||| v == 0xD8 ||| v == 0x58 ||| v == 0xB8 ||| v == 0xF8 ||| v == 0x78
    ||| v == 0x38 ||| v == 0xEA ||| v == 0xAA ||| v == 0xA8 ||| v == 0xBA ||| v == 0x8A
    ||| v == 0x9A ||| v == 0x98 ||| v == 0x00 ||| v == 0x08 ||| v == 0x28 ||| v == 0x48
    ||| v == 0x68 ||| v == 0x40 ||| v == 0x60 ||| v == 0xCA ||| v == 0x88 ||| v == 0xC8
    ||| v == 0xE8 ||| v == 0x20
}

pub open spec fn outcome_flag(pre: Cpu, post: Cpu, flag: u8, on: bool, r: Result<u8, EmuError>) -> bool {
    &&& r == Ok::<u8, EmuError>(2)
    &&& post == (Cpu {
        status: Flags { bits: spec_setf(pre.status.bits, flag, on) },
        program_counter: wadd16(pre.program_counter, 1),
        ..pre
    })
}

pub open spec fn outcome_noop(pre: Cpu, post: Cpu, r: Result<u8, EmuError>) -> bool {
    &&& r == Ok::<u8, EmuError>(2)
    &&& post == (Cpu { program_counter: wadd16(pre.program_counter, 1), ..pre })
}

pub open spec fn outcome_transfer(pre: Cpu, post: Cpu, from: AddressingRegistry, into: AddressingRegistry, r: Result<u8, EmuError>) -> bool {
    let v = spec_register(pre, from);
    &&& r == Ok::<u8, EmuError>(2)
    &&& post.program_counter == wadd16(pre.program_counter, 1)
    &&& post.acc == if into == AddressingRegistry::Acc { v } else { pre.acc }
    &&& post.reg_x == if into == AddressingRegistry::X { v } else { pre.reg_x }
    &&& post.reg_y == if into == AddressingRegistry::Y { v } else { pre.reg_y }
    &&& post.stack_pointer == if into == AddressingRegistry::StackPtr { v } else { pre.stack_pointer }
    &&& post.status.bits == if into == AddressingRegistry::StackPtr {
        pre.status.bits
    } else {
        spec_zn(pre.status.bits, v)
    }
    &&& post.bus == pre.bus
    &&& post.cycles == pre.cycles
}

/// PHA, stated over the stack view.
pub open spec fn pha_rel(pre: Cpu, post: Cpu, r: Result<u8, EmuError>) -> bool {
    &&& r == Ok::<u8, EmuError>(3)
    &&& post.bus == (Bus { memory: post.bus.memory, ..pre.bus })
    &&& post.bus.memory@ == pre.bus.memory@.update(
        Cpu::spec_stack_addr(pre.stack_pointer) as int, pre.acc)
    &&& post == (Cpu {
        stack_pointer: wsub8(pre.stack_pointer, 1),
        program_counter: wadd16(pre.program_counter, 1),
        bus: post.bus,
        ..pre
    })
}

/// PLA, stated over the stack view.
pub open spec fn pla_rel(pre: Cpu, post: Cpu, r: Result<u8, EmuError>) -> bool {
    let v = pre.bus.memory@[Cpu::spec_stack_addr(wadd8(pre.stack_pointer, 1)) as int];
    &&& r == Ok::<u8, EmuError>(4)
    &&& post == (Cpu {
        acc: v,
        status: Flags { bits: spec_zn(pre.status.bits, v) },
        stack_pointer: wadd8(pre.stack_pointer, 1),
        program_counter: wadd16(pre.program_counter, 1),
        ..pre
    })
}

/// PHP: the pushed status byte always carries the placeholder bit.
pub open spec fn php_rel(pre: Cpu, post: Cpu, r: Result<u8, EmuError>) -> bool {
    &&& r == Ok::<u8, EmuError>(3)
    &&& post.bus == (Bus { memory: post.bus.memory, ..pre.bus })
    &&& post.bus.memory@ == pre.bus.memory@.update(
        Cpu::spec_stack_addr(pre.stack_pointer) as int, pre.status.bits | PLACEHOLDER)
    &&& post == (Cpu {
        stack_pointer: wsub8(pre.stack_pointer, 1),
        program_counter: wadd16(pre.program_counter, 1),
        bus: post.bus,
        ..pre
    })
}

/// PLP: the pulled status drops BRK and keeps the placeholder bit set.
pub open spec fn plp_rel(pre: Cpu, post: Cpu, r: Result<u8, EmuError>) -> bool {
    let raw = pre.bus.memory@[Cpu::spec_stack_addr(wadd8(pre.stack_pointer, 1)) as int];
    &&& r == Ok::<u8, EmuError>(4)
    &&& post == (Cpu {
        status: Flags { bits: (raw & !BRK) | PLACEHOLDER },
        stack_pointer: wadd8(pre.stack_pointer, 1),
        program_counter: wadd16(pre.program_counter, 1),
        ..pre
    })
}

pub open spec fn outcome_offset_reg(pre: Cpu, post: Cpu, a: Addressing, increment: bool, r: Result<u8, EmuError>) -> bool {
    let v = spec_index_value(pre, a);
    let res = if increment { wadd8(v, 1) } else { wsub8(v, 1) };
    &&& r == Ok::<u8, EmuError>(2)
    &&& post.program_counter == wadd16(pre.program_counter, 1)
    &&& post.reg_x == if a.register == Some(AddressingRegistry::X) { res } else { pre.reg_x }
    &&& post.reg_y == if a.register == Some(AddressingRegistry::Y) { res } else { pre.reg_y }
    &&& post.status.bits == spec_zn(pre.status.bits, res)
    &&& post.acc == pre.acc
    &&& post.stack_pointer == pre.stack_pointer
    &&& post.cycles == pre.cycles
    &&& post.bus == pre.bus
}

/// RTI: status from the stack (BRK dropped, placeholder forced), then the
/// program counter, used exactly as pulled.
pub open spec fn rti_rel(pre: Cpu, post: Cpu, r: Result<u8, EmuError>) -> bool {
    let raw = pre.bus.memory@[Cpu::spec_stack_addr(wadd8(pre.stack_pointer, 1)) as int];
    let lo = pre.bus.memory@[Cpu::spec_stack_addr(wadd8(pre.stack_pointer, 2)) as int];
    let hi = pre.bus.memory@[Cpu::spec_stack_addr(wadd8(pre.stack_pointer, 3)) as int];
    &&& r == Ok::<u8, EmuError>(6)
    &&& post == (Cpu {
        status: Flags { bits: (raw & !BRK) | PLACEHOLDER },
        stack_pointer: wadd8(pre.stack_pointer, 3),
        program_counter: (hi as int * 256 + lo as int) as u16,
        ..pre
    })
}

/// RTS: the pulled address plus one.
pub open spec fn rts_rel(pre: Cpu, post: Cpu, r: Result<u8, EmuError>) -> bool {
    let lo = pre.bus.memory@[Cpu::spec_stack_addr(wadd8(pre.stack_pointer, 1)) as int];
    let hi = pre.bus.memory@[Cpu::spec_stack_addr(wadd8(pre.stack_pointer, 2)) as int];
    &&& r == Ok::<u8, EmuError>(6)
    &&& post == (Cpu {
        stack_pointer: wadd8(pre.stack_pointer, 2),
        program_counter: wadd16((hi as int * 256 + lo as int) as u16, 1),
        ..pre
    })
}

/// JSR: the address of the instruction's last byte goes to the stack, high
/// byte first, and control moves to the absolute operand.
pub open spec fn jsr_rel(pre: Cpu, post: Cpu, r: Result<u8, EmuError>) -> bool {
    let a = crate::addressing::spec_absolute();
    spec_resolve_ok(pre, a) ==> ({
        let ret = wadd16(pre.program_counter, 2);
        &&& r == Ok::<u8, EmuError>(6)
        &&& post.bus == (Bus { memory: post.bus.memory, ..pre.bus })
        &&& post.bus.memory@ == pre.bus.memory@
            .update(Cpu::spec_stack_addr(pre.stack_pointer) as int, (ret >> 8u16) as u8)
            .update(Cpu::spec_stack_addr(wsub8(pre.stack_pointer, 1)) as int, (ret & 0xFF) as u8)
        &&& post == (Cpu {
            stack_pointer: wsub8(pre.stack_pointer, 2),
            program_counter: spec_operand_addr(pre, a),
            bus: post.bus,
            ..pre
        })
    })
}

pub open spec fn outcome_brk(pre: Cpu, post: Cpu, r: Result<u8, EmuError>) -> bool {
    rd_ok(pre, 0xFFFE) && rd_ok(pre, 0xFFFF) ==> ({
        let pushed = wadd16(pre.program_counter, 2);
        &&& r == Ok::<u8, EmuError>(7)
        &&& post.bus.memory@ == pre.bus.memory@
            .update(Cpu::spec_stack_addr(pre.stack_pointer) as int, (pushed >> 8u16) as u8)
            .update(Cpu::spec_stack_addr(wsub8(pre.stack_pointer, 1)) as int, (pushed & 0xFF) as u8)
            .update(Cpu::spec_stack_addr(wsub8(pre.stack_pointer, 2)) as int,
                (pre.status.bits | BRK) | PLACEHOLDER)
        &&& post.stack_pointer == wsub8(pre.stack_pointer, 3)
        &&& post.status.bits == pre.status.bits | IRQ_DIS
        &&& post.program_counter == rd(pre, 0xFFFF) as int * 256 + rd(pre, 0xFFFE) as int
        &&& post.acc == pre.acc && post.reg_x == pre.reg_x && post.reg_y == pre.reg_y
        &&& post.cycles == pre.cycles
        &&& post.bus.ppu == pre.bus.ppu && post.bus.cartridge == pre.bus.cartridge
        &&& post.bus.nmi == pre.bus.nmi
    })
}

pub open spec fn outcome_logical(pre: Cpu, post: Cpu, a: Addressing, op: LogicalOp, r: Result<u8, EmuError>) -> bool {
    spec_operand_ok(pre, a) ==> ({
        let m = spec_operand_value(pre, a);
        let res = spec_logical(op, pre.acc, m);
        &&& r == Ok::<u8, EmuError>(spec_read_cycles(a.mode, spec_page_crossed(pre, a)))
        &&& post == (Cpu {
            acc: res,
            status: Flags { bits: spec_zn(pre.status.bits, res) },
            program_counter: spec_pc_next(pre, a.mode),
            ..pre
        })
    })
}

pub open spec fn outcome_adc(pre: Cpu, post: Cpu, a: Addressing, r: Result<u8, EmuError>) -> bool {
    spec_operand_ok(pre, a) ==> ({
        let m = spec_operand_value(pre, a);
        &&& r == Ok::<u8, EmuError>(spec_read_cycles(a.mode, spec_page_crossed(pre, a)))
        &&& post == (Cpu {
            acc: spec_adc_res(pre.acc, m, pre.status.bits),
            status: Flags { bits: spec_adc_bits(pre.acc, m, pre.status.bits) },
            program_counter: spec_pc_next(pre, a.mode),
            ..pre
        })
    })
}

pub open spec fn outcome_sbc(pre: Cpu, post: Cpu, a: Addressing, r: Result<u8, EmuError>) -> bool {
    spec_operand_ok(pre, a) ==> ({
        let m = spec_operand_value(pre, a);
        &&& r == Ok::<u8, EmuError>(spec_read_cycles(a.mode, spec_page_crossed(pre, a)))
        &&& post == (Cpu {
            acc: spec_sbc_res(pre.acc, m, pre.status.bits),
            status: Flags { bits: spec_sbc_bits(pre.acc, m, pre.status.bits) },
            program_counter: spec_pc_next(pre, a.mode),
            ..pre
        })
    })
}

pub open spec fn outcome_cmp(pre: Cpu, post: Cpu, a: Addressing, target: u8, r: Result<u8, EmuError>) -> bool {
    spec_operand_ok(pre, a) ==> ({
        let m = spec_operand_value(pre, a);
        &&& r == Ok::<u8, EmuError>(spec_read_cycles(a.mode, spec_page_crossed(pre, a)))
        &&& post == (Cpu {
            status: Flags { bits: spec_cmp_bits(pre.status.bits, target, m) },
            program_counter: spec_pc_next(pre, a.mode),
            ..pre
        })
    })
}

pub open spec fn outcome_lda(pre: Cpu, post: Cpu, a: Addressing, r: Result<u8, EmuError>) -> bool {
    spec_operand_ok(pre, a) ==> ({
        let m = spec_operand_value(pre, a);
        &&& r == Ok::<u8, EmuError>(spec_read_cycles(a.mode, spec_page_crossed(pre, a)))
        &&& post == (Cpu {
            acc: m,
            status: Flags { bits: spec_zn(pre.status.bits, m) },
            program_counter: spec_pc_next(pre, a.mode),
            ..pre
        })
    })
}

pub open spec fn outcome_load_reg(pre: Cpu, post: Cpu, a: Addressing, target: AddressingRegistry, r: Result<u8, EmuError>) -> bool {
    let adj = spec_adjust(a, target);
    spec_operand_ok(pre, adj) ==> ({
        let m = spec_operand_value(pre, adj);
        &&& r == Ok::<u8, EmuError>(spec_read_cycles(adj.mode, spec_page_crossed(pre, adj)))
        &&& post == (Cpu {
            reg_x: if target == AddressingRegistry::X { m } else { pre.reg_x },
            reg_y: if target == AddressingRegistry::Y { m } else { pre.reg_y },
            status: Flags { bits: spec_zn(pre.status.bits, m) },
            program_counter: spec_pc_next(pre, adj.mode),
            ..pre
        })
    })
}

pub open spec fn outcome_sta(pre: Cpu, post: Cpu, a: Addressing, r: Result<u8, EmuError>) -> bool {
    spec_resolve_ok(pre, a) && spec_store_ok(pre.bus, pre.acc, spec_operand_addr(pre, a)) ==> {
        &&& r == Ok::<u8, EmuError>(spec_store_cycles(a.mode))
        &&& bus_store_rel(pre.bus, post.bus, pre.acc, spec_operand_addr(pre, a), Ok(()))
        &&& post.program_counter == spec_pc_next(pre, a.mode)
        &&& regs_quiet(pre, post)
    }
}

pub open spec fn outcome_store_reg(pre: Cpu, post: Cpu, a: Addressing, target: AddressingRegistry, r: Result<u8, EmuError>) -> bool {
    let adj = spec_adjust(a, target);
    let v = if target == AddressingRegistry::X { pre.reg_x } else { pre.reg_y };
    spec_resolve_ok(pre, adj) && spec_store_ok(pre.bus, v, spec_operand_addr(pre, adj)) ==> {
        &&& r == Ok::<u8, EmuError>(spec_store_cycles(adj.mode))
        &&& bus_store_rel(pre.bus, post.bus, v, spec_operand_addr(pre, adj), Ok(()))
        &&& post.program_counter == spec_pc_next(pre, adj.mode)
        &&& regs_quiet(pre, post)
    }
}

pub open spec fn outcome_asl(pre: Cpu, post: Cpu, a: Addressing, r: Result<u8, EmuError>) -> bool {
    spec_operand_ok(pre, a) ==> ({
        let m = spec_operand_value(pre, a);
        shift_outcome_rel(pre, post, a, m << 1u8, m >= 0x80, r)
    })
}

pub open spec fn outcome_rol(pre: Cpu, post: Cpu, a: Addressing, r: Result<u8, EmuError>) -> bool {
    spec_operand_ok(pre, a) ==> ({
        let m = spec_operand_value(pre, a);
        let res = if pre.status.bits & CARRY == CARRY { (m << 1u8) | 1u8 } else { m << 1u8 };
        shift_outcome_rel(pre, post, a, res, m >= 0x80, r)
    })
}

pub open spec fn outcome_lsr(pre: Cpu, post: Cpu, a: Addressing, r: Result<u8, EmuError>) -> bool {
    spec_operand_ok(pre, a) ==> ({
        let m = spec_operand_value(pre, a);
        shift_outcome_rel(pre, post, a, m >> 1u8, m & 1 == 1, r)
    })
}

pub open spec fn outcome_ror(pre: Cpu, post: Cpu, a: Addressing, r: Result<u8, EmuError>) -> bool {
    spec_operand_ok(pre, a) ==> ({
        let m = spec_operand_value(pre, a);
        let res = if pre.status.bits & CARRY == CARRY { (m >> 1u8) | 0x80u8 } else { m >> 1u8 };
        shift_outcome_rel(pre, post, a, res, m & 1 == 1, r)
    })
}

pub open spec fn outcome_incdec(pre: Cpu, post: Cpu, a: Addressing, increment: bool, r: Result<u8, EmuError>) -> bool {
    let m = spec_operand_value(pre, a);
    let res = if increment { wadd8(m, 1) } else { wsub8(m, 1) };
    spec_operand_ok(pre, a) && spec_store_ok(pre.bus, res, spec_operand_addr(pre, a)) ==> {
        &&& r == Ok::<u8, EmuError>(spec_rmw_cycles(a.mode))
        &&& bus_store_rel(pre.bus, post.bus, res, spec_operand_addr(pre, a), Ok(()))
        &&& post.status.bits == spec_zn(pre.status.bits, res)
        &&& post.program_counter == spec_pc_next(pre, a.mode)
    }
}

pub open spec fn outcome_bit(pre: Cpu, post: Cpu, a: Addressing, r: Result<u8, EmuError>) -> bool {
    spec_operand_ok(pre, a) ==> ({
        let m = spec_operand_value(pre, a);
        &&& r == Ok::<u8, EmuError>(spec_read_cycles(a.mode, spec_page_crossed(pre, a)))
        &&& post == (Cpu {
            status: Flags { bits: spec_bit_bits(pre.status.bits, pre.acc, m) },
            program_counter: spec_pc_next(pre, a.mode),
            ..pre
        })
    })
}

pub open spec fn outcome_jmp(pre: Cpu, post: Cpu, a: Addressing, r: Result<u8, EmuError>) -> bool {
    spec_resolve_ok(pre, a) ==> {
        &&& r == Ok::<u8, EmuError>(if a.mode == AddressingMode::Indirect { 5u8 } else { 3u8 })
        &&& post == (Cpu { program_counter: spec_operand_addr(pre, a), ..pre })
    }
}

/// Branch timing and targets: 2 cycles not taken, 3 taken, 4 taken across
/// a page boundary; the offset is relative to the next instruction.
pub open spec fn outcome_branch(pre: Cpu, post: Cpu, upper: u8, r: Result<u8, EmuError>) -> bool {
    spec_operand_ok(pre, crate::addressing::spec_relative()) ==> ({
        let off = spec_sign_ext(rd(pre, wadd16(pre.program_counter, 1)));
        let next = wadd16(pre.program_counter, 2);
        let target = wadd16(next, off);
        if spec_branch_taken(pre.status.bits, upper) {
            &&& post == (Cpu { program_counter: target, ..pre })
            &&& r == Ok::<u8, EmuError>(if target & 0xFF00 != next & 0xFF00 { 4u8 } else { 3u8 })
        } else {
            &&& post == (Cpu { program_counter: next, ..pre })
            &&& r == Ok::<u8, EmuError>(2)
        }
    })
}

/// What `evaluate` does for each opcode it can be handed, with the decoded
/// instruction classes under their addressing table.
pub open spec fn decode_rel(pre: Cpu, post: Cpu, op: u8, r: Result<u8, EmuError>) -> bool {
    let upper = (op & 0xE0) >> 5u8;
    let mid = (op & 0x1C) >> 2u8;
    let lower = op & 0x03;
    if mid == 4 && lower == 0 {
        outcome_branch(pre, post, upper, r)
    } else {
        match crate::addressing::spec_from_op_code(mid, lower) {
            None => r == Err::<u8, EmuError>(EmuError::UnknownOpCode(op)) && post == pre,
            Some(a) => {
                if lower == 1 {
                    if upper == 0 { outcome_logical(pre, post, a, LogicalOp::Or, r) }
                    else if upper == 1 { outcome_logical(pre, post, a, LogicalOp::And, r) }
                    else if upper == 2 { outcome_logical(pre, post, a, LogicalOp::Xor, r) }
                    else if upper == 3 { outcome_adc(pre, post, a, r) }
                    else if upper == 4 { outcome_sta(pre, post, a, r) }
                    else if upper == 5 { outcome_lda(pre, post, a, r) }
                    else if upper == 6 { outcome_cmp(pre, post, a, pre.acc, r) }
                    else { outcome_sbc(pre, post, a, r) }
                } else if lower == 2 {
                    if upper == 0 { outcome_asl(pre, post, a, r) }
                    else if upper == 1 { outcome_rol(pre, post, a, r) }
                    else if upper == 2 { outcome_lsr(pre, post, a, r) }
                    else if upper == 3 { outcome_ror(pre, post, a, r) }
                    else if upper == 4 { outcome_store_reg(pre, post, a, AddressingRegistry::X, r) }
                    else if upper == 5 { outcome_load_reg(pre, post, a, AddressingRegistry::X, r) }
                    else if upper == 6 { outcome_incdec(pre, post, a, false, r) }
                    else { outcome_incdec(pre, post, a, true, r) }
                } else {
                    if upper == 1 { outcome_bit(pre, post, a, r) }
                    else if upper == 2 { outcome_jmp(pre, post, crate::addressing::spec_absolute(), r) }
                    else if upper == 3 { outcome_jmp(pre, post, crate::addressing::spec_indirect(), r) }
                    else if upper == 4 { outcome_store_reg(pre, post, a, AddressingRegistry::Y, r) }
                    else if upper == 5 { outcome_load_reg(pre, post, a, AddressingRegistry::Y, r) }
                    else if upper == 6 { outcome_cmp(pre, post, a, pre.reg_y, r) }
                    else if upper == 7 { outcome_cmp(pre, post, a, pre.reg_x, r) }
                    else { r == Err::<u8, EmuError>(EmuError::UnknownOpCode(op)) && post == pre }
                }
            },
        }
    }
}

/// The instruction-set specification: what executing opcode `op` against
/// state `pre` yields, for every opcode.
pub open spec fn evaluate_rel(pre: Cpu, post: Cpu, op: u8, r: Result<u8, EmuError>) -> bool {
    if op == 0x18 { outcome_flag(pre, post, CARRY, false, r) }
    else if op == 0xD8 { outcome_flag(pre, post, DECIMAL, false, r) }
    else if op == 0x58 { outcome_flag(pre, post, IRQ_DIS, false, r) }
    else if op == 0xB8 { outcome_flag(pre, post, OVERFLOW, false, r) }
    else if op == 0xF8 { outcome_flag(pre, post, DECIMAL, true, r) }
    else if op == 0x78 { outcome_flag(pre, post, IRQ_DIS, true, r) }
    else if op == 0x38 { outcome_flag(pre, post, CARRY, true, r) }
    else if op == 0xEA { outcome_noop(pre, post, r) }
    else if op == 0xAA { outcome_transfer(pre, post, AddressingRegistry::Acc, AddressingRegistry::X, r) }
    else if op == 0xA8 { outcome_transfer(pre, post, AddressingRegistry::Acc, AddressingRegistry::Y, r) }
    else if op == 0xBA { outcome_transfer(pre, post, AddressingRegistry::StackPtr, AddressingRegistry::X, r) }
    else if op == 0x8A { outcome_transfer(pre, post, AddressingRegistry::X, AddressingRegistry::Acc, r) }
    else if op == 0x9A { outcome_transfer(pre, post, AddressingRegistry::X, AddressingRegistry::StackPtr, r) }
    else if op == 0x98 { outcome_transfer(pre, post, AddressingRegistry::Y, AddressingRegistry::Acc, r) }
    else if op == 0x00 { outcome_brk(pre, post, r) }
    else if op == 0x08 { php_rel(pre, post, r) }
    else if op == 0x28 { plp_rel(pre, post, r) }
    else if op == 0x48 { pha_rel(pre, post, r) }
    else if op == 0x68 { pla_rel(pre, post, r) }
    else if op == 0x40 { rti_rel(pre, post, r) }
    else if op == 0x60 { rts_rel(pre, post, r) }
    else if op == 0xCA {
        outcome_offset_reg(pre, post, crate::addressing::spec_immediate(Some(AddressingRegistry::X)), false, r)
    }
    else if op == 0x88 {
        outcome_offset_reg(pre, post, crate::addressing::spec_immediate(Some(AddressingRegistry::Y)), false, r)
    }
    else if op == 0xC8 {
        outcome_offset_reg(pre, post, crate::addressing::spec_immediate(Some(AddressingRegistry::Y)), true, r)
    }
    else if op == 0xE8 {
        outcome_offset_reg(pre, post, crate::addressing::spec_immediate(Some(AddressingRegistry::X)), true, r)
    }
    else if op == 0x20 { jsr_rel(pre, post, r) }
    else { decode_rel(pre, post, op, r) }
}

/// The three opcode fields reassemble into the opcode byte.
proof fn lemma_opcode_reconstruct(v: u8)
    ensures
        ((v & 0xE0) >> 5u8) * 32 + ((v & 0x1C) >> 2u8) * 4 + (v & 0x03) == v,
{
    assert(((v & 0xE0) >> 5u8) * 32 + ((v & 0x1C) >> 2u8) * 4 + (v & 0x03) == v) by (bit_vector);
}

impl Cpu {
    /// Decodes and executes one instruction by its `(aaa, bbb, cc)` fields,
    /// after the single-byte opcodes have been dispatched by value.
    fn decode_op_code(&mut self, op_code: OpCode) -> (r: Result<u8, EmuError>)
        requires
            old(self).wf(),
            !is_single_byte_op(op_code.value),
        ensures
            final(self).wf(),
            final(self).cycles == old(self).cycles,
            decode_rel(*old(self), *final(self), op_code.value, r),
    {
        proof {
            lemma_opcode_reconstruct(op_code.value);
        }
        let upper = op_code.upper_op_code();
        let mid = op_code.mid_op_code();
        let lower = op_code.lower_op_code();
        if mid == 0b100 && lower == 0b00 {
            return self.branch(Addressing::relative(), upper);
        }
        let addressing = match Addressing::from_op_code(mid, lower) {
            Some(a) => a,
            None => {
                return Err(EmuError::UnknownOpCode(op_code.value));
            },
        };
        if lower == 0b01 {
            if upper == 0 { self.bitwise_instruction(addressing, LogicalOp::Or) }
            else if upper == 1 { self.bitwise_instruction(addressing, LogicalOp::And) }
            else if upper == 2 { self.bitwise_instruction(addressing, LogicalOp::Xor) }
            else if upper == 3 { self.add_with_carry(addressing) }
            else if upper == 4 { self.store_accumulator(addressing) }
            else if upper == 5 { self.load_accumulator(addressing) }
            else if upper == 6 { let t = self.acc; self.compare(addressing, t) }
            else { self.sub_with_borrow(addressing) }
        } else if lower == 0b10 {
            if upper == 0 { self.shift_left(addressing) }
            else if upper == 1 { self.rotate_left(addressing) }
            else if upper == 2 { self.logical_shift_right(addressing) }
            else if upper == 3 { self.rotate_right(addressing) }
            else if upper == 4 { self.store_register(addressing, AddressingRegistry::X) }
            else if upper == 5 { self.load_register(addressing, AddressingRegistry::X) }
            else if upper == 6 { self.offset_memory_by_one(addressing, false) }
            else { self.offset_memory_by_one(addressing, true) }
        } else {
            if upper == 1 { self.bit_test(addressing) }
            else if upper == 2 { self.jump(Addressing::absolute()) }
            else if upper == 3 { self.jump(Addressing::indirect()) }
            else if upper == 4 { self.store_register(addressing, AddressingRegistry::Y) }
            else if upper == 5 { self.load_register(addressing, AddressingRegistry::Y) }
            else if upper == 6 { let t = self.reg_y; self.compare(addressing, t) }
            else if upper == 7 { let t = self.reg_x; self.compare(addressing, t) }
            else { Err(EmuError::UnknownOpCode(op_code.value)) }
        }
    }

    /// Executes the instruction `op_code` names. The contract is the
    /// instruction-set specification `evaluate_rel`; on success the
    /// returned value is the cycle count to charge.
    pub fn evaluate(&mut self, op_code: OpCode) -> (r: Result<u8, EmuError>)
        requires
            old(self).wf(),
        ensures
            final(self).wf(),
            final(self).cycles == old(self).cycles,
            evaluate_rel(*old(self), *final(self), op_code.value, r),
    {
        match op_code.value {
            0x18 => Ok(self.clear_flag(CARRY)),
            0xD8 => Ok(self.clear_flag(DECIMAL)),
            0x58 => Ok(self.clear_flag(IRQ_DIS)),
            0xB8 => Ok(self.clear_flag(OVERFLOW)),
            0xF8 => Ok(self.set_flag(DECIMAL)),
            0x78 => Ok(self.set_flag(IRQ_DIS)),
            0x38 => Ok(self.set_flag(CARRY)),
            0xEA => Ok(self.noop()),
            0xAA => Ok(self.transfer(AddressingRegistry::Acc, AddressingRegistry::X)),
            0xA8 => Ok(self.transfer(AddressingRegistry::Acc, AddressingRegistry::Y)),
            0xBA => Ok(self.transfer(AddressingRegistry::StackPtr, AddressingRegistry::X)),
            0x8A => Ok(self.transfer(AddressingRegistry::X, AddressingRegistry::Acc)),
            0x9A => Ok(self.transfer(AddressingRegistry::X, AddressingRegistry::StackPtr)),
            0x98 => Ok(self.transfer(AddressingRegistry::Y, AddressingRegistry::Acc)),
            0x00 => self.force_break(),
            0x08 => Ok(self.push_processor_status()),
            0x28 => Ok(self.pull_processor_status()),
            0x48 => Ok(self.push_accumulator()),
            0x68 => Ok(self.pull_accumulator()),
            0x40 => Ok(self.return_from(true)),
            0x60 => Ok(self.return_from(false)),
            0xCA => Ok(self.offset_register_by_one(
                Addressing::immediate(Some(AddressingRegistry::X)), false)),
            0x88 => Ok(self.offset_register_by_one(
                Addressing::immediate(Some(AddressingRegistry::Y)), false)),
            0xC8 => Ok(self.offset_register_by_one(
                Addressing::immediate(Some(AddressingRegistry::Y)), true)),
            0xE8 => Ok(self.offset_register_by_one(
                Addressing::immediate(Some(AddressingRegistry::X)), true)),
            0x20 => self.jump_to_subroutine(Addressing::absolute()),
            _ => self.decode_op_code(op_code),
        }
    }

    /// One step of the CPU clock: drain a pending cycle, or service a
    /// latched NMI, or fetch and execute the opcode under the program
    /// counter and start draining its cycle count. The host advances the
    /// PPU by three dots after each step through the bus.
    pub fn emulate(&mut self) -> (r: Result<(), EmuError>)
        requires
            old(self).wf(),
        ensures
            final(self).wf(),
            old(self).cycles > 0 ==> r is Ok
                && *final(self) == (Cpu { cycles: (old(self).cycles - 1) as u8, ..*old(self) }),
            old(self).cycles == 0 && old(self).bus.nmi
                && rd_ok(*old(self), 0xFFFA) && rd_ok(*old(self), 0xFFFB) ==> ({
                &&& r is Ok
                &&& final(self).cycles == 7
                &&& final(self).bus.nmi == false
                &&& final(self).status.bits == old(self).status.bits | IRQ_DIS
                &&& final(self).program_counter
                    == rd(*old(self), 0xFFFB) as int * 256 + rd(*old(self), 0xFFFA) as int
                &&& final(self).stack_pointer == wsub8(old(self).stack_pointer, 3)
                &&& final(self).bus.memory@ == old(self).bus.memory@
                    .update(Self::spec_stack_addr(old(self).stack_pointer) as int,
                        (old(self).program_counter >> 8u16) as u8)
                    .update(Self::spec_stack_addr(wsub8(old(self).stack_pointer, 1)) as int,
                        (old(self).program_counter & 0xFF) as u8)
                    .update(Self::spec_stack_addr(wsub8(old(self).stack_pointer, 2)) as int,
                        old(self).status.bits | PLACEHOLDER)
            }),
            old(self).cycles == 0 && old(self).bus.nmi
                && !(rd_ok(*old(self), 0xFFFA) && rd_ok(*old(self), 0xFFFB)) ==> r is Err,
            old(self).cycles == 0 && !old(self).bus.nmi
                && !rd_ok(*old(self), old(self).program_counter)
                && !crate::bus::is_ppu(old(self).program_counter) ==> r is Err,
            old(self).cycles == 0 && !old(self).bus.nmi && rd_ok(*old(self), old(self).program_counter)
                ==> exists|er: Result<u8, EmuError>| {
                    &&& evaluate_rel(*old(self), Cpu { cycles: 0, ..*final(self) },
                        rd(*old(self), old(self).program_counter), er)
                    &&& (er matches Ok(c) ==> r is Ok && final(self).cycles == c)
                    &&& (er is Err ==> r == Err::<(), EmuError>(er->Err_0) && final(self).cycles == 0)
                },
    {
        if self.cycles != 0 {
            self.cycles = self.cycles - 1;
            Ok(())
        } else if self.bus.nmi {
            match self.nmi_interrupt() {
                Ok(c) => {
                    self.cycles = c;
                    Ok(())
                },
                Err(e) => Err(e),
            }
        } else {
            let op_code = match self.fetch(self.program_counter) {
                Ok(v) => v,
                Err(e) => {
                    return Err(e);
                },
            };
            let res = self.evaluate(OpCode::new(op_code));
            match res {
                Ok(c) => {
                    self.cycles = c;
                    Ok(())
                },
                Err(e) => Err(e),
            }
        }
    }
}


/// A status byte that travels over the stack always carries the
/// placeholder bit: both the pushed copy and the value read back force it
/// on.
pub proof fn lemma_status_placeholder(bits: u8)
    ensures
        (bits | PLACEHOLDER) & PLACEHOLDER == PLACEHOLDER,
        ((bits & !BRK) | PLACEHOLDER) & PLACEHOLDER == PLACEHOLDER,
        ((bits | BRK) | PLACEHOLDER) & PLACEHOLDER == PLACEHOLDER,
{
    assert((bits | 0x20u8) & 0x20 == 0x20
        && ((bits & !0x10u8) | 0x20) & 0x20 == 0x20
        && ((bits | 0x10u8) | 0x20) & 0x20 == 0x20) by (bit_vector);
}

/// After a push, the byte at 0x0100 | (SP + 1) is the pushed value: the
/// pointer moved down by one, so adding one back names the written cell.
pub proof fn lemma_push_readback(mem: Seq<u8>, sp: u8, value: u8)
    requires
        mem.len() >= 0x0800,
    ensures
        mem.update(Cpu::spec_stack_addr(sp) as int, value)[
            Cpu::spec_stack_addr(wadd8(wsub8(sp, 1), 1)) as int] == value,
{
    assert(wadd8(wsub8(sp, 1), 1) == sp);
}

/// Zero-page addressing, indexed or not, never leaves page zero.
pub proof fn lemma_zero_page_wrap(c: Cpu, a: Addressing)
    requires
        a.mode == AddressingMode::ZeroPage || a.mode == AddressingMode::ZeroPageIndexed,
    ensures
        spec_operand_addr(c, a) <= 0xFF,
{
}

/// A register update sets ZERO exactly when the result is zero and
/// NEGATIVE exactly when its bit 7 is set.
pub proof fn lemma_zn_flags(bits: u8, v: u8)
    ensures
        (spec_zn(bits, v) & ZERO == ZERO) <==> v == 0,
        (spec_zn(bits, v) & NEGATIVE == NEGATIVE) <==> v >= 0x80,
{
    assert({
        let z = if v == 0 { bits | 0x02u8 } else { bits & !0x02u8 };
        let n = if v >= 0x80 { z | 0x80u8 } else { z & !0x80u8 };
        ((n & 0x02 == 0x02) == (v == 0)) && ((n & 0x80 == 0x80) == (v >= 0x80))
    }) by (bit_vector);
}

/// The two halves of a 16-bit value reassemble to it.
proof fn lemma_split_u16(x: u16)
    ensures
        (x >> 8u16) as u8 as int * 256 + (x & 0xFF) as u8 as int == x,
{
    assert((x >> 8u16) * 256 + (x & 0xFF) == x && x >> 8u16 < 256 && x & 0xFF < 256) by (bit_vector);
}

/// JSR followed by RTS resumes at the instruction immediately after the
/// three-byte JSR.
pub proof fn lemma_jsr_rts_round_trip(c0: Cpu, c1: Cpu, c2: Cpu, r1: Result<u8, EmuError>, r2: Result<u8, EmuError>)
    requires
        c0.wf(),
        spec_resolve_ok(c0, crate::addressing::spec_absolute()),
        jsr_rel(c0, c1, r1),
        rts_rel(c1, c2, r2),
    ensures
        c2.program_counter == wadd16(c0.program_counter, 3),
        c2.stack_pointer == c0.stack_pointer,
{
    let sp = c0.stack_pointer;
    let ret = wadd16(c0.program_counter, 2);
    assert(wadd8(wsub8(sp, 2), 1) == wsub8(sp, 1));
    assert(wadd8(wsub8(sp, 2), 2) == sp);
    assert(Cpu::spec_stack_addr(wsub8(sp, 1)) != Cpu::spec_stack_addr(sp));
    assert(c1.bus.memory@[Cpu::spec_stack_addr(wsub8(sp, 1)) as int] == (ret & 0xFF) as u8);
    assert(c1.bus.memory@[Cpu::spec_stack_addr(sp) as int] == (ret >> 8u16) as u8);
    lemma_split_u16(ret);
    assert(c2.program_counter == wadd16(ret, 1));
}

/// PHA followed by PLA leaves the accumulator unchanged and sets zero and
/// negative from it.
pub proof fn lemma_pha_pla_round_trip(c0: Cpu, c1: Cpu, c2: Cpu, r1: Result<u8, EmuError>, r2: Result<u8, EmuError>)
    requires
        c0.wf(),
        pha_rel(c0, c1, r1),
        pla_rel(c1, c2, r2),
    ensures
        c2.acc == c0.acc,
        c2.stack_pointer == c0.stack_pointer,
        c2.status.bits == spec_zn(c0.status.bits, c0.acc),
{
    assert(wadd8(wsub8(c0.stack_pointer, 1), 1) == c0.stack_pointer);
}

/// PHP followed by PLP restores the status, except that BRK reads back
/// clear and the placeholder bit reads back set.
pub proof fn lemma_php_plp_round_trip(c0: Cpu, c1: Cpu, c2: Cpu, r1: Result<u8, EmuError>, r2: Result<u8, EmuError>)
    requires
        c0.wf(),
        php_rel(c0, c1, r1),
        plp_rel(c1, c2, r2),
    ensures
        c2.status.bits == (c0.status.bits & !BRK) | PLACEHOLDER,
        c2.stack_pointer == c0.stack_pointer,
{
    assert(wadd8(wsub8(c0.stack_pointer, 1), 1) == c0.stack_pointer);
    let b = c0.status.bits;
    assert(((b | 0x20u8) & !0x10u8) | 0x20 == (b & !0x10u8) | 0x20) by (bit_vector);
}

} // verus!
