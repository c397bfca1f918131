//! Addressing descriptors: how an instruction names its operand.
//!
//! The 6502 groups instructions by the low two opcode bits (`cc`) and picks
//! the addressing mode from the middle three (`bbb`). A descriptor carries
//! the mode, an optional index register, and whether crossing a page while
//! indexing costs an extra cycle.

use vstd::prelude::*;

verus! {

#[derive(Clone, Copy, Debug, PartialEq, Eq, Structural)]
pub enum AddressingMode {
    IndexedIndirect,
    IndirectIndexed,
    ZeroPage,
    Immediate,
    Absolute,
    AbsoluteIndexed,
    ZeroPageIndexed,
    Accumulator,
    Indirect,
    Relative,
    Implied,
}

#[derive(Clone, Copy, Debug, PartialEq, Eq, Structural)]
pub enum AddressingRegistry {
    X,
    Y,
    Acc,
    StackPtr,
}

#[derive(Clone, Copy, Debug, PartialEq, Eq, Structural)]
pub struct Addressing {
    pub register: Option<AddressingRegistry>,
    pub add_cycles: bool,
    pub mode: AddressingMode,
}

/// The addressing descriptor the decode table assigns to a `(bbb, cc)` pair,
/// or `None` where no documented instruction uses that pair.
pub open spec fn spec_from_op_code(mid: u8, lower: u8) -> Option<Addressing> {
    if lower == 1 {
        if mid == 0 {
            Some(spec_indexed_indirect())
        } else if mid == 1 {
            Some(spec_zero_page())
        } else if mid == 2 {
            Some(spec_immediate(None))
        } else if mid == 3 {
            Some(spec_absolute())
        } else if mid == 4 {
            Some(spec_indirect_indexed())
        } else if mid == 5 {
            Some(spec_zero_page_indexed(Some(AddressingRegistry::X), false))
        } else if mid == 6 {
            Some(spec_absolute_indexed(Some(AddressingRegistry::Y), true))
        } else if mid == 7 {
            Some(spec_absolute_indexed(Some(AddressingRegistry::X), true))
        } else {
            None
        }
    } else if lower == 2 {
        if mid == 0 {
            Some(spec_immediate(None))
        } else if mid == 1 {
            Some(spec_zero_page())
        } else if mid == 2 {
            Some(spec_accumulator())
        } else if mid == 3 {
            Some(spec_absolute())
        } else if mid == 5 {
            Some(spec_zero_page_indexed(Some(AddressingRegistry::X), false))
        } else if mid == 7 {
            Some(spec_absolute_indexed(Some(AddressingRegistry::X), false))
        } else {
            None
        }
    } else if lower == 0 {
        if mid == 0 {
            Some(spec_immediate(None))
        } else if mid == 1 {
            Some(spec_zero_page())
        } else if mid == 3 {
            Some(spec_absolute())
        } else if mid == 4 {
            Some(spec_relative())
        } else if mid == 5 {
            Some(spec_zero_page_indexed(Some(AddressingRegistry::X), false))
        } else if mid == 7 {
            Some(spec_absolute_indexed(Some(AddressingRegistry::X), false))
        } else {
            None
        }
    } else {
        None
    }
}

pub open spec fn spec_indexed_indirect() -> Addressing {
    Addressing { register: None, add_cycles: false, mode: AddressingMode::IndexedIndirect }
}

pub open spec fn spec_indirect_indexed() -> Addressing {
    Addressing { register: None, add_cycles: true, mode: AddressingMode::IndirectIndexed }
}

pub open spec fn spec_zero_page() -> Addressing {
    Addressing { register: None, add_cycles: false, mode: AddressingMode::ZeroPage }
}

pub open spec fn spec_immediate(register: Option<AddressingRegistry>) -> Addressing {
    Addressing { register, add_cycles: false, mode: AddressingMode::Immediate }
}

pub open spec fn spec_absolute() -> Addressing {
    Addressing { register: None, add_cycles: false, mode: AddressingMode::Absolute }
}

pub open spec fn spec_absolute_indexed(register: Option<AddressingRegistry>, add_cycles: bool) -> Addressing {
    Addressing { register, add_cycles, mode: AddressingMode::AbsoluteIndexed }
}

pub open spec fn spec_zero_page_indexed(register: Option<AddressingRegistry>, add_cycles: bool) -> Addressing {
    Addressing { register, add_cycles, mode: AddressingMode::ZeroPageIndexed }
}

pub open spec fn spec_accumulator() -> Addressing {
    Addressing { register: None, add_cycles: false, mode: AddressingMode::Accumulator }
}

pub open spec fn spec_indirect() -> Addressing {
    Addressing { register: None, add_cycles: false, mode: AddressingMode::Indirect }
}

pub open spec fn spec_relative() -> Addressing {
    Addressing { register: None, add_cycles: false, mode: AddressingMode::Relative }
}

impl Addressing {
    pub fn indexed_indirect() -> (r: Addressing)
        ensures
            r == spec_indexed_indirect(),
    {
        Addressing { register: None, add_cycles: false, mode: AddressingMode::IndexedIndirect }
    }

    pub fn indirect_indexed() -> (r: Addressing)
        ensures
            r == spec_indirect_indexed(),
    {
        Addressing { register: None, add_cycles: true, mode: AddressingMode::IndirectIndexed }
    }

    pub fn zero_page() -> (r: Addressing)
        ensures
            r == spec_zero_page(),
    {
        Addressing { register: None, add_cycles: false, mode: AddressingMode::ZeroPage }
    }

    pub fn immediate(addressing_registry: Option<AddressingRegistry>) -> (r: Addressing)
        ensures
            r == spec_immediate(addressing_registry),
    {
        Addressing { register: addressing_registry, add_cycles: false, mode: AddressingMode::Immediate }
    }

    pub fn absolute() -> (r: Addressing)
        ensures
            r == spec_absolute(),
    {
        Addressing { register: None, add_cycles: false, mode: AddressingMode::Absolute }
    }

    pub fn absolute_indexed(reg: Option<AddressingRegistry>, add_cycles: bool) -> (r: Addressing)
        ensures
            r == spec_absolute_indexed(reg, add_cycles),
    {
        Addressing { register: reg, add_cycles, mode: AddressingMode::AbsoluteIndexed }
    }

    pub fn zero_page_indexed(reg: Option<AddressingRegistry>, add_cycles: bool) -> (r: Addressing)
        ensures
            r == spec_zero_page_indexed(reg, add_cycles),
    {
        Addressing { register: reg, add_cycles, mode: AddressingMode::ZeroPageIndexed }
    }

    pub fn accumulator() -> (r: Addressing)
        ensures
            r == spec_accumulator(),
    {
        Addressing { register: None, add_cycles: false, mode: AddressingMode::Accumulator }
    }

    pub fn indirect() -> (r: Addressing)
        ensures
            r == spec_indirect(),
    {
        Addressing { register: None, add_cycles: false, mode: AddressingMode::Indirect }
    }

    pub fn relative() -> (r: Addressing)
        ensures
            r == spec_relative(),
    {
        Addressing { register: None, add_cycles: false, mode: AddressingMode::Relative }
    }

    /// The descriptor with the X index replaced by Y, for the two opcodes
    /// (LDX, STX with an indexed mode) where the 6502 substitutes registers.
    pub fn to_register_specific_addressing(&self) -> (r: Addressing)
        ensures
            r.mode == self.mode,
            r.add_cycles == self.add_cycles,
            self.register == Some(AddressingRegistry::X) ==> r.register == Some(AddressingRegistry::Y),
            self.register != Some(AddressingRegistry::X) ==> r.register == self.register,
    {
        let fixed_addressing_register = match self.register {
            Some(register) => {
                if register == AddressingRegistry::X {
                    Some(AddressingRegistry::Y)
                } else {
                    Some(register)
                }
            },
            None => None,
        };
        Addressing { register: fixed_addressing_register, add_cycles: self.add_cycles, mode: self.mode }
    }

    /// The decode table over `(bbb, cc)` pairs; `None` for combinations no
    /// documented instruction uses.
    pub fn from_op_code(mid_op_code: u8, lower_op_code: u8) -> (r: Option<Addressing>)
        ensures
            r == spec_from_op_code(mid_op_code, lower_op_code),
    {
        match (mid_op_code, lower_op_code) {
            (0b000, 0b01) => Some(Addressing::indexed_indirect()),
            (0b001, 0b01) => Some(Addressing::zero_page()),
            (0b010, 0b01) => Some(Addressing::immediate(None)),
            (0b011, 0b01) => Some(Addressing::absolute()),
            (0b100, 0b01) => Some(Addressing::indirect_indexed()),
            (0b101, 0b01) => Some(Addressing::zero_page_indexed(Some(AddressingRegistry::X), false)),
            (0b110, 0b01) => Some(Addressing::absolute_indexed(Some(AddressingRegistry::Y), true)),
            (0b111, 0b01) => Some(Addressing::absolute_indexed(Some(AddressingRegistry::X), true)),
            (0b000, 0b10) => Some(Addressing::immediate(None)),
            (0b001, 0b10) => Some(Addressing::zero_page()),
            (0b010, 0b10) => Some(Addressing::accumulator()),
            (0b011, 0b10) => Some(Addressing::absolute()),
            (0b101, 0b10) => Some(Addressing::zero_page_indexed(Some(AddressingRegistry::X), false)),
            (0b111, 0b10) => Some(Addressing::absolute_indexed(Some(AddressingRegistry::X), false)),
            (0b000, 0b00) => Some(Addressing::immediate(None)),
            (0b001, 0b00) => Some(Addressing::zero_page()),
            (0b011, 0b00) => Some(Addressing::absolute()),
            (0b100, 0b00) => Some(Addressing::relative()),
            (0b101, 0b00) => Some(Addressing::zero_page_indexed(Some(AddressingRegistry::X), false)),
            (0b111, 0b00) => Some(Addressing::absolute_indexed(Some(AddressingRegistry::X), false)),
            _ => None,
        }
    }
}

} // verus!
