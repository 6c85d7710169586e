//! Operands shared by several instruction families.

use vstd::prelude::*;
use crate::register::{Register16, Register8};

verus! {

/// What an increment or decrement changes.
#[derive(Debug, Copy, Clone)]
pub enum IncDecTarget {
    Reg8(Register8),
    Reg16(Register16),
    /// The byte in memory that `HL` addresses.
    HLI,
}

/// Operand of a prefixed instruction.
#[derive(Debug, Copy, Clone)]
pub enum PrefixTarget {
    A,
    B,
    C,
    D,
    E,
    H,
    L,
    /// The byte in memory that `HL` addresses.
    HLI,
}

/// The 16-bit register that a 2-bit pair field selects.
pub open spec fn register16_of_index(i: int) -> Register16 {
    if i == 0 {
        Register16::BC
    } else if i == 1 {
        Register16::DE
    } else if i == 2 {
        Register16::HL
    } else {
        Register16::SP
    }
}

impl IncDecTarget {
    /// The 8-bit target that a 3-bit operand field selects.
    pub open spec fn of_index(i: int) -> IncDecTarget {
        if i == 0 {
            IncDecTarget::Reg8(Register8::B)
        } else if i == 1 {
            IncDecTarget::Reg8(Register8::C)
        } else if i == 2 {
            IncDecTarget::Reg8(Register8::D)
        } else if i == 3 {
            IncDecTarget::Reg8(Register8::E)
        } else if i == 4 {
            IncDecTarget::Reg8(Register8::H)
        } else if i == 5 {
            IncDecTarget::Reg8(Register8::L)
        } else if i == 6 {
            IncDecTarget::HLI
        } else {
            IncDecTarget::Reg8(Register8::A)
        }
    }
}

impl PrefixTarget {
    /// The operand that a 3-bit operand field selects.
    pub open spec fn of_index(i: int) -> PrefixTarget {
        if i == 0 {
            PrefixTarget::B
        } else if i == 1 {
            PrefixTarget::C
        } else if i == 2 {
            PrefixTarget::D
        } else if i == 3 {
            PrefixTarget::E
        } else if i == 4 {
            PrefixTarget::H
        } else if i == 5 {
            PrefixTarget::L
        } else if i == 6 {
            PrefixTarget::HLI
        } else {
            PrefixTarget::A
        }
    }

    /// The register that the operand names, if it names one.
    pub open spec fn register(self) -> Option<Register8> {
        match self {
            PrefixTarget::A => Some(Register8::A),
            PrefixTarget::B => Some(Register8::B),
            PrefixTarget::C => Some(Register8::C),
            PrefixTarget::D => Some(Register8::D),
            PrefixTarget::E => Some(Register8::E),
            PrefixTarget::H => Some(Register8::H),
            PrefixTarget::L => Some(Register8::L),
            PrefixTarget::HLI => None,
        }
    }

    /// The register that the operand names, or nothing for the byte at `HL`.
    pub fn to_register8(self) -> (r: Option<Register8>)
        ensures
            r == self.register(),
    {
        match self {
            PrefixTarget::A => Some(Register8::A),
            PrefixTarget::B => Some(Register8::B),
            PrefixTarget::C => Some(Register8::C),
            PrefixTarget::D => Some(Register8::D),
            PrefixTarget::E => Some(Register8::E),
            PrefixTarget::H => Some(Register8::H),
            PrefixTarget::L => Some(Register8::L),
            PrefixTarget::HLI => None,
        }
    }
}

} // verus!
