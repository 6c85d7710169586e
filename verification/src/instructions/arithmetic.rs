//! Operand of the 8-bit arithmetic and logic instructions.

use vstd::prelude::*;
use crate::bits::lemma_u8_masks;

verus! {

/// What an 8-bit arithmetic or logic instruction combines with the accumulator.
#[derive(Debug, Copy, Clone)]
pub enum ArithmeticTarget {
    A,
    B,
    C,
    D,
    E,
    H,
    L,
    /// The byte in memory that `HL` addresses.
    HLI,
    /// The byte that follows the opcode.
    D8,
}

impl ArithmeticTarget {
    /// The operand that a 3-bit operand field selects; field 6 is the byte at `HL`.
    pub open spec fn of_index(i: int) -> ArithmeticTarget {
        if i == 0 {
            ArithmeticTarget::B
        } else if i == 1 {
            ArithmeticTarget::C
        } else if i == 2 {
            ArithmeticTarget::D
        } else if i == 3 {
            ArithmeticTarget::E
        } else if i == 4 {
            ArithmeticTarget::H
        } else if i == 5 {
            ArithmeticTarget::L
        } else if i == 6 {
            ArithmeticTarget::HLI
        } else {
            ArithmeticTarget::A
        }
    }

    /// Whether the operand is one of the seven registers.
    pub open spec fn is_register(self) -> bool {
        !(self is HLI) && !(self is D8)
    }

    /// The register operand that bits 2-0 of an opcode select, or nothing
    /// where they select the byte at `HL`.
    pub fn from_lower_bits(bits: u8) -> (r: Option<Self>)
        ensures
            r == (if bits % 8 == 6 { None } else { Some(Self::of_index((bits % 8) as int)) }),
    {
        proof {
            lemma_u8_masks(bits);
        }
        match bits & 0x07 {
            0x00 => Some(ArithmeticTarget::B),
            0x01 => Some(ArithmeticTarget::C),
            0x02 => Some(ArithmeticTarget::D),
            0x03 => Some(ArithmeticTarget::E),
            0x04 => Some(ArithmeticTarget::H),
            0x05 => Some(ArithmeticTarget::L),
            0x06 => None,
            _ => Some(ArithmeticTarget::A),
        }
    }
}

} // verus!
