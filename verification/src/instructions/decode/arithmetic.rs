//! 8-bit arithmetic and logic between the accumulator and a register.

use vstd::prelude::*;
use crate::instructions::{ArithmeticTarget, Instruction};
use crate::instructions::decode::{unprefixed_opcode, within};

verus! {

/// The operand of an 8-bit arithmetic or logic instruction, if it is one.
pub open spec fn alu_operand(i: Instruction) -> Option<ArithmeticTarget> {
    match i {
        Instruction::ADD(t) => Some(t),
        Instruction::ADC(t) => Some(t),
        Instruction::SUB(t) => Some(t),
        Instruction::SBC(t) => Some(t),
        Instruction::AND(t) => Some(t),
        Instruction::OR(t) => Some(t),
        Instruction::XOR(t) => Some(t),
        Instruction::CP(t) => Some(t),
        _ => None,
    }
}

/// The register block of the arithmetic family: the eight operations with a
/// register as operand.
pub open spec fn handles(i: Instruction) -> bool {
    match alu_operand(i) {
        Some(t) => t.is_register(),
        None => false,
    }
}

/// Decodes the arithmetic and logic opcodes 0x80-0xBF whose operand is a
/// register. Those whose operand is the byte at `HL` are left to the
/// accumulator family.
pub fn decode(byte: u8) -> (r: Option<Instruction>)
    ensures
        r == within(unprefixed_opcode(byte), |i: Instruction| handles(i)),
{
    if byte >= 0x80 && byte <= 0x87 {
        return match ArithmeticTarget::from_lower_bits(byte) {
            Some(t) => Some(Instruction::ADD(t)),
            None => None,
        };
    }
    if byte >= 0x88 && byte <= 0x8F {
        return match ArithmeticTarget::from_lower_bits(byte) {
            Some(t) => Some(Instruction::ADC(t)),
            None => None,
        };
    }
    if byte >= 0x90 && byte <= 0x97 {
        return match ArithmeticTarget::from_lower_bits(byte) {
            Some(t) => Some(Instruction::SUB(t)),
            None => None,
        };
    }
    if byte >= 0x98 && byte <= 0x9F {
        return match ArithmeticTarget::from_lower_bits(byte) {
            Some(t) => Some(Instruction::SBC(t)),
            None => None,
        };
    }
    if byte >= 0xA0 && byte <= 0xA7 {
        return match ArithmeticTarget::from_lower_bits(byte) {
            Some(t) => Some(Instruction::AND(t)),
            None => None,
        };
    }
    if byte >= 0xA8 && byte <= 0xAF {
        return match ArithmeticTarget::from_lower_bits(byte) {
            Some(t) => Some(Instruction::XOR(t)),
            None => None,
        };
    }
    if byte >= 0xB0 && byte <= 0xB7 {
        return match ArithmeticTarget::from_lower_bits(byte) {
            Some(t) => Some(Instruction::OR(t)),
            None => None,
        };
    }
    if byte >= 0xB8 && byte <= 0xBF {
        return match ArithmeticTarget::from_lower_bits(byte) {
            Some(t) => Some(Instruction::CP(t)),
            None => None,
        };
    }
    None
}

} // verus!
