//! Arithmetic and logic on the accumulator with an operand from memory, and
//! the one-byte instructions that work on the accumulator and the flags alone.

use vstd::prelude::*;
use crate::instructions::{ArithmeticTarget, Instruction};
use crate::instructions::decode::{unprefixed_opcode, within};
use crate::instructions::decode::arithmetic::alu_operand;

verus! {

/// The accumulator family: the eight arithmetic and logic operations with the
/// byte at `HL` or an immediate byte as operand, the four rotates of the
/// accumulator, `DAA`, `CPL`, `SCF` and `CCF`.
pub open spec fn handles(i: Instruction) -> bool {
    match alu_operand(i) {
        Some(t) => !t.is_register(),
        None => i is RLCA || i is RRCA || i is RLA || i is RRA || i is DAA || i is CPL || i is SCF
            || i is CCF,
    }
}

/// Decodes the opcodes of the accumulator family, and no others.
pub fn decode(byte: u8) -> (r: Option<Instruction>)
    ensures
        r == within(unprefixed_opcode(byte), |i: Instruction| handles(i)),
{
    match byte {
        0x86 => Some(Instruction::ADD(ArithmeticTarget::HLI)),
        0x8E => Some(Instruction::ADC(ArithmeticTarget::HLI)),
        0x96 => Some(Instruction::SUB(ArithmeticTarget::HLI)),
        0x9E => Some(Instruction::SBC(ArithmeticTarget::HLI)),
        0xA6 => Some(Instruction::AND(ArithmeticTarget::HLI)),
        0xAE => Some(Instruction::XOR(ArithmeticTarget::HLI)),
        0xB6 => Some(Instruction::OR(ArithmeticTarget::HLI)),
        0xBE => Some(Instruction::CP(ArithmeticTarget::HLI)),
        0xC6 => Some(Instruction::ADD(ArithmeticTarget::D8)),
        0xCE => Some(Instruction::ADC(ArithmeticTarget::D8)),
        0xD6 => Some(Instruction::SUB(ArithmeticTarget::D8)),
        0xDE => Some(Instruction::SBC(ArithmeticTarget::D8)),
        0xE6 => Some(Instruction::AND(ArithmeticTarget::D8)),
        0xEE => Some(Instruction::XOR(ArithmeticTarget::D8)),
        0xF6 => Some(Instruction::OR(ArithmeticTarget::D8)),
        0xFE => Some(Instruction::CP(ArithmeticTarget::D8)),
        0x07 => Some(Instruction::RLCA),
        0x0F => Some(Instruction::RRCA),
        0x17 => Some(Instruction::RLA),
        0x1F => Some(Instruction::RRA),
        0x27 => Some(Instruction::DAA),
        0x2F => Some(Instruction::CPL),
        0x37 => Some(Instruction::SCF),
        0x3F => Some(Instruction::CCF),
        _ => None,
    }
}

} // verus!
