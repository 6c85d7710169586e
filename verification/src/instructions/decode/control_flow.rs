//! Jumps, calls, returns and the instructions that steer the CPU itself.

use vstd::prelude::*;
use crate::instructions::{Instruction, JumpTest};
use crate::instructions::decode::{unprefixed_opcode, within};

verus! {

/// The control family: jumps, calls and returns (but for the fixed-address
/// calls), `NOP`, `HALT`, `STOP`, `DI` and `EI`.
pub open spec fn handles(i: Instruction) -> bool {
    i is NOP || i is HALT || i is STOP || i is DI || i is EI || i is JP || i is JR || i is JPHL
        || i is CALL || i is RET || i is RETI
}

/// Decodes the opcodes of the control family, and no others.
pub fn decode(byte: u8) -> (r: Option<Instruction>)
    ensures
        r == within(unprefixed_opcode(byte), |i: Instruction| handles(i)),
{
    match byte {
        0x00 => Some(Instruction::NOP),
        0x10 => Some(Instruction::STOP),
        0x76 => Some(Instruction::HALT),
        0xF3 => Some(Instruction::DI),
        0xFB => Some(Instruction::EI),
        0xC3 => Some(Instruction::JP(JumpTest::Always)),
        0xC2 => Some(Instruction::JP(JumpTest::NotZero)),
        0xCA => Some(Instruction::JP(JumpTest::Zero)),
        0xD2 => Some(Instruction::JP(JumpTest::NotCarry)),
        0xDA => Some(Instruction::JP(JumpTest::Carry)),
        0xE9 => Some(Instruction::JPHL),
        0x20 => Some(Instruction::JR(JumpTest::NotZero)),
        0x28 => Some(Instruction::JR(JumpTest::Zero)),
        0x30 => Some(Instruction::JR(JumpTest::NotCarry)),
        0x38 => Some(Instruction::JR(JumpTest::Carry)),
        0x18 => Some(Instruction::JR(JumpTest::Always)),
        0xCD => Some(Instruction::CALL(JumpTest::Always)),
        0xC4 => Some(Instruction::CALL(JumpTest::NotZero)),
        0xCC => Some(Instruction::CALL(JumpTest::Zero)),
        0xD4 => Some(Instruction::CALL(JumpTest::NotCarry)),
        0xDC => Some(Instruction::CALL(JumpTest::Carry)),
        0xC9 => Some(Instruction::RET(JumpTest::Always)),
        0xC0 => Some(Instruction::RET(JumpTest::NotZero)),
        0xC8 => Some(Instruction::RET(JumpTest::Zero)),
        0xD0 => Some(Instruction::RET(JumpTest::NotCarry)),
        0xD8 => Some(Instruction::RET(JumpTest::Carry)),
        0xD9 => Some(Instruction::RETI),
        _ => None,
    }
}

} // verus!
