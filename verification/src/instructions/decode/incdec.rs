//! Increments and decrements of registers, register pairs and the byte at `HL`.

use vstd::prelude::*;
use crate::instructions::{IncDecTarget, Instruction};
use crate::instructions::decode::{unprefixed_opcode, within};
use crate::register::{Register16, Register8};

verus! {

/// The increment and decrement family.
pub open spec fn handles(i: Instruction) -> bool {
    i is INC || i is DEC
}

/// Decodes the increments and decrements, and no other opcode.
pub fn decode(byte: u8) -> (r: Option<Instruction>)
    ensures
        r == within(unprefixed_opcode(byte), |i: Instruction| handles(i)),
{
    match byte {
        0x04 => Some(Instruction::INC(IncDecTarget::Reg8(Register8::B))),
        0x0C => Some(Instruction::INC(IncDecTarget::Reg8(Register8::C))),
        0x14 => Some(Instruction::INC(IncDecTarget::Reg8(Register8::D))),
        0x1C => Some(Instruction::INC(IncDecTarget::Reg8(Register8::E))),
        0x24 => Some(Instruction::INC(IncDecTarget::Reg8(Register8::H))),
        0x2C => Some(Instruction::INC(IncDecTarget::Reg8(Register8::L))),
        0x34 => Some(Instruction::INC(IncDecTarget::HLI)),
        0x3C => Some(Instruction::INC(IncDecTarget::Reg8(Register8::A))),
        0x03 => Some(Instruction::INC(IncDecTarget::Reg16(Register16::BC))),
        0x13 => Some(Instruction::INC(IncDecTarget::Reg16(Register16::DE))),
        0x23 => Some(Instruction::INC(IncDecTarget::Reg16(Register16::HL))),
        0x33 => Some(Instruction::INC(IncDecTarget::Reg16(Register16::SP))),
        0x05 => Some(Instruction::DEC(IncDecTarget::Reg8(Register8::B))),
        0x0D => Some(Instruction::DEC(IncDecTarget::Reg8(Register8::C))),
        0x15 => Some(Instruction::DEC(IncDecTarget::Reg8(Register8::D))),
        0x1D => Some(Instruction::DEC(IncDecTarget::Reg8(Register8::E))),
        0x25 => Some(Instruction::DEC(IncDecTarget::Reg8(Register8::H))),
        0x2D => Some(Instruction::DEC(IncDecTarget::Reg8(Register8::L))),
        0x35 => Some(Instruction::DEC(IncDecTarget::HLI)),
        0x3D => Some(Instruction::DEC(IncDecTarget::Reg8(Register8::A))),
        0x0B => Some(Instruction::DEC(IncDecTarget::Reg16(Register16::BC))),
        0x1B => Some(Instruction::DEC(IncDecTarget::Reg16(Register16::DE))),
        0x2B => Some(Instruction::DEC(IncDecTarget::Reg16(Register16::HL))),
        0x3B => Some(Instruction::DEC(IncDecTarget::Reg16(Register16::SP))),
        _ => None,
    }
}

} // verus!
