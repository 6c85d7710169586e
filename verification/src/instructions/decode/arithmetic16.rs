//! 16-bit arithmetic on `HL` and `SP`, and the load of `SP` from `HL`.

use vstd::prelude::*;
use crate::instructions::{Instruction, LoadType, LoadWordSource, LoadWordTarget};
use crate::instructions::decode::{unprefixed_opcode, within};
use crate::register::Register16;

verus! {

/// Whether a load is `LD SP, HL`.
pub open spec fn is_sp_from_hl(load: LoadType) -> bool {
    load matches LoadType::Word(t, s) && t is SP && s is HL
}

/// The 16-bit arithmetic family: `ADD HL, rr`, `ADD SP, r8`, `LD HL, SP+r8`
/// and `LD SP, HL`.
pub open spec fn handles(i: Instruction) -> bool {
    i is ADDHL || i is ADDSP || i is LDHLSP || (i matches Instruction::LD(load) && is_sp_from_hl(load))
}

/// Decodes the opcodes of the 16-bit arithmetic family, and no others.
pub fn decode(byte: u8) -> (r: Option<Instruction>)
    ensures
        r == within(unprefixed_opcode(byte), |i: Instruction| handles(i)),
{
    match byte {
        0x09 => Some(Instruction::ADDHL(Register16::BC)),
        0x19 => Some(Instruction::ADDHL(Register16::DE)),
        0x29 => Some(Instruction::ADDHL(Register16::HL)),
        0x39 => Some(Instruction::ADDHL(Register16::SP)),
        0xE8 => Some(Instruction::ADDSP),
        0xF8 => Some(Instruction::LDHLSP),
        0xF9 => Some(Instruction::LD(LoadType::Word(LoadWordTarget::SP, LoadWordSource::HL))),
        _ => None,
    }
}

} // verus!
