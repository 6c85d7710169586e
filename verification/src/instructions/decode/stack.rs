//! Pushes and pops of register pairs.

use vstd::prelude::*;
use crate::instructions::{Instruction, StackTarget};
use crate::instructions::decode::{unprefixed_opcode, within};

verus! {

/// The stack family: `PUSH rr` and `POP rr`.
pub open spec fn handles(i: Instruction) -> bool {
    i is PUSH || i is POP
}

/// Decodes the pushes (0xC5, 0xD5, 0xE5, 0xF5) and the pops (0xC1, 0xD1,
/// 0xE1, 0xF1), and no other opcode. Bits 5-4 select the pair.
pub fn decode(byte: u8) -> (r: Option<Instruction>)
    ensures
        r == within(unprefixed_opcode(byte), |i: Instruction| handles(i)),
{
    if byte == 0xC5 || byte == 0xD5 || byte == 0xE5 || byte == 0xF5 {
        if let Some(dst) = StackTarget::from_bits(byte) {
            return Some(Instruction::PUSH(dst));
        }
    }
    if byte == 0xC1 || byte == 0xD1 || byte == 0xE1 || byte == 0xF1 {
        if let Some(dst) = StackTarget::from_bits(byte) {
            return Some(Instruction::POP(dst));
        }
    }
    None
}

} // verus!
