//! Instructions behind the 0xCB prefix: rotates, shifts and bit operations.
//!
//! Bits 2-0 of the byte select the operand. The first quarter holds the
//! rotates and shifts, one block of eight per operation; the other three hold
//! `BIT`, `RES` and `SET`, with the bit's number in bits 5-3.

use vstd::prelude::*;
use crate::bits::lemma_u8_masks;
use crate::instructions::{Instruction, PrefixTarget};
use crate::instructions::decode::{prefixed_opcode, within};

verus! {

/// The first block of the prefixed opcodes: `RLC`.
pub open spec fn handles(i: Instruction) -> bool {
    i is RLC
}

/// The other rotates and the shifts.
pub open spec fn handles_rotate(i: Instruction) -> bool {
    i is RRC || i is RL || i is RR || i is SLA || i is SRA || i is SWAP || i is SRL
}

/// The bit operations.
pub open spec fn handles_bit(i: Instruction) -> bool {
    i is BIT || i is RES || i is SET
}

/// The operand that bits 2-0 of a prefixed opcode select.
pub fn operand(byte: u8) -> (r: PrefixTarget)
    ensures
        r == PrefixTarget::of_index((byte % 8) as int),
{
    proof {
        lemma_u8_masks(byte);
    }
    match byte & 0x07 {
        0x00 => PrefixTarget::B,
        0x01 => PrefixTarget::C,
        0x02 => PrefixTarget::D,
        0x03 => PrefixTarget::E,
        0x04 => PrefixTarget::H,
        0x05 => PrefixTarget::L,
        0x06 => PrefixTarget::HLI,
        _ => PrefixTarget::A,
    }
}

/// Decodes the block 0x00-0x07, `RLC`, and no other prefixed opcode.
pub fn decode(byte: u8) -> (r: Option<Instruction>)
    ensures
        r == within(Some(prefixed_opcode(byte)), |i: Instruction| handles(i)),
{
    match byte {
        0x00 => Some(Instruction::RLC(PrefixTarget::B)),
        0x01 => Some(Instruction::RLC(PrefixTarget::C)),
        0x02 => Some(Instruction::RLC(PrefixTarget::D)),
        0x03 => Some(Instruction::RLC(PrefixTarget::E)),
        0x04 => Some(Instruction::RLC(PrefixTarget::H)),
        0x05 => Some(Instruction::RLC(PrefixTarget::L)),
        0x06 => Some(Instruction::RLC(PrefixTarget::HLI)),
        0x07 => Some(Instruction::RLC(PrefixTarget::A)),
        _ => None,
    }
}

/// Decodes the blocks 0x08-0x3F: the rotates after `RLC`, and the shifts.
pub fn decode_rotate(byte: u8) -> (r: Option<Instruction>)
    ensures
        r == within(Some(prefixed_opcode(byte)), |i: Instruction| handles_rotate(i)),
{
    proof {
        lemma_u8_masks(byte);
    }
    if byte >= 0x40 {
        return None;
    }
    let target = operand(byte);
    match (byte >> 3) & 0x07 {
        0x01 => Some(Instruction::RRC(target)),
        0x02 => Some(Instruction::RL(target)),
        0x03 => Some(Instruction::RR(target)),
        0x04 => Some(Instruction::SLA(target)),
        0x05 => Some(Instruction::SRA(target)),
        0x06 => Some(Instruction::SWAP(target)),
        0x07 => Some(Instruction::SRL(target)),
        _ => None,
    }
}

/// Decodes the bytes 0x40-0xFF: `BIT`, `RES` and `SET`.
pub fn decode_bit(byte: u8) -> (r: Option<Instruction>)
    ensures
        r == within(Some(prefixed_opcode(byte)), |i: Instruction| handles_bit(i)),
{
    proof {
        lemma_u8_masks(byte);
    }
    let target = operand(byte);
    let bit: u8 = (byte >> 3) & 0x07;
    if byte < 0x40 {
        None
    } else if byte < 0x80 {
        Some(Instruction::BIT(bit, target))
    } else if byte < 0xC0 {
        Some(Instruction::RES(bit, target))
    } else {
        Some(Instruction::SET(bit, target))
    }
}

} // verus!
