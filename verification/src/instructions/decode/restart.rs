//! Calls to the eight fixed addresses in the first page.

use vstd::prelude::*;
use crate::bits::lemma_u8_masks;
use crate::instructions::Instruction;
use crate::instructions::decode::{unprefixed_opcode, within};

verus! {

/// The restart family: `RST`.
pub open spec fn handles(i: Instruction) -> bool {
    i is RST
}

/// Decodes the restarts, and no other opcode: the top two and bottom three
/// bits are set, and bits 5-3 give the address in units of eight.
pub fn decode(byte: u8) -> (r: Option<Instruction>)
    ensures
        r == within(unprefixed_opcode(byte), |i: Instruction| handles(i)),
{
    proof {
        lemma_u8_masks(byte);
        lemma_restart_bits(byte);
    }
    if byte & 0xC7 == 0xC7 {
        Some(Instruction::RST(byte & 0x38))
    } else {
        None
    }
}

/// The restart opcodes and their address field, by arithmetic.
pub proof fn lemma_restart_bits(byte: u8)
    by (bit_vector)
    ensures
        (byte & 0xC7 == 0xC7) == (byte / 64 == 3 && byte % 8 == 7),
        byte & 0x38 == ((byte / 8) % 8) * 8,
{
}

} // verus!
