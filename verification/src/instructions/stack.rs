//! Register pair of a push or pop.

use vstd::prelude::*;
use crate::bits::lemma_u8_masks;

verus! {

/// A register pair that can be pushed and popped.
#[derive(Debug, Copy, Clone)]
pub enum StackTarget {
    BC,
    DE,
    HL,
    AF,
}

impl StackTarget {
    /// The pair that a 2-bit pair field selects.
    pub open spec fn of_index(i: int) -> StackTarget {
        if i == 0 {
            StackTarget::BC
        } else if i == 1 {
            StackTarget::DE
        } else if i == 2 {
            StackTarget::HL
        } else {
            StackTarget::AF
        }
    }

    /// The pair that bits 5-4 of an opcode select.
    pub fn from_bits(bits: u8) -> (r: Option<Self>)
        ensures
            r == Some(Self::of_index(((bits / 16) % 4) as int)),
    {
        proof {
            lemma_u8_masks(bits);
        }
        match (bits >> 4) & 0x03 {
            0x00 => Some(StackTarget::BC),
            0x01 => Some(StackTarget::DE),
            0x02 => Some(StackTarget::HL),
            _ => Some(StackTarget::AF),
        }
    }
}

} // verus!
