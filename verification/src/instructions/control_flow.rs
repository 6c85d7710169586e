//! Condition of a jump, call or return.

use vstd::prelude::*;
use crate::bits::lemma_u8_masks;

verus! {

/// When a jump, call or return is taken.
#[derive(Debug, Copy, Clone)]
pub enum JumpTest {
    NotZero,
    Zero,
    NotCarry,
    Carry,
    Always,
}

impl JumpTest {
    /// The condition that a 2-bit condition field selects.
    pub open spec fn of_index(i: int) -> JumpTest {
        if i == 0 {
            JumpTest::NotZero
        } else if i == 1 {
            JumpTest::Zero
        } else if i == 2 {
            JumpTest::NotCarry
        } else {
            JumpTest::Carry
        }
    }

    /// The condition that bits 4-3 of an opcode select.
    pub fn from_bits(bits: u8) -> (r: Option<Self>)
        ensures
            r == Some(Self::of_index(((bits / 8) % 4) as int)),
    {
        proof {
            lemma_u8_masks(bits);
        }
        match (bits >> 3) & 0x03 {
            0x00 => Some(JumpTest::NotZero),
            0x01 => Some(JumpTest::Zero),
            0x02 => Some(JumpTest::NotCarry),
            _ => Some(JumpTest::Carry),
        }
    }
}

} // verus!
