//! Carry and half-carry rules of the 8-bit ALU and of the two instructions
//! that add a signed byte to the stack pointer.
//!
//! Half-carry is the carry out of bit 3 of an addition, or the borrow into
//! bit 4 of a subtraction. For `SP + r8` the result uses the immediate as a
//! signed number, while both flags are taken from an unsigned addition of the
//! immediate's byte to the low byte of `SP`.

use vstd::prelude::*;
use crate::bits::{lemma_u8_masks, lemma_u16_masks};

verus! {

/// The value of a carry-in as a number.
pub open spec fn carry_value(carry_in: bool) -> int {
    if carry_in { 1 } else { 0 }
}

/// The byte that encodes a signed immediate, read as an unsigned number.
pub open spec fn unsigned_byte(offset: i8) -> int {
    if offset < 0 { offset + 256 } else { offset as int }
}

/// Half-carry of `a + b`: the low nibbles sum to more than 15.
pub fn half_carry_add(a: u8, b: u8) -> (r: bool)
    ensures
        r == ((a % 16) + (b % 16) > 15),
{
    proof {
        lemma_u8_masks(a);
        lemma_u8_masks(b);
    }
    (((a & 0x0F) as u16) + ((b & 0x0F) as u16)) > 0x0F
}

/// Half-carry of `a + b + carry_in`.
pub fn half_carry_add_with_carry(a: u8, b: u8, carry_in: bool) -> (r: bool)
    ensures
        r == ((a % 16) + (b % 16) + carry_value(carry_in) > 15),
{
    proof {
        lemma_u8_masks(a);
        lemma_u8_masks(b);
    }
    let c: u16 = if carry_in { 1u16 } else { 0u16 };
    (((a & 0x0F) as u16) + ((b & 0x0F) as u16) + c) > 0x0F
}

/// Carry of `a + b`: the sum does not fit in a byte.
pub fn carry_add(a: u8, b: u8) -> (r: bool)
    ensures
        r == (a + b > 255),
{
    ((a as u16) + (b as u16)) > 0xFF
}

/// Carry of `a + b + carry_in`.
pub fn carry_add_with_carry(a: u8, b: u8, carry_in: bool) -> (r: bool)
    ensures
        r == (a + b + carry_value(carry_in) > 255),
{
    let c: u16 = if carry_in { 1u16 } else { 0u16 };
    ((a as u16) + (b as u16) + c) > 0xFF
}

/// Half-borrow of `a - b`: the low nibble of `a` is the smaller one.
pub fn half_borrow_sub(a: u8, b: u8) -> (r: bool)
    ensures
        r == ((a % 16) < (b % 16)),
{
    proof {
        lemma_u8_masks(a);
        lemma_u8_masks(b);
    }
    ((a & 0x0F) as u16) < ((b & 0x0F) as u16)
}

/// Half-borrow of `a - b - carry_in`. The right-hand side is widened, so a
/// low nibble of 15 plus a carry-in of 1 counts as 16 and never wraps to 0.
pub fn half_borrow_sub_with_carry(a: u8, b: u8, carry_in: bool) -> (r: bool)
    ensures
        r == ((a % 16) < (b % 16) + carry_value(carry_in)),
{
    proof {
        lemma_u8_masks(a);
        lemma_u8_masks(b);
    }
    let c: u16 = if carry_in { 1u16 } else { 0u16 };
    ((a & 0x0F) as u16) < (((b & 0x0F) as u16) + c)
}

/// Borrow of `a - b`.
pub fn borrow_sub(a: u8, b: u8) -> (r: bool)
    ensures
        r == (a < b),
{
    (a as u16) < (b as u16)
}

/// Borrow of `a - b - carry_in`.
pub fn borrow_sub_with_carry(a: u8, b: u8, carry_in: bool) -> (r: bool)
    ensures
        r == (a < b + carry_value(carry_in)),
{
    let c: u16 = if carry_in { 1u16 } else { 0u16 };
    (a as u16) < ((b as u16) + c)
}

/// Half-carry of an increment: the low nibble is about to wrap from 15 to 0.
/// An increment never touches the carry flag.
pub fn half_carry_inc(value: u8) -> (r: bool)
    ensures
        r == (value % 16 == 15),
{
    proof {
        lemma_u8_masks(value);
    }
    (value & 0x0F) == 0x0F
}

/// Half-borrow of a decrement: the low nibble is 0 and has to borrow.
/// A decrement never touches the carry flag.
pub fn half_borrow_dec(value: u8) -> (r: bool)
    ensures
        r == (value % 16 == 0),
{
    proof {
        lemma_u8_masks(value);
    }
    (value & 0x0F) == 0x00
}

/// `sp + offset` with the offset taken as a signed number, wrapping at 16 bits.
pub fn add_sp_signed(sp: u16, offset: i8) -> (r: u16)
    ensures
        r == (sp + offset) % 0x10000,
{
    sp.wrapping_add_signed(offset as i16)
}

/// Half-carry of `SP + r8`: the low nibble of `sp` plus the low nibble of the
/// immediate's unsigned byte exceeds 15.
pub fn half_carry_add_sp(sp: u16, offset: i8) -> (r: bool)
    ensures
        r == ((sp % 16) + (unsigned_byte(offset) % 16) > 15),
{
    let off: u16 = if offset >= 0 { offset as u16 } else { (offset as i16 + 256) as u16 };
    proof {
        lemma_u16_masks(sp);
        lemma_u16_masks(off);
    }
    ((sp & 0x0F) + (off & 0x0F)) > 0x0F
}

/// Carry of `SP + r8`: the low byte of `sp` plus the immediate's unsigned byte
/// exceeds 255.
pub fn carry_add_sp(sp: u16, offset: i8) -> (r: bool)
    ensures
        r == ((sp % 256) + unsigned_byte(offset) > 255),
{
    let off: u16 = if offset >= 0 { offset as u16 } else { (offset as i16 + 256) as u16 };
    proof {
        lemma_u16_masks(sp);
    }
    ((sp & 0xFF) + off) > 0xFF
}

/// Clears the low nibble, which the flag register never holds.
pub fn mask_f(value: u8) -> (r: u8)
    ensures
        r == value - value % 16,
{
    proof {
        lemma_u8_masks(value);
    }
    value & 0xF0
}

} // verus!
