//! The arithmetic and logic operations, as the CPU performs them on its
//! registers.
//!
//! Each operation takes its operand as a value, sets the flags, and returns
//! the result; where the result goes is the caller's business.

use vstd::prelude::*;
use crate::alu::{
    add16, add8, add_sp, and8, bit_flags, carry_flags, cpl8, daa8, daa_adjustment, dec8, inc8,
    lemma_shifts_compute, lemma_wrapped, logic_flags, or8, rl8, rlc8, rr8, rrc8, signed, sla8, sra8, srl8, sub8,
    swap8, xor8,
};
use crate::bits::{lemma_u16_masks, lemma_u8_masks, lemma_u8_single_bits, single_bit};
use crate::cpu::semantics::wrap16;
use crate::cpu::CPU;
use crate::flag_helpers::{
    add_sp_signed, borrow_sub, borrow_sub_with_carry, carry_add, carry_add_sp,
    carry_add_with_carry, half_borrow_dec, half_borrow_sub, half_borrow_sub_with_carry,
    half_carry_add, half_carry_add_sp, half_carry_add_with_carry, half_carry_inc,
};
use crate::register::{FlagsRegister, Register16, Registers};

verus! {

/// The signed number that a byte encodes.
pub fn to_signed(byte: u8) -> (r: i8)
    ensures
        r == signed(byte),
{
    if byte < 128 {
        byte as i8
    } else {
        (byte as i16 - 256) as i8
    }
}

/// The 16-bit sum of two words, its carry out of bit 11 and its carry out of
/// bit 15.
pub fn wide_sum(hl: u16, value: u16) -> (r: (u16, bool, bool))
    ensures
        r.0 == (hl + value) % 0x10000,
        r.1 == (hl % 4096 + value % 4096 > 4095),
        r.2 == (hl + value > 0xFFFF),
{
    proof {
        lemma_u16_masks(hl);
        lemma_u16_masks(value);
    }
    let half_carry = (hl & 0x0FFF) + (value & 0x0FFF) > 0x0FFF;
    let carry = (hl as u32) + (value as u32) > 0xFFFF;
    (hl.wrapping_add(value), half_carry, carry)
}

/// The decimal adjustment of an accumulator, and the carry it leaves.
pub fn decimal_adjusted(a: u8, flags: FlagsRegister) -> (r: (u8, bool))
    ensures
        r.0 == daa8(a, flags).value,
        r.1 == daa8(a, flags).flags.carry,
{
    proof {
        reveal(daa8);
    }
    proof {
        lemma_u8_masks(a);
    }
    let low = flags.half_carry || (!flags.subtract && (a & 0x0F) > 0x09);
    let high = flags.carry || (!flags.subtract && a > 0x99);
    let mut adjustment: u8 = 0;
    if low {
        adjustment = adjustment + 0x06;
    }
    if high {
        adjustment = adjustment + 0x60;
    }
    assert(adjustment == daa_adjustment(a, flags));
    let value: u8 = if flags.subtract {
        a.wrapping_sub(adjustment)
    } else {
        a.wrapping_add(adjustment)
    };
    proof {
        lemma_wrapped(a - adjustment);
        lemma_wrapped(a + adjustment);
    }
    (value, high)
}

impl CPU {
    /// Sets the flags after a logic operation.
    pub fn set_logic_flags(&mut self, result: u8, half_carry: bool)
        ensures
            *final(self) == old(self).with_flags(logic_flags(result, half_carry)),
    {
        self.registers.f.zero = result == 0;
        self.registers.f.subtract = false;
        self.registers.f.half_carry = half_carry;
        self.registers.f.carry = false;
    }

    /// Sets all four flags; zero is taken from the result.
    pub fn set_arithmetic_flags(&mut self, result: u8, subtract: bool, carry: bool, half_carry: bool)
        ensures
            *final(self) == old(self).with_flags(
                FlagsRegister { zero: result == 0, subtract, half_carry, carry },
            ),
    {
        self.registers.f.zero = result == 0;
        self.registers.f.subtract = subtract;
        self.registers.f.carry = carry;
        self.registers.f.half_carry = half_carry;
    }

    /// `A + value`. Carry is set exactly when the sum exceeds 255, half-carry
    /// exactly when the low nibbles sum to more than 15, zero exactly when
    /// the low eight bits of the sum are 0; subtract is cleared.
    pub fn add(&mut self, value: u8) -> (r: u8)
        ensures
            r == add8(old(self).registers.a, value, false).value,
            *final(self) == old(self).with_flags(add8(old(self).registers.a, value, false).flags),
            r == (old(self).registers.a + value) % 256,
            final(self).registers.f.carry <==> old(self).registers.a + value > 255,
            final(self).registers.f.half_carry <==> old(self).registers.a % 16 + value % 16 > 15,
            final(self).registers.f.zero <==> (old(self).registers.a + value) % 256 == 0,
            !final(self).registers.f.subtract,
    {
        proof {
            reveal(add8);
        }
        let a: u8 = self.registers.a;
        let new_value: u8 = a.wrapping_add(value);
        self.set_arithmetic_flags(new_value, false, carry_add(a, value), half_carry_add(a, value));
        new_value
    }

    /// `A + value + carry`.
    pub fn adc(&mut self, value: u8) -> (r: u8)
        ensures
            r == add8(old(self).registers.a, value, old(self).registers.f.carry).value,
            *final(self) == old(self).with_flags(
                add8(old(self).registers.a, value, old(self).registers.f.carry).flags,
            ),
    {
        proof {
            reveal(add8);
        }
        let a: u8 = self.registers.a;
        let carry_in = self.registers.f.carry;
        let carry: u8 = if carry_in { 1 } else { 0 };
        let new_value: u8 = a.wrapping_add(value).wrapping_add(carry);
        self.set_arithmetic_flags(
            new_value,
            false,
            carry_add_with_carry(a, value, carry_in),
            half_carry_add_with_carry(a, value, carry_in),
        );
        new_value
    }

    /// `A - value`. Half-carry is set exactly when the low nibble of `A` is
    /// less than that of the operand, carry exactly when `A` is less than the
    /// operand; subtract is set.
    pub fn sub(&mut self, value: u8) -> (r: u8)
        ensures
            r == sub8(old(self).registers.a, value, false).value,
            *final(self) == old(self).with_flags(sub8(old(self).registers.a, value, false).flags),
            final(self).registers.f.half_carry <==> old(self).registers.a % 16 < value % 16,
            final(self).registers.f.carry <==> old(self).registers.a < value,
            final(self).registers.f.subtract,
    {
        proof {
            reveal(sub8);
        }
        let a: u8 = self.registers.a;
        let new_value: u8 = a.wrapping_sub(value);
        self.set_arithmetic_flags(new_value, true, borrow_sub(a, value), half_borrow_sub(a, value));
        new_value
    }

    /// `A - value - carry`.
    pub fn sbc(&mut self, value: u8) -> (r: u8)
        ensures
            r == sub8(old(self).registers.a, value, old(self).registers.f.carry).value,
            *final(self) == old(self).with_flags(
                sub8(old(self).registers.a, value, old(self).registers.f.carry).flags,
            ),
    {
        proof {
            reveal(sub8);
        }
        let a: u8 = self.registers.a;
        let carry_in = self.registers.f.carry;
        let carry: u8 = if carry_in { 1 } else { 0 };
        let new_value: u8 = a.wrapping_sub(value).wrapping_sub(carry);
        self.set_arithmetic_flags(
            new_value,
            true,
            borrow_sub_with_carry(a, value, carry_in),
            half_borrow_sub_with_carry(a, value, carry_in),
        );
        new_value
    }

    /// `A & value`; half-carry is set, carry cleared.
    pub fn and(&mut self, value: u8) -> (r: u8)
        ensures
            r == and8(old(self).registers.a, value).value,
            *final(self) == old(self).with_flags(and8(old(self).registers.a, value).flags),
    {
        let new_value: u8 = self.registers.a & value;
        self.set_logic_flags(new_value, true);
        new_value
    }

    /// `A | value`; half-carry and carry are cleared.
    pub fn or(&mut self, value: u8) -> (r: u8)
        ensures
            r == or8(old(self).registers.a, value).value,
            *final(self) == old(self).with_flags(or8(old(self).registers.a, value).flags),
    {
        let new_value: u8 = self.registers.a | value;
        self.set_logic_flags(new_value, false);
        new_value
    }

    /// `A ^ value`; half-carry and carry are cleared.
    pub fn xor(&mut self, value: u8) -> (r: u8)
        ensures
            r == xor8(old(self).registers.a, value).value,
            *final(self) == old(self).with_flags(xor8(old(self).registers.a, value).flags),
    {
        let new_value: u8 = self.registers.a ^ value;
        self.set_logic_flags(new_value, false);
        new_value
    }

    /// Compares `A` with a value: the flags of `A - value`, with `A` left as
    /// it is.
    pub fn cp(&mut self, value: u8)
        ensures
            *final(self) == old(self).with_flags(sub8(old(self).registers.a, value, false).flags),
            final(self).registers.a == old(self).registers.a,
            final(self).registers.f.half_carry <==> old(self).registers.a % 16 < value % 16,
            final(self).registers.f.carry <==> old(self).registers.a < value,
            final(self).registers.f.zero <==> old(self).registers.a == value,
    {
        proof {
            reveal(sub8);
        }
        let a: u8 = self.registers.a;
        let result: u8 = a.wrapping_sub(value);
        self.set_arithmetic_flags(result, true, borrow_sub(a, value), half_borrow_sub(a, value));
    }

    /// `value + 1`; carry is left as it is.
    pub fn inc_8bit(&mut self, value: u8) -> (r: u8)
        ensures
            r == inc8(value, old(self).registers.f).value,
            *final(self) == old(self).with_flags(inc8(value, old(self).registers.f).flags),
    {
        proof {
            reveal(inc8);
        }
        let new_value: u8 = value.wrapping_add(1);
        self.registers.f.zero = new_value == 0;
        self.registers.f.subtract = false;
        self.registers.f.half_carry = half_carry_inc(value);
        new_value
    }

    /// `value - 1`; carry is left as it is.
    pub fn dec_8bit(&mut self, value: u8) -> (r: u8)
        ensures
            r == dec8(value, old(self).registers.f).value,
            *final(self) == old(self).with_flags(dec8(value, old(self).registers.f).flags),
    {
        proof {
            reveal(dec8);
        }
        let new_value: u8 = value.wrapping_sub(1);
        self.registers.f.zero = new_value == 0;
        self.registers.f.subtract = true;
        self.registers.f.half_carry = half_borrow_dec(value);
        new_value
    }

    /// Increments a 16-bit register; no flag changes.
    pub fn inc_16bit(&mut self, reg: Register16)
        ensures
            *final(self) == old(self).with_registers(
                old(self).registers.with_reg16(reg, wrap16(old(self).registers.reg16(reg) + 1)),
            ),
    {
        proof {
            reveal(wrap16);
        }
        match reg {
            Register16::SP => self.registers.sp = self.registers.sp.wrapping_add(1),
            _ => {
                let value: u16 = self.registers.read_16bit(reg);
                self.registers.write_16bit(reg, value.wrapping_add(1));
            },
        }
    }

    /// Decrements a 16-bit register; no flag changes.
    pub fn dec_16bit(&mut self, reg: Register16)
        ensures
            *final(self) == old(self).with_registers(
                old(self).registers.with_reg16(reg, wrap16(old(self).registers.reg16(reg) - 1)),
            ),
    {
        proof {
            reveal(wrap16);
        }
        match reg {
            Register16::SP => self.registers.sp = self.registers.sp.wrapping_sub(1),
            _ => {
                let value: u16 = self.registers.read_16bit(reg);
                self.registers.write_16bit(reg, value.wrapping_sub(1));
            },
        }
    }

    /// `HL + value`: sets `HL` and the flags but zero.
    pub fn add_hl(&mut self, value: u16)
        ensures
            *final(self) == old(self).with_registers(
                Registers {
                    f: add16(old(self).registers.hl(), value, old(self).registers.f).flags,
                    ..old(self).registers.with_hl(
                        add16(old(self).registers.hl(), value, old(self).registers.f).value,
                    )
                },
            ),
    {
        proof {
            reveal(add16);
        }
        let hl: u16 = self.registers.get_hl();
        let sum = wide_sum(hl, value);
        self.registers.set_hl(sum.0);
        self.registers.f.subtract = false;
        self.registers.f.half_carry = sum.1;
        self.registers.f.carry = sum.2;
    }

    /// `SP + offset` for the byte of a signed offset: sets the flags and
    /// returns the sum.
    pub fn add_sp_offset(&mut self, offset: u8) -> (r: u16)
        ensures
            r == add_sp(old(self).registers.sp, signed(offset)).value,
            *final(self) == old(self).with_flags(add_sp(old(self).registers.sp, signed(offset)).flags),
    {
        proof {
            reveal(add_sp);
        }
        let sp: u16 = self.registers.sp;
        let signed_offset: i8 = to_signed(offset);
        self.registers.f.zero = false;
        self.registers.f.subtract = false;
        self.registers.f.half_carry = half_carry_add_sp(sp, signed_offset);
        self.registers.f.carry = carry_add_sp(sp, signed_offset);
        add_sp_signed(sp, signed_offset)
    }

    /// Sets the flags after a rotate or shift.
    pub fn set_shift_flags(&mut self, result: u8, carry: bool)
        ensures
            *final(self) == old(self).with_flags(
                FlagsRegister { zero: result == 0, subtract: false, half_carry: false, carry },
            ),
    {
        self.set_arithmetic_flags(result, false, carry, false);
    }

    /// Rotates left; bit 7 goes to bit 0 and to carry.
    pub fn rlc(&mut self, value: u8) -> (r: u8)
        ensures
            r == rlc8(value).value,
            *final(self) == old(self).with_flags(rlc8(value).flags),
    {
        proof {
            reveal(rlc8);
        }
        proof {
            lemma_shifts_compute(value, 0);
        }
        let result: u8 = (value << 1) | (value >> 7);
        self.set_shift_flags(result, value & 0x80 != 0);
        result
    }

    /// Rotates right; bit 0 goes to bit 7 and to carry.
    pub fn rrc(&mut self, value: u8) -> (r: u8)
        ensures
            r == rrc8(value).value,
            *final(self) == old(self).with_flags(rrc8(value).flags),
    {
        proof {
            reveal(rrc8);
        }
        proof {
            lemma_shifts_compute(value, 0);
        }
        let result: u8 = (value >> 1) | (value << 7);
        self.set_shift_flags(result, value & 0x01 != 0);
        result
    }

    /// Rotates left through carry.
    pub fn rl(&mut self, value: u8) -> (r: u8)
        ensures
            r == rl8(value, old(self).registers.f.carry).value,
            *final(self) == old(self).with_flags(rl8(value, old(self).registers.f.carry).flags),
    {
        proof {
            reveal(rl8);
        }
        let carry: u8 = if self.registers.f.carry { 1 } else { 0 };
        proof {
            lemma_shifts_compute(value, carry);
        }
        let result: u8 = (value << 1) | carry;
        self.set_shift_flags(result, value & 0x80 != 0);
        result
    }

    /// Rotates right through carry.
    pub fn rr(&mut self, value: u8) -> (r: u8)
        ensures
            r == rr8(value, old(self).registers.f.carry).value,
            *final(self) == old(self).with_flags(rr8(value, old(self).registers.f.carry).flags),
    {
        proof {
            reveal(rr8);
        }
        let carry: u8 = if self.registers.f.carry { 1 } else { 0 };
        proof {
            lemma_shifts_compute(value, carry);
        }
        let result: u8 = (value >> 1) | (carry << 7);
        self.set_shift_flags(result, value & 0x01 != 0);
        result
    }

    /// Shifts left; bit 0 becomes 0.
    pub fn sla(&mut self, value: u8) -> (r: u8)
        ensures
            r == sla8(value).value,
            *final(self) == old(self).with_flags(sla8(value).flags),
    {
        proof {
            reveal(sla8);
        }
        proof {
            lemma_shifts_compute(value, 0);
        }
        let result: u8 = value << 1;
        self.set_shift_flags(result, value & 0x80 != 0);
        result
    }

    /// Shifts right; bit 7 keeps its value.
    pub fn sra(&mut self, value: u8) -> (r: u8)
        ensures
            r == sra8(value).value,
            *final(self) == old(self).with_flags(sra8(value).flags),
    {
        proof {
            reveal(sra8);
        }
        proof {
            lemma_shifts_compute(value, 0);
        }
        let result: u8 = (value >> 1) | (value & 0x80);
        self.set_shift_flags(result, value & 0x01 != 0);
        result
    }

    /// Shifts right; bit 7 becomes 0.
    pub fn srl(&mut self, value: u8) -> (r: u8)
        ensures
            r == srl8(value).value,
            *final(self) == old(self).with_flags(srl8(value).flags),
    {
        proof {
            reveal(srl8);
        }
        proof {
            lemma_shifts_compute(value, 0);
        }
        let result: u8 = value >> 1;
        self.set_shift_flags(result, value & 0x01 != 0);
        result
    }

    /// Exchanges the nibbles.
    pub fn swap(&mut self, value: u8) -> (r: u8)
        ensures
            r == swap8(value).value,
            *final(self) == old(self).with_flags(swap8(value).flags),
    {
        proof {
            reveal(swap8);
        }
        proof {
            lemma_shifts_compute(value, 0);
        }
        let result: u8 = (value << 4) | (value >> 4);
        self.set_shift_flags(result, false);
        result
    }

    /// Tests bit `bit % 8` of a value: zero is set when the bit is clear.
    pub fn bit(&mut self, bit: u8, value: u8)
        ensures
            *final(self) == old(self).with_flags(
                bit_flags((bit % 8) as int, value, old(self).registers.f),
            ),
    {
        proof {
            reveal(bit_flags);
        }
        let mask: u8 = single_bit(bit);
        proof {
            lemma_u8_single_bits(value);
        }
        self.registers.f.zero = value & mask == 0;
        self.registers.f.subtract = false;
        self.registers.f.half_carry = true;
    }

    /// Adjusts `A` to packed decimal after an addition or subtraction of
    /// packed decimals.
    pub fn daa(&mut self) -> (r: u8)
        ensures
            r == daa8(old(self).registers.a, old(self).registers.f).value,
            *final(self) == old(self).with_flags(
                daa8(old(self).registers.a, old(self).registers.f).flags,
            ),
    {
        proof {
            reveal(daa8);
        }
        let adjusted = decimal_adjusted(self.registers.a, self.registers.f);
        self.registers.f.zero = adjusted.0 == 0;
        self.registers.f.half_carry = false;
        self.registers.f.carry = adjusted.1;
        adjusted.0
    }

    /// Complements `A`; subtract and half-carry are set.
    pub fn cpl(&mut self) -> (r: u8)
        ensures
            r == cpl8(old(self).registers.a, old(self).registers.f).value,
            *final(self) == old(self).with_flags(
                cpl8(old(self).registers.a, old(self).registers.f).flags,
            ),
    {
        proof {
            reveal(cpl8);
        }
        proof {
            lemma_shifts_compute(self.registers.a, 0);
        }
        self.registers.f.subtract = true;
        self.registers.f.half_carry = true;
        !self.registers.a
    }

    /// Sets carry; subtract and half-carry are cleared.
    pub fn scf(&mut self)
        ensures
            *final(self) == old(self).with_flags(carry_flags(old(self).registers.f, false)),
    {
        self.registers.f.subtract = false;
        self.registers.f.half_carry = false;
        self.registers.f.carry = true;
    }

    /// Complements carry; subtract and half-carry are cleared.
    pub fn ccf(&mut self)
        ensures
            *final(self) == old(self).with_flags(carry_flags(old(self).registers.f, true)),
    {
        self.registers.f.subtract = false;
        self.registers.f.half_carry = false;
        self.registers.f.carry = !self.registers.f.carry;
    }
}

} // verus!
