//! What the arithmetic and logic unit computes: for each operation the
//! result and the flags, as functions of the operands.
//!
//! Zero is set when the result is 0. Subtract is set by the subtractions and
//! cleared by the additions and the logic operations. Half-carry is the
//! carry out of bit 3, or the borrow into bit 4; for 16-bit additions it is
//! the carry out of bit 11.

use vstd::prelude::*;
use crate::bits::{
    bit_is_set, bit_weight, lemma_one_bit, lemma_u8_masks, lemma_u8_shifts, lemma_u8_single_bits,
};
use crate::flag_helpers::{carry_value, unsigned_byte};
use crate::register::FlagsRegister;

verus! {

/// Result and flags of an 8-bit operation.
pub struct AluResult {
    pub value: u8,
    pub flags: FlagsRegister,
}

/// Result and flags of a 16-bit operation.
pub struct WideResult {
    pub value: u16,
    pub flags: FlagsRegister,
}

/// The signed number that a byte encodes in two's complement.
pub open spec fn signed(byte: u8) -> i8 {
    if byte < 128 { byte as i8 } else { (byte - 256) as i8 }
}

/// `a + b + carry_in`: the instructions `ADD` and `ADC`.
#[verifier::opaque]
pub open spec fn add8(a: u8, b: u8, carry_in: bool) -> AluResult {
    let sum = a + b + carry_value(carry_in);
    AluResult {
        value: (sum % 256) as u8,
        flags: FlagsRegister {
            zero: sum % 256 == 0,
            subtract: false,
            half_carry: a % 16 + b % 16 + carry_value(carry_in) > 15,
            carry: sum > 255,
        },
    }
}

/// `a - b - carry_in`: the instructions `SUB`, `SBC` and `CP`.
#[verifier::opaque]
pub open spec fn sub8(a: u8, b: u8, carry_in: bool) -> AluResult {
    let difference = a - b - carry_value(carry_in);
    AluResult {
        value: (difference % 256) as u8,
        flags: FlagsRegister {
            zero: difference % 256 == 0,
            subtract: true,
            half_carry: a % 16 < b % 16 + carry_value(carry_in),
            carry: a < b + carry_value(carry_in),
        },
    }
}

/// The flags after a logic operation: `AND` sets half-carry, `OR` and `XOR`
/// clear it, and all three clear carry.
pub open spec fn logic_flags(value: u8, half_carry: bool) -> FlagsRegister {
    FlagsRegister { zero: value == 0, subtract: false, half_carry, carry: false }
}

pub open spec fn and8(a: u8, b: u8) -> AluResult {
    AluResult { value: a & b, flags: logic_flags(a & b, true) }
}

pub open spec fn or8(a: u8, b: u8) -> AluResult {
    AluResult { value: a | b, flags: logic_flags(a | b, false) }
}

pub open spec fn xor8(a: u8, b: u8) -> AluResult {
    AluResult { value: a ^ b, flags: logic_flags(a ^ b, false) }
}

/// `value + 1`. Half-carry looks at the low nibble before the increment;
/// carry stays as it is.
#[verifier::opaque]
pub open spec fn inc8(value: u8, flags: FlagsRegister) -> AluResult {
    AluResult {
        value: ((value + 1) % 256) as u8,
        flags: FlagsRegister {
            zero: value == 255,
            subtract: false,
            half_carry: value % 16 == 15,
            carry: flags.carry,
        },
    }
}

/// `value - 1`. Half-carry looks at the low nibble before the decrement;
/// carry stays as it is.
#[verifier::opaque]
pub open spec fn dec8(value: u8, flags: FlagsRegister) -> AluResult {
    AluResult {
        value: ((value - 1) % 256) as u8,
        flags: FlagsRegister {
            zero: value == 1,
            subtract: true,
            half_carry: value % 16 == 0,
            carry: flags.carry,
        },
    }
}

/// `hl + value` in 16 bits: half-carry from bit 11, carry from bit 15, zero
/// as it is.
#[verifier::opaque]
pub open spec fn add16(hl: u16, value: u16, flags: FlagsRegister) -> WideResult {
    WideResult {
        value: ((hl + value) % 0x10000) as u16,
        flags: FlagsRegister {
            zero: flags.zero,
            subtract: false,
            half_carry: hl % 4096 + value % 4096 > 4095,
            carry: hl + value > 0xFFFF,
        },
    }
}

/// `sp + offset`. The result takes the offset as a signed number; the flags
/// come from adding the offset's byte, unsigned, to the low byte of `sp`.
#[verifier::opaque]
pub open spec fn add_sp(sp: u16, offset: i8) -> WideResult {
    WideResult {
        value: ((sp + offset) % 0x10000) as u16,
        flags: FlagsRegister {
            zero: false,
            subtract: false,
            half_carry: sp % 16 + unsigned_byte(offset) % 16 > 15,
            carry: sp % 256 + unsigned_byte(offset) > 255,
        },
    }
}

/// The flags after a rotate or shift.
pub open spec fn shift_flags(value: int, carry: bool) -> FlagsRegister {
    FlagsRegister { zero: value == 0, subtract: false, half_carry: false, carry }
}

/// Rotate left: bit 7 moves to bit 0 and to carry.
#[verifier::opaque]
pub open spec fn rlc8(v: u8) -> AluResult {
    let value = (v * 2) % 256 + v / 128;
    AluResult { value: value as u8, flags: shift_flags(value, v >= 128) }
}

/// Rotate right: bit 0 moves to bit 7 and to carry.
#[verifier::opaque]
pub open spec fn rrc8(v: u8) -> AluResult {
    let value = v / 2 + (v % 2) * 128;
    AluResult { value: value as u8, flags: shift_flags(value, v % 2 == 1) }
}

/// Rotate left through carry: carry moves to bit 0, bit 7 to carry.
#[verifier::opaque]
pub open spec fn rl8(v: u8, carry_in: bool) -> AluResult {
    let value = (v * 2) % 256 + carry_value(carry_in);
    AluResult { value: value as u8, flags: shift_flags(value, v >= 128) }
}

/// Rotate right through carry: carry moves to bit 7, bit 0 to carry.
#[verifier::opaque]
pub open spec fn rr8(v: u8, carry_in: bool) -> AluResult {
    let value = v / 2 + carry_value(carry_in) * 128;
    AluResult { value: value as u8, flags: shift_flags(value, v % 2 == 1) }
}

/// Shift left: bit 7 moves to carry, bit 0 becomes 0.
#[verifier::opaque]
pub open spec fn sla8(v: u8) -> AluResult {
    let value = (v * 2) % 256;
    AluResult { value: value as u8, flags: shift_flags(value, v >= 128) }
}

/// Shift right, keeping bit 7: bit 0 moves to carry.
#[verifier::opaque]
pub open spec fn sra8(v: u8) -> AluResult {
    let value = v / 2 + (v / 128) * 128;
    AluResult { value: value as u8, flags: shift_flags(value, v % 2 == 1) }
}

/// Shift right: bit 0 moves to carry, bit 7 becomes 0.
#[verifier::opaque]
pub open spec fn srl8(v: u8) -> AluResult {
    let value = v / 2;
    AluResult { value: value as u8, flags: shift_flags(value as int, v % 2 == 1) }
}

/// Exchange of the two nibbles.
#[verifier::opaque]
pub open spec fn swap8(v: u8) -> AluResult {
    let value = (v % 16) * 16 + v / 16;
    AluResult { value: value as u8, flags: shift_flags(value, false) }
}

/// The flags after a test of bit `n`: zero is set when the bit is clear, and
/// carry stays as it is.
#[verifier::opaque]
pub open spec fn bit_flags(n: int, v: u8, flags: FlagsRegister) -> FlagsRegister {
    FlagsRegister {
        zero: !bit_is_set(v, n),
        subtract: false,
        half_carry: true,
        carry: flags.carry,
    }
}

/// The byte with bit `n` cleared.
#[verifier::opaque]
pub open spec fn res8(n: int, v: u8) -> u8 {
    if bit_is_set(v, n) { (v - bit_weight(n)) as u8 } else { v }
}

/// The byte with bit `n` set.
#[verifier::opaque]
pub open spec fn set8(n: int, v: u8) -> u8 {
    if bit_is_set(v, n) { v } else { (v + bit_weight(n)) as u8 }
}

/// What the decimal adjustment adds (after an addition) or subtracts (after
/// a subtraction): 0x06 for the low digit, 0x60 for the high digit.
///
/// After an addition a digit is corrected when its carry is set or the digit
/// is out of range: low nibble above 9, accumulator above 0x99. After a
/// subtraction only the carries count.
pub open spec fn daa_adjustment(a: u8, flags: FlagsRegister) -> int {
    let low = flags.half_carry || (!flags.subtract && a % 16 > 9);
    let high = flags.carry || (!flags.subtract && a > 0x99);
    (if low { 0x06int } else { 0 }) + (if high { 0x60int } else { 0 })
}

/// The decimal adjustment of the accumulator. Carry is set when an addition
/// needed the high correction, and is otherwise left alone; half-carry is
/// cleared.
#[verifier::opaque]
pub open spec fn daa8(a: u8, flags: FlagsRegister) -> AluResult {
    let adjustment = daa_adjustment(a, flags);
    let value = if flags.subtract { (a - adjustment) % 256 } else { (a + adjustment) % 256 };
    AluResult {
        value: value as u8,
        flags: FlagsRegister {
            zero: value == 0,
            subtract: flags.subtract,
            half_carry: false,
            carry: flags.carry || (!flags.subtract && a > 0x99),
        },
    }
}

/// The complement of the accumulator; subtract and half-carry are set.
#[verifier::opaque]
pub open spec fn cpl8(a: u8, flags: FlagsRegister) -> AluResult {
    AluResult {
        value: (255 - a) as u8,
        flags: FlagsRegister { subtract: true, half_carry: true, ..flags },
    }
}

/// The flags after carry is set (`complement` false) or complemented.
pub open spec fn carry_flags(flags: FlagsRegister, complement: bool) -> FlagsRegister {
    FlagsRegister {
        zero: flags.zero,
        subtract: false,
        half_carry: false,
        carry: if complement { !flags.carry } else { true },
    }
}

/// Reduction to eight bits of a number that is off by less than 256.
pub proof fn lemma_wrapped(x: int)
    requires
        -256 <= x < 512,
    ensures
        x % 256 == (if x < 0 {
            x + 256
        } else if x > 255 {
            x - 256
        } else {
            x
        }),
{
}

/// What the shifts and rotates of the executable code compute. `c` is a
/// carry of 0 or 1.
pub proof fn lemma_shifts_compute(v: u8, c: u8)
    requires
        c <= 1,
    ensures
        (v << 1u8) | (v >> 7u8) == rlc8(v).value,
        (v >> 1u8) | (v << 7u8) == rrc8(v).value,
        (v << 1u8) | c == rl8(v, c == 1).value,
        (v >> 1u8) | (c << 7u8) == rr8(v, c == 1).value,
        v << 1u8 == sla8(v).value,
        (v >> 1u8) | (v & 0x80) == sra8(v).value,
        v >> 1u8 == srl8(v).value,
        (v << 4u8) | (v >> 4u8) == swap8(v).value,
        !v == 255 - v,
        (v & 0x80 != 0) == (v >= 128),
        (v & 0x01 != 0) == (v % 2 == 1),
{
    reveal(rlc8);
    reveal(rrc8);
    reveal(rl8);
    reveal(rr8);
    reveal(sla8);
    reveal(sra8);
    reveal(srl8);
    reveal(swap8);
    lemma_u8_shifts(v, c);
    lemma_u8_masks(v);
    assert((v * 2) % 256 == (v % 128) * 2);
}

/// An addition sets carry exactly when the sum exceeds 255, half-carry
/// exactly when the low nibbles sum to more than 15, and zero exactly when
/// the low eight bits of the sum are 0; it clears subtract.
pub proof fn lemma_add_flags(a: u8, b: u8)
    ensures
        add8(a, b, false).flags.carry <==> a + b > 255,
        add8(a, b, false).flags.half_carry <==> (a % 16) + (b % 16) > 15,
        add8(a, b, false).flags.zero <==> (a + b) % 256 == 0,
        !add8(a, b, false).flags.subtract,
        add8(a, b, false).value == (a + b) % 256,
{
    reveal(add8);
}

/// A subtraction or comparison sets half-carry exactly when the low nibble
/// of the accumulator is the smaller one, carry exactly when the accumulator
/// is the smaller one, and zero exactly when the operands are equal; it sets
/// subtract.
pub proof fn lemma_sub_flags(a: u8, b: u8)
    ensures
        sub8(a, b, false).flags.half_carry <==> a % 16 < b % 16,
        sub8(a, b, false).flags.carry <==> a < b,
        sub8(a, b, false).flags.zero <==> a == b,
        sub8(a, b, false).flags.subtract,
        sub8(a, b, false).value == (if a >= b { a - b } else { a - b + 256 }),
{
    reveal(sub8);
}

/// A subtraction undoes an addition of the same operand, and an increment
/// undoes a decrement.
pub proof fn lemma_inverse_operations(a: u8, b: u8, flags: FlagsRegister)
    ensures
        sub8(add8(a, b, false).value, b, false).value == a,
        add8(sub8(a, b, false).value, b, false).value == a,
        dec8(inc8(a, flags).value, flags).value == a,
        inc8(dec8(a, flags).value, flags).value == a,
        inc8(a, flags).flags.carry == flags.carry,
        dec8(a, flags).flags.carry == flags.carry,
{
    reveal(add8);
    reveal(sub8);
    reveal(inc8);
    reveal(dec8);
    lemma_wrapped(a + b);
    lemma_wrapped(a - b);
    lemma_wrapped(add8(a, b, false).value - b);
    lemma_wrapped(sub8(a, b, false).value + b);
    lemma_wrapped(a + 1);
    lemma_wrapped(a - 1);
    lemma_wrapped(inc8(a, flags).value - 1);
    lemma_wrapped(dec8(a, flags).value + 1);
}

/// Rotating left and then right gives the byte back, and so does swapping
/// the nibbles twice.
pub proof fn lemma_rotations_invert(v: u8)
    ensures
        rrc8(rlc8(v).value).value == v,
        rlc8(rrc8(v).value).value == v,
        swap8(swap8(v).value).value == v,
{
    reveal(rlc8);
    reveal(rrc8);
    reveal(swap8);
}

/// Setting a bit is an or with its mask, clearing it an and with the
/// mask's complement.
pub proof fn lemma_bit_masks(n: int, v: u8)
    requires
        0 <= n < 8,
    ensures
        set8(n, v) == v | bit_weight(n) as u8,
        res8(n, v) == v & !(bit_weight(n) as u8),
        bit_is_set(v, n) == (v & bit_weight(n) as u8 != 0),
{
    reveal(res8);
    reveal(set8);
    lemma_u8_single_bits(v);
}

/// Setting a bit makes its test find it set, clearing it makes the test find
/// it clear, and neither changes another bit.
pub proof fn lemma_single_bits(n: int, m: int, v: u8)
    requires
        0 <= n < 8,
        0 <= m < 8,
    ensures
        bit_is_set(set8(n, v), n),
        !bit_is_set(res8(n, v), n),
        m != n ==> bit_is_set(set8(n, v), m) == bit_is_set(v, m),
        m != n ==> bit_is_set(res8(n, v), m) == bit_is_set(v, m),
{
    let mask_n = bit_weight(n) as u8;
    let mask_m = bit_weight(m) as u8;
    lemma_bit_masks(n, v);
    lemma_bit_masks(n, set8(n, v));
    lemma_bit_masks(n, res8(n, v));
    lemma_bit_masks(m, v);
    lemma_bit_masks(m, set8(n, v));
    lemma_bit_masks(m, res8(n, v));
    lemma_one_bit(v, mask_n, mask_m);
}

/// Whether both nibbles of a byte are decimal digits.
pub open spec fn is_packed_decimal(x: u8) -> bool {
    x / 16 <= 9 && x % 16 <= 9
}

/// The number between 0 and 99 that a byte of two decimal digits stands for.
pub open spec fn decimal_value(x: u8) -> int {
    (x / 16) * 10 + x % 16
}

/// The nibbles of a number that is given by them.
proof fn lemma_nibbles(x: int, high: int, low: int)
    requires
        x == 16 * high + low,
        0 <= low < 16,
    ensures
        x / 16 == high,
        x % 16 == low,
{
}

/// The remainder modulo 100 of a number that is off by a known multiple.
proof fn lemma_hundreds(x: int, q: int)
    requires
        0 <= x - 100 * q < 100,
    ensures
        x % 100 == x - 100 * q,
{
}

/// The decimal adjustment after an addition of two packed decimals gives
/// the packed decimal of their sum, and carry tells whether the sum reached
/// 100.
pub proof fn lemma_decimal_addition(a: u8, b: u8, carry_in: bool)
    requires
        is_packed_decimal(a),
        is_packed_decimal(b),
    ensures
        is_packed_decimal(daa8(add8(a, b, carry_in).value, add8(a, b, carry_in).flags).value),
        decimal_value(daa8(add8(a, b, carry_in).value, add8(a, b, carry_in).flags).value) == (
        decimal_value(a) + decimal_value(b) + carry_value(carry_in)) % 100,
        daa8(add8(a, b, carry_in).value, add8(a, b, carry_in).flags).flags.carry == (
        decimal_value(a) + decimal_value(b) + carry_value(carry_in) >= 100),
{
    reveal(add8);
    let ah = a as int / 16;
    let al = a as int % 16;
    let bh = b as int / 16;
    let bl = b as int % 16;
    let c = carry_value(carry_in);
    // The binary sum, nibble by nibble.
    let low = al + bl + c;
    let nibble_carry: int = if low >= 16 { 1 } else { 0 };
    let l1 = low - 16 * nibble_carry;
    let h1 = ah + bh + nibble_carry;
    let wrap: int = if h1 >= 16 { 1 } else { 0 };
    let sum = a + b + c;
    assert(sum == 16 * h1 + l1);
    lemma_wrapped(sum);
    let r = add8(a, b, carry_in);
    assert(r.value == 16 * (h1 - 16 * wrap) + l1);
    lemma_nibbles(r.value as int, h1 - 16 * wrap, l1);
    lemma_nibbles(a as int, ah, al);
    lemma_nibbles(b as int, bh, bl);
    assert(r.flags.half_carry == (nibble_carry == 1));
    assert(r.flags.carry == (wrap == 1));
    assert(!r.flags.subtract);
    // The decimal sum, digit by digit.
    let tens: int = if low > 9 { 1 } else { 0 };
    let digit = low - 10 * tens;
    let high = ah + bh + tens;
    let hundreds: int = if high >= 10 { 1 } else { 0 };
    lemma_hundreds(decimal_value(a) + decimal_value(b) + c, hundreds);
    // The adjustment.
    reveal(daa8);
    let adjustment = daa_adjustment(r.value, r.flags);
    assert(adjustment == 6 * tens + 96 * hundreds);
    let adjusted = r.value + adjustment;
    assert(adjusted == 16 * (high - 10 * hundreds) + digit + 256 * (hundreds - wrap));
    lemma_wrapped(adjusted);
    let d = daa8(r.value, r.flags);
    assert(d.value == 16 * (high - 10 * hundreds) + digit);
    lemma_nibbles(d.value as int, high - 10 * hundreds, digit);
}

/// The decimal adjustment after a subtraction of two packed decimals gives
/// the packed decimal of their difference, counted modulo 100, and carry
/// tells whether the subtraction borrowed.
pub proof fn lemma_decimal_subtraction(a: u8, b: u8, carry_in: bool)
    requires
        is_packed_decimal(a),
        is_packed_decimal(b),
    ensures
        is_packed_decimal(daa8(sub8(a, b, carry_in).value, sub8(a, b, carry_in).flags).value),
        decimal_value(daa8(sub8(a, b, carry_in).value, sub8(a, b, carry_in).flags).value) == (
        decimal_value(a) - decimal_value(b) - carry_value(carry_in)) % 100,
        daa8(sub8(a, b, carry_in).value, sub8(a, b, carry_in).flags).flags.carry == (
        decimal_value(a) < decimal_value(b) + carry_value(carry_in)),
{
    reveal(sub8);
    let ah = a as int / 16;
    let al = a as int % 16;
    let bh = b as int / 16;
    let bl = b as int % 16;
    let c = carry_value(carry_in);
    // The binary difference, nibble by nibble.
    let low = al - bl - c;
    let nibble_borrow: int = if low < 0 { 1 } else { 0 };
    let l1 = low + 16 * nibble_borrow;
    let high = ah - bh - nibble_borrow;
    let borrow: int = if high < 0 { 1 } else { 0 };
    let difference = a - b - c;
    assert(difference == 16 * high + l1);
    lemma_wrapped(difference);
    let r = sub8(a, b, carry_in);
    assert(r.value == 16 * (high + 16 * borrow) + l1);
    lemma_nibbles(r.value as int, high + 16 * borrow, l1);
    lemma_nibbles(a as int, ah, al);
    lemma_nibbles(b as int, bh, bl);
    assert(r.flags.half_carry == (nibble_borrow == 1));
    assert(r.flags.carry == (borrow == 1));
    assert(r.flags.subtract);
    lemma_hundreds(decimal_value(a) - decimal_value(b) - c, -borrow);
    // The adjustment.
    reveal(daa8);
    let adjustment = daa_adjustment(r.value, r.flags);
    assert(adjustment == 6 * nibble_borrow + 96 * borrow);
    let adjusted = r.value - adjustment;
    assert(adjusted == 16 * (high + 10 * borrow) + low + 10 * nibble_borrow);
    lemma_wrapped(adjusted);
    let d = daa8(r.value, r.flags);
    lemma_nibbles(d.value as int, high + 10 * borrow, low + 10 * nibble_borrow);
}

} // verus!
