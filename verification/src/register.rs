//! The register file: seven 8-bit registers, four condition flags, the
//! stack pointer and the program counter.
//!
//! The 16-bit pairs `BC`, `DE`, `HL` and `AF` are views of two 8-bit halves
//! and are never stored on their own. The flags occupy the top nibble of the
//! low byte of `AF`; its low nibble is always zero.

use vstd::prelude::*;
use crate::bits::{lemma_u8_masks, lemma_u16_masks, lemma_u16_join};

verus! {

/// The four condition flags.
///
/// As a byte: bit 7 zero, bit 6 subtract, bit 5 half-carry, bit 4 carry.
#[derive(Debug, Clone, Copy)]
pub struct FlagsRegister {
    pub zero: bool,
    pub subtract: bool,
    pub half_carry: bool,
    pub carry: bool,
}

/// An 8-bit register.
#[derive(Debug, Clone, Copy)]
pub enum Register8 {
    A,
    B,
    C,
    D,
    E,
    H,
    L,
}

/// A 16-bit register that 16-bit arithmetic can name.
#[derive(Debug, Clone, Copy)]
pub enum Register16 {
    BC,
    DE,
    HL,
    SP,
}

/// The value of a set flag at a given weight.
pub open spec fn flag_weight(flag: bool, weight: int) -> int {
    if flag { weight } else { 0 }
}

impl FlagsRegister {
    /// The flags as the byte that a program sees in the low half of `AF`.
    pub open spec fn byte(self) -> u8 {
        (flag_weight(self.zero, 128) + flag_weight(self.subtract, 64)
            + flag_weight(self.half_carry, 32) + flag_weight(self.carry, 16)) as u8
    }

    /// The flags that a byte holds in its top nibble.
    pub open spec fn of_byte(byte: u8) -> FlagsRegister {
        FlagsRegister {
            zero: byte >= 128,
            subtract: (byte / 64) % 2 == 1,
            half_carry: (byte / 32) % 2 == 1,
            carry: (byte / 16) % 2 == 1,
        }
    }

    /// Packs the flags into a byte whose low nibble is zero.
    pub fn to_byte(&self) -> (r: u8)
        ensures
            r == self.byte(),
            r % 16 == 0,
    {
        let z: u8 = if self.zero { 0x80 } else { 0 };
        let n: u8 = if self.subtract { 0x40 } else { 0 };
        let h: u8 = if self.half_carry { 0x20 } else { 0 };
        let c: u8 = if self.carry { 0x10 } else { 0 };
        z + n + h + c
    }

    /// Reads the flags from the top nibble of a byte; the low nibble is ignored.
    pub fn from_byte(byte: u8) -> (r: FlagsRegister)
        ensures
            r == Self::of_byte(byte),
    {
        proof {
            lemma_u8_masks(byte);
        }
        FlagsRegister {
            zero: byte & 0x80 != 0,
            subtract: byte & 0x40 != 0,
            half_carry: byte & 0x20 != 0,
            carry: byte & 0x10 != 0,
        }
    }

    /// Unpacking a packed set of flags gives the same flags back.
    pub proof fn lemma_of_byte_of_flags(self)
        ensures
            Self::of_byte(self.byte()) == self,
    {
    }

    /// Packing the flags of a byte gives that byte with its low nibble cleared.
    pub proof fn lemma_byte_of_byte(byte: u8)
        ensures
            Self::of_byte(byte).byte() == byte - byte % 16,
    {
    }
}

impl Default for FlagsRegister {
    fn default() -> (r: FlagsRegister)
        ensures
            r == (FlagsRegister { zero: false, subtract: false, half_carry: false, carry: false }),
    {
        FlagsRegister { zero: false, subtract: false, half_carry: false, carry: false }
    }
}

/// The 16-bit word with the given high and low byte.
pub open spec fn word(hi: u8, lo: u8) -> u16 {
    (hi as int * 256 + lo as int) as u16
}

/// The high byte of a word.
pub open spec fn high_byte(w: u16) -> u8 {
    (w / 256) as u8
}

/// The low byte of a word.
pub open spec fn low_byte(w: u16) -> u8 {
    (w % 256) as u8
}

/// Splitting a word and joining the halves gives the word back.
pub proof fn lemma_word_of_halves(w: u16)
    ensures
        word(high_byte(w), low_byte(w)) == w,
{
}

/// The halves of a joined word are the bytes it was joined from.
pub proof fn lemma_halves_of_word(hi: u8, lo: u8)
    ensures
        high_byte(word(hi, lo)) == hi,
        low_byte(word(hi, lo)) == lo,
{
}

/// Joins two bytes into a word.
pub fn make_word(hi: u8, lo: u8) -> (r: u16)
    ensures
        r == word(hi, lo),
{
    proof {
        lemma_u16_join(hi, lo);
    }
    ((hi as u16) << 8) | (lo as u16)
}

/// The high byte of a word.
pub fn word_high(w: u16) -> (r: u8)
    ensures
        r == high_byte(w),
{
    proof {
        lemma_u16_masks(w);
    }
    ((w & 0xFF00) >> 8) as u8
}

/// The low byte of a word.
pub fn word_low(w: u16) -> (r: u8)
    ensures
        r == low_byte(w),
{
    proof {
        lemma_u16_masks(w);
    }
    (w & 0x00FF) as u8
}

/// The register file.
#[derive(Debug, Clone, Copy)]
pub struct Registers {
    /// Accumulator.
    pub a: u8,
    pub b: u8,
    pub c: u8,
    pub d: u8,
    pub e: u8,
    /// Condition flags.
    pub f: FlagsRegister,
    pub h: u8,
    pub l: u8,
    /// Stack pointer.
    pub sp: u16,
    /// Program counter.
    pub pc: u16,
}

impl Registers {
    /// The pair `AF`: the accumulator above the flag byte.
    pub open spec fn af(self) -> u16 {
        word(self.a, self.f.byte())
    }

    pub open spec fn bc(self) -> u16 {
        word(self.b, self.c)
    }

    pub open spec fn de(self) -> u16 {
        word(self.d, self.e)
    }

    pub open spec fn hl(self) -> u16 {
        word(self.h, self.l)
    }

    /// The register file after `AF` is set: the low nibble of the value is dropped.
    pub open spec fn with_af(self, value: u16) -> Registers {
        Registers { a: high_byte(value), f: FlagsRegister::of_byte(low_byte(value)), ..self }
    }

    pub open spec fn with_bc(self, value: u16) -> Registers {
        Registers { b: high_byte(value), c: low_byte(value), ..self }
    }

    pub open spec fn with_de(self, value: u16) -> Registers {
        Registers { d: high_byte(value), e: low_byte(value), ..self }
    }

    pub open spec fn with_hl(self, value: u16) -> Registers {
        Registers { h: high_byte(value), l: low_byte(value), ..self }
    }

    /// The value of an 8-bit register.
    pub open spec fn reg8(self, reg: Register8) -> u8 {
        match reg {
            Register8::A => self.a,
            Register8::B => self.b,
            Register8::C => self.c,
            Register8::D => self.d,
            Register8::E => self.e,
            Register8::H => self.h,
            Register8::L => self.l,
        }
    }

    /// The register file after one 8-bit register is set.
    pub open spec fn with_reg8(self, reg: Register8, value: u8) -> Registers {
        match reg {
            Register8::A => Registers { a: value, ..self },
            Register8::B => Registers { b: value, ..self },
            Register8::C => Registers { c: value, ..self },
            Register8::D => Registers { d: value, ..self },
            Register8::E => Registers { e: value, ..self },
            Register8::H => Registers { h: value, ..self },
            Register8::L => Registers { l: value, ..self },
        }
    }

    /// The value of a 16-bit register.
    pub open spec fn reg16(self, reg: Register16) -> u16 {
        match reg {
            Register16::BC => self.bc(),
            Register16::DE => self.de(),
            Register16::HL => self.hl(),
            Register16::SP => self.sp,
        }
    }

    /// The register file after one 16-bit register is set.
    pub open spec fn with_reg16(self, reg: Register16, value: u16) -> Registers {
        match reg {
            Register16::BC => self.with_bc(value),
            Register16::DE => self.with_de(value),
            Register16::HL => self.with_hl(value),
            Register16::SP => Registers { sp: value, ..self },
        }
    }

    /// The register file as the boot sequence leaves it: execution starts at
    /// 0x0100 with the stack at the top of high RAM.
    pub open spec fn initial() -> Registers {
        Registers {
            a: 0x01,
            b: 0x00,
            c: 0x13,
            d: 0x00,
            e: 0xD8,
            f: FlagsRegister { zero: true, subtract: true, half_carry: false, carry: false },
            h: 0x01,
            l: 0x4D,
            sp: 0xFFFE,
            pc: 0x0100,
        }
    }

    /// The register file after boot.
    pub fn new() -> (r: Registers)
        ensures
            r == Self::initial(),
    {
        Registers {
            a: 0x01,
            b: 0x00,
            c: 0x13,
            d: 0x00,
            e: 0xD8,
            f: FlagsRegister::from_byte(0xC0),
            h: 0x01,
            l: 0x4D,
            sp: 0xFFFE,
            pc: 0x100,
        }
    }

    pub fn get_af(&self) -> (r: u16)
        ensures
            r == self.af(),
            r % 16 == 0,
    {
        make_word(self.a, self.f.to_byte())
    }

    pub fn set_af(&mut self, value: u16)
        ensures
            *final(self) == old(self).with_af(value),
    {
        self.a = word_high(value);
        self.f = FlagsRegister::from_byte(word_low(value));
    }

    pub fn get_bc(&self) -> (r: u16)
        ensures
            r == self.bc(),
    {
        make_word(self.b, self.c)
    }

    pub fn set_bc(&mut self, value: u16)
        ensures
            *final(self) == old(self).with_bc(value),
    {
        self.b = word_high(value);
        self.c = word_low(value);
    }

    pub fn get_de(&self) -> (r: u16)
        ensures
            r == self.de(),
    {
        make_word(self.d, self.e)
    }

    pub fn set_de(&mut self, value: u16)
        ensures
            *final(self) == old(self).with_de(value),
    {
        self.d = word_high(value);
        self.e = word_low(value);
    }

    pub fn get_hl(&self) -> (r: u16)
        ensures
            r == self.hl(),
    {
        make_word(self.h, self.l)
    }

    pub fn set_hl(&mut self, value: u16)
        ensures
            *final(self) == old(self).with_hl(value),
    {
        self.h = word_high(value);
        self.l = word_low(value);
    }

    pub fn read_8bit(&self, reg: Register8) -> (r: u8)
        ensures
            r == self.reg8(reg),
    {
        match reg {
            Register8::A => self.a,
            Register8::B => self.b,
            Register8::C => self.c,
            Register8::D => self.d,
            Register8::E => self.e,
            Register8::H => self.h,
            Register8::L => self.l,
        }
    }

    pub fn write_8bit(&mut self, reg: Register8, value: u8)
        ensures
            *final(self) == old(self).with_reg8(reg, value),
    {
        match reg {
            Register8::A => self.a = value,
            Register8::B => self.b = value,
            Register8::C => self.c = value,
            Register8::D => self.d = value,
            Register8::E => self.e = value,
            Register8::H => self.h = value,
            Register8::L => self.l = value,
        }
    }

    pub fn read_16bit(&self, reg: Register16) -> (r: u16)
        ensures
            r == self.reg16(reg),
    {
        match reg {
            Register16::BC => self.get_bc(),
            Register16::DE => self.get_de(),
            Register16::HL => self.get_hl(),
            Register16::SP => self.sp,
        }
    }

    pub fn write_16bit(&mut self, reg: Register16, value: u16)
        ensures
            *final(self) == old(self).with_reg16(reg, value),
    {
        match reg {
            Register16::BC => self.set_bc(value),
            Register16::DE => self.set_de(value),
            Register16::HL => self.set_hl(value),
            Register16::SP => self.sp = value,
        }
    }

    /// Setting `BC`, `DE` or `HL` and reading it back gives the value that was
    /// set, and leaves every other register as it was.
    pub proof fn lemma_pair_round_trip(self, value: u16)
        ensures
            self.with_bc(value).bc() == value,
            self.with_de(value).de() == value,
            self.with_hl(value).hl() == value,
            self.with_bc(self.bc()) == self,
            self.with_de(self.de()) == self,
            self.with_hl(self.hl()) == self,
    {
    }

    /// Setting `AF` and reading it back gives the value with its low nibble
    /// cleared: the flag byte never holds more than its top four bits.
    pub proof fn lemma_af_round_trip(self, value: u16)
        ensures
            self.with_af(value).af() == value - value % 16,
            self.with_af(value).af() % 16 == 0,
            self.with_af(self.af()) == self,
    {
    }

    /// A 16-bit register reads back what was written to it.
    pub proof fn lemma_reg16_round_trip(self, reg: Register16, value: u16)
        ensures
            self.with_reg16(reg, value).reg16(reg) == value,
    {
    }

    /// An 8-bit register reads back what was written to it, and the write
    /// leaves the other 8-bit registers alone.
    pub proof fn lemma_reg8_round_trip(self, reg: Register8, other: Register8, value: u8)
        ensures
            self.with_reg8(reg, value).reg8(reg) == value,
            other != reg ==> self.with_reg8(reg, value).reg8(other) == self.reg8(other),
    {
    }
}

} // verus!
