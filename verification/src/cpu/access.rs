//! Operands, the stack and the targets of jumps.

use vstd::prelude::*;
use crate::alu::{lemma_bit_masks, res8, set8, signed};
use crate::bits::single_bit;
use crate::cpu::arithmetic::to_signed;
use crate::cpu::semantics::{
    high_page, load_byte_cycles, load_word_cycles, load_word_length, operand_cycles,
    operand_length, prefix_cycles, source_immediates, target_immediates, wrap16,
};
use crate::cpu::CPU;
use crate::instructions::{
    ArithmeticTarget, IncDecTarget, JumpTest, LoadByteSource, LoadByteTarget, LoadWordSource,
    LoadWordTarget, PrefixTarget, StackTarget,
};
use crate::register::{make_word, word_high, word_low};

verus! {

/// The address in the page 0xFF00 with the given low byte.
pub fn high_page_address(low: u8) -> (r: u16)
    ensures
        r == high_page(low),
{
    0xFF00 + (low as u16)
}

/// The byte with bit `bit % 8` cleared.
pub fn reset_bit(bit: u8, value: u8) -> (r: u8)
    ensures
        r == res8((bit % 8) as int, value),
{
    proof {
        lemma_bit_masks((bit % 8) as int, value);
    }
    value & !single_bit(bit)
}

/// The byte with bit `bit % 8` set.
pub fn set_bit(bit: u8, value: u8) -> (r: u8)
    ensures
        r == set8((bit % 8) as int, value),
{
    proof {
        lemma_bit_masks((bit % 8) as int, value);
    }
    value | single_bit(bit)
}

impl CPU {
    /// The byte after the opcode.
    pub fn read_next_byte(&self) -> (r: u8)
        requires
            self.wf(),
        ensures
            r == self@.imm8(),
    {
        proof {
            reveal(wrap16);
        }
        self.bus.read_byte(self.registers.pc.wrapping_add(1))
    }

    /// The word after the opcode, low byte first.
    pub fn read_next_word(&self) -> (r: u16)
        requires
            self.wf(),
        ensures
            r == self@.imm16(),
    {
        proof {
            reveal(wrap16);
        }
        let least_significant_byte: u8 = self.bus.read_byte(self.registers.pc.wrapping_add(1));
        let most_significant_byte: u8 = self.bus.read_byte(self.registers.pc.wrapping_add(2));
        make_word(most_significant_byte, least_significant_byte)
    }

    /// The address `length` bytes after the program counter.
    pub fn next_pc(&self, length: u16) -> (r: u16)
        ensures
            r == self@.pc_plus(length as int),
    {
        proof {
            reveal(wrap16);
        }
        self.registers.pc.wrapping_add(length)
    }

    /// The operand of an 8-bit arithmetic instruction.
    pub fn get_arithmetic_target(&self, target: ArithmeticTarget) -> (r: u8)
        requires
            self.wf(),
        ensures
            r == self@.operand(target),
    {
        match target {
            ArithmeticTarget::A => self.registers.a,
            ArithmeticTarget::B => self.registers.b,
            ArithmeticTarget::C => self.registers.c,
            ArithmeticTarget::D => self.registers.d,
            ArithmeticTarget::E => self.registers.e,
            ArithmeticTarget::H => self.registers.h,
            ArithmeticTarget::L => self.registers.l,
            ArithmeticTarget::HLI => self.bus.read_byte(self.registers.get_hl()),
            ArithmeticTarget::D8 => self.read_next_byte(),
        }
    }

    /// Where an 8-bit arithmetic instruction continues, and its T-cycles.
    pub fn arithmetic_outcome(&self, target: ArithmeticTarget) -> (r: (u16, u16))
        ensures
            r.0 == self@.pc_plus(operand_length(target)),
            r.1 == operand_cycles(target),
    {
        match target {
            ArithmeticTarget::D8 => (self.next_pc(2), 8),
            ArithmeticTarget::HLI => (self.next_pc(1), 8),
            _ => (self.next_pc(1), 4),
        }
    }

    /// Reads the source of an 8-bit load. Two of the sources move `HL`.
    pub fn read_byte_source(&mut self, source: LoadByteSource) -> (r: u8)
        requires
            old(self).wf(),
        ensures
            final(self).wf(),
            r == old(self)@.source_value(source),
            final(self)@ == old(self)@.after_source(source),
    {
        proof {
            reveal(wrap16);
        }
        match source {
            LoadByteSource::A => self.registers.a,
            LoadByteSource::B => self.registers.b,
            LoadByteSource::C => self.registers.c,
            LoadByteSource::D => self.registers.d,
            LoadByteSource::E => self.registers.e,
            LoadByteSource::H => self.registers.h,
            LoadByteSource::L => self.registers.l,
            LoadByteSource::D8 => self.read_next_byte(),
            LoadByteSource::HLI => self.bus.read_byte(self.registers.get_hl()),
            LoadByteSource::HLI_INC => {
                let hl: u16 = self.registers.get_hl();
                let value: u8 = self.bus.read_byte(hl);
                self.registers.set_hl(hl.wrapping_add(1));
                value
            },
            LoadByteSource::HLI_DEC => {
                let hl: u16 = self.registers.get_hl();
                let value: u8 = self.bus.read_byte(hl);
                self.registers.set_hl(hl.wrapping_sub(1));
                value
            },
            LoadByteSource::BCI => self.bus.read_byte(self.registers.get_bc()),
            LoadByteSource::DEI => self.bus.read_byte(self.registers.get_de()),
            LoadByteSource::A16I => {
                let address: u16 = self.read_next_word();
                self.bus.read_byte(address)
            },
            LoadByteSource::A8I => {
                let low: u8 = self.read_next_byte();
                self.bus.read_byte(high_page_address(low))
            },
            LoadByteSource::CI => self.bus.read_byte(high_page_address(self.registers.c)),
        }
    }

    /// Stores the byte of an 8-bit load. Two of the targets move `HL`.
    pub fn write_byte_target(&mut self, target: LoadByteTarget, value: u8)
        requires
            old(self).wf(),
        ensures
            final(self).wf(),
            final(self)@ == old(self)@.target_written(target, value),
    {
        proof {
            reveal(wrap16);
        }
        match target {
            LoadByteTarget::A => self.registers.a = value,
            LoadByteTarget::B => self.registers.b = value,
            LoadByteTarget::C => self.registers.c = value,
            LoadByteTarget::D => self.registers.d = value,
            LoadByteTarget::E => self.registers.e = value,
            LoadByteTarget::H => self.registers.h = value,
            LoadByteTarget::L => self.registers.l = value,
            LoadByteTarget::HLI => {
                let hl: u16 = self.registers.get_hl();
                self.bus.write_byte(hl, value);
            },
            LoadByteTarget::HLI_INC => {
                let hl: u16 = self.registers.get_hl();
                self.bus.write_byte(hl, value);
                self.registers.set_hl(hl.wrapping_add(1));
            },
            LoadByteTarget::HLI_DEC => {
                let hl: u16 = self.registers.get_hl();
                self.bus.write_byte(hl, value);
                self.registers.set_hl(hl.wrapping_sub(1));
            },
            LoadByteTarget::DEI => {
                let de: u16 = self.registers.get_de();
                self.bus.write_byte(de, value);
            },
            LoadByteTarget::BCI => {
                let bc: u16 = self.registers.get_bc();
                self.bus.write_byte(bc, value);
            },
            LoadByteTarget::A16I => {
                let address: u16 = self.read_next_word();
                self.bus.write_byte(address, value);
            },
            LoadByteTarget::A8I => {
                let low: u8 = self.read_next_byte();
                self.bus.write_byte(high_page_address(low), value);
            },
            LoadByteTarget::CI => {
                let address: u16 = high_page_address(self.registers.c);
                self.bus.write_byte(address, value);
            },
        }
    }

    /// Bytes of an 8-bit load with a target that takes no immediate: the
    /// opcode and the source's immediate bytes.
    pub fn get_load_byte_pc_increment(&self, source: LoadByteSource) -> (r: u16)
        ensures
            r == 1 + source_immediates(source),
    {
        match source {
            LoadByteSource::D8 => 2,
            LoadByteSource::A8I => 2,
            LoadByteSource::A16I => 3,
            _ => 1,
        }
    }

    /// Immediate bytes that the target of an 8-bit load takes.
    pub fn get_store_byte_pc_increment(&self, target: LoadByteTarget) -> (r: u16)
        ensures
            r == target_immediates(target),
    {
        match target {
            LoadByteTarget::A8I => 1,
            LoadByteTarget::A16I => 2,
            _ => 0,
        }
    }

    /// T-cycles of an 8-bit load.
    pub fn get_load_byte_cycles(&self, target: LoadByteTarget, source: LoadByteSource) -> (r: u16)
        ensures
            r == load_byte_cycles(target, source),
    {
        let from: u16 = match source {
            LoadByteSource::D8 => 1,
            LoadByteSource::A8I => 2,
            LoadByteSource::A16I => 3,
            LoadByteSource::HLI => 1,
            LoadByteSource::HLI_INC => 1,
            LoadByteSource::HLI_DEC => 1,
            LoadByteSource::BCI => 1,
            LoadByteSource::DEI => 1,
            LoadByteSource::CI => 1,
            _ => 0,
        };
        let to: u16 = match target {
            LoadByteTarget::A8I => 2,
            LoadByteTarget::A16I => 3,
            LoadByteTarget::HLI => 1,
            LoadByteTarget::HLI_INC => 1,
            LoadByteTarget::HLI_DEC => 1,
            LoadByteTarget::BCI => 1,
            LoadByteTarget::DEI => 1,
            LoadByteTarget::CI => 1,
            _ => 0,
        };
        4 + 4 * (from + to)
    }

    /// Performs an 8-bit load; returns where execution continues and the
    /// T-cycles.
    pub fn load_byte(&mut self, target: LoadByteTarget, source: LoadByteSource) -> (r: (u16, u16))
        requires
            old(self).wf(),
        ensures
            final(self).wf(),
            final(self)@ == old(self)@.loaded_byte(target, source).state,
            r.0 == old(self)@.loaded_byte(target, source).next_pc,
            r.1 == old(self)@.loaded_byte(target, source).cycles,
    {
        let length: u16 = self.get_load_byte_pc_increment(source)
            + self.get_store_byte_pc_increment(target);
        let next: u16 = self.next_pc(length);
        let cycles: u16 = self.get_load_byte_cycles(target, source);
        let source_value: u8 = self.read_byte_source(source);
        self.write_byte_target(target, source_value);
        (next, cycles)
    }

    /// The word that a 16-bit load takes from its source.
    pub fn read_word_source(&self, source: LoadWordSource) -> (r: u16)
        requires
            self.wf(),
        ensures
            r == self@.word_source(source),
    {
        match source {
            LoadWordSource::D16 => self.read_next_word(),
            LoadWordSource::SP => self.registers.sp,
            LoadWordSource::HL => self.registers.get_hl(),
        }
    }

    /// Stores the word of a 16-bit load. A store to memory writes the low
    /// byte first, at the lower address.
    pub fn write_word_target(&mut self, target: LoadWordTarget, value: u16)
        requires
            old(self).wf(),
        ensures
            final(self).wf(),
            final(self)@ == old(self)@.word_written(target, value),
    {
        proof {
            reveal(wrap16);
        }
        match target {
            LoadWordTarget::HL => self.registers.set_hl(value),
            LoadWordTarget::BC => self.registers.set_bc(value),
            LoadWordTarget::DE => self.registers.set_de(value),
            LoadWordTarget::SP => self.registers.sp = value,
            LoadWordTarget::A16I => {
                let address: u16 = self.read_next_word();
                self.bus.write_byte(address, word_low(value));
                self.bus.write_byte(address.wrapping_add(1), word_high(value));
            },
        }
    }

    /// Bytes and T-cycles of a 16-bit load.
    pub fn get_load_word_cost(&self, target: LoadWordTarget, source: LoadWordSource) -> (r: (
        u16,
        u16,
    ))
        ensures
            r.0 == load_word_length(target, source),
            r.1 == load_word_cycles(target, source),
    {
        match target {
            LoadWordTarget::A16I => (3, 20),
            _ => match source {
                LoadWordSource::D16 => (3, 12),
                _ => (1, 8),
            },
        }
    }

    /// Performs a 16-bit load; returns where execution continues and the
    /// T-cycles.
    pub fn load_word(&mut self, target: LoadWordTarget, source: LoadWordSource) -> (r: (u16, u16))
        requires
            old(self).wf(),
        ensures
            final(self).wf(),
            final(self)@ == old(self)@.loaded_word(target, source).state,
            r.0 == old(self)@.loaded_word(target, source).next_pc,
            r.1 == old(self)@.loaded_word(target, source).cycles,
    {
        let cost = self.get_load_word_cost(target, source);
        let next: u16 = self.next_pc(cost.0);
        let source_value: u16 = self.read_word_source(source);
        self.write_word_target(target, source_value);
        (next, cost.1)
    }

    /// The value of a pair that can be pushed.
    pub fn read_stack_target(&self, target: StackTarget) -> (r: u16)
        ensures
            r == self@.stack_value(target),
    {
        match target {
            StackTarget::BC => self.registers.get_bc(),
            StackTarget::DE => self.registers.get_de(),
            StackTarget::HL => self.registers.get_hl(),
            StackTarget::AF => self.registers.get_af(),
        }
    }

    /// Sets a pair that can be popped. The low nibble of `F` stays zero.
    pub fn write_stack_target(&mut self, target: StackTarget, value: u16)
        ensures
            *final(self) == old(self).with_registers(
                old(self)@.with_stack_value(target, value).registers,
            ),
    {
        match target {
            StackTarget::BC => self.registers.set_bc(value),
            StackTarget::DE => self.registers.set_de(value),
            StackTarget::HL => self.registers.set_hl(value),
            StackTarget::AF => self.registers.set_af(value),
        }
    }

    /// Pushes a word: the stack pointer goes down by one before each byte,
    /// and the high byte is written first, at the higher address.
    pub fn push(&mut self, value: u16)
        requires
            old(self).wf(),
        ensures
            final(self).wf(),
            final(self)@ == old(self)@.pushed(value),
            final(self).registers.sp == wrap16(old(self).registers.sp - 2),
    {
        proof {
            reveal(wrap16);
        }
        self.registers.sp = self.registers.sp.wrapping_sub(1);
        self.bus.write_byte(self.registers.sp, word_high(value));
        self.registers.sp = self.registers.sp.wrapping_sub(1);
        self.bus.write_byte(self.registers.sp, word_low(value));
    }

    /// Pops a word: the low byte is read first, and the stack pointer goes
    /// up by one after each byte.
    pub fn pop(&mut self) -> (r: u16)
        requires
            old(self).wf(),
        ensures
            final(self).wf(),
            r == old(self)@.stack_top(),
            final(self)@ == old(self)@.popped(),
            final(self).registers.sp == wrap16(old(self).registers.sp + 2),
    {
        proof {
            reveal(wrap16);
        }
        let lsb: u8 = self.bus.read_byte(self.registers.sp);
        self.registers.sp = self.registers.sp.wrapping_add(1);
        let msb: u8 = self.bus.read_byte(self.registers.sp);
        self.registers.sp = self.registers.sp.wrapping_add(1);
        make_word(msb, lsb)
    }

    /// Whether a condition holds.
    pub fn should_jump(&self, test: &JumpTest) -> (r: bool)
        ensures
            r == self@.taken(*test),
    {
        match test {
            JumpTest::NotZero => !self.registers.f.zero,
            JumpTest::NotCarry => !self.registers.f.carry,
            JumpTest::Zero => self.registers.f.zero,
            JumpTest::Carry => self.registers.f.carry,
            JumpTest::Always => true,
        }
    }

    /// Where a jump continues: at the address after the opcode if taken,
    /// else behind its three bytes.
    pub fn jump(&self, should_jump: bool) -> (r: u16)
        requires
            self.wf(),
        ensures
            r == (if should_jump { self@.imm16() } else { self@.pc_plus(3) }),
    {
        proof {
            reveal(wrap16);
        }
        if should_jump {
            self.read_next_word()
        } else {
            self.registers.pc.wrapping_add(3)
        }
    }

    /// Where a relative jump continues: behind its two bytes, plus the
    /// signed offset if taken.
    pub fn jump_relative(&self, should_jump: bool) -> (r: u16)
        requires
            self.wf(),
        ensures
            r == (if should_jump {
                wrap16(self.registers.pc + 2 + signed(self@.imm8()))
            } else {
                self@.pc_plus(2)
            }),
    {
        proof {
            reveal(wrap16);
        }
        if should_jump {
            let offset: i8 = to_signed(self.read_next_byte());
            self.registers.pc.wrapping_add(2).wrapping_add_signed(offset as i16)
        } else {
            self.registers.pc.wrapping_add(2)
        }
    }

    /// Performs a call if taken: pushes the address behind the call's three
    /// bytes, then reads the target. Returns where execution continues.
    pub fn call(&mut self, should_jump: bool) -> (r: u16)
        requires
            old(self).wf(),
        ensures
            final(self).wf(),
            should_jump ==> final(self)@ == old(self)@.pushed(old(self)@.pc_plus(3)),
            should_jump ==> r == old(self)@.pushed(old(self)@.pc_plus(3)).imm16(),
            !should_jump ==> *final(self) == *old(self) && r == old(self)@.pc_plus(3),
    {
        proof {
            reveal(wrap16);
        }
        let next_pc: u16 = self.registers.pc.wrapping_add(3);
        if should_jump {
            self.push(next_pc);
            self.read_next_word()
        } else {
            next_pc
        }
    }

    /// Performs a return if taken: pops the address to continue at.
    pub fn return_(&mut self, should_jump: bool) -> (r: u16)
        requires
            old(self).wf(),
        ensures
            final(self).wf(),
            should_jump ==> final(self)@ == old(self)@.popped() && r == old(self)@.stack_top(),
            !should_jump ==> *final(self) == *old(self) && r == old(self)@.pc_plus(1),
    {
        proof {
            reveal(wrap16);
        }
        if should_jump {
            self.pop()
        } else {
            self.registers.pc.wrapping_add(1)
        }
    }

    /// The operand of a prefixed instruction.
    pub fn read_prefix_target(&self, target: PrefixTarget) -> (r: u8)
        requires
            self.wf(),
        ensures
            r == self@.prefix_value(target),
    {
        match target.to_register8() {
            Some(reg) => self.registers.read_8bit(reg),
            None => self.bus.read_byte(self.registers.get_hl()),
        }
    }

    /// Writes the operand of a prefixed instruction back.
    pub fn write_prefix_target(&mut self, target: PrefixTarget, value: u8)
        requires
            old(self).wf(),
        ensures
            final(self).wf(),
            final(self)@ == old(self)@.prefix_written(target, value),
    {
        match target.to_register8() {
            Some(reg) => self.registers.write_8bit(reg, value),
            None => {
                let hl: u16 = self.registers.get_hl();
                self.bus.write_byte(hl, value);
            },
        }
    }

    /// Where a prefixed instruction continues, and its T-cycles: 8 on a
    /// register, 16 on the byte at `HL`.
    pub fn prefix_outcome(&self, target: PrefixTarget) -> (r: (u16, u16))
        ensures
            r.0 == self@.pc_plus(2),
            r.1 == prefix_cycles(target),
    {
        match target {
            PrefixTarget::HLI => (self.next_pc(2), 16),
            _ => (self.next_pc(2), 8),
        }
    }

    /// Performs an increment (`up`) or a decrement; returns where execution
    /// continues and the T-cycles.
    pub fn step_target(&mut self, target: IncDecTarget, up: bool) -> (r: (u16, u16))
        requires
            old(self).wf(),
        ensures
            final(self).wf(),
            final(self)@ == old(self)@.stepped(target, up).state,
            r.0 == old(self)@.stepped(target, up).next_pc,
            r.1 == old(self)@.stepped(target, up).cycles,
    {
        match target {
            IncDecTarget::Reg8(reg) => {
                let value: u8 = self.registers.read_8bit(reg);
                let new_value: u8 = if up { self.inc_8bit(value) } else { self.dec_8bit(value) };
                self.registers.write_8bit(reg, new_value);
                (self.next_pc(1), 4)
            },
            IncDecTarget::Reg16(reg) => {
                if up {
                    self.inc_16bit(reg);
                } else {
                    self.dec_16bit(reg);
                }
                (self.next_pc(1), 8)
            },
            IncDecTarget::HLI => {
                let hl: u16 = self.registers.get_hl();
                let value: u8 = self.bus.read_byte(hl);
                let new_value: u8 = if up { self.inc_8bit(value) } else { self.dec_8bit(value) };
                self.bus.write_byte(hl, new_value);
                (self.next_pc(1), 12)
            },
        }
    }
}

} // verus!
