//! The execution of one decoded instruction.

use vstd::pervasive::unreached;
use vstd::prelude::*;
use crate::cpu::access::{reset_bit, set_bit};
use crate::cpu::{CpuState, CPU};
use crate::instructions::decode::{arithmetic16, control_flow, incdec, load, restart, stack};
use crate::instructions::{Instruction, JumpTest, LoadType};

verus! {

impl CPU {
    /// Executes an instruction at the program counter. Returns the program
    /// counter to continue at and the T-cycles consumed; the stored program
    /// counter is left for the caller to set.
    pub fn execute(&mut self, instruction: Instruction) -> (r: (u16, u16))
        requires
            old(self).wf(),
        ensures
            final(self).wf(),
            final(self)@ == old(self)@.execute(instruction).state,
            r.0 == old(self)@.execute(instruction).next_pc,
            r.1 == old(self)@.execute(instruction).cycles,
    {
        match instruction {
            Instruction::ADD(_)
            | Instruction::ADC(_)
            | Instruction::SUB(_)
            | Instruction::SBC(_)
            | Instruction::AND(_)
            | Instruction::OR(_)
            | Instruction::XOR(_)
            | Instruction::CP(_) => self.execute_arithmetic(instruction),
            Instruction::INC(_)
            | Instruction::DEC(_)
            | Instruction::ADDHL(_)
            | Instruction::ADDSP
            | Instruction::LDHLSP
            | Instruction::LD(_)
            | Instruction::PUSH(_)
            | Instruction::POP(_) => self.execute_transfer(instruction),
            Instruction::RLC(_)
            | Instruction::RRC(_)
            | Instruction::RL(_)
            | Instruction::RR(_)
            | Instruction::SLA(_)
            | Instruction::SRA(_)
            | Instruction::SWAP(_)
            | Instruction::SRL(_)
            | Instruction::BIT(_, _)
            | Instruction::RES(_, _)
            | Instruction::SET(_, _) => self.execute_prefixed(instruction),
            Instruction::RLCA
            | Instruction::RRCA
            | Instruction::RLA
            | Instruction::RRA
            | Instruction::DAA
            | Instruction::CPL
            | Instruction::SCF
            | Instruction::CCF => self.execute_accumulator(instruction),
            _ => self.execute_control(instruction),
        }
    }

    /// Executes a load, a push, a pop, an increment, a decrement or a 16-bit
    /// addition.
    #[verifier::rlimit(40)]
    fn execute_transfer(&mut self, instruction: Instruction) -> (r: (u16, u16))
        requires
            old(self).wf(),
            incdec::handles(instruction) || load::handles(instruction) || stack::handles(
                instruction,
            ) || arithmetic16::handles(instruction),
        ensures
            final(self).wf(),
            final(self)@ == old(self)@.execute_transfer(instruction).state,
            r.0 == old(self)@.execute_transfer(instruction).next_pc,
            r.1 == old(self)@.execute_transfer(instruction).cycles,
    {
        proof {
            reveal(CpuState::execute_transfer);
        }
        match instruction {
            Instruction::INC(target) => self.step_target(target, true),
            Instruction::DEC(target) => self.step_target(target, false),
            Instruction::ADDHL(reg) => {
                let value: u16 = self.registers.read_16bit(reg);
                self.add_hl(value);
                (self.next_pc(1), 8)
            },
            Instruction::ADDSP => {
                let offset: u8 = self.read_next_byte();
                let sum: u16 = self.add_sp_offset(offset);
                self.registers.sp = sum;
                (self.next_pc(2), 16)
            },
            Instruction::LDHLSP => {
                let offset: u8 = self.read_next_byte();
                let sum: u16 = self.add_sp_offset(offset);
                self.registers.set_hl(sum);
                (self.next_pc(2), 12)
            },
            Instruction::LD(load_type) => match load_type {
                LoadType::Byte(target, source) => self.load_byte(target, source),
                LoadType::Word(target, source) => self.load_word(target, source),
            },
            Instruction::PUSH(target) => {
                let value: u16 = self.read_stack_target(target);
                self.push(value);
                (self.next_pc(1), 16)
            },
            Instruction::POP(target) => {
                let result: u16 = self.pop();
                self.write_stack_target(target, result);
                (self.next_pc(1), 12)
            },
            _ => unreached(),
        }
    }

    /// Executes one of the eight arithmetic and logic instructions between
    /// the accumulator and an operand.
    #[verifier::rlimit(40)]
    fn execute_arithmetic(&mut self, instruction: Instruction) -> (r: (u16, u16))
        requires
            old(self).wf(),
            instruction is ADD || instruction is ADC || instruction is SUB || instruction is SBC
                || instruction is AND || instruction is OR || instruction is XOR
                || instruction is CP,
        ensures
            final(self).wf(),
            final(self)@ == old(self)@.execute_arithmetic(instruction).state,
            r.0 == old(self)@.execute_arithmetic(instruction).next_pc,
            r.1 == old(self)@.execute_arithmetic(instruction).cycles,
    {
        proof {
            reveal(CpuState::execute_arithmetic);
        }
        match instruction {
            Instruction::ADD(target) => {
                let value: u8 = self.get_arithmetic_target(target);
                let new_value: u8 = self.add(value);
                self.registers.a = new_value;
                self.arithmetic_outcome(target)
            },
            Instruction::ADC(target) => {
                let value: u8 = self.get_arithmetic_target(target);
                let new_value: u8 = self.adc(value);
                self.registers.a = new_value;
                self.arithmetic_outcome(target)
            },
            Instruction::SUB(target) => {
                let value: u8 = self.get_arithmetic_target(target);
                let new_value: u8 = self.sub(value);
                self.registers.a = new_value;
                self.arithmetic_outcome(target)
            },
            Instruction::SBC(target) => {
                let value: u8 = self.get_arithmetic_target(target);
                let new_value: u8 = self.sbc(value);
                self.registers.a = new_value;
                self.arithmetic_outcome(target)
            },
            Instruction::AND(target) => {
                let value: u8 = self.get_arithmetic_target(target);
                let new_value: u8 = self.and(value);
                self.registers.a = new_value;
                self.arithmetic_outcome(target)
            },
            Instruction::OR(target) => {
                let value: u8 = self.get_arithmetic_target(target);
                let new_value: u8 = self.or(value);
                self.registers.a = new_value;
                self.arithmetic_outcome(target)
            },
            Instruction::XOR(target) => {
                let value: u8 = self.get_arithmetic_target(target);
                let new_value: u8 = self.xor(value);
                self.registers.a = new_value;
                self.arithmetic_outcome(target)
            },
            Instruction::CP(target) => {
                let value: u8 = self.get_arithmetic_target(target);
                self.cp(value);
                self.arithmetic_outcome(target)
            },
            _ => unreached(),
        }
    }

    /// Executes a prefixed instruction: a rotate, a shift or a bit operation.
    #[verifier::rlimit(40)]
    fn execute_prefixed(&mut self, instruction: Instruction) -> (r: (u16, u16))
        requires
            old(self).wf(),
            instruction is RLC || instruction is RRC || instruction is RL || instruction is RR
                || instruction is SLA || instruction is SRA || instruction is SWAP
                || instruction is SRL || instruction is BIT || instruction is RES
                || instruction is SET,
        ensures
            final(self).wf(),
            final(self)@ == old(self)@.execute_prefixed(instruction).state,
            r.0 == old(self)@.execute_prefixed(instruction).next_pc,
            r.1 == old(self)@.execute_prefixed(instruction).cycles,
    {
        proof {
            reveal(CpuState::execute_prefixed);
        }
        match instruction {
            Instruction::RLC(target) => {
                let value: u8 = self.read_prefix_target(target);
                let result: u8 = self.rlc(value);
                self.write_prefix_target(target, result);
                self.prefix_outcome(target)
            },
            Instruction::RRC(target) => {
                let value: u8 = self.read_prefix_target(target);
                let result: u8 = self.rrc(value);
                self.write_prefix_target(target, result);
                self.prefix_outcome(target)
            },
            Instruction::RL(target) => {
                let value: u8 = self.read_prefix_target(target);
                let result: u8 = self.rl(value);
                self.write_prefix_target(target, result);
                self.prefix_outcome(target)
            },
            Instruction::RR(target) => {
                let value: u8 = self.read_prefix_target(target);
                let result: u8 = self.rr(value);
                self.write_prefix_target(target, result);
                self.prefix_outcome(target)
            },
            Instruction::SLA(target) => {
                let value: u8 = self.read_prefix_target(target);
                let result: u8 = self.sla(value);
                self.write_prefix_target(target, result);
                self.prefix_outcome(target)
            },
            Instruction::SRA(target) => {
                let value: u8 = self.read_prefix_target(target);
                let result: u8 = self.sra(value);
                self.write_prefix_target(target, result);
                self.prefix_outcome(target)
            },
            Instruction::SWAP(target) => {
                let value: u8 = self.read_prefix_target(target);
                let result: u8 = self.swap(value);
                self.write_prefix_target(target, result);
                self.prefix_outcome(target)
            },
            Instruction::SRL(target) => {
                let value: u8 = self.read_prefix_target(target);
                let result: u8 = self.srl(value);
                self.write_prefix_target(target, result);
                self.prefix_outcome(target)
            },
            Instruction::BIT(bit, target) => {
                let value: u8 = self.read_prefix_target(target);
                self.bit(bit, value);
                self.prefix_outcome(target)
            },
            Instruction::RES(bit, target) => {
                let value: u8 = self.read_prefix_target(target);
                self.write_prefix_target(target, reset_bit(bit, value));
                self.prefix_outcome(target)
            },
            Instruction::SET(bit, target) => {
                let value: u8 = self.read_prefix_target(target);
                self.write_prefix_target(target, set_bit(bit, value));
                self.prefix_outcome(target)
            },
            _ => unreached(),
        }
    }

    /// Executes an instruction that works on the accumulator and the flags
    /// alone.
    #[verifier::rlimit(40)]
    fn execute_accumulator(&mut self, instruction: Instruction) -> (r: (u16, u16))
        requires
            old(self).wf(),
            instruction is RLCA || instruction is RRCA || instruction is RLA || instruction is RRA
                || instruction is DAA || instruction is CPL || instruction is SCF
                || instruction is CCF,
        ensures
            final(self).wf(),
            final(self)@ == old(self)@.execute_accumulator(instruction).state,
            r.0 == old(self)@.execute_accumulator(instruction).next_pc,
            r.1 == old(self)@.execute_accumulator(instruction).cycles,
    {
        proof {
            reveal(CpuState::execute_accumulator);
        }
        match instruction {
            Instruction::RLCA => {
                let result: u8 = self.rlc(self.registers.a);
                self.registers.a = result;
                self.registers.f.zero = false;
            },
            Instruction::RRCA => {
                let result: u8 = self.rrc(self.registers.a);
                self.registers.a = result;
                self.registers.f.zero = false;
            },
            Instruction::RLA => {
                let result: u8 = self.rl(self.registers.a);
                self.registers.a = result;
                self.registers.f.zero = false;
            },
            Instruction::RRA => {
                let result: u8 = self.rr(self.registers.a);
                self.registers.a = result;
                self.registers.f.zero = false;
            },
            Instruction::DAA => {
                let result: u8 = self.daa();
                self.registers.a = result;
            },
            Instruction::CPL => {
                let result: u8 = self.cpl();
                self.registers.a = result;
            },
            Instruction::SCF => {
                self.scf();
            },
            Instruction::CCF => {
                self.ccf();
            },
            _ => {
                unreached::<()>();
            },
        }
        (self.next_pc(1), 4)
    }

    /// Executes a jump, call or return, or one of the instructions that
    /// steer the CPU itself.
    #[verifier::rlimit(40)]
    fn execute_control(&mut self, instruction: Instruction) -> (r: (u16, u16))
        requires
            old(self).wf(),
            control_flow::handles(instruction) || restart::handles(instruction),
        ensures
            final(self).wf(),
            final(self)@ == old(self)@.execute_control(instruction).state,
            r.0 == old(self)@.execute_control(instruction).next_pc,
            r.1 == old(self)@.execute_control(instruction).cycles,
    {
        proof {
            reveal(CpuState::execute_control);
        }
        match instruction {
            Instruction::NOP => (self.next_pc(1), 4),
            Instruction::STOP => (self.next_pc(2), 4),
            Instruction::HALT => {
                if self.interrupts_enabled || !self.bus.any_interrupt_pending() {
                    self.is_halted = true;
                } else {
                    self.halt_bug = true;
                }
                (self.next_pc(1), 4)
            },
            Instruction::DI => {
                self.interrupts_enabled = false;
                (self.next_pc(1), 4)
            },
            Instruction::EI => {
                self.ei_pending = true;
                (self.next_pc(1), 4)
            },
            Instruction::JP(test) => {
                let taken = self.should_jump(&test);
                (self.jump(taken), if taken { 16 } else { 12 })
            },
            Instruction::JR(test) => {
                let taken = self.should_jump(&test);
                (self.jump_relative(taken), if taken { 12 } else { 8 })
            },
            Instruction::JPHL => (self.registers.get_hl(), 4),
            Instruction::CALL(test) => {
                let taken = self.should_jump(&test);
                (self.call(taken), if taken { 24 } else { 12 })
            },
            Instruction::RET(test) => {
                let taken = self.should_jump(&test);
                let cycles: u16 = match test {
                    JumpTest::Always => 16,
                    _ => if taken { 20 } else { 8 },
                };
                (self.return_(taken), cycles)
            },
            Instruction::RETI => {
                let target: u16 = self.pop();
                self.interrupts_enabled = true;
                (target, 16)
            },
            Instruction::RST(target) => {
                let next: u16 = self.next_pc(1);
                self.push(next);
                (target as u16, 16)
            },
            _ => unreached(),
        }
    }
}

} // verus!
