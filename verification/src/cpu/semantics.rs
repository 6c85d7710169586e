//! What a step does, as a function from state to state.

use vstd::prelude::*;
use crate::alu::{
    add16, add8, add_sp, and8, bit_flags, carry_flags, cpl8, daa8, dec8, inc8, or8, res8, rl8,
    rlc8, rr8, rrc8, set8, signed, sla8, sra8, srl8, sub8, swap8, xor8, AluResult,
};
use crate::cpu::{CpuState, Outcome};
use crate::instructions::decode::arithmetic::alu_operand;
use crate::instructions::decode::{accumulator, control_flow, opcode, prefix, restart};
use crate::instructions::{
    ArithmeticTarget, IncDecTarget, Instruction, JumpTest, LoadByteSource, LoadByteTarget,
    LoadType, LoadWordSource, LoadWordTarget, PrefixTarget, StackTarget,
};
use crate::interrupts::Interrupt;
use crate::memory_bus::BusState;
use crate::register::{high_byte, low_byte, word, FlagsRegister, Registers};

verus! {

/// A number reduced to 16 bits.
#[verifier::opaque]
pub open spec fn wrap16(x: int) -> u16 {
    (x % 0x10000) as u16
}

/// Bytes that an 8-bit arithmetic instruction takes.
pub open spec fn operand_length(t: ArithmeticTarget) -> int {
    if t is D8 { 2 } else { 1 }
}

/// T-cycles of an 8-bit arithmetic instruction: 4, and 4 more for an operand
/// from memory.
pub open spec fn operand_cycles(t: ArithmeticTarget) -> u16 {
    if t.is_register() { 4 } else { 8 }
}

/// Immediate bytes that the source of an 8-bit load takes.
pub open spec fn source_immediates(s: LoadByteSource) -> int {
    match s {
        LoadByteSource::D8 => 1,
        LoadByteSource::A8I => 1,
        LoadByteSource::A16I => 2,
        _ => 0,
    }
}

/// Immediate bytes that the target of an 8-bit load takes.
pub open spec fn target_immediates(t: LoadByteTarget) -> int {
    match t {
        LoadByteTarget::A8I => 1,
        LoadByteTarget::A16I => 2,
        _ => 0,
    }
}

/// Whether the source of an 8-bit load is a byte in memory other than an
/// immediate.
pub open spec fn source_in_memory(s: LoadByteSource) -> bool {
    match s {
        LoadByteSource::HLI => true,
        LoadByteSource::HLI_INC => true,
        LoadByteSource::HLI_DEC => true,
        LoadByteSource::BCI => true,
        LoadByteSource::DEI => true,
        LoadByteSource::A16I => true,
        LoadByteSource::A8I => true,
        LoadByteSource::CI => true,
        _ => false,
    }
}

/// Whether the target of an 8-bit load is a byte in memory.
pub open spec fn target_in_memory(t: LoadByteTarget) -> bool {
    match t {
        LoadByteTarget::HLI => true,
        LoadByteTarget::HLI_INC => true,
        LoadByteTarget::HLI_DEC => true,
        LoadByteTarget::BCI => true,
        LoadByteTarget::DEI => true,
        LoadByteTarget::A16I => true,
        LoadByteTarget::A8I => true,
        LoadByteTarget::CI => true,
        _ => false,
    }
}

/// T-cycles of an 8-bit load: 4 for the opcode and 4 for every further byte
/// read or written.
pub open spec fn load_byte_cycles(t: LoadByteTarget, s: LoadByteSource) -> u16 {
    (4 + 4 * (source_immediates(s) + target_immediates(t) + (if source_in_memory(s) {
        1int
    } else {
        0
    }) + (if target_in_memory(t) {
        1int
    } else {
        0
    }))) as u16
}

/// Bytes that a 16-bit load takes.
pub open spec fn load_word_length(t: LoadWordTarget, s: LoadWordSource) -> int {
    if s is D16 || t is A16I { 3 } else { 1 }
}

/// T-cycles of a 16-bit load.
pub open spec fn load_word_cycles(t: LoadWordTarget, s: LoadWordSource) -> u16 {
    if t is A16I {
        20
    } else if s is D16 {
        12
    } else {
        8
    }
}

/// T-cycles of a prefixed instruction: 8 on a register, 16 on the byte at `HL`.
pub open spec fn prefix_cycles(t: PrefixTarget) -> u16 {
    if t is HLI { 16 } else { 8 }
}

/// The address in the page 0xFF00 with the given low byte.
pub open spec fn high_page(low: u8) -> u16 {
    (0xFF00 + low) as u16
}

impl CpuState {
    /// The state after boot with a ROM image.
    pub open spec fn initial(rom: Seq<u8>) -> CpuState {
        CpuState {
            registers: Registers::initial(),
            bus: BusState::initial(rom),
            halted: false,
            interrupts_enabled: false,
            ei_pending: false,
            halt_bug: false,
        }
    }

    pub open spec fn wf(self) -> bool {
        self.bus.wf()
    }

    /// The address `n` bytes after the program counter.
    pub open spec fn pc_plus(self, n: int) -> u16 {
        wrap16(self.registers.pc + n)
    }

    /// The byte after the opcode.
    pub open spec fn imm8(self) -> u8 {
        self.bus.read(self.pc_plus(1))
    }

    /// The word after the opcode, low byte first.
    pub open spec fn imm16(self) -> u16 {
        word(self.bus.read(self.pc_plus(2)), self.bus.read(self.pc_plus(1)))
    }

    pub open spec fn with_registers(self, registers: Registers) -> CpuState {
        CpuState { registers, ..self }
    }

    pub open spec fn with_flags(self, f: FlagsRegister) -> CpuState {
        CpuState { registers: Registers { f, ..self.registers }, ..self }
    }

    /// The state after a byte is written to the bus.
    pub open spec fn stored(self, addr: u16, value: u8) -> CpuState {
        CpuState { bus: self.bus.write(addr, value), ..self }
    }

    /// The outcome of an instruction of `length` bytes that is not a jump.
    pub open spec fn done(self, length: int, cycles: u16) -> Outcome {
        Outcome { state: self, next_pc: self.pc_plus(length), cycles }
    }

    /// The state after a word is pushed: the stack pointer goes down by one
    /// before each byte, and the high byte is written first.
    pub open spec fn pushed(self, value: u16) -> CpuState {
        let high_at = wrap16(self.registers.sp - 1);
        let low_at = wrap16(self.registers.sp - 2);
        CpuState {
            registers: Registers { sp: low_at, ..self.registers },
            bus: self.bus.write(high_at, high_byte(value)).write(low_at, low_byte(value)),
            ..self
        }
    }

    /// The word on top of the stack: low byte at the stack pointer, high byte
    /// above it.
    pub open spec fn stack_top(self) -> u16 {
        word(self.bus.read(wrap16(self.registers.sp + 1)), self.bus.read(self.registers.sp))
    }

    /// The state after a word is popped.
    pub open spec fn popped(self) -> CpuState {
        self.with_registers(Registers { sp: wrap16(self.registers.sp + 2), ..self.registers })
    }

    /// Whether a condition holds.
    pub open spec fn taken(self, test: JumpTest) -> bool {
        match test {
            JumpTest::NotZero => !self.registers.f.zero,
            JumpTest::Zero => self.registers.f.zero,
            JumpTest::NotCarry => !self.registers.f.carry,
            JumpTest::Carry => self.registers.f.carry,
            JumpTest::Always => true,
        }
    }

    /// The operand of an 8-bit arithmetic instruction.
    pub open spec fn operand(self, t: ArithmeticTarget) -> u8 {
        match t {
            ArithmeticTarget::A => self.registers.a,
            ArithmeticTarget::B => self.registers.b,
            ArithmeticTarget::C => self.registers.c,
            ArithmeticTarget::D => self.registers.d,
            ArithmeticTarget::E => self.registers.e,
            ArithmeticTarget::H => self.registers.h,
            ArithmeticTarget::L => self.registers.l,
            ArithmeticTarget::HLI => self.bus.read(self.registers.hl()),
            ArithmeticTarget::D8 => self.imm8(),
        }
    }

    /// The outcome of an 8-bit arithmetic instruction with the given result:
    /// the flags are taken, and so is the value unless the instruction only
    /// compares.
    pub open spec fn arithmetic(self, t: ArithmeticTarget, result: AluResult, keep: bool) -> Outcome {
        self.with_registers(
            Registers {
                a: if keep { result.value } else { self.registers.a },
                f: result.flags,
                ..self.registers
            },
        ).done(operand_length(t), operand_cycles(t))
    }

    /// The outcome of an instruction that works on the accumulator alone.
    /// The four rotates of this kind clear the zero flag.
    pub open spec fn accumulator(self, result: AluResult, clear_zero: bool) -> Outcome {
        self.with_registers(
            Registers {
                a: result.value,
                f: FlagsRegister {
                    zero: if clear_zero { false } else { result.flags.zero },
                    ..result.flags
                },
                ..self.registers
            },
        ).done(1, 4)
    }

    /// The outcome of an increment or decrement. The 16-bit forms leave the
    /// flags alone.
    pub open spec fn stepped(self, t: IncDecTarget, up: bool) -> Outcome {
        match t {
            IncDecTarget::Reg8(r) => {
                let result = if up {
                    inc8(self.registers.reg8(r), self.registers.f)
                } else {
                    dec8(self.registers.reg8(r), self.registers.f)
                };
                self.with_registers(
                    Registers { f: result.flags, ..self.registers.with_reg8(r, result.value) },
                ).done(1, 4)
            },
            IncDecTarget::Reg16(r) => {
                let value = wrap16(self.registers.reg16(r) + (if up { 1int } else { -1 }));
                self.with_registers(self.registers.with_reg16(r, value)).done(1, 8)
            },
            IncDecTarget::HLI => {
                let at = self.registers.hl();
                let result = if up {
                    inc8(self.bus.read(at), self.registers.f)
                } else {
                    dec8(self.bus.read(at), self.registers.f)
                };
                self.with_flags(result.flags).stored(at, result.value).done(1, 12)
            },
        }
    }

    /// The byte that an 8-bit load takes from its source.
    pub open spec fn source_value(self, s: LoadByteSource) -> u8 {
        match s {
            LoadByteSource::A => self.registers.a,
            LoadByteSource::B => self.registers.b,
            LoadByteSource::C => self.registers.c,
            LoadByteSource::D => self.registers.d,
            LoadByteSource::E => self.registers.e,
            LoadByteSource::H => self.registers.h,
            LoadByteSource::L => self.registers.l,
            LoadByteSource::D8 => self.imm8(),
            LoadByteSource::HLI => self.bus.read(self.registers.hl()),
            LoadByteSource::HLI_INC => self.bus.read(self.registers.hl()),
            LoadByteSource::HLI_DEC => self.bus.read(self.registers.hl()),
            LoadByteSource::BCI => self.bus.read(self.registers.bc()),
            LoadByteSource::DEI => self.bus.read(self.registers.de()),
            LoadByteSource::A16I => self.bus.read(self.imm16()),
            LoadByteSource::A8I => self.bus.read(high_page(self.imm8())),
            LoadByteSource::CI => self.bus.read(high_page(self.registers.c)),
        }
    }

    /// The state after the source of an 8-bit load was read: two of the
    /// sources move `HL`.
    pub open spec fn after_source(self, s: LoadByteSource) -> CpuState {
        match s {
            LoadByteSource::HLI_INC => self.with_registers(
                self.registers.with_hl(wrap16(self.registers.hl() + 1)),
            ),
            LoadByteSource::HLI_DEC => self.with_registers(
                self.registers.with_hl(wrap16(self.registers.hl() - 1)),
            ),
            _ => self,
        }
    }

    /// The state after an 8-bit load has stored its byte: two of the targets
    /// move `HL` after the store.
    pub open spec fn target_written(self, t: LoadByteTarget, value: u8) -> CpuState {
        match t {
            LoadByteTarget::A => self.with_registers(Registers { a: value, ..self.registers }),
            LoadByteTarget::B => self.with_registers(Registers { b: value, ..self.registers }),
            LoadByteTarget::C => self.with_registers(Registers { c: value, ..self.registers }),
            LoadByteTarget::D => self.with_registers(Registers { d: value, ..self.registers }),
            LoadByteTarget::E => self.with_registers(Registers { e: value, ..self.registers }),
            LoadByteTarget::H => self.with_registers(Registers { h: value, ..self.registers }),
            LoadByteTarget::L => self.with_registers(Registers { l: value, ..self.registers }),
            LoadByteTarget::HLI => self.stored(self.registers.hl(), value),
            LoadByteTarget::HLI_INC => self.stored(self.registers.hl(), value).with_registers(
                self.registers.with_hl(wrap16(self.registers.hl() + 1)),
            ),
            LoadByteTarget::HLI_DEC => self.stored(self.registers.hl(), value).with_registers(
                self.registers.with_hl(wrap16(self.registers.hl() - 1)),
            ),
            LoadByteTarget::DEI => self.stored(self.registers.de(), value),
            LoadByteTarget::BCI => self.stored(self.registers.bc(), value),
            LoadByteTarget::A16I => self.stored(self.imm16(), value),
            LoadByteTarget::A8I => self.stored(high_page(self.imm8()), value),
            LoadByteTarget::CI => self.stored(high_page(self.registers.c), value),
        }
    }

    /// The outcome of an 8-bit load: the source is read, then the target
    /// written.
    pub open spec fn loaded_byte(self, t: LoadByteTarget, s: LoadByteSource) -> Outcome {
        Outcome {
            state: self.after_source(s).target_written(t, self.source_value(s)),
            next_pc: self.pc_plus(1 + source_immediates(s) + target_immediates(t)),
            cycles: load_byte_cycles(t, s),
        }
    }

    /// The word that a 16-bit load takes from its source.
    pub open spec fn word_source(self, s: LoadWordSource) -> u16 {
        match s {
            LoadWordSource::D16 => self.imm16(),
            LoadWordSource::SP => self.registers.sp,
            LoadWordSource::HL => self.registers.hl(),
        }
    }

    /// The state after a 16-bit load has stored its word. A store to memory
    /// writes the low byte first, at the lower address.
    pub open spec fn word_written(self, t: LoadWordTarget, value: u16) -> CpuState {
        match t {
            LoadWordTarget::HL => self.with_registers(self.registers.with_hl(value)),
            LoadWordTarget::BC => self.with_registers(self.registers.with_bc(value)),
            LoadWordTarget::DE => self.with_registers(self.registers.with_de(value)),
            LoadWordTarget::SP => self.with_registers(Registers { sp: value, ..self.registers }),
            LoadWordTarget::A16I => self.stored(self.imm16(), low_byte(value)).stored(
                wrap16(self.imm16() + 1),
                high_byte(value),
            ),
        }
    }

    /// The outcome of a 16-bit load.
    pub open spec fn loaded_word(self, t: LoadWordTarget, s: LoadWordSource) -> Outcome {
        Outcome {
            state: self.word_written(t, self.word_source(s)),
            next_pc: self.pc_plus(load_word_length(t, s)),
            cycles: load_word_cycles(t, s),
        }
    }

    /// The value of a pair that can be pushed.
    pub open spec fn stack_value(self, t: StackTarget) -> u16 {
        match t {
            StackTarget::BC => self.registers.bc(),
            StackTarget::DE => self.registers.de(),
            StackTarget::HL => self.registers.hl(),
            StackTarget::AF => self.registers.af(),
        }
    }

    /// The registers after a pair was popped into.
    pub open spec fn with_stack_value(self, t: StackTarget, value: u16) -> CpuState {
        match t {
            StackTarget::BC => self.with_registers(self.registers.with_bc(value)),
            StackTarget::DE => self.with_registers(self.registers.with_de(value)),
            StackTarget::HL => self.with_registers(self.registers.with_hl(value)),
            StackTarget::AF => self.with_registers(self.registers.with_af(value)),
        }
    }

    /// The operand of a prefixed instruction.
    pub open spec fn prefix_value(self, t: PrefixTarget) -> u8 {
        match t.register() {
            Some(r) => self.registers.reg8(r),
            None => self.bus.read(self.registers.hl()),
        }
    }

    /// The state after a prefixed instruction has written its operand back.
    pub open spec fn prefix_written(self, t: PrefixTarget, value: u8) -> CpuState {
        match t.register() {
            Some(r) => self.with_registers(self.registers.with_reg8(r, value)),
            None => self.stored(self.registers.hl(), value),
        }
    }

    /// The outcome of a prefixed rotate or shift with the given result.
    pub open spec fn rotated(self, t: PrefixTarget, result: AluResult) -> Outcome {
        self.with_flags(result.flags).prefix_written(t, result.value).done(2, prefix_cycles(t))
    }

    /// The outcome of a jump to the address after the opcode.
    pub open spec fn jumped(self, test: JumpTest) -> Outcome {
        if self.taken(test) {
            Outcome { state: self, next_pc: self.imm16(), cycles: 16 }
        } else {
            self.done(3, 12)
        }
    }

    /// The outcome of a relative jump: the signed offset counts from the
    /// instruction after the jump.
    pub open spec fn jumped_relative(self, test: JumpTest) -> Outcome {
        if self.taken(test) {
            Outcome {
                state: self,
                next_pc: wrap16(self.registers.pc + 2 + signed(self.imm8())),
                cycles: 12,
            }
        } else {
            self.done(2, 8)
        }
    }

    /// The outcome of a call: the address of the next instruction is pushed,
    /// then the target is read.
    pub open spec fn called(self, test: JumpTest) -> Outcome {
        if self.taken(test) {
            let state = self.pushed(self.pc_plus(3));
            Outcome { state, next_pc: state.imm16(), cycles: 24 }
        } else {
            self.done(3, 12)
        }
    }

    /// The outcome of a return. A conditional return costs 20 T-cycles when
    /// taken and 8 when not, the unconditional one 16.
    pub open spec fn returned(self, test: JumpTest) -> Outcome {
        if self.taken(test) {
            Outcome {
                state: self.popped(),
                next_pc: self.stack_top(),
                cycles: if test is Always { 16 } else { 20 },
            }
        } else {
            self.done(1, 8)
        }
    }

    /// The outcome of `HALT`. The CPU halts if interrupts are globally
    /// enabled or none is pending; else it keeps running with the halt bug set.
    pub open spec fn halt(self) -> Outcome {
        if self.interrupts_enabled || !self.bus.interrupts.any_pending() {
            (CpuState { halted: true, ..self }).done(1, 4)
        } else {
            (CpuState { halt_bug: true, ..self }).done(1, 4)
        }
    }

    /// The outcome of `ADD SP, r8` (`to_hl` false) or `LD HL, SP+r8`.
    pub open spec fn added_to_sp(self, to_hl: bool) -> Outcome {
        let result = add_sp(self.registers.sp, signed(self.imm8()));
        if to_hl {
            self.with_registers(
                Registers { f: result.flags, ..self.registers.with_hl(result.value) },
            ).done(2, 12)
        } else {
            self.with_registers(Registers { sp: result.value, f: result.flags, ..self.registers }).done(
                2,
                16,
            )
        }
    }

    /// What an arithmetic or logic instruction between the accumulator and an
    /// operand does.
    #[verifier::opaque]
    pub open spec fn execute_arithmetic(self, instruction: Instruction) -> Outcome {
        let a = self.registers.a;
        let carry = self.registers.f.carry;
        match instruction {
            Instruction::ADD(t) => self.arithmetic(t, add8(a, self.operand(t), false), true),
            Instruction::ADC(t) => self.arithmetic(t, add8(a, self.operand(t), carry), true),
            Instruction::SUB(t) => self.arithmetic(t, sub8(a, self.operand(t), false), true),
            Instruction::SBC(t) => self.arithmetic(t, sub8(a, self.operand(t), carry), true),
            Instruction::AND(t) => self.arithmetic(t, and8(a, self.operand(t)), true),
            Instruction::OR(t) => self.arithmetic(t, or8(a, self.operand(t)), true),
            Instruction::XOR(t) => self.arithmetic(t, xor8(a, self.operand(t)), true),
            Instruction::CP(t) => self.arithmetic(t, sub8(a, self.operand(t), false), false),
            _ => self.done(1, 4),
        }
    }

    /// What a prefixed instruction does: a rotate, a shift or a bit operation.
    #[verifier::opaque]
    pub open spec fn execute_prefixed(self, instruction: Instruction) -> Outcome {
        let f = self.registers.f;
        match instruction {
            Instruction::RLC(t) => self.rotated(t, rlc8(self.prefix_value(t))),
            Instruction::RRC(t) => self.rotated(t, rrc8(self.prefix_value(t))),
            Instruction::RL(t) => self.rotated(t, rl8(self.prefix_value(t), f.carry)),
            Instruction::RR(t) => self.rotated(t, rr8(self.prefix_value(t), f.carry)),
            Instruction::SLA(t) => self.rotated(t, sla8(self.prefix_value(t))),
            Instruction::SRA(t) => self.rotated(t, sra8(self.prefix_value(t))),
            Instruction::SWAP(t) => self.rotated(t, swap8(self.prefix_value(t))),
            Instruction::SRL(t) => self.rotated(t, srl8(self.prefix_value(t))),
            Instruction::BIT(n, t) => self.with_flags(
                bit_flags((n % 8) as int, self.prefix_value(t), f),
            ).done(2, prefix_cycles(t)),
            Instruction::RES(n, t) => self.prefix_written(
                t,
                res8((n % 8) as int, self.prefix_value(t)),
            ).done(2, prefix_cycles(t)),
            Instruction::SET(n, t) => self.prefix_written(
                t,
                set8((n % 8) as int, self.prefix_value(t)),
            ).done(2, prefix_cycles(t)),
            _ => self.done(2, 8),
        }
    }

    /// What an instruction on the accumulator and the flags alone does.
    #[verifier::opaque]
    pub open spec fn execute_accumulator(self, instruction: Instruction) -> Outcome {
        let a = self.registers.a;
        let f = self.registers.f;
        match instruction {
            Instruction::RLCA => self.accumulator(rlc8(a), true),
            Instruction::RRCA => self.accumulator(rrc8(a), true),
            Instruction::RLA => self.accumulator(rl8(a, f.carry), true),
            Instruction::RRA => self.accumulator(rr8(a, f.carry), true),
            Instruction::DAA => self.accumulator(daa8(a, f), false),
            Instruction::CPL => self.accumulator(cpl8(a, f), false),
            Instruction::SCF => self.with_flags(carry_flags(f, false)).done(1, 4),
            Instruction::CCF => self.with_flags(carry_flags(f, true)).done(1, 4),
            _ => self.done(1, 4),
        }
    }

    /// What a jump, call or return does, or one of the instructions that
    /// steer the CPU itself.
    #[verifier::opaque]
    pub open spec fn execute_control(self, instruction: Instruction) -> Outcome {
        match instruction {
            Instruction::NOP => self.done(1, 4),
            Instruction::STOP => self.done(2, 4),
            Instruction::HALT => self.halt(),
            Instruction::DI => (CpuState { interrupts_enabled: false, ..self }).done(1, 4),
            Instruction::EI => (CpuState { ei_pending: true, ..self }).done(1, 4),
            Instruction::JP(test) => self.jumped(test),
            Instruction::JR(test) => self.jumped_relative(test),
            Instruction::JPHL => Outcome { state: self, next_pc: self.registers.hl(), cycles: 4 },
            Instruction::CALL(test) => self.called(test),
            Instruction::RET(test) => self.returned(test),
            Instruction::RETI => Outcome {
                state: CpuState { interrupts_enabled: true, ..self.popped() },
                next_pc: self.stack_top(),
                cycles: 16,
            },
            Instruction::RST(target) => Outcome {
                state: self.pushed(self.pc_plus(1)),
                next_pc: target as u16,
                cycles: 16,
            },
            _ => self.done(1, 4),
        }
    }

    /// What a load, a push, a pop, an increment, a decrement or a 16-bit
    /// addition does.
    #[verifier::opaque]
    pub open spec fn execute_transfer(self, instruction: Instruction) -> Outcome {
        match instruction {
            Instruction::INC(t) => self.stepped(t, true),
            Instruction::DEC(t) => self.stepped(t, false),
            Instruction::ADDHL(r) => {
                let result = add16(self.registers.hl(), self.registers.reg16(r), self.registers.f);
                self.with_registers(
                    Registers { f: result.flags, ..self.registers.with_hl(result.value) },
                ).done(1, 8)
            },
            Instruction::ADDSP => self.added_to_sp(false),
            Instruction::LDHLSP => self.added_to_sp(true),
            Instruction::LD(LoadType::Byte(t, s)) => self.loaded_byte(t, s),
            Instruction::LD(LoadType::Word(t, s)) => self.loaded_word(t, s),
            Instruction::PUSH(t) => self.pushed(self.stack_value(t)).done(1, 16),
            Instruction::POP(t) => Outcome {
                state: self.popped().with_stack_value(t, self.stack_top()),
                next_pc: self.pc_plus(1),
                cycles: 12,
            },
            _ => self.done(1, 4),
        }
    }

    /// What an instruction does to a state whose program counter points at
    /// it, family by family. `NOP` is in the family of control.
    pub open spec fn execute(self, instruction: Instruction) -> Outcome {
        if alu_operand(instruction) is Some {
            self.execute_arithmetic(instruction)
        } else if accumulator::handles(instruction) {
            self.execute_accumulator(instruction)
        } else if prefix::handles(instruction) || prefix::handles_rotate(instruction)
            || prefix::handles_bit(instruction) {
            self.execute_prefixed(instruction)
        } else if control_flow::handles(instruction) || restart::handles(instruction) {
            self.execute_control(instruction)
        } else {
            self.execute_transfer(instruction)
        }
    }

    /// The state after the pending interrupt `source` is dispatched:
    /// interrupts are globally disabled, the program counter is pushed, the
    /// request is withdrawn, and execution continues at the handler.
    pub open spec fn dispatched(self, source: Interrupt) -> CpuState {
        let entered = (CpuState { interrupts_enabled: false, ei_pending: false, ..self }).pushed(
            self.registers.pc,
        );
        CpuState {
            registers: Registers { pc: source.vector(), ..entered.registers },
            bus: entered.bus.without_request(source),
            ..entered
        }
    }

    /// The state with the halted state left if an interrupt is pending,
    /// whether or not interrupts are globally enabled.
    pub open spec fn woken(self) -> CpuState {
        if self.bus.interrupts.any_pending() {
            CpuState { halted: false, ..self }
        } else {
            self
        }
    }

    /// Whether the next step dispatches an interrupt.
    pub open spec fn dispatches(self) -> bool {
        self.interrupts_enabled && self.bus.interrupts.first_pending() is Some
    }

    /// Whether the next step fetches an instruction.
    pub open spec fn fetches(self) -> bool {
        !self.dispatches() && !self.woken().halted
    }

    /// Whether the opcode at the program counter is the prefix.
    pub open spec fn prefixed(self) -> bool {
        self.bus.read(self.registers.pc) == 0xCB
    }

    /// The instruction at the program counter, if its opcode is assigned.
    pub open spec fn fetched(self) -> Option<Instruction> {
        if self.prefixed() {
            opcode(self.imm8(), true)
        } else {
            opcode(self.bus.read(self.registers.pc), false)
        }
    }

    /// The state in which a fetched instruction executes: the halt bug, if
    /// set, takes the program counter one back and is cleared, and the
    /// deferred enable of `EI` is taken note of.
    pub open spec fn prepared(self) -> CpuState {
        CpuState {
            registers: Registers {
                pc: if self.halt_bug { wrap16(self.registers.pc - 1) } else { self.registers.pc },
                ..self.registers
            },
            halt_bug: false,
            ei_pending: false,
            ..self
        }
    }

    /// The state after an outcome is committed: the program counter moves
    /// on, and an `EI` executed one instruction ago takes effect.
    pub open spec fn committed(outcome: Outcome, enable: bool) -> CpuState {
        CpuState {
            registers: Registers { pc: outcome.next_pc, ..outcome.state.registers },
            interrupts_enabled: enable || outcome.state.interrupts_enabled,
            ..outcome.state
        }
    }

    /// The state after one step. Where the step fetches, the opcode at the
    /// program counter must be assigned.
    pub open spec fn after_step(self) -> CpuState {
        if self.dispatches() {
            self.woken().dispatched(self.bus.interrupts.first_pending().unwrap())
        } else if self.woken().halted {
            self.woken()
        } else {
            Self::committed(
                self.woken().prepared().execute(self.fetched().unwrap()),
                self.ei_pending,
            )
        }
    }

    /// The T-cycles that one step takes.
    pub open spec fn step_cycles(self) -> u16 {
        if self.dispatches() {
            20
        } else if self.woken().halted {
            4
        } else {
            self.woken().prepared().execute(self.fetched().unwrap()).cycles
        }
    }
}

} // verus!
