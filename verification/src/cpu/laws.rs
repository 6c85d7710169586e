//! Properties of the execution engine that follow from its definition.

use vstd::prelude::*;
use crate::cpu::semantics::wrap16;
use crate::cpu::CpuState;
use crate::instructions::decode::arithmetic::alu_operand;
use crate::instructions::decode::{
    accumulator, arithmetic16, control_flow, incdec, load, opcode, prefix, restart, stack,
};
use crate::instructions::Instruction;
use crate::interrupts::Interrupt;
use crate::memory_bus::{region_of, BusState};
use crate::register::{high_byte, lemma_word_of_halves, low_byte, Registers};

verus! {

/// Whether memory at an address keeps what is written to it: RAM, video RAM
/// and the echo of work RAM do.
pub open spec fn keeps_writes(addr: u16) -> bool {
    region_of(addr) is Ram || region_of(addr) is Vram || region_of(addr) is Echo
}

impl CpuState {
    /// Whether the two bytes below the stack pointer read back what a push
    /// writes to them.
    pub open spec fn stack_slot_holds(self, value: u16) -> bool {
        let high_at = wrap16(self.registers.sp - 1);
        let low_at = wrap16(self.registers.sp - 2);
        let written = self.bus.write(high_at, high_byte(value)).write(low_at, low_byte(value));
        written.read(high_at) == high_byte(value) && written.read(low_at) == low_byte(value)
    }

    /// A push writes the high byte first, one below the stack pointer, then
    /// the low byte one below that, and leaves the stack pointer at the low
    /// byte. A pop after it brings the stack pointer back to where it was.
    pub proof fn lemma_push_layout(self, value: u16)
        ensures
            self.pushed(value).bus == self.bus.write(
                wrap16(self.registers.sp - 1),
                high_byte(value),
            ).write(wrap16(self.registers.sp - 2), low_byte(value)),
            self.pushed(value).registers.sp == wrap16(self.registers.sp - 2),
            self.pushed(value).popped().registers.sp == self.registers.sp,
            self.pushed(value).popped().registers == self.registers,
    {
        reveal(wrap16);
    }

    /// A pop after a push returns the word that was pushed, provided the
    /// stack slot reads back what is written to it.
    pub proof fn lemma_push_then_pop(self, value: u16)
        requires
            self.stack_slot_holds(value),
        ensures
            self.pushed(value).stack_top() == value,
    {
        reveal(wrap16);
        lemma_word_of_halves(value);
    }

    /// A stack slot in RAM, video RAM or the echo of work RAM reads back
    /// what is written to it, so a pop after a push returns the word that
    /// was pushed.
    pub proof fn lemma_push_then_pop_in_ram(self, value: u16)
        requires
            self.wf(),
            keeps_writes(wrap16(self.registers.sp - 1)),
            keeps_writes(wrap16(self.registers.sp - 2)),
        ensures
            self.stack_slot_holds(value),
            self.pushed(value).stack_top() == value,
            self.pushed(value).popped().registers.sp == self.registers.sp,
    {
        reveal(wrap16);
        let high_at = wrap16(self.registers.sp - 1);
        let low_at = wrap16(self.registers.sp - 2);
        let first = self.bus.write(high_at, high_byte(value));
        self.bus.lemma_ram_read_after_write(high_at, low_at, high_byte(value));
        first.lemma_ram_read_after_write(low_at, high_at, low_byte(value));
        self.lemma_push_then_pop(value);
    }

    /// Every instruction that an opcode stands for takes between 4 and 24
    /// T-cycles, and a whole number of machine cycles of 4 T-cycles each.
    #[verifier::rlimit(40)]
    pub proof fn lemma_cycles_in_range(self, byte: u8, prefixed: bool)
        requires
            opcode(byte, prefixed) is Some,
        ensures
            4 <= self.execute(opcode(byte, prefixed).unwrap()).cycles <= 24,
            self.execute(opcode(byte, prefixed).unwrap()).cycles % 4 == 0,
    {
        let instruction = opcode(byte, prefixed).unwrap();
        if alu_operand(instruction) is Some {
            reveal(CpuState::execute_arithmetic);
        } else if accumulator::handles(instruction) {
            reveal(CpuState::execute_accumulator);
        } else if prefix::handles(instruction) || prefix::handles_rotate(instruction)
            || prefix::handles_bit(instruction) {
            reveal(CpuState::execute_prefixed);
        } else if control_flow::handles(instruction) || restart::handles(instruction) {
            reveal(CpuState::execute_control);
        } else {
            self.lemma_transfer_cycles(byte, prefixed);
        }
    }

    /// The same for the loads, the stack and the increments.
    #[verifier::rlimit(40)]
    proof fn lemma_transfer_cycles(self, byte: u8, prefixed: bool)
        requires
            opcode(byte, prefixed) is Some,
            incdec::handles(opcode(byte, prefixed).unwrap()) || load::handles(
                opcode(byte, prefixed).unwrap(),
            ) || stack::handles(opcode(byte, prefixed).unwrap()) || arithmetic16::handles(
                opcode(byte, prefixed).unwrap(),
            ),
        ensures
            4 <= self.execute_transfer(opcode(byte, prefixed).unwrap()).cycles <= 24,
            self.execute_transfer(opcode(byte, prefixed).unwrap()).cycles % 4 == 0,
    {
        reveal(CpuState::execute_transfer);
    }

    /// The step of a CPU costs between 4 and 24 T-cycles.
    pub proof fn lemma_step_cycles_in_range(self)
        requires
            self.fetches() ==> self.fetched() is Some,
        ensures
            4 <= self.step_cycles() <= 24,
            self.step_cycles() % 4 == 0,
    {
        if self.fetches() {
            if self.prefixed() {
                self.woken().prepared().lemma_cycles_in_range(self.imm8(), true);
            } else {
                self.woken().prepared().lemma_cycles_in_range(
                    self.bus.read(self.registers.pc),
                    false,
                );
            }
        }
    }

    /// Only `HALT` touches the halted state and the halt bug, only `EI` the
    /// deferred enable, and only `DI` and `RETI` the global interrupt enable.
    #[verifier::rlimit(40)]
    pub proof fn lemma_latches(self, instruction: Instruction)
        ensures
            !(instruction is HALT) ==> self.execute(instruction).state.halted == self.halted
                && self.execute(instruction).state.halt_bug == self.halt_bug,
            !(instruction is EI) ==> self.execute(instruction).state.ei_pending
                == self.ei_pending,
            !(instruction is DI) && !(instruction is RETI) ==> self.execute(
                instruction,
            ).state.interrupts_enabled == self.interrupts_enabled,
    {
        if alu_operand(instruction) is Some {
            reveal(CpuState::execute_arithmetic);
        } else if accumulator::handles(instruction) {
            reveal(CpuState::execute_accumulator);
        } else if prefix::handles(instruction) || prefix::handles_rotate(instruction)
            || prefix::handles_bit(instruction) {
            reveal(CpuState::execute_prefixed);
        } else if control_flow::handles(instruction) || restart::handles(instruction) {
            reveal(CpuState::execute_control);
        } else {
            self.lemma_transfer_latches(instruction);
        }
    }

    /// The same for the loads, the stack and the increments, none of which
    /// touches a latch.
    #[verifier::rlimit(40)]
    proof fn lemma_transfer_latches(self, instruction: Instruction)
        ensures
            self.execute_transfer(instruction).state.halted == self.halted,
            self.execute_transfer(instruction).state.halt_bug == self.halt_bug,
            self.execute_transfer(instruction).state.ei_pending == self.ei_pending,
            self.execute_transfer(instruction).state.interrupts_enabled
                == self.interrupts_enabled,
    {
        reveal(CpuState::execute_transfer);
    }

    /// `HALT` halts the CPU if interrupts are globally enabled or none is
    /// pending. With interrupts globally disabled and one pending it does
    /// not halt, and sets the halt bug instead. Either way it changes
    /// nothing else, takes one byte and costs 4 T-cycles.
    pub proof fn lemma_halt(self)
        ensures
            self.execute(Instruction::HALT).next_pc == self.pc_plus(1),
            self.execute(Instruction::HALT).cycles == 4,
            self.interrupts_enabled || !self.bus.interrupts.any_pending() ==> self.execute(
                Instruction::HALT,
            ).state == (CpuState { halted: true, ..self }),
            !self.interrupts_enabled && self.bus.interrupts.any_pending() ==> self.execute(
                Instruction::HALT,
            ).state == (CpuState { halt_bug: true, ..self }),
    {
        reveal(CpuState::execute_control);
    }

    /// A step that finds `HALT` with interrupts globally disabled and an
    /// interrupt pending leaves the CPU running, with the halt bug set and
    /// the program counter behind the `HALT`.
    pub proof fn lemma_halt_bug_is_set(self)
        requires
            !self.interrupts_enabled,
            self.bus.interrupts.any_pending(),
            self.fetched() == Some(Instruction::HALT),
        ensures
            self.fetches(),
            !self.after_step().halted,
            self.after_step().halt_bug,
            self.after_step().bus == self.bus,
            self.after_step().registers == (Registers {
                pc: self.woken().prepared().pc_plus(1),
                ..self.registers
            }),
            !self.halt_bug ==> self.after_step().registers.pc == self.pc_plus(1),
            self.step_cycles() == 4,
    {
        self.woken().prepared().lemma_halt();
    }

    /// The halt bug shifts the next instruction by one byte, once. The
    /// instruction is the one whose opcode is at the program counter, but it
    /// executes with the program counter one short: the byte it reads as its
    /// first operand is its own opcode, and where a one-byte instruction
    /// continues is at that opcode again. Unless the instruction is `HALT`
    /// itself, the halt bug is cleared after the step.
    pub proof fn lemma_halt_bug_shifts_one_fetch(self)
        requires
            self.halt_bug,
            self.fetches(),
            self.fetched() is Some,
        ensures
            self.woken().prepared().registers.pc == wrap16(self.registers.pc - 1),
            !self.woken().prepared().halt_bug,
            self.woken().prepared().imm8() == self.bus.read(self.registers.pc),
            self.woken().prepared().pc_plus(1) == self.registers.pc,
            self.after_step() == Self::committed(
                self.woken().prepared().execute(self.fetched().unwrap()),
                self.ei_pending,
            ),
            !(self.fetched().unwrap() is HALT) ==> !self.after_step().halt_bug,
    {
        reveal(wrap16);
        self.woken().prepared().lemma_latches(self.fetched().unwrap());
    }

    /// The dispatch of an interrupt: interrupts are globally disabled, the
    /// CPU is running, the stack pointer is two lower with the program
    /// counter pushed, the request of the dispatched source is withdrawn and
    /// no other request is touched after the push, and execution continues at
    /// the source's handler. This takes 20 T-cycles.
    pub proof fn lemma_dispatch(self, other: Interrupt)
        requires
            self.dispatches(),
        ensures
            self.step_cycles() == 20,
            !self.after_step().interrupts_enabled,
            !self.after_step().halted,
            self.after_step().registers.pc == self.bus.interrupts.first_pending().unwrap().vector(),
            self.after_step().registers.sp == wrap16(self.registers.sp - 2),
            !self.after_step().bus.interrupts.requested(
                self.bus.interrupts.first_pending().unwrap(),
            ),
            self.after_step().bus == self.pushed(self.registers.pc).bus.without_request(
                self.bus.interrupts.first_pending().unwrap(),
            ),
            other != self.bus.interrupts.first_pending().unwrap() ==> self.after_step().bus.interrupts.requested(
                other,
            ) == self.pushed(self.registers.pc).bus.interrupts.requested(other),
    {
        let source = self.bus.interrupts.first_pending().unwrap();
        self.bus.interrupts.lemma_pending();
        self.pushed(self.registers.pc).bus.interrupts.lemma_request_and_acknowledge(
            source,
            other,
        );
    }

    /// The highest priority goes first: the source that a step dispatches is
    /// pending, and no pending source has a lower bit.
    pub proof fn lemma_dispatch_priority(self, other: Interrupt)
        requires
            self.dispatches(),
            self.bus.interrupts.pending(other),
        ensures
            self.bus.interrupts.pending(self.bus.interrupts.first_pending().unwrap()),
            self.bus.interrupts.first_pending().unwrap().index() <= other.index(),
    {
        self.bus.interrupts.lemma_pending();
    }

    /// A halted CPU with no interrupt pending idles: the step changes
    /// nothing and costs 4 T-cycles.
    pub proof fn lemma_halted_idles(self)
        requires
            self.halted,
            !self.bus.interrupts.any_pending(),
        ensures
            self.after_step() == self,
            self.step_cycles() == 4,
    {
        self.bus.interrupts.lemma_pending();
    }

    /// A pending interrupt ends the halted state, whether or not interrupts
    /// are globally enabled.
    pub proof fn lemma_pending_interrupt_wakes(self)
        requires
            self.bus.interrupts.any_pending(),
            self.fetches() ==> self.fetched() is Some,
        ensures
            !self.after_step().halted,
    {
        self.bus.interrupts.lemma_pending();
        if self.fetches() {
            let instruction = self.fetched().unwrap();
            self.woken().prepared().lemma_latches(instruction);
            self.woken().prepared().lemma_halt();
        }
    }

    /// `EI` does not enable interrupts at once: after the step that executes
    /// it the global enable is as before, and the deferred enable is set.
    pub proof fn lemma_ei_is_deferred(self)
        requires
            self.fetches(),
            self.fetched() == Some(Instruction::EI),
            !self.ei_pending,
        ensures
            self.after_step().ei_pending,
            self.after_step().interrupts_enabled == self.interrupts_enabled,
            self.step_cycles() == 4,
    {
        reveal(CpuState::execute_control);
    }

    /// The step that executes the instruction after `EI` leaves interrupts
    /// globally enabled.
    pub proof fn lemma_deferred_enable_takes_effect(self)
        requires
            self.ei_pending,
            self.fetches(),
            self.fetched() is Some,
        ensures
            self.after_step().interrupts_enabled,
            !(self.fetched().unwrap() is EI) ==> !self.after_step().ei_pending,
    {
        self.woken().prepared().lemma_latches(self.fetched().unwrap());
    }

    /// A comparison changes the flags and nothing else; in particular the
    /// accumulator keeps its value.
    pub proof fn lemma_compare_keeps_accumulator(self, instruction: Instruction)
        requires
            instruction is CP,
        ensures
            self.execute(instruction).state == self.with_flags(
                self.execute(instruction).state.registers.f,
            ),
            self.execute(instruction).state.registers.a == self.registers.a,
    {
        reveal(CpuState::execute_arithmetic);
    }

    /// No instruction resizes the memory: a well-formed state stays
    /// well-formed.
    #[verifier::rlimit(40)]
    pub proof fn lemma_execute_keeps_wf(self, instruction: Instruction)
        requires
            self.wf(),
        ensures
            self.execute(instruction).state.wf(),
    {
        assert forall|bus: BusState, addr: u16, value: u8| bus.wf() implies #[trigger] bus.write(
            addr,
            value,
        ).wf() by {
            bus.lemma_write_keeps_wf(addr, value);
        }
        if alu_operand(instruction) is Some {
            reveal(CpuState::execute_arithmetic);
        } else if accumulator::handles(instruction) {
            reveal(CpuState::execute_accumulator);
        } else if prefix::handles(instruction) || prefix::handles_rotate(instruction)
            || prefix::handles_bit(instruction) {
            reveal(CpuState::execute_prefixed);
        } else if control_flow::handles(instruction) || restart::handles(instruction) {
            reveal(CpuState::execute_control);
        } else {
            reveal(CpuState::execute_transfer);
        }
    }

    /// A step leaves a well-formed state well-formed.
    pub proof fn lemma_step_keeps_wf(self)
        requires
            self.wf(),
            self.fetches() ==> self.fetched() is Some,
        ensures
            self.after_step().wf(),
    {
        self.bus.lemma_write_keeps_wf(
            wrap16(self.registers.sp - 1),
            high_byte(self.registers.pc),
        );
        self.bus.write(
            wrap16(self.registers.sp - 1),
            high_byte(self.registers.pc),
        ).lemma_write_keeps_wf(wrap16(self.registers.sp - 2), low_byte(self.registers.pc));
        if self.fetches() {
            self.woken().prepared().lemma_execute_keeps_wf(self.fetched().unwrap());
        }
    }
}

} // verus!
