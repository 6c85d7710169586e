//! The execution engine.
//!
//! The CPU owns the register file and the bus. One call of [`CPU::step`]
//! covers one instruction boundary: it dispatches a pending interrupt, or
//! idles while halted, or fetches, decodes and executes one instruction. It
//! returns the T-cycles that this took; the caller then ticks the timer on
//! the bus that many times before the next step.
//!
//! Three latches sequence what cannot happen at once:
//! - `is_halted`: set by `HALT`, cleared as soon as an interrupt is pending;
//! - `halt_bug`: set by a `HALT` that finds interrupts globally disabled and
//!   an interrupt pending. The CPU does not halt then, and the next
//!   instruction is executed with the program counter one short, so that the
//!   byte after it is read in place of its first operand;
//! - `ei_pending`: set by `EI`, whose effect waits until the instruction
//!   after it has completed.
//!
//! Choices where the hardware manuals leave room: the deferred enable of
//! `EI` takes effect after the next instruction whatever that instruction
//! is, `DI` included; the dispatch of an interrupt drops a deferred enable
//! that is still waiting; `CALL` pushes the return address before it reads
//! its target; `STOP` only skips its two bytes.

pub mod access;
pub mod arithmetic;
pub mod execute;
pub mod laws;
pub mod semantics;

use vstd::prelude::*;
use crate::cpu::semantics::wrap16;
use crate::instructions::Instruction;
use crate::interrupts::{Interrupt, INTERRUPT_CYCLES};
use crate::memory_bus::{BusState, MemoryBus};
use crate::register::{FlagsRegister, Registers};

verus! {

/// The opcode byte that announces a prefixed instruction.
pub const PREFIX_BYTE: u8 = 0xCB;

/// T-cycles of a step that finds the CPU halted.
pub const HALTED_CYCLES: u16 = 4;

/// The CPU: its registers, its bus and its three latches.
pub struct CPU {
    /// The register file.
    pub registers: Registers,
    /// The memory bus.
    pub bus: MemoryBus,
    /// Whether the CPU is halted.
    pub is_halted: bool,
    /// The global interrupt enable.
    pub interrupts_enabled: bool,
    /// Whether `EI` was the instruction executed last.
    pub ei_pending: bool,
    /// Whether the next instruction executes with the program counter one short.
    pub halt_bug: bool,
}

/// The CPU and everything it owns, as values.
pub struct CpuState {
    pub registers: Registers,
    pub bus: BusState,
    pub halted: bool,
    pub interrupts_enabled: bool,
    pub ei_pending: bool,
    pub halt_bug: bool,
}

/// What the execution of one instruction leaves: the state, in which the
/// program counter still points at the instruction, the program counter to
/// continue at, and the T-cycles consumed.
pub struct Outcome {
    pub state: CpuState,
    pub next_pc: u16,
    pub cycles: u16,
}

impl View for CPU {
    type V = CpuState;

    open spec fn view(&self) -> CpuState {
        CpuState {
            registers: self.registers,
            bus: self.bus@,
            halted: self.is_halted,
            interrupts_enabled: self.interrupts_enabled,
            ei_pending: self.ei_pending,
            halt_bug: self.halt_bug,
        }
    }
}

impl CPU {
    /// The bus is well-formed.
    pub open spec fn wf(&self) -> bool {
        self.bus.wf()
    }

    /// The same CPU with other registers.
    pub open spec fn with_registers(self, registers: Registers) -> CPU {
        CPU { registers, ..self }
    }

    /// The same CPU with other flags.
    pub open spec fn with_flags(self, f: FlagsRegister) -> CPU {
        CPU { registers: Registers { f, ..self.registers }, ..self }
    }

    /// A CPU after boot, with a ROM image on its bus: running, interrupts
    /// disabled.
    pub fn new(rom_data: Vec<u8>) -> (r: CPU)
        ensures
            r.wf(),
            r@ == CpuState::initial(rom_data@),
    {
        let bus = MemoryBus::new(rom_data);
        CPU {
            registers: Registers::new(),
            bus,
            is_halted: false,
            interrupts_enabled: false,
            ei_pending: false,
            halt_bug: false,
        }
    }

    /// The instruction at the program counter, or nothing if its opcode is
    /// unassigned. After the prefix byte the opcode is the byte that follows.
    pub fn fetch(&self) -> (r: Option<Instruction>)
        requires
            self.wf(),
        ensures
            r == self@.fetched(),
    {
        let instruction_byte: u8 = self.bus.read_byte(self.registers.pc);
        if instruction_byte == PREFIX_BYTE {
            Instruction::from_byte(self.read_next_byte(), true)
        } else {
            Instruction::from_byte(instruction_byte, false)
        }
    }

    /// Whether the next step will fetch an instruction, rather than dispatch
    /// an interrupt or idle in the halted state.
    pub fn will_fetch(&self) -> (r: bool)
        ensures
            r == self@.fetches(),
    {
        proof {
            self@.bus.interrupts.lemma_pending();
        }
        let pending = self.bus.any_interrupt_pending();
        if self.interrupts_enabled && pending {
            false
        } else {
            !self.is_halted || pending
        }
    }

    /// Performs one step and returns the T-cycles it took.
    ///
    /// 1. A pending interrupt ends the halted state, whether or not
    ///    interrupts are globally enabled.
    /// 2. If interrupts are globally enabled and one is pending, the one of
    ///    the highest priority is dispatched: interrupts are globally
    ///    disabled, the program counter is pushed, the request is withdrawn
    ///    and execution continues at the handler. This takes 20 T-cycles, and
    ///    nothing is fetched.
    /// 3. A halted CPU idles for 4 T-cycles.
    /// 4. Else the instruction at the program counter is fetched, executed
    ///    and its program counter committed.
    ///
    /// An unassigned opcode is fatal: a step that fetches must find an
    /// assigned one. [`CPU::try_step`] tests this first.
    pub fn step(&mut self) -> (cycles: u16)
        requires
            old(self).wf(),
            old(self)@.fetches() ==> old(self)@.fetched() is Some,
        ensures
            final(self).wf(),
            final(self)@ == old(self)@.after_step(),
            cycles == old(self)@.step_cycles(),
    {
        proof {
            self@.bus.interrupts.lemma_pending();
        }
        if self.bus.any_interrupt_pending() {
            self.is_halted = false;
        }
        if self.interrupts_enabled {
            if let Some(source) = self.bus.get_pending_interrupt() {
                self.dispatch(source);
                return INTERRUPT_CYCLES;
            }
        }
        if self.is_halted {
            return HALTED_CYCLES;
        }
        self.fetch_and_execute()
    }

    /// Dispatches an interrupt: disables interrupts globally, pushes the
    /// program counter, withdraws the source's request and continues at its
    /// handler.
    pub fn dispatch(&mut self, source: Interrupt)
        requires
            old(self).wf(),
        ensures
            final(self).wf(),
            final(self)@ == old(self)@.dispatched(source),
    {
        self.interrupts_enabled = false;
        self.ei_pending = false;
        let pc: u16 = self.registers.pc;
        self.push(pc);
        let handler: u16 = self.bus.service_interrupt(source);
        self.registers.pc = handler;
    }

    /// Fetches the instruction at the program counter, executes it and
    /// commits its program counter. A halt bug that is set takes the program
    /// counter one back before the instruction executes; an `EI` executed
    /// one instruction ago takes effect after it.
    pub fn fetch_and_execute(&mut self) -> (cycles: u16)
        requires
            old(self).wf(),
            old(self)@.fetched() is Some,
        ensures
            final(self).wf(),
            final(self)@ == CpuState::committed(
                old(self)@.prepared().execute(old(self)@.fetched().unwrap()),
                old(self)@.ei_pending,
            ),
            cycles == old(self)@.prepared().execute(old(self)@.fetched().unwrap()).cycles,
    {
        proof {
            reveal(wrap16);
        }
        let instruction: Instruction = self.fetch().unwrap();
        if self.halt_bug {
            self.halt_bug = false;
            self.registers.pc = self.registers.pc.wrapping_sub(1);
        }
        let enable = self.ei_pending;
        self.ei_pending = false;
        let outcome = self.execute(instruction);
        if enable {
            self.interrupts_enabled = true;
        }
        self.registers.pc = outcome.0;
        outcome.1
    }

    /// Performs one step if it can be performed: returns nothing, and
    /// changes nothing, where the step would fetch an unassigned opcode.
    pub fn try_step(&mut self) -> (r: Option<u16>)
        requires
            old(self).wf(),
        ensures
            final(self).wf(),
            r is None <==> old(self)@.fetches() && old(self)@.fetched() is None,
            r is None ==> *final(self) == *old(self),
            r is Some ==> final(self)@ == old(self)@.after_step() && r.unwrap() == old(
                self,
            )@.step_cycles(),
    {
        if self.will_fetch() && self.fetch().is_none() {
            None
        } else {
            Some(self.step())
        }
    }

    pub fn is_halted(&self) -> (r: bool)
        ensures
            r == self@.halted,
    {
        self.is_halted
    }

    /// Leaves the halted state.
    pub fn wake_from_halt(&mut self)
        ensures
            *final(self) == (CPU { is_halted: false, ..*old(self) }),
    {
        self.is_halted = false;
    }
}

} // verus!
