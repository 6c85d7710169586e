//! Instruction-level model of an 8-bit handheld-console CPU: register file,
//! interrupt controller, timer, memory bus, instruction decoder and the
//! execution engine, each with a machine-checked contract.

pub mod alu;
pub mod bits;
pub mod cpu;
pub mod flag_helpers;
pub mod instructions;
pub mod interrupts;
pub mod memory_bus;
pub mod ppu;
pub mod register;
pub mod timer;
