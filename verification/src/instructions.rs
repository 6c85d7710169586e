//! The instruction set: one tagged value per instruction, with the operands
//! it needs, and the decoder that maps opcode bytes to it.
//!
//! An instruction is built from one opcode byte, or from the byte that
//! follows the 0xCB prefix. It carries no immediate operand: the execution
//! engine reads those from memory after the opcode.

pub mod arithmetic;
pub mod control_flow;
pub mod decode;
pub mod load;
pub mod stack;
pub mod targets;

use vstd::prelude::*;
pub use arithmetic::ArithmeticTarget;
pub use control_flow::JumpTest;
pub use decode::{decode_instruction, decode_prefixed};
pub use load::{LoadByteSource, LoadByteTarget, LoadType, LoadWordSource, LoadWordTarget};
pub use stack::StackTarget;
pub use targets::{IncDecTarget, PrefixTarget};
use crate::register::Register16;

verus! {

/// One instruction of the CPU.
#[derive(Debug, Copy, Clone)]
pub enum Instruction {
    /// Add to the accumulator.
    ADD(ArithmeticTarget),
    /// Add to the accumulator, with the carry flag as carry-in.
    ADC(ArithmeticTarget),
    /// Subtract from the accumulator.
    SUB(ArithmeticTarget),
    /// Subtract from the accumulator, with the carry flag as borrow-in.
    SBC(ArithmeticTarget),
    /// Bitwise and with the accumulator.
    AND(ArithmeticTarget),
    /// Bitwise or with the accumulator.
    OR(ArithmeticTarget),
    /// Bitwise exclusive or with the accumulator.
    XOR(ArithmeticTarget),
    /// Compare with the accumulator: a subtraction that keeps only the flags.
    CP(ArithmeticTarget),
    /// Add a 16-bit register to `HL`.
    ADDHL(Register16),
    /// Add the signed byte that follows the opcode to `SP`.
    ADDSP,
    /// Load `HL` with `SP` plus the signed byte that follows the opcode.
    LDHLSP,
    /// Jump to the address that follows the opcode.
    JP(JumpTest),
    /// Jump by the signed byte that follows the opcode.
    JR(JumpTest),
    /// Jump to the address in `HL`.
    JPHL,
    /// Call the subroutine at the address that follows the opcode.
    CALL(JumpTest),
    /// Return from a subroutine.
    RET(JumpTest),
    /// Return from an interrupt handler and enable interrupts.
    RETI,
    /// Call the fixed address that the operand gives.
    RST(u8),
    /// Load or store.
    LD(LoadType),
    /// Pop a register pair from the stack.
    POP(StackTarget),
    /// Push a register pair onto the stack.
    PUSH(StackTarget),
    /// Increment.
    INC(IncDecTarget),
    /// Decrement.
    DEC(IncDecTarget),
    /// Rotate left; bit 7 goes to bit 0 and to the carry flag.
    RLC(PrefixTarget),
    /// Rotate right; bit 0 goes to bit 7 and to the carry flag.
    RRC(PrefixTarget),
    /// Rotate left through the carry flag.
    RL(PrefixTarget),
    /// Rotate right through the carry flag.
    RR(PrefixTarget),
    /// Shift left; bit 0 becomes 0.
    SLA(PrefixTarget),
    /// Shift right; bit 7 keeps its value.
    SRA(PrefixTarget),
    /// Exchange the two nibbles.
    SWAP(PrefixTarget),
    /// Shift right; bit 7 becomes 0.
    SRL(PrefixTarget),
    /// Test one bit; the bit's number is taken modulo 8.
    BIT(u8, PrefixTarget),
    /// Clear one bit; the bit's number is taken modulo 8.
    RES(u8, PrefixTarget),
    /// Set one bit; the bit's number is taken modulo 8.
    SET(u8, PrefixTarget),
    /// Rotate the accumulator left; the zero flag is cleared.
    RLCA,
    /// Rotate the accumulator right; the zero flag is cleared.
    RRCA,
    /// Rotate the accumulator left through the carry flag; the zero flag is cleared.
    RLA,
    /// Rotate the accumulator right through the carry flag; the zero flag is cleared.
    RRA,
    /// Adjust the accumulator to packed decimal after an addition or subtraction.
    DAA,
    /// Complement the accumulator.
    CPL,
    /// Set the carry flag.
    SCF,
    /// Complement the carry flag.
    CCF,
    /// Do nothing.
    NOP,
    /// Suspend execution until an interrupt is pending.
    HALT,
    /// Two-byte low-power request; it only moves the program counter here.
    STOP,
    /// Disable interrupts.
    DI,
    /// Enable interrupts once the next instruction has completed.
    EI,
}

impl Instruction {
    /// The instruction that an opcode byte stands for, or nothing for an
    /// unassigned opcode. `prefixed` says that the byte followed the 0xCB prefix.
    pub fn from_byte(byte: u8, prefixed: bool) -> (r: Option<Instruction>)
        ensures
            r == decode::opcode(byte, prefixed),
    {
        decode_instruction(byte, prefixed)
    }

    /// The instruction that a byte after the 0xCB prefix stands for.
    pub fn from_byte_prefixed(byte: u8) -> (r: Option<Instruction>)
        ensures
            r == Some(decode::prefixed_opcode(byte)),
    {
        decode_prefixed(byte)
    }

    /// The instruction that an opcode byte without prefix stands for.
    pub fn from_byte_not_prefixed(byte: u8) -> (r: Option<Instruction>)
        ensures
            r == decode::unprefixed_opcode(byte),
    {
        decode::decode_not_prefixed(byte)
    }
}

} // verus!
