//! The opcode map, and the decoder that implements it.
//!
//! The map is stated by the three bit fields of an opcode: `x` (bits 7-6),
//! `y` (bits 5-3) and `z` (bits 2-0), with `y` split once more into `p`
//! (bits 5-4) and `q` (bit 3). The decoder itself is a set of tables, one per
//! instruction family, tried in turn; each family is proved to decode exactly
//! its own instructions of the map, and the families together all of it.

pub mod accumulator;
pub mod arithmetic;
pub mod arithmetic16;
pub mod control_flow;
pub mod incdec;
pub mod load;
pub mod prefix;
pub mod restart;
pub mod stack;

use vstd::prelude::*;
use crate::instructions::{
    ArithmeticTarget, IncDecTarget, Instruction, JumpTest, LoadByteSource, LoadByteTarget,
    LoadType, LoadWordSource, LoadWordTarget, PrefixTarget, StackTarget,
};
use crate::instructions::targets::register16_of_index;

verus! {

/// The arithmetic or logic instruction that operation field `op` selects.
pub open spec fn alu_opcode(op: int, operand: ArithmeticTarget) -> Instruction {
    if op == 0 {
        Instruction::ADD(operand)
    } else if op == 1 {
        Instruction::ADC(operand)
    } else if op == 2 {
        Instruction::SUB(operand)
    } else if op == 3 {
        Instruction::SBC(operand)
    } else if op == 4 {
        Instruction::AND(operand)
    } else if op == 5 {
        Instruction::XOR(operand)
    } else if op == 6 {
        Instruction::OR(operand)
    } else {
        Instruction::CP(operand)
    }
}

/// The rotate or shift that operation field `op` of a prefixed opcode selects.
pub open spec fn rotate_opcode(op: int, operand: PrefixTarget) -> Instruction {
    if op == 0 {
        Instruction::RLC(operand)
    } else if op == 1 {
        Instruction::RRC(operand)
    } else if op == 2 {
        Instruction::RL(operand)
    } else if op == 3 {
        Instruction::RR(operand)
    } else if op == 4 {
        Instruction::SLA(operand)
    } else if op == 5 {
        Instruction::SRA(operand)
    } else if op == 6 {
        Instruction::SWAP(operand)
    } else {
        Instruction::SRL(operand)
    }
}

/// The accumulator and flag instruction of the column `z == 7` in the first quarter.
pub open spec fn accumulator_opcode(y: int) -> Instruction {
    if y == 0 {
        Instruction::RLCA
    } else if y == 1 {
        Instruction::RRCA
    } else if y == 2 {
        Instruction::RLA
    } else if y == 3 {
        Instruction::RRA
    } else if y == 4 {
        Instruction::DAA
    } else if y == 5 {
        Instruction::CPL
    } else if y == 6 {
        Instruction::SCF
    } else {
        Instruction::CCF
    }
}

/// The load between the accumulator and memory at a register pair, column
/// `z == 2` of the first quarter: a store for `q == 0`, a load for `q == 1`.
pub open spec fn indirect_load_opcode(p: int, q: int) -> Instruction {
    if q == 0 {
        let target = if p == 0 {
            LoadByteTarget::BCI
        } else if p == 1 {
            LoadByteTarget::DEI
        } else if p == 2 {
            LoadByteTarget::HLI_INC
        } else {
            LoadByteTarget::HLI_DEC
        };
        Instruction::LD(LoadType::Byte(target, LoadByteSource::A))
    } else {
        let source = if p == 0 {
            LoadByteSource::BCI
        } else if p == 1 {
            LoadByteSource::DEI
        } else if p == 2 {
            LoadByteSource::HLI_INC
        } else {
            LoadByteSource::HLI_DEC
        };
        Instruction::LD(LoadType::Byte(LoadByteTarget::A, source))
    }
}

/// Opcodes 0x00-0x3F.
pub open spec fn first_quarter_opcode(y: int, z: int) -> Instruction {
    let p = y / 2;
    let q = y % 2;
    if z == 0 {
        if y == 0 {
            Instruction::NOP
        } else if y == 1 {
            Instruction::LD(LoadType::Word(LoadWordTarget::A16I, LoadWordSource::SP))
        } else if y == 2 {
            Instruction::STOP
        } else if y == 3 {
            Instruction::JR(JumpTest::Always)
        } else {
            Instruction::JR(JumpTest::of_index(y - 4))
        }
    } else if z == 1 {
        if q == 0 {
            Instruction::LD(LoadType::Word(LoadWordTarget::of_index(p), LoadWordSource::D16))
        } else {
            Instruction::ADDHL(register16_of_index(p))
        }
    } else if z == 2 {
        indirect_load_opcode(p, q)
    } else if z == 3 {
        if q == 0 {
            Instruction::INC(IncDecTarget::Reg16(register16_of_index(p)))
        } else {
            Instruction::DEC(IncDecTarget::Reg16(register16_of_index(p)))
        }
    } else if z == 4 {
        Instruction::INC(IncDecTarget::of_index(y))
    } else if z == 5 {
        Instruction::DEC(IncDecTarget::of_index(y))
    } else if z == 6 {
        Instruction::LD(LoadType::Byte(LoadByteTarget::of_index(y), LoadByteSource::D8))
    } else {
        accumulator_opcode(y)
    }
}

/// Opcodes 0xC0-0xFF, where some are unassigned.
pub open spec fn last_quarter_opcode(y: int, z: int) -> Option<Instruction> {
    let p = y / 2;
    let q = y % 2;
    if z == 0 {
        if y < 4 {
            Some(Instruction::RET(JumpTest::of_index(y)))
        } else if y == 4 {
            Some(Instruction::LD(LoadType::Byte(LoadByteTarget::A8I, LoadByteSource::A)))
        } else if y == 5 {
            Some(Instruction::ADDSP)
        } else if y == 6 {
            Some(Instruction::LD(LoadType::Byte(LoadByteTarget::A, LoadByteSource::A8I)))
        } else {
            Some(Instruction::LDHLSP)
        }
    } else if z == 1 {
        if q == 0 {
            Some(Instruction::POP(StackTarget::of_index(p)))
        } else if p == 0 {
            Some(Instruction::RET(JumpTest::Always))
        } else if p == 1 {
            Some(Instruction::RETI)
        } else if p == 2 {
            Some(Instruction::JPHL)
        } else {
            Some(Instruction::LD(LoadType::Word(LoadWordTarget::SP, LoadWordSource::HL)))
        }
    } else if z == 2 {
        if y < 4 {
            Some(Instruction::JP(JumpTest::of_index(y)))
        } else if y == 4 {
            Some(Instruction::LD(LoadType::Byte(LoadByteTarget::CI, LoadByteSource::A)))
        } else if y == 5 {
            Some(Instruction::LD(LoadType::Byte(LoadByteTarget::A16I, LoadByteSource::A)))
        } else if y == 6 {
            Some(Instruction::LD(LoadType::Byte(LoadByteTarget::A, LoadByteSource::CI)))
        } else {
            Some(Instruction::LD(LoadType::Byte(LoadByteTarget::A, LoadByteSource::A16I)))
        }
    } else if z == 3 {
        if y == 0 {
            Some(Instruction::JP(JumpTest::Always))
        } else if y == 6 {
            Some(Instruction::DI)
        } else if y == 7 {
            Some(Instruction::EI)
        } else {
            None
        }
    } else if z == 4 {
        if y < 4 {
            Some(Instruction::CALL(JumpTest::of_index(y)))
        } else {
            None
        }
    } else if z == 5 {
        if q == 0 {
            Some(Instruction::PUSH(StackTarget::of_index(p)))
        } else if p == 0 {
            Some(Instruction::CALL(JumpTest::Always))
        } else {
            None
        }
    } else if z == 6 {
        Some(alu_opcode(y, ArithmeticTarget::D8))
    } else {
        Some(Instruction::RST((y * 8) as u8))
    }
}

/// The instruction that an opcode byte without prefix stands for. The eleven
/// unassigned opcodes and the prefix byte 0xCB itself stand for none.
pub open spec fn unprefixed_opcode(byte: u8) -> Option<Instruction> {
    let x = byte as int / 64;
    let y = (byte as int / 8) % 8;
    let z = byte as int % 8;
    if x == 0 {
        Some(first_quarter_opcode(y, z))
    } else if x == 1 {
        if y == 6 && z == 6 {
            Some(Instruction::HALT)
        } else {
            Some(Instruction::LD(LoadType::Byte(LoadByteTarget::of_index(y), LoadByteSource::of_index(z))))
        }
    } else if x == 2 {
        Some(alu_opcode(y, ArithmeticTarget::of_index(z)))
    } else {
        last_quarter_opcode(y, z)
    }
}

/// The instruction that a byte after the 0xCB prefix stands for: every byte
/// is assigned.
pub open spec fn prefixed_opcode(byte: u8) -> Instruction {
    let x = byte as int / 64;
    let y = (byte as int / 8) % 8;
    let operand = PrefixTarget::of_index(byte as int % 8);
    if x == 0 {
        rotate_opcode(y, operand)
    } else if x == 1 {
        Instruction::BIT(y as u8, operand)
    } else if x == 2 {
        Instruction::RES(y as u8, operand)
    } else {
        Instruction::SET(y as u8, operand)
    }
}

/// The opcode map.
pub open spec fn opcode(byte: u8, prefixed: bool) -> Option<Instruction> {
    if prefixed {
        Some(prefixed_opcode(byte))
    } else {
        unprefixed_opcode(byte)
    }
}

/// Restricts a decoding to the instructions of one family.
pub open spec fn within(decoded: Option<Instruction>, family: spec_fn(Instruction) -> bool) -> Option<Instruction> {
    match decoded {
        Some(i) => if family(i) { Some(i) } else { None },
        None => None,
    }
}

/// The opcodes without prefix that stand for no instruction: the prefix byte
/// itself and the eleven unassigned ones.
pub open spec fn unassigned(byte: u8) -> bool {
    byte == 0xCB || byte == 0xD3 || byte == 0xDB || byte == 0xDD || byte == 0xE3 || byte == 0xE4
        || byte == 0xEB || byte == 0xEC || byte == 0xED || byte == 0xF4 || byte == 0xFC || byte
        == 0xFD
}

/// Every opcode stands for an instruction, but the unassigned ones.
pub proof fn lemma_assigned_opcodes(byte: u8, prefixed: bool)
    ensures
        opcode(byte, prefixed) is None <==> !prefixed && unassigned(byte),
{
}

/// An instruction decoded from a prefixed byte is a rotate, a shift or a
/// bit operation, and one decoded without prefix is none of these.
pub proof fn lemma_prefix_separates(byte: u8, prefixed: bool)
    requires
        opcode(byte, prefixed) is Some,
    ensures
        prefixed <==> prefix::handles(opcode(byte, prefixed).unwrap()) || prefix::handles_rotate(
            opcode(byte, prefixed).unwrap(),
        ) || prefix::handles_bit(opcode(byte, prefixed).unwrap()),
{
}

/// No two opcodes stand for the same instruction.
pub proof fn lemma_opcodes_distinct(first: u8, first_prefixed: bool, second: u8, second_prefixed: bool)
    requires
        opcode(first, first_prefixed) is Some,
        opcode(first, first_prefixed) == opcode(second, second_prefixed),
    ensures
        first == second,
        first_prefixed == second_prefixed,
{
    lemma_prefix_separates(first, first_prefixed);
    lemma_prefix_separates(second, second_prefixed);
    let x1 = first as int / 64;
    let y1 = (first as int / 8) % 8;
    let z1 = first as int % 8;
    let x2 = second as int / 64;
    let y2 = (second as int / 8) % 8;
    let z2 = second as int % 8;
    assert(first == x1 * 64 + y1 * 8 + z1);
    assert(second == x2 * 64 + y2 * 8 + z2);
    assert(x1 == x2);
    assert(y1 == y2);
    assert(z1 == z2);
}

/// Every instruction belongs to exactly one of the decoder's families.
pub proof fn lemma_families_partition(i: Instruction)
    ensures
        control_flow::handles(i) || incdec::handles(i) || arithmetic::handles(i)
            || load::handles(i) || stack::handles(i) || arithmetic16::handles(i)
            || accumulator::handles(i) || restart::handles(i) || prefix::handles(i)
            || prefix::handles_rotate(i) || prefix::handles_bit(i),
        control_flow::handles(i) ==> !incdec::handles(i) && !arithmetic::handles(i)
            && !load::handles(i) && !stack::handles(i) && !arithmetic16::handles(i)
            && !accumulator::handles(i) && !restart::handles(i),
        incdec::handles(i) ==> !arithmetic::handles(i) && !load::handles(i)
            && !stack::handles(i) && !arithmetic16::handles(i) && !accumulator::handles(i)
            && !restart::handles(i),
        arithmetic::handles(i) ==> !load::handles(i) && !stack::handles(i)
            && !arithmetic16::handles(i) && !accumulator::handles(i) && !restart::handles(i),
        load::handles(i) ==> !stack::handles(i) && !arithmetic16::handles(i)
            && !accumulator::handles(i) && !restart::handles(i),
        stack::handles(i) ==> !arithmetic16::handles(i) && !accumulator::handles(i)
            && !restart::handles(i),
        arithmetic16::handles(i) ==> !accumulator::handles(i) && !restart::handles(i),
        accumulator::handles(i) ==> !restart::handles(i),
        prefix::handles(i) ==> !prefix::handles_rotate(i) && !prefix::handles_bit(i),
        prefix::handles_rotate(i) ==> !prefix::handles_bit(i),
{
}

/// Decodes one opcode byte. `prefixed` says that the byte followed the 0xCB
/// prefix. Unassigned opcodes give nothing.
pub fn decode_instruction(byte: u8, prefixed: bool) -> (r: Option<Instruction>)
    ensures
        r == opcode(byte, prefixed),
{
    if prefixed {
        decode_prefixed(byte)
    } else {
        decode_not_prefixed(byte)
    }
}

/// Decodes a byte that followed the 0xCB prefix: a rotate, a shift or a bit
/// operation. Every byte decodes.
pub fn decode_prefixed(byte: u8) -> (r: Option<Instruction>)
    ensures
        r == Some(prefixed_opcode(byte)),
{
    proof {
        lemma_families_partition(prefixed_opcode(byte));
    }
    match prefix::decode(byte) {
        Some(i) => Some(i),
        None => match prefix::decode_rotate(byte) {
            Some(i) => Some(i),
            None => prefix::decode_bit(byte),
        },
    }
}

/// Decodes an opcode byte without prefix by trying each family in turn.
pub fn decode_not_prefixed(byte: u8) -> (r: Option<Instruction>)
    ensures
        r == unprefixed_opcode(byte),
{
    proof {
        if let Some(i) = unprefixed_opcode(byte) {
            lemma_families_partition(i);
        }
    }
    if let Some(i) = control_flow::decode(byte) {
        return Some(i);
    }
    if let Some(i) = incdec::decode(byte) {
        return Some(i);
    }
    if let Some(i) = arithmetic::decode(byte) {
        return Some(i);
    }
    if let Some(i) = load::decode(byte) {
        return Some(i);
    }
    if let Some(i) = stack::decode(byte) {
        return Some(i);
    }
    if let Some(i) = arithmetic16::decode(byte) {
        return Some(i);
    }
    if let Some(i) = accumulator::decode(byte) {
        return Some(i);
    }
    restart::decode(byte)
}

} // verus!
