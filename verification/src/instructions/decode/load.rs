//! Loads and stores between registers, memory and immediate operands.

use vstd::prelude::*;
use crate::instructions::{
    Instruction, LoadByteSource, LoadByteTarget, LoadType, LoadWordSource, LoadWordTarget,
};
use crate::instructions::decode::{unprefixed_opcode, within};
use crate::instructions::decode::arithmetic16::is_sp_from_hl;

verus! {

/// The load family: every load and store but `LD SP, HL`, which is decoded
/// with the 16-bit arithmetic.
pub open spec fn handles(i: Instruction) -> bool {
    i matches Instruction::LD(load) && !is_sp_from_hl(load)
}

/// Decodes the loads and stores, and no other opcode.
pub fn decode(byte: u8) -> (r: Option<Instruction>)
    ensures
        r == within(unprefixed_opcode(byte), |i: Instruction| handles(i)),
{
    // Register block 0x40-0x7F; 0x76 in its middle is HALT.
    if 0x40 <= byte && byte <= 0x7F && byte != 0x76 {
        return decode_register_load(byte);
    }

    // Immediate byte into a register or into memory at HL.
    match byte {
        0x06 => {
            return Some(Instruction::LD(LoadType::Byte(LoadByteTarget::B, LoadByteSource::D8)));
        },
        0x0E => {
            return Some(Instruction::LD(LoadType::Byte(LoadByteTarget::C, LoadByteSource::D8)));
        },
        0x16 => {
            return Some(Instruction::LD(LoadType::Byte(LoadByteTarget::D, LoadByteSource::D8)));
        },
        0x1E => {
            return Some(Instruction::LD(LoadType::Byte(LoadByteTarget::E, LoadByteSource::D8)));
        },
        0x26 => {
            return Some(Instruction::LD(LoadType::Byte(LoadByteTarget::H, LoadByteSource::D8)));
        },
        0x2E => {
            return Some(Instruction::LD(LoadType::Byte(LoadByteTarget::L, LoadByteSource::D8)));
        },
        0x3E => {
            return Some(Instruction::LD(LoadType::Byte(LoadByteTarget::A, LoadByteSource::D8)));
        },
        0x36 => {
            return Some(Instruction::LD(LoadType::Byte(LoadByteTarget::HLI, LoadByteSource::D8)));
        },
        _ => {},
    }

    // Immediate word into a register pair.
    if byte == 0x01 || byte == 0x11 || byte == 0x21 || byte == 0x31 {
        if let Some(dst) = LoadWordTarget::from_bits(byte) {
            return Some(Instruction::LD(LoadType::Word(dst, LoadWordSource::D16)));
        }
    }

    // Loads and stores through a register pair or an immediate address.
    match byte {
        0x0A => {
            return Some(Instruction::LD(LoadType::Byte(LoadByteTarget::A, LoadByteSource::BCI)));
        },
        0x02 => {
            return Some(Instruction::LD(LoadType::Byte(LoadByteTarget::BCI, LoadByteSource::A)));
        },
        0x08 => {
            return Some(Instruction::LD(LoadType::Word(LoadWordTarget::A16I, LoadWordSource::SP)));
        },
        0x22 => {
            return Some(
                Instruction::LD(LoadType::Byte(LoadByteTarget::HLI_INC, LoadByteSource::A)),
            );
        },
        0x32 => {
            return Some(
                Instruction::LD(LoadType::Byte(LoadByteTarget::HLI_DEC, LoadByteSource::A)),
            );
        },
        0x1A => {
            return Some(Instruction::LD(LoadType::Byte(LoadByteTarget::A, LoadByteSource::DEI)));
        },
        0x2A => {
            return Some(
                Instruction::LD(LoadType::Byte(LoadByteTarget::A, LoadByteSource::HLI_INC)),
            );
        },
        0x3A => {
            return Some(
                Instruction::LD(LoadType::Byte(LoadByteTarget::A, LoadByteSource::HLI_DEC)),
            );
        },
        0x12 => {
            return Some(Instruction::LD(LoadType::Byte(LoadByteTarget::DEI, LoadByteSource::A)));
        },
        0xEA => {
            return Some(Instruction::LD(LoadType::Byte(LoadByteTarget::A16I, LoadByteSource::A)));
        },
        0xFA => {
            return Some(Instruction::LD(LoadType::Byte(LoadByteTarget::A, LoadByteSource::A16I)));
        },
        0xE0 => {
            return Some(Instruction::LD(LoadType::Byte(LoadByteTarget::A8I, LoadByteSource::A)));
        },
        0xF0 => {
            return Some(Instruction::LD(LoadType::Byte(LoadByteTarget::A, LoadByteSource::A8I)));
        },
        0xE2 => {
            return Some(Instruction::LD(LoadType::Byte(LoadByteTarget::CI, LoadByteSource::A)));
        },
        0xF2 => {
            return Some(Instruction::LD(LoadType::Byte(LoadByteTarget::A, LoadByteSource::CI)));
        },
        _ => {},
    }

    None
}

/// Decodes a load of the register block: bits 5-3 select the target, bits
/// 2-0 the source.
pub fn decode_register_load(byte: u8) -> (r: Option<Instruction>)
    ensures
        r == Some(
            Instruction::LD(
                LoadType::Byte(
                    LoadByteTarget::of_index(((byte / 8) % 8) as int),
                    LoadByteSource::of_index((byte % 8) as int),
                ),
            ),
        ),
{
    let dst = LoadByteTarget::from_upper_bits(byte)?;
    let src = LoadByteSource::from_lower_bits(byte)?;
    Some(Instruction::LD(LoadType::Byte(dst, src)))
}

} // verus!
