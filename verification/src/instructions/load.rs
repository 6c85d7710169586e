//! Operands of the load and store instructions.

use vstd::prelude::*;
use crate::bits::lemma_u8_masks;

verus! {

/// Where an 8-bit load stores its byte.
#[derive(Debug, Copy, Clone)]
#[allow(non_camel_case_types)]
pub enum LoadByteTarget {
    A,
    B,
    C,
    D,
    E,
    H,
    L,
    /// Memory at `HL`.
    HLI,
    /// Memory at `HL`, after which `HL` is incremented.
    HLI_INC,
    /// Memory at `HL`, after which `HL` is decremented.
    HLI_DEC,
    /// Memory at `DE`.
    DEI,
    /// Memory at `BC`.
    BCI,
    /// Memory at the 16-bit address that follows the opcode.
    A16I,
    /// Memory at 0xFF00 plus the byte that follows the opcode.
    A8I,
    /// Memory at 0xFF00 plus `C`.
    CI,
}

/// Where an 8-bit load takes its byte from.
#[derive(Debug, Copy, Clone)]
#[allow(non_camel_case_types)]
pub enum LoadByteSource {
    A,
    B,
    C,
    D,
    E,
    H,
    L,
    /// The byte that follows the opcode.
    D8,
    /// Memory at `HL`.
    HLI,
    /// Memory at `HL`, after which `HL` is incremented.
    HLI_INC,
    /// Memory at `HL`, after which `HL` is decremented.
    HLI_DEC,
    /// Memory at `BC`.
    BCI,
    /// Memory at `DE`.
    DEI,
    /// Memory at the 16-bit address that follows the opcode.
    A16I,
    /// Memory at 0xFF00 plus the byte that follows the opcode.
    A8I,
    /// Memory at 0xFF00 plus `C`.
    CI,
}

/// Where a 16-bit load stores its word.
#[derive(Debug, Copy, Clone)]
pub enum LoadWordTarget {
    HL,
    BC,
    DE,
    SP,
    /// Memory at the 16-bit address that follows the opcode, low byte first.
    A16I,
}

/// Where a 16-bit load takes its word from.
#[derive(Debug, Copy, Clone)]
pub enum LoadWordSource {
    /// The word that follows the opcode, low byte first.
    D16,
    SP,
    HL,
}

/// A load or store, by operand width.
#[derive(Debug, Copy, Clone)]
pub enum LoadType {
    Byte(LoadByteTarget, LoadByteSource),
    Word(LoadWordTarget, LoadWordSource),
}

impl LoadByteTarget {
    /// The target that a 3-bit operand field selects.
    pub open spec fn of_index(i: int) -> LoadByteTarget {
        if i == 0 {
            LoadByteTarget::B
        } else if i == 1 {
            LoadByteTarget::C
        } else if i == 2 {
            LoadByteTarget::D
        } else if i == 3 {
            LoadByteTarget::E
        } else if i == 4 {
            LoadByteTarget::H
        } else if i == 5 {
            LoadByteTarget::L
        } else if i == 6 {
            LoadByteTarget::HLI
        } else {
            LoadByteTarget::A
        }
    }

    /// The target that bits 5-3 of an opcode select.
    pub fn from_upper_bits(bits: u8) -> (r: Option<Self>)
        ensures
            r == Some(Self::of_index(((bits / 8) % 8) as int)),
    {
        proof {
            lemma_u8_masks(bits);
        }
        match (bits >> 3) & 0x07 {
            0x00 => Some(LoadByteTarget::B),
            0x01 => Some(LoadByteTarget::C),
            0x02 => Some(LoadByteTarget::D),
            0x03 => Some(LoadByteTarget::E),
            0x04 => Some(LoadByteTarget::H),
            0x05 => Some(LoadByteTarget::L),
            0x06 => Some(LoadByteTarget::HLI),
            _ => Some(LoadByteTarget::A),
        }
    }
}

impl LoadByteSource {
    /// The source that a 3-bit operand field selects.
    pub open spec fn of_index(i: int) -> LoadByteSource {
        if i == 0 {
            LoadByteSource::B
        } else if i == 1 {
            LoadByteSource::C
        } else if i == 2 {
            LoadByteSource::D
        } else if i == 3 {
            LoadByteSource::E
        } else if i == 4 {
            LoadByteSource::H
        } else if i == 5 {
            LoadByteSource::L
        } else if i == 6 {
            LoadByteSource::HLI
        } else {
            LoadByteSource::A
        }
    }

    /// The source that bits 2-0 of an opcode select.
    pub fn from_lower_bits(bits: u8) -> (r: Option<Self>)
        ensures
            r == Some(Self::of_index((bits % 8) as int)),
    {
        proof {
            lemma_u8_masks(bits);
        }
        match bits & 0x07 {
            0x00 => Some(LoadByteSource::B),
            0x01 => Some(LoadByteSource::C),
            0x02 => Some(LoadByteSource::D),
            0x03 => Some(LoadByteSource::E),
            0x04 => Some(LoadByteSource::H),
            0x05 => Some(LoadByteSource::L),
            0x06 => Some(LoadByteSource::HLI),
            _ => Some(LoadByteSource::A),
        }
    }
}

impl LoadWordTarget {
    /// The register that a 2-bit pair field selects.
    pub open spec fn of_index(i: int) -> LoadWordTarget {
        if i == 0 {
            LoadWordTarget::BC
        } else if i == 1 {
            LoadWordTarget::DE
        } else if i == 2 {
            LoadWordTarget::HL
        } else {
            LoadWordTarget::SP
        }
    }

    /// The register that bits 5-4 of an opcode select.
    pub fn from_bits(bits: u8) -> (r: Option<Self>)
        ensures
            r == Some(Self::of_index(((bits / 16) % 4) as int)),
    {
        proof {
            lemma_u8_masks(bits);
        }
        match (bits >> 4) & 0x03 {
            0x00 => Some(LoadWordTarget::BC),
            0x01 => Some(LoadWordTarget::DE),
            0x02 => Some(LoadWordTarget::HL),
            _ => Some(LoadWordTarget::SP),
        }
    }
}

} // verus!
