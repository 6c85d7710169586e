//! The picture unit, as far as the CPU sees it: 8 KiB of video RAM and the
//! twelve LCD registers at 0xFF40-0xFF4B.
//!
//! The first 6 KiB of video RAM hold 384 tiles of 8 by 8 pixels. A row of a
//! tile takes two bytes: a pixel's value has its low bit in the first byte and
//! its high bit in the second, the leftmost pixel in bit 7. The unit keeps the
//! pixels of all tiles unpacked beside the raw bytes, and every write to video
//! RAM brings the row it touches up to date.

use vstd::prelude::*;
use crate::bits::{bit_is_set, lemma_u8_single_bits, single_bit};

verus! {

pub const VRAM_SIZE: usize = 0x2000;

/// Bytes of video RAM that hold tiles.
pub const TILE_DATA_SIZE: usize = 0x1800;

pub const TILE_COUNT: usize = 384;

/// Pixels of all tiles together.
pub const TILE_PIXELS: usize = 24576;

pub const LCDC_ADDR: u16 = 0xFF40;

pub const STAT_ADDR: u16 = 0xFF41;

pub const SCY_ADDR: u16 = 0xFF42;

pub const SCX_ADDR: u16 = 0xFF43;

pub const LY_ADDR: u16 = 0xFF44;

pub const LYC_ADDR: u16 = 0xFF45;

pub const DMA_ADDR: u16 = 0xFF46;

pub const BGP_ADDR: u16 = 0xFF47;

pub const OBP0_ADDR: u16 = 0xFF48;

pub const OBP1_ADDR: u16 = 0xFF49;

pub const WY_ADDR: u16 = 0xFF4A;

pub const WX_ADDR: u16 = 0xFF4B;

/// The value of one pixel of a tile.
#[derive(Debug, Copy, Clone, PartialEq, Eq, Structural)]
pub enum TilePixelValue {
    Zero,
    One,
    Two,
    Three,
}

/// The twelve LCD registers.
#[derive(Debug, Copy, Clone)]
pub struct LcdRegisters {
    /// LCD control, 0xFF40.
    pub lcdc: u8,
    /// LCD status, 0xFF41.
    pub stat: u8,
    /// Scroll Y, 0xFF42.
    pub scy: u8,
    /// Scroll X, 0xFF43.
    pub scx: u8,
    /// Current line, 0xFF44. Writable here, though the hardware only reads it.
    pub ly: u8,
    /// Line to compare with, 0xFF45.
    pub lyc: u8,
    /// Start of a DMA transfer, 0xFF46.
    pub dma: u8,
    /// Background palette, 0xFF47.
    pub bgp: u8,
    /// Object palette 0, 0xFF48.
    pub obp0: u8,
    /// Object palette 1, 0xFF49.
    pub obp1: u8,
    /// Window Y, 0xFF4A.
    pub wy: u8,
    /// Window X, 0xFF4B.
    pub wx: u8,
}

impl LcdRegisters {
    /// The registers at power-on: display and background on, default palettes.
    pub open spec fn initial() -> LcdRegisters {
        LcdRegisters {
            lcdc: 0x91,
            stat: 0,
            scy: 0,
            scx: 0,
            ly: 0,
            lyc: 0,
            dma: 0,
            bgp: 0xFC,
            obp0: 0xFF,
            obp1: 0xFF,
            wy: 0,
            wx: 0,
        }
    }

    /// What a read at an address gives; 0 where no LCD register is.
    pub open spec fn register(self, addr: u16) -> u8 {
        if addr == LCDC_ADDR {
            self.lcdc
        } else if addr == STAT_ADDR {
            self.stat
        } else if addr == SCY_ADDR {
            self.scy
        } else if addr == SCX_ADDR {
            self.scx
        } else if addr == LY_ADDR {
            self.ly
        } else if addr == LYC_ADDR {
            self.lyc
        } else if addr == DMA_ADDR {
            self.dma
        } else if addr == BGP_ADDR {
            self.bgp
        } else if addr == OBP0_ADDR {
            self.obp0
        } else if addr == OBP1_ADDR {
            self.obp1
        } else if addr == WY_ADDR {
            self.wy
        } else if addr == WX_ADDR {
            self.wx
        } else {
            0
        }
    }

    /// The registers after a write at an address; unchanged where no LCD
    /// register is.
    pub open spec fn with_register(self, addr: u16, value: u8) -> LcdRegisters {
        if addr == LCDC_ADDR {
            LcdRegisters { lcdc: value, ..self }
        } else if addr == STAT_ADDR {
            LcdRegisters { stat: value, ..self }
        } else if addr == SCY_ADDR {
            LcdRegisters { scy: value, ..self }
        } else if addr == SCX_ADDR {
            LcdRegisters { scx: value, ..self }
        } else if addr == LY_ADDR {
            LcdRegisters { ly: value, ..self }
        } else if addr == LYC_ADDR {
            LcdRegisters { lyc: value, ..self }
        } else if addr == DMA_ADDR {
            LcdRegisters { dma: value, ..self }
        } else if addr == BGP_ADDR {
            LcdRegisters { bgp: value, ..self }
        } else if addr == OBP0_ADDR {
            LcdRegisters { obp0: value, ..self }
        } else if addr == OBP1_ADDR {
            LcdRegisters { obp1: value, ..self }
        } else if addr == WY_ADDR {
            LcdRegisters { wy: value, ..self }
        } else if addr == WX_ADDR {
            LcdRegisters { wx: value, ..self }
        } else {
            self
        }
    }

    /// An LCD register reads back what was written to it, and a write to one
    /// register leaves the others alone.
    pub proof fn lemma_read_after_write(self, addr: u16, other: u16, value: u8)
        ensures
            LCDC_ADDR <= addr <= WX_ADDR ==> self.with_register(addr, value).register(addr)
                == value,
            other != addr ==> self.with_register(addr, value).register(other) == self.register(
                other,
            ),
    {
    }
}

/// What the CPU can observe of the picture unit.
pub struct GpuState {
    /// The bytes of video RAM.
    pub vram: Seq<u8>,
    /// The LCD registers.
    pub lcd: LcdRegisters,
}

impl GpuState {
    /// The picture unit at power-on: video RAM cleared.
    pub open spec fn initial() -> GpuState {
        GpuState { vram: Seq::new(VRAM_SIZE as nat, |i: int| 0u8), lcd: LcdRegisters::initial() }
    }

    /// After a write to video RAM.
    pub open spec fn with_vram(self, index: int, value: u8) -> GpuState {
        GpuState { vram: self.vram.update(index, value), ..self }
    }

    /// After a write to an LCD register.
    pub open spec fn with_register(self, addr: u16, value: u8) -> GpuState {
        GpuState { lcd: self.lcd.with_register(addr, value), ..self }
    }
}

/// The pixel in a column of a tile row that is stored as the bytes `low`
/// and `high`. Column 0 is bit 7.
pub open spec fn pixel_of(low: u8, high: u8, column: int) -> TilePixelValue {
    let lsb = bit_is_set(low, 7 - column);
    let msb = bit_is_set(high, 7 - column);
    if lsb && msb {
        TilePixelValue::Three
    } else if msb {
        TilePixelValue::Two
    } else if lsb {
        TilePixelValue::One
    } else {
        TilePixelValue::Zero
    }
}

/// The pixel that video RAM holds for an entry of the unpacked tiles: entry
/// `k` is column `k % 8` of the row stored in the byte pair `k / 8`.
pub open spec fn pixel_at(vram: Seq<u8>, k: int) -> TilePixelValue {
    pixel_of(vram[(k / 8) * 2], vram[(k / 8) * 2 + 1], k % 8)
}

/// The picture unit.
pub struct GPU {
    vram: Vec<u8>,
    tile_set: Vec<TilePixelValue>,
    lcd: LcdRegisters,
}

impl View for GPU {
    type V = GpuState;

    closed spec fn view(&self) -> GpuState {
        GpuState { vram: self.vram@, lcd: self.lcd }
    }
}

impl GPU {
    /// The unpacked pixels, tile after tile, each tile row after row.
    pub closed spec fn tiles(&self) -> Seq<TilePixelValue> {
        self.tile_set@
    }

    /// Video RAM has its size, and the unpacked tiles agree with it.
    pub closed spec fn wf(&self) -> bool {
        &&& self.vram@.len() == VRAM_SIZE
        &&& self.tile_set@.len() == TILE_PIXELS
        &&& forall|k: int| 0 <= k < TILE_PIXELS ==> #[trigger] self.tile_set@[k] == pixel_at(self.vram@, k)
    }

    /// What well-formedness says of the view and of the unpacked tiles.
    pub proof fn lemma_wf(&self)
        requires
            self.wf(),
        ensures
            self@.vram.len() == VRAM_SIZE,
            self.tiles().len() == TILE_PIXELS,
            forall|k: int| 0 <= k < TILE_PIXELS ==> #[trigger] self.tiles()[k] == pixel_at(self@.vram, k),
    {
    }

    /// The picture unit at power-on.
    pub fn new() -> (r: GPU)
        ensures
            r.wf(),
            r@ == GpuState::initial(),
    {
        let gpu = GPU {
            vram: vec![0u8; VRAM_SIZE],
            tile_set: vec![TilePixelValue::Zero; TILE_PIXELS],
            lcd: LcdRegisters {
                lcdc: 0x91,
                stat: 0,
                scy: 0,
                scx: 0,
                ly: 0,
                lyc: 0,
                dma: 0,
                bgp: 0xFC,
                obp0: 0xFF,
                obp1: 0xFF,
                wy: 0,
                wx: 0,
            },
        };
        assert(gpu.vram@ =~= GpuState::initial().vram);
        gpu
    }

    /// Reads a byte of video RAM.
    pub fn read_vram(&self, address: usize) -> (r: u8)
        requires
            self.wf(),
            address < VRAM_SIZE,
        ensures
            r == self@.vram[address as int],
    {
        self.vram[address]
    }

    /// Writes a byte of video RAM and, where the byte belongs to a tile,
    /// unpacks the row of eight pixels that it is part of.
    pub fn write_vram(&mut self, index: usize, value: u8)
        requires
            old(self).wf(),
            index < VRAM_SIZE,
        ensures
            final(self).wf(),
            final(self)@ == old(self)@.with_vram(index as int, value),
    {
        self.vram[index] = value;
        if index >= TILE_DATA_SIZE {
            return;
        }
        // A row starts at an even address.
        let normalized_index: usize = index - index % 2;
        let byte1: u8 = self.vram[normalized_index];
        let byte2: u8 = self.vram[normalized_index + 1];
        let tile_index: usize = index / 16;
        let row_index: usize = (index % 16) / 2;
        let base: usize = (tile_index * 8 + row_index) * 8;
        assert(base == (index / 2) * 8);
        let mut pixel_index: usize = 0;
        while pixel_index < 8
            invariant
                pixel_index <= 8,
                index < TILE_DATA_SIZE,
                base == (index / 2) * 8,
                self.lcd == old(self).lcd,
                self.vram@ == old(self).vram@.update(index as int, value),
                self.vram@.len() == VRAM_SIZE,
                self.tile_set@.len() == TILE_PIXELS,
                byte1 == self.vram@[(index / 2) * 2],
                byte2 == self.vram@[(index / 2) * 2 + 1],
                forall|k: int|
                    0 <= k < TILE_PIXELS && (k / 8 != index / 2 || k % 8 < pixel_index)
                        ==> #[trigger] self.tile_set@[k] == pixel_at(self.vram@, k),
            decreases 8 - pixel_index,
        {
            let mask: u8 = single_bit((7 - pixel_index) as u8);
            proof {
                lemma_u8_single_bits(byte1);
                lemma_u8_single_bits(byte2);
            }
            let lsb: u8 = byte1 & mask;
            let msb: u8 = byte2 & mask;
            let pixel = if lsb != 0 && msb != 0 {
                TilePixelValue::Three
            } else if msb != 0 {
                TilePixelValue::Two
            } else if lsb != 0 {
                TilePixelValue::One
            } else {
                TilePixelValue::Zero
            };
            assert(pixel == pixel_of(byte1, byte2, pixel_index as int));
            self.tile_set[base + pixel_index] = pixel;
            pixel_index = pixel_index + 1;
        }
    }

    /// The pixel in a row and column of a tile, as video RAM holds it.
    pub fn tile_pixel(&self, tile: usize, row: usize, column: usize) -> (r: TilePixelValue)
        requires
            self.wf(),
            tile < TILE_COUNT,
            row < 8,
            column < 8,
        ensures
            r == pixel_of(
                self@.vram[tile * 16 + row * 2],
                self@.vram[tile * 16 + row * 2 + 1],
                column as int,
            ),
    {
        let k: usize = (tile * 8 + row) * 8 + column;
        assert(k / 8 == tile * 8 + row && k % 8 == column);
        assert(self.tile_set@[k as int] == pixel_at(self.vram@, k as int));
        self.tile_set[k]
    }

    /// Reads an LCD register; 0 at an address that holds none.
    pub fn read_register(&self, addr: u16) -> (r: u8)
        ensures
            r == self@.lcd.register(addr),
    {
        match addr {
            LCDC_ADDR => self.lcd.lcdc,
            STAT_ADDR => self.lcd.stat,
            SCY_ADDR => self.lcd.scy,
            SCX_ADDR => self.lcd.scx,
            LY_ADDR => self.lcd.ly,
            LYC_ADDR => self.lcd.lyc,
            DMA_ADDR => self.lcd.dma,
            BGP_ADDR => self.lcd.bgp,
            OBP0_ADDR => self.lcd.obp0,
            OBP1_ADDR => self.lcd.obp1,
            WY_ADDR => self.lcd.wy,
            WX_ADDR => self.lcd.wx,
            _ => 0,
        }
    }

    /// Writes an LCD register; ignored at an address that holds none.
    pub fn write_register(&mut self, addr: u16, value: u8)
        requires
            old(self).wf(),
        ensures
            final(self).wf(),
            final(self)@ == old(self)@.with_register(addr, value),
    {
        match addr {
            LCDC_ADDR => self.lcd.lcdc = value,
            STAT_ADDR => self.lcd.stat = value,
            SCY_ADDR => self.lcd.scy = value,
            SCX_ADDR => self.lcd.scx = value,
            LY_ADDR => self.lcd.ly = value,
            LYC_ADDR => self.lcd.lyc = value,
            DMA_ADDR => self.lcd.dma = value,
            BGP_ADDR => self.lcd.bgp = value,
            OBP0_ADDR => self.lcd.obp0 = value,
            OBP1_ADDR => self.lcd.obp1 = value,
            WY_ADDR => self.lcd.wy = value,
            WX_ADDR => self.lcd.wx = value,
            _ => {},
        }
    }
}

} // verus!
