//! The memory bus: the 64 KiB address space and what answers at each address.
//!
//! | addresses     | region                                        |
//! |---------------|-----------------------------------------------|
//! | 0x0000-0x7FFF | ROM; writes are dropped                       |
//! | 0x8000-0x9FFF | video RAM, held by the picture unit           |
//! | 0xA000-0xBFFF | external RAM                                  |
//! | 0xC000-0xDFFF | work RAM                                      |
//! | 0xE000-0xFDFF | echo of work RAM, 0x2000 below                |
//! | 0xFE00-0xFE9F | object attribute memory                       |
//! | 0xFEA0-0xFEFF | nothing: reads 0xFF, writes are dropped       |
//! | 0xFF00-0xFF7F | I/O: serial, timer, IF and LCD registers      |
//! | 0xFF80-0xFFFE | high RAM                                      |
//! | 0xFFFF        | IE                                            |
//!
//! I/O addresses that none of the devices answers at are plain storage.
//!
//! A serial transfer is instantaneous: a write to the serial control register
//! with bit 7 set appends the serial data byte to the output and stores the
//! control byte with bit 7 cleared. The transfer does not request the serial
//! interrupt: nothing on this bus ever requests it.

use vstd::prelude::*;
use crate::bits::lemma_u8_masks;
use crate::interrupts::{Interrupt, InterruptController};
use crate::ppu::{GpuState, GPU, LCDC_ADDR, VRAM_SIZE, WX_ADDR};
use crate::timer::{Timer, DIV_REGISTER, TAC_REGISTER};

verus! {

/// Size of the address space.
pub const MEM_SIZE: usize = 0x10000;

pub const ROM_END: u16 = 0x7FFF;

pub const VRAM_START: u16 = 0x8000;

pub const VRAM_END: u16 = 0x9FFF;

pub const ECHO_RAM_START: u16 = 0xE000;

pub const ECHO_RAM_END: u16 = 0xFDFF;

/// Distance from an echo address down to the work RAM byte it stands for.
pub const ECHO_RAM_MIRROR_OFFSET: u16 = 0x2000;

pub const OAM_END: u16 = 0xFE9F;

pub const IO_REGISTERS_START: u16 = 0xFF00;

/// SB, the serial data register.
pub const SERIAL_TRANSFER_DATA: u16 = 0xFF01;

/// SC, the serial control register.
pub const SERIAL_TRANSFER_CONTROL: u16 = 0xFF02;

/// IF, the interrupt request register.
pub const INTERRUPT_FLAG_REGISTER: u16 = 0xFF0F;

/// IE, the interrupt enable register.
pub const INTERRUPT_ENABLE_REGISTER: u16 = 0xFFFF;

/// What a read finds where nothing is mapped.
pub const UNMAPPED_MEMORY_VALUE: u8 = 0xFF;

/// What answers at an address.
pub enum Region {
    /// Plain storage that the CPU cannot write.
    Rom,
    /// Video RAM.
    Vram,
    /// Plain storage: external, work and high RAM, object attribute memory,
    /// and the I/O addresses without a device.
    Ram,
    /// The echo of work RAM.
    Echo,
    /// Nothing.
    Unmapped,
    /// The serial data register.
    SerialData,
    /// The serial control register.
    SerialControl,
    /// One of the timer's four registers.
    Timer,
    /// IF.
    InterruptFlag,
    /// One of the LCD registers.
    Lcd,
    /// IE.
    InterruptEnable,
}

/// The region that an address lies in.
pub open spec fn region_of(addr: u16) -> Region {
    if addr <= ROM_END {
        Region::Rom
    } else if addr <= VRAM_END {
        Region::Vram
    } else if addr < ECHO_RAM_START {
        Region::Ram
    } else if addr <= ECHO_RAM_END {
        Region::Echo
    } else if addr <= OAM_END {
        Region::Ram
    } else if addr < IO_REGISTERS_START {
        Region::Unmapped
    } else if addr == SERIAL_TRANSFER_DATA {
        Region::SerialData
    } else if addr == SERIAL_TRANSFER_CONTROL {
        Region::SerialControl
    } else if DIV_REGISTER <= addr <= TAC_REGISTER {
        Region::Timer
    } else if addr == INTERRUPT_FLAG_REGISTER {
        Region::InterruptFlag
    } else if LCDC_ADDR <= addr <= WX_ADDR {
        Region::Lcd
    } else if addr < INTERRUPT_ENABLE_REGISTER {
        Region::Ram
    } else {
        Region::InterruptEnable
    }
}

/// Everything on the bus, as values.
pub struct BusState {
    /// The 64 KiB of plain storage, indexed by address. Only the addresses of
    /// the regions `Rom` and `Ram` are ever read from it.
    pub memory: Seq<u8>,
    /// The picture unit.
    pub gpu: GpuState,
    /// The timer.
    pub timer: Timer,
    /// The interrupt controller.
    pub interrupts: InterruptController,
    /// SB.
    pub serial_data: u8,
    /// SC.
    pub serial_control: u8,
    /// The bytes sent over the serial link so far.
    pub serial_output: Seq<u8>,
}

impl BusState {
    /// The bus at power-on with a ROM image: the image fills the storage from
    /// address 0, cut at 64 KiB, and the rest is zero.
    pub open spec fn initial(rom: Seq<u8>) -> BusState {
        BusState {
            memory: Seq::new(
                MEM_SIZE as nat,
                |i: int| if i < rom.len() { rom[i] } else { 0u8 },
            ),
            gpu: GpuState::initial(),
            timer: Timer::initial(),
            interrupts: InterruptController::initial(),
            serial_data: 0,
            serial_control: 0,
            serial_output: Seq::empty(),
        }
    }

    /// What a read at an address gives.
    #[verifier::opaque]
    pub open spec fn read(self, addr: u16) -> u8 {
        match region_of(addr) {
            Region::Rom => self.memory[addr as int],
            Region::Vram => self.gpu.vram[addr - VRAM_START],
            Region::Ram => self.memory[addr as int],
            Region::Echo => self.memory[addr - ECHO_RAM_MIRROR_OFFSET],
            Region::Unmapped => UNMAPPED_MEMORY_VALUE,
            Region::SerialData => self.serial_data,
            Region::SerialControl => self.serial_control,
            Region::Timer => self.timer.register(addr),
            Region::InterruptFlag => self.interrupts.if_value(),
            Region::Lcd => self.gpu.lcd.register(addr),
            Region::InterruptEnable => self.interrupts.interrupt_enable,
        }
    }

    /// The bus after a write of SC. With bit 7 set the byte in SB is sent at
    /// once, and bit 7 reads back as 0.
    pub open spec fn with_serial_control(self, value: u8) -> BusState {
        if value >= 0x80 {
            BusState {
                serial_control: (value - 0x80) as u8,
                serial_output: self.serial_output.push(self.serial_data),
                ..self
            }
        } else {
            BusState { serial_control: value, ..self }
        }
    }

    /// The bus after a write at an address.
    #[verifier::opaque]
    pub open spec fn write(self, addr: u16, value: u8) -> BusState {
        match region_of(addr) {
            Region::Rom => self,
            Region::Vram => BusState { gpu: self.gpu.with_vram(addr - VRAM_START, value), ..self },
            Region::Ram => BusState { memory: self.memory.update(addr as int, value), ..self },
            Region::Echo => BusState {
                memory: self.memory.update(addr - ECHO_RAM_MIRROR_OFFSET, value),
                ..self
            },
            Region::Unmapped => self,
            Region::SerialData => BusState { serial_data: value, ..self },
            Region::SerialControl => self.with_serial_control(value),
            Region::Timer => BusState { timer: self.timer.with_register(addr, value), ..self },
            Region::InterruptFlag => BusState { interrupts: self.interrupts.with_if(value), ..self },
            Region::Lcd => BusState { gpu: self.gpu.with_register(addr, value), ..self },
            Region::InterruptEnable => BusState {
                interrupts: self.interrupts.with_ie(value),
                ..self
            },
        }
    }

    /// The bus one T-cycle later: the timer ticks, and the tick that reloads
    /// its counter requests the timer interrupt.
    pub open spec fn after_timer_tick(self) -> BusState {
        BusState {
            timer: self.timer.after_tick(),
            interrupts: if self.timer.reload_due() {
                self.interrupts.with_request(Interrupt::Timer)
            } else {
                self.interrupts
            },
            ..self
        }
    }

    /// The bus `n` T-cycles later.
    pub open spec fn after_timer_ticks(self, n: nat) -> BusState
        decreases n,
    {
        if n == 0 {
            self
        } else {
            self.after_timer_tick().after_timer_ticks((n - 1) as nat)
        }
    }

    /// The bus with one more interrupt requested.
    pub open spec fn with_request(self, interrupt: Interrupt) -> BusState {
        BusState { interrupts: self.interrupts.with_request(interrupt), ..self }
    }

    /// The bus with the request of one interrupt withdrawn.
    pub open spec fn without_request(self, interrupt: Interrupt) -> BusState {
        BusState { interrupts: self.interrupts.without_request(interrupt), ..self }
    }

    /// The bus with no serial output left to collect.
    pub open spec fn with_output_cleared(self) -> BusState {
        BusState { serial_output: Seq::empty(), ..self }
    }

    /// The storage and video RAM have their sizes.
    pub open spec fn wf(self) -> bool {
        self.memory.len() == MEM_SIZE && self.gpu.vram.len() == VRAM_SIZE
    }

    /// An echo address shows the work RAM byte 0x2000 below it, and a write
    /// through either address is seen through both.
    pub proof fn lemma_echo_aliases_work_ram(self, addr: u16, value: u8)
        requires
            self.wf(),
            ECHO_RAM_START <= addr <= ECHO_RAM_END,
        ensures
            self.read(addr) == self.read((addr - ECHO_RAM_MIRROR_OFFSET) as u16),
            self.write(addr, value) == self.write((addr - ECHO_RAM_MIRROR_OFFSET) as u16, value),
            self.write(addr, value).read(addr) == value,
            self.write(addr, value).read((addr - ECHO_RAM_MIRROR_OFFSET) as u16) == value,
    {
        reveal(BusState::read);
        reveal(BusState::write);
    }

    /// ROM and the unmapped range ignore writes, and the unmapped range
    /// reads 0xFF.
    pub proof fn lemma_dropped_writes(self, addr: u16, value: u8)
        ensures
            region_of(addr) is Rom || region_of(addr) is Unmapped ==> self.write(addr, value)
                == self,
            region_of(addr) is Unmapped ==> self.read(addr) == 0xFF,
    {
        reveal(BusState::read);
        reveal(BusState::write);
    }

    /// RAM and video RAM read back what was written, and a write there
    /// changes what a read gives at no other address, but for the echo of
    /// the written byte.
    pub proof fn lemma_ram_read_after_write(self, addr: u16, other: u16, value: u8)
        requires
            self.wf(),
            region_of(addr) is Ram || region_of(addr) is Vram || region_of(addr) is Echo,
        ensures
            self.write(addr, value).wf(),
            self.write(addr, value).read(addr) == value,
            other != addr && other != addr + ECHO_RAM_MIRROR_OFFSET && other + ECHO_RAM_MIRROR_OFFSET
                != addr ==> self.write(addr, value).read(other) == self.read(other),
    {
        reveal(BusState::read);
        reveal(BusState::write);
    }

    /// A write never resizes the storage.
    pub proof fn lemma_write_keeps_wf(self, addr: u16, value: u8)
        requires
            self.wf(),
        ensures
            self.write(addr, value).wf(),
    {
        reveal(BusState::read);
        reveal(BusState::write);
    }
}

/// The memory bus. It owns the storage, the picture unit, the timer and the
/// interrupt controller.
pub struct MemoryBus {
    memory: Vec<u8>,
    gpu: GPU,
    timer: Timer,
    interrupts: InterruptController,
    serial_data: u8,
    serial_control: u8,
    serial_output: Vec<u8>,
}

impl View for MemoryBus {
    type V = BusState;

    closed spec fn view(&self) -> BusState {
        BusState {
            memory: self.memory@,
            gpu: self.gpu@,
            timer: self.timer,
            interrupts: self.interrupts,
            serial_data: self.serial_data,
            serial_control: self.serial_control,
            serial_output: self.serial_output@,
        }
    }
}

impl MemoryBus {
    /// The storage has its size and the picture unit is well-formed.
    pub closed spec fn wf(&self) -> bool {
        self.memory@.len() == MEM_SIZE && self.gpu.wf()
    }

    /// A well-formed bus has a well-formed view.
    pub proof fn lemma_wf(&self)
        requires
            self.wf(),
        ensures
            self@.wf(),
    {
        self.gpu.lemma_wf();
    }

    /// A bus at power-on with a ROM image loaded at address 0. A short image
    /// is padded with zeros; what exceeds 64 KiB is cut off.
    pub fn new(rom_data: Vec<u8>) -> (r: MemoryBus)
        ensures
            r.wf(),
            r@ == BusState::initial(rom_data@),
    {
        let mut memory: Vec<u8> = vec![0u8; MEM_SIZE];
        let copy_len: usize = if rom_data.len() < MEM_SIZE { rom_data.len() } else { MEM_SIZE };
        let mut i: usize = 0;
        while i < copy_len
            invariant
                i <= copy_len,
                copy_len <= rom_data@.len(),
                copy_len <= MEM_SIZE,
                memory@.len() == MEM_SIZE,
                forall|k: int| 0 <= k < i ==> memory@[k] == rom_data@[k],
                forall|k: int| i <= k < MEM_SIZE ==> memory@[k] == 0u8,
            decreases copy_len - i,
        {
            memory[i] = rom_data[i];
            i = i + 1;
        }
        assert(memory@ =~= BusState::initial(rom_data@).memory);
        MemoryBus {
            memory,
            gpu: GPU::new(),
            timer: Timer::new(),
            interrupts: InterruptController::new(),
            serial_data: 0,
            serial_control: 0,
            serial_output: Vec::new(),
        }
    }

    /// Reads the byte at an address.
    pub fn read_byte(&self, address: u16) -> (r: u8)
        requires
            self.wf(),
        ensures
            r == self@.read(address),
    {
        proof {
            reveal(BusState::read);
        }
        if address <= ROM_END {
            self.memory[address as usize]
        } else if address <= VRAM_END {
            self.gpu.read_vram((address - VRAM_START) as usize)
        } else if address < ECHO_RAM_START {
            self.memory[address as usize]
        } else if address <= ECHO_RAM_END {
            self.memory[(address - ECHO_RAM_MIRROR_OFFSET) as usize]
        } else if address <= OAM_END {
            self.memory[address as usize]
        } else if address < IO_REGISTERS_START {
            UNMAPPED_MEMORY_VALUE
        } else if address == SERIAL_TRANSFER_DATA {
            self.serial_data
        } else if address == SERIAL_TRANSFER_CONTROL {
            self.serial_control
        } else if DIV_REGISTER <= address && address <= TAC_REGISTER {
            self.timer.read(address)
        } else if address == INTERRUPT_FLAG_REGISTER {
            self.interrupts.read_if()
        } else if LCDC_ADDR <= address && address <= WX_ADDR {
            self.gpu.read_register(address)
        } else if address < INTERRUPT_ENABLE_REGISTER {
            self.memory[address as usize]
        } else {
            self.interrupts.read_ie()
        }
    }

    /// Writes a byte at an address.
    pub fn write_byte(&mut self, address: u16, value: u8)
        requires
            old(self).wf(),
        ensures
            final(self).wf(),
            final(self)@ == old(self)@.write(address, value),
    {
        proof {
            reveal(BusState::write);
        }
        if address <= ROM_END {
        } else if address <= VRAM_END {
            self.gpu.write_vram((address - VRAM_START) as usize, value);
        } else if address < ECHO_RAM_START {
            self.memory[address as usize] = value;
        } else if address <= ECHO_RAM_END {
            self.memory[(address - ECHO_RAM_MIRROR_OFFSET) as usize] = value;
        } else if address <= OAM_END {
            self.memory[address as usize] = value;
        } else if address < IO_REGISTERS_START {
        } else if address == SERIAL_TRANSFER_DATA {
            self.serial_data = value;
        } else if address == SERIAL_TRANSFER_CONTROL {
            self.write_serial_control(value);
        } else if DIV_REGISTER <= address && address <= TAC_REGISTER {
            self.timer.write(address, value);
        } else if address == INTERRUPT_FLAG_REGISTER {
            self.interrupts.write_if(value);
        } else if LCDC_ADDR <= address && address <= WX_ADDR {
            self.gpu.write_register(address, value);
        } else if address < INTERRUPT_ENABLE_REGISTER {
            self.memory[address as usize] = value;
        } else {
            self.interrupts.write_ie(value);
        }
    }

    /// Writes SC; with bit 7 set, sends the byte in SB.
    fn write_serial_control(&mut self, value: u8)
        requires
            old(self).wf(),
        ensures
            final(self).wf(),
            final(self)@ == old(self)@.with_serial_control(value),
    {
        proof {
            lemma_u8_masks(value);
        }
        if value & 0x80 != 0 {
            self.serial_output.push(self.serial_data);
            self.serial_control = value & 0x7F;
        } else {
            self.serial_control = value;
        }
    }

    /// Advances the timer by one T-cycle and passes its interrupt request on
    /// to the interrupt controller. To be called once per T-cycle that the
    /// CPU has consumed.
    pub fn tick_timer(&mut self)
        requires
            old(self).wf(),
        ensures
            final(self).wf(),
            final(self)@ == old(self)@.after_timer_tick(),
    {
        if self.timer.tick() {
            self.interrupts.request_interrupt(Interrupt::Timer);
        }
    }

    /// Advances the timer by the T-cycles that a step of the CPU has taken.
    pub fn tick_timer_cycles(&mut self, cycles: u16)
        requires
            old(self).wf(),
        ensures
            final(self).wf(),
            final(self)@ == old(self)@.after_timer_ticks(cycles as nat),
    {
        let mut remaining: u16 = cycles;
        while remaining > 0
            invariant
                self.wf(),
                self@.after_timer_ticks(remaining as nat) == old(self)@.after_timer_ticks(
                    cycles as nat,
                ),
            decreases remaining,
        {
            self.tick_timer();
            remaining = remaining - 1;
        }
    }

    /// Whether an interrupt is requested and enabled: `IE & IF & 0x1F != 0`.
    pub fn any_interrupt_pending(&self) -> (r: bool)
        ensures
            r == self@.interrupts.any_pending(),
    {
        self.interrupts.any_interrupt_pending()
    }

    /// The pending interrupt of the highest priority.
    pub fn get_pending_interrupt(&self) -> (r: Option<Interrupt>)
        ensures
            r == self@.interrupts.first_pending(),
    {
        self.interrupts.get_pending_interrupt()
    }

    /// Requests an interrupt.
    pub fn request_interrupt(&mut self, interrupt: Interrupt)
        requires
            old(self).wf(),
        ensures
            final(self).wf(),
            final(self)@ == old(self)@.with_request(interrupt),
    {
        self.interrupts.request_interrupt(interrupt);
    }

    /// Withdraws the request of an interrupt and returns its handler's address.
    pub fn service_interrupt(&mut self, interrupt: Interrupt) -> (r: u16)
        requires
            old(self).wf(),
        ensures
            final(self).wf(),
            final(self)@ == old(self)@.without_request(interrupt),
            r == interrupt.vector(),
    {
        self.interrupts.service_interrupt(interrupt)
    }

    /// The picture unit, for whoever draws the screen.
    pub fn gpu(&self) -> (r: &GPU)
        requires
            self.wf(),
        ensures
            r.wf(),
            r@ == self@.gpu,
    {
        &self.gpu
    }

    /// Whether the serial link has sent bytes that were not cleared yet.
    pub fn has_output(&self) -> (r: bool)
        ensures
            r == (self@.serial_output.len() > 0),
    {
        self.serial_output.len() > 0
    }

    /// The bytes that the serial link has sent since the output was last cleared.
    pub fn get_output(&self) -> (r: &Vec<u8>)
        ensures
            r@ == self@.serial_output,
    {
        &self.serial_output
    }

    /// Forgets the bytes that the serial link has sent.
    pub fn clear_output(&mut self)
        requires
            old(self).wf(),
        ensures
            final(self).wf(),
            final(self)@ == old(self)@.with_output_cleared(),
    {
        self.serial_output.clear();
    }
}

} // verus!
