//! The interrupt controller.
//!
//! Five sources share two registers, one bit per source: IF (0xFF0F) holds
//! the requests, IE (0xFFFF) the sources that may interrupt. A source is
//! pending when its bit is set in both. Of several pending sources the one
//! with the lowest bit is served first:
//!
//! | source   | bit | handler |
//! |----------|-----|---------|
//! | V-Blank  | 0   | 0x0040  |
//! | LCD STAT | 1   | 0x0048  |
//! | Timer    | 2   | 0x0050  |
//! | Serial   | 3   | 0x0058  |
//! | Joypad   | 4   | 0x0060  |
//!
//! The three unused bits of IF always read as 1.

use vstd::prelude::*;
use crate::bits::lemma_one_bit;

verus! {

/// An interrupt source; the order of the variants is the order of priority.
#[derive(Debug, Clone, Copy, PartialEq, Eq, Structural)]
pub enum Interrupt {
    /// Start of the vertical blanking period.
    VBlank,
    /// A condition of the LCD status register.
    LcdStat,
    /// The timer's counter has overflowed and was reloaded.
    Timer,
    /// A serial transfer has completed.
    Serial,
    /// A button was pressed.
    Joypad,
}

/// T-cycles that the dispatch of an interrupt takes.
pub const INTERRUPT_CYCLES: u16 = 20;

impl Interrupt {
    /// All sources, the most urgent first.
    pub const ALL: [Interrupt; 5] = [
        Interrupt::VBlank,
        Interrupt::LcdStat,
        Interrupt::Timer,
        Interrupt::Serial,
        Interrupt::Joypad,
    ];

    /// The number of the source's bit in IF and IE, which is also its rank:
    /// the lower, the more urgent.
    pub open spec fn index(self) -> int {
        match self {
            Interrupt::VBlank => 0,
            Interrupt::LcdStat => 1,
            Interrupt::Timer => 2,
            Interrupt::Serial => 3,
            Interrupt::Joypad => 4,
        }
    }

    /// The source's bit in IF and IE.
    pub open spec fn mask(self) -> u8 {
        match self {
            Interrupt::VBlank => 0x01,
            Interrupt::LcdStat => 0x02,
            Interrupt::Timer => 0x04,
            Interrupt::Serial => 0x08,
            Interrupt::Joypad => 0x10,
        }
    }

    /// The address of the source's handler: 0x0040 plus eight per rank.
    pub open spec fn vector(self) -> u16 {
        (0x0040 + 8 * self.index()) as u16
    }

    /// The source's bit in IF and IE.
    pub fn bit_mask(self) -> (r: u8)
        ensures
            r == self.mask(),
    {
        match self {
            Interrupt::VBlank => 0x01,
            Interrupt::LcdStat => 0x02,
            Interrupt::Timer => 0x04,
            Interrupt::Serial => 0x08,
            Interrupt::Joypad => 0x10,
        }
    }

    /// The address that the CPU jumps to when it serves the source.
    pub fn handler_address(self) -> (r: u16)
        ensures
            r == self.vector(),
    {
        match self {
            Interrupt::VBlank => 0x0040,
            Interrupt::LcdStat => 0x0048,
            Interrupt::Timer => 0x0050,
            Interrupt::Serial => 0x0058,
            Interrupt::Joypad => 0x0060,
        }
    }

    /// The source with the given bit number, if there is one.
    pub fn from_bit(bit: u8) -> (r: Option<Interrupt>)
        ensures
            bit < 5 ==> r is Some && r.unwrap().index() == bit,
            bit >= 5 ==> r is None,
    {
        match bit {
            0 => Some(Interrupt::VBlank),
            1 => Some(Interrupt::LcdStat),
            2 => Some(Interrupt::Timer),
            3 => Some(Interrupt::Serial),
            4 => Some(Interrupt::Joypad),
            _ => None,
        }
    }
}

/// The registers IF and IE.
#[derive(Debug, Clone, Copy)]
pub struct InterruptController {
    /// IF: the requested sources, in bits 0-4.
    pub interrupt_flag: u8,
    /// IE: the sources that may interrupt, in bits 0-4.
    pub interrupt_enable: u8,
}

/// How the five sources show in the two registers.
pub proof fn lemma_source_bits(flag: u8, enable: u8)
    by (bit_vector)
    ensures
        ((flag & enable & 0x1F) & 0x01 != 0) == (flag & 0x01 != 0 && enable & 0x01 != 0),
        ((flag & enable & 0x1F) & 0x02 != 0) == (flag & 0x02 != 0 && enable & 0x02 != 0),
        ((flag & enable & 0x1F) & 0x04 != 0) == (flag & 0x04 != 0 && enable & 0x04 != 0),
        ((flag & enable & 0x1F) & 0x08 != 0) == (flag & 0x08 != 0 && enable & 0x08 != 0),
        ((flag & enable & 0x1F) & 0x10 != 0) == (flag & 0x10 != 0 && enable & 0x10 != 0),
        (flag & enable & 0x1F != 0) == ((flag & enable & 0x1F) & 0x01 != 0 || (flag & enable
            & 0x1F) & 0x02 != 0 || (flag & enable & 0x1F) & 0x04 != 0 || (flag & enable & 0x1F)
            & 0x08 != 0 || (flag & enable & 0x1F) & 0x10 != 0),
        (flag | 0xE0) & 0xE0 == 0xE0,
        ((flag & 0x1F) | 0xE0) & 0x1F == flag & 0x1F,
        ((flag & 0x1F) | 0xE0) | 0xE0 == flag | 0xE0,
{
}

/// The unused bits that a read of IF shows stay set when a source's bit is
/// set or cleared.
pub proof fn lemma_unused_bits(flag: u8, m: u8)
    by (bit_vector)
    requires
        m == 0x01 || m == 0x02 || m == 0x04 || m == 0x08 || m == 0x10,
    ensures
        (flag | m) | 0xE0 == (flag | 0xE0) | m,
        (flag & !m) | 0xE0 == (flag | 0xE0) & !m,
{
}

impl InterruptController {
    /// Whether a source is requested: its bit is set in IF.
    pub open spec fn requested(self, i: Interrupt) -> bool {
        self.interrupt_flag & i.mask() != 0
    }

    /// Whether a source may interrupt: its bit is set in IE.
    pub open spec fn enabled(self, i: Interrupt) -> bool {
        self.interrupt_enable & i.mask() != 0
    }

    /// Whether a source is pending: requested and enabled.
    pub open spec fn pending(self, i: Interrupt) -> bool {
        self.requested(i) && self.enabled(i)
    }

    /// Whether any source is pending.
    pub open spec fn any_pending(self) -> bool {
        self.interrupt_flag & self.interrupt_enable & 0x1F != 0
    }

    /// The most urgent pending source.
    pub open spec fn first_pending(self) -> Option<Interrupt> {
        if self.pending(Interrupt::VBlank) {
            Some(Interrupt::VBlank)
        } else if self.pending(Interrupt::LcdStat) {
            Some(Interrupt::LcdStat)
        } else if self.pending(Interrupt::Timer) {
            Some(Interrupt::Timer)
        } else if self.pending(Interrupt::Serial) {
            Some(Interrupt::Serial)
        } else if self.pending(Interrupt::Joypad) {
            Some(Interrupt::Joypad)
        } else {
            None
        }
    }

    /// The controller with one more source requested.
    pub open spec fn with_request(self, i: Interrupt) -> InterruptController {
        InterruptController { interrupt_flag: self.interrupt_flag | i.mask(), ..self }
    }

    /// The controller with one source's request cleared.
    pub open spec fn without_request(self, i: Interrupt) -> InterruptController {
        InterruptController { interrupt_flag: self.interrupt_flag & !i.mask(), ..self }
    }

    /// The controller after a write to IF: bits 0-4 are taken, the others stay 1.
    pub open spec fn with_if(self, value: u8) -> InterruptController {
        InterruptController { interrupt_flag: (value & 0x1F) | 0xE0, ..self }
    }

    /// The controller after a write to IE.
    pub open spec fn with_ie(self, value: u8) -> InterruptController {
        InterruptController { interrupt_enable: value, ..self }
    }

    /// What a read of IF gives: the stored bits with the three unused bits set.
    pub open spec fn if_value(self) -> u8 {
        self.interrupt_flag | 0xE0
    }

    /// The controller at power-on.
    pub open spec fn initial() -> InterruptController {
        InterruptController { interrupt_flag: 0xE0, interrupt_enable: 0x00 }
    }

    /// A controller with nothing requested and nothing enabled.
    pub fn new() -> (r: Self)
        ensures
            r == Self::initial(),
    {
        InterruptController { interrupt_flag: 0xE0, interrupt_enable: 0x00 }
    }

    /// Reads IF. The three unused bits read as 1.
    pub fn read_if(&self) -> (r: u8)
        ensures
            r == self.if_value(),
            r & 0xE0 == 0xE0,
    {
        proof {
            lemma_source_bits(self.interrupt_flag, self.interrupt_enable);
        }
        self.interrupt_flag | 0xE0
    }

    /// Writes IF. Only bits 0-4 are writable.
    pub fn write_if(&mut self, value: u8)
        ensures
            *final(self) == old(self).with_if(value),
    {
        self.interrupt_flag = (value & 0x1F) | 0xE0;
    }

    /// Reads IE.
    pub fn read_ie(&self) -> (r: u8)
        ensures
            r == self.interrupt_enable,
    {
        self.interrupt_enable
    }

    /// Writes IE.
    pub fn write_ie(&mut self, value: u8)
        ensures
            *final(self) == old(self).with_ie(value),
    {
        self.interrupt_enable = value;
    }

    /// Requests an interrupt: sets the source's bit in IF.
    pub fn request_interrupt(&mut self, interrupt: Interrupt)
        ensures
            *final(self) == old(self).with_request(interrupt),
    {
        self.interrupt_flag = self.interrupt_flag | interrupt.bit_mask();
    }

    /// Withdraws a request: clears the source's bit in IF.
    pub fn acknowledge_interrupt(&mut self, interrupt: Interrupt)
        ensures
            *final(self) == old(self).without_request(interrupt),
    {
        self.interrupt_flag = self.interrupt_flag & !interrupt.bit_mask();
    }

    /// Whether any source is pending. A pending source wakes a halted CPU
    /// whether or not interrupts are globally enabled.
    pub fn any_interrupt_pending(&self) -> (r: bool)
        ensures
            r == self.any_pending(),
            r == (exists|i: Interrupt| self.pending(i)),
    {
        proof {
            self.lemma_pending();
        }
        (self.interrupt_flag & self.interrupt_enable & 0x1F) != 0
    }

    /// The pending source of the highest priority, if any source is pending.
    pub fn get_pending_interrupt(&self) -> (r: Option<Interrupt>)
        ensures
            r == self.first_pending(),
            r is Some == self.any_pending(),
            match r {
                Some(i) => self.pending(i) && forall|j: Interrupt|
                    self.pending(j) ==> i.index() <= j.index(),
                None => forall|j: Interrupt| !self.pending(j),
            },
    {
        proof {
            self.lemma_pending();
            lemma_source_bits(self.interrupt_flag, self.interrupt_enable);
        }
        let pending: u8 = self.interrupt_flag & self.interrupt_enable & 0x1F;
        if pending == 0 {
            return None;
        }
        if pending & 0x01 != 0 {
            Some(Interrupt::VBlank)
        } else if pending & 0x02 != 0 {
            Some(Interrupt::LcdStat)
        } else if pending & 0x04 != 0 {
            Some(Interrupt::Timer)
        } else if pending & 0x08 != 0 {
            Some(Interrupt::Serial)
        } else {
            Some(Interrupt::Joypad)
        }
    }

    /// Serves an interrupt: clears the source's bit in IF and returns the
    /// address of its handler. To be called once per dispatched interrupt.
    pub fn service_interrupt(&mut self, interrupt: Interrupt) -> (r: u16)
        ensures
            *final(self) == old(self).without_request(interrupt),
            r == interrupt.vector(),
    {
        self.acknowledge_interrupt(interrupt);
        interrupt.handler_address()
    }

    /// Some source is pending exactly when IF and IE share one of bits 0-4,
    /// and the first pending source is then the most urgent of them.
    pub proof fn lemma_pending(self)
        ensures
            self.any_pending() == (exists|i: Interrupt| self.pending(i)),
            self.any_pending() == self.first_pending() is Some,
            match self.first_pending() {
                Some(i) => self.pending(i) && forall|j: Interrupt|
                    self.pending(j) ==> i.index() <= j.index(),
                None => forall|j: Interrupt| !self.pending(j),
            },
    {
        lemma_source_bits(self.interrupt_flag, self.interrupt_enable);
        if self.any_pending() {
            let i = self.first_pending().unwrap();
            assert(self.pending(i));
        }
        assert forall|j: Interrupt| self.first_pending() is None implies !self.pending(j) by {
            match j {
                Interrupt::VBlank => {},
                Interrupt::LcdStat => {},
                Interrupt::Timer => {},
                Interrupt::Serial => {},
                Interrupt::Joypad => {},
            }
        }
    }

    /// A request makes its source requested and changes no other source;
    /// serving or acknowledging it withdraws exactly that request. Neither
    /// changes IE or the unused bits that a read of IF shows.
    pub proof fn lemma_request_and_acknowledge(self, i: Interrupt, j: Interrupt)
        ensures
            self.with_request(i).requested(i),
            !self.without_request(i).requested(i),
            j != i ==> self.with_request(i).requested(j) == self.requested(j),
            j != i ==> self.without_request(i).requested(j) == self.requested(j),
            self.with_request(i).enabled(j) == self.enabled(j),
            self.without_request(i).enabled(j) == self.enabled(j),
            self.with_request(i).if_value() == self.if_value() | i.mask(),
            self.without_request(i).if_value() == self.if_value() & !i.mask(),
    {
        lemma_one_bit(self.interrupt_flag, i.mask(), j.mask());
        lemma_unused_bits(self.interrupt_flag, i.mask());
    }

    /// Once the most urgent pending source has been served, it is no longer
    /// pending, and every other source is pending exactly as before.
    pub proof fn lemma_service_clears_only_served(self, j: Interrupt)
        requires
            self.first_pending() is Some,
        ensures
            !self.without_request(self.first_pending().unwrap()).pending(
                self.first_pending().unwrap(),
            ),
            j != self.first_pending().unwrap() ==> self.without_request(
                self.first_pending().unwrap(),
            ).pending(j) == self.pending(j),
    {
        self.lemma_request_and_acknowledge(self.first_pending().unwrap(), j);
    }
}

impl Default for InterruptController {
    fn default() -> (r: Self)
        ensures
            r == Self::initial(),
    {
        Self::new()
    }
}

} // verus!
