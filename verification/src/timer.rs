//! The hardware timer: DIV, TIMA, TMA and TAC.
//!
//! A 16-bit counter advances on every T-cycle; DIV is its high byte. TAC
//! selects one bit of that counter and enables the timer. TIMA counts the
//! falling edges of the selected bit, where the bit reads as 0 while the
//! timer is disabled. When TIMA overflows it reads 0 for four T-cycles, and
//! is then reloaded from TMA; the tick that reloads it asks for the timer
//! interrupt. A write to TIMA in between cancels the reload.
//!
//! Because TIMA counts edges, a write that clears the counter or changes TAC
//! can produce an edge of its own, and so an increment.

use vstd::prelude::*;
use crate::bits::{lemma_u8_masks, lemma_u16_masks};

verus! {

pub const DIV_REGISTER: u16 = 0xFF04;

pub const TIMA_REGISTER: u16 = 0xFF05;

pub const TMA_REGISTER: u16 = 0xFF06;

pub const TAC_REGISTER: u16 = 0xFF07;

/// T-cycles between an overflow of TIMA and its reload from TMA.
pub const TIMA_OVERFLOW_RELOAD_DELAY: u8 = 4;

#[derive(Debug, Clone, Copy)]
pub struct Timer {
    /// The free-running counter; DIV is its high byte.
    pub div: u16,
    /// TIMA, the counter that overflows into an interrupt.
    pub tima: u8,
    /// TMA, the value that TIMA is reloaded with.
    pub tma: u8,
    /// TAC: bit 2 enables the timer, bits 1-0 select the frequency.
    pub tac: u8,
    /// The selected bit as it was last sampled.
    pub prev_timer_bit: bool,
    /// T-cycles until a pending reload of TIMA, if one is pending.
    pub overflow_delay: Option<u8>,
}

impl Timer {
    /// Whether TAC enables the timer.
    pub open spec fn enabled(self) -> bool {
        (self.tac / 4) % 2 == 1
    }

    /// Two to the power of the number of the selected bit: bit 9 for 4096 Hz,
    /// bit 3 for 262144 Hz, bit 5 for 65536 Hz, bit 7 for 16384 Hz.
    pub open spec fn selected_weight(self) -> int {
        let select = self.tac % 4;
        if select == 0 {
            512
        } else if select == 1 {
            8
        } else if select == 2 {
            32
        } else {
            128
        }
    }

    /// The number of the selected bit.
    pub open spec fn selected_position(self) -> int {
        let select = self.tac % 4;
        if select == 0 {
            9
        } else if select == 1 {
            3
        } else if select == 2 {
            5
        } else {
            7
        }
    }

    /// The selected bit of the counter; 0 while the timer is disabled.
    pub open spec fn selected_bit(self) -> bool {
        self.enabled() && (self.div as int / self.selected_weight()) % 2 == 1
    }

    /// The timer after TIMA has counted once more. On overflow TIMA reads 0
    /// and the reload is set four T-cycles ahead.
    pub open spec fn after_increment(self) -> Timer {
        if self.tima == 0xFF {
            Timer { tima: 0, overflow_delay: Some(4u8), ..self }
        } else {
            Timer { tima: (self.tima + 1) as u8, ..self }
        }
    }

    /// The timer after a sample of the selected bit was taken: a fall from
    /// 1 to 0 since the last sample counts, and the sample is kept.
    pub open spec fn sampled(self, bit: bool) -> Timer {
        let counted = if self.prev_timer_bit && !bit { self.after_increment() } else { self };
        Timer { prev_timer_bit: bit, ..counted }
    }

    /// The timer after the selected bit has been sampled.
    pub open spec fn after_sample(self) -> Timer {
        self.sampled(self.selected_bit())
    }

    /// Whether a pending reload completes on the next tick.
    pub open spec fn reload_due(self) -> bool {
        match self.overflow_delay {
            Some(delay) => delay <= 1,
            None => false,
        }
    }

    /// The timer after a pending reload has moved one T-cycle on.
    pub open spec fn after_countdown(self) -> Timer {
        match self.overflow_delay {
            Some(delay) => if delay <= 1 {
                Timer { tima: self.tma, overflow_delay: None, ..self }
            } else {
                Timer { overflow_delay: Some((delay - 1) as u8), ..self }
            },
            None => self,
        }
    }

    /// The timer after the counter has advanced by one.
    pub open spec fn after_advance(self) -> Timer {
        Timer { div: if self.div == 0xFFFF { 0u16 } else { (self.div + 1) as u16 }, ..self }
    }

    /// The timer one T-cycle later: the counter advances, a pending reload
    /// moves on, and the selected bit is sampled.
    pub open spec fn after_tick(self) -> Timer {
        self.after_advance().after_countdown().after_sample()
    }

    /// The timer after `n` T-cycles.
    pub open spec fn after_ticks(self, n: nat) -> Timer
        decreases n,
    {
        if n == 0 {
            self
        } else {
            self.after_tick().after_ticks((n - 1) as nat)
        }
    }

    /// What a read of one of the four registers gives; 0xFF elsewhere.
    pub open spec fn register(self, addr: u16) -> u8 {
        if addr == DIV_REGISTER {
            (self.div / 256) as u8
        } else if addr == TIMA_REGISTER {
            self.tima
        } else if addr == TMA_REGISTER {
            self.tma
        } else if addr == TAC_REGISTER {
            ((self.tac % 8) + 0xF8) as u8
        } else {
            0xFF
        }
    }

    /// The timer after a write to one of the four registers. Any write to DIV
    /// clears the counter; a write to TIMA cancels a pending reload; TAC
    /// keeps bits 2-0. A write elsewhere changes nothing.
    pub open spec fn with_register(self, addr: u16, value: u8) -> Timer {
        if addr == DIV_REGISTER {
            (Timer { div: 0, ..self }).after_sample()
        } else if addr == TIMA_REGISTER {
            Timer { tima: value, overflow_delay: None, ..self }
        } else if addr == TMA_REGISTER {
            Timer { tma: value, ..self }
        } else if addr == TAC_REGISTER {
            (Timer { tac: value % 8, ..self }).after_sample()
        } else {
            self
        }
    }

    /// The timer at power-on: stopped, all registers 0.
    pub open spec fn initial() -> Timer {
        Timer { div: 0, tima: 0, tma: 0, tac: 0, prev_timer_bit: false, overflow_delay: None }
    }

    pub fn new() -> (r: Self)
        ensures
            r == Self::initial(),
    {
        Timer { div: 0, tima: 0, tma: 0, tac: 0, prev_timer_bit: false, overflow_delay: None }
    }

    /// Advances the timer by one T-cycle. Returns true on the tick that
    /// completes a reload of TIMA: the caller then requests the timer interrupt.
    pub fn tick(&mut self) -> (r: bool)
        ensures
            *final(self) == old(self).after_tick(),
            r == old(self).reload_due(),
    {
        self.div = self.div.wrapping_add(1);
        let interrupt = self.update_overflow_delay();
        let current_bit = self.calculate_timer_bit();
        self.handle_falling_edge_and_update_prev(current_bit);
        interrupt
    }

    /// Reads DIV, TIMA, TMA or TAC. The unused bits of TAC read as 1.
    pub fn read(&self, addr: u16) -> (r: u8)
        ensures
            r == self.register(addr),
    {
        match addr {
            DIV_REGISTER => self.read_div(),
            TIMA_REGISTER => self.tima,
            TMA_REGISTER => self.tma,
            TAC_REGISTER => self.read_tac(),
            _ => 0xFF,
        }
    }

    /// Writes DIV, TIMA, TMA or TAC.
    pub fn write(&mut self, addr: u16, value: u8)
        ensures
            *final(self) == old(self).with_register(addr, value),
    {
        match addr {
            DIV_REGISTER => self.write_div(),
            TIMA_REGISTER => self.write_tima(value),
            TMA_REGISTER => self.write_tma(value),
            TAC_REGISTER => self.write_tac(value),
            _ => {},
        }
    }

    /// The number of the counter's bit that TAC selects.
    pub fn get_timer_bit_position(&self) -> (r: u8)
        ensures
            r == self.selected_position(),
    {
        proof {
            lemma_u8_masks(self.tac);
        }
        match self.tac & 0x03 {
            0 => 9,
            1 => 3,
            2 => 5,
            _ => 7,
        }
    }

    pub fn is_timer_enabled(&self) -> (r: bool)
        ensures
            r == self.enabled(),
    {
        proof {
            lemma_u8_masks(self.tac);
        }
        (self.tac & 0x04) != 0
    }

    /// The selected bit of the counter; false while the timer is disabled.
    pub fn calculate_timer_bit(&self) -> (r: bool)
        ensures
            r == self.selected_bit(),
    {
        if !self.is_timer_enabled() {
            return false;
        }
        let bit_pos: u8 = self.get_timer_bit_position();
        proof {
            lemma_u16_masks(self.div);
        }
        ((self.div >> bit_pos) & 1) != 0
    }

    /// Moves a pending reload one T-cycle on; true when it completes.
    pub fn update_overflow_delay(&mut self) -> (r: bool)
        ensures
            *final(self) == old(self).after_countdown(),
            r == old(self).reload_due(),
    {
        if let Some(delay) = self.overflow_delay {
            if delay <= 1 {
                self.tima = self.tma;
                self.overflow_delay = None;
                return true;
            } else {
                self.overflow_delay = Some(delay - 1);
            }
        }
        false
    }

    /// Counts a falling edge between the last sample and `new_bit`, and keeps
    /// `new_bit` as the last sample.
    pub fn handle_falling_edge_and_update_prev(&mut self, new_bit: bool)
        ensures
            *final(self) == old(self).sampled(new_bit),
    {
        if self.prev_timer_bit && !new_bit {
            self.increment_tima();
        }
        self.prev_timer_bit = new_bit;
    }

    /// Increments TIMA; an overflow leaves 0 and sets the reload four
    /// T-cycles ahead.
    pub fn increment_tima(&mut self)
        ensures
            *final(self) == old(self).after_increment(),
    {
        if self.tima == 0xFF {
            self.tima = 0x00;
            self.overflow_delay = Some(TIMA_OVERFLOW_RELOAD_DELAY);
        } else {
            self.tima = self.tima + 1;
        }
    }

    fn read_div(&self) -> (r: u8)
        ensures
            r == self.div / 256,
    {
        proof {
            lemma_u16_masks(self.div);
        }
        (self.div >> 8) as u8
    }

    fn read_tac(&self) -> (r: u8)
        ensures
            r == (self.tac % 8) + 0xF8,
    {
        proof {
            lemma_u8_masks(self.tac);
        }
        self.tac | 0xF8
    }

    fn write_div(&mut self)
        ensures
            *final(self) == old(self).with_register(DIV_REGISTER, 0),
    {
        self.div = 0;
        let current_bit = self.calculate_timer_bit();
        self.handle_falling_edge_and_update_prev(current_bit);
    }

    fn write_tima(&mut self, value: u8)
        ensures
            *final(self) == old(self).with_register(TIMA_REGISTER, value),
    {
        self.tima = value;
        if self.overflow_delay.is_some() {
            self.overflow_delay = None;
        }
    }

    fn write_tma(&mut self, value: u8)
        ensures
            *final(self) == old(self).with_register(TMA_REGISTER, value),
    {
        self.tma = value;
    }

    fn write_tac(&mut self, value: u8)
        ensures
            *final(self) == old(self).with_register(TAC_REGISTER, value),
    {
        proof {
            lemma_u8_masks(value);
        }
        self.tac = value & 0x07;
        let current_bit = self.calculate_timer_bit();
        self.handle_falling_edge_and_update_prev(current_bit);
    }

    /// TIMA changes only by a reload, or by counting a falling edge of the
    /// selected bit while the timer is enabled.
    pub proof fn lemma_tima_counts_falling_edges(self)
        ensures
            self.after_tick().tima != self.tima ==> self.reload_due() || (self.prev_timer_bit
                && !self.after_advance().selected_bit()),
            !self.prev_timer_bit && !self.reload_due() ==> self.after_tick().tima == self.tima,
            self.after_tick().div == (self.div + 1) % 0x10000,
    {
    }

    /// A write to TIMA cancels a pending reload: TIMA keeps the written value
    /// and the next tick asks for no interrupt.
    pub proof fn lemma_write_cancels_reload(self, value: u8)
        ensures
            self.with_register(TIMA_REGISTER, value).tima == value,
            self.with_register(TIMA_REGISTER, value).overflow_delay is None,
            !self.with_register(TIMA_REGISTER, value).reload_due(),
    {
    }

    /// A write to the divider clears the counter whatever is written, and a
    /// write to TMA changes nothing but TMA.
    pub proof fn lemma_plain_writes(self, value: u8)
        ensures
            self.with_register(DIV_REGISTER, value).div == 0,
            self.with_register(DIV_REGISTER, value).register(DIV_REGISTER) == 0,
            self.with_register(TMA_REGISTER, value) == (Timer { tma: value, ..self }),
            self.with_register(TAC_REGISTER, value).tac == value % 8,
    {
    }

    /// An overflow of TIMA is followed by three ticks on which TIMA reads 0
    /// and no interrupt is asked for, and then by the tick that reloads TIMA
    /// from TMA and asks for the interrupt.
    ///
    /// Stated for the fastest frequency, where the selected bit is bit 3: the
    /// timer is enabled, TIMA is 0xFF, no reload is pending, and this tick
    /// makes bit 3 fall.
    pub proof fn lemma_overflow_reloads_after_four_ticks(self)
        requires
            self.tac % 8 == 5,
            self.tima == 0xFF,
            self.overflow_delay is None,
            self.prev_timer_bit,
            !self.after_advance().selected_bit(),
        ensures
            !self.reload_due() && self.after_ticks(1).tima == 0,
            !self.after_ticks(1).reload_due() && self.after_ticks(2).tima == 0,
            !self.after_ticks(2).reload_due() && self.after_ticks(3).tima == 0,
            !self.after_ticks(3).reload_due() && self.after_ticks(4).tima == 0,
            self.after_ticks(4).reload_due() && self.after_ticks(5).tima == self.tma,
            self.after_ticks(5).overflow_delay is None,
    {
        reveal_with_fuel(Timer::after_ticks, 6);
        let t1 = self.after_tick();
        let t2 = t1.after_tick();
        let t3 = t2.after_tick();
        let t4 = t3.after_tick();
        let t5 = t4.after_tick();
        assert(t1.tima == 0 && t1.overflow_delay == Some(4u8) && !t1.prev_timer_bit);
        assert(t2.tima == 0 && t2.overflow_delay == Some(3u8));
        assert(t3.tima == 0 && t3.overflow_delay == Some(2u8));
        assert(t4.tima == 0 && t4.overflow_delay == Some(1u8));
        assert(t5.tima == self.tma);
    }
}

} // verus!
