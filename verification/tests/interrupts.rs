use rusty_gameboy_emulator::interrupts::{Interrupt, InterruptController, INTERRUPT_CYCLES};

#[test]
fn test_interrupt_bit_masks() {
    assert_eq!(Interrupt::VBlank.bit_mask(), 0b0000_0001);
    assert_eq!(Interrupt::LcdStat.bit_mask(), 0b0000_0010);
    assert_eq!(Interrupt::Timer.bit_mask(), 0b0000_0100);
    assert_eq!(Interrupt::Serial.bit_mask(), 0b0000_1000);
    assert_eq!(Interrupt::Joypad.bit_mask(), 0b0001_0000);
}

#[test]
fn test_interrupt_handler_addresses() {
    assert_eq!(Interrupt::VBlank.handler_address(), 0x0040);
    assert_eq!(Interrupt::LcdStat.handler_address(), 0x0048);
    assert_eq!(Interrupt::Timer.handler_address(), 0x0050);
    assert_eq!(Interrupt::Serial.handler_address(), 0x0058);
    assert_eq!(Interrupt::Joypad.handler_address(), 0x0060);
}

#[test]
fn test_if_register_upper_bits() {
    let ic = InterruptController::new();
    // Upper 3 bits should always be 1
    assert_eq!(ic.read_if() & 0xE0, 0xE0);
}

#[test]
fn test_request_and_acknowledge() {
    let mut ic = InterruptController::new();
    ic.request_interrupt(Interrupt::Timer);

    assert_eq!(
        ic.read_if() & Interrupt::Timer.bit_mask(),
        Interrupt::Timer.bit_mask()
    );

    ic.acknowledge_interrupt(Interrupt::Timer);
    assert_eq!(ic.read_if() & Interrupt::Timer.bit_mask(), 0);
}

#[test]
fn test_pending_interrupt_priority() {
    let mut ic = InterruptController::new();

    // Enable all interrupts
    ic.write_ie(0x1F);

    // Request Timer and VBlank (VBlank has higher priority)
    ic.request_interrupt(Interrupt::Timer);
    ic.request_interrupt(Interrupt::VBlank);

    // Should return VBlank (higher priority)
    let pending = ic.get_pending_interrupt();
    assert_eq!(pending, Some(Interrupt::VBlank));
}

#[test]
fn test_interrupt_not_pending_if_disabled() {
    let mut ic = InterruptController::new();
    let timer_mask = Interrupt::Timer.bit_mask();

    // Request timer but don't enable it
    ic.request_interrupt(Interrupt::Timer);

    // Check IF specifically for the timer bit
    assert_eq!(
        ic.read_if() & timer_mask,
        timer_mask,
        "IF bit should be set"
    );
    // Check that get_pending_interrupt returns None because IE is still 0
    assert!(
        ic.get_pending_interrupt().is_none(),
        "Should not be pending if disabled"
    );
    assert!(!ic.any_interrupt_pending(), "Any pending should be false");

    // Now enable it
    ic.write_ie(timer_mask);

    // Now it should be recognized
    assert_eq!(ic.get_pending_interrupt(), Some(Interrupt::Timer));
    assert!(ic.any_interrupt_pending());
}

#[test]
fn test_service_interrupt() {
    let mut ic = InterruptController::new();
    let timer_mask = Interrupt::Timer.bit_mask();

    ic.write_ie(0x1F);
    ic.request_interrupt(Interrupt::Timer);

    // service_interrupt should clear the bit in IF and return the correct address
    let handler = ic.service_interrupt(Interrupt::Timer);

    assert_eq!(handler, 0x0050);
    assert_eq!(
        ic.read_if() & timer_mask,
        0,
        "IF bit should be cleared after servicing"
    );
}

#[test]
fn test_from_bit() {
    assert_eq!(Interrupt::from_bit(0), Some(Interrupt::VBlank));
    assert_eq!(Interrupt::from_bit(1), Some(Interrupt::LcdStat));
    assert_eq!(Interrupt::from_bit(2), Some(Interrupt::Timer));
    assert_eq!(Interrupt::from_bit(3), Some(Interrupt::Serial));
    assert_eq!(Interrupt::from_bit(4), Some(Interrupt::Joypad));
    assert_eq!(Interrupt::from_bit(5), None);
}

#[test]
fn writes_to_if_keep_only_the_low_five_bits() {
    let mut ic = InterruptController::new();
    ic.write_if(0x00);
    assert_eq!(ic.read_if(), 0xE0);
    ic.write_if(0xFF);
    assert_eq!(ic.read_if(), 0xFF);
    ic.write_if(0x05);
    assert_eq!(ic.read_if(), 0xE5);
    ic.write_ie(0xA5);
    assert_eq!(ic.read_ie(), 0xA5);
}

#[test]
fn pending_sources_are_served_in_order_of_priority() {
    let mut ic = InterruptController::new();
    ic.write_ie(0x1F);
    ic.write_if(0x1F);
    for source in Interrupt::ALL {
        assert!(ic.any_interrupt_pending());
        assert_eq!(ic.get_pending_interrupt(), Some(source));
        assert_eq!(ic.service_interrupt(source), source.handler_address());
    }
    assert!(!ic.any_interrupt_pending());
    assert_eq!(ic.get_pending_interrupt(), None);
    assert_eq!(ic.read_if(), 0xE0);
}

#[test]
fn unused_bits_of_ie_make_nothing_pending() {
    let mut ic = InterruptController::new();
    ic.write_ie(0xE0);
    assert!(!ic.any_interrupt_pending());
    assert_eq!(ic.get_pending_interrupt(), None);
    ic.write_ie(0x10);
    ic.request_interrupt(Interrupt::Joypad);
    assert_eq!(ic.get_pending_interrupt(), Some(Interrupt::Joypad));
}

#[test]
fn all_sources_are_listed_by_priority() {
    for (bit, source) in Interrupt::ALL.iter().enumerate() {
        assert_eq!(Interrupt::from_bit(bit as u8), Some(*source));
        assert_eq!(source.bit_mask(), 1 << bit);
        assert_eq!(source.handler_address(), 0x0040 + 8 * bit as u16);
    }
}

#[test]
fn default_controller_is_the_new_one() {
    let ic = InterruptController::default();
    assert_eq!(ic.read_if(), 0xE0);
    assert_eq!(ic.read_ie(), 0x00);
    assert_eq!(INTERRUPT_CYCLES, 20);
}
