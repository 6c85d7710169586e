use rusty_gameboy_emulator::interrupts::Interrupt;
use rusty_gameboy_emulator::memory_bus::{MemoryBus, MEM_SIZE};
use rusty_gameboy_emulator::ppu::{TilePixelValue, GPU};

#[test]
fn rom_is_loaded_at_zero_and_padded() {
    let bus = MemoryBus::new(vec![0x11, 0x22, 0x33]);
    assert_eq!(bus.read_byte(0x0000), 0x11);
    assert_eq!(bus.read_byte(0x0001), 0x22);
    assert_eq!(bus.read_byte(0x0002), 0x33);
    assert_eq!(bus.read_byte(0x0003), 0x00);
    assert_eq!(bus.read_byte(0x7FFF), 0x00);
    assert_eq!(bus.read_byte(0xC000), 0x00);
}

#[test]
fn empty_rom_gives_cleared_memory() {
    let bus = MemoryBus::new(Vec::new());
    assert_eq!(bus.read_byte(0x0000), 0x00);
    assert_eq!(bus.read_byte(0x0100), 0x00);
    assert!(!bus.has_output());
}

#[test]
fn oversized_rom_is_cut_at_the_address_space() {
    let mut rom = vec![0xAAu8; MEM_SIZE + 16];
    rom[0x7FFF] = 0x55;
    let bus = MemoryBus::new(rom);
    assert_eq!(bus.read_byte(0x7FFF), 0x55);
    assert_eq!(bus.read_byte(0x0000), 0xAA);
    assert_eq!(bus.read_byte(0xC123), 0xAA);
    // Video RAM belongs to the picture unit and starts cleared.
    assert_eq!(bus.read_byte(0x8000), 0x00);
}

#[test]
fn writes_to_rom_are_dropped() {
    let mut bus = MemoryBus::new(vec![0x11, 0x22]);
    bus.write_byte(0x0000, 0x99);
    bus.write_byte(0x7FFF, 0x99);
    assert_eq!(bus.read_byte(0x0000), 0x11);
    assert_eq!(bus.read_byte(0x7FFF), 0x00);
}

#[test]
fn ram_regions_read_back() {
    let mut bus = MemoryBus::new(Vec::new());
    let addresses = [
        0x8000u16, 0x9FFF, 0xA000, 0xBFFF, 0xC000, 0xDFFF, 0xFE00, 0xFE9F, 0xFF00, 0xFF10,
        0xFF7F, 0xFF80, 0xFFFE,
    ];
    for (i, addr) in addresses.iter().enumerate() {
        bus.write_byte(*addr, 0x40 + i as u8);
    }
    for (i, addr) in addresses.iter().enumerate() {
        assert_eq!(bus.read_byte(*addr), 0x40 + i as u8, "address {:#06x}", addr);
    }
}

#[test]
fn echo_aliases_work_ram() {
    let mut bus = MemoryBus::new(Vec::new());
    bus.write_byte(0xC000, 0x12);
    assert_eq!(bus.read_byte(0xE000), 0x12);
    bus.write_byte(0xFDFF, 0x34);
    assert_eq!(bus.read_byte(0xDDFF), 0x34);
    assert_eq!(bus.read_byte(0xFDFF), 0x34);
    bus.write_byte(0xE123, 0x56);
    assert_eq!(bus.read_byte(0xC123), 0x56);
    bus.write_byte(0xC123, 0x78);
    assert_eq!(bus.read_byte(0xE123), 0x78);
}

#[test]
fn unmapped_range_reads_ff_and_ignores_writes() {
    let mut bus = MemoryBus::new(Vec::new());
    assert_eq!(bus.read_byte(0xFEA0), 0xFF);
    assert_eq!(bus.read_byte(0xFEFF), 0xFF);
    bus.write_byte(0xFEA0, 0x00);
    bus.write_byte(0xFEFF, 0x12);
    assert_eq!(bus.read_byte(0xFEA0), 0xFF);
    assert_eq!(bus.read_byte(0xFEFF), 0xFF);
}

#[test]
fn serial_transfer_appends_the_data_byte() {
    let mut bus = MemoryBus::new(Vec::new());
    bus.write_byte(0xFF01, b'H');
    assert!(!bus.has_output());
    assert_eq!(bus.read_byte(0xFF01), b'H');
    bus.write_byte(0xFF02, 0x81);
    assert!(bus.has_output());
    assert_eq!(bus.get_output(), &vec![b'H']);
    // The transfer is over at once: bit 7 reads as 0.
    assert_eq!(bus.read_byte(0xFF02), 0x01);
    bus.write_byte(0xFF01, b'i');
    bus.write_byte(0xFF02, 0x80);
    assert_eq!(bus.get_output(), &vec![b'H', b'i']);
    assert_eq!(bus.read_byte(0xFF02), 0x00);
    bus.clear_output();
    assert!(!bus.has_output());
    assert_eq!(bus.get_output().len(), 0);
    assert_eq!(bus.read_byte(0xFF01), b'i');
}

#[test]
fn serial_control_without_bit_seven_sends_nothing() {
    let mut bus = MemoryBus::new(Vec::new());
    bus.write_byte(0xFF01, 0x41);
    bus.write_byte(0xFF02, 0x7F);
    assert!(!bus.has_output());
    assert_eq!(bus.read_byte(0xFF02), 0x7F);
    // The serial interrupt is never requested.
    bus.write_byte(0xFFFF, 0x1F);
    bus.write_byte(0xFF02, 0x81);
    assert!(!bus.any_interrupt_pending());
}

#[test]
fn timer_registers_are_on_the_bus() {
    let mut bus = MemoryBus::new(Vec::new());
    bus.write_byte(0xFF06, 0x42);
    bus.write_byte(0xFF05, 0x10);
    bus.write_byte(0xFF07, 0x05);
    assert_eq!(bus.read_byte(0xFF06), 0x42);
    assert_eq!(bus.read_byte(0xFF05), 0x10);
    assert_eq!(bus.read_byte(0xFF07), 0xFD);
    for _ in 0..256 {
        bus.tick_timer();
    }
    assert_eq!(bus.read_byte(0xFF04), 0x01);
    assert_eq!(bus.read_byte(0xFF05), 0x20);
    bus.write_byte(0xFF04, 0xFF);
    assert_eq!(bus.read_byte(0xFF04), 0x00);
}

#[test]
fn timer_overflow_requests_the_timer_interrupt() {
    let mut bus = MemoryBus::new(Vec::new());
    bus.write_byte(0xFFFF, 0x04);
    bus.write_byte(0xFF06, 0xF0);
    bus.write_byte(0xFF05, 0xFF);
    bus.write_byte(0xFF07, 0x05);
    // Bit 3 falls on the 16th tick; the reload follows four ticks later.
    for _ in 0..19 {
        bus.tick_timer();
        assert!(!bus.any_interrupt_pending());
    }
    assert_eq!(bus.read_byte(0xFF05), 0x00);
    bus.tick_timer();
    assert!(bus.any_interrupt_pending());
    assert_eq!(bus.get_pending_interrupt(), Some(Interrupt::Timer));
    assert_eq!(bus.read_byte(0xFF05), 0xF0);
    assert_eq!(bus.read_byte(0xFF0F), 0xE4);
    assert_eq!(bus.service_interrupt(Interrupt::Timer), 0x0050);
    assert!(!bus.any_interrupt_pending());
    assert_eq!(bus.read_byte(0xFF0F), 0xE0);
}

#[test]
fn ticking_by_cycles_is_ticking_that_many_times() {
    let mut one_by_one = MemoryBus::new(Vec::new());
    let mut at_once = MemoryBus::new(Vec::new());
    for bus in [&mut one_by_one, &mut at_once] {
        bus.write_byte(0xFFFF, 0x04);
        bus.write_byte(0xFF06, 0xFD);
        bus.write_byte(0xFF05, 0xFD);
        bus.write_byte(0xFF07, 0x05);
    }
    for cycles in [0u16, 4, 8, 12, 16, 20, 24] {
        for _ in 0..cycles {
            one_by_one.tick_timer();
        }
        at_once.tick_timer_cycles(cycles);
        for addr in [0xFF04u16, 0xFF05, 0xFF06, 0xFF07, 0xFF0F] {
            assert_eq!(at_once.read_byte(addr), one_by_one.read_byte(addr));
        }
    }
    // 84 ticks: edges at 16, 32 and 48, the reload at 52.
    assert_eq!(at_once.read_byte(0xFF0F), 0xE4);
    assert_eq!(at_once.read_byte(0xFF05), 0xFF);
    at_once.tick_timer_cycles(0);
    assert_eq!(at_once.read_byte(0xFF05), 0xFF);
}

#[test]
fn interrupt_registers_are_on_the_bus() {
    let mut bus = MemoryBus::new(Vec::new());
    assert_eq!(bus.read_byte(0xFF0F), 0xE0);
    assert_eq!(bus.read_byte(0xFFFF), 0x00);
    bus.write_byte(0xFF0F, 0x03);
    assert_eq!(bus.read_byte(0xFF0F), 0xE3);
    assert!(!bus.any_interrupt_pending());
    bus.write_byte(0xFFFF, 0xFE);
    assert_eq!(bus.read_byte(0xFFFF), 0xFE);
    assert!(bus.any_interrupt_pending());
    assert_eq!(bus.get_pending_interrupt(), Some(Interrupt::LcdStat));
    bus.request_interrupt(Interrupt::Joypad);
    assert_eq!(bus.read_byte(0xFF0F), 0xF3);
}

#[test]
fn lcd_registers_are_on_the_bus() {
    let mut bus = MemoryBus::new(Vec::new());
    assert_eq!(bus.read_byte(0xFF40), 0x91);
    assert_eq!(bus.read_byte(0xFF47), 0xFC);
    assert_eq!(bus.read_byte(0xFF48), 0xFF);
    assert_eq!(bus.read_byte(0xFF49), 0xFF);
    for (i, addr) in (0xFF40u16..=0xFF4B).enumerate() {
        bus.write_byte(addr, 0x20 + i as u8);
    }
    for (i, addr) in (0xFF40u16..=0xFF4B).enumerate() {
        assert_eq!(bus.read_byte(addr), 0x20 + i as u8);
    }
    assert_eq!(bus.gpu().read_register(0xFF42), 0x22);
    // The address after the last LCD register is plain storage.
    bus.write_byte(0xFF4C, 0x77);
    assert_eq!(bus.read_byte(0xFF4C), 0x77);
    assert_eq!(bus.read_byte(0xFF4B), 0x2B);
}

#[test]
fn video_ram_goes_through_the_picture_unit() {
    let mut bus = MemoryBus::new(Vec::new());
    bus.write_byte(0x8000, 0b1010_0000);
    bus.write_byte(0x8001, 0b1100_0000);
    assert_eq!(bus.read_byte(0x8000), 0b1010_0000);
    assert_eq!(bus.gpu().read_vram(1), 0b1100_0000);
    assert_eq!(bus.gpu().tile_pixel(0, 0, 0), TilePixelValue::Three);
    assert_eq!(bus.gpu().tile_pixel(0, 0, 1), TilePixelValue::Two);
    assert_eq!(bus.gpu().tile_pixel(0, 0, 2), TilePixelValue::One);
    assert_eq!(bus.gpu().tile_pixel(0, 0, 3), TilePixelValue::Zero);
}

#[test]
fn tiles_follow_video_ram() {
    let mut gpu = GPU::new();
    assert_eq!(gpu.tile_pixel(383, 7, 7), TilePixelValue::Zero);
    // Last row of the last tile.
    gpu.write_vram(0x17FE, 0x01);
    assert_eq!(gpu.tile_pixel(383, 7, 7), TilePixelValue::One);
    gpu.write_vram(0x17FF, 0x81);
    assert_eq!(gpu.tile_pixel(383, 7, 7), TilePixelValue::Three);
    assert_eq!(gpu.tile_pixel(383, 7, 0), TilePixelValue::Two);
    assert_eq!(gpu.tile_pixel(383, 7, 1), TilePixelValue::Zero);
    assert_eq!(gpu.tile_pixel(383, 6, 7), TilePixelValue::Zero);
    // Beyond the tiles the write only reaches the bytes.
    gpu.write_vram(0x1800, 0xFF);
    gpu.write_vram(0x1FFF, 0x5A);
    assert_eq!(gpu.read_vram(0x1800), 0xFF);
    assert_eq!(gpu.read_vram(0x1FFF), 0x5A);
    assert_eq!(gpu.tile_pixel(383, 7, 7), TilePixelValue::Three);
    // Tile 1, row 2 is stored at byte 16 + 4.
    gpu.write_vram(21, 0x10);
    assert_eq!(gpu.tile_pixel(1, 2, 3), TilePixelValue::Two);
    gpu.write_vram(20, 0x10);
    assert_eq!(gpu.tile_pixel(1, 2, 3), TilePixelValue::Three);
    gpu.write_vram(21, 0x00);
    assert_eq!(gpu.tile_pixel(1, 2, 3), TilePixelValue::One);
}

#[test]
fn lcd_registers_of_the_picture_unit() {
    let mut gpu = GPU::new();
    assert_eq!(gpu.read_register(0xFF40), 0x91);
    assert_eq!(gpu.read_register(0xFF44), 0x00);
    gpu.write_register(0xFF44, 0x90);
    assert_eq!(gpu.read_register(0xFF44), 0x90);
    gpu.write_register(0xFF4B, 0x07);
    assert_eq!(gpu.read_register(0xFF4B), 0x07);
    // No register at these addresses.
    gpu.write_register(0xFF3F, 0x12);
    gpu.write_register(0xFF4C, 0x12);
    assert_eq!(gpu.read_register(0xFF3F), 0);
    assert_eq!(gpu.read_register(0xFF4C), 0);
    assert_eq!(gpu.read_register(0xFF40), 0x91);
}
