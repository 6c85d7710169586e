use rusty_gameboy_emulator::cpu::CPU;
use rusty_gameboy_emulator::instructions::{
    ArithmeticTarget, Instruction, JumpTest, LoadByteSource, LoadByteTarget, LoadType,
    LoadWordSource, LoadWordTarget, PrefixTarget, StackTarget,
};
use rusty_gameboy_emulator::interrupts::Interrupt;
use rusty_gameboy_emulator::register::FlagsRegister;

/// A CPU after boot whose ROM holds `program` at 0x0100.
fn cpu_with(program: &[u8]) -> CPU {
    let mut rom = vec![0u8; 0x8000];
    rom[0x100..0x100 + program.len()].copy_from_slice(program);
    CPU::new(rom)
}

fn clear_flags(cpu: &mut CPU) {
    cpu.registers.f = FlagsRegister::default();
}

#[test]
fn cpu_after_boot() {
    let cpu = cpu_with(&[]);
    assert_eq!(cpu.registers.pc, 0x0100);
    assert_eq!(cpu.registers.sp, 0xFFFE);
    assert!(!cpu.is_halted());
    assert!(!cpu.interrupts_enabled);
    assert!(!cpu.ei_pending);
    assert!(!cpu.halt_bug);
}

#[test]
fn load_immediate_then_add_immediate() {
    let mut cpu = cpu_with(&[0x3E, 0x05, 0xC6, 0x03]);
    let first = cpu.step();
    assert_eq!(first, 8);
    assert_eq!(cpu.registers.a, 0x05);
    assert_eq!(cpu.registers.pc, 0x0102);
    let second = cpu.step();
    assert_eq!(second, 8);
    assert_eq!(cpu.registers.a, 0x08);
    assert_eq!(cpu.registers.pc, 0x0104);
    assert!(!cpu.registers.f.zero);
    assert!(!cpu.registers.f.carry);
    assert!(!cpu.registers.f.half_carry);
    assert!(!cpu.registers.f.subtract);
    assert_eq!(first + second, 16);
}

#[test]
fn add_sets_its_flags_for_all_operands() {
    let mut cpu = cpu_with(&[]);
    for a in 0..=255u8 {
        for b in 0..=255u8 {
            cpu.registers.a = a;
            let r = cpu.add(b);
            assert_eq!(r, a.wrapping_add(b));
            assert_eq!(cpu.registers.f.carry, a as u16 + b as u16 > 255);
            assert_eq!(cpu.registers.f.half_carry, (a & 0xF) + (b & 0xF) > 15);
            assert_eq!(cpu.registers.f.zero, (a as u16 + b as u16) & 0xFF == 0);
            assert!(!cpu.registers.f.subtract);
        }
    }
}

#[test]
fn sub_and_cp_set_their_flags_for_all_operands() {
    let mut cpu = cpu_with(&[]);
    for a in 0..=255u8 {
        for b in 0..=255u8 {
            cpu.registers.a = a;
            let r = cpu.sub(b);
            assert_eq!(r, a.wrapping_sub(b));
            assert_eq!(cpu.registers.f.half_carry, (a & 0xF) < (b & 0xF));
            assert_eq!(cpu.registers.f.carry, a < b);
            assert_eq!(cpu.registers.f.zero, a == b);
            assert!(cpu.registers.f.subtract);
            clear_flags(&mut cpu);
            cpu.cp(b);
            assert_eq!(cpu.registers.a, a);
            assert_eq!(cpu.registers.f.half_carry, (a & 0xF) < (b & 0xF));
            assert_eq!(cpu.registers.f.carry, a < b);
            assert_eq!(cpu.registers.f.zero, a == b);
            assert!(cpu.registers.f.subtract);
        }
    }
}

#[test]
fn adc_and_sbc_take_the_carry_in() {
    let mut cpu = cpu_with(&[]);
    cpu.registers.a = 0x0F;
    cpu.registers.f.carry = true;
    assert_eq!(cpu.adc(0x00), 0x10);
    assert!(cpu.registers.f.half_carry);
    assert!(!cpu.registers.f.carry);
    cpu.registers.a = 0xFF;
    cpu.registers.f.carry = true;
    assert_eq!(cpu.adc(0x00), 0x00);
    assert!(cpu.registers.f.zero);
    assert!(cpu.registers.f.carry);
    assert!(cpu.registers.f.half_carry);
    cpu.registers.a = 0x00;
    cpu.registers.f.carry = true;
    assert_eq!(cpu.sbc(0x0F), 0xF0);
    assert!(cpu.registers.f.half_carry);
    assert!(cpu.registers.f.carry);
    assert!(cpu.registers.f.subtract);
    cpu.registers.a = 0x10;
    cpu.registers.f.carry = true;
    assert_eq!(cpu.sbc(0x0F), 0x00);
    assert!(cpu.registers.f.zero);
    assert!(cpu.registers.f.half_carry);
    assert!(!cpu.registers.f.carry);
    cpu.registers.a = 0x00;
    cpu.registers.f.carry = true;
    assert_eq!(cpu.sbc(0xFF), 0x00);
    assert!(cpu.registers.f.carry);
}

#[test]
fn logic_operations_set_their_flags() {
    let mut cpu = cpu_with(&[]);
    cpu.registers.a = 0xF0;
    cpu.registers.f.carry = true;
    assert_eq!(cpu.and(0x0F), 0x00);
    assert!(cpu.registers.f.zero);
    assert!(cpu.registers.f.half_carry);
    assert!(!cpu.registers.f.carry);
    assert!(!cpu.registers.f.subtract);
    cpu.registers.f.carry = true;
    assert_eq!(cpu.or(0x0F), 0xFF);
    assert!(!cpu.registers.f.zero);
    assert!(!cpu.registers.f.half_carry);
    assert!(!cpu.registers.f.carry);
    cpu.registers.f.carry = true;
    assert_eq!(cpu.xor(0xF0), 0x00);
    assert!(cpu.registers.f.zero);
    assert!(!cpu.registers.f.half_carry);
    assert!(!cpu.registers.f.carry);
    assert_eq!(cpu.xor(0x3C), 0xCC);
}

#[test]
fn increment_wraps_and_keeps_carry() {
    let mut cpu = cpu_with(&[]);
    clear_flags(&mut cpu);
    cpu.registers.f.carry = true;
    assert_eq!(cpu.inc_8bit(0xFF), 0x00);
    assert!(cpu.registers.f.zero);
    assert!(cpu.registers.f.half_carry);
    assert!(!cpu.registers.f.subtract);
    assert!(cpu.registers.f.carry);
    clear_flags(&mut cpu);
    assert_eq!(cpu.inc_8bit(0xFF), 0x00);
    assert!(!cpu.registers.f.carry);
    assert_eq!(cpu.inc_8bit(0x0E), 0x0F);
    assert!(!cpu.registers.f.half_carry);
    assert!(!cpu.registers.f.zero);
}

#[test]
fn decrement_wraps_and_keeps_carry() {
    let mut cpu = cpu_with(&[]);
    clear_flags(&mut cpu);
    assert_eq!(cpu.dec_8bit(0x00), 0xFF);
    assert!(!cpu.registers.f.zero);
    assert!(cpu.registers.f.half_carry);
    assert!(cpu.registers.f.subtract);
    assert!(!cpu.registers.f.carry);
    cpu.registers.f.carry = true;
    assert_eq!(cpu.dec_8bit(0x01), 0x00);
    assert!(cpu.registers.f.zero);
    assert!(!cpu.registers.f.half_carry);
    assert!(cpu.registers.f.carry);
}

#[test]
fn push_then_pop_returns_the_word() {
    let mut cpu = cpu_with(&[]);
    let sp = cpu.registers.sp;
    cpu.push(0x1234);
    assert_eq!(cpu.registers.sp, sp.wrapping_sub(2));
    // High byte at the higher address.
    assert_eq!(cpu.bus.read_byte(sp.wrapping_sub(1)), 0x12);
    assert_eq!(cpu.bus.read_byte(sp.wrapping_sub(2)), 0x34);
    assert_eq!(cpu.pop(), 0x1234);
    assert_eq!(cpu.registers.sp, sp);
    for value in [0x0000u16, 0x00FF, 0xFF00, 0xFFFF, 0xBEEF] {
        cpu.registers.sp = 0xD000;
        cpu.push(value);
        assert_eq!(cpu.pop(), value);
        assert_eq!(cpu.registers.sp, 0xD000);
    }
}

#[test]
fn push_into_rom_is_lost() {
    let mut cpu = cpu_with(&[]);
    cpu.registers.sp = 0x4000;
    cpu.push(0x1234);
    assert_eq!(cpu.registers.sp, 0x3FFE);
    assert_eq!(cpu.pop(), 0x0000);
    assert_eq!(cpu.registers.sp, 0x4000);
}

#[test]
fn push_and_pop_instructions() {
    // PUSH BC; POP DE; PUSH AF; POP HL
    let mut cpu = cpu_with(&[0xC5, 0xD1, 0xF5, 0xE1]);
    cpu.registers.set_bc(0xCAFE);
    assert_eq!(cpu.step(), 16);
    assert_eq!(cpu.registers.sp, 0xFFFC);
    assert_eq!(cpu.step(), 12);
    assert_eq!(cpu.registers.get_de(), 0xCAFE);
    assert_eq!(cpu.registers.sp, 0xFFFE);
    cpu.registers.a = 0x77;
    cpu.registers.f = FlagsRegister::from_byte(0xB0);
    assert_eq!(cpu.step(), 16);
    assert_eq!(cpu.step(), 12);
    assert_eq!(cpu.registers.get_hl(), 0x77B0);
    assert_eq!(cpu.registers.pc, 0x0104);
}

#[test]
fn pop_af_drops_the_low_nibble() {
    // POP AF
    let mut cpu = cpu_with(&[0xF1]);
    cpu.registers.sp = 0xC000;
    cpu.bus.write_byte(0xC000, 0xFF);
    cpu.bus.write_byte(0xC001, 0x12);
    assert_eq!(cpu.step(), 12);
    assert_eq!(cpu.registers.get_af(), 0x12F0);
    assert_eq!(cpu.registers.sp, 0xC002);
}

#[test]
fn halt_with_interrupts_disabled_and_one_pending_does_not_halt() {
    // HALT; INC A; NOP
    let mut cpu = cpu_with(&[0x76, 0x3C, 0x00]);
    cpu.registers.a = 0x10;
    cpu.bus.write_byte(0xFFFF, 0x01);
    cpu.bus.request_interrupt(Interrupt::VBlank);
    assert_eq!(cpu.step(), 4);
    assert!(!cpu.is_halted());
    assert!(cpu.halt_bug);
    assert_eq!(cpu.registers.pc, 0x0101);
    // The byte after HALT executes twice.
    assert_eq!(cpu.step(), 4);
    assert!(!cpu.halt_bug);
    assert_eq!(cpu.registers.a, 0x11);
    assert_eq!(cpu.registers.pc, 0x0101);
    assert_eq!(cpu.step(), 4);
    assert_eq!(cpu.registers.a, 0x12);
    assert_eq!(cpu.registers.pc, 0x0102);
}

#[test]
fn halt_bug_reads_the_opcode_as_operand() {
    // HALT; LD A, 0x14 executes as LD A, 0x3E; INC D
    let mut cpu = cpu_with(&[0x76, 0x3E, 0x14]);
    cpu.registers.d = 0x00;
    cpu.bus.write_byte(0xFFFF, 0x04);
    cpu.bus.request_interrupt(Interrupt::Timer);
    cpu.step();
    assert_eq!(cpu.step(), 8);
    assert_eq!(cpu.registers.a, 0x3E);
    assert_eq!(cpu.registers.pc, 0x0102);
    assert_eq!(cpu.step(), 4);
    assert_eq!(cpu.registers.d, 0x01);
    assert_eq!(cpu.registers.pc, 0x0103);
}

#[test]
fn halt_without_pending_interrupt_halts_until_one_is_pending() {
    // HALT; INC A
    let mut cpu = cpu_with(&[0x76, 0x3C]);
    cpu.registers.a = 0;
    assert_eq!(cpu.step(), 4);
    assert!(cpu.is_halted());
    assert!(!cpu.halt_bug);
    assert_eq!(cpu.registers.pc, 0x0101);
    for _ in 0..3 {
        assert_eq!(cpu.step(), 4);
        assert!(cpu.is_halted());
        assert_eq!(cpu.registers.pc, 0x0101);
    }
    // Requested but not enabled: still halted.
    cpu.bus.request_interrupt(Interrupt::Joypad);
    assert_eq!(cpu.step(), 4);
    assert!(cpu.is_halted());
    // Enabled in IE: the CPU wakes though interrupts are globally disabled.
    cpu.bus.write_byte(0xFFFF, 0x10);
    assert_eq!(cpu.step(), 4);
    assert!(!cpu.is_halted());
    assert_eq!(cpu.registers.a, 1);
    assert_eq!(cpu.registers.pc, 0x0102);
    assert_eq!(cpu.bus.read_byte(0xFF0F), 0xF0);
}

#[test]
fn halt_with_interrupts_enabled_halts_and_is_woken_by_dispatch() {
    // HALT
    let mut cpu = cpu_with(&[0x76]);
    cpu.interrupts_enabled = true;
    assert_eq!(cpu.step(), 4);
    assert!(cpu.is_halted());
    cpu.bus.write_byte(0xFFFF, 0x02);
    cpu.bus.request_interrupt(Interrupt::LcdStat);
    assert_eq!(cpu.step(), 20);
    assert!(!cpu.is_halted());
    assert_eq!(cpu.registers.pc, 0x0048);
}

#[test]
fn interrupt_dispatch() {
    let mut cpu = cpu_with(&[0x00]);
    cpu.interrupts_enabled = true;
    cpu.bus.write_byte(0xFFFF, 0x1F);
    cpu.bus.request_interrupt(Interrupt::Timer);
    cpu.bus.request_interrupt(Interrupt::VBlank);
    assert_eq!(cpu.step(), 20);
    assert!(!cpu.interrupts_enabled);
    assert_eq!(cpu.registers.pc, 0x0040);
    assert_eq!(cpu.registers.sp, 0xFFFC);
    assert_eq!(cpu.bus.read_byte(0xFFFD), 0x01);
    assert_eq!(cpu.bus.read_byte(0xFFFC), 0x00);
    // Only the dispatched request is withdrawn.
    assert_eq!(cpu.bus.read_byte(0xFF0F), 0xE4);
    // Interrupts are disabled now: the next step fetches.
    assert_eq!(cpu.step(), 4);
    assert_eq!(cpu.registers.pc, 0x0041);
}

#[test]
fn pending_interrupt_is_not_dispatched_while_disabled() {
    let mut cpu = cpu_with(&[0x00, 0x00]);
    cpu.bus.write_byte(0xFFFF, 0x1F);
    cpu.bus.request_interrupt(Interrupt::Serial);
    assert_eq!(cpu.step(), 4);
    assert_eq!(cpu.registers.pc, 0x0101);
    assert_eq!(cpu.bus.read_byte(0xFF0F), 0xE8);
}

#[test]
fn ei_takes_effect_after_the_next_instruction() {
    // EI; NOP; NOP
    let mut cpu = cpu_with(&[0xFB, 0x00, 0x00]);
    cpu.bus.write_byte(0xFFFF, 0x01);
    cpu.bus.request_interrupt(Interrupt::VBlank);
    assert_eq!(cpu.step(), 4);
    assert!(!cpu.interrupts_enabled);
    assert!(cpu.ei_pending);
    // The instruction after EI still executes.
    assert_eq!(cpu.step(), 4);
    assert_eq!(cpu.registers.pc, 0x0102);
    assert!(cpu.interrupts_enabled);
    assert!(!cpu.ei_pending);
    assert_eq!(cpu.step(), 20);
    assert_eq!(cpu.registers.pc, 0x0040);
    assert_eq!(cpu.bus.read_byte(0xFFFD), 0x01);
    assert_eq!(cpu.bus.read_byte(0xFFFC), 0x02);
}

#[test]
fn di_disables_at_once_and_reti_enables_at_once() {
    // DI; RETI
    let mut cpu = cpu_with(&[0xF3, 0xD9]);
    cpu.interrupts_enabled = true;
    assert_eq!(cpu.step(), 4);
    assert!(!cpu.interrupts_enabled);
    cpu.registers.sp = 0xC000;
    cpu.bus.write_byte(0xC000, 0x50);
    cpu.bus.write_byte(0xC001, 0x01);
    assert_eq!(cpu.step(), 16);
    assert!(cpu.interrupts_enabled);
    assert_eq!(cpu.registers.pc, 0x0150);
    assert_eq!(cpu.registers.sp, 0xC002);
}

#[test]
fn unassigned_opcode_stops_try_step() {
    let mut cpu = cpu_with(&[0x00, 0xD3]);
    assert!(cpu.will_fetch());
    assert_eq!(cpu.try_step(), Some(4));
    assert!(cpu.fetch().is_none());
    let a = cpu.registers.a;
    assert_eq!(cpu.try_step(), None);
    assert_eq!(cpu.registers.pc, 0x0101);
    assert_eq!(cpu.registers.a, a);
    // A dispatch needs no fetch.
    cpu.interrupts_enabled = true;
    cpu.bus.write_byte(0xFFFF, 0x01);
    cpu.bus.request_interrupt(Interrupt::VBlank);
    assert!(!cpu.will_fetch());
    assert_eq!(cpu.try_step(), Some(20));
}

#[test]
fn prefixed_instruction_is_fetched_from_the_second_byte() {
    // SWAP A; BIT 7, (HL)
    let mut cpu = cpu_with(&[0xCB, 0x37, 0xCB, 0x7E]);
    assert!(matches!(
        cpu.fetch(),
        Some(Instruction::SWAP(PrefixTarget::A))
    ));
    cpu.registers.a = 0xA5;
    cpu.registers.f.carry = true;
    assert_eq!(cpu.step(), 8);
    assert_eq!(cpu.registers.a, 0x5A);
    assert!(!cpu.registers.f.carry);
    assert!(!cpu.registers.f.zero);
    assert_eq!(cpu.registers.pc, 0x0102);
    cpu.registers.set_hl(0xC000);
    cpu.bus.write_byte(0xC000, 0x7F);
    cpu.registers.f.carry = true;
    assert_eq!(cpu.step(), 16);
    assert!(cpu.registers.f.zero);
    assert!(cpu.registers.f.half_carry);
    assert!(!cpu.registers.f.subtract);
    assert!(cpu.registers.f.carry);
    assert_eq!(cpu.registers.pc, 0x0104);
}

#[test]
fn rotates_and_shifts() {
    let mut cpu = cpu_with(&[]);
    clear_flags(&mut cpu);
    assert_eq!(cpu.rlc(0x85), 0x0B);
    assert!(cpu.registers.f.carry);
    assert_eq!(cpu.rrc(0x01), 0x80);
    assert!(cpu.registers.f.carry);
    cpu.registers.f.carry = false;
    assert_eq!(cpu.rl(0x80), 0x00);
    assert!(cpu.registers.f.carry);
    assert!(cpu.registers.f.zero);
    assert_eq!(cpu.rl(0x01), 0x03);
    assert!(!cpu.registers.f.carry);
    cpu.registers.f.carry = true;
    assert_eq!(cpu.rr(0x01), 0x80);
    assert!(cpu.registers.f.carry);
    assert_eq!(cpu.sla(0xC1), 0x82);
    assert!(cpu.registers.f.carry);
    assert_eq!(cpu.sra(0x81), 0xC0);
    assert!(cpu.registers.f.carry);
    assert_eq!(cpu.srl(0x81), 0x40);
    assert!(cpu.registers.f.carry);
    assert_eq!(cpu.srl(0x01), 0x00);
    assert!(cpu.registers.f.zero);
    assert_eq!(cpu.swap(0xF1), 0x1F);
    assert!(!cpu.registers.f.carry);
    assert!(!cpu.registers.f.half_carry);
    assert!(!cpu.registers.f.subtract);
    assert_eq!(cpu.swap(0x00), 0x00);
    assert!(cpu.registers.f.zero);
}

#[test]
fn accumulator_rotates_clear_zero() {
    // RLCA; RRCA; RLA; RRA
    let mut cpu = cpu_with(&[0x07, 0x0F, 0x17, 0x1F]);
    cpu.registers.a = 0x00;
    cpu.registers.f = FlagsRegister::from_byte(0xF0);
    assert_eq!(cpu.step(), 4);
    assert_eq!(cpu.registers.a, 0x00);
    assert_eq!(cpu.registers.f.to_byte(), 0x00);
    cpu.registers.a = 0x01;
    assert_eq!(cpu.step(), 4);
    assert_eq!(cpu.registers.a, 0x80);
    assert_eq!(cpu.registers.f.to_byte(), 0x10);
    assert_eq!(cpu.step(), 4);
    assert_eq!(cpu.registers.a, 0x01);
    assert_eq!(cpu.registers.f.to_byte(), 0x10);
    assert_eq!(cpu.step(), 4);
    assert_eq!(cpu.registers.a, 0x80);
    assert_eq!(cpu.registers.f.to_byte(), 0x10);
    assert_eq!(cpu.registers.pc, 0x0104);
}

#[test]
fn bit_operations() {
    // BIT 0, B; RES 0, B; SET 7, B; SET 3, (HL); RES 3, (HL)
    let mut cpu = cpu_with(&[0xCB, 0x40, 0xCB, 0x80, 0xCB, 0xF8, 0xCB, 0xDE, 0xCB, 0x9E]);
    cpu.registers.b = 0x01;
    clear_flags(&mut cpu);
    assert_eq!(cpu.step(), 8);
    assert!(!cpu.registers.f.zero);
    assert!(cpu.registers.f.half_carry);
    assert_eq!(cpu.step(), 8);
    assert_eq!(cpu.registers.b, 0x00);
    assert_eq!(cpu.step(), 8);
    assert_eq!(cpu.registers.b, 0x80);
    cpu.registers.set_hl(0xC010);
    cpu.bus.write_byte(0xC010, 0x01);
    assert_eq!(cpu.step(), 16);
    assert_eq!(cpu.bus.read_byte(0xC010), 0x09);
    assert_eq!(cpu.step(), 16);
    assert_eq!(cpu.bus.read_byte(0xC010), 0x01);
    // The number of a bit counts modulo 8.
    let flags = cpu.registers.f.to_byte();
    cpu.execute(Instruction::SET(9, PrefixTarget::C));
    assert_eq!(cpu.registers.c & 0x02, 0x02);
    assert_eq!(cpu.registers.f.to_byte(), flags);
}

#[test]
fn decimal_adjust() {
    let mut cpu = cpu_with(&[]);
    // 0x45 + 0x38 = 0x7D, which is 83 in decimal.
    cpu.registers.a = 0x45;
    let sum = cpu.add(0x38);
    cpu.registers.a = sum;
    assert_eq!(cpu.daa(), 0x83);
    assert!(!cpu.registers.f.carry);
    assert!(!cpu.registers.f.half_carry);
    // 0x99 + 0x01 = 0x9A, which is 100: 0x00 with carry.
    cpu.registers.a = 0x99;
    let sum = cpu.add(0x01);
    cpu.registers.a = sum;
    assert_eq!(cpu.daa(), 0x00);
    assert!(cpu.registers.f.carry);
    assert!(cpu.registers.f.zero);
    // 0x19 + 0x28 = 0x41 with half-carry, which is 47.
    cpu.registers.a = 0x19;
    let sum = cpu.add(0x28);
    cpu.registers.a = sum;
    assert_eq!(cpu.daa(), 0x47);
    // 0x42 - 0x15 = 0x2D with half-borrow, which is 27.
    cpu.registers.a = 0x42;
    let difference = cpu.sub(0x15);
    cpu.registers.a = difference;
    assert_eq!(cpu.daa(), 0x27);
    assert!(cpu.registers.f.subtract);
    assert!(!cpu.registers.f.carry);
    // 0x15 - 0x42 = 0xD3 with borrow, which is 73 of the next hundred below.
    cpu.registers.a = 0x15;
    let difference = cpu.sub(0x42);
    cpu.registers.a = difference;
    assert_eq!(cpu.daa(), 0x73);
    assert!(cpu.registers.f.carry);
    // After a subtraction the digits themselves are not looked at.
    cpu.registers.a = 0x9A;
    cpu.registers.f = FlagsRegister { zero: false, subtract: true, half_carry: false, carry: false };
    assert_eq!(cpu.daa(), 0x9A);
    assert!(!cpu.registers.f.carry);
}

#[test]
fn decimal_adjust_after_every_sum_of_packed_decimals() {
    let mut cpu = cpu_with(&[]);
    for x in 0..100u8 {
        for y in 0..100u8 {
            let a = (x / 10) * 16 + x % 10;
            let b = (y / 10) * 16 + y % 10;
            cpu.registers.a = a;
            let sum = cpu.add(b);
            cpu.registers.a = sum;
            let adjusted = cpu.daa();
            let expected = (x + y) % 100;
            assert_eq!(adjusted, (expected / 10) * 16 + expected % 10);
            assert_eq!(cpu.registers.f.carry, x + y >= 100);
            assert_eq!(cpu.registers.f.zero, expected == 0);
            assert!(!cpu.registers.f.half_carry);
            cpu.registers.a = a;
            let difference = cpu.sub(b);
            cpu.registers.a = difference;
            let adjusted = cpu.daa();
            let expected = (100 + x - y) % 100;
            assert_eq!(adjusted, (expected / 10) * 16 + expected % 10);
            assert_eq!(cpu.registers.f.carry, x < y);
            assert!(cpu.registers.f.subtract);
        }
    }
}

#[test]
fn complement_and_carry_instructions() {
    // CPL; SCF; CCF; CCF
    let mut cpu = cpu_with(&[0x2F, 0x37, 0x3F, 0x3F]);
    cpu.registers.a = 0x35;
    cpu.registers.f = FlagsRegister::from_byte(0x80);
    assert_eq!(cpu.step(), 4);
    assert_eq!(cpu.registers.a, 0xCA);
    assert_eq!(cpu.registers.f.to_byte(), 0xE0);
    assert_eq!(cpu.step(), 4);
    assert_eq!(cpu.registers.f.to_byte(), 0x90);
    assert_eq!(cpu.step(), 4);
    assert_eq!(cpu.registers.f.to_byte(), 0x80);
    assert_eq!(cpu.step(), 4);
    assert_eq!(cpu.registers.f.to_byte(), 0x90);
}

#[test]
fn sixteen_bit_addition_to_hl() {
    // ADD HL, BC; ADD HL, HL
    let mut cpu = cpu_with(&[0x09, 0x29]);
    cpu.registers.set_hl(0x0FFF);
    cpu.registers.set_bc(0x0001);
    cpu.registers.f = FlagsRegister::from_byte(0xC0);
    assert_eq!(cpu.step(), 8);
    assert_eq!(cpu.registers.get_hl(), 0x1000);
    assert!(cpu.registers.f.half_carry);
    assert!(!cpu.registers.f.carry);
    assert!(!cpu.registers.f.subtract);
    assert!(cpu.registers.f.zero);
    cpu.registers.set_hl(0x8000);
    assert_eq!(cpu.step(), 8);
    assert_eq!(cpu.registers.get_hl(), 0x0000);
    assert!(cpu.registers.f.carry);
    assert!(!cpu.registers.f.half_carry);
    assert!(cpu.registers.f.zero);
}

#[test]
fn signed_offset_to_the_stack_pointer() {
    // ADD SP, 8; ADD SP, -1; LD HL, SP+2; LD HL, SP-1
    let mut cpu = cpu_with(&[0xE8, 0x08, 0xE8, 0xFF, 0xF8, 0x02, 0xF8, 0xFF]);
    cpu.registers.sp = 0xFFF8;
    cpu.registers.f = FlagsRegister::from_byte(0xF0);
    assert_eq!(cpu.step(), 16);
    assert_eq!(cpu.registers.sp, 0x0000);
    assert!(cpu.registers.f.carry);
    assert!(cpu.registers.f.half_carry);
    assert!(!cpu.registers.f.zero);
    assert!(!cpu.registers.f.subtract);
    assert_eq!(cpu.step(), 16);
    assert_eq!(cpu.registers.sp, 0xFFFF);
    // The flags add the byte 0xFF to the low byte 0x00.
    assert!(!cpu.registers.f.carry);
    assert!(!cpu.registers.f.half_carry);
    assert_eq!(cpu.step(), 12);
    assert_eq!(cpu.registers.get_hl(), 0x0001);
    assert_eq!(cpu.registers.sp, 0xFFFF);
    assert!(cpu.registers.f.carry);
    assert!(cpu.registers.f.half_carry);
    assert_eq!(cpu.step(), 12);
    assert_eq!(cpu.registers.get_hl(), 0xFFFE);
    assert!(cpu.registers.f.carry);
    assert!(cpu.registers.f.half_carry);
    assert_eq!(cpu.registers.pc, 0x0108);
}

#[test]
fn arithmetic_on_memory_and_immediate_operands() {
    // ADD A, (HL); SUB 0x01; CP 0x10; AND (HL); XOR 0xFF
    let mut cpu = cpu_with(&[0x86, 0xD6, 0x01, 0xFE, 0x10, 0xA6, 0xEE, 0xFF]);
    cpu.registers.a = 0x0F;
    cpu.registers.set_hl(0xC000);
    cpu.bus.write_byte(0xC000, 0x02);
    assert_eq!(cpu.step(), 8);
    assert_eq!(cpu.registers.a, 0x11);
    assert!(cpu.registers.f.half_carry);
    assert_eq!(cpu.registers.pc, 0x0101);
    assert_eq!(cpu.step(), 8);
    assert_eq!(cpu.registers.a, 0x10);
    assert_eq!(cpu.registers.pc, 0x0103);
    assert_eq!(cpu.step(), 8);
    assert_eq!(cpu.registers.a, 0x10);
    assert!(cpu.registers.f.zero);
    assert_eq!(cpu.registers.pc, 0x0105);
    assert_eq!(cpu.step(), 8);
    assert_eq!(cpu.registers.a, 0x00);
    assert!(cpu.registers.f.zero);
    assert_eq!(cpu.step(), 8);
    assert_eq!(cpu.registers.a, 0xFF);
    assert_eq!(cpu.registers.pc, 0x0108);
}

#[test]
fn arithmetic_on_registers_costs_four_cycles() {
    // ADD A, B; ADC A, C; SUB D; SBC A, E; AND H; XOR L; OR A; CP B
    let mut cpu = cpu_with(&[0x80, 0x89, 0x92, 0x9B, 0xA4, 0xAD, 0xB7, 0xB8]);
    cpu.registers.a = 0x01;
    cpu.registers.b = 0x02;
    cpu.registers.c = 0x03;
    cpu.registers.d = 0x01;
    cpu.registers.e = 0x01;
    cpu.registers.h = 0x0F;
    cpu.registers.l = 0x0F;
    clear_flags(&mut cpu);
    assert_eq!(cpu.step(), 4);
    assert_eq!(cpu.registers.a, 0x03);
    assert_eq!(cpu.step(), 4);
    assert_eq!(cpu.registers.a, 0x06);
    assert_eq!(cpu.step(), 4);
    assert_eq!(cpu.registers.a, 0x05);
    assert_eq!(cpu.step(), 4);
    assert_eq!(cpu.registers.a, 0x04);
    assert_eq!(cpu.step(), 4);
    assert_eq!(cpu.registers.a, 0x04);
    assert_eq!(cpu.step(), 4);
    assert_eq!(cpu.registers.a, 0x0B);
    assert_eq!(cpu.step(), 4);
    assert_eq!(cpu.registers.a, 0x0B);
    assert_eq!(cpu.step(), 4);
    assert_eq!(cpu.registers.a, 0x0B);
    assert!(!cpu.registers.f.zero);
    assert!(!cpu.registers.f.carry);
    assert_eq!(cpu.registers.pc, 0x0108);
    assert_eq!(cpu.get_arithmetic_target(ArithmeticTarget::B), 0x02);
}

#[test]
fn increments_and_decrements() {
    // INC B; DEC C; INC (HL); DEC (HL); INC BC; DEC SP; INC HL
    let mut cpu = cpu_with(&[0x04, 0x0D, 0x34, 0x35, 0x03, 0x3B, 0x23]);
    cpu.registers.b = 0x0F;
    cpu.registers.c = 0x01;
    cpu.registers.f = FlagsRegister::from_byte(0x10);
    assert_eq!(cpu.step(), 4);
    assert_eq!(cpu.registers.b, 0x10);
    assert_eq!(cpu.registers.f.to_byte(), 0x30);
    assert_eq!(cpu.step(), 4);
    assert_eq!(cpu.registers.c, 0x00);
    assert_eq!(cpu.registers.f.to_byte(), 0xD0);
    cpu.registers.set_hl(0xC000);
    cpu.bus.write_byte(0xC000, 0xFF);
    assert_eq!(cpu.step(), 12);
    assert_eq!(cpu.bus.read_byte(0xC000), 0x00);
    assert_eq!(cpu.registers.f.to_byte(), 0xB0);
    assert_eq!(cpu.step(), 12);
    assert_eq!(cpu.bus.read_byte(0xC000), 0xFF);
    assert_eq!(cpu.registers.f.to_byte(), 0x70);
    cpu.registers.set_bc(0xFFFF);
    assert_eq!(cpu.step(), 8);
    assert_eq!(cpu.registers.get_bc(), 0x0000);
    cpu.registers.sp = 0x0000;
    assert_eq!(cpu.step(), 8);
    assert_eq!(cpu.registers.sp, 0xFFFF);
    assert_eq!(cpu.step(), 8);
    assert_eq!(cpu.registers.get_hl(), 0xC001);
    // The 16-bit forms leave the flags alone.
    assert_eq!(cpu.registers.f.to_byte(), 0x70);
    assert_eq!(cpu.registers.pc, 0x0107);
}

#[test]
fn jumps_cost_more_when_taken() {
    // JP NZ, 0x0200
    let mut cpu = cpu_with(&[0xC2, 0x00, 0x02]);
    cpu.registers.f.zero = true;
    assert_eq!(cpu.step(), 12);
    assert_eq!(cpu.registers.pc, 0x0103);
    cpu.registers.pc = 0x0100;
    cpu.registers.f.zero = false;
    assert_eq!(cpu.step(), 16);
    assert_eq!(cpu.registers.pc, 0x0200);
    // JP 0x1234; JP HL
    let mut cpu = cpu_with(&[0xC3, 0x34, 0x12]);
    assert_eq!(cpu.step(), 16);
    assert_eq!(cpu.registers.pc, 0x1234);
    let mut cpu = cpu_with(&[0xE9]);
    cpu.registers.set_hl(0x4321);
    assert_eq!(cpu.step(), 4);
    assert_eq!(cpu.registers.pc, 0x4321);
}

#[test]
fn relative_jumps_count_from_the_next_instruction() {
    // JR -2 jumps to itself.
    let mut cpu = cpu_with(&[0x18, 0xFE]);
    assert_eq!(cpu.step(), 12);
    assert_eq!(cpu.registers.pc, 0x0100);
    // JR C, +5
    let mut cpu = cpu_with(&[0x38, 0x05]);
    cpu.registers.f.carry = false;
    assert_eq!(cpu.step(), 8);
    assert_eq!(cpu.registers.pc, 0x0102);
    cpu.registers.pc = 0x0100;
    cpu.registers.f.carry = true;
    assert_eq!(cpu.step(), 12);
    assert_eq!(cpu.registers.pc, 0x0107);
    // JR Z, -128
    let mut cpu = cpu_with(&[0x28, 0x80]);
    cpu.registers.f.zero = true;
    assert_eq!(cpu.step(), 12);
    assert_eq!(cpu.registers.pc, 0x0082);
    assert!(cpu.should_jump(&JumpTest::Zero));
    assert!(!cpu.should_jump(&JumpTest::NotZero));
    assert!(cpu.should_jump(&JumpTest::Always));
}

#[test]
fn calls_and_returns() {
    // CALL 0x0200 ... at 0x0200: RET
    let mut rom = vec![0u8; 0x8000];
    rom[0x100] = 0xCD;
    rom[0x101] = 0x00;
    rom[0x102] = 0x02;
    rom[0x200] = 0xC9;
    let mut cpu = CPU::new(rom);
    assert_eq!(cpu.step(), 24);
    assert_eq!(cpu.registers.pc, 0x0200);
    assert_eq!(cpu.registers.sp, 0xFFFC);
    assert_eq!(cpu.bus.read_byte(0xFFFD), 0x01);
    assert_eq!(cpu.bus.read_byte(0xFFFC), 0x03);
    assert_eq!(cpu.step(), 16);
    assert_eq!(cpu.registers.pc, 0x0103);
    assert_eq!(cpu.registers.sp, 0xFFFE);
    // CALL Z not taken; RET NC taken and not taken
    let mut cpu = cpu_with(&[0xCC, 0x00, 0x02, 0xD0, 0xD0]);
    cpu.registers.f.zero = false;
    assert_eq!(cpu.step(), 12);
    assert_eq!(cpu.registers.pc, 0x0103);
    assert_eq!(cpu.registers.sp, 0xFFFE);
    cpu.registers.f.carry = true;
    assert_eq!(cpu.step(), 8);
    assert_eq!(cpu.registers.pc, 0x0104);
    cpu.registers.f.carry = false;
    cpu.push(0x0300);
    assert_eq!(cpu.step(), 20);
    assert_eq!(cpu.registers.pc, 0x0300);
}

#[test]
fn restart_calls_a_fixed_address() {
    // RST 0x28
    let mut cpu = cpu_with(&[0xEF]);
    assert_eq!(cpu.step(), 16);
    assert_eq!(cpu.registers.pc, 0x0028);
    assert_eq!(cpu.registers.sp, 0xFFFC);
    assert_eq!(cpu.bus.read_byte(0xFFFD), 0x01);
    assert_eq!(cpu.bus.read_byte(0xFFFC), 0x01);
}

#[test]
fn byte_loads_and_their_cycles() {
    // LD B, A; LD (HL), B; LD C, (HL); LD (HL), 0x5A; LD (HL+), A; LD A, (HL-)
    let mut cpu = cpu_with(&[0x47, 0x70, 0x4E, 0x36, 0x5A, 0x22, 0x3A]);
    cpu.registers.a = 0x42;
    cpu.registers.set_hl(0xC000);
    assert_eq!(cpu.step(), 4);
    assert_eq!(cpu.registers.b, 0x42);
    assert_eq!(cpu.step(), 8);
    assert_eq!(cpu.bus.read_byte(0xC000), 0x42);
    assert_eq!(cpu.step(), 8);
    assert_eq!(cpu.registers.c, 0x42);
    assert_eq!(cpu.step(), 12);
    assert_eq!(cpu.bus.read_byte(0xC000), 0x5A);
    assert_eq!(cpu.registers.pc, 0x0105);
    assert_eq!(cpu.step(), 8);
    assert_eq!(cpu.bus.read_byte(0xC000), 0x42);
    assert_eq!(cpu.registers.get_hl(), 0xC001);
    cpu.bus.write_byte(0xC001, 0x99);
    assert_eq!(cpu.step(), 8);
    assert_eq!(cpu.registers.a, 0x99);
    assert_eq!(cpu.registers.get_hl(), 0xC000);
    assert_eq!(cpu.registers.pc, 0x0107);
}

#[test]
fn loads_through_addresses() {
    // LD (0xC123), A; LD A, (0xC124); LDH (0x80), A; LDH A, (0x81); LD (C), A; LD A, (C)
    let mut cpu = cpu_with(&[
        0xEA, 0x23, 0xC1, 0xFA, 0x24, 0xC1, 0xE0, 0x80, 0xF0, 0x81, 0xE2, 0xF2,
    ]);
    cpu.registers.a = 0x11;
    cpu.bus.write_byte(0xC124, 0x22);
    assert_eq!(cpu.step(), 16);
    assert_eq!(cpu.bus.read_byte(0xC123), 0x11);
    assert_eq!(cpu.registers.pc, 0x0103);
    assert_eq!(cpu.step(), 16);
    assert_eq!(cpu.registers.a, 0x22);
    assert_eq!(cpu.registers.pc, 0x0106);
    assert_eq!(cpu.step(), 12);
    assert_eq!(cpu.bus.read_byte(0xFF80), 0x22);
    assert_eq!(cpu.registers.pc, 0x0108);
    cpu.bus.write_byte(0xFF81, 0x33);
    assert_eq!(cpu.step(), 12);
    assert_eq!(cpu.registers.a, 0x33);
    assert_eq!(cpu.registers.pc, 0x010A);
    cpu.registers.c = 0x90;
    assert_eq!(cpu.step(), 8);
    assert_eq!(cpu.bus.read_byte(0xFF90), 0x33);
    cpu.bus.write_byte(0xFF90, 0x44);
    assert_eq!(cpu.step(), 8);
    assert_eq!(cpu.registers.a, 0x44);
    assert_eq!(cpu.registers.pc, 0x010C);
}

#[test]
fn loads_through_register_pairs() {
    // LD (BC), A; LD (DE), A; LD A, (BC); LD A, (DE)
    let mut cpu = cpu_with(&[0x02, 0x12, 0x0A, 0x1A]);
    cpu.registers.a = 0x77;
    cpu.registers.set_bc(0xC010);
    cpu.registers.set_de(0xC020);
    assert_eq!(cpu.step(), 8);
    assert_eq!(cpu.step(), 8);
    assert_eq!(cpu.bus.read_byte(0xC010), 0x77);
    assert_eq!(cpu.bus.read_byte(0xC020), 0x77);
    cpu.bus.write_byte(0xC010, 0x01);
    cpu.bus.write_byte(0xC020, 0x02);
    assert_eq!(cpu.step(), 8);
    assert_eq!(cpu.registers.a, 0x01);
    assert_eq!(cpu.step(), 8);
    assert_eq!(cpu.registers.a, 0x02);
}

#[test]
fn word_loads() {
    // LD BC, 0x1234; LD SP, 0xD000; LD (0xC100), SP; LD SP, HL
    let mut cpu = cpu_with(&[0x01, 0x34, 0x12, 0x31, 0x00, 0xD0, 0x08, 0x00, 0xC1, 0xF9]);
    assert_eq!(cpu.step(), 12);
    assert_eq!(cpu.registers.get_bc(), 0x1234);
    assert_eq!(cpu.registers.pc, 0x0103);
    assert_eq!(cpu.step(), 12);
    assert_eq!(cpu.registers.sp, 0xD000);
    assert_eq!(cpu.step(), 20);
    assert_eq!(cpu.bus.read_byte(0xC100), 0x00);
    assert_eq!(cpu.bus.read_byte(0xC101), 0xD0);
    assert_eq!(cpu.registers.pc, 0x0109);
    cpu.registers.set_hl(0xBEEF);
    assert_eq!(cpu.step(), 8);
    assert_eq!(cpu.registers.sp, 0xBEEF);
    assert_eq!(cpu.registers.pc, 0x010A);
}

#[test]
fn execute_leaves_the_program_counter_to_the_caller() {
    let mut cpu = cpu_with(&[]);
    let (next, cycles) = cpu.execute(Instruction::NOP);
    assert_eq!((next, cycles), (0x0101, 4));
    assert_eq!(cpu.registers.pc, 0x0100);
    let (next, cycles) = cpu.execute(Instruction::STOP);
    assert_eq!((next, cycles), (0x0102, 4));
    let (next, cycles) = cpu.execute(Instruction::LD(LoadType::Byte(
        LoadByteTarget::B,
        LoadByteSource::C,
    )));
    assert_eq!((next, cycles), (0x0101, 4));
    assert_eq!(cpu.registers.b, 0x13);
    let (next, cycles) = cpu.execute(Instruction::LD(LoadType::Word(
        LoadWordTarget::HL,
        LoadWordSource::SP,
    )));
    assert_eq!((next, cycles), (0x0101, 8));
    assert_eq!(cpu.registers.get_hl(), 0xFFFE);
    let (next, cycles) = cpu.execute(Instruction::PUSH(StackTarget::HL));
    assert_eq!((next, cycles), (0x0101, 16));
    assert_eq!(cpu.registers.pc, 0x0100);
}

#[test]
fn program_counter_wraps_at_the_end_of_memory() {
    let mut cpu = cpu_with(&[]);
    cpu.registers.pc = 0xFFFF;
    // IE holds the opcode: NOP.
    assert_eq!(cpu.step(), 4);
    assert_eq!(cpu.registers.pc, 0x0000);
    cpu.registers.pc = 0xFFFF;
    cpu.bus.write_byte(0xFFFF, 0x3E);
    // LD A, d8 reads its operand from address 0.
    assert_eq!(cpu.step(), 8);
    assert_eq!(cpu.registers.a, 0x00);
    assert_eq!(cpu.registers.pc, 0x0001);
}

#[test]
fn wake_from_halt_clears_the_halted_state() {
    let mut cpu = cpu_with(&[0x76]);
    cpu.step();
    assert!(cpu.is_halted());
    cpu.wake_from_halt();
    assert!(!cpu.is_halted());
}

#[test]
fn steps_and_timer_ticks_drive_a_timer_interrupt() {
    // EI; then NOPs. The handler at 0x0050 holds RETI.
    let mut rom = vec![0u8; 0x8000];
    rom[0x100] = 0xFB;
    rom[0x50] = 0xD9;
    let mut cpu = CPU::new(rom);
    cpu.bus.write_byte(0xFFFF, 0x04);
    cpu.bus.write_byte(0xFF06, 0xFE);
    cpu.bus.write_byte(0xFF05, 0xFE);
    cpu.bus.write_byte(0xFF07, 0x05);
    let mut dispatched_at = None;
    let mut total: u32 = 0;
    for _ in 0..40 {
        let cycles = cpu.step();
        if cycles == 20 {
            dispatched_at = Some(total);
            break;
        }
        for _ in 0..cycles {
            cpu.bus.tick_timer();
        }
        total += cycles as u32;
    }
    // Two falling edges of bit 3 (ticks 16 and 32) and four ticks of delay.
    assert_eq!(dispatched_at, Some(36));
    assert_eq!(cpu.registers.pc, 0x0050);
    assert!(!cpu.interrupts_enabled);
    assert_eq!(cpu.step(), 16);
    assert!(cpu.interrupts_enabled);
    assert_eq!(cpu.registers.sp, 0xFFFE);
}
