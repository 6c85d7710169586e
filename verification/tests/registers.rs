use rusty_gameboy_emulator::register::{
    make_word, word_high, word_low, FlagsRegister, Register16, Register8, Registers,
};

#[test]
fn registers_after_boot() {
    let r = Registers::new();
    assert_eq!(r.a, 0x01);
    assert_eq!(r.b, 0x00);
    assert_eq!(r.c, 0x13);
    assert_eq!(r.d, 0x00);
    assert_eq!(r.e, 0xD8);
    assert_eq!(r.h, 0x01);
    assert_eq!(r.l, 0x4D);
    assert_eq!(r.sp, 0xFFFE);
    assert_eq!(r.pc, 0x0100);
    assert!(r.f.zero);
    assert!(r.f.subtract);
    assert!(!r.f.half_carry);
    assert!(!r.f.carry);
    assert_eq!(r.get_af(), 0x01C0);
    assert_eq!(r.get_bc(), 0x0013);
    assert_eq!(r.get_de(), 0x00D8);
    assert_eq!(r.get_hl(), 0x014D);
}

#[test]
fn pairs_read_back_every_word() {
    let mut r = Registers::new();
    for v in 0..=0xFFFFu16 {
        r.set_bc(v);
        assert_eq!(r.get_bc(), v);
        r.set_de(v);
        assert_eq!(r.get_de(), v);
        r.set_hl(v);
        assert_eq!(r.get_hl(), v);
        r.set_af(v);
        assert_eq!(r.get_af(), v & 0xFFF0);
    }
}

#[test]
fn pair_halves_are_the_registers() {
    let mut r = Registers::new();
    r.set_bc(0x1234);
    assert_eq!((r.b, r.c), (0x12, 0x34));
    r.set_de(0xABCD);
    assert_eq!((r.d, r.e), (0xAB, 0xCD));
    r.set_hl(0xFF00);
    assert_eq!((r.h, r.l), (0xFF, 0x00));
    r.set_af(0x5AFF);
    assert_eq!(r.a, 0x5A);
    assert_eq!(r.f.to_byte(), 0xF0);
    assert_eq!(r.sp, 0xFFFE);
    assert_eq!(r.pc, 0x0100);
}

#[test]
fn flags_pack_into_the_top_nibble() {
    let none = FlagsRegister::default();
    assert_eq!(none.to_byte(), 0x00);
    let zero = FlagsRegister { zero: true, ..none };
    assert_eq!(zero.to_byte(), 0x80);
    let subtract = FlagsRegister { subtract: true, ..none };
    assert_eq!(subtract.to_byte(), 0x40);
    let half = FlagsRegister { half_carry: true, ..none };
    assert_eq!(half.to_byte(), 0x20);
    let carry = FlagsRegister { carry: true, ..none };
    assert_eq!(carry.to_byte(), 0x10);
}

#[test]
fn flags_of_every_byte_drop_the_low_nibble() {
    for byte in 0..=255u8 {
        let f = FlagsRegister::from_byte(byte);
        assert_eq!(f.to_byte(), byte & 0xF0);
        assert_eq!(f.zero, byte & 0x80 != 0);
        assert_eq!(f.subtract, byte & 0x40 != 0);
        assert_eq!(f.half_carry, byte & 0x20 != 0);
        assert_eq!(f.carry, byte & 0x10 != 0);
    }
}

#[test]
fn registers_by_name() {
    let mut r = Registers::new();
    let names = [
        Register8::A,
        Register8::B,
        Register8::C,
        Register8::D,
        Register8::E,
        Register8::H,
        Register8::L,
    ];
    for (i, name) in names.iter().enumerate() {
        r.write_8bit(*name, 0x10 + i as u8);
    }
    assert_eq!(
        (r.a, r.b, r.c, r.d, r.e, r.h, r.l),
        (0x10, 0x11, 0x12, 0x13, 0x14, 0x15, 0x16)
    );
    for (i, name) in names.iter().enumerate() {
        assert_eq!(r.read_8bit(*name), 0x10 + i as u8);
    }
    r.write_16bit(Register16::BC, 0x0102);
    r.write_16bit(Register16::DE, 0x0304);
    r.write_16bit(Register16::HL, 0x0506);
    r.write_16bit(Register16::SP, 0x0708);
    assert_eq!(r.read_16bit(Register16::BC), 0x0102);
    assert_eq!(r.read_16bit(Register16::DE), 0x0304);
    assert_eq!(r.read_16bit(Register16::HL), 0x0506);
    assert_eq!(r.read_16bit(Register16::SP), 0x0708);
    assert_eq!(r.sp, 0x0708);
    assert_eq!(r.a, 0x10);
}

#[test]
fn words_split_and_join() {
    assert_eq!(make_word(0x12, 0x34), 0x1234);
    assert_eq!(word_high(0x1234), 0x12);
    assert_eq!(word_low(0x1234), 0x34);
    assert_eq!(make_word(0xFF, 0xFF), 0xFFFF);
    assert_eq!(make_word(0x00, 0x80), 0x0080);
}
