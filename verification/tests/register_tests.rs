use gbcore::registers::{Registers, Reg8, Reg16, Flags};

#[test]
fn post_boot_values() {
    let r = Registers::new();
    assert_eq!(r.a, 0x01);
    assert_eq!(r.b, 0x00);
    assert_eq!(r.c, 0x13);
    assert_eq!(r.d, 0x00);
    assert_eq!(r.e, 0xD8);
    assert_eq!(r.h, 0x01);
    assert_eq!(r.l, 0x4D);
    assert_eq!(r.pc, 0x0100);
    assert_eq!(r.sp, 0xFFFE);
    assert!(r.f.z && r.f.h && r.f.c && !r.f.n);
    assert_eq!(r.f.bits(), 0xB0);
}

#[test]
fn pairs_compose_big_endian() {
    let mut r = Registers::new();
    r.set16(Reg16::BC, 0xABCD);
    assert_eq!(r.b, 0xAB);
    assert_eq!(r.c, 0xCD);
    assert_eq!(r.get16(Reg16::BC), 0xABCD);
    r.set16(Reg16::DE, 0x0001);
    assert_eq!(r.get16(Reg16::DE), 0x0001);
    r.set16(Reg16::HL, 0xFFFF);
    assert_eq!(r.get16(Reg16::HL), 0xFFFF);
    r.set16(Reg16::SP, 0x1234);
    assert_eq!(r.get16(Reg16::SP), 0x1234);
}

#[test]
fn af_keeps_only_flag_bits() {
    let mut r = Registers::new();
    r.set16(Reg16::AF, 0x12FF);
    assert_eq!(r.a, 0x12);
    assert!(r.f.z && r.f.n && r.f.h && r.f.c);
    // the low nibble of the flag byte always reads back zero
    assert_eq!(r.get16(Reg16::AF), 0x12F0);
    r.set16(Reg16::AF, 0x3407);
    assert_eq!(r.get16(Reg16::AF), 0x3400);
}

#[test]
fn eight_bit_accessors() {
    let mut r = Registers::new();
    r.set8(Reg8::H, 0x77);
    assert_eq!(r.get8(Reg8::H), 0x77);
    r.set8(Reg8::A, 0x00);
    assert_eq!(r.get8(Reg8::A), 0x00);
}

#[test]
fn flag_byte_roundtrip() {
    let f = Flags { z: true, n: false, h: true, c: false };
    assert_eq!(f.bits(), 0xA0);
    let g = Flags::from_bits_truncate(0xA0);
    assert_eq!(g, f);
    assert_eq!(Flags::from_bits_truncate(0x0F), Flags::empty());
    let all = Flags { z: true, n: true, h: true, c: true };
    assert_eq!(all.test(true), all);
    assert_eq!(all.test(false), Flags::empty());
}
