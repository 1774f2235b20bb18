use gbcore::irq::{Irq, Interrupt};

#[test]
fn acknowledge_serves_lowest_priority_number() {
    let mut irq = Irq::new();
    irq.set_enable(0b10110);
    irq.set_request(0b10100);
    // common bits are 0b10100; bit 2 (Timer) outranks bit 4 (Joypad)
    assert_eq!(irq.ack_interrupt(), Some(Interrupt::Timer));
    assert_eq!(irq.get_request(), 0b10000);
    assert_eq!(irq.get_enable(), 0b10110);
    assert_eq!(irq.ack_interrupt(), Some(Interrupt::Joypad));
    assert_eq!(irq.get_request(), 0);
}

#[test]
fn acknowledge_empty_intersection_changes_nothing() {
    let mut irq = Irq::new();
    irq.set_enable(0b00011);
    irq.set_request(0b01100);
    assert_eq!(irq.ack_interrupt(), None);
    assert_eq!(irq.get_enable(), 0b00011);
    assert_eq!(irq.get_request(), 0b01100);
}

#[test]
fn vblank_outranks_everything() {
    let mut irq = Irq::new();
    irq.set_enable(0b11111);
    irq.set_request(0b11111);
    assert_eq!(irq.ack_interrupt(), Some(Interrupt::VBlank));
    assert_eq!(irq.ack_interrupt(), Some(Interrupt::LcdStat));
    assert_eq!(irq.ack_interrupt(), Some(Interrupt::Timer));
    assert_eq!(irq.ack_interrupt(), Some(Interrupt::Serial));
    assert_eq!(irq.ack_interrupt(), Some(Interrupt::Joypad));
    assert_eq!(irq.ack_interrupt(), None);
}

#[test]
fn request_sets_one_bit() {
    let mut irq = Irq::new();
    irq.request_interrupt(Interrupt::Serial);
    assert_eq!(irq.get_request(), 0b01000);
    irq.request_interrupt(Interrupt::VBlank);
    assert_eq!(irq.get_request(), 0b01001);
    assert!(!irq.has_interrupt());
    irq.set_enable(0b00001);
    assert!(irq.has_interrupt());
}

#[test]
fn masks_keep_five_bits() {
    let mut irq = Irq::new();
    irq.set_enable(0xFF);
    irq.set_request(0xE3);
    assert_eq!(irq.get_enable(), 0x1F);
    assert_eq!(irq.get_request(), 0x03);
}

#[test]
fn sources_have_fixed_vectors() {
    assert_eq!(Interrupt::VBlank.addr(), 0x40);
    assert_eq!(Interrupt::LcdStat.addr(), 0x48);
    assert_eq!(Interrupt::Timer.addr(), 0x50);
    assert_eq!(Interrupt::Serial.addr(), 0x58);
    assert_eq!(Interrupt::Joypad.addr(), 0x60);
    assert_eq!(Interrupt::from_u8(0x04), Some(Interrupt::Timer));
    assert_eq!(Interrupt::from_u8(0x05), None);
}
