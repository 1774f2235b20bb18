use gbcore::cartridge::{Cartridge, MemoryBankController};
use gbcore::rom::Rom;

fn image_with(ty: u8, title: &[u8]) -> Vec<u8> {
    let mut image = vec![0u8; 0x148];
    image[0x147] = ty;
    for (i, b) in title.iter().enumerate() {
        image[0x134 + i] = *b;
    }
    image
}

#[test]
fn controller_variant_comes_from_the_type_byte() {
    let cart = Cartridge::new(Rom::from_bytes(image_with(0, b""))).unwrap();
    assert!(matches!(cart.memory_bank_controller(), MemoryBankController::RomOnly));
    let cart = Cartridge::new(Rom::from_bytes(image_with(1, b""))).unwrap();
    assert!(matches!(cart.memory_bank_controller(), MemoryBankController::Mbc1));
}

#[test]
fn unsupported_type_byte_rejects_the_image() {
    assert!(Cartridge::new(Rom::from_bytes(image_with(5, b""))).is_none());
    assert_eq!(MemoryBankController::from_u8(2), None);
    assert!(matches!(MemoryBankController::from_u8(0), Some(MemoryBankController::RomOnly)));
}

#[test]
fn an_image_too_short_for_the_header_is_rejected() {
    assert!(Cartridge::new(Rom::from_bytes(vec![0u8; 0x100])).is_none());
    assert!(Cartridge::new(Rom::from_bytes(Vec::new())).is_none());
}

#[test]
fn title_reads_the_header_until_the_padding() {
    let cart = Cartridge::new(Rom::from_bytes(image_with(0, b"TICTACTOE"))).unwrap();
    assert_eq!(cart.title(), "TICTACTOE");
    let cart = Cartridge::new(Rom::from_bytes(image_with(0, b""))).unwrap();
    assert_eq!(cart.title(), "");
    // fifteen bytes fill the field completely
    let cart = Cartridge::new(Rom::from_bytes(image_with(0, b"ABCDEFGHIJKLMNO"))).unwrap();
    assert_eq!(cart.title(), "ABCDEFGHIJKLMNO");
}

#[test]
fn title_stops_at_a_byte_outside_ascii() {
    let cart = Cartridge::new(Rom::from_bytes(image_with(0, &[0x41, 0x42, 0x80, 0x43]))).unwrap();
    assert_eq!(cart.title(), "AB");
}

#[test]
fn rom_bytes_read_back_through_the_cartridge() {
    let mut image = image_with(0, b"");
    image[0] = 0xAA;
    let cart = Cartridge::new(Rom::from_bytes(image)).unwrap();
    assert_eq!(cart.read(0x0000).unwrap(), 0xAA);
    assert!(cart.read(0x4000).is_err());
    assert_eq!(cart.rom.as_slice()[0], 0xAA);
    assert_eq!(cart.rom.len(), 0x148);
}
