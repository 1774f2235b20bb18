use gbcore::cartridge::Cartridge;
use gbcore::mmu::MMU;
use gbcore::rom::Rom;
use gbcore::EmuError;

fn make_mmu(mut image: Vec<u8>) -> MMU {
    while image.len() < 0x148 {
        image.push(0);
    }
    let cart = Cartridge::new(Rom::from_bytes(image)).unwrap();
    MMU::new(cart)
}

#[test]
fn work_ram_round_trips() {
    let mut mmu = make_mmu(Vec::new());
    for addr in [0xC000u16, 0xC001, 0xD234, 0xDFFF] {
        mmu.write(addr, 0x5A).unwrap();
        assert_eq!(mmu.read(addr).unwrap(), 0x5A);
    }
}

#[test]
fn work_ram_mirror_aliases() {
    let mut mmu = make_mmu(Vec::new());
    mmu.write(0xC123, 0x77).unwrap();
    assert_eq!(mmu.read(0xE123).unwrap(), 0x77);
    mmu.write(0xFDFF, 0x88).unwrap();
    assert_eq!(mmu.read(0xDDFF).unwrap(), 0x88);
}

#[test]
fn high_ram_round_trips() {
    let mut mmu = make_mmu(Vec::new());
    for addr in [0xFF80u16, 0xFFC0, 0xFFFE] {
        mmu.write(addr, 0xA5).unwrap();
        assert_eq!(mmu.read(addr).unwrap(), 0xA5);
    }
}

#[test]
fn scanline_register_reads_zero_after_any_write() {
    let mut mmu = make_mmu(Vec::new());
    for v in [0x00u8, 0x01, 0x90, 0xFF] {
        mmu.write(0xFF44, v).unwrap();
        assert_eq!(mmu.read(0xFF44).unwrap(), 0);
    }
}

#[test]
fn rom_reads_the_image_and_drops_writes() {
    let mut image = vec![0u8; 0x148];
    image[0x00] = 0x31;
    image[0x7F] = 0x99;
    let mut mmu = make_mmu(image);
    assert_eq!(mmu.read(0x0000).unwrap(), 0x31);
    assert_eq!(mmu.read(0x007F).unwrap(), 0x99);
    // a ROM-only cartridge ignores the write
    mmu.write(0x0000, 0xEE).unwrap();
    assert_eq!(mmu.read(0x0000).unwrap(), 0x31);
}

#[test]
fn reading_past_the_image_is_unmapped() {
    let mmu = make_mmu(Vec::new());
    assert_eq!(mmu.read(0x0200), Err(EmuError::UnmappedAddress(0x0200)));
}

#[test]
fn cartridge_ram_region_is_unmapped() {
    let mmu = make_mmu(Vec::new());
    assert_eq!(mmu.read(0xA000), Err(EmuError::UnmappedAddress(0xA000)));
    assert_eq!(mmu.read(0xB123), Err(EmuError::UnmappedAddress(0xB123)));
}

#[test]
fn joypad_port_reads_zero_and_ignores_writes() {
    let mut mmu = make_mmu(Vec::new());
    mmu.write(0xFF00, 0xFF).unwrap();
    assert_eq!(mmu.read(0xFF00).unwrap(), 0x00);
}

#[test]
fn timer_registers_accept_control_and_modulo_only() {
    let mut mmu = make_mmu(Vec::new());
    mmu.write(0xFF06, 0x42).unwrap();
    mmu.write(0xFF07, 0x07).unwrap();
    assert!(mmu.timer.enabled);
    assert_eq!(mmu.timer.input_clock, 0x03);
    assert_eq!(mmu.timer.modulo, 0x42);
    assert_eq!(mmu.write(0xFF04, 0), Err(EmuError::UnmappedAddress(0xFF04)));
    assert_eq!(mmu.read(0xFF05), Err(EmuError::UnmappedAddress(0xFF05)));
}

#[test]
fn interrupt_registers_sit_at_ff0f_and_ffff() {
    let mut mmu = make_mmu(Vec::new());
    mmu.write(0xFFFF, 0xFF).unwrap();
    assert_eq!(mmu.read(0xFFFF).unwrap(), 0x1F);
    mmu.write(0xFF0F, 0x05).unwrap();
    assert_eq!(mmu.read(0xFF0F).unwrap(), 0x05);
    assert!(mmu.has_interrupt());
}

#[test]
fn stub_regions_drop_writes() {
    let mut mmu = make_mmu(Vec::new());
    mmu.write(0xFEA0, 0x11).unwrap();
    mmu.write(0xFF01, 0x22).unwrap();
    mmu.write(0xFF10, 0x33).unwrap();
    mmu.write(0xFF7F, 0x44).unwrap();
    // none of them read back
    assert!(mmu.read(0xFEA0).is_err());
    assert!(mmu.read(0xFF01).is_err());
}

#[test]
fn video_memory_round_trips_through_the_bus() {
    let mut mmu = make_mmu(Vec::new());
    mmu.write(0x8000, 0x12).unwrap();
    mmu.write(0x9FFF, 0x34).unwrap();
    assert_eq!(mmu.read(0x8000).unwrap(), 0x12);
    assert_eq!(mmu.read(0x9FFF).unwrap(), 0x34);
    mmu.write(0xFE9F, 0x56).unwrap();
    assert_eq!(mmu.read(0xFE9F).unwrap(), 0x56);
}
