use gbcore::gpu::{Gpu, Mode, Color};
use gbcore::irq::Irq;

fn lcd_on(gpu: &mut Gpu) {
    gpu.write(0xFF40, 0x80).unwrap();
}

#[test]
fn visible_scanline_runs_oam_vram_hblank_in_114_cycles() {
    let mut gpu = Gpu::new();
    let mut irq = Irq::new();
    lcd_on(&mut gpu);
    // a fresh PPU starts in ReadVram; finish that mode first (43 cycles),
    // then HBlank (51) ends scanline 0
    for _ in 0..43 {
        assert!(matches!(gpu.mode, Mode::ReadVram));
        gpu.cycle(&mut irq);
    }
    for _ in 0..51 {
        assert!(matches!(gpu.mode, Mode::HBlank));
        gpu.cycle(&mut irq);
    }
    assert_eq!(gpu.current_line, 1);
    // from here each full line is ReadOam (20), ReadVram (43), HBlank (51)
    for _ in 0..20 {
        assert!(matches!(gpu.mode, Mode::ReadOam));
        gpu.cycle(&mut irq);
    }
    for _ in 0..43 {
        assert!(matches!(gpu.mode, Mode::ReadVram));
        gpu.cycle(&mut irq);
    }
    for _ in 0..51 {
        assert!(matches!(gpu.mode, Mode::HBlank));
        gpu.cycle(&mut irq);
    }
    assert_eq!(gpu.current_line, 2);
    assert!(matches!(gpu.mode, Mode::ReadOam));
    assert_eq!(20 + 43 + 51, 114);
}

#[test]
fn entering_vblank_requests_the_interrupt() {
    let mut gpu = Gpu::new();
    let mut irq = Irq::new();
    lcd_on(&mut gpu);
    gpu.current_line = 143;
    gpu.mode = Mode::HBlank;
    gpu.cycles = 0;
    for _ in 0..51 {
        gpu.cycle(&mut irq);
    }
    assert!(matches!(gpu.mode, Mode::VBlank));
    assert_eq!(gpu.current_line, 144);
    assert_eq!(irq.get_request(), 0b00001);
    // ten vblank lines of 114 cycles each wrap back to line 0
    for _ in 0..(10 * 114) {
        gpu.cycle(&mut irq);
    }
    assert!(matches!(gpu.mode, Mode::ReadOam));
    assert_eq!(gpu.current_line, 0);
}

#[test]
fn lcd_off_freezes_timing() {
    let mut gpu = Gpu::new();
    let mut irq = Irq::new();
    // control byte stays 0: the LCD-enable bit is clear
    for _ in 0..500 {
        gpu.cycle(&mut irq);
    }
    assert!(matches!(gpu.mode, Mode::ReadVram));
    assert_eq!(gpu.cycles, 0);
    assert_eq!(gpu.current_line, 0);
    assert_eq!(irq.get_request(), 0);
}

#[test]
fn scanline_register_write_resets_to_zero() {
    let mut gpu = Gpu::new();
    gpu.current_line = 77;
    gpu.write(0xFF44, 0xAB).unwrap();
    assert_eq!(gpu.read(0xFF44).unwrap(), 0);
}

#[test]
fn palette_write_rederives_the_shades() {
    let mut gpu = Gpu::new();
    gpu.write(0xFF47, 0b00011011).unwrap();
    assert!(matches!(gpu.bg_palette.black, Color::White));
    assert!(matches!(gpu.bg_palette.dark, Color::Light));
    assert!(matches!(gpu.bg_palette.light, Color::Dark));
    assert!(matches!(gpu.bg_palette.white, Color::Black));
    assert!(matches!(Color::from_u8(0), Color::White));
    assert!(matches!(Color::from_u8(7), Color::White));
}

#[test]
fn vram_and_oam_are_reachable_through_the_ppu() {
    let mut gpu = Gpu::new();
    gpu.write(0x8123, 0x42).unwrap();
    assert_eq!(gpu.read(0x8123).unwrap(), 0x42);
    gpu.write(0xFE05, 0x99).unwrap();
    assert_eq!(gpu.read(0xFE05).unwrap(), 0x99);
    assert!(gpu.read(0xFF41).is_err());
}

#[test]
fn scroll_and_control_registers_read_back() {
    let mut gpu = Gpu::new();
    gpu.write(0xFF42, 0x12).unwrap();
    gpu.write(0xFF43, 0x34).unwrap();
    gpu.write(0xFF40, 0x91).unwrap();
    assert_eq!(gpu.read(0xFF42).unwrap(), 0x12);
    assert_eq!(gpu.read(0xFF43).unwrap(), 0x34);
    assert_eq!(gpu.read(0xFF40).unwrap(), 0x91);
}
