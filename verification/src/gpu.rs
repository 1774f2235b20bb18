//! The pixel-processing unit: its memory-mapped registers, video RAM and
//! object-attribute memory, and the per-scanline timing state machine.

use vstd::prelude::*;
use crate::memory::Ram;
use crate::irq::{Irq, Interrupt};
use crate::EmuError;

verus! {

/// One of the four shades a palette can map a 2-bit pixel value to.
#[derive(Clone, Copy, Debug, PartialEq, Eq, Structural)]
pub enum Color {
    White,
    Light,
    Dark,
    Black,
}

impl Color {
    pub open spec fn spec_from_u8(value: u8) -> Color {
        if value == 1 {
            Color::Light
        } else if value == 2 {
            Color::Dark
        } else if value == 3 {
            Color::Black
        } else {
            Color::White
        }
    }

    pub fn from_u8(value: u8) -> (r: Color)
        ensures
            r == Color::spec_from_u8(value),
    {
        match value {
            1 => Color::Light,
            2 => Color::Dark,
            3 => Color::Black,
            _ => Color::White,
        }
    }
}

/// A four-shade palette decoded from one byte: bits 7-6 give the shade for
/// source value 3, down to bits 1-0 for source value 0.
#[derive(Clone, Copy, Debug, PartialEq, Eq, Structural)]
pub struct Palette {
    pub black: Color,
    pub dark: Color,
    pub light: Color,
    pub white: Color,
}

impl Palette {
    pub open spec fn spec_from_u8(value: u8) -> Palette {
        Palette {
            black: Color::spec_from_u8((value / 64) % 4),
            dark: Color::spec_from_u8((value / 16) % 4),
            light: Color::spec_from_u8((value / 4) % 4),
            white: Color::spec_from_u8(value % 4),
        }
    }

    pub fn from_u8(value: u8) -> (r: Palette)
        ensures
            r == Palette::spec_from_u8(value),
    {
        Palette {
            black: Color::from_u8((value / 64) % 4),
            dark: Color::from_u8((value / 16) % 4),
            light: Color::from_u8((value / 4) % 4),
            white: Color::from_u8(value % 4),
        }
    }
}

/// The timing state within a scanline, or the vertical-blank period.
#[derive(Clone, Copy, Debug, PartialEq, Eq, Structural)]
pub enum Mode {
    VBlank,
    HBlank,
    ReadOam,
    ReadVram,
}

/// The fixed number of cycles the PPU spends in a mode before moving on.
pub open spec fn spec_duration(m: Mode) -> int {
    match m {
        Mode::VBlank => 114,
        Mode::HBlank => 51,
        Mode::ReadOam => 20,
        Mode::ReadVram => 43,
    }
}

pub struct Gpu {
    pub scroll_y: u8,
    pub scroll_x: u8,
    pub current_line: u8,
    pub control: u8,
    pub mode: Mode,
    pub cycles: u32,
    pub bg_palette: Palette,
    pub obj0_palette: Palette,
    pub obj1_palette: Palette,
    pub vram: Ram,
    pub oam: Ram,
    pub window_y: u8,
    pub window_x: u8,
}

/// The mathematical content of the PPU state.
#[verifier::ext_equal]
pub struct GpuV {
    pub scroll_y: u8,
    pub scroll_x: u8,
    pub current_line: u8,
    pub control: u8,
    pub mode: Mode,
    pub cycles: u32,
    pub bg_palette: Palette,
    pub obj0_palette: Palette,
    pub obj1_palette: Palette,
    pub vram: Seq<u8>,
    pub oam: Seq<u8>,
    pub window_y: u8,
    pub window_x: u8,
}

impl View for Gpu {
    type V = GpuV;

    open spec fn view(&self) -> GpuV {
        GpuV {
            scroll_y: self.scroll_y,
            scroll_x: self.scroll_x,
            current_line: self.current_line,
            control: self.control,
            mode: self.mode,
            cycles: self.cycles,
            bg_palette: self.bg_palette,
            obj0_palette: self.obj0_palette,
            obj1_palette: self.obj1_palette,
            vram: self.vram@,
            oam: self.oam@,
            window_y: self.window_y,
            window_x: self.window_x,
        }
    }
}

/// The LCD-enable bit of the control byte; while it is clear the timing
/// state machine is frozen.
pub open spec fn spec_lcd_on(g: GpuV) -> bool {
    g.control & 0x80 != 0
}

impl GpuV {
    /// The sizes of the two memories, the scanline bound (143 visible, 153
    /// in vertical blank) and the mode counter staying under its duration.
    pub open spec fn wf(self) -> bool {
        &&& self.vram.len() == 8192
        &&& self.oam.len() == 160
        &&& self.cycles < spec_duration(self.mode)
        &&& (self.mode is VBlank ==> self.current_line <= 153)
        &&& (!(self.mode is VBlank) ==> self.current_line <= 143)
    }
}

/// One tick of the timing state machine: the pair of the next PPU state and
/// whether entry into vertical blank requests the VBlank interrupt.
pub open spec fn spec_gpu_cycle(g: GpuV) -> (GpuV, bool) {
    if !spec_lcd_on(g) {
        (g, false)
    } else {
        let c = g.cycles + 1;
        match g.mode {
            Mode::ReadOam => if c >= 20 {
                (GpuV { cycles: (c - 20) as u32, mode: Mode::ReadVram, ..g }, false)
            } else {
                (GpuV { cycles: c as u32, ..g }, false)
            },
            Mode::ReadVram => if c >= 43 {
                (GpuV { cycles: (c - 43) as u32, mode: Mode::HBlank, ..g }, false)
            } else {
                (GpuV { cycles: c as u32, ..g }, false)
            },
            Mode::HBlank => if c >= 51 {
                let line = (g.current_line + 1) as u8;
                if line == 144 {
                    (
                        GpuV {
                            cycles: (c - 51) as u32,
                            mode: Mode::VBlank,
                            current_line: line,
                            ..g
                        },
                        true,
                    )
                } else {
                    (
                        GpuV {
                            cycles: (c - 51) as u32,
                            mode: Mode::ReadOam,
                            current_line: line,
                            ..g
                        },
                        false,
                    )
                }
            } else {
                (GpuV { cycles: c as u32, ..g }, false)
            },
            Mode::VBlank => if c >= 114 {
                let line = (g.current_line + 1) as u8;
                if line > 153 {
                    (
                        GpuV { cycles: (c - 114) as u32, mode: Mode::ReadOam, current_line: 0, ..g },
                        false,
                    )
                } else {
                    (GpuV { cycles: (c - 114) as u32, current_line: line, ..g }, false)
                }
            } else {
                (GpuV { cycles: c as u32, ..g }, false)
            },
        }
    }
}

/// What a bus read in the PPU's ranges returns.
pub open spec fn spec_gpu_read(g: GpuV, addr: u16) -> Result<u8, EmuError> {
    if 0x8000 <= addr <= 0x9FFF {
        Ok(g.vram[(addr % 0x2000) as int])
    } else if 0xFE00 <= addr <= 0xFE9F {
        Ok(g.oam[(addr % 0x100) as int])
    } else if addr == 0xFF40 {
        Ok(g.control)
    } else if addr == 0xFF42 {
        Ok(g.scroll_y)
    } else if addr == 0xFF43 {
        Ok(g.scroll_x)
    } else if addr == 0xFF44 {
        Ok(g.current_line)
    } else {
        Err(EmuError::UnmappedAddress(addr))
    }
}

/// What a bus write in the PPU's ranges does. Writing the scanline register
/// resets it to zero whatever the byte; the status register is a stub that
/// ignores writes.
pub open spec fn spec_gpu_write(g: GpuV, addr: u16, value: u8) -> Result<GpuV, EmuError> {
    if 0x8000 <= addr <= 0x9FFF {
        Ok(GpuV { vram: g.vram.update((addr % 0x2000) as int, value), ..g })
    } else if 0xFE00 <= addr <= 0xFE9F {
        Ok(GpuV { oam: g.oam.update((addr % 0x100) as int, value), ..g })
    } else if addr == 0xFF40 {
        Ok(GpuV { control: value, ..g })
    } else if addr == 0xFF41 {
        Ok(g)
    } else if addr == 0xFF42 {
        Ok(GpuV { scroll_y: value, ..g })
    } else if addr == 0xFF43 {
        Ok(GpuV { scroll_x: value, ..g })
    } else if addr == 0xFF44 {
        Ok(GpuV { current_line: 0, ..g })
    } else if addr == 0xFF47 {
        Ok(GpuV { bg_palette: Palette::spec_from_u8(value), ..g })
    } else if addr == 0xFF48 {
        Ok(GpuV { obj0_palette: Palette::spec_from_u8(value), ..g })
    } else if addr == 0xFF49 {
        Ok(GpuV { obj1_palette: Palette::spec_from_u8(value), ..g })
    } else if addr == 0xFF4A {
        Ok(GpuV { window_y: value, ..g })
    } else if addr == 0xFF4B {
        Ok(GpuV { window_x: value, ..g })
    } else {
        Err(EmuError::UnmappedAddress(addr))
    }
}

impl Gpu {
    /// The PPU state after reset: display off, palettes at their documented
    /// defaults, both memories zero-filled.
    pub open spec fn spec_initial() -> GpuV {
        GpuV {
            scroll_y: 0,
            scroll_x: 0,
            current_line: 0,
            control: 0,
            mode: Mode::ReadVram,
            cycles: 0,
            bg_palette: Palette::spec_from_u8(0xFC),
            obj0_palette: Palette::spec_from_u8(0xFF),
            obj1_palette: Palette::spec_from_u8(0xFF),
            vram: Seq::new(8192, |i: int| 0u8),
            oam: Seq::new(160, |i: int| 0u8),
            window_y: 0,
            window_x: 0,
        }
    }

    pub fn new() -> (r: Gpu)
        ensures
            r@ == Gpu::spec_initial(),
            r@.wf(),
    {
        let r = Gpu {
            scroll_y: 0,
            scroll_x: 0,
            current_line: 0,
            control: 0,
            mode: Mode::ReadVram,
            cycles: 0,
            bg_palette: Palette::from_u8(0xFC),
            obj0_palette: Palette::from_u8(0xFF),
            obj1_palette: Palette::from_u8(0xFF),
            vram: Ram::new(8192),
            oam: Ram::new(160),
            window_y: 0,
            window_x: 0,
        };
        proof {
            assert(r.vram@ =~= Seq::new(8192, |i: int| 0u8));
            assert(r.oam@ =~= Seq::new(160, |i: int| 0u8));
            assert(r@ =~= Gpu::spec_initial());
        }
        r
    }

    pub fn read(&self, addr: u16) -> (r: Result<u8, EmuError>)
        requires
            self@.wf(),
        ensures
            r == spec_gpu_read(self@, addr),
    {
        if 0x8000 <= addr && addr <= 0x9FFF {
            Ok(self.vram.read(addr % 0x2000))
        } else if 0xFE00 <= addr && addr <= 0xFE9F {
            Ok(self.oam.read(addr % 0x100))
        } else if addr == 0xFF40 {
            Ok(self.control)
        } else if addr == 0xFF42 {
            Ok(self.scroll_y)
        } else if addr == 0xFF43 {
            Ok(self.scroll_x)
        } else if addr == 0xFF44 {
            Ok(self.current_line)
        } else {
            Err(EmuError::UnmappedAddress(addr))
        }
    }

    pub fn write(&mut self, addr: u16, value: u8) -> (r: Result<(), EmuError>)
        requires
            old(self)@.wf(),
        ensures
            final(self)@.wf(),
            match spec_gpu_write(old(self)@, addr, value) {
                Ok(g2) => r == Ok::<(), EmuError>(()) && final(self)@ == g2,
                Err(e) => r == Err::<(), EmuError>(e) && final(self)@ == old(self)@,
            },
    {
        if 0x8000 <= addr && addr <= 0x9FFF {
            self.vram.write(addr % 0x2000, value);
            Ok(())
        } else if 0xFE00 <= addr && addr <= 0xFE9F {
            self.oam.write(addr % 0x100, value);
            Ok(())
        } else if addr == 0xFF40 {
            self.control = value;
            Ok(())
        } else if addr == 0xFF41 {
            Ok(())
        } else if addr == 0xFF42 {
            self.scroll_y = value;
            Ok(())
        } else if addr == 0xFF43 {
            self.scroll_x = value;
            Ok(())
        } else if addr == 0xFF44 {
            self.current_line = 0;
            Ok(())
        } else if addr == 0xFF47 {
            self.bg_palette = Palette::from_u8(value);
            Ok(())
        } else if addr == 0xFF48 {
            self.obj0_palette = Palette::from_u8(value);
            Ok(())
        } else if addr == 0xFF49 {
            self.obj1_palette = Palette::from_u8(value);
            Ok(())
        } else if addr == 0xFF4A {
            self.window_y = value;
            Ok(())
        } else if addr == 0xFF4B {
            self.window_x = value;
            Ok(())
        } else {
            Err(EmuError::UnmappedAddress(addr))
        }
    }

    /// One bus tick. While the display is on the state machine advances one
    /// cycle; on entry into vertical blank it raises the VBlank request.
    pub fn cycle(&mut self, irq: &mut Irq)
        requires
            old(self)@.wf(),
        ensures
            final(self)@.wf(),
            ({
                let (g2, rq) = spec_gpu_cycle(old(self)@);
                &&& final(self)@ == g2
                &&& *final(irq) == if rq {
                    Irq { request: old(irq).request | 0x01, ..*old(irq) }
                } else {
                    *old(irq)
                }
            }),
            old(irq).wf() ==> final(irq).wf(),
    {
        if self.control & 0x80 == 0 {
            return ;
        }
        self.cycles = self.cycles + 1;
        match self.mode {
            Mode::VBlank => {
                if self.cycles >= 114 {
                    self.cycles = self.cycles - 114;
                    self.current_line = self.current_line + 1;
                    if self.current_line > 153 {
                        self.mode = Mode::ReadOam;
                        self.current_line = 0;
                    }
                }
            },
            Mode::HBlank => {
                if self.cycles >= 51 {
                    self.cycles = self.cycles - 51;
                    self.current_line = self.current_line + 1;
                    if self.current_line == 144 {
                        self.mode = Mode::VBlank;
                        proof {
                            if old(irq).wf() {
                                crate::irq::lemma_or5(old(irq).request, 0x01);
                            }
                        }
                        irq.request_interrupt(Interrupt::VBlank);
                    } else {
                        self.mode = Mode::ReadOam;
                    }
                }
            },
            Mode::ReadOam => {
                if self.cycles >= 20 {
                    self.cycles = self.cycles - 20;
                    self.mode = Mode::ReadVram;
                }
            },
            Mode::ReadVram => {
                if self.cycles >= 43 {
                    self.cycles = self.cycles - 43;
                    self.mode = Mode::HBlank;
                }
            },
        }
    }
}

/// The three visible-scanline modes together last exactly 114 cycles.
pub proof fn lemma_visible_line_cycles()
    ensures
        spec_duration(Mode::ReadOam) + spec_duration(Mode::ReadVram) + spec_duration(Mode::HBlank)
            == 114,
{
}

/// While the display is off, a tick changes nothing and requests nothing:
/// since the state is returned unchanged, the scanline and mode stay
/// frozen for any number of further ticks.
pub proof fn lemma_lcd_off_frozen(g: GpuV)
    requires
        !spec_lcd_on(g),
    ensures
        spec_gpu_cycle(g) == (g, false),
{
}

/// The position of a visible-mode PPU state within its 114-cycle scanline:
/// ReadOam covers positions 0 to 19, ReadVram 20 to 62, HBlank 63 to 113.
pub open spec fn spec_line_phase(g: GpuV) -> int {
    match g.mode {
        Mode::ReadOam => g.cycles as int,
        Mode::ReadVram => 20 + g.cycles,
        Mode::HBlank => 63 + g.cycles,
        Mode::VBlank => -1,
    }
}

/// On a visible scanline the state machine walks the 114 positions of the
/// line in order, always through ReadOam, then ReadVram, then HBlank; at the
/// end of the line it either starts the next visible line at ReadOam or
/// enters vertical blank, exactly when the new line is 144.
pub proof fn lemma_visible_mode_sequence(g: GpuV)
    requires
        g.wf(),
        spec_lcd_on(g),
        !(g.mode is VBlank),
    ensures
        0 <= spec_line_phase(g) < 114,
        (g.mode is ReadOam <==> spec_line_phase(g) < 20),
        (g.mode is ReadVram <==> 20 <= spec_line_phase(g) < 63),
        (g.mode is HBlank <==> 63 <= spec_line_phase(g)),
        ({
            let (g2, rq) = spec_gpu_cycle(g);
            &&& spec_line_phase(g) + 1 < 114 ==> {
                &&& !(g2.mode is VBlank)
                &&& spec_line_phase(g2) == spec_line_phase(g) + 1
                &&& g2.current_line == g.current_line
                &&& !rq
            }
            &&& spec_line_phase(g) + 1 == 114 ==> {
                &&& g2.current_line == g.current_line + 1
                &&& (g2.mode is VBlank <==> g.current_line + 1 == 144)
                &&& (rq <==> g.current_line + 1 == 144)
                &&& (!(g2.mode is VBlank) ==> g2.mode is ReadOam && spec_line_phase(g2) == 0)
            }
        }),
{
}

/// In vertical blank the state machine spends 114 cycles per line for the
/// ten lines 144 to 153: at each line boundary the scanline advances, and
/// after line 153 it wraps to zero and a new frame starts at ReadOam.
pub proof fn lemma_vblank_sequence(g: GpuV)
    requires
        g.wf(),
        spec_lcd_on(g),
        g.mode is VBlank,
    ensures
        ({
            let (g2, rq) = spec_gpu_cycle(g);
            &&& !rq
            &&& g.cycles + 1 < 114 ==> g2 == (GpuV { cycles: (g.cycles + 1) as u32, ..g })
            &&& (g.cycles + 1 == 114 && g.current_line < 153) ==> g2 == (GpuV {
                cycles: 0,
                current_line: (g.current_line + 1) as u8,
                ..g
            })
            &&& (g.cycles + 1 == 114 && g.current_line == 153) ==> g2 == (GpuV {
                cycles: 0,
                current_line: 0,
                mode: Mode::ReadOam,
                ..g
            })
        }),
{
}

/// A tick of a well-formed PPU state leaves a well-formed state.
pub proof fn lemma_gpu_cycle_wf(g: GpuV)
    requires
        g.wf(),
    ensures
        spec_gpu_cycle(g).0.wf(),
{
}

/// A register or memory write that the PPU accepts leaves a well-formed
/// state.
pub proof fn lemma_gpu_write_wf(g: GpuV, addr: u16, value: u8)
    requires
        g.wf(),
    ensures
        spec_gpu_write(g, addr, value) matches Ok(g2) ==> g2.wf(),
{
}

} // verus!
