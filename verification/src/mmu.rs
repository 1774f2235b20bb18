//! The bus: decodes every 16-bit address to its owning device, forwards
//! reads and writes, and fans the cycle tick out to the time-dependent
//! devices.

use vstd::prelude::*;
use crate::cartridge::{Cartridge, CartridgeV, spec_cart_read, spec_cart_write_result};
use crate::gpu::{Gpu, GpuV, spec_gpu_read, spec_gpu_write, spec_gpu_cycle};
use crate::irq::{Irq, Interrupt, spec_ack};
use crate::memory::Ram;
use crate::timer::Timer;
use crate::EmuError;

verus! {

pub struct MMU {
    pub cart: Cartridge,
    pub wram: Ram,
    pub zram: Ram,
    pub irq: Irq,
    pub gpu: Gpu,
    pub timer: Timer,
}

/// The mathematical content of the whole bus-visible machine state outside
/// the CPU registers.
#[verifier::ext_equal]
pub struct MmuV {
    pub cart: CartridgeV,
    pub wram: Seq<u8>,
    pub zram: Seq<u8>,
    pub irq: Irq,
    pub gpu: GpuV,
    pub timer: Timer,
}

impl View for MMU {
    type V = MmuV;

    open spec fn view(&self) -> MmuV {
        MmuV {
            cart: self.cart@,
            wram: self.wram@,
            zram: self.zram@,
            irq: self.irq,
            gpu: self.gpu@,
            timer: self.timer,
        }
    }
}

impl MmuV {
    pub open spec fn wf(self) -> bool {
        &&& self.wram.len() == 8192
        &&& self.zram.len() == 128
        &&& self.gpu.wf()
        &&& self.irq.wf()
    }
}

/// The byte a bus read returns for each mapped address: cartridge ROM below
/// 0x8000, video RAM, work RAM with its mirror, object attributes, the
/// stubbed joypad port, the interrupt request and enable registers at 0xFF0F
/// and 0xFFFF, the PPU registers, and high RAM. Every other address is
/// unmapped.
pub open spec fn spec_mmu_read(m: MmuV, addr: u16) -> Result<u8, EmuError> {
    if addr <= 0x7FFF {
        spec_cart_read(m.cart, addr)
    } else if addr <= 0x9FFF {
        spec_gpu_read(m.gpu, addr)
    } else if 0xC000 <= addr <= 0xFDFF {
        Ok(m.wram[(addr % 0x2000) as int])
    } else if 0xFE00 <= addr <= 0xFE9F {
        spec_gpu_read(m.gpu, addr)
    } else if addr == 0xFF00 {
        Ok(0)
    } else if 0xFF04 <= addr <= 0xFF07 {
        Err(EmuError::UnmappedAddress(addr))
    } else if addr == 0xFF0F {
        Ok(m.irq.request)
    } else if 0xFF40 <= addr <= 0xFF55 {
        spec_gpu_read(m.gpu, addr)
    } else if 0xFF80 <= addr <= 0xFFFE {
        Ok(m.zram[(addr % 0x80) as int])
    } else if addr == 0xFFFF {
        Ok(m.irq.enable)
    } else {
        Err(EmuError::UnmappedAddress(addr))
    }
}

/// The machine state after a bus write, or the decode error. Writes into
/// the unusable region and the stubbed joypad, serial and sound ports are
/// dropped; the masks at 0xFF0F and 0xFFFF keep five bits.
pub open spec fn spec_mmu_write(m: MmuV, addr: u16, value: u8) -> Result<MmuV, EmuError> {
    if addr <= 0x7FFF {
        match spec_cart_write_result(m.cart, addr) {
            Ok(u) => Ok(m),
            Err(e) => Err(e),
        }
    } else if addr <= 0x9FFF {
        match spec_gpu_write(m.gpu, addr, value) {
            Ok(g2) => Ok(MmuV { gpu: g2, ..m }),
            Err(e) => Err(e),
        }
    } else if 0xC000 <= addr <= 0xFDFF {
        Ok(MmuV { wram: m.wram.update((addr % 0x2000) as int, value), ..m })
    } else if 0xFE00 <= addr <= 0xFE9F {
        match spec_gpu_write(m.gpu, addr, value) {
            Ok(g2) => Ok(MmuV { gpu: g2, ..m }),
            Err(e) => Err(e),
        }
    } else if 0xFEA0 <= addr <= 0xFEFF {
        Ok(m)
    } else if addr == 0xFF00 {
        Ok(m)
    } else if 0xFF01 <= addr <= 0xFF02 {
        Ok(m)
    } else if 0xFF04 <= addr <= 0xFF07 {
        match m.timer.spec_write(addr, value) {
            Ok(t2) => Ok(MmuV { timer: t2, ..m }),
            Err(e) => Err(e),
        }
    } else if addr == 0xFF0F {
        Ok(MmuV { irq: Irq { request: value & 0x1F, ..m.irq }, ..m })
    } else if 0xFF10 <= addr <= 0xFF26 {
        Ok(m)
    } else if 0xFF40 <= addr <= 0xFF55 {
        match spec_gpu_write(m.gpu, addr, value) {
            Ok(g2) => Ok(MmuV { gpu: g2, ..m }),
            Err(e) => Err(e),
        }
    } else if addr == 0xFF7F {
        Ok(m)
    } else if 0xFF80 <= addr <= 0xFFFE {
        Ok(MmuV { zram: m.zram.update((addr % 0x80) as int, value), ..m })
    } else if addr == 0xFFFF {
        Ok(MmuV { irq: Irq { enable: value & 0x1F, ..m.irq }, ..m })
    } else {
        Err(EmuError::UnmappedAddress(addr))
    }
}

/// One bus tick: the PPU advances one cycle and may raise the VBlank
/// request; no other device is time-dependent.
pub open spec fn spec_mmu_cycle(m: MmuV) -> MmuV {
    let (g2, rq) = spec_gpu_cycle(m.gpu);
    MmuV {
        gpu: g2,
        irq: if rq {
            Irq { request: m.irq.request | 0x01, ..m.irq }
        } else {
            m.irq
        },
        ..m
    }
}

impl MMU {
    /// The bus over a freshly reset machine holding the given cartridge.
    pub open spec fn spec_initial(cart: CartridgeV) -> MmuV {
        MmuV {
            cart: cart,
            wram: Seq::new(8192, |i: int| 0u8),
            zram: Seq::new(128, |i: int| 0u8),
            irq: Irq::initial(),
            gpu: Gpu::spec_initial(),
            timer: Timer::initial(),
        }
    }

    pub fn new(cart: Cartridge) -> (r: MMU)
        ensures
            r@ == MMU::spec_initial(cart@),
            r@.wf(),
    {
        let r = MMU {
            cart,
            wram: Ram::new(8192),
            zram: Ram::new(128),
            irq: Irq::new(),
            gpu: Gpu::new(),
            timer: Timer::new(),
        };
        proof {
            assert(r.wram@ =~= Seq::new(8192, |i: int| 0u8));
            assert(r.zram@ =~= Seq::new(128, |i: int| 0u8));
            assert(r@ =~= MMU::spec_initial(r.cart@));
        }
        r
    }

    pub fn read(&self, addr: u16) -> (r: Result<u8, EmuError>)
        requires
            self@.wf(),
        ensures
            r == spec_mmu_read(self@, addr),
    {
        if addr <= 0x7FFF {
            self.cart.read(addr)
        } else if addr <= 0x9FFF {
            self.gpu.read(addr)
        } else if 0xC000 <= addr && addr <= 0xFDFF {
            Ok(self.wram.read(addr % 0x2000))
        } else if 0xFE00 <= addr && addr <= 0xFE9F {
            self.gpu.read(addr)
        } else if addr == 0xFF00 {
            Ok(0)
        } else if 0xFF04 <= addr && addr <= 0xFF07 {
            self.timer.read(addr)
        } else if addr == 0xFF0F {
            Ok(self.irq.get_request())
        } else if 0xFF40 <= addr && addr <= 0xFF55 {
            self.gpu.read(addr)
        } else if 0xFF80 <= addr && addr <= 0xFFFE {
            Ok(self.zram.read(addr % 0x80))
        } else if addr == 0xFFFF {
            Ok(self.irq.get_enable())
        } else {
            Err(EmuError::UnmappedAddress(addr))
        }
    }

    pub fn write(&mut self, addr: u16, value: u8) -> (r: Result<(), EmuError>)
        requires
            old(self)@.wf(),
        ensures
            final(self)@.wf(),
            match spec_mmu_write(old(self)@, addr, value) {
                Ok(m2) => r == Ok::<(), EmuError>(()) && final(self)@ == m2,
                Err(e) => r == Err::<(), EmuError>(e) && final(self)@ == old(self)@,
            },
    {
        if addr <= 0x7FFF {
            self.cart.write(addr, value)
        } else if addr <= 0x9FFF {
            self.gpu.write(addr, value)
        } else if 0xC000 <= addr && addr <= 0xFDFF {
            self.wram.write(addr % 0x2000, value);
            Ok(())
        } else if 0xFE00 <= addr && addr <= 0xFE9F {
            self.gpu.write(addr, value)
        } else if 0xFEA0 <= addr && addr <= 0xFEFF {
            Ok(())
        } else if addr == 0xFF00 {
            Ok(())
        } else if 0xFF01 <= addr && addr <= 0xFF02 {
            Ok(())
        } else if 0xFF04 <= addr && addr <= 0xFF07 {
            self.timer.write(addr, value)
        } else if addr == 0xFF0F {
            proof {
                crate::irq::lemma_mask5(value);
            }
            self.irq.set_request(value);
            Ok(())
        } else if 0xFF10 <= addr && addr <= 0xFF26 {
            Ok(())
        } else if 0xFF40 <= addr && addr <= 0xFF55 {
            self.gpu.write(addr, value)
        } else if addr == 0xFF7F {
            Ok(())
        } else if 0xFF80 <= addr && addr <= 0xFFFE {
            self.zram.write(addr % 0x80, value);
            Ok(())
        } else if addr == 0xFFFF {
            proof {
                crate::irq::lemma_mask5(value);
            }
            self.irq.set_enable(value);
            Ok(())
        } else {
            Err(EmuError::UnmappedAddress(addr))
        }
    }

    pub fn cycle(&mut self)
        requires
            old(self)@.wf(),
        ensures
            final(self)@.wf(),
            final(self)@ == spec_mmu_cycle(old(self)@),
    {
        let irq = &mut self.irq;
        self.gpu.cycle(irq);
    }

    /// Whether some interrupt source is both enabled and requested.
    pub fn has_interrupt(&self) -> (r: bool)
        ensures
            r == (self@.irq.enable & self@.irq.request != 0),
    {
        self.irq.has_interrupt()
    }

    /// Serves the pending source of lowest priority number, if any.
    pub fn ack_interrupt(&mut self) -> (r: Option<Interrupt>)
        ensures
            ({
                let (irq2, r2) = spec_ack(old(self)@.irq);
                &&& final(self)@ == MmuV { irq: irq2, ..old(self)@ }
                &&& r == r2
            }),
            old(self)@.wf() ==> final(self)@.wf(),
    {
        proof {
            if old(self)@.irq.wf() {
                crate::irq::lemma_and_le(old(self).irq.request, 0xFE);
                crate::irq::lemma_and_le(old(self).irq.request, 0xFD);
                crate::irq::lemma_and_le(old(self).irq.request, 0xFB);
                crate::irq::lemma_and_le(old(self).irq.request, 0xF7);
                crate::irq::lemma_and_le(old(self).irq.request, 0xEF);
            }
        }
        self.irq.ack_interrupt()
    }
}

/// A bus tick leaves a well-formed machine: the PPU keeps its invariant
/// and a raised VBlank request keeps the mask five bits wide.
pub proof fn lemma_mmu_cycle_wf(m: MmuV)
    requires
        m.wf(),
    ensures
        spec_mmu_cycle(m).wf(),
{
    crate::gpu::lemma_gpu_cycle_wf(m.gpu);
    if spec_gpu_cycle(m.gpu).1 {
        crate::irq::lemma_or5(m.irq.request, 0x01);
    }
}

/// A bus write that the decoder accepts leaves a well-formed machine.
pub proof fn lemma_mmu_write_wf(m: MmuV, addr: u16, value: u8)
    requires
        m.wf(),
    ensures
        spec_mmu_write(m, addr, value) matches Ok(m2) ==> m2.wf(),
{
    crate::gpu::lemma_gpu_write_wf(m.gpu, addr, value);
    crate::irq::lemma_mask5(value);
}

/// Writing any work-RAM address (directly or through the mirror) or any
/// high-RAM address and reading the same address back gives the written
/// byte.
pub proof fn lemma_ram_roundtrip(m: MmuV, addr: u16, value: u8)
    requires
        m.wf(),
        (0xC000 <= addr <= 0xFDFF) || (0xFF80 <= addr <= 0xFFFE),
    ensures
        spec_mmu_write(m, addr, value) matches Ok(m2) && spec_mmu_read(m2, addr) == Ok::<
            u8,
            EmuError,
        >(value),
{
}

/// Writing the scanline register resets it: whatever byte is written, the
/// register reads back zero.
pub proof fn lemma_scanline_write_reads_zero(m: MmuV, value: u8)
    requires
        m.wf(),
    ensures
        spec_mmu_write(m, 0xFF44, value) matches Ok(m2) && spec_mmu_read(m2, 0xFF44) == Ok::<
            u8,
            EmuError,
        >(0),
{
}

} // verus!
