//! The decode-execute engine's machine state and its micro-operations:
//! every memory access goes through the bus and ticks it once, so
//! instruction duration emerges from the accesses an instruction makes.

use vstd::prelude::*;
use crate::mmu::{MMU, MmuV, spec_mmu_read, spec_mmu_write, spec_mmu_cycle};
use crate::registers::{Registers, Flags};
use crate::irq::{Irq, Interrupt, spec_ack};
use crate::EmuError;

verus! {

/// The interrupt-master-enable state. `Enabling` realizes the documented
/// one-instruction delay of the enable-interrupts instruction: it becomes
/// `Enabled` only at the start of the following step.
#[derive(Clone, Copy, Debug, PartialEq, Eq, Structural)]
pub enum Ime {
    Disabled,
    Enabled,
    Enabling,
}

/// A branch condition over the flag bits.
#[derive(Clone, Copy, Debug, PartialEq, Eq, Structural)]
pub enum Cond {
    NZ,
    NC,
    Z,
    C,
    Always,
}

impl Cond {
    pub open spec fn spec_check(self, flags: Flags) -> bool {
        match self {
            Cond::Always => true,
            Cond::Z => flags.z,
            Cond::C => flags.c,
            Cond::NZ => !flags.z,
            Cond::NC => !flags.c,
        }
    }

    pub fn check(&self, flags: Flags) -> (r: bool)
        ensures
            r == self.spec_check(flags),
    {
        match self {
            Cond::Always => true,
            Cond::Z => flags.z,
            Cond::C => flags.c,
            Cond::NZ => !flags.z,
            Cond::NC => !flags.c,
        }
    }
}

pub struct CPU {
    pub regs: Registers,
    pub ime: Ime,
    pub mmu: MMU,
}

/// The mathematical content of the whole machine: registers, the
/// interrupt-master-enable state, and everything behind the bus.
#[verifier::ext_equal]
pub struct CpuV {
    pub regs: Registers,
    pub ime: Ime,
    pub mmu: MmuV,
}

impl View for CPU {
    type V = CpuV;

    open spec fn view(&self) -> CpuV {
        CpuV { regs: self.regs, ime: self.ime, mmu: self.mmu@ }
    }
}

impl CpuV {
    pub open spec fn wf(self) -> bool {
        self.mmu.wf()
    }
}

/// A 16-bit value incremented modulo 0x10000.
pub open spec fn spec_inc16(x: u16) -> u16 {
    if x == 0xFFFF {
        0
    } else {
        (x + 1) as u16
    }
}

/// A 16-bit value decremented modulo 0x10000.
pub open spec fn spec_dec16(x: u16) -> u16 {
    if x == 0 {
        0xFFFF
    } else {
        (x - 1) as u16
    }
}

/// One internal cycle: the bus ticks, the registers stand still.
pub open spec fn spec_tick(c: CpuV) -> CpuV {
    CpuV { mmu: spec_mmu_cycle(c.mmu), ..c }
}

/// A CPU-visible byte read: one tick, then the bus read on the ticked state.
pub open spec fn spec_read8(c: CpuV, addr: u16) -> (CpuV, Result<u8, EmuError>) {
    let c1 = spec_tick(c);
    (c1, spec_mmu_read(c1.mmu, addr))
}

/// A CPU-visible byte write: one tick, then the bus write; a decode error
/// leaves the ticked state.
pub open spec fn spec_write8(c: CpuV, addr: u16, value: u8) -> (CpuV, Result<(), EmuError>) {
    let c1 = spec_tick(c);
    match spec_mmu_write(c1.mmu, addr, value) {
        Ok(m2) => (CpuV { mmu: m2, ..c1 }, Ok(())),
        Err(e) => (c1, Err(e)),
    }
}

/// A 16-bit read: low byte at `addr`, high byte at the next address.
pub open spec fn spec_read16(c: CpuV, addr: u16) -> (CpuV, Result<u16, EmuError>) {
    let (c1, r1) = spec_read8(c, addr);
    match r1 {
        Err(e) => (c1, Err(e)),
        Ok(lo) => {
            let (c2, r2) = spec_read8(c1, spec_inc16(addr));
            match r2 {
                Err(e) => (c2, Err(e)),
                Ok(hi) => (c2, Ok((hi * 0x100 + lo) as u16)),
            }
        },
    }
}

/// A 16-bit write: low byte at `addr`, high byte at the next address.
pub open spec fn spec_write16(c: CpuV, addr: u16, value: u16) -> (CpuV, Result<(), EmuError>) {
    let (c1, r1) = spec_write8(c, addr, (value % 0x100) as u8);
    match r1 {
        Err(e) => (c1, Err(e)),
        Ok(u) => spec_write8(c1, spec_inc16(addr), (value / 0x100) as u8),
    }
}

/// An instruction-stream byte fetch: the program counter moves past the
/// byte, which is then read through the bus.
pub open spec fn spec_next8(c: CpuV) -> (CpuV, Result<u8, EmuError>) {
    let c1 = CpuV { regs: Registers { pc: spec_inc16(c.regs.pc), ..c.regs }, ..c };
    spec_read8(c1, c.regs.pc)
}

/// An instruction-stream word fetch, low byte first.
pub open spec fn spec_next16(c: CpuV) -> (CpuV, Result<u16, EmuError>) {
    let (c1, r1) = spec_next8(c);
    match r1 {
        Err(e) => (c1, Err(e)),
        Ok(lo) => {
            let (c2, r2) = spec_next8(c1);
            match r2 {
                Err(e) => (c2, Err(e)),
                Ok(hi) => (c2, Ok((hi * 0x100 + lo) as u16)),
            }
        },
    }
}

/// A stack push of one byte: the stack pointer moves down, then the byte is
/// stored at the new top.
pub open spec fn spec_push8(c: CpuV, value: u8) -> (CpuV, Result<(), EmuError>) {
    let sp2 = spec_dec16(c.regs.sp);
    let c1 = CpuV { regs: Registers { sp: sp2, ..c.regs }, ..c };
    spec_write8(c1, sp2, value)
}

/// A stack push of one word, high byte first.
pub open spec fn spec_push16(c: CpuV, value: u16) -> (CpuV, Result<(), EmuError>) {
    let (c1, r1) = spec_push8(c, (value / 0x100) as u8);
    match r1 {
        Err(e) => (c1, Err(e)),
        Ok(u) => spec_push8(c1, (value % 0x100) as u8),
    }
}

/// A stack pop of one byte: the byte at the top is read, then the stack
/// pointer moves up.
pub open spec fn spec_pop8(c: CpuV) -> (CpuV, Result<u8, EmuError>) {
    let (c1, r) = spec_read8(c, c.regs.sp);
    match r {
        Err(e) => (c1, Err(e)),
        Ok(v) => (CpuV { regs: Registers { sp: spec_inc16(c1.regs.sp), ..c1.regs }, ..c1 }, Ok(v)),
    }
}

/// A stack pop of one word, low byte first.
pub open spec fn spec_pop16(c: CpuV) -> (CpuV, Result<u16, EmuError>) {
    let (c1, r1) = spec_pop8(c);
    match r1 {
        Err(e) => (c1, Err(e)),
        Ok(lo) => {
            let (c2, r2) = spec_pop8(c1);
            match r2 {
                Err(e) => (c2, Err(e)),
                Ok(hi) => (c2, Ok((hi * 0x100 + lo) as u16)),
            }
        },
    }
}

/// An interrupt dispatch: the master enable drops, two internal cycles
/// pass, the program counter is pushed, and control moves to the vector of
/// the acknowledged source — or to 0x0000 should none be pending after all.
pub open spec fn spec_dispatch(c: CpuV) -> (CpuV, Result<(), EmuError>) {
    let c1 = CpuV { ime: Ime::Disabled, mmu: spec_mmu_cycle(spec_mmu_cycle(c.mmu)), ..c };
    let (c2, r) = spec_push16(c1, c1.regs.pc);
    match r {
        Err(e) => (c2, Err(e)),
        Ok(u) => {
            let (irq2, ack) = spec_ack(c2.mmu.irq);
            let pc2 = match ack {
                Some(i) => i.spec_addr(),
                None => 0u16,
            };
            (
                CpuV {
                    mmu: MmuV { irq: irq2, ..c2.mmu },
                    regs: Registers { pc: pc2, ..c2.regs },
                    ..c2
                },
                Ok(()),
            )
        },
    }
}

/// One internal tick keeps the machine well-formed.
pub proof fn lemma_tick_wf(c: CpuV)
    requires
        c.wf(),
    ensures
        spec_tick(c).wf(),
{
    crate::mmu::lemma_mmu_cycle_wf(c.mmu);
}

/// A CPU-visible byte write keeps the machine well-formed, whether or not
/// the bus accepts it.
pub proof fn lemma_write8_wf(c: CpuV, addr: u16, value: u8)
    requires
        c.wf(),
    ensures
        spec_write8(c, addr, value).0.wf(),
{
    lemma_tick_wf(c);
    crate::mmu::lemma_mmu_write_wf(spec_tick(c).mmu, addr, value);
}

/// A 16-bit stack push keeps the machine well-formed.
pub proof fn lemma_push16_wf(c: CpuV, value: u16)
    requires
        c.wf(),
    ensures
        spec_push16(c, value).0.wf(),
{
    let hi: u8 = (value / 0x100) as u8;
    let lo: u8 = (value % 0x100) as u8;
    let sp2 = spec_dec16(c.regs.sp);
    let c1 = CpuV { regs: Registers { sp: sp2, ..c.regs }, ..c };
    lemma_write8_wf(c1, sp2, hi);
    let (ca, ra) = spec_push8(c, hi);
    if ra is Ok {
        let sp3 = spec_dec16(ca.regs.sp);
        let ca1 = CpuV { regs: Registers { sp: sp3, ..ca.regs }, ..ca };
        lemma_write8_wf(ca1, sp3, lo);
    }
}

/// The promised outcome of a dispatch from `start`, whenever its two
/// stack pushes land and a source is still pending once they have: the
/// run succeeds, the master enable is down, and the machine sits at the
/// vector of the common set bit with the lowest priority number, with
/// exactly that request bit cleared and the enable mask untouched.
pub open spec fn spec_serves_lowest(start: CpuV, c3: CpuV, r3: Result<(), EmuError>) -> bool {
    let c1 = CpuV { ime: Ime::Disabled, mmu: spec_mmu_cycle(spec_mmu_cycle(start.mmu)), ..start };
    let (c2, rp) = spec_push16(c1, start.regs.pc);
    let common = c2.mmu.irq.enable & c2.mmu.irq.request;
    (rp == Ok::<(), EmuError>(()) && common != 0) ==> {
        &&& r3 == Ok::<(), EmuError>(())
        &&& c3.ime is Disabled
        &&& exists|s: Interrupt|
            {
                &&& common & #[trigger] s.spec_mask() != 0
                &&& (forall|t: Interrupt|
                    t.spec_priority() < s.spec_priority() ==> common & t.spec_mask() == 0)
                &&& c3 == (CpuV {
                    mmu: MmuV {
                        irq: Irq {
                            request: c2.mmu.irq.request & !s.spec_mask(),
                            ..c2.mmu.irq
                        },
                        ..c2.mmu
                    },
                    regs: Registers { pc: s.spec_addr(), ..c2.regs },
                    ..c2
                })
            }
    }
}

/// A dispatch from a well-formed machine serves the pending source of
/// lowest priority number, as `spec_serves_lowest` states it.
pub proof fn lemma_dispatch_serves_lowest(c: CpuV)
    requires
        c.wf(),
    ensures
        spec_serves_lowest(c, spec_dispatch(c).0, spec_dispatch(c).1),
{
    let c1 = CpuV { ime: Ime::Disabled, mmu: spec_mmu_cycle(spec_mmu_cycle(c.mmu)), ..c };
    crate::mmu::lemma_mmu_cycle_wf(c.mmu);
    crate::mmu::lemma_mmu_cycle_wf(spec_mmu_cycle(c.mmu));
    lemma_push16_wf(c1, c.regs.pc);
    let (c2, rp) = spec_push16(c1, c.regs.pc);
    let common = c2.mmu.irq.enable & c2.mmu.irq.request;
    if rp == Ok::<(), EmuError>(()) && common != 0 {
        crate::irq::lemma_ack_lowest(c2.mmu.irq);
        let ack = spec_ack(c2.mmu.irq);
        let s = ack.1.unwrap();
        assert(common & s.spec_mask() != 0);
        assert(spec_dispatch(c).0 == (CpuV {
            mmu: MmuV {
                irq: Irq { request: c2.mmu.irq.request & !s.spec_mask(), ..c2.mmu.irq },
                ..c2.mmu
            },
            regs: Registers { pc: s.spec_addr(), ..c2.regs },
            ..c2
        }));
    }
}

/// A CPU-visible store to work RAM or high RAM followed by a CPU-visible
/// load of the same address returns the stored byte: the bus ticks around
/// the two accesses move only the PPU and never the RAM contents.
pub proof fn lemma_cpu_ram_roundtrip(c: CpuV, addr: u16, value: u8)
    requires
        c.wf(),
        (0xC000 <= addr <= 0xFDFF) || (0xFF80 <= addr <= 0xFFFE),
    ensures
        ({
            let (c1, r1) = spec_write8(c, addr, value);
            &&& r1 == Ok::<(), EmuError>(())
            &&& spec_read8(c1, addr).1 == Ok::<u8, EmuError>(value)
        }),
{
}

impl CPU {
    /// A machine over the given bus, registers at their post-boot values,
    /// interrupts disabled.
    pub fn new(mmu: MMU) -> (r: CPU)
        ensures
            r@ == (CpuV { regs: Registers::initial(), ime: Ime::Disabled, mmu: mmu@ }),
    {
        CPU { regs: Registers::new(), ime: Ime::Disabled, mmu }
    }

    pub fn read_u8(&mut self, addr: u16) -> (r: Result<u8, EmuError>)
        requires
            old(self)@.wf(),
        ensures
            final(self)@.wf(),
            ({
                let (c2, r2) = spec_read8(old(self)@, addr);
                final(self)@ == c2 && r == r2
            }),
    {
        self.mmu.cycle();
        self.mmu.read(addr)
    }

    pub fn write_u8(&mut self, addr: u16, value: u8) -> (r: Result<(), EmuError>)
        requires
            old(self)@.wf(),
        ensures
            final(self)@.wf(),
            ({
                let (c2, r2) = spec_write8(old(self)@, addr, value);
                final(self)@ == c2 && r == r2
            }),
    {
        self.mmu.cycle();
        self.mmu.write(addr, value)
    }

    pub fn read_u16(&mut self, addr: u16) -> (r: Result<u16, EmuError>)
        requires
            old(self)@.wf(),
        ensures
            final(self)@.wf(),
            ({
                let (c2, r2) = spec_read16(old(self)@, addr);
                final(self)@ == c2 && r == r2
            }),
    {
        let lo = self.read_u8(addr)?;
        let hi = self.read_u8(addr.wrapping_add(1))?;
        Ok((hi as u16) * 0x100 + (lo as u16))
    }

    pub fn write_u16(&mut self, addr: u16, value: u16) -> (r: Result<(), EmuError>)
        requires
            old(self)@.wf(),
        ensures
            final(self)@.wf(),
            ({
                let (c2, r2) = spec_write16(old(self)@, addr, value);
                final(self)@ == c2 && r == r2
            }),
    {
        self.write_u8(addr, (value % 0x100) as u8)?;
        self.write_u8(addr.wrapping_add(1), (value / 0x100) as u8)
    }

    pub fn next_u8(&mut self) -> (r: Result<u8, EmuError>)
        requires
            old(self)@.wf(),
        ensures
            final(self)@.wf(),
            ({
                let (c2, r2) = spec_next8(old(self)@);
                final(self)@ == c2 && r == r2
            }),
    {
        let addr = self.regs.pc;
        self.regs.pc = self.regs.pc.wrapping_add(1);
        self.read_u8(addr)
    }

    pub fn next_u16(&mut self) -> (r: Result<u16, EmuError>)
        requires
            old(self)@.wf(),
        ensures
            final(self)@.wf(),
            ({
                let (c2, r2) = spec_next16(old(self)@);
                final(self)@ == c2 && r == r2
            }),
    {
        let lo = self.next_u8()?;
        let hi = self.next_u8()?;
        Ok((hi as u16) * 0x100 + (lo as u16))
    }

    pub(crate) fn push_u8(&mut self, value: u8) -> (r: Result<(), EmuError>)
        requires
            old(self)@.wf(),
        ensures
            final(self)@.wf(),
            ({
                let (c2, r2) = spec_push8(old(self)@, value);
                final(self)@ == c2 && r == r2
            }),
    {
        self.regs.sp = self.regs.sp.wrapping_sub(1);
        let sp = self.regs.sp;
        self.write_u8(sp, value)
    }

    pub(crate) fn push_u16(&mut self, value: u16) -> (r: Result<(), EmuError>)
        requires
            old(self)@.wf(),
        ensures
            final(self)@.wf(),
            ({
                let (c2, r2) = spec_push16(old(self)@, value);
                final(self)@ == c2 && r == r2
            }),
    {
        self.push_u8((value / 0x100) as u8)?;
        self.push_u8((value % 0x100) as u8)
    }

    pub(crate) fn pop_u8(&mut self) -> (r: Result<u8, EmuError>)
        requires
            old(self)@.wf(),
        ensures
            final(self)@.wf(),
            ({
                let (c2, r2) = spec_pop8(old(self)@);
                final(self)@ == c2 && r == r2
            }),
    {
        let sp = self.regs.sp;
        let v = self.read_u8(sp)?;
        self.regs.sp = self.regs.sp.wrapping_add(1);
        Ok(v)
    }

    pub(crate) fn pop_u16(&mut self) -> (r: Result<u16, EmuError>)
        requires
            old(self)@.wf(),
        ensures
            final(self)@.wf(),
            ({
                let (c2, r2) = spec_pop16(old(self)@);
                final(self)@ == c2 && r == r2
            }),
    {
        let lo = self.pop_u8()?;
        let hi = self.pop_u8()?;
        Ok((hi as u16) * 0x100 + (lo as u16))
    }

    pub(crate) fn dispatch_interrupt(&mut self) -> (r: Result<(), EmuError>)
        requires
            old(self)@.wf(),
        ensures
            final(self)@.wf(),
            ({
                let (c2, r2) = spec_dispatch(old(self)@);
                final(self)@ == c2 && r == r2
            }),
    {
        self.ime = Ime::Disabled;
        self.mmu.cycle();
        self.mmu.cycle();
        let pc = self.regs.pc;
        self.push_u16(pc)?;
        match self.mmu.ack_interrupt() {
            Some(interrupt) => {
                self.regs.pc = interrupt.addr();
            },
            None => {
                self.regs.pc = 0x0000;
            },
        }
        Ok(())
    }
}

} // verus!
