//! The processor's register file: eight 8-bit registers, the 16-bit program
//! counter and stack pointer, and the four flag bits, with the big-endian
//! pair views BC, DE, HL and AF.

use vstd::prelude::*;

verus! {

/// The four flag bits. In the packed byte form they occupy the top nibble:
/// Z at 0x80, N at 0x40, H at 0x20, C at 0x10; the low nibble is always zero.
#[derive(Clone, Copy, Debug, PartialEq, Eq, Structural)]
pub struct Flags {
    pub z: bool,
    pub n: bool,
    pub h: bool,
    pub c: bool,
}

impl Flags {
    /// The flags with every bit clear.
    pub open spec fn spec_empty() -> Flags {
        Flags { z: false, n: false, h: false, c: false }
    }

    pub fn empty() -> (r: Flags)
        ensures
            r == Flags::spec_empty(),
    {
        Flags { z: false, n: false, h: false, c: false }
    }

    /// The packed byte form: each set flag contributes its bit value.
    pub open spec fn spec_bits(self) -> int {
        (if self.z { 0x80int } else { 0 }) + (if self.n { 0x40int } else { 0 })
            + (if self.h { 0x20int } else { 0 }) + (if self.c { 0x10int } else { 0 })
    }

    /// The flags decoded from a byte; bits outside the four flag positions
    /// are discarded.
    pub open spec fn spec_from_bits(b: u8) -> Flags {
        Flags {
            z: (b as int) / 0x80 % 2 == 1,
            n: (b as int) / 0x40 % 2 == 1,
            h: (b as int) / 0x20 % 2 == 1,
            c: (b as int) / 0x10 % 2 == 1,
        }
    }

    pub fn bits(&self) -> (r: u8)
        ensures
            r == self.spec_bits(),
    {
        let z: u8 = if self.z { 0x80 } else { 0 };
        let n: u8 = if self.n { 0x40 } else { 0 };
        let h: u8 = if self.h { 0x20 } else { 0 };
        let c: u8 = if self.c { 0x10 } else { 0 };
        z + n + h + c
    }

    pub fn from_bits_truncate(b: u8) -> (r: Flags)
        ensures
            r == Flags::spec_from_bits(b),
    {
        Flags { z: b / 0x80 % 2 == 1, n: b / 0x40 % 2 == 1, h: b / 0x20 % 2 == 1, c: b / 0x10 % 2 == 1 }
    }

    /// These flags when the condition holds, no flags otherwise.
    pub fn test(&self, test: bool) -> (r: Flags)
        ensures
            r == if test { *self } else { Flags::spec_empty() },
    {
        if test {
            *self
        } else {
            Flags::empty()
        }
    }
}

/// Decoding the packed byte of a flag value gives the flags back.
pub proof fn lemma_flags_bits_roundtrip(f: Flags)
    ensures
        Flags::spec_from_bits(f.spec_bits() as u8) == f,
{
}

/// A name for one of the 8-bit registers.
#[derive(Clone, Copy, Debug, PartialEq, Eq, Structural)]
pub enum Reg8 {
    A,
    B,
    C,
    D,
    E,
    H,
    L,
}

/// A name for one of the 16-bit registers or register pairs.
#[derive(Clone, Copy, Debug, PartialEq, Eq, Structural)]
pub enum Reg16 {
    PC,
    HL,
    AF,
    BC,
    DE,
    SP,
}

#[derive(Clone, Copy, Debug, PartialEq, Eq, Structural)]
pub struct Registers {
    pub a: u8,
    pub b: u8,
    pub c: u8,
    pub d: u8,
    pub e: u8,
    pub pc: u16,
    pub sp: u16,
    pub f: Flags,
    pub h: u8,
    pub l: u8,
}

impl Registers {
    /// The documented post-boot register values.
    pub open spec fn initial() -> Registers {
        Registers {
            a: 0x01,
            b: 0x00,
            c: 0x13,
            d: 0x00,
            e: 0xd8,
            pc: 0x0100,
            sp: 0xfffe,
            f: Flags { z: true, n: false, h: true, c: true },
            h: 0x01,
            l: 0x4d,
        }
    }

    pub fn new() -> (r: Registers)
        ensures
            r == Registers::initial(),
    {
        Registers {
            a: 0x01,
            b: 0x00,
            c: 0x13,
            d: 0x00,
            e: 0xd8,
            pc: 0x0100,
            sp: 0xfffe,
            f: Flags { z: true, n: false, h: true, c: true },
            h: 0x01,
            l: 0x4d,
        }
    }

    pub open spec fn spec_get8(self, r: Reg8) -> u8 {
        match r {
            Reg8::A => self.a,
            Reg8::B => self.b,
            Reg8::C => self.c,
            Reg8::D => self.d,
            Reg8::E => self.e,
            Reg8::H => self.h,
            Reg8::L => self.l,
        }
    }

    pub open spec fn spec_set8(self, r: Reg8, v: u8) -> Registers {
        match r {
            Reg8::A => Registers { a: v, ..self },
            Reg8::B => Registers { b: v, ..self },
            Reg8::C => Registers { c: v, ..self },
            Reg8::D => Registers { d: v, ..self },
            Reg8::E => Registers { e: v, ..self },
            Reg8::H => Registers { h: v, ..self },
            Reg8::L => Registers { l: v, ..self },
        }
    }

    /// A 16-bit register or pair read: the high half contributes 256 times
    /// its value, so pairs compose big-endian.
    pub open spec fn spec_get16(self, r: Reg16) -> int {
        match r {
            Reg16::PC => self.pc as int,
            Reg16::SP => self.sp as int,
            Reg16::HL => self.h * 0x100 + self.l,
            Reg16::AF => self.a * 0x100 + self.f.spec_bits(),
            Reg16::BC => self.b * 0x100 + self.c,
            Reg16::DE => self.d * 0x100 + self.e,
        }
    }

    pub open spec fn spec_set16(self, r: Reg16, v: u16) -> Registers {
        match r {
            Reg16::PC => Registers { pc: v, ..self },
            Reg16::SP => Registers { sp: v, ..self },
            Reg16::HL => Registers { h: (v / 0x100) as u8, l: (v % 0x100) as u8, ..self },
            Reg16::AF => Registers {
                a: (v / 0x100) as u8,
                f: Flags::spec_from_bits((v % 0x100) as u8),
                ..self
            },
            Reg16::BC => Registers { b: (v / 0x100) as u8, c: (v % 0x100) as u8, ..self },
            Reg16::DE => Registers { d: (v / 0x100) as u8, e: (v % 0x100) as u8, ..self },
        }
    }

    pub fn get8(&self, r: Reg8) -> (v: u8)
        ensures
            v == self.spec_get8(r),
    {
        match r {
            Reg8::A => self.a,
            Reg8::B => self.b,
            Reg8::C => self.c,
            Reg8::D => self.d,
            Reg8::E => self.e,
            Reg8::H => self.h,
            Reg8::L => self.l,
        }
    }

    pub fn set8(&mut self, r: Reg8, v: u8)
        ensures
            *final(self) == old(self).spec_set8(r, v),
    {
        match r {
            Reg8::A => self.a = v,
            Reg8::B => self.b = v,
            Reg8::C => self.c = v,
            Reg8::D => self.d = v,
            Reg8::E => self.e = v,
            Reg8::H => self.h = v,
            Reg8::L => self.l = v,
        }
    }

    pub fn get16(&self, r: Reg16) -> (v: u16)
        ensures
            v == self.spec_get16(r),
    {
        match r {
            Reg16::PC => self.pc,
            Reg16::SP => self.sp,
            Reg16::HL => (self.h as u16) * 0x100 + (self.l as u16),
            Reg16::AF => (self.a as u16) * 0x100 + (self.f.bits() as u16),
            Reg16::BC => (self.b as u16) * 0x100 + (self.c as u16),
            Reg16::DE => (self.d as u16) * 0x100 + (self.e as u16),
        }
    }

    pub fn set16(&mut self, r: Reg16, v: u16)
        ensures
            *final(self) == old(self).spec_set16(r, v),
    {
        let hi: u8 = (v / 0x100) as u8;
        let lo: u8 = (v % 0x100) as u8;
        match r {
            Reg16::PC => self.pc = v,
            Reg16::SP => self.sp = v,
            Reg16::HL => {
                self.h = hi;
                self.l = lo;
            },
            Reg16::AF => {
                self.a = hi;
                self.f = Flags::from_bits_truncate(lo);
            },
            Reg16::BC => {
                self.b = hi;
                self.c = lo;
            },
            Reg16::DE => {
                self.d = hi;
                self.e = lo;
            },
        }
    }
}

/// Writing a 16-bit register or pair other than AF and reading it back
/// gives the written value exactly.
pub proof fn lemma_pair_roundtrip(regs: Registers, r: Reg16, v: u16)
    requires
        r != Reg16::AF,
    ensures
        regs.spec_set16(r, v).spec_get16(r) == v,
{
}

/// Writing AF discards the low nibble of the flag byte: the pair reads
/// back with those four bits forced to zero, keeping the invariant that
/// only the four defined flag positions are ever set.
pub proof fn lemma_af_roundtrip(regs: Registers, v: u16)
    ensures
        regs.spec_set16(Reg16::AF, v).spec_get16(Reg16::AF) == v - v % 0x10,
{
}

} // verus!
