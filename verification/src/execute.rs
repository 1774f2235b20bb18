//! Operand resolution and instruction execution: each operand descriptor is
//! resolved against the register file and bus, and each operation's effect
//! on the whole machine is stated against its specification mirror.

use vstd::prelude::*;
use crate::cpu::{
    CPU,
    CpuV,
    Cond,
    spec_read8,
    spec_write8,
    spec_read16,
    spec_write16,
    spec_inc16,
    spec_dec16,
};
use crate::opcodes::{Op8, Op16, Addr, Opcode};
use crate::registers::{Registers, Reg8, Reg16, Flags};
use crate::EmuError;

verus! {

/// The current value of a 16-bit register or pair, as a machine word.
pub open spec fn spec_pair(c: CpuV, r: Reg16) -> u16 {
    c.regs.spec_get16(r) as u16
}

/// The machine with one 16-bit register or pair replaced.
pub open spec fn spec_with_pair(c: CpuV, r: Reg16, v: u16) -> CpuV {
    CpuV { regs: c.regs.spec_set16(r, v), ..c }
}

/// Resolving an 8-bit operand for reading. Registers and literals are
/// free; memory operands read through the bus, and the HL-indirect modes
/// with post-increment or post-decrement move HL as a side effect.
pub open spec fn spec_read_op8(c: CpuV, op: Op8) -> (CpuV, Result<u8, EmuError>) {
    match op {
        Op8::Register(r) => (c, Ok(c.regs.spec_get8(r))),
        Op8::Immediate(v) => (c, Ok(v)),
        Op8::Memory(a) => match a {
            Addr::HL => spec_read8(c, spec_pair(c, Reg16::HL)),
            Addr::BC => spec_read8(c, spec_pair(c, Reg16::BC)),
            Addr::DE => spec_read8(c, spec_pair(c, Reg16::DE)),
            Addr::HLI => {
                let hl = spec_pair(c, Reg16::HL);
                let (c1, r) = spec_read8(c, hl);
                match r {
                    Err(e) => (c1, Err(e)),
                    Ok(v) => (spec_with_pair(c1, Reg16::HL, spec_inc16(hl)), Ok(v)),
                }
            },
            Addr::HLD => {
                let hl = spec_pair(c, Reg16::HL);
                let (c1, r) = spec_read8(c, hl);
                match r {
                    Err(e) => (c1, Err(e)),
                    Ok(v) => (spec_with_pair(c1, Reg16::HL, spec_dec16(hl)), Ok(v)),
                }
            },
            Addr::ZeroPage(n) => spec_read8(c, (0xFF00 + n) as u16),
            Addr::ZeroPageC => spec_read8(c, (0xFF00 + c.regs.c) as u16),
            Addr::Immediate(a) => spec_read8(c, a),
        },
    }
}

/// Resolving an 8-bit operand for writing. A literal immediate is no write
/// target: that is the illegal-operation error.
pub open spec fn spec_write_op8(c: CpuV, op: Op8, value: u8) -> (CpuV, Result<(), EmuError>) {
    match op {
        Op8::Register(r) => (CpuV { regs: c.regs.spec_set8(r, value), ..c }, Ok(())),
        Op8::Immediate(v) => (c, Err(EmuError::IllegalOperation)),
        Op8::Memory(a) => match a {
            Addr::HL => spec_write8(c, spec_pair(c, Reg16::HL), value),
            Addr::BC => spec_write8(c, spec_pair(c, Reg16::BC), value),
            Addr::DE => spec_write8(c, spec_pair(c, Reg16::DE), value),
            Addr::HLI => {
                let hl = spec_pair(c, Reg16::HL);
                let (c1, r) = spec_write8(c, hl, value);
                match r {
                    Err(e) => (c1, Err(e)),
                    Ok(u) => (spec_with_pair(c1, Reg16::HL, spec_inc16(hl)), Ok(())),
                }
            },
            Addr::HLD => {
                let hl = spec_pair(c, Reg16::HL);
                let (c1, r) = spec_write8(c, hl, value);
                match r {
                    Err(e) => (c1, Err(e)),
                    Ok(u) => (spec_with_pair(c1, Reg16::HL, spec_dec16(hl)), Ok(())),
                }
            },
            Addr::ZeroPage(n) => spec_write8(c, (0xFF00 + n) as u16, value),
            Addr::ZeroPageC => spec_write8(c, (0xFF00 + c.regs.c) as u16, value),
            Addr::Immediate(a) => spec_write8(c, a, value),
        },
    }
}

/// Resolving a 16-bit operand for reading: a register pair, a literal, or
/// an absolute memory word; the pair-indirect modes have no 16-bit reading.
pub open spec fn spec_read_op16(c: CpuV, op: Op16) -> (CpuV, Result<u16, EmuError>) {
    match op {
        Op16::Register(r) => (c, Ok(spec_pair(c, r))),
        Op16::Immediate(v) => (c, Ok(v)),
        Op16::Memory(a) => match a {
            Addr::Immediate(addr) => spec_read16(c, addr),
            _ => (c, Err(EmuError::IllegalOperation)),
        },
    }
}

/// Resolving a 16-bit operand for writing.
pub open spec fn spec_write_op16(c: CpuV, op: Op16, value: u16) -> (CpuV, Result<(), EmuError>) {
    match op {
        Op16::Register(r) => (spec_with_pair(c, r, value), Ok(())),
        Op16::Immediate(v) => (c, Err(EmuError::IllegalOperation)),
        Op16::Memory(a) => match a {
            Addr::Immediate(addr) => spec_write16(c, addr, value),
            _ => (c, Err(EmuError::IllegalOperation)),
        },
    }
}

/// The jump-relative target: the offset byte is sign-extended and added to
/// the program counter modulo 0x10000.
pub open spec fn spec_jr_target(pc: u16, off: u8) -> u16 {
    let ext: int = if off < 0x80 {
        off as int
    } else {
        off + 0xFF00
    };
    (((pc + ext) % 0x10000) as u16)
}

/// A relative jump: taken exactly when the condition holds of the flags. A
/// taken jump spends one internal bus cycle; a jump not taken spends none
/// and leaves the machine untouched.
pub open spec fn spec_op_jr(c: CpuV, cond: Cond, off: u8) -> (CpuV, Result<(), EmuError>) {
    if cond.spec_check(c.regs.f) {
        (
            crate::cpu::spec_tick(
                CpuV { regs: Registers { pc: spec_jr_target(c.regs.pc, off), ..c.regs }, ..c },
            ),
            Ok(()),
        )
    } else {
        (c, Ok(()))
    }
}

/// An absolute jump: the target is resolved only when the jump is taken,
/// and a taken jump spends one internal bus cycle.
pub open spec fn spec_op_jp(c: CpuV, cond: Cond, to: Op16) -> (CpuV, Result<(), EmuError>) {
    if cond.spec_check(c.regs.f) {
        let (c1, r) = spec_read_op16(c, to);
        match r {
            Err(e) => (c1, Err(e)),
            Ok(v) => (
                crate::cpu::spec_tick(CpuV { regs: Registers { pc: v, ..c1.regs }, ..c1 }),
                Ok(()),
            ),
        }
    } else {
        (c, Ok(()))
    }
}

/// An 8-bit load: the source value is read, then stored in the target.
pub open spec fn spec_op_load8(c: CpuV, from: Op8, to: Op8) -> (CpuV, Result<(), EmuError>) {
    let (c1, r1) = spec_read_op8(c, from);
    match r1 {
        Err(e) => (c1, Err(e)),
        Ok(v) => spec_write_op8(c1, to, v),
    }
}

/// A 16-bit load.
pub open spec fn spec_op_load16(c: CpuV, from: Op16, to: Op16) -> (CpuV, Result<(), EmuError>) {
    let (c1, r1) = spec_read_op16(c, from);
    match r1 {
        Err(e) => (c1, Err(e)),
        Ok(v) => spec_write_op16(c1, to, v),
    }
}

/// Exclusive-or into the accumulator: zero flag from the result, the other
/// flags cleared.
pub open spec fn spec_op_xor(c: CpuV, op: Op8) -> (CpuV, Result<(), EmuError>) {
    let (c1, r1) = spec_read_op8(c, op);
    match r1 {
        Err(e) => (c1, Err(e)),
        Ok(v) => {
            let a2 = c1.regs.a ^ v;
            (
                CpuV {
                    regs: Registers {
                        a: a2,
                        f: Flags { z: a2 == 0, n: false, h: false, c: false },
                        ..c1.regs
                    },
                    ..c1
                },
                Ok(()),
            )
        },
    }
}

/// Inclusive-or into the accumulator: zero flag from the result, the other
/// flags cleared.
pub open spec fn spec_op_or(c: CpuV, op: Op8) -> (CpuV, Result<(), EmuError>) {
    let (c1, r1) = spec_read_op8(c, op);
    match r1 {
        Err(e) => (c1, Err(e)),
        Ok(v) => {
            let a2 = c1.regs.a | v;
            (
                CpuV {
                    regs: Registers {
                        a: a2,
                        f: Flags { z: a2 == 0, n: false, h: false, c: false },
                        ..c1.regs
                    },
                    ..c1
                },
                Ok(()),
            )
        },
    }
}

/// And into the accumulator: zero flag from the result, half-carry forced
/// set, negative and carry cleared.
pub open spec fn spec_op_and(c: CpuV, op: Op8) -> (CpuV, Result<(), EmuError>) {
    let (c1, r1) = spec_read_op8(c, op);
    match r1 {
        Err(e) => (c1, Err(e)),
        Ok(v) => {
            let a2 = c1.regs.a & v;
            (
                CpuV {
                    regs: Registers {
                        a: a2,
                        f: Flags { z: a2 == 0, n: false, h: true, c: false },
                        ..c1.regs
                    },
                    ..c1
                },
                Ok(()),
            )
        },
    }
}

/// Compare: the subtraction flags, with nothing stored.
pub open spec fn spec_op_cp(c: CpuV, op: Op8) -> (CpuV, Result<(), EmuError>) {
    let (c1, r1) = spec_read_op8(c, op);
    match r1 {
        Err(e) => (c1, Err(e)),
        Ok(v) => (
            CpuV {
                regs: Registers { f: crate::alu::spec_cp_flags(c1.regs.a, v), ..c1.regs },
                ..c1
            },
            Ok(()),
        ),
    }
}

/// 8-bit addition into the target operand, flags from the reference
/// formulas.
pub open spec fn spec_op_add8(c: CpuV, from: Op8, to: Op8) -> (CpuV, Result<(), EmuError>) {
    let (c1, r1) = spec_read_op8(c, from);
    match r1 {
        Err(e) => (c1, Err(e)),
        Ok(rhs) => {
            let (c2, r2) = spec_read_op8(c1, to);
            match r2 {
                Err(e) => (c2, Err(e)),
                Ok(lhs) => {
                    let c3 = CpuV {
                        regs: Registers { f: crate::alu::spec_add_flags(lhs, rhs), ..c2.regs },
                        ..c2
                    };
                    spec_write_op8(c3, to, crate::alu::spec_add_result(lhs, rhs))
                },
            }
        },
    }
}

/// 8-bit addition with carry into the target operand.
pub open spec fn spec_op_adc(c: CpuV, from: Op8, to: Op8) -> (CpuV, Result<(), EmuError>) {
    let (c1, r1) = spec_read_op8(c, from);
    match r1 {
        Err(e) => (c1, Err(e)),
        Ok(value) => {
            let (c2, r2) = spec_read_op8(c1, to);
            match r2 {
                Err(e) => (c2, Err(e)),
                Ok(base) => {
                    let ci = c2.regs.f.c;
                    let result = crate::alu::spec_adc_result(base, value, ci);
                    let c3 = CpuV {
                        regs: Registers {
                            f: Flags {
                                z: result == 0,
                                n: false,
                                h: crate::alu::spec_adc_half(base, value, ci),
                                c: crate::alu::spec_adc_carry(base, value, ci),
                            },
                            ..c2.regs
                        },
                        ..c2
                    };
                    spec_write_op8(c3, to, result)
                },
            }
        },
    }
}

/// 16-bit pair addition into the target: zero flag kept, negative cleared,
/// half-carry and carry from the pair formulas, and one internal bus cycle
/// spent as for the other 16-bit arithmetic.
pub open spec fn spec_op_add16(c: CpuV, from: Op16, to: Op16) -> (CpuV, Result<(), EmuError>) {
    let (c1, r1) = spec_read_op16(c, from);
    match r1 {
        Err(e) => (c1, Err(e)),
        Ok(rhs) => {
            let (c2, r2) = spec_read_op16(c1, to);
            match r2 {
                Err(e) => (c2, Err(e)),
                Ok(lhs) => {
                    let c3 = CpuV {
                        regs: Registers {
                            f: Flags {
                                z: c2.regs.f.z,
                                n: false,
                                h: crate::alu::spec_add16_half(lhs, rhs),
                                c: crate::alu::spec_add16_carry(lhs, rhs),
                            },
                            ..c2.regs
                        },
                        ..c2
                    };
                    let (c4, r4) = spec_write_op16(c3, to, crate::alu::spec_add16_result(lhs, rhs));
                    match r4 {
                        Err(e) => (c4, Err(e)),
                        Ok(u) => (crate::cpu::spec_tick(c4), Ok(())),
                    }
                },
            }
        },
    }
}

/// 8-bit increment: zero and half-carry from the addition formulas on an
/// operand of one, negative cleared, carry kept.
pub open spec fn spec_op_inc8(c: CpuV, op: Op8) -> (CpuV, Result<(), EmuError>) {
    let (c1, r1) = spec_read_op8(c, op);
    match r1 {
        Err(e) => (c1, Err(e)),
        Ok(v) => {
            let new = crate::alu::spec_add_result(v, 1);
            let c2 = CpuV {
                regs: Registers {
                    f: Flags {
                        z: new == 0,
                        n: false,
                        h: crate::alu::spec_add_half(v, 1),
                        c: c1.regs.f.c,
                    },
                    ..c1.regs
                },
                ..c1
            };
            spec_write_op8(c2, op, new)
        },
    }
}

/// 8-bit decrement: zero from the result, negative set, half-carry from
/// the borrow out of bit 4, carry kept.
pub open spec fn spec_op_dec8(c: CpuV, op: Op8) -> (CpuV, Result<(), EmuError>) {
    let (c1, r1) = spec_read_op8(c, op);
    match r1 {
        Err(e) => (c1, Err(e)),
        Ok(v) => {
            let new: u8 = if v == 0 {
                0xFF
            } else {
                (v - 1) as u8
            };
            let c2 = CpuV {
                regs: Registers {
                    f: Flags { z: new == 0, n: true, h: new % 0x10 == 0xF, c: c1.regs.f.c },
                    ..c1.regs
                },
                ..c1
            };
            spec_write_op8(c2, op, new)
        },
    }
}

/// Nibble swap: the high and low nibbles of the operand change places;
/// zero flag from the result, the other flags cleared.
pub open spec fn spec_op_swap(c: CpuV, op: Op8) -> (CpuV, Result<(), EmuError>) {
    let (c1, r1) = spec_read_op8(c, op);
    match r1 {
        Err(e) => (c1, Err(e)),
        Ok(v) => {
            let new = ((v % 0x10) * 0x10 + v / 0x10) as u8;
            let c2 = CpuV {
                regs: Registers {
                    f: Flags { z: new == 0, n: false, h: false, c: false },
                    ..c1.regs
                },
                ..c1
            };
            spec_write_op8(c2, op, new)
        },
    }
}

/// The byte with one bit position cleared, for the bit-reset operation.
pub open spec fn spec_res_mask(bit: u8) -> u8 {
    if bit == 0 {
        0xFE
    } else if bit == 1 {
        0xFD
    } else if bit == 2 {
        0xFB
    } else if bit == 3 {
        0xF7
    } else if bit == 4 {
        0xEF
    } else if bit == 5 {
        0xDF
    } else if bit == 6 {
        0xBF
    } else {
        0x7F
    }
}

/// Bit reset: clears one bit of the operand; a position past 7 is the
/// illegal-operation error. No flag changes.
pub open spec fn spec_op_res(c: CpuV, bit: u8, op: Op8) -> (CpuV, Result<(), EmuError>) {
    if bit > 7 {
        (c, Err(EmuError::IllegalOperation))
    } else {
        let (c1, r1) = spec_read_op8(c, op);
        match r1 {
            Err(e) => (c1, Err(e)),
            Ok(v) => spec_write_op8(c1, op, v & spec_res_mask(bit)),
        }
    }
}

/// Rotate the accumulator right through carry: the old carry enters bit 7,
/// the old bit 0 leaves into carry, the other flags are cleared.
pub open spec fn spec_op_rra(c: CpuV) -> (CpuV, Result<(), EmuError>) {
    let ci: u8 = if c.regs.f.c {
        0x80
    } else {
        0
    };
    let co = c.regs.a % 2;
    (
        CpuV {
            regs: Registers {
                a: (c.regs.a / 2 + ci) as u8,
                f: Flags { z: false, n: false, h: false, c: co != 0 },
                ..c.regs
            },
            ..c
        },
        Ok(()),
    )
}

/// Complement the accumulator: negative and half-carry forced set, zero
/// and carry kept.
pub open spec fn spec_op_cpl(c: CpuV) -> (CpuV, Result<(), EmuError>) {
    (
        CpuV {
            regs: Registers {
                a: (0xFF - c.regs.a) as u8,
                f: Flags { z: c.regs.f.z, n: true, h: true, c: c.regs.f.c },
                ..c.regs
            },
            ..c
        },
        Ok(()),
    )
}

/// Set carry: zero kept, negative and half-carry cleared, carry set.
pub open spec fn spec_op_scf(c: CpuV) -> (CpuV, Result<(), EmuError>) {
    (
        CpuV {
            regs: Registers {
                f: Flags { z: c.regs.f.z, n: false, h: false, c: true },
                ..c.regs
            },
            ..c
        },
        Ok(()),
    )
}

/// 16-bit register increment: the pair moves modulo 0x10000 and one
/// internal cycle passes; only register operands are defined.
pub open spec fn spec_op_inc16(c: CpuV, op: Op16) -> (CpuV, Result<(), EmuError>) {
    match op {
        Op16::Register(r) => {
            let c1 = spec_with_pair(c, r, spec_inc16(spec_pair(c, r)));
            (crate::cpu::spec_tick(c1), Ok(()))
        },
        _ => (c, Err(EmuError::IllegalOperation)),
    }
}

/// 16-bit register decrement, as the increment.
pub open spec fn spec_op_dec16(c: CpuV, op: Op16) -> (CpuV, Result<(), EmuError>) {
    match op {
        Op16::Register(r) => {
            let c1 = spec_with_pair(c, r, spec_dec16(spec_pair(c, r)));
            (crate::cpu::spec_tick(c1), Ok(()))
        },
        _ => (c, Err(EmuError::IllegalOperation)),
    }
}

/// Push a register pair: one internal cycle, then the pair on the stack.
pub open spec fn spec_op_push(c: CpuV, op: Op16) -> (CpuV, Result<(), EmuError>) {
    match op {
        Op16::Register(r) => {
            let value = spec_pair(c, r);
            crate::cpu::spec_push16(crate::cpu::spec_tick(c), value)
        },
        _ => (c, Err(EmuError::IllegalOperation)),
    }
}

/// Pop into a register pair.
pub open spec fn spec_op_pop(c: CpuV, op: Op16) -> (CpuV, Result<(), EmuError>) {
    match op {
        Op16::Register(r) => {
            let (c1, r1) = crate::cpu::spec_pop16(c);
            match r1 {
                Err(e) => (c1, Err(e)),
                Ok(v) => (spec_with_pair(c1, r, v), Ok(())),
            }
        },
        _ => (c, Err(EmuError::IllegalOperation)),
    }
}

/// Call: the target is resolved, and when the condition holds one internal
/// cycle passes, the program counter is pushed and control transfers.
pub open spec fn spec_op_call(c: CpuV, cond: Cond, to: Op16) -> (CpuV, Result<(), EmuError>) {
    let (c1, r1) = spec_read_op16(c, to);
    match r1 {
        Err(e) => (c1, Err(e)),
        Ok(value) => {
            if cond.spec_check(c1.regs.f) {
                let c2 = crate::cpu::spec_tick(c1);
                let (c3, r3) = crate::cpu::spec_push16(c2, c2.regs.pc);
                match r3 {
                    Err(e) => (c3, Err(e)),
                    Ok(u) => (CpuV { regs: Registers { pc: value, ..c3.regs }, ..c3 }, Ok(())),
                }
            } else {
                (c1, Ok(()))
            }
        },
    }
}

/// Unconditional return: the program counter is popped, then one internal
/// cycle passes.
pub open spec fn spec_op_ret(c: CpuV) -> (CpuV, Result<(), EmuError>) {
    let (c1, r1) = crate::cpu::spec_pop16(c);
    match r1 {
        Err(e) => (c1, Err(e)),
        Ok(v) => (
            crate::cpu::spec_tick(CpuV { regs: Registers { pc: v, ..c1.regs }, ..c1 }),
            Ok(()),
        ),
    }
}

/// Conditional return: one internal cycle always; when the condition holds
/// the program counter is popped and a further cycle passes.
pub open spec fn spec_op_ret_cond(c: CpuV, cond: Cond) -> (CpuV, Result<(), EmuError>) {
    let c1 = crate::cpu::spec_tick(c);
    if cond.spec_check(c1.regs.f) {
        let (c2, r2) = crate::cpu::spec_pop16(c1);
        match r2 {
            Err(e) => (c2, Err(e)),
            Ok(v) => (
                crate::cpu::spec_tick(CpuV { regs: Registers { pc: v, ..c2.regs }, ..c2 }),
                Ok(()),
            ),
        }
    } else {
        (c1, Ok(()))
    }
}

/// Restart: one internal cycle, the program counter pushed, and control
/// transferred to the fixed zero-page target.
pub open spec fn spec_op_rst(c: CpuV, target: u8) -> (CpuV, Result<(), EmuError>) {
    let c1 = crate::cpu::spec_tick(c);
    let (c2, r2) = crate::cpu::spec_push16(c1, c1.regs.pc);
    match r2 {
        Err(e) => (c2, Err(e)),
        Ok(u) => (CpuV { regs: Registers { pc: target as u16, ..c2.regs }, ..c2 }, Ok(())),
    }
}

impl CPU {
    /// Reads the value an 8-bit operand stands for.
    pub fn read_op8(&mut self, op: Op8) -> (r: Result<u8, EmuError>)
        requires
            old(self)@.wf(),
        ensures
            final(self)@.wf(),
            ({
                let (c2, r2) = spec_read_op8(old(self)@, op);
                final(self)@ == c2 && r == r2
            }),
    {
        match op {
            Op8::Register(r) => Ok(self.regs.get8(r)),
            Op8::Immediate(v) => Ok(v),
            Op8::Memory(a) => match a {
                Addr::HL => {
                    let hl = self.regs.get16(Reg16::HL);
                    self.read_u8(hl)
                },
                Addr::BC => {
                    let bc = self.regs.get16(Reg16::BC);
                    self.read_u8(bc)
                },
                Addr::DE => {
                    let de = self.regs.get16(Reg16::DE);
                    self.read_u8(de)
                },
                Addr::HLI => {
                    let hl = self.regs.get16(Reg16::HL);
                    let v = self.read_u8(hl)?;
                    self.regs.set16(Reg16::HL, hl.wrapping_add(1));
                    Ok(v)
                },
                Addr::HLD => {
                    let hl = self.regs.get16(Reg16::HL);
                    let v = self.read_u8(hl)?;
                    self.regs.set16(Reg16::HL, hl.wrapping_sub(1));
                    Ok(v)
                },
                Addr::ZeroPage(n) => self.read_u8(0xFF00 + n as u16),
                Addr::ZeroPageC => {
                    let c = self.regs.c;
                    self.read_u8(0xFF00 + c as u16)
                },
                Addr::Immediate(addr) => self.read_u8(addr),
            },
        }
    }

    /// Writes a value through an 8-bit operand.
    pub fn write_op8(&mut self, op: Op8, value: u8) -> (r: Result<(), EmuError>)
        requires
            old(self)@.wf(),
        ensures
            final(self)@.wf(),
            ({
                let (c2, r2) = spec_write_op8(old(self)@, op, value);
                final(self)@ == c2 && r == r2
            }),
    {
        match op {
            Op8::Register(r) => {
                self.regs.set8(r, value);
                Ok(())
            },
            Op8::Immediate(v) => Err(EmuError::IllegalOperation),
            Op8::Memory(a) => match a {
                Addr::HL => {
                    let hl = self.regs.get16(Reg16::HL);
                    self.write_u8(hl, value)
                },
                Addr::BC => {
                    let bc = self.regs.get16(Reg16::BC);
                    self.write_u8(bc, value)
                },
                Addr::DE => {
                    let de = self.regs.get16(Reg16::DE);
                    self.write_u8(de, value)
                },
                Addr::HLI => {
                    let hl = self.regs.get16(Reg16::HL);
                    self.write_u8(hl, value)?;
                    self.regs.set16(Reg16::HL, hl.wrapping_add(1));
                    Ok(())
                },
                Addr::HLD => {
                    let hl = self.regs.get16(Reg16::HL);
                    self.write_u8(hl, value)?;
                    self.regs.set16(Reg16::HL, hl.wrapping_sub(1));
                    Ok(())
                },
                Addr::ZeroPage(n) => self.write_u8(0xFF00 + n as u16, value),
                Addr::ZeroPageC => {
                    let c = self.regs.c;
                    self.write_u8(0xFF00 + c as u16, value)
                },
                Addr::Immediate(addr) => self.write_u8(addr, value),
            },
        }
    }

    /// Reads the value a 16-bit operand stands for.
    pub fn read_op16(&mut self, op: Op16) -> (r: Result<u16, EmuError>)
        requires
            old(self)@.wf(),
        ensures
            final(self)@.wf(),
            ({
                let (c2, r2) = spec_read_op16(old(self)@, op);
                final(self)@ == c2 && r == r2
            }),
    {
        match op {
            Op16::Register(r) => Ok(self.regs.get16(r)),
            Op16::Immediate(v) => Ok(v),
            Op16::Memory(a) => match a {
                Addr::Immediate(addr) => self.read_u16(addr),
                _ => Err(EmuError::IllegalOperation),
            },
        }
    }

    /// Writes a value through a 16-bit operand.
    pub fn write_op16(&mut self, op: Op16, value: u16) -> (r: Result<(), EmuError>)
        requires
            old(self)@.wf(),
        ensures
            final(self)@.wf(),
            ({
                let (c2, r2) = spec_write_op16(old(self)@, op, value);
                final(self)@ == c2 && r == r2
            }),
    {
        match op {
            Op16::Register(r) => {
                self.regs.set16(r, value);
                Ok(())
            },
            Op16::Immediate(v) => Err(EmuError::IllegalOperation),
            Op16::Memory(a) => match a {
                Addr::Immediate(addr) => self.write_u16(addr, value),
                _ => Err(EmuError::IllegalOperation),
            },
        }
    }
}

/// The effect of one decoded operation on the machine. Operations the
/// instruction set leaves undefined, and the decoded-but-unimplemented
/// ones, are the illegal-operation error.
pub open spec fn spec_exec_op(c: CpuV, op: Opcode) -> (CpuV, Result<(), EmuError>) {
    match op {
        Opcode::Nop => (c, Ok(())),
        Opcode::Jr(cond, off) => spec_op_jr(c, cond, off),
        Opcode::Jp(cond, to) => spec_op_jp(c, cond, to),
        Opcode::Xor(op8) => spec_op_xor(c, op8),
        Opcode::Ld16(to, from) => spec_op_load16(c, from, to),
        Opcode::Ld(to, from) => spec_op_load8(c, from, to),
        Opcode::Dec(op8) => spec_op_dec8(c, op8),
        Opcode::Dec16(op16) => spec_op_dec16(c, op16),
        Opcode::Inc16(op16) => spec_op_inc16(c, op16),
        Opcode::Inc(op8) => spec_op_inc8(c, op8),
        Opcode::Adc(to, from) => spec_op_adc(c, from, to),
        Opcode::Rra => spec_op_rra(c),
        Opcode::Di => (CpuV { ime: crate::cpu::Ime::Disabled, ..c }, Ok(())),
        Opcode::Ei => (CpuV { ime: crate::cpu::Ime::Enabling, ..c }, Ok(())),
        Opcode::Cp(op8) => spec_op_cp(c, op8),
        Opcode::Call(cond, to) => spec_op_call(c, cond, to),
        Opcode::Ret(Cond::Always) => spec_op_ret(c),
        Opcode::Ret(cond) => spec_op_ret_cond(c, cond),
        Opcode::Or(op8) => spec_op_or(c, op8),
        Opcode::Cpl => spec_op_cpl(c),
        Opcode::And(op8) => spec_op_and(c, op8),
        Opcode::Swap(op8) => spec_op_swap(c, op8),
        Opcode::Res(bit, op8) => spec_op_res(c, bit, op8),
        Opcode::Rst(target) => spec_op_rst(c, target),
        Opcode::Add(to, from) => spec_op_add8(c, from, to),
        Opcode::Add16(to, from) => spec_op_add16(c, from, to),
        Opcode::Pop(op16) => spec_op_pop(c, op16),
        Opcode::Push(op16) => spec_op_push(c, op16),
        Opcode::Scf => spec_op_scf(c),
        _ => (c, Err(EmuError::IllegalOperation)),
    }
}

impl CPU {
    fn op_jr(&mut self, cond: Cond, off: u8) -> (r: Result<(), EmuError>)
        requires
            old(self)@.wf(),
        ensures
            final(self)@.wf(),
            ({
                let (c2, r2) = spec_op_jr(old(self)@, cond, off);
                final(self)@ == c2 && r == r2
            }),
    {
        if cond.check(self.regs.f) {
            let ext: u16 = if off < 0x80 {
                off as u16
            } else {
                off as u16 + 0xFF00
            };
            self.regs.pc = self.regs.pc.wrapping_add(ext);
            self.mmu.cycle();
        }
        Ok(())
    }

    fn op_jp(&mut self, cond: Cond, to: Op16) -> (r: Result<(), EmuError>)
        requires
            old(self)@.wf(),
        ensures
            final(self)@.wf(),
            ({
                let (c2, r2) = spec_op_jp(old(self)@, cond, to);
                final(self)@ == c2 && r == r2
            }),
    {
        if cond.check(self.regs.f) {
            let v = self.read_op16(to)?;
            self.regs.pc = v;
            self.mmu.cycle();
        }
        Ok(())
    }

    fn op_load8(&mut self, from: Op8, to: Op8) -> (r: Result<(), EmuError>)
        requires
            old(self)@.wf(),
        ensures
            final(self)@.wf(),
            ({
                let (c2, r2) = spec_op_load8(old(self)@, from, to);
                final(self)@ == c2 && r == r2
            }),
    {
        let v = self.read_op8(from)?;
        self.write_op8(to, v)
    }

    fn op_load16(&mut self, from: Op16, to: Op16) -> (r: Result<(), EmuError>)
        requires
            old(self)@.wf(),
        ensures
            final(self)@.wf(),
            ({
                let (c2, r2) = spec_op_load16(old(self)@, from, to);
                final(self)@ == c2 && r == r2
            }),
    {
        let v = self.read_op16(from)?;
        self.write_op16(to, v)
    }

    fn op_xor(&mut self, op: Op8) -> (r: Result<(), EmuError>)
        requires
            old(self)@.wf(),
        ensures
            final(self)@.wf(),
            ({
                let (c2, r2) = spec_op_xor(old(self)@, op);
                final(self)@ == c2 && r == r2
            }),
    {
        let v = self.read_op8(op)?;
        self.regs.a = self.regs.a ^ v;
        self.regs.f = Flags { z: self.regs.a == 0, n: false, h: false, c: false };
        Ok(())
    }

    fn op_or(&mut self, op: Op8) -> (r: Result<(), EmuError>)
        requires
            old(self)@.wf(),
        ensures
            final(self)@.wf(),
            ({
                let (c2, r2) = spec_op_or(old(self)@, op);
                final(self)@ == c2 && r == r2
            }),
    {
        let v = self.read_op8(op)?;
        self.regs.a = self.regs.a | v;
        self.regs.f = Flags { z: self.regs.a == 0, n: false, h: false, c: false };
        Ok(())
    }

    fn op_and(&mut self, op: Op8) -> (r: Result<(), EmuError>)
        requires
            old(self)@.wf(),
        ensures
            final(self)@.wf(),
            ({
                let (c2, r2) = spec_op_and(old(self)@, op);
                final(self)@ == c2 && r == r2
            }),
    {
        let v = self.read_op8(op)?;
        self.regs.a = self.regs.a & v;
        self.regs.f = Flags { z: self.regs.a == 0, n: false, h: true, c: false };
        Ok(())
    }

    fn op_cp(&mut self, op: Op8) -> (r: Result<(), EmuError>)
        requires
            old(self)@.wf(),
        ensures
            final(self)@.wf(),
            ({
                let (c2, r2) = spec_op_cp(old(self)@, op);
                final(self)@ == c2 && r == r2
            }),
    {
        let v = self.read_op8(op)?;
        self.regs.f = Flags {
            z: self.regs.a == v,
            n: true,
            h: self.regs.a % 0x10 < v % 0x10,
            c: self.regs.a < v,
        };
        Ok(())
    }

    fn op_add8(&mut self, from: Op8, to: Op8) -> (r: Result<(), EmuError>)
        requires
            old(self)@.wf(),
        ensures
            final(self)@.wf(),
            ({
                let (c2, r2) = spec_op_add8(old(self)@, from, to);
                final(self)@ == c2 && r == r2
            }),
    {
        let rhs = self.read_op8(from)?;
        let lhs = self.read_op8(to)?;
        let (value, carry, half_carry) = crate::alu::alu_add(lhs, rhs);
        self.regs.f = Flags { z: value == 0, n: false, h: half_carry, c: carry };
        self.write_op8(to, value)
    }

    fn op_adc(&mut self, from: Op8, to: Op8) -> (r: Result<(), EmuError>)
        requires
            old(self)@.wf(),
        ensures
            final(self)@.wf(),
            ({
                let (c2, r2) = spec_op_adc(old(self)@, from, to);
                final(self)@ == c2 && r == r2
            }),
    {
        let value = self.read_op8(from)?;
        let base = self.read_op8(to)?;
        let (result, carry, half_carry) = crate::alu::alu_adc(base, value, self.regs.f.c);
        self.regs.f = Flags { z: result == 0, n: false, h: half_carry, c: carry };
        self.write_op8(to, result)
    }

    fn op_add16(&mut self, from: Op16, to: Op16) -> (r: Result<(), EmuError>)
        requires
            old(self)@.wf(),
        ensures
            final(self)@.wf(),
            ({
                let (c2, r2) = spec_op_add16(old(self)@, from, to);
                final(self)@ == c2 && r == r2
            }),
    {
        let rhs = self.read_op16(from)?;
        let lhs = self.read_op16(to)?;
        let (value, carry, half_carry) = crate::alu::alu_add16(lhs, rhs);
        self.regs.f = Flags { z: self.regs.f.z, n: false, h: half_carry, c: carry };
        self.write_op16(to, value)?;
        self.mmu.cycle();
        Ok(())
    }

    fn op_inc8(&mut self, op: Op8) -> (r: Result<(), EmuError>)
        requires
            old(self)@.wf(),
        ensures
            final(self)@.wf(),
            ({
                let (c2, r2) = spec_op_inc8(old(self)@, op);
                final(self)@ == c2 && r == r2
            }),
    {
        let v = self.read_op8(op)?;
        let (new, _, half_carry) = crate::alu::alu_add(v, 1);
        self.regs.f = Flags { z: new == 0, n: false, h: half_carry, c: self.regs.f.c };
        self.write_op8(op, new)
    }

    fn op_dec8(&mut self, op: Op8) -> (r: Result<(), EmuError>)
        requires
            old(self)@.wf(),
        ensures
            final(self)@.wf(),
            ({
                let (c2, r2) = spec_op_dec8(old(self)@, op);
                final(self)@ == c2 && r == r2
            }),
    {
        let v = self.read_op8(op)?;
        let new: u8 = if v == 0 {
            0xFF
        } else {
            v - 1
        };
        self.regs.f = Flags { z: new == 0, n: true, h: new % 0x10 == 0xF, c: self.regs.f.c };
        self.write_op8(op, new)
    }

    fn op_swap(&mut self, op: Op8) -> (r: Result<(), EmuError>)
        requires
            old(self)@.wf(),
        ensures
            final(self)@.wf(),
            ({
                let (c2, r2) = spec_op_swap(old(self)@, op);
                final(self)@ == c2 && r == r2
            }),
    {
        let v = self.read_op8(op)?;
        let new: u8 = (v % 0x10) * 0x10 + v / 0x10;
        self.regs.f = Flags { z: new == 0, n: false, h: false, c: false };
        self.write_op8(op, new)
    }

    fn op_res(&mut self, bit: u8, op: Op8) -> (r: Result<(), EmuError>)
        requires
            old(self)@.wf(),
        ensures
            final(self)@.wf(),
            ({
                let (c2, r2) = spec_op_res(old(self)@, bit, op);
                final(self)@ == c2 && r == r2
            }),
    {
        if bit > 7 {
            return Err(EmuError::IllegalOperation);
        }
        let mask: u8 = match bit {
            0 => 0xFE,
            1 => 0xFD,
            2 => 0xFB,
            3 => 0xF7,
            4 => 0xEF,
            5 => 0xDF,
            6 => 0xBF,
            _ => 0x7F,
        };
        let v = self.read_op8(op)?;
        self.write_op8(op, v & mask)
    }

    fn op_rra(&mut self) -> (r: Result<(), EmuError>)
        requires
            old(self)@.wf(),
        ensures
            final(self)@.wf(),
            ({
                let (c2, r2) = spec_op_rra(old(self)@);
                final(self)@ == c2 && r == r2
            }),
    {
        let ci: u8 = if self.regs.f.c {
            0x80
        } else {
            0
        };
        let co = self.regs.a % 2;
        self.regs.a = self.regs.a / 2 + ci;
        self.regs.f = Flags { z: false, n: false, h: false, c: co != 0 };
        Ok(())
    }

    fn op_cpl(&mut self) -> (r: Result<(), EmuError>)
        requires
            old(self)@.wf(),
        ensures
            final(self)@.wf(),
            ({
                let (c2, r2) = spec_op_cpl(old(self)@);
                final(self)@ == c2 && r == r2
            }),
    {
        self.regs.a = 0xFF - self.regs.a;
        self.regs.f = Flags { z: self.regs.f.z, n: true, h: true, c: self.regs.f.c };
        Ok(())
    }

    fn op_scf(&mut self) -> (r: Result<(), EmuError>)
        requires
            old(self)@.wf(),
        ensures
            final(self)@.wf(),
            ({
                let (c2, r2) = spec_op_scf(old(self)@);
                final(self)@ == c2 && r == r2
            }),
    {
        self.regs.f = Flags { z: self.regs.f.z, n: false, h: false, c: true };
        Ok(())
    }

    fn op_inc16(&mut self, op: Op16) -> (r: Result<(), EmuError>)
        requires
            old(self)@.wf(),
        ensures
            final(self)@.wf(),
            ({
                let (c2, r2) = spec_op_inc16(old(self)@, op);
                final(self)@ == c2 && r == r2
            }),
    {
        match op {
            Op16::Register(reg) => {
                let v = self.regs.get16(reg);
                self.regs.set16(reg, v.wrapping_add(1));
                self.mmu.cycle();
                Ok(())
            },
            _ => Err(EmuError::IllegalOperation),
        }
    }

    fn op_dec16(&mut self, op: Op16) -> (r: Result<(), EmuError>)
        requires
            old(self)@.wf(),
        ensures
            final(self)@.wf(),
            ({
                let (c2, r2) = spec_op_dec16(old(self)@, op);
                final(self)@ == c2 && r == r2
            }),
    {
        match op {
            Op16::Register(reg) => {
                let v = self.regs.get16(reg);
                self.regs.set16(reg, v.wrapping_sub(1));
                self.mmu.cycle();
                Ok(())
            },
            _ => Err(EmuError::IllegalOperation),
        }
    }

    fn op_push(&mut self, op: Op16) -> (r: Result<(), EmuError>)
        requires
            old(self)@.wf(),
        ensures
            final(self)@.wf(),
            ({
                let (c2, r2) = spec_op_push(old(self)@, op);
                final(self)@ == c2 && r == r2
            }),
    {
        match op {
            Op16::Register(reg) => {
                let value = self.regs.get16(reg);
                self.mmu.cycle();
                self.push_u16(value)
            },
            _ => Err(EmuError::IllegalOperation),
        }
    }

    fn op_pop(&mut self, op: Op16) -> (r: Result<(), EmuError>)
        requires
            old(self)@.wf(),
        ensures
            final(self)@.wf(),
            ({
                let (c2, r2) = spec_op_pop(old(self)@, op);
                final(self)@ == c2 && r == r2
            }),
    {
        match op {
            Op16::Register(reg) => {
                let v = self.pop_u16()?;
                self.regs.set16(reg, v);
                Ok(())
            },
            _ => Err(EmuError::IllegalOperation),
        }
    }

    fn op_call(&mut self, cond: Cond, to: Op16) -> (r: Result<(), EmuError>)
        requires
            old(self)@.wf(),
        ensures
            final(self)@.wf(),
            ({
                let (c2, r2) = spec_op_call(old(self)@, cond, to);
                final(self)@ == c2 && r == r2
            }),
    {
        let value = self.read_op16(to)?;
        if cond.check(self.regs.f) {
            self.mmu.cycle();
            let pc = self.regs.pc;
            self.push_u16(pc)?;
            self.regs.pc = value;
        }
        Ok(())
    }

    fn op_ret(&mut self) -> (r: Result<(), EmuError>)
        requires
            old(self)@.wf(),
        ensures
            final(self)@.wf(),
            ({
                let (c2, r2) = spec_op_ret(old(self)@);
                final(self)@ == c2 && r == r2
            }),
    {
        let pc = self.pop_u16()?;
        self.regs.pc = pc;
        self.mmu.cycle();
        Ok(())
    }

    fn op_ret_cond(&mut self, cond: Cond) -> (r: Result<(), EmuError>)
        requires
            old(self)@.wf(),
        ensures
            final(self)@.wf(),
            ({
                let (c2, r2) = spec_op_ret_cond(old(self)@, cond);
                final(self)@ == c2 && r == r2
            }),
    {
        self.mmu.cycle();
        if cond.check(self.regs.f) {
            let pc = self.pop_u16()?;
            self.regs.pc = pc;
            self.mmu.cycle();
        }
        Ok(())
    }

    fn op_rst(&mut self, target: u8) -> (r: Result<(), EmuError>)
        requires
            old(self)@.wf(),
        ensures
            final(self)@.wf(),
            ({
                let (c2, r2) = spec_op_rst(old(self)@, target);
                final(self)@ == c2 && r == r2
            }),
    {
        self.mmu.cycle();
        let pc = self.regs.pc;
        self.push_u16(pc)?;
        self.regs.pc = target as u16;
        Ok(())
    }

    /// Executes one decoded operation.
    pub fn execute(&mut self, op: Opcode) -> (r: Result<(), EmuError>)
        requires
            old(self)@.wf(),
        ensures
            final(self)@.wf(),
            ({
                let (c2, r2) = spec_exec_op(old(self)@, op);
                final(self)@ == c2 && r == r2
            }),
    {
        match op {
            Opcode::Nop => Ok(()),
            Opcode::Jr(cond, off) => self.op_jr(cond, off),
            Opcode::Jp(cond, to) => self.op_jp(cond, to),
            Opcode::Xor(op8) => self.op_xor(op8),
            Opcode::Ld16(to, from) => self.op_load16(from, to),
            Opcode::Ld(to, from) => self.op_load8(from, to),
            Opcode::Dec(op8) => self.op_dec8(op8),
            Opcode::Dec16(op16) => self.op_dec16(op16),
            Opcode::Inc16(op16) => self.op_inc16(op16),
            Opcode::Inc(op8) => self.op_inc8(op8),
            Opcode::Adc(to, from) => self.op_adc(from, to),
            Opcode::Rra => self.op_rra(),
            Opcode::Di => {
                self.ime = crate::cpu::Ime::Disabled;
                Ok(())
            },
            Opcode::Ei => {
                self.ime = crate::cpu::Ime::Enabling;
                Ok(())
            },
            Opcode::Cp(op8) => self.op_cp(op8),
            Opcode::Call(cond, to) => self.op_call(cond, to),
            Opcode::Ret(Cond::Always) => self.op_ret(),
            Opcode::Ret(cond) => self.op_ret_cond(cond),
            Opcode::Or(op8) => self.op_or(op8),
            Opcode::Cpl => self.op_cpl(),
            Opcode::And(op8) => self.op_and(op8),
            Opcode::Swap(op8) => self.op_swap(op8),
            Opcode::Res(bit, op8) => self.op_res(bit, op8),
            Opcode::Rst(target) => self.op_rst(target),
            Opcode::Add(to, from) => self.op_add8(from, to),
            Opcode::Add16(to, from) => self.op_add16(from, to),
            Opcode::Pop(op16) => self.op_pop(op16),
            Opcode::Push(op16) => self.op_push(op16),
            Opcode::Scf => self.op_scf(),
            _ => Err(EmuError::IllegalOperation),
        }
    }
}

/// The execute branch of a step: the program counter moves past the opcode
/// byte, the operation is decoded (fetching any immediates) and executed.
pub open spec fn spec_step_execute(c: CpuV, opcode: u8) -> (CpuV, Result<(), EmuError>) {
    let c1 = CpuV { regs: Registers { pc: spec_inc16(c.regs.pc), ..c.regs }, ..c };
    let (c2, rdec) = crate::opcodes::spec_decode(c1, opcode);
    match rdec {
        Err(e) => (c2, Err(e)),
        Ok(op) => spec_exec_op(c2, op),
    }
}

/// One step of the machine. A pending interrupt with the master enable
/// `Enabled` dispatches instead of fetching: one internal cycle stands in
/// for the fetch, so no opcode byte is read and an unmapped program counter
/// cannot abort an owed dispatch. A step entered in `Enabling` still
/// executes its instruction, and only moves to `Enabled` for the next
/// step. Otherwise the opcode byte at the program counter is fetched
/// (ticking the bus), decoded and executed.
pub open spec fn spec_step(c: CpuV) -> (CpuV, Result<(), EmuError>) {
    if c.ime is Enabled && c.mmu.irq.enable & c.mmu.irq.request != 0 {
        crate::cpu::spec_dispatch(crate::cpu::spec_tick(c))
    } else {
        let (c1, rop) = spec_read8(c, c.regs.pc);
        match rop {
            Err(e) => (c1, Err(e)),
            Ok(opcode) => {
                let c2 = CpuV {
                    ime: if c.ime is Enabling {
                        crate::cpu::Ime::Enabled
                    } else {
                        c.ime
                    },
                    ..c1
                };
                spec_step_execute(c2, opcode)
            },
        }
    }
}

impl CPU {
    /// Advances the machine by exactly one instruction or one interrupt
    /// dispatch.
    pub fn step(&mut self) -> (r: Result<(), EmuError>)
        requires
            old(self)@.wf(),
        ensures
            final(self)@.wf(),
            ({
                let (c2, r2) = spec_step(old(self)@);
                final(self)@ == c2 && r == r2
            }),
    {
        let interrupt = match self.ime {
            crate::cpu::Ime::Disabled | crate::cpu::Ime::Enabling => false,
            crate::cpu::Ime::Enabled => self.mmu.has_interrupt(),
        };
        if interrupt {
            self.mmu.cycle();
            self.dispatch_interrupt()
        } else {
            let pc = self.regs.pc;
            let opcode = self.read_u8(pc)?;
            match self.ime {
                crate::cpu::Ime::Enabling => self.ime = crate::cpu::Ime::Enabled,
                _ => (),
            }
            self.regs.pc = self.regs.pc.wrapping_add(1);
            let instr = Opcode::decode(self, opcode)?;
            self.execute(instr)
        }
    }
}

/// The enable-interrupts instruction only arms the master enable: it moves
/// it to `Enabling` and touches nothing else.
pub proof fn lemma_ei_arms_master_enable(c: CpuV)
    ensures
        spec_exec_op(c, Opcode::Ei).0 == (CpuV { ime: crate::cpu::Ime::Enabling, ..c }),
        spec_exec_op(c, Opcode::Ei).1 == Ok::<(), EmuError>(()),
{
}

/// The step after the enable-interrupts instruction still executes an
/// ordinary instruction — even with an interrupt pending, a machine in
/// `Enabling` never dispatches — and only that step moves the master
/// enable to `Enabled`.
pub proof fn lemma_enabling_defers_dispatch(c: CpuV)
    requires
        c.ime is Enabling,
    ensures
        ({
            let (c1, rop) = spec_read8(c, c.regs.pc);
            match rop {
                Ok(opcode) => spec_step(c) == spec_step_execute(
                    CpuV { ime: crate::cpu::Ime::Enabled, ..c1 },
                    opcode,
                ),
                Err(e) => spec_step(c) == (c1, Err::<(), EmuError>(e)),
            }
        }),
{
}

/// With the master enable on and a source pending, the step as a whole
/// serves the interrupt: one internal cycle stands in for the fetch, and
/// then — whenever the two stack pushes land and a source is still pending
/// once they have — the step ends with the master enable down and the
/// program counter at the vector of the lowest-priority-numbered pending
/// source, exactly its request bit cleared; no opcode is fetched or
/// executed.
pub proof fn lemma_step_dispatches_lowest(c: CpuV)
    requires
        c.wf(),
        c.ime is Enabled,
        c.mmu.irq.enable & c.mmu.irq.request != 0,
    ensures
        crate::cpu::spec_serves_lowest(crate::cpu::spec_tick(c), spec_step(c).0, spec_step(c).1),
{
    crate::cpu::lemma_tick_wf(c);
    crate::cpu::lemma_dispatch_serves_lowest(crate::cpu::spec_tick(c));
}

/// A dispatch always drops the master enable: nested interrupt delivery is
/// impossible until the program enables interrupts again.
pub proof fn lemma_dispatch_disables_master_enable(c: CpuV)
    ensures
        crate::cpu::spec_dispatch(c).0.ime is Disabled,
{
}

/// A step entered with the master enable `Enabled` and an interrupt
/// pending dispatches instead of fetching: no opcode byte is read, one
/// internal cycle stands in for the fetch, and the machine moves by the
/// dispatch protocol alone.
pub proof fn lemma_enabled_dispatches(c: CpuV)
    requires
        c.ime is Enabled,
        c.mmu.irq.enable & c.mmu.irq.request != 0,
    ensures
        spec_step(c) == crate::cpu::spec_dispatch(crate::cpu::spec_tick(c)),
{
}

} // verus!
