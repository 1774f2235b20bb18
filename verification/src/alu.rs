//! The flag-accurate arithmetic formulas shared by the 8-bit and 16-bit
//! arithmetic instructions.

use vstd::prelude::*;
use crate::registers::Flags;

verus! {

/// The 8-bit sum modulo 256.
pub open spec fn spec_add_result(lhs: u8, rhs: u8) -> u8 {
    ((lhs + rhs) % 0x100) as u8
}

/// Carry out of bit 7: the true sum does not fit in eight bits.
pub open spec fn spec_add_carry(lhs: u8, rhs: u8) -> bool {
    lhs + rhs > 0xFF
}

/// Half-carry out of bit 3: the low nibbles alone sum past 0xF.
pub open spec fn spec_add_half(lhs: u8, rhs: u8) -> bool {
    (lhs % 0x10) + (rhs % 0x10) >= 0x10
}

/// The flag byte an 8-bit addition leaves: zero from the result, negative
/// cleared, half-carry and carry from the reference formulas.
pub open spec fn spec_add_flags(lhs: u8, rhs: u8) -> Flags {
    Flags {
        z: spec_add_result(lhs, rhs) == 0,
        n: false,
        h: spec_add_half(lhs, rhs),
        c: spec_add_carry(lhs, rhs),
    }
}

/// The 8-bit sum with carry-in, modulo 256.
pub open spec fn spec_adc_result(lhs: u8, rhs: u8, carry_in: bool) -> u8 {
    ((lhs + rhs + (if carry_in { 1int } else { 0int })) % 0x100) as u8
}

pub open spec fn spec_adc_carry(lhs: u8, rhs: u8, carry_in: bool) -> bool {
    lhs + rhs + (if carry_in { 1int } else { 0int }) > 0xFF
}

pub open spec fn spec_adc_half(lhs: u8, rhs: u8, carry_in: bool) -> bool {
    (lhs % 0x10) + (rhs % 0x10) + (if carry_in { 1int } else { 0int }) > 0xF
}

/// The 16-bit sum modulo 0x10000.
pub open spec fn spec_add16_result(lhs: u16, rhs: u16) -> u16 {
    ((lhs + rhs) % 0x10000) as u16
}

/// Carry out of bit 15.
pub open spec fn spec_add16_carry(lhs: u16, rhs: u16) -> bool {
    lhs + rhs > 0xFFFF
}

/// The pair addition's half-carry: the second nibbles alone sum past 0xF.
pub open spec fn spec_add16_half(lhs: u16, rhs: u16) -> bool {
    (lhs / 0x10) % 0x10 + (rhs / 0x10) % 0x10 >= 0x10
}

/// The flags a compare (subtraction without store) leaves: zero when the
/// operands are equal, negative set, and the borrow tests for half-carry
/// and carry.
pub open spec fn spec_cp_flags(a: u8, value: u8) -> Flags {
    Flags { z: a == value, n: true, h: a % 0x10 < value % 0x10, c: a < value }
}

/// The 8-bit addition: the pair of the modular sum and the carry and
/// half-carry bits, each following its reference formula.
pub fn alu_add(lhs: u8, rhs: u8) -> (r: (u8, bool, bool))
    ensures
        r.0 == spec_add_result(lhs, rhs),
        r.1 == spec_add_carry(lhs, rhs),
        r.2 == spec_add_half(lhs, rhs),
{
    let wide: u16 = lhs as u16 + rhs as u16;
    let value: u8 = (wide % 0x100) as u8;
    let carry: bool = wide > 0xFF;
    let half_carry: bool = (lhs % 0x10) + (rhs % 0x10) >= 0x10;
    (value, carry, half_carry)
}

/// The 8-bit addition with carry-in and its carry and half-carry bits.
pub fn alu_adc(lhs: u8, rhs: u8, carry_in: bool) -> (r: (u8, bool, bool))
    ensures
        r.0 == spec_adc_result(lhs, rhs, carry_in),
        r.1 == spec_adc_carry(lhs, rhs, carry_in),
        r.2 == spec_adc_half(lhs, rhs, carry_in),
{
    let ci: u16 = if carry_in {
        1
    } else {
        0
    };
    let wide: u16 = lhs as u16 + rhs as u16 + ci;
    let value: u8 = (wide % 0x100) as u8;
    let carry: bool = wide > 0xFF;
    let half_carry: bool = (lhs % 0x10) as u16 + (rhs % 0x10) as u16 + ci > 0xF;
    (value, carry, half_carry)
}

/// The 16-bit pair addition and its carry and half-carry bits.
pub fn alu_add16(lhs: u16, rhs: u16) -> (r: (u16, bool, bool))
    ensures
        r.0 == spec_add16_result(lhs, rhs),
        r.1 == spec_add16_carry(lhs, rhs),
        r.2 == spec_add16_half(lhs, rhs),
{
    let wide: u32 = lhs as u32 + rhs as u32;
    let value: u16 = (wide % 0x10000) as u16;
    let carry: bool = wide > 0xFFFF;
    let half_carry: bool = (lhs / 0x10) % 0x10 + (rhs / 0x10) % 0x10 >= 0x10;
    (value, carry, half_carry)
}

/// For every operand pair, the addition triple follows the reference
/// formulas: the result is the sum modulo 256, carry is the sum passing
/// 0xFF, and half-carry is the low nibbles summing past 0xF.
pub proof fn lemma_add_reference(lhs: u8, rhs: u8)
    ensures
        spec_add_result(lhs, rhs) == (lhs + rhs) % 0x100,
        spec_add_carry(lhs, rhs) <==> lhs + rhs > 0xFF,
        spec_add_half(lhs, rhs) <==> (lhs % 0x10) + (rhs % 0x10) >= 0x10,
{
}

} // verus!
