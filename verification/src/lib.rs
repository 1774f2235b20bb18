//! Core of an 8-bit handheld game console emulator: CPU decode/execute,
//! memory-mapped bus, interrupt controller and PPU timing state machine.

use vstd::prelude::*;

pub mod alu;
pub mod cartridge;
pub mod cpu;
pub mod execute;
pub mod gpu;
pub mod irq;
pub mod memory;
pub mod mmu;
pub mod opcodes;
pub mod registers;
pub mod rom;
pub mod timer;

verus! {

/// The two fatal error kinds of the core: a bus access to an address that no
/// device owns, and an opcode or operand combination with no defined meaning.
#[derive(Clone, Copy, Debug, PartialEq, Eq, Structural)]
pub enum EmuError {
    UnmappedAddress(u16),
    IllegalOperation,
}

} // verus!
