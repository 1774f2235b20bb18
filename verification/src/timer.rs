//! The timer's memory-mapped registers. Only the modulo and control
//! registers are implemented; counting itself is a stub that never fires.

use vstd::prelude::*;
use crate::EmuError;

verus! {

#[derive(Clone, Copy, Debug, PartialEq, Eq, Structural)]
pub struct Timer {
    pub enabled: bool,
    pub input_clock: u8,
    pub modulo: u8,
}

impl Timer {
    pub open spec fn initial() -> Timer {
        Timer { enabled: false, input_clock: 0, modulo: 0 }
    }

    pub fn new() -> (r: Timer)
        ensures
            r == Timer::initial(),
    {
        Timer { enabled: false, input_clock: 0, modulo: 0 }
    }

    pub open spec fn spec_set_control(self, value: u8) -> Timer {
        Timer { enabled: value & 0x04 != 0, input_clock: value & 0x03, ..self }
    }

    pub fn set_control(&mut self, value: u8)
        ensures
            *final(self) == old(self).spec_set_control(value),
    {
        self.enabled = value & 0x04 != 0;
        self.input_clock = value & 0x03;
    }

    pub fn set_modulo(&mut self, value: u8)
        ensures
            *final(self) == (Timer { modulo: value, ..*old(self) }),
    {
        self.modulo = value;
    }

    /// The effect of a bus write into the timer's register range: only the
    /// modulo and control registers are owned; the rest are unmapped.
    pub open spec fn spec_write(self, addr: u16, value: u8) -> Result<Timer, EmuError> {
        if addr == 0xFF06 {
            Ok(Timer { modulo: value, ..self })
        } else if addr == 0xFF07 {
            Ok(self.spec_set_control(value))
        } else {
            Err(EmuError::UnmappedAddress(addr))
        }
    }

    pub fn write(&mut self, addr: u16, value: u8) -> (r: Result<(), EmuError>)
        ensures
            match old(self).spec_write(addr, value) {
                Ok(t) => r == Ok::<(), EmuError>(()) && *final(self) == t,
                Err(e) => r == Err::<(), EmuError>(e) && *final(self) == *old(self),
            },
    {
        match addr {
            0xFF06 => {
                self.set_modulo(value);
                Ok(())
            },
            0xFF07 => {
                self.set_control(value);
                Ok(())
            },
            _ => Err(EmuError::UnmappedAddress(addr)),
        }
    }

    /// No timer register supports reading yet: every read is unmapped.
    pub fn read(&self, addr: u16) -> (r: Result<u8, EmuError>)
        ensures
            r == Err::<u8, EmuError>(EmuError::UnmappedAddress(addr)),
    {
        Err(EmuError::UnmappedAddress(addr))
    }
}

} // verus!
