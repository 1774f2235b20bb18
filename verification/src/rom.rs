//! A loaded cartridge image: an immutable byte sequence read by the bus.

use vstd::prelude::*;

verus! {

pub struct Rom {
    pub rom: Vec<u8>,
}

impl View for Rom {
    type V = Seq<u8>;

    open spec fn view(&self) -> Seq<u8> {
        self.rom@
    }
}

impl Rom {
    /// Wraps an image already loaded into memory; reading the file itself is
    /// the surrounding program's concern.
    pub fn from_bytes(bytes: Vec<u8>) -> (r: Rom)
        ensures
            r@ == bytes@,
    {
        Rom { rom: bytes }
    }

    pub fn as_slice(&self) -> (r: &[u8])
        ensures
            r@ == self@,
    {
        self.rom.as_slice()
    }

    /// The byte at `addr`, or an unmapped-address error beyond the image's end.
    pub fn read(&self, addr: u16) -> (r: Result<u8, crate::EmuError>)
        ensures
            r == if addr < self@.len() {
                Ok::<u8, crate::EmuError>(self@[addr as int])
            } else {
                Err::<u8, crate::EmuError>(crate::EmuError::UnmappedAddress(addr))
            },
    {
        if (addr as usize) < self.rom.len() {
            Ok(self.rom[addr as usize])
        } else {
            Err(crate::EmuError::UnmappedAddress(addr))
        }
    }

    pub fn len(&self) -> (r: usize)
        ensures
            r == self@.len(),
    {
        self.rom.len()
    }
}

} // verus!
