//! The cartridge: a ROM image plus the selected memory-bank-controller
//! variant. Bank switching itself is not implemented; ROM-only cartridges
//! ignore writes.

use vstd::prelude::*;
use crate::rom::Rom;
use crate::EmuError;

verus! {

#[derive(Clone, Copy, Debug, PartialEq, Eq, Structural)]
pub enum MemoryBankController {
    RomOnly,
    Mbc1,
}

/// The controller variant selected by the cartridge-type byte, where one is
/// defined for it.
pub open spec fn spec_mbc_of(value: u8) -> Option<MemoryBankController> {
    if value == 0 {
        Some(MemoryBankController::RomOnly)
    } else if value == 1 {
        Some(MemoryBankController::Mbc1)
    } else {
        None
    }
}

impl MemoryBankController {
    pub fn from_u8(value: u8) -> (r: Option<MemoryBankController>)
        ensures
            r == spec_mbc_of(value),
    {
        match value {
            0 => Some(MemoryBankController::RomOnly),
            1 => Some(MemoryBankController::Mbc1),
            _ => None,
        }
    }
}

pub struct Cartridge {
    pub rom: Rom,
    pub mbc: MemoryBankController,
}

/// The mathematical content of a cartridge: its image and its controller.
pub struct CartridgeV {
    pub rom: Seq<u8>,
    pub mbc: MemoryBankController,
}

impl View for Cartridge {
    type V = CartridgeV;

    open spec fn view(&self) -> CartridgeV {
        CartridgeV { rom: self.rom@, mbc: self.mbc }
    }
}

impl CartridgeV {
    /// The image is long enough to hold the whole cartridge header.
    pub open spec fn wf(self) -> bool {
        self.rom.len() > spec_mbc_offset()
    }
}

/// Relies on String::from_utf8: a vector of ASCII bytes decodes to the
/// string of exactly those characters.
#[verifier::external_body]
fn string_from_ascii(bytes: Vec<u8>) -> (r: String)
    requires
        forall|i: int| 0 <= i < bytes@.len() ==> bytes@[i] < 0x80,
    ensures
        r@ == bytes@.map_values(|b: u8| b as char),
{
    String::from_utf8(bytes).unwrap_or_default()
}

/// The offset of the cartridge-type byte in the image.
pub open spec fn spec_mbc_offset() -> int {
    0x147
}

impl Cartridge {
    /// Builds a cartridge from a loaded image. The image must be long enough
    /// to hold the cartridge-type byte, and that byte must name a supported
    /// controller; otherwise no cartridge is returned.
    pub fn new(rom: Rom) -> (r: Option<Cartridge>)
        ensures
            r is Some <==> (rom@.len() > spec_mbc_offset() && spec_mbc_of(
                rom@[spec_mbc_offset()],
            ) is Some),
            r matches Some(c) ==> c@.wf() && c@.rom == rom@ && Some(c@.mbc) == spec_mbc_of(
                rom@[spec_mbc_offset()],
            ),
    {
        if rom.len() > 0x147 {
            let ty = rom.as_slice()[0x147];
            match MemoryBankController::from_u8(ty) {
                Some(mbc) => Some(Cartridge { rom, mbc }),
                None => None,
            }
        } else {
            None
        }
    }

    pub fn memory_bank_controller(&self) -> (r: MemoryBankController)
        ensures
            r == self@.mbc,
    {
        self.mbc
    }

    /// The game title from the header: the characters of the longest run of
    /// nonzero ASCII bytes at the title offset, at most fifteen long.
    pub fn title(&self) -> (r: String)
        requires
            self@.wf(),
        ensures
            ({
                let content = self@.rom.subrange(0x134, 0x143);
                &&& r@.len() <= 15
                &&& forall|i: int| 0 <= i < r@.len() ==> r@[i] == #[trigger] content[i] as char
                &&& forall|i: int| 0 <= i < r@.len() ==> 0 < #[trigger] content[i] < 0x80
                &&& r@.len() < 15 ==> !(0 < content[r@.len() as int] < 0x80)
            }),
    {
        let s = self.rom.as_slice();
        let mut bytes: Vec<u8> = Vec::new();
        let mut n: usize = 0;
        let mut stopped = false;
        while n < 15 && !stopped
            invariant
                s@ == self@.rom,
                self@.wf(),
                n <= 15,
                bytes@.len() == n,
                forall|j: int| 0 <= j < n ==> bytes@[j] == s@[0x134 + j] && 0 < bytes@[j] < 0x80,
                stopped ==> n < 15 && !(0 < s@[0x134 + n] < 0x80),
            decreases 15 - n + (if stopped { 0int } else { 1int }),
        {
            let b = s[0x134 + n];
            if b == 0 || b >= 0x80 {
                stopped = true;
            } else {
                bytes.push(b);
                n = n + 1;
            }
        }
        let ghost bs = bytes@;
        let ghost nn = n as int;
        let ghost was_stopped = stopped;
        let r = string_from_ascii(bytes);
        proof {
            let content = self@.rom.subrange(0x134, 0x143);
            assert(content.len() == 15);
            assert(r@.len() == bs.len());
            assert forall|i: int| 0 <= i < r@.len() implies r@[i] == content[i] as char && 0 < (
            #[trigger] content[i]) < 0x80 by {
                assert(r@[i] == bs.map_values(|b: u8| b as char)[i]);
                assert(bs[i] == s@[0x134 + i]);
                assert(content[i] == s@[0x134 + i]);
            }
            if r@.len() < 15 {
                assert(was_stopped);
                assert(content[nn] == s@[0x134 + nn]);
            }
        }
        r
    }

    /// The byte the bus sees at `addr` in the ROM region.
    pub fn read(&self, addr: u16) -> (r: Result<u8, EmuError>)
        ensures
            r == spec_cart_read(self@, addr),
    {
        self.rom.read(addr)
    }

    /// A write into the ROM region: ROM-only cartridges drop it (there is no
    /// bank to select); bank-controller writes are not implemented.
    pub fn write(&mut self, addr: u16, value: u8) -> (r: Result<(), EmuError>)
        ensures
            *final(self) == *old(self),
            r == spec_cart_write_result(old(self)@, addr),
    {
        match self.mbc {
            MemoryBankController::RomOnly => Ok(()),
            MemoryBankController::Mbc1 => Err(EmuError::UnmappedAddress(addr)),
        }
    }
}

pub open spec fn spec_cart_read(c: CartridgeV, addr: u16) -> Result<u8, EmuError> {
    if addr < c.rom.len() {
        Ok(c.rom[addr as int])
    } else {
        Err(EmuError::UnmappedAddress(addr))
    }
}

pub open spec fn spec_cart_write_result(c: CartridgeV, addr: u16) -> Result<(), EmuError> {
    match c.mbc {
        MemoryBankController::RomOnly => Ok(()),
        MemoryBankController::Mbc1 => Err(EmuError::UnmappedAddress(addr)),
    }
}

} // verus!
