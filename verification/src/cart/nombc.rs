//! A cartridge without a mapper: the ROM is wired straight to `$0000`-`$7FFF`.
//! Cartridges with optional RAM (`$08`/`$09`) are refused: their behaviour is
//! undocumented.
use vstd::prelude::*;

use super::{CartridgeError, OPEN_BUS, Cartridge};

verus! {

/// What a mapper-less cartridge answers at `addr`, given its ROM.
pub open spec fn nombc_read(rom: Seq<u8>, addr: u16) -> u8 {
    if addr <= 0x7FFF && (addr as int) < rom.len() {
        rom[addr as int]
    } else {
        OPEN_BUS
    }
}

/// A ROM-only cartridge.
#[derive(Debug)]
pub struct NoMbc {
    rom: Vec<u8>,
}

impl View for NoMbc {
    /// The ROM bytes.
    type V = Seq<u8>;

    closed spec fn view(&self) -> Seq<u8> {
        self.rom@
    }
}

impl NoMbc {
    /// The most `$0000`-`$7FFF` can address without a mapper.
    pub const MAX_ROM_LEN: usize = 32 * 1024;

    /// Wraps a ROM of at most 32 KiB.
    ///
    /// # Errors
    ///
    /// [`CartridgeError::RomTooLarge`] when the ROM is longer than 32 KiB.
    pub fn new(rom: Vec<u8>) -> (r: Result<Self, CartridgeError>)
        ensures
            r is Ok <==> rom@.len() <= 32 * 1024,
            r matches Ok(c) ==> c@ == rom@,
            r matches Err(e) ==> e == (CartridgeError::RomTooLarge { len: rom@.len() as usize }),
    {
        if rom.len() > Self::MAX_ROM_LEN {
            return Err(CartridgeError::RomTooLarge { len: rom.len() });
        }

        Ok(Self { rom })
    }
}

impl Cartridge for NoMbc {
    open spec fn answer(&self, addr: u16) -> u8 {
        nombc_read(self@, addr)
    }

    open spec fn answer_after_write(&self, addr: u16, value: u8, at: u16) -> u8 {
        nombc_read(self@, at)
    }

    fn read(&self, addr: u16) -> (r: u8)
        ensures
            r == nombc_read(self@, addr),
    {
        if addr > 0x7FFF {
            return OPEN_BUS;
        }
        if (addr as usize) < self.rom.len() {
            self.rom[addr as usize]
        } else {
            OPEN_BUS
        }
    }

    fn write(&mut self, _addr: u16, _value: u8)
        ensures
            final(self)@ == old(self)@,
    {
    }
}

} // verus!
