//! MBC2: up to 256 KiB of ROM and 512 half-bytes of built-in RAM. One
//! register range does two jobs: bit 8 of the address tells the RAM enable
//! from the ROM bank number.
use vstd::prelude::*;

use super::{byte_or_open_bus, copy_prefix, loaded_ram, Cartridge, CartridgeError, OPEN_BUS};

verus! {

/// Length of one ROM bank.
const BANK_LEN: usize = 0x4000;
/// The built-in RAM: 512 four-bit cells.
const RAM_LEN: usize = 512;

/// The mapper state of an MBC2 cartridge, plus its memories.
pub struct Mbc2View {
    pub rom: Seq<u8>,
    /// The four-bit ROM bank register.
    pub rom_bank: u8,
    pub ram: Seq<u8>,
    pub ram_enabled: bool,
    pub has_battery: bool,
}

impl Mbc2View {
    /// The ROM offset that `addr` (in `$0000`-`$7FFF`) reaches; bank 0 at
    /// `$4000` reads as bank 1.
    pub open spec fn rom_offset(self, addr: u16) -> int {
        if addr < 0x4000 {
            addr as int
        } else {
            let bank: int = if self.rom_bank == 0 { 1 } else { self.rom_bank as int };
            bank * 0x4000 + (addr - 0x4000)
        }
    }

    /// The RAM cell that `addr` (in `$A000`-`$BFFF`) reaches: the 512 cells
    /// repeat through the whole window.
    pub open spec fn ram_offset(self, addr: u16) -> int {
        (addr - 0xA000) % 512
    }

    /// What the cartridge answers at `addr`.
    pub open spec fn read(self, addr: u16) -> u8 {
        if addr <= 0x7FFF {
            byte_or_open_bus(self.rom, self.rom_offset(addr))
        } else if 0xA000 <= addr <= 0xBFFF && self.ram_enabled {
            byte_or_open_bus(self.ram, self.ram_offset(addr))
        } else {
            OPEN_BUS
        }
    }

    /// The cartridge after `value` is written at `addr`. In the ROM window,
    /// bit 8 of the address clear means RAM enable, set means ROM bank. RAM
    /// cells keep only the low nibble.
    pub open spec fn write(self, addr: u16, value: u8) -> Mbc2View {
        if addr <= 0x7FFF {
            if addr & 0x0100 == 0 {
                Mbc2View { ram_enabled: value & 0x0F == 0x0A, ..self }
            } else {
                Mbc2View { rom_bank: value & 0x0F, ..self }
            }
        } else if 0xA000 <= addr <= 0xBFFF && self.ram_enabled && self.ram_offset(addr) < self.ram.len() {
            Mbc2View { ram: self.ram.update(self.ram_offset(addr), value & 0x0F), ..self }
        } else {
            self
        }
    }
}

/// An MBC2 cartridge.
#[derive(Debug)]
pub struct Mbc2 {
    rom: Vec<u8>,
    rom_bank: u8,
    ram: Vec<u8>,
    ram_enabled: bool,
    has_battery: bool,
}

impl View for Mbc2 {
    type V = Mbc2View;

    closed spec fn view(&self) -> Mbc2View {
        Mbc2View {
            rom: self.rom@,
            rom_bank: self.rom_bank,
            ram: self.ram@,
            ram_enabled: self.ram_enabled,
            has_battery: self.has_battery,
        }
    }
}

impl Mbc2 {
    /// Builds an MBC2 cartridge for a ROM of `rom_banks` banks: bank
    /// register 1, RAM zeroed and disabled, no battery.
    ///
    /// # Errors
    ///
    /// [`CartridgeError::RomTooLarge`] when the ROM is longer than
    /// `rom_banks` banks.
    pub fn new(rom: Vec<u8>, rom_banks: usize) -> (r: Result<Self, CartridgeError>)
        requires
            rom_banks * 0x4000 <= usize::MAX,
        ensures
            r is Ok <==> rom@.len() <= rom_banks * 0x4000,
            r matches Err(e) ==> e == (CartridgeError::RomTooLarge { len: rom@.len() as usize }),
            r matches Ok(c) ==> ({
                let v = c@;
                &&& v.rom == rom@
                &&& v.rom_bank == 1
                &&& v.ram == Seq::new(512, |i: int| 0u8)
                &&& !v.ram_enabled
                &&& !v.has_battery
            }),
    {
        if rom.len() > rom_banks * BANK_LEN {
            return Err(CartridgeError::RomTooLarge { len: rom.len() });
        }

        let c = Self {
            rom,
            rom_bank: 0x01,
            ram: vec![0x00u8; RAM_LEN],
            ram_enabled: false,
            has_battery: false,
        };
        proof {
            assert(c@.ram =~= Seq::new(512, |i: int| 0u8));
        }
        Ok(c)
    }

    /// The same cartridge, with a battery keeping its RAM.
    pub fn with_battery(self) -> (r: Self)
        ensures
            r@ == (Mbc2View { has_battery: true, ..self@ }),
    {
        Self { has_battery: true, ..self }
    }

    fn rom_offset(&self, addr: u16) -> (r: usize)
        requires
            addr <= 0x7FFF,
        ensures
            r == self@.rom_offset(addr),
    {
        let addr = addr as usize;
        if addr < BANK_LEN {
            addr
        } else {
            let bank: usize = if self.rom_bank == 0 { 0x01 } else { self.rom_bank as usize };
            bank * BANK_LEN + (addr - BANK_LEN)
        }
    }

    fn ram_offset(&self, addr: u16) -> (r: usize)
        requires
            0xA000 <= addr <= 0xBFFF,
        ensures
            r == self@.ram_offset(addr),
    {
        ((addr as usize) - 0xA000) % RAM_LEN
    }
}

impl Cartridge for Mbc2 {
    open spec fn answer(&self, addr: u16) -> u8 {
        self@.read(addr)
    }

    open spec fn answer_after_write(&self, addr: u16, value: u8, at: u16) -> u8 {
        self@.write(addr, value).read(at)
    }

    open spec fn battery_ram_after_write(&self, addr: u16, value: u8) -> Option<Seq<u8>> {
        if self@.has_battery { Some(self@.write(addr, value).ram) } else { None }
    }

    open spec fn battery_ram(&self) -> Option<Seq<u8>> {
        if self@.has_battery { Some(self@.ram) } else { None }
    }

    fn read(&self, addr: u16) -> (r: u8)
        ensures
            r == self@.read(addr),
    {
        if addr <= 0x7FFF {
            let offset = self.rom_offset(addr);
            if offset < self.rom.len() { self.rom[offset] } else { OPEN_BUS }
        } else if 0xA000 <= addr && addr <= 0xBFFF && self.ram_enabled {
            let offset = self.ram_offset(addr);
            if offset < self.ram.len() { self.ram[offset] } else { OPEN_BUS }
        } else {
            OPEN_BUS
        }
    }

    fn write(&mut self, addr: u16, value: u8)
        ensures
            final(self)@ == old(self)@.write(addr, value),
    {
        if addr <= 0x7FFF {
            if addr & 0x0100 == 0 {
                self.ram_enabled = (value & 0x0F) == 0x0A;
            } else {
                self.rom_bank = value & 0x0F;
            }
        } else if 0xA000 <= addr && addr <= 0xBFFF && self.ram_enabled {
            let offset = self.ram_offset(addr);
            if offset < self.ram.len() {
                self.ram.set(offset, value & 0x0F);
            }
        }
    }

    fn ram_data(&self) -> (r: Option<&[u8]>)
        ensures
            r is Some <==> self@.has_battery,
            r matches Some(s) ==> s@ == self@.ram,
    {
        if self.has_battery {
            Some(self.ram.as_slice())
        } else {
            None
        }
    }

    fn load_ram(&mut self, data: &[u8])
        ensures
            final(self)@ == (Mbc2View { ram: loaded_ram(old(self)@.ram, data@), ..old(self)@ }),
    {
        copy_prefix(&mut self.ram, data);
    }
}

/// Enabled RAM keeps the low nibble of what is written to it, and its 512
/// cells repeat through the window: a write reads back at its address and
/// at every address 512 bytes away from it.
pub proof fn law_mbc2_ram_read_after_write(c: Mbc2View, addr: u16, other: u16, value: u8)
    requires
        0xA000 <= addr <= 0xBFFF,
        0xA000 <= other <= 0xBFFF,
        (other - addr) % 512 == 0,
        c.ram_enabled,
        c.ram.len() == 512,
    ensures
        c.write(addr, value).read(addr) == value & 0x0F,
        c.write(addr, value).read(other) == value & 0x0F,
{
}

/// No write reaches the ROM.
pub proof fn law_mbc2_rom_is_read_only(c: Mbc2View, addr: u16, value: u8)
    ensures
        c.write(addr, value).rom == c.rom,
{
}

/// The ROM bank register is four bits wide: after `v` is written at an
/// address of `$0000`-`$3FFF` with bit 8 set, `$4000 + o` reads byte `o` of
/// bank `v % 16` (0 read as 1), or `$FF` past the end of the ROM.
pub proof fn law_mbc2_rom_bank_select(c: Mbc2View, addr: u16, v: u8, o: u16)
    requires
        addr <= 0x3FFF,
        addr & 0x0100 != 0,
        o < 0x4000,
    ensures
        ({
            let bank: int = if v % 16 == 0 { 1 } else { (v % 16) as int };
            let i: int = bank * 0x4000 + o;
            c.write(addr, v).read((0x4000 + o) as u16) == if i < c.rom.len() { c.rom[i] } else { 0xFF }
        }),
{
    assert(v & 0x0F == v % 16) by (bit_vector);
}

/// RAM enable: a write at an address of `$0000`-`$3FFF` with bit 8 clear
/// enables the RAM exactly when the value's low nibble is `$A`; RAM cells
/// keep only the low nibble of what is written.
pub proof fn law_mbc2_ram_enable(c: Mbc2View, addr: u16, v: u8, a: u16)
    ensures
        addr <= 0x3FFF && addr & 0x0100 == 0 ==> c.write(addr, v) == (Mbc2View { ram_enabled: v % 16 == 10, ..c }),
        0xA000 <= a <= 0xBFFF && c.ram_enabled && (a - 0xA000) % 512 < c.ram.len() ==>
            c.write(a, v).read(a) == v % 16,
        0xA000 <= a <= 0xBFFF && !c.ram_enabled ==> c.read(a) == 0xFF,
{
    assert(v & 0x0F == v % 16) by (bit_vector);
}

} // verus!
