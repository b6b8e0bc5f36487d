//! MBC5: a nine-bit ROM bank number (up to 8 MiB) with no 0-to-1 translation,
//! and up to 16 RAM banks of 8 KiB. Rumble carts reuse bit 3 of the RAM bank
//! register for the motor; this emulator ignores the motor.
use vstd::prelude::*;

use super::{byte_or_open_bus, copy_prefix, loaded_ram, Cartridge, CartridgeError, OPEN_BUS};

verus! {

/// Length of one ROM bank.
const BANK_LEN: usize = 0x4000;
/// Length of one RAM bank.
const RAM_BANK_LEN: usize = 8 * 1024;

/// The mapper state of an MBC5 cartridge, plus its memories.
pub struct Mbc5View {
    pub rom: Seq<u8>,
    /// Bits 0-7 of the ROM bank number (`$2000`-`$2FFF`).
    pub rom_bank_low: u8,
    /// Bit 0 is bit 8 of the ROM bank number (`$3000`-`$3FFF`).
    pub rom_bank_high: u8,
    pub ram: Seq<u8>,
    /// The four-bit RAM bank register.
    pub ram_bank: u8,
    pub ram_enabled: bool,
    pub has_battery: bool,
}

impl Mbc5View {
    /// The nine-bit bank mapped at `$4000`-`$7FFF`; bank 0 is bank 0.
    pub open spec fn effective_rom_bank(self) -> int {
        self.rom_bank_low + (self.rom_bank_high % 2) * 256
    }

    /// The ROM offset that `addr` (in `$0000`-`$7FFF`) reaches.
    pub open spec fn rom_offset(self, addr: u16) -> int {
        if addr < 0x4000 {
            addr as int
        } else {
            self.effective_rom_bank() * 0x4000 + (addr - 0x4000)
        }
    }

    /// The RAM offset that `addr` (in `$A000`-`$BFFF`) reaches: the selected
    /// bank wraps around the banks the RAM has.
    pub open spec fn ram_offset(self, addr: u16) -> int {
        let banks = self.ram.len() / 0x2000;
        let effective = if self.ram.len() == 0 || banks == 0 { 0 } else { (self.ram_bank as int) % (banks as int) };
        effective * 0x2000 + (addr - 0xA000) % 0x2000
    }

    /// What the cartridge answers at `addr`.
    pub open spec fn read(self, addr: u16) -> u8 {
        if addr <= 0x7FFF {
            byte_or_open_bus(self.rom, self.rom_offset(addr))
        } else if 0xA000 <= addr <= 0xBFFF && self.ram_enabled && self.ram.len() > 0 {
            byte_or_open_bus(self.ram, self.ram_offset(addr))
        } else {
            OPEN_BUS
        }
    }

    /// The cartridge after `value` is written at `addr`.
    pub open spec fn write(self, addr: u16, value: u8) -> Mbc5View {
        if addr <= 0x1FFF {
            Mbc5View { ram_enabled: value & 0x0F == 0x0A, ..self }
        } else if addr <= 0x2FFF {
            Mbc5View { rom_bank_low: value, ..self }
        } else if addr <= 0x3FFF {
            Mbc5View { rom_bank_high: value, ..self }
        } else if addr <= 0x5FFF {
            Mbc5View { ram_bank: value & 0x0F, ..self }
        } else if 0xA000 <= addr <= 0xBFFF && self.ram_enabled && self.ram.len() > 0
            && self.ram_offset(addr) < self.ram.len() {
            Mbc5View { ram: self.ram.update(self.ram_offset(addr), value), ..self }
        } else {
            self
        }
    }
}

/// An MBC5 cartridge.
#[derive(Debug)]
pub struct Mbc5 {
    rom: Vec<u8>,
    rom_bank_low: u8,
    rom_bank_high: u8,
    ram: Vec<u8>,
    ram_bank: u8,
    ram_enabled: bool,
    has_battery: bool,
}

impl View for Mbc5 {
    type V = Mbc5View;

    closed spec fn view(&self) -> Mbc5View {
        Mbc5View {
            rom: self.rom@,
            rom_bank_low: self.rom_bank_low,
            rom_bank_high: self.rom_bank_high,
            ram: self.ram@,
            ram_bank: self.ram_bank,
            ram_enabled: self.ram_enabled,
            has_battery: self.has_battery,
        }
    }
}

impl Mbc5 {
    /// Builds an MBC5 cartridge for a ROM of `rom_banks` banks and
    /// `ram_bytes` bytes of RAM: ROM bank 1, RAM bank 0, RAM disabled, no
    /// battery.
    ///
    /// # Errors
    ///
    /// [`CartridgeError::RomTooLarge`] when the ROM is longer than
    /// `rom_banks` banks.
    pub fn new(rom: Vec<u8>, rom_banks: usize, ram_bytes: usize) -> (r: Result<Self, CartridgeError>)
        requires
            rom_banks * 0x4000 <= usize::MAX,
        ensures
            r is Ok <==> rom@.len() <= rom_banks * 0x4000,
            r matches Err(e) ==> e == (CartridgeError::RomTooLarge { len: rom@.len() as usize }),
            r matches Ok(c) ==> ({
                let v = c@;
                &&& v.rom == rom@
                &&& v.rom_bank_low == 1 && v.rom_bank_high == 0
                &&& v.ram == Seq::new(ram_bytes as nat, |i: int| 0u8)
                &&& v.ram_bank == 0
                &&& !v.ram_enabled
                &&& !v.has_battery
            }),
    {
        if rom.len() > rom_banks * BANK_LEN {
            return Err(CartridgeError::RomTooLarge { len: rom.len() });
        }

        let c = Self {
            rom,
            rom_bank_low: 0x01,
            rom_bank_high: 0x00,
            ram: vec![0x00u8; ram_bytes],
            ram_bank: 0x00,
            ram_enabled: false,
            has_battery: false,
        };
        proof {
            assert(c@.ram =~= Seq::new(ram_bytes as nat, |i: int| 0u8));
        }
        Ok(c)
    }

    /// The same cartridge, with a battery keeping its RAM.
    pub fn with_battery(self) -> (r: Self)
        ensures
            r@ == (Mbc5View { has_battery: true, ..self@ }),
    {
        Self { has_battery: true, ..self }
    }

    // The ROM bank is nine bits wide and bank 0 is not translated to 1.
    fn effective_rom_bank(&self) -> (r: usize)
        ensures
            r == self@.effective_rom_bank(),
    {
        (self.rom_bank_low as usize) + ((self.rom_bank_high % 2) as usize) * 256
    }

    fn rom_offset(&self, addr: u16) -> (r: usize)
        requires
            addr <= 0x7FFF,
        ensures
            r == self@.rom_offset(addr),
    {
        let addr = addr as usize;
        if addr < BANK_LEN {
            addr
        } else {
            self.effective_rom_bank() * BANK_LEN + (addr - BANK_LEN)
        }
    }

    fn ram_offset(&self, addr: u16) -> (r: usize)
        requires
            0xA000 <= addr <= 0xBFFF,
        ensures
            r == self@.ram_offset(addr),
    {
        let bank = self.ram_bank as usize;
        let offset = (addr as usize) - 0xA000;
        let banks = self.ram.len() / RAM_BANK_LEN;
        let effective_bank = if self.ram.len() == 0 || banks == 0 { 0 } else { bank % banks };
        effective_bank * RAM_BANK_LEN + offset % RAM_BANK_LEN
    }
}

impl Cartridge for Mbc5 {
    open spec fn answer(&self, addr: u16) -> u8 {
        self@.read(addr)
    }

    open spec fn answer_after_write(&self, addr: u16, value: u8, at: u16) -> u8 {
        self@.write(addr, value).read(at)
    }

    open spec fn battery_ram_after_write(&self, addr: u16, value: u8) -> Option<Seq<u8>> {
        let w = self@.write(addr, value);
        if w.has_battery && w.ram.len() > 0 { Some(w.ram) } else { None }
    }

    open spec fn battery_ram(&self) -> Option<Seq<u8>> {
        if self@.has_battery && self@.ram.len() > 0 { Some(self@.ram) } else { None }
    }

    fn read(&self, addr: u16) -> (r: u8)
        ensures
            r == self@.read(addr),
    {
        if addr <= 0x7FFF {
            let offset = self.rom_offset(addr);
            if offset < self.rom.len() { self.rom[offset] } else { OPEN_BUS }
        } else if 0xA000 <= addr && addr <= 0xBFFF && self.ram_enabled {
            if self.ram.len() > 0 {
                let offset = self.ram_offset(addr);
                if offset < self.ram.len() { self.ram[offset] } else { OPEN_BUS }
            } else {
                OPEN_BUS
            }
        } else {
            OPEN_BUS
        }
    }

    fn write(&mut self, addr: u16, value: u8)
        ensures
            final(self)@ == old(self)@.write(addr, value),
    {
        if addr <= 0x1FFF {
            self.ram_enabled = (value & 0x0F) == 0x0A;
        } else if addr <= 0x2FFF {
            self.rom_bank_low = value;
        } else if addr <= 0x3FFF {
            self.rom_bank_high = value;
        } else if addr <= 0x5FFF {
            self.ram_bank = value & 0x0F;
        } else if 0xA000 <= addr && addr <= 0xBFFF && self.ram_enabled && self.ram.len() > 0 {
            let offset = self.ram_offset(addr);
            if offset < self.ram.len() {
                self.ram.set(offset, value);
            }
        }
    }

    fn ram_data(&self) -> (r: Option<&[u8]>)
        ensures
            r is Some <==> (self@.has_battery && self@.ram.len() > 0),
            r matches Some(s) ==> s@ == self@.ram,
    {
        if self.has_battery && self.ram.len() > 0 {
            Some(self.ram.as_slice())
        } else {
            None
        }
    }

    fn load_ram(&mut self, data: &[u8])
        ensures
            final(self)@ == (Mbc5View { ram: loaded_ram(old(self)@.ram, data@), ..old(self)@ }),
    {
        copy_prefix(&mut self.ram, data);
    }
}

/// Enabled RAM keeps what is written to it.
pub proof fn law_mbc5_ram_read_after_write(c: Mbc5View, addr: u16, value: u8)
    requires
        0xA000 <= addr <= 0xBFFF,
        c.ram_enabled,
        0 <= c.ram_offset(addr) < c.ram.len(),
    ensures
        c.write(addr, value).read(addr) == value,
{
}

/// No write reaches the ROM.
pub proof fn law_mbc5_rom_is_read_only(c: Mbc5View, addr: u16, value: u8)
    ensures
        c.write(addr, value).rom == c.rom,
{
}

/// The ROM bank is nine bits: `$2000`-`$2FFF` takes all eight low bits and
/// `$3000`-`$3FFF` bit 8 from bit 0 of the value; bank 0 stays bank 0.
/// After such a write, `$4000 + o` reads byte `o` of that bank, or `$FF`
/// past the end of the ROM.
pub proof fn law_mbc5_rom_bank_select(c: Mbc5View, addr: u16, v: u8, o: u16)
    requires
        0x2000 <= addr <= 0x3FFF,
        o < 0x4000,
    ensures
        ({
            let bank: int = if addr <= 0x2FFF {
                v + 256 * (c.rom_bank_high % 2)
            } else {
                c.rom_bank_low + 256 * (v % 2)
            };
            let i: int = bank * 0x4000 + o;
            c.write(addr, v).read((0x4000 + o) as u16) == if i < c.rom.len() { c.rom[i] } else { 0xFF }
        }),
{
}

/// The RAM registers: a write at `$0000`-`$1FFF` enables RAM exactly when
/// the value's low nibble is `$A`, and `$4000`-`$5FFF` keeps the low nibble
/// as the RAM bank; enabled RAM shows that bank, wrapped around the banks
/// the RAM has, and disabled RAM reads `$FF`.
pub proof fn law_mbc5_ram_registers(c: Mbc5View, addr: u16, v: u8, o: u16)
    requires
        o < 0x2000,
    ensures
        addr <= 0x1FFF ==> c.write(addr, v) == (Mbc5View { ram_enabled: v % 16 == 10, ..c }),
        0x4000 <= addr <= 0x5FFF ==> c.write(addr, v) == (Mbc5View { ram_bank: v % 16, ..c }),
        ({
            let banks = c.ram.len() / 0x2000;
            let j: int = (if banks == 0 { 0 } else { (c.ram_bank as int) % (banks as int) }) * 0x2000 + o;
            c.ram_enabled && c.ram.len() > 0 ==>
                c.read((0xA000 + o) as u16) == if j < c.ram.len() { c.ram[j] } else { 0xFF }
        }),
        !c.ram_enabled ==> c.read((0xA000 + o) as u16) == 0xFF,
{
    assert(v & 0x0F == v % 16) by (bit_vector);
}

} // verus!
