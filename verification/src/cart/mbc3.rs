//! MBC3: up to 2 MiB of ROM, up to 32 KiB of RAM in 8 KiB banks, and on some
//! cartridges a real-time clock whose five registers share the RAM window.
use vstd::prelude::*;

use super::{byte_or_open_bus, copy_prefix, loaded_ram, Cartridge, CartridgeError, OPEN_BUS};

verus! {

/// Length of one ROM bank.
const BANK_LEN: usize = 0x4000;
/// Length of one RAM bank.
const RAM_BANK_LEN: usize = 8 * 1024;

/// The mapper state of an MBC3 cartridge, plus its memories.
pub struct Mbc3View {
    pub rom: Seq<u8>,
    /// The seven-bit ROM bank register.
    pub rom_bank: u8,
    pub ram: Seq<u8>,
    pub ram_enabled: bool,
    /// `$4000`-`$5FFF`: `$00`-`$07` pick a RAM bank, `$08`-`$0C` a clock
    /// register.
    pub ram_rtc_select: u8,
    pub has_battery: bool,
    pub has_rtc: bool,
    /// Seconds, minutes, hours, day low, day high.
    pub rtc_registers: Seq<u8>,
    /// The last byte written to the latch range `$6000`-`$7FFF`.
    pub latch_previous: u8,
}

impl Mbc3View {
    /// The ROM offset that `addr` (in `$0000`-`$7FFF`) reaches; bank 0 at
    /// `$4000` reads as bank 1.
    pub open spec fn rom_offset(self, addr: u16) -> int {
        if addr < 0x4000 {
            addr as int
        } else {
            let bank: int = if self.rom_bank == 0 { 1 } else { self.rom_bank as int };
            bank * 0x4000 + (addr - 0x4000)
        }
    }

    /// The RAM offset that `addr` (in `$A000`-`$BFFF`) reaches: the selected
    /// bank wraps around the banks the RAM has.
    pub open spec fn ram_offset(self, addr: u16) -> int {
        let bank = (self.ram_rtc_select & 0x07) as int;
        let banks = self.ram.len() / 0x2000;
        let effective = if self.ram.len() == 0 || banks == 0 { 0 } else { bank % (banks as int) };
        effective * 0x2000 + (addr - 0xA000) % 0x2000
    }

    /// Whether the RAM window currently shows a clock register.
    pub open spec fn rtc_selected(self) -> bool {
        self.has_rtc && 0x08 <= self.ram_rtc_select <= 0x0C
    }

    /// What the cartridge answers at `addr`.
    pub open spec fn read(self, addr: u16) -> u8 {
        if addr <= 0x7FFF {
            byte_or_open_bus(self.rom, self.rom_offset(addr))
        } else if 0xA000 <= addr <= 0xBFFF && self.ram_enabled {
            if self.rtc_selected() {
                self.rtc_registers[self.ram_rtc_select - 8]
            } else if self.ram.len() > 0 {
                byte_or_open_bus(self.ram, self.ram_offset(addr))
            } else {
                OPEN_BUS
            }
        } else {
            OPEN_BUS
        }
    }

    /// The cartridge after `value` is written at `addr`.
    pub open spec fn write(self, addr: u16, value: u8) -> Mbc3View {
        if addr <= 0x1FFF {
            Mbc3View { ram_enabled: value & 0x0F == 0x0A, ..self }
        } else if addr <= 0x3FFF {
            Mbc3View { rom_bank: value & 0x7F, ..self }
        } else if addr <= 0x5FFF {
            Mbc3View { ram_rtc_select: value & 0x0F, ..self }
        } else if addr <= 0x7FFF {
            Mbc3View { latch_previous: value, ..self }
        } else if 0xA000 <= addr <= 0xBFFF && self.ram_enabled {
            if self.rtc_selected() {
                Mbc3View { rtc_registers: self.rtc_registers.update(self.ram_rtc_select - 8, value), ..self }
            } else if self.ram.len() > 0 && self.ram_offset(addr) < self.ram.len() {
                Mbc3View { ram: self.ram.update(self.ram_offset(addr), value), ..self }
            } else {
                self
            }
        } else {
            self
        }
    }
}

/// An MBC3 cartridge.
#[derive(Debug)]
pub struct Mbc3 {
    rom: Vec<u8>,
    rom_bank: u8,
    ram: Vec<u8>,
    ram_enabled: bool,
    ram_rtc_select: u8,
    has_battery: bool,
    has_rtc: bool,
    rtc_registers: [u8; 5],
    latch_previous: u8,
}

impl View for Mbc3 {
    type V = Mbc3View;

    closed spec fn view(&self) -> Mbc3View {
        Mbc3View {
            rom: self.rom@,
            rom_bank: self.rom_bank,
            ram: self.ram@,
            ram_enabled: self.ram_enabled,
            ram_rtc_select: self.ram_rtc_select,
            has_battery: self.has_battery,
            has_rtc: self.has_rtc,
            rtc_registers: self.rtc_registers@,
            latch_previous: self.latch_previous,
        }
    }
}

impl Mbc3 {
    /// Builds an MBC3 cartridge for a ROM of `rom_banks` banks and
    /// `ram_bytes` bytes of RAM: bank register 1, RAM disabled, clock
    /// registers zeroed, no battery and no clock.
    ///
    /// # Errors
    ///
    /// [`CartridgeError::RomTooLarge`] when the ROM is longer than
    /// `rom_banks` banks.
    pub fn new(rom: Vec<u8>, rom_banks: usize, ram_bytes: usize) -> (r: Result<Self, CartridgeError>)
        requires
            rom_banks * 0x4000 <= usize::MAX,
        ensures
            r is Ok <==> rom@.len() <= rom_banks * 0x4000,
            r matches Err(e) ==> e == (CartridgeError::RomTooLarge { len: rom@.len() as usize }),
            r matches Ok(c) ==> ({
                let v = c@;
                &&& v.rom == rom@
                &&& v.rom_bank == 1
                &&& v.ram == Seq::new(ram_bytes as nat, |i: int| 0u8)
                &&& !v.ram_enabled
                &&& v.ram_rtc_select == 0
                &&& !v.has_battery && !v.has_rtc
                &&& v.rtc_registers == Seq::new(5, |i: int| 0u8)
                &&& v.latch_previous == 0xFF
            }),
    {
        if rom.len() > rom_banks * BANK_LEN {
            return Err(CartridgeError::RomTooLarge { len: rom.len() });
        }

        let c = Self {
            rom,
            rom_bank: 0x01,
            ram: vec![0x00u8; ram_bytes],
            ram_enabled: false,
            ram_rtc_select: 0x00,
            has_battery: false,
            has_rtc: false,
            rtc_registers: [0u8; 5],
            latch_previous: 0xFF,
        };
        proof {
            assert(c@.ram =~= Seq::new(ram_bytes as nat, |i: int| 0u8));
            assert(c@.rtc_registers =~= Seq::new(5, |i: int| 0u8));
        }
        Ok(c)
    }

    /// The same cartridge, with a battery keeping its RAM.
    pub fn with_battery(self) -> (r: Self)
        ensures
            r@ == (Mbc3View { has_battery: true, ..self@ }),
    {
        Self { has_battery: true, ..self }
    }

    /// The same cartridge, with its real-time clock registers mapped.
    pub fn with_rtc(self) -> (r: Self)
        ensures
            r@ == (Mbc3View { has_rtc: true, ..self@ }),
    {
        Self { has_rtc: true, ..self }
    }

    fn rom_offset(&self, addr: u16) -> (r: usize)
        requires
            addr <= 0x7FFF,
        ensures
            r == self@.rom_offset(addr),
    {
        let addr = addr as usize;
        if addr < BANK_LEN {
            addr
        } else {
            let bank: usize = if self.rom_bank == 0 { 0x01 } else { self.rom_bank as usize };
            bank * BANK_LEN + (addr - BANK_LEN)
        }
    }

    fn ram_offset(&self, addr: u16) -> (r: usize)
        requires
            0xA000 <= addr <= 0xBFFF,
            self.ram@.len() <= usize::MAX,
        ensures
            r == self@.ram_offset(addr),
    {
        proof {
            super::lemma_and_bounds(self.ram_rtc_select, 0x07);
        }
        let bank = (self.ram_rtc_select & 0x07) as usize;
        let offset = (addr as usize) - 0xA000;
        let banks = self.ram.len() / RAM_BANK_LEN;
        let effective_bank = if self.ram.len() == 0 || banks == 0 { 0 } else { bank % banks };
        effective_bank * RAM_BANK_LEN + offset % RAM_BANK_LEN
    }

    fn rtc_select_active(&self) -> (r: bool)
        ensures
            r == self@.rtc_selected(),
    {
        self.has_rtc && 0x08 <= self.ram_rtc_select && self.ram_rtc_select <= 0x0C
    }
}

impl Cartridge for Mbc3 {
    open spec fn answer(&self, addr: u16) -> u8 {
        self@.read(addr)
    }

    open spec fn answer_after_write(&self, addr: u16, value: u8, at: u16) -> u8 {
        self@.write(addr, value).read(at)
    }

    open spec fn battery_ram_after_write(&self, addr: u16, value: u8) -> Option<Seq<u8>> {
        let w = self@.write(addr, value);
        if w.has_battery && w.ram.len() > 0 { Some(w.ram) } else { None }
    }

    open spec fn battery_ram(&self) -> Option<Seq<u8>> {
        if self@.has_battery && self@.ram.len() > 0 { Some(self@.ram) } else { None }
    }

    fn read(&self, addr: u16) -> (r: u8)
        ensures
            r == self@.read(addr),
    {
        if addr <= 0x7FFF {
            let offset = self.rom_offset(addr);
            if offset < self.rom.len() { self.rom[offset] } else { OPEN_BUS }
        } else if 0xA000 <= addr && addr <= 0xBFFF && self.ram_enabled {
            if self.rtc_select_active() {
                self.rtc_registers[(self.ram_rtc_select - 8) as usize]
            } else if self.ram.len() > 0 {
                let offset = self.ram_offset(addr);
                if offset < self.ram.len() { self.ram[offset] } else { OPEN_BUS }
            } else {
                OPEN_BUS
            }
        } else {
            OPEN_BUS
        }
    }

    fn write(&mut self, addr: u16, value: u8)
        ensures
            final(self)@ == old(self)@.write(addr, value),
    {
        if addr <= 0x1FFF {
            self.ram_enabled = (value & 0x0F) == 0x0A;
        } else if addr <= 0x3FFF {
            self.rom_bank = value & 0x7F;
        } else if addr <= 0x5FFF {
            self.ram_rtc_select = value & 0x0F;
        } else if addr <= 0x7FFF {
            self.latch_previous = value;
        } else if 0xA000 <= addr && addr <= 0xBFFF && self.ram_enabled {
            if self.rtc_select_active() {
                self.rtc_registers[(self.ram_rtc_select - 8) as usize] = value;
            } else if self.ram.len() > 0 {
                let offset = self.ram_offset(addr);
                if offset < self.ram.len() {
                    self.ram.set(offset, value);
                }
            }
        }
    }

    fn ram_data(&self) -> (r: Option<&[u8]>)
        ensures
            r is Some <==> (self@.has_battery && self@.ram.len() > 0),
            r matches Some(s) ==> s@ == self@.ram,
    {
        if self.has_battery && self.ram.len() > 0 {
            Some(self.ram.as_slice())
        } else {
            None
        }
    }

    fn load_ram(&mut self, data: &[u8])
        ensures
            final(self)@ == (Mbc3View { ram: loaded_ram(old(self)@.ram, data@), ..old(self)@ }),
    {
        copy_prefix(&mut self.ram, data);
    }
}

/// Enabled RAM keeps what is written to it while a RAM bank (not a clock
/// register) is selected.
pub proof fn law_mbc3_ram_read_after_write(c: Mbc3View, addr: u16, value: u8)
    requires
        0xA000 <= addr <= 0xBFFF,
        c.ram_enabled,
        !c.rtc_selected(),
        0 <= c.ram_offset(addr) < c.ram.len(),
    ensures
        c.write(addr, value).read(addr) == value,
{
}

/// A clock register selected in the RAM window keeps what is written to it.
pub proof fn law_mbc3_rtc_read_after_write(c: Mbc3View, addr: u16, value: u8)
    requires
        0xA000 <= addr <= 0xBFFF,
        c.ram_enabled,
        c.rtc_selected(),
        c.rtc_registers.len() == 5,
    ensures
        c.write(addr, value).read(addr) == value,
{
}

/// No write reaches the ROM.
pub proof fn law_mbc3_rom_is_read_only(c: Mbc3View, addr: u16, value: u8)
    ensures
        c.write(addr, value).rom == c.rom,
{
}

/// The ROM bank register is seven bits wide: after `v` is written at
/// `$2000`-`$3FFF`, `$4000 + o` reads byte `o` of bank `v % 128` (0 read as
/// 1), or `$FF` past the end of the ROM. E.g. with 128 banks, `$40` selects
/// bank 64.
pub proof fn law_mbc3_rom_bank_select(c: Mbc3View, addr: u16, v: u8, o: u16)
    requires
        0x2000 <= addr <= 0x3FFF,
        o < 0x4000,
    ensures
        ({
            let bank: int = if v % 128 == 0 { 1 } else { (v % 128) as int };
            let i: int = bank * 0x4000 + o;
            c.write(addr, v).read((0x4000 + o) as u16) == if i < c.rom.len() { c.rom[i] } else { 0xFF }
        }),
{
    assert(v & 0x7F == v % 128) by (bit_vector);
}

/// The control registers: a write at `$0000`-`$1FFF` enables RAM and the
/// clock exactly when the value's low nibble is `$A`; `$4000`-`$5FFF` keeps
/// the low nibble as the RAM bank / clock register select; `$6000`-`$7FFF`
/// only remembers the byte for the latch. No other state changes.
pub proof fn law_mbc3_control_registers(c: Mbc3View, addr: u16, v: u8)
    ensures
        addr <= 0x1FFF ==> c.write(addr, v) == (Mbc3View { ram_enabled: v % 16 == 10, ..c }),
        0x4000 <= addr <= 0x5FFF ==> c.write(addr, v) == (Mbc3View { ram_rtc_select: v % 16, ..c }),
        0x6000 <= addr <= 0x7FFF ==> c.write(addr, v) == (Mbc3View { latch_previous: v, ..c }),
{
    assert(v & 0x0F == v % 16) by (bit_vector);
}

/// What the RAM window shows while enabled: select `$08`-`$0C` on a
/// cartridge with a clock shows clock register `select - 8` (seconds,
/// minutes, hours, day low, day high); select `s` of `$00`-`$07` shows RAM
/// bank `s`, wrapped around the banks the RAM has. Disabled, it reads `$FF`.
pub proof fn law_mbc3_ram_window(c: Mbc3View, o: u16)
    requires
        o < 0x2000,
    ensures
        c.ram_enabled && c.has_rtc && 0x08 <= c.ram_rtc_select <= 0x0C ==>
            c.read((0xA000 + o) as u16) == c.rtc_registers[c.ram_rtc_select - 8],
        ({
            let banks = c.ram.len() / 0x2000;
            let s: int = (c.ram_rtc_select % 8) as int;
            let j: int = (if banks == 0 { 0 } else { s % (banks as int) }) * 0x2000 + o;
            c.ram_enabled && c.ram_rtc_select < 8 && c.ram.len() > 0 ==>
                c.read((0xA000 + o) as u16) == if j < c.ram.len() { c.ram[j] } else { 0xFF }
        }),
        !c.ram_enabled ==> c.read((0xA000 + o) as u16) == 0xFF,
{
    let sel = c.ram_rtc_select;
    assert(sel & 0x07 == sel % 8) by (bit_vector);
}

} // verus!
