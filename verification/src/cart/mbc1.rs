//! MBC1: up to 2 MiB of ROM in 16 KiB banks and up to 32 KiB of RAM in 8 KiB
//! banks, with a secondary two-bit register that either extends the ROM bank
//! number or selects the RAM bank, depending on the banking mode.
use vstd::prelude::*;

use super::{byte_or_open_bus, lemma_and_bounds, Cartridge, CartridgeError, OPEN_BUS};

verus! {

/// Length of one ROM bank.
const BANK_LEN: usize = 0x4000;
/// Length of one RAM bank.
const RAM_BANK_LEN: usize = 8 * 1024;

/// The mapper state of an MBC1 cartridge, plus its memories.
pub struct Mbc1View {
    pub rom: Seq<u8>,
    /// The five-bit ROM bank register (`$2000`-`$3FFF`).
    pub rom_bank: u8,
    /// Masks bank numbers down to the banks the ROM has.
    pub bank_mask: u8,
    pub ram: Seq<u8>,
    /// `$0000`-`$1FFF` received a value whose low nibble is `$A`.
    pub ram_enabled: bool,
    /// The two-bit secondary register (`$4000`-`$5FFF`).
    pub ram_bank: u8,
    /// `$6000`-`$7FFF`: `false` is mode 0, `true` is mode 1.
    pub banking_mode: bool,
}

/// Whether `mask` is `2^k - 1` for some `k >= 1`.
pub open spec fn is_low_mask(mask: u8) -> bool {
    mask == 1 || mask == 3 || mask == 7 || mask == 15 || mask == 31 || mask == 63 || mask == 127
        || mask == 255
}

impl Mbc1View {
    /// The bank mapped at `$4000`-`$7FFF`: the secondary register supplies
    /// bits 5-6, the ROM bank register bits 0-4 (with 0 read as 1), and the
    /// result is masked to the ROM's size.
    pub open spec fn effective_bank(self) -> u8 {
        let corrected: u8 = if self.rom_bank == 0 { 1 } else { self.rom_bank };
        (((self.ram_bank & 0x03) * 32 + corrected) as u8) & self.bank_mask
    }

    /// The ROM offset that `addr` (in `$0000`-`$7FFF`) reaches.
    pub open spec fn rom_offset(self, addr: u16) -> int {
        if addr < 0x4000 {
            if self.banking_mode {
                ((((self.ram_bank & 0x03) * 32) as u8) & self.bank_mask) * 0x4000 + addr
            } else {
                addr as int
            }
        } else {
            self.effective_bank() * 0x4000 + (addr - 0x4000)
        }
    }

    /// The RAM offset that `addr` (in `$A000`-`$BFFF`) reaches: mode 1 lets
    /// the secondary register pick the bank, mode 0 pins bank 0.
    pub open spec fn ram_offset(self, addr: u16) -> int {
        let bank = if self.banking_mode { (self.ram_bank & 0x03) as int } else { 0 };
        bank * 0x2000 + (addr - 0xA000)
    }

    /// What the cartridge answers at `addr`.
    pub open spec fn read(self, addr: u16) -> u8 {
        if addr <= 0x7FFF {
            byte_or_open_bus(self.rom, self.rom_offset(addr))
        } else if 0xA000 <= addr <= 0xBFFF && self.ram_enabled && self.ram.len() > 0 {
            byte_or_open_bus(self.ram, self.ram_offset(addr))
        } else {
            OPEN_BUS
        }
    }

    /// The cartridge after `value` is written at `addr`.
    pub open spec fn write(self, addr: u16, value: u8) -> Mbc1View {
        if addr <= 0x1FFF {
            Mbc1View { ram_enabled: value & 0x0F == 0x0A, ..self }
        } else if addr <= 0x3FFF {
            Mbc1View { rom_bank: value & 0x1F, ..self }
        } else if addr <= 0x5FFF {
            Mbc1View { ram_bank: value & 0x03, ..self }
        } else if addr <= 0x7FFF {
            Mbc1View { banking_mode: value & 0x01 != 0, ..self }
        } else if 0xA000 <= addr <= 0xBFFF && self.ram_enabled && self.ram.len() > 0
            && 0 <= self.ram_offset(addr) < self.ram.len() {
            Mbc1View { ram: self.ram.update(self.ram_offset(addr), value), ..self }
        } else {
            self
        }
    }
}

/// An MBC1 cartridge.
#[derive(Debug)]
pub struct Mbc1 {
    rom: Vec<u8>,
    rom_bank: u8,
    bank_mask: u8,
    ram: Vec<u8>,
    ram_enabled: bool,
    ram_bank: u8,
    banking_mode: bool,
}

impl View for Mbc1 {
    type V = Mbc1View;

    closed spec fn view(&self) -> Mbc1View {
        Mbc1View {
            rom: self.rom@,
            rom_bank: self.rom_bank,
            bank_mask: self.bank_mask,
            ram: self.ram@,
            ram_enabled: self.ram_enabled,
            ram_bank: self.ram_bank,
            banking_mode: self.banking_mode,
        }
    }
}

/// The smallest all-ones mask, at least one bit wide, that covers every bank
/// number below `rom_banks`; past 256 banks, all eight bits.
fn bank_mask_for(rom_banks: usize) -> (mask: u8)
    ensures
        is_low_mask(mask),
        mask >= rom_banks - 1 || mask == 255,
        mask == 1 || mask / 2 < rom_banks - 1,
{
    let mut mask: u8 = 1;
    while (mask as usize) + 1 < rom_banks && mask < 255
        invariant
            is_low_mask(mask),
            mask == 1 || mask / 2 < rom_banks - 1,
        decreases 255 - mask,
    {
        mask = mask * 2 + 1;
    }
    mask
}

impl Mbc1 {
    /// Builds an MBC1 cartridge for a ROM of `rom_banks` banks and
    /// `ram_bytes` bytes of RAM. The ROM bank register starts at 1, RAM
    /// disabled, mode 0.
    ///
    /// # Errors
    ///
    /// [`CartridgeError::RomTooLarge`] when the ROM is longer than
    /// `rom_banks` banks. The bank mask is the smallest that covers the
    /// banks (one bit for a single bank, all eight past 256).
    pub fn new(rom: Vec<u8>, rom_banks: usize, ram_bytes: usize) -> (r: Result<Self, CartridgeError>)
        requires
            rom_banks * 0x4000 <= usize::MAX,
        ensures
            r is Ok <==> rom@.len() <= rom_banks * 0x4000,
            r matches Err(e) ==> e == (CartridgeError::RomTooLarge { len: rom@.len() as usize }),
            r matches Ok(c) ==> ({
                let v = c@;
                &&& v.rom == rom@
                &&& v.rom_bank == 1
                &&& is_low_mask(v.bank_mask) && (v.bank_mask >= rom_banks - 1 || v.bank_mask == 255)
                &&& (v.bank_mask == 1 || v.bank_mask / 2 < rom_banks - 1)
                &&& v.ram == Seq::new(ram_bytes as nat, |i: int| 0u8)
                &&& !v.ram_enabled
                &&& v.ram_bank == 0
                &&& !v.banking_mode
            }),
    {
        if rom.len() > rom_banks * BANK_LEN {
            return Err(CartridgeError::RomTooLarge { len: rom.len() });
        }

        let bank_mask = bank_mask_for(rom_banks);
        let ram = vec![0x00u8; ram_bytes];

        let c = Self {
            rom,
            rom_bank: 0x01,
            bank_mask,
            ram,
            ram_enabled: false,
            ram_bank: 0x00,
            banking_mode: false,
        };
        proof {
            assert(c@.ram =~= Seq::new(ram_bytes as nat, |i: int| 0u8));
        }
        Ok(c)
    }

    fn rom_addr(&self, addr: u16) -> (r: usize)
        requires
            addr <= 0x7FFF,
        ensures
            r == self@.rom_offset(addr),
    {
        let addr = addr as usize;
        if addr < BANK_LEN {
            if self.banking_mode {
                proof {
                    lemma_and_bounds(self.ram_bank, 0x03);
                }
                let upper: u8 = ((self.ram_bank & 0x03) * 32) & self.bank_mask;
                (upper as usize) * BANK_LEN + addr
            } else {
                addr
            }
        } else {
            let bank = self.effective_bank();
            (bank as usize) * BANK_LEN + (addr - BANK_LEN)
        }
    }

    fn ram_addr(&self, addr: u16) -> (r: usize)
        requires
            0xA000 <= addr <= 0xBFFF,
        ensures
            r == self@.ram_offset(addr),
    {
        let offset = (addr as usize) - 0xA000;
        proof {
            lemma_and_bounds(self.ram_bank, 0x03);
        }
        let bank: usize = if self.banking_mode { (self.ram_bank & 0x03) as usize } else { 0 };
        bank * RAM_BANK_LEN + offset
    }

    fn effective_bank(&self) -> (r: u8)
        ensures
            r == self@.effective_bank(),
    {
        proof {
            lemma_and_bounds(self.ram_bank, 0x03);
        }
        let corrected: u8 = if self.rom_bank == 0 { 0x01 } else { self.rom_bank };
        let upper: u16 = (self.ram_bank & 0x03) as u16;
        let full: u16 = upper * 32 + (corrected as u16);
        (full as u8) & self.bank_mask
    }
}

impl Cartridge for Mbc1 {
    open spec fn answer(&self, addr: u16) -> u8 {
        self@.read(addr)
    }

    open spec fn answer_after_write(&self, addr: u16, value: u8, at: u16) -> u8 {
        self@.write(addr, value).read(at)
    }

    fn read(&self, addr: u16) -> (r: u8)
        ensures
            r == self@.read(addr),
    {
        if addr <= 0x7FFF {
            let offset = self.rom_addr(addr);
            if offset < self.rom.len() { self.rom[offset] } else { OPEN_BUS }
        } else if 0xA000 <= addr && addr <= 0xBFFF {
            if self.ram_enabled && self.ram.len() > 0 {
                let offset = self.ram_addr(addr);
                if offset < self.ram.len() { self.ram[offset] } else { OPEN_BUS }
            } else {
                OPEN_BUS
            }
        } else {
            OPEN_BUS
        }
    }

    fn write(&mut self, addr: u16, value: u8)
        ensures
            final(self)@ == old(self)@.write(addr, value),
    {
        if addr <= 0x1FFF {
            self.ram_enabled = (value & 0x0F) == 0x0A;
        } else if addr <= 0x3FFF {
            self.rom_bank = value & 0x1F;
        } else if addr <= 0x5FFF {
            self.ram_bank = value & 0x03;
        } else if addr <= 0x7FFF {
            self.banking_mode = (value & 0x01) != 0;
        } else if 0xA000 <= addr && addr <= 0xBFFF && self.ram_enabled && self.ram.len() > 0 {
            let offset = self.ram_addr(addr);
            if offset < self.ram.len() {
                self.ram.set(offset, value);
            }
        }
    }
}

/// Enabled RAM keeps what is written to it: a byte written in
/// `$A000`-`$BFFF` reads back at the same address.
pub proof fn law_mbc1_ram_read_after_write(c: Mbc1View, addr: u16, value: u8)
    requires
        0xA000 <= addr <= 0xBFFF,
        c.ram_enabled,
        0 <= c.ram_offset(addr) < c.ram.len(),
    ensures
        c.write(addr, value).read(addr) == value,
{
}

/// No write reaches the ROM, and with RAM disabled the RAM window reads
/// open bus and ignores writes.
pub proof fn law_mbc1_rom_is_read_only(c: Mbc1View, addr: u16, value: u8)
    ensures
        c.write(addr, value).rom == c.rom,
        !c.ram_enabled && 0xA000 <= addr <= 0xBFFF ==> c.read(addr) == OPEN_BUS && c.write(addr, value) == c,
{
}

/// The ROM bank register is five bits wide: after `v` is written at
/// `$2000`-`$3FFF`, `$4000 + o` reads byte `o` of bank `b`, where `b` is
/// `v % 32` (0 read as 1) with the secondary register as bits 5-6, masked to
/// the ROM's banks; past the end of the ROM it reads `$FF`. E.g. with 64
/// banks, `$10` selects bank 16.
pub proof fn law_mbc1_rom_bank_select(c: Mbc1View, addr: u16, v: u8, o: u16)
    requires
        0x2000 <= addr <= 0x3FFF,
        o < 0x4000,
    ensures
        ({
            let low: int = if v % 32 == 0 { 1 } else { (v % 32) as int };
            let bank: u8 = (((c.ram_bank % 4) * 32 + low) as u8) & c.bank_mask;
            let i: int = bank * 0x4000 + o;
            c.write(addr, v).read((0x4000 + o) as u16) == if i < c.rom.len() { c.rom[i] } else { 0xFF }
        }),
{
    assert(v & 0x1F == v % 32) by (bit_vector);
    let rb = c.ram_bank;
    assert(rb & 0x03 == rb % 4) by (bit_vector);
}

/// The secondary register is two bits wide and supplies bits 5-6 of the bank
/// at `$4000`-`$7FFF`: after `v` is written at `$4000`-`$5FFF`, `$4000 + o`
/// reads byte `o` of bank `(v % 4) * 32 + r` (the ROM bank register `r`, 0
/// read as 1), masked to the ROM's banks.
pub proof fn law_mbc1_upper_bank_bits(c: Mbc1View, addr: u16, v: u8, o: u16)
    requires
        0x4000 <= addr <= 0x5FFF,
        o < 0x4000,
    ensures
        ({
            let low: int = if c.rom_bank == 0 { 1 } else { c.rom_bank as int };
            let bank: u8 = (((v % 4) * 32 + low) as u8) & c.bank_mask;
            let i: int = bank * 0x4000 + o;
            c.write(addr, v).read((0x4000 + o) as u16) == if i < c.rom.len() { c.rom[i] } else { 0xFF }
        }),
{
    assert((v & 0x03) & 0x03 == v % 4) by (bit_vector);
}

/// The control registers: a write at `$0000`-`$1FFF` enables RAM exactly
/// when the value's low nibble is `$A`; `$4000`-`$5FFF` keeps the value's
/// low two bits; `$6000`-`$7FFF` selects mode 1 exactly when bit 0 is set.
/// No other state changes.
pub proof fn law_mbc1_control_registers(c: Mbc1View, addr: u16, v: u8)
    ensures
        addr <= 0x1FFF ==> c.write(addr, v) == (Mbc1View { ram_enabled: v % 16 == 10, ..c }),
        0x4000 <= addr <= 0x5FFF ==> c.write(addr, v) == (Mbc1View { ram_bank: v % 4, ..c }),
        0x6000 <= addr <= 0x7FFF ==> c.write(addr, v) == (Mbc1View { banking_mode: v % 2 == 1, ..c }),
{
    assert(v & 0x0F == v % 16 && v & 0x03 == v % 4 && (v & 0x01 != 0) == (v % 2 == 1)) by (bit_vector);
}

/// What the low ROM window and the RAM window show: in mode 0 the low window
/// is bank 0 and RAM is bank 0; in mode 1 the secondary register `s` picks
/// ROM bank `s * 32` (masked) for the low window and RAM bank `s`. Disabled
/// RAM reads `$FF`; anything past the end of a memory reads `$FF`.
pub proof fn law_mbc1_low_and_ram_windows(c: Mbc1View, o: u16)
    requires
        o < 0x2000,
    ensures
        ({
            let s = c.ram_bank % 4;
            let low_bank: int = if c.banking_mode { ((s * 32) as u8 & c.bank_mask) as int } else { 0 };
            let i = low_bank * 0x4000 + o;
            c.read(o) == if i < c.rom.len() { c.rom[i] } else { 0xFF }
        }),
        ({
            let s = c.ram_bank % 4;
            let j: int = (if c.banking_mode { s as int } else { 0 }) * 0x2000 + o;
            c.ram_enabled && c.ram.len() > 0 ==> c.read((0xA000 + o) as u16) == if j < c.ram.len() { c.ram[j] } else { 0xFF }
        }),
        !c.ram_enabled ==> c.read((0xA000 + o) as u16) == 0xFF,
{
    let rb = c.ram_bank;
    assert(rb & 0x03 == rb % 4) by (bit_vector);
}

} // verus!
