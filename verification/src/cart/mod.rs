//! Cartridge: header, mappers and dispatch.

mod header;
mod mbc1;
mod mbc2;
mod mbc3;
mod mbc5;
mod nombc;

pub use header::{
    CartridgeHeader, CartridgeType, HeaderChecksum, HeaderError, MIN_ROM_LEN, RamSize, RomSize,
};
pub use header::{
    byte_sum, cartridge_type_name, checksum_fold, header_checksum, header_title, is_title_byte,
    law_checksum_catches_one_changed_byte, law_checksum_is_the_boot_rom_fold,
    law_title_is_the_printable_prefix, pow2_nat, printable_prefix_len, ram_size_bytes,
    rom_size_bytes, trimmed_len,
};
pub use mbc1::{is_low_mask, law_mbc1_ram_read_after_write, law_mbc1_rom_bank_select, law_mbc1_upper_bank_bits,
    law_mbc1_control_registers, law_mbc1_low_and_ram_windows, law_mbc1_rom_is_read_only, Mbc1, Mbc1View};
pub use mbc2::{law_mbc2_ram_read_after_write, law_mbc2_rom_bank_select, law_mbc2_ram_enable, law_mbc2_rom_is_read_only, Mbc2, Mbc2View};
pub use mbc3::{
    law_mbc3_ram_read_after_write, law_mbc3_rom_bank_select, law_mbc3_control_registers, law_mbc3_ram_window, law_mbc3_rom_is_read_only,
    law_mbc3_rtc_read_after_write, Mbc3, Mbc3View,
};
pub use mbc5::{law_mbc5_ram_read_after_write, law_mbc5_rom_bank_select, law_mbc5_ram_registers, law_mbc5_rom_is_read_only, Mbc5, Mbc5View};
pub use nombc::{nombc_read, NoMbc};

use vstd::prelude::*;

verus! {

/// Open bus: "often `$FF`, but not guaranteed". The value of a floating line.
pub const OPEN_BUS: u8 = 0xFF;

/// `$0147` codes this core can map.
const ROM_ONLY: u8 = 0x00;
const MBC1: u8 = 0x01;
const MBC1_RAM: u8 = 0x02;
const MBC1_RAM_BATTERY: u8 = 0x03;
const MBC2: u8 = 0x05;
const MBC2_BATTERY: u8 = 0x06;
const MBC3_TIMER_BATTERY: u8 = 0x0F;
const MBC3_TIMER_RAM_BATTERY: u8 = 0x10;
const MBC3: u8 = 0x11;
const MBC3_RAM: u8 = 0x12;
const MBC3_RAM_BATTERY: u8 = 0x13;
const MBC5: u8 = 0x19;
const MBC5_RAM: u8 = 0x1A;
const MBC5_RAM_BATTERY: u8 = 0x1B;
const MBC5_RUMBLE: u8 = 0x1C;
const MBC5_RUMBLE_RAM: u8 = 0x1D;
const MBC5_RUMBLE_RAM_BATTERY: u8 = 0x1E;

/// The cartridge as the bus sees it: two address windows, read and write.
///
/// `write` exists even on ROM-only cartridges (as a no-op): the bus does not
/// know which mapper it talks to. A cartridge with battery-backed RAM hands
/// it out through `ram_data` and takes a saved copy through `load_ram`.
///
/// Each cartridge describes itself through three spec functions: what it
/// answers at each address, what it would answer after taking a write, and
/// what it would hand out as battery RAM after that write. The defaults
/// describe a cartridge that drives nothing: open bus everywhere, writes
/// without effect, no battery RAM.
pub trait Cartridge {
    /// The byte the cartridge answers at `addr`, in its present state.
    open spec fn answer(&self, addr: u16) -> u8 {
        OPEN_BUS
    }

    /// What the cartridge answers at `at` once it has taken a write of
    /// `value` at `addr`.
    open spec fn answer_after_write(&self, addr: u16, value: u8, at: u16) -> u8 {
        self.answer(at)
    }

    /// The battery RAM the cartridge has once it has taken a write of `value`
    /// at `addr`.
    open spec fn battery_ram_after_write(&self, addr: u16, value: u8) -> Option<Seq<u8>> {
        self.battery_ram()
    }

    /// The byte the cartridge drives at `addr`.
    fn read(&self, addr: u16) -> (r: u8)
        ensures
            r == self.answer(addr),
    ;

    /// Delivers a write at `addr`: to a mapper register or to RAM.
    fn write(&mut self, addr: u16, value: u8)
        ensures
            forall|at: u16| #[trigger] final(self).answer(at) == old(self).answer_after_write(addr, value, at),
            final(self).battery_ram() == old(self).battery_ram_after_write(addr, value),
    ;

    /// The battery-backed RAM as a value: none, unless the cartridge says
    /// otherwise.
    open spec fn battery_ram(&self) -> Option<Seq<u8>> {
        None
    }

    /// The battery-backed RAM, if the cartridge has any: what it hands out
    /// is its battery RAM. A cartridge without one keeps this default, which
    /// hands out nothing.
    fn ram_data(&self) -> (r: Option<&[u8]>)
        ensures
            r matches Some(s) ==> self.battery_ram() == Some(s@),
        default_ensures
            r is None,
    {
        None
    }

    /// Overwrites the start of the RAM with saved data.
    fn load_ram(&mut self, _data: &[u8]) {
    }
}

/// Why a ROM could not be mounted.
#[derive(Debug, Clone, Copy, PartialEq, Eq)]
pub enum CartridgeError {
    /// The header could not be read.
    Header(HeaderError),
    /// `$0147` names hardware this core does not emulate.
    UnsupportedType { cartridge_type: CartridgeType },
    /// The ROM is longer than the capacity its mapper can address.
    RomTooLarge { len: usize },
}

impl From<HeaderError> for CartridgeError {
    fn from(error: HeaderError) -> (r: Self)
        ensures
            r == CartridgeError::Header(error),
    {
        Self::Header(error)
    }
}

impl vstd::std_specs::convert::FromSpecImpl<HeaderError> for CartridgeError {
    open spec fn obeys_from_spec() -> bool {
        true
    }

    open spec fn from_spec(v: HeaderError) -> Self {
        CartridgeError::Header(v)
    }
}

/// The byte at `index` of `mem`, or open bus past its end.
pub open spec fn byte_or_open_bus(mem: Seq<u8>, index: int) -> u8 {
    if 0 <= index < mem.len() { mem[index] } else { OPEN_BUS }
}

/// `ram` with its first bytes replaced by `data`, as far as both go.
pub open spec fn loaded_ram(ram: Seq<u8>, data: Seq<u8>) -> Seq<u8> {
    Seq::new(ram.len(), |i: int| if i < data.len() { data[i] } else { ram[i] })
}

/// Copies the common prefix of `src` into `dst`; `dst` keeps its length.
fn copy_prefix(dst: &mut Vec<u8>, src: &[u8])
    ensures
        final(dst)@ == loaded_ram(old(dst)@, src@),
{
    let len = if src.len() < dst.len() { src.len() } else { dst.len() };
    let mut i: usize = 0;
    while i < len
        invariant
            len <= src@.len(),
            len <= dst@.len(),
            dst@.len() == old(dst)@.len(),
            i <= len,
            forall|k: int| 0 <= k < i ==> dst@[k] == src@[k],
            forall|k: int| i <= k < dst@.len() ==> dst@[k] == old(dst)@[k],
        decreases len - i,
    {
        dst.set(i, src[i]);
        i = i + 1;
    }
    assert(dst@ =~= loaded_ram(old(dst)@, src@));
}

/// Bounds on a bitwise `and` of bytes.
pub proof fn lemma_and_bounds(x: u8, m: u8)
    by (bit_vector)
    ensures
        x & m <= m,
        x & m <= x,
{
}

/// A mounted cartridge, by mapper.
#[derive(Debug)]
pub enum Mapper {
    RomOnly(NoMbc),
    Mbc1(Mbc1),
    Mbc2(Mbc2),
    Mbc3(Mbc3),
    Mbc5(Mbc5),
}

impl Cartridge for Mapper {
    open spec fn battery_ram(&self) -> Option<Seq<u8>> {
        self.battery_ram_spec()
    }

    open spec fn answer(&self, addr: u16) -> u8 {
        self.read_spec(addr)
    }

    open spec fn answer_after_write(&self, addr: u16, value: u8, at: u16) -> u8 {
        match self {
            Mapper::RomOnly(c) => nombc_read(c@, at),
            Mapper::Mbc1(c) => c@.write(addr, value).read(at),
            Mapper::Mbc2(c) => c@.write(addr, value).read(at),
            Mapper::Mbc3(c) => c@.write(addr, value).read(at),
            Mapper::Mbc5(c) => c@.write(addr, value).read(at),
        }
    }

    open spec fn battery_ram_after_write(&self, addr: u16, value: u8) -> Option<Seq<u8>> {
        match self {
            Mapper::Mbc2(c) => if c@.has_battery { Some(c@.write(addr, value).ram) } else { None },
            Mapper::Mbc3(c) => {
                let w = c@.write(addr, value);
                if w.has_battery && w.ram.len() > 0 { Some(w.ram) } else { None }
            },
            Mapper::Mbc5(c) => {
                let w = c@.write(addr, value);
                if w.has_battery && w.ram.len() > 0 { Some(w.ram) } else { None }
            },
            _ => None,
        }
    }

    fn read(&self, addr: u16) -> (r: u8)
        ensures
            r == self.read_spec(addr),
    {
        match self {
            Mapper::RomOnly(c) => c.read(addr),
            Mapper::Mbc1(c) => c.read(addr),
            Mapper::Mbc2(c) => c.read(addr),
            Mapper::Mbc3(c) => c.read(addr),
            Mapper::Mbc5(c) => c.read(addr),
        }
    }

    fn write(&mut self, addr: u16, value: u8)
        ensures
            final(self).write_spec(*old(self), addr, value),
    {
        match self {
            Mapper::RomOnly(c) => c.write(addr, value),
            Mapper::Mbc1(c) => c.write(addr, value),
            Mapper::Mbc2(c) => c.write(addr, value),
            Mapper::Mbc3(c) => c.write(addr, value),
            Mapper::Mbc5(c) => c.write(addr, value),
        }
    }

    fn ram_data(&self) -> (r: Option<&[u8]>)
        ensures
            r is Some <==> self.battery_ram_spec() is Some,
            r matches Some(s) ==> self.battery_ram_spec() == Some(s@),
    {
        match self {
            Mapper::RomOnly(_) => None,
            Mapper::Mbc1(_) => None,
            Mapper::Mbc2(c) => c.ram_data(),
            Mapper::Mbc3(c) => c.ram_data(),
            Mapper::Mbc5(c) => c.ram_data(),
        }
    }

    fn load_ram(&mut self, data: &[u8])
        ensures
            final(self).load_ram_spec(*old(self), data@),
    {
        match self {
            Mapper::RomOnly(_) => {},
            Mapper::Mbc1(_) => {},
            Mapper::Mbc2(c) => c.load_ram(data),
            Mapper::Mbc3(c) => c.load_ram(data),
            Mapper::Mbc5(c) => c.load_ram(data),
        }
    }
}

impl Mapper {
    /// What the mounted cartridge answers at `addr`.
    pub open spec fn read_spec(&self, addr: u16) -> u8 {
        match self {
            Mapper::RomOnly(c) => nombc_read(c@, addr),
            Mapper::Mbc1(c) => c@.read(addr),
            Mapper::Mbc2(c) => c@.read(addr),
            Mapper::Mbc3(c) => c@.read(addr),
            Mapper::Mbc5(c) => c@.read(addr),
        }
    }

    /// Whether `self` is `before` after a write of `value` at `addr`: same
    /// mapper, with that mapper's write applied.
    pub open spec fn write_spec(&self, before: Mapper, addr: u16, value: u8) -> bool {
        match (before, *self) {
            (Mapper::RomOnly(b), Mapper::RomOnly(a)) => a@ == b@,
            (Mapper::Mbc1(b), Mapper::Mbc1(a)) => a@ == b@.write(addr, value),
            (Mapper::Mbc2(b), Mapper::Mbc2(a)) => a@ == b@.write(addr, value),
            (Mapper::Mbc3(b), Mapper::Mbc3(a)) => a@ == b@.write(addr, value),
            (Mapper::Mbc5(b), Mapper::Mbc5(a)) => a@ == b@.write(addr, value),
            _ => false,
        }
    }

    /// The battery-backed RAM the cartridge hands out, if any.
    pub open spec fn battery_ram_spec(&self) -> Option<Seq<u8>> {
        match self {
            Mapper::Mbc2(c) => if c@.has_battery { Some(c@.ram) } else { None },
            Mapper::Mbc3(c) => if c@.has_battery && c@.ram.len() > 0 { Some(c@.ram) } else { None },
            Mapper::Mbc5(c) => if c@.has_battery && c@.ram.len() > 0 { Some(c@.ram) } else { None },
            _ => None,
        }
    }

    /// Whether `self` is `before` after its RAM took in `data`.
    pub open spec fn load_ram_spec(&self, before: Mapper, data: Seq<u8>) -> bool {
        match (before, *self) {
            (Mapper::RomOnly(b), Mapper::RomOnly(a)) => a@ == b@,
            (Mapper::Mbc1(b), Mapper::Mbc1(a)) => a@ == b@,
            (Mapper::Mbc2(b), Mapper::Mbc2(a)) => a@ == (Mbc2View { ram: loaded_ram(b@.ram, data), ..b@ }),
            (Mapper::Mbc3(b), Mapper::Mbc3(a)) => a@ == (Mbc3View { ram: loaded_ram(b@.ram, data), ..b@ }),
            (Mapper::Mbc5(b), Mapper::Mbc5(a)) => a@ == (Mbc5View { ram: loaded_ram(b@.ram, data), ..b@ }),
            _ => false,
        }
    }
}

/// Whether a `$0147` code has cartridge RAM.
pub open spec fn type_has_ram(code: u8) -> bool {
    code == 0x02 || code == 0x03 || code == 0x10 || code == 0x12
        || code == 0x13 || code == 0x1A || code == 0x1B
        || code == 0x1D || code == 0x1E
}

/// Whether a `$0147` code is one of the MBC1 types.
pub open spec fn is_mbc1_type(code: u8) -> bool {
    code == 0x01 || code == 0x02 || code == 0x03
}

/// Bytes of cartridge RAM a mapper gets: none unless the type has RAM; for
/// one that has it, the header's size, with code `$00` read as one 8 KiB
/// bank and an unattested code as none.
pub open spec fn ram_bytes_spec(code: u8, ram_code: u8) -> nat {
    if !type_has_ram(code) {
        0
    } else if ram_code == 0 {
        8192
    } else {
        match ram_size_bytes(ram_code) {
            Some(b) => b as nat,
            None => 0,
        }
    }
}

/// ROM banks a mapper is built for: the header's count, or, for a size code
/// outside the table, as many whole banks as the ROM has (two if fewer).
pub open spec fn rom_bank_count_spec(size_code: u8, rom_len: nat) -> nat {
    match rom_size_bytes(size_code) {
        Some(b) => b as nat / 16384,
        None => if rom_len / 16384 == 0 { 2 } else { rom_len / 16384 },
    }
}

/// Whether a `$0147` code is one this core mounts.
pub open spec fn type_supported(code: u8) -> bool {
    code == 0x00 || is_mbc1_type(code) || code == 0x05 || code == 0x06
        || (0x0F <= code <= 0x13) || (0x19 <= code <= 0x1E)
}

/// The largest ROM the cartridge described by `rom`'s header can hold.
pub open spec fn rom_capacity(rom: Seq<u8>) -> nat {
    if rom[0x0147] == 0x00 { 32 * 1024 } else { rom_bank_count_spec(rom[0x0148], rom.len()) * 16384 }
}

/// Mounts the cartridge that `$0147` describes, as the mapper enum.
///
/// The header checksum is not judged: a wrong checksum mounts normally, since
/// it is the boot ROM, skipped here, that locks up on it. ROM+RAM (`$08`,
/// `$09`) is refused: its optional RAM has no documented behaviour.
pub fn load_mapper(rom: Vec<u8>) -> (r: Result<Mapper, CartridgeError>)
    ensures
        rom@.len() < MIN_ROM_LEN ==> r == Err::<Mapper, CartridgeError>(CartridgeError::Header(HeaderError::TooShort { len: rom@.len() as usize })),
        rom@.len() >= MIN_ROM_LEN && !type_supported(rom@[0x0147]) ==> (r matches Err(CartridgeError::UnsupportedType { cartridge_type }) && cartridge_type@ == rom@[0x0147]),
        rom@.len() >= MIN_ROM_LEN && type_supported(rom@[0x0147]) ==> {
            &&& r is Ok <==> rom@.len() <= rom_capacity(rom@)
            &&& r matches Err(e) ==> e == (CartridgeError::RomTooLarge { len: rom@.len() as usize })
        },
        r matches Ok(m) ==> mounted(m, rom@),
{
    let header = match CartridgeHeader::parse(rom.as_slice()) {
        Ok(header) => header,
        Err(error) => return Err(CartridgeError::Header(error)),
    };
    let cartridge_type = header.cartridge_type();
    let code = cartridge_type.code();
    let rom_banks = rom_bank_count(header.rom_size(), rom.len());
    let ram_bytes = ram_bytes_for(code, header.ram_size());

    if code == ROM_ONLY {
        match NoMbc::new(rom) {
            Ok(c) => Ok(Mapper::RomOnly(c)),
            Err(e) => Err(e),
        }
    } else if code == MBC1 || code == MBC1_RAM || code == MBC1_RAM_BATTERY {
        match Mbc1::new(rom, rom_banks, ram_bytes) {
            Ok(c) => Ok(Mapper::Mbc1(c)),
            Err(e) => Err(e),
        }
    } else if code == MBC2 || code == MBC2_BATTERY {
        match Mbc2::new(rom, rom_banks) {
            Ok(c) => Ok(Mapper::Mbc2(if code == MBC2_BATTERY { c.with_battery() } else { c })),
            Err(e) => Err(e),
        }
    } else if MBC3_TIMER_BATTERY <= code && code <= MBC3_RAM_BATTERY {
        match Mbc3::new(rom, rom_banks, ram_bytes) {
            Ok(c) => {
                let battery = code == MBC3_TIMER_BATTERY || code == MBC3_TIMER_RAM_BATTERY || code == MBC3_RAM_BATTERY;
                let rtc = code == MBC3_TIMER_BATTERY || code == MBC3_TIMER_RAM_BATTERY;
                let c = if battery { c.with_battery() } else { c };
                let c = if rtc { c.with_rtc() } else { c };
                Ok(Mapper::Mbc3(c))
            },
            Err(e) => Err(e),
        }
    } else if MBC5 <= code && code <= MBC5_RUMBLE_RAM_BATTERY {
        match Mbc5::new(rom, rom_banks, ram_bytes) {
            Ok(c) => {
                let battery = code == MBC5_RAM_BATTERY || code == MBC5_RUMBLE_RAM_BATTERY;
                Ok(Mapper::Mbc5(if battery { c.with_battery() } else { c }))
            },
            Err(e) => Err(e),
        }
    } else {
        Err(CartridgeError::UnsupportedType { cartridge_type })
    }
}

/// Whether `m` is the freshly mounted cartridge for `rom`: the mapper its
/// `$0147` names, built over the whole ROM with the bank count and RAM size
/// of its header, and battery and clock where the type has them.
pub open spec fn mounted(m: Mapper, rom: Seq<u8>) -> bool {
    let code = rom[0x0147];
    let banks = rom_bank_count_spec(rom[0x0148], rom.len());
    let ram = Seq::new(ram_bytes_spec(code, rom[0x0149]), |i: int| 0u8);
    match m {
        Mapper::RomOnly(c) => code == 0x00 && c@ == rom,
        Mapper::Mbc1(c) => {
            &&& is_mbc1_type(code)
            &&& c@.rom == rom && c@.rom_bank == 1 && c@.ram == ram
            &&& is_low_mask(c@.bank_mask) && (c@.bank_mask >= banks - 1 || c@.bank_mask == 255)
            &&& (c@.bank_mask == 1 || c@.bank_mask / 2 < banks - 1)
            &&& !c@.ram_enabled && c@.ram_bank == 0 && !c@.banking_mode
        },
        Mapper::Mbc2(c) => {
            &&& (code == 0x05 || code == 0x06)
            &&& c@.rom == rom && c@.rom_bank == 1 && c@.ram == Seq::new(512, |i: int| 0u8)
            &&& !c@.ram_enabled && c@.has_battery == (code == 0x06)
        },
        Mapper::Mbc3(c) => {
            &&& 0x0F <= code <= 0x13
            &&& c@.rom == rom && c@.rom_bank == 1 && c@.ram == ram
            &&& !c@.ram_enabled && c@.ram_rtc_select == 0 && c@.latch_previous == 0xFF
            &&& c@.rtc_registers == Seq::new(5, |i: int| 0u8)
            &&& c@.has_battery == (code == 0x0F || code == 0x10 || code == 0x13)
            &&& c@.has_rtc == (code == 0x0F || code == 0x10)
        },
        Mapper::Mbc5(c) => {
            &&& 0x19 <= code <= 0x1E
            &&& c@.rom == rom && c@.rom_bank_low == 1 && c@.rom_bank_high == 0 && c@.ram == ram
            &&& c@.ram_bank == 0 && !c@.ram_enabled
            &&& c@.has_battery == (code == 0x1B || code == 0x1E)
        },
    }
}

/// Mounts the cartridge that `$0147` describes, boxed for the bus: the
/// mapper that [`load_mapper`] gives. The box holds the mapper's own type,
/// so that what the cartridge answers stays stated; `Box<dyn Cartridge>`
/// takes it by coercion.
///
/// # Errors
///
/// The header's error, [`CartridgeError::UnsupportedType`] for a type this
/// core does not map, [`CartridgeError::RomTooLarge`] for a ROM past its
/// mapper's capacity.
pub fn load(rom: Vec<u8>) -> (r: Result<Box<Mapper>, CartridgeError>)
    ensures
        r is Ok <==> rom@.len() >= MIN_ROM_LEN && type_supported(rom@[0x0147]) && rom@.len() <= rom_capacity(rom@),
        rom@.len() < MIN_ROM_LEN ==> (r matches Err(CartridgeError::Header(HeaderError::TooShort { len })) && len == rom@.len() as usize),
        rom@.len() >= MIN_ROM_LEN && !type_supported(rom@[0x0147]) ==> (r matches Err(CartridgeError::UnsupportedType { cartridge_type }) && cartridge_type@ == rom@[0x0147]),
        rom@.len() >= MIN_ROM_LEN && type_supported(rom@[0x0147]) && rom@.len() > rom_capacity(rom@) ==> (r matches Err(CartridgeError::RomTooLarge { len }) && len == rom@.len() as usize),
        r matches Ok(b) ==> mounted(*b, rom@),
{
    match load_mapper(rom) {
        Ok(m) => Ok(Box::new(m)),
        Err(e) => Err(e),
    }
}

/// Bytes of RAM the mapper for `cart_type` gets (see [`ram_bytes_spec`]).
fn ram_bytes_for(cart_type: u8, ram_size: RamSize) -> (r: usize)
    ensures
        r == ram_bytes_spec(cart_type, ram_size@),
{
    if !(cart_type == MBC1_RAM || cart_type == MBC1_RAM_BATTERY || cart_type == MBC3_TIMER_RAM_BATTERY
        || cart_type == MBC3_RAM || cart_type == MBC3_RAM_BATTERY || cart_type == MBC5_RAM
        || cart_type == MBC5_RAM_BATTERY || cart_type == MBC5_RUMBLE_RAM
        || cart_type == MBC5_RUMBLE_RAM_BATTERY) {
        return 0;
    }
    if ram_size.code() == 0x00 {
        return 8192;
    }
    match ram_size.bytes() {
        Some(b) => b as usize,
        None => 0,
    }
}

/// ROM banks the mapper is built for (see [`rom_bank_count_spec`]).
fn rom_bank_count(rom_size: RomSize, rom_len: usize) -> (r: usize)
    ensures
        r == rom_bank_count_spec(rom_size@, rom_len as nat),
        r <= 512 || r <= rom_len / 16384,
        r >= 1,
{
    match rom_size.banks() {
        Some(b) => b as usize,
        None => {
            let banks = rom_len / 0x4000;
            if banks == 0 { 2 } else { banks }
        },
    }
}

} // verus!
