//! The cartridge header, at `$0100`-`$014F`.
//!
//! Scope: title, cartridge type, ROM/RAM size and the header checksum. The
//! global checksum, the CGB/SGB flags, licensee, region and version are left
//! out on purpose.
use vstd::prelude::*;

verus! {

/// `$0134`-`$0143`: the title, upper-case ASCII padded with `$00`.
const TITLE_START: usize = 0x0134;
/// One past the last title byte.
const TITLE_END: usize = 0x0144;
/// `$0147`: which hardware the cartridge carries, first of all its mapper.
const CARTRIDGE_TYPE: usize = 0x0147;
/// `$0148`: ROM size.
const ROM_SIZE: usize = 0x0148;
/// `$0149`: size of the cartridge RAM, if any.
const RAM_SIZE: usize = 0x0149;
/// `$0134`-`$014C`: exactly the bytes the header checksum sums over.
const CHECKSUMMED_START: usize = 0x0134;
/// One past the last checksummed byte.
const CHECKSUMMED_END: usize = 0x014D;
/// `$014D`: the checksum the boot ROM checks before letting the game run.
const CHECKSUM: usize = 0x014D;

/// The shortest ROM that holds the whole header: `$014F` is its last byte.
pub const MIN_ROM_LEN: usize = 0x0150;

/// What keeps a byte slice from being a header.
#[derive(Debug, Clone, Copy, PartialEq, Eq)]
pub enum HeaderError {
    /// The ROM ends before `$014F`; `len` is the length it has.
    TooShort {
        /// Length of the slice received, in bytes.
        len: usize,
    },
}

/// `$0147`, the cartridge type, kept as its raw code.
///
/// A code outside the table of known types is not a parse error: the raw byte stays
/// available and only its name is missing.
#[derive(Debug, Clone, Copy, PartialEq, Eq)]
pub struct CartridgeType(u8);

/// `$0148`, the ROM size, kept as its raw code.
#[derive(Debug, Clone, Copy, PartialEq, Eq)]
pub struct RomSize(u8);

/// `$0149`, the cartridge RAM size, kept as its raw code.
#[derive(Debug, Clone, Copy, PartialEq, Eq)]
pub struct RamSize(u8);

/// `$014D`, both sides of it: the byte stored in the ROM and the one the boot
/// ROM computes from `$0134`-`$014C`.
#[derive(Debug, Clone, Copy, PartialEq, Eq)]
pub struct HeaderChecksum {
    stored: u8,
    computed: u8,
}

impl View for CartridgeType {
    type V = u8;

    closed spec fn view(&self) -> u8 {
        self.0
    }
}

impl View for RomSize {
    type V = u8;

    closed spec fn view(&self) -> u8 {
        self.0
    }
}

impl View for RamSize {
    type V = u8;

    closed spec fn view(&self) -> u8 {
        self.0
    }
}

impl View for HeaderChecksum {
    /// `(stored, computed)`.
    type V = (u8, u8);

    closed spec fn view(&self) -> (u8, u8) {
        (self.stored, self.computed)
    }
}

/// The name of a cartridge-type code, if the table of known types has it.
pub open spec fn cartridge_type_name(code: u8) -> Option<Seq<char>> {
    if code == 0x00 { Some("ROM ONLY"@) }
    else if code == 0x01 { Some("MBC1"@) }
    else if code == 0x02 { Some("MBC1+RAM"@) }
    else if code == 0x03 { Some("MBC1+RAM+BATTERY"@) }
    else if code == 0x05 { Some("MBC2"@) }
    else if code == 0x06 { Some("MBC2+BATTERY"@) }
    else if code == 0x08 { Some("ROM+RAM"@) }
    else if code == 0x09 { Some("ROM+RAM+BATTERY"@) }
    else if code == 0x0B { Some("MMM01"@) }
    else if code == 0x0C { Some("MMM01+RAM"@) }
    else if code == 0x0D { Some("MMM01+RAM+BATTERY"@) }
    else if code == 0x0F { Some("MBC3+TIMER+BATTERY"@) }
    else if code == 0x10 { Some("MBC3+TIMER+RAM+BATTERY"@) }
    else if code == 0x11 { Some("MBC3"@) }
    else if code == 0x12 { Some("MBC3+RAM"@) }
    else if code == 0x13 { Some("MBC3+RAM+BATTERY"@) }
    else if code == 0x19 { Some("MBC5"@) }
    else if code == 0x1A { Some("MBC5+RAM"@) }
    else if code == 0x1B { Some("MBC5+RAM+BATTERY"@) }
    else if code == 0x1C { Some("MBC5+RUMBLE"@) }
    else if code == 0x1D { Some("MBC5+RUMBLE+RAM"@) }
    else if code == 0x1E { Some("MBC5+RUMBLE+RAM+BATTERY"@) }
    else if code == 0x20 { Some("MBC6"@) }
    else if code == 0x22 { Some("MBC7+SENSOR+RUMBLE+RAM+BATTERY"@) }
    else if code == 0xFC { Some("POCKET CAMERA"@) }
    else if code == 0xFD { Some("BANDAI TAMA5"@) }
    else if code == 0xFE { Some("HuC3"@) }
    else if code == 0xFF { Some("HuC1+RAM+BATTERY"@) }
    else { None }
}

/// ROM size in bytes: `32 KiB << code` for codes `$00`-`$08`, nothing for the
/// rest (`$52`-`$54` included: only unofficial documents mention them).
pub open spec fn rom_size_bytes(code: u8) -> Option<u32> {
    if code <= 8 {
        Some((32768 * pow2_nat(code as nat)) as u32)
    } else {
        None
    }
}

/// `2^n`.
pub open spec fn pow2_nat(n: nat) -> nat
    decreases n,
{
    if n == 0 { 1 } else { 2 * pow2_nat((n - 1) as nat) }
}

/// RAM size in bytes, by table: it is not a formula (`$04` is 128 KiB and
/// `$05` 64 KiB), and `$01` has no attested size.
pub open spec fn ram_size_bytes(code: u8) -> Option<u32> {
    if code == 0x00 { Some(0u32) }
    else if code == 0x02 { Some(8192u32) }
    else if code == 0x03 { Some(32768u32) }
    else if code == 0x04 { Some(131072u32) }
    else if code == 0x05 { Some(65536u32) }
    else { None }
}

/// Sum of `rom[start..end]`, as a mathematical integer.
pub open spec fn byte_sum(rom: Seq<u8>, start: int, end: int) -> int
    decreases end - start,
{
    if end <= start {
        0
    } else {
        byte_sum(rom, start, end - 1) + rom[end - 1]
    }
}

/// The header checksum the boot ROM computes: starting from 0, subtract each
/// byte of `$0134`-`$014C` and one more, modulo 256. Equivalently, minus the
/// sum of the 25 bytes minus 25.
pub open spec fn header_checksum(rom: Seq<u8>) -> u8 {
    ((0 - byte_sum(rom, 0x0134, 0x014D) - 25) % 256) as u8
}

/// Whether a byte counts as title text: printable ASCII or the space.
pub open spec fn is_title_byte(b: u8) -> bool {
    0x20 <= b <= 0x7E
}

/// The length of the run of title bytes at the start of `field`.
pub open spec fn printable_prefix_len(field: Seq<u8>) -> nat
    decreases field.len(),
{
    if field.len() == 0 {
        0
    } else if is_title_byte(field[0]) {
        1 + printable_prefix_len(field.drop_first())
    } else {
        0
    }
}

/// The length of `field[..n]` once trailing spaces are dropped.
pub open spec fn trimmed_len(field: Seq<u8>, n: nat) -> nat
    decreases n,
{
    if n == 0 {
        0
    } else if field[n - 1] == 0x20 {
        trimmed_len(field, (n - 1) as nat)
    } else {
        n
    }
}

/// The title of a header: the leading run of printable ASCII in
/// `$0134`-`$0143`, without trailing spaces. The end of the field was taken
/// over by the manufacturer code and the CGB flag, so anything after the
/// first non-printable byte is ignored.
pub open spec fn header_title(rom: Seq<u8>) -> Seq<char> {
    let field = rom.subrange(0x0134, 0x0144);
    let n = trimmed_len(field, printable_prefix_len(field));
    Seq::new(n, |i: int| field[i] as char)
}

impl CartridgeType {
    /// The byte at `$0147`, as found in the ROM.
    pub fn code(self) -> (r: u8)
        ensures
            r == self@,
    {
        self.0
    }

    /// The table's name for this code, or `None` when the code is not in it.
    pub fn name(self) -> (r: Option<&'static str>)
        ensures
            r matches Some(s) ==> cartridge_type_name(self@) == Some(s@),
            r is None <==> cartridge_type_name(self@) is None,
    {
        match self.0 {
            0x00 => Some("ROM ONLY"),
            0x01 => Some("MBC1"),
            0x02 => Some("MBC1+RAM"),
            0x03 => Some("MBC1+RAM+BATTERY"),
            0x05 => Some("MBC2"),
            0x06 => Some("MBC2+BATTERY"),
            0x08 => Some("ROM+RAM"),
            0x09 => Some("ROM+RAM+BATTERY"),
            0x0B => Some("MMM01"),
            0x0C => Some("MMM01+RAM"),
            0x0D => Some("MMM01+RAM+BATTERY"),
            0x0F => Some("MBC3+TIMER+BATTERY"),
            0x10 => Some("MBC3+TIMER+RAM+BATTERY"),
            0x11 => Some("MBC3"),
            0x12 => Some("MBC3+RAM"),
            0x13 => Some("MBC3+RAM+BATTERY"),
            0x19 => Some("MBC5"),
            0x1A => Some("MBC5+RAM"),
            0x1B => Some("MBC5+RAM+BATTERY"),
            0x1C => Some("MBC5+RUMBLE"),
            0x1D => Some("MBC5+RUMBLE+RAM"),
            0x1E => Some("MBC5+RUMBLE+RAM+BATTERY"),
            0x20 => Some("MBC6"),
            0x22 => Some("MBC7+SENSOR+RUMBLE+RAM+BATTERY"),
            0xFC => Some("POCKET CAMERA"),
            0xFD => Some("BANDAI TAMA5"),
            0xFE => Some("HuC3"),
            0xFF => Some("HuC1+RAM+BATTERY"),
            _ => None,
        }
    }
}

impl RomSize {
    /// The size named by a raw `$0148` code.
    pub(crate) fn from_code(code: u8) -> (r: Self)
        ensures
            r@ == code,
    {
        RomSize(code)
    }

    /// The byte at `$0148`, as found in the ROM.
    pub fn code(self) -> (r: u8)
        ensures
            r == self@,
    {
        self.0
    }

    /// `32 KiB << code`, or `None` for a code outside the table.
    pub fn bytes(self) -> (r: Option<u32>)
        ensures
            r == rom_size_bytes(self@),
    {
        proof {
            lemma_rom_size_table();
        }
        if self.0 <= 8 {
            Some((32 * 1024u32) << self.0)
        } else {
            None
        }
    }

    /// How many 16 KiB banks the size gives; `None` for the same reason.
    pub fn banks(self) -> (r: Option<u16>)
        ensures
            r matches Some(b) ==> rom_size_bytes(self@) matches Some(n) && b == n / 16384,
            r is None <==> rom_size_bytes(self@) is None,
            r matches Some(b) ==> 2 <= b <= 512,
    {
        proof {
            lemma_rom_size_table();
        }
        match self.bytes() {
            // The largest case is 8 MiB = 512 banks, which fits a u16.
            Some(bytes) => Some((bytes / (16 * 1024)) as u16),
            None => None,
        }
    }
}

impl RamSize {
    /// The byte at `$0149`, as found in the ROM.
    pub fn code(self) -> (r: u8)
        ensures
            r == self@,
    {
        self.0
    }

    /// The size from the table, or `None` for a code with no known size.
    pub fn bytes(self) -> (r: Option<u32>)
        ensures
            r == ram_size_bytes(self@),
    {
        match self.0 {
            0x00 => Some(0),
            0x02 => Some(8 * 1024),
            0x03 => Some(32 * 1024),
            0x04 => Some(128 * 1024),
            0x05 => Some(64 * 1024),
            _ => None,
        }
    }
}

impl HeaderChecksum {
    /// The byte stored at `$014D`.
    pub fn stored(self) -> (r: u8)
        ensures
            r == self@.0,
    {
        self.stored
    }

    /// The byte the boot ROM would compute from `$0134`-`$014C`.
    pub fn computed(self) -> (r: u8)
        ensures
            r == self@.1,
    {
        self.computed
    }

    /// `true` when the boot ROM would let the cartridge run.
    pub fn is_valid(self) -> (r: bool)
        ensures
            r == (self@.0 == self@.1),
    {
        self.stored == self.computed
    }
}

/// The cartridge header, already interpreted. Built by
/// [`CartridgeHeader::parse`]; its fields do not change afterwards.
#[derive(Debug, Clone, PartialEq, Eq)]
pub struct CartridgeHeader {
    title: String,
    cartridge_type: CartridgeType,
    rom_size: RomSize,
    ram_size: RamSize,
    checksum: HeaderChecksum,
}

impl CartridgeHeader {
    /// The title, as characters.
    pub closed spec fn title_spec(&self) -> Seq<char> {
        self.title@
    }

    /// Whether this is the header that `rom` holds.
    pub open spec fn describes(&self, rom: Seq<u8>) -> bool {
        &&& self.title_spec() == header_title(rom)
        &&& self.cartridge_type_spec()@ == rom[0x0147]
        &&& self.rom_size_spec()@ == rom[0x0148]
        &&& self.ram_size_spec()@ == rom[0x0149]
        &&& self.checksum_spec()@ == (rom[0x014D], header_checksum(rom))
    }

    /// `$0147`, as a value.
    pub closed spec fn cartridge_type_spec(&self) -> CartridgeType {
        self.cartridge_type
    }

    /// `$0148`, as a value.
    pub closed spec fn rom_size_spec(&self) -> RomSize {
        self.rom_size
    }

    /// `$0149`, as a value.
    pub closed spec fn ram_size_spec(&self) -> RamSize {
        self.ram_size
    }

    /// `$014D`, as a value.
    pub closed spec fn checksum_spec(&self) -> HeaderChecksum {
        self.checksum
    }

    /// Reads the header out of a ROM's bytes.
    ///
    /// It fails only when the slice ends before `$014F`. A field with an
    /// unknown code is not an error: the raw code stays available.
    pub fn parse(rom: &[u8]) -> (r: Result<Self, HeaderError>)
        ensures
            r is Err <==> rom@.len() < MIN_ROM_LEN,
            r matches Err(e) ==> e == (HeaderError::TooShort { len: rom@.len() as usize }),
            r matches Ok(h) ==> h.describes(rom@),
    {
        if rom.len() < MIN_ROM_LEN {
            return Err(HeaderError::TooShort { len: rom.len() });
        }

        let title = parse_title(rom);
        let computed = compute_checksum(rom);
        Ok(Self {
            title,
            cartridge_type: CartridgeType(rom[CARTRIDGE_TYPE]),
            rom_size: RomSize(rom[ROM_SIZE]),
            ram_size: RamSize(rom[RAM_SIZE]),
            checksum: HeaderChecksum { stored: rom[CHECKSUM], computed },
        })
    }

    /// The title, without its padding and without the fields that took over
    /// the end of it.
    pub fn title(&self) -> (r: &str)
        ensures
            r@ == self.title_spec(),
    {
        self.title.as_str()
    }

    /// `$0147`, the cartridge type.
    pub fn cartridge_type(&self) -> (r: CartridgeType)
        ensures
            r == self.cartridge_type_spec(),
    {
        self.cartridge_type
    }

    /// `$0148`, the ROM size.
    pub fn rom_size(&self) -> (r: RomSize)
        ensures
            r == self.rom_size_spec(),
    {
        self.rom_size
    }

    /// `$0149`, the cartridge RAM size.
    pub fn ram_size(&self) -> (r: RamSize)
        ensures
            r == self.ram_size_spec(),
    {
        self.ram_size
    }

    /// `$014D`, the header checksum, stored and computed.
    pub fn checksum(&self) -> (r: HeaderChecksum)
        ensures
            r == self.checksum_spec(),
    {
        self.checksum
    }
}

/// Appends one character to a string.
#[verifier::external_body]
fn push_char(s: &mut String, c: char)
    ensures
        final(s)@ == old(s)@.push(c),
{
    s.push(c);
}

proof fn lemma_printable_prefix(field: Seq<u8>, i: int)
    requires
        0 <= i <= field.len(),
        forall|j: int| 0 <= j < i ==> is_title_byte(#[trigger] field[j]),
    ensures
        i < field.len() && !is_title_byte(field[i]) ==> printable_prefix_len(field) == i,
        i == field.len() ==> printable_prefix_len(field) == i,
    decreases i,
{
    if i > 0 {
        let rest = field.drop_first();
        assert forall|j: int| 0 <= j < i - 1 implies is_title_byte(#[trigger] rest[j]) by {
            assert(rest[j] == field[j + 1]);
        }
        lemma_printable_prefix(rest, i - 1);
    }
}

/// Extracts the title from the 16 bytes at `$0134`-`$0143`.
fn parse_title(rom: &[u8]) -> (r: String)
    requires
        rom@.len() >= MIN_ROM_LEN,
    ensures
        r@ == header_title(rom@),
{
    let ghost field = rom@.subrange(0x0134, 0x0144);
    let mut n: usize = TITLE_START;
    while n < TITLE_END && (0x20 <= rom[n] && rom[n] <= 0x7E)
        invariant
            TITLE_START <= n <= TITLE_END,
            rom@.len() >= MIN_ROM_LEN,
            field == rom@.subrange(0x0134, 0x0144),
            forall|j: int| 0 <= j < n - 0x0134 ==> is_title_byte(#[trigger] field[j]),
        decreases TITLE_END - n,
    {
        n = n + 1;
    }
    proof {
        lemma_printable_prefix(field, n - 0x0134);
    }
    let ghost printable = (n - 0x0134) as nat;
    let mut end: usize = n;
    while end > TITLE_START && rom[end - 1] == 0x20
        invariant
            TITLE_START <= end <= n <= TITLE_END,
            rom@.len() >= MIN_ROM_LEN,
            field == rom@.subrange(0x0134, 0x0144),
            printable == n - 0x0134,
            trimmed_len(field, printable) == trimmed_len(field, (end - 0x0134) as nat),
        decreases end,
    {
        end = end - 1;
    }
    let mut title = String::new();
    let mut i: usize = TITLE_START;
    while i < end
        invariant
            TITLE_START <= i <= end <= TITLE_END,
            rom@.len() >= MIN_ROM_LEN,
            field == rom@.subrange(0x0134, 0x0144),
            title@ == Seq::new((i - 0x0134) as nat, |k: int| field[k] as char),
        decreases end - i,
    {
        push_char(&mut title, rom[i] as char);
        i = i + 1;
        proof {
            assert(title@ =~= Seq::new((i - 0x0134) as nat, |k: int| field[k] as char));
        }
    }
    title
}

/// The header checksum of `$0134`-`$014C`, computed as the boot ROM does:
///
/// ```c
/// uint8_t checksum = 0;
/// for (uint16_t address = 0x0134; address <= 0x014C; address++) {
///     checksum = checksum - rom[address] - 1;
/// }
/// ```
fn compute_checksum(rom: &[u8]) -> (r: u8)
    requires
        rom@.len() >= MIN_ROM_LEN,
    ensures
        r == header_checksum(rom@),
{
    let mut acc: u8 = 0;
    let mut i: usize = CHECKSUMMED_START;
    while i < CHECKSUMMED_END
        invariant
            CHECKSUMMED_START <= i <= CHECKSUMMED_END,
            rom@.len() >= MIN_ROM_LEN,
            acc == (0 - byte_sum(rom@, 0x0134, i as int) - (i - 0x0134)) % 256,
        decreases CHECKSUMMED_END - i,
    {
        let ghost before = byte_sum(rom@, 0x0134, i as int);
        acc = acc.wrapping_sub(rom[i]).wrapping_sub(1);
        i = i + 1;
        proof {
            assert(byte_sum(rom@, 0x0134, i as int) == before + rom@[i - 1]);
            lemma_mod_sub_step(0 - before - (i - 1 - 0x0134), rom@[i - 1] as int);
        }
    }
    acc
}

/// Subtracting a byte and then one, each modulo 256, is subtracting their sum
/// modulo 256.
proof fn lemma_mod_sub_step(x: int, b: int)
    requires
        0 <= b < 256,
    ensures
        ({
            let step1 = (x % 256) - b;
            let w1 = if step1 < 0 { step1 + 256 } else { step1 };
            let step2 = w1 - 1;
            let w2 = if step2 < 0 { step2 + 256 } else { step2 };
            w2 == (x - b - 1) % 256
        }),
{
    vstd::arithmetic::div_mod::lemma_fundamental_div_mod(x, 256);
    vstd::arithmetic::div_mod::lemma_fundamental_div_mod(x - b - 1, 256);
}

/// The size table: `32 KiB << code` for codes 0 to 8.
proof fn lemma_rom_size_table()
    ensures
        rom_size_bytes(0) == Some(32768u32),
        rom_size_bytes(1) == Some(65536u32),
        rom_size_bytes(2) == Some(131072u32),
        rom_size_bytes(3) == Some(262144u32),
        rom_size_bytes(4) == Some(524288u32),
        rom_size_bytes(5) == Some(1048576u32),
        rom_size_bytes(6) == Some(2097152u32),
        rom_size_bytes(7) == Some(4194304u32),
        rom_size_bytes(8) == Some(8388608u32),
        forall|code: u8| code <= 8 ==> #[trigger] ((32768u32) << code) == (32768 * pow2_nat(code as nat)) as u32,
{
    reveal_with_fuel(pow2_nat, 9);
    lemma_shifted_sizes();
    assert forall|code: u8| code <= 8 implies #[trigger] ((32768u32) << code) == (32768 * pow2_nat(code as nat)) as u32 by {
        if code == 0 {} else if code == 1 {} else if code == 2 {} else if code == 3 {}
        else if code == 4 {} else if code == 5 {} else if code == 6 {} else if code == 7 {}
        else {}
    }
}

proof fn lemma_shifted_sizes()
    by (bit_vector)
    ensures
        (32768u32) << 0u8 == 32768u32,
        (32768u32) << 1u8 == 65536u32,
        (32768u32) << 2u8 == 131072u32,
        (32768u32) << 3u8 == 262144u32,
        (32768u32) << 4u8 == 524288u32,
        (32768u32) << 5u8 == 1048576u32,
        (32768u32) << 6u8 == 2097152u32,
        (32768u32) << 7u8 == 4194304u32,
        (32768u32) << 8u8 == 8388608u32,
{
}

/// The boot ROM's loop over `bytes`: starting from 0, each byte is
/// subtracted and then 1 more, wrapping around at 256.
pub open spec fn checksum_fold(bytes: Seq<u8>) -> u8
    decreases bytes.len(),
{
    if bytes.len() == 0 {
        0
    } else {
        ((checksum_fold(bytes.drop_last()) - bytes.last() - 1) % 256) as u8
    }
}

/// The fold over `rom[0x0134..end]` is minus the bytes' sum minus their
/// count, modulo 256.
proof fn lemma_checksum_fold_sum(rom: Seq<u8>, end: int)
    requires
        0x0134 <= end <= rom.len(),
    ensures
        checksum_fold(rom.subrange(0x0134, end)) == ((0 - byte_sum(rom, 0x0134, end) - (end - 0x0134)) % 256) as u8,
    decreases end,
{
    if end > 0x0134 {
        lemma_checksum_fold_sum(rom, end - 1);
        let part = rom.subrange(0x0134, end);
        assert(part.drop_last() =~= rom.subrange(0x0134, end - 1));
        let x = 0 - byte_sum(rom, 0x0134, end - 1) - (end - 1 - 0x0134);
        let y = rom[end - 1] as int + 1;
        assert(((x % 256) - y) % 256 == (x - y) % 256) by {
            vstd::arithmetic::div_mod::lemma_sub_mod_noop(x, y, 256);
            vstd::arithmetic::div_mod::lemma_sub_mod_noop(x % 256, y, 256);
            vstd::arithmetic::div_mod::lemma_mod_twice(x, 256);
        }
    } else {
        assert(rom.subrange(0x0134, end).len() == 0);
    }
}

/// The header checksum is the boot ROM's fold of wrapping subtractions over
/// `$0134`-`$014C`: `acc = acc - byte - 1` from 0. An all-zero header gives
/// `$E7`.
pub proof fn law_checksum_is_the_boot_rom_fold(rom: Seq<u8>)
    requires
        rom.len() >= 0x014D,
    ensures
        header_checksum(rom) == checksum_fold(rom.subrange(0x0134, 0x014D)),
{
    lemma_checksum_fold_sum(rom, 0x014D);
}

/// Changing the byte at `p` to `v` changes the sum of a range holding `p` by
/// the difference, and leaves any other range's sum alone.
proof fn lemma_byte_sum_update(rom: Seq<u8>, start: int, end: int, p: int, v: u8)
    requires
        0 <= start,
        end <= rom.len(),
        0 <= p < rom.len(),
    ensures
        start <= p < end ==> byte_sum(rom.update(p, v), start, end) == byte_sum(rom, start, end) - rom[p] + v,
        !(start <= p < end) ==> byte_sum(rom.update(p, v), start, end) == byte_sum(rom, start, end),
    decreases end - start,
{
    if end > start {
        lemma_byte_sum_update(rom, start, end - 1, p, v);
    }
}

/// A sealed header catches any one changed byte of `$0134`-`$014C`: the
/// checksum no longer matches `$014D`. A change outside `$0134`-`$014D`
/// keeps it matching, and a change of `$014D` itself matches only when the
/// byte stays as it was.
pub proof fn law_checksum_catches_one_changed_byte(rom: Seq<u8>, p: int, v: u8)
    requires
        rom.len() >= MIN_ROM_LEN,
        0 <= p < rom.len(),
        rom[0x014D] == header_checksum(rom),
    ensures
        0x0134 <= p <= 0x014C && v != rom[p] ==> header_checksum(rom.update(p, v)) != rom.update(p, v)[0x014D],
        (p < 0x0134 || p > 0x014D) ==> header_checksum(rom.update(p, v)) == rom.update(p, v)[0x014D],
        p == 0x014D ==> (header_checksum(rom.update(p, v)) == rom.update(p, v)[0x014D] <==> v == rom[p]),
{
    let r2 = rom.update(p, v);
    lemma_byte_sum_update(rom, 0x0134, 0x014D, p, v);
    if 0x0134 <= p <= 0x014C && v != rom[p] {
        let x = 0 - byte_sum(rom, 0x0134, 0x014D) - 25;
        let d = v - rom[p];
        assert(0 - byte_sum(r2, 0x0134, 0x014D) - 25 == x - d);
        vstd::arithmetic::div_mod::lemma_mod_equivalence(x, x - d, 256);
        assert(x - (x - d) == d);
        assert(d % 256 != 0) by {
            if d > 0 {
                vstd::arithmetic::div_mod::lemma_small_mod(d as nat, 256);
            } else {
                assert(d + 256 > 0);
                vstd::arithmetic::div_mod::lemma_small_mod((d + 256) as nat, 256);
                vstd::arithmetic::div_mod::lemma_add_mod_noop(d, 256, 256);
                vstd::arithmetic::div_mod::lemma_mod_self_0(256);
                vstd::arithmetic::div_mod::lemma_mod_twice(d, 256);
            }
        }
        assert(header_checksum(r2) != r2[0x014D]);
    }
}

/// `printable_prefix_len` is the longest run of title bytes at the start.
proof fn lemma_longest_printable_prefix(field: Seq<u8>)
    ensures
        printable_prefix_len(field) <= field.len(),
        forall|i: int| 0 <= i < printable_prefix_len(field) ==> is_title_byte(#[trigger] field[i]),
        printable_prefix_len(field) < field.len() ==> !is_title_byte(field[printable_prefix_len(field) as int]),
    decreases field.len(),
{
    if field.len() > 0 && is_title_byte(field[0]) {
        let rest = field.drop_first();
        lemma_longest_printable_prefix(rest);
        assert forall|i: int| 0 <= i < printable_prefix_len(field) implies is_title_byte(#[trigger] field[i]) by {
            if i > 0 {
                assert(field[i] == rest[i - 1]);
            }
        }
        if printable_prefix_len(field) < field.len() {
            assert(field[printable_prefix_len(field) as int] == rest[printable_prefix_len(rest) as int]);
        }
    }
}

/// `trimmed_len` drops exactly the trailing spaces of `field[..n]`.
proof fn lemma_trimmed(field: Seq<u8>, n: nat)
    requires
        n <= field.len(),
    ensures
        trimmed_len(field, n) <= n,
        trimmed_len(field, n) > 0 ==> field[trimmed_len(field, n) - 1] != 0x20,
        forall|i: int| trimmed_len(field, n) <= i < n ==> #[trigger] field[i] == 0x20,
    decreases n,
{
    if n > 0 && field[n - 1] == 0x20 {
        lemma_trimmed(field, (n - 1) as nat);
    }
}

/// The title is the longest prefix of `$0134`-`$0143` whose bytes all lie in
/// `$20`-`$7E`, read as ASCII, with its trailing spaces removed: each of its
/// characters is the field's byte, it ends on no space, and the field goes on
/// with spaces only up to the first byte that is no title byte (or the end).
pub proof fn law_title_is_the_printable_prefix(rom: Seq<u8>)
    requires
        rom.len() >= 0x0144,
    ensures
        ({
            let field = rom.subrange(0x0134, 0x0144);
            let title = header_title(rom);
            let n = printable_prefix_len(field);
            &&& title.len() <= n <= 16
            &&& forall|i: int| 0 <= i < title.len() ==> #[trigger] title[i] == field[i] as char
            &&& forall|i: int| 0 <= i < n ==> is_title_byte(#[trigger] field[i])
            &&& n < 16 ==> !is_title_byte(field[n as int])
            &&& title.len() > 0 ==> field[title.len() - 1] != 0x20
            &&& forall|i: int| title.len() <= i < n ==> #[trigger] field[i] == 0x20
        }),
{
    let field = rom.subrange(0x0134, 0x0144);
    lemma_longest_printable_prefix(field);
    lemma_trimmed(field, printable_prefix_len(field));
}

} // verus!
