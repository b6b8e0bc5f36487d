//! The SM83 register file: eight 8-bit registers, four of which pair up into
//! 16-bit registers, plus `SP` and `PC`.
//!
//! ```text
//! 16-bit |Hi |Lo | Name/Function
//! -------|---|---|--------------
//!    AF  | A | - | Accumulator & Flags
//!    BC  | B | C | BC
//!    DE  | D | E | DE
//!    HL  | H | L | HL
//!    SP  | - | - | Stack Pointer
//!    PC  | - | - | Program Counter/Pointer
//! ```
//!
//! `F` is only ever read or written whole (through `AF`) or one flag at a
//! time (through [`Flag`]).
use vstd::prelude::*;

use crate::cart::HeaderChecksum;

verus! {

/// One of the four SM83 flags, living in the high nibble of `F`.
///
/// ```text
/// Bit | Name | Explanation
/// ----|------|-------
///   7 |   z  | Zero flag
///   6 |   n  | Subtraction flag (BCD)
///   5 |   h  | Half Carry flag (BCD)
///   4 |   c  | Carry flag
/// ```
#[derive(Debug, Clone, Copy, PartialEq, Eq, Hash)]
pub enum Flag {
    /// Bit 7: the result was zero.
    Z,
    /// Bit 6: the previous operation was a subtraction. Only `DAA` reads it.
    N,
    /// Bit 5: carry out of the low nibble. Only `DAA` reads it.
    H,
    /// Bit 4: carry/borrow out of 8 (or 16) bits.
    C,
}

/// The bit of `F` that holds `flag`, as a mask.
pub open spec fn flag_mask(flag: Flag) -> u8 {
    match flag {
        Flag::Z => 0x80,
        Flag::N => 0x40,
        Flag::H => 0x20,
        Flag::C => 0x10,
    }
}

/// Whether `flag` is set in the flag byte `f`.
pub open spec fn flag_in(f: u8, flag: Flag) -> bool {
    f & flag_mask(flag) != 0
}

/// `f` with `flag` forced to `on` and the other seven bits untouched.
pub open spec fn with_flag(f: u8, flag: Flag, on: bool) -> u8 {
    if on {
        f | flag_mask(flag)
    } else {
        f & !flag_mask(flag)
    }
}

/// `f` with all four flags replaced, in the order `Z`, `N`, `H`, `C`; the
/// low nibble of `f` is carried over unchanged.
pub open spec fn with_flags(f: u8, z: bool, n: bool, h: bool, c: bool) -> u8 {
    with_flag(with_flag(with_flag(with_flag(f, Flag::Z, z), Flag::N, n), Flag::H, h), Flag::C, c)
}

/// The 16-bit value with `high` in the upper byte and `low` in the lower one.
pub open spec fn pair_spec(high: u8, low: u8) -> u16 {
    (high as int * 256 + low as int) as u16
}

impl Flag {
    /// The bit of this flag inside `F`, already as a mask.
    fn mask(self) -> (m: u8)
        ensures
            m == flag_mask(self),
    {
        match self {
            Self::Z => 0b1000_0000,
            Self::N => 0b0100_0000,
            Self::H => 0b0010_0000,
            Self::C => 0b0001_0000,
        }
    }
}

/// Builds a 16-bit pair from its two halves.
fn pair(high: u8, low: u8) -> (r: u16)
    ensures
        r == pair_spec(high, low),
{
    (high as u16) * 256 + (low as u16)
}

/// Splits a 16-bit pair into `(high, low)`.
fn split(value: u16) -> (r: (u8, u8))
    ensures
        r.0 == value / 256,
        r.1 == value % 256,
        pair_spec(r.0, r.1) == value,
{
    ((value / 256) as u8, (value % 256) as u8)
}

/// The SM83 registers.
///
/// The fields are public on purpose: this is a register bank, not an
/// invariant to protect. The 16-bit pairs are methods because there *is*
/// computation there.
///
/// The all-zero state is not the DMG's post-boot state; that one is
/// [`Registers::after_boot_rom`].
#[derive(Debug, Clone, Copy, PartialEq, Eq)]
pub struct Registers {
    /// Accumulator, the implicit destination of nearly all 8-bit ALU work.
    pub a: u8,
    /// Flags. Bits 7-4 are [`Flag`]; bits 3-0 are carried as written.
    pub f: u8,
    /// `B`, high byte of `BC`.
    pub b: u8,
    /// `C`, low byte of `BC`.
    pub c: u8,
    /// `D`, high byte of `DE`.
    pub d: u8,
    /// `E`, low byte of `DE`.
    pub e: u8,
    /// `H`, high byte of `HL`.
    pub h: u8,
    /// `L`, low byte of `HL`.
    pub l: u8,
    /// Stack pointer. It has no addressable halves.
    pub sp: u16,
    /// Program counter. It has no addressable halves.
    pub pc: u16,
}

impl Default for Registers {
    fn default() -> (r: Self)
        ensures
            r.a == 0 && r.f == 0 && r.b == 0 && r.c == 0 && r.d == 0,
            r.e == 0 && r.h == 0 && r.l == 0 && r.sp == 0 && r.pc == 0,
    {
        Registers { a: 0, f: 0, b: 0, c: 0, d: 0, e: 0, h: 0, l: 0, sp: 0, pc: 0 }
    }
}

impl Registers {
    /// The value of `flag` in `F`.
    pub open spec fn flag_spec(self, flag: Flag) -> bool {
        flag_in(self.f, flag)
    }

    /// The value of `HL`.
    pub open spec fn hl_spec(self) -> u16 {
        pair_spec(self.h, self.l)
    }

    /// The registers the DMG boot ROM leaves behind when it hands control to
    /// the cartridge at `PC = $0100`.
    ///
    /// Every register is a literal of the DMG column except `F`: the carry and
    /// half-carry flags are clear when the header checksum stored at `$014D`
    /// is `$00` and set otherwise; `Z` is set and `N` clear. The low nibble of
    /// `F` comes out zero.
    pub fn after_boot_rom(checksum: HeaderChecksum) -> (regs: Self)
        ensures
            regs.a == 0x01 && regs.b == 0x00 && regs.c == 0x13 && regs.d == 0x00,
            regs.e == 0xD8 && regs.h == 0x01 && regs.l == 0x4D,
            regs.sp == 0xFFFE && regs.pc == 0x0100,
            regs.f == with_flags(0, true, false, checksum@.0 != 0, checksum@.0 != 0),
    {
        let carries = checksum.stored() != 0;

        let mut regs = Self {
            a: 0x01,
            f: 0,
            b: 0x00,
            c: 0x13,
            d: 0x00,
            e: 0xD8,
            h: 0x01,
            l: 0x4D,
            // Top of HRAM: the stack grows down from here.
            sp: 0xFFFE,
            // The cartridge entry point.
            pc: 0x0100,
        };

        regs.set_flag(Flag::Z, true);
        regs.set_flag(Flag::N, false);
        regs.set_flag(Flag::H, carries);
        regs.set_flag(Flag::C, carries);

        regs
    }

    /// `AF`: `A` in the high byte, `F` in the low one.
    pub fn af(&self) -> (r: u16)
        ensures
            r == pair_spec(self.a, self.f),
    {
        pair(self.a, self.f)
    }

    /// `BC`: `B` in the high byte, `C` in the low one.
    pub fn bc(&self) -> (r: u16)
        ensures
            r == pair_spec(self.b, self.c),
    {
        pair(self.b, self.c)
    }

    /// `DE`: `D` in the high byte, `E` in the low one.
    pub fn de(&self) -> (r: u16)
        ensures
            r == pair_spec(self.d, self.e),
    {
        pair(self.d, self.e)
    }

    /// `HL`: `H` in the high byte, `L` in the low one.
    pub fn hl(&self) -> (r: u16)
        ensures
            r == self.hl_spec(),
    {
        pair(self.h, self.l)
    }

    /// Writes `AF` without masking `F`: all eight bits are kept.
    pub fn set_af(&mut self, value: u16)
        ensures
            final(self).a == value / 256,
            final(self).f == value % 256,
            pair_spec(final(self).a, final(self).f) == value,
            final(self).b == old(self).b && final(self).c == old(self).c,
            final(self).d == old(self).d && final(self).e == old(self).e,
            final(self).h == old(self).h && final(self).l == old(self).l,
            final(self).sp == old(self).sp && final(self).pc == old(self).pc,
    {
        let (high, low) = split(value);
        self.a = high;
        self.f = low;
    }

    /// Writes `BC`, splitting it into its halves.
    pub fn set_bc(&mut self, value: u16)
        ensures
            final(self).b == value / 256,
            final(self).c == value % 256,
            pair_spec(final(self).b, final(self).c) == value,
            final(self).a == old(self).a && final(self).f == old(self).f,
            final(self).d == old(self).d && final(self).e == old(self).e,
            final(self).h == old(self).h && final(self).l == old(self).l,
            final(self).sp == old(self).sp && final(self).pc == old(self).pc,
    {
        let (high, low) = split(value);
        self.b = high;
        self.c = low;
    }

    /// Writes `DE`, splitting it into its halves.
    pub fn set_de(&mut self, value: u16)
        ensures
            final(self).d == value / 256,
            final(self).e == value % 256,
            pair_spec(final(self).d, final(self).e) == value,
            final(self).a == old(self).a && final(self).f == old(self).f,
            final(self).b == old(self).b && final(self).c == old(self).c,
            final(self).h == old(self).h && final(self).l == old(self).l,
            final(self).sp == old(self).sp && final(self).pc == old(self).pc,
    {
        let (high, low) = split(value);
        self.d = high;
        self.e = low;
    }

    /// Writes `HL`, splitting it into its halves.
    pub fn set_hl(&mut self, value: u16)
        ensures
            final(self).h == value / 256,
            final(self).l == value % 256,
            final(self).hl_spec() == value,
            final(self).a == old(self).a && final(self).f == old(self).f,
            final(self).b == old(self).b && final(self).c == old(self).c,
            final(self).d == old(self).d && final(self).e == old(self).e,
            final(self).sp == old(self).sp && final(self).pc == old(self).pc,
    {
        let (high, low) = split(value);
        self.h = high;
        self.l = low;
    }

    /// Reads one flag of `F`.
    pub fn flag(&self, flag: Flag) -> (r: bool)
        ensures
            r == self.flag_spec(flag),
    {
        self.f & flag.mask() != 0
    }

    /// Sets or clears one flag, leaving the other seven bits of `F` alone.
    pub fn set_flag(&mut self, flag: Flag, on: bool)
        ensures
            final(self).f == with_flag(old(self).f, flag, on),
            final(self).a == old(self).a,
            final(self).b == old(self).b && final(self).c == old(self).c,
            final(self).d == old(self).d && final(self).e == old(self).e,
            final(self).h == old(self).h && final(self).l == old(self).l,
            final(self).sp == old(self).sp && final(self).pc == old(self).pc,
    {
        let mask = flag.mask();
        if on {
            self.f = self.f | mask;
        } else {
            self.f = self.f & !mask;
        }
    }
}

/// Writing a flag and reading it back gives what was written, and the other
/// three flags and the low nibble of `F` are not disturbed.
pub proof fn lemma_with_flag(f: u8, flag: Flag, on: bool)
    ensures
        flag_in(with_flag(f, flag, on), flag) == on,
        forall|other: Flag| other != flag ==> flag_in(with_flag(f, flag, on), other) == flag_in(f, other),
        with_flag(f, flag, on) & 0x0F == f & 0x0F,
{
    lemma_flag_bits(f);
}

/// Replacing all four flags at once: each one reads back as given, and the
/// low nibble of `F` is carried over.
pub proof fn lemma_with_flags(f: u8, z: bool, n: bool, h: bool, c: bool)
    ensures
        flag_in(with_flags(f, z, n, h, c), Flag::Z) == z,
        flag_in(with_flags(f, z, n, h, c), Flag::N) == n,
        flag_in(with_flags(f, z, n, h, c), Flag::H) == h,
        flag_in(with_flags(f, z, n, h, c), Flag::C) == c,
        with_flags(f, z, n, h, c) & 0x0F == f & 0x0F,
{
    let f1 = with_flag(f, Flag::Z, z);
    let f2 = with_flag(f1, Flag::N, n);
    let f3 = with_flag(f2, Flag::H, h);
    lemma_with_flag(f, Flag::Z, z);
    lemma_with_flag(f1, Flag::N, n);
    lemma_with_flag(f2, Flag::H, h);
    lemma_with_flag(f3, Flag::C, c);
}

/// A pair written through one of the 16-bit setters reads back unchanged.
pub proof fn lemma_pair_split(value: u16)
    ensures
        pair_spec((value / 256) as u8, (value % 256) as u8) == value,
{
}

/// The bit-level facts behind [`lemma_with_flag`]: setting or clearing one of
/// the four flag bits of a byte.
proof fn lemma_flag_bits(f: u8)
    by (bit_vector)
    ensures
        (f | 0x80) & 0x80 != 0, (f & !0x80u8) & 0x80 == 0,
        (f | 0x40) & 0x40 != 0, (f & !0x40u8) & 0x40 == 0,
        (f | 0x20) & 0x20 != 0, (f & !0x20u8) & 0x20 == 0,
        (f | 0x10) & 0x10 != 0, (f & !0x10u8) & 0x10 == 0,
        (f | 0x80) & 0x40 == f & 0x40, (f & !0x80u8) & 0x40 == f & 0x40,
        (f | 0x80) & 0x20 == f & 0x20, (f & !0x80u8) & 0x20 == f & 0x20,
        (f | 0x80) & 0x10 == f & 0x10, (f & !0x80u8) & 0x10 == f & 0x10,
        (f | 0x40) & 0x80 == f & 0x80, (f & !0x40u8) & 0x80 == f & 0x80,
        (f | 0x40) & 0x20 == f & 0x20, (f & !0x40u8) & 0x20 == f & 0x20,
        (f | 0x40) & 0x10 == f & 0x10, (f & !0x40u8) & 0x10 == f & 0x10,
        (f | 0x20) & 0x80 == f & 0x80, (f & !0x20u8) & 0x80 == f & 0x80,
        (f | 0x20) & 0x40 == f & 0x40, (f & !0x20u8) & 0x40 == f & 0x40,
        (f | 0x20) & 0x10 == f & 0x10, (f & !0x20u8) & 0x10 == f & 0x10,
        (f | 0x10) & 0x80 == f & 0x80, (f & !0x10u8) & 0x80 == f & 0x80,
        (f | 0x10) & 0x40 == f & 0x40, (f & !0x10u8) & 0x40 == f & 0x40,
        (f | 0x10) & 0x20 == f & 0x20, (f & !0x10u8) & 0x20 == f & 0x20,
        (f | 0x80) & 0x0F == f & 0x0F, (f & !0x80u8) & 0x0F == f & 0x0F,
        (f | 0x40) & 0x0F == f & 0x0F, (f & !0x40u8) & 0x0F == f & 0x0F,
        (f | 0x20) & 0x0F == f & 0x0F, (f & !0x20u8) & 0x0F == f & 0x0F,
        (f | 0x10) & 0x0F == f & 0x0F, (f & !0x10u8) & 0x0F == f & 0x0F,
{
}

} // verus!
