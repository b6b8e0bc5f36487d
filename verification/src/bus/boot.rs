//! The hardware registers at boot-ROM hand-off (the DMG / MGB column), and
//! which `$FF00`-`$FF7F` addresses have a register behind them at all.
use vstd::prelude::*;

verus! {

/// The first I/O address.
pub(crate) const IO_BASE: u16 = 0xFF00;
/// `$FF00`-`$FF7F`.
pub(crate) const IO_LEN: usize = 128;

/// IE at hand-off.
pub(crate) const INTERRUPT_ENABLE: u8 = 0x00;

/// Whether the I/O address `0xFF00 + index` names a DMG register: P1, SB,
/// SC, DIV, TIMA, TMA, TAC, IF, the sound registers NR10-NR52 and the LCD
/// registers LCDC-WX. The others are open bus and swallow writes.
pub open spec fn io_owned(index: int) -> bool {
    ||| 0x00 <= index <= 0x02
    ||| 0x04 <= index <= 0x07
    ||| index == 0x0F
    ||| 0x10 <= index <= 0x14
    ||| 0x16 <= index <= 0x1E
    ||| 0x20 <= index <= 0x26
    ||| 0x40 <= index <= 0x4B
}

/// The value of the I/O cell `0xFF00 + index` at hand-off. OBP0 and OBP1
/// have no documented value and start at `$00`, as does every cell without
/// a register.
pub open spec fn boot_io_value(index: int) -> u8 {
    if index == 0x00 { 0xCF }
    else if index == 0x02 { 0x7E }
    else if index == 0x04 { 0xAB }
    else if index == 0x07 { 0xF8 }
    else if index == 0x0F { 0xE1 }
    else if index == 0x10 { 0x80 }
    else if index == 0x11 { 0xBF }
    else if index == 0x12 { 0xF3 }
    else if index == 0x13 { 0xFF }
    else if index == 0x14 { 0xBF }
    else if index == 0x16 { 0x3F }
    else if index == 0x18 { 0xFF }
    else if index == 0x19 { 0xBF }
    else if index == 0x1A { 0x7F }
    else if index == 0x1B { 0xFF }
    else if index == 0x1C { 0x9F }
    else if index == 0x1D { 0xFF }
    else if index == 0x1E { 0xBF }
    else if index == 0x20 { 0xFF }
    else if index == 0x23 { 0xBF }
    else if index == 0x24 { 0x77 }
    else if index == 0x25 { 0xF3 }
    else if index == 0x26 { 0xF1 }
    else if index == 0x40 { 0x91 }
    else if index == 0x41 { 0x85 }
    else if index == 0x46 { 0xFF }
    else if index == 0x47 { 0xFC }
    else { 0x00 }
}

/// The I/O cells at hand-off.
pub open spec fn boot_io() -> Seq<u8> {
    Seq::new(128, |i: int| boot_io_value(i))
}

/// Whether the I/O cell at `index` has a register (see [`io_owned`]).
pub(crate) fn io_has_owner(index: usize) -> (r: bool)
    ensures
        r == io_owned(index as int),
{
    index <= 0x02 || (0x04 <= index && index <= 0x07) || index == 0x0F || (0x10 <= index && index
        <= 0x14) || (0x16 <= index && index <= 0x1E) || (0x20 <= index && index <= 0x26) || (0x40
        <= index && index <= 0x4B)
}

/// The I/O cells at hand-off (see [`boot_io_value`]).
pub(crate) fn boot_io_cells() -> (io: [u8; 128])
    ensures
        io@ == boot_io(),
{
    let mut io = [0x00u8; 128];
    io[0x00] = 0xCF;  // P1
    io[0x02] = 0x7E;  // SC
    io[0x04] = 0xAB;  // DIV
    io[0x07] = 0xF8;  // TAC
    io[0x0F] = 0xE1;  // IF
    io[0x10] = 0x80;  // NR10
    io[0x11] = 0xBF;  // NR11
    io[0x12] = 0xF3;  // NR12
    io[0x13] = 0xFF;  // NR13
    io[0x14] = 0xBF;  // NR14
    io[0x16] = 0x3F;  // NR21
    io[0x18] = 0xFF;  // NR23
    io[0x19] = 0xBF;  // NR24
    io[0x1A] = 0x7F;  // NR30
    io[0x1B] = 0xFF;  // NR31
    io[0x1C] = 0x9F;  // NR32
    io[0x1D] = 0xFF;  // NR33
    io[0x1E] = 0xBF;  // NR34
    io[0x20] = 0xFF;  // NR41
    io[0x23] = 0xBF;  // NR44
    io[0x24] = 0x77;  // NR50
    io[0x25] = 0xF3;  // NR51
    io[0x26] = 0xF1;  // NR52
    io[0x40] = 0x91;  // LCDC
    io[0x41] = 0x85;  // STAT
    io[0x46] = 0xFF;  // DMA
    io[0x47] = 0xFC;  // BGP
    assert(io@ =~= boot_io());
    io
}

} // verus!
