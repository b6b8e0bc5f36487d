//! The core of a DMG Game Boy emulator: CPU, bus, cartridges, PPU, APU and
//! the small peripherals, as a state machine that advances one M-cycle at a
//! time and never performs I/O.

mod apu;
pub mod bus;
pub mod cart;
pub mod cpu;
pub mod info;
pub mod joypad;
mod ppu;
pub mod run;
mod serial;

use vstd::prelude::*;

verus! {

/// The console model this core emulates.
pub const MODEL: &'static str = "DMG";

} // verus!
