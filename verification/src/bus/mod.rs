//! The memory bus: address decoding, the internal RAMs, the I/O registers
//! and their owners (joypad, serial port, timer, APU, PPU), and the
//! cartridge behind its two windows.

pub(crate) mod boot;

use vstd::prelude::*;

use crate::apu::{Apu, ApuView, PulseView, SweepView, NR10, NR11, NR12, NR21, NR22};
use crate::cart::{Cartridge, Mapper, OPEN_BUS};
use crate::joypad::{Joypad, JoypadView, Key};
use crate::ppu::{Ppu, PpuView};
use crate::serial::{Serial, SerialView, SB_ADDR, SC_ADDR};
use self::boot::{boot_io, io_has_owner, io_owned, IO_BASE, INTERRUPT_ENABLE};

pub use crate::apu::{law_frame_sequencer_counts, law_period_bits, law_volume_envelope};
pub use crate::ppu::{law_background_pixel, law_object_palette, law_object_pixel_8x8};

verus! {

const P1_ADDR: u16 = 0xFF00;
const DIV_ADDR: u16 = 0xFF04;
const TIMA_ADDR: u16 = 0xFF05;
const TAC_ADDR: u16 = 0xFF07;

const TIMA_IDX: usize = 0x05;
const TMA_IDX: usize = 0x06;
const TAC_IDX: usize = 0x07;
const IF_IDX: usize = 0x0F;

/// Only the low 13 bits of the address reach the work RAM, which is what
/// makes `$E000`-`$FDFF` an echo of `$C000`-`$DDFF`.
const WRAM_ADDRESS_MASK: u16 = 0x1FFF;
const HRAM_BASE: u16 = 0xFF80;

/// `$FEA0`-`$FEFF` reads `$00` on a DMG while OAM is not blocked.
const NOT_USABLE_READ: u8 = 0x00;

/// The ten regions of the address space.
#[derive(Debug, Clone, Copy, PartialEq, Eq, Hash)]
pub enum Region {
    CartridgeRom,
    VideoRam,
    ExternalRam,
    WorkRam,
    EchoRam,
    ObjectAttributeMemory,
    NotUsable,
    IoRegisters,
    HighRam,
    InterruptEnable,
}

/// The region that `addr` falls in.
pub open spec fn region_of(addr: u16) -> Region {
    if addr <= 0x7FFF { Region::CartridgeRom }
    else if addr <= 0x9FFF { Region::VideoRam }
    else if addr <= 0xBFFF { Region::ExternalRam }
    else if addr <= 0xDFFF { Region::WorkRam }
    else if addr <= 0xFDFF { Region::EchoRam }
    else if addr <= 0xFE9F { Region::ObjectAttributeMemory }
    else if addr <= 0xFEFF { Region::NotUsable }
    else if addr <= 0xFF7F { Region::IoRegisters }
    else if addr <= 0xFFFE { Region::HighRam }
    else { Region::InterruptEnable }
}

/// Whether `addr` is in one of the two windows the cartridge answers.
pub open spec fn is_cartridge_window(addr: u16) -> bool {
    addr <= 0x7FFF || (0xA000 <= addr <= 0xBFFF)
}

impl Region {
    /// The region that `addr` falls in.
    pub fn of(addr: u16) -> (r: Self)
        ensures
            r == region_of(addr),
    {
        if addr <= 0x7FFF {
            Self::CartridgeRom
        } else if addr <= 0x9FFF {
            Self::VideoRam
        } else if addr <= 0xBFFF {
            Self::ExternalRam
        } else if addr <= 0xDFFF {
            Self::WorkRam
        } else if addr <= 0xFDFF {
            Self::EchoRam
        } else if addr <= 0xFE9F {
            Self::ObjectAttributeMemory
        } else if addr <= 0xFEFF {
            Self::NotUsable
        } else if addr <= 0xFF7F {
            Self::IoRegisters
        } else if addr <= 0xFFFE {
            Self::HighRam
        } else {
            Self::InterruptEnable
        }
    }
}

/// Where the timer stands after TIMA overflowed: for one M-cycle TIMA reads
/// `$00` and a write to it cancels the reload; in the next it is reloaded
/// from TMA and writes to it are ignored.
#[derive(Debug, Clone, Copy, PartialEq, Eq)]
pub enum TimerOverflow {
    Idle,
    Overflowed,
    Reloading,
}

/// The bit of the system counter that TAC bits 1-0 select for the timer.
pub open spec fn clock_bit_spec(select: u8) -> u16 {
    if select == 0 { 9 } else if select == 1 { 3 } else if select == 2 { 5 } else if select == 3 { 7 } else { 9 }
}

/// Everything of the bus but the cartridge.
pub struct BusView {
    pub vram: Seq<u8>,
    pub oam: Seq<u8>,
    pub wram: Seq<u8>,
    pub hram: Seq<u8>,
    /// `$FF00`-`$FF7F`; the cells of TIMA, TMA, TAC and IF are the live
    /// registers, the others are read through their owners.
    pub io: Seq<u8>,
    pub ie: u8,
    pub serial: SerialView,
    pub joypad: JoypadView,
    /// The 16-bit system counter; DIV is its high byte.
    pub sys_counter: u16,
    /// The timer's input line at the last M-cycle.
    pub prev_and_result: bool,
    pub tima_overflow: TimerOverflow,
    pub ppu: PpuView,
    pub apu: ApuView,
}

impl BusView {
    /// The invariant.
    pub open spec fn wf(self) -> bool {
        &&& self.vram.len() == 8192
        &&& self.oam.len() == 160
        &&& self.wram.len() == 8192
        &&& self.hram.len() == 127
        &&& self.io.len() == 128
        &&& self.ppu.wf()
        &&& self.apu.wf()
    }

    /// TIMA.
    pub open spec fn tima(self) -> u8 {
        self.io[0x05]
    }

    /// The interrupt flag register IF.
    pub open spec fn interrupt_flags(self) -> u8 {
        self.io[0x0F]
    }

    /// The timer's input line: TAC enabled and the selected bit of the system
    /// counter set.
    pub open spec fn and_result(self) -> bool {
        let tac = self.io[0x07];
        tac & 0x04 != 0 && (self.sys_counter >> clock_bit_spec(tac & 0x03)) & 1 != 0
    }

    /// TIMA counts up by one; past `$FF` it wraps to `$00` and the overflow
    /// starts.
    pub open spec fn increment_tima(self) -> BusView {
        let tima = self.io[0x05];
        if tima == 0xFF {
            BusView { io: self.io.update(0x05, 0), tima_overflow: TimerOverflow::Overflowed, ..self }
        } else {
            BusView { io: self.io.update(0x05, (tima + 1) as u8), ..self }
        }
    }

    /// After a change of the timer's input from `old_and` to this state's,
    /// TIMA counts on a falling edge, and the line is remembered.
    pub open spec fn after_edge(self, old_and: bool) -> BusView {
        let new_and = self.and_result();
        let counted = if old_and && !new_and { self.increment_tima() } else { self };
        BusView { prev_and_result: new_and, ..counted }
    }

    /// What an I/O address reads.
    pub open spec fn read_io(self, addr: u16) -> u8 {
        if addr == 0xFF00 {
            self.joypad.read()
        } else if addr == 0xFF04 {
            (self.sys_counter / 256) as u8
        } else if addr == 0xFF01 {
            self.serial.sb
        } else if addr == 0xFF02 {
            self.serial.sc
        } else if 0xFF10 <= addr <= 0xFF26 {
            self.apu.read(addr)
        } else if 0xFF40 <= addr <= 0xFF4B {
            self.ppu.read(addr)
        } else if io_owned(addr - 0xFF00) {
            self.io[addr - 0xFF00]
        } else {
            OPEN_BUS
        }
    }

    /// What `addr` reads, outside the cartridge windows (where the cartridge
    /// answers).
    pub open spec fn read(self, addr: u16) -> u8 {
        match region_of(addr) {
            Region::WorkRam | Region::EchoRam => self.wram[(addr % 8192) as int],
            Region::HighRam => self.hram[addr - 0xFF80],
            Region::NotUsable => 0x00,
            Region::IoRegisters => self.read_io(addr),
            Region::InterruptEnable => self.ie,
            Region::VideoRam => if self.ppu.vram_accessible() { self.vram[addr - 0x8000] } else { OPEN_BUS },
            Region::ObjectAttributeMemory => if self.ppu.oam_accessible() { self.oam[addr - 0xFE00] } else { OPEN_BUS },
            _ => OPEN_BUS,
        }
    }

    /// The bus after `value` is written at the I/O address `addr`.
    pub open spec fn write_io(self, addr: u16, value: u8) -> BusView {
        if addr == 0xFF00 {
            BusView { joypad: JoypadView { select: value & 0x30, ..self.joypad }, ..self }
        } else if addr == 0xFF04 {
            BusView { sys_counter: 0, ..self }.after_edge(self.and_result())
        } else if addr == 0xFF05 {
            match self.tima_overflow {
                TimerOverflow::Overflowed => BusView {
                    io: self.io.update(0x05, value),
                    tima_overflow: TimerOverflow::Idle,
                    ..self
                },
                TimerOverflow::Reloading => self,
                TimerOverflow::Idle => BusView { io: self.io.update(0x05, value), ..self },
            }
        } else if addr == 0xFF07 {
            BusView { io: self.io.update(0x07, value), ..self }.after_edge(self.prev_and_result)
        } else if addr == 0xFF01 {
            BusView { serial: SerialView { sb: value, ..self.serial }, ..self }
        } else if addr == 0xFF02 {
            BusView { serial: self.serial.write_sc(value), ..self }
        } else if 0xFF10 <= addr <= 0xFF26 {
            BusView { apu: self.apu.write(addr, value), ..self }
        } else if 0xFF40 <= addr <= 0xFF4B {
            BusView { ppu: self.ppu.write(addr, value), ..self }
        } else if io_owned(addr - 0xFF00) {
            BusView { io: self.io.update(addr - 0xFF00, value), ..self }
        } else {
            self
        }
    }

    /// The bus after `value` is written at `addr`. Inside the cartridge
    /// windows only the cartridge changes, which this view does not hold.
    pub open spec fn write(self, addr: u16, value: u8) -> BusView {
        match region_of(addr) {
            Region::WorkRam | Region::EchoRam => BusView { wram: self.wram.update((addr % 8192) as int, value), ..self },
            Region::HighRam => BusView { hram: self.hram.update(addr - 0xFF80, value), ..self },
            Region::IoRegisters => self.write_io(addr, value),
            Region::InterruptEnable => BusView { ie: value, ..self },
            Region::VideoRam => if self.ppu.vram_accessible() {
                BusView { vram: self.vram.update(addr - 0x8000, value), ..self }
            } else {
                self
            },
            Region::ObjectAttributeMemory => if self.ppu.oam_accessible() {
                BusView { oam: self.oam.update(addr - 0xFE00, value), ..self }
            } else {
                self
            },
            _ => self,
        }
    }

    /// One M-cycle of the timer: a reload in progress ends; a pending
    /// overflow reloads TIMA from TMA and requests the timer interrupt
    /// (IF bit 2); the system counter advances by 4 and TIMA counts on a
    /// falling edge of the selected bit.
    pub open spec fn tick_timer(self) -> BusView {
        let s1 = if self.tima_overflow is Reloading { BusView { tima_overflow: TimerOverflow::Idle, ..self } } else { self };
        let s2 = if s1.tima_overflow is Overflowed {
            let io = s1.io.update(0x05, s1.io[0x06]);
            BusView {
                io: io.update(0x0F, io[0x0F] | 0x04),
                tima_overflow: TimerOverflow::Reloading,
                ..s1
            }
        } else {
            s1
        };
        BusView { sys_counter: ((s2.sys_counter + 4) % 0x10000) as u16, ..s2 }.after_edge(s2.prev_and_result)
    }

    /// One M-cycle of the PPU: at the start of mode 3 the line is drawn from
    /// VRAM and OAM; V-blank requests IF bit 0 and a rising STAT line bit 1.
    pub open spec fn tick_ppu(self) -> BusView {
        let (ppu, signals) = self.ppu.tick();
        let drawn = if signals.begin_mode3 { ppu.render_scanline(self.vram, self.oam) } else { ppu };
        let flags = self.io[0x0F];
        let flags1 = if signals.vblank_interrupt { flags | 0x01 } else { flags };
        let flags2 = if signals.stat_interrupt { flags1 | 0x02 } else { flags1 };
        BusView { ppu: drawn, io: self.io.update(0x0F, flags2), ..self }
    }

    /// A pending joypad request moves to IF bit 4.
    pub open spec fn tick_joypad_interrupt(self) -> BusView {
        if self.joypad.interrupt {
            BusView {
                joypad: JoypadView { interrupt: false, ..self.joypad },
                io: self.io.update(0x0F, self.io[0x0F] | 0x10),
                ..self
            }
        } else {
            self
        }
    }

    /// One M-cycle of the APU.
    pub open spec fn tick_apu(self) -> BusView {
        BusView { apu: self.apu.tick(), ..self }
    }
}

/// What sits in the cartridge slot: a mapper of this library, or another
/// cartridge of type `C`.
enum Slot<C: ?Sized> {
    Mapped(Mapper),
    Plugged(Box<C>),
}

/// The memory bus, with a cartridge of type `C` in its slot; by default any
/// cartridge, `dyn Cartridge`. The contracts are proved for every `C`.
pub struct Bus<C: ?Sized = dyn Cartridge> {
    cartridge: Slot<C>,
    vram: [u8; 8192],
    oam: [u8; 160],
    wram: [u8; 8192],
    hram: [u8; 127],
    io: [u8; 128],
    ie: u8,
    serial: Serial,
    joypad: Joypad,
    sys_counter: u16,
    prev_and_result: bool,
    tima_overflow: TimerOverflow,
    ppu: Ppu,
    apu: Apu,
}

impl<C: ?Sized> View for Bus<C> {
    type V = BusView;

    closed spec fn view(&self) -> BusView {
        BusView {
            vram: self.vram@,
            oam: self.oam@,
            wram: self.wram@,
            hram: self.hram@,
            io: self.io@,
            ie: self.ie,
            serial: self.serial@,
            joypad: self.joypad@,
            sys_counter: self.sys_counter,
            prev_and_result: self.prev_and_result,
            tima_overflow: self.tima_overflow,
            ppu: self.ppu@,
            apu: self.apu@,
        }
    }
}

/// The state of the bus at boot-ROM hand-off, but for the cartridge.
pub open spec fn hand_off(b: BusView) -> bool {
    &&& b.vram == Seq::new(8192, |i: int| 0u8)
    &&& b.oam == Seq::new(160, |i: int| 0u8)
    &&& b.wram == Seq::new(8192, |i: int| 0u8)
    &&& b.hram == Seq::new(127, |i: int| 0u8)
    &&& b.io == boot_io()
    &&& b.ie == 0
    &&& b.serial == (SerialView { sb: 0x00, sc: 0x7E, output: Seq::empty() })
    &&& b.joypad == (JoypadView { select: 0x00, dpad: 0x0F, buttons: 0x0F, interrupt: false })
    &&& b.sys_counter == 0xAB00
    &&& !b.prev_and_result
    &&& b.tima_overflow is Idle
    &&& b.ppu == (PpuView {
        dots: 0, scy: 0, scx: 0, ly: 0, lcdc: 0x91, lyc: 0, dma: 0xFF, bgp: 0xFC,
        obp0: 0, obp1: 0, wy: 0, wx: 0, stat_writable: 0x80, window_line: 0,
        window_y_condition: false, framebuffer: Seq::new(23040, |i: int| 0u8),
    })
    &&& b.apu.regs == crate::apu::boot_regs()
    &&& b.apu.wave_ram == Seq::new(16, |i: int| 0u8)
    &&& b.apu.div_apu == 0 && b.apu.frame_sequencer_step == 0 && b.apu.prev_frame_sequencer_step == 0
    &&& b.apu.ch1 == PulseView::initial() && b.apu.ch2 == PulseView::initial()
    &&& b.apu.sweep == (SweepView { enabled: false, shadow: 0, timer: 0 })
}

impl<C: Cartridge + ?Sized> Bus<C> {
    /// What the cartridge in the slot answers at `addr`.
    pub closed spec fn cartridge_answer(&self, addr: u16) -> u8 {
        match &self.cartridge {
            Slot::Mapped(m) => m.answer(addr),
            Slot::Plugged(c) => c.answer(addr),
        }
    }

    /// What the cartridge in the slot would answer at `at` after a write of
    /// `value` at `addr`.
    pub closed spec fn cartridge_answer_after_write(&self, addr: u16, value: u8, at: u16) -> u8 {
        match &self.cartridge {
            Slot::Mapped(m) => m.answer_after_write(addr, value, at),
            Slot::Plugged(c) => c.answer_after_write(addr, value, at),
        }
    }

    /// The battery RAM the cartridge in the slot would have after a write of
    /// `value` at `addr`.
    pub closed spec fn cartridge_battery_ram_after_write(&self, addr: u16, value: u8) -> Option<Seq<u8>> {
        match &self.cartridge {
            Slot::Mapped(m) => m.battery_ram_after_write(addr, value),
            Slot::Plugged(c) => c.battery_ram_after_write(addr, value),
        }
    }

    /// What `addr` reads: the cartridge's answer inside its two windows,
    /// [`BusView::read`] everywhere else.
    pub open spec fn read_spec(&self, addr: u16) -> u8 {
        if is_cartridge_window(addr) { self.cartridge_answer(addr) } else { self@.read(addr) }
    }

    /// Whether the cartridge of `self` behaves as that of `before`: the same
    /// answers and battery RAM now and after any write.
    pub open spec fn cartridge_kept(&self, before: &Bus<C>) -> bool {
        &&& forall|at: u16| #[trigger] self.cartridge_answer(at) == before.cartridge_answer(at)
        &&& forall|addr: u16, value: u8, at: u16|
            #[trigger] self.cartridge_answer_after_write(addr, value, at) == before.cartridge_answer_after_write(addr, value, at)
        &&& self.cartridge_battery_ram() == before.cartridge_battery_ram()
        &&& self.holds_mapper() == before.holds_mapper()
        &&& forall|addr: u16, value: u8|
            #[trigger] self.cartridge_battery_ram_after_write(addr, value) == before.cartridge_battery_ram_after_write(addr, value)
    }

    /// Whether the cartridge of `self` is that of `before` after a write of
    /// `value` at `addr`: inside the windows it took the write, elsewhere it
    /// was left alone.
    pub open spec fn cartridge_after_write(&self, before: &Bus<C>, addr: u16, value: u8) -> bool {
        if is_cartridge_window(addr) {
            &&& forall|at: u16| #[trigger] self.cartridge_answer(at) == before.cartridge_answer_after_write(addr, value, at)
            &&& self.cartridge_battery_ram() == before.cartridge_battery_ram_after_write(addr, value)
            &&& self.holds_mapper() == before.holds_mapper()
        } else {
            self.cartridge_kept(before)
        }
    }

    /// A bus in the state the boot ROM hands over, with `cartridge` in its
    /// slot: the bus's cartridge answers, takes writes and hands out battery
    /// RAM exactly as `cartridge` does. The PPU starts at dot 0 of line 0
    /// with the LCD on, so STAT reads `$86` (mode 2, LY = LYC).
    pub fn new(cartridge: Box<C>) -> (b: Self)
        ensures
            b@.wf(),
            hand_off(b@),
            !b.holds_mapper(),
            forall|at: u16| #[trigger] b.cartridge_answer(at) == cartridge.answer(at),
            forall|addr: u16, value: u8, at: u16|
                #[trigger] b.cartridge_answer_after_write(addr, value, at) == cartridge.answer_after_write(addr, value, at),
            b.cartridge_battery_ram() == cartridge.battery_ram(),
            forall|addr: u16, value: u8|
                #[trigger] b.cartridge_battery_ram_after_write(addr, value) == cartridge.battery_ram_after_write(addr, value),
    {
        let ghost g = cartridge;
        let b = Self::hand_off_with(Slot::Plugged(cartridge));
        assert(b.cartridge == Slot::<C>::Plugged(g));
        b
    }

    /// A bus in the state the boot ROM hands over, with the mapper `mapper`
    /// in its slot: the bus's cartridge answers, takes writes and hands out
    /// battery RAM exactly as `mapper` does.
    pub fn with_mapper(mapper: Mapper) -> (b: Self)
        ensures
            b@.wf(),
            hand_off(b@),
            b.holds_mapper(),
            forall|at: u16| #[trigger] b.cartridge_answer(at) == mapper.answer(at),
            forall|addr: u16, value: u8, at: u16|
                #[trigger] b.cartridge_answer_after_write(addr, value, at) == mapper.answer_after_write(addr, value, at),
            b.cartridge_battery_ram() == mapper.battery_ram(),
            forall|addr: u16, value: u8|
                #[trigger] b.cartridge_battery_ram_after_write(addr, value) == mapper.battery_ram_after_write(addr, value),
    {
        let ghost m = mapper;
        let b = Self::hand_off_with(Slot::Mapped(mapper));
        assert(b.cartridge == Slot::<C>::Mapped(m));
        b
    }

    /// Whether the slot holds a mapper of this library.
    pub closed spec fn holds_mapper(&self) -> bool {
        self.cartridge is Mapped
    }

    fn hand_off_with(slot: Slot<C>) -> (b: Self)
        ensures
            b@.wf(),
            hand_off(b@),
            b.cartridge == slot,
    {
        let ghost g = slot;
        let io = self::boot::boot_io_cells();
        let serial = Serial::new();
        let joypad = Joypad::new();
        let ppu = Ppu::new();
        let apu = Apu::new();
        let b = Self {
            cartridge: slot,
            vram: [0x00u8; 8192],
            oam: [0x00u8; 160],
            wram: [0x00u8; 8192],
            hram: [0x00u8; 127],
            io,
            ie: INTERRUPT_ENABLE,
            serial,
            joypad,
            sys_counter: 0xAB00,
            prev_and_result: false,
            tima_overflow: TimerOverflow::Idle,
            ppu,
            apu,
        };
        proof {
            assert(b@.vram =~= Seq::new(8192, |i: int| 0u8));
            assert(b@.oam =~= Seq::new(160, |i: int| 0u8));
            assert(b@.wram =~= Seq::new(8192, |i: int| 0u8));
            assert(b@.hram =~= Seq::new(127, |i: int| 0u8));
        }
        b
    }

    /// What the CPU reads at `addr` (see [`Bus::read_spec`]).
    pub fn read(&self, addr: u16) -> (r: u8)
        requires
            self@.wf(),
        ensures
            r == self.read_spec(addr),
    {
        match Region::of(addr) {
            Region::CartridgeRom | Region::ExternalRam => match &self.cartridge {
                Slot::Mapped(m) => m.read(addr),
                Slot::Plugged(c) => c.read(addr),
            },
            Region::WorkRam | Region::EchoRam => self.wram[wram_index(addr)],
            Region::HighRam => self.hram[hram_index(addr)],
            Region::NotUsable => NOT_USABLE_READ,
            Region::IoRegisters => self.read_io(addr),
            Region::InterruptEnable => self.ie,
            Region::VideoRam => {
                if self.ppu.is_vram_accessible() {
                    self.vram[vram_index(addr)]
                } else {
                    OPEN_BUS
                }
            },
            Region::ObjectAttributeMemory => {
                if self.ppu.is_oam_accessible() {
                    self.oam[oam_index(addr)]
                } else {
                    OPEN_BUS
                }
            },
        }
    }

    /// What the I/O address `addr` reads.
    fn read_io(&self, addr: u16) -> (r: u8)
        requires
            self@.wf(),
            0xFF00 <= addr <= 0xFF7F,
        ensures
            r == self@.read_io(addr),
    {
        if addr == P1_ADDR {
            self.joypad.read()
        } else if addr == DIV_ADDR {
            (self.sys_counter / 256) as u8
        } else if addr == SB_ADDR || addr == SC_ADDR {
            self.serial.read(addr)
        } else if 0xFF10 <= addr && addr <= 0xFF26 {
            self.apu.read(addr)
        } else if 0xFF40 <= addr && addr <= 0xFF4B {
            self.ppu.read(addr)
        } else {
            let index = io_index(addr);
            if io_has_owner(index) {
                self.io[index]
            } else {
                OPEN_BUS
            }
        }
    }

    /// The CPU writes `value` at `addr`. Inside the cartridge windows the
    /// write goes to the cartridge and nothing else changes; everywhere else
    /// the result is [`BusView::write`] and the cartridge is left alone.
    pub fn write(&mut self, addr: u16, value: u8)
        requires
            old(self)@.wf(),
        ensures
            final(self)@.wf(),
            final(self)@ == old(self)@.write(addr, value),
            final(self).cartridge_after_write(old(self), addr, value),
    {
        match Region::of(addr) {
            Region::CartridgeRom | Region::ExternalRam => match &mut self.cartridge {
                Slot::Mapped(m) => m.write(addr, value),
                Slot::Plugged(c) => c.write(addr, value),
            },
            Region::WorkRam | Region::EchoRam => self.wram[wram_index(addr)] = value,
            Region::HighRam => self.hram[hram_index(addr)] = value,
            Region::IoRegisters => self.write_io(addr, value),
            Region::InterruptEnable => self.ie = value,
            Region::VideoRam => {
                if self.ppu.is_vram_accessible() {
                    self.vram[vram_index(addr)] = value;
                }
            },
            Region::NotUsable => {},
            Region::ObjectAttributeMemory => {
                if self.ppu.is_oam_accessible() {
                    self.oam[oam_index(addr)] = value;
                }
            },
        }
    }

    /// A write to the I/O address `addr`.
    fn write_io(&mut self, addr: u16, value: u8)
        requires
            old(self)@.wf(),
            0xFF00 <= addr <= 0xFF7F,
        ensures
            final(self)@.wf(),
            final(self)@ == old(self)@.write_io(addr, value),
            final(self).cartridge_kept(old(self)),
    {
        if addr == P1_ADDR {
            self.joypad.write(value);
        } else if addr == DIV_ADDR {
            let old_and = self.and_result();
            self.sys_counter = 0;
            self.settle_timer_input(old_and);
        } else if addr == TIMA_ADDR {
            match self.tima_overflow {
                TimerOverflow::Overflowed => {
                    self.io[TIMA_IDX] = value;
                    self.tima_overflow = TimerOverflow::Idle;
                },
                TimerOverflow::Reloading => {},
                TimerOverflow::Idle => {
                    self.io[TIMA_IDX] = value;
                },
            }
        } else if addr == TAC_ADDR {
            let old_and = self.prev_and_result;
            self.io[TAC_IDX] = value;
            self.settle_timer_input(old_and);
        } else if addr == SB_ADDR || addr == SC_ADDR {
            self.serial.write(addr, value);
        } else if 0xFF10 <= addr && addr <= 0xFF26 {
            self.apu.write(addr, value);
        } else if 0xFF40 <= addr && addr <= 0xFF4B {
            self.ppu.write(addr, value);
        } else {
            let index = io_index(addr);
            if io_has_owner(index) {
                self.io[index] = value;
            }
        }
    }

    /// The bytes the serial port has sent since the last call; the queue is
    /// left empty.
    pub fn take_serial_output(&mut self) -> (r: Vec<u8>)
        ensures
            r@ == old(self)@.serial.output,
            final(self)@ == (BusView { serial: SerialView { output: Seq::empty(), ..old(self)@.serial }, ..old(self)@ }),
            final(self).cartridge_kept(old(self)),
    {
        self.serial.take_output()
    }

    /// One M-cycle of the PPU (see [`BusView::tick_ppu`]).
    pub fn tick_ppu(&mut self)
        requires
            old(self)@.wf(),
        ensures
            final(self)@.wf(),
            final(self)@ == old(self)@.tick_ppu(),
            final(self).cartridge_kept(old(self)),
    {
        let signals = self.ppu.tick();
        if signals.begin_mode3 {
            self.ppu.render_scanline(&self.vram, &self.oam);
        }
        let mut flags = self.io[IF_IDX];
        if signals.vblank_interrupt {
            flags = flags | 0x01;
        }
        if signals.stat_interrupt {
            flags = flags | 0x02;
        }
        self.io[IF_IDX] = flags;
    }

    /// The battery-backed RAM of the cartridge in the slot, as a value (see
    /// [`Cartridge::battery_ram`]).
    pub closed spec fn cartridge_battery_ram(&self) -> Option<Seq<u8>> {
        match &self.cartridge {
            Slot::Mapped(m) => m.battery_ram(),
            Slot::Plugged(c) => c.battery_ram(),
        }
    }

    /// The cartridge's battery-backed RAM, if it has any: what comes out is
    /// the cartridge's battery RAM.
    pub fn cartridge_ram(&self) -> (r: Option<&[u8]>)
        ensures
            r matches Some(s) ==> self.cartridge_battery_ram() == Some(s@),
            self.holds_mapper() ==> (r is Some <==> self.cartridge_battery_ram() is Some),
    {
        match &self.cartridge {
            Slot::Mapped(m) => m.ram_data(),
            Slot::Plugged(c) => c.ram_data(),
        }
    }

    /// The 160x144 shades of the last frame drawn.
    pub fn framebuffer(&self) -> (r: &[u8; 23040])
        ensures
            r@ == self@.ppu.framebuffer,
    {
        self.ppu.framebuffer()
    }

    /// A key goes down.
    pub fn key_down(&mut self, key: Key)
        ensures
            final(self)@ == (BusView { joypad: old(self)@.joypad.key_down(key), ..old(self)@ }),
            final(self).cartridge_kept(old(self)),
    {
        self.joypad.key_down(key);
    }

    /// A key goes up.
    pub fn key_up(&mut self, key: Key)
        ensures
            final(self)@ == (BusView { joypad: old(self)@.joypad.key_up(key), ..old(self)@ }),
            final(self).cartridge_kept(old(self)),
    {
        self.joypad.key_up(key);
    }

    /// Moves a pending joypad request to IF (see
    /// [`BusView::tick_joypad_interrupt`]).
    pub fn tick_joypad_interrupt(&mut self)
        requires
            old(self)@.wf(),
        ensures
            final(self)@.wf(),
            final(self)@ == old(self)@.tick_joypad_interrupt(),
            final(self).cartridge_kept(old(self)),
    {
        if self.joypad.take_interrupt() {
            self.io[IF_IDX] = self.io[IF_IDX] | 0x10;
        }
    }

    /// One M-cycle of the timer (see [`BusView::tick_timer`]).
    pub fn tick_timer(&mut self)
        requires
            old(self)@.wf(),
        ensures
            final(self)@.wf(),
            final(self)@ == old(self)@.tick_timer(),
            final(self).cartridge_kept(old(self)),
    {
        if let TimerOverflow::Reloading = self.tima_overflow {
            self.tima_overflow = TimerOverflow::Idle;
        }
        if let TimerOverflow::Overflowed = self.tima_overflow {
            self.io[TIMA_IDX] = self.io[TMA_IDX];
            self.io[IF_IDX] = self.io[IF_IDX] | 0x04;
            self.tima_overflow = TimerOverflow::Reloading;
        }
        let old_and = self.prev_and_result;
        self.sys_counter = if self.sys_counter >= 0xFFFC { self.sys_counter - 0xFFFC } else { self.sys_counter + 4 };
        self.settle_timer_input(old_and);
    }

    /// One M-cycle of the APU.
    pub fn tick_apu(&mut self)
        requires
            old(self)@.wf(),
        ensures
            final(self)@.wf(),
            final(self)@ == old(self)@.tick_apu(),
            final(self).cartridge_kept(old(self)),
    {
        self.apu.tick();
    }

    /// The frame sequencer step the APU is at (0-7).
    pub fn apu_frame_sequencer_step(&self) -> (r: u8)
        ensures
            r == self@.apu.frame_sequencer_step,
    {
        self.apu.frame_sequencer_step()
    }

    /// Whether channel 1 is on.
    pub fn ch1_enabled(&self) -> (r: bool)
        ensures
            r == self@.apu.ch1.enabled,
    {
        self.apu.ch1_enabled()
    }

    /// NR10 bits 6-4: the sweep pace.
    pub fn ch1_sweep_pace(&self) -> (r: u8)
        ensures
            r == (self@.apu.regs[NR10 as int] >> 4) % 8,
    {
        self.apu.ch1_sweep_pace()
    }

    /// NR10 bit 3: 1 when the sweep lowers the period.
    pub fn ch1_sweep_direction(&self) -> (r: u8)
        ensures
            r == (self@.apu.regs[NR10 as int] >> 3) % 2,
    {
        self.apu.ch1_sweep_direction()
    }

    /// NR10 bits 2-0: the sweep step.
    pub fn ch1_sweep_step(&self) -> (r: u8)
        ensures
            r == self@.apu.regs[NR10 as int] % 8,
    {
        self.apu.ch1_sweep_step()
    }

    /// The period the sweep works on.
    pub fn ch1_sweep_shadow(&self) -> (r: u16)
        ensures
            r == self@.apu.sweep.shadow,
    {
        self.apu.ch1_sweep_shadow()
    }

    /// Whether the sweep runs.
    pub fn ch1_sweep_enabled(&self) -> (r: bool)
        ensures
            r == self@.apu.sweep.enabled,
    {
        self.apu.ch1_sweep_enabled()
    }

    /// The sweep timer.
    pub fn ch1_sweep_timer(&self) -> (r: u8)
        ensures
            r == self@.apu.sweep.timer,
    {
        self.apu.ch1_sweep_timer()
    }

    /// NR11 bits 7-6: channel 1's duty pattern.
    pub fn ch1_duty_pattern(&self) -> (r: u8)
        ensures
            r == self@.apu.regs[NR11 as int] >> 6,
    {
        self.apu.ch1_duty_pattern()
    }

    /// NR12 bits 7-4: channel 1's volume on trigger.
    pub fn ch1_initial_volume(&self) -> (r: u8)
        ensures
            r == self@.apu.regs[NR12 as int] / 16,
    {
        self.apu.ch1_initial_volume()
    }

    /// NR12 bits 2-0: channel 1's envelope pace.
    pub fn ch1_envelope_pace(&self) -> (r: u8)
        ensures
            r == self@.apu.regs[NR12 as int] % 8,
    {
        self.apu.ch1_envelope_pace()
    }

    /// Whether channel 1's DAC is on (NR12 bits 7-3 not all zero).
    pub fn ch1_dac_enabled(&self) -> (r: bool)
        ensures
            r == (self@.apu.regs[NR12 as int] & 0xF8 != 0),
    {
        self.apu.ch1_dac_enabled()
    }

    /// Channel 1's 11-bit period.
    pub fn ch1_period(&self) -> (r: u16)
        ensures
            r == self@.apu.ch1_period(),
    {
        self.apu.ch1_period()
    }

    /// Channel 1's frequency timer.
    pub fn ch1_frequency_timer(&self) -> (r: u16)
        ensures
            r == self@.apu.ch1.freq_timer,
    {
        self.apu.ch1_frequency_timer()
    }

    /// Channel 1's position in its duty waveform.
    pub fn ch1_duty_step(&self) -> (r: u8)
        ensures
            r == self@.apu.ch1.duty_step,
    {
        self.apu.ch1_duty_step()
    }

    /// Channel 1's current volume.
    pub fn ch1_envelope_volume(&self) -> (r: u8)
        ensures
            r == self@.apu.ch1.envelope_volume,
    {
        self.apu.ch1_envelope_volume()
    }

    /// Whether channel 2 is on.
    pub fn ch2_enabled(&self) -> (r: bool)
        ensures
            r == self@.apu.ch2.enabled,
    {
        self.apu.ch2_enabled()
    }

    /// NR21 bits 7-6: channel 2's duty pattern.
    pub fn ch2_duty_pattern(&self) -> (r: u8)
        ensures
            r == self@.apu.regs[NR21 as int] >> 6,
    {
        self.apu.ch2_duty_pattern()
    }

    /// NR22 bits 7-4: channel 2's volume on trigger.
    pub fn ch2_initial_volume(&self) -> (r: u8)
        ensures
            r == self@.apu.regs[NR22 as int] / 16,
    {
        self.apu.ch2_initial_volume()
    }

    /// NR22 bits 2-0: channel 2's envelope pace.
    pub fn ch2_envelope_pace(&self) -> (r: u8)
        ensures
            r == self@.apu.regs[NR22 as int] % 8,
    {
        self.apu.ch2_envelope_pace()
    }

    /// Whether channel 2's DAC is on (NR22 bits 7-3 not all zero).
    pub fn ch2_dac_enabled(&self) -> (r: bool)
        ensures
            r == (self@.apu.regs[NR22 as int] & 0xF8 != 0),
    {
        self.apu.ch2_dac_enabled()
    }

    /// Channel 2's 11-bit period.
    pub fn ch2_period(&self) -> (r: u16)
        ensures
            r == self@.apu.ch2_period(),
    {
        self.apu.ch2_period()
    }

    /// Channel 2's frequency timer.
    pub fn ch2_frequency_timer(&self) -> (r: u16)
        ensures
            r == self@.apu.ch2.freq_timer,
    {
        self.apu.ch2_frequency_timer()
    }

    /// Channel 2's position in its duty waveform.
    pub fn ch2_duty_step(&self) -> (r: u8)
        ensures
            r == self@.apu.ch2.duty_step,
    {
        self.apu.ch2_duty_step()
    }

    /// Channel 2's current volume.
    pub fn ch2_envelope_volume(&self) -> (r: u8)
        ensures
            r == self@.apu.ch2.envelope_volume,
    {
        self.apu.ch2_envelope_volume()
    }

    /// The timer's input line (see [`BusView::and_result`]).
    fn and_result(&self) -> (r: bool)
        requires
            self@.wf(),
        ensures
            r == self@.and_result(),
    {
        let tac = self.io[TAC_IDX];
        let enable = (tac & 0x04) != 0;
        if !enable {
            return false;
        }
        let bit = clock_bit(tac & 0x03);
        ((self.sys_counter >> bit) & 1) != 0
    }

    /// TIMA counts on a falling edge of the timer's input from `old_and`;
    /// the line is remembered.
    fn settle_timer_input(&mut self, old_and: bool)
        requires
            old(self)@.wf(),
        ensures
            final(self)@.wf(),
            final(self)@ == old(self)@.after_edge(old_and),
            final(self).cartridge_kept(old(self)),
    {
        let new_and = self.and_result();
        if old_and && !new_and {
            self.increment_tima();
        }
        let ghost counted = *self;
        self.prev_and_result = new_and;
        proof {
            assert(self.cartridge_kept(&counted));
            lemma_cartridge_kept_transitive(&*self, &counted, &*old(self));
        }
    }

    fn increment_tima(&mut self)
        requires
            old(self)@.wf(),
        ensures
            final(self)@.wf(),
            final(self)@ == old(self)@.increment_tima(),
            final(self).cartridge_kept(old(self)),
    {
        let tima = self.io[TIMA_IDX];
        if tima == 0xFF {
            self.io[TIMA_IDX] = 0;
            self.tima_overflow = TimerOverflow::Overflowed;
        } else {
            self.io[TIMA_IDX] = tima + 1;
        }
    }
}

/// The system counter bit that TAC bits 1-0 select.
fn clock_bit(select: u8) -> (r: u16)
    ensures
        r == clock_bit_spec(select),
        r < 16,
{
    match select {
        0 => 9,
        1 => 3,
        2 => 5,
        3 => 7,
        _ => 9,
    }
}

/// The work RAM cell behind `addr` (the echo folds onto it).
fn wram_index(addr: u16) -> (r: usize)
    ensures
        r == addr % 8192,
        r < 8192,
{
    let masked = addr & WRAM_ADDRESS_MASK;
    assert(addr & 0x1FFF == addr % 8192) by (bit_vector);
    masked as usize
}

fn vram_index(addr: u16) -> (r: usize)
    requires
        0x8000 <= addr <= 0x9FFF,
    ensures
        r == addr - 0x8000,
{
    (addr - 0x8000) as usize
}

fn oam_index(addr: u16) -> (r: usize)
    requires
        0xFE00 <= addr <= 0xFE9F,
    ensures
        r == addr - 0xFE00,
{
    (addr - 0xFE00) as usize
}

fn hram_index(addr: u16) -> (r: usize)
    requires
        0xFF80 <= addr <= 0xFFFE,
    ensures
        r == addr - 0xFF80,
{
    (addr - HRAM_BASE) as usize
}

fn io_index(addr: u16) -> (r: usize)
    requires
        0xFF00 <= addr <= 0xFF7F,
    ensures
        r == addr - 0xFF00,
        r < 128,
{
    (addr - IO_BASE) as usize
}

/// Work RAM keeps what is written to it, and the echo is the same memory: a
/// byte written anywhere in `$C000`-`$FDFF` reads back there and at the
/// address `$2000` away that reaches the same cell.
pub proof fn law_work_ram_read_after_write(b: BusView, addr: u16, value: u8)
    requires
        b.wf(),
        0xC000 <= addr <= 0xFDFF,
    ensures
        b.write(addr, value).read(addr) == value,
        addr <= 0xDDFF ==> b.write(addr, value).read((addr + 0x2000) as u16) == value,
        addr >= 0xE000 ==> b.write(addr, value).read((addr - 0x2000) as u16) == value,
{
}

/// A write to one work RAM cell leaves every other cell as it was.
pub proof fn law_work_ram_cells_are_independent(b: BusView, addr: u16, other: u16, value: u8)
    requires
        b.wf(),
        0xC000 <= addr <= 0xDFFF,
        0xC000 <= other <= 0xDFFF,
        addr != other,
    ensures
        b.write(addr, value).read(other) == b.read(other),
{
}

/// High RAM keeps what is written to it, and IE at `$FFFF` is a register of
/// its own: writing it reads back and leaves high RAM alone.
pub proof fn law_high_ram_and_interrupt_enable(b: BusView, addr: u16, value: u8)
    requires
        b.wf(),
        0xFF80 <= addr <= 0xFFFE,
    ensures
        b.write(addr, value).read(addr) == value,
        b.write(0xFFFF, value).read(0xFFFF) == value,
        b.write(0xFFFF, value).read(addr) == b.read(addr),
{
}

/// Addresses nothing answers swallow writes: an I/O address without a
/// register reads `$FF`, the not-usable range `$00`, and writing either
/// changes nothing.
pub proof fn law_unowned_addresses_swallow_writes(b: BusView, addr: u16, value: u8)
    requires
        b.wf(),
        (0xFF00 <= addr <= 0xFF7F && !io_owned(addr - 0xFF00)) || (0xFEA0 <= addr <= 0xFEFF),
    ensures
        b.write(addr, value) == b,
        b.read(addr) == (if addr >= 0xFF00 { OPEN_BUS } else { 0x00u8 }),
{
    if 0xFF10 <= addr <= 0xFF26 {
        assert(b.apu.write(addr, value) == b.apu);
    }
}

/// VRAM keeps what is written to it while the PPU is not drawing; while it
/// draws (mode 3) writes are dropped and reads give `$FF`.
pub proof fn law_vram_access(b: BusView, addr: u16, value: u8)
    requires
        b.wf(),
        0x8000 <= addr <= 0x9FFF,
    ensures
        b.ppu.vram_accessible() ==> b.write(addr, value).read(addr) == value,
        !b.ppu.vram_accessible() ==> b.write(addr, value) == b && b.read(addr) == OPEN_BUS,
{
}

/// OAM keeps what is written to it in H-blank and V-blank (and with the LCD
/// off); during OAM scan and drawing writes are dropped and reads give
/// `$FF`.
pub proof fn law_oam_access(b: BusView, addr: u16, value: u8)
    requires
        b.wf(),
        0xFE00 <= addr <= 0xFE9F,
    ensures
        b.ppu.oam_accessible() ==> b.write(addr, value).read(addr) == value,
        !b.ppu.oam_accessible() ==> b.write(addr, value) == b && b.read(addr) == OPEN_BUS,
{
}

/// Any write to DIV resets it: `$FF04` reads `$00` afterwards.
pub proof fn law_div_write_resets(b: BusView, value: u8)
    requires
        b.wf(),
    ensures
        b.write(0xFF04, value).read(0xFF04) == 0,
{
}

/// One M-cycle after TIMA overflowed, the timer interrupt is requested (IF
/// bit 2).
pub proof fn law_timer_overflow_requests_interrupt(b: BusView)
    requires
        b.wf(),
        b.tima_overflow is Overflowed,
    ensures
        b.tick_timer().interrupt_flags() == b.interrupt_flags() | 0x04,
{
}

/// Keeping the cartridge is transitive.
pub proof fn lemma_cartridge_kept_transitive<C: Cartridge + ?Sized>(c: &Bus<C>, b: &Bus<C>, a: &Bus<C>)
    requires
        c.cartridge_kept(b),
        b.cartridge_kept(a),
    ensures
        c.cartridge_kept(a),
{
}

/// A cartridge that took a write and was then kept is the one that took
/// the write.
pub proof fn lemma_cartridge_written_then_kept<C: Cartridge + ?Sized>(c: &Bus<C>, b: &Bus<C>, a: &Bus<C>, addr: u16, value: u8)
    requires
        b.cartridge_after_write(a, addr, value),
        c.cartridge_kept(b),
    ensures
        c.cartridge_after_write(a, addr, value),
{
}

/// `n` M-cycles of the timer.
pub open spec fn timer_ticks(b: BusView, n: nat) -> BusView
    decreases n,
{
    if n == 0 { b } else { timer_ticks(b, (n - 1) as nat).tick_timer() }
}

/// The system counter counts 4 T-cycles per M-cycle, around at 65536; DIV
/// is its high byte. From hand-off (`$AB00`), DIV reads `(0xAB + n / 64) %
/// 256` after `n` M-cycles.
pub proof fn law_div_counts_m_cycles(b: BusView, n: nat)
    ensures
        timer_ticks(b, n).sys_counter == (b.sys_counter + 4 * n) % 65536,
        timer_ticks(b, n).read(0xFF04) == ((b.sys_counter + 4 * n) % 65536 / 256) as u8,
    decreases n,
{
    if n > 0 {
        law_div_counts_m_cycles(b, (n - 1) as nat);
        let prev = timer_ticks(b, (n - 1) as nat);
        let x = b.sys_counter + 4 * (n - 1);
        vstd::arithmetic::div_mod::lemma_add_mod_noop(x, 4, 65536);
        vstd::arithmetic::div_mod::lemma_mod_twice(4, 65536);
        assert((x % 65536 + 4) % 65536 == (x + 4) % 65536) by {
            vstd::arithmetic::div_mod::lemma_add_mod_noop(x % 65536, 4, 65536);
            vstd::arithmetic::div_mod::lemma_mod_twice(x, 65536);
        }
        assert(timer_ticks(b, n) == prev.tick_timer());
    }
}

/// While TAC's enable bit (bit 2) is clear and no overflow is under way,
/// TIMA does not count: over any number of M-cycles the I/O registers stay
/// as they were and TIMA reads what it read before, while DIV goes on
/// counting. From hand-off (TAC = `$F8`) TIMA stays `$00`.
pub proof fn law_tima_stopped_while_disabled(b: BusView, n: nat)
    requires
        b.io[0x07] & 0x04 == 0,
        !b.prev_and_result,
        b.tima_overflow is Idle,
    ensures
        timer_ticks(b, n).io == b.io,
        timer_ticks(b, n).read(0xFF05) == b.read(0xFF05),
        !timer_ticks(b, n).prev_and_result,
        timer_ticks(b, n).tima_overflow is Idle,
        timer_ticks(b, n) == (BusView { sys_counter: timer_ticks(b, n).sys_counter, ..b }),
    decreases n,
{
    if n > 0 {
        law_tima_stopped_while_disabled(b, (n - 1) as nat);
        let prev = timer_ticks(b, (n - 1) as nat);
        assert(!prev.and_result());
        assert(timer_ticks(b, n) == prev.tick_timer());
    }
}

/// `n` M-cycles of the APU on the bus.
pub open spec fn apu_ticks(b: BusView, n: nat) -> BusView
    decreases n,
{
    if n == 0 { b } else { apu_ticks(b, (n - 1) as nat).tick_apu() }
}

/// Ticking the APU on the bus touches nothing but the APU, and the frame
/// sequencer steps once per 2048 M-cycles from the start of a period: from
/// hand-off it stands at `(n / 2048) % 8` after `n` M-cycles.
pub proof fn law_bus_frame_sequencer(b: BusView, n: nat)
    requires
        b.apu.div_apu == 0,
        b.apu.frame_sequencer_step < 8,
    ensures
        apu_ticks(b, n) == (BusView { apu: crate::apu::ticks(b.apu, n), ..b }),
        apu_ticks(b, n).apu.frame_sequencer_step == (b.apu.frame_sequencer_step + n / 2048) % 8,
    decreases n,
{
    if n > 0 {
        law_bus_frame_sequencer(b, (n - 1) as nat);
    }
    crate::apu::law_frame_sequencer_counts(b.apu, n);
}

proof fn lemma_counter_bits(x: u16)
    by (bit_vector)
    ensures
        ((x >> 9u16) & 1u16 != 0u16) == ((x / 512u16) % 2u16 == 1u16),
        ((x >> 3u16) & 1u16 != 0u16) == ((x / 8u16) % 2u16 == 1u16),
        ((x >> 5u16) & 1u16 != 0u16) == ((x / 32u16) % 2u16 == 1u16),
        ((x >> 7u16) & 1u16 != 0u16) == ((x / 128u16) % 2u16 == 1u16),
{
}

proof fn lemma_select_bits(tac: u8)
    by (bit_vector)
    ensures
        tac & 0x03u8 == tac % 4u8,
{
}

/// The timer's input: with TAC bit 2 set, TIMA follows one bit of the
/// system counter, which counts T-cycles: TAC `%00` watches the bit worth
/// 512 (TIMA counts every 1024 T-cycles, 4096 Hz), `%01` the bit worth 8
/// (every 16), `%10` the bit worth 32 (every 64) and `%11` the bit worth 128
/// (every 256). TIMA counts when the input falls from 1 to 0.
pub proof fn law_timer_input_frequencies(b: BusView)
    ensures
        ({
            let select = b.io[0x07] % 4;
            let half: int = if select == 0 { 512 } else if select == 1 { 8 } else if select == 2 { 32 } else { 128 };
            b.and_result() == (b.io[0x07] & 0x04 != 0 && (b.sys_counter as int / half) % 2 == 1)
        }),
        b.after_edge(true).io == (if b.and_result() { b.io } else { b.increment_tima().io }),
{
    lemma_counter_bits(b.sys_counter);
    lemma_select_bits(b.io[0x07]);
}

} // verus!
