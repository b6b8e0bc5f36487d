//! The M-cycle loop: fetch, decode and execute as a state machine that
//! advances one M-cycle per call.
//!
//! The first M-cycle of every instruction reads the opcode at `PC`, steps
//! `PC` past it and decodes it; the instruction's later M-cycles follow, one
//! per call. A call makes at most one bus access, and after the CPU's part
//! the timer, the PPU, the APU and the joypad each advance one M-cycle too,
//! so that everything the instruction touches sees time pass inside it.
//!
//! Decoded so far: `NOP`, `JP u16` and the `LD r8,r8` block (`$40`-`$7F`,
//! where `$76` is `HALT`, not `LD (HL),(HL)`). The eleven opcodes the SM83
//! does not have lock the CPU up; the legitimate ones not decoded yet stop it
//! with [`Lockup::UndecodedOpcode`].
use vstd::prelude::*;

use crate::bus::{lemma_cartridge_kept_transitive, lemma_cartridge_written_then_kept, Bus, BusView};
use crate::cart::HeaderChecksum;
use crate::cpu::registers::{pair_spec, with_flags, Registers};

verus! {

/// `$00`: `NOP`, one M-cycle.
const NOP: u8 = 0x00;
/// `$C3`: `JP u16`, four M-cycles: fetch, read the low byte, read the high
/// byte, and an internal cycle that takes the branch.
const JP_U16: u8 = 0xC3;
/// `$40`-`$7F`: the `LD r8,r8` block, `01 ddd sss`.
const LD_R8_R8_FIRST: u8 = 0x40;
const LD_R8_R8_LAST: u8 = 0x7F;
/// `$76`: `HALT`, the one hole in the `LD r8,r8` block.
const HALT: u8 = 0x76;

/// Why the CPU stopped fetching instructions.
#[derive(Debug, Clone, Copy, PartialEq, Eq)]
pub enum Lockup {
    /// An opcode the SM83 does not have; the hardware locks up on it.
    IllegalOpcode(u8),
    /// A legitimate opcode this core does not decode yet.
    UndecodedOpcode(u8),
}

/// One of the seven 8-bit registers an `r8` operand can name.
#[derive(Debug, Clone, Copy, PartialEq, Eq)]
pub enum ByteRegister {
    B,
    C,
    D,
    E,
    H,
    L,
    A,
}

/// The `r8` operand: three bits, where 6 is the memory at `HL`.
#[derive(Debug, Clone, Copy, PartialEq, Eq)]
pub enum R8 {
    Register(ByteRegister),
    MemoryAtHl,
}

/// The M-cycles of `JP u16` after its fetch.
#[derive(Debug, Clone, Copy, PartialEq, Eq)]
pub enum JumpImmediate {
    /// M2: read the low byte.
    ReadLowByte,
    /// M3: read the high byte.
    ReadHighByte,
    /// M4: internal; only now does `PC` change.
    SetProgramCounter,
}

/// Where the CPU stands inside the current instruction.
#[derive(Debug, Clone, Copy, PartialEq, Eq)]
pub enum State {
    /// Between instructions: the next M-cycle fetches the opcode at `PC`.
    Fetch,
    /// Inside `JP u16`.
    JumpImmediate(JumpImmediate),
    /// Inside `LD r,(HL)`: M2 reads `(HL)` into the register.
    LoadFromHl(ByteRegister),
    /// Inside `LD (HL),r`: M2 writes the register to `(HL)`.
    StoreToHl(ByteRegister),
    /// Stopped for good.
    Locked(Lockup),
}

/// The operand that the low three bits of `bits` name.
pub open spec fn r8_spec(bits: u8) -> R8 {
    let b = bits % 8;
    if b == 0 { R8::Register(ByteRegister::B) }
    else if b == 1 { R8::Register(ByteRegister::C) }
    else if b == 2 { R8::Register(ByteRegister::D) }
    else if b == 3 { R8::Register(ByteRegister::E) }
    else if b == 4 { R8::Register(ByteRegister::H) }
    else if b == 5 { R8::Register(ByteRegister::L) }
    else if b == 6 { R8::MemoryAtHl }
    else { R8::Register(ByteRegister::A) }
}

/// The eleven opcodes the SM83 does not have.
pub open spec fn is_illegal_opcode(op: u8) -> bool {
    op == 0xD3 || op == 0xDB || op == 0xDD || op == 0xE3 || op == 0xE4 || op == 0xEB || op == 0xEC
        || op == 0xED || op == 0xF4 || op == 0xFC || op == 0xFD
}

/// The value of an 8-bit register.
pub open spec fn reg_value(regs: Registers, r: ByteRegister) -> u8 {
    match r {
        ByteRegister::B => regs.b,
        ByteRegister::C => regs.c,
        ByteRegister::D => regs.d,
        ByteRegister::E => regs.e,
        ByteRegister::H => regs.h,
        ByteRegister::L => regs.l,
        ByteRegister::A => regs.a,
    }
}

/// `regs` with one 8-bit register set to `value`.
pub open spec fn with_reg(regs: Registers, r: ByteRegister, value: u8) -> Registers {
    match r {
        ByteRegister::B => Registers { b: value, ..regs },
        ByteRegister::C => Registers { c: value, ..regs },
        ByteRegister::D => Registers { d: value, ..regs },
        ByteRegister::E => Registers { e: value, ..regs },
        ByteRegister::H => Registers { h: value, ..regs },
        ByteRegister::L => Registers { l: value, ..regs },
        ByteRegister::A => Registers { a: value, ..regs },
    }
}

/// `pc + 1`, around at `$FFFF`.
pub open spec fn next_pc(pc: u16) -> u16 {
    if pc == 0xFFFF { 0 } else { (pc + 1) as u16 }
}

/// The CPU state.
pub struct CpuView {
    pub registers: Registers,
    pub state: State,
    /// Operand bytes fetched by one M-cycle for a later one.
    pub latch: u16,
}

impl CpuView {
    /// The address this M-cycle reads, if it reads the bus.
    pub open spec fn read_address(self) -> Option<u16> {
        match self.state {
            State::Fetch => Some(self.registers.pc),
            State::JumpImmediate(JumpImmediate::ReadLowByte) => Some(self.registers.pc),
            State::JumpImmediate(JumpImmediate::ReadHighByte) => Some(self.registers.pc),
            State::LoadFromHl(_) => Some(pair_spec(self.registers.h, self.registers.l)),
            _ => None,
        }
    }

    /// The byte this M-cycle's read of `bus` gives (0 when it reads
    /// nothing): the cartridge's answer inside its windows, the bus's value
    /// elsewhere.
    pub open spec fn bus_byte(self, bus: &Bus) -> u8 {
        match self.read_address() {
            Some(addr) => bus.read_spec(addr),
            None => 0,
        }
    }

    /// Whether the cartridge of `after` is that of `before` after this
    /// M-cycle: it took the write of `LD (HL),r` when that write goes to it,
    /// and is left alone otherwise.
    pub open spec fn cartridge_effect(self, before: &Bus, after: &Bus) -> bool {
        match self.state {
            State::StoreToHl(source) => after.cartridge_after_write(
                before,
                pair_spec(self.registers.h, self.registers.l),
                reg_value(self.registers, source),
            ),
            _ => after.cartridge_kept(before),
        }
    }

    /// The state after the fetch of `opcode` (with `PC` already past it).
    pub open spec fn decode(self, opcode: u8) -> CpuView {
        if opcode == 0x00 {
            CpuView { state: State::Fetch, ..self }
        } else if opcode == 0xC3 {
            CpuView { state: State::JumpImmediate(JumpImmediate::ReadLowByte), ..self }
        } else if opcode == 0x76 {
            CpuView { state: State::Locked(Lockup::UndecodedOpcode(opcode)), ..self }
        } else if 0x40 <= opcode <= 0x7F {
            match (r8_spec(opcode >> 3), r8_spec(opcode)) {
                (R8::Register(dest), R8::Register(source)) => CpuView {
                    registers: with_reg(self.registers, dest, reg_value(self.registers, source)),
                    state: State::Fetch,
                    ..self
                },
                (R8::Register(dest), R8::MemoryAtHl) => CpuView { state: State::LoadFromHl(dest), ..self },
                (R8::MemoryAtHl, R8::Register(source)) => CpuView { state: State::StoreToHl(source), ..self },
                (R8::MemoryAtHl, R8::MemoryAtHl) => CpuView { state: State::Locked(Lockup::UndecodedOpcode(opcode)), ..self },
            }
        } else if is_illegal_opcode(opcode) {
            CpuView { state: State::Locked(Lockup::IllegalOpcode(opcode)), ..self }
        } else {
            CpuView { state: State::Locked(Lockup::UndecodedOpcode(opcode)), ..self }
        }
    }

    /// The CPU after one M-cycle in which the bus read (if any) gave `byte`.
    pub open spec fn next(self, byte: u8) -> CpuView {
        let advanced = Registers { pc: next_pc(self.registers.pc), ..self.registers };
        match self.state {
            State::Fetch => CpuView { registers: advanced, ..self }.decode(byte),
            State::JumpImmediate(JumpImmediate::ReadLowByte) => CpuView {
                registers: advanced,
                latch: byte as u16,
                state: State::JumpImmediate(JumpImmediate::ReadHighByte),
            },
            State::JumpImmediate(JumpImmediate::ReadHighByte) => CpuView {
                registers: advanced,
                latch: self.latch | ((byte as u16) << 8u16),
                state: State::JumpImmediate(JumpImmediate::SetProgramCounter),
            },
            State::JumpImmediate(JumpImmediate::SetProgramCounter) => CpuView {
                registers: Registers { pc: self.latch, ..self.registers },
                state: State::Fetch,
                ..self
            },
            State::LoadFromHl(dest) => CpuView {
                registers: with_reg(self.registers, dest, byte),
                state: State::Fetch,
                ..self
            },
            State::StoreToHl(_) => CpuView { state: State::Fetch, ..self },
            State::Locked(_) => self,
        }
    }

    /// The bus after this M-cycle's write, if it writes.
    pub open spec fn write_effect(self, bus: BusView) -> BusView {
        match self.state {
            State::StoreToHl(source) => bus.write(
                pair_spec(self.registers.h, self.registers.l),
                reg_value(self.registers, source),
            ),
            _ => bus,
        }
    }

    /// Why the CPU stopped, if it did.
    pub open spec fn lockup(self) -> Option<Lockup> {
        match self.state {
            State::Locked(l) => Some(l),
            _ => None,
        }
    }
}

impl BusView {
    /// One M-cycle of everything on the bus that keeps time: the timer, the
    /// PPU, the APU and the joypad's interrupt request, in that order.
    pub open spec fn tick_peripherals(self) -> BusView {
        self.tick_timer().tick_ppu().tick_apu().tick_joypad_interrupt()
    }
}

/// The SM83 CPU and where it stands inside the current instruction.
#[derive(Debug, Clone)]
pub struct Cpu {
    /// The register file.
    pub registers: Registers,
    state: State,
    latch: u16,
}

impl View for Cpu {
    type V = CpuView;

    closed spec fn view(&self) -> CpuView {
        CpuView { registers: self.registers, state: self.state, latch: self.latch }
    }
}

impl Cpu {
    /// The CPU as the DMG boot ROM hands control to the cartridge: the
    /// post-boot registers (see [`Registers::after_boot_rom`]), between
    /// instructions, with the next M-cycle fetching at `$0100`.
    pub fn after_boot_rom(checksum: HeaderChecksum) -> (c: Self)
        ensures
            c@.state == State::Fetch,
            c@.latch == 0,
            c@.registers == (Registers {
                a: 0x01, f: with_flags(0, true, false, checksum@.0 != 0, checksum@.0 != 0),
                b: 0x00, c: 0x13, d: 0x00, e: 0xD8, h: 0x01, l: 0x4D, sp: 0xFFFE, pc: 0x0100,
            }),
    {
        Self { registers: Registers::after_boot_rom(checksum), state: State::Fetch, latch: 0 }
    }

    /// Advances one M-cycle: the CPU's part, with at most one bus access,
    /// then one M-cycle of the timer, PPU, APU and joypad.
    ///
    /// The byte a read gives is the bus's outside the cartridge windows and
    /// the cartridge's answer inside them.
    pub fn step(&mut self, bus: &mut Bus)
        requires
            old(bus)@.wf(),
        ensures
            final(bus)@.wf(),
            final(self)@ == old(self)@.next(old(self)@.bus_byte(old(bus))),
            final(bus)@ == old(self)@.write_effect(old(bus)@).tick_peripherals(),
            old(self)@.cartridge_effect(old(bus), final(bus)),
    {
        let ghost before = self@;
        let ghost bus_before = *bus;
        let mut byte: u8 = 0;
        let next = match self.state {
            State::Fetch => {
                byte = self.read_at_pc(bus);
                self.fetch(byte)
            },
            State::JumpImmediate(phase) => {
                byte = self.jump_immediate(bus, phase);
                match phase {
                    JumpImmediate::ReadLowByte => State::JumpImmediate(JumpImmediate::ReadHighByte),
                    JumpImmediate::ReadHighByte => State::JumpImmediate(JumpImmediate::SetProgramCounter),
                    JumpImmediate::SetProgramCounter => State::Fetch,
                }
            },
            State::LoadFromHl(dest) => {
                byte = self.load_from_hl(bus, dest);
                State::Fetch
            },
            State::StoreToHl(source) => {
                self.store_to_hl(bus, source);
                State::Fetch
            },
            State::Locked(lockup) => State::Locked(lockup),
        };
        self.state = next;
        let ghost cpu_done = *bus;
        proof {
            if !(before.state is StoreToHl) {
                assert(cpu_done.cartridge_kept(&bus_before));
            }
        }
        bus.tick_timer();
        let ghost b1 = *bus;
        bus.tick_ppu();
        let ghost b2 = *bus;
        bus.tick_apu();
        let ghost b3 = *bus;
        bus.tick_joypad_interrupt();
        proof {
            lemma_cartridge_kept_transitive(&b2, &b1, &cpu_done);
            lemma_cartridge_kept_transitive(&b3, &b2, &cpu_done);
            lemma_cartridge_kept_transitive(&*bus, &b3, &cpu_done);
            match before.state {
                State::StoreToHl(source) => {
                    lemma_cartridge_written_then_kept(
                        &*bus,
                        &cpu_done,
                        &bus_before,
                        pair_spec(before.registers.h, before.registers.l),
                        reg_value(before.registers, source),
                    );
                },
                _ => {
                    lemma_cartridge_kept_transitive(&*bus, &cpu_done, &bus_before);
                },
            }
        }
        assert(byte == before.bus_byte(&bus_before));
        assert(self@ == before.next(byte));
    }

    /// Why the CPU stopped, if it did.
    pub fn lockup(&self) -> (r: Option<Lockup>)
        ensures
            r == self@.lockup(),
    {
        match self.state {
            State::Locked(lockup) => Some(lockup),
            _ => None,
        }
    }

    /// Whether the last instruction is done and the next one not started. A
    /// locked CPU is not: there is no next instruction.
    pub fn is_between_instructions(&self) -> (r: bool)
        ensures
            r == (self@.state is Fetch),
    {
        matches!(self.state, State::Fetch)
    }

    /// M1 of every instruction, after the opcode was read: decodes it.
    fn fetch(&mut self, opcode: u8) -> (s: State)
        ensures
            (CpuView { state: s, ..final(self)@ }) == old(self)@.decode(opcode),
    {
        if opcode == NOP {
            State::Fetch
        } else if opcode == JP_U16 {
            State::JumpImmediate(JumpImmediate::ReadLowByte)
        } else if opcode == HALT {
            State::Locked(Lockup::UndecodedOpcode(opcode))
        } else if LD_R8_R8_FIRST <= opcode && opcode <= LD_R8_R8_LAST {
            self.load_r8_r8(opcode)
        } else if opcode == 0xD3 || opcode == 0xDB || opcode == 0xDD || opcode == 0xE3 || opcode
            == 0xE4 || opcode == 0xEB || opcode == 0xEC || opcode == 0xED || opcode == 0xF4
            || opcode == 0xFC || opcode == 0xFD {
            State::Locked(Lockup::IllegalOpcode(opcode))
        } else {
            State::Locked(Lockup::UndecodedOpcode(opcode))
        }
    }

    /// M2-M4 of `JP u16`; returns the byte read, if any.
    fn jump_immediate(&mut self, bus: &Bus, phase: JumpImmediate) -> (byte: u8)
        requires
            bus@.wf(),
            old(self)@.state == State::JumpImmediate(phase),
        ensures
            final(self)@ == (CpuView { state: final(self)@.state, ..old(self)@.next(byte) }),
            final(self)@.state == old(self)@.state,
            byte == old(self)@.bus_byte(bus),
    {
        match phase {
            JumpImmediate::ReadLowByte => {
                let low = self.read_at_pc(bus);
                self.latch = low as u16;
                low
            },
            JumpImmediate::ReadHighByte => {
                let high = self.read_at_pc(bus);
                self.latch = self.latch | ((high as u16) << 8u16);
                high
            },
            JumpImmediate::SetProgramCounter => {
                self.registers.pc = self.latch;
                0
            },
        }
    }

    /// Decodes an opcode of the `01 ddd sss` block; a register-to-register
    /// load finishes here, in M1.
    fn load_r8_r8(&mut self, opcode: u8) -> (s: State)
        requires
            LD_R8_R8_FIRST <= opcode <= LD_R8_R8_LAST,
            opcode != HALT,
        ensures
            (CpuView { state: s, ..final(self)@ }) == old(self)@.decode(opcode),
    {
        match (R8::from_bits(opcode >> 3), R8::from_bits(opcode)) {
            (R8::Register(dest), R8::Register(source)) => {
                let value = self.read_r8(source);
                self.write_r8(dest, value);
                State::Fetch
            },
            (R8::Register(dest), R8::MemoryAtHl) => State::LoadFromHl(dest),
            (R8::MemoryAtHl, R8::Register(source)) => State::StoreToHl(source),
            (R8::MemoryAtHl, R8::MemoryAtHl) => State::Locked(Lockup::UndecodedOpcode(opcode)),
        }
    }

    /// M2 of `LD r,(HL)`: reads `(HL)` into `dest`; returns the byte.
    fn load_from_hl(&mut self, bus: &Bus, dest: ByteRegister) -> (byte: u8)
        requires
            bus@.wf(),
        ensures
            final(self)@ == (CpuView { registers: with_reg(old(self)@.registers, dest, byte), ..old(self)@ }),
            byte == bus.read_spec(old(self).registers.hl_spec()),
    {
        let value = bus.read(self.registers.hl());
        self.write_r8(dest, value);
        value
    }

    /// M2 of `LD (HL),r`: writes `source` to `(HL)`.
    fn store_to_hl(&mut self, bus: &mut Bus, source: ByteRegister)
        requires
            old(bus)@.wf(),
        ensures
            final(self)@ == old(self)@,
            final(bus)@.wf(),
            final(bus)@ == old(bus)@.write(old(self).registers.hl_spec(), reg_value(old(self).registers, source)),
            final(bus).cartridge_after_write(old(bus), old(self).registers.hl_spec(), reg_value(old(self).registers, source)),
    {
        let value = self.read_r8(source);
        bus.write(self.registers.hl(), value);
    }

    /// The value of one of the seven 8-bit registers.
    fn read_r8(&self, which: ByteRegister) -> (r: u8)
        ensures
            r == reg_value(self.registers, which),
    {
        match which {
            ByteRegister::B => self.registers.b,
            ByteRegister::C => self.registers.c,
            ByteRegister::D => self.registers.d,
            ByteRegister::E => self.registers.e,
            ByteRegister::H => self.registers.h,
            ByteRegister::L => self.registers.l,
            ByteRegister::A => self.registers.a,
        }
    }

    /// Writes one of the seven 8-bit registers.
    fn write_r8(&mut self, which: ByteRegister, value: u8)
        ensures
            final(self)@ == (CpuView { registers: with_reg(old(self)@.registers, which, value), ..old(self)@ }),
    {
        match which {
            ByteRegister::B => self.registers.b = value,
            ByteRegister::C => self.registers.c = value,
            ByteRegister::D => self.registers.d = value,
            ByteRegister::E => self.registers.e = value,
            ByteRegister::H => self.registers.h = value,
            ByteRegister::L => self.registers.l = value,
            ByteRegister::A => self.registers.a = value,
        }
    }

    /// Reads the byte at `PC` and steps `PC` past it, around at `$FFFF`.
    fn read_at_pc(&mut self, bus: &Bus) -> (byte: u8)
        requires
            bus@.wf(),
        ensures
            final(self)@ == (CpuView {
                registers: Registers { pc: next_pc(old(self)@.registers.pc), ..old(self)@.registers },
                ..old(self)@
            }),
            byte == bus.read_spec(old(self).registers.pc),
    {
        let byte = bus.read(self.registers.pc);
        self.registers.pc = self.registers.pc.wrapping_add(1);
        byte
    }
}

impl R8 {
    /// Decodes the three bits of an `r8` field.
    fn from_bits(bits: u8) -> (r: Self)
        ensures
            r == r8_spec(bits),
    {
        assert(bits & 7 == bits % 8) by (bit_vector);
        match bits & 0b111 {
            0 => Self::Register(ByteRegister::B),
            1 => Self::Register(ByteRegister::C),
            2 => Self::Register(ByteRegister::D),
            3 => Self::Register(ByteRegister::E),
            4 => Self::Register(ByteRegister::H),
            5 => Self::Register(ByteRegister::L),
            6 => Self::MemoryAtHl,
            _ => Self::Register(ByteRegister::A),
        }
    }
}

/// The CPU after one M-cycle per byte of `bytes`, each M-cycle's bus read
/// giving that byte.
pub open spec fn run_bytes(c: CpuView, bytes: Seq<u8>) -> CpuView
    decreases bytes.len(),
{
    if bytes.len() == 0 {
        c
    } else {
        run_bytes(c.next(bytes[0]), bytes.drop_first())
    }
}

/// The two bytes of a little-endian operand make one 16-bit value.
pub(crate) proof fn lemma_little_endian(low: u8, high: u8)
    ensures
        ((low as u16) | ((high as u16) << 8u16)) == low + high * 256,
{
    assert(((low as u16) | ((high as u16) << 8u16)) == low + high * 256) by (bit_vector);
}

/// `NOP` takes one M-cycle and only moves `PC` past itself.
pub proof fn law_nop(c: CpuView)
    requires
        c.state is Fetch,
    ensures
        c.next(0x00) == (CpuView { registers: Registers { pc: next_pc(c.registers.pc), ..c.registers }, ..c }),
{
}

/// `JP u16` takes four M-cycles (fetch, low byte, high byte, and an internal
/// one) and lands on its little-endian operand; `PC` changes only in the
/// last, and no other register changes.
pub proof fn law_jp_u16(c: CpuView, low: u8, high: u8, any: u8)
    requires
        c.state is Fetch,
    ensures
        run_bytes(c, seq![0xC3u8]).state !is Fetch,
        run_bytes(c, seq![0xC3u8, low]).state !is Fetch,
        run_bytes(c, seq![0xC3u8, low, high]).state !is Fetch,
        run_bytes(c, seq![0xC3u8, low, high, any]).state is Fetch,
        run_bytes(c, seq![0xC3u8, low, high, any]).registers == (Registers { pc: (low + high * 256) as u16, ..c.registers }),
{
    reveal_with_fuel(run_bytes, 5);
    lemma_little_endian(low, high);
    assert(seq![0xC3u8, low].drop_first() =~= seq![low]);
    assert(seq![0xC3u8, low, high].drop_first() =~= seq![low, high]);
    assert(seq![low, high].drop_first() =~= seq![high]);
    assert(seq![0xC3u8, low, high, any].drop_first() =~= seq![low, high, any]);
    assert(seq![low, high, any].drop_first() =~= seq![high, any]);
    assert(seq![high, any].drop_first() =~= seq![any]);
    assert(seq![0xC3u8].drop_first() =~= Seq::<u8>::empty());
    assert(seq![low].drop_first() =~= Seq::<u8>::empty());
    assert(seq![high].drop_first() =~= Seq::<u8>::empty());
    assert(seq![any].drop_first() =~= Seq::<u8>::empty());
}

/// `LD r,r'` (both operands registers) finishes in its fetch: `r` takes the
/// value `r'` had, `PC` moves past the opcode, nothing else changes.
pub proof fn law_ld_register_to_register(c: CpuView, opcode: u8, dest: ByteRegister, source: ByteRegister)
    requires
        c.state is Fetch,
        0x40 <= opcode <= 0x7F,
        r8_spec(opcode >> 3) == R8::Register(dest),
        r8_spec(opcode) == R8::Register(source),
    ensures
        c.next(opcode).state is Fetch,
        c.next(opcode).registers == with_reg(
            Registers { pc: next_pc(c.registers.pc), ..c.registers },
            dest,
            reg_value(c.registers, source),
        ),
{
}

/// `LD r,(HL)` takes two M-cycles: the second reads `(HL)` (the `HL` of
/// before the load) into `r`.
pub proof fn law_ld_register_from_hl(c: CpuView, opcode: u8, dest: ByteRegister, byte: u8)
    requires
        c.state is Fetch,
        0x40 <= opcode <= 0x7F,
        r8_spec(opcode >> 3) == R8::Register(dest),
        r8_spec(opcode) == R8::MemoryAtHl,
    ensures
        c.next(opcode).state == State::LoadFromHl(dest),
        c.next(opcode).read_address() == Some(pair_spec(c.registers.h, c.registers.l)),
        c.next(opcode).next(byte).state is Fetch,
        c.next(opcode).next(byte).registers == with_reg(
            Registers { pc: next_pc(c.registers.pc), ..c.registers },
            dest,
            byte,
        ),
{
    assert(opcode == 0x76 ==> (opcode >> 3) % 8 == 6) by (bit_vector);
}

/// `LD (HL),r` takes two M-cycles: the second writes `r` to `(HL)` and
/// changes no register.
pub proof fn law_ld_hl_from_register(c: CpuView, opcode: u8, source: ByteRegister, byte: u8, bus: BusView)
    requires
        c.state is Fetch,
        0x40 <= opcode <= 0x7F,
        r8_spec(opcode >> 3) == R8::MemoryAtHl,
        r8_spec(opcode) == R8::Register(source),
    ensures
        c.next(opcode).write_effect(bus) == bus.write(
            pair_spec(c.registers.h, c.registers.l),
            reg_value(c.registers, source),
        ),
        c.next(opcode).next(byte).state is Fetch,
        c.next(opcode).next(byte).registers == (Registers { pc: next_pc(c.registers.pc), ..c.registers }),
{
}

/// The opcodes the SM83 does not have lock it up, and a locked CPU stays
/// locked whatever the bus gives.
pub proof fn law_illegal_opcodes_lock_up_for_good(c: CpuView, opcode: u8, later: Seq<u8>)
    requires
        c.state is Fetch,
        is_illegal_opcode(opcode),
    ensures
        c.next(opcode).lockup() == Some(Lockup::IllegalOpcode(opcode)),
        run_bytes(c.next(opcode), later) == c.next(opcode),
    decreases later.len(),
{
    if later.len() > 0 {
        law_illegal_opcodes_lock_up_for_good(c, opcode, later.drop_first());
    }
}

/// `$76` is `HALT`, not `LD (HL),(HL)`: it is not decoded yet and stops the
/// CPU as such.
pub proof fn law_halt_is_not_a_load(c: CpuView)
    requires
        c.state is Fetch,
    ensures
        c.next(0x76).lockup() == Some(Lockup::UndecodedOpcode(0x76)),
{
}

/// One M-cycle only ever appends to the serial output.
pub proof fn lemma_step_appends_serial(c: CpuView, b: BusView)
    ensures
        b.serial.output.len() <= c.write_effect(b).tick_peripherals().serial.output.len(),
        c.write_effect(b).tick_peripherals().serial.output.subrange(0, b.serial.output.len() as int)
            == b.serial.output,
{
    let w = c.write_effect(b);
    assert(w.serial.output.len() >= b.serial.output.len());
    assert(w.serial.output.subrange(0, b.serial.output.len() as int) =~= b.serial.output);
    let t1 = w.tick_timer();
    assert(t1.serial == w.serial);
    let t2 = t1.tick_ppu();
    assert(t2.serial == t1.serial);
    let t3 = t2.tick_apu();
    assert(t3.serial == t2.serial);
    let t4 = t3.tick_joypad_interrupt();
    assert(t4.serial == t3.serial);
}

/// The seven registers in the order the SM83 numbers its `r8` operands:
/// 0 = B, 1 = C, 2 = D, 3 = E, 4 = H, 5 = L, 7 = A (6 is `(HL)`, no
/// register; it holds 0 here).
pub open spec fn sm83_r8_order(r: Registers) -> Seq<u8> {
    seq![r.b, r.c, r.d, r.e, r.h, r.l, 0u8, r.a]
}

/// Bits 5-3 and 2-0 of an opcode are its two `r8` fields.
proof fn lemma_r8_fields(opcode: u8)
    ensures
        (opcode >> 3) % 8 == (opcode / 8) % 8,
{
    assert((opcode >> 3) == opcode / 8) by (bit_vector);
}

/// `LD r,r'` (`$40`-`$7F`, neither field 6) copies register number
/// `opcode % 8` into register number `(opcode / 8) % 8`, in the SM83 order
/// B, C, D, E, H, L, -, A: e.g. `$50` (`LD D,B`) sets D to B and leaves E,
/// and `$5A` (`LD E,D`) sets E to D. No other register but `PC` changes.
pub proof fn law_ld_r8_field_order(c: CpuView, opcode: u8)
    requires
        c.state is Fetch,
        0x40 <= opcode <= 0x7F,
        opcode % 8 != 6,
        (opcode / 8) % 8 != 6,
    ensures
        c.next(opcode).state is Fetch,
        sm83_r8_order(c.next(opcode).registers) == sm83_r8_order(c.registers).update(
            ((opcode / 8) % 8) as int,
            sm83_r8_order(c.registers)[(opcode % 8) as int],
        ),
        c.next(opcode).registers.f == c.registers.f,
        c.next(opcode).registers.sp == c.registers.sp,
        c.next(opcode).registers.pc == next_pc(c.registers.pc),
{
    lemma_r8_fields(opcode);
    let before = sm83_r8_order(c.registers);
    let after = sm83_r8_order(c.next(opcode).registers);
    let expected = before.update(((opcode / 8) % 8) as int, before[(opcode % 8) as int]);
    assert(after =~= expected);
}

/// `LD r,(HL)` writes the byte read at `HL` into register number
/// `(opcode / 8) % 8` of the SM83 order, and `LD (HL),r` writes register
/// number `opcode % 8` to `HL`.
pub proof fn law_ld_hl_field_order(c: CpuView, opcode: u8, byte: u8, bus: BusView)
    requires
        c.state is Fetch,
        0x40 <= opcode <= 0x7F,
        opcode != 0x76,
    ensures
        opcode % 8 == 6 ==> sm83_r8_order(c.next(opcode).next(byte).registers) == sm83_r8_order(c.registers).update(
            ((opcode / 8) % 8) as int,
            byte,
        ),
        (opcode / 8) % 8 == 6 ==> c.next(opcode).write_effect(bus) == bus.write(
            pair_spec(c.registers.h, c.registers.l),
            sm83_r8_order(c.registers)[(opcode % 8) as int],
        ),
{
    lemma_r8_fields(opcode);
    assert(opcode % 8 == 6 ==> (opcode / 8) % 8 != 6);
    if opcode % 8 == 6 {
        let after = sm83_r8_order(c.next(opcode).next(byte).registers);
        assert(after =~= sm83_r8_order(c.registers).update(((opcode / 8) % 8) as int, byte));
    }
}

/// Exactly the eleven opcodes the SM83 lacks, `$D3 $DB $DD $E3 $E4 $EB
/// $EC $ED $F4 $FC $FD`, lock the CPU up as illegal when fetched.
pub proof fn law_illegal_opcode_table(c: CpuView, opcode: u8)
    requires
        c.state is Fetch,
    ensures
        (c.next(opcode).lockup() == Some(Lockup::IllegalOpcode(opcode))) <==> (
            opcode == 0xD3 || opcode == 0xDB || opcode == 0xDD || opcode == 0xE3 || opcode == 0xE4
            || opcode == 0xEB || opcode == 0xEC || opcode == 0xED || opcode == 0xF4 || opcode == 0xFC
            || opcode == 0xFD
        ),
{
}

} // verus!
