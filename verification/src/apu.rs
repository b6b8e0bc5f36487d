//! The audio processing unit: the sound registers at `$FF10`-`$FF26` and the
//! wave RAM, the 512 Hz frame sequencer, and the two pulse channels (channel
//! 1 with its frequency sweep, channel 2 without).
use vstd::prelude::*;

use crate::cart::OPEN_BUS;
use vstd::arithmetic::power2::pow2;

verus! {

const NR10_ADDR: u16 = 0xFF10;
const NR11_ADDR: u16 = 0xFF11;
const NR12_ADDR: u16 = 0xFF12;
const NR13_ADDR: u16 = 0xFF13;
const NR14_ADDR: u16 = 0xFF14;
const NR21_ADDR: u16 = 0xFF16;
const NR22_ADDR: u16 = 0xFF17;
const NR23_ADDR: u16 = 0xFF18;
const NR24_ADDR: u16 = 0xFF19;
const NR30_ADDR: u16 = 0xFF1A;
const NR31_ADDR: u16 = 0xFF1B;
const NR32_ADDR: u16 = 0xFF1C;
const NR33_ADDR: u16 = 0xFF1D;
const NR34_ADDR: u16 = 0xFF1E;
const NR41_ADDR: u16 = 0xFF20;
const NR42_ADDR: u16 = 0xFF21;
const NR43_ADDR: u16 = 0xFF22;
const NR44_ADDR: u16 = 0xFF23;
const NR50_ADDR: u16 = 0xFF24;
const NR51_ADDR: u16 = 0xFF25;
const NR52_ADDR: u16 = 0xFF26;
const WAVE_RAM_BASE: u16 = 0xFF30;
const WAVE_RAM_END: u16 = 0xFF3F;

/// T-cycles between two frame sequencer steps (512 Hz).
const T_CYCLES_PER_FRAME_SEQUENCER_TICK: u32 = 8192;
/// NR52 bit 7: the APU is powered.
const NR52_POWER_BIT: u8 = 0x80;
/// NRx4 bit 7: trigger.
const NRX4_TRIGGER_BIT: u8 = 0x80;
/// A pulse channel's frequency timer overflows here.
const FREQ_MAX: u16 = 2048;

/// Positions in the register array (see [`reg_index`]).
pub const NR10: usize = 0;
pub const NR11: usize = 1;
pub const NR12: usize = 2;
pub const NR13: usize = 3;
pub const NR14: usize = 4;
pub const NR21: usize = 5;
pub const NR22: usize = 6;
pub const NR23: usize = 7;
pub const NR24: usize = 8;
pub const NR52: usize = 20;

/// The 11-bit period from the low byte (NRx3) and bits 2-0 of NRx4.
pub open spec fn period_spec(low: u8, high: u8) -> u16 {
    (low + (high % 8) * 256) as u16
}

/// The state of a pulse channel.
pub struct PulseView {
    pub enabled: bool,
    /// Counts up by 4 per M-cycle; at 2048 it reloads with the period.
    pub freq_timer: u16,
    /// Position in the 8-step duty waveform.
    pub duty_step: u8,
    pub envelope_volume: u8,
    pub envelope_timer: u8,
}

/// The state of channel 1's frequency sweep.
pub struct SweepView {
    pub enabled: bool,
    /// The period the sweep works on.
    pub shadow: u16,
    pub timer: u8,
}

/// The period after one sweep step: `shadow` plus or minus
/// `shadow >> step`, by NR10 bit 3.
pub open spec fn sweep_target(shadow: u16, nr10: u8) -> int {
    let delta = shadow as nat / pow2((nr10 % 8) as nat);
    if (nr10 >> 3) % 2 != 0 { shadow - delta } else { shadow + delta }
}

impl PulseView {
    /// The invariant: the frequency timer stays below its overflow point, and
    /// the volume and duty position in range.
    pub open spec fn wf(self) -> bool {
        self.freq_timer < 2048 && self.duty_step < 8 && self.envelope_volume <= 15
    }

    /// A channel at power-on.
    pub open spec fn initial() -> PulseView {
        PulseView { enabled: false, freq_timer: 0, duty_step: 0, envelope_volume: 0, envelope_timer: 0 }
    }

    /// A trigger: the channel turns on, the frequency timer takes the period,
    /// the volume takes NRx2 bits 7-4 and the envelope timer its pace (8 for
    /// a pace of 0).
    pub open spec fn trigger(self, nrx2: u8, period: u16) -> PulseView {
        let pace = nrx2 % 8;
        PulseView {
            enabled: true,
            freq_timer: period,
            envelope_volume: nrx2 / 16,
            envelope_timer: if pace == 0 { 8 } else { pace },
            ..self
        }
    }

    /// One M-cycle of the frequency timer: 4 T-cycles; on reaching 2048 it
    /// reloads with the period and the duty position advances.
    pub open spec fn tick_freq(self, period: u16) -> PulseView {
        let advanced = self.freq_timer + 4;
        if advanced >= 2048 {
            PulseView { freq_timer: period, duty_step: ((self.duty_step + 1) % 8) as u8, ..self }
        } else {
            PulseView { freq_timer: advanced as u16, ..self }
        }
    }

    /// One envelope clock: with a non-zero pace the timer counts down; at 0
    /// it reloads and the volume moves one step (up with NRx2 bit 3 set,
    /// down otherwise) within 0-15.
    pub open spec fn tick_envelope(self, nrx2: u8) -> PulseView {
        let pace = nrx2 % 8;
        if pace == 0 {
            self
        } else {
            let t = if self.envelope_timer > 0 { self.envelope_timer - 1 } else { 0 };
            if t == 0 {
                let volume: u8 = if (nrx2 >> 3) % 2 == 0 {
                    if self.envelope_volume > 0 { (self.envelope_volume - 1) as u8 } else { self.envelope_volume }
                } else if self.envelope_volume < 15 {
                    (self.envelope_volume + 1) as u8
                } else {
                    self.envelope_volume
                };
                PulseView { envelope_timer: pace, envelope_volume: volume, ..self }
            } else {
                PulseView { envelope_timer: t as u8, ..self }
            }
        }
    }
}

/// The APU state.
pub struct ApuView {
    /// NR10-NR52 in address order: NR10, NR11, NR12, NR13, NR14, NR21, NR22,
    /// NR23, NR24, NR30, NR31, NR32, NR33, NR34, NR41, NR42, NR43, NR44,
    /// NR50, NR51, NR52.
    pub regs: Seq<u8>,
    pub wave_ram: Seq<u8>,
    /// T-cycles since the last frame sequencer step.
    pub div_apu: u32,
    pub frame_sequencer_step: u8,
    pub prev_frame_sequencer_step: u8,
    pub ch1: PulseView,
    pub sweep: SweepView,
    pub ch2: PulseView,
}

/// The index into [`ApuView::regs`] of the register at `addr`, if `addr` is
/// one of them.
pub open spec fn reg_index(addr: u16) -> Option<int> {
    if 0xFF10 <= addr <= 0xFF14 { Some(addr - 0xFF10) }
    else if 0xFF16 <= addr <= 0xFF1E { Some(addr - 0xFF11) }
    else if 0xFF20 <= addr <= 0xFF26 { Some(addr - 0xFF12) }
    else { None }
}


impl ApuView {
    /// The invariant.
    pub open spec fn wf(self) -> bool {
        &&& self.regs.len() == 21
        &&& self.wave_ram.len() == 16
        &&& self.div_apu < 8192
        &&& self.frame_sequencer_step < 8
        &&& self.ch1.wf()
        &&& self.ch2.wf()
        &&& self.sweep.shadow < 2048
    }

    pub open spec fn powered(self) -> bool {
        self.regs[NR52 as int] & 0x80 != 0
    }

    /// Channel 1's period (NR13, NR14).
    pub open spec fn ch1_period(self) -> u16 {
        period_spec(self.regs[NR13 as int], self.regs[NR14 as int])
    }

    /// Channel 2's period (NR23, NR24).
    pub open spec fn ch2_period(self) -> u16 {
        period_spec(self.regs[NR23 as int], self.regs[NR24 as int])
    }

    /// What a sound register reads. NR52 bits 3-0 report which channels are
    /// on and bits 6-4 read as 1; unmapped addresses are open bus.
    pub open spec fn read(self, addr: u16) -> u8 {
        if addr == 0xFF26 {
            (self.regs[NR52 as int] & 0x80) | 0x70 | (if self.ch1.enabled { 0x01u8 } else { 0u8 }) | (if self.ch2.enabled { 0x02u8 } else { 0u8 })
        } else if reg_index(addr) is Some {
            self.regs[reg_index(addr)->0]
        } else if 0xFF30 <= addr <= 0xFF3F {
            self.wave_ram[addr - 0xFF30]
        } else {
            OPEN_BUS
        }
    }

    /// Channel 1 after a trigger. On top of the pulse trigger the sweep takes
    /// the period into its shadow, its timer takes the pace (8 for 0), and it
    /// runs when the pace or the step is non-zero. With a non-zero step the
    /// next period is computed at once: past 2047 the channel turns off,
    /// otherwise the shadow and the period registers take it.
    pub open spec fn trigger_ch1(self) -> ApuView {
        let nr10 = self.regs[NR10 as int];
        let period = self.ch1_period();
        let pace = (nr10 >> 4) % 8;
        let step = nr10 % 8;
        let ch1 = self.ch1.trigger(self.regs[NR12 as int], period);
        let sweep = SweepView { enabled: pace != 0 || step != 0, shadow: period, timer: if pace == 0 { 8 } else { pace } };
        let triggered = ApuView { ch1, sweep, ..self };
        if step != 0 {
            let target = sweep_target(period, nr10);
            if target > 2047 {
                ApuView { ch1: PulseView { enabled: false, ..ch1 }, ..triggered }
            } else {
                triggered.with_ch1_period(target as u16)
            }
        } else {
            triggered
        }
    }

    /// The state with channel 1's sweep shadow and period registers set to
    /// `period`.
    pub open spec fn with_ch1_period(self, period: u16) -> ApuView {
        let regs = self.regs.update(NR13 as int, (period % 256) as u8).update(NR14 as int, ((self.regs[NR14 as int] & 0xF8) | (period / 256) as u8) as u8);
        ApuView { regs, sweep: SweepView { shadow: period, ..self.sweep }, ..self }
    }

    /// The APU after `value` is written at `addr`. NRx4 with bit 7 set
    /// triggers its channel. NR52 keeps only the power bit from the write;
    /// powering off returns NR10-NR51 to their hand-off values and turns
    /// every channel (and the sweep) off. Wave RAM is kept.
    pub open spec fn write(self, addr: u16, value: u8) -> ApuView {
        if addr == 0xFF26 {
            let nr52 = (self.regs[NR52 as int] & 0x7F) | (value & 0x80);
            if value & 0x80 == 0 {
                ApuView {
                    regs: boot_regs().update(NR52 as int, nr52),
                    ch1: PulseView { enabled: false, ..self.ch1 },
                    ch2: PulseView { enabled: false, ..self.ch2 },
                    sweep: SweepView { enabled: false, ..self.sweep },
                    ..self
                }
            } else {
                ApuView { regs: self.regs.update(NR52 as int, nr52), ..self }
            }
        } else if reg_index(addr) is Some {
            let stored = ApuView { regs: self.regs.update(reg_index(addr)->0, value), ..self };
            if addr == 0xFF14 && value & 0x80 != 0 {
                stored.trigger_ch1()
            } else if addr == 0xFF19 && value & 0x80 != 0 {
                ApuView { ch2: stored.ch2.trigger(stored.regs[NR22 as int], stored.ch2_period()), ..stored }
            } else {
                stored
            }
        } else if 0xFF30 <= addr <= 0xFF3F {
            ApuView { wave_ram: self.wave_ram.update(addr - 0xFF30, value), ..self }
        } else {
            self
        }
    }

    /// One sweep clock: the timer counts down; at 0 it reloads with the pace
    /// (8 for 0) and, with the sweep running and a non-zero pace, the next
    /// period is computed: past 2047 the channel turns off; otherwise, with
    /// a non-zero step, it is written back and checked once more.
    pub open spec fn tick_sweep(self) -> ApuView {
        let nr10 = self.regs[NR10 as int];
        let pace = (nr10 >> 4) % 8;
        let t = if self.sweep.timer > 0 { self.sweep.timer - 1 } else { 0 };
        if t != 0 {
            ApuView { sweep: SweepView { timer: t as u8, ..self.sweep }, ..self }
        } else {
            let reloaded = ApuView { sweep: SweepView { timer: if pace == 0 { 8 } else { pace }, ..self.sweep }, ..self };
            if self.sweep.enabled && pace != 0 {
                let target = sweep_target(self.sweep.shadow, nr10);
                if target > 2047 {
                    ApuView { ch1: PulseView { enabled: false, ..reloaded.ch1 }, ..reloaded }
                } else if nr10 % 8 != 0 {
                    let written = reloaded.with_ch1_period(target as u16);
                    if sweep_target(target as u16, nr10) > 2047 {
                        ApuView { ch1: PulseView { enabled: false, ..written.ch1 }, ..written }
                    } else {
                        written
                    }
                } else {
                    reloaded
                }
            } else {
                reloaded
            }
        }
    }

    /// The frame sequencer's work at `step`, for a powered APU: on steps 2
    /// and 6 channel 1's sweep and envelope, on step 7 channel 2's envelope.
    pub open spec fn sequence(self, step: u8) -> ApuView {
        let with_ch1 = if self.ch1.enabled && (step == 2 || step == 6) {
            let swept = self.tick_sweep();
            if swept.ch1.enabled {
                ApuView { ch1: swept.ch1.tick_envelope(swept.regs[NR12 as int]), ..swept }
            } else {
                swept
            }
        } else {
            self
        };
        if with_ch1.ch2.enabled && step == 7 {
            ApuView { ch2: with_ch1.ch2.tick_envelope(with_ch1.regs[NR22 as int]), ..with_ch1 }
        } else {
            with_ch1
        }
    }

    /// One M-cycle of APU time: the enabled channels' frequency timers run
    /// (when powered), and every 8192 T-cycles the frame sequencer steps
    /// (0 to 7 and around) and does that step's work (when powered).
    pub open spec fn tick(self) -> ApuView {
        let powered = self.powered();
        let ch1 = if powered && self.ch1.enabled { self.ch1.tick_freq(self.ch1_period()) } else { self.ch1 };
        let ch2 = if powered && self.ch2.enabled { self.ch2.tick_freq(self.ch2_period()) } else { self.ch2 };
        let advanced = self.div_apu + 4;
        let timed = ApuView { ch1, ch2, div_apu: advanced as u32, ..self };
        if advanced >= 8192 {
            let step = ((self.frame_sequencer_step + 1) % 8) as u8;
            let stepped = ApuView {
                div_apu: (advanced - 8192) as u32,
                prev_frame_sequencer_step: self.frame_sequencer_step,
                frame_sequencer_step: step,
                ..timed
            };
            if powered { stepped.sequence(step) } else { stepped }
        } else {
            timed
        }
    }
}

/// The boot-ROM hand-off values of NR10-NR52.
pub open spec fn boot_regs() -> Seq<u8> {
    seq![0x80u8, 0xBF, 0xF3, 0xFF, 0xBF, 0x3F, 0x00, 0xFF, 0xBF, 0x7F, 0xFF, 0x9F, 0xFF, 0xBF, 0xFF, 0x00, 0x00, 0xBF, 0x77, 0xF3, 0xF1]
}

struct Pulse {
    enabled: bool,
    freq_timer: u16,
    duty_step: u8,
    envelope_volume: u8,
    envelope_timer: u8,
}

impl View for Pulse {
    type V = PulseView;

    closed spec fn view(&self) -> PulseView {
        PulseView {
            enabled: self.enabled,
            freq_timer: self.freq_timer,
            duty_step: self.duty_step,
            envelope_volume: self.envelope_volume,
            envelope_timer: self.envelope_timer,
        }
    }
}

struct Sweep {
    enabled: bool,
    shadow: u16,
    timer: u8,
}

impl View for Sweep {
    type V = SweepView;

    closed spec fn view(&self) -> SweepView {
        SweepView { enabled: self.enabled, shadow: self.shadow, timer: self.timer }
    }
}

impl Pulse {
    fn new() -> (c: Self)
        ensures
            c@ == PulseView::initial(),
    {
        Self { enabled: false, freq_timer: 0, duty_step: 0, envelope_volume: 0, envelope_timer: 0 }
    }

    fn trigger(&mut self, nrx2: u8, period: u16)
        requires
            old(self)@.wf(),
            period < 2048,
        ensures
            final(self)@ == old(self)@.trigger(nrx2, period),
            final(self)@.wf(),
    {
        self.enabled = true;
        self.freq_timer = period;
        self.envelope_volume = nrx2 / 16;
        let pace = nrx2 % 8;
        self.envelope_timer = if pace == 0 { 8 } else { pace };
    }

    fn tick_freq(&mut self, period: u16)
        requires
            old(self)@.wf(),
            period < 2048,
        ensures
            final(self)@ == old(self)@.tick_freq(period),
            final(self)@.wf(),
    {
        self.freq_timer = self.freq_timer + 4;
        if self.freq_timer >= FREQ_MAX {
            self.freq_timer = period;
            self.duty_step = (self.duty_step + 1) % 8;
        }
    }

    fn tick_envelope(&mut self, nrx2: u8)
        requires
            old(self)@.wf(),
        ensures
            final(self)@ == old(self)@.tick_envelope(nrx2),
            final(self)@.wf(),
    {
        let pace = nrx2 % 8;
        if pace == 0 {
            return;
        }

        if self.envelope_timer > 0 {
            self.envelope_timer = self.envelope_timer - 1;
        }

        if self.envelope_timer == 0 {
            self.envelope_timer = pace;

            if (nrx2 >> 3) % 2 == 0 {
                if self.envelope_volume > 0 {
                    self.envelope_volume = self.envelope_volume - 1;
                }
            } else if self.envelope_volume < 15 {
                self.envelope_volume = self.envelope_volume + 1;
            }
        }
    }
}

/// The 11-bit period from NRx3 and NRx4.
fn period(low: u8, high: u8) -> (r: u16)
    ensures
        r == period_spec(low, high),
        r < 2048,
{
    (low as u16) + ((high % 8) as u16) * 256
}

/// The next sweep period (see [`sweep_target`]).
fn sweep_calculation(shadow: u16, nr10: u8) -> (r: u16)
    requires
        shadow < 2048,
    ensures
        r == sweep_target(shadow, nr10),
{
    let step = nr10 % 8;
    let delta = shadow >> step;
    proof {
        lemma_shift_is_div(shadow, step);
    }
    if (nr10 >> 3) % 2 != 0 {
        shadow - delta
    } else {
        shadow + delta
    }
}

/// Shifting right by `n` divides by `2^n`.
proof fn lemma_shift_is_div(x: u16, n: u8)
    requires
        n < 8,
    ensures
        x >> n == x as nat / pow2(n as nat),
        x >> n <= x,
{
    vstd::bits::lemma_u16_shr_is_div(x, n as u16);
    assert(x >> n == x >> (n as u16)) by (bit_vector);
    assert(x >> n <= x) by (bit_vector);
}

/// NR10-NR52 at hand-off (see [`boot_regs`]).
fn boot_registers() -> (r: [u8; 21])
    ensures
        r@ == boot_regs(),
{
    let r = [0x80u8, 0xBF, 0xF3, 0xFF, 0xBF, 0x3F, 0x00, 0xFF, 0xBF, 0x7F, 0xFF, 0x9F, 0xFF, 0xBF, 0xFF, 0x00, 0x00, 0xBF, 0x77, 0xF3, 0xF1];
    assert(r@ =~= boot_regs());
    r
}

pub(crate) struct Apu {
    regs: [u8; 21],
    wave_ram: [u8; 16],
    div_apu: u32,
    frame_sequencer_step: u8,
    prev_frame_sequencer_step: u8,
    ch1: Pulse,
    sweep: Sweep,
    ch2: Pulse,
}

impl View for Apu {
    type V = ApuView;

    closed spec fn view(&self) -> ApuView {
        ApuView {
            regs: self.regs@,
            wave_ram: self.wave_ram@,
            div_apu: self.div_apu,
            frame_sequencer_step: self.frame_sequencer_step,
            prev_frame_sequencer_step: self.prev_frame_sequencer_step,
            ch1: self.ch1@,
            sweep: self.sweep@,
            ch2: self.ch2@,
        }
    }
}


/// The register-array index of a sound register (see [`reg_index`]).
fn register_index(addr: u16) -> (r: Option<usize>)
    ensures
        r matches Some(i) ==> reg_index(addr) == Some(i as int) && i < 21,
        r is None ==> reg_index(addr) is None,
{
    if NR10_ADDR <= addr && addr <= NR14_ADDR {
        Some((addr - NR10_ADDR) as usize)
    } else if NR21_ADDR <= addr && addr <= NR34_ADDR {
        Some((addr - 0xFF11) as usize)
    } else if NR41_ADDR <= addr && addr <= NR52_ADDR {
        Some((addr - 0xFF12) as usize)
    } else {
        None
    }
}

impl Apu {
    pub(crate) fn new() -> (a: Self)
        ensures
            a@.wf(),
            a@.regs == boot_regs(),
            a@.wave_ram == Seq::new(16, |i: int| 0u8),
            a@.div_apu == 0 && a@.frame_sequencer_step == 0 && a@.prev_frame_sequencer_step == 0,
            a@.ch1 == PulseView::initial() && a@.ch2 == PulseView::initial(),
            a@.sweep == (SweepView { enabled: false, shadow: 0, timer: 0 }),
    {
        let a = Self {
            regs: boot_registers(),
            wave_ram: [0x00u8; 16],
            div_apu: 0,
            frame_sequencer_step: 0,
            prev_frame_sequencer_step: 0,
            ch1: Pulse::new(),
            sweep: Sweep { enabled: false, shadow: 0, timer: 0 },
            ch2: Pulse::new(),
        };
        proof {
            assert(a@.regs =~= boot_regs());
            assert(a@.wave_ram =~= Seq::new(16, |i: int| 0u8));
        }
        a
    }

    pub(crate) fn read(&self, addr: u16) -> (r: u8)
        requires
            self@.wf(),
        ensures
            r == self@.read(addr),
    {
        if addr == NR52_ADDR {
            let ch1: u8 = if self.ch1.enabled { 0x01 } else { 0x00 };
            let ch2: u8 = if self.ch2.enabled { 0x02 } else { 0x00 };
            return (self.regs[NR52] & NR52_POWER_BIT) | 0x70 | ch1 | ch2;
        }
        match register_index(addr) {
            Some(i) => self.regs[i],
            None => {
                if WAVE_RAM_BASE <= addr && addr <= WAVE_RAM_END {
                    self.wave_ram[(addr - WAVE_RAM_BASE) as usize]
                } else {
                    OPEN_BUS
                }
            },
        }
    }

    /// Sets channel 1's sweep shadow and period registers to `value`.
    fn set_ch1_period(&mut self, value: u16)
        requires
            old(self)@.wf(),
            value < 2048,
        ensures
            final(self)@ == old(self)@.with_ch1_period(value),
            final(self)@.wf(),
    {
        self.sweep.shadow = value;
        self.regs[NR13] = (value % 256) as u8;
        self.regs[NR14] = (self.regs[NR14] & 0xF8) | ((value / 256) as u8);
    }

    fn trigger_ch1(&mut self)
        requires
            old(self)@.wf(),
        ensures
            final(self)@ == old(self)@.trigger_ch1(),
            final(self)@.wf(),
    {
        let nr10 = self.regs[NR10];
        let period = period(self.regs[NR13], self.regs[NR14]);
        let pace = (nr10 >> 4) % 8;
        let step = nr10 % 8;
        self.ch1.trigger(self.regs[NR12], period);
        self.sweep.enabled = pace != 0 || step != 0;
        self.sweep.shadow = period;
        self.sweep.timer = if pace == 0 { 8 } else { pace };
        if step != 0 {
            let target = sweep_calculation(period, nr10);
            if target > 2047 {
                self.ch1.enabled = false;
            } else {
                self.set_ch1_period(target);
            }
        }
    }

    pub(crate) fn write(&mut self, addr: u16, value: u8)
        requires
            old(self)@.wf(),
        ensures
            final(self)@ == old(self)@.write(addr, value),
            final(self)@.wf(),
    {
        if addr == NR52_ADDR {
            let nr52 = (self.regs[NR52] & 0x7F) | (value & NR52_POWER_BIT);
            if value & NR52_POWER_BIT == 0 {
                self.regs = boot_registers();
                self.ch1.enabled = false;
                self.ch2.enabled = false;
                self.sweep.enabled = false;
            }
            self.regs[NR52] = nr52;
            return;
        }
        match register_index(addr) {
            Some(i) => {
                self.regs[i] = value;
                if addr == NR14_ADDR && value & NRX4_TRIGGER_BIT != 0 {
                    self.trigger_ch1();
                } else if addr == NR24_ADDR && value & NRX4_TRIGGER_BIT != 0 {
                    let p = period(self.regs[NR23], self.regs[NR24]);
                    self.ch2.trigger(self.regs[NR22], p);
                }
            },
            None => {
                if WAVE_RAM_BASE <= addr && addr <= WAVE_RAM_END {
                    self.wave_ram[(addr - WAVE_RAM_BASE) as usize] = value;
                }
            },
        }
    }

    fn tick_sweep(&mut self)
        requires
            old(self)@.wf(),
        ensures
            final(self)@ == old(self)@.tick_sweep(),
            final(self)@.wf(),
    {
        let nr10 = self.regs[NR10];
        let pace = (nr10 >> 4) % 8;
        if self.sweep.timer > 0 {
            self.sweep.timer = self.sweep.timer - 1;
        }
        if self.sweep.timer != 0 {
            return;
        }
        self.sweep.timer = if pace == 0 { 8 } else { pace };
        if self.sweep.enabled && pace != 0 {
            let target = sweep_calculation(self.sweep.shadow, nr10);
            if target > 2047 {
                self.ch1.enabled = false;
            } else if nr10 % 8 != 0 {
                self.set_ch1_period(target);
                if sweep_calculation(target, nr10) > 2047 {
                    self.ch1.enabled = false;
                }
            }
        }
    }

    pub(crate) fn tick(&mut self)
        requires
            old(self)@.wf(),
        ensures
            final(self)@ == old(self)@.tick(),
            final(self)@.wf(),
    {
        let powered = self.regs[NR52] & NR52_POWER_BIT != 0;
        if powered && self.ch1.enabled {
            let p = period(self.regs[NR13], self.regs[NR14]);
            self.ch1.tick_freq(p);
        }
        if powered && self.ch2.enabled {
            let p = period(self.regs[NR23], self.regs[NR24]);
            self.ch2.tick_freq(p);
        }

        self.div_apu = self.div_apu + 4;

        if self.div_apu >= T_CYCLES_PER_FRAME_SEQUENCER_TICK {
            self.div_apu = self.div_apu - T_CYCLES_PER_FRAME_SEQUENCER_TICK;
            self.prev_frame_sequencer_step = self.frame_sequencer_step;
            self.frame_sequencer_step = (self.frame_sequencer_step + 1) % 8;

            if powered {
                let step = self.frame_sequencer_step;
                if self.ch1.enabled && (step == 2 || step == 6) {
                    self.tick_sweep();
                    if self.ch1.enabled {
                        let nr12 = self.regs[NR12];
                        self.ch1.tick_envelope(nr12);
                    }
                }
                if self.ch2.enabled && step == 7 {
                    let nr22 = self.regs[NR22];
                    self.ch2.tick_envelope(nr22);
                }
            }
        }
    }

    pub(crate) fn frame_sequencer_step(&self) -> (r: u8)
        ensures
            r == self@.frame_sequencer_step,
    {
        self.frame_sequencer_step
    }

    pub(crate) fn ch1_enabled(&self) -> (r: bool)
        ensures
            r == self@.ch1.enabled,
    {
        self.ch1.enabled
    }

    pub(crate) fn ch1_sweep_pace(&self) -> (r: u8)
        ensures
            r == (self@.regs[NR10 as int] >> 4) % 8,
    {
        (self.regs[NR10] >> 4) % 8
    }

    pub(crate) fn ch1_sweep_direction(&self) -> (r: u8)
        ensures
            r == (self@.regs[NR10 as int] >> 3) % 2,
    {
        (self.regs[NR10] >> 3) % 2
    }

    pub(crate) fn ch1_sweep_step(&self) -> (r: u8)
        ensures
            r == self@.regs[NR10 as int] % 8,
    {
        self.regs[NR10] % 8
    }

    pub(crate) fn ch1_sweep_shadow(&self) -> (r: u16)
        ensures
            r == self@.sweep.shadow,
    {
        self.sweep.shadow
    }

    pub(crate) fn ch1_sweep_enabled(&self) -> (r: bool)
        ensures
            r == self@.sweep.enabled,
    {
        self.sweep.enabled
    }

    pub(crate) fn ch1_sweep_timer(&self) -> (r: u8)
        ensures
            r == self@.sweep.timer,
    {
        self.sweep.timer
    }

    pub(crate) fn ch1_duty_pattern(&self) -> (r: u8)
        ensures
            r == self@.regs[NR11 as int] >> 6,
    {
        self.regs[NR11] >> 6
    }

    pub(crate) fn ch1_initial_volume(&self) -> (r: u8)
        ensures
            r == self@.regs[NR12 as int] / 16,
    {
        self.regs[NR12] / 16
    }

    pub(crate) fn ch1_envelope_pace(&self) -> (r: u8)
        ensures
            r == self@.regs[NR12 as int] % 8,
    {
        self.regs[NR12] % 8
    }

    pub(crate) fn ch1_dac_enabled(&self) -> (r: bool)
        ensures
            r == (self@.regs[NR12 as int] & 0xF8 != 0),
    {
        self.regs[NR12] & 0xF8 != 0
    }

    pub(crate) fn ch1_period(&self) -> (r: u16)
        ensures
            r == self@.ch1_period(),
    {
        period(self.regs[NR13], self.regs[NR14])
    }

    pub(crate) fn ch1_frequency_timer(&self) -> (r: u16)
        ensures
            r == self@.ch1.freq_timer,
    {
        self.ch1.freq_timer
    }

    pub(crate) fn ch1_duty_step(&self) -> (r: u8)
        ensures
            r == self@.ch1.duty_step,
    {
        self.ch1.duty_step
    }

    pub(crate) fn ch1_envelope_volume(&self) -> (r: u8)
        ensures
            r == self@.ch1.envelope_volume,
    {
        self.ch1.envelope_volume
    }

    pub(crate) fn ch2_enabled(&self) -> (r: bool)
        ensures
            r == self@.ch2.enabled,
    {
        self.ch2.enabled
    }

    pub(crate) fn ch2_duty_pattern(&self) -> (r: u8)
        ensures
            r == self@.regs[NR21 as int] >> 6,
    {
        self.regs[NR21] >> 6
    }

    pub(crate) fn ch2_initial_volume(&self) -> (r: u8)
        ensures
            r == self@.regs[NR22 as int] / 16,
    {
        self.regs[NR22] / 16
    }

    pub(crate) fn ch2_envelope_pace(&self) -> (r: u8)
        ensures
            r == self@.regs[NR22 as int] % 8,
    {
        self.regs[NR22] % 8
    }

    pub(crate) fn ch2_dac_enabled(&self) -> (r: bool)
        ensures
            r == (self@.regs[NR22 as int] & 0xF8 != 0),
    {
        self.regs[NR22] & 0xF8 != 0
    }

    pub(crate) fn ch2_period(&self) -> (r: u16)
        ensures
            r == self@.ch2_period(),
    {
        period(self.regs[NR23], self.regs[NR24])
    }

    pub(crate) fn ch2_frequency_timer(&self) -> (r: u16)
        ensures
            r == self@.ch2.freq_timer,
    {
        self.ch2.freq_timer
    }

    pub(crate) fn ch2_duty_step(&self) -> (r: u8)
        ensures
            r == self@.ch2.duty_step,
    {
        self.ch2.duty_step
    }

    pub(crate) fn ch2_envelope_volume(&self) -> (r: u8)
        ensures
            r == self@.ch2.envelope_volume,
    {
        self.ch2.envelope_volume
    }
}

/// `n` M-cycles of APU time.
pub open spec fn ticks(a: ApuView, n: nat) -> ApuView
    decreases n,
{
    if n == 0 { a } else { ticks(a, (n - 1) as nat).tick() }
}

/// From the start of a frame sequencer period, the first 2047 M-cycles only
/// count T-cycles.
proof fn lemma_ticks_within_period(a: ApuView, n: nat)
    requires
        a.div_apu == 0,
        n <= 2047,
    ensures
        ticks(a, n).div_apu == 4 * n,
        ticks(a, n).frame_sequencer_step == a.frame_sequencer_step,
    decreases n,
{
    if n > 0 {
        lemma_ticks_within_period(a, (n - 1) as nat);
        let prev = ticks(a, (n - 1) as nat);
        assert(prev.div_apu + 4 < 8192);
        assert(ticks(a, n) == prev.tick());
    }
}

/// The frame sequencer steps once every 2048 M-cycles (8192 T-cycles, so
/// 512 Hz), from 0 to 7 and around, whatever the channels do.
pub proof fn law_frame_sequencer_period(a: ApuView)
    requires
        a.div_apu == 0,
        a.frame_sequencer_step < 8,
    ensures
        forall|n: nat| n < 2048 ==> (#[trigger] ticks(a, n)).frame_sequencer_step == a.frame_sequencer_step,
        ticks(a, 2048).frame_sequencer_step == (a.frame_sequencer_step + 1) % 8,
        ticks(a, 2048).div_apu == 0,
{
    assert forall|n: nat| n < 2048 implies (#[trigger] ticks(a, n)).frame_sequencer_step == a.frame_sequencer_step by {
        lemma_ticks_within_period(a, n);
    }
    lemma_ticks_within_period(a, 2047);
    let last = ticks(a, 2047);
    let stepped = ApuView {
        div_apu: 0,
        prev_frame_sequencer_step: last.frame_sequencer_step,
        frame_sequencer_step: ((last.frame_sequencer_step + 1) % 8) as u8,
        ..last
    };
    assert(ticks(a, 2048) == last.tick());
    assert(last.tick().frame_sequencer_step == stepped.frame_sequencer_step);
    assert(last.tick().div_apu == 0);
}

/// How NR52 reads, bit by bit.
proof fn lemma_nr52_bits(power: u8, ch1: u8, ch2: u8)
    requires
        ch1 == 0 || ch1 == 1,
        ch2 == 0 || ch2 == 2,
    ensures
        ((power & 0x80) | 0x70 | ch1 | ch2) & 0x80 == power & 0x80,
        ((power & 0x80) | 0x70 | ch1 | ch2) & 0x70 == 0x70,
        (((power & 0x80) | 0x70 | ch1 | ch2) & 0x01 != 0) == (ch1 == 1),
        (((power & 0x80) | 0x70 | ch1 | ch2) & 0x02 != 0) == (ch2 == 2),
{
    assert(((power & 0x80) | 0x70 | ch1 | ch2) & 0x80 == power & 0x80) by (bit_vector)
        requires
            ch1 == 0 || ch1 == 1,
            ch2 == 0 || ch2 == 2,
    ;
    assert(((power & 0x80) | 0x70 | ch1 | ch2) & 0x70 == 0x70) by (bit_vector);
    assert((((power & 0x80) | 0x70 | ch1 | ch2) & 0x01 != 0) == (ch1 == 1)) by (bit_vector)
        requires
            ch1 == 0 || ch1 == 1,
            ch2 == 0 || ch2 == 2,
    ;
    assert((((power & 0x80) | 0x70 | ch1 | ch2) & 0x02 != 0) == (ch2 == 2)) by (bit_vector)
        requires
            ch1 == 0 || ch1 == 1,
            ch2 == 0 || ch2 == 2,
    ;
}

/// NR52 reads back the power bit as written, bits 6-4 as 1, and in bits 1
/// and 0 whether channels 2 and 1 are on.
pub proof fn law_nr52_reports_the_channels(a: ApuView)
    ensures
        a.read(0xFF26) & 0x80 == a.regs[NR52 as int] & 0x80,
        a.read(0xFF26) & 0x70 == 0x70,
        (a.read(0xFF26) & 0x01 != 0) == a.ch1.enabled,
        (a.read(0xFF26) & 0x02 != 0) == a.ch2.enabled,
{
    lemma_nr52_bits(
        a.regs[NR52 as int],
        if a.ch1.enabled { 0x01u8 } else { 0u8 },
        if a.ch2.enabled { 0x02u8 } else { 0u8 },
    );
}

/// Writing NR24 with bit 7 set turns channel 2 on, with its frequency timer
/// at the period and its volume at NR22 bits 7-4.
pub proof fn law_ch2_trigger(a: ApuView, value: u8)
    requires
        a.wf(),
        value & 0x80 != 0,
    ensures
        a.write(0xFF19, value).ch2.enabled,
        a.write(0xFF19, value).ch2.freq_timer == period_spec(a.regs[NR23 as int], value),
        a.write(0xFF19, value).ch2.envelope_volume == a.regs[NR22 as int] / 16,
        a.write(0xFF19, value).regs[NR24 as int] == value,
{
}

/// A trigger of channel 1 with a non-zero sweep step computes the next
/// period at once, and past 2047 the channel goes off again.
pub proof fn law_ch1_trigger_sweep_overflow(a: ApuView, value: u8)
    requires
        a.wf(),
        value & 0x80 != 0,
        a.regs[NR10 as int] % 8 != 0,
        sweep_target(period_spec(a.regs[NR13 as int], value), a.regs[NR10 as int]) > 2047,
    ensures
        !a.write(0xFF14, value).ch1.enabled,
{
}

/// Powering the APU off (NR52 bit 7 clear) returns NR10-NR51 to their
/// hand-off values, turns both channels off, keeps wave RAM, and NR52 then
/// reads with bit 7 clear.
pub proof fn law_power_off_resets(a: ApuView, value: u8)
    requires
        a.wf(),
        value & 0x80 == 0,
    ensures
        forall|i: int| 0 <= i < 20 ==> #[trigger] a.write(0xFF26, value).regs[i] == boot_regs()[i],
        !a.write(0xFF26, value).ch1.enabled,
        !a.write(0xFF26, value).ch2.enabled,
        a.write(0xFF26, value).wave_ram == a.wave_ram,
        a.write(0xFF26, value).read(0xFF26) & 0x80 == 0,
{
    let w = a.write(0xFF26, value);
    law_nr52_reports_the_channels(w);
    let old_nr52 = a.regs[NR52 as int];
    assert(((old_nr52 & 0x7F) | (value & 0x80)) & 0x80 == 0) by (bit_vector)
        requires
            value & 0x80 == 0,
    ;
}

/// Ticks compose: `m` then `n` M-cycles are `m + n`.
proof fn lemma_ticks_compose(a: ApuView, m: nat, n: nat)
    ensures
        ticks(ticks(a, m), n) == ticks(a, m + n),
    decreases n,
{
    if n > 0 {
        lemma_ticks_compose(a, m, (n - 1) as nat);
        assert(ticks(a, m + n) == ticks(a, (m + n - 1) as nat).tick());
    }
}

/// Over `k` whole periods of 2048 M-cycles the frame sequencer steps `k`
/// times, modulo 8.
pub proof fn law_frame_sequencer_periods(a: ApuView, k: nat)
    requires
        a.div_apu == 0,
        a.frame_sequencer_step < 8,
    ensures
        ticks(a, 2048 * k).frame_sequencer_step == (a.frame_sequencer_step + k) % 8,
        ticks(a, 2048 * k).div_apu == 0,
    decreases k,
{
    if k > 0 {
        law_frame_sequencer_periods(a, (k - 1) as nat);
        let m = (2048 * (k - 1)) as nat;
        let mid = ticks(a, m);
        law_frame_sequencer_period(mid);
        lemma_ticks_compose(a, m, 2048);
        assert(2048 * (k - 1) + 2048 == 2048 * k) by (nonlinear_arith);
        assert(((a.frame_sequencer_step + (k - 1)) % 8 + 1) % 8 == (a.frame_sequencer_step + k) % 8) by {
            vstd::arithmetic::div_mod::lemma_add_mod_noop(a.frame_sequencer_step + (k - 1), 1, 8);
            vstd::arithmetic::div_mod::lemma_mod_twice(1, 8);
        }
    }
}

/// After any number `n` of M-cycles from the start of a period, the frame
/// sequencer has stepped once per whole 2048 M-cycles, from 7 around to 0:
/// it stands at `(step + n / 2048) % 8`.
pub proof fn law_frame_sequencer_counts(a: ApuView, n: nat)
    requires
        a.div_apu == 0,
        a.frame_sequencer_step < 8,
    ensures
        ticks(a, n).frame_sequencer_step == (a.frame_sequencer_step + n / 2048) % 8,
{
    let k = n / 2048;
    let r = n % 2048;
    assert(n == 2048 * k + r) by {
        vstd::arithmetic::div_mod::lemma_fundamental_div_mod(n as int, 2048);
    }
    law_frame_sequencer_periods(a, k);
    let mid = ticks(a, 2048 * k);
    law_frame_sequencer_period(mid);
    assert(ticks(mid, r).frame_sequencer_step == mid.frame_sequencer_step);
    lemma_ticks_compose(a, 2048 * k, r);
}

/// The volume envelope, from NRx2 = `vvvv d ppp`: a trigger loads the
/// volume from bits 7-4 and the timer from the pace `ppp` (8 for pace 0).
/// Each envelope clock with a pace other than 0 counts the timer down; when
/// it runs out it reloads with the pace and the volume moves one step, up
/// with `d` set and down with `d` clear, staying within 0-15. Pace 0 stops
/// the envelope.
pub proof fn law_volume_envelope(ch: PulseView, nrx2: u8, period: u16)
    ensures
        ch.trigger(nrx2, period).envelope_volume == nrx2 >> 4,
        ch.trigger(nrx2, period).envelope_timer == (if nrx2 & 0x07 == 0 { 8 } else { nrx2 & 0x07 }),
        ch.trigger(nrx2, period).freq_timer == period && ch.trigger(nrx2, period).enabled,
        nrx2 & 0x07 == 0 ==> ch.tick_envelope(nrx2) == ch,
        nrx2 & 0x07 != 0 && ch.envelope_timer > 1 ==>
            ch.tick_envelope(nrx2) == (PulseView { envelope_timer: (ch.envelope_timer - 1) as u8, ..ch }),
        nrx2 & 0x07 != 0 && ch.envelope_timer <= 1 ==> ch.tick_envelope(nrx2) == (PulseView {
            envelope_timer: nrx2 & 0x07,
            envelope_volume: if nrx2 & 0x08 != 0 {
                if ch.envelope_volume < 15 { (ch.envelope_volume + 1) as u8 } else { ch.envelope_volume }
            } else {
                if ch.envelope_volume > 0 { (ch.envelope_volume - 1) as u8 } else { 0 }
            },
            ..ch
        }),
{
    assert(nrx2 & 0x07 == nrx2 % 8 && nrx2 >> 4 == nrx2 / 16 && (nrx2 & 0x08 != 0) == ((nrx2 >> 3) % 2 != 0)) by (bit_vector);
}

/// The period is eleven bits: NRx3 gives bits 7-0 and bits 2-0 of NRx4 give
/// bits 10-8.
pub proof fn law_period_bits(low: u8, high: u8)
    ensures
        period_spec(low, high) == (low as u16) | (((high & 0x07) as u16) << 8u16),
{
    assert((low as u16) | (((high & 0x07) as u16) << 8u16) == low + (high % 8) * 256) by (bit_vector);
}

} // verus!
