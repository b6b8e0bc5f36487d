use gb_core::bus::{Bus, Region};
use gb_core::cart::{Cartridge, OPEN_BUS};
use gb_core::joypad::Key;

struct Blank;

impl Cartridge for Blank {
    fn read(&self, _addr: u16) -> u8 {
        OPEN_BUS
    }

    fn write(&mut self, _addr: u16, _value: u8) {}
}

fn bus() -> Bus {
    Bus::new(Box::new(Blank))
}

const IF: u16 = 0xFF0F;

#[test]
fn echo_ram_is_the_work_ram_seen_again() {
    let mut bus = bus();
    bus.write(0xC123, 0x11);
    assert_eq!(bus.read(0xC123), 0x11);
    assert_eq!(bus.read(0xE123), 0x11);
    bus.write(0xFD00, 0x22);
    assert_eq!(bus.read(0xDD00), 0x22);
    assert_eq!(Region::of(0xFD00), Region::EchoRam);
}

#[test]
fn a_work_ram_write_touches_one_cell() {
    let mut bus = bus();
    bus.write(0xC000, 0x01);
    bus.write(0xC001, 0x02);
    bus.write(0xDFFF, 0x03);
    assert_eq!(bus.read(0xC000), 0x01);
    assert_eq!(bus.read(0xC001), 0x02);
    assert_eq!(bus.read(0xDFFF), 0x03);
    assert_eq!(bus.read(0xC002), 0x00);
}

#[test]
fn ie_is_not_the_last_high_ram_byte() {
    let mut bus = bus();
    bus.write(0xFFFE, 0x33);
    bus.write(0xFFFF, 0x44);
    assert_eq!(bus.read(0xFFFE), 0x33);
    assert_eq!(bus.read(0xFFFF), 0x44);
}

#[test]
fn unowned_io_and_not_usable_swallow_writes() {
    let mut bus = bus();
    bus.write(0xFF03, 0x12);
    assert_eq!(bus.read(0xFF03), OPEN_BUS);
    bus.write(0xFF30, 0x12);
    assert_eq!(bus.read(0xFF30), OPEN_BUS);
    bus.write(0xFEA0, 0x12);
    assert_eq!(bus.read(0xFEA0), 0x00);
}

#[test]
fn writing_div_resets_it() {
    let mut bus = bus();
    assert_eq!(bus.read(0xFF04), 0xAB);
    bus.write(0xFF04, 0x99);
    assert_eq!(bus.read(0xFF04), 0x00);
}

#[test]
fn tima_overflow_reloads_tma_and_requests_the_timer_interrupt() {
    let mut bus = bus();
    bus.write(IF, 0x00);
    bus.write(0xFF06, 0x42); // TMA
    bus.write(0xFF05, 0xFF); // TIMA
    bus.write(0xFF07, 0x05); // enabled, bit 3: every 4 M-cycles
    let mut ticks = 0;
    while bus.read(0xFF05) == 0xFF && ticks < 16 {
        bus.tick_timer();
        ticks += 1;
    }
    assert_eq!(bus.read(0xFF05), 0x00, "TIMA reads 00 for one M-cycle");
    assert_eq!(bus.read(IF) & 0x04, 0x00);
    bus.tick_timer();
    assert_eq!(bus.read(0xFF05), 0x42, "then it takes TMA");
    assert_eq!(bus.read(IF) & 0x04, 0x04, "and the timer interrupt is requested");
}

#[test]
fn a_serial_transfer_sends_sb_and_the_output_is_taken_once() {
    let mut bus = bus();
    bus.write(0xFF01, 0x41);
    bus.write(0xFF02, 0x81);
    assert_eq!(bus.read(0xFF02) & 0x80, 0x00, "the transfer finishes at once");
    assert_eq!(bus.take_serial_output(), vec![0x41]);
    assert!(bus.take_serial_output().is_empty());
}

#[test]
fn a_key_press_requests_the_joypad_interrupt() {
    let mut bus = bus();
    bus.write(IF, 0x00);
    bus.key_down(Key::Start);
    assert_eq!(bus.read(IF) & 0x10, 0x00);
    bus.tick_joypad_interrupt();
    assert_eq!(bus.read(IF) & 0x10, 0x10);
    bus.write(IF, 0x00);
    bus.tick_joypad_interrupt();
    assert_eq!(bus.read(IF) & 0x10, 0x00, "one request per press");
    bus.write(0xFF00, 0x10); // select the buttons
    assert_eq!(bus.read(0xFF00) & 0x08, 0x00, "Start reads low while held");
    bus.key_up(Key::Start);
    assert_eq!(bus.read(0xFF00) & 0x08, 0x08);
}

#[test]
fn the_first_frame_ends_with_a_vblank_request() {
    let mut bus = bus();
    bus.write(IF, 0x00);
    for _ in 0..(144 * 114) {
        bus.tick_ppu();
    }
    assert_eq!(bus.read(0xFF44), 144, "LY reaches the first V-blank line");
    assert_eq!(bus.read(IF) & 0x01, 0x01);
}

#[test]
fn the_apu_frame_sequencer_steps_every_2048_mcycles() {
    let mut bus = bus();
    for _ in 0..2047 {
        bus.tick_apu();
    }
    assert_eq!(bus.apu_frame_sequencer_step(), 0);
    bus.tick_apu();
    assert_eq!(bus.apu_frame_sequencer_step(), 1);
    for _ in 0..(7 * 2048) {
        bus.tick_apu();
    }
    assert_eq!(bus.apu_frame_sequencer_step(), 0, "0 to 7 and around");
}

#[test]
fn nr52_reports_which_channels_are_on() {
    let mut bus = bus();
    assert_eq!(bus.read(0xFF26), 0xF0);
    bus.write(0xFF17, 0xF0); // NR22: DAC on
    bus.write(0xFF19, 0x80); // NR24: trigger
    assert!(bus.ch2_enabled());
    assert_eq!(bus.read(0xFF26), 0xF2);
    assert_eq!(bus.ch2_envelope_volume(), 0x0F);
    assert_eq!(bus.ch2_frequency_timer(), bus.ch2_period());
}

#[test]
fn a_channel_1_trigger_whose_first_sweep_overflows_stays_off() {
    let mut bus = bus();
    bus.write(0xFF10, 0x01); // NR10: pace 0, add, step 1
    bus.write(0xFF12, 0xF0);
    bus.write(0xFF13, 0xFF);
    bus.write(0xFF14, 0x87); // period 0x7FF, trigger
    assert!(!bus.ch1_enabled(), "0x7FF + 0x3FF is past 2047");
}

#[test]
fn the_registers_hold_their_hand_off_values() {
    let bus = bus();
    let expected: &[(u16, u8)] = &[
        (0xFF00, 0xCF), (0xFF01, 0x00), (0xFF02, 0x7E), (0xFF04, 0xAB), (0xFF05, 0x00),
        (0xFF06, 0x00), (0xFF07, 0xF8), (0xFF0F, 0xE1), (0xFF10, 0x80), (0xFF11, 0xBF),
        (0xFF12, 0xF3), (0xFF13, 0xFF), (0xFF14, 0xBF), (0xFF16, 0x3F), (0xFF17, 0x00),
        (0xFF18, 0xFF), (0xFF19, 0xBF), (0xFF1A, 0x7F), (0xFF1B, 0xFF), (0xFF1C, 0x9F),
        (0xFF1D, 0xFF), (0xFF1E, 0xBF), (0xFF20, 0xFF), (0xFF21, 0x00), (0xFF22, 0x00),
        (0xFF23, 0xBF), (0xFF24, 0x77), (0xFF25, 0xF3), (0xFF40, 0x91), (0xFF42, 0x00),
        (0xFF43, 0x00), (0xFF44, 0x00), (0xFF45, 0x00), (0xFF46, 0xFF), (0xFF47, 0xFC),
        (0xFF4A, 0x00), (0xFF4B, 0x00), (0xFFFF, 0x00),
    ];
    for &(addr, value) in expected {
        assert_eq!(bus.read(addr), value, "${addr:04X}");
    }
    assert_eq!(bus.read(0xFF26), 0xF0, "NR52: powered, no channel on");
    assert_eq!(bus.read(0xFF41), 0x86, "STAT: mode 2, LY = LYC");
}

#[test]
fn tima_stays_stopped_while_tac_is_off() {
    let mut bus = bus();
    assert_eq!(bus.read(0xFF07) & 0x04, 0x00, "TAC is off at hand-off");
    for n in 1..=1000u32 {
        bus.tick_timer();
        assert_eq!(bus.read(0xFF05), 0x00);
        assert_eq!(bus.read(0xFF04), ((0xAB + n / 64) % 256) as u8);
    }
}

#[test]
fn the_frame_sequencer_stands_at_n_over_2048_mod_8() {
    let mut bus = bus();
    let n: u32 = 9 * 2048 + 5;
    for _ in 0..n {
        bus.tick_apu();
    }
    assert_eq!(bus.apu_frame_sequencer_step(), ((n / 2048) % 8) as u8);
    assert_eq!(bus.apu_frame_sequencer_step(), 1);
}
