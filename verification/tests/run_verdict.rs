use gb_core::bus::Bus;
use gb_core::cart::{CartridgeHeader, NoMbc};
use gb_core::cpu::Cpu;
use gb_core::info::{human, HumanSize, SizeUnit};
use gb_core::run::{
    contains, framebuffer_hash, framebuffer_matches, has_verdict, lower_hex, run, serial_verdict,
    Verdict, SERIAL_POLL_CYCLES,
};

const ENTRY: usize = 0x0100;

fn machine(program: &[u8]) -> (Cpu, Bus) {
    let mut rom = vec![0x00; NoMbc::MAX_ROM_LEN];
    rom[ENTRY..ENTRY + program.len()].copy_from_slice(program);
    let checksum = CartridgeHeader::parse(&rom).expect("header").checksum();
    let cartridge = NoMbc::new(rom).expect("32 KiB fit");
    (Cpu::after_boot_rom(checksum), Bus::new(Box::new(cartridge)))
}

const BLANK_FRAME_SHA256: &str = "46e2096b907947368d310929303a04005b39c4a278e3a7de2225c355b4522694";

#[test]
fn contains_finds_a_needle_anywhere() {
    assert!(contains(b"abcdef", b"cde"));
    assert!(contains(b"abcdef", b"abcdef"));
    assert!(contains(b"abcdef", b""));
    assert!(!contains(b"abcdef", b"abd"));
    assert!(!contains(b"abc", b"abcd"));
    assert!(contains(b"aab", b"ab"));
}

#[test]
fn serial_verdicts() {
    assert!(has_verdict(b"cpu_instrs\n\nPassed all tests\n"));
    assert!(has_verdict(b"01:ok  02:Failed #3"));
    assert!(!has_verdict(b"passed"));
    assert_eq!(serial_verdict(b"\xFFPassed\xFE"), Verdict::Passed);
    assert_eq!(serial_verdict(b"Failed"), Verdict::Failed);
    assert_eq!(serial_verdict(b"Failed, then Passed"), Verdict::Passed);
    assert_eq!(serial_verdict(b""), Verdict::NoVerdict);
}

#[test]
fn lower_hex_gives_two_digits_per_byte() {
    assert_eq!(lower_hex(&[0x00, 0xAB, 0x9F, 0x10]), b"00ab9f10".to_vec());
    assert!(lower_hex(&[]).is_empty());
}

#[test]
fn a_blank_framebuffer_hashes_to_the_sha256_of_zeros() {
    let (_cpu, bus) = machine(&[]);
    assert_eq!(framebuffer_hash(&bus), BLANK_FRAME_SHA256.as_bytes().to_vec());
    assert!(framebuffer_matches(&bus, BLANK_FRAME_SHA256.as_bytes()));
    assert!(!framebuffer_matches(&bus, b"00"));
}

#[test]
fn a_run_without_verdict_uses_every_cycle() {
    let (mut cpu, mut bus) = machine(&[0xC3, 0x00, 0x01]);
    let result = run(&mut cpu, &mut bus, 1000, true);
    assert_eq!(result.cycles, 1000);
    assert!(result.serial.is_empty());
}

#[test]
fn a_run_stops_when_the_cpu_locks_up() {
    let (mut cpu, mut bus) = machine(&[0xD3]);
    let result = run(&mut cpu, &mut bus, 1000, false);
    assert_eq!(result.cycles, 1);
    assert!(cpu.lockup().is_some());
}

#[test]
fn a_run_stops_at_the_poll_that_sees_a_verdict() {
    let (mut cpu, mut bus) = machine(&[0xC3, 0x00, 0x01]);
    for &byte in b"Passed" {
        bus.write(0xFF01, byte);
        bus.write(0xFF02, 0x81);
    }
    let result = run(&mut cpu, &mut bus, 10 * SERIAL_POLL_CYCLES, true);
    assert_eq!(result.cycles, SERIAL_POLL_CYCLES);
    assert_eq!(result.serial, b"Passed".to_vec());
    assert_eq!(serial_verdict(&result.serial), Verdict::Passed);
}

#[test]
fn a_run_by_framebuffer_collects_no_serial() {
    let (mut cpu, mut bus) = machine(&[0xC3, 0x00, 0x01]);
    bus.write(0xFF01, b'P');
    bus.write(0xFF02, 0x81);
    let result = run(&mut cpu, &mut bus, 500, false);
    assert_eq!(result.cycles, 500);
    assert!(result.serial.is_empty());
}

#[test]
fn human_sizes_take_the_largest_exact_unit() {
    assert_eq!(human(0), HumanSize { value: 0, unit: SizeUnit::Bytes });
    assert_eq!(human(8 * 1024), HumanSize { value: 8, unit: SizeUnit::KiB });
    assert_eq!(human(2 * 1024 * 1024), HumanSize { value: 2, unit: SizeUnit::MiB });
    assert_eq!(human(1536), HumanSize { value: 1536, unit: SizeUnit::Bytes });
    assert_eq!(human(1536 * 1024), HumanSize { value: 1536, unit: SizeUnit::KiB });
}
