use gb_core::bus::Bus;
use gb_core::cart::{CartridgeHeader, Mapper, NoMbc};
use gb_core::cpu::{Cpu, Lockup};

const ENTRY: usize = 0x0100;

fn machine(program: &[u8]) -> (Cpu, Bus) {
    let mut rom = vec![0x00; NoMbc::MAX_ROM_LEN];
    rom[ENTRY..ENTRY + program.len()].copy_from_slice(program);
    let checksum = CartridgeHeader::parse(&rom).expect("header").checksum();
    let cartridge = NoMbc::new(rom).expect("32 KiB fit");
    (Cpu::after_boot_rom(checksum), Bus::new(Box::new(cartridge)))
}

#[test]
fn nop_takes_one_mcycle_and_moves_pc() {
    let (mut cpu, mut bus) = machine(&[0x00]);
    let before = cpu.registers;
    cpu.step(&mut bus);
    assert!(cpu.is_between_instructions());
    assert_eq!(cpu.registers.pc, 0x0101);
    assert_eq!(cpu.registers.a, before.a);
    assert_eq!(cpu.registers.hl(), before.hl());
}

#[test]
fn jp_u16_takes_four_mcycles_and_lands_on_its_operand() {
    let (mut cpu, mut bus) = machine(&[0xC3, 0x50, 0x01]);
    cpu.step(&mut bus);
    assert!(!cpu.is_between_instructions());
    assert_eq!(cpu.registers.pc, 0x0101);
    cpu.step(&mut bus);
    cpu.step(&mut bus);
    assert!(!cpu.is_between_instructions());
    assert_eq!(cpu.registers.pc, 0x0103, "PC does not change before M4");
    cpu.step(&mut bus);
    assert!(cpu.is_between_instructions());
    assert_eq!(cpu.registers.pc, 0x0150);
}

#[test]
fn ld_register_to_register_finishes_in_its_fetch() {
    // LD B,C
    let (mut cpu, mut bus) = machine(&[0x41]);
    cpu.registers.c = 0x5A;
    cpu.step(&mut bus);
    assert!(cpu.is_between_instructions());
    assert_eq!(cpu.registers.b, 0x5A);
    assert_eq!(cpu.registers.c, 0x5A);
    assert_eq!(cpu.registers.pc, 0x0101);
}

#[test]
fn ld_register_from_hl_reads_memory_in_its_second_mcycle() {
    // LD A,(HL)
    let (mut cpu, mut bus) = machine(&[0x7E]);
    bus.write(0xC010, 0x77);
    cpu.registers.set_hl(0xC010);
    cpu.step(&mut bus);
    assert!(!cpu.is_between_instructions());
    assert_eq!(cpu.registers.a, 0x01, "A unchanged after M1");
    cpu.step(&mut bus);
    assert!(cpu.is_between_instructions());
    assert_eq!(cpu.registers.a, 0x77);
}

#[test]
fn ld_hl_from_register_writes_memory_in_its_second_mcycle() {
    // LD (HL),B
    let (mut cpu, mut bus) = machine(&[0x70]);
    cpu.registers.set_hl(0xC020);
    cpu.registers.b = 0x42;
    cpu.step(&mut bus);
    assert_eq!(bus.read(0xC020), 0x00, "nothing written in M1");
    cpu.step(&mut bus);
    assert_eq!(bus.read(0xC020), 0x42);
    assert!(cpu.is_between_instructions());
}

#[test]
fn illegal_opcode_locks_up_for_good() {
    let (mut cpu, mut bus) = machine(&[0xD3]);
    cpu.step(&mut bus);
    assert_eq!(cpu.lockup(), Some(Lockup::IllegalOpcode(0xD3)));
    let pc = cpu.registers.pc;
    for _ in 0..10 {
        cpu.step(&mut bus);
    }
    assert_eq!(cpu.lockup(), Some(Lockup::IllegalOpcode(0xD3)));
    assert_eq!(cpu.registers.pc, pc);
    assert!(!cpu.is_between_instructions());
}

#[test]
fn halt_is_not_ld_hl_hl() {
    let (mut cpu, mut bus) = machine(&[0x76]);
    cpu.step(&mut bus);
    assert_eq!(cpu.lockup(), Some(Lockup::UndecodedOpcode(0x76)));
}

#[test]
fn an_opcode_not_decoded_yet_stops_the_cpu() {
    let (mut cpu, mut bus) = machine(&[0x3E]);
    cpu.step(&mut bus);
    assert_eq!(cpu.lockup(), Some(Lockup::UndecodedOpcode(0x3E)));
}

#[test]
fn each_step_advances_the_timer() {
    let (mut cpu, mut bus) = machine(&[]);
    assert_eq!(bus.read(0xFF04), 0xAB);
    for _ in 0..64 {
        cpu.step(&mut bus);
    }
    assert_eq!(bus.read(0xFF04), 0xAC, "DIV counts every 64 M-cycles");
}

#[test]
fn a_mapped_cartridge_feeds_the_cpu_its_rom() {
    let mut rom = vec![0x00; NoMbc::MAX_ROM_LEN];
    rom[0x0100] = 0xC3;
    rom[0x0101] = 0x34;
    rom[0x0102] = 0x12;
    let checksum = CartridgeHeader::parse(&rom).expect("header").checksum();
    let mut cpu = Cpu::after_boot_rom(checksum);
    let mut bus = Bus::with_mapper(Mapper::RomOnly(NoMbc::new(rom).expect("fits")));
    assert_eq!(bus.read(0x0101), 0x34);
    for _ in 0..4 {
        cpu.step(&mut bus);
    }
    assert_eq!(cpu.registers.pc, 0x1234);
    assert!(cpu.is_between_instructions());
    assert!(bus.cartridge_ram().is_none());
}
