use gb_core::bus::Bus;
use gb_core::cart::{load, Cartridge, CartridgeError};

fn rom(len: usize, kind: u8, size: u8) -> Vec<u8> {
    let mut rom: Vec<u8> = (0..len).map(|i| (i % 251) as u8).collect();
    rom[0x0147] = kind;
    rom[0x0148] = size;
    rom[0x0149] = 0x00;
    rom
}

#[test]
fn a_one_bank_mbc1_rom_mounts() {
    // An unknown size code makes the bank count come from the length: 1.
    let image = rom(16 * 1024, 0x01, 0x10);
    let cart = load(image.clone()).expect("one bank fits");
    assert_eq!(cart.read(0x0123), image[0x0123]);
    assert_eq!(cart.read(0x4000), 0xFF, "bank 1 is past the end of the ROM");
}

#[test]
fn an_mbc1_header_past_128_banks_mounts() {
    // $08: 8 MiB, 512 banks; the mask takes all eight bits.
    let image = rom(64 * 1024, 0x01, 0x08);
    let mut cart = load(image.clone()).expect("a short ROM fits a large header");
    cart.write(0x2000, 0x03);
    assert_eq!(cart.read(0x4000), image[3 * 0x4000]);
}

#[test]
fn an_mbc1_rom_longer_than_its_header_is_refused() {
    let image = rom(64 * 1024, 0x01, 0x00);
    assert!(matches!(load(image), Err(CartridgeError::RomTooLarge { len: 65536 })));
}

#[test]
fn a_loaded_cartridge_plugs_into_the_bus_and_answers_there() {
    let image = rom(32 * 1024, 0x00, 0x00);
    let bus = Bus::new(load(image.clone()).expect("ROM only fits"));
    assert_eq!(bus.read(0x0150), image[0x0150]);
    let boxed: Box<dyn Cartridge> = load(image.clone()).expect("ROM only fits");
    let bus: Bus = Bus::new(boxed);
    assert_eq!(bus.read(0x7FFF), image[0x7FFF]);
}
