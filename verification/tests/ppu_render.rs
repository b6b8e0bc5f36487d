use gb_core::bus::Bus;
use gb_core::cart::{Cartridge, OPEN_BUS};

struct Blank;

impl Cartridge for Blank {
    fn read(&self, _addr: u16) -> u8 {
        OPEN_BUS
    }

    fn write(&mut self, _addr: u16, _value: u8) {}
}

const LCDC: u16 = 0xFF40;
const STAT: u16 = 0xFF41;
const SCX: u16 = 0xFF43;
const BGP: u16 = 0xFF47;
const OBP0: u16 = 0xFF48;

/// A bus with the LCD off, so that VRAM and OAM take writes.
fn quiet_bus() -> Bus {
    let mut bus: Bus = Bus::new(Box::new(Blank));
    bus.write(LCDC, 0x00);
    bus.tick_ppu();
    bus
}

/// Turns the LCD on with `lcdc` and draws line 0.
fn draw_line_0(bus: &mut Bus, lcdc: u8) {
    bus.write(LCDC, lcdc);
    for _ in 0..21 {
        bus.tick_ppu();
    }
}

#[test]
fn the_background_is_drawn_through_bgp() {
    let mut bus = quiet_bus();
    // Tile 0, row 0: colour 1 everywhere; row 1: colour 0.
    bus.write(0x8000, 0xFF);
    bus.write(0x8001, 0x00);
    bus.write(BGP, 0xE4); // colour n -> shade n
    draw_line_0(&mut bus, 0x91);
    let fb = bus.framebuffer();
    assert!(fb[..160].iter().all(|&shade| shade == 1));
}

#[test]
fn scx_scrolls_the_background() {
    let mut bus = quiet_bus();
    // Tile 1: row 0 is colour 3 in its leftmost pixel only.
    bus.write(0x8010, 0x80);
    bus.write(0x8011, 0x80);
    bus.write(0x9801, 0x01); // map column 1 holds tile 1
    bus.write(BGP, 0xE4);
    bus.write(SCX, 4);
    draw_line_0(&mut bus, 0x91);
    let fb = bus.framebuffer();
    assert_eq!(fb[4], 3, "map pixel 8 lands on screen column 4");
    assert_eq!(fb[3], 0);
    assert_eq!(fb[5], 0);
}

#[test]
fn an_object_is_drawn_over_the_background_through_obp0() {
    let mut bus = quiet_bus();
    // Tile 1, row 0: colour 3 in its leftmost pixel.
    bus.write(0x8010, 0x80);
    bus.write(0x8011, 0x80);
    // OAM entry 0 at screen (0, 0), tile 1.
    bus.write(0xFE00, 16);
    bus.write(0xFE01, 8);
    bus.write(0xFE02, 1);
    bus.write(0xFE03, 0x00);
    bus.write(BGP, 0xE4);
    bus.write(OBP0, 0x80); // colour 3 -> shade 2
    draw_line_0(&mut bus, 0x93);
    let fb = bus.framebuffer();
    assert_eq!(fb[0], 2, "colour 3 through OBP0 = $80 is shade 2");
    assert_eq!(fb[1], 0, "colour 0 of the object is transparent: background shade 0");
}

#[test]
fn objects_off_leaves_the_background() {
    let mut bus = quiet_bus();
    bus.write(0x8010, 0x80);
    bus.write(0x8011, 0x80);
    bus.write(0xFE00, 16);
    bus.write(0xFE01, 8);
    bus.write(0xFE02, 1);
    bus.write(BGP, 0xE4);
    bus.write(OBP0, 0xFF);
    draw_line_0(&mut bus, 0x91);
    assert_eq!(bus.framebuffer()[0], 0);
}

#[test]
fn stat_reports_the_mode_and_the_lyc_match() {
    let mut bus = Bus::new(Box::new(Blank));
    assert_eq!(bus.read(STAT) & 0x07, 0x06, "mode 2 with LY = LYC = 0");
    for _ in 0..20 {
        bus.tick_ppu();
    }
    assert_eq!(bus.read(STAT) & 0x03, 0x03, "mode 3 after 80 dots");
    for _ in 0..43 {
        bus.tick_ppu();
    }
    assert_eq!(bus.read(STAT) & 0x03, 0x00, "H-blank after 172 more");
}
