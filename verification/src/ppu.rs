//! The picture processing unit: the LCD registers at `$FF40`-`$FF4B`, the
//! mode timing of a scanline, the STAT and VBlank interrupt lines, and the
//! rendering of the background, the window and the objects one scanline at a
//! time into a 160x144 framebuffer of shades 0-3.
use vstd::prelude::*;

verus! {

pub(crate) const LCDC_ADDR: u16 = 0xFF40;
pub(crate) const STAT_ADDR: u16 = 0xFF41;
const SCY_ADDR: u16 = 0xFF42;
const SCX_ADDR: u16 = 0xFF43;
const LY_ADDR: u16 = 0xFF44;
const LYC_ADDR: u16 = 0xFF45;
const DMA_ADDR: u16 = 0xFF46;
const BGP_ADDR: u16 = 0xFF47;
const OBP0_ADDR: u16 = 0xFF48;
const OBP1_ADDR: u16 = 0xFF49;
const WY_ADDR: u16 = 0xFF4A;
pub(crate) const WX_ADDR: u16 = 0xFF4B;

const MODE_HBLANK: u8 = 0;
const MODE_VBLANK: u8 = 1;
const MODE_OAM_SCAN: u8 = 2;
const MODE_DRAW: u8 = 3;

/// Dots (T-cycles) in one scanline.
const DOTS_PER_SCANLINE: u32 = 456;
/// Mode 2 (OAM scan) lasts the first 80 dots of a visible line.
const MODE_2_END: u32 = 80;
/// Mode 3 (drawing) lasts 172 dots after that, in this model.
const MODE_3_BASE: u32 = 172;
/// The first VBlank line.
const VBLANK_START_LY: u8 = 144;
/// Lines per frame, VBlank included.
const TOTAL_LINES: u8 = 154;

/// Screen width in pixels.
pub(crate) const SCREEN_W: usize = 160;
/// Screen height in pixels.
pub(crate) const SCREEN_H: usize = 144;
/// Pixels in the framebuffer.
pub(crate) const FRAMEBUFFER_LEN: usize = 23040;

/// The writable bits of STAT at boot-ROM hand-off.
const STAT_BOOT_WRITABLE: u8 = 0x80;

/// What one PPU tick asks of the rest of the machine.
#[derive(Debug, Clone, Copy, PartialEq, Eq)]
pub struct PpuSignals {
    pub vblank_interrupt: bool,
    pub stat_interrupt: bool,
    pub begin_mode3: bool,
}

/// The PPU state.
pub struct PpuView {
    /// Dots elapsed in the current scanline.
    pub dots: u32,
    pub scy: u8,
    pub scx: u8,
    pub ly: u8,
    pub lcdc: u8,
    pub lyc: u8,
    pub dma: u8,
    pub bgp: u8,
    pub obp0: u8,
    pub obp1: u8,
    pub wy: u8,
    pub wx: u8,
    /// STAT bits 7-3, as last written.
    pub stat_writable: u8,
    /// The window's own line counter.
    pub window_line: u8,
    /// Whether `LY` has matched `WY` in this frame.
    pub window_y_condition: bool,
    /// 160x144 shades, row by row.
    pub framebuffer: Seq<u8>,
}

/// Index `x` of a 0-3 palette: the two bits of the shade for colour `color`.
pub open spec fn palette_shade(palette: u8, color: u8) -> u8 {
    (palette >> (color * 2)) % 4
}

/// The two-bit colour of pixel `bit` of a tile row, from its two bytes.
pub open spec fn tile_color(byte0: u8, byte1: u8, bit: u8) -> u8 {
    (((byte1 >> bit) % 2) * 2 + (byte0 >> bit) % 2) as u8
}

/// Where a tile's data starts: `$8000 + 16 * index` in the unsigned mode,
/// and in the signed mode `$9000 + 16 * index` with the index read as a
/// signed byte.
pub open spec fn tile_data_addr(unsigned: bool, index: u8) -> int {
    if unsigned || index >= 128 { 0x8000 + index * 16 } else { 0x9000 + index * 16 }
}

/// The framebuffer `fb` with row `row` replaced by `f(x)` for each column.
pub open spec fn with_row(fb: Seq<u8>, row: int, f: spec_fn(int) -> u8) -> Seq<u8> {
    Seq::new(fb.len(), |i: int| if row * 160 <= i < row * 160 + 160 { f(i - row * 160) } else { fb[i] })
}

/// Height of objects: 16 with LCDC bit 2 set, else 8.
pub open spec fn obj_height(lcdc: u8) -> int {
    if lcdc & 0x04 != 0 { 16 } else { 8 }
}

/// Whether OAM entry `i` covers line `ly`.
pub open spec fn on_line(oam: Seq<u8>, i: int, ly: int, height: int) -> bool {
    let top = oam[4 * i] - 16;
    top <= ly < top + height
}

/// How many of OAM entries `0..n` cover line `ly`.
pub open spec fn count_on_line(oam: Seq<u8>, ly: int, height: int, n: int) -> nat
    decreases n,
{
    if n <= 0 {
        0
    } else {
        count_on_line(oam, ly, height, n - 1) + if on_line(oam, n - 1, ly, height) { 1nat } else { 0nat }
    }
}

/// Whether OAM entry `i` is one of the (at most ten) objects the line keeps:
/// the first ten in OAM order that cover it.
pub open spec fn selected(oam: Seq<u8>, i: int, ly: int, height: int) -> bool {
    on_line(oam, i, ly, height) && count_on_line(oam, ly, height, i) < 10
}

/// Whether entry `i` spans column `x`.
pub open spec fn covers(oam: Seq<u8>, i: int, x: int) -> bool {
    let left = oam[4 * i + 1] - 8;
    left <= x < left + 8
}

/// Entry `i` goes before entry `j` when its X coordinate is smaller, or the
/// coordinates tie and it comes first in OAM.
pub open spec fn drawn_before(oam: Seq<u8>, i: int, j: int) -> bool {
    oam[4 * i + 1] < oam[4 * j + 1] || (oam[4 * i + 1] == oam[4 * j + 1] && i < j)
}

impl PpuView {
    /// The invariant: the dot counter inside the line, the line inside the
    /// frame, a full framebuffer, and STAT's low three bits not stored.
    pub open spec fn wf(self) -> bool {
        &&& self.dots < 456
        &&& self.ly < 154
        &&& self.framebuffer.len() == 23040
        &&& self.stat_writable & 7 == 0
    }

    /// Whether the LCD is on (LCDC bit 7).
    pub open spec fn enabled(self) -> bool {
        self.lcdc & 0x80 != 0
    }

    /// The mode STAT reports: 0 with the LCD off; 1 on lines 144-153; on a
    /// visible line 2 for the first 80 dots, 3 for the next 172, then 0.
    pub open spec fn mode(self) -> u8 {
        if !self.enabled() {
            0
        } else if self.ly >= 144 {
            1
        } else if self.dots < 80 {
            2
        } else if self.dots < 252 {
            3
        } else {
            0
        }
    }

    /// The STAT interrupt line: an enabled source among the mode 0, 1 and 2
    /// selects (STAT bits 3-5) and LY=LYC (bit 6).
    pub open spec fn stat_line(self) -> bool {
        if !self.enabled() {
            false
        } else {
            let mode = self.mode();
            let s = self.stat_writable;
            (mode == 0 && (s >> 3) % 2 != 0) || (mode == 1 && (s >> 4) % 2 != 0)
                || (mode == 2 && (s >> 5) % 2 != 0) || (self.ly == self.lyc && (s >> 6) % 2 != 0)
        }
    }

    /// VRAM is closed to the CPU while the PPU draws (mode 3).
    pub open spec fn vram_accessible(self) -> bool {
        self.mode() != 3
    }

    /// OAM is closed to the CPU during the OAM scan and while drawing.
    pub open spec fn oam_accessible(self) -> bool {
        self.mode() == 0 || self.mode() == 1
    }

    /// What the register at `addr` (in `$FF40`-`$FF4B`) reads.
    pub open spec fn read(self, addr: u16) -> u8 {
        if addr == 0xFF40 { self.lcdc }
        else if addr == 0xFF41 {
            let lyc_flag: u8 = if self.ly == self.lyc && self.enabled() { 0x04 } else { 0x00 };
            self.stat_writable | lyc_flag | self.mode()
        }
        else if addr == 0xFF42 { self.scy }
        else if addr == 0xFF43 { self.scx }
        else if addr == 0xFF44 { self.ly }
        else if addr == 0xFF45 { self.lyc }
        else if addr == 0xFF46 { self.dma }
        else if addr == 0xFF47 { self.bgp }
        else if addr == 0xFF48 { self.obp0 }
        else if addr == 0xFF49 { self.obp1 }
        else if addr == 0xFF4A { self.wy }
        else { self.wx }
    }

    /// The PPU after `value` is written at `addr` (in `$FF40`-`$FF4B`). `LY`
    /// is read-only and STAT keeps only bits 7-3.
    pub open spec fn write(self, addr: u16, value: u8) -> PpuView {
        if addr == 0xFF40 { PpuView { lcdc: value, ..self } }
        else if addr == 0xFF41 { PpuView { stat_writable: value & 0xF8, ..self } }
        else if addr == 0xFF42 { PpuView { scy: value, ..self } }
        else if addr == 0xFF43 { PpuView { scx: value, ..self } }
        else if addr == 0xFF44 { self }
        else if addr == 0xFF45 { PpuView { lyc: value, ..self } }
        else if addr == 0xFF46 { PpuView { dma: value, ..self } }
        else if addr == 0xFF47 { PpuView { bgp: value, ..self } }
        else if addr == 0xFF48 { PpuView { obp0: value, ..self } }
        else if addr == 0xFF49 { PpuView { obp1: value, ..self } }
        else if addr == 0xFF4A { PpuView { wy: value, ..self } }
        else { PpuView { wx: value, ..self } }
    }

    /// One M-cycle (four dots) of PPU time, and the signals it raises.
    ///
    /// With the LCD off, the dot counter and `LY` are held at 0. Otherwise
    /// the line's dots advance by 4; at 456 the next line starts (after
    /// line 153 comes line 0). Entering line 144 raises VBlank and resets the
    /// window state; crossing dot 80 on a visible line begins mode 3 (the
    /// scanline is rendered then); the STAT interrupt fires on a rising edge
    /// of the STAT line.
    pub open spec fn tick(self) -> (PpuView, PpuSignals) {
        if !self.enabled() {
            (PpuView { dots: 0, ly: 0, ..self }, PpuSignals { vblank_interrupt: false, stat_interrupt: false, begin_mode3: false })
        } else {
            let wyc = if self.dots == 0 && self.ly == self.wy && self.ly < 144 { true } else { self.window_y_condition };
            let advanced = self.dots + 4;
            let wraps = advanced >= 456;
            let new_ly: u8 = if wraps { ((self.ly + 1) % 154) as u8 } else { self.ly };
            let vblank = wraps && self.ly == 143;
            let next = PpuView {
                dots: if wraps { 0 } else { advanced as u32 },
                ly: new_ly,
                window_y_condition: if vblank { false } else { wyc },
                window_line: if vblank { 0 } else { self.window_line },
                ..self
            };
            let begin_mode3 = self.dots < 80 && next.dots >= 80 && next.ly < 144;
            (next, PpuSignals {
                vblank_interrupt: vblank,
                stat_interrupt: next.stat_line() && !self.stat_line(),
                begin_mode3,
            })
        }
    }

    /// The first screen column covered by the window on this line, if the
    /// window is shown: enabled (LCDC bit 5), reached by `LY`, and `WX` at
    /// most 166. `WX` 0 and 166 both start at column 0.
    pub open spec fn window_left(self) -> Option<int> {
        if self.lcdc & 0x20 == 0 || !self.window_y_condition {
            None
        } else if self.wx > 166 {
            None
        } else if self.wx == 0 || self.wx == 166 {
            Some(0)
        } else {
            Some(self.wx - 7)
        }
    }

    /// The background shade at column `x` of the current line.
    pub open spec fn background_shade(self, vram: Seq<u8>, x: int) -> u8 {
        let bg_x = (x + self.scx) % 256;
        let bg_y = (self.ly + self.scy) % 256;
        let map_base: int = if self.lcdc & 0x08 != 0 { 0x9C00 } else { 0x9800 };
        let tile_index = vram[map_base + (bg_y / 8) * 32 + bg_x / 8 - 0x8000];
        let data = tile_data_addr(self.lcdc & 0x10 != 0, tile_index) + (bg_y % 8) * 2 - 0x8000;
        palette_shade(self.bgp, tile_color(vram[data], vram[data + 1], (7 - bg_x % 8) as u8))
    }

    /// The window shade at column `x` (at or right of `left`) of the current
    /// line. With `WX` = 0 the window is shifted by `SCX & 7`; with
    /// `WX` = 166 it reads one line further down.
    pub open spec fn window_shade(self, vram: Seq<u8>, x: int, left: int) -> u8 {
        let win_x = if self.wx == 0 { x - left + self.scx % 8 } else { x - left };
        let row_base: int = if self.wx == 166 { (self.window_line + 1) % 256 } else { self.window_line as int };
        let map_base: int = if self.lcdc & 0x40 != 0 { 0x9C00 } else { 0x9800 };
        let tile_index = vram[map_base + (row_base / 8) * 32 + win_x / 8 - 0x8000];
        let data = tile_data_addr(self.lcdc & 0x10 != 0, tile_index) + (row_base % 8) * 2 - 0x8000;
        palette_shade(self.bgp, tile_color(vram[data], vram[data + 1], (7 - win_x % 8) as u8))
    }

    /// The background-or-window shade at column `x` of the current line.
    pub open spec fn bg_window_shade(self, vram: Seq<u8>, x: int) -> u8 {
        match self.window_left() {
            Some(left) => if x >= left { self.window_shade(vram, x, left) } else { self.background_shade(vram, x) },
            None => self.background_shade(vram, x),
        }
    }

    /// The PPU after the background and window of the current line are drawn:
    /// with LCDC bit 0 clear the line is blank (shade 0 of BGP); otherwise
    /// every column gets its background or window shade, and the window line
    /// counter advances when the window showed.
    pub open spec fn render_background(self, vram: Seq<u8>) -> PpuView {
        if self.ly >= 144 {
            self
        } else if self.lcdc & 0x01 == 0 {
            PpuView { framebuffer: with_row(self.framebuffer, self.ly as int, |x: int| self.bgp % 4), ..self }
        } else {
            PpuView {
                framebuffer: with_row(self.framebuffer, self.ly as int, |x: int| self.bg_window_shade(vram, x)),
                window_line: if self.window_left() is Some { ((self.window_line + 1) % 256) as u8 } else { self.window_line },
                ..self
            }
        }
    }

    /// The colour of OAM entry `i` at column `x` of the current line
    /// (assuming it covers both): flips, 8x16 tile pairs and the tile row
    /// applied.
    pub open spec fn sprite_color(self, oam: Seq<u8>, vram: Seq<u8>, i: int, x: int) -> u8 {
        let height = obj_height(self.lcdc);
        let tile = oam[4 * i + 2];
        let attr = oam[4 * i + 3];
        let line = self.ly - (oam[4 * i] - 16);
        let flipped = if attr & 0x40 != 0 { height - 1 - line } else { line };
        let tile_number = if height == 16 { (tile - tile % 2) + if flipped < 8 { 0int } else { 1int } } else { tile as int };
        let line_in_tile = if height == 16 && flipped >= 8 { flipped - 8 } else { flipped };
        let into = x - (oam[4 * i + 1] - 8);
        let bit = if attr & 0x20 != 0 { into } else { 7 - into };
        let data = tile_number * 16 + line_in_tile * 2;
        tile_color(vram[data], vram[data + 1], bit as u8)
    }

    /// Whether entry `i` can show a pixel at column `x`: one of the line's
    /// objects, spanning `x`, with a non-transparent colour there.
    pub open spec fn sprite_eligible(self, oam: Seq<u8>, vram: Seq<u8>, i: int, x: int) -> bool {
        &&& 0 <= i < 40
        &&& selected(oam, i, self.ly as int, obj_height(self.lcdc))
        &&& covers(oam, i, x)
        &&& self.sprite_color(oam, vram, i, x) != 0
    }

    /// The eligible entry among `0..n` that is drawn first at `x`, if any.
    pub open spec fn first_sprite(self, oam: Seq<u8>, vram: Seq<u8>, x: int, n: int) -> Option<int>
        decreases n,
    {
        if n <= 0 {
            None
        } else {
            let best = self.first_sprite(oam, vram, x, n - 1);
            if self.sprite_eligible(oam, vram, n - 1, x) && (best is None || drawn_before(oam, n - 1, best->0)) {
                Some(n - 1)
            } else {
                best
            }
        }
    }

    /// The shade at column `x` once objects are drawn over `under`: the first
    /// object drawn there wins, unless it is behind the background (attribute
    /// bit 7) and the background shade is not 0 with the background enabled.
    pub open spec fn sprite_shade(self, oam: Seq<u8>, vram: Seq<u8>, x: int, under: u8) -> u8 {
        match self.first_sprite(oam, vram, x, 40) {
            None => under,
            Some(i) => {
                let attr = oam[4 * i + 3];
                let behind = (attr >> 7) % 2 != 0 && under != 0 && self.lcdc & 0x01 != 0;
                if behind {
                    under
                } else {
                    let palette = if (attr >> 4) % 2 != 0 { self.obp1 } else { self.obp0 };
                    palette_shade(palette, self.sprite_color(oam, vram, i, x))
                }
            },
        }
    }

    /// The PPU after the objects of the current line are drawn over it.
    pub open spec fn render_sprites(self, oam: Seq<u8>, vram: Seq<u8>) -> PpuView {
        if self.ly >= 144 {
            self
        } else {
            PpuView {
                framebuffer: with_row(self.framebuffer, self.ly as int, |x: int| self.sprite_shade(oam, vram, x, self.framebuffer[self.ly * 160 + x])),
                ..self
            }
        }
    }

    /// The PPU after the current line is rendered: background and window,
    /// then objects when LCDC bit 1 enables them.
    pub open spec fn render_scanline(self, vram: Seq<u8>, oam: Seq<u8>) -> PpuView {
        let bg = self.render_background(vram);
        if self.lcdc & 0x02 != 0 { bg.render_sprites(oam, vram) } else { bg }
    }
}

pub(crate) struct Ppu {
    dots: u32,
    scy: u8,
    scx: u8,
    ly: u8,
    lcdc: u8,
    lyc: u8,
    dma: u8,
    bgp: u8,
    obp0: u8,
    obp1: u8,
    wy: u8,
    wx: u8,
    stat_writable: u8,
    window_line: u8,
    window_y_condition: bool,
    framebuffer: [u8; 23040],
}

impl View for Ppu {
    type V = PpuView;

    closed spec fn view(&self) -> PpuView {
        PpuView {
            dots: self.dots,
            scy: self.scy,
            scx: self.scx,
            ly: self.ly,
            lcdc: self.lcdc,
            lyc: self.lyc,
            dma: self.dma,
            bgp: self.bgp,
            obp0: self.obp0,
            obp1: self.obp1,
            wy: self.wy,
            wx: self.wx,
            stat_writable: self.stat_writable,
            window_line: self.window_line,
            window_y_condition: self.window_y_condition,
            framebuffer: self.framebuffer@,
        }
    }
}

impl Ppu {
    pub(crate) fn new() -> (p: Self)
        ensures
            p@.wf(),
            p@ == (PpuView {
                dots: 0, scy: 0, scx: 0, ly: 0, lcdc: 0x91, lyc: 0, dma: 0xFF, bgp: 0xFC,
                obp0: 0, obp1: 0, wy: 0, wx: 0, stat_writable: 0x80, window_line: 0,
                window_y_condition: false, framebuffer: Seq::new(23040, |i: int| 0u8),
            }),
    {
        let p = Self {
            dots: 0,
            scy: 0x00,
            scx: 0x00,
            ly: 0,
            lcdc: 0x91,
            lyc: 0x00,
            dma: 0xFF,
            bgp: 0xFC,
            obp0: 0x00,
            obp1: 0x00,
            wy: 0x00,
            wx: 0x00,
            stat_writable: STAT_BOOT_WRITABLE,
            window_line: 0,
            window_y_condition: false,
            framebuffer: [0x00u8; 23040],
        };
        proof {
            assert(0x80u8 & 7 == 0) by (bit_vector);
            assert(p@.framebuffer =~= Seq::new(23040, |i: int| 0u8));
        }
        p
    }

    pub(crate) fn framebuffer(&self) -> (r: &[u8; 23040])
        ensures
            r@ == self@.framebuffer,
    {
        &self.framebuffer
    }

    pub(crate) fn tick(&mut self) -> (signals: PpuSignals)
        requires
            old(self)@.wf(),
        ensures
            final(self)@.wf(),
            (final(self)@, signals) == old(self)@.tick(),
    {
        if self.lcdc & 0x80 == 0 {
            self.dots = 0;
            self.ly = 0;
            return PpuSignals { vblank_interrupt: false, stat_interrupt: false, begin_mode3: false };
        }

        if self.dots == 0 && self.ly == self.wy && self.ly < VBLANK_START_LY {
            self.window_y_condition = true;
        }

        let old_stat_line = self.compute_stat_line();
        let old_ly = self.ly;

        let old_dots = self.dots;
        self.dots = self.dots + 4;

        let mut vblank_fired = false;
        if self.dots >= DOTS_PER_SCANLINE {
            self.dots = 0;
            let new_ly = (self.ly + 1) % TOTAL_LINES;
            if old_ly == VBLANK_START_LY - 1 && new_ly == VBLANK_START_LY {
                vblank_fired = true;
                self.window_y_condition = false;
                self.window_line = 0;
            }
            self.ly = new_ly;
        }

        let begin_mode3 = old_dots < MODE_2_END && self.dots >= MODE_2_END && self.ly < VBLANK_START_LY;

        let new_stat_line = self.compute_stat_line();
        let stat_interrupt = new_stat_line && !old_stat_line;

        PpuSignals { vblank_interrupt: vblank_fired, stat_interrupt, begin_mode3 }
    }

    pub(crate) fn render_scanline(&mut self, vram: &[u8], oam: &[u8])
        requires
            old(self)@.wf(),
            vram@.len() == 8192,
            oam@.len() == 160,
        ensures
            final(self)@.wf(),
            final(self)@ == old(self)@.render_scanline(vram@, oam@),
    {
        self.render_background_scanline(vram);
        if self.lcdc & 0x02 != 0 {
            self.render_sprites(oam, vram);
        }
    }

    /// Marks which OAM entries the current line keeps: the first ten, in OAM
    /// order, whose rows cover it.
    fn select_sprites(&self, oam: &[u8], height: i32) -> (flags: [bool; 40])
        requires
            oam@.len() == 160,
            height == obj_height(self@.lcdc),
            self@.ly < 144,
        ensures
            forall|i: int| 0 <= i < 40 ==> flags@[i] == selected(oam@, i, self@.ly as int, height as int),
    {
        let ly = self.ly as i32;
        let mut flags = [false; 40];
        let mut count: usize = 0;
        let mut i: usize = 0;
        while i < 40
            invariant
                oam@.len() == 160,
                height == obj_height(self@.lcdc),
                ly == self@.ly,
                i <= 40,
                count == count_on_line(oam@, ly as int, height as int, i as int),
                count <= i,
                forall|j: int| 0 <= j < i ==> flags@[j] == selected(oam@, j, ly as int, height as int),
                forall|j: int| i <= j < 40 ==> !flags@[j],
            decreases 40 - i,
        {
            let sprite_y = (oam[i * 4] as i32) - 16;
            let on = sprite_y <= ly && ly < sprite_y + height;
            if on && count < 10 {
                flags[i] = true;
            }
            if on {
                count = count + 1;
            }
            i = i + 1;
        }
        flags
    }

    /// The colour of OAM entry `i` at column `x` (see
    /// [`PpuView::sprite_color`]).
    fn sprite_color(&self, oam: &[u8], vram: &[u8], i: usize, x: usize, height: i32) -> (c: u8)
        requires
            oam@.len() == 160,
            vram@.len() == 8192,
            i < 40,
            x < 160,
            height == obj_height(self@.lcdc),
            self@.ly < 144,
            on_line(oam@, i as int, self@.ly as int, height as int),
            covers(oam@, i as int, x as int),
        ensures
            c == self@.sprite_color(oam@, vram@, i as int, x as int),
            c <= 3,
    {
        let tile_idx = oam[i * 4 + 2];
        let attr = oam[i * 4 + 3];
        let current_line = (self.ly as i32) - ((oam[i * 4] as i32) - 16);
        let flipped_line: i32 = if attr & 0x40 != 0 { height - 1 - current_line } else { current_line };
        let (effective_tile, line_in_tile): (usize, usize) = if height == 16 {
            let base = (tile_idx - tile_idx % 2) as usize;
            if flipped_line < 8 {
                (base, flipped_line as usize)
            } else {
                (base + 1, (flipped_line - 8) as usize)
            }
        } else {
            (tile_idx as usize, flipped_line as usize)
        };
        let into = (x as i32) - ((oam[i * 4 + 1] as i32) - 8);
        let pixel_in_tile: u8 = if attr & 0x20 != 0 { into as u8 } else { (7 - into) as u8 };
        let data = effective_tile * 16 + line_in_tile * 2;
        let byte0 = vram[data];
        let byte1 = vram[data + 1];
        (((byte1 >> pixel_in_tile) % 2) * 2 + (byte0 >> pixel_in_tile) % 2) as u8
    }

    fn render_sprites(&mut self, oam: &[u8], vram: &[u8])
        requires
            old(self)@.wf(),
            oam@.len() == 160,
            vram@.len() == 8192,
        ensures
            final(self)@.wf(),
            final(self)@ == old(self)@.render_sprites(oam@, vram@),
    {
        if self.ly >= 144 {
            return;
        }
        let row = (self.ly as usize) * SCREEN_W;
        let height: i32 = if self.lcdc & 0x04 != 0 { 16 } else { 8 };
        let flags = self.select_sprites(oam, height);
        let ghost before = self@;

        let mut pixel_x: usize = 0;
        while pixel_x < SCREEN_W
            invariant
                before.wf(),
                before.ly < 144,
                row == before.ly * 160,
                oam@.len() == 160,
                vram@.len() == 8192,
                height == obj_height(before.lcdc),
                forall|i: int| 0 <= i < 40 ==> flags@[i] == selected(oam@, i, before.ly as int, height as int),
                pixel_x <= 160,
                self@ == (PpuView { framebuffer: self@.framebuffer, ..before }),
                self@.framebuffer.len() == 23040,
                forall|k: int| 0 <= k < 23040 && !(row <= k < row + pixel_x) ==> self@.framebuffer[k] == before.framebuffer[k],
                forall|k: int| row <= k < row + pixel_x ==> self@.framebuffer[k] == before.sprite_shade(oam@, vram@, k - row, before.framebuffer[k]),
            decreases SCREEN_W - pixel_x,
        {
            // The first eligible object in drawing order: smallest X, then
            // smallest OAM index.
            let mut best: Option<(usize, u8)> = None;
            let mut i: usize = 0;
            while i < 40
                invariant
                    before.wf(),
                    before.ly < 144,
                    oam@.len() == 160,
                    vram@.len() == 8192,
                    height == obj_height(before.lcdc),
                    self@ == (PpuView { framebuffer: self@.framebuffer, ..before }),
                    forall|j: int| 0 <= j < 40 ==> flags@[j] == selected(oam@, j, before.ly as int, height as int),
                    pixel_x < 160,
                    i <= 40,
                    match best {
                        None => before.first_sprite(oam@, vram@, pixel_x as int, i as int) is None,
                        Some((b, c)) => before.first_sprite(oam@, vram@, pixel_x as int, i as int) == Some(b as int)
                            && b < 40 && c == before.sprite_color(oam@, vram@, b as int, pixel_x as int),
                    },
                decreases 40 - i,
            {
                let x = oam[i * 4 + 1] as i32;
                let screen_x = x - 8;
                let spans = screen_x <= (pixel_x as i32) && (pixel_x as i32) < screen_x + 8;
                if flags[i] && spans {
                    let color = self.sprite_color(oam, vram, i, pixel_x, height);
                    if color != 0 {
                        let better = match best {
                            None => true,
                            Some((b, _)) => oam[i * 4 + 1] < oam[b * 4 + 1] || (oam[i * 4 + 1] == oam[b * 4 + 1] && i < b),
                        };
                        if better {
                            best = Some((i, color));
                        }
                    }
                }
                i = i + 1;
            }

            if let Some((b, color)) = best {
                let attr = oam[b * 4 + 3];
                let bg_shade = self.framebuffer[row + pixel_x];
                let sprite_wins = !((attr >> 7) % 2 != 0 && bg_shade != 0 && self.lcdc & 0x01 != 0);
                if sprite_wins {
                    let palette_reg = if (attr >> 4) % 2 != 0 { self.obp1 } else { self.obp0 };
                    let shade = (palette_reg >> (color * 2)) % 4;
                    self.framebuffer[row + pixel_x] = shade;
                }
            }
            pixel_x = pixel_x + 1;
        }
        proof {
            assert(self@.framebuffer =~= with_row(before.framebuffer, before.ly as int, |x: int| before.sprite_shade(oam@, vram@, x, before.framebuffer[before.ly * 160 + x])));
        }
    }

    /// The background shade at column `x` (see
    /// [`PpuView::background_shade`]).
    fn background_pixel(&self, vram: &[u8], pixel_x: usize) -> (shade: u8)
        requires
            vram@.len() == 8192,
            pixel_x < 160,
        ensures
            shade == self@.background_shade(vram@, pixel_x as int),
    {
        let bg_tilemap_base: usize = if self.lcdc & 0x08 != 0 { 0x9C00 } else { 0x9800 };
        let bg_x = (pixel_x + self.scx as usize) % 256;
        let bg_y = (self.ly as usize + self.scy as usize) % 256;
        let tilemap_addr = bg_tilemap_base + (bg_y / 8) * 32 + bg_x / 8;
        let tile_index = vram[tilemap_addr - 0x8000];
        let tile_addr = tile_data_start(self.lcdc & 0x10 != 0, tile_index);
        let byte0_addr = tile_addr - 0x8000 + (bg_y % 8) * 2;
        let byte0 = vram[byte0_addr];
        let byte1 = vram[byte0_addr + 1];
        let pixel_in_tile = (7 - bg_x % 8) as u8;
        let color_idx = ((byte1 >> pixel_in_tile) % 2) * 2 + (byte0 >> pixel_in_tile) % 2;
        (self.bgp >> (color_idx * 2)) % 4
    }

    /// The window shade at column `x` (see [`PpuView::window_shade`]).
    fn window_pixel(&self, vram: &[u8], pixel_x: usize, left: i16) -> (shade: u8)
        requires
            vram@.len() == 8192,
            pixel_x < 160,
            -7 <= left <= 159,
            pixel_x >= left,
            self@.window_left() == Some(left as int),
        ensures
            shade == self@.window_shade(vram@, pixel_x as int, left as int),
    {
        let win_tilemap_base: usize = if self.lcdc & 0x40 != 0 { 0x9C00 } else { 0x9800 };
        let mut win_x = ((pixel_x as i16) - left) as usize;
        if self.wx == 0 {
            win_x = win_x + (self.scx % 8) as usize;
        }
        let tile_row_base: usize = if self.wx == 166 { ((self.window_line as usize) + 1) % 256 } else { self.window_line as usize };
        let tilemap_addr = win_tilemap_base + (tile_row_base / 8) * 32 + win_x / 8;
        let tile_index = vram[tilemap_addr - 0x8000];
        let tile_addr = tile_data_start(self.lcdc & 0x10 != 0, tile_index);
        let byte0_addr = tile_addr - 0x8000 + (tile_row_base % 8) * 2;
        let byte0 = vram[byte0_addr];
        let byte1 = vram[byte0_addr + 1];
        let pixel_in_tile = (7 - win_x % 8) as u8;
        let color_idx = ((byte1 >> pixel_in_tile) % 2) * 2 + (byte0 >> pixel_in_tile) % 2;
        (self.bgp >> (color_idx * 2)) % 4
    }

    pub(crate) fn render_background_scanline(&mut self, vram: &[u8])
        requires
            old(self)@.wf(),
            vram@.len() == 8192,
        ensures
            final(self)@.wf(),
            final(self)@ == old(self)@.render_background(vram@),
    {
        let ly = self.ly as usize;
        if ly >= SCREEN_H {
            return;
        }
        let row = ly * SCREEN_W;
        let ghost before = self@;

        if self.lcdc & 0x01 == 0 {
            let shade = self.bgp % 4;
            let mut x: usize = 0;
            while x < SCREEN_W
                invariant
                    before.wf(),
                    row == before.ly * 160,
                    before.ly < 144,
                    shade == before.bgp % 4,
                    x <= 160,
                    self@ == (PpuView { framebuffer: self@.framebuffer, ..before }),
                    self@.framebuffer.len() == 23040,
                    forall|k: int| 0 <= k < 23040 && !(row <= k < row + x) ==> self@.framebuffer[k] == before.framebuffer[k],
                    forall|k: int| row <= k < row + x ==> self@.framebuffer[k] == shade,
                decreases SCREEN_W - x,
            {
                self.framebuffer[row + x] = shade;
                x = x + 1;
            }
            proof {
                assert(self@.framebuffer =~= with_row(before.framebuffer, before.ly as int, |x: int| before.bgp % 4));
            }
            return;
        }

        let win_left = self.window_left();
        let mut pixel_x: usize = 0;
        while pixel_x < SCREEN_W
            invariant
                before.wf(),
                row == before.ly * 160,
                before.ly < 144,
                before.lcdc & 0x01 != 0,
                vram@.len() == 8192,
                win_left matches Some(l) ==> -7 <= l <= 159 && before.window_left() == Some(l as int),
                win_left is None ==> before.window_left() is None,
                pixel_x <= 160,
                self@ == (PpuView { framebuffer: self@.framebuffer, ..before }),
                self@.framebuffer.len() == 23040,
                forall|k: int| 0 <= k < 23040 && !(row <= k < row + pixel_x) ==> self@.framebuffer[k] == before.framebuffer[k],
                forall|k: int| row <= k < row + pixel_x ==> self@.framebuffer[k] == before.bg_window_shade(vram@, k - row),
            decreases SCREEN_W - pixel_x,
        {
            let shade = match win_left {
                Some(left) => {
                    if (pixel_x as i16) >= left {
                        self.window_pixel(vram, pixel_x, left)
                    } else {
                        self.background_pixel(vram, pixel_x)
                    }
                },
                None => self.background_pixel(vram, pixel_x),
            };
            self.framebuffer[row + pixel_x] = shade;
            pixel_x = pixel_x + 1;
        }

        if win_left.is_some() {
            self.window_line = self.window_line.wrapping_add(1);
        }
        proof {
            assert(self@.framebuffer =~= with_row(before.framebuffer, before.ly as int, |x: int| before.bg_window_shade(vram@, x)));
        }
    }

    fn window_left(&self) -> (r: Option<i16>)
        ensures
            r matches Some(l) ==> -7 <= l <= 159 && self@.window_left() == Some(l as int),
            r is None ==> self@.window_left() is None,
    {
        if (self.lcdc & 0x20) == 0 || !self.window_y_condition {
            return None;
        }
        if self.wx > 166 {
            return None;
        }
        if self.wx == 0 || self.wx == 166 {
            return Some(0);
        }
        Some((self.wx as i16) - 7)
    }

    pub(crate) fn read(&self, addr: u16) -> (r: u8)
        requires
            0xFF40 <= addr <= 0xFF4B,
        ensures
            r == self@.read(addr),
    {
        if addr == LCDC_ADDR {
            self.lcdc
        } else if addr == STAT_ADDR {
            let mode = self.current_mode();
            let lyc_flag: u8 = if self.ly == self.lyc && self.lcdc & 0x80 != 0 { 0x04 } else { 0x00 };
            self.stat_writable | lyc_flag | mode
        } else if addr == SCY_ADDR {
            self.scy
        } else if addr == SCX_ADDR {
            self.scx
        } else if addr == LY_ADDR {
            self.ly
        } else if addr == LYC_ADDR {
            self.lyc
        } else if addr == DMA_ADDR {
            self.dma
        } else if addr == BGP_ADDR {
            self.bgp
        } else if addr == OBP0_ADDR {
            self.obp0
        } else if addr == OBP1_ADDR {
            self.obp1
        } else if addr == WY_ADDR {
            self.wy
        } else {
            self.wx
        }
    }

    pub(crate) fn write(&mut self, addr: u16, value: u8)
        requires
            0xFF40 <= addr <= 0xFF4B,
            old(self)@.wf(),
        ensures
            final(self)@ == old(self)@.write(addr, value),
            final(self)@.wf(),
    {
        if addr == LCDC_ADDR {
            self.lcdc = value;
        } else if addr == STAT_ADDR {
            self.stat_writable = value & 0xF8;
            assert((value & 0xF8) & 7 == 0) by (bit_vector);
        } else if addr == SCY_ADDR {
            self.scy = value;
        } else if addr == SCX_ADDR {
            self.scx = value;
        } else if addr == LY_ADDR {
        } else if addr == LYC_ADDR {
            self.lyc = value;
        } else if addr == DMA_ADDR {
            self.dma = value;
        } else if addr == BGP_ADDR {
            self.bgp = value;
        } else if addr == OBP0_ADDR {
            self.obp0 = value;
        } else if addr == OBP1_ADDR {
            self.obp1 = value;
        } else if addr == WY_ADDR {
            self.wy = value;
        } else {
            self.wx = value;
        }
    }

    fn current_mode(&self) -> (r: u8)
        ensures
            r == self@.mode(),
    {
        if self.lcdc & 0x80 == 0 {
            return MODE_HBLANK;
        }
        if self.ly >= VBLANK_START_LY {
            return MODE_VBLANK;
        }
        if self.dots < MODE_2_END {
            return MODE_OAM_SCAN;
        }
        let mode3_end = MODE_2_END + MODE_3_BASE;
        if self.dots < mode3_end {
            return MODE_DRAW;
        }
        MODE_HBLANK
    }

    fn lyc_eq_ly(&self) -> (r: bool)
        ensures
            r == (self@.enabled() && self@.ly == self@.lyc),
    {
        self.lcdc & 0x80 != 0 && self.ly == self.lyc
    }

    fn compute_stat_line(&self) -> (r: bool)
        ensures
            r == self@.stat_line(),
    {
        if self.lcdc & 0x80 == 0 {
            return false;
        }
        let mode = self.current_mode();
        let lyc_match = self.lyc_eq_ly();

        let stat = self.stat_writable;
        let sel_mode0 = (stat >> 3) % 2 != 0;
        let sel_mode1 = (stat >> 4) % 2 != 0;
        let sel_mode2 = (stat >> 5) % 2 != 0;
        let sel_lyc = (stat >> 6) % 2 != 0;

        (mode == MODE_HBLANK && sel_mode0) || (mode == MODE_VBLANK && sel_mode1)
            || (mode == MODE_OAM_SCAN && sel_mode2) || (lyc_match && sel_lyc)
    }

    pub(crate) fn is_vram_accessible(&self) -> (r: bool)
        ensures
            r == self@.vram_accessible(),
    {
        self.current_mode() != MODE_DRAW
    }

    pub(crate) fn is_oam_accessible(&self) -> (r: bool)
        ensures
            r == self@.oam_accessible(),
    {
        let mode = self.current_mode();
        mode == MODE_HBLANK || mode == MODE_VBLANK
    }
}

/// Where a tile's data starts (see [`tile_data_addr`]).
fn tile_data_start(unsigned: bool, tile_index: u8) -> (r: usize)
    ensures
        r == tile_data_addr(unsigned, tile_index),
        0x8000 <= r <= 0x97F0,
{
    if unsigned || tile_index >= 128 {
        0x8000 + (tile_index as usize) * 16
    } else {
        0x9000 + (tile_index as usize) * 16
    }
}

/// STAT reads the mode the PPU is in in bits 1-0 and the LY = LYC match in
/// bit 2, over the bits last written.
pub proof fn law_stat_reports_mode(p: PpuView)
    requires
        p.wf(),
    ensures
        p.read(0xFF41) & 0x03 == p.mode(),
        (p.read(0xFF41) & 0x04 != 0) == (p.ly == p.lyc && p.enabled()),
        p.read(0xFF41) & 0xF8 == p.stat_writable,
{
    let w = p.stat_writable;
    let f: u8 = if p.ly == p.lyc && p.enabled() { 0x04 } else { 0x00 };
    let m = p.mode();
    assert(m <= 3);
    assert((w | f | m) & 0x03 == m && ((w | f | m) & 0x04 != 0) == (f == 4) && (w | f | m) & 0xF8 == w)
        by (bit_vector)
        requires
            w & 7 == 0,
            f == 0 || f == 4,
            m <= 3,
    ;
}

proof fn lemma_palette_bits(attr: u8, palette: u8)
    by (bit_vector)
    ensures
        ((attr >> 4u8) % 2 != 0) == (attr & 0x10 != 0),
        ((attr >> 7u8) % 2 != 0) == (attr & 0x80 != 0),
        (palette >> 0u8) % 4 == (palette >> 0u8) & 3,
        (palette >> 2u8) % 4 == (palette >> 2u8) & 3,
        (palette >> 4u8) % 4 == (palette >> 4u8) & 3,
        (palette >> 6u8) % 4 == (palette >> 6u8) & 3,
{
}

/// An object pixel drawn over the background (OAM attribute bit 7 clear)
/// takes its shade from `OBP1` when attribute bit 4 is set and from `OBP0`
/// when it is clear: the object's colour `c` picks bits `2c + 1..2c` of that
/// palette.
pub proof fn law_object_palette(p: PpuView, oam: Seq<u8>, vram: Seq<u8>, x: int, i: int)
    requires
        p.wf(),
        p.ly < 144,
        0 <= x < 160,
        p.first_sprite(oam, vram, x, 40) == Some(i),
        oam[4 * i + 3] & 0x80 == 0,
    ensures
        ({
            let color = p.sprite_color(oam, vram, i, x);
            let palette = if oam[4 * i + 3] & 0x10 != 0 { p.obp1 } else { p.obp0 };
            p.render_sprites(oam, vram).framebuffer[p.ly * 160 + x] == (palette >> (2 * color) as u8) & 3
        }),
{
    let attr = oam[4 * i + 3];
    let color = p.sprite_color(oam, vram, i, x);
    let palette = if attr & 0x10 != 0 { p.obp1 } else { p.obp0 };
    lemma_palette_bits(attr, palette);
    assert(color < 4);
    assert(p.ly * 160 <= p.ly * 160 + x < p.ly * 160 + 160);
    assert(p.render_sprites(oam, vram).framebuffer[p.ly * 160 + x] == p.sprite_shade(oam, vram, x, p.framebuffer[p.ly * 160 + x]));
    assert(palette_shade(palette, color) == (palette >> (2 * color) as u8) & 3) by {
        if color == 0 {} else if color == 1 {} else if color == 2 {} else {}
    }
}

proof fn lemma_pixel_bits(lo: u8, hi: u8, bit: u8)
    by (bit_vector)
    requires
        bit < 8,
    ensures
        (lo >> bit) % 2 == (lo >> bit) & 1,
        (hi >> bit) % 2 == (hi >> bit) & 1,
{
}

/// A background pixel, with the window off (LCDC bit 5 clear): column `x`
/// of line `LY` shows the pixel at `(x + SCX, LY + SCY)`, both modulo 256,
/// of the 32x32 tile map at `$9800` (or `$9C00` with LCDC bit 3). The map
/// byte `t` names the tile at `$8000 + 16 t` with LCDC bit 4 set, else at
/// `$9000 + 16 t` with `t` read as signed. Pixel `k` from the left of a row
/// takes bit `7 - k` of the row's two bytes (the second byte is the high
/// bit of the colour), and the colour `c` shows as bits `2c + 1..2c` of
/// BGP. With LCDC bit 0 clear the line shows BGP's colour 0.
pub proof fn law_background_pixel(p: PpuView, vram: Seq<u8>, x: int)
    requires
        p.wf(),
        p.ly < 144,
        0 <= x < 160,
        vram.len() == 8192,
        p.lcdc & 0x20 == 0,
    ensures
        ({
            let bx = (x + p.scx) % 256;
            let by = (p.ly + p.scy) % 256;
            let map: int = if p.lcdc & 0x08 != 0 { 0x1C00 } else { 0x1800 };
            let t = vram[map + (by / 8) * 32 + bx / 8];
            let tile: int = if p.lcdc & 0x10 != 0 { 16 * t } else if t < 128 { 0x1000 + 16 * t } else { 0x1000 + 16 * (t - 256) };
            let lo = vram[tile + (by % 8) * 2];
            let hi = vram[tile + (by % 8) * 2 + 1];
            let bit = (7 - bx % 8) as u8;
            let color = ((hi >> bit) & 1) * 2 + ((lo >> bit) & 1);
            let shade = if p.lcdc & 0x01 == 0 { p.bgp & 3 } else { (p.bgp >> (2 * color) as u8) & 3 };
            p.render_background(vram).framebuffer[p.ly * 160 + x] == shade
        }),
{
    let bx = (x + p.scx) % 256;
    let by = (p.ly + p.scy) % 256;
    let map: int = if p.lcdc & 0x08 != 0 { 0x1C00 } else { 0x1800 };
    let t = vram[map + (by / 8) * 32 + bx / 8];
    let tile: int = if p.lcdc & 0x10 != 0 { 16 * t } else if t < 128 { 0x1000 + 16 * t } else { 0x1000 + 16 * (t - 256) };
    let lo = vram[tile + (by % 8) * 2];
    let hi = vram[tile + (by % 8) * 2 + 1];
    let bit = (7 - bx % 8) as u8;
    lemma_pixel_bits(lo, hi, bit);
    let color = ((hi >> bit) & 1) * 2 + ((lo >> bit) & 1);
    assert(tile_color(lo, hi, bit) == color);
    let bgp = p.bgp;
    lemma_palette_bits(0, bgp);
    assert(bgp % 4 == bgp & 3) by (bit_vector);
    assert(palette_shade(bgp, tile_color(lo, hi, bit)) == (bgp >> (2 * color) as u8) & 3) by {
        if color == 0 {} else if color == 1 {} else if color == 2 {} else {}
    }
    assert(p.window_left() is None);
    assert(p.ly * 160 <= p.ly * 160 + x < p.ly * 160 + 160);
}

/// An 8x8 object's pixel (LCDC bit 2 clear): for the object drawn first at
/// column `x`, with OAM bytes Y, X, tile `t` and attributes `a`, the row is
/// `LY - (Y - 16)`, mirrored by attribute bit 6; the column inside the tile
/// is `x - (X - 8)`, mirrored by bit 5; the tile's row bytes are at
/// `$8000 + 16 t + 2 row`, the second being the colour's high bit, and
/// pixel `k` from the left takes bit `7 - k`. With attribute bit 7 set the
/// object stays behind a background shade other than 0 (background on);
/// otherwise the colour `c` shows as bits `2c + 1..2c` of OBP1 (bit 4 set) or
/// OBP0.
pub proof fn law_object_pixel_8x8(p: PpuView, oam: Seq<u8>, vram: Seq<u8>, x: int, i: int)
    requires
        p.wf(),
        p.ly < 144,
        0 <= x < 160,
        p.lcdc & 0x04 == 0,
        p.first_sprite(oam, vram, x, 40) == Some(i),
    ensures
        ({
            let a = oam[4 * i + 3];
            let line = p.ly - (oam[4 * i] - 16);
            let row = if a & 0x40 != 0 { 7 - line } else { line };
            let col = x - (oam[4 * i + 1] - 8);
            let k = if a & 0x20 != 0 { 7 - col } else { col };
            let base = 16 * oam[4 * i + 2] + 2 * row;
            let bit = (7 - k) as u8;
            let color = ((vram[base + 1] >> bit) & 1) * 2 + ((vram[base] >> bit) & 1);
            let under = p.framebuffer[p.ly * 160 + x];
            let palette = if a & 0x10 != 0 { p.obp1 } else { p.obp0 };
            p.render_sprites(oam, vram).framebuffer[p.ly * 160 + x] == if a & 0x80 != 0 && under != 0 && p.lcdc & 0x01 != 0 {
                under
            } else {
                (palette >> (2 * color) as u8) & 3
            }
        }),
{
    let a = oam[4 * i + 3];
    let line = p.ly - (oam[4 * i] - 16);
    let row = if a & 0x40 != 0 { 7 - line } else { line };
    let col = x - (oam[4 * i + 1] - 8);
    let k = if a & 0x20 != 0 { 7 - col } else { col };
    let base = 16 * oam[4 * i + 2] + 2 * row;
    let bit = (7 - k) as u8;
    let lo = vram[base];
    let hi = vram[base + 1];
    assert(p.sprite_eligible(oam, vram, i, x)) by {
        lemma_first_sprite_eligible(p, oam, vram, x, 40);
    }
    assert(0 <= col < 8);
    lemma_pixel_bits(lo, hi, bit);
    let color = ((hi >> bit) & 1) * 2 + ((lo >> bit) & 1);
    assert(p.sprite_color(oam, vram, i, x) == color);
    let palette = if a & 0x10 != 0 { p.obp1 } else { p.obp0 };
    lemma_palette_bits(a, palette);
    assert(palette_shade(palette, tile_color(lo, hi, bit)) == (palette >> (2 * color) as u8) & 3) by {
        if color == 0 {} else if color == 1 {} else if color == 2 {} else {}
    }
    assert(p.ly * 160 <= p.ly * 160 + x < p.ly * 160 + 160);
}

/// The entry `first_sprite` picks is eligible.
proof fn lemma_first_sprite_eligible(p: PpuView, oam: Seq<u8>, vram: Seq<u8>, x: int, n: int)
    ensures
        p.first_sprite(oam, vram, x, n) matches Some(i) ==> p.sprite_eligible(oam, vram, i, x),
    decreases n,
{
    if n > 0 {
        lemma_first_sprite_eligible(p, oam, vram, x, n - 1);
    }
}

} // verus!
