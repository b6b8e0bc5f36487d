//! The joypad behind `P1` (`$FF00`): eight keys in two groups of four, and a
//! two-bit selector choosing which group the low nibble reports. A pressed
//! key reads as 0.
use vstd::prelude::*;

verus! {

/// One of the eight keys.
#[derive(Debug, Clone, Copy, PartialEq, Eq)]
pub enum Key {
    Right,
    Left,
    Up,
    Down,
    A,
    B,
    Start,
    Select,
}

/// Whether `key` is on the directional pad (selected by bit 4 clear) rather
/// than one of the buttons (bit 5 clear).
pub open spec fn is_direction(key: Key) -> bool {
    matches!(key, Key::Right | Key::Left | Key::Up | Key::Down)
}

/// The bit of `key` inside its group's nibble.
pub open spec fn key_mask(key: Key) -> u8 {
    match key {
        Key::Right | Key::A => 0x01,
        Key::Left | Key::B => 0x02,
        Key::Up | Key::Select => 0x04,
        Key::Down | Key::Start => 0x08,
    }
}

/// The joypad state: the selector bits written to `P1`, the two groups with
/// a 1 for every released key, and whether a press asked for an interrupt.
pub struct JoypadView {
    pub select: u8,
    pub dpad: u8,
    pub buttons: u8,
    pub interrupt: bool,
}

impl JoypadView {
    /// The selector only ever holds bits 5-4.
    pub open spec fn wf(self) -> bool {
        self.select & 0xCF == 0
    }

    /// What `P1` reads: bits 7-6 set, the selector in bits 5-4, and in the
    /// low nibble the AND of the selected groups (all ones if none).
    pub open spec fn read(self) -> u8 {
        let low0: u8 = 0x0F;
        let low1: u8 = if self.select & 0x20 == 0 { low0 & self.buttons } else { low0 };
        let low2: u8 = if self.select & 0x10 == 0 { low1 & self.dpad } else { low1 };
        0xC0 | self.select | (low2 & 0x0F)
    }

    /// The state after `key` goes down: its bit clears and an interrupt is
    /// requested.
    pub open spec fn key_down(self, key: Key) -> JoypadView {
        if is_direction(key) {
            JoypadView { dpad: self.dpad & !key_mask(key), interrupt: true, ..self }
        } else {
            JoypadView { buttons: self.buttons & !key_mask(key), interrupt: true, ..self }
        }
    }

    /// The state after `key` goes up: its bit sets again.
    pub open spec fn key_up(self, key: Key) -> JoypadView {
        if is_direction(key) {
            JoypadView { dpad: self.dpad | key_mask(key), ..self }
        } else {
            JoypadView { buttons: self.buttons | key_mask(key), ..self }
        }
    }

    /// Whether `key` is held down.
    pub open spec fn pressed(self, key: Key) -> bool {
        if is_direction(key) {
            self.dpad & key_mask(key) == 0
        } else {
            self.buttons & key_mask(key) == 0
        }
    }
}

/// The joypad.
#[derive(Debug, Clone, Copy, PartialEq, Eq)]
pub struct Joypad {
    select: u8,
    dpad: u8,
    buttons: u8,
    interrupt: bool,
}

impl View for Joypad {
    type V = JoypadView;

    closed spec fn view(&self) -> JoypadView {
        JoypadView { select: self.select, dpad: self.dpad, buttons: self.buttons, interrupt: self.interrupt }
    }
}

impl Joypad {
    /// Hands out the pending interrupt request and clears it.
    pub(crate) fn take_interrupt(&mut self) -> (r: bool)
        ensures
            r == old(self)@.interrupt,
            final(self)@ == (JoypadView { interrupt: false, ..old(self)@ }),
    {
        let r = self.interrupt;
        self.interrupt = false;
        r
    }

    /// The state at power-on: nothing selected, every key released.
    pub fn new() -> (j: Self)
        ensures
            j@ == (JoypadView { select: 0x00, dpad: 0x0F, buttons: 0x0F, interrupt: false }),
    {
        Self::default()
    }

    /// Reads `P1`.
    pub fn read(&self) -> (r: u8)
        ensures
            r == self@.read(),
    {
        let mut value: u8 = 0xC0;
        value = value | self.select;
        let mut low: u8 = 0x0F;
        if self.select & 0x20 == 0 {
            low = low & self.buttons;
        }
        if self.select & 0x10 == 0 {
            low = low & self.dpad;
        }
        value = value | (low & 0x0F);
        value
    }

    /// Writes `P1`: only the selector bits 5-4 are writable.
    pub fn write(&mut self, value: u8)
        ensures
            final(self)@ == (JoypadView { select: value & 0x30, ..old(self)@ }),
            final(self)@.wf(),
    {
        self.select = value & 0x30;
        proof {
            lemma_selector_bits(value);
        }
    }

    /// A key goes down.
    pub fn key_down(&mut self, key: Key)
        ensures
            final(self)@ == old(self)@.key_down(key),
    {
        match key {
            Key::Right => self.dpad = self.dpad & !0x01u8,
            Key::Left => self.dpad = self.dpad & !0x02u8,
            Key::Up => self.dpad = self.dpad & !0x04u8,
            Key::Down => self.dpad = self.dpad & !0x08u8,
            Key::A => self.buttons = self.buttons & !0x01u8,
            Key::B => self.buttons = self.buttons & !0x02u8,
            Key::Select => self.buttons = self.buttons & !0x04u8,
            Key::Start => self.buttons = self.buttons & !0x08u8,
        }
        self.interrupt = true;
    }

    /// A key goes up.
    pub fn key_up(&mut self, key: Key)
        ensures
            final(self)@ == old(self)@.key_up(key),
    {
        match key {
            Key::Right => self.dpad = self.dpad | 0x01,
            Key::Left => self.dpad = self.dpad | 0x02,
            Key::Up => self.dpad = self.dpad | 0x04,
            Key::Down => self.dpad = self.dpad | 0x08,
            Key::A => self.buttons = self.buttons | 0x01,
            Key::B => self.buttons = self.buttons | 0x02,
            Key::Select => self.buttons = self.buttons | 0x04,
            Key::Start => self.buttons = self.buttons | 0x08,
        }
    }
}

impl Default for Joypad {
    fn default() -> (j: Self)
        ensures
            j@ == (JoypadView { select: 0x00, dpad: 0x0F, buttons: 0x0F, interrupt: false }),
    {
        Self { select: 0x00, dpad: 0x0F, buttons: 0x0F, interrupt: false }
    }
}

/// Pressing a key makes it read as held, and only that key changes: every
/// other key keeps its state.
pub proof fn law_key_down_presses_only_that_key(j: JoypadView, key: Key, other: Key)
    ensures
        j.key_down(key).pressed(key),
        other != key ==> j.key_down(key).pressed(other) == j.pressed(other),
        j.key_down(key).interrupt,
{
    lemma_group_bits(j.dpad);
    lemma_group_bits(j.buttons);
}

/// Releasing a key makes it read as released, and only that key changes.
pub proof fn law_key_up_releases_only_that_key(j: JoypadView, key: Key, other: Key)
    ensures
        !j.key_up(key).pressed(key),
        other != key ==> j.key_up(key).pressed(other) == j.pressed(other),
        j.key_up(key).interrupt == j.interrupt,
{
    lemma_group_bits(j.dpad);
    lemma_group_bits(j.buttons);
}

/// A key held down shows as a 0 in the low nibble of `P1` whenever its group
/// is selected, and a selector with neither group selected reads `$F`.
pub proof fn law_pressed_key_reads_low(j: JoypadView, key: Key)
    requires
        j.wf(),
        j.pressed(key),
        is_direction(key) ==> j.select & 0x10 == 0,
        !is_direction(key) ==> j.select & 0x20 == 0,
    ensures
        j.read() & key_mask(key) == 0,
{
    lemma_read_bits(j.select, j.dpad, j.buttons);
}

/// Releasing a key that was pressed from the released state gives the key
/// bits back as they were: `key_up` undoes `key_down` (the interrupt
/// request stays).
pub proof fn law_key_up_undoes_key_down(j: JoypadView, key: Key)
    requires
        !j.pressed(key),
    ensures
        j.key_down(key).key_up(key) == (JoypadView { interrupt: true, ..j }),
{
    lemma_restore_bit(j.dpad, key_mask(key));
    lemma_restore_bit(j.buttons, key_mask(key));
}

proof fn lemma_restore_bit(g: u8, m: u8)
    by (bit_vector)
    requires
        m == 1 || m == 2 || m == 4 || m == 8,
    ensures
        g & m != 0 ==> (g & !m) | m == g,
{
}

proof fn lemma_selector_bits(v: u8)
    by (bit_vector)
    ensures
        (v & 0x30) & 0xCF == 0,
{
}

proof fn lemma_group_bits(g: u8)
    by (bit_vector)
    ensures
        (g & !0x01u8) & 0x01 == 0, (g & !0x02u8) & 0x02 == 0,
        (g & !0x04u8) & 0x04 == 0, (g & !0x08u8) & 0x08 == 0,
        (g | 0x01) & 0x01 != 0, (g | 0x02) & 0x02 != 0,
        (g | 0x04) & 0x04 != 0, (g | 0x08) & 0x08 != 0,
        (g & !0x01u8) & 0x02 == g & 0x02, (g & !0x01u8) & 0x04 == g & 0x04, (g & !0x01u8) & 0x08 == g & 0x08,
        (g & !0x02u8) & 0x01 == g & 0x01, (g & !0x02u8) & 0x04 == g & 0x04, (g & !0x02u8) & 0x08 == g & 0x08,
        (g & !0x04u8) & 0x01 == g & 0x01, (g & !0x04u8) & 0x02 == g & 0x02, (g & !0x04u8) & 0x08 == g & 0x08,
        (g & !0x08u8) & 0x01 == g & 0x01, (g & !0x08u8) & 0x02 == g & 0x02, (g & !0x08u8) & 0x04 == g & 0x04,
        (g | 0x01) & 0x02 == g & 0x02, (g | 0x01) & 0x04 == g & 0x04, (g | 0x01) & 0x08 == g & 0x08,
        (g | 0x02) & 0x01 == g & 0x01, (g | 0x02) & 0x04 == g & 0x04, (g | 0x02) & 0x08 == g & 0x08,
        (g | 0x04) & 0x01 == g & 0x01, (g | 0x04) & 0x02 == g & 0x02, (g | 0x04) & 0x08 == g & 0x08,
        (g | 0x08) & 0x01 == g & 0x01, (g | 0x08) & 0x02 == g & 0x02, (g | 0x08) & 0x04 == g & 0x04,
{
}

proof fn lemma_read_bits(s: u8, d: u8, b: u8)
    by (bit_vector)
    requires
        s & 0xCF == 0,
    ensures
        forall|m: u8| (m == 1 || m == 2 || m == 4 || m == 8) && s & 0x10 == 0 && d & m == 0 && s & 0x20 == 0
            ==> (0xC0u8 | s | ((((0x0Fu8 & b) & d)) & 0x0F)) & m == 0,
        forall|m: u8| (m == 1 || m == 2 || m == 4 || m == 8) && s & 0x10 == 0 && d & m == 0 && s & 0x20 != 0
            ==> (0xC0u8 | s | (((0x0Fu8) & d) & 0x0F)) & m == 0,
        forall|m: u8| (m == 1 || m == 2 || m == 4 || m == 8) && s & 0x20 == 0 && b & m == 0 && s & 0x10 == 0
            ==> (0xC0u8 | s | ((((0x0Fu8 & b) & d)) & 0x0F)) & m == 0,
        forall|m: u8| (m == 1 || m == 2 || m == 4 || m == 8) && s & 0x20 == 0 && b & m == 0 && s & 0x10 != 0
            ==> (0xC0u8 | s | ((0x0Fu8 & b) & 0x0F)) & m == 0,
{
}

proof fn lemma_p1_nibble(sel: u8, g: u8, m: u8)
    by (bit_vector)
    requires
        m == 1 || m == 2 || m == 4 || m == 8,
        sel & 0x0F == 0,
    ensures
        0xC0u8 | sel | ((0x0Fu8 & (g & !m)) & 0x0F) == (0xC0u8 | sel | ((0x0Fu8 & g) & 0x0F)) & !m,
        0xC0u8 | sel | ((0x0Fu8 & (g | m)) & 0x0F) == (0xC0u8 | sel | ((0x0Fu8 & g) & 0x0F)) | m,
{
}

proof fn lemma_selector_constants()
    by (bit_vector)
    ensures
        0x20u8 & 0x20 != 0,
        0x20u8 & 0x10 == 0,
        0x10u8 & 0x20 == 0,
        0x10u8 & 0x10 != 0,
        0x20u8 & 0x0F == 0,
        0x10u8 & 0x0F == 0,
        0x0Fu8 & 0x0F == 0x0F,
{
}

/// Which bit of `P1` each key drives. With only the directions selected
/// (`P1` written `$20`), Right, Left, Up and Down clear bits 0, 1, 2 and 3
/// when they go down and set them again when they go up, and the buttons
/// change nothing; with only the buttons selected (`$10`), A, B, Select and
/// Start drive bits 0, 1, 2 and 3 the same way. E.g. from power-on with
/// the directions selected, Up down reads `$EB`.
pub proof fn law_p1_bit_of_each_key(j: JoypadView)
    ensures
        j.select == 0x20 ==> {
            &&& j.key_down(Key::Right).read() == j.read() & 0xFE
            &&& j.key_down(Key::Left).read() == j.read() & 0xFD
            &&& j.key_down(Key::Up).read() == j.read() & 0xFB
            &&& j.key_down(Key::Down).read() == j.read() & 0xF7
            &&& j.key_up(Key::Right).read() == j.read() | 0x01
            &&& j.key_up(Key::Left).read() == j.read() | 0x02
            &&& j.key_up(Key::Up).read() == j.read() | 0x04
            &&& j.key_up(Key::Down).read() == j.read() | 0x08
            &&& j.key_down(Key::A).read() == j.read()
            &&& j.key_down(Key::B).read() == j.read()
            &&& j.key_down(Key::Select).read() == j.read()
            &&& j.key_down(Key::Start).read() == j.read()
        },
        j.select == 0x10 ==> {
            &&& j.key_down(Key::A).read() == j.read() & 0xFE
            &&& j.key_down(Key::B).read() == j.read() & 0xFD
            &&& j.key_down(Key::Select).read() == j.read() & 0xFB
            &&& j.key_down(Key::Start).read() == j.read() & 0xF7
            &&& j.key_up(Key::A).read() == j.read() | 0x01
            &&& j.key_up(Key::B).read() == j.read() | 0x02
            &&& j.key_up(Key::Select).read() == j.read() | 0x04
            &&& j.key_up(Key::Start).read() == j.read() | 0x08
            &&& j.key_down(Key::Right).read() == j.read()
            &&& j.key_down(Key::Left).read() == j.read()
            &&& j.key_down(Key::Up).read() == j.read()
            &&& j.key_down(Key::Down).read() == j.read()
        },
{
    lemma_selector_constants();
    assert(!0x01u8 == 0xFEu8 && !0x02u8 == 0xFDu8 && !0x04u8 == 0xFBu8 && !0x08u8 == 0xF7u8) by (bit_vector);
    if j.select == 0x20 {
        let sel: u8 = 0x20;
        lemma_p1_nibble(sel, j.dpad, 1);
        lemma_p1_nibble(sel, j.dpad, 2);
        lemma_p1_nibble(sel, j.dpad, 4);
        lemma_p1_nibble(sel, j.dpad, 8);
    }
    if j.select == 0x10 {
        let sel: u8 = 0x10;
        lemma_p1_nibble(sel, j.buttons, 1);
        lemma_p1_nibble(sel, j.buttons, 2);
        lemma_p1_nibble(sel, j.buttons, 4);
        lemma_p1_nibble(sel, j.buttons, 8);
    }
}

} // verus!
