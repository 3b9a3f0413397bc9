//! The joypad peripheral: eight keys in two selectable groups, reflected in
//! the joypad I/O register. A key bit reads as zero while the key is held and
//! its group is selected.

use vstd::prelude::*;

verus! {

/// One of the eight input keys: four face/menu buttons and four directions.
#[derive(Clone, Copy, Debug, PartialEq, Eq, Structural)]
pub enum KeypadKey {
    A,
    B,
    Select,
    Start,
    Right,
    Left,
    Up,
    Down,
}

/// Whether a key belongs to the button group (as opposed to the directions).
pub open spec fn is_button(key: KeypadKey) -> bool {
    match key {
        KeypadKey::A | KeypadKey::B | KeypadKey::Select | KeypadKey::Start => true,
        _ => false,
    }
}

/// The bit of a key inside its group nibble.
pub open spec fn key_bit(key: KeypadKey) -> u8 {
    match key {
        KeypadKey::Right | KeypadKey::A => 0x1,
        KeypadKey::Left | KeypadKey::B => 0x2,
        KeypadKey::Up | KeypadKey::Select => 0x4,
        KeypadKey::Down | KeypadKey::Start => 0x8,
    }
}

/// The joypad state. Held keys are recorded as set bits in `directions` and
/// `buttons`; `select` holds the group-select bits (4 and 5) last written to
/// the joypad register, where a cleared bit selects the group.
#[derive(Clone, Copy, Debug, PartialEq, Eq, Structural)]
pub struct Keypad {
    /// Held direction keys (bit set while held): Right, Left, Up, Down.
    pub directions: u8,
    /// Held button keys (bit set while held): A, B, Select, Start.
    pub buttons: u8,
    /// Group-select bits as last written (only bits 4 and 5 kept).
    pub select: u8,
    /// Pending interrupt-request bits raised by key presses.
    pub interrupt: u8,
}

/// The value the joypad register reads as: the select bits, ones in the upper
/// two bits, and a low nibble where a bit is zero exactly when a held key's
/// group is selected.
pub open spec fn joypad_value(k: Keypad) -> u8 {
    let held = (if k.select & 0x10 == 0 {
        k.directions
    } else {
        0
    }) | (if k.select & 0x20 == 0 {
        k.buttons
    } else {
        0
    });
    (0xC0 | k.select | 0x0F) & !(held & 0x0F)
}

impl Keypad {
    /// A keypad with no key held and both groups deselected.
    pub fn new() -> (r: Keypad)
        ensures
            r == (Keypad { directions: 0, buttons: 0, select: 0x30, interrupt: 0 }),
    {
        Keypad { directions: 0, buttons: 0, select: 0x30, interrupt: 0 }
    }

    /// Reads the joypad register.
    pub fn rb(&self) -> (r: u8)
        ensures
            r == joypad_value(*self),
    {
        let held = (if self.select & 0x10 == 0 {
            self.directions
        } else {
            0
        }) | (if self.select & 0x20 == 0 {
            self.buttons
        } else {
            0
        });
        (0xC0 | self.select | 0x0F) & !(held & 0x0F)
    }

    /// Writes the joypad register; only the two group-select bits are kept.
    pub fn wb(&mut self, v: u8)
        ensures
            *final(self) == (Keypad { select: v & 0x30, ..*old(self) }),
    {
        self.select = v & 0x30;
    }

    /// Records a key press and raises the joypad interrupt request.
    pub fn keydown(&mut self, key: KeypadKey)
        ensures
            is_button(key) ==> *final(self) == (Keypad {
                buttons: old(self).buttons | key_bit(key),
                interrupt: 0x10,
                ..*old(self)
            }),
            !is_button(key) ==> *final(self) == (Keypad {
                directions: old(self).directions | key_bit(key),
                interrupt: 0x10,
                ..*old(self)
            }),
    {
        let bit = key_bit_exec(key);
        if is_button_exec(key) {
            self.buttons = self.buttons | bit;
        } else {
            self.directions = self.directions | bit;
        }
        self.interrupt = 0x10;
    }

    /// Records a key release.
    pub fn keyup(&mut self, key: KeypadKey)
        ensures
            is_button(key) ==> *final(self) == (Keypad {
                buttons: old(self).buttons & !key_bit(key),
                ..*old(self)
            }),
            !is_button(key) ==> *final(self) == (Keypad {
                directions: old(self).directions & !key_bit(key),
                ..*old(self)
            }),
    {
        let bit = key_bit_exec(key);
        if is_button_exec(key) {
            self.buttons = self.buttons & !bit;
        } else {
            self.directions = self.directions & !bit;
        }
    }
}

/// Whether a key belongs to the button group.
fn is_button_exec(key: KeypadKey) -> (r: bool)
    ensures
        r == is_button(key),
{
    match key {
        KeypadKey::A | KeypadKey::B | KeypadKey::Select | KeypadKey::Start => true,
        _ => false,
    }
}

/// The bit of a key inside its group nibble.
fn key_bit_exec(key: KeypadKey) -> (r: u8)
    ensures
        r == key_bit(key),
{
    match key {
        KeypadKey::Right | KeypadKey::A => 0x1,
        KeypadKey::Left | KeypadKey::B => 0x2,
        KeypadKey::Up | KeypadKey::Select => 0x4,
        KeypadKey::Down | KeypadKey::Start => 0x8,
    }
}

} // verus!
