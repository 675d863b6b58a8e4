use vstd::prelude::*;

verus! {

/// Snapshot of the eight Game Boy buttons; `true` means pressed.
#[derive(Clone, Copy, Debug, PartialEq, Eq, Structural)]
pub struct Input {
    // Direction keys
    pub right: bool,
    pub left: bool,
    pub up: bool,
    pub down: bool,
    // Button keys
    pub a: bool,
    pub b: bool,
    pub select: bool,
    pub start: bool,
}

/// One of the eight buttons.
#[derive(Clone, Copy, Debug, PartialEq, Eq, Structural)]
pub enum Button {
    Right,
    Left,
    Up,
    Down,
    A,
    B,
    Select,
    Start,
}

/// A host key, reduced to what the button mapping reads.
#[derive(Clone, Copy, Debug, PartialEq, Eq, Structural)]
pub enum KeyCode {
    Right,
    Left,
    Up,
    Down,
    Backspace,
    Enter,
    Char(char),
    Other,
}

/// A host key going down (`pressed`) or up.
#[derive(Clone, Copy, Debug, PartialEq, Eq, Structural)]
pub struct KeyEvent {
    pub code: KeyCode,
    pub pressed: bool,
}

/// Arrows or WASD for the pad, Z/J for A, X/K for B, Backspace/U for Select,
/// Enter/I for Start, in either case.
pub open spec fn button_of_key(code: KeyCode) -> Option<Button> {
    match code {
        KeyCode::Right => Some(Button::Right),
        KeyCode::Left => Some(Button::Left),
        KeyCode::Up => Some(Button::Up),
        KeyCode::Down => Some(Button::Down),
        KeyCode::Backspace => Some(Button::Select),
        KeyCode::Enter => Some(Button::Start),
        KeyCode::Char(c) => {
            if c == 'd' || c == 'D' {
                Some(Button::Right)
            } else if c == 'a' || c == 'A' {
                Some(Button::Left)
            } else if c == 'w' || c == 'W' {
                Some(Button::Up)
            } else if c == 's' || c == 'S' {
                Some(Button::Down)
            } else if c == 'z' || c == 'Z' || c == 'j' || c == 'J' {
                Some(Button::A)
            } else if c == 'x' || c == 'X' || c == 'k' || c == 'K' {
                Some(Button::B)
            } else if c == 'u' || c == 'U' {
                Some(Button::Select)
            } else if c == 'i' || c == 'I' {
                Some(Button::Start)
            } else {
                None
            }
        },
        KeyCode::Other => None,
    }
}

pub fn button_for_key(code: KeyCode) -> (r: Option<Button>)
    ensures
        r == button_of_key(code),
{
    match code {
        KeyCode::Right => Some(Button::Right),
        KeyCode::Left => Some(Button::Left),
        KeyCode::Up => Some(Button::Up),
        KeyCode::Down => Some(Button::Down),
        KeyCode::Backspace => Some(Button::Select),
        KeyCode::Enter => Some(Button::Start),
        KeyCode::Char(c) => {
            if c == 'd' || c == 'D' {
                Some(Button::Right)
            } else if c == 'a' || c == 'A' {
                Some(Button::Left)
            } else if c == 'w' || c == 'W' {
                Some(Button::Up)
            } else if c == 's' || c == 'S' {
                Some(Button::Down)
            } else if c == 'z' || c == 'Z' || c == 'j' || c == 'J' {
                Some(Button::A)
            } else if c == 'x' || c == 'X' || c == 'k' || c == 'K' {
                Some(Button::B)
            } else if c == 'u' || c == 'U' {
                Some(Button::Select)
            } else if c == 'i' || c == 'I' {
                Some(Button::Start)
            } else {
                None
            }
        },
        KeyCode::Other => None,
    }
}

impl Input {
    pub open spec fn released() -> Input {
        Input {
            right: false,
            left: false,
            up: false,
            down: false,
            a: false,
            b: false,
            select: false,
            start: false,
        }
    }

    /// The snapshot with one button set to `pressed`.
    pub open spec fn with_button(self, button: Button, pressed: bool) -> Input {
        match button {
            Button::Right => Input { right: pressed, ..self },
            Button::Left => Input { left: pressed, ..self },
            Button::Up => Input { up: pressed, ..self },
            Button::Down => Input { down: pressed, ..self },
            Button::A => Input { a: pressed, ..self },
            Button::B => Input { b: pressed, ..self },
            Button::Select => Input { select: pressed, ..self },
            Button::Start => Input { start: pressed, ..self },
        }
    }

    /// Line `k` (0..=3) of the joypad register is pulled low by a pressed button of
    /// a selected group: bit 5 clear selects Start/Select/B/A, bit 4 clear selects
    /// Down/Up/Left/Right.
    pub open spec fn line_low(self, select: u8, k: int) -> bool {
        let buttons = select & 0x20 == 0;
        let directions = select & 0x10 == 0;
        if k == 3 {
            (buttons && self.start) || (directions && self.down)
        } else if k == 2 {
            (buttons && self.select) || (directions && self.up)
        } else if k == 1 {
            (buttons && self.b) || (directions && self.left)
        } else {
            (buttons && self.a) || (directions && self.right)
        }
    }

    /// The joypad register as read: bits 7-6 high, bits 5-4 the selection as written,
    /// bits 3-0 active low.
    pub open spec fn joypad_value(self, select: u8) -> u8 {
        0xC0 | (select & 0x30) | (if self.line_low(select, 3) { 0 } else { 0x08u8 }) | (if self.line_low(
            select,
            2,
        ) {
            0
        } else {
            0x04u8
        }) | (if self.line_low(select, 1) { 0 } else { 0x02u8 }) | (if self.line_low(select, 0) {
            0
        } else {
            0x01u8
        })
    }

    pub fn new() -> (r: Self)
        ensures
            r == Input::released(),
    {
        Input {
            right: false,
            left: false,
            up: false,
            down: false,
            a: false,
            b: false,
            select: false,
            start: false,
        }
    }

    pub fn set_button(&mut self, button: Button, pressed: bool)
        ensures
            *final(self) == old(self).with_button(button, pressed),
    {
        match button {
            Button::Right => self.right = pressed,
            Button::Left => self.left = pressed,
            Button::Up => self.up = pressed,
            Button::Down => self.down = pressed,
            Button::A => self.a = pressed,
            Button::B => self.b = pressed,
            Button::Select => self.select = pressed,
            Button::Start => self.start = pressed,
        }
    }

    /// Applies a host key event; keys without a button leave the snapshot unchanged.
    pub fn update_from_key_event(&mut self, key_event: KeyEvent)
        ensures
            *final(self) == match button_of_key(key_event.code) {
                Some(b) => old(self).with_button(b, key_event.pressed),
                None => *old(self),
            },
    {
        match button_for_key(key_event.code) {
            Some(b) => self.set_button(b, key_event.pressed),
            None => {},
        }
    }

    pub fn get_joypad_state(&self, joypad_register: u8) -> (r: u8)
        ensures
            r == self.joypad_value(joypad_register),
    {
        let select_buttons = (joypad_register & 0x20) == 0;
        let select_directions = (joypad_register & 0x10) == 0;
        let low3 = (select_buttons && self.start) || (select_directions && self.down);
        let low2 = (select_buttons && self.select) || (select_directions && self.up);
        let low1 = (select_buttons && self.b) || (select_directions && self.left);
        let low0 = (select_buttons && self.a) || (select_directions && self.right);
        let bit3: u8 = if low3 { 0 } else { 0x08 };
        let bit2: u8 = if low2 { 0 } else { 0x04 };
        let bit1: u8 = if low1 { 0 } else { 0x02 };
        let bit0: u8 = if low0 { 0 } else { 0x01 };
        0xC0 | (joypad_register & 0x30) | bit3 | bit2 | bit1 | bit0
    }
}

} // verus!
