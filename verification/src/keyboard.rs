//! The keyboard: what the scancodes that it sends mean, on a German layout.

use vstd::prelude::*;

verus! {

/// The port that the keyboard sends its scancodes to.
pub const KEYBOARD_PORT: u16 = 0x60;

/// What happened to a key.
#[derive(Debug, Clone, Copy, PartialEq, Eq, Structural)]
pub enum Input {
    Pressed(Key),
    Released(Key),
}

/// A key: one that stands for a character, or one that does not.
#[derive(Debug, Clone, Copy, PartialEq, Eq, Structural)]
pub enum Key {
    Char(char),
    Meta(MetaKey),
}

/// The keys that stand for no character.
#[derive(Debug, Clone, Copy, PartialEq, Eq, Structural)]
pub enum MetaKey {
    F0,
    F1,
    F2,
    F3,
    F4,
    F5,
    F6,
    F7,
    F8,
    F9,
    F10,
    F11,
    F12,
    Tab,
    LeftAlt,
    LeftShift,
    LeftCtrl,
    Home,
    Esc,
    Backspace,
    Enter,
    RightShift,
    Print,
    Alt,
    CapsLock,
}

/// The characters of the row of digits, from scancode 0x02 on.
pub open spec fn digit_row() -> Seq<char> {
    seq!['1', '2', '3', '4', '5', '6', '8', '8', '9', '0', '\u{df}', '\u{b4}']
}

/// The characters of the upper row of letters, from scancode 0x10 on.
pub open spec fn upper_row() -> Seq<char> {
    seq!['q', 'w', 'e', 'r', 't', 'z', 'u', 'i', 'o', 'p', '\u{fc}', '+']
}

/// The characters of the middle row of letters, from scancode 0x1e on.
pub open spec fn middle_row() -> Seq<char> {
    seq!['a', 's', 'd', 'f', 'g', 'h', 'j', 'k', 'l', '\u{f6}', '\u{e4}', '^']
}

/// The characters of the lower row of letters, from scancode 0x2c on.
pub open spec fn lower_row() -> Seq<char> {
    seq!['y', 'x', 'c', 'v', 'b', 'n', 'm', ',', '.', '-']
}

/// The character of the key with this scancode, if it has one.
pub open spec fn char_of(scancode: u8) -> Option<char> {
    if 0x02 <= scancode < 0x02 + digit_row().len() {
        Some(digit_row()[scancode - 0x02])
    } else if 0x10 <= scancode < 0x10 + upper_row().len() {
        Some(upper_row()[scancode - 0x10])
    } else if 0x1e <= scancode < 0x1e + middle_row().len() {
        Some(middle_row()[scancode - 0x1e])
    } else if scancode == 0x2b {
        Some('#')
    } else if 0x2c <= scancode < 0x2c + lower_row().len() {
        Some(lower_row()[scancode - 0x2c])
    } else if scancode == 0x39 {
        Some(' ')
    } else {
        None
    }
}

/// The function keys from F1 on, from scancode 0x3b on.
pub open spec fn function_keys() -> Seq<MetaKey> {
    seq![MetaKey::F1, MetaKey::F2, MetaKey::F3, MetaKey::F4, MetaKey::F5]
}

/// The key without a character that has this scancode, if there is one.
pub open spec fn meta_of(scancode: u8) -> Option<MetaKey> {
    if scancode == 0x01 {
        Some(MetaKey::Esc)
    } else if scancode == 0x0e {
        Some(MetaKey::Backspace)
    } else if scancode == 0x0f {
        Some(MetaKey::Tab)
    } else if scancode == 0x1c {
        Some(MetaKey::Enter)
    } else if scancode == 0x1d {
        Some(MetaKey::LeftCtrl)
    } else if scancode == 0x2a {
        Some(MetaKey::LeftShift)
    } else if scancode == 0x36 {
        Some(MetaKey::RightShift)
    } else if scancode == 0x37 {
        Some(MetaKey::Print)
    } else if scancode == 0x38 {
        Some(MetaKey::Alt)
    } else if scancode == 0x3a {
        Some(MetaKey::CapsLock)
    } else if 0x3b <= scancode < 0x3b + function_keys().len() {
        Some(function_keys()[scancode - 0x3b])
    } else {
        None
    }
}

/// What a scancode says: that a key was pressed, for the scancodes of the
/// keys that are known, and nothing for every other.
pub open spec fn input_of(scancode: u8) -> Option<Input> {
    match char_of(scancode) {
        Some(c) => Some(Input::Pressed(Key::Char(c))),
        None => match meta_of(scancode) {
            Some(key) => Some(Input::Pressed(Key::Meta(key))),
            None => None,
        },
    }
}

/// The keyboard.
pub struct Keyboard {
    pub port: u16,
}

impl Keyboard {
    /// The keyboard at its usual port.
    pub fn new() -> (keyboard: Keyboard)
        ensures
            keyboard.port == KEYBOARD_PORT,
    {
        Keyboard { port: KEYBOARD_PORT }
    }

    /// What `scancode` says, the byte read from the keyboard's port.
    pub fn poll(&self, scancode: u8) -> (input: Option<Input>)
        ensures
            input == input_of(scancode),
    {
        match scancode {
            0x01 => Some(Input::Pressed(Key::Meta(MetaKey::Esc))),
            0x02 => Some(Input::Pressed(Key::Char('1'))),
            0x03 => Some(Input::Pressed(Key::Char('2'))),
            0x04 => Some(Input::Pressed(Key::Char('3'))),
            0x05 => Some(Input::Pressed(Key::Char('4'))),
            0x06 => Some(Input::Pressed(Key::Char('5'))),
            0x07 => Some(Input::Pressed(Key::Char('6'))),
            0x08 => Some(Input::Pressed(Key::Char('8'))),
            0x09 => Some(Input::Pressed(Key::Char('8'))),
            0x0a => Some(Input::Pressed(Key::Char('9'))),
            0x0b => Some(Input::Pressed(Key::Char('0'))),
            0x0c => Some(Input::Pressed(Key::Char('\u{df}'))),
            0x0d => Some(Input::Pressed(Key::Char('\u{b4}'))),
            0x0e => Some(Input::Pressed(Key::Meta(MetaKey::Backspace))),
            0x0f => Some(Input::Pressed(Key::Meta(MetaKey::Tab))),
            0x10 => Some(Input::Pressed(Key::Char('q'))),
            0x11 => Some(Input::Pressed(Key::Char('w'))),
            0x12 => Some(Input::Pressed(Key::Char('e'))),
            0x13 => Some(Input::Pressed(Key::Char('r'))),
            0x14 => Some(Input::Pressed(Key::Char('t'))),
            0x15 => Some(Input::Pressed(Key::Char('z'))),
            0x16 => Some(Input::Pressed(Key::Char('u'))),
            0x17 => Some(Input::Pressed(Key::Char('i'))),
            0x18 => Some(Input::Pressed(Key::Char('o'))),
            0x19 => Some(Input::Pressed(Key::Char('p'))),
            0x1a => Some(Input::Pressed(Key::Char('\u{fc}'))),
            0x1b => Some(Input::Pressed(Key::Char('+'))),
            0x1c => Some(Input::Pressed(Key::Meta(MetaKey::Enter))),
            0x1d => Some(Input::Pressed(Key::Meta(MetaKey::LeftCtrl))),
            0x1e => Some(Input::Pressed(Key::Char('a'))),
            0x1f => Some(Input::Pressed(Key::Char('s'))),
            0x20 => Some(Input::Pressed(Key::Char('d'))),
            0x21 => Some(Input::Pressed(Key::Char('f'))),
            0x22 => Some(Input::Pressed(Key::Char('g'))),
            0x23 => Some(Input::Pressed(Key::Char('h'))),
            0x24 => Some(Input::Pressed(Key::Char('j'))),
            0x25 => Some(Input::Pressed(Key::Char('k'))),
            0x26 => Some(Input::Pressed(Key::Char('l'))),
            0x27 => Some(Input::Pressed(Key::Char('\u{f6}'))),
            0x28 => Some(Input::Pressed(Key::Char('\u{e4}'))),
            0x29 => Some(Input::Pressed(Key::Char('^'))),
            0x2a => Some(Input::Pressed(Key::Meta(MetaKey::LeftShift))),
            0x2b => Some(Input::Pressed(Key::Char('#'))),
            0x2c => Some(Input::Pressed(Key::Char('y'))),
            0x2d => Some(Input::Pressed(Key::Char('x'))),
            0x2e => Some(Input::Pressed(Key::Char('c'))),
            0x2f => Some(Input::Pressed(Key::Char('v'))),
            0x30 => Some(Input::Pressed(Key::Char('b'))),
            0x31 => Some(Input::Pressed(Key::Char('n'))),
            0x32 => Some(Input::Pressed(Key::Char('m'))),
            0x33 => Some(Input::Pressed(Key::Char(','))),
            0x34 => Some(Input::Pressed(Key::Char('.'))),
            0x35 => Some(Input::Pressed(Key::Char('-'))),
            0x36 => Some(Input::Pressed(Key::Meta(MetaKey::RightShift))),
            0x37 => Some(Input::Pressed(Key::Meta(MetaKey::Print))),
            0x38 => Some(Input::Pressed(Key::Meta(MetaKey::Alt))),
            0x39 => Some(Input::Pressed(Key::Char(' '))),
            0x3a => Some(Input::Pressed(Key::Meta(MetaKey::CapsLock))),
            0x3b => Some(Input::Pressed(Key::Meta(MetaKey::F1))),
            0x3c => Some(Input::Pressed(Key::Meta(MetaKey::F2))),
            0x3d => Some(Input::Pressed(Key::Meta(MetaKey::F3))),
            0x3e => Some(Input::Pressed(Key::Meta(MetaKey::F4))),
            0x3f => Some(Input::Pressed(Key::Meta(MetaKey::F5))),
            _ => None,
        }
    }

    /// The key that was pressed, if `scancode` says that one was: the byte
    /// read from the keyboard's port. Where it is `None`, the port is read
    /// again.
    pub fn next_key(&self, scancode: u8) -> (key: Option<Key>)
        ensures
            key == match input_of(scancode) {
                Some(Input::Pressed(k)) => Some(k),
                _ => None,
            },
    {
        match self.poll(scancode) {
            Some(Input::Pressed(k)) => Some(k),
            _ => None,
        }
    }
}

} // verus!
