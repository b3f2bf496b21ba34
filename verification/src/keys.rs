//! Key presses, and the key that a single character stands for.

use vstd::prelude::*;

verus! {

/// The escape character, which either is the Escape key or starts a sequence.
pub const ESC: char = '\x1b';

/// What was pressed, apart from the modifiers.
#[derive(Clone, Copy, Debug, PartialEq, Eq, Structural)]
pub enum Key {
    Char(char),
    Up,
    Down,
    Left,
    Right,
    Home,
    End,
    PageUp,
    PageDown,
    Delete,
    Esc,
    Unknown,
}

/// A key together with the modifiers that were held with it.
#[derive(Clone, Copy, Debug, PartialEq, Eq, Structural)]
pub struct KeyPress {
    pub key: Key,
    pub ctrl: bool,
    pub alt: bool,
}

impl KeyPress {
    /// The key with no modifier.
    pub open spec fn plain_spec(key: Key) -> KeyPress {
        KeyPress { key, ctrl: false, alt: false }
    }

    /// The key with the control modifier.
    pub open spec fn ctrl_spec(key: Key) -> KeyPress {
        KeyPress { key, ctrl: true, alt: false }
    }

    /// The key with the alt modifier.
    pub open spec fn alt_spec(key: Key) -> KeyPress {
        KeyPress { key, ctrl: false, alt: true }
    }

    pub fn plain(key: Key) -> (k: KeyPress)
        ensures
            k == Self::plain_spec(key),
    {
        KeyPress { key, ctrl: false, alt: false }
    }

    pub fn ctrl(key: Key) -> (k: KeyPress)
        ensures
            k == Self::ctrl_spec(key),
    {
        KeyPress { key, ctrl: true, alt: false }
    }

    pub fn alt(key: Key) -> (k: KeyPress)
        ensures
            k == Self::alt_spec(key),
    {
        KeyPress { key, ctrl: false, alt: true }
    }
}

/// Whether a terminal sends `c` for a key held with control: the codes below
/// the space, the escape character excepted, and the delete code.
pub open spec fn is_control_code(c: char) -> bool {
    (c as u32 <= 0x1f && c != ESC) || c as u32 == 0x7f
}

/// The character that, held with control, produces the control code `c`:
/// `@` for 0, `A` to `Z` for 1 to 26, and `?` for the delete code.
pub open spec fn control_letter(c: char) -> char
    recommends
        is_control_code(c),
{
    if c as u32 == 0x7f {
        '?'
    } else {
        ((c as u8 + 0x40) as u8) as char
    }
}

/// The key press that one character stands for by itself.
pub open spec fn char_to_key_press_spec(c: char) -> KeyPress {
    if c == ESC {
        KeyPress::plain_spec(Key::Esc)
    } else if is_control_code(c) {
        KeyPress::ctrl_spec(Key::Char(control_letter(c)))
    } else {
        KeyPress::plain_spec(Key::Char(c))
    }
}

/// Maps one character to its key press: a control code to its letter with
/// control, the escape character to the Escape key, anything else to itself.
pub fn char_to_key_press(c: char) -> (k: KeyPress)
    ensures
        k == char_to_key_press_spec(c),
{
    let code: u32 = c as u32;
    if code == 0x1b {
        KeyPress::plain(Key::Esc)
    } else if code == 0x7f {
        KeyPress::ctrl(Key::Char('?'))
    } else if code <= 0x1f {
        let low: u8 = code as u8;
        KeyPress::ctrl(Key::Char((low + 0x40) as char))
    } else {
        KeyPress::plain(Key::Char(c))
    }
}

} // verus!
