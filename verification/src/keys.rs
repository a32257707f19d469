//! Key presses, as the state machine reads them.

use vstd::prelude::*;

verus! {

/// Which key was pressed.
#[derive(Clone, Copy, Debug, PartialEq, Eq)]
pub enum KeyCode {
    Char(char),
    Enter,
    Esc,
    Backspace,
    Left,
    Right,
    Up,
    Down,
    /// Any key that has no meaning here.
    Other,
}

/// A key press with the modifiers held.
#[derive(Clone, Copy, Debug, PartialEq, Eq)]
pub struct KeyPress {
    pub code: KeyCode,
    pub shift: bool,
    pub control: bool,
    pub alt: bool,
}

/// The upper-case form of an ASCII lower-case letter; any other character
/// unchanged.
pub open spec fn ascii_upper(c: char) -> char {
    if 'a' <= c <= 'z' {
        ((c as u32 - 32) as u8) as char
    } else {
        c
    }
}

/// The upper-case form of an ASCII lower-case letter; any other character
/// unchanged.
pub fn to_ascii_uppercase(c: char) -> (upper: char)
    ensures
        upper == ascii_upper(c),
{
    let code: u32 = c as u32;
    if 97 <= code && code <= 122 {
        ((code - 32) as u8) as char
    } else {
        c
    }
}

impl KeyPress {
    /// A key pressed with no modifier held.
    pub fn plain(code: KeyCode) -> (key: KeyPress)
        ensures
            key == (KeyPress { code, shift: false, control: false, alt: false }),
    {
        KeyPress { code, shift: false, control: false, alt: false }
    }

    /// The character that a character key types: upper-cased where Shift is
    /// held.
    pub open spec fn typed(self, c: char) -> char {
        if self.shift {
            ascii_upper(c)
        } else {
            c
        }
    }
}

} // verus!
