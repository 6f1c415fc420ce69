//! Key presses as plain values: what the terminal reports about one key
//! occurrence, as far as the translator and the multiplexer read it.

use vstd::prelude::*;

verus! {

/// The key of a key occurrence.
#[derive(Debug, Clone, Copy, PartialEq, Eq, Structural)]
pub enum KeyCode {
    Backspace,
    Enter,
    Left,
    Right,
    Up,
    Down,
    Home,
    End,
    PageUp,
    PageDown,
    Tab,
    /// Shift together with `Tab`.
    BackTab,
    Delete,
    Insert,
    /// A function key, by its number.
    F(u8),
    /// A character key.
    Char(char),
    Null,
    Esc,
    /// Any key that has no variant of its own.
    Other,
}

/// The modifier keys held down during a key occurrence.
#[derive(Debug, Clone, Copy, PartialEq, Eq, Structural)]
pub struct KeyModifiers {
    pub shift: bool,
    pub control: bool,
    pub alt: bool,
}

impl KeyModifiers {
    /// No modifier held.
    pub fn none() -> (r: Self)
        ensures
            r == (KeyModifiers { shift: false, control: false, alt: false }),
    {
        Self { shift: false, control: false, alt: false }
    }

    /// Only the control key held.
    pub fn control() -> (r: Self)
        ensures
            r == (KeyModifiers { shift: false, control: true, alt: false }),
    {
        Self { shift: false, control: true, alt: false }
    }
}

/// Whether a key went down, is held, or came up.
#[derive(Debug, Clone, Copy, PartialEq, Eq, Structural)]
pub enum KeyEventKind {
    Press,
    Repeat,
    Release,
}

/// One key occurrence.
#[derive(Debug, Clone, Copy, PartialEq, Eq, Structural)]
pub struct KeyEvent {
    pub code: KeyCode,
    pub modifiers: KeyModifiers,
    pub kind: KeyEventKind,
}

impl KeyEvent {
    /// The press of `code` with `modifiers` held.
    pub fn new(code: KeyCode, modifiers: KeyModifiers) -> (r: Self)
        ensures
            r == (KeyEvent { code, modifiers, kind: KeyEventKind::Press }),
    {
        Self { code, modifiers, kind: KeyEventKind::Press }
    }
}

/// True for the control characters: the code points up to U+001F and those
/// from U+007F to U+009F. Every other character counts as printable.
pub open spec fn spec_is_control(c: char) -> bool {
    c as u32 <= 0x1f || 0x7f <= c as u32 <= 0x9f
}

/// Tells whether `c` is a control character.
#[verifier::when_used_as_spec(spec_is_control)]
pub fn is_control(c: char) -> (r: bool)
    ensures
        r == spec_is_control(c),
{
    c <= '\u{1f}' || ('\u{7f}' <= c && c <= '\u{9f}')
}

} // verus!
