use vstd::prelude::*;

verus! {

/// A normalized keyboard input: a plain character, a control combination,
/// or a special key. Equality is structural; the raw terminal event is
/// translated into this form at the input boundary, outside the library.
#[derive(Clone, Copy, Debug, PartialEq, Eq, Structural)]
pub enum Key {
    /// A plain printable character.
    Char(char),
    /// A character pressed together with Control.
    Ctrl(char),
    /// A character pressed together with Alt.
    Alt(char),
    /// The Enter key.
    Enter,
    /// The Escape key.
    Esc,
    /// The Tab key.
    Tab,
    /// The Backspace key.
    Backspace,
    /// The up arrow.
    Up,
    /// The down arrow.
    Down,
    /// The left arrow.
    Left,
    /// The right arrow.
    Right,
    /// A function key, by number.
    F(u8),
    /// Any key the terminal reports that the application does not use.
    Unknown,
}

} // verus!
