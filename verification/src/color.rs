//! Text for the terminal, and the colour it is shown in.
//!
//! Printing is left to whoever owns the terminal: the library only says what
//! is to be shown, in which colour, and whether colour is wanted at all.

use vstd::prelude::*;

verus! {

/// The colours a terminal can be asked for by name.
#[derive(Clone, Copy, Debug, PartialEq, Eq, Structural)]
pub enum Color {
    Black,
    Blue,
    Green,
    Red,
    Cyan,
    Magenta,
    Yellow,
    White,
}

/// A piece of text to print on the terminal.
pub struct TerminalText {
    /// Whether to print in colour; if not, the text is printed plain.
    pub colored: bool,
    pub text: String,
    pub color: Color,
}

impl TerminalText {
    /// What is to be shown: whether in colour, the text, and the colour.
    pub open spec fn shown(self) -> (bool, Seq<char>, Color) {
        (self.colored, self.text@, self.color)
    }
}

} // verus!
