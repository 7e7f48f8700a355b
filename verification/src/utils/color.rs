//! Terminal colours.

use vstd::prelude::*;

verus! {

/// The colours that mark the severity of a status line.
#[derive(Clone, Copy, PartialEq, Eq, Structural, Debug)]
pub enum Color {
    Yellow,
    Green,
    Red,
    Blue,
    /// Back to the terminal's own colour.
    Reset,
}

impl Color {
    /// The ANSI escape sequence that switches the terminal to this colour.
    pub open spec fn spec_code(self) -> Seq<char> {
        match self {
            Color::Yellow => "\x1b[33m"@,
            Color::Green => "\x1b[32m"@,
            Color::Red => "\x1b[31m"@,
            Color::Blue => "\x1b[34m"@,
            Color::Reset => "\x1b[0m"@,
        }
    }

    /// The ANSI escape sequence that switches the terminal to this colour.
    pub fn code(&self) -> (code: &'static str)
        ensures
            code@ == self.spec_code(),
    {
        match self {
            Color::Yellow => "\x1b[33m",
            Color::Green => "\x1b[32m",
            Color::Red => "\x1b[31m",
            Color::Blue => "\x1b[34m",
            Color::Reset => "\x1b[0m",
        }
    }

    /// The colour as it is written to a terminal.
    pub fn to_string(&self) -> (text: String)
        ensures
            text@ == self.spec_code(),
    {
        self.code().to_owned()
    }
}

} // verus!
