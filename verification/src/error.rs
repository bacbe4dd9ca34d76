//! What can go wrong with a program of pen commands.

use vstd::prelude::*;

verus! {

/// The ways in which a line or a command is rejected.
#[derive(Clone, Copy, Debug, PartialEq, Eq, Structural)]
pub enum ErrorKind {
    /// The line holds no word at all.
    MissingToken,
    /// The first word is no mnemonic of the vocabulary, or it is one that
    /// does not go with the number of words on the line.
    UnknownMnemonic,
    /// The second word is not a number.
    InvalidInteger,
    /// The palette has no colour at the index that a command asks for.
    ColorIndexOutOfRange,
}

/// The first fault of a program: what is wrong, and with which line. Lines
/// and commands are counted from zero, and the command at an index is the
/// one that the line at that index states.
#[derive(Clone, Copy, Debug, PartialEq, Eq, Structural)]
pub struct ProgramError {
    pub kind: ErrorKind,
    pub line: usize,
}

impl ErrorKind {
    /// The words that describe this kind of fault.
    pub open spec fn description(self) -> Seq<char> {
        match self {
            ErrorKind::MissingToken => "missing command"@,
            ErrorKind::UnknownMnemonic => "invalid command"@,
            ErrorKind::InvalidInteger => "param must be integer"@,
            ErrorKind::ColorIndexOutOfRange => "unknown color"@,
        }
    }

    /// Returns a short description of this kind of fault.
    pub fn message(self) -> (text: &'static str)
        ensures
            text@ == self.description(),
    {
        match self {
            ErrorKind::MissingToken => "missing command",
            ErrorKind::UnknownMnemonic => "invalid command",
            ErrorKind::InvalidInteger => "param must be integer",
            ErrorKind::ColorIndexOutOfRange => "unknown color",
        }
    }
}

} // verus!
