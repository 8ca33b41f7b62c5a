//! The ways in which decoding can fail.

use vstd::prelude::*;

verus! {

/// Why an input could not be decoded.
#[derive(Debug, Clone, Copy, PartialEq, Eq)]
pub enum HexError {
    /// The input has an odd number of characters, so its last digit has no
    /// partner.
    OddLength,
    /// The input has an even number of characters, but not twice as many as
    /// the output has bytes.
    LengthMismatch,
    /// The input holds a byte that is not a hex digit. `index` is the
    /// position of the first such byte and `byte` is its value.
    InvalidCharacter { index: usize, byte: u8 },
}

impl HexError {
    /// The text of [`HexError::message`] for each kind of error.
    pub open spec fn message_text(self) -> Seq<char> {
        match self {
            HexError::OddLength => "Length needs to be even"@,
            HexError::LengthMismatch => "Invalid length (`N * 2 == s.len()` not satisfied)."@,
            HexError::InvalidCharacter { .. } => "Invalid character"@,
        }
    }

    /// A short description that names the rule the input broke.
    pub fn message(&self) -> (m: &'static str)
        ensures
            m@ == self.message_text(),
    {
        match self {
            HexError::OddLength => "Length needs to be even",
            HexError::LengthMismatch => "Invalid length (`N * 2 == s.len()` not satisfied).",
            HexError::InvalidCharacter { .. } => "Invalid character",
        }
    }
}

} // verus!
