//! Why a banner code is refused.

use vstd::prelude::*;

verus! {

/// The reason a code, or a part of it, could not be decoded.
#[derive(Debug, Clone, PartialEq, Eq)]
pub enum ParseError {
    /// The code has no characters.
    Empty,
    /// The code holds a character outside ASCII.
    InvalidBannerString,
    /// A slice of the code does not write a byte in hexadecimal.
    MalformedDigit,
    /// The slice, kept here, writes a number that is no colour's ordinal.
    InvalidColor(String),
    /// The slice, kept here, writes a number that is no layer pattern's ordinal.
    InvalidPattern(String),
}

/// A [`ParseError`] with its text as a sequence of characters.
pub ghost enum ParseFailure {
    Empty,
    InvalidBannerString,
    MalformedDigit,
    InvalidColor(Seq<char>),
    InvalidPattern(Seq<char>),
}

impl View for ParseError {
    type V = ParseFailure;

    open spec fn view(&self) -> ParseFailure {
        match self {
            ParseError::Empty => ParseFailure::Empty,
            ParseError::InvalidBannerString => ParseFailure::InvalidBannerString,
            ParseError::MalformedDigit => ParseFailure::MalformedDigit,
            ParseError::InvalidColor(text) => ParseFailure::InvalidColor(text@),
            ParseError::InvalidPattern(text) => ParseFailure::InvalidPattern(text@),
        }
    }
}

} // verus!
