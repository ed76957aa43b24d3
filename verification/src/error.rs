//! The decode failure taxonomy: a required field was absent, or a present
//! field had a value of a shape the decoder does not accept for that key.

use vstd::prelude::*;

verus! {

/// Why a decode call failed.
#[derive(Debug, Clone, PartialEq)]
pub enum SculkParseError {
    /// A required field was absent from the compound; carries the key.
    MissingField(String),
    /// A field was present but its value matched no accepted shape; carries
    /// the key.
    InvalidField(String),
}

/// The abstraction of a decode failure.
pub enum ParseErrorV {
    MissingField(Seq<char>),
    InvalidField(Seq<char>),
}

/// The abstraction of a [`SculkParseError`].
pub open spec fn error_view(e: SculkParseError) -> ParseErrorV {
    match e {
        SculkParseError::MissingField(k) => ParseErrorV::MissingField(k@),
        SculkParseError::InvalidField(k) => ParseErrorV::InvalidField(k@),
    }
}

impl SculkParseError {
    /// The key of the field this failure is about.
    pub fn key(&self) -> (r: &String)
        ensures
            error_view(*self) matches ParseErrorV::MissingField(k) ==> r@ == k,
            error_view(*self) matches ParseErrorV::InvalidField(k) ==> r@ == k,
    {
        match self {
            SculkParseError::MissingField(k) => k,
            SculkParseError::InvalidField(k) => k,
        }
    }
}

} // verus!
