//! Decode failures. Every failure names the field, discriminator or shape
//! it belongs to, so a caller can tell what was wrong without re-parsing.

use vstd::prelude::*;

verus! {

/// Why a payload failed to decode.
#[derive(Debug, Clone, PartialEq, Eq)]
pub enum DecodeError {
    /// The text is not a JSON payload of the dialect this crate reads.
    Syntax,
    /// A required field is absent; carries the field name.
    Missing(String),
    /// A field or payload holds a value of the wrong shape; carries the
    /// field name or the record name.
    Mistyped(String),
    /// A string at a numeric position is nothing float parsing accepts —
    /// not a number, not `"INF"`, none of the infinity or nan words;
    /// carries the field name.
    BadNumber(String),
    /// The filter discriminator is none of the nine known kinds; carries
    /// the unrecognized discriminator.
    UnknownFilter(String),
}

pub enum DecErr {
    Syntax,
    Missing(Seq<char>),
    Mistyped(Seq<char>),
    BadNumber(Seq<char>),
    UnknownFilter(Seq<char>),
}

impl DeepView for DecodeError {
    type V = DecErr;

    open spec fn deep_view(&self) -> DecErr {
        match self {
            DecodeError::Syntax => DecErr::Syntax,
            DecodeError::Missing(n) => DecErr::Missing(n@),
            DecodeError::Mistyped(n) => DecErr::Mistyped(n@),
            DecodeError::BadNumber(n) => DecErr::BadNumber(n@),
            DecodeError::UnknownFilter(n) => DecErr::UnknownFilter(n@),
        }
    }
}

/// The view of a decode result: what the decoding specifications speak of.
pub open spec fn res_view<T: DeepView>(r: Result<T, DecodeError>) -> Result<T::V, DecErr> {
    match r {
        Ok(v) => Ok(v.deep_view()),
        Err(e) => Err(e.deep_view()),
    }
}

} // verus!
