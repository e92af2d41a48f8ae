//! The error value reported by a feed call: the offset one past the offending
//! input unit, and the cause of the failure.

use vstd::prelude::*;

verus! {

/// Why a feed call stopped early.
#[derive(Clone, Copy, Debug, PartialEq, Eq, Structural)]
pub enum CodecErrorCause {
    /// Encoding found a source character outside the target's representable
    /// range.
    UnrepresentableUnit,
    /// Decoding found a byte outside the valid range for this encoding.
    InvalidSequence,
}

impl CodecErrorCause {
    /// A human-readable description of the cause.
    pub fn message(&self) -> (r: &'static str)
        ensures
            *self is UnrepresentableUnit ==> r@ == "unrepresentable character"@,
            *self is InvalidSequence ==> r@ == "invalid sequence"@,
    {
        match self {
            CodecErrorCause::UnrepresentableUnit => "unrepresentable character",
            CodecErrorCause::InvalidSequence => "invalid sequence",
        }
    }
}

/// A positional, recoverable conversion error.
///
/// `upto` is an offset into the input of the feed call that produced the
/// error: it points one unit past the offending input unit, so the span from
/// the reported consumed count to `upto` identifies exactly the unit at
/// fault, and a caller may skip past it and resume.
#[derive(Clone, Copy, Debug, PartialEq, Eq, Structural)]
pub struct CodecError {
    pub upto: isize,
    pub cause: CodecErrorCause,
}

} // verus!
