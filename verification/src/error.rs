//! The failure kind shared by every operation of the library.

use vstd::prelude::*;
use vstd::string::StringExecFns;

verus! {

/// Why an operation produced no number.
///
/// There is a single kind: it covers a sum above `u64::MAX` as well as a
/// difference below zero.
#[derive(Clone, Copy, Debug, PartialEq, Eq, Structural)]
pub enum ErrorCode {
    /// The exact result does not fit in an unsigned 64-bit integer.
    Overflow,
}

impl ErrorCode {
    /// The text that describes the failure, as a sequence of characters.
    pub open spec fn message_text(self) -> Seq<char> {
        match self {
            ErrorCode::Overflow => "Overflow occurred"@,
        }
    }

    /// The human-readable description of the failure.
    pub fn message(&self) -> (text: String)
        ensures
            text@ == self.message_text(),
    {
        match self {
            ErrorCode::Overflow => String::from_str("Overflow occurred"),
        }
    }
}

} // verus!
