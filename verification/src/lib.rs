//! Checked addition and subtraction over unsigned 64-bit integers.
//!
//! Each operation either returns the mathematically exact result or fails
//! with [`ErrorCode::Overflow`]; a value is never wrapped or truncated.
//! The diagnostic record that accompanies a successful operation is
//! rendered by the [`record`] module.

use vstd::prelude::*;

pub mod decimal;
pub mod error;
pub mod record;

pub use error::ErrorCode;

verus! {

/// The context that accompanies every operation.
///
/// It carries no data: the operations depend on their operands alone.
#[derive(Clone, Copy, Debug, PartialEq, Eq, Structural)]
pub struct Add {}

/// What adding `b` to `a` yields: the exact sum where it fits in 64 bits,
/// the overflow failure where it does not.
pub open spec fn add_outcome(a: u64, b: u64) -> Result<u64, ErrorCode> {
    if a + b <= u64::MAX {
        Ok((a + b) as u64)
    } else {
        Err(ErrorCode::Overflow)
    }
}

/// What subtracting `b` from `a` yields: the exact difference where it is
/// not negative, the overflow failure where it is.
pub open spec fn subtract_outcome(a: u64, b: u64) -> Result<u64, ErrorCode> {
    if a >= b {
        Ok((a - b) as u64)
    } else {
        Err(ErrorCode::Overflow)
    }
}

/// Adds two unsigned 64-bit integers without wrapping.
///
/// Returns the exact sum, or [`ErrorCode::Overflow`] when the sum exceeds
/// `u64::MAX`.
pub fn add(_ctx: Add, a: u64, b: u64) -> (outcome: Result<u64, ErrorCode>)
    ensures
        outcome == add_outcome(a, b),
        a + b <= u64::MAX ==> outcome == Ok::<u64, ErrorCode>((a + b) as u64),
        a + b > u64::MAX ==> outcome == Err::<u64, ErrorCode>(ErrorCode::Overflow),
{
    match a.checked_add(b) {
        Some(sum) => Ok(sum),
        None => Err(ErrorCode::Overflow),
    }
}

/// Subtracts one unsigned 64-bit integer from another without wrapping.
///
/// Returns the exact difference, or [`ErrorCode::Overflow`] when `b` is
/// greater than `a`.
pub fn subtract(_ctx: Add, a: u64, b: u64) -> (outcome: Result<u64, ErrorCode>)
    ensures
        outcome == subtract_outcome(a, b),
        a >= b ==> outcome == Ok::<u64, ErrorCode>((a - b) as u64),
        a < b ==> outcome == Err::<u64, ErrorCode>(ErrorCode::Overflow),
{
    match a.checked_sub(b) {
        Some(difference) => Ok(difference),
        None => Err(ErrorCode::Overflow),
    }
}

/// The outcome of an operation is determined by its operands: equal
/// operands give equal outcomes, whatever was computed before.
pub proof fn lemma_outcome_determined_by_operands(a1: u64, b1: u64, a2: u64, b2: u64)
    requires
        a1 == a2,
        b1 == b2,
    ensures
        add_outcome(a1, b1) == add_outcome(a2, b2),
        subtract_outcome(a1, b1) == subtract_outcome(a2, b2),
{
}

} // verus!
