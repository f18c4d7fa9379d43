//! The diagnostic record of a successful operation.
//!
//! A record is one line of text that names the operation, its operands and
//! its result, all numbers in decimal notation. The library renders the
//! line; writing it to a log is left to the caller.

use vstd::prelude::*;
use vstd::string::StringExecFns;

use crate::decimal::decimal;
use crate::decimal::to_decimal;

verus! {

/// The record of an addition: `Adding {a} + {b} = {result}`.
pub open spec fn adding_text(a: u64, b: u64, result: u64) -> Seq<char> {
    "Adding "@ + decimal(a as nat) + " + "@ + decimal(b as nat) + " = "@ + decimal(result as nat)
}

/// The record of a subtraction: `Subtracting {a} - {b} = {result}`.
pub open spec fn subtracting_text(a: u64, b: u64, result: u64) -> Seq<char> {
    "Subtracting "@ + decimal(a as nat) + " - "@ + decimal(b as nat) + " = "@ + decimal(
        result as nat,
    )
}

/// Renders the record of an addition of `a` and `b` that gave `result`.
pub fn adding_line(a: u64, b: u64, result: u64) -> (line: String)
    ensures
        line@ == adding_text(a, b, result),
{
    let mut line = String::from_str("Adding ");
    line.append(to_decimal(a).as_str());
    line.append(" + ");
    line.append(to_decimal(b).as_str());
    line.append(" = ");
    line.append(to_decimal(result).as_str());
    line
}

/// Renders the record of a subtraction of `b` from `a` that gave `result`.
pub fn subtracting_line(a: u64, b: u64, result: u64) -> (line: String)
    ensures
        line@ == subtracting_text(a, b, result),
{
    let mut line = String::from_str("Subtracting ");
    line.append(to_decimal(a).as_str());
    line.append(" - ");
    line.append(to_decimal(b).as_str());
    line.append(" = ");
    line.append(to_decimal(result).as_str());
    line
}

} // verus!
