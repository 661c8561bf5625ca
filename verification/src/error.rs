//! The operations' error taxonomy. Every error is terminal for the operation
//! that raised it: the caller sees the error and no state change.

use vstd::prelude::*;

verus! {

/// Why an operation was rejected.
#[derive(Clone, Copy, Debug, PartialEq, Eq, Structural)]
pub enum ErrorCode {
    /// A supplied curve parameter (initial price or slope) is zero.
    InvalidParameters,
    /// A checked arithmetic step (multiply, add, subtract) would leave the
    /// unsigned 64-bit range, or would take the supply below zero.
    Overflow,
    /// The caller is not the curve's recorded authority.
    Unauthorized,
    /// The supplied token account's owner or mint is not the expected one.
    InvalidTokenAccount,
    /// A supplied trade amount is zero.
    InvalidAmount,
}

} // verus!
