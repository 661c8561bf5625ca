//! Plain-value identities for principals and token mints.

use vstd::prelude::*;

verus! {

/// A 32-byte account identity (a principal, or the identity of a token mint),
/// held as four 64-bit words. The library only ever compares identities for
/// equality; it never interprets the bytes.
#[derive(Clone, Copy, Debug, PartialEq, Eq, Structural)]
pub struct Identity {
    pub w0: u64,
    pub w1: u64,
    pub w2: u64,
    pub w3: u64,
}

/// What the pricing logic reads of a token-ledger account: who owns it and
/// which mint its balance is denominated in.
#[derive(Clone, Copy, Debug, PartialEq, Eq, Structural)]
pub struct TokenAccount {
    pub owner: Identity,
    pub mint: Identity,
}

} // verus!
