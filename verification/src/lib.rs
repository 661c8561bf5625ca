//! A linear bonding-curve market maker.
//!
//! A [`curve::BondingCurve`] tracks the issuance parameters and the supply of
//! one fungible token. The unit price grows linearly with supply
//! (`initial_price + total_supply * slope`); buying mints at that price,
//! selling burns and refunds at it. All arithmetic is checked: an operation
//! whose result would not fit in 64 bits is rejected before any state changes.
//!
//! The on-chain plumbing (account resolution, settlement transfers, the token
//! ledger's mint and burn) lives outside this crate; the library holds the
//! pricing rules, the authorization checks and the state transitions, together
//! with their proofs.

pub mod curve;
pub mod error;
pub mod identity;
pub mod registry;
