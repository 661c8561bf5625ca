//! The bonding-curve engine: the pricing formula, the authorization rules and
//! the supply transitions, each with a contract that pins its result down.

use vstd::prelude::*;

use crate::error::ErrorCode;
use crate::identity::Identity;
use crate::identity::TokenAccount;

verus! {

/// The persistent state of one curve: its issuance parameters, its running
/// supply, and the data needed to act on the token ledger on its behalf
/// (`token_mint` names the ledger, `bump` is the proof that the curve's
/// storage address was derived from it).
#[derive(Clone, Copy, Debug, PartialEq, Eq, Structural)]
pub struct BondingCurve {
    /// The principal permitted to update parameters; it must also co-sign
    /// every buy and sell.
    pub authority: Identity,
    /// Price, in settlement-asset minor units, of one token unit at supply 0.
    pub initial_price: u64,
    /// Price increment per unit of `total_supply`.
    pub slope: u64,
    /// Units minted minus units burned by this curve so far.
    pub total_supply: u64,
    /// The fungible-token ledger this curve mints and burns against.
    pub token_mint: Identity,
    /// Derivation proof for the curve's storage address.
    pub bump: u8,
}

impl BondingCurve {
    /// The curve's lifetime invariant: both parameters are positive, so the
    /// price is positive and strictly increasing with supply.
    pub open spec fn wf(self) -> bool {
        self.initial_price > 0 && self.slope > 0
    }

    /// The unit price at the current supply, as an unbounded integer:
    /// `initial_price + total_supply * slope`.
    pub open spec fn spec_price(self) -> int {
        self.initial_price + self.total_supply * self.slope
    }
}

/// What a trade of `amount` units costs (buy) or refunds (sell) at the
/// curve's current supply, as an unbounded integer.
pub open spec fn spec_cost(curve: BondingCurve, amount: u64) -> int {
    curve.spec_price() * amount
}

/// The curve after a successful buy of `amount` units: only the supply moves.
pub open spec fn spec_after_buy(curve: BondingCurve, amount: u64) -> BondingCurve {
    BondingCurve {
        authority: curve.authority,
        initial_price: curve.initial_price,
        slope: curve.slope,
        total_supply: (curve.total_supply + amount) as u64,
        token_mint: curve.token_mint,
        bump: curve.bump,
    }
}

/// The curve after a successful sell of `amount` units: only the supply moves.
pub open spec fn spec_after_sell(curve: BondingCurve, amount: u64) -> BondingCurve {
    BondingCurve {
        authority: curve.authority,
        initial_price: curve.initial_price,
        slope: curve.slope,
        total_supply: (curve.total_supply - amount) as u64,
        token_mint: curve.token_mint,
        bump: curve.bump,
    }
}

/// When a buy goes through: a positive amount, the authority's co-signature,
/// and every arithmetic step inside the 64-bit range.
pub open spec fn buy_ok(curve: BondingCurve, amount: u64, authority: Identity) -> bool {
    &&& amount != 0
    &&& authority == curve.authority
    &&& curve.spec_price() <= u64::MAX
    &&& spec_cost(curve, amount) <= u64::MAX
    &&& curve.total_supply + amount <= u64::MAX
}

/// Which error a failing buy reports. A zero amount is rejected before the
/// authority is checked; arithmetic is only reached by an authorized call.
pub open spec fn spec_buy_err(curve: BondingCurve, amount: u64, authority: Identity) -> ErrorCode {
    if amount == 0 {
        ErrorCode::InvalidAmount
    } else if authority != curve.authority {
        ErrorCode::Unauthorized
    } else {
        ErrorCode::Overflow
    }
}

/// When a sell goes through: a positive amount no larger than the supply, the
/// authority's co-signature, a token account owned by the seller and
/// denominated in the curve's mint, and the refund inside the 64-bit range.
pub open spec fn sell_ok(
    curve: BondingCurve,
    amount: u64,
    authority: Identity,
    seller: Identity,
    seller_token_account: TokenAccount,
) -> bool {
    &&& amount != 0
    &&& authority == curve.authority
    &&& seller_token_account.owner == seller
    &&& seller_token_account.mint == curve.token_mint
    &&& curve.spec_price() <= u64::MAX
    &&& spec_cost(curve, amount) <= u64::MAX
    &&& amount <= curve.total_supply
}

/// Which error a failing sell reports, in the order the checks run.
pub open spec fn spec_sell_err(
    curve: BondingCurve,
    amount: u64,
    authority: Identity,
    seller: Identity,
    seller_token_account: TokenAccount,
) -> ErrorCode {
    if amount == 0 {
        ErrorCode::InvalidAmount
    } else if authority != curve.authority {
        ErrorCode::Unauthorized
    } else if seller_token_account.owner != seller || seller_token_account.mint
        != curve.token_mint {
        ErrorCode::InvalidTokenAccount
    } else {
        ErrorCode::Overflow
    }
}

/// Creates a curve with the given parameters and an empty supply.
///
/// Succeeds exactly when both parameters are positive; a zero parameter is
/// rejected with `InvalidParameters` and nothing is created. The caller is
/// responsible for storing the result at the address derived from
/// `token_mint` (see [`crate::registry::CurveRegistry`]).
pub fn initialize(
    initial_price: u64,
    slope: u64,
    authority: Identity,
    token_mint: Identity,
    bump: u8,
) -> (result: Result<BondingCurve, ErrorCode>)
    ensures
        result is Ok <==> initial_price != 0 && slope != 0,
        result matches Ok(curve) ==> curve == (BondingCurve {
            authority,
            initial_price,
            slope,
            total_supply: 0,
            token_mint,
            bump,
        }),
        result matches Err(e) ==> e == ErrorCode::InvalidParameters,
{
    if initial_price == 0 || slope == 0 {
        return Err(ErrorCode::InvalidParameters);
    }
    Ok(BondingCurve { authority, initial_price, slope, total_supply: 0, token_mint, bump })
}

/// Overwrites the curve's parameters in place; the supply, the authority and
/// the token identity are untouched.
///
/// Succeeds exactly when both new parameters are positive and the caller is
/// the curve's authority; a zero parameter is rejected (before the authority
/// check, with `InvalidParameters`), a foreign caller with `Unauthorized`,
/// and a rejected call leaves the curve unchanged.
pub fn update_parameters(
    curve: &mut BondingCurve,
    initial_price: u64,
    slope: u64,
    authority: Identity,
) -> (result: Result<(), ErrorCode>)
    ensures
        result is Ok <==> initial_price != 0 && slope != 0 && authority == old(curve).authority,
        result is Ok ==> *final(curve) == (BondingCurve {
            authority: old(curve).authority,
            initial_price,
            slope,
            total_supply: old(curve).total_supply,
            token_mint: old(curve).token_mint,
            bump: old(curve).bump,
        }),
        result is Err ==> *final(curve) == *old(curve),
        result matches Err(e) ==> e == (if initial_price == 0 || slope == 0 {
            ErrorCode::InvalidParameters
        } else {
            ErrorCode::Unauthorized
        }),
{
    if initial_price == 0 || slope == 0 {
        return Err(ErrorCode::InvalidParameters);
    }
    if curve.authority != authority {
        return Err(ErrorCode::Unauthorized);
    }
    curve.initial_price = initial_price;
    curve.slope = slope;
    Ok(())
}

/// The current unit price, `initial_price + total_supply * slope`, computed
/// with checked arithmetic.
///
/// Succeeds exactly when the price fits in 64 bits; otherwise `Overflow`.
pub fn current_price(curve: &BondingCurve) -> (result: Result<u64, ErrorCode>)
    ensures
        result is Ok <==> curve.spec_price() <= u64::MAX,
        result matches Ok(price) ==> price == curve.spec_price(),
        result matches Err(e) ==> e == ErrorCode::Overflow,
{
    let scaled = match curve.total_supply.checked_mul(curve.slope) {
        Some(v) => v,
        None => {
            return Err(ErrorCode::Overflow);
        },
    };
    match curve.initial_price.checked_add(scaled) {
        Some(price) => Ok(price),
        None => Err(ErrorCode::Overflow),
    }
}

/// A buy of `amount` units: charges `(initial_price + total_supply * slope) *
/// amount` and raises the supply by `amount`.
///
/// Returns the cost the buyer owes, which the caller settles by moving that
/// many settlement units from the buyer to the curve's custodial balance and
/// minting `amount` units to the buyer — both outside this crate, and both
/// under the host's all-or-nothing execution of the whole operation.
///
/// Succeeds exactly when [`buy_ok`] holds; a rejected call reports
/// [`spec_buy_err`] and leaves the curve unchanged.
pub fn buy_tokens(curve: &mut BondingCurve, amount: u64, authority: Identity) -> (result: Result<
    u64,
    ErrorCode,
>)
    ensures
        result is Ok <==> buy_ok(*old(curve), amount, authority),
        result matches Ok(cost) ==> {
            &&& cost == spec_cost(*old(curve), amount)
            &&& *final(curve) == spec_after_buy(*old(curve), amount)
        },
        result is Err ==> *final(curve) == *old(curve),
        result matches Err(e) ==> e == spec_buy_err(*old(curve), amount, authority),
{
    if amount == 0 {
        return Err(ErrorCode::InvalidAmount);
    }
    if curve.authority != authority {
        return Err(ErrorCode::Unauthorized);
    }
    let price = current_price(curve)?;
    let cost = match price.checked_mul(amount) {
        Some(v) => v,
        None => {
            return Err(ErrorCode::Overflow);
        },
    };
    let new_supply = match curve.total_supply.checked_add(amount) {
        Some(v) => v,
        None => {
            return Err(ErrorCode::Overflow);
        },
    };
    curve.total_supply = new_supply;
    Ok(cost)
}

/// A sell of `amount` units: burns them from the seller's token account and
/// refunds `(initial_price + total_supply * slope) * amount`, then lowers the
/// supply by `amount`. The price is read at the supply before the sell.
///
/// Returns the refund the seller is owed, which the caller settles by burning
/// `amount` units from the seller's token account and moving that many
/// settlement units from the curve's custodial balance to the seller — both
/// outside this crate, and both under the host's all-or-nothing execution of
/// the whole operation (a custodial balance short of the refund fails there).
///
/// Succeeds exactly when [`sell_ok`] holds; a rejected call reports
/// [`spec_sell_err`] and leaves the curve unchanged.
pub fn sell_tokens(
    curve: &mut BondingCurve,
    amount: u64,
    authority: Identity,
    seller: Identity,
    seller_token_account: TokenAccount,
) -> (result: Result<u64, ErrorCode>)
    ensures
        result is Ok <==> sell_ok(*old(curve), amount, authority, seller, seller_token_account),
        result matches Ok(refund) ==> {
            &&& refund == spec_cost(*old(curve), amount)
            &&& *final(curve) == spec_after_sell(*old(curve), amount)
        },
        result is Err ==> *final(curve) == *old(curve),
        result matches Err(e) ==> e == spec_sell_err(
            *old(curve),
            amount,
            authority,
            seller,
            seller_token_account,
        ),
{
    if amount == 0 {
        return Err(ErrorCode::InvalidAmount);
    }
    if curve.authority != authority {
        return Err(ErrorCode::Unauthorized);
    }
    if seller_token_account.owner != seller || seller_token_account.mint != curve.token_mint {
        return Err(ErrorCode::InvalidTokenAccount);
    }
    let price = current_price(curve)?;
    let refund = match price.checked_mul(amount) {
        Some(v) => v,
        None => {
            return Err(ErrorCode::Overflow);
        },
    };
    let new_supply = match curve.total_supply.checked_sub(amount) {
        Some(v) => v,
        None => {
            return Err(ErrorCode::Overflow);
        },
    };
    curve.total_supply = new_supply;
    Ok(refund)
}

/// Selling back the amount just bought restores the supply exactly. The trade
/// is not free, though: the sell reads the price at the post-buy supply, so
/// the refund exceeds the cost by exactly `slope * amount * amount`. Cost and
/// refund agree only where that excess is zero, which a well-formed curve
/// (`slope > 0`) and a positive amount rule out.
pub proof fn lemma_buy_sell_round_trip(curve: BondingCurve, amount: u64)
    requires
        curve.total_supply + amount <= u64::MAX,
    ensures
        spec_after_sell(spec_after_buy(curve, amount), amount) == curve,
        spec_cost(spec_after_buy(curve, amount), amount) == spec_cost(curve, amount) + curve.slope
            * amount * amount,
{
    let ip = curve.initial_price as int;
    let sl = curve.slope as int;
    let s = curve.total_supply as int;
    let a = amount as int;
    assert((ip + (s + a) * sl) * a == (ip + s * sl) * a + sl * a * a) by (nonlinear_arith);
}

/// The quoted unit price strictly increases with supply: of two curves with
/// the same well-formed parameters, the one with the larger supply quotes the
/// strictly higher price. The same price rules both directions of trade, so
/// the curve offers no spread to exploit, only this monotone ramp.
pub proof fn lemma_price_strictly_increasing(a: BondingCurve, b: BondingCurve)
    requires
        a.wf(),
        b.initial_price == a.initial_price,
        b.slope == a.slope,
        a.total_supply < b.total_supply,
    ensures
        a.spec_price() < b.spec_price(),
{
    assert(a.total_supply * a.slope < b.total_supply * b.slope) by (nonlinear_arith)
        requires
            a.total_supply < b.total_supply,
            a.slope == b.slope,
            a.slope > 0,
    ;
}

} // verus!
