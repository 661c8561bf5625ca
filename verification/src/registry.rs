//! A keyed store of curves: one curve per token identity.
//!
//! The host environment derives each curve's storage address from its token
//! identity, which makes the store a map and guarantees one curve per token.
//! This module models that store explicitly and carries its two invariants:
//! no token identity occurs twice, and every stored curve satisfies the
//! lifetime invariant `initial_price > 0 && slope > 0`.

use vstd::prelude::*;

use crate::curve::BondingCurve;
use crate::curve::buy_ok;
use crate::curve::buy_tokens;
use crate::curve::initialize;
use crate::curve::sell_ok;
use crate::curve::sell_tokens;
use crate::curve::spec_after_buy;
use crate::curve::spec_after_sell;
use crate::curve::spec_buy_err;
use crate::curve::spec_cost;
use crate::curve::spec_sell_err;
use crate::curve::update_parameters;
use crate::error::ErrorCode;
use crate::identity::Identity;
use crate::identity::TokenAccount;

verus! {

/// The store of all curves, keyed by token identity.
pub struct CurveRegistry {
    curves: Vec<BondingCurve>,
}

impl CurveRegistry {
    /// The store as a map from token identity to curve.
    pub closed spec fn view(&self) -> Map<Identity, BondingCurve> {
        Map::new(
            |token: Identity|
                exists|i: int|
                    0 <= i < self.curves@.len() && self.curves@[i].token_mint == token,
            |token: Identity|
                self.curves@[choose|i: int|
                    0 <= i < self.curves@.len() && self.curves@[i].token_mint == token],
        )
    }

    /// The store's invariant: no token identity occurs twice, and every
    /// stored curve satisfies the lifetime invariant.
    pub closed spec fn wf(&self) -> bool {
        &&& forall|i: int, j: int|
            0 <= i < j < self.curves@.len() ==> (#[trigger] self.curves@[i]).token_mint != (
            #[trigger] self.curves@[j]).token_mint
        &&& forall|i: int| 0 <= i < self.curves@.len() ==> (#[trigger] self.curves@[i]).wf()
    }

    /// Every curve the store holds satisfies the lifetime invariant
    /// `initial_price > 0 && slope > 0`, and is stored under its own token
    /// identity.
    pub proof fn lemma_stored_curve_wf(&self, token_mint: Identity)
        requires
            self.wf(),
            self@.dom().contains(token_mint),
        ensures
            self@[token_mint].wf(),
            self@[token_mint].token_mint == token_mint,
    {
        let i = choose|i: int|
            0 <= i < self.curves@.len() && self.curves@[i].token_mint == token_mint;
        assert(self.curves@[i].wf());
    }

    /// An empty store.
    pub fn new() -> (registry: CurveRegistry)
        ensures
            registry.wf(),
            registry@ == Map::<Identity, BondingCurve>::empty(),
    {
        let registry = CurveRegistry { curves: Vec::new() };
        proof {
            assert(registry@ =~= Map::<Identity, BondingCurve>::empty());
        }
        registry
    }

    /// Where the curve for `token_mint` sits in the backing vector.
    fn find_index(&self, token_mint: Identity) -> (result: Option<usize>)
        ensures
            result matches Some(i) ==> i < self.curves@.len() && self.curves@[
                i as int
            ].token_mint == token_mint,
            result is None ==> forall|i: int|
                0 <= i < self.curves@.len() ==> (#[trigger] self.curves@[i]).token_mint
                    != token_mint,
    {
        let mut i: usize = 0;
        while i < self.curves.len()
            invariant
                i <= self.curves@.len(),
                forall|j: int|
                    0 <= j < i ==> (#[trigger] self.curves@[j]).token_mint != token_mint,
            decreases self.curves@.len() - i,
        {
            if self.curves[i].token_mint == token_mint {
                return Some(i);
            }
            i = i + 1;
        }
        None
    }

    /// Whether a curve for `token_mint` exists.
    pub fn contains(&self, token_mint: Identity) -> (found: bool)
        ensures
            found == self@.dom().contains(token_mint),
    {
        match self.find_index(token_mint) {
            Some(_) => true,
            None => false,
        }
    }

    /// The curve for `token_mint`, if one exists.
    pub fn get(&self, token_mint: Identity) -> (result: Option<BondingCurve>)
        requires
            self.wf(),
        ensures
            result is Some <==> self@.dom().contains(token_mint),
            result matches Some(curve) ==> curve == self@[token_mint],
    {
        match self.find_index(token_mint) {
            Some(i) => {
                proof {
                    self.lemma_view_at(i as int);
                }
                Some(self.curves[i])
            },
            None => None,
        }
    }

    /// Creates and stores the curve for `token_mint`, with an empty supply.
    ///
    /// The caller establishes that no curve exists for `token_mint` yet (see
    /// [`Self::contains`]); what a colliding creation would do is a property
    /// of the host's storage allocator, not of this store. Succeeds exactly
    /// when both parameters are positive; a zero parameter is rejected with
    /// `InvalidParameters` and the store is unchanged.
    pub fn create_curve(
        &mut self,
        token_mint: Identity,
        initial_price: u64,
        slope: u64,
        authority: Identity,
        bump: u8,
    ) -> (result: Result<(), ErrorCode>)
        requires
            old(self).wf(),
            !old(self)@.dom().contains(token_mint),
        ensures
            final(self).wf(),
            result is Ok <==> initial_price != 0 && slope != 0,
            result is Ok ==> final(self)@ == old(self)@.insert(
                token_mint,
                BondingCurve { authority, initial_price, slope, total_supply: 0, token_mint, bump },
            ),
            result is Err ==> final(self)@ == old(self)@,
            result matches Err(e) ==> e == ErrorCode::InvalidParameters,
    {
        match initialize(initial_price, slope, authority, token_mint, bump) {
            Ok(curve) => {
                let ghost pre = *self;
                self.curves.push(curve);
                proof {
                    Self::lemma_push_inserts(pre, *self, curve);
                }
                Ok(())
            },
            Err(e) => Err(e),
        }
    }

    /// Overwrites the parameters of the curve for `token_mint`; its supply,
    /// authority and token identity are untouched, and no other curve moves.
    ///
    /// Succeeds exactly when both new parameters are positive and `caller` is
    /// the curve's authority; a rejected call leaves the store unchanged and
    /// reports `InvalidParameters` (a zero parameter, checked first) or
    /// `Unauthorized`.
    pub fn update_curve(
        &mut self,
        token_mint: Identity,
        initial_price: u64,
        slope: u64,
        caller: Identity,
    ) -> (result: Result<(), ErrorCode>)
        requires
            old(self).wf(),
            old(self)@.dom().contains(token_mint),
        ensures
            final(self).wf(),
            result is Ok <==> initial_price != 0 && slope != 0 && caller == old(
                self,
            )@[token_mint].authority,
            result is Ok ==> final(self)@ == old(self)@.insert(
                token_mint,
                BondingCurve {
                    authority: old(self)@[token_mint].authority,
                    initial_price,
                    slope,
                    total_supply: old(self)@[token_mint].total_supply,
                    token_mint: old(self)@[token_mint].token_mint,
                    bump: old(self)@[token_mint].bump,
                },
            ),
            result is Err ==> final(self)@ == old(self)@,
            result matches Err(e) ==> e == (if initial_price == 0 || slope == 0 {
                ErrorCode::InvalidParameters
            } else {
                ErrorCode::Unauthorized
            }),
    {
        let idx = self.index_of_existing(token_mint);
        let mut curve = self.curves[idx];
        let result = update_parameters(&mut curve, initial_price, slope, caller);
        match result {
            Ok(()) => {
                let ghost pre = *self;
                self.curves[idx] = curve;
                proof {
                    Self::lemma_set_updates(pre, *self, idx as int, curve);
                }
                Ok(())
            },
            Err(e) => Err(e),
        }
    }

    /// A buy of `amount` units against the curve for `token_mint`: charges
    /// the cost given by [`spec_cost`] and raises that curve's supply by
    /// `amount`; no other curve moves. The returned cost is what the caller
    /// settles outside this crate (see [`buy_tokens`]).
    pub fn buy(&mut self, token_mint: Identity, amount: u64, authority: Identity) -> (result:
        Result<u64, ErrorCode>)
        requires
            old(self).wf(),
            old(self)@.dom().contains(token_mint),
        ensures
            final(self).wf(),
            result is Ok <==> buy_ok(old(self)@[token_mint], amount, authority),
            result matches Ok(cost) ==> {
                &&& cost == spec_cost(old(self)@[token_mint], amount)
                &&& final(self)@ == old(self)@.insert(
                    token_mint,
                    spec_after_buy(old(self)@[token_mint], amount),
                )
            },
            result is Err ==> final(self)@ == old(self)@,
            result matches Err(e) ==> e == spec_buy_err(old(self)@[token_mint], amount, authority),
    {
        let idx = self.index_of_existing(token_mint);
        let mut curve = self.curves[idx];
        let result = buy_tokens(&mut curve, amount, authority);
        match result {
            Ok(cost) => {
                let ghost pre = *self;
                self.curves[idx] = curve;
                proof {
                    Self::lemma_set_updates(pre, *self, idx as int, curve);
                }
                Ok(cost)
            },
            Err(e) => Err(e),
        }
    }

    /// A sell of `amount` units against the curve for `token_mint`: refunds
    /// the amount given by [`spec_cost`] at the pre-sell supply and lowers
    /// that curve's supply by `amount`; no other curve moves. The returned
    /// refund is what the caller settles outside this crate (see
    /// [`sell_tokens`]).
    pub fn sell(
        &mut self,
        token_mint: Identity,
        amount: u64,
        authority: Identity,
        seller: Identity,
        seller_token_account: TokenAccount,
    ) -> (result: Result<u64, ErrorCode>)
        requires
            old(self).wf(),
            old(self)@.dom().contains(token_mint),
        ensures
            final(self).wf(),
            result is Ok <==> sell_ok(
                old(self)@[token_mint],
                amount,
                authority,
                seller,
                seller_token_account,
            ),
            result matches Ok(refund) ==> {
                &&& refund == spec_cost(old(self)@[token_mint], amount)
                &&& final(self)@ == old(self)@.insert(
                    token_mint,
                    spec_after_sell(old(self)@[token_mint], amount),
                )
            },
            result is Err ==> final(self)@ == old(self)@,
            result matches Err(e) ==> e == spec_sell_err(
                old(self)@[token_mint],
                amount,
                authority,
                seller,
                seller_token_account,
            ),
    {
        let idx = self.index_of_existing(token_mint);
        let mut curve = self.curves[idx];
        let result = sell_tokens(&mut curve, amount, authority, seller, seller_token_account);
        match result {
            Ok(refund) => {
                let ghost pre = *self;
                self.curves[idx] = curve;
                proof {
                    Self::lemma_set_updates(pre, *self, idx as int, curve);
                }
                Ok(refund)
            },
            Err(e) => Err(e),
        }
    }

    /// Resolves a token identity the store is known to hold to its index.
    fn index_of_existing(&self, token_mint: Identity) -> (idx: usize)
        requires
            self.wf(),
            self@.dom().contains(token_mint),
        ensures
            idx < self.curves@.len(),
            self.curves@[idx as int].token_mint == token_mint,
            self.curves@[idx as int] == self@[token_mint],
    {
        match self.find_index(token_mint) {
            Some(i) => {
                proof {
                    self.lemma_view_at(i as int);
                }
                i
            },
            None => {
                proof {
                    let j = choose|j: int|
                        0 <= j < self.curves@.len() && self.curves@[j].token_mint == token_mint;
                    assert(self.curves@[j].token_mint == token_mint);
                    assert(false);
                }
                0
            },
        }
    }

    /// The backing vector's entry at `i` is what the map view returns for
    /// that entry's token identity.
    proof fn lemma_view_at(&self, i: int)
        requires
            self.wf(),
            0 <= i < self.curves@.len(),
        ensures
            self@.dom().contains(self.curves@[i].token_mint),
            self@[self.curves@[i].token_mint] == self.curves@[i],
    {
        let token = self.curves@[i].token_mint;
        assert(0 <= i < self.curves@.len() && self.curves@[i].token_mint == token);
        let j = choose|j: int|
            0 <= j < self.curves@.len() && self.curves@[j].token_mint == token;
        if j < i {
            assert(self.curves@[j].token_mint != self.curves@[i].token_mint);
        }
        if i < j {
            assert(self.curves@[i].token_mint != self.curves@[j].token_mint);
        }
    }

    /// Appending a curve whose token identity is fresh turns the view's map
    /// into the old map plus that one binding, and keeps the invariant.
    proof fn lemma_push_inserts(pre: CurveRegistry, post: CurveRegistry, curve: BondingCurve)
        requires
            pre.wf(),
            !pre@.dom().contains(curve.token_mint),
            curve.wf(),
            post.curves@ == pre.curves@.push(curve),
        ensures
            post.wf(),
            post@ == pre@.insert(curve.token_mint, curve),
    {
        let token = curve.token_mint;
        let n = pre.curves@.len();
        assert forall|i: int| 0 <= i < n implies (#[trigger] pre.curves@[i]).token_mint
            != token by {
            if pre.curves@[i].token_mint == token {
                assert(pre@.dom().contains(token));
            }
        }
        assert(post.curves@[n as int] == curve);
        assert forall|i: int| 0 <= i < n implies post.curves@[i] == pre.curves@[i] by {}
        assert(post.wf());
        assert forall|k: Identity|
            post@.dom().contains(k) == #[trigger] pre@.insert(token, curve).dom().contains(
                k,
            ) by {
            if k == token {
                assert(post.curves@[n as int].token_mint == k);
                assert(post@.dom().contains(k));
            } else {
                if post@.dom().contains(k) {
                    let i = choose|i: int|
                        0 <= i < post.curves@.len() && post.curves@[i].token_mint == k;
                    assert(i < n);
                    assert(pre.curves@[i].token_mint == k);
                    assert(pre@.dom().contains(k));
                }
                if pre@.dom().contains(k) {
                    let i = choose|i: int|
                        0 <= i < pre.curves@.len() && pre.curves@[i].token_mint == k;
                    assert(post.curves@[i].token_mint == k);
                    assert(post@.dom().contains(k));
                }
            }
        }
        assert forall|k: Identity| post@.dom().contains(k) implies post@[k] == pre@.insert(
            token,
            curve,
        )[k] by {
            let i = choose|i: int| 0 <= i < post.curves@.len() && post.curves@[i].token_mint == k;
            if k == token {
                if i < n {
                    assert(pre.curves@[i].token_mint == k);
                    assert(pre@.dom().contains(k));
                }
                assert(i == n);
                assert(post@[k] == curve);
            } else {
                assert(i < n);
                post.lemma_view_at(i);
                pre.lemma_view_at(i);
            }
        }
        assert(post@ =~= pre@.insert(token, curve));
    }

    /// Replacing the entry at `i` by a curve with the same token identity
    /// rebinds exactly that key in the view's map, and keeps the invariant.
    proof fn lemma_set_updates(pre: CurveRegistry, post: CurveRegistry, i: int, curve: BondingCurve)
        requires
            pre.wf(),
            0 <= i < pre.curves@.len(),
            curve.token_mint == pre.curves@[i].token_mint,
            curve.wf(),
            post.curves@ == pre.curves@.update(i, curve),
        ensures
            post.wf(),
            post@ == pre@.insert(curve.token_mint, curve),
    {
        let token = curve.token_mint;
        let n = pre.curves@.len();
        assert(post.curves@.len() == n);
        assert(post.curves@[i] == curve);
        assert forall|j: int| 0 <= j < n && j != i implies post.curves@[j] == pre.curves@[j] by {}
        assert forall|j: int| 0 <= j < n implies (#[trigger] post.curves@[j]).token_mint
            == pre.curves@[j].token_mint by {}
        assert(post.wf());
        assert forall|k: Identity|
            post@.dom().contains(k) == #[trigger] pre@.insert(token, curve).dom().contains(
                k,
            ) by {
            if post@.dom().contains(k) {
                let j = choose|j: int|
                    0 <= j < post.curves@.len() && post.curves@[j].token_mint == k;
                assert(pre.curves@[j].token_mint == k);
                assert(pre@.dom().contains(k));
            }
            if pre@.dom().contains(k) {
                let j = choose|j: int| 0 <= j < pre.curves@.len() && pre.curves@[j].token_mint == k;
                assert(post.curves@[j].token_mint == k);
                assert(post@.dom().contains(k));
            }
        }
        assert forall|k: Identity| post@.dom().contains(k) implies post@[k] == pre@.insert(
            token,
            curve,
        )[k] by {
            let j = choose|j: int| 0 <= j < post.curves@.len() && post.curves@[j].token_mint == k;
            post.lemma_view_at(j);
            if k == token {
                if j != i {
                    assert(post.curves@[j].token_mint == pre.curves@[j].token_mint);
                    assert(pre.curves@[i].token_mint == token);
                    assert(false);
                }
                assert(post@[k] == curve);
            } else {
                assert(j != i);
                pre.lemma_view_at(j);
            }
        }
        assert(post@ =~= pre@.insert(token, curve));
    }
}

} // verus!
