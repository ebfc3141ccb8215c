//! Buying execution weight with the first asset of a message's payment, and refunds.
use vstd::prelude::*;
use vstd::arithmetic::div_mod::lemma_fundamental_div_mod;
use vstd::arithmetic::div_mod::lemma_fundamental_div_mod_converse;

use crate::assets::{spec_asset_location, AssetIdLocationMap, AssetLocation, UnitsPerSecond};
use crate::holding::{spec_sub_at, Assets, XcmError};
use crate::location::{Fungibility, MultiAsset, MultiLocation, XcmAssetId};

verus! {

/// Units of execution weight.
pub type Weight = u64;

/// Weight of one second of execution.
pub const WEIGHT_PER_SECOND: Weight = 1_000_000_000_000;

/// Weight commonly advertised to senders as the destination weight of a message to this
/// chain.
pub const ADVERTISED_DEST_WEIGHT: Weight = 4_000_000_000;

/// Fee for `weight` at `rate` units per second: truncating integer division.
pub open spec fn spec_fee(rate: int, weight: int, weight_per_second: int) -> int {
    rate * weight / weight_per_second
}

/// The fee for `weight` at `rate` units per second, or `None` where it exceeds `u128`.
pub fn weight_to_fee(rate: u128, weight: Weight, weight_per_second: Weight) -> (r: Option<u128>)
    requires
        weight_per_second > 0,
    ensures
        spec_fee(rate as int, weight as int, weight_per_second as int) <= u128::MAX ==> r == Some(
            spec_fee(rate as int, weight as int, weight_per_second as int) as u128,
        ),
        spec_fee(rate as int, weight as int, weight_per_second as int) > u128::MAX ==> r is None,
{
    let d = weight_per_second as u128;
    let q = rate / d;
    let m = rate % d;
    let w = weight as u128;
    assert(m * w <= u128::MAX) by (nonlinear_arith)
        requires
            m < d,
            d <= u64::MAX,
            w <= u64::MAX,
    ;
    let low = m * w / d;
    proof {
        let x = rate as int;
        let di = d as int;
        let wi = w as int;
        lemma_fundamental_div_mod(x, di);
        lemma_fundamental_div_mod(m * wi, di);
        let r2 = (m * wi) % di;
        assert(x * wi == (q * wi + low) * di + r2) by (nonlinear_arith)
            requires
                x == di * q + m,
                m * wi == di * low + r2,
        ;
        assert(0 <= r2 < di) by {
            vstd::arithmetic::div_mod::lemma_mod_pos_bound(m * wi, di);
        }
        lemma_fundamental_div_mod_converse(x * wi, di, q * wi + low, r2);
        assert(q * wi >= 0) by (nonlinear_arith)
            requires
                q >= 0,
                wi >= 0,
        ;
    }
    match q.checked_mul(w) {
        Some(high) => high.checked_add(low),
        None => None,
    }
}

/// Doubling the weight doubles the fee, but for at most one unit lost to truncation.
pub proof fn lemma_fee_linear(rate: nat, weight: nat, weight_per_second: nat)
    requires
        weight_per_second > 0,
    ensures
        2 * spec_fee(rate as int, weight as int, weight_per_second as int) <= spec_fee(
            rate as int,
            2 * weight as int,
            weight_per_second as int,
        ) <= 2 * spec_fee(rate as int, weight as int, weight_per_second as int) + 1,
{
    let x: int = (rate * weight) as int;
    let d = weight_per_second as int;
    lemma_fundamental_div_mod(x, d);
    let q = x / d;
    let r = x % d;
    vstd::arithmetic::div_mod::lemma_mod_pos_bound(x, d);
    assert((rate as int) * (2 * weight as int) == 2 * x) by (nonlinear_arith)
        requires
            x == rate * weight,
    ;
    if 2 * r < d {
        assert(2 * x == (2 * q) * d + 2 * r) by (nonlinear_arith)
            requires
                x == d * q + r,
        ;
        lemma_fundamental_div_mod_converse(2 * x, d, 2 * q, 2 * r);
    } else {
        assert(2 * x == (2 * q + 1) * d + (2 * r - d)) by (nonlinear_arith)
            requires
                x == d * q + r,
        ;
        lemma_fundamental_div_mod_converse(2 * x, d, 2 * q + 1, 2 * r - d);
    }
}

/// The asset, accumulated amount and rate kept for refunds.
pub type RefundCache = Option<(MultiLocation, u128, u128)>;

/// The cache after a purchase of `amount` of `asset` at `rate`: a purchase in the cached asset
/// accumulates, the first purchase starts the cache, and a purchase in another asset drops it.
pub open spec fn spec_next_cache(cache: RefundCache, asset: MultiLocation, amount: u128, rate: u128) -> RefundCache {
    match cache {
        Some((prev_asset, prev_amount, prev_rate)) => if prev_asset == asset {
            Some((asset, prev_amount.saturating_add(amount), prev_rate))
        } else {
            None
        },
        None => Some((asset, amount, rate)),
    }
}

/// The cache holds at most one asset: after a purchase in another asset it is empty, and a
/// cache that remains holds the asset just paid with.
pub proof fn lemma_cache_single_asset(cache: RefundCache, asset: MultiLocation, amount: u128, rate: u128)
    ensures
        cache matches Some((prev, _, _)) && prev != asset ==> spec_next_cache(cache, asset, amount, rate) is None,
        spec_next_cache(cache, asset, amount, rate) matches Some((a, _, _)) ==> a == asset,
        match cache {
            Some((prev, prev_amount, prev_rate)) => prev == asset ==> spec_next_cache(
                cache,
                asset,
                amount,
                rate,
            ) == Some((asset, prev_amount.saturating_add(amount), prev_rate)),
            None => spec_next_cache(cache, asset, amount, rate) == Some((asset, amount, rate)),
        },
{
}

/// What a purchase of weight comes to.
pub enum Purchase {
    /// The payment cannot buy the weight.
    Refused,
    /// The weight costs nothing.
    Free,
    /// `amount` of the asset at the location is paid, at `rate` units per second.
    Paid(MultiLocation, u128, u128),
}

/// The purchase of `weight` with the first fungible asset of `payment`: refused where there
/// is none, it is not named by a location, the location or its rate is not registered, the
/// fee exceeds `u128`, or the first asset does not cover the fee.
pub open spec fn spec_purchase<R: AssetIdLocationMap + UnitsPerSecond>(
    registry: &R,
    weight: Weight,
    weight_per_second: Weight,
    payment: Seq<(XcmAssetId, u128)>,
) -> Purchase {
    if payment.len() == 0 {
        Purchase::Refused
    } else {
        match payment[0].0 {
            XcmAssetId::Abstract(_) => Purchase::Refused,
            XcmAssetId::Concrete(location) => match registry.spec_asset_id(
                spec_asset_location(location),
            ) {
                None => Purchase::Refused,
                Some(id) => match registry.spec_units_per_second(id) {
                    None => Purchase::Refused,
                    Some(rate) => {
                        let fee = spec_fee(rate as int, weight as int, weight_per_second as int);
                        if fee > u128::MAX {
                            Purchase::Refused
                        } else if fee == 0 {
                            Purchase::Free
                        } else if payment[0].1 < fee {
                            Purchase::Refused
                        } else {
                            Purchase::Paid(location, fee as u128, rate)
                        }
                    },
                },
            },
        }
    }
}

/// Refund owed for `weight` at `rate`, saturating at `u128::MAX`.
pub open spec fn spec_refund_amount(rate: u128, weight: Weight, weight_per_second: Weight) -> u128 {
    let fee = spec_fee(rate as int, weight as int, weight_per_second as int);
    if fee > u128::MAX {
        u128::MAX
    } else {
        fee as u128
    }
}

/// Per-message fee state: the weight bought so far and the refund cache.
pub struct FirstAssetTrader {
    pub weight: Weight,
    pub refund_cache: RefundCache,
    pub weight_per_second: Weight,
}

impl FirstAssetTrader {
    /// A trader that has bought nothing, pricing one second as `weight_per_second`.
    pub fn new(weight_per_second: Weight) -> (r: FirstAssetTrader)
        requires
            weight_per_second > 0,
        ensures
            r.weight == 0,
            r.refund_cache is None,
            r.weight_per_second == weight_per_second,
    {
        FirstAssetTrader { weight: 0, refund_cache: None, weight_per_second }
    }

    /// Buys `weight` with the first fungible asset of `payment` and returns what is left of
    /// the payment. A refused purchase is `TooExpensive` and changes nothing; a free one
    /// returns the payment as it was.
    pub fn buy_weight<R: AssetIdLocationMap + UnitsPerSecond>(
        &mut self,
        registry: &R,
        weight: Weight,
        payment: Assets,
    ) -> (r: Result<Assets, XcmError>)
        requires
            old(self).weight_per_second > 0,
            payment.wf(),
        ensures
            match spec_purchase(registry, weight, old(self).weight_per_second, payment.fungible@) {
                Purchase::Refused => r == Err::<Assets, XcmError>(XcmError::TooExpensive)
                    && *final(self) == *old(self),
                Purchase::Free => r is Ok && r->Ok_0.fungible@ == payment.fungible@ && *final(self)
                    == *old(self),
                Purchase::Paid(location, amount, rate) => {
                    &&& r is Ok
                    &&& r->Ok_0.wf()
                    &&& r->Ok_0.fungible@ == spec_sub_at(payment.fungible@, 0, amount)
                    &&& final(self).weight == old(self).weight.saturating_add(weight)
                    &&& final(self).refund_cache == spec_next_cache(
                        old(self).refund_cache,
                        location,
                        amount,
                        rate,
                    )
                    &&& final(self).weight_per_second == old(self).weight_per_second
                },
            },
    {
        let first = match payment.first_fungible() {
            Some(a) => a,
            None => {
                return Err(XcmError::TooExpensive);
            },
        };
        let location = match first.id {
            XcmAssetId::Concrete(location) => location,
            XcmAssetId::Abstract(_) => {
                return Err(XcmError::TooExpensive);
            },
        };
        let asset_id = match registry.asset_id(&AssetLocation::from_location(location)) {
            Some(id) => id,
            None => {
                return Err(XcmError::TooExpensive);
            },
        };
        let units_per_second = match registry.units_per_second(&asset_id) {
            Some(u) => u,
            None => {
                return Err(XcmError::TooExpensive);
            },
        };
        let amount = match weight_to_fee(units_per_second, weight, self.weight_per_second) {
            Some(a) => a,
            None => {
                return Err(XcmError::TooExpensive);
            },
        };
        if amount == 0 {
            return Ok(payment);
        }
        let required = MultiAsset { id: XcmAssetId::Concrete(location), fun: Fungibility::Fungible(amount) };
        proof {
            assert(crate::holding::holds_at(payment.fungible@, XcmAssetId::Concrete(location), 0));
        }
        let unused = match payment.checked_sub(required) {
            Ok(u) => u,
            Err(_) => {
                return Err(XcmError::TooExpensive);
            },
        };
        self.weight = self.weight.saturating_add(weight);
        self.refund_cache = match self.refund_cache {
            Some((prev_location, prev_amount, prev_rate)) => {
                if crate::location::location_eq(&prev_location, &location) {
                    Some((location, prev_amount.saturating_add(amount), prev_rate))
                } else {
                    None
                }
            },
            None => Some((location, amount, units_per_second)),
        };
        Ok(unused)
    }

    /// Gives back the fee for up to `weight` of what was bought, in the cached asset. The
    /// weight is clamped to what was bought; the cached amount shrinks, saturating at zero,
    /// and the cache stays.
    pub fn refund_weight(&mut self, weight: Weight) -> (r: Option<MultiAsset>)
        requires
            old(self).weight_per_second > 0,
        ensures
            final(self).weight_per_second == old(self).weight_per_second,
            old(self).refund_cache is None ==> r is None && *final(self) == *old(self),
            old(self).refund_cache matches Some((location, prev_amount, rate)) ==> {
                let w = if weight < old(self).weight {
                    weight
                } else {
                    old(self).weight
                };
                let amount = spec_refund_amount(rate, w, old(self).weight_per_second);
                &&& final(self).weight == old(self).weight - w
                &&& final(self).refund_cache == Some(
                    (location, prev_amount.saturating_sub(amount), rate),
                )
                &&& r == Some(
                    MultiAsset {
                        id: XcmAssetId::Concrete(location),
                        fun: Fungibility::Fungible(amount),
                    },
                )
            },
    {
        match self.refund_cache {
            Some((location, prev_amount, rate)) => {
                let w = if weight < self.weight {
                    weight
                } else {
                    self.weight
                };
                self.weight = self.weight - w;
                let amount = match weight_to_fee(rate, w, self.weight_per_second) {
                    Some(a) => a,
                    None => u128::MAX,
                };
                self.refund_cache = Some((location, prev_amount.saturating_sub(amount), rate));
                Some(MultiAsset { id: XcmAssetId::Concrete(location), fun: Fungibility::Fungible(amount) })
            },
            None => None,
        }
    }
}

} // verus!
