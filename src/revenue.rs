//! Crediting collected fees to a receiver account, and closing a trader.
use vstd::prelude::*;

use crate::assets::AssetIdLocationMap;
use crate::ledger::{AssetId, NonNativeAssets};
use crate::location::{AccountId, Fungibility, MultiAsset, XcmAssetId};
use crate::trader::FirstAssetTrader;
use crate::transactor::{matches_fungibles, spec_match_non_native};

verus! {

/// Every balance of `new` is that of `old`.
pub open spec fn same_balances<M: NonNativeAssets>(old: &M, new: &M) -> bool {
    forall|a: AssetId, w: AccountId| #[trigger] new.balance(a, w) == old.balance(a, w)
}

/// `new` is `old` after crediting `revenue` to `receiver`: an asset the registry does not
/// recognise, or a zero amount, changes nothing; otherwise the receiver gains the amount,
/// unless the backend refused the mint, and no other balance changes.
pub open spec fn spec_revenue_taken<M: NonNativeAssets, R: AssetIdLocationMap>(
    old: &M,
    new: &M,
    registry: &R,
    receiver: AccountId,
    revenue: MultiAsset,
) -> bool {
    match spec_match_non_native(registry, revenue) {
        None => same_balances(old, new),
        Some((id, amount)) => if amount == 0 {
            same_balances(old, new)
        } else {
            &&& (new.balance(id, receiver) == old.balance(id, receiver) + amount
                || new.balance(id, receiver) == old.balance(id, receiver))
            &&& forall|a: AssetId, w: AccountId|
                (a != id || w != receiver) ==> #[trigger] new.balance(a, w) == old.balance(a, w)
        },
    }
}

/// Mints collected fees into one receiver account.
pub struct XcmFeesToAccount {
    pub receiver: AccountId,
}

impl XcmFeesToAccount {
    /// Mints `revenue` into the receiver. An asset the registry does not recognise is dropped,
    /// and a refused mint is ignored: crediting fees never fails.
    pub fn take_revenue<M: NonNativeAssets, R: AssetIdLocationMap>(
        &self,
        assets: &mut M,
        registry: &R,
        revenue: MultiAsset,
    )
        ensures
            spec_revenue_taken(old(assets), final(assets), registry, self.receiver, revenue),
    {
        match matches_fungibles(registry, &revenue) {
            Some((asset_id, amount)) => {
                if amount != 0 {
                    let _ = assets.mint_into(asset_id, &self.receiver, amount);
                }
            },
            None => {},
        }
    }
}

/// The revenue a trader leaves behind: the cached asset and its amount not refunded.
pub open spec fn spec_leftover(trader: FirstAssetTrader) -> Option<MultiAsset> {
    match trader.refund_cache {
        Some((location, amount, _)) => Some(
            MultiAsset { id: XcmAssetId::Concrete(location), fun: Fungibility::Fungible(amount) },
        ),
        None => None,
    }
}

impl FirstAssetTrader {
    /// Ends the trader's message: what is left in the refund cache goes to `sink` as revenue.
    /// The trader is consumed, so this happens once.
    pub fn finalize<M: NonNativeAssets, R: AssetIdLocationMap>(
        self,
        sink: &XcmFeesToAccount,
        assets: &mut M,
        registry: &R,
    )
        ensures
            match spec_leftover(self) {
                Some(revenue) => spec_revenue_taken(
                    old(assets),
                    final(assets),
                    registry,
                    sink.receiver,
                    revenue,
                ),
                None => same_balances(old(assets), final(assets)),
            },
    {
        match self.refund_cache {
            Some((location, amount, _)) => {
                sink.take_revenue(
                    assets,
                    registry,
                    MultiAsset { id: XcmAssetId::Concrete(location), fun: Fungibility::Fungible(amount) },
                );
            },
            None => {},
        }
    }
}

} // verus!
