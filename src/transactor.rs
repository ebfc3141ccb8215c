//! Matching wire assets to local ones, and depositing or withdrawing them through the ledger.
use vstd::prelude::*;

use crate::assets::{spec_asset_location, AssetIdLocationConvert, AssetIdLocationMap};
use crate::holding::{Assets, TransactFailure, XcmError};
use crate::ledger::{
    AssetId, Balance, ExistenceRequirement, NativeAndNonNative, NativeCurrency, NonNativeAssets,
};
use crate::location::{
    location_eq, spec_location_account, AccountId, AccountIdToMultiLocation, Fungibility,
    Junctions, MultiAsset, MultiLocation, XcmAssetId,
};

verus! {

/// Recognises the native currency: a fungible asset named by this chain's own location,
/// either as seen from outside (`self_location`) or as `here`.
pub struct IsNativeConcrete {
    pub self_location: MultiLocation,
}

impl IsNativeConcrete {
    /// What `matches_fungible` returns.
    pub open spec fn spec_matches(&self, a: MultiAsset) -> Option<Balance> {
        match (a.fun, a.id) {
            (Fungibility::Fungible(amount), XcmAssetId::Concrete(location)) => if location
                == self.self_location || location == (MultiLocation {
                parents: 0,
                interior: Junctions::Here,
            }) {
                Some(amount)
            } else {
                None
            },
            _ => None,
        }
    }

    /// The amount of a native asset; `None` for any other asset.
    pub fn matches_fungible(&self, a: &MultiAsset) -> (r: Option<Balance>)
        ensures
            r == self.spec_matches(*a),
    {
        match (a.fun, a.id) {
            (Fungibility::Fungible(amount), XcmAssetId::Concrete(location)) => {
                if location_eq(&location, &self.self_location) || location.is_here() {
                    Some(amount)
                } else {
                    None
                }
            },
            _ => None,
        }
    }
}

/// A non-native asset as the registry recognises it: a fungible asset named by a registered
/// location, with its id and amount.
pub open spec fn spec_match_non_native<R: AssetIdLocationMap>(registry: &R, a: MultiAsset) -> Option<
    (AssetId, Balance),
> {
    match (a.fun, a.id) {
        (Fungibility::Fungible(amount), XcmAssetId::Concrete(location)) => match registry.spec_asset_id(
            spec_asset_location(location),
        ) {
            Some(id) => Some((id, amount)),
            None => None,
        },
        _ => None,
    }
}

/// The id and amount of a registered non-native asset.
pub fn matches_fungibles<R: AssetIdLocationMap>(registry: &R, a: &MultiAsset) -> (r: Option<
    (AssetId, Balance),
>)
    ensures
        r == spec_match_non_native(registry, *a),
{
    match (a.fun, a.id) {
        (Fungibility::Fungible(amount), XcmAssetId::Concrete(location)) => {
            match AssetIdLocationConvert::convert_ref(registry, &location) {
                Ok(id) => Some((id, amount)),
                Err(()) => None,
            }
        },
        _ => None,
    }
}

/// Deposits and withdraws cross-chain assets through a ledger.
pub struct MultiAssetAdapter {
    pub native_matcher: IsNativeConcrete,
}

impl MultiAssetAdapter {
    /// What `match_asset_and_location` returns: the receiving account first, then the native
    /// matcher, which wins over the non-native one.
    pub open spec fn spec_match_asset_and_location<R: AssetIdLocationMap>(
        &self,
        native_asset_id: AssetId,
        registry: &R,
        asset: MultiAsset,
        location: MultiLocation,
    ) -> Result<(AssetId, Balance, AccountId), XcmError> {
        match spec_location_account(location) {
            None => Err(XcmError::FailedToTransactAsset(TransactFailure::LocationConversion)),
            Some(who) => match self.native_matcher.spec_matches(asset) {
                Some(amount) => Ok((native_asset_id, amount, who)),
                None => match spec_match_non_native(registry, asset) {
                    Some((id, amount)) => Ok((id, amount, who)),
                    None => Err(XcmError::FailedToTransactAsset(TransactFailure::UnknownAsset)),
                },
            },
        }
    }

    /// Matches `asset` to a local asset id and amount and `location` to a local account.
    pub fn match_asset_and_location<R: AssetIdLocationMap>(
        &self,
        native_asset_id: AssetId,
        registry: &R,
        asset: &MultiAsset,
        location: &MultiLocation,
    ) -> (r: Result<(AssetId, Balance, AccountId), XcmError>)
        ensures
            r == self.spec_match_asset_and_location(native_asset_id, registry, *asset, *location),
    {
        let receiver = match AccountIdToMultiLocation::reverse(location) {
            Some(who) => who,
            None => {
                return Err(XcmError::FailedToTransactAsset(TransactFailure::LocationConversion));
            },
        };
        let (asset_id, amount) = match self.native_matcher.matches_fungible(asset) {
            Some(amount) => (native_asset_id, amount),
            None => match matches_fungibles(registry, asset) {
                Some((asset_id, amount)) => (asset_id, amount),
                None => {
                    return Err(XcmError::FailedToTransactAsset(TransactFailure::UnknownAsset));
                },
            },
        };
        Ok((asset_id, amount, receiver))
    }

    /// Deposits `asset` into the account at `location`: the ledger's check, allowing the
    /// supply of a non-native asset to grow, then the deposit. Any failure is
    /// `FailedToTransactAsset`, and a failure changes nothing.
    pub fn deposit_asset<N: NativeCurrency, M: NonNativeAssets, R: AssetIdLocationMap>(
        &self,
        ledger: &mut NativeAndNonNative<N, M>,
        registry: &R,
        asset: &MultiAsset,
        location: &MultiLocation,
    ) -> (r: Result<(), XcmError>)
        ensures
            match self.spec_match_asset_and_location(
                old(ledger).config.native_asset_id,
                registry,
                *asset,
                *location,
            ) {
                Err(e) => r == Err::<(), XcmError>(e) && old(ledger).unchanged(final(ledger)),
                Ok((id, amount, who)) => {
                    &&& old(ledger).spec_can_deposit(id, who, amount, true) is Err ==> r == Err::<
                        (),
                        XcmError,
                    >(XcmError::FailedToTransactAsset(TransactFailure::CanDeposit)) && old(
                        ledger,
                    ).unchanged(final(ledger))
                    &&& old(ledger).spec_can_deposit(id, who, amount, true) is Ok && id == old(
                        ledger,
                    ).config.native_asset_id ==> r is Ok
                    &&& r is Ok ==> old(ledger).credited(final(ledger), id, who, amount as nat)
                    &&& old(ledger).spec_can_deposit(id, who, amount, true) is Ok && r is Err ==> r
                        == Err::<(), XcmError>(
                        XcmError::FailedToTransactAsset(TransactFailure::Deposit),
                    ) && old(ledger).unchanged(final(ledger))
                },
            },
    {
        let (asset_id, amount, who) = self.match_asset_and_location(
            ledger.config.native_asset_id,
            registry,
            asset,
            location,
        )?;
        match ledger.can_deposit(asset_id, &who, amount, true) {
            Ok(_) => {},
            Err(_) => {
                return Err(XcmError::FailedToTransactAsset(TransactFailure::CanDeposit));
            },
        }
        match ledger.deposit_minting(asset_id, &who, amount) {
            Ok(()) => Ok(()),
            Err(_) => Err(XcmError::FailedToTransactAsset(TransactFailure::Deposit)),
        }
    }

    /// Withdraws `asset` from the account at `location`, allowing the account to die, and
    /// hands the asset back as held assets. Any failure is `FailedToTransactAsset`, and a
    /// failure changes nothing.
    pub fn withdraw_asset<N: NativeCurrency, M: NonNativeAssets, R: AssetIdLocationMap>(
        &self,
        ledger: &mut NativeAndNonNative<N, M>,
        registry: &R,
        asset: &MultiAsset,
        location: &MultiLocation,
    ) -> (r: Result<Assets, XcmError>)
        ensures
            match self.spec_match_asset_and_location(
                old(ledger).config.native_asset_id,
                registry,
                *asset,
                *location,
            ) {
                Err(e) => r == Err::<Assets, XcmError>(e) && old(ledger).unchanged(final(ledger)),
                Ok((id, amount, who)) => {
                    &&& old(ledger).spec_can_withdraw(
                        id,
                        who,
                        amount,
                        ExistenceRequirement::AllowDeath,
                    ) is Err ==> r == Err::<Assets, XcmError>(
                        XcmError::FailedToTransactAsset(TransactFailure::Burn),
                    ) && old(ledger).unchanged(final(ledger))
                    &&& r is Ok ==> old(ledger).debited(final(ledger), id, who, amount as nat)
                        && r->Ok_0.wf() && r->Ok_0.fungible@ == seq![(asset.id, amount)]
                    &&& r is Err ==> r == Err::<Assets, XcmError>(
                        XcmError::FailedToTransactAsset(TransactFailure::Burn),
                    ) && old(ledger).unchanged(final(ledger))
                },
            },
    {
        let (asset_id, amount, who) = self.match_asset_and_location(
            ledger.config.native_asset_id,
            registry,
            asset,
            location,
        )?;
        match ledger.withdraw_burning(asset_id, &who, amount, ExistenceRequirement::AllowDeath) {
            Ok(()) => Ok(Assets::from_asset(*asset)),
            Err(_) => Err(XcmError::FailedToTransactAsset(TransactFailure::Burn)),
        }
    }
}

/// An asset that both matchers recognise is taken as the native currency.
pub proof fn lemma_native_match_wins<R: AssetIdLocationMap>(
    adapter: MultiAssetAdapter,
    native_asset_id: AssetId,
    registry: &R,
    asset: MultiAsset,
    location: MultiLocation,
)
    requires
        spec_location_account(location) is Some,
        adapter.native_matcher.spec_matches(asset) is Some,
        spec_match_non_native(registry, asset) is Some,
    ensures
        adapter.spec_match_asset_and_location(native_asset_id, registry, asset, location) == Ok::<
            (AssetId, Balance, AccountId),
            XcmError,
        >(
            (
                native_asset_id,
                adapter.native_matcher.spec_matches(asset)->Some_0,
                spec_location_account(location)->Some_0,
            ),
        ),
{
}

} // verus!
