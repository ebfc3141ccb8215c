use manta_primitives::assets::AssetLocation;
use manta_primitives::holding::{TransactFailure, XcmError};
use manta_primitives::ledger::{DolphinAssetConfig, NativeAndNonNative};
use manta_primitives::location::{
    AccountIdToMultiLocation, Fungibility, Junction, Junctions, MultiAsset, MultiLocation,
    NetworkId, XcmAssetId,
};
use manta_primitives::memory::{AssetManager, MemoryAssets, MemoryCurrency};
use manta_primitives::transactor::{matches_fungibles, IsNativeConcrete, MultiAssetAdapter};

const ALICE: [u8; 32] = [1u8; 32];

fn self_location() -> MultiLocation {
    MultiLocation::new(1, Junctions::X1(Junction::Parachain(2084)))
}

fn sibling(id: u32) -> MultiLocation {
    MultiLocation::new(1, Junctions::X1(Junction::Parachain(id)))
}

fn concrete(location: MultiLocation, amount: u128) -> MultiAsset {
    MultiAsset { id: XcmAssetId::Concrete(location), fun: Fungibility::Fungible(amount) }
}

fn adapter() -> MultiAssetAdapter {
    MultiAssetAdapter { native_matcher: IsNativeConcrete { self_location: self_location() } }
}

fn setup() -> (NativeAndNonNative<MemoryCurrency, MemoryAssets>, AssetManager) {
    let mut native = MemoryCurrency::new(10);
    native.set_balance(&ALICE, 100);
    let mut assets = MemoryAssets::new();
    assert!(assets.create(8, 5));
    let ledger = NativeAndNonNative::new(DolphinAssetConfig::asset_config(), native, assets);
    let mut registry = AssetManager::new();
    assert!(registry.register_asset(8, AssetLocation::from_location(sibling(1000))));
    (ledger, registry)
}

#[test]
fn native_matcher_recognises_self_and_here() {
    let m = IsNativeConcrete { self_location: self_location() };
    assert_eq!(m.matches_fungible(&concrete(self_location(), 5)), Some(5));
    assert_eq!(m.matches_fungible(&concrete(MultiLocation::here(), 6)), Some(6));
    assert_eq!(m.matches_fungible(&concrete(sibling(1000), 5)), None);
    let nft = MultiAsset { id: XcmAssetId::Concrete(MultiLocation::here()), fun: Fungibility::NonFungible(1) };
    assert_eq!(m.matches_fungible(&nft), None);
}

#[test]
fn non_native_matcher_uses_registry() {
    let (_, registry) = setup();
    assert_eq!(matches_fungibles(&registry, &concrete(sibling(1000), 3)), Some((8, 3)));
    assert_eq!(matches_fungibles(&registry, &concrete(sibling(1001), 3)), None);
}

#[test]
fn match_prefers_native_matcher() {
    let (ledger, mut registry) = setup();
    assert!(registry.register_asset(9, AssetLocation::from_location(MultiLocation::here())));
    let loc = AccountIdToMultiLocation::convert(ALICE);
    let asset = concrete(MultiLocation::here(), 42);
    assert_eq!(matches_fungibles(&registry, &asset), Some((9, 42)));
    assert_eq!(
        adapter().match_asset_and_location(ledger.config.native_asset_id, &registry, &asset, &loc),
        Ok((1, 42, ALICE))
    );
}

#[test]
fn match_failures() {
    let (ledger, registry) = setup();
    let bad_location = MultiLocation::new(1, Junctions::Here);
    assert_eq!(
        adapter().match_asset_and_location(1, &registry, &concrete(sibling(1000), 1), &bad_location),
        Err(XcmError::FailedToTransactAsset(TransactFailure::LocationConversion))
    );
    let loc = AccountIdToMultiLocation::convert(ALICE);
    assert_eq!(
        adapter().match_asset_and_location(
            ledger.config.native_asset_id,
            &registry,
            &concrete(sibling(1001), 1),
            &loc
        ),
        Err(XcmError::FailedToTransactAsset(TransactFailure::UnknownAsset))
    );
}

#[test]
fn deposit_asset_mints_non_native() {
    let (mut ledger, registry) = setup();
    let bob = [2u8; 32];
    let loc = AccountIdToMultiLocation::convert(bob);
    assert_eq!(adapter().deposit_asset(&mut ledger, &registry, &concrete(sibling(1000), 7), &loc), Ok(()));
    assert_eq!(ledger.non_native.balance_of(8, &bob), 7);
    assert_eq!(adapter().deposit_asset(&mut ledger, &registry, &concrete(self_location(), 12), &loc), Ok(()));
    assert_eq!(ledger.native.free_balance(&bob), 12);
}

#[test]
fn deposit_asset_failures_change_nothing() {
    let (mut ledger, registry) = setup();
    let bob = [2u8; 32];
    let loc = AccountIdToMultiLocation::convert(bob);
    assert_eq!(
        adapter().deposit_asset(&mut ledger, &registry, &concrete(sibling(1000), 2), &loc),
        Err(XcmError::FailedToTransactAsset(TransactFailure::CanDeposit))
    );
    assert_eq!(ledger.non_native.balance_of(8, &bob), 0);
    assert_eq!(
        adapter().deposit_asset(&mut ledger, &registry, &concrete(sibling(1001), 20), &loc),
        Err(XcmError::FailedToTransactAsset(TransactFailure::UnknownAsset))
    );
}

#[test]
fn withdraw_asset_returns_asset() {
    let (mut ledger, registry) = setup();
    let loc = AccountIdToMultiLocation::convert(ALICE);
    let asset = concrete(self_location(), 100);
    let held = adapter().withdraw_asset(&mut ledger, &registry, &asset, &loc).unwrap();
    assert_eq!(held.fungible, vec![(asset.id, 100)]);
    assert_eq!(ledger.native.free_balance(&ALICE), 0);
    assert_eq!(
        adapter().withdraw_asset(&mut ledger, &registry, &concrete(self_location(), 1), &loc),
        Err(XcmError::FailedToTransactAsset(TransactFailure::Burn))
    );
}

#[test]
fn account_locations_round_trip() {
    let loc = AccountIdToMultiLocation::convert(ALICE);
    assert_eq!(
        loc,
        MultiLocation::new(0, Junctions::X1(Junction::AccountId32 { network: NetworkId::Any, id: ALICE }))
    );
    assert_eq!(AccountIdToMultiLocation::reverse(&loc), Some(ALICE));
    let named = MultiLocation::new(
        0,
        Junctions::X1(Junction::AccountId32 { network: NetworkId::Kusama, id: ALICE }),
    );
    assert_eq!(AccountIdToMultiLocation::reverse(&named), None);
}
