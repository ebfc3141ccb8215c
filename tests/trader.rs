use manta_primitives::assets::AssetLocation;
use manta_primitives::holding::{Assets, XcmError};
use manta_primitives::location::{Fungibility, Junction, Junctions, MultiAsset, MultiLocation, XcmAssetId};
use manta_primitives::memory::{AssetManager, MemoryAssets};
use manta_primitives::revenue::XcmFeesToAccount;
use manta_primitives::trader::{weight_to_fee, FirstAssetTrader, WEIGHT_PER_SECOND};

const SECOND: u64 = 1_000_000_000;

fn sibling(id: u32) -> MultiLocation {
    MultiLocation::new(1, Junctions::X1(Junction::Parachain(id)))
}

fn concrete(location: MultiLocation, amount: u128) -> MultiAsset {
    MultiAsset { id: XcmAssetId::Concrete(location), fun: Fungibility::Fungible(amount) }
}

fn bundle(items: &[(MultiLocation, u128)]) -> Assets {
    let mut a = Assets::new();
    for (l, n) in items {
        a.subsume(concrete(*l, *n));
    }
    a
}

/// Asset 8 at sibling 1000 and asset 9 at sibling 2000, both priced at `rate`.
fn registry(rate: u128) -> AssetManager {
    let mut r = AssetManager::new();
    assert!(r.register_asset(8, AssetLocation::from_location(sibling(1000))));
    assert!(r.register_asset(9, AssetLocation::from_location(sibling(2000))));
    assert!(r.set_units_per_second(8, rate));
    assert!(r.set_units_per_second(9, rate));
    r
}

#[test]
fn weight_to_fee_values() {
    assert_eq!(weight_to_fee(10, 1_000_000_000, SECOND), Some(10));
    assert_eq!(weight_to_fee(1, 500_000_000, SECOND), Some(0));
    assert_eq!(weight_to_fee(3, 1_500_000_000, SECOND), Some(4));
    assert_eq!(weight_to_fee(1_000_000_000_000, 4_000_000_000, WEIGHT_PER_SECOND), Some(4_000_000_000));
    assert_eq!(weight_to_fee(u128::MAX, 2, 1), None);
    assert_eq!(weight_to_fee(u128::MAX, u64::MAX, u64::MAX), Some(u128::MAX));
}

#[test]
fn half_second_at_unit_rate_is_free() {
    let r = registry(1);
    let mut t = FirstAssetTrader::new(SECOND);
    let payment = bundle(&[(sibling(1000), 10)]);
    let left = t.buy_weight(&r, 500_000_000, payment.clone()).unwrap();
    assert_eq!(left, payment);
    assert_eq!(t.weight, 0);
    assert_eq!(t.refund_cache, None);
}

#[test]
fn one_second_at_rate_ten_then_full_refund() {
    let r = registry(10);
    let mut t = FirstAssetTrader::new(SECOND);
    let left = t.buy_weight(&r, SECOND, bundle(&[(sibling(1000), 10)])).unwrap();
    assert!(left.is_empty());
    assert_eq!(t.refund_cache, Some((sibling(1000), 10, 10)));
    let refund = t.refund_weight(SECOND);
    assert_eq!(refund, Some(concrete(sibling(1000), 10)));
    assert_eq!(t.refund_cache, Some((sibling(1000), 0, 10)));
    assert_eq!(t.weight, 0);
}

#[test]
fn doubling_weight_doubles_fee() {
    let r = registry(7);
    let w = 3 * SECOND;
    let mut t1 = FirstAssetTrader::new(SECOND);
    let left1 = t1.buy_weight(&r, w, bundle(&[(sibling(1000), 100)])).unwrap();
    let mut t2 = FirstAssetTrader::new(SECOND);
    let left2 = t2.buy_weight(&r, 2 * w, bundle(&[(sibling(1000), 100)])).unwrap();
    let spent1 = 100 - left1.amount_of(&XcmAssetId::Concrete(sibling(1000)));
    let spent2 = 100 - left2.amount_of(&XcmAssetId::Concrete(sibling(1000)));
    assert_eq!(spent1, 21);
    assert_eq!(spent2, 2 * spent1);
    // with truncation the doubled fee may exceed twice the single fee by one
    assert_eq!(weight_to_fee(3, SECOND / 2, SECOND), Some(1));
    assert_eq!(weight_to_fee(3, SECOND, SECOND), Some(3));
}

#[test]
fn purchase_in_second_asset_drops_cache() {
    let r = registry(10);
    let mut t = FirstAssetTrader::new(SECOND);
    t.buy_weight(&r, SECOND, bundle(&[(sibling(1000), 50)])).unwrap();
    assert_eq!(t.refund_cache, Some((sibling(1000), 10, 10)));
    t.buy_weight(&r, SECOND, bundle(&[(sibling(2000), 50)])).unwrap();
    assert_eq!(t.refund_cache, None);
    assert_eq!(t.weight, 2 * SECOND);
    assert_eq!(t.refund_weight(SECOND), None);
}

#[test]
fn purchases_in_same_asset_accumulate() {
    let r = registry(10);
    let mut t = FirstAssetTrader::new(SECOND);
    t.buy_weight(&r, SECOND, bundle(&[(sibling(1000), 50)])).unwrap();
    t.buy_weight(&r, 2 * SECOND, bundle(&[(sibling(1000), 50)])).unwrap();
    assert_eq!(t.refund_cache, Some((sibling(1000), 30, 10)));
    assert_eq!(t.weight, 3 * SECOND);
}

#[test]
fn buy_weight_refusals() {
    let r = registry(10);
    let mut t = FirstAssetTrader::new(SECOND);
    assert_eq!(t.buy_weight(&r, SECOND, Assets::new()), Err(XcmError::TooExpensive));
    assert_eq!(t.buy_weight(&r, SECOND, bundle(&[(sibling(3000), 50)])), Err(XcmError::TooExpensive));
    assert_eq!(t.buy_weight(&r, SECOND, bundle(&[(sibling(1000), 9)])), Err(XcmError::TooExpensive));
    let mut abstract_payment = Assets::new();
    abstract_payment.subsume(MultiAsset { id: XcmAssetId::Abstract(1), fun: Fungibility::Fungible(50) });
    assert_eq!(t.buy_weight(&r, SECOND, abstract_payment), Err(XcmError::TooExpensive));
    let mut unpriced = AssetManager::new();
    assert!(unpriced.register_asset(8, AssetLocation::from_location(sibling(1000))));
    assert_eq!(
        t.buy_weight(&unpriced, SECOND, bundle(&[(sibling(1000), 50)])),
        Err(XcmError::TooExpensive)
    );
    assert_eq!(t.weight, 0);
    assert_eq!(t.refund_cache, None);
}

#[test]
fn buy_weight_uses_first_asset_only() {
    let r = registry(10);
    let mut t = FirstAssetTrader::new(SECOND);
    let left = t
        .buy_weight(&r, SECOND, bundle(&[(sibling(1000), 15), (sibling(2000), 40)]))
        .unwrap();
    assert_eq!(left, bundle(&[(sibling(1000), 5), (sibling(2000), 40)]));
}

#[test]
fn refund_is_clamped_to_bought_weight() {
    let r = registry(10);
    let mut t = FirstAssetTrader::new(SECOND);
    assert_eq!(t.refund_weight(SECOND), None);
    t.buy_weight(&r, 2 * SECOND, bundle(&[(sibling(1000), 50)])).unwrap();
    assert_eq!(t.refund_weight(5 * SECOND), Some(concrete(sibling(1000), 20)));
    assert_eq!(t.weight, 0);
    assert_eq!(t.refund_cache, Some((sibling(1000), 0, 10)));
}

#[test]
fn finalize_credits_leftover_once() {
    let r = registry(10);
    let mut assets = MemoryAssets::new();
    assert!(assets.create(8, 1));
    let sink = XcmFeesToAccount { receiver: [9u8; 32] };
    let mut t = FirstAssetTrader::new(SECOND);
    t.buy_weight(&r, 3 * SECOND, bundle(&[(sibling(1000), 50)])).unwrap();
    t.refund_weight(SECOND);
    t.finalize(&sink, &mut assets, &r);
    assert_eq!(assets.balance_of(8, &[9u8; 32]), 20);
}

#[test]
fn finalize_without_cache_credits_nothing() {
    let r = registry(10);
    let mut assets = MemoryAssets::new();
    assert!(assets.create(8, 1));
    let sink = XcmFeesToAccount { receiver: [9u8; 32] };
    FirstAssetTrader::new(SECOND).finalize(&sink, &mut assets, &r);
    assert_eq!(assets.balance_of(8, &[9u8; 32]), 0);
}

#[test]
fn take_revenue_cases() {
    let r = registry(10);
    let mut assets = MemoryAssets::new();
    assert!(assets.create(8, 1));
    let receiver = [9u8; 32];
    let sink = XcmFeesToAccount { receiver };
    sink.take_revenue(&mut assets, &r, concrete(sibling(4000), 30));
    assert_eq!(assets.balance_of(8, &receiver), 0);
    sink.take_revenue(&mut assets, &r, concrete(sibling(1000), 0));
    assert_eq!(assets.balance_of(8, &receiver), 0);
    sink.take_revenue(&mut assets, &r, concrete(sibling(1000), 30));
    assert_eq!(assets.balance_of(8, &receiver), 30);
    // asset 9 is registered but has no balance backend entry: the mint is refused and ignored
    sink.take_revenue(&mut assets, &r, concrete(sibling(2000), 30));
    assert_eq!(assets.balance_of(9, &receiver), 0);
}
