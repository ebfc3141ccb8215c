use manta_primitives::ledger::{
    AssetConfig, DepositConsequence, DispatchError, DolphinAssetConfig, ExistenceRequirement,
    FungibleLedgerError, NativeAndNonNative,
};
use manta_primitives::memory::{MemoryAssets, MemoryCurrency};

const ALICE: [u8; 32] = [1u8; 32];
const BOB: [u8; 32] = [2u8; 32];

fn ledger() -> NativeAndNonNative<MemoryCurrency, MemoryAssets> {
    let mut native = MemoryCurrency::new(10);
    native.set_balance(&ALICE, 100);
    let mut assets = MemoryAssets::new();
    assert!(assets.create(8, 5));
    assert!(assets.create(9, 1));
    NativeAndNonNative::new(DolphinAssetConfig::asset_config(), native, assets)
}

#[test]
fn dolphin_config_values() {
    let c = DolphinAssetConfig::asset_config();
    assert_eq!(c, AssetConfig { native_asset_id: 1, start_non_native_asset_id: 8 });
}

#[test]
fn ensure_valid_accepts_native_and_non_native_range() {
    let l = ledger();
    assert_eq!(l.ensure_valid(1), Ok(1));
    assert_eq!(l.ensure_valid(8), Ok(8));
    assert_eq!(l.ensure_valid(1000), Ok(1000));
}

#[test]
fn ensure_valid_rejects_reserved_gap() {
    let l = ledger();
    for a in 2u128..8 {
        assert_eq!(l.ensure_valid(a), Err(FungibleLedgerError::InvalidAssetId(a)));
    }
    assert_eq!(l.ensure_valid(0), Err(FungibleLedgerError::InvalidAssetId(0)));
}

#[test]
fn from_deposit_maps_every_consequence() {
    assert_eq!(FungibleLedgerError::from_deposit(DepositConsequence::Success), Ok(()));
    assert_eq!(
        FungibleLedgerError::from_deposit(DepositConsequence::BelowMinimum),
        Err(FungibleLedgerError::BelowMinimum)
    );
    assert_eq!(
        FungibleLedgerError::from_deposit(DepositConsequence::CannotCreate),
        Err(FungibleLedgerError::CannotCreate)
    );
    assert_eq!(
        FungibleLedgerError::from_deposit(DepositConsequence::UnknownAsset),
        Err(FungibleLedgerError::UnknownAsset)
    );
    assert_eq!(
        FungibleLedgerError::from_deposit(DepositConsequence::Overflow),
        Err(FungibleLedgerError::Overflow)
    );
}

#[test]
fn can_deposit_errors() {
    let l = ledger();
    // native: a new account below the existential deposit
    assert_eq!(l.can_deposit(1, &BOB, 5, true), Err(FungibleLedgerError::BelowMinimum));
    // non-native asset that was never created
    assert_eq!(l.can_deposit(10, &BOB, 5, true), Err(FungibleLedgerError::UnknownAsset));
    // overflow of an existing balance
    assert_eq!(l.can_deposit(1, &ALICE, u128::MAX, true), Err(FungibleLedgerError::Overflow));
    // reserved id
    assert_eq!(l.can_deposit(3, &ALICE, 1, true), Err(FungibleLedgerError::InvalidAssetId(3)));
    assert_eq!(l.can_deposit(8, &BOB, 5, true), Ok(8));
    assert_eq!(l.can_deposit(1, &BOB, 10, false), Ok(1));
}

#[test]
fn deposit_after_successful_check_succeeds() {
    let mut l = ledger();
    assert_eq!(l.can_deposit(8, &BOB, 7, true), Ok(8));
    assert_eq!(l.deposit_minting(8, &BOB, 7), Ok(()));
    assert_eq!(l.non_native.balance_of(8, &BOB), 7);
    assert_eq!(l.can_deposit(1, &BOB, 20, true), Ok(1));
    assert_eq!(l.deposit_minting(1, &BOB, 20), Ok(()));
    assert_eq!(l.native.free_balance(&BOB), 20);
}

#[test]
fn deposit_minting_reports_refused_mint() {
    let mut l = ledger();
    assert_eq!(
        l.deposit_minting(10, &BOB, 7),
        Err(FungibleLedgerError::InvalidMint(DispatchError::UnknownAsset))
    );
    assert_eq!(l.deposit_minting(4, &BOB, 7), Err(FungibleLedgerError::InvalidAssetId(4)));
}

#[test]
fn deposit_minting_with_check_refusal_changes_nothing() {
    let mut l = ledger();
    assert_eq!(
        l.deposit_minting_with_check(8, &BOB, 2, true),
        Err(FungibleLedgerError::BelowMinimum)
    );
    assert_eq!(l.non_native.balance_of(8, &BOB), 0);
    assert_eq!(l.deposit_minting_with_check(8, &BOB, 6, true), Ok(()));
    assert_eq!(l.non_native.balance_of(8, &BOB), 6);
}

#[test]
fn transfer_native_and_non_native() {
    let mut l = ledger();
    assert_eq!(l.transfer(1, &ALICE, &BOB, 40, ExistenceRequirement::KeepAlive), Ok(()));
    assert_eq!(l.native.free_balance(&ALICE), 60);
    assert_eq!(l.native.free_balance(&BOB), 40);
    assert_eq!(l.deposit_minting(9, &ALICE, 50), Ok(()));
    assert_eq!(l.transfer(9, &ALICE, &BOB, 30, ExistenceRequirement::AllowDeath), Ok(()));
    assert_eq!(l.non_native.balance_of(9, &ALICE), 20);
    assert_eq!(l.non_native.balance_of(9, &BOB), 30);
}

#[test]
fn transfer_refusal_is_invalid_transfer() {
    let mut l = ledger();
    assert_eq!(
        l.transfer(1, &ALICE, &BOB, 95, ExistenceRequirement::KeepAlive),
        Err(FungibleLedgerError::InvalidTransfer(DispatchError::NoFunds))
    );
    assert_eq!(l.native.free_balance(&ALICE), 100);
    assert_eq!(l.native.free_balance(&BOB), 0);
    assert_eq!(
        l.transfer(5, &ALICE, &BOB, 1, ExistenceRequirement::KeepAlive),
        Err(FungibleLedgerError::InvalidAssetId(5))
    );
}

#[test]
fn can_withdraw_reports_reducible_amount() {
    let l = ledger();
    assert_eq!(
        l.can_withdraw(1, &ALICE, &95, ExistenceRequirement::KeepAlive),
        Err(FungibleLedgerError::CannotWithdrawMoreThan(90))
    );
    assert_eq!(l.can_withdraw(1, &ALICE, &90, ExistenceRequirement::KeepAlive), Ok(1));
    assert_eq!(l.can_withdraw(1, &ALICE, &100, ExistenceRequirement::AllowDeath), Ok(1));
}

#[test]
fn withdraw_burning_refusal_leaves_balance() {
    let mut l = ledger();
    assert_eq!(
        l.withdraw_burning(1, &ALICE, 91, ExistenceRequirement::KeepAlive),
        Err(FungibleLedgerError::CannotWithdrawMoreThan(90))
    );
    assert_eq!(l.native.free_balance(&ALICE), 100);
    assert_eq!(l.withdraw_burning(1, &ALICE, 90, ExistenceRequirement::KeepAlive), Ok(()));
    assert_eq!(l.native.free_balance(&ALICE), 10);
}

#[test]
fn withdraw_burning_non_native() {
    let mut l = ledger();
    assert_eq!(l.deposit_minting(8, &BOB, 50), Ok(()));
    assert_eq!(l.withdraw_burning(8, &BOB, 50, ExistenceRequirement::AllowDeath), Ok(()));
    assert_eq!(l.non_native.balance_of(8, &BOB), 0);
    assert_eq!(
        l.withdraw_burning(8, &BOB, 1, ExistenceRequirement::AllowDeath),
        Err(FungibleLedgerError::CannotWithdrawMoreThan(0))
    );
    assert_eq!(
        l.withdraw_burning(6, &BOB, 1, ExistenceRequirement::AllowDeath),
        Err(FungibleLedgerError::InvalidAssetId(6))
    );
}
