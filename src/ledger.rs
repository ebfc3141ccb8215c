//! One ledger interface over the native currency and the registered non-native assets.
use vstd::prelude::*;

use crate::location::AccountId;

verus! {

/// Local asset identifier.
pub type AssetId = u128;

/// Quantity of an asset in minimal units.
pub type Balance = u128;

/// Answer of a backend to "may this account receive this amount?".
#[derive(Clone, Copy, Debug, PartialEq, Eq, Structural)]
pub enum DepositConsequence {
    BelowMinimum,
    CannotCreate,
    UnknownAsset,
    Overflow,
    Success,
}

/// Whether an operation must keep the account alive.
#[derive(Clone, Copy, Debug, PartialEq, Eq, Structural)]
pub enum ExistenceRequirement {
    KeepAlive,
    AllowDeath,
}

/// Failure reported by a balance backend when it refuses a mutation.
#[derive(Clone, Copy, Debug, PartialEq, Eq, Structural)]
pub enum DispatchError {
    UnknownAsset,
    NoFunds,
    BelowMinimum,
    Overflow,
}

/// Failure of a ledger operation.
#[derive(Clone, Copy, Debug, PartialEq, Eq, Structural)]
pub enum FungibleLedgerError {
    /// The asset id lies in the reserved gap below the non-native range.
    InvalidAssetId(AssetId),
    /// The deposit would leave a new account below its minimum balance.
    BelowMinimum,
    /// The receiving account cannot be created.
    CannotCreate,
    /// No such asset exists.
    UnknownAsset,
    /// A balance or the supply would overflow.
    Overflow,
    /// At most the carried amount can be withdrawn.
    CannotWithdrawMoreThan(Balance),
    /// The backend refused to mint.
    InvalidMint(DispatchError),
    /// The backend refused to burn.
    InvalidBurn(DispatchError),
    /// The backend refused to transfer.
    InvalidTransfer(DispatchError),
}

/// What a deposit consequence means for a ledger operation.
pub open spec fn spec_from_deposit(c: DepositConsequence) -> Result<(), FungibleLedgerError> {
    match c {
        DepositConsequence::BelowMinimum => Err(FungibleLedgerError::BelowMinimum),
        DepositConsequence::CannotCreate => Err(FungibleLedgerError::CannotCreate),
        DepositConsequence::Overflow => Err(FungibleLedgerError::Overflow),
        DepositConsequence::UnknownAsset => Err(FungibleLedgerError::UnknownAsset),
        DepositConsequence::Success => Ok(()),
    }
}

impl FungibleLedgerError {
    /// Converts a deposit consequence into `Ok(())` on success and into the matching error
    /// otherwise.
    pub fn from_deposit(consequence: DepositConsequence) -> (r: Result<(), FungibleLedgerError>)
        ensures
            r == spec_from_deposit(consequence),
    {
        match consequence {
            DepositConsequence::BelowMinimum => Err(FungibleLedgerError::BelowMinimum),
            DepositConsequence::CannotCreate => Err(FungibleLedgerError::CannotCreate),
            DepositConsequence::Overflow => Err(FungibleLedgerError::Overflow),
            DepositConsequence::UnknownAsset => Err(FungibleLedgerError::UnknownAsset),
            DepositConsequence::Success => Ok(()),
        }
    }
}

/// `true` when the requirement asks to keep the account alive.
pub open spec fn spec_keep_alive(e: ExistenceRequirement) -> bool {
    e == ExistenceRequirement::KeepAlive
}

/// Maps an existence requirement to the backends' keep-alive flag.
pub fn keep_alive(e: ExistenceRequirement) -> (r: bool)
    ensures
        r == spec_keep_alive(e),
{
    match e {
        ExistenceRequirement::KeepAlive => true,
        ExistenceRequirement::AllowDeath => false,
    }
}

/// Balance backend of the native currency.
pub trait NativeCurrency {
    /// Balance of `who`.
    spec fn balance(&self, who: AccountId) -> nat;

    /// What `reducible_balance` returns.
    spec fn spec_reducible_balance(&self, who: AccountId, keep_alive: bool) -> Balance;

    /// What `can_deposit` returns.
    spec fn spec_can_deposit(&self, who: AccountId, amount: Balance, mint: bool) -> DepositConsequence;

    /// The part of `who`'s balance that can leave it.
    fn reducible_balance(&self, who: &AccountId, keep_alive: bool) -> (r: Balance)
        ensures
            r == self.spec_reducible_balance(*who, keep_alive),
            r <= self.balance(*who),
    ;

    /// Whether `who` can receive `amount`.
    fn can_deposit(&self, who: &AccountId, amount: Balance, mint: bool) -> (r: DepositConsequence)
        ensures
            r == self.spec_can_deposit(*who, amount, mint),
    ;

    /// Credits `amount` to `who`; an account that cannot receive it is left as it was.
    fn deposit_creating(&mut self, who: &AccountId, amount: Balance)
        ensures
            old(self).spec_can_deposit(*who, amount, false) == DepositConsequence::Success
                ==> final(self).balance(*who) == old(self).balance(*who) + amount,
            final(self).balance(*who) == old(self).balance(*who) || final(self).balance(*who)
                == old(self).balance(*who) + amount,
            forall|w: AccountId| w != *who ==> #[trigger] final(self).balance(w) == old(self).balance(w),
    ;

    /// Debits `amount` from `who`.
    fn withdraw(&mut self, who: &AccountId, amount: Balance, existence: ExistenceRequirement) -> (r:
        Result<(), DispatchError>)
        ensures
            r is Ok ==> final(self).balance(*who) + amount == old(self).balance(*who),
            r is Err ==> final(self).balance(*who) == old(self).balance(*who),
            forall|w: AccountId| w != *who ==> #[trigger] final(self).balance(w) == old(self).balance(w),
    ;

    /// Moves `amount` from `source` to `dest`.
    fn transfer(
        &mut self,
        source: &AccountId,
        dest: &AccountId,
        amount: Balance,
        existence: ExistenceRequirement,
    ) -> (r: Result<(), DispatchError>)
        ensures
            r is Ok && *source != *dest ==> final(self).balance(*source) + amount == old(self).balance(
                *source,
            ) && final(self).balance(*dest) == old(self).balance(*dest) + amount,
            r is Err || *source == *dest ==> final(self).balance(*source) == old(self).balance(*source)
                && final(self).balance(*dest) == old(self).balance(*dest),
            forall|w: AccountId|
                w != *source && w != *dest ==> #[trigger] final(self).balance(w) == old(self).balance(w),
    ;
}

/// Balance backend of the non-native assets, each named by its asset id.
pub trait NonNativeAssets {
    /// Balance of `who` in `asset`.
    spec fn balance(&self, asset: AssetId, who: AccountId) -> nat;

    /// What `reducible_balance` returns.
    spec fn spec_reducible_balance(&self, asset: AssetId, who: AccountId, keep_alive: bool) -> Balance;

    /// What `can_deposit` returns.
    spec fn spec_can_deposit(
        &self,
        asset: AssetId,
        who: AccountId,
        amount: Balance,
        mint: bool,
    ) -> DepositConsequence;

    /// The part of `who`'s balance in `asset` that can leave it.
    fn reducible_balance(&self, asset: AssetId, who: &AccountId, keep_alive: bool) -> (r: Balance)
        ensures
            r == self.spec_reducible_balance(asset, *who, keep_alive),
            r <= self.balance(asset, *who),
    ;

    /// Whether `who` can receive `amount` of `asset`; `mint` says whether the supply grows.
    fn can_deposit(&self, asset: AssetId, who: &AccountId, amount: Balance, mint: bool) -> (r:
        DepositConsequence)
        ensures
            r == self.spec_can_deposit(asset, *who, amount, mint),
    ;

    /// Creates `amount` of `asset` in `who`'s account.
    fn mint_into(&mut self, asset: AssetId, who: &AccountId, amount: Balance) -> (r: Result<
        (),
        DispatchError,
    >)
        ensures
            r is Ok ==> final(self).balance(asset, *who) == old(self).balance(asset, *who) + amount,
            r is Err ==> final(self).balance(asset, *who) == old(self).balance(asset, *who),
            forall|a: AssetId, w: AccountId|
                (a != asset || w != *who) ==> #[trigger] final(self).balance(a, w) == old(self).balance(
                    a,
                    w,
                ),
    ;

    /// Destroys `amount` of `asset` held by `who`.
    fn burn_from(&mut self, asset: AssetId, who: &AccountId, amount: Balance) -> (r: Result<
        (),
        DispatchError,
    >)
        ensures
            r is Ok ==> final(self).balance(asset, *who) + amount == old(self).balance(asset, *who),
            r is Err ==> final(self).balance(asset, *who) == old(self).balance(asset, *who),
            forall|a: AssetId, w: AccountId|
                (a != asset || w != *who) ==> #[trigger] final(self).balance(a, w) == old(self).balance(
                    a,
                    w,
                ),
    ;

    /// Moves `amount` of `asset` from `source` to `dest`; returns the amount moved.
    fn transfer(
        &mut self,
        asset: AssetId,
        source: &AccountId,
        dest: &AccountId,
        amount: Balance,
        keep_alive: bool,
    ) -> (r: Result<Balance, DispatchError>)
        ensures
            r is Ok && *source != *dest ==> final(self).balance(asset, *source) + amount == old(
                self,
            ).balance(asset, *source) && final(self).balance(asset, *dest) == old(self).balance(
                asset,
                *dest,
            ) + amount,
            r is Err || *source == *dest ==> final(self).balance(asset, *source) == old(self).balance(
                asset,
                *source,
            ) && final(self).balance(asset, *dest) == old(self).balance(asset, *dest),
            forall|a: AssetId, w: AccountId|
                (a != asset || (w != *source && w != *dest)) ==> #[trigger] final(self).balance(a, w)
                    == old(self).balance(a, w),
    ;
}


/// Chain-wide asset configuration: which id is the native currency and where the
/// non-native range starts. Ids strictly between the two that are not native are reserved.
#[derive(Clone, Copy, Debug, PartialEq, Eq, Structural)]
pub struct AssetConfig {
    pub native_asset_id: AssetId,
    pub start_non_native_asset_id: AssetId,
}

impl AssetConfig {
    /// An id may be dispatched: it is native or lies in the non-native range.
    pub open spec fn spec_is_valid(self, asset_id: AssetId) -> bool {
        asset_id >= self.start_non_native_asset_id || asset_id == self.native_asset_id
    }

    /// Whether `asset_id` is the native currency.
    pub fn is_native(&self, asset_id: AssetId) -> (r: bool)
        ensures
            r == (asset_id == self.native_asset_id),
    {
        asset_id == self.native_asset_id
    }
}

/// Asset configuration of the Dolphin runtime: native currency 1, non-native ids from 8.
pub struct DolphinAssetConfig;

impl DolphinAssetConfig {
    pub const NATIVE_ASSET_ID: AssetId = 1;

    pub const START_NON_NATIVE_ASSET_ID: AssetId = 8;

    /// The configuration value.
    pub fn asset_config() -> (r: AssetConfig)
        ensures
            r == (AssetConfig { native_asset_id: 1, start_non_native_asset_id: 8 }),
    {
        AssetConfig {
            native_asset_id: Self::NATIVE_ASSET_ID,
            start_non_native_asset_id: Self::START_NON_NATIVE_ASSET_ID,
        }
    }
}

/// Ledger over a native currency backend `N` and a non-native assets backend `M`.
pub struct NativeAndNonNative<N, M> {
    pub config: AssetConfig,
    pub native: N,
    pub non_native: M,
}

impl<N: NativeCurrency, M: NonNativeAssets> NativeAndNonNative<N, M> {
    /// Balance of `who` in `asset`, read from the backend that owns `asset`.
    pub open spec fn balance(&self, asset: AssetId, who: AccountId) -> nat {
        if asset == self.config.native_asset_id {
            self.native.balance(who)
        } else {
            self.non_native.balance(asset, who)
        }
    }

    /// Same configuration and the same balance for every asset and account.
    pub open spec fn unchanged(&self, other: &Self) -> bool {
        &&& self.config == other.config
        &&& forall|a: AssetId, w: AccountId| #[trigger] other.balance(a, w) == self.balance(a, w)
    }

    /// `new` is `self` with `amount` added to `who`'s balance in `asset` and nothing else changed.
    pub open spec fn credited(&self, new: &Self, asset: AssetId, who: AccountId, amount: nat) -> bool {
        &&& self.config == new.config
        &&& new.balance(asset, who) == self.balance(asset, who) + amount
        &&& forall|a: AssetId, w: AccountId|
            (a != asset || w != who) ==> #[trigger] new.balance(a, w) == self.balance(a, w)
    }

    /// `new` is `self` with `amount` taken from `who`'s balance in `asset` and nothing else
    /// changed.
    pub open spec fn debited(&self, new: &Self, asset: AssetId, who: AccountId, amount: nat) -> bool {
        &&& self.config == new.config
        &&& new.balance(asset, who) + amount == self.balance(asset, who)
        &&& forall|a: AssetId, w: AccountId|
            (a != asset || w != who) ==> #[trigger] new.balance(a, w) == self.balance(a, w)
    }

    /// `new` is `self` with `amount` of `asset` moved from `source` to `dest`.
    pub open spec fn moved(
        &self,
        new: &Self,
        asset: AssetId,
        source: AccountId,
        dest: AccountId,
        amount: nat,
    ) -> bool {
        if source == dest {
            self.unchanged(new)
        } else {
            &&& self.config == new.config
            &&& new.balance(asset, source) + amount == self.balance(asset, source)
            &&& new.balance(asset, dest) == self.balance(asset, dest) + amount
            &&& forall|a: AssetId, w: AccountId|
                (a != asset || (w != source && w != dest)) ==> #[trigger] new.balance(a, w)
                    == self.balance(a, w)
        }
    }

    /// What `ensure_valid` returns.
    pub open spec fn spec_ensure_valid(&self, asset_id: AssetId) -> Result<
        AssetId,
        FungibleLedgerError,
    > {
        if self.config.spec_is_valid(asset_id) {
            Ok(asset_id)
        } else {
            Err(FungibleLedgerError::InvalidAssetId(asset_id))
        }
    }

    /// What `can_deposit` returns: the native backend is always asked without minting.
    pub open spec fn spec_can_deposit(
        &self,
        asset_id: AssetId,
        who: AccountId,
        amount: Balance,
        can_increase_total_supply: bool,
    ) -> Result<AssetId, FungibleLedgerError> {
        if !self.config.spec_is_valid(asset_id) {
            Err(FungibleLedgerError::InvalidAssetId(asset_id))
        } else {
            let c = if asset_id == self.config.native_asset_id {
                self.native.spec_can_deposit(who, amount, false)
            } else {
                self.non_native.spec_can_deposit(asset_id, who, amount, can_increase_total_supply)
            };
            match spec_from_deposit(c) {
                Ok(_) => Ok(asset_id),
                Err(e) => Err(e),
            }
        }
    }

    /// What `can_withdraw` returns.
    pub open spec fn spec_can_withdraw(
        &self,
        asset_id: AssetId,
        who: AccountId,
        amount: Balance,
        existence: ExistenceRequirement,
    ) -> Result<AssetId, FungibleLedgerError> {
        if !self.config.spec_is_valid(asset_id) {
            Err(FungibleLedgerError::InvalidAssetId(asset_id))
        } else {
            let reducible = self.spec_reducible_balance(asset_id, who, existence);
            if reducible >= amount {
                Ok(asset_id)
            } else {
                Err(FungibleLedgerError::CannotWithdrawMoreThan(reducible))
            }
        }
    }

    /// The part of `who`'s balance in `asset_id` that may leave under `existence`.
    pub open spec fn spec_reducible_balance(
        &self,
        asset_id: AssetId,
        who: AccountId,
        existence: ExistenceRequirement,
    ) -> Balance {
        if asset_id == self.config.native_asset_id {
            self.native.spec_reducible_balance(who, spec_keep_alive(existence))
        } else {
            self.non_native.spec_reducible_balance(asset_id, who, spec_keep_alive(existence))
        }
    }

    /// Builds a ledger from its configuration and its two backends.
    pub fn new(config: AssetConfig, native: N, non_native: M) -> (r: Self)
        ensures
            r.config == config,
            r.native == native,
            r.non_native == non_native,
    {
        NativeAndNonNative { config, native, non_native }
    }

    /// Accepts the native id and the ids of the non-native range, and refuses the rest.
    pub fn ensure_valid(&self, asset_id: AssetId) -> (r: Result<AssetId, FungibleLedgerError>)
        ensures
            r == self.spec_ensure_valid(asset_id),
    {
        if asset_id >= self.config.start_non_native_asset_id || asset_id
            == self.config.native_asset_id {
            Ok(asset_id)
        } else {
            Err(FungibleLedgerError::InvalidAssetId(asset_id))
        }
    }

    /// Checks whether `account` can receive `amount` of `asset_id`, changing nothing.
    /// Non-native assets honour `can_increase_total_supply`; the native currency never mints.
    pub fn can_deposit(
        &self,
        asset_id: AssetId,
        account: &AccountId,
        amount: Balance,
        can_increase_total_supply: bool,
    ) -> (r: Result<AssetId, FungibleLedgerError>)
        ensures
            r == self.spec_can_deposit(asset_id, *account, amount, can_increase_total_supply),
    {
        let asset_id = self.ensure_valid(asset_id)?;
        let c = if self.config.is_native(asset_id) {
            self.native.can_deposit(account, amount, false)
        } else {
            self.non_native.can_deposit(asset_id, account, amount, can_increase_total_supply)
        };
        match FungibleLedgerError::from_deposit(c) {
            Ok(()) => Ok(asset_id),
            Err(e) => Err(e),
        }
    }

    /// Deposits `amount` of `asset_id` into `account`. The native currency is credited where
    /// the account can receive it and this never fails; a non-native asset is minted, and a
    /// refused mint is `InvalidMint` with nothing changed.
    pub fn deposit_minting(&mut self, asset_id: AssetId, account: &AccountId, amount: Balance) -> (r:
        Result<(), FungibleLedgerError>)
        ensures
            !old(self).config.spec_is_valid(asset_id) ==> r == Err::<(), FungibleLedgerError>(
                FungibleLedgerError::InvalidAssetId(asset_id),
            ) && old(self).unchanged(final(self)),
            old(self).config.spec_is_valid(asset_id) && asset_id == old(self).config.native_asset_id
                ==> r is Ok,
            old(self).config.spec_is_valid(asset_id) && asset_id == old(self).config.native_asset_id
                ==> (old(self).credited(final(self), asset_id, *account, amount as nat) || old(
                self,
            ).unchanged(final(self))),
            old(self).config.spec_is_valid(asset_id) && asset_id == old(self).config.native_asset_id
                && old(self).spec_can_deposit(asset_id, *account, amount, false) is Ok ==> old(
                self,
            ).credited(final(self), asset_id, *account, amount as nat),
            r is Ok && asset_id != old(self).config.native_asset_id ==> old(self).credited(
                final(self),
                asset_id,
                *account,
                amount as nat,
            ),
            r is Err && old(self).config.spec_is_valid(asset_id) ==> r->Err_0 is InvalidMint && old(
                self,
            ).unchanged(final(self)),
    {
        let asset_id = self.ensure_valid(asset_id)?;
        if self.config.is_native(asset_id) {
            self.native.deposit_creating(account, amount);
        } else {
            match self.non_native.mint_into(asset_id, account, amount) {
                Ok(()) => {},
                Err(e) => {
                    return Err(FungibleLedgerError::InvalidMint(e));
                },
            }
        }
        Ok(())
    }

    /// Checks the deposit as `can_deposit` does and, only if it passes, deposits as
    /// `deposit_minting` does. A refused check changes nothing.
    pub fn deposit_minting_with_check(
        &mut self,
        asset_id: AssetId,
        account: &AccountId,
        amount: Balance,
        can_increase_total_supply: bool,
    ) -> (r: Result<(), FungibleLedgerError>)
        ensures
            old(self).spec_can_deposit(asset_id, *account, amount, can_increase_total_supply) matches Err(
                e,
            ) ==> r == Err::<(), FungibleLedgerError>(e) && old(self).unchanged(final(self)),
            old(self).spec_can_deposit(asset_id, *account, amount, can_increase_total_supply) is Ok
                && asset_id == old(self).config.native_asset_id ==> r is Ok && old(self).credited(
                final(self),
                asset_id,
                *account,
                amount as nat,
            ),
            r is Ok ==> old(self).credited(final(self), asset_id, *account, amount as nat),
            r is Err && old(self).spec_can_deposit(
                asset_id,
                *account,
                amount,
                can_increase_total_supply,
            ) is Ok ==> r->Err_0 is InvalidMint && old(self).unchanged(final(self)),
    {
        let asset_id = self.can_deposit(asset_id, account, amount, can_increase_total_supply)?;
        self.deposit_minting(asset_id, account, amount)
    }

    /// Moves `amount` of `asset_id` from `source` to `destination`; a backend refusal is
    /// `InvalidTransfer` with nothing changed.
    pub fn transfer(
        &mut self,
        asset_id: AssetId,
        source: &AccountId,
        destination: &AccountId,
        amount: Balance,
        existence_requirement: ExistenceRequirement,
    ) -> (r: Result<(), FungibleLedgerError>)
        ensures
            !old(self).config.spec_is_valid(asset_id) ==> r == Err::<(), FungibleLedgerError>(
                FungibleLedgerError::InvalidAssetId(asset_id),
            ),
            r is Ok ==> old(self).moved(final(self), asset_id, *source, *destination, amount as nat),
            r is Err ==> old(self).unchanged(final(self)),
            r is Err && old(self).config.spec_is_valid(asset_id) ==> r->Err_0 is InvalidTransfer,
    {
        let asset_id = self.ensure_valid(asset_id)?;
        let outcome = if self.config.is_native(asset_id) {
            self.native.transfer(source, destination, amount, existence_requirement)
        } else {
            match self.non_native.transfer(
                asset_id,
                source,
                destination,
                amount,
                keep_alive(existence_requirement),
            ) {
                Ok(_) => Ok(()),
                Err(e) => Err(e),
            }
        };
        match outcome {
            Ok(()) => Ok(()),
            Err(e) => Err(FungibleLedgerError::InvalidTransfer(e)),
        }
    }

    /// Checks whether `amount` of `asset_id` can leave `account` under `existence_requirement`,
    /// changing nothing; otherwise reports how much could.
    pub fn can_withdraw(
        &self,
        asset_id: AssetId,
        account: &AccountId,
        amount: &Balance,
        existence_requirement: ExistenceRequirement,
    ) -> (r: Result<AssetId, FungibleLedgerError>)
        ensures
            r == self.spec_can_withdraw(asset_id, *account, *amount, existence_requirement),
    {
        let asset_id = self.ensure_valid(asset_id)?;
        let keep_alive = keep_alive(existence_requirement);
        let reducible_amount = if self.config.is_native(asset_id) {
            self.native.reducible_balance(account, keep_alive)
        } else {
            self.non_native.reducible_balance(asset_id, account, keep_alive)
        };
        if reducible_amount >= *amount {
            return Ok(asset_id);
        }
        Err(FungibleLedgerError::CannotWithdrawMoreThan(reducible_amount))
    }

    /// Withdraws `amount` of `asset_id` from `who`: the native currency is withdrawn and a
    /// non-native asset burnt. The check of `can_withdraw` runs first and its refusal is
    /// returned unchanged with nothing changed; a backend refusal is `InvalidBurn`, also with
    /// nothing changed.
    pub fn withdraw_burning(
        &mut self,
        asset_id: AssetId,
        who: &AccountId,
        amount: Balance,
        existence_requirement: ExistenceRequirement,
    ) -> (r: Result<(), FungibleLedgerError>)
        ensures
            old(self).spec_can_withdraw(asset_id, *who, amount, existence_requirement) matches Err(e)
                ==> r == Err::<(), FungibleLedgerError>(e) && old(self).unchanged(final(self)),
            r is Ok ==> old(self).spec_can_withdraw(asset_id, *who, amount, existence_requirement)
                is Ok && old(self).debited(final(self), asset_id, *who, amount as nat),
            r is Err && old(self).spec_can_withdraw(asset_id, *who, amount, existence_requirement)
                is Ok ==> r->Err_0 is InvalidBurn && old(self).unchanged(final(self)),
            old(self).config.spec_is_valid(asset_id) ==> ((r matches Err(
                FungibleLedgerError::CannotWithdrawMoreThan(_),
            )) <==> amount > old(self).spec_reducible_balance(asset_id, *who, existence_requirement)),
            r matches Err(FungibleLedgerError::CannotWithdrawMoreThan(x)) ==> x == old(
                self,
            ).spec_reducible_balance(asset_id, *who, existence_requirement) && old(self).unchanged(
                final(self),
            ),
    {
        let asset_id = self.ensure_valid(asset_id)?;
        let asset_id = self.can_withdraw(asset_id, who, &amount, existence_requirement)?;
        if self.config.is_native(asset_id) {
            match self.native.withdraw(who, amount, existence_requirement) {
                Ok(()) => {},
                Err(e) => {
                    return Err(FungibleLedgerError::InvalidBurn(e));
                },
            }
        } else {
            match self.non_native.burn_from(asset_id, who, amount) {
                Ok(()) => {},
                Err(e) => {
                    return Err(FungibleLedgerError::InvalidBurn(e));
                },
            }
        }
        Ok(())
    }
}


/// Every id strictly between 1 and the start of the non-native range that is not the native
/// id is refused as an invalid asset id.
pub proof fn lemma_reserved_gap_rejected<N: NativeCurrency, M: NonNativeAssets>(
    ledger: NativeAndNonNative<N, M>,
    asset_id: AssetId,
)
    requires
        1 < asset_id < ledger.config.start_non_native_asset_id,
        asset_id != ledger.config.native_asset_id,
    ensures
        ledger.spec_ensure_valid(asset_id) == Err::<AssetId, FungibleLedgerError>(
            FungibleLedgerError::InvalidAssetId(asset_id),
        ),
        forall|who: AccountId, amount: Balance, mint: bool|
            #[trigger] ledger.spec_can_deposit(asset_id, who, amount, mint) == Err::<
                AssetId,
                FungibleLedgerError,
            >(FungibleLedgerError::InvalidAssetId(asset_id)),
        forall|who: AccountId, amount: Balance, e: ExistenceRequirement|
            #[trigger] ledger.spec_can_withdraw(asset_id, who, amount, e) == Err::<
                AssetId,
                FungibleLedgerError,
            >(FungibleLedgerError::InvalidAssetId(asset_id)),
{
}

} // verus!
