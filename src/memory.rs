//! In-memory balance backends and asset registry, kept as append-only journals in which the
//! latest entry for a key holds its value.
use vstd::prelude::*;

use crate::assets::{AssetIdLocationMap, AssetLocation, UnitsPerSecond};
use crate::ledger::{
    keep_alive, AssetId, Balance, DepositConsequence, DispatchError, ExistenceRequirement,
    NativeCurrency, NonNativeAssets,
};
use crate::location::{bytes32_eq, AccountId};

verus! {

/// The latest balance recorded for `(asset, who)` in `s`; zero when none is.
pub open spec fn journal_balance(s: Seq<(AssetId, AccountId, Balance)>, asset: AssetId, who: AccountId) -> Balance
    decreases s.len(),
{
    if s.len() == 0 {
        0
    } else if s.last().0 == asset && s.last().1 == who {
        s.last().2
    } else {
        journal_balance(s.drop_last(), asset, who)
    }
}

/// Balances of accounts per asset.
pub struct BalanceBook {
    entries: Vec<(AssetId, AccountId, Balance)>,
}

impl BalanceBook {
    /// Balance of `who` in `asset`.
    pub closed spec fn value(&self, asset: AssetId, who: AccountId) -> Balance {
        journal_balance(self.entries@, asset, who)
    }

    /// Every balance is zero.
    pub fn new() -> (r: BalanceBook)
        ensures
            forall|a: AssetId, w: AccountId| #[trigger] r.value(a, w) == 0,
    {
        BalanceBook { entries: Vec::new() }
    }

    /// Balance of `who` in `asset`.
    pub fn get(&self, asset: AssetId, who: &AccountId) -> (r: Balance)
        ensures
            r == self.value(asset, *who),
    {
        let mut i: usize = self.entries.len();
        assert(self.entries@.subrange(0, i as int) =~= self.entries@);
        while i > 0
            invariant
                0 <= i <= self.entries@.len(),
                journal_balance(self.entries@.subrange(0, i as int), asset, *who) == journal_balance(
                    self.entries@,
                    asset,
                    *who,
                ),
            decreases i,
        {
            let e = self.entries[i - 1];
            assert(self.entries@.subrange(0, i as int).drop_last() =~= self.entries@.subrange(
                0,
                i - 1,
            ));
            if e.0 == asset && bytes32_eq(&e.1, who) {
                return e.2;
            }
            i -= 1;
        }
        0
    }

    /// Records `value` as the balance of `who` in `asset`.
    pub fn set(&mut self, asset: AssetId, who: &AccountId, value: Balance)
        ensures
            final(self).value(asset, *who) == value,
            forall|a: AssetId, w: AccountId|
                (a != asset || w != *who) ==> #[trigger] final(self).value(a, w) == old(self).value(a, w),
    {
        self.entries.push((asset, *who, value));
        assert(self.entries@.drop_last() =~= old(self).entries@);
    }
}

/// What a deposit of `amount` onto `balance` comes to, with `minimum` as the least balance a
/// new account may start with.
pub open spec fn spec_deposit_check(balance: Balance, amount: Balance, minimum: Balance) -> DepositConsequence {
    if amount == 0 {
        DepositConsequence::Success
    } else if balance + amount > u128::MAX {
        DepositConsequence::Overflow
    } else if balance == 0 && amount < minimum {
        DepositConsequence::BelowMinimum
    } else {
        DepositConsequence::Success
    }
}

fn deposit_check(balance: Balance, amount: Balance, minimum: Balance) -> (r: DepositConsequence)
    ensures
        r == spec_deposit_check(balance, amount, minimum),
{
    if amount == 0 {
        DepositConsequence::Success
    } else if balance > u128::MAX - amount {
        DepositConsequence::Overflow
    } else if balance == 0 && amount < minimum {
        DepositConsequence::BelowMinimum
    } else {
        DepositConsequence::Success
    }
}

/// What may leave `balance` when `keep_alive` asks that `minimum` stays.
pub open spec fn spec_reducible(balance: Balance, minimum: Balance, keep_alive: bool) -> Balance {
    if keep_alive {
        if balance >= minimum {
            (balance - minimum) as Balance
        } else {
            0
        }
    } else {
        balance
    }
}

fn reducible(balance: Balance, minimum: Balance, keep_alive: bool) -> (r: Balance)
    ensures
        r == spec_reducible(balance, minimum, keep_alive),
{
    if keep_alive {
        balance.saturating_sub(minimum)
    } else {
        balance
    }
}

/// Why a deposit check refused, as a dispatch error.
pub open spec fn spec_refusal(c: DepositConsequence) -> DispatchError {
    match c {
        DepositConsequence::Overflow => DispatchError::Overflow,
        DepositConsequence::UnknownAsset => DispatchError::UnknownAsset,
        _ => DispatchError::BelowMinimum,
    }
}

fn refusal(c: DepositConsequence) -> (r: DispatchError)
    ensures
        r == spec_refusal(c),
{
    match c {
        DepositConsequence::Overflow => DispatchError::Overflow,
        DepositConsequence::UnknownAsset => DispatchError::UnknownAsset,
        _ => DispatchError::BelowMinimum,
    }
}

/// Native currency kept in memory, with an existential deposit.
pub struct MemoryCurrency {
    pub existential_deposit: Balance,
    pub book: BalanceBook,
}

/// Key under which the native currency's balances are kept.
pub const NATIVE_KEY: AssetId = 0;

impl MemoryCurrency {
    /// No account holds anything.
    pub fn new(existential_deposit: Balance) -> (r: MemoryCurrency)
        ensures
            r.existential_deposit == existential_deposit,
            forall|w: AccountId| #[trigger] r.balance(w) == 0,
    {
        MemoryCurrency { existential_deposit, book: BalanceBook::new() }
    }

    /// Sets `who`'s balance, as a genesis configuration would.
    pub fn set_balance(&mut self, who: &AccountId, value: Balance)
        ensures
            final(self).existential_deposit == old(self).existential_deposit,
            final(self).balance(*who) == value,
            forall|w: AccountId| w != *who ==> #[trigger] final(self).balance(w) == old(self).balance(w),
    {
        self.book.set(NATIVE_KEY, who, value);
    }

    /// Balance of `who`.
    pub fn free_balance(&self, who: &AccountId) -> (r: Balance)
        ensures
            r == self.balance(*who),
    {
        self.book.get(NATIVE_KEY, who)
    }
}

impl NativeCurrency for MemoryCurrency {
    open spec fn balance(&self, who: AccountId) -> nat {
        self.book.value(NATIVE_KEY, who) as nat
    }

    open spec fn spec_reducible_balance(&self, who: AccountId, keep_alive: bool) -> Balance {
        spec_reducible(self.book.value(NATIVE_KEY, who), self.existential_deposit, keep_alive)
    }

    open spec fn spec_can_deposit(&self, who: AccountId, amount: Balance, mint: bool) -> DepositConsequence {
        spec_deposit_check(self.book.value(NATIVE_KEY, who), amount, self.existential_deposit)
    }

    fn reducible_balance(&self, who: &AccountId, keep_alive: bool) -> (r: Balance) {
        reducible(self.book.get(NATIVE_KEY, who), self.existential_deposit, keep_alive)
    }

    fn can_deposit(&self, who: &AccountId, amount: Balance, mint: bool) -> (r: DepositConsequence) {
        deposit_check(self.book.get(NATIVE_KEY, who), amount, self.existential_deposit)
    }

    fn deposit_creating(&mut self, who: &AccountId, amount: Balance) {
        let held = self.book.get(NATIVE_KEY, who);
        match deposit_check(held, amount, self.existential_deposit) {
            DepositConsequence::Success => {
                self.book.set(NATIVE_KEY, who, held + amount);
            },
            _ => {},
        }
    }

    fn withdraw(&mut self, who: &AccountId, amount: Balance, existence: ExistenceRequirement) -> (r:
        Result<(), DispatchError>) {
        let held = self.book.get(NATIVE_KEY, who);
        if amount > reducible(held, self.existential_deposit, keep_alive(existence)) {
            return Err(DispatchError::NoFunds);
        }
        self.book.set(NATIVE_KEY, who, held - amount);
        Ok(())
    }

    fn transfer(
        &mut self,
        source: &AccountId,
        dest: &AccountId,
        amount: Balance,
        existence: ExistenceRequirement,
    ) -> (r: Result<(), DispatchError>) {
        let held = self.book.get(NATIVE_KEY, source);
        if amount > reducible(held, self.existential_deposit, keep_alive(existence)) {
            return Err(DispatchError::NoFunds);
        }
        if bytes32_eq(source, dest) {
            return Ok(());
        }
        let target = self.book.get(NATIVE_KEY, dest);
        let c = deposit_check(target, amount, self.existential_deposit);
        match c {
            DepositConsequence::Success => {},
            _ => {
                return Err(refusal(c));
            },
        }
        self.book.set(NATIVE_KEY, source, held - amount);
        self.book.set(NATIVE_KEY, dest, target + amount);
        Ok(())
    }
}


/// The latest value recorded under `key` in `s`.
pub open spec fn journal_lookup<K, V>(s: Seq<(K, V)>, key: K) -> Option<V>
    decreases s.len(),
{
    if s.len() == 0 {
        None
    } else if s.last().0 == key {
        Some(s.last().1)
    } else {
        journal_lookup(s.drop_last(), key)
    }
}

/// The latest key recorded with `value` in `s`.
pub open spec fn journal_reverse<K, V>(s: Seq<(K, V)>, value: V) -> Option<K>
    decreases s.len(),
{
    if s.len() == 0 {
        None
    } else if s.last().1 == value {
        Some(s.last().0)
    } else {
        journal_reverse(s.drop_last(), value)
    }
}

fn lookup_by_id<V: Copy>(s: &Vec<(AssetId, V)>, key: AssetId) -> (r: Option<V>)
    ensures
        r == journal_lookup(s@, key),
{
    let mut i: usize = s.len();
    assert(s@.subrange(0, i as int) =~= s@);
    while i > 0
        invariant
            0 <= i <= s@.len(),
            journal_lookup(s@.subrange(0, i as int), key) == journal_lookup(s@, key),
        decreases i,
    {
        assert(s@.subrange(0, i as int).drop_last() =~= s@.subrange(0, i - 1));
        if s[i - 1].0 == key {
            return Some(s[i - 1].1);
        }
        i -= 1;
    }
    None
}

fn lookup_by_location(s: &Vec<(AssetId, AssetLocation)>, location: &AssetLocation) -> (r: Option<
    AssetId,
>)
    ensures
        r == journal_reverse(s@, *location),
{
    let mut i: usize = s.len();
    assert(s@.subrange(0, i as int) =~= s@);
    while i > 0
        invariant
            0 <= i <= s@.len(),
            journal_reverse(s@.subrange(0, i as int), *location) == journal_reverse(s@, *location),
        decreases i,
    {
        assert(s@.subrange(0, i as int).drop_last() =~= s@.subrange(0, i - 1));
        if s[i - 1].1.same_as(location) {
            return Some(s[i - 1].0);
        }
        i -= 1;
    }
    None
}

/// Non-native assets kept in memory; each created asset has a minimum balance.
pub struct MemoryAssets {
    pub book: BalanceBook,
    pub minimums: Vec<(AssetId, Balance)>,
}

impl MemoryAssets {
    /// Minimum balance of `asset`, or `None` where it was not created.
    pub open spec fn spec_minimum(&self, asset: AssetId) -> Option<Balance> {
        journal_lookup(self.minimums@, asset)
    }

    /// No asset exists.
    pub fn new() -> (r: MemoryAssets)
        ensures
            forall|a: AssetId| #[trigger] r.spec_minimum(a) is None,
            forall|a: AssetId, w: AccountId| #[trigger] r.balance(a, w) == 0,
    {
        MemoryAssets { book: BalanceBook::new(), minimums: Vec::new() }
    }

    /// Creates `asset` with `min_balance`; `false`, changing nothing, where it exists.
    pub fn create(&mut self, asset: AssetId, min_balance: Balance) -> (r: bool)
        ensures
            r == old(self).spec_minimum(asset) is None,
            r ==> final(self).spec_minimum(asset) == Some(min_balance),
            forall|a: AssetId| a != asset ==> #[trigger] final(self).spec_minimum(a) == old(self).spec_minimum(a),
            !r ==> final(self).spec_minimum(asset) == old(self).spec_minimum(asset),
            forall|a: AssetId, w: AccountId| #[trigger] final(self).balance(a, w) == old(self).balance(a, w),
    {
        if lookup_by_id(&self.minimums, asset).is_some() {
            return false;
        }
        self.minimums.push((asset, min_balance));
        assert(self.minimums@.drop_last() =~= old(self).minimums@);
        true
    }

    /// Balance of `who` in `asset`.
    pub fn balance_of(&self, asset: AssetId, who: &AccountId) -> (r: Balance)
        ensures
            r == self.balance(asset, *who),
    {
        self.book.get(asset, who)
    }
}

impl NonNativeAssets for MemoryAssets {
    open spec fn balance(&self, asset: AssetId, who: AccountId) -> nat {
        self.book.value(asset, who) as nat
    }

    open spec fn spec_reducible_balance(&self, asset: AssetId, who: AccountId, keep_alive: bool) -> Balance {
        match self.spec_minimum(asset) {
            Some(m) => spec_reducible(self.book.value(asset, who), m, keep_alive),
            None => 0,
        }
    }

    open spec fn spec_can_deposit(
        &self,
        asset: AssetId,
        who: AccountId,
        amount: Balance,
        mint: bool,
    ) -> DepositConsequence {
        match self.spec_minimum(asset) {
            Some(m) => spec_deposit_check(self.book.value(asset, who), amount, m),
            None => DepositConsequence::UnknownAsset,
        }
    }

    fn reducible_balance(&self, asset: AssetId, who: &AccountId, keep_alive: bool) -> (r: Balance) {
        match lookup_by_id(&self.minimums, asset) {
            Some(m) => reducible(self.book.get(asset, who), m, keep_alive),
            None => 0,
        }
    }

    fn can_deposit(&self, asset: AssetId, who: &AccountId, amount: Balance, mint: bool) -> (r:
        DepositConsequence) {
        match lookup_by_id(&self.minimums, asset) {
            Some(m) => deposit_check(self.book.get(asset, who), amount, m),
            None => DepositConsequence::UnknownAsset,
        }
    }

    fn mint_into(&mut self, asset: AssetId, who: &AccountId, amount: Balance) -> (r: Result<
        (),
        DispatchError,
    >) {
        let c = self.can_deposit(asset, who, amount, true);
        match c {
            DepositConsequence::Success => {},
            _ => {
                return Err(refusal(c));
            },
        }
        let held = self.book.get(asset, who);
        self.book.set(asset, who, held + amount);
        Ok(())
    }

    fn burn_from(&mut self, asset: AssetId, who: &AccountId, amount: Balance) -> (r: Result<
        (),
        DispatchError,
    >) {
        if lookup_by_id(&self.minimums, asset).is_none() {
            return Err(DispatchError::UnknownAsset);
        }
        let held = self.book.get(asset, who);
        if amount > held {
            return Err(DispatchError::NoFunds);
        }
        self.book.set(asset, who, held - amount);
        Ok(())
    }

    fn transfer(
        &mut self,
        asset: AssetId,
        source: &AccountId,
        dest: &AccountId,
        amount: Balance,
        keep_alive: bool,
    ) -> (r: Result<Balance, DispatchError>) {
        let m = match lookup_by_id(&self.minimums, asset) {
            Some(m) => m,
            None => {
                return Err(DispatchError::UnknownAsset);
            },
        };
        let held = self.book.get(asset, source);
        if amount > reducible(held, m, keep_alive) {
            return Err(DispatchError::NoFunds);
        }
        if bytes32_eq(source, dest) {
            return Ok(amount);
        }
        let target = self.book.get(asset, dest);
        let c = deposit_check(target, amount, m);
        match c {
            DepositConsequence::Success => {},
            _ => {
                return Err(refusal(c));
            },
        }
        self.book.set(asset, source, held - amount);
        self.book.set(asset, dest, target + amount);
        Ok(amount)
    }
}

/// Registry of asset locations and execution prices, kept in memory.
pub struct AssetManager {
    pub locations: Vec<(AssetId, AssetLocation)>,
    pub rates: Vec<(AssetId, u128)>,
}

impl AssetManager {
    /// Nothing registered.
    pub fn new() -> (r: AssetManager)
        ensures
            forall|a: AssetId| #[trigger] r.spec_location(a) is None,
            forall|l: AssetLocation| #[trigger] r.spec_asset_id(l) is None,
            forall|a: AssetId| #[trigger] r.spec_units_per_second(a) is None,
    {
        AssetManager { locations: Vec::new(), rates: Vec::new() }
    }

    /// Binds `asset_id` to `location` where neither is bound yet; otherwise `false`,
    /// changing nothing.
    pub fn register_asset(&mut self, asset_id: AssetId, location: AssetLocation) -> (r: bool)
        ensures
            r == (old(self).spec_location(asset_id) is None && old(self).spec_asset_id(location) is None),
            r ==> final(self).spec_location(asset_id) == Some(location) && final(self).spec_asset_id(
                location,
            ) == Some(asset_id),
            !r ==> final(self).spec_location(asset_id) == old(self).spec_location(asset_id)
                && final(self).spec_asset_id(location) == old(self).spec_asset_id(location),
            forall|a: AssetId| a != asset_id ==> #[trigger] final(self).spec_location(a) == old(self).spec_location(a),
            forall|l: AssetLocation| l != location ==> #[trigger] final(self).spec_asset_id(l) == old(self).spec_asset_id(l),
            forall|a: AssetId| #[trigger] final(self).spec_units_per_second(a) == old(self).spec_units_per_second(a),
    {
        if lookup_by_id(&self.locations, asset_id).is_some() || lookup_by_location(
            &self.locations,
            &location,
        ).is_some() {
            return false;
        }
        self.locations.push((asset_id, location));
        assert(self.locations@.drop_last() =~= old(self).locations@);
        true
    }

    /// Sets the price of a registered asset; `false`, changing nothing, for another.
    pub fn set_units_per_second(&mut self, asset_id: AssetId, units_per_second: u128) -> (r: bool)
        ensures
            r == old(self).spec_location(asset_id) is Some,
            r ==> final(self).spec_units_per_second(asset_id) == Some(units_per_second),
            !r ==> final(self).spec_units_per_second(asset_id) == old(self).spec_units_per_second(asset_id),
            forall|a: AssetId| a != asset_id ==> #[trigger] final(self).spec_units_per_second(a) == old(self).spec_units_per_second(a),
            forall|a: AssetId| #[trigger] final(self).spec_location(a) == old(self).spec_location(a),
            forall|l: AssetLocation| #[trigger] final(self).spec_asset_id(l) == old(self).spec_asset_id(l),
    {
        if lookup_by_id(&self.locations, asset_id).is_none() {
            return false;
        }
        self.rates.push((asset_id, units_per_second));
        assert(self.rates@.drop_last() =~= old(self).rates@);
        true
    }
}

impl AssetIdLocationMap for AssetManager {
    open spec fn spec_location(&self, asset_id: AssetId) -> Option<AssetLocation> {
        journal_lookup(self.locations@, asset_id)
    }

    open spec fn spec_asset_id(&self, location: AssetLocation) -> Option<AssetId> {
        journal_reverse(self.locations@, location)
    }

    fn location(&self, asset_id: &AssetId) -> (r: Option<AssetLocation>) {
        lookup_by_id(&self.locations, *asset_id)
    }

    fn asset_id(&self, location: &AssetLocation) -> (r: Option<AssetId>) {
        lookup_by_location(&self.locations, location)
    }
}

impl UnitsPerSecond for AssetManager {
    open spec fn spec_units_per_second(&self, asset_id: AssetId) -> Option<u128> {
        journal_lookup(self.rates@, asset_id)
    }

    fn units_per_second(&self, asset_id: &AssetId) -> (r: Option<u128>) {
        lookup_by_id(&self.rates, *asset_id)
    }
}

} // verus!
