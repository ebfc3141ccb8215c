//! The fungible assets a cross-chain message carries while it executes, and its errors.
use vstd::prelude::*;

use crate::location::{xcm_asset_id_eq, Fungibility, MultiAsset, XcmAssetId};

verus! {

/// Why an asset could not be transacted.
#[derive(Clone, Copy, Debug, PartialEq, Eq, Structural)]
pub enum TransactFailure {
    /// The location names no local account.
    LocationConversion,
    /// Neither matcher recognised the asset.
    UnknownAsset,
    /// The ledger refused the deposit check.
    CanDeposit,
    /// The ledger refused the deposit.
    Deposit,
    /// The ledger refused the withdrawal.
    Burn,
}

/// Error returned to the message executor.
#[derive(Clone, Copy, Debug, PartialEq, Eq, Structural)]
pub enum XcmError {
    /// The offered payment does not buy the requested weight.
    TooExpensive,
    /// An asset could not be deposited or withdrawn.
    FailedToTransactAsset(TransactFailure),
}

/// Entry `i` of `s` is the one named `id`.
pub open spec fn holds_at(s: Seq<(XcmAssetId, u128)>, id: XcmAssetId, i: int) -> bool {
    0 <= i < s.len() && s[i].0 == id
}

/// No two entries share a name.
pub open spec fn unique_names(s: Seq<(XcmAssetId, u128)>) -> bool {
    forall|i: int, j: int| 0 <= i < j < s.len() ==> #[trigger] s[i].0 != #[trigger] s[j].0
}

/// `s` with `amount` taken from entry `i`; an entry that reaches zero is removed.
pub open spec fn spec_sub_at(s: Seq<(XcmAssetId, u128)>, i: int, amount: u128) -> Seq<
    (XcmAssetId, u128),
> {
    if s[i].1 == amount {
        s.remove(i)
    } else {
        s.update(i, (s[i].0, (s[i].1 - amount) as u128))
    }
}

/// Fungible assets held by an executing message, one entry per asset name, in the order in
/// which they arrived.
#[derive(Clone, Debug, PartialEq, Eq)]
pub struct Assets {
    pub fungible: Vec<(XcmAssetId, u128)>,
}

impl Assets {
    /// Names are unique.
    pub open spec fn wf(&self) -> bool {
        unique_names(self.fungible@)
    }

    /// Nothing held.
    pub fn new() -> (r: Assets)
        ensures
            r.fungible@ == Seq::<(XcmAssetId, u128)>::empty(),
            r.wf(),
    {
        Assets { fungible: Vec::new() }
    }

    /// Holds exactly `asset`; a non-fungible asset is not held.
    pub fn from_asset(asset: MultiAsset) -> (r: Assets)
        ensures
            r.wf(),
            match asset.fun {
                Fungibility::Fungible(a) => r.fungible@ == seq![(asset.id, a)],
                Fungibility::NonFungible(_) => r.fungible@.len() == 0,
            },
    {
        let mut r = Assets::new();
        match asset.fun {
            Fungibility::Fungible(a) => {
                r.fungible.push((asset.id, a));
                proof {
                    assert(r.fungible@ =~= seq![(asset.id, a)]);
                }
            },
            Fungibility::NonFungible(_) => {},
        }
        r
    }

    /// Whether nothing is held.
    pub fn is_empty(&self) -> (r: bool)
        ensures
            r == (self.fungible@.len() == 0),
    {
        self.fungible.len() == 0
    }

    /// The amount held of `id`; zero when it is not held.
    pub fn amount_of(&self, id: &XcmAssetId) -> (r: u128)
        requires
            self.wf(),
        ensures
            forall|i: int| holds_at(self.fungible@, *id, i) ==> r == self.fungible@[i].1,
            (forall|i: int| !holds_at(self.fungible@, *id, i)) ==> r == 0,
    {
        let mut i: usize = 0;
        while i < self.fungible.len()
            invariant
                0 <= i <= self.fungible@.len(),
                self.wf(),
                forall|j: int| 0 <= j < i ==> !holds_at(self.fungible@, *id, j),
            decreases self.fungible@.len() - i,
        {
            if xcm_asset_id_eq(&self.fungible[i].0, id) {
                proof {
                    assert(holds_at(self.fungible@, *id, i as int));
                    assert forall|j: int| holds_at(self.fungible@, *id, j) implies j == i as int by {
                        if j > i as int {
                            assert(self.fungible@[i as int].0 != self.fungible@[j].0);
                        }
                    }
                }
                return self.fungible[i].1;
            }
            i += 1;
        }
        0
    }

    /// Adds `asset` to what is held: its amount joins the entry of the same name, saturating,
    /// or a new entry at the end. A non-fungible asset is not held.
    pub fn subsume(&mut self, asset: MultiAsset)
        requires
            old(self).wf(),
        ensures
            final(self).wf(),
            asset.fun is NonFungible ==> final(self).fungible@ == old(self).fungible@,
            asset.fun matches Fungibility::Fungible(a) ==> (forall|i: int|
                holds_at(old(self).fungible@, asset.id, i) ==> final(self).fungible@ == old(
                    self,
                ).fungible@.update(i, (asset.id, old(self).fungible@[i].1.saturating_add(a)))),
            asset.fun matches Fungibility::Fungible(a) ==> ((forall|i: int|
                !holds_at(old(self).fungible@, asset.id, i)) ==> final(self).fungible@ == old(
                self,
            ).fungible@.push((asset.id, a))),
    {
        let a = match asset.fun {
            Fungibility::Fungible(a) => a,
            Fungibility::NonFungible(_) => {
                return ;
            },
        };
        assert(asset.fun == Fungibility::Fungible(a));
        let mut i: usize = 0;
        while i < self.fungible.len()
            invariant
                0 <= i <= self.fungible@.len(),
                self.fungible@ == old(self).fungible@,
                unique_names(old(self).fungible@),
                asset.fun == Fungibility::Fungible(a),
                forall|j: int| 0 <= j < i ==> !holds_at(self.fungible@, asset.id, j),
            decreases self.fungible@.len() - i,
        {
            if xcm_asset_id_eq(&self.fungible[i].0, &asset.id) {
                let held = self.fungible[i].1;
                self.fungible.set(i, (asset.id, held.saturating_add(a)));
                proof {
                    assert(holds_at(old(self).fungible@, asset.id, i as int));
                    assert forall|j: int| holds_at(old(self).fungible@, asset.id, j) implies j
                        == i as int by {
                        if j != i as int {
                            if j < i as int {
                                assert(old(self).fungible@[j].0 != old(self).fungible@[i as int].0);
                            } else {
                                assert(old(self).fungible@[i as int].0 != old(self).fungible@[j].0);
                            }
                        }
                    }
                    assert forall|p: int, q: int|
                        0 <= p < q < self.fungible@.len() implies #[trigger] self.fungible@[p].0
                        != #[trigger] self.fungible@[q].0 by {
                        assert(old(self).fungible@[p].0 != old(self).fungible@[q].0);
                    }
                }
                return ;
            }
            i += 1;
        }
        self.fungible.push((asset.id, a));
        proof {
            assert forall|p: int, q: int|
                0 <= p < q < self.fungible@.len() implies #[trigger] self.fungible@[p].0
                != #[trigger] self.fungible@[q].0 by {
                if q == self.fungible@.len() - 1 {
                    assert(!holds_at(old(self).fungible@, asset.id, p));
                } else {
                    assert(old(self).fungible@[p].0 != old(self).fungible@[q].0);
                }
            }
        }
    }

    /// The first fungible asset held, if any.
    pub fn first_fungible(&self) -> (r: Option<MultiAsset>)
        ensures
            self.fungible@.len() == 0 ==> r is None,
            self.fungible@.len() > 0 ==> r == Some(
                MultiAsset {
                    id: self.fungible@[0].0,
                    fun: Fungibility::Fungible(self.fungible@[0].1),
                },
            ),
    {
        if self.fungible.len() == 0 {
            None
        } else {
            Some(MultiAsset { id: self.fungible[0].0, fun: Fungibility::Fungible(self.fungible[0].1) })
        }
    }

    /// Takes `asset` out of what is held. It succeeds when an entry of the same name holds at
    /// least the amount, which is then taken from it (an entry left at zero is removed);
    /// otherwise, and for a non-fungible asset, what is held is handed back unchanged.
    pub fn checked_sub(self, asset: MultiAsset) -> (r: Result<Assets, Assets>)
        requires
            self.wf(),
        ensures
            r is Err ==> r->Err_0.fungible@ == self.fungible@,
            r is Ok ==> r->Ok_0.wf(),
            asset.fun is NonFungible ==> r is Err,
            asset.fun matches Fungibility::Fungible(a) ==> (r is Ok <==> exists|i: int|
                holds_at(self.fungible@, asset.id, i) && self.fungible@[i].1 >= a),
            asset.fun matches Fungibility::Fungible(a) ==> forall|i: int|
                holds_at(self.fungible@, asset.id, i) && self.fungible@[i].1 >= a ==> r is Ok
                    && r->Ok_0.fungible@ == spec_sub_at(self.fungible@, i, a),
    {
        let a = match asset.fun {
            Fungibility::Fungible(a) => a,
            Fungibility::NonFungible(_) => {
                return Err(self);
            },
        };
        assert(asset.fun == Fungibility::Fungible(a));
        let mut s = self;
        let mut i: usize = 0;
        while i < s.fungible.len()
            invariant
                0 <= i <= s.fungible@.len(),
                s == self,
                unique_names(self.fungible@),
                asset.fun == Fungibility::Fungible(a),
                forall|j: int| 0 <= j < i ==> !holds_at(s.fungible@, asset.id, j),
            decreases s.fungible@.len() - i,
        {
            if xcm_asset_id_eq(&s.fungible[i].0, &asset.id) {
                let held = s.fungible[i].1;
                proof {
                    assert forall|j: int| holds_at(self.fungible@, asset.id, j) implies j
                        == i as int by {
                        if j != i as int {
                            if j < i as int {
                                assert(self.fungible@[j].0 != self.fungible@[i as int].0);
                            } else {
                                assert(self.fungible@[i as int].0 != self.fungible@[j].0);
                            }
                        }
                    }
                }
                if held < a {
                    assert(holds_at(self.fungible@, asset.id, i as int));
                    return Err(s);
                }
                assert(holds_at(self.fungible@, asset.id, i as int) && self.fungible@[i as int].1 >= a);
                if held == a {
                    s.fungible.remove(i);
                    proof {
                        assert forall|p: int, q: int|
                            0 <= p < q < s.fungible@.len() implies #[trigger] s.fungible@[p].0
                            != #[trigger] s.fungible@[q].0 by {
                            let pp = if p < i as int { p } else { p + 1 };
                            let qq = if q < i as int { q } else { q + 1 };
                            assert(self.fungible@[pp].0 != self.fungible@[qq].0);
                        }
                    }
                } else {
                    s.fungible.set(i, (asset.id, held - a));
                    proof {
                        assert forall|p: int, q: int|
                            0 <= p < q < s.fungible@.len() implies #[trigger] s.fungible@[p].0
                            != #[trigger] s.fungible@[q].0 by {
                            assert(self.fungible@[p].0 != self.fungible@[q].0);
                        }
                    }
                }
                return Ok(s);
            }
            i += 1;
        }
        Err(s)
    }
}

} // verus!
