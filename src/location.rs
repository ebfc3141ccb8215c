//! Chain-relative locations and the cross-chain asset descriptions built on them.
use vstd::prelude::*;

verus! {

/// Local account identifier: 32 raw bytes.
pub type AccountId = [u8; 32];

/// Network a 32-byte account belongs to.
#[derive(Clone, Copy, Debug, PartialEq, Eq, Structural)]
pub enum NetworkId {
    Any,
    Polkadot,
    Kusama,
}

/// One step of an interior path.
#[derive(Clone, Copy, Debug, PartialEq, Eq)]
pub enum Junction {
    Parachain(u32),
    AccountId32 { network: NetworkId, id: [u8; 32] },
    PalletInstance(u8),
    GeneralIndex(u128),
}

/// An interior path of at most three junctions.
#[derive(Clone, Copy, Debug, PartialEq, Eq)]
pub enum Junctions {
    Here,
    X1(Junction),
    X2(Junction, Junction),
    X3(Junction, Junction, Junction),
}

/// A location relative to this chain: `parents` hops up, then `interior` down.
#[derive(Clone, Copy, Debug, PartialEq, Eq)]
pub struct MultiLocation {
    pub parents: u8,
    pub interior: Junctions,
}

/// How an asset is named on the wire.
#[derive(Clone, Copy, Debug, PartialEq, Eq)]
pub enum XcmAssetId {
    /// Named by the location of its reserve.
    Concrete(MultiLocation),
    /// Named by an opaque index.
    Abstract(u128),
}

/// Whether an asset is a quantity or a single instance.
#[derive(Clone, Copy, Debug, PartialEq, Eq, Structural)]
pub enum Fungibility {
    Fungible(u128),
    NonFungible(u128),
}

/// An asset description carried by a cross-chain message.
#[derive(Clone, Copy, Debug, PartialEq, Eq)]
pub struct MultiAsset {
    pub id: XcmAssetId,
    pub fun: Fungibility,
}

/// Byte-wise comparison of two 32-byte identifiers.
pub fn bytes32_eq(a: &[u8; 32], b: &[u8; 32]) -> (r: bool)
    ensures
        r == (*a == *b),
{
    let mut i: usize = 0;
    while i < 32
        invariant
            0 <= i <= 32,
            forall|j: int| 0 <= j < i ==> a@[j] == b@[j],
        decreases 32 - i,
    {
        if a[i] != b[i] {
            return false;
        }
        i += 1;
    }
    proof {
        assert(a@ =~= b@);
        assert(*a =~= *b);
    }
    true
}

/// Executable equality of junctions.
pub fn junction_eq(a: &Junction, b: &Junction) -> (r: bool)
    ensures
        r == (*a == *b),
{
    match (a, b) {
        (Junction::Parachain(x), Junction::Parachain(y)) => *x == *y,
        (
            Junction::AccountId32 { network: n1, id: i1 },
            Junction::AccountId32 { network: n2, id: i2 },
        ) => *n1 == *n2 && bytes32_eq(i1, i2),
        (Junction::PalletInstance(x), Junction::PalletInstance(y)) => *x == *y,
        (Junction::GeneralIndex(x), Junction::GeneralIndex(y)) => *x == *y,
        _ => false,
    }
}

/// Executable equality of interior paths.
pub fn junctions_eq(a: &Junctions, b: &Junctions) -> (r: bool)
    ensures
        r == (*a == *b),
{
    match (a, b) {
        (Junctions::Here, Junctions::Here) => true,
        (Junctions::X1(a1), Junctions::X1(b1)) => junction_eq(a1, b1),
        (Junctions::X2(a1, a2), Junctions::X2(b1, b2)) => junction_eq(a1, b1) && junction_eq(
            a2,
            b2,
        ),
        (Junctions::X3(a1, a2, a3), Junctions::X3(b1, b2, b3)) => junction_eq(a1, b1)
            && junction_eq(a2, b2) && junction_eq(a3, b3),
        _ => false,
    }
}

/// Executable equality of locations.
pub fn location_eq(a: &MultiLocation, b: &MultiLocation) -> (r: bool)
    ensures
        r == (*a == *b),
{
    a.parents == b.parents && junctions_eq(&a.interior, &b.interior)
}

/// Executable equality of wire asset names.
pub fn xcm_asset_id_eq(a: &XcmAssetId, b: &XcmAssetId) -> (r: bool)
    ensures
        r == (*a == *b),
{
    match (a, b) {
        (XcmAssetId::Concrete(x), XcmAssetId::Concrete(y)) => location_eq(x, y),
        (XcmAssetId::Abstract(x), XcmAssetId::Abstract(y)) => *x == *y,
        _ => false,
    }
}

/// The first junction of a path, if any.
pub open spec fn spec_first_interior(j: Junctions) -> Option<Junction> {
    match j {
        Junctions::Here => None,
        Junctions::X1(a) => Some(a),
        Junctions::X2(a, _) => Some(a),
        Junctions::X3(a, _, _) => Some(a),
    }
}

impl MultiLocation {
    /// Builds a location from its parts.
    pub fn new(parents: u8, interior: Junctions) -> (r: MultiLocation)
        ensures
            r == (MultiLocation { parents, interior }),
    {
        MultiLocation { parents, interior }
    }

    /// This chain itself.
    pub fn here() -> (r: MultiLocation)
        ensures
            r == (MultiLocation { parents: 0, interior: Junctions::Here }),
    {
        MultiLocation { parents: 0, interior: Junctions::Here }
    }

    /// The parent (relay) chain.
    pub fn parent() -> (r: MultiLocation)
        ensures
            r == (MultiLocation { parents: 1, interior: Junctions::Here }),
    {
        MultiLocation { parents: 1, interior: Junctions::Here }
    }

    /// Whether this location is this chain itself.
    pub fn is_here(&self) -> (r: bool)
        ensures
            r == (*self == MultiLocation { parents: 0, interior: Junctions::Here }),
    {
        self.parents == 0 && match self.interior {
            Junctions::Here => true,
            _ => false,
        }
    }

    /// Number of hops up.
    pub fn parent_count(&self) -> (r: u8)
        ensures
            r == self.parents,
    {
        self.parents
    }

    /// The first junction of the interior path, if any.
    pub fn first_interior(&self) -> (r: Option<Junction>)
        ensures
            r == spec_first_interior(self.interior),
    {
        match self.interior {
            Junctions::Here => None,
            Junctions::X1(a) => Some(a),
            Junctions::X2(a, _) => Some(a),
            Junctions::X3(a, _, _) => Some(a),
        }
    }
}

/// The reserve chain of an asset named by `id`, as the reserve rule reads it: a sibling or
/// child parachain is its own reserve, anything else reached through the parent is reserved
/// by the parent, and everything else has no known reserve.
pub open spec fn spec_reserve(id: XcmAssetId) -> Option<MultiLocation> {
    match id {
        XcmAssetId::Concrete(loc) => {
            match (loc.parents, spec_first_interior(loc.interior)) {
                (0, Some(Junction::Parachain(p))) => Some(
                    MultiLocation { parents: 0, interior: Junctions::X1(Junction::Parachain(p)) },
                ),
                (1, Some(Junction::Parachain(p))) => Some(
                    MultiLocation { parents: 1, interior: Junctions::X1(Junction::Parachain(p)) },
                ),
                (1, _) => Some(MultiLocation { parents: 1, interior: Junctions::Here }),
                _ => None,
            }
        },
        XcmAssetId::Abstract(_) => None,
    }
}

/// Reserve chain of an asset.
pub trait Reserve {
    spec fn spec_reserve_of(&self) -> Option<MultiLocation>;

    /// Returns the asset's reserve location.
    fn reserve(&self) -> (r: Option<MultiLocation>)
        ensures
            r == self.spec_reserve_of(),
    ;
}

impl Reserve for MultiAsset {
    open spec fn spec_reserve_of(&self) -> Option<MultiLocation> {
        spec_reserve(self.id)
    }

    fn reserve(&self) -> (r: Option<MultiLocation>) {
        match self.id {
            XcmAssetId::Concrete(location) => {
                let first_interior = location.first_interior();
                let parents = location.parent_count();
                match (parents, first_interior) {
                    (0, Some(Junction::Parachain(id))) => Some(
                        MultiLocation::new(0, Junctions::X1(Junction::Parachain(id))),
                    ),
                    (1, Some(Junction::Parachain(id))) => Some(
                        MultiLocation::new(1, Junctions::X1(Junction::Parachain(id))),
                    ),
                    (1, _) => Some(MultiLocation::parent()),
                    _ => None,
                }
            },
            XcmAssetId::Abstract(_) => None,
        }
    }
}

/// Filter that accepts an asset from `origin` exactly when `origin` is the asset's reserve.
pub struct MultiNativeAsset;

impl MultiNativeAsset {
    pub fn filter_asset_location(asset: &MultiAsset, origin: &MultiLocation) -> (r: bool)
        ensures
            r == (spec_reserve(asset.id) == Some(*origin)),
    {
        match asset.reserve() {
            Some(r) => location_eq(&r, origin),
            None => false,
        }
    }
}

/// The location of a local account: this chain, then the account's 32 bytes on any network.
pub open spec fn spec_account_location(account: AccountId) -> MultiLocation {
    MultiLocation {
        parents: 0,
        interior: Junctions::X1(Junction::AccountId32 { network: NetworkId::Any, id: account }),
    }
}

/// The local account a location names, if it names one: exactly the locations that
/// `spec_account_location` produces.
pub open spec fn spec_location_account(location: MultiLocation) -> Option<AccountId> {
    match (location.parents, location.interior) {
        (0, Junctions::X1(Junction::AccountId32 { network: NetworkId::Any, id })) => Some(id),
        _ => None,
    }
}

/// Converts between local accounts and their locations.
pub struct AccountIdToMultiLocation;

impl AccountIdToMultiLocation {
    /// The location of `account`.
    pub fn convert(account: AccountId) -> (r: MultiLocation)
        ensures
            r == spec_account_location(account),
    {
        MultiLocation {
            parents: 0,
            interior: Junctions::X1(Junction::AccountId32 { network: NetworkId::Any, id: account }),
        }
    }

    /// The account at `location`; `None` where the location names no local account.
    pub fn reverse(location: &MultiLocation) -> (r: Option<AccountId>)
        ensures
            r == spec_location_account(*location),
    {
        if location.parents != 0 {
            return None;
        }
        match location.interior {
            Junctions::X1(Junction::AccountId32 { network: NetworkId::Any, id }) => Some(id),
            _ => None,
        }
    }
}

/// Converting an account to its location and back gives the account again, and a location
/// that names an account is that account's location.
pub proof fn lemma_account_location_round_trip(account: AccountId, location: MultiLocation)
    ensures
        spec_location_account(spec_account_location(account)) == Some(account),
        spec_location_account(location) matches Some(a) ==> spec_account_location(a) == location,
{
}

} // verus!
