//! Asset metadata, the registry interface, and the binding of asset ids to locations.
use vstd::prelude::*;

use crate::ledger::{AssetId, Balance};
use crate::location::{location_eq, MultiLocation, Junctions};

verus! {

/// Carries an asset id type.
pub trait AssetIdType {
    type AssetId;
}

/// Carries a balance type.
pub trait BalanceType {
    type Balance;
}

/// Carries a location type.
pub trait LocationType {
    type Location;
}

/// Metadata that every registered fungible asset has.
pub trait AssetMetadata: BalanceType + AssetIdType {
    /// Minimum balance an account must hold of this asset.
    fn min_balance(&self) -> &Self::Balance;

    /// Whether a balance of this asset alone keeps an account alive.
    fn is_sufficient(&self) -> bool;

    /// The asset's id.
    fn asset_id(&self) -> &Self::AssetId;
}

/// Name, symbol and display data of a fungible asset.
#[derive(Clone, Debug, PartialEq, Eq)]
pub struct FungibleAssetStorageMetadata {
    pub name: Vec<u8>,
    pub symbol: Vec<u8>,
    pub decimals: u8,
    /// Whether transfers of the asset are suspended.
    pub is_frozen: bool,
}

/// Name and identity of a non-fungible item.
#[derive(Clone, Debug, PartialEq, Eq)]
pub struct NonFungibleAssetStorageMetadata<CollectionId, ItemId> {
    pub name: Vec<u8>,
    pub info: Vec<u8>,
    pub collection_id: CollectionId,
    pub item_id: ItemId,
}

/// Registry metadata of a fungible asset.
#[derive(Clone, Debug, PartialEq, Eq)]
pub struct AssetRegistryMetadata<B, A> {
    pub metadata: FungibleAssetStorageMetadata,
    pub asset_id: A,
    pub min_balance: B,
    /// Whether a non-zero balance of this asset alone pays for the account's storage; a fresh
    /// account cannot receive an insufficient asset.
    pub is_sufficient: bool,
}

impl<B, A> BalanceType for AssetRegistryMetadata<B, A> {
    type Balance = B;
}

impl<B, A> AssetIdType for AssetRegistryMetadata<B, A> {
    type AssetId = A;
}

impl<B, A> AssetMetadata for AssetRegistryMetadata<B, A> {
    fn min_balance(&self) -> (r: &B)
        ensures
            *r == self.min_balance,
    {
        &self.min_balance
    }

    fn is_sufficient(&self) -> (r: bool)
        ensures
            r == self.is_sufficient,
    {
        self.is_sufficient
    }

    fn asset_id(&self) -> (r: &A)
        ensures
            *r == self.asset_id,
    {
        &self.asset_id
    }
}


/// Fungible-or-not view of asset data.
pub trait IsFungible<AssetId, CollectionId, ItemId> {
    /// Whether the data describes a fungible asset.
    fn is_fungible(&self) -> bool;

    /// The id of a fungible asset.
    fn get_fungible_id(&self) -> Option<&AssetId>;

    /// The collection and item of a non-fungible asset.
    fn get_non_fungible_id(&self) -> Option<(&CollectionId, &ItemId)>;
}

/// Builds identifiers of fungible and non-fungible assets.
pub trait IdentifierMapping<AssetId, CollectionId, ItemId>: Sized {
    /// Identifier of a fungible asset.
    fn new_fungible(asset_id: AssetId) -> Self;

    /// Identifier of a non-fungible item.
    fn new_non_fungible(collection_id: CollectionId, item_id: ItemId) -> Self;
}

/// Stored metadata of a fungible or a non-fungible asset.
#[derive(Clone, Debug, PartialEq, Eq)]
pub enum AssetStorageMetadata<Balance, AssetId, CollectionId, ItemId> {
    Fungible(AssetRegistryMetadata<Balance, AssetId>),
    NonFungible(NonFungibleAssetStorageMetadata<CollectionId, ItemId>),
}

/// Identifier of a fungible asset or of a non-fungible item.
#[derive(Debug, PartialEq, Eq)]
pub enum AssetIdMapping<AssetId, CollectionId, ItemId> {
    Fungible(AssetId),
    NonFungible((CollectionId, ItemId)),
}

impl<A, C, I> AssetIdMapping<A, C, I> {
    /// The identifier that `metadata` describes.
    pub fn from_metadata<B>(metadata: AssetStorageMetadata<B, A, C, I>) -> (r: Self)
        ensures
            match metadata {
                AssetStorageMetadata::Fungible(m) => r == AssetIdMapping::<A, C, I>::Fungible(
                    m.asset_id,
                ),
                AssetStorageMetadata::NonFungible(m) => r == AssetIdMapping::<A, C, I>::NonFungible(
                    (m.collection_id, m.item_id),
                ),
            },
    {
        match metadata {
            AssetStorageMetadata::Fungible(meta) => AssetIdMapping::Fungible(meta.asset_id),
            AssetStorageMetadata::NonFungible(meta) => AssetIdMapping::NonFungible(
                (meta.collection_id, meta.item_id),
            ),
        }
    }
}

impl<A, C, I> IdentifierMapping<A, C, I> for AssetIdMapping<A, C, I> {
    fn new_fungible(asset_id: A) -> (r: Self)
        ensures
            r == AssetIdMapping::<A, C, I>::Fungible(asset_id),
    {
        AssetIdMapping::Fungible(asset_id)
    }

    fn new_non_fungible(collection_id: C, item_id: I) -> (r: Self)
        ensures
            r == AssetIdMapping::<A, C, I>::NonFungible((collection_id, item_id)),
    {
        AssetIdMapping::NonFungible((collection_id, item_id))
    }
}

impl<A, C, I> IsFungible<A, C, I> for AssetIdMapping<A, C, I> {
    fn is_fungible(&self) -> (r: bool)
        ensures
            r == self is Fungible,
    {
        match self {
            AssetIdMapping::Fungible(_) => true,
            AssetIdMapping::NonFungible(_) => false,
        }
    }

    fn get_fungible_id(&self) -> (r: Option<&A>)
        ensures
            match *self {
                AssetIdMapping::Fungible(a) => r == Some(&a),
                AssetIdMapping::NonFungible(_) => r is None,
            },
    {
        match self {
            AssetIdMapping::Fungible(asset_id) => Some(asset_id),
            AssetIdMapping::NonFungible(_) => None,
        }
    }

    fn get_non_fungible_id(&self) -> (r: Option<(&C, &I)>)
        ensures
            match *self {
                AssetIdMapping::Fungible(_) => r is None,
                AssetIdMapping::NonFungible((c, i)) => r == Some((&c, &i)),
            },
    {
        match self {
            AssetIdMapping::Fungible(_) => None,
            AssetIdMapping::NonFungible((collection_id, item_id)) => Some((collection_id, item_id)),
        }
    }
}

impl<B, A, C, I> AssetStorageMetadata<B, A, C, I> {
    /// Stored metadata of a fungible asset.
    pub fn from_registry_metadata(source: AssetRegistryMetadata<B, A>) -> (r: Self)
        ensures
            r == AssetStorageMetadata::<B, A, C, I>::Fungible(source),
    {
        AssetStorageMetadata::Fungible(source)
    }
}

impl<B, A, C, I> IsFungible<A, C, I> for AssetStorageMetadata<B, A, C, I> {
    fn is_fungible(&self) -> (r: bool)
        ensures
            r == self is Fungible,
    {
        match self {
            AssetStorageMetadata::Fungible(_) => true,
            AssetStorageMetadata::NonFungible(_) => false,
        }
    }

    fn get_fungible_id(&self) -> (r: Option<&A>)
        ensures
            match *self {
                AssetStorageMetadata::Fungible(m) => r == Some(&m.asset_id),
                AssetStorageMetadata::NonFungible(_) => r is None,
            },
    {
        match self {
            AssetStorageMetadata::Fungible(meta) => Some(&meta.asset_id),
            AssetStorageMetadata::NonFungible(_) => None,
        }
    }

    fn get_non_fungible_id(&self) -> (r: Option<(&C, &I)>)
        ensures
            match *self {
                AssetStorageMetadata::Fungible(_) => r is None,
                AssetStorageMetadata::NonFungible(m) => r == Some((&m.collection_id, &m.item_id)),
            },
    {
        match self {
            AssetStorageMetadata::Fungible(_) => None,
            AssetStorageMetadata::NonFungible(meta) => Some((&meta.collection_id, &meta.item_id)),
        }
    }
}

/// Existential deposit of the default testing asset.
pub const TEST_DEFAULT_ASSET_ED: Balance = 1;

/// Metadata to use in tests and benchmarks, where no value is an obvious default.
pub trait TestingDefault: Sized {
    fn testing_default() -> Self;
}

impl TestingDefault for AssetRegistryMetadata<Balance, AssetId> {
    fn testing_default() -> (r: Self)
        ensures
            r.metadata.name@ == seq![68u8, 101, 102, 97, 117, 108, 116],
            r.metadata.symbol@ == seq![68u8, 69, 70],
            r.metadata.decimals == 12,
            !r.metadata.is_frozen,
            r.asset_id == 0,
            r.min_balance == TEST_DEFAULT_ASSET_ED,
            r.is_sufficient,
    {
        AssetRegistryMetadata {
            metadata: FungibleAssetStorageMetadata {
                name: vec![68u8, 101, 102, 97, 117, 108, 116],
                symbol: vec![68u8, 69, 70],
                decimals: 12,
                is_frozen: false,
            },
            asset_id: 0,
            min_balance: TEST_DEFAULT_ASSET_ED,
            is_sufficient: true,
        }
    }
}

/// A location in one of the wire formats: `V0` is the legacy format, which this chain no
/// longer resolves, `V1` the current one.
#[derive(Clone, Copy, Debug, PartialEq, Eq)]
pub enum VersionedMultiLocation {
    V0(MultiLocation),
    V1(MultiLocation),
}

/// Where an asset's reserve lives, as the registry stores it.
#[derive(Clone, Copy, Debug, PartialEq, Eq)]
pub struct AssetLocation(pub VersionedMultiLocation);

impl Default for AssetLocation {
    /// This chain itself.
    fn default() -> (r: Self)
        ensures
            r == AssetLocation(
                VersionedMultiLocation::V1(MultiLocation { parents: 0, interior: Junctions::Here }),
            ),
    {
        AssetLocation(
            VersionedMultiLocation::V1(MultiLocation { parents: 0, interior: Junctions::Here }),
        )
    }
}

/// The registry form of a current-format location.
pub open spec fn spec_asset_location(location: MultiLocation) -> AssetLocation {
    AssetLocation(VersionedMultiLocation::V1(location))
}

/// The current-format location held, if it is one.
pub open spec fn spec_current_location(location: AssetLocation) -> Option<MultiLocation> {
    match location.0 {
        VersionedMultiLocation::V1(l) => Some(l),
        VersionedMultiLocation::V0(_) => None,
    }
}

impl AssetLocation {
    /// Wraps a current-format location; it need not be registered.
    pub fn from_location(location: MultiLocation) -> (r: Self)
        ensures
            r == spec_asset_location(location),
    {
        AssetLocation(VersionedMultiLocation::V1(location))
    }

    /// The current-format location held, or `None` for a legacy one.
    pub fn into_location(self) -> (r: Option<MultiLocation>)
        ensures
            r == spec_current_location(self),
    {
        match self.0 {
            VersionedMultiLocation::V1(location) => Some(location),
            VersionedMultiLocation::V0(_) => None,
        }
    }

    /// Executable equality.
    pub fn same_as(&self, other: &AssetLocation) -> (r: bool)
        ensures
            r == (*self == *other),
    {
        match (self.0, other.0) {
            (VersionedMultiLocation::V0(a), VersionedMultiLocation::V0(b)) => location_eq(&a, &b),
            (VersionedMultiLocation::V1(a), VersionedMultiLocation::V1(b)) => location_eq(&a, &b),
            _ => false,
        }
    }
}

/// Binding between asset ids and their locations.
pub trait AssetIdLocationMap {
    /// What `location` returns.
    spec fn spec_location(&self, asset_id: AssetId) -> Option<AssetLocation>;

    /// What `asset_id` returns.
    spec fn spec_asset_id(&self, location: AssetLocation) -> Option<AssetId>;

    /// The location of `asset_id`.
    fn location(&self, asset_id: &AssetId) -> (r: Option<AssetLocation>)
        ensures
            r == self.spec_location(*asset_id),
    ;

    /// The asset id located at `location`.
    fn asset_id(&self, location: &AssetLocation) -> (r: Option<AssetId>)
        ensures
            r == self.spec_asset_id(*location),
    ;
}

/// Price of execution time per asset.
pub trait UnitsPerSecond {
    /// What `units_per_second` returns.
    spec fn spec_units_per_second(&self, asset_id: AssetId) -> Option<u128>;

    /// Minimal units of `asset_id` that pay for one second of execution.
    fn units_per_second(&self, asset_id: &AssetId) -> (r: Option<u128>)
        ensures
            r == self.spec_units_per_second(*asset_id),
    ;
}

/// Converts between wire locations and asset ids through a registry.
pub struct AssetIdLocationConvert;

impl AssetIdLocationConvert {
    /// The asset id registered at `location`.
    pub fn convert_ref<M: AssetIdLocationMap>(registry: &M, location: &MultiLocation) -> (r: Result<
        AssetId,
        (),
    >)
        ensures
            match registry.spec_asset_id(spec_asset_location(*location)) {
                Some(id) => r == Ok::<AssetId, ()>(id),
                None => r is Err,
            },
    {
        match registry.asset_id(&AssetLocation::from_location(*location)) {
            Some(id) => Ok(id),
            None => Err(()),
        }
    }

    /// The current-format location registered for `asset_id`.
    pub fn reverse_ref<M: AssetIdLocationMap>(registry: &M, asset_id: &AssetId) -> (r: Result<
        MultiLocation,
        (),
    >)
        ensures
            match registry.spec_location(*asset_id) {
                Some(l) => match spec_current_location(l) {
                    Some(m) => r == Ok::<MultiLocation, ()>(m),
                    None => r is Err,
                },
                None => r is Err,
            },
    {
        match registry.location(asset_id) {
            Some(l) => match l.into_location() {
                Some(m) => Ok(m),
                None => Err(()),
            },
            None => Err(()),
        }
    }
}

} // verus!
