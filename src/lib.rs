//! Transactional core of a virtual-land marketplace: minting land parcels,
//! listing them for sale and settling purchases with a marketplace fee.
//!
//! Every operation validates its inputs before it changes anything, and a
//! rejected operation leaves every record as it was.
use vstd::prelude::*;

pub mod identity;
pub mod state;
pub mod events;
pub mod validation;
pub mod fees;
pub mod instructions;
pub mod registry;

pub use events::{
    LandParcelMinted, ListingCancelled, MarketplaceFeeUpdated, MarketplaceInitialized,
    MetadataRequest, ParcelListed, ParcelSold, Transfer,
};
pub use fees::{compute_fee_split, FeeSplit};
pub use identity::Identity;
pub use instructions::{
    cancel_listing, initialize_marketplace, list_parcel_for_sale, mint_land_parcel,
    purchase_parcel, update_marketplace_fee, CancelListing, InitializeMarketplace,
    ListParcelForSale, MintLandParcel, MintedParcel, PurchaseParcel, Settlement,
    UpdateMarketplaceFee,
};
pub use registry::LandRegistry;
pub use state::{
    Coordinates, ErrorCode, LandParcel, Listing, ListingStatus, Marketplace, ParcelSize, Rarity,
};

verus! {

/// Largest accepted coordinate component.
pub const MAX_COORDINATE: i32 = 10000;

/// Smallest accepted coordinate component.
pub const MIN_COORDINATE: i32 = -10000;

/// Largest accepted metadata URI, in bytes.
pub const MAX_URI_LENGTH: usize = 200;

/// Largest accepted parcel name, in bytes.
pub const MAX_NAME_LENGTH: usize = 32;

/// The fee rate a marketplace is usually set up with (2.5%).
pub const MARKETPLACE_FEE_BASIS_POINTS: u16 = 250;

/// Highest fee rate a marketplace accepts (10%).
pub const MAX_FEE_BASIS_POINTS: u16 = 1000;

/// Basis points in a whole.
pub const BASIS_POINTS_DENOMINATOR: u64 = 10000;

/// Lowest price a parcel can be listed at.
pub const MIN_PRICE: u64 = 1_000_000;

/// Longest time a listing may stay open: 30 days, in seconds.
pub const LISTING_DURATION_SECONDS: i64 = 30 * 24 * 60 * 60;

} // verus!
