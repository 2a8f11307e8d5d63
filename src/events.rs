//! What the operations hand back to their environment: the notification
//! events, the value transfers of a sale and the metadata of a new parcel.
use vstd::prelude::*;

use crate::identity::Identity;
use crate::state::{Coordinates, ParcelSize, Rarity};

verus! {

#[derive(Clone, Copy, Debug)]
pub struct MarketplaceInitialized {
    pub authority: Identity,
    pub fee_percentage: u16,
    pub treasury: Identity,
}

#[derive(Clone, Copy, Debug)]
pub struct LandParcelMinted {
    pub mint: Identity,
    pub owner: Identity,
    pub coordinates: Coordinates,
    pub size: ParcelSize,
    pub rarity: Rarity,
}

#[derive(Clone, Copy, Debug)]
pub struct ParcelListed {
    pub mint: Identity,
    pub seller: Identity,
    pub price: u64,
    pub expires_at: Option<i64>,
}

#[derive(Clone, Copy, Debug)]
pub struct ParcelSold {
    pub mint: Identity,
    pub seller: Identity,
    pub buyer: Identity,
    pub price: u64,
    pub fee_amount: u64,
}

#[derive(Clone, Copy, Debug)]
pub struct ListingCancelled {
    pub mint: Identity,
    pub seller: Identity,
}

#[derive(Clone, Copy, Debug)]
pub struct MarketplaceFeeUpdated {
    pub old_fee: u16,
    pub new_fee: u16,
}

/// A movement of value between two balances.
#[derive(Clone, Copy, Debug)]
pub struct Transfer {
    pub from: Identity,
    pub to: Identity,
    pub lamports: u64,
}

/// The descriptive metadata to be created for a newly minted parcel.
#[derive(Debug)]
pub struct MetadataRequest {
    pub mint: Identity,
    /// Pays for the record and holds the mint and update authority.
    pub payer: Identity,
    pub name: String,
    pub symbol: String,
    pub uri: String,
    /// Royalty on secondary sales, always 0.
    pub seller_fee_basis_points: u16,
    pub is_mutable: bool,
    pub update_authority_is_signer: bool,
}

/// The symbol every parcel's metadata carries.
pub open spec fn parcel_symbol() -> Seq<char> {
    "LAND"@
}

} // verus!
