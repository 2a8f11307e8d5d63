//! The persistent records of the marketplace and the errors that reject an
//! operation.
use vstd::prelude::*;

use crate::identity::Identity;

verus! {

/// Grid position of a parcel.
#[derive(Clone, Copy, Debug, PartialEq, Eq, Structural)]
pub struct Coordinates {
    pub x: i32,
    pub y: i32,
}

#[derive(Clone, Copy, Debug, PartialEq, Eq, Structural)]
pub enum ParcelSize {
    Small,
    Medium,
    Large,
    XLarge,
}

#[derive(Clone, Copy, Debug, PartialEq, Eq, Structural)]
pub enum Rarity {
    Common,
    Uncommon,
    Rare,
    Epic,
    Legendary,
}

/// Where a listing stands. Only `Active` listings can be bought or cancelled;
/// the other states are final.
#[derive(Clone, Copy, Debug, PartialEq, Eq, Structural)]
pub enum ListingStatus {
    Active,
    Sold,
    Cancelled,
    Expired,
}

/// The singleton configuration and statistics record.
#[derive(Clone, Copy, Debug)]
pub struct Marketplace {
    /// The only identity allowed to change the fee.
    pub authority: Identity,
    /// Fee rate in basis points.
    pub fee_percentage: u16,
    /// Receives the fee of every sale.
    pub treasury: Identity,
    /// Sum of the prices of all settled purchases.
    pub total_volume: u64,
    /// Number of listings whose status is `Active`.
    pub active_listings: u32,
    pub total_parcels_minted: u64,
    /// Address seed chosen by the environment for this record.
    pub bump: u8,
}

/// One minted unit of land.
#[derive(Debug)]
pub struct LandParcel {
    /// The parcel's unique identifier.
    pub mint: Identity,
    pub owner: Identity,
    pub coordinates: Coordinates,
    pub size: ParcelSize,
    pub rarity: Rarity,
    pub metadata_uri: String,
    pub created_at: i64,
    /// Whether an `Active` listing refers to this parcel.
    pub is_listed: bool,
    /// Number of completed sales.
    pub total_trades: u32,
    /// Price of the most recent sale, 0 before the first one.
    pub last_sale_price: u64,
}

impl Clone for LandParcel {
    fn clone(&self) -> (r: LandParcel)
        ensures
            r == *self,
    {
        LandParcel {
            mint: self.mint,
            owner: self.owner,
            coordinates: self.coordinates,
            size: self.size,
            rarity: self.rarity,
            metadata_uri: self.metadata_uri.clone(),
            created_at: self.created_at,
            is_listed: self.is_listed,
            total_trades: self.total_trades,
            last_sale_price: self.last_sale_price,
        }
    }
}

/// An offer to sell one parcel at a fixed price.
#[derive(Clone, Copy, Debug)]
pub struct Listing {
    pub seller: Identity,
    /// The `mint` of the parcel on offer.
    pub parcel_mint: Identity,
    pub price: u64,
    pub created_at: i64,
    /// After this time the listing can no longer be bought.
    pub expires_at: Option<i64>,
    pub status: ListingStatus,
    /// Address seed chosen by the environment for this record.
    pub bump: u8,
}

/// Why an operation was rejected.
#[derive(Clone, Copy, Debug, PartialEq, Eq, Structural)]
pub enum ErrorCode {
    InvalidCoordinates,
    NameTooLong,
    UriTooLong,
    FeeTooHigh,
    PriceTooLow,
    InvalidExpiryTime,
    ExpiryTooFar,
    AlreadyListed,
    ListingNotActive,
    ListingExpired,
    NotParcelOwner,
    NotListingSeller,
    InvalidSeller,
    InvalidTreasury,
    NotMarketplaceAuthority,
    MathOverflow,
}

impl ErrorCode {
    /// The human-readable message of the error.
    pub fn message(&self) -> (r: &'static str)
        ensures
            r@ == match *self {
                ErrorCode::InvalidCoordinates => "Invalid coordinates provided"@,
                ErrorCode::NameTooLong => "Name is too long"@,
                ErrorCode::UriTooLong => "URI is too long"@,
                ErrorCode::FeeTooHigh => "Fee percentage is too high"@,
                ErrorCode::PriceTooLow => "Price is too low"@,
                ErrorCode::InvalidExpiryTime => "Invalid expiry time"@,
                ErrorCode::ExpiryTooFar => "Expiry time is too far in the future"@,
                ErrorCode::AlreadyListed => "Parcel is already listed for sale"@,
                ErrorCode::ListingNotActive => "Listing is not active"@,
                ErrorCode::ListingExpired => "Listing has expired"@,
                ErrorCode::NotParcelOwner => "Not the owner of this parcel"@,
                ErrorCode::NotListingSeller => "Not the seller of this listing"@,
                ErrorCode::InvalidSeller => "Invalid seller"@,
                ErrorCode::InvalidTreasury => "Invalid treasury"@,
                ErrorCode::NotMarketplaceAuthority => "Not the marketplace authority"@,
                ErrorCode::MathOverflow => "Math overflow"@,
            },
    {
        match self {
            ErrorCode::InvalidCoordinates => "Invalid coordinates provided",
            ErrorCode::NameTooLong => "Name is too long",
            ErrorCode::UriTooLong => "URI is too long",
            ErrorCode::FeeTooHigh => "Fee percentage is too high",
            ErrorCode::PriceTooLow => "Price is too low",
            ErrorCode::InvalidExpiryTime => "Invalid expiry time",
            ErrorCode::ExpiryTooFar => "Expiry time is too far in the future",
            ErrorCode::AlreadyListed => "Parcel is already listed for sale",
            ErrorCode::ListingNotActive => "Listing is not active",
            ErrorCode::ListingExpired => "Listing has expired",
            ErrorCode::NotParcelOwner => "Not the owner of this parcel",
            ErrorCode::NotListingSeller => "Not the seller of this listing",
            ErrorCode::InvalidSeller => "Invalid seller",
            ErrorCode::InvalidTreasury => "Invalid treasury",
            ErrorCode::NotMarketplaceAuthority => "Not the marketplace authority",
            ErrorCode::MathOverflow => "Math overflow",
        }
    }
}

} // verus!
