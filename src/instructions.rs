//! The six operations of the marketplace. Each takes the records it works on
//! in a context, checks everything first, and then either changes the
//! context as its contract states or returns one error and leaves the
//! context as it was.
use vstd::prelude::*;

use crate::events::{
    parcel_symbol, LandParcelMinted, ListingCancelled, MarketplaceFeeUpdated,
    MarketplaceInitialized, MetadataRequest, ParcelListed, ParcelSold, Transfer,
};
use crate::fees::{compute_fee_split, fee_of, split_fails};
use crate::identity::Identity;
use crate::state::{
    Coordinates, ErrorCode, LandParcel, Listing, ListingStatus, Marketplace, ParcelSize, Rarity,
};
use crate::validation::{
    check_expiry, check_fee, check_parcel_inputs, check_price, check_signer, expiry_error,
    fee_error, is_expired, listing_expired, parcel_input_error, price_error,
};

verus! {

/// The accounts of a purchase: the listing, the parcel it offers and the
/// marketplace, with the buyer who signed and the seller and treasury
/// balances that receive the payment.
#[derive(Debug)]
pub struct PurchaseParcel {
    pub listing: Listing,
    pub land_parcel: LandParcel,
    pub marketplace: Marketplace,
    pub buyer: Identity,
    pub seller: Identity,
    pub treasury: Identity,
}

/// What a settled purchase owes: the payment to the seller, then the fee to
/// the treasury when the fee is not zero.
#[derive(Clone, Copy, Debug)]
pub struct Settlement {
    pub to_seller: Transfer,
    pub to_treasury: Option<Transfer>,
    pub sold: ParcelSold,
}

/// The error of a purchase, in the order the checks run.
pub open spec fn purchase_error(ctx: PurchaseParcel, now: i64) -> Option<ErrorCode> {
    let price = ctx.listing.price;
    if ctx.seller != ctx.listing.seller {
        Some(ErrorCode::InvalidSeller)
    } else if ctx.treasury != ctx.marketplace.treasury {
        Some(ErrorCode::InvalidTreasury)
    } else if ctx.listing.status != ListingStatus::Active {
        Some(ErrorCode::ListingNotActive)
    } else if is_expired(ctx.listing, now) {
        Some(ErrorCode::ListingExpired)
    } else if split_fails(price, ctx.marketplace.fee_percentage) || ctx.land_parcel.total_trades
        == u32::MAX || ctx.marketplace.active_listings == 0 || ctx.marketplace.total_volume
        + price > u64::MAX {
        Some(ErrorCode::MathOverflow)
    } else {
        None
    }
}

/// The records after a successful purchase: the buyer owns the parcel, the
/// listing is sold, and the statistics count the sale.
pub open spec fn purchased(ctx: PurchaseParcel) -> PurchaseParcel {
    let price = ctx.listing.price;
    PurchaseParcel {
        listing: Listing { status: ListingStatus::Sold, ..ctx.listing },
        land_parcel: LandParcel {
            owner: ctx.buyer,
            is_listed: false,
            total_trades: (ctx.land_parcel.total_trades + 1) as u32,
            last_sale_price: price,
            ..ctx.land_parcel
        },
        marketplace: Marketplace {
            active_listings: (ctx.marketplace.active_listings - 1) as u32,
            total_volume: (ctx.marketplace.total_volume + price) as u64,
            ..ctx.marketplace
        },
        ..ctx
    }
}

/// The payments and the sale event of a successful purchase.
pub open spec fn settlement_of(ctx: PurchaseParcel) -> Settlement {
    let price = ctx.listing.price;
    let fee = fee_of(price, ctx.marketplace.fee_percentage);
    Settlement {
        to_seller: Transfer { from: ctx.buyer, to: ctx.listing.seller, lamports: (price - fee) as u64 },
        to_treasury: if fee > 0 {
            Some(Transfer { from: ctx.buyer, to: ctx.marketplace.treasury, lamports: fee as u64 })
        } else {
            None
        },
        sold: ParcelSold {
            mint: ctx.land_parcel.mint,
            seller: ctx.listing.seller,
            buyer: ctx.buyer,
            price,
            fee_amount: fee as u64,
        },
    }
}

/// Settles the purchase of an `Active`, unexpired listing at time `now`.
/// The environment carries out the returned transfers in order, together
/// with the record changes, or none of them.
pub fn purchase_parcel(ctx: &mut PurchaseParcel, now: i64) -> (r: Result<Settlement, ErrorCode>)
    ensures
        match r {
            Ok(s) => {
                &&& purchase_error(*old(ctx), now) is None
                &&& *final(ctx) == purchased(*old(ctx))
                &&& s == settlement_of(*old(ctx))
                &&& s.to_seller.lamports + s.sold.fee_amount == old(ctx).listing.price
            },
            Err(e) => {
                &&& purchase_error(*old(ctx), now) == Some(e)
                &&& *final(ctx) == *old(ctx)
            },
        },
{
    if let Err(e) = check_signer(&ctx.seller, &ctx.listing.seller, ErrorCode::InvalidSeller) {
        return Err(e);
    }
    if let Err(e) = check_signer(
        &ctx.treasury,
        &ctx.marketplace.treasury,
        ErrorCode::InvalidTreasury,
    ) {
        return Err(e);
    }
    if ctx.listing.status != ListingStatus::Active {
        return Err(ErrorCode::ListingNotActive);
    }
    if listing_expired(&ctx.listing, now) {
        return Err(ErrorCode::ListingExpired);
    }
    let price = ctx.listing.price;
    let split = match compute_fee_split(price, ctx.marketplace.fee_percentage) {
        Ok(s) => s,
        Err(e) => return Err(e),
    };
    let total_trades = match ctx.land_parcel.total_trades.checked_add(1) {
        Some(n) => n,
        None => return Err(ErrorCode::MathOverflow),
    };
    let active_listings = match ctx.marketplace.active_listings.checked_sub(1) {
        Some(n) => n,
        None => return Err(ErrorCode::MathOverflow),
    };
    let total_volume = match ctx.marketplace.total_volume.checked_add(price) {
        Some(n) => n,
        None => return Err(ErrorCode::MathOverflow),
    };

    ctx.land_parcel.owner = ctx.buyer;
    ctx.land_parcel.is_listed = false;
    ctx.land_parcel.total_trades = total_trades;
    ctx.land_parcel.last_sale_price = price;
    ctx.listing.status = ListingStatus::Sold;
    ctx.marketplace.active_listings = active_listings;
    ctx.marketplace.total_volume = total_volume;

    let to_seller = Transfer {
        from: ctx.buyer,
        to: ctx.listing.seller,
        lamports: split.seller_amount,
    };
    let to_treasury = if split.fee_amount > 0 {
        Some(Transfer { from: ctx.buyer, to: ctx.marketplace.treasury, lamports: split.fee_amount })
    } else {
        None
    };
    let sold = ParcelSold {
        mint: ctx.land_parcel.mint,
        seller: ctx.listing.seller,
        buyer: ctx.buyer,
        price,
        fee_amount: split.fee_amount,
    };
    Ok(Settlement { to_seller, to_treasury, sold })
}

/// A listing sells at most once: once a purchase has succeeded, the same
/// purchase on the resulting records fails with `ListingNotActive`, at any
/// later time.
pub proof fn lemma_purchase_succeeds_once(ctx: PurchaseParcel, now: i64, later: i64)
    requires
        purchase_error(ctx, now) is None,
    ensures
        purchase_error(purchased(ctx), later) == Some(ErrorCode::ListingNotActive),
{
}

/// Sold, cancelled and expired listings are final: neither a purchase nor a
/// cancellation succeeds on a listing whose status is not `Active`.
pub proof fn lemma_closed_listing_is_final(
    purchase: PurchaseParcel,
    cancel: CancelListing,
    now: i64,
)
    requires
        purchase.listing.status != ListingStatus::Active,
        cancel.listing.status != ListingStatus::Active,
    ensures
        purchase_error(purchase, now) is Some,
        cancel_error(cancel) is Some,
{
}

/// The accounts of a new listing: the parcel on offer and the marketplace,
/// with the parcel's owner and the seller who signed, and the address seed
/// of the listing record.
#[derive(Debug)]
pub struct ListParcelForSale {
    pub land_parcel: LandParcel,
    pub marketplace: Marketplace,
    pub owner: Identity,
    pub seller: Identity,
    pub bump: u8,
}

/// The error of a listing, in the order the checks run. Both the signing
/// owner and the seller must be the parcel's owner.
pub open spec fn list_error(
    ctx: ListParcelForSale,
    price: u64,
    expires_at: Option<i64>,
    now: i64,
) -> Option<ErrorCode> {
    if ctx.land_parcel.owner != ctx.owner {
        Some(ErrorCode::NotParcelOwner)
    } else if ctx.land_parcel.owner != ctx.seller {
        Some(ErrorCode::NotParcelOwner)
    } else if price_error(price) is Some {
        price_error(price)
    } else if expiry_error(expires_at, now) is Some {
        expiry_error(expires_at, now)
    } else if ctx.land_parcel.is_listed {
        Some(ErrorCode::AlreadyListed)
    } else if ctx.marketplace.active_listings == u32::MAX {
        Some(ErrorCode::MathOverflow)
    } else {
        None
    }
}

/// The context after a successful listing: the parcel is marked listed and
/// the marketplace counts one more active listing.
pub open spec fn listed(ctx: ListParcelForSale) -> ListParcelForSale {
    ListParcelForSale {
        land_parcel: LandParcel { is_listed: true, ..ctx.land_parcel },
        marketplace: Marketplace {
            active_listings: (ctx.marketplace.active_listings + 1) as u32,
            ..ctx.marketplace
        },
        ..ctx
    }
}

/// The listing record a successful listing creates.
pub open spec fn new_listing(
    ctx: ListParcelForSale,
    price: u64,
    expires_at: Option<i64>,
    now: i64,
) -> Listing {
    Listing {
        seller: ctx.seller,
        parcel_mint: ctx.land_parcel.mint,
        price,
        created_at: now,
        expires_at,
        status: ListingStatus::Active,
        bump: ctx.bump,
    }
}

/// Offers the parcel for sale at `price`, open until `expires_at` when one
/// is given. Returns the new `Active` listing and its event.
pub fn list_parcel_for_sale(
    ctx: &mut ListParcelForSale,
    price: u64,
    expires_at: Option<i64>,
    now: i64,
) -> (r: Result<(Listing, ParcelListed), ErrorCode>)
    ensures
        match r {
            Ok((listing, event)) => {
                &&& list_error(*old(ctx), price, expires_at, now) is None
                &&& listing.seller == old(ctx).land_parcel.owner
                &&& *final(ctx) == listed(*old(ctx))
                &&& listing == new_listing(*old(ctx), price, expires_at, now)
                &&& event == (ParcelListed {
                    mint: old(ctx).land_parcel.mint,
                    seller: old(ctx).seller,
                    price,
                    expires_at,
                })
            },
            Err(e) => {
                &&& list_error(*old(ctx), price, expires_at, now) == Some(e)
                &&& *final(ctx) == *old(ctx)
            },
        },
{
    if let Err(e) = check_signer(&ctx.owner, &ctx.land_parcel.owner, ErrorCode::NotParcelOwner) {
        return Err(e);
    }
    if let Err(e) = check_signer(&ctx.seller, &ctx.land_parcel.owner, ErrorCode::NotParcelOwner) {
        return Err(e);
    }
    if let Err(e) = check_price(price) {
        return Err(e);
    }
    if let Err(e) = check_expiry(expires_at, now) {
        return Err(e);
    }
    if ctx.land_parcel.is_listed {
        return Err(ErrorCode::AlreadyListed);
    }
    let active_listings = match ctx.marketplace.active_listings.checked_add(1) {
        Some(n) => n,
        None => return Err(ErrorCode::MathOverflow),
    };

    let listing = Listing {
        seller: ctx.seller,
        parcel_mint: ctx.land_parcel.mint,
        price,
        created_at: now,
        expires_at,
        status: ListingStatus::Active,
        bump: ctx.bump,
    };
    ctx.land_parcel.is_listed = true;
    ctx.marketplace.active_listings = active_listings;

    let event = ParcelListed { mint: ctx.land_parcel.mint, seller: ctx.seller, price, expires_at };
    Ok((listing, event))
}

/// The accounts of a cancellation: the listing, its parcel and the
/// marketplace, with the seller who signed.
#[derive(Debug)]
pub struct CancelListing {
    pub listing: Listing,
    pub land_parcel: LandParcel,
    pub marketplace: Marketplace,
    pub seller: Identity,
}

/// The error of a cancellation, in the order the checks run.
pub open spec fn cancel_error(ctx: CancelListing) -> Option<ErrorCode> {
    if ctx.listing.seller != ctx.seller {
        Some(ErrorCode::NotListingSeller)
    } else if ctx.listing.status != ListingStatus::Active {
        Some(ErrorCode::ListingNotActive)
    } else if ctx.marketplace.active_listings == 0 {
        Some(ErrorCode::MathOverflow)
    } else {
        None
    }
}

/// The records after a successful cancellation.
pub open spec fn cancelled(ctx: CancelListing) -> CancelListing {
    CancelListing {
        listing: Listing { status: ListingStatus::Cancelled, ..ctx.listing },
        land_parcel: LandParcel { is_listed: false, ..ctx.land_parcel },
        marketplace: Marketplace {
            active_listings: (ctx.marketplace.active_listings - 1) as u32,
            ..ctx.marketplace
        },
        ..ctx
    }
}

/// Withdraws an `Active` listing on behalf of its seller.
pub fn cancel_listing(ctx: &mut CancelListing) -> (r: Result<ListingCancelled, ErrorCode>)
    ensures
        match r {
            Ok(event) => {
                &&& cancel_error(*old(ctx)) is None
                &&& *final(ctx) == cancelled(*old(ctx))
                &&& event == (ListingCancelled {
                    mint: old(ctx).land_parcel.mint,
                    seller: old(ctx).listing.seller,
                })
            },
            Err(e) => {
                &&& cancel_error(*old(ctx)) == Some(e)
                &&& *final(ctx) == *old(ctx)
            },
        },
{
    if let Err(e) = check_signer(&ctx.seller, &ctx.listing.seller, ErrorCode::NotListingSeller) {
        return Err(e);
    }
    if ctx.listing.status != ListingStatus::Active {
        return Err(ErrorCode::ListingNotActive);
    }
    let active_listings = match ctx.marketplace.active_listings.checked_sub(1) {
        Some(n) => n,
        None => return Err(ErrorCode::MathOverflow),
    };
    ctx.listing.status = ListingStatus::Cancelled;
    ctx.land_parcel.is_listed = false;
    ctx.marketplace.active_listings = active_listings;
    Ok(ListingCancelled { mint: ctx.land_parcel.mint, seller: ctx.listing.seller })
}

/// The accounts of a new parcel: the marketplace, the identifier of the new
/// parcel, its owner and the payer who signed.
#[derive(Debug)]
pub struct MintLandParcel {
    pub marketplace: Marketplace,
    pub mint: Identity,
    pub owner: Identity,
    pub payer: Identity,
}

/// What minting produces: the parcel record, its event and the metadata the
/// environment must create for it in the same operation.
#[derive(Debug)]
pub struct MintedParcel {
    pub land_parcel: LandParcel,
    pub event: LandParcelMinted,
    pub metadata: MetadataRequest,
}

/// The error of a mint, in the order the checks run.
pub open spec fn mint_error(
    ctx: MintLandParcel,
    coordinates: Coordinates,
    name: Seq<char>,
    uri: Seq<char>,
) -> Option<ErrorCode> {
    if parcel_input_error(coordinates, name, uri) is Some {
        parcel_input_error(coordinates, name, uri)
    } else if ctx.marketplace.total_parcels_minted == u64::MAX {
        Some(ErrorCode::MathOverflow)
    } else {
        None
    }
}

/// The parcel record a successful mint creates.
pub open spec fn minted_parcel(
    ctx: MintLandParcel,
    coordinates: Coordinates,
    size: ParcelSize,
    rarity: Rarity,
    uri: String,
    now: i64,
) -> LandParcel {
    LandParcel {
        mint: ctx.mint,
        owner: ctx.owner,
        coordinates,
        size,
        rarity,
        metadata_uri: uri,
        created_at: now,
        is_listed: false,
        total_trades: 0,
        last_sale_price: 0,
    }
}

/// Creates a parcel at `coordinates`, unlisted and never traded, owned by
/// the context's owner.
pub fn mint_land_parcel(
    ctx: &mut MintLandParcel,
    coordinates: Coordinates,
    size: ParcelSize,
    rarity: Rarity,
    name: String,
    uri: String,
    now: i64,
) -> (r: Result<MintedParcel, ErrorCode>)
    ensures
        match r {
            Ok(m) => {
                &&& mint_error(*old(ctx), coordinates, name@, uri@) is None
                &&& *final(ctx) == (MintLandParcel {
                    marketplace: Marketplace {
                        total_parcels_minted: (old(ctx).marketplace.total_parcels_minted
                            + 1) as u64,
                        ..old(ctx).marketplace
                    },
                    ..*old(ctx)
                })
                &&& m.land_parcel == minted_parcel(*old(ctx), coordinates, size, rarity, uri, now)
                &&& m.event == (LandParcelMinted {
                    mint: old(ctx).mint,
                    owner: old(ctx).owner,
                    coordinates,
                    size,
                    rarity,
                })
                &&& m.metadata.mint == old(ctx).mint
                &&& m.metadata.payer == old(ctx).payer
                &&& m.metadata.name@ == name@
                &&& m.metadata.symbol@ == parcel_symbol()
                &&& m.metadata.uri@ == uri@
                &&& m.metadata.seller_fee_basis_points == 0
                &&& !m.metadata.is_mutable
                &&& m.metadata.update_authority_is_signer
            },
            Err(e) => {
                &&& mint_error(*old(ctx), coordinates, name@, uri@) == Some(e)
                &&& *final(ctx) == *old(ctx)
            },
        },
{
    if let Err(e) = check_parcel_inputs(&coordinates, &name, &uri) {
        return Err(e);
    }
    let minted = match ctx.marketplace.total_parcels_minted.checked_add(1) {
        Some(n) => n,
        None => return Err(ErrorCode::MathOverflow),
    };
    ctx.marketplace.total_parcels_minted = minted;

    let metadata = MetadataRequest {
        mint: ctx.mint,
        payer: ctx.payer,
        name,
        symbol: String::from_str("LAND"),
        uri: uri.clone(),
        seller_fee_basis_points: 0,
        is_mutable: false,
        update_authority_is_signer: true,
    };
    let land_parcel = LandParcel {
        mint: ctx.mint,
        owner: ctx.owner,
        coordinates,
        size,
        rarity,
        metadata_uri: uri,
        created_at: now,
        is_listed: false,
        total_trades: 0,
        last_sale_price: 0,
    };
    let event = LandParcelMinted { mint: ctx.mint, owner: ctx.owner, coordinates, size, rarity };
    Ok(MintedParcel { land_parcel, event, metadata })
}

/// The accounts of the marketplace's creation: the authority who signed,
/// the treasury, the payer and the address seed of the record.
#[derive(Clone, Copy, Debug)]
pub struct InitializeMarketplace {
    pub authority: Identity,
    pub treasury: Identity,
    pub payer: Identity,
    pub bump: u8,
}

/// The marketplace record as created, with every counter at zero.
pub open spec fn new_marketplace(ctx: InitializeMarketplace, fee_percentage: u16) -> Marketplace {
    Marketplace {
        authority: ctx.authority,
        fee_percentage,
        treasury: ctx.treasury,
        total_volume: 0,
        active_listings: 0,
        total_parcels_minted: 0,
        bump: ctx.bump,
    }
}

/// Creates the marketplace with the given fee rate.
pub fn initialize_marketplace(ctx: &InitializeMarketplace, fee_percentage: u16) -> (r: Result<
    (Marketplace, MarketplaceInitialized),
    ErrorCode,
>)
    ensures
        match r {
            Ok((marketplace, event)) => {
                &&& fee_error(fee_percentage) is None
                &&& marketplace == new_marketplace(*ctx, fee_percentage)
                &&& event == (MarketplaceInitialized {
                    authority: ctx.authority,
                    fee_percentage,
                    treasury: ctx.treasury,
                })
            },
            Err(e) => fee_error(fee_percentage) == Some(e),
        },
{
    if let Err(e) = check_fee(fee_percentage) {
        return Err(e);
    }
    let marketplace = Marketplace {
        authority: ctx.authority,
        fee_percentage,
        treasury: ctx.treasury,
        total_volume: 0,
        active_listings: 0,
        total_parcels_minted: 0,
        bump: ctx.bump,
    };
    let event = MarketplaceInitialized {
        authority: ctx.authority,
        fee_percentage,
        treasury: ctx.treasury,
    };
    Ok((marketplace, event))
}

/// The accounts of a fee change: the marketplace and the identity who
/// signed.
#[derive(Clone, Copy, Debug)]
pub struct UpdateMarketplaceFee {
    pub marketplace: Marketplace,
    pub authority: Identity,
}

/// The error of a fee change, in the order the checks run.
pub open spec fn update_fee_error(ctx: UpdateMarketplaceFee, new_fee_percentage: u16) -> Option<
    ErrorCode,
> {
    if ctx.marketplace.authority != ctx.authority {
        Some(ErrorCode::NotMarketplaceAuthority)
    } else {
        fee_error(new_fee_percentage)
    }
}

/// Replaces the fee rate, on behalf of the marketplace's authority only.
pub fn update_marketplace_fee(ctx: &mut UpdateMarketplaceFee, new_fee_percentage: u16) -> (r:
    Result<MarketplaceFeeUpdated, ErrorCode>)
    ensures
        match r {
            Ok(event) => {
                &&& update_fee_error(*old(ctx), new_fee_percentage) is None
                &&& *final(ctx) == (UpdateMarketplaceFee {
                    marketplace: Marketplace {
                        fee_percentage: new_fee_percentage,
                        ..old(ctx).marketplace
                    },
                    ..*old(ctx)
                })
                &&& event == (MarketplaceFeeUpdated {
                    old_fee: old(ctx).marketplace.fee_percentage,
                    new_fee: new_fee_percentage,
                })
            },
            Err(e) => {
                &&& update_fee_error(*old(ctx), new_fee_percentage) == Some(e)
                &&& *final(ctx) == *old(ctx)
            },
        },
{
    if let Err(e) = check_signer(
        &ctx.authority,
        &ctx.marketplace.authority,
        ErrorCode::NotMarketplaceAuthority,
    ) {
        return Err(e);
    }
    if let Err(e) = check_fee(new_fee_percentage) {
        return Err(e);
    }
    let old_fee = ctx.marketplace.fee_percentage;
    ctx.marketplace.fee_percentage = new_fee_percentage;
    Ok(MarketplaceFeeUpdated { old_fee, new_fee: new_fee_percentage })
}

/// A listing created with an expiry cannot be bought after that time, even
/// though its status still reads `Active`; at the expiry time itself it can.
/// The purchase names the listing's seller and the marketplace's treasury.
pub proof fn lemma_expired_listing_rejected(
    list: ListParcelForSale,
    price: u64,
    expiry: i64,
    listed_at: i64,
    purchase: PurchaseParcel,
    now: i64,
)
    requires
        list_error(list, price, Some(expiry), listed_at) is None,
        purchase.listing == new_listing(list, price, Some(expiry), listed_at),
        purchase.seller == purchase.listing.seller,
        purchase.treasury == purchase.marketplace.treasury,
        now > expiry,
    ensures
        purchase.listing.status == ListingStatus::Active,
        purchase_error(purchase, now) == Some(ErrorCode::ListingExpired),
        !is_expired(purchase.listing, expiry),
{
}

/// After a cancellation the listing reads `Cancelled`, its parcel is no
/// longer marked listed, and a purchase of that listing fails with
/// `ListingNotActive`. The purchase names the listing's seller and the
/// marketplace's treasury.
pub proof fn lemma_no_purchase_after_cancel(
    cancel: CancelListing,
    purchase: PurchaseParcel,
    now: i64,
)
    requires
        cancel_error(cancel) is None,
        purchase.listing == cancelled(cancel).listing,
        purchase.seller == purchase.listing.seller,
        purchase.treasury == purchase.marketplace.treasury,
    ensures
        cancelled(cancel).listing.status == ListingStatus::Cancelled,
        !cancelled(cancel).land_parcel.is_listed,
        purchase_error(purchase, now) == Some(ErrorCode::ListingNotActive),
{
}

} // verus!
