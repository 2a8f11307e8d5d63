//! The marketplace as one aggregate: the marketplace record, every parcel and
//! every listing, passed explicitly to each operation. Its well-formedness
//! ties the records together: the count of active listings is exact, and a
//! parcel is marked listed exactly when one active listing offers it.
use vstd::prelude::*;

use crate::events::{
    parcel_symbol, LandParcelMinted, ListingCancelled, MarketplaceFeeUpdated,
    MarketplaceInitialized, ParcelListed,
};
use crate::identity::Identity;
use crate::instructions::{
    cancel_error, cancel_listing, cancelled, initialize_marketplace, list_error,
    list_parcel_for_sale, listed, mint_error, mint_land_parcel, minted_parcel, new_listing, new_marketplace,
    purchase_error, purchase_parcel, purchased, settlement_of, update_fee_error,
    update_marketplace_fee, CancelListing, InitializeMarketplace, ListParcelForSale,
    MintLandParcel, MintedParcel, PurchaseParcel, Settlement, UpdateMarketplaceFee,
};
use crate::state::{
    Coordinates, ErrorCode, LandParcel, Listing, ListingStatus, Marketplace, ParcelSize, Rarity,
};
use crate::MAX_FEE_BASIS_POINTS;

verus! {

/// Number of listings of `ls` that satisfy `f`.
pub open spec fn count_matching(ls: Seq<Listing>, f: spec_fn(Listing) -> bool) -> nat
    decreases ls.len(),
{
    if ls.len() == 0 {
        0
    } else {
        count_matching(ls.drop_last(), f) + if f(ls.last()) {
            1nat
        } else {
            0nat
        }
    }
}

pub open spec fn is_active(l: Listing) -> bool {
    l.status == ListingStatus::Active
}

/// Holds of the active listings that offer the parcel `mint`.
pub open spec fn active_on(mint: Identity) -> spec_fn(Listing) -> bool {
    |l: Listing| is_active(l) && l.parcel_mint == mint
}

pub open spec fn mints(parcels: Seq<LandParcel>) -> Seq<Identity> {
    parcels.map_values(|p: LandParcel| p.mint)
}

/// The records of the whole marketplace.
pub struct RegistryView {
    pub marketplace: Marketplace,
    pub parcels: Seq<LandParcel>,
    pub listings: Seq<Listing>,
}

impl RegistryView {
    /// The marketplace counts exactly the listings whose status is `Active`.
    pub open spec fn active_count_exact(self) -> bool {
        self.marketplace.active_listings == count_matching(self.listings, |l: Listing| is_active(l))
    }

    /// No parcel has two active listings, and a parcel is marked listed
    /// exactly when one active listing offers it.
    pub open spec fn listed_flags_exact(self) -> bool {
        forall|i: int|
            0 <= i < self.parcels.len() ==> {
                &&& count_matching(self.listings, active_on(#[trigger] self.parcels[i].mint)) <= 1
                &&& (self.parcels[i].is_listed <==> count_matching(
                    self.listings,
                    active_on(self.parcels[i].mint),
                ) == 1)
            }
    }

    /// Parcel identifiers are unique and every listing offers a known parcel.
    pub open spec fn references_valid(self) -> bool {
        &&& mints(self.parcels).no_duplicates()
        &&& forall|k: int|
            0 <= k < self.listings.len() ==> mints(self.parcels).contains(
                #[trigger] self.listings[k].parcel_mint,
            )
    }

    pub open spec fn wf(self) -> bool {
        &&& self.marketplace.fee_percentage <= MAX_FEE_BASIS_POINTS
        &&& self.active_count_exact()
        &&& self.listed_flags_exact()
        &&& self.references_valid()
    }

    /// The records a listing of the parcel at position `i` works on.
    pub open spec fn list_context(
        self,
        i: int,
        owner: Identity,
        seller: Identity,
        bump: u8,
    ) -> ListParcelForSale {
        ListParcelForSale {
            land_parcel: self.parcels[i],
            marketplace: self.marketplace,
            owner,
            seller,
            bump,
        }
    }

    /// The records a purchase of the listing at position `k` works on.
    pub open spec fn purchase_context(
        self,
        k: int,
        buyer: Identity,
        seller: Identity,
        treasury: Identity,
    ) -> PurchaseParcel {
        PurchaseParcel {
            listing: self.listings[k],
            land_parcel: self.parcels[self.parcel_position(self.listings[k].parcel_mint)],
            marketplace: self.marketplace,
            buyer,
            seller,
            treasury,
        }
    }

    /// The records a cancellation of the listing at position `k` works on.
    pub open spec fn cancel_context(self, k: int, seller: Identity) -> CancelListing {
        CancelListing {
            listing: self.listings[k],
            land_parcel: self.parcels[self.parcel_position(self.listings[k].parcel_mint)],
            marketplace: self.marketplace,
            seller,
        }
    }

    /// Position of the parcel whose identifier is `mint`.
    pub open spec fn parcel_position(self, mint: Identity) -> int {
        choose|i: int| 0 <= i < self.parcels.len() && self.parcels[i].mint == mint
    }
}

proof fn lemma_count_push(ls: Seq<Listing>, x: Listing, f: spec_fn(Listing) -> bool)
    ensures
        count_matching(ls.push(x), f) == count_matching(ls, f) + if f(x) {
            1nat
        } else {
            0nat
        },
{
    assert(ls.push(x).drop_last() =~= ls);
}

proof fn lemma_count_update(ls: Seq<Listing>, i: int, x: Listing, f: spec_fn(Listing) -> bool)
    requires
        0 <= i < ls.len(),
    ensures
        count_matching(ls.update(i, x), f) + (if f(ls[i]) {
            1nat
        } else {
            0nat
        }) == count_matching(ls, f) + (if f(x) {
            1nat
        } else {
            0nat
        }),
    decreases ls.len(),
{
    let u = ls.update(i, x);
    if i == ls.len() - 1 {
        assert(u.drop_last() =~= ls.drop_last());
    } else {
        assert(u.drop_last() =~= ls.drop_last().update(i, x));
        lemma_count_update(ls.drop_last(), i, x, f);
    }
}

proof fn lemma_count_none(ls: Seq<Listing>, f: spec_fn(Listing) -> bool)
    requires
        forall|k: int| 0 <= k < ls.len() ==> !f(#[trigger] ls[k]),
    ensures
        count_matching(ls, f) == 0,
    decreases ls.len(),
{
    if ls.len() > 0 {
        lemma_count_none(ls.drop_last(), f);
    }
}

proof fn lemma_position(v: RegistryView, i: int)
    requires
        v.references_valid(),
        0 <= i < v.parcels.len(),
    ensures
        v.parcel_position(v.parcels[i].mint) == i,
{
    let m = v.parcels[i].mint;
    assert(mints(v.parcels)[i] == m);
    let j = v.parcel_position(m);
    assert(mints(v.parcels)[j] == m);
}

/// Closing an active listing (by sale or cancellation) keeps the aggregate
/// well-formed when the marketplace counts one active listing less and the
/// listing's parcel is no longer marked listed.
proof fn lemma_close_listing(old_view: RegistryView, v: RegistryView, k: int, p: int)
    requires
        old_view.wf(),
        0 <= k < old_view.listings.len(),
        0 <= p < old_view.parcels.len(),
        old_view.parcels[p].mint == old_view.listings[k].parcel_mint,
        is_active(old_view.listings[k]),
        !is_active(v.listings[k]),
        v.listings == old_view.listings.update(k, v.listings[k]),
        v.listings[k].parcel_mint == old_view.listings[k].parcel_mint,
        v.parcels == old_view.parcels.update(p, v.parcels[p]),
        v.parcels[p].mint == old_view.parcels[p].mint,
        !v.parcels[p].is_listed,
        v.marketplace.fee_percentage == old_view.marketplace.fee_percentage,
        v.marketplace.active_listings == old_view.marketplace.active_listings - 1,
    ensures
        v.wf(),
{
    let m = old_view.parcels[p].mint;
    let closed = v.listings[k];
    assert(mints(v.parcels) =~= mints(old_view.parcels));
    lemma_count_update(old_view.listings, k, closed, |l: Listing| is_active(l));
    assert forall|j: int| 0 <= j < v.listings.len() implies mints(v.parcels).contains(
        #[trigger] v.listings[j].parcel_mint,
    ) by {
        assert(old_view.listings[j].parcel_mint == v.listings[j].parcel_mint);
    }
    assert forall|i: int| 0 <= i < v.parcels.len() implies {
        &&& count_matching(v.listings, active_on(#[trigger] v.parcels[i].mint)) <= 1
        &&& (v.parcels[i].is_listed <==> count_matching(v.listings, active_on(v.parcels[i].mint))
            == 1)
    } by {
        lemma_count_update(old_view.listings, k, closed, active_on(v.parcels[i].mint));
        if i != p {
            assert(mints(old_view.parcels)[i] == old_view.parcels[i].mint);
            assert(mints(old_view.parcels)[p] == m);
        }
    }
}

/// In a well-formed registry every active listing is counted, so its seller
/// can always cancel it.
pub proof fn lemma_active_listing_cancellable(v: RegistryView, k: int)
    requires
        v.wf(),
        0 <= k < v.listings.len(),
        is_active(v.listings[k]),
    ensures
        v.marketplace.active_listings >= 1,
        cancel_error(v.cancel_context(k, v.listings[k].seller)) is None,
{
    let closed = Listing { status: ListingStatus::Cancelled, ..v.listings[k] };
    lemma_count_update(v.listings, k, closed, |l: Listing| is_active(l));
}

/// The marketplace, its parcels and its listings, kept well-formed by every
/// operation.
#[derive(Debug)]
pub struct LandRegistry {
    marketplace: Marketplace,
    parcels: Vec<LandParcel>,
    listings: Vec<Listing>,
}

impl View for LandRegistry {
    type V = RegistryView;

    closed spec fn view(&self) -> RegistryView {
        RegistryView {
            marketplace: self.marketplace,
            parcels: self.parcels@,
            listings: self.listings@,
        }
    }
}

impl LandRegistry {
    /// Creates the marketplace with no parcels and no listings.
    pub fn new(ctx: &InitializeMarketplace, fee_percentage: u16) -> (r: Result<
        (LandRegistry, MarketplaceInitialized),
        ErrorCode,
    >)
        ensures
            match r {
                Ok((reg, event)) => {
                    &&& reg@.wf()
                    &&& reg@.marketplace == new_marketplace(*ctx, fee_percentage)
                    &&& reg@.parcels.len() == 0
                    &&& reg@.listings.len() == 0
                    &&& event == (MarketplaceInitialized {
                        authority: ctx.authority,
                        fee_percentage,
                        treasury: ctx.treasury,
                    })
                },
                Err(e) => e == ErrorCode::FeeTooHigh && fee_percentage > MAX_FEE_BASIS_POINTS,
            },
    {
        match initialize_marketplace(ctx, fee_percentage) {
            Ok((marketplace, event)) => {
                let reg = LandRegistry { marketplace, parcels: Vec::new(), listings: Vec::new() };
                proof {
                    assert(mints(reg@.parcels) =~= Seq::<Identity>::empty());
                }
                Ok((reg, event))
            },
            Err(e) => Err(e),
        }
    }

    pub fn marketplace(&self) -> (r: &Marketplace)
        ensures
            *r == self@.marketplace,
    {
        &self.marketplace
    }

    pub fn parcels(&self) -> (r: &Vec<LandParcel>)
        ensures
            r@ == self@.parcels,
    {
        &self.parcels
    }

    pub fn listings(&self) -> (r: &Vec<Listing>)
        ensures
            r@ == self@.listings,
    {
        &self.listings
    }

    /// Finds the parcel whose identifier is `mint`.
    pub fn find_parcel(&self, mint: &Identity) -> (r: Option<usize>)
        ensures
            match r {
                Some(i) => i < self@.parcels.len() && self@.parcels[i as int].mint == *mint,
                None => !mints(self@.parcels).contains(*mint),
            },
    {
        let mut i: usize = 0;
        while i < self.parcels.len()
            invariant
                0 <= i <= self.parcels@.len(),
                forall|j: int| 0 <= j < i ==> self.parcels@[j].mint != *mint,
            decreases self.parcels@.len() - i,
        {
            if self.parcels[i].mint.same_as(mint) {
                return Some(i);
            }
            i += 1;
        }
        proof {
            if mints(self@.parcels).contains(*mint) {
                let j = choose|j: int| 0 <= j < mints(self@.parcels).len() && mints(self@.parcels)[j] == *mint;
                assert(self.parcels@[j].mint == *mint);
            }
        }
        None
    }

    /// Mints a parcel under the fresh identifier `mint`; see
    /// `mint_land_parcel`.
    pub fn mint_parcel(
        &mut self,
        mint: Identity,
        owner: Identity,
        payer: Identity,
        coordinates: Coordinates,
        size: ParcelSize,
        rarity: Rarity,
        name: String,
        uri: String,
        now: i64,
    ) -> (r: Result<MintedParcel, ErrorCode>)
        requires
            old(self)@.wf(),
            !mints(old(self)@.parcels).contains(mint),
        ensures
            final(self)@.wf(),
            ({
                let ctx = MintLandParcel { marketplace: old(self)@.marketplace, mint, owner, payer };
                match r {
                    Ok(m) => {
                        &&& mint_error(ctx, coordinates, name@, uri@) is None
                        &&& m.land_parcel == minted_parcel(ctx, coordinates, size, rarity, uri, now)
                        &&& m.event == (LandParcelMinted {
                            mint,
                            owner,
                            coordinates,
                            size,
                            rarity,
                        })
                        &&& m.metadata.mint == mint
                        &&& m.metadata.payer == payer
                        &&& m.metadata.name@ == name@
                        &&& m.metadata.symbol@ == parcel_symbol()
                        &&& m.metadata.uri@ == uri@
                        &&& m.metadata.seller_fee_basis_points == 0
                        &&& !m.metadata.is_mutable
                        &&& m.metadata.update_authority_is_signer
                        &&& final(self)@ == (RegistryView {
                            marketplace: Marketplace {
                                total_parcels_minted: (old(self)@.marketplace.total_parcels_minted
                                    + 1) as u64,
                                ..old(self)@.marketplace
                            },
                            parcels: old(self)@.parcels.push(m.land_parcel),
                            ..old(self)@
                        })
                    },
                    Err(e) => {
                        &&& mint_error(ctx, coordinates, name@, uri@) == Some(e)
                        &&& final(self)@ == old(self)@
                    },
                }
            }),
    {
        let mut ctx = MintLandParcel { marketplace: self.marketplace, mint, owner, payer };
        match mint_land_parcel(&mut ctx, coordinates, size, rarity, name, uri, now) {
            Ok(m) => {
                let ghost old_view = self@;
                self.marketplace = ctx.marketplace;
                self.parcels.push(m.land_parcel.clone());
                proof {
                    let v = self@;
                    let ms = mints(v.parcels);
                    let old_ms = mints(old_view.parcels);
                    assert(ms =~= old_ms.push(mint));
                    assert forall|i: int, j: int|
                        0 <= i < ms.len() && 0 <= j < ms.len() && i != j implies ms[i]
                        != ms[j] by {
                        if i < old_ms.len() && j < old_ms.len() {
                            assert(old_ms[i] != old_ms[j]);
                        } else if i < old_ms.len() {
                            assert(old_ms.contains(old_ms[i]));
                        } else {
                            assert(old_ms.contains(old_ms[j]));
                        }
                    }
                    assert forall|k: int| 0 <= k < v.listings.len() implies ms.contains(
                        #[trigger] v.listings[k].parcel_mint,
                    ) by {
                        let w = choose|w: int|
                            0 <= w < old_ms.len() && old_ms[w] == v.listings[k].parcel_mint;
                        assert(ms[w] == old_ms[w]);
                    }
                    assert forall|k: int|
                        0 <= k < v.listings.len() implies !active_on(mint)(
                            #[trigger] v.listings[k],
                        ) by {
                        assert(mints(old_view.parcels).contains(v.listings[k].parcel_mint));
                    }
                    lemma_count_none(v.listings, active_on(mint));
                    assert forall|i: int| 0 <= i < v.parcels.len() implies {
                        &&& count_matching(v.listings, active_on(#[trigger] v.parcels[i].mint))
                            <= 1
                        &&& (v.parcels[i].is_listed <==> count_matching(
                            v.listings,
                            active_on(v.parcels[i].mint),
                        ) == 1)
                    } by {
                        if i < old_view.parcels.len() {
                            assert(v.parcels[i] == old_view.parcels[i]);
                        }
                    }
                }
                Ok(m)
            },
            Err(e) => Err(e),
        }
    }

    /// Offers the parcel at position `parcel` for sale; see
    /// `list_parcel_for_sale`. The new listing goes last.
    pub fn list(
        &mut self,
        parcel: usize,
        owner: Identity,
        seller: Identity,
        price: u64,
        expires_at: Option<i64>,
        now: i64,
        bump: u8,
    ) -> (r: Result<ParcelListed, ErrorCode>)
        requires
            old(self)@.wf(),
            parcel < old(self)@.parcels.len(),
        ensures
            final(self)@.wf(),
            ({
                let ctx = old(self)@.list_context(parcel as int, owner, seller, bump);
                match r {
                    Ok(event) => {
                        &&& list_error(ctx, price, expires_at, now) is None
                        &&& final(self)@ == (RegistryView {
                            marketplace: listed(ctx).marketplace,
                            parcels: old(self)@.parcels.update(
                                parcel as int,
                                listed(ctx).land_parcel,
                            ),
                            listings: old(self)@.listings.push(
                                new_listing(ctx, price, expires_at, now),
                            ),
                        })
                        &&& event == (ParcelListed {
                            mint: ctx.land_parcel.mint,
                            seller,
                            price,
                            expires_at,
                        })
                    },
                    Err(e) => {
                        &&& list_error(ctx, price, expires_at, now) == Some(e)
                        &&& final(self)@ == old(self)@
                    },
                }
            }),
    {
        let mut ctx = ListParcelForSale {
            land_parcel: self.parcels[parcel].clone(),
            marketplace: self.marketplace,
            owner,
            seller,
            bump,
        };
        match list_parcel_for_sale(&mut ctx, price, expires_at, now) {
            Ok((listing, event)) => {
                let ghost old_view = self@;
                let ListParcelForSale { land_parcel, marketplace, .. } = ctx;
                self.marketplace = marketplace;
                self.parcels.set(parcel, land_parcel);
                self.listings.push(listing);
                proof {
                    let v = self@;
                    let m = old_view.parcels[parcel as int].mint;
                    assert(mints(v.parcels) =~= mints(old_view.parcels));
                    assert(mints(old_view.parcels)[parcel as int] == m);
                    assert forall|k: int| 0 <= k < v.listings.len() implies mints(
                        v.parcels,
                    ).contains(#[trigger] v.listings[k].parcel_mint) by {
                        if k < old_view.listings.len() {
                            assert(v.listings[k] == old_view.listings[k]);
                        }
                    }
                    lemma_count_push(old_view.listings, listing, |l: Listing| is_active(l));
                    assert(v.listings =~= old_view.listings.push(listing));
                    assert forall|i: int| 0 <= i < v.parcels.len() implies {
                        &&& count_matching(v.listings, active_on(#[trigger] v.parcels[i].mint))
                            <= 1
                        &&& (v.parcels[i].is_listed <==> count_matching(
                            v.listings,
                            active_on(v.parcels[i].mint),
                        ) == 1)
                    } by {
                        lemma_count_push(old_view.listings, listing, active_on(v.parcels[i].mint));
                        if i != parcel {
                            assert(mints(old_view.parcels)[i] == old_view.parcels[i].mint);
                        }
                    }
                }
                Ok(event)
            },
            Err(e) => Err(e),
        }
    }

    /// Position of the parcel that the listing at position `k` offers.
    fn parcel_of_listing(&self, k: usize) -> (p: usize)
        requires
            self@.wf(),
            k < self@.listings.len(),
        ensures
            p < self@.parcels.len(),
            p == self@.parcel_position(self@.listings[k as int].parcel_mint),
            self@.parcels[p as int].mint == self@.listings[k as int].parcel_mint,
    {
        let mint = self.listings[k].parcel_mint;
        match self.find_parcel(&mint) {
            Some(p) => {
                proof {
                    lemma_position(self@, p as int);
                }
                p
            },
            None => {
                proof {
                    assert(mints(self@.parcels).contains(self@.listings[k as int].parcel_mint));
                }
                0
            },
        }
    }

    /// Buys the listing at position `listing`; see `purchase_parcel`.
    pub fn purchase(
        &mut self,
        listing: usize,
        buyer: Identity,
        seller: Identity,
        treasury: Identity,
        now: i64,
    ) -> (r: Result<Settlement, ErrorCode>)
        requires
            old(self)@.wf(),
            listing < old(self)@.listings.len(),
        ensures
            final(self)@.wf(),
            ({
                let ctx = old(self)@.purchase_context(listing as int, buyer, seller, treasury);
                let p = old(self)@.parcel_position(old(self)@.listings[listing as int].parcel_mint);
                match r {
                    Ok(s) => {
                        &&& purchase_error(ctx, now) is None
                        &&& s == settlement_of(ctx)
                        &&& final(self)@ == (RegistryView {
                            marketplace: purchased(ctx).marketplace,
                            parcels: old(self)@.parcels.update(p, purchased(ctx).land_parcel),
                            listings: old(self)@.listings.update(
                                listing as int,
                                purchased(ctx).listing,
                            ),
                        })
                    },
                    Err(e) => {
                        &&& purchase_error(ctx, now) == Some(e)
                        &&& final(self)@ == old(self)@
                    },
                }
            }),
    {
        let p = self.parcel_of_listing(listing);
        let mut ctx = PurchaseParcel {
            listing: self.listings[listing],
            land_parcel: self.parcels[p].clone(),
            marketplace: self.marketplace,
            buyer,
            seller,
            treasury,
        };
        match purchase_parcel(&mut ctx, now) {
            Ok(settlement) => {
                let ghost old_view = self@;
                let PurchaseParcel { listing: sold, land_parcel, marketplace, .. } = ctx;
                self.marketplace = marketplace;
                self.parcels.set(p, land_parcel);
                self.listings.set(listing, sold);
                proof {
                    lemma_close_listing(old_view, self@, listing as int, p as int);
                }
                Ok(settlement)
            },
            Err(e) => Err(e),
        }
    }

    /// Withdraws the listing at position `listing`; see `cancel_listing`.
    pub fn cancel(&mut self, listing: usize, seller: Identity) -> (r: Result<
        ListingCancelled,
        ErrorCode,
    >)
        requires
            old(self)@.wf(),
            listing < old(self)@.listings.len(),
        ensures
            final(self)@.wf(),
            ({
                let ctx = old(self)@.cancel_context(listing as int, seller);
                let p = old(self)@.parcel_position(old(self)@.listings[listing as int].parcel_mint);
                match r {
                    Ok(event) => {
                        &&& cancel_error(ctx) is None
                        &&& event == (ListingCancelled {
                            mint: ctx.land_parcel.mint,
                            seller: ctx.listing.seller,
                        })
                        &&& final(self)@ == (RegistryView {
                            marketplace: cancelled(ctx).marketplace,
                            parcels: old(self)@.parcels.update(p, cancelled(ctx).land_parcel),
                            listings: old(self)@.listings.update(
                                listing as int,
                                cancelled(ctx).listing,
                            ),
                        })
                    },
                    Err(e) => {
                        &&& cancel_error(ctx) == Some(e)
                        &&& final(self)@ == old(self)@
                    },
                }
            }),
    {
        let p = self.parcel_of_listing(listing);
        let mut ctx = CancelListing {
            listing: self.listings[listing],
            land_parcel: self.parcels[p].clone(),
            marketplace: self.marketplace,
            seller,
        };
        match cancel_listing(&mut ctx) {
            Ok(event) => {
                let ghost old_view = self@;
                let CancelListing { listing: closed, land_parcel, marketplace, .. } = ctx;
                self.marketplace = marketplace;
                self.parcels.set(p, land_parcel);
                self.listings.set(listing, closed);
                proof {
                    lemma_close_listing(old_view, self@, listing as int, p as int);
                }
                Ok(event)
            },
            Err(e) => Err(e),
        }
    }

    /// Changes the fee rate; see `update_marketplace_fee`.
    pub fn update_fee(&mut self, authority: Identity, new_fee_percentage: u16) -> (r: Result<
        MarketplaceFeeUpdated,
        ErrorCode,
    >)
        requires
            old(self)@.wf(),
        ensures
            final(self)@.wf(),
            ({
                let ctx = UpdateMarketplaceFee { marketplace: old(self)@.marketplace, authority };
                match r {
                    Ok(event) => {
                        &&& update_fee_error(ctx, new_fee_percentage) is None
                        &&& final(self)@ == (RegistryView {
                            marketplace: Marketplace {
                                fee_percentage: new_fee_percentage,
                                ..old(self)@.marketplace
                            },
                            ..old(self)@
                        })
                        &&& event.old_fee == old(self)@.marketplace.fee_percentage
                        &&& event.new_fee == new_fee_percentage
                    },
                    Err(e) => {
                        &&& update_fee_error(ctx, new_fee_percentage) == Some(e)
                        &&& final(self)@ == old(self)@
                    },
                }
            }),
    {
        let mut ctx = UpdateMarketplaceFee { marketplace: self.marketplace, authority };
        let r = update_marketplace_fee(&mut ctx, new_fee_percentage);
        self.marketplace = ctx.marketplace;
        r
    }
}

} // verus!
