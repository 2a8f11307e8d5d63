use moqayada::{
    Coordinates, ErrorCode, Identity, InitializeMarketplace, LandRegistry, ListingStatus,
    ParcelSize, Rarity, MIN_PRICE,
};

const NOW: i64 = 1_700_000_000;

fn id(n: u8) -> Identity {
    Identity::new([n; 32])
}

fn authority() -> Identity {
    id(1)
}
fn treasury() -> Identity {
    id(2)
}
fn seller() -> Identity {
    id(3)
}
fn buyer() -> Identity {
    id(4)
}
fn parcel_mint() -> Identity {
    id(9)
}

fn registry(fee: u16) -> LandRegistry {
    let ctx = InitializeMarketplace {
        authority: authority(),
        treasury: treasury(),
        payer: authority(),
        bump: 254,
    };
    LandRegistry::new(&ctx, fee).unwrap().0
}

/// A registry with one parcel at (100, 200), Medium and Rare, owned by the seller.
fn registry_with_parcel(fee: u16) -> LandRegistry {
    let mut reg = registry(fee);
    reg.mint_parcel(
        parcel_mint(),
        seller(),
        seller(),
        Coordinates { x: 100, y: 200 },
        ParcelSize::Medium,
        Rarity::Rare,
        "Plot".to_string(),
        "https://example.com/plot.json".to_string(),
        NOW,
    )
    .unwrap();
    reg
}

#[test]
fn full_sale_pays_seller_and_treasury() {
    let mut reg = registry_with_parcel(250);
    reg.list(0, seller(), seller(), 2_000_000, None, NOW, 255).unwrap();
    assert_eq!(reg.marketplace().active_listings, 1);
    let volume_before = reg.marketplace().total_volume;

    let s = reg.purchase(0, buyer(), seller(), treasury(), NOW + 5).unwrap();
    assert_eq!(s.to_seller.lamports, 1_950_000);
    assert_eq!(s.to_seller.from, buyer());
    assert_eq!(s.to_seller.to, seller());
    let fee = s.to_treasury.unwrap();
    assert_eq!(fee.lamports, 50_000);
    assert_eq!(fee.to, treasury());
    assert_eq!(s.sold.fee_amount, 50_000);
    assert_eq!(s.sold.price, 2_000_000);

    let m = reg.marketplace();
    assert_eq!(m.total_volume, volume_before + 2_000_000);
    assert_eq!(m.active_listings, 0);
    let p = &reg.parcels()[0];
    assert_eq!(p.owner, buyer());
    assert_eq!(p.total_trades, 1);
    assert_eq!(p.last_sale_price, 2_000_000);
    assert!(!p.is_listed);
    assert_eq!(reg.listings()[0].status, ListingStatus::Sold);
}

#[test]
fn second_purchase_of_same_listing_fails() {
    let mut reg = registry_with_parcel(250);
    reg.list(0, seller(), seller(), 3_000_000, None, NOW, 255).unwrap();
    assert!(reg.purchase(0, buyer(), seller(), treasury(), NOW).is_ok());
    let r = reg.purchase(0, id(5), seller(), treasury(), NOW);
    assert_eq!(r.unwrap_err(), ErrorCode::ListingNotActive);
    assert_eq!(reg.parcels()[0].owner, buyer());
    assert_eq!(reg.parcels()[0].total_trades, 1);
    assert_eq!(reg.marketplace().total_volume, 3_000_000);
}

#[test]
fn expired_listing_cannot_be_bought() {
    let mut reg = registry_with_parcel(250);
    reg.list(0, seller(), seller(), 2_000_000, Some(NOW + 60), NOW, 255).unwrap();
    let r = reg.purchase(0, buyer(), seller(), treasury(), NOW + 61);
    assert_eq!(r.unwrap_err(), ErrorCode::ListingExpired);
    assert_eq!(reg.listings()[0].status, ListingStatus::Active);
    assert!(reg.parcels()[0].is_listed);
    assert_eq!(reg.marketplace().active_listings, 1);
    // At the expiry time itself the listing can still be bought.
    assert!(reg.purchase(0, buyer(), seller(), treasury(), NOW + 60).is_ok());
}

#[test]
fn cancelled_listing_cannot_be_bought() {
    let mut reg = registry_with_parcel(250);
    reg.list(0, seller(), seller(), 2_000_000, None, NOW, 255).unwrap();
    let ev = reg.cancel(0, seller()).unwrap();
    assert_eq!(ev.mint, parcel_mint());
    assert_eq!(ev.seller, seller());
    assert_eq!(reg.listings()[0].status, ListingStatus::Cancelled);
    assert!(!reg.parcels()[0].is_listed);
    assert_eq!(reg.marketplace().active_listings, 0);
    let r = reg.purchase(0, buyer(), seller(), treasury(), NOW);
    assert_eq!(r.unwrap_err(), ErrorCode::ListingNotActive);
}

#[test]
fn non_owner_cannot_list() {
    let mut reg = registry_with_parcel(250);
    let r = reg.list(0, id(7), id(7), 2_000_000, None, NOW, 255);
    assert_eq!(r.unwrap_err(), ErrorCode::NotParcelOwner);
    assert_eq!(reg.listings().len(), 0);
    assert_eq!(reg.marketplace().active_listings, 0);
    assert_eq!(reg.marketplace().total_parcels_minted, 1);
    assert!(!reg.parcels()[0].is_listed);
}

#[test]
fn relisting_after_cancel_creates_a_new_listing() {
    let mut reg = registry_with_parcel(250);
    reg.list(0, seller(), seller(), 2_000_000, None, NOW, 255).unwrap();
    assert_eq!(
        reg.list(0, seller(), seller(), 2_000_000, None, NOW, 255).unwrap_err(),
        ErrorCode::AlreadyListed
    );
    reg.cancel(0, seller()).unwrap();
    reg.list(0, seller(), seller(), 4_000_000, None, NOW + 1, 255).unwrap();
    assert_eq!(reg.listings().len(), 2);
    assert_eq!(reg.listings()[1].price, 4_000_000);
    assert_eq!(reg.listings()[1].status, ListingStatus::Active);
    assert_eq!(reg.marketplace().active_listings, 1);
    assert!(reg.parcels()[0].is_listed);
}

#[test]
fn active_count_tracks_every_operation() {
    let mut reg = registry_with_parcel(0);
    reg.mint_parcel(
        id(10),
        seller(),
        seller(),
        Coordinates { x: -10000, y: 10000 },
        ParcelSize::XLarge,
        Rarity::Legendary,
        "Corner".to_string(),
        "".to_string(),
        NOW,
    )
    .unwrap();
    reg.list(0, seller(), seller(), MIN_PRICE, None, NOW, 1).unwrap();
    reg.list(1, seller(), seller(), MIN_PRICE, None, NOW, 2).unwrap();
    assert_eq!(reg.marketplace().active_listings, 2);
    let s = reg.purchase(1, buyer(), seller(), treasury(), NOW).unwrap();
    // A zero fee rate sends nothing to the treasury.
    assert!(s.to_treasury.is_none());
    assert_eq!(s.to_seller.lamports, MIN_PRICE);
    assert_eq!(reg.marketplace().active_listings, 1);
    reg.cancel(0, seller()).unwrap();
    assert_eq!(reg.marketplace().active_listings, 0);
    let active = reg
        .listings()
        .iter()
        .filter(|l| l.status == ListingStatus::Active)
        .count();
    assert_eq!(active, 0);
}

#[test]
fn find_parcel_by_identifier() {
    let reg = registry_with_parcel(250);
    assert_eq!(reg.find_parcel(&parcel_mint()), Some(0));
    assert_eq!(reg.find_parcel(&id(77)), None);
}

#[test]
fn registry_fee_update_requires_authority() {
    let mut reg = registry(250);
    assert_eq!(reg.update_fee(seller(), 100).unwrap_err(), ErrorCode::NotMarketplaceAuthority);
    assert_eq!(reg.update_fee(authority(), 1001).unwrap_err(), ErrorCode::FeeTooHigh);
    assert_eq!(reg.marketplace().fee_percentage, 250);
    let ev = reg.update_fee(authority(), 1000).unwrap();
    assert_eq!(ev.old_fee, 250);
    assert_eq!(ev.new_fee, 1000);
    assert_eq!(reg.marketplace().fee_percentage, 1000);
}

#[test]
fn registry_rejects_fee_above_ten_percent() {
    let ctx = InitializeMarketplace {
        authority: authority(),
        treasury: treasury(),
        payer: authority(),
        bump: 1,
    };
    assert_eq!(LandRegistry::new(&ctx, 1001).unwrap_err(), ErrorCode::FeeTooHigh);
    let (reg, ev) = LandRegistry::new(&ctx, 1000).unwrap();
    assert_eq!(ev.fee_percentage, 1000);
    assert_eq!(reg.marketplace().fee_percentage, 1000);
    assert_eq!(reg.parcels().len(), 0);
}

#[test]
fn owner_cannot_list_for_another_seller() {
    let mut reg = registry_with_parcel(250);
    let r = reg.list(0, seller(), id(7), 2_000_000, None, NOW, 255);
    assert_eq!(r.unwrap_err(), ErrorCode::NotParcelOwner);
    assert_eq!(reg.listings().len(), 0);
    assert_eq!(reg.marketplace().active_listings, 0);
}
