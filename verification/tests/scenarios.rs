use discount_platform::errors::CouponError;
use discount_platform::identity::Identity;
use discount_platform::ledger::catalog::{create_coupon_promotion, initialize, register_merchant};
use discount_platform::ledger::coupons::{mint_coupon, redeem_coupon, transfer_coupon};
use discount_platform::ledger::exchange::{buy_listed_coupon, cancel_listing, list_coupon_for_sale};
use discount_platform::ledger::rewards::mint_badge;
use discount_platform::ledger::social::{add_comment, like_comment, rate_promotion};
use discount_platform::ledger::Ledger;
use discount_platform::state::badge::{BadgeType, ReputationTier};
use discount_platform::state::location::GeoCell;
use discount_platform::store::PairKey;

const NOW: i64 = 1_700_000_000;
const EXPIRY: i64 = NOW + 86_400;

fn id(n: u8) -> Identity {
    Identity::new([n; 32])
}

fn authority() -> Identity {
    id(1)
}

fn merchant() -> Identity {
    id(2)
}

fn promotion() -> Identity {
    id(30)
}

fn u1() -> Identity {
    id(101)
}

fn u2() -> Identity {
    id(102)
}

fn coupon(n: u8) -> Identity {
    Identity::new([40u8.wrapping_add(n); 32])
}

fn market(max_supply: u32) -> Ledger {
    let mut ledger = Ledger::new();
    initialize(&mut ledger, authority(), NOW).unwrap();
    register_merchant(
        &mut ledger,
        merchant(),
        "Coffee Shop".to_string(),
        "Food".to_string(),
        None,
        None,
        NOW,
    )
    .unwrap();
    create_coupon_promotion(
        &mut ledger,
        promotion(),
        merchant(),
        merchant(),
        20,
        max_supply,
        EXPIRY,
        "Coffee".to_string(),
        "20% off".to_string(),
        1_000_000,
        None,
        None,
        0,
        NOW,
    )
    .unwrap();
    ledger
}

fn mint(ledger: &mut Ledger, n: u8, recipient: Identity) -> Result<Identity, CouponError> {
    mint_coupon(ledger, coupon(n), promotion(), merchant(), recipient, id(200), NOW + 1)
        .map(|event| event.coupon)
}

#[test]
fn a_merchant_cannot_register_before_the_marketplace_exists() {
    let mut ledger = Ledger::new();
    assert_eq!(
        register_merchant(
            &mut ledger,
            merchant(),
            "Coffee Shop".to_string(),
            "Food".to_string(),
            None,
            None,
            NOW
        ),
        Err(CouponError::MarketplaceNotInitialized)
    );
    assert_eq!(ledger.merchants.len(), 0);
    assert_eq!(ledger.marketplace, None);
}

#[test]
fn from_registration_to_resale() {
    let mut ledger = Ledger::new();
    assert!(register_merchant(
        &mut ledger,
        merchant(),
        "Coffee Shop".to_string(),
        "Food".to_string(),
        None,
        None,
        NOW
    )
    .is_err());
    let initialized = initialize(&mut ledger, authority(), NOW).unwrap();
    assert_eq!(initialized.fee_basis_points, 250);
    register_merchant(
        &mut ledger,
        merchant(),
        "Coffee Shop".to_string(),
        "Food".to_string(),
        None,
        None,
        NOW,
    )
    .unwrap();
    create_coupon_promotion(
        &mut ledger,
        promotion(),
        merchant(),
        merchant(),
        20,
        100,
        EXPIRY,
        "Coffee".to_string(),
        "20% off".to_string(),
        1_000_000,
        None,
        None,
        0,
        NOW,
    )
    .unwrap();
    mint(&mut ledger, 0, u1()).unwrap();
    assert_eq!(ledger.coupons.get(&coupon(0)).unwrap().id, 0);
    assert_eq!(ledger.coupons.get(&coupon(0)).unwrap().owner, u1());

    list_coupon_for_sale(&mut ledger, coupon(0), u1(), 2_000_000, NOW + 2).unwrap();
    let sold = buy_listed_coupon(&mut ledger, coupon(0), u2(), NOW + 3).unwrap();

    assert_eq!(ledger.coupons.get(&coupon(0)).unwrap().owner, u2());
    assert!(!ledger.listings.get(&coupon(0)).unwrap().is_active);
    assert_eq!(sold.buyer, u2());
    assert_eq!(sold.seller, u1());
    assert_eq!(sold.price, 2_000_000);
    assert_eq!(sold.marketplace_fee, 50_000);
    assert_eq!(sold.seller_proceeds, 1_950_000);
}

#[test]
fn the_supply_runs_out() {
    let mut ledger = market(3);
    for n in 0..3u8 {
        mint(&mut ledger, n, u1()).unwrap();
        let p = ledger.promotions.get(&promotion()).unwrap();
        assert_eq!(p.current_supply, n as u32 + 1);
        assert!(p.current_supply <= p.max_supply);
        assert_eq!(ledger.coupons.get(&coupon(n)).unwrap().id, n as u64);
    }
    assert_eq!(mint(&mut ledger, 3, u1()), Err(CouponError::SupplyExhausted));
    assert_eq!(mint(&mut ledger, 4, u2()), Err(CouponError::SupplyExhausted));
    let p = ledger.promotions.get(&promotion()).unwrap();
    assert_eq!(p.current_supply, 3);
    assert_eq!(p.max_supply, 3);
    assert_eq!(ledger.coupons.len(), 3);
    assert_eq!(ledger.marketplace.unwrap().total_coupons, 3);
    assert_eq!(ledger.merchants.get(&merchant()).unwrap().total_coupons_created, 3);
    assert_eq!(ledger.reputations.get(&u1()).unwrap().total_purchases, 3);
    assert!(ledger.reputations.get(&u2()).is_none());
}

#[test]
fn rating_four_then_two_counts_one_rating_of_two() {
    let mut ledger = market(1);
    let first = rate_promotion(&mut ledger, promotion(), u1(), 4, NOW + 1).unwrap();
    assert!(!first.is_update);
    let stats = *ledger.rating_stats.get(&promotion()).unwrap();
    assert_eq!(stats.total_ratings, 1);
    assert_eq!(stats.sum_stars, 4);
    assert_eq!(stats.average_rating, 400);

    let second = rate_promotion(&mut ledger, promotion(), u1(), 2, NOW + 2).unwrap();
    assert!(second.is_update);
    let stats = *ledger.rating_stats.get(&promotion()).unwrap();
    assert_eq!(stats.total_ratings, 1);
    assert_eq!(stats.sum_stars, 2);
    assert_eq!(stats.distribution, [0, 1, 0, 0, 0]);
    assert_eq!(stats.average_rating, 200);

    let rating = ledger.ratings.get(&PairKey { user: u1(), promotion: promotion() }).unwrap();
    assert_eq!(rating.stars, 2);
    assert_eq!(rating.created_at, NOW + 1);
    assert_eq!(rating.updated_at, NOW + 2);
    assert_eq!(rating.merchant, merchant());
    assert_eq!(ledger.ratings.len(), 1);
    assert_eq!(ledger.reputations.get(&u1()).unwrap().total_ratings_given, 1);
    assert_eq!(ledger.reputations.get(&u1()).unwrap().reputation_score, 5);
}

#[test]
fn the_aggregate_follows_every_rating_and_change() {
    let mut ledger = market(1);
    let other = id(31);
    create_coupon_promotion(
        &mut ledger,
        other,
        merchant(),
        merchant(),
        10,
        5,
        EXPIRY,
        "Tea".to_string(),
        "10% off".to_string(),
        5,
        None,
        None,
        0,
        NOW,
    )
    .unwrap();
    let moves: [(u8, bool, u8); 9] = [
        (1, true, 5),
        (2, true, 3),
        (1, false, 1),
        (3, true, 4),
        (2, true, 1),
        (1, true, 2),
        (3, true, 5),
        (2, false, 2),
        (3, true, 1),
    ];
    let mut mine: Vec<(u8, u8)> = Vec::new();
    let mut others: Vec<(u8, u8)> = Vec::new();
    for (step, (user, on_first, stars)) in moves.iter().enumerate() {
        let target = if *on_first { promotion() } else { other };
        let book = if *on_first { &mut mine } else { &mut others };
        let known = book.iter().position(|entry| entry.0 == *user);
        let event = rate_promotion(&mut ledger, target, id(*user), *stars, NOW + step as i64).unwrap();
        assert_eq!(event.is_update, known.is_some());
        match known {
            Some(i) => book[i].1 = *stars,
            None => book.push((*user, *stars)),
        }
        for (address, book) in [(promotion(), &mine), (other, &others)] {
            let Some(stats) = ledger.rating_stats.get(&address) else {
                assert!(book.is_empty());
                continue;
            };
            let sum: u64 = book.iter().map(|entry| entry.1 as u64).sum();
            assert_eq!(stats.total_ratings as usize, book.len());
            assert_eq!(stats.sum_stars, sum);
            assert_eq!(stats.distribution.iter().sum::<u32>(), stats.total_ratings);
            for k in 1..=5u8 {
                let count = book.iter().filter(|entry| entry.1 == k).count();
                assert_eq!(stats.distribution[k as usize - 1] as usize, count);
            }
            assert_eq!(stats.average_rating as u64, sum * 100 / book.len() as u64);
        }
    }
    assert_eq!(ledger.ratings.len(), 5);
}

#[test]
fn nothing_works_on_a_redeemed_coupon() {
    let mut ledger = market(2);
    mint(&mut ledger, 0, u1()).unwrap();
    list_coupon_for_sale(&mut ledger, coupon(0), u1(), 5, NOW + 2).unwrap();
    redeem_coupon(&mut ledger, coupon(0), merchant(), u1(), merchant(), NOW + 3).unwrap();
    let redeemed = *ledger.coupons.get(&coupon(0)).unwrap();
    assert!(redeemed.is_redeemed);
    assert_eq!(redeemed.redeemed_at, NOW + 3);

    assert_eq!(
        redeem_coupon(&mut ledger, coupon(0), merchant(), u1(), merchant(), NOW + 4),
        Err(CouponError::CouponAlreadyRedeemed)
    );
    assert_eq!(
        transfer_coupon(&mut ledger, coupon(0), u1(), u2(), NOW + 4),
        Err(CouponError::CouponAlreadyRedeemed)
    );
    assert_eq!(
        list_coupon_for_sale(&mut ledger, coupon(0), u1(), 5, NOW + 4),
        Err(CouponError::CouponAlreadyRedeemed)
    );
    assert_eq!(
        buy_listed_coupon(&mut ledger, coupon(0), u2(), NOW + 4),
        Err(CouponError::CouponAlreadyRedeemed)
    );
    assert_eq!(*ledger.coupons.get(&coupon(0)).unwrap(), redeemed);
    assert_eq!(ledger.merchants.get(&merchant()).unwrap().total_coupons_redeemed, 1);
    assert_eq!(ledger.reputations.get(&u1()).unwrap().total_redemptions, 1);
    assert_eq!(ledger.reputations.get(&u1()).unwrap().reputation_score, 30);
}

#[test]
fn a_coupon_can_be_listed_again_after_a_cancellation() {
    let mut ledger = market(2);
    mint(&mut ledger, 0, u1()).unwrap();
    assert_eq!(
        cancel_listing(&mut ledger, coupon(0), u1(), NOW + 1),
        Err(CouponError::AccountNotFound)
    );
    list_coupon_for_sale(&mut ledger, coupon(0), u1(), 5, NOW + 2).unwrap();
    assert_eq!(
        cancel_listing(&mut ledger, coupon(0), u2(), NOW + 3),
        Err(CouponError::NotListingSeller)
    );
    cancel_listing(&mut ledger, coupon(0), u1(), NOW + 3).unwrap();
    assert!(!ledger.listings.get(&coupon(0)).unwrap().is_active);
    assert_eq!(
        cancel_listing(&mut ledger, coupon(0), u1(), NOW + 4),
        Err(CouponError::ListingInactive)
    );
    assert_eq!(
        buy_listed_coupon(&mut ledger, coupon(0), u2(), NOW + 4),
        Err(CouponError::ListingInactive)
    );
    list_coupon_for_sale(&mut ledger, coupon(0), u1(), 9, NOW + 5).unwrap();
    let listing = *ledger.listings.get(&coupon(0)).unwrap();
    assert!(listing.is_active);
    assert_eq!(listing.price, 9);
    assert_eq!(ledger.listings.len(), 1);
    list_coupon_for_sale(&mut ledger, coupon(0), u1(), 11, NOW + 6).unwrap();
    assert_eq!(ledger.listings.get(&coupon(0)).unwrap().price, 11);
    assert_eq!(ledger.listings.len(), 1);
}

#[test]
fn a_listing_of_a_coupon_that_has_moved_cannot_be_bought() {
    let mut ledger = market(2);
    mint(&mut ledger, 0, u1()).unwrap();
    list_coupon_for_sale(&mut ledger, coupon(0), u1(), 5, NOW + 2).unwrap();
    transfer_coupon(&mut ledger, coupon(0), u1(), id(103), NOW + 3).unwrap();
    assert_eq!(
        buy_listed_coupon(&mut ledger, coupon(0), u2(), NOW + 4),
        Err(CouponError::NotCouponOwner)
    );
    assert_eq!(ledger.coupons.get(&coupon(0)).unwrap().owner, id(103));
    assert!(ledger.listings.get(&coupon(0)).unwrap().is_active);
    assert_eq!(
        buy_listed_coupon(&mut ledger, coupon(0), u2(), EXPIRY),
        Err(CouponError::CouponExpired)
    );
}

#[test]
fn the_ledger_reports_missing_and_taken_addresses() {
    let mut ledger = market(2);
    assert_eq!(initialize(&mut ledger, u1(), NOW), Err(CouponError::AlreadyInitialized));
    assert_eq!(ledger.marketplace.unwrap().authority, authority());
    assert_eq!(
        register_merchant(&mut ledger, merchant(), "Again".to_string(), "Food".to_string(), None, None, NOW),
        Err(CouponError::AlreadyInitialized)
    );
    assert_eq!(ledger.marketplace.unwrap().total_merchants, 1);
    let create = |ledger: &mut Ledger, address: Identity, merchant: Identity| {
        create_coupon_promotion(
            ledger,
            address,
            merchant,
            merchant,
            20,
            1,
            EXPIRY,
            "Coffee".to_string(),
            "20% off".to_string(),
            1,
            None,
            None,
            0,
            NOW,
        )
        .map(|event| event.promotion)
    };
    assert_eq!(create(&mut ledger, promotion(), merchant()), Err(CouponError::AccountInUse));
    assert_eq!(create(&mut ledger, id(31), u1()), Err(CouponError::AccountNotFound));
    assert_eq!(
        mint_coupon(&mut ledger, coupon(0), id(31), merchant(), u1(), id(200), NOW)
            .map(|event| event.coupon),
        Err(CouponError::AccountNotFound)
    );
    assert_eq!(
        mint_coupon(&mut ledger, coupon(0), promotion(), u1(), u1(), id(200), NOW)
            .map(|event| event.coupon),
        Err(CouponError::AccountNotFound)
    );
    mint(&mut ledger, 0, u1()).unwrap();
    assert_eq!(mint(&mut ledger, 0, u1()), Err(CouponError::AccountInUse));
    assert_eq!(ledger.promotions.get(&promotion()).unwrap().current_supply, 1);
    assert_eq!(
        transfer_coupon(&mut ledger, coupon(9), u1(), u2(), NOW),
        Err(CouponError::AccountNotFound)
    );
    assert_eq!(
        redeem_coupon(&mut ledger, coupon(9), merchant(), u1(), merchant(), NOW),
        Err(CouponError::AccountNotFound)
    );
    assert_eq!(
        list_coupon_for_sale(&mut ledger, coupon(9), u1(), 1, NOW),
        Err(CouponError::AccountNotFound)
    );
    assert_eq!(
        buy_listed_coupon(&mut ledger, coupon(0), u2(), NOW),
        Err(CouponError::AccountNotFound)
    );
    assert_eq!(like_comment(&mut ledger, id(70), u1()), Err(CouponError::AccountNotFound));
    assert_eq!(
        rate_promotion(&mut ledger, id(31), u1(), 3, NOW).map(|event| event.stars),
        Err(CouponError::AccountNotFound)
    );

    let mut empty = Ledger::new();
    assert_eq!(
        mint_coupon(&mut empty, coupon(0), promotion(), merchant(), u1(), id(200), NOW)
            .map(|event| event.coupon),
        Err(CouponError::MarketplaceNotInitialized)
    );
    assert_eq!(
        buy_listed_coupon(&mut empty, coupon(0), u2(), NOW),
        Err(CouponError::MarketplaceNotInitialized)
    );
}

#[test]
fn nobody_rates_as_the_sentinel() {
    let mut ledger = market(1);
    assert_eq!(
        rate_promotion(&mut ledger, promotion(), Identity::default(), 3, NOW)
            .map(|event| event.stars),
        Err(CouponError::SentinelIdentity)
    );
    assert_eq!(ledger.ratings.len(), 0);
    assert!(ledger.rating_stats.get(&promotion()).is_none());
    assert_eq!(
        rate_promotion(&mut ledger, promotion(), u1(), 6, NOW).map(|event| event.stars),
        Err(CouponError::InvalidDiscount)
    );
}

#[test]
fn comments_thread_under_comments_that_exist() {
    let mut ledger = market(1);
    let first = add_comment(&mut ledger, id(70), promotion(), u1(), "Nice".to_string(), None, NOW + 1)
        .unwrap();
    assert!(!first.is_reply);
    assert_eq!(
        add_comment(&mut ledger, id(70), promotion(), u2(), "Mine".to_string(), None, NOW + 2)
            .map(|event| event.comment),
        Err(CouponError::AccountInUse)
    );
    assert_eq!(
        add_comment(&mut ledger, id(71), promotion(), u2(), "Re".to_string(), Some(id(79)), NOW + 2)
            .map(|event| event.comment),
        Err(CouponError::AccountNotFound)
    );
    assert_eq!(
        add_comment(&mut ledger, id(71), id(31), u2(), "Re".to_string(), None, NOW + 2)
            .map(|event| event.comment),
        Err(CouponError::AccountNotFound)
    );
    assert!(ledger.reputations.get(&u2()).is_none());
    let reply = add_comment(
        &mut ledger,
        id(71),
        promotion(),
        merchant(),
        "Thanks".to_string(),
        Some(id(70)),
        NOW + 3,
    )
    .unwrap();
    assert!(reply.is_reply);
    let stored = ledger.comments.get(&id(71)).unwrap();
    assert!(stored.is_merchant_reply);
    assert_eq!(stored.parent_comment, Some(id(70)));
    assert!(!ledger.comments.get(&id(70)).unwrap().is_merchant_reply);
    like_comment(&mut ledger, id(70), u2()).unwrap();
    like_comment(&mut ledger, id(70), u2()).unwrap();
    assert_eq!(ledger.comments.get(&id(70)).unwrap().likes, 2);
    assert_eq!(ledger.comments.get(&id(71)).unwrap().likes, 0);
    assert_eq!(ledger.reputations.get(&u1()).unwrap().total_comments, 1);
    assert_eq!(ledger.reputations.get(&merchant()).unwrap().reputation_score, 2);
}

#[test]
fn promotions_are_counted_in_their_cells() {
    let mut ledger = market(1);
    let place = |ledger: &mut Ledger, address: u8, lat: i64, lon: i64| {
        create_coupon_promotion(
            ledger,
            id(address),
            merchant(),
            merchant(),
            20,
            1,
            EXPIRY,
            "Coffee".to_string(),
            "20% off".to_string(),
            1,
            Some(lat),
            Some(lon),
            250,
            NOW,
        )
        .map(|event| event.placement.geo_cell_id())
    };
    let cell = GeoCell::to_cell_id(407, -741);
    assert_eq!(place(&mut ledger, 31, 40_712_800, -74_006_000), Ok(cell));
    assert_eq!(place(&mut ledger, 32, 40_700_000, -74_099_999), Ok(cell));
    assert_eq!(place(&mut ledger, 33, 40_699_999, -74_006_000), Ok(GeoCell::to_cell_id(406, -741)));
    assert_eq!(place(&mut ledger, 34, 90_000_001, 0), Err(CouponError::InvalidCoordinates));
    assert_eq!(ledger.geo_cells.len(), 2);
    assert_eq!(ledger.geo_cells.get(&cell).unwrap().promotion_count, 2);
    assert_eq!(ledger.geo_cells.get(&cell).unwrap().cell_id, cell);
    assert_eq!(ledger.geo_cells.get(&GeoCell::to_cell_id(406, -741)).unwrap().promotion_count, 1);
    assert_eq!(ledger.promotions.len(), 4);
    assert!(ledger.promotions.get(&id(31)).unwrap().placement.is_location_based());
}

#[test]
fn badges_are_issued_once_through_the_ledger() {
    let mut ledger = market(2);
    let issue = |ledger: &mut Ledger, address: u8, user: Identity, badge: BadgeType| {
        mint_badge(ledger, id(address), user, badge, id(210), "https://example.com/badge.json".to_string(), NOW + 9)
            .map(|event| event.badge_type)
    };
    assert_eq!(issue(&mut ledger, 80, u1(), BadgeType::FirstPurchase), Err(CouponError::NotEligible));
    assert!(ledger.reputations.get(&u1()).is_none());
    mint(&mut ledger, 0, u1()).unwrap();
    assert_eq!(issue(&mut ledger, 80, u1(), BadgeType::FirstPurchase), Ok(BadgeType::FirstPurchase));
    assert_eq!(issue(&mut ledger, 81, u1(), BadgeType::FirstPurchase), Err(CouponError::AlreadyEarned));
    assert_eq!(issue(&mut ledger, 80, u1(), BadgeType::EarlyAdopter), Err(CouponError::AccountInUse));
    assert_eq!(issue(&mut ledger, 81, u1(), BadgeType::TenRedemptions), Err(CouponError::NotEligible));
    assert_eq!(issue(&mut ledger, 81, u1(), BadgeType::EarlyAdopter), Ok(BadgeType::EarlyAdopter));
    assert_eq!(issue(&mut ledger, 82, u2(), BadgeType::EarlyAdopter), Ok(BadgeType::EarlyAdopter));
    let r = ledger.reputations.get(&u1()).unwrap();
    assert_eq!(r.badges_earned, vec![BadgeType::FirstPurchase, BadgeType::EarlyAdopter]);
    assert_eq!(r.tier, ReputationTier::Bronze);
    assert_eq!(ledger.reputations.get(&u2()).unwrap().badges_earned, vec![BadgeType::EarlyAdopter]);
    assert_eq!(ledger.reputations.get(&u2()).unwrap().joined_at, NOW + 9);
    assert_eq!(ledger.badges.len(), 3);
    let badge = ledger.badges.get(&id(80)).unwrap();
    assert_eq!(badge.user, u1());
    assert_eq!(badge.badge_type, BadgeType::FirstPurchase);
    assert_eq!(badge.mint, id(210));
    assert_eq!(badge.earned_at, NOW + 9);
}
