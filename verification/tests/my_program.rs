use anchor_lang::prelude::Pubkey;
use discount_platform::address::RecordKey;
use discount_platform::errors::CouponError;
use discount_platform::identity::Identity;
use discount_platform::ledger::catalog::{create_coupon_promotion, initialize, register_merchant};
use discount_platform::ledger::coupons::{mint_coupon, redeem_coupon, transfer_coupon};
use discount_platform::ledger::exchange::{buy_listed_coupon, list_coupon_for_sale};
use discount_platform::ledger::Ledger;

const NOW: i64 = 1_700_000_000;

fn program_id() -> Identity {
    let key: Pubkey = "Fg6PaFpoGXkYsidMpWTK6W2BeZ7FEfcYkg476zPFsLnS".parse::<Pubkey>().unwrap();
    Identity::new(key.to_bytes())
}

fn payer() -> Identity {
    Identity::new([7u8; 32])
}

fn token(n: u8) -> Identity {
    Identity::new([200u8.wrapping_add(n); 32])
}

fn promotion_address(merchant: Identity, index: u64) -> Identity {
    RecordKey::Promotion { merchant, index }.address(&program_id()).unwrap()
}

fn coupon_address(promotion: Identity, sequence: u32) -> Identity {
    RecordKey::Coupon { promotion, sequence }.address(&program_id()).unwrap()
}

fn setup_marketplace_and_merchant(ledger: &mut Ledger) -> Identity {
    initialize(ledger, payer(), NOW).unwrap();
    register_merchant(
        ledger,
        payer(),
        "Test Coffee Shop".to_string(),
        "Food & Beverage".to_string(),
        None,
        None,
        NOW,
    )
    .unwrap();
    payer()
}

fn setup_marketplace_merchant_and_promotion(ledger: &mut Ledger) -> (Identity, Identity) {
    let merchant = setup_marketplace_and_merchant(ledger);
    let promotion = promotion_address(merchant, 0);
    create_coupon_promotion(
        ledger,
        promotion,
        merchant,
        payer(),
        20,
        100,
        NOW + 86400,
        "Coffee".to_string(),
        "20% off any coffee drink".to_string(),
        1000000,
        None,
        None,
        0,
        NOW,
    )
    .unwrap();
    (merchant, promotion)
}

#[test]
fn test_initialize_marketplace() {
    let mut ledger = Ledger::new();
    let event = initialize(&mut ledger, payer(), NOW).unwrap();
    assert_eq!(event.authority, payer());
    assert_eq!(event.fee_basis_points, 250);
    assert_eq!(event.timestamp, NOW);

    let marketplace = ledger.marketplace.unwrap();
    assert_eq!(marketplace.authority, payer());
    assert_eq!(marketplace.total_coupons, 0);
    assert_eq!(marketplace.total_merchants, 0);
    assert_eq!(marketplace.fee_basis_points, 250);
}

#[test]
fn test_register_merchant() {
    let mut ledger = Ledger::new();
    initialize(&mut ledger, payer(), NOW).unwrap();
    let event = register_merchant(
        &mut ledger,
        payer(),
        "Test Coffee Shop".to_string(),
        "Food & Beverage".to_string(),
        None,
        None,
        NOW,
    )
    .unwrap();
    assert_eq!(event.merchant, payer());

    let merchant = ledger.merchants.get(&payer()).unwrap();
    assert_eq!(merchant.authority, payer());
    assert_eq!(merchant.name, "Test Coffee Shop");
    assert_eq!(merchant.category, "Food & Beverage");
    assert_eq!(merchant.total_coupons_created, 0);
    assert_eq!(merchant.total_coupons_redeemed, 0);
    assert!(merchant.is_active);
    assert_eq!(merchant.location, None);

    assert_eq!(ledger.marketplace.unwrap().total_merchants, 1);
}

#[test]
fn test_create_coupon_promotion() {
    let mut ledger = Ledger::new();
    let merchant = setup_marketplace_and_merchant(&mut ledger);
    let promotion_key = promotion_address(merchant, 0);
    let expiry_timestamp: i64 = NOW + 86400;

    create_coupon_promotion(
        &mut ledger,
        promotion_key,
        merchant,
        payer(),
        20,
        100,
        expiry_timestamp,
        "Coffee".to_string(),
        "20% off any coffee drink".to_string(),
        1000000,
        None,
        None,
        0,
        NOW,
    )
    .unwrap();

    let promotion = ledger.promotions.get(&promotion_key).unwrap();
    assert_eq!(promotion.merchant, merchant);
    assert_eq!(promotion.discount_percentage, 20);
    assert_eq!(promotion.max_supply, 100);
    assert_eq!(promotion.current_supply, 0);
    assert_eq!(promotion.expiry_timestamp, expiry_timestamp);
    assert_eq!(promotion.category, "Coffee");
    assert_eq!(promotion.description, "20% off any coffee drink");
    assert_eq!(promotion.price, 1000000);
    assert!(promotion.is_active);
    assert!(!promotion.placement.is_location_based());
}

#[test]
fn test_mint_coupon() {
    let mut ledger = Ledger::new();
    let (merchant, promotion_key) = setup_marketplace_merchant_and_promotion(&mut ledger);
    let coupon_key = coupon_address(promotion_key, 0);

    let event =
        mint_coupon(&mut ledger, coupon_key, promotion_key, merchant, payer(), token(1), NOW)
            .unwrap();
    assert_eq!(event.coupon, coupon_key);
    assert_eq!(event.nft_mint, token(1));

    let coupon = ledger.coupons.get(&coupon_key).unwrap();
    assert_eq!(coupon.id, 0);
    assert_eq!(coupon.promotion, promotion_key);
    assert_eq!(coupon.owner, payer());
    assert_eq!(coupon.merchant, merchant);
    assert_eq!(coupon.discount_percentage, 20);
    assert_eq!(coupon.expiry_timestamp, NOW + 86400);
    assert!(!coupon.is_redeemed);

    assert_eq!(ledger.promotions.get(&promotion_key).unwrap().current_supply, 1);
    assert_eq!(ledger.merchants.get(&merchant).unwrap().total_coupons_created, 1);
    assert_eq!(ledger.marketplace.unwrap().total_coupons, 1);
}

#[test]
fn test_transfer_coupon() {
    let mut ledger = Ledger::new();
    let (merchant, promotion_key) = setup_marketplace_merchant_and_promotion(&mut ledger);
    let coupon_key = coupon_address(promotion_key, 0);
    mint_coupon(&mut ledger, coupon_key, promotion_key, merchant, payer(), token(1), NOW).unwrap();

    let new_owner = Identity::new([9u8; 32]);
    let event = transfer_coupon(&mut ledger, coupon_key, payer(), new_owner, NOW + 1).unwrap();
    assert_eq!(event.from, payer());
    assert_eq!(event.to, new_owner);
    assert_eq!(event.nft_mint, token(1));

    let coupon = ledger.coupons.get(&coupon_key).unwrap();
    assert_eq!(coupon.owner, new_owner);
}

#[test]
fn test_redeem_coupon() {
    let mut ledger = Ledger::new();
    let (merchant, promotion_key) = setup_marketplace_merchant_and_promotion(&mut ledger);
    let coupon_key = coupon_address(promotion_key, 0);
    mint_coupon(&mut ledger, coupon_key, promotion_key, merchant, payer(), token(1), NOW).unwrap();

    let event = redeem_coupon(&mut ledger, coupon_key, merchant, payer(), payer(), NOW + 5).unwrap();
    assert_eq!(event.nft_mint, token(1));
    assert_eq!(event.discount_percentage, 20);

    let coupon = ledger.coupons.get(&coupon_key).unwrap();
    assert!(coupon.is_redeemed);
    assert!(coupon.redeemed_at > 0);
    assert_eq!(coupon.redeemed_at, NOW + 5);

    assert_eq!(ledger.merchants.get(&merchant).unwrap().total_coupons_redeemed, 1);
}

#[test]
fn test_list_and_buy_coupon() {
    let mut ledger = Ledger::new();
    let (merchant, promotion_key) = setup_marketplace_merchant_and_promotion(&mut ledger);
    let coupon_key = coupon_address(promotion_key, 0);
    mint_coupon(&mut ledger, coupon_key, promotion_key, merchant, payer(), token(1), NOW).unwrap();

    let list_price: u64 = 2000000;
    list_coupon_for_sale(&mut ledger, coupon_key, payer(), list_price, NOW + 1).unwrap();

    let listing = ledger.listings.get(&coupon_key).unwrap();
    assert_eq!(listing.coupon, coupon_key);
    assert_eq!(listing.seller, payer());
    assert_eq!(listing.price, list_price);
    assert!(listing.is_active);

    let buyer = Identity::new([11u8; 32]);
    let sold = buy_listed_coupon(&mut ledger, coupon_key, buyer, NOW + 2).unwrap();
    assert_eq!(sold.price, list_price);
    assert_eq!(sold.seller, payer());
    assert_eq!(sold.buyer, buyer);

    let coupon = ledger.coupons.get(&coupon_key).unwrap();
    assert_eq!(coupon.owner, buyer);

    let listing = ledger.listings.get(&coupon_key).unwrap();
    assert!(!listing.is_active);
}

#[test]
fn test_error_cases() {
    let mut ledger = Ledger::new();
    let merchant = setup_marketplace_and_merchant(&mut ledger);

    let promotion_key = promotion_address(merchant, 0);
    let result = create_coupon_promotion(
        &mut ledger,
        promotion_key,
        merchant,
        payer(),
        150,
        100,
        NOW + 86400,
        "Coffee".to_string(),
        "Invalid discount".to_string(),
        1000000,
        None,
        None,
        0,
        NOW,
    );
    assert!(result.is_err());
    assert_eq!(result, Err(CouponError::InvalidDiscount));

    let expired_promotion_key = promotion_address(merchant, 1);
    let result2 = create_coupon_promotion(
        &mut ledger,
        expired_promotion_key,
        merchant,
        payer(),
        20,
        100,
        NOW - 3600,
        "Coffee".to_string(),
        "Expired promotion".to_string(),
        1000000,
        None,
        None,
        0,
        NOW,
    );
    assert!(result2.is_err());
    assert_eq!(result2, Err(CouponError::InvalidExpiry));
    assert_eq!(ledger.promotions.len(), 0);
}

#[test]
fn test_access_control() {
    let mut ledger = Ledger::new();
    let merchant = setup_marketplace_and_merchant(&mut ledger);
    let unauthorized_user = Identity::new([66u8; 32]);

    let promotion_key = promotion_address(merchant, 0);
    let result = create_coupon_promotion(
        &mut ledger,
        promotion_key,
        merchant,
        unauthorized_user,
        20,
        100,
        NOW + 86400,
        "Coffee".to_string(),
        "Unauthorized promotion".to_string(),
        1000000,
        None,
        None,
        0,
        NOW,
    );
    assert!(result.is_err());
    assert_eq!(result, Err(CouponError::NotMerchantAuthority));
    assert_eq!(ledger.promotions.len(), 0);
}
