use anchor_lang::prelude::Pubkey;
use discount_platform::address::RecordKey;
use discount_platform::errors::CouponError;
use discount_platform::identity::Identity;
use discount_platform::ledger::catalog::{initialize, register_merchant};
use discount_platform::ledger::derived::{
    add_comment, create_coupon_promotion, mint_badge, mint_coupon,
};
use discount_platform::ledger::exchange::{buy_listed_coupon, list_coupon_for_sale};
use discount_platform::ledger::Ledger;
use discount_platform::state::badge::BadgeType;

const NOW: i64 = 1_700_000_000;

fn id(n: u8) -> Identity {
    Identity::new([n; 32])
}

fn program() -> Pubkey {
    "kCBLrJxrFgB7yf8R8tMKZmsyaRDRq8YmdJSG9yjrSNe".parse::<Pubkey>().unwrap()
}

fn program_id() -> Identity {
    Identity::new(program().to_bytes())
}

fn merchant() -> Identity {
    id(2)
}

fn open_market() -> Ledger {
    let mut ledger = Ledger::new();
    initialize(&mut ledger, id(1), NOW).unwrap();
    register_merchant(
        &mut ledger,
        merchant(),
        "Coffee Shop".to_string(),
        "Food".to_string(),
        None,
        None,
        NOW,
    )
    .unwrap();
    ledger
}

fn promote(ledger: &mut Ledger, max_supply: u32) -> Result<Identity, CouponError> {
    create_coupon_promotion(
        ledger,
        &program_id(),
        merchant(),
        merchant(),
        20,
        max_supply,
        NOW + 86_400,
        "Coffee".to_string(),
        "20% off".to_string(),
        1_000_000,
        None,
        None,
        0,
        NOW,
    )
    .map(|event| event.promotion)
}

#[test]
fn a_promotion_gets_the_address_of_its_merchant_and_count() {
    let mut ledger = open_market();
    let (expected, _) = Pubkey::find_program_address(
        &[b"promotion", &merchant().to_bytes(), &0u64.to_le_bytes()],
        &program(),
    );
    let promotion = promote(&mut ledger, 3).unwrap();
    assert_eq!(promotion.to_bytes(), expected.to_bytes());
    assert_eq!(ledger.promotions.get(&promotion).unwrap().max_supply, 3);

    assert_eq!(promote(&mut ledger, 3), Err(CouponError::AccountInUse));
    mint_coupon(&mut ledger, &program_id(), promotion, merchant(), id(5), id(90), NOW).unwrap();
    let second = promote(&mut ledger, 4).unwrap();
    assert_eq!(
        Some(second),
        RecordKey::Promotion { merchant: merchant(), index: 1 }.address(&program_id())
    );
    assert_ne!(second, promotion);
    assert_eq!(ledger.promotions.len(), 2);
}

#[test]
fn coupons_get_the_addresses_of_their_sequence_numbers() {
    let mut ledger = open_market();
    let promotion = promote(&mut ledger, 2).unwrap();
    let mut minted: Vec<Identity> = Vec::new();
    for sequence in 0..2u32 {
        let event =
            mint_coupon(&mut ledger, &program_id(), promotion, merchant(), id(5), id(90), NOW)
                .unwrap();
        let (expected, _) = Pubkey::find_program_address(
            &[b"coupon", &promotion.to_bytes(), &sequence.to_le_bytes()],
            &program(),
        );
        assert_eq!(event.coupon.to_bytes(), expected.to_bytes());
        assert_eq!(ledger.coupons.get(&event.coupon).unwrap().id, sequence as u64);
        minted.push(event.coupon);
    }
    assert_ne!(minted[0], minted[1]);
    assert_eq!(
        mint_coupon(&mut ledger, &program_id(), promotion, merchant(), id(5), id(90), NOW)
            .map(|event| event.coupon),
        Err(CouponError::SupplyExhausted)
    );
    assert_eq!(ledger.coupons.len(), 2);

    list_coupon_for_sale(&mut ledger, minted[0], id(5), 2_000_000, NOW + 1).unwrap();
    let sold = buy_listed_coupon(&mut ledger, minted[0], id(6), NOW + 2).unwrap();
    assert_eq!(sold.marketplace_fee, 50_000);
    assert_eq!(sold.seller_proceeds, 1_950_000);
    assert_eq!(ledger.coupons.get(&minted[0]).unwrap().owner, id(6));
    assert_eq!(ledger.coupons.get(&minted[1]).unwrap().owner, id(5));
}

#[test]
fn minting_without_promotion_or_marketplace_is_refused() {
    let mut empty = Ledger::new();
    assert_eq!(
        mint_coupon(&mut empty, &program_id(), id(30), merchant(), id(5), id(90), NOW)
            .map(|event| event.coupon),
        Err(CouponError::MarketplaceNotInitialized)
    );
    let mut ledger = open_market();
    assert_eq!(
        mint_coupon(&mut ledger, &program_id(), id(30), merchant(), id(5), id(90), NOW)
            .map(|event| event.coupon),
        Err(CouponError::AccountNotFound)
    );
    assert_eq!(
        create_coupon_promotion(
            &mut ledger,
            &program_id(),
            id(3),
            id(3),
            20,
            1,
            NOW + 1,
            String::new(),
            String::new(),
            1,
            None,
            None,
            0,
            NOW
        )
        .map(|event| event.promotion),
        Err(CouponError::AccountNotFound)
    );
}

#[test]
fn a_user_has_one_comment_on_a_promotion() {
    let mut ledger = open_market();
    let promotion = promote(&mut ledger, 2).unwrap();
    let (expected, _) = Pubkey::find_program_address(
        &[b"comment", &id(5).to_bytes(), &promotion.to_bytes()],
        &program(),
    );
    let first =
        add_comment(&mut ledger, &program_id(), promotion, id(5), "Nice".to_string(), None, NOW)
            .unwrap();
    assert_eq!(first.comment.to_bytes(), expected.to_bytes());
    assert_eq!(
        add_comment(&mut ledger, &program_id(), promotion, id(5), "Again".to_string(), None, NOW)
            .map(|event| event.comment),
        Err(CouponError::AccountInUse)
    );
    let reply = add_comment(
        &mut ledger,
        &program_id(),
        promotion,
        merchant(),
        "Thanks".to_string(),
        Some(first.comment),
        NOW + 1,
    )
    .unwrap();
    assert!(reply.is_reply);
    assert!(ledger.comments.get(&reply.comment).unwrap().is_merchant_reply);
    assert_eq!(ledger.comments.get(&first.comment).unwrap().content, "Nice");
    assert_eq!(ledger.comments.len(), 2);
}

#[test]
fn a_badge_record_has_the_address_of_user_and_type() {
    let mut ledger = open_market();
    let (expected, _) =
        Pubkey::find_program_address(&[b"badge", &id(5).to_bytes(), &[4u8]], &program());
    let event = mint_badge(
        &mut ledger,
        &program_id(),
        id(5),
        BadgeType::EarlyAdopter,
        id(91),
        "https://example.com/badge.json".to_string(),
        NOW,
    )
    .unwrap();
    assert_eq!(event.badge_type, BadgeType::EarlyAdopter);
    let stored = ledger.badges.get(&Identity::new(expected.to_bytes())).unwrap();
    assert_eq!(stored.user, id(5));
    assert_eq!(stored.mint, id(91));
    assert_eq!(
        mint_badge(
            &mut ledger,
            &program_id(),
            id(5),
            BadgeType::EarlyAdopter,
            id(92),
            String::new(),
            NOW
        ),
        Err(CouponError::AlreadyEarned)
    );
    assert_eq!(
        mint_badge(
            &mut ledger,
            &program_id(),
            id(5),
            BadgeType::FirstPurchase,
            id(92),
            String::new(),
            NOW
        ),
        Err(CouponError::NotEligible)
    );
    assert_eq!(ledger.badges.len(), 1);
    assert_eq!(ledger.reputations.get(&id(5)).unwrap().badges_earned, vec![BadgeType::EarlyAdopter]);
}
