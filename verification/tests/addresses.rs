use anchor_lang::prelude::Pubkey;
use discount_platform::address::{select_address, RecordKey};
use discount_platform::identity::Identity;
use discount_platform::state::badge::BadgeType;

fn program() -> Pubkey {
    "Fg6PaFpoGXkYsidMpWTK6W2BeZ7FEfcYkg476zPFsLnS".parse::<Pubkey>().unwrap()
}

fn program_id() -> Identity {
    Identity::new(program().to_bytes())
}

fn user(n: u8) -> Identity {
    Identity::new([n; 32])
}

#[test]
fn marketplace_address_is_the_program_address_of_its_tag() {
    let (expected, _) = Pubkey::find_program_address(&[b"marketplace"], &program());
    let address = RecordKey::Marketplace.address(&program_id()).unwrap();
    assert_eq!(address.to_bytes(), expected.to_bytes());
    assert_ne!(address, program_id());
}

#[test]
fn merchant_address_is_derived_from_the_authority() {
    let authority = user(3);
    let (expected, _) =
        Pubkey::find_program_address(&[b"merchant", &authority.to_bytes()], &program());
    let address = RecordKey::Merchant { authority }.address(&program_id()).unwrap();
    assert_eq!(address.to_bytes(), expected.to_bytes());
    assert_ne!(address, authority);
}

#[test]
fn promotion_and_coupon_addresses_count_in_little_endian() {
    let merchant = user(4);
    let (promotion, _) = Pubkey::find_program_address(
        &[b"promotion", &merchant.to_bytes(), &258u64.to_le_bytes()],
        &program(),
    );
    let derived = RecordKey::Promotion { merchant, index: 258 }.address(&program_id()).unwrap();
    assert_eq!(derived.to_bytes(), promotion.to_bytes());

    let (coupon, _) = Pubkey::find_program_address(
        &[b"coupon", promotion.as_ref(), &7u32.to_le_bytes()],
        &program(),
    );
    let derived =
        RecordKey::Coupon { promotion: derived, sequence: 7 }.address(&program_id()).unwrap();
    assert_eq!(derived.to_bytes(), coupon.to_bytes());
}

#[test]
fn the_other_kinds_follow_their_seeds() {
    let a = user(5);
    let b = user(6);
    let (listing, _) = Pubkey::find_program_address(&[b"listing", &a.to_bytes()], &program());
    assert_eq!(
        RecordKey::Listing { coupon: a }.address(&program_id()).unwrap().to_bytes(),
        listing.to_bytes()
    );
    let (rating, _) =
        Pubkey::find_program_address(&[b"rating", &a.to_bytes(), &b.to_bytes()], &program());
    assert_eq!(
        RecordKey::Rating { user: a, promotion: b }.address(&program_id()).unwrap().to_bytes(),
        rating.to_bytes()
    );
    let (comment, _) =
        Pubkey::find_program_address(&[b"comment", &a.to_bytes(), &b.to_bytes()], &program());
    assert_eq!(
        RecordKey::Comment { user: a, promotion: b }.address(&program_id()).unwrap().to_bytes(),
        comment.to_bytes()
    );
    let (deal, _) = Pubkey::find_program_address(&[b"external_deal", b"sky-123"], &program());
    assert_eq!(
        RecordKey::ExternalDeal { external_id: b"sky-123".to_vec() }
            .address(&program_id())
            .unwrap()
            .to_bytes(),
        deal.to_bytes()
    );
    let (cell, _) =
        Pubkey::find_program_address(&[b"geocell", &0x0197_FFFF_FD1Bu64.to_le_bytes()], &program());
    assert_eq!(
        RecordKey::GeoCell { cell_id: 0x0197_FFFF_FD1B }
            .address(&program_id())
            .unwrap()
            .to_bytes(),
        cell.to_bytes()
    );
    let (badge, _) = Pubkey::find_program_address(&[b"badge", &a.to_bytes(), &[3u8]], &program());
    assert_eq!(
        RecordKey::Badge { user: a, badge_type: BadgeType::TopReviewer }
            .address(&program_id())
            .unwrap()
            .to_bytes(),
        badge.to_bytes()
    );
}

#[test]
fn seeds_are_tag_then_fields() {
    let seeds = RecordKey::Coupon { promotion: user(1), sequence: 0x0102_0304 }.to_seeds();
    assert_eq!(seeds.len(), 3);
    assert_eq!(seeds[0], b"coupon".to_vec());
    assert_eq!(seeds[1], vec![1u8; 32]);
    assert_eq!(seeds[2], vec![4u8, 3, 2, 1]);

    assert_eq!(RecordKey::Marketplace.to_seeds(), vec![b"marketplace".to_vec()]);
    let seeds = RecordKey::Badge { user: user(2), badge_type: BadgeType::CommunityModerator }
        .to_seeds();
    assert_eq!(seeds, vec![b"badge".to_vec(), vec![2u8; 32], vec![6u8]]);
    let seeds = RecordKey::ExternalDeal { external_id: b"abc".to_vec() }.to_seeds();
    assert_eq!(seeds, vec![b"external_deal".to_vec(), b"abc".to_vec()]);
    let seeds = RecordKey::Promotion { merchant: user(9), index: 1 }.to_seeds();
    assert_eq!(seeds, vec![b"promotion".to_vec(), vec![9u8; 32], vec![1u8, 0, 0, 0, 0, 0, 0, 0]]);
    let seeds = RecordKey::GeoCell { cell_id: 1 << 32 }.to_seeds();
    assert_eq!(seeds, vec![b"geocell".to_vec(), vec![0u8, 0, 0, 0, 1, 0, 0, 0]]);
    assert_eq!(
        RecordKey::Merchant { authority: user(8) }.to_seeds(),
        vec![b"merchant".to_vec(), vec![8u8; 32]]
    );
    assert_eq!(
        RecordKey::Listing { coupon: user(8) }.to_seeds(),
        vec![b"listing".to_vec(), vec![8u8; 32]]
    );
    assert_eq!(
        RecordKey::Rating { user: user(8), promotion: user(7) }.to_seeds(),
        vec![b"rating".to_vec(), vec![8u8; 32], vec![7u8; 32]]
    );
    assert_eq!(
        RecordKey::Comment { user: user(8), promotion: user(7) }.to_seeds(),
        vec![b"comment".to_vec(), vec![8u8; 32], vec![7u8; 32]]
    );
}

#[test]
fn different_keys_have_different_addresses() {
    let a = RecordKey::Coupon { promotion: user(1), sequence: 0 }.address(&program_id()).unwrap();
    let b = RecordKey::Coupon { promotion: user(1), sequence: 1 }.address(&program_id()).unwrap();
    let c = RecordKey::Coupon { promotion: user(2), sequence: 0 }.address(&program_id()).unwrap();
    let d = RecordKey::Rating { user: user(1), promotion: user(2) }
        .address(&program_id())
        .unwrap();
    let e = RecordKey::Comment { user: user(1), promotion: user(2) }
        .address(&program_id())
        .unwrap();
    assert_ne!(a, b);
    assert_ne!(a, c);
    assert_ne!(b, c);
    assert_ne!(d, e);
    let again =
        RecordKey::Coupon { promotion: user(1), sequence: 0 }.address(&program_id()).unwrap();
    assert_eq!(a, again);
}

#[test]
fn a_seed_of_more_than_32_bytes_has_no_address() {
    let key = RecordKey::ExternalDeal { external_id: vec![b'x'; 33] };
    assert_eq!(key.address(&program_id()), None);
    let key = RecordKey::ExternalDeal { external_id: vec![b'x'; 32] };
    assert!(key.address(&program_id()).is_some());
}

#[test]
fn select_address_drops_the_bump() {
    assert_eq!(select_address(Some((user(1), 254))), Some(user(1)));
    assert_eq!(select_address(None), None);
}
