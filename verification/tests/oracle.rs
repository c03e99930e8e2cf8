use discount_platform::errors::CouponError;
use discount_platform::identity::Identity;
use discount_platform::instructions::update_external_deal::{discount_percentage, handler};
use discount_platform::ledger::feed::{initialize_oracle, update_external_deal};
use discount_platform::ledger::Ledger;
use discount_platform::state::external_deal::{DealSource, ExternalDeal, OracleConfig};

const NOW: i64 = 10_000;

fn id(n: u8) -> Identity {
    Identity::new([n; 32])
}

fn oracle_config(min_verification_count: u32, update_interval: i64) -> OracleConfig {
    OracleConfig {
        authority: id(9),
        total_deals_imported: 0,
        allowed_sources: vec![DealSource::Skyscanner, DealSource::Amazon],
        min_verification_count,
        update_interval,
    }
}

fn write(
    deal: &mut ExternalDeal,
    config: &mut OracleConfig,
    payer: Identity,
    external_id: &str,
    original_price: u64,
    discounted_price: u64,
    now: i64,
) -> Result<bool, CouponError> {
    handler(
        deal,
        config,
        payer,
        external_id.to_string(),
        "Flight to Lisbon".to_string(),
        "Return, one bag".to_string(),
        original_price,
        discounted_price,
        "Travel".to_string(),
        "https://example.com/lisbon.png".to_string(),
        "https://example.com/lisbon".to_string(),
        NOW + 5_000,
        now,
    )
    .map(|event| event.verified)
}

#[test]
fn the_discount_is_the_drop_in_percent_rounded_down() {
    assert_eq!(discount_percentage(200, 150), Ok(25));
    assert_eq!(discount_percentage(3, 2), Ok(33));
    assert_eq!(discount_percentage(3, 1), Ok(66));
    assert_eq!(discount_percentage(1, 1), Ok(0));
    assert_eq!(discount_percentage(1, 0), Ok(100));
    assert_eq!(discount_percentage(u64::MAX, 0), Ok(100));
    assert_eq!(discount_percentage(u64::MAX, 1), Ok(99));
    assert_eq!(discount_percentage(0, 0), Err(CouponError::InvalidPrice));
    assert_eq!(discount_percentage(5, 6), Err(CouponError::InvalidPrice));
}

#[test]
fn the_first_write_creates_the_deal() {
    let mut deal = ExternalDeal::default();
    let mut config = oracle_config(2, 3600);
    assert_eq!(write(&mut deal, &mut config, id(9), "sky-1", 200, 150, NOW), Ok(false));
    assert_eq!(deal.oracle_authority, id(9));
    assert_eq!(deal.source, DealSource::Skyscanner);
    assert_eq!(deal.external_id, "sky-1");
    assert_eq!(deal.title, "Flight to Lisbon");
    assert_eq!(deal.description, "Return, one bag");
    assert_eq!(deal.original_price, 200);
    assert_eq!(deal.discounted_price, 150);
    assert_eq!(deal.discount_percentage, 25);
    assert_eq!(deal.category, "Travel");
    assert_eq!(deal.image_url, "https://example.com/lisbon.png");
    assert_eq!(deal.affiliate_url, "https://example.com/lisbon");
    assert_eq!(deal.expiry_timestamp, NOW + 5_000);
    assert_eq!(deal.last_updated, NOW);
    assert_eq!(deal.verification_count, 1);
    assert!(!deal.is_verified);
    assert_eq!(config.total_deals_imported, 1);
}

#[test]
fn later_writes_wait_for_the_interval_and_verify() {
    let mut deal = ExternalDeal::default();
    let mut config = oracle_config(3, 3600);
    write(&mut deal, &mut config, id(9), "sky-1", 200, 150, NOW).unwrap();
    let before = deal.clone();
    assert_eq!(
        write(&mut deal, &mut config, id(9), "sky-1", 200, 100, NOW + 3599),
        Err(CouponError::UpdateTooFrequent)
    );
    assert_eq!(deal, before);
    assert_eq!(write(&mut deal, &mut config, id(9), "sky-1", 200, 100, NOW + 3600), Ok(false));
    assert_eq!(deal.verification_count, 2);
    assert_eq!(deal.discount_percentage, 50);
    assert_eq!(deal.last_updated, NOW + 3600);
    assert_eq!(write(&mut deal, &mut config, id(9), "sky-1", 200, 100, NOW + 7200), Ok(true));
    assert_eq!(deal.verification_count, 3);
    assert!(deal.is_verified);
    assert_eq!(config.total_deals_imported, 1);
    config.min_verification_count = 100;
    assert_eq!(write(&mut deal, &mut config, id(9), "sky-1", 200, 100, NOW + 10_800), Ok(true));
    assert_eq!(deal.verification_count, 4);
}

#[test]
fn a_deal_is_verified_at_once_where_one_write_is_enough() {
    let mut deal = ExternalDeal::default();
    let mut config = oracle_config(1, 3600);
    assert_eq!(write(&mut deal, &mut config, id(9), "sky-1", 200, 150, NOW), Ok(true));
    let mut deal = ExternalDeal::default();
    let mut config = oracle_config(0, 3600);
    assert_eq!(write(&mut deal, &mut config, id(9), "sky-1", 200, 150, NOW), Ok(true));
    assert!(deal.is_verified);
}

#[test]
fn a_write_checks_the_oracle_then_the_texts_then_the_prices() {
    let mut deal = ExternalDeal::default();
    let mut config = oracle_config(2, 3600);
    let long = "x".repeat(101);
    assert_eq!(
        write(&mut deal, &mut config, id(8), &long, 0, 1, NOW),
        Err(CouponError::UnauthorizedOracle)
    );
    assert_eq!(write(&mut deal, &mut config, id(9), &long, 0, 1, NOW), Err(CouponError::NameTooLong));
    assert_eq!(
        write(&mut deal, &mut config, id(9), "sky-1", 0, 0, NOW),
        Err(CouponError::InvalidPrice)
    );
    assert_eq!(
        write(&mut deal, &mut config, id(9), "sky-1", 5, 6, NOW),
        Err(CouponError::InvalidPrice)
    );
    assert_eq!(deal, ExternalDeal::default());
    assert_eq!(config.total_deals_imported, 0);
    write(&mut deal, &mut config, id(9), "sky-1", 5, 5, NOW).unwrap();
    assert_eq!(deal.discount_percentage, 0);
    assert_eq!(
        write(&mut deal, &mut config, id(9), "sky-2", 5, 5, NOW + 3600),
        Err(CouponError::AccountMismatch)
    );
    config.total_deals_imported = u64::MAX;
    let mut other = ExternalDeal::default();
    assert_eq!(
        write(&mut other, &mut config, id(9), "sky-2", 5, 5, NOW),
        Err(CouponError::ArithmeticOverflow)
    );
    assert_eq!(other, ExternalDeal::default());
}

#[test]
fn each_text_of_a_deal_has_its_limit() {
    let mut config = oracle_config(2, 3600);
    let mut attempt = |id_len: usize,
                       title: usize,
                       description: usize,
                       category: usize,
                       image: usize,
                       link: usize| {
        let mut deal = ExternalDeal::default();
        handler(
            &mut deal,
            &mut config,
            id(9),
            "i".repeat(id_len),
            "t".repeat(title),
            "d".repeat(description),
            10,
            5,
            "c".repeat(category),
            "u".repeat(image),
            "a".repeat(link),
            0,
            NOW,
        )
        .map(|event| event.price)
    };
    assert_eq!(attempt(100, 201, 501, 51, 201, 201), Err(CouponError::NameTooLong));
    assert_eq!(attempt(100, 200, 501, 51, 201, 201), Err(CouponError::DescriptionTooLong));
    assert_eq!(attempt(100, 200, 500, 51, 201, 201), Err(CouponError::CategoryTooLong));
    assert_eq!(attempt(100, 200, 500, 50, 201, 200), Err(CouponError::DescriptionTooLong));
    assert_eq!(attempt(100, 200, 500, 50, 200, 201), Err(CouponError::DescriptionTooLong));
    assert_eq!(attempt(100, 200, 500, 50, 200, 200), Ok(5));
}

#[test]
fn the_feed_of_the_ledger_keeps_deals_by_their_identifier() {
    let mut ledger = Ledger::new();
    let put = |ledger: &mut Ledger, payer: Identity, external_id: &str, discounted: u64, now: i64| {
        update_external_deal(
            ledger,
            payer,
            external_id.to_string(),
            "Title".to_string(),
            "Description".to_string(),
            100,
            discounted,
            "Travel".to_string(),
            String::new(),
            String::new(),
            NOW + 1,
            now,
        )
        .map(|event| (event.external_id, event.price, event.verified))
    };
    assert_eq!(put(&mut ledger, id(9), "a", 90, NOW), Err(CouponError::OracleNotConfigured));
    assert_eq!(
        initialize_oracle(&mut ledger, Identity::default(), Vec::new(), 2, 60),
        Err(CouponError::SentinelIdentity)
    );
    assert_eq!(
        initialize_oracle(&mut ledger, id(9), vec![DealSource::Custom; 11], 2, 60),
        Err(CouponError::TooManySources)
    );
    assert_eq!(ledger.oracle, None);
    initialize_oracle(&mut ledger, id(9), vec![DealSource::Custom; 10], 2, 60).unwrap();
    assert_eq!(
        initialize_oracle(&mut ledger, id(8), Vec::new(), 1, 1),
        Err(CouponError::AlreadyInitialized)
    );
    assert_eq!(ledger.oracle.clone().unwrap().authority, id(9));
    assert_eq!(ledger.oracle.clone().unwrap().allowed_sources.len(), 10);

    assert_eq!(put(&mut ledger, id(8), "a", 90, NOW), Err(CouponError::UnauthorizedOracle));
    assert_eq!(put(&mut ledger, id(9), "a", 90, NOW), Ok(("a".to_string(), 90, false)));
    assert_eq!(put(&mut ledger, id(9), "b", 50, NOW), Ok(("b".to_string(), 50, false)));
    assert_eq!(put(&mut ledger, id(9), "a", 80, NOW + 59), Err(CouponError::UpdateTooFrequent));
    assert_eq!(ledger.deals.get(&"a".to_string()).unwrap().discounted_price, 90);
    assert_eq!(put(&mut ledger, id(9), "a", 80, NOW + 60), Ok(("a".to_string(), 80, true)));
    assert_eq!(put(&mut ledger, id(9), "a", 101, NOW + 120), Err(CouponError::InvalidPrice));
    assert_eq!(ledger.deals.len(), 2);
    let a = ledger.deals.get(&"a".to_string()).unwrap();
    assert_eq!(a.verification_count, 2);
    assert_eq!(a.discount_percentage, 20);
    assert!(a.is_verified);
    assert_eq!(a.external_id, "a");
    let b = ledger.deals.get(&"b".to_string()).unwrap();
    assert_eq!(b.verification_count, 1);
    assert_eq!(b.discount_percentage, 50);
    assert!(!b.is_verified);
    assert_eq!(ledger.oracle.clone().unwrap().total_deals_imported, 2);
}
