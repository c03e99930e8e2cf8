//! Writing a third-party deal into the feed.
//!
//! Only the configured oracle writes. The first write of a deal creates it;
//! every later write of the same deal counts as one more verification and
//! has to keep the update interval.

use vstd::prelude::*;
use crate::errors::CouponError;
use crate::events::ExternalDealUpdated;
use crate::identity::Identity;
use crate::state::external_deal::{
    deal_discount,
    lemma_deal_discount_bounded,
    valid_prices,
    DealSource,
    ExternalDeal,
    OracleConfig,
    MAX_DEAL_CATEGORY_LEN,
    MAX_DEAL_DESCRIPTION_LEN,
    MAX_EXTERNAL_ID_LEN,
    MAX_TITLE_LEN,
    MAX_URL_LEN,
};

verus! {

/// Which text of a deal is too long, if any: the identifier or the title
/// (`NameTooLong`), the description (`DescriptionTooLong`), the category
/// (`CategoryTooLong`), or one of the links (`DescriptionTooLong`), in
/// that order.
pub open spec fn text_refusal(
    external_id: Seq<char>,
    title: Seq<char>,
    description: Seq<char>,
    category: Seq<char>,
    image_url: Seq<char>,
    affiliate_url: Seq<char>,
) -> Option<CouponError> {
    if external_id.len() > 100 || title.len() > 200 {
        Some(CouponError::NameTooLong)
    } else if description.len() > 500 {
        Some(CouponError::DescriptionTooLong)
    } else if category.len() > 50 {
        Some(CouponError::CategoryTooLong)
    } else if image_url.len() > 200 || affiliate_url.len() > 200 {
        Some(CouponError::DescriptionTooLong)
    } else {
        None
    }
}

/// Why a write is refused, if it is. The guards, in order: `payer` is the
/// oracle's authority; the texts are within their limits; the original
/// price is not zero and the discounted price does not exceed it; then,
/// for a first write, the count of imported deals is below its limit, and
/// for a later one, the record is that of `external_id`, the update
/// interval has passed since the last write, and the count of
/// verifications is below its limit.
pub open spec fn refusal(
    deal: Option<ExternalDeal>,
    config: OracleConfig,
    payer: Identity,
    external_id: Seq<char>,
    title: Seq<char>,
    description: Seq<char>,
    original_price: u64,
    discounted_price: u64,
    category: Seq<char>,
    image_url: Seq<char>,
    affiliate_url: Seq<char>,
    now: i64,
) -> Option<CouponError> {
    if payer != config.authority {
        Some(CouponError::UnauthorizedOracle)
    } else if text_refusal(external_id, title, description, category, image_url, affiliate_url)
        is Some {
        text_refusal(external_id, title, description, category, image_url, affiliate_url)
    } else if !valid_prices(original_price as int, discounted_price as int) {
        Some(CouponError::InvalidPrice)
    } else if deal is None {
        if config.total_deals_imported == u64::MAX {
            Some(CouponError::ArithmeticOverflow)
        } else {
            None
        }
    } else if deal->0.external_id@ != external_id {
        Some(CouponError::AccountMismatch)
    } else if now - deal->0.last_updated < config.update_interval {
        Some(CouponError::UpdateTooFrequent)
    } else if deal->0.verification_count == u32::MAX {
        Some(CouponError::ArithmeticOverflow)
    } else {
        None
    }
}

/// How often a deal has been written after one more write.
pub open spec fn next_count(deal: Option<ExternalDeal>) -> int {
    match deal {
        None => 1,
        Some(earlier) => earlier.verification_count + 1,
    }
}

/// Whether `after` is the record of a deal after the write described by
/// the other arguments, `before` being the record until then.
///
/// A first write sets the oracle, the source and the identifier, and
/// starts unverified with one verification; a later one keeps them and
/// counts one more. Every write sets texts, prices, the derived discount,
/// the expiry and the time of the write, and makes the deal verified once
/// the verifications reach the configured minimum; a verified deal stays
/// verified.
pub open spec fn written(
    before: Option<ExternalDeal>,
    after: ExternalDeal,
    config: OracleConfig,
    payer: Identity,
    external_id: Seq<char>,
    title: Seq<char>,
    description: Seq<char>,
    original_price: u64,
    discounted_price: u64,
    category: Seq<char>,
    image_url: Seq<char>,
    affiliate_url: Seq<char>,
    expiry_timestamp: i64,
    now: i64,
) -> bool {
    &&& after.oracle_authority == match before {
        None => payer,
        Some(earlier) => earlier.oracle_authority,
    }
    &&& after.source == match before {
        None => DealSource::Skyscanner,
        Some(earlier) => earlier.source,
    }
    &&& after.external_id@ == external_id
    &&& after.title@ == title
    &&& after.description@ == description
    &&& after.original_price == original_price
    &&& after.discounted_price == discounted_price
    &&& after.discount_percentage == deal_discount(original_price as int, discounted_price as int)
    &&& after.category@ == category
    &&& after.image_url@ == image_url
    &&& after.affiliate_url@ == affiliate_url
    &&& after.expiry_timestamp == expiry_timestamp
    &&& after.last_updated == now
    &&& after.verification_count == next_count(before)
    &&& after.is_verified == ((before is Some && before->0.is_verified) || next_count(before)
        >= config.min_verification_count)
}

/// Tests the lengths of the texts of a deal.
fn check_texts(
    external_id: &String,
    title: &String,
    description: &String,
    category: &String,
    image_url: &String,
    affiliate_url: &String,
) -> (r: Result<(), CouponError>)
    ensures
        r == match text_refusal(
            external_id@,
            title@,
            description@,
            category@,
            image_url@,
            affiliate_url@,
        ) {
            Some(e) => Err::<(), CouponError>(e),
            None => Ok::<(), CouponError>(()),
        },
{
    if external_id.as_str().unicode_len() > MAX_EXTERNAL_ID_LEN || title.as_str().unicode_len()
        > MAX_TITLE_LEN {
        return Err(CouponError::NameTooLong);
    }
    if description.as_str().unicode_len() > MAX_DEAL_DESCRIPTION_LEN {
        return Err(CouponError::DescriptionTooLong);
    }
    if category.as_str().unicode_len() > MAX_DEAL_CATEGORY_LEN {
        return Err(CouponError::CategoryTooLong);
    }
    if image_url.as_str().unicode_len() > MAX_URL_LEN || affiliate_url.as_str().unicode_len()
        > MAX_URL_LEN {
        return Err(CouponError::DescriptionTooLong);
    }
    Ok(())
}

/// Computes the discount in percent of a drop from `original_price` to
/// `discounted_price`, or reports `InvalidPrice` when the original price is
/// zero or below the discounted one.
pub fn discount_percentage(original_price: u64, discounted_price: u64) -> (r: Result<
    u8,
    CouponError,
>)
    ensures
        match r {
            Ok(percentage) => {
                &&& valid_prices(original_price as int, discounted_price as int)
                &&& percentage == deal_discount(original_price as int, discounted_price as int)
                &&& percentage <= 100
            },
            Err(e) => {
                &&& !valid_prices(original_price as int, discounted_price as int)
                &&& e == CouponError::InvalidPrice
            },
        },
{
    if original_price == 0 || discounted_price > original_price {
        return Err(CouponError::InvalidPrice);
    }
    proof {
        lemma_deal_discount_bounded(original_price as int, discounted_price as int);
    }
    let drop: u128 = (original_price - discounted_price) as u128;
    Ok((drop * 100 / original_price as u128) as u8)
}

/// Writes the deal known to its source as `external_id`.
///
/// `deal` is the record of that deal, vacant if the deal has not been
/// written before. A first write counts the deal among the imported ones.
pub fn handler(
    deal: &mut ExternalDeal,
    config: &mut OracleConfig,
    payer: Identity,
    external_id: String,
    title: String,
    description: String,
    original_price: u64,
    discounted_price: u64,
    category: String,
    image_url: String,
    affiliate_url: String,
    expiry_timestamp: i64,
    now: i64,
) -> (r: Result<ExternalDealUpdated, CouponError>)
    ensures
        match r {
            Ok(event) => {
                &&& refusal(
                    old(deal).occupant(),
                    *old(config),
                    payer,
                    external_id@,
                    title@,
                    description@,
                    original_price,
                    discounted_price,
                    category@,
                    image_url@,
                    affiliate_url@,
                    now,
                ) is None
                &&& written(
                    old(deal).occupant(),
                    *final(deal),
                    *old(config),
                    payer,
                    external_id@,
                    title@,
                    description@,
                    original_price,
                    discounted_price,
                    category@,
                    image_url@,
                    affiliate_url@,
                    expiry_timestamp,
                    now,
                )
                &&& *final(config) == (OracleConfig {
                    total_deals_imported: if old(deal).is_vacant() {
                        (old(config).total_deals_imported + 1) as u64
                    } else {
                        old(config).total_deals_imported
                    },
                    ..*old(config)
                })
                &&& event.source == final(deal).source
                &&& event.external_id@ == external_id@
                &&& event.price == discounted_price
                &&& event.verified == final(deal).is_verified
            },
            Err(e) => {
                &&& refusal(
                    old(deal).occupant(),
                    *old(config),
                    payer,
                    external_id@,
                    title@,
                    description@,
                    original_price,
                    discounted_price,
                    category@,
                    image_url@,
                    affiliate_url@,
                    now,
                ) == Some(e)
                &&& *final(deal) == *old(deal)
                &&& *final(config) == *old(config)
            },
        },
        r is Ok && !payer.is_sentinel() ==> final(deal).wf() && !final(deal).is_vacant(),
        old(config).wf() ==> final(config).wf(),
{
    if payer != config.authority {
        return Err(CouponError::UnauthorizedOracle);
    }
    match check_texts(&external_id, &title, &description, &category, &image_url, &affiliate_url) {
        Ok(()) => {},
        Err(e) => {
            return Err(e);
        },
    }
    let percentage = match discount_percentage(original_price, discounted_price) {
        Ok(percentage) => percentage,
        Err(e) => {
            return Err(e);
        },
    };
    let first = deal.oracle_authority.is_default();
    if first {
        if config.total_deals_imported == u64::MAX {
            return Err(CouponError::ArithmeticOverflow);
        }
        config.total_deals_imported = config.total_deals_imported + 1;
        deal.oracle_authority = payer;
        deal.source = DealSource::Skyscanner;
        deal.verification_count = 1;
        deal.is_verified = false;
    } else {
        if deal.external_id != external_id {
            return Err(CouponError::AccountMismatch);
        }
        let elapsed: i128 = now as i128 - deal.last_updated as i128;
        if elapsed < config.update_interval as i128 {
            return Err(CouponError::UpdateTooFrequent);
        }
        if deal.verification_count == u32::MAX {
            return Err(CouponError::ArithmeticOverflow);
        }
        deal.verification_count = deal.verification_count + 1;
    }
    let event_id = external_id.clone();
    deal.external_id = external_id;
    deal.title = title;
    deal.description = description;
    deal.original_price = original_price;
    deal.discounted_price = discounted_price;
    deal.discount_percentage = percentage;
    deal.category = category;
    deal.image_url = image_url;
    deal.affiliate_url = affiliate_url;
    deal.expiry_timestamp = expiry_timestamp;
    deal.last_updated = now;
    if deal.verification_count >= config.min_verification_count {
        deal.is_verified = true;
    }
    Ok(
        ExternalDealUpdated {
            source: deal.source,
            external_id: event_id,
            price: discounted_price,
            verified: deal.is_verified,
        },
    )
}

} // verus!
