//! Operations that derive the address of the record they create.
//!
//! The operations of this module are those of the rest of the ledger for
//! promotions, coupons, comments and badges, but for the address of the new
//! record: the caller does not choose it, it is derived from the key of the
//! record under the program `program_id`. A promotion has the address of
//! its merchant and the merchant's count of coupons at that moment, a
//! coupon that of its promotion and its sequence number, a comment that of
//! its user and promotion, a badge that of its user and type.

use vstd::prelude::*;
use crate::address::RecordKey;
use crate::errors::CouponError;
use crate::events::{BadgeEarned, CommentAdded, CouponMinted, PromotionCreated};
use crate::identity::Identity;
use crate::ledger::catalog::create_coupon_promotion as create_coupon_promotion_at;
use crate::ledger::coupons::mint_coupon as mint_coupon_at;
use crate::ledger::rewards::mint_badge as mint_badge_at;
use crate::ledger::social::add_comment as add_comment_at;
use crate::ledger::Ledger;
use crate::state::badge::BadgeType;

verus! {

impl Ledger {
    /// The key of the next promotion of the merchant kept under
    /// `merchant`: the merchant and its count of coupons.
    pub open spec fn next_promotion_key(&self, merchant: Identity) -> RecordKey {
        RecordKey::Promotion {
            merchant,
            index: self@.merchants[merchant@].total_coupons_created,
        }
    }

    /// The key of the next coupon of the promotion kept under
    /// `promotion`: the promotion and the number of coupons minted so far.
    pub open spec fn next_coupon_key(&self, promotion: Identity) -> RecordKey {
        RecordKey::Coupon { promotion, sequence: self@.promotions[promotion@].current_supply }
    }
}

/// Creates the next promotion of the merchant kept under `merchant`, at
/// the address derived from the merchant and its count of coupons. The
/// event names the address.
///
/// Without the merchant the answer is `AccountNotFound`; where no address
/// can be derived it is `AddressNotDerivable`. Otherwise ledger and answer
/// are those of creating the promotion at the derived address.
pub fn create_coupon_promotion(
    ledger: &mut Ledger,
    program_id: &Identity,
    merchant: Identity,
    authority: Identity,
    discount_percentage: u8,
    max_supply: u32,
    expiry_timestamp: i64,
    category: String,
    description: String,
    price: u64,
    latitude: Option<i64>,
    longitude: Option<i64>,
    radius_meters: u32,
    now: i64,
) -> (r: Result<PromotionCreated, CouponError>)
    requires
        old(ledger).wf(),
    ensures
        final(ledger).wf(),
        old(ledger).extends_to(*final(ledger)),
        if !old(ledger)@.merchants.contains_key(merchant@) {
            &&& r == Err::<PromotionCreated, CouponError>(CouponError::AccountNotFound)
            &&& final(ledger)@ == old(ledger)@
        } else {
            match old(ledger).next_promotion_key(merchant).spec_address(*program_id) {
                None => {
                    &&& r == Err::<PromotionCreated, CouponError>(CouponError::AddressNotDerivable)
                    &&& final(ledger)@ == old(ledger)@
                },
                Some(address) => exists|promotion: Identity|
                    promotion@ == address && #[trigger] old(ledger).create_outcome(
                        *final(ledger),
                        r,
                        promotion,
                        merchant,
                        authority,
                        discount_percentage,
                        max_supply,
                        expiry_timestamp,
                        category,
                        description,
                        price,
                        latitude,
                        longitude,
                        radius_meters,
                        now,
                    ),
            }
        },
{
    let index = match ledger.merchants.get(&merchant) {
        Some(record) => record.total_coupons_created,
        None => {
            return Err(CouponError::AccountNotFound);
        },
    };
    let promotion = match (RecordKey::Promotion { merchant, index }).address(program_id) {
        Some(address) => address,
        None => {
            return Err(CouponError::AddressNotDerivable);
        },
    };
    create_coupon_promotion_at(
        ledger,
        promotion,
        merchant,
        authority,
        discount_percentage,
        max_supply,
        expiry_timestamp,
        category,
        description,
        price,
        latitude,
        longitude,
        radius_meters,
        now,
    )
}

/// Mints the next coupon of the promotion kept under `promotion` to
/// `recipient`, at the address derived from the promotion and the
/// coupon's sequence number. The event names the address.
///
/// Without the promotion the answer is `AccountNotFound`, or
/// `MarketplaceNotInitialized` where there is no marketplace either; where
/// no address can be derived it is `AddressNotDerivable`. Otherwise ledger
/// and answer are those of minting the coupon at the derived address.
pub fn mint_coupon(
    ledger: &mut Ledger,
    program_id: &Identity,
    promotion: Identity,
    merchant: Identity,
    recipient: Identity,
    nft_mint: Identity,
    now: i64,
) -> (r: Result<CouponMinted, CouponError>)
    requires
        old(ledger).wf(),
    ensures
        final(ledger).wf(),
        old(ledger).extends_to(*final(ledger)),
        if !old(ledger)@.promotions.contains_key(promotion@) {
            &&& r == Err::<CouponMinted, CouponError>(
                if old(ledger)@.marketplace is None {
                    CouponError::MarketplaceNotInitialized
                } else {
                    CouponError::AccountNotFound
                },
            )
            &&& final(ledger)@ == old(ledger)@
        } else {
            match old(ledger).next_coupon_key(promotion).spec_address(*program_id) {
                None => {
                    &&& r == Err::<CouponMinted, CouponError>(CouponError::AddressNotDerivable)
                    &&& final(ledger)@ == old(ledger)@
                },
                Some(address) => exists|coupon: Identity|
                    coupon@ == address && #[trigger] old(ledger).mint_outcome(
                        *final(ledger),
                        r,
                        coupon,
                        promotion,
                        merchant,
                        recipient,
                        nft_mint,
                        now,
                    ),
            }
        },
{
    let sequence = match ledger.promotions.get(&promotion) {
        Some(record) => record.current_supply,
        None => {
            if ledger.marketplace.is_none() {
                return Err(CouponError::MarketplaceNotInitialized);
            }
            return Err(CouponError::AccountNotFound);
        },
    };
    let coupon = match (RecordKey::Coupon { promotion, sequence }).address(program_id) {
        Some(address) => address,
        None => {
            return Err(CouponError::AddressNotDerivable);
        },
    };
    mint_coupon_at(ledger, coupon, promotion, merchant, recipient, nft_mint, now)
}

/// Posts a comment of `user` on the promotion kept under `promotion`, at
/// the address derived from the two: a user has one comment on a
/// promotion. The event names the address.
///
/// Where no address can be derived the answer is `AddressNotDerivable`.
/// Otherwise ledger and answer are those of posting the comment at the
/// derived address.
pub fn add_comment(
    ledger: &mut Ledger,
    program_id: &Identity,
    promotion: Identity,
    user: Identity,
    content: String,
    parent_comment: Option<Identity>,
    now: i64,
) -> (r: Result<CommentAdded, CouponError>)
    requires
        old(ledger).wf(),
    ensures
        final(ledger).wf(),
        old(ledger).extends_to(*final(ledger)),
        match (RecordKey::Comment { user, promotion }).spec_address(*program_id) {
            None => {
                &&& r == Err::<CommentAdded, CouponError>(CouponError::AddressNotDerivable)
                &&& final(ledger)@ == old(ledger)@
            },
            Some(address) => exists|comment: Identity|
                comment@ == address && #[trigger] old(ledger).comment_outcome(
                    *final(ledger),
                    r,
                    comment,
                    promotion,
                    user,
                    content,
                    parent_comment,
                    now,
                ),
        },
{
    let comment = match (RecordKey::Comment { user, promotion }).address(program_id) {
        Some(address) => address,
        None => {
            return Err(CouponError::AddressNotDerivable);
        },
    };
    add_comment_at(ledger, comment, promotion, user, content, parent_comment, now)
}

/// Issues the badge `badge_type` to `user` and keeps its record at the
/// address derived from the two.
///
/// Where no address can be derived the answer is `AddressNotDerivable`.
/// Otherwise ledger and answer are those of issuing the badge with its
/// record at the derived address.
pub fn mint_badge(
    ledger: &mut Ledger,
    program_id: &Identity,
    user: Identity,
    badge_type: BadgeType,
    mint: Identity,
    metadata_uri: String,
    now: i64,
) -> (r: Result<BadgeEarned, CouponError>)
    requires
        old(ledger).wf(),
    ensures
        final(ledger).wf(),
        old(ledger).extends_to(*final(ledger)),
        match (RecordKey::Badge { user, badge_type }).spec_address(*program_id) {
            None => {
                &&& r == Err::<BadgeEarned, CouponError>(CouponError::AddressNotDerivable)
                &&& final(ledger)@ == old(ledger)@
            },
            Some(address) => exists|badge: Identity|
                badge@ == address && #[trigger] old(ledger).badge_outcome(
                    *final(ledger),
                    r,
                    badge,
                    user,
                    badge_type,
                    mint,
                    metadata_uri,
                    now,
                ),
        },
{
    let badge = match (RecordKey::Badge { user, badge_type }).address(program_id) {
        Some(address) => address,
        None => {
            return Err(CouponError::AddressNotDerivable);
        },
    };
    mint_badge_at(ledger, badge, user, badge_type, mint, metadata_uri, now)
}

} // verus!
