//! Minting a coupon against a promotion.

use vstd::prelude::*;
use crate::errors::CouponError;
use crate::events::CouponMinted;
use crate::identity::Identity;
use crate::state::badge::{
    award_applied,
    award_refusal,
    award_to,
    slot_wf,
    Activity,
    UserReputation,
};
use crate::state::coupon::Coupon;
use crate::state::marketplace::Marketplace;
use crate::state::merchant::Merchant;
use crate::state::promotion::Promotion;

verus! {

/// Why a mint is refused, if it is. The guards, in order: the promotion is
/// active, has supply left and has not expired; `merchant_key` is the
/// merchant of the promotion; the totals of merchant and marketplace are
/// below their limits; the reputation record, if there is one, is the
/// recipient's and can take a purchase.
pub open spec fn refusal(
    promotion: Promotion,
    merchant: Merchant,
    marketplace: Marketplace,
    reputation: Option<UserReputation>,
    merchant_key: Identity,
    recipient: Identity,
    now: i64,
) -> Option<CouponError> {
    if promotion.mint_refusal(now) is Some {
        promotion.mint_refusal(now)
    } else if promotion.merchant != merchant_key {
        Some(CouponError::WrongMerchant)
    } else if merchant.total_coupons_created == u64::MAX || marketplace.total_coupons == u64::MAX {
        Some(CouponError::ArithmeticOverflow)
    } else {
        award_refusal(reputation, recipient, Activity::Purchase)
    }
}

/// The coupon minted against `promotion` at `now`: it carries the
/// promotion's sequence number, discount and expiry of that moment.
pub open spec fn minted(
    promotion: Promotion,
    promotion_key: Identity,
    merchant_key: Identity,
    recipient: Identity,
    nft_mint: Identity,
    now: i64,
) -> Coupon {
    Coupon {
        id: promotion.current_supply as u64,
        promotion: promotion_key,
        owner: recipient,
        merchant: merchant_key,
        discount_percentage: promotion.discount_percentage,
        expiry_timestamp: promotion.expiry_timestamp,
        is_redeemed: false,
        redeemed_at: 0,
        created_at: now,
        mint: nft_mint,
    }
}

/// Mints one coupon of `promotion` to `recipient`.
///
/// `coupon_key` is the address under which the new coupon will be kept and
/// `nft_mint` the token that stands for it. On success the promotion's
/// supply, the merchant's and the marketplace's totals have gone up by one
/// and the recipient has earned the points of a purchase. `reputation` is
/// the recipient's reputation record, or nothing if the recipient has none
/// yet: the record is then created.
pub fn handler(
    promotion: &mut Promotion,
    merchant: &mut Merchant,
    marketplace: &mut Marketplace,
    reputation: &mut Option<UserReputation>,
    coupon_key: Identity,
    promotion_key: Identity,
    merchant_key: Identity,
    recipient: Identity,
    nft_mint: Identity,
    now: i64,
) -> (r: Result<(Coupon, CouponMinted), CouponError>)
    ensures
        match r {
            Ok((coupon, event)) => {
                &&& refusal(
                    *old(promotion),
                    *old(merchant),
                    *old(marketplace),
                    *old(reputation),
                    merchant_key,
                    recipient,
                    now,
                ) is None
                &&& coupon == minted(
                    *old(promotion),
                    promotion_key,
                    merchant_key,
                    recipient,
                    nft_mint,
                    now,
                )
                &&& *final(promotion) == (Promotion {
                    current_supply: (old(promotion).current_supply + 1) as u32,
                    ..*old(promotion)
                })
                &&& *final(merchant) == (Merchant {
                    total_coupons_created: (old(merchant).total_coupons_created + 1) as u64,
                    ..*old(merchant)
                })
                &&& *final(marketplace) == (Marketplace {
                    total_coupons: (old(marketplace).total_coupons + 1) as u64,
                    ..*old(marketplace)
                })
                &&& award_applied(
                    *old(reputation),
                    *final(reputation),
                    recipient,
                    now,
                    Activity::Purchase,
                )
                &&& event == (CouponMinted {
                    coupon: coupon_key,
                    nft_mint,
                    promotion: promotion_key,
                    recipient,
                    merchant: merchant_key,
                    discount_percentage: coupon.discount_percentage,
                    expiry_timestamp: coupon.expiry_timestamp,
                    timestamp: now,
                })
            },
            Err(e) => {
                &&& refusal(
                    *old(promotion),
                    *old(merchant),
                    *old(marketplace),
                    *old(reputation),
                    merchant_key,
                    recipient,
                    now,
                ) == Some(e)
                &&& *final(promotion) == *old(promotion)
                &&& *final(merchant) == *old(merchant)
                &&& *final(marketplace) == *old(marketplace)
                &&& *final(reputation) == *old(reputation)
            },
        },
        final(promotion).current_supply >= old(promotion).current_supply,
        old(promotion).wf() ==> final(promotion).wf(),
        old(merchant).wf() ==> final(merchant).wf(),
        old(marketplace).wf() ==> final(marketplace).wf(),
        slot_wf(*old(reputation)) ==> slot_wf(*final(reputation)),
{
    match promotion.check_mint(now) {
        Ok(()) => {},
        Err(e) => {
            return Err(e);
        },
    }
    if promotion.merchant != merchant_key {
        return Err(CouponError::WrongMerchant);
    }
    if merchant.total_coupons_created == u64::MAX || marketplace.total_coupons == u64::MAX {
        return Err(CouponError::ArithmeticOverflow);
    }
    match award_to(reputation, recipient, now, Activity::Purchase) {
        Ok(()) => {},
        Err(e) => {
            return Err(e);
        },
    }
    let coupon = Coupon {
        id: promotion.current_supply as u64,
        promotion: promotion_key,
        owner: recipient,
        merchant: merchant_key,
        discount_percentage: promotion.discount_percentage,
        expiry_timestamp: promotion.expiry_timestamp,
        is_redeemed: false,
        redeemed_at: 0,
        created_at: now,
        mint: nft_mint,
    };
    let event = CouponMinted {
        coupon: coupon_key,
        nft_mint,
        promotion: promotion_key,
        recipient,
        merchant: merchant_key,
        discount_percentage: coupon.discount_percentage,
        expiry_timestamp: coupon.expiry_timestamp,
        timestamp: now,
    };
    promotion.current_supply = promotion.current_supply + 1;
    merchant.total_coupons_created = merchant.total_coupons_created + 1;
    marketplace.total_coupons = marketplace.total_coupons + 1;
    Ok((coupon, event))
}

/// The supply of a promotion stays within its bounds: a well-formed
/// promotion has minted no more than its supply, a mint that goes through
/// leaves it well formed, and once the supply is used up every mint is
/// refused, with `SupplyExhausted` while the promotion is active.
pub proof fn lemma_supply_bounded(
    promotion: Promotion,
    merchant: Merchant,
    marketplace: Marketplace,
    reputation: Option<UserReputation>,
    merchant_key: Identity,
    recipient: Identity,
    now: i64,
)
    requires
        promotion.wf(),
    ensures
        0 <= promotion.current_supply <= promotion.max_supply,
        refusal(promotion, merchant, marketplace, reputation, merchant_key, recipient, now)
            is None ==> (Promotion {
            current_supply: (promotion.current_supply + 1) as u32,
            ..promotion
        }).wf(),
        promotion.current_supply == promotion.max_supply ==> refusal(
            promotion,
            merchant,
            marketplace,
            reputation,
            merchant_key,
            recipient,
            now,
        ) is Some,
        promotion.current_supply == promotion.max_supply && promotion.is_active ==> refusal(
            promotion,
            merchant,
            marketplace,
            reputation,
            merchant_key,
            recipient,
            now,
        ) == Some(CouponError::SupplyExhausted),
{
}

} // verus!
