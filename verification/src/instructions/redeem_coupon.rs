//! Redeeming a coupon at its merchant.

use vstd::prelude::*;
use crate::errors::CouponError;
use crate::events::CouponRedeemed;
use crate::identity::Identity;
use crate::instructions::{buy_listing, list_for_sale, transfer_coupon};
use crate::state::badge::{
    award_applied,
    award_refusal,
    award_to,
    slot_wf,
    Activity,
    UserReputation,
};
use crate::state::coupon::Coupon;
use crate::state::listing::Listing;
use crate::state::marketplace::Marketplace;
use crate::state::merchant::Merchant;

verus! {

/// Why a redemption is refused, if it is. The guards, in order: the coupon
/// has not been redeemed and has not expired; `user` owns it;
/// `merchant_key` is its merchant; `merchant_authority` is the authority
/// of that merchant; the merchant's total of redemptions is below its
/// limit; the reputation record, if there is one, is the user's and can
/// take a redemption.
pub open spec fn refusal(
    coupon: Coupon,
    merchant: Merchant,
    reputation: Option<UserReputation>,
    merchant_key: Identity,
    user: Identity,
    merchant_authority: Identity,
    now: i64,
) -> Option<CouponError> {
    if coupon.refusal(now) is Some {
        coupon.refusal(now)
    } else if coupon.owner != user {
        Some(CouponError::NotCouponOwner)
    } else if coupon.merchant != merchant_key {
        Some(CouponError::WrongMerchant)
    } else if merchant.authority != merchant_authority {
        Some(CouponError::NotMerchantAuthority)
    } else if merchant.total_coupons_redeemed == u64::MAX {
        Some(CouponError::ArithmeticOverflow)
    } else {
        award_refusal(reputation, user, Activity::Redemption)
    }
}

/// Redeems `coupon` for `user` at the merchant kept under `merchant_key`.
///
/// Both sides consent: `user` is the owner who asks, `merchant_authority`
/// the authority who accepts. On success the coupon is redeemed for good,
/// the merchant's total of redemptions has gone up by one, the user has
/// earned the points of a redemption, and the event names the token to
/// burn. `reputation` is the user's reputation record, or nothing if the
/// user has none yet: the record is then created.
pub fn handler(
    coupon: &mut Coupon,
    merchant: &mut Merchant,
    reputation: &mut Option<UserReputation>,
    coupon_key: Identity,
    merchant_key: Identity,
    user: Identity,
    merchant_authority: Identity,
    now: i64,
) -> (r: Result<CouponRedeemed, CouponError>)
    ensures
        match r {
            Ok(event) => {
                &&& refusal(
                    *old(coupon),
                    *old(merchant),
                    *old(reputation),
                    merchant_key,
                    user,
                    merchant_authority,
                    now,
                ) is None
                &&& *final(coupon) == (Coupon {
                    is_redeemed: true,
                    redeemed_at: now,
                    ..*old(coupon)
                })
                &&& *final(merchant) == (Merchant {
                    total_coupons_redeemed: (old(merchant).total_coupons_redeemed + 1) as u64,
                    ..*old(merchant)
                })
                &&& award_applied(
                    *old(reputation),
                    *final(reputation),
                    user,
                    now,
                    Activity::Redemption,
                )
                &&& event == (CouponRedeemed {
                    coupon: coupon_key,
                    nft_mint: old(coupon).mint,
                    user,
                    merchant: merchant_key,
                    discount_percentage: old(coupon).discount_percentage,
                    timestamp: now,
                })
            },
            Err(e) => {
                &&& refusal(
                    *old(coupon),
                    *old(merchant),
                    *old(reputation),
                    merchant_key,
                    user,
                    merchant_authority,
                    now,
                ) == Some(e)
                &&& *final(coupon) == *old(coupon)
                &&& *final(merchant) == *old(merchant)
                &&& *final(reputation) == *old(reputation)
            },
        },
        old(coupon).is_redeemed ==> r == Err::<CouponRedeemed, CouponError>(
            CouponError::CouponAlreadyRedeemed,
        ),
        old(coupon).is_redeemed ==> final(coupon).is_redeemed,
        old(merchant).wf() ==> final(merchant).wf(),
        slot_wf(*old(reputation)) ==> slot_wf(*final(reputation)),
{
    match coupon.check_usable(now) {
        Ok(()) => {},
        Err(e) => {
            return Err(e);
        },
    }
    if coupon.owner != user {
        return Err(CouponError::NotCouponOwner);
    }
    if coupon.merchant != merchant_key {
        return Err(CouponError::WrongMerchant);
    }
    if merchant.authority != merchant_authority {
        return Err(CouponError::NotMerchantAuthority);
    }
    if merchant.total_coupons_redeemed == u64::MAX {
        return Err(CouponError::ArithmeticOverflow);
    }
    match award_to(reputation, user, now, Activity::Redemption) {
        Ok(()) => {},
        Err(e) => {
            return Err(e);
        },
    }
    coupon.is_redeemed = true;
    coupon.redeemed_at = now;
    merchant.total_coupons_redeemed = merchant.total_coupons_redeemed + 1;
    Ok(
        CouponRedeemed {
            coupon: coupon_key,
            nft_mint: coupon.mint,
            user,
            merchant: merchant_key,
            discount_percentage: coupon.discount_percentage,
            timestamp: now,
        },
    )
}

/// Redemption is final: nobody can list, transfer, buy or redeem a coupon
/// that has been redeemed, whoever asks, whenever, and at whatever price.
pub proof fn lemma_redeemed_is_final(
    coupon: Coupon,
    coupon_key: Identity,
    actor: Identity,
    merchant: Merchant,
    merchant_key: Identity,
    merchant_authority: Identity,
    reputation: Option<UserReputation>,
    listing: Listing,
    marketplace: Marketplace,
    price: u64,
    now: i64,
)
    requires
        coupon.is_redeemed,
    ensures
        list_for_sale::refusal(listing.occupant(), coupon, coupon_key, actor, price, now) is Some,
        transfer_coupon::refusal(coupon, actor) == Some(CouponError::CouponAlreadyRedeemed),
        buy_listing::refusal(listing, coupon, marketplace, coupon_key, now) is Some,
        refusal(coupon, merchant, reputation, merchant_key, actor, merchant_authority, now)
            == Some(CouponError::CouponAlreadyRedeemed),
{
}

} // verus!
