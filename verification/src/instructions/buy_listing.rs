//! Buying a listed coupon.

use vstd::prelude::*;
use crate::errors::CouponError;
use crate::events::CouponSold;
use crate::identity::Identity;
use crate::state::coupon::Coupon;
use crate::state::listing::Listing;
use crate::state::marketplace::{fee_of, Marketplace, MAX_FEE_BASIS_POINTS};

verus! {

/// Why a sale is refused, if it is. The guards, in order: the listing is
/// open; it is the listing of the coupon kept under `coupon_key`; the
/// coupon has not been redeemed and has not expired; the seller still owns
/// it; the marketplace's fee is at most the whole.
pub open spec fn refusal(
    listing: Listing,
    coupon: Coupon,
    marketplace: Marketplace,
    coupon_key: Identity,
    now: i64,
) -> Option<CouponError> {
    if !listing.is_active {
        Some(CouponError::ListingInactive)
    } else if listing.coupon != coupon_key {
        Some(CouponError::AccountMismatch)
    } else if coupon.refusal(now) is Some {
        coupon.refusal(now)
    } else if coupon.owner != listing.seller {
        Some(CouponError::NotCouponOwner)
    } else if marketplace.fee_basis_points > 10_000 {
        Some(CouponError::ArithmeticOverflow)
    } else {
        None
    }
}

/// Sells the listed coupon to `buyer`.
///
/// On success the coupon belongs to the buyer, the listing is closed, and
/// the event says what the buyer owes: the listing's price, of which the
/// marketplace's fee goes to the marketplace and the rest to the seller.
pub fn handler(
    listing: &mut Listing,
    coupon: &mut Coupon,
    marketplace: &Marketplace,
    listing_key: Identity,
    coupon_key: Identity,
    buyer: Identity,
    now: i64,
) -> (r: Result<CouponSold, CouponError>)
    ensures
        match r {
            Ok(event) => {
                &&& refusal(*old(listing), *old(coupon), *marketplace, coupon_key, now) is None
                &&& *final(coupon) == (Coupon { owner: buyer, ..*old(coupon) })
                &&& *final(listing) == (Listing { is_active: false, ..*old(listing) })
                &&& event == (CouponSold {
                    listing: listing_key,
                    coupon: coupon_key,
                    nft_mint: old(coupon).mint,
                    seller: old(listing).seller,
                    buyer,
                    price: old(listing).price,
                    marketplace_fee: fee_of(
                        old(listing).price as int,
                        marketplace.fee_basis_points as int,
                    ) as u64,
                    seller_proceeds: (old(listing).price - fee_of(
                        old(listing).price as int,
                        marketplace.fee_basis_points as int,
                    )) as u64,
                    timestamp: now,
                })
                &&& event.marketplace_fee + event.seller_proceeds == event.price
                &&& event.marketplace_fee <= event.price
            },
            Err(e) => {
                &&& refusal(*old(listing), *old(coupon), *marketplace, coupon_key, now) == Some(e)
                &&& *final(coupon) == *old(coupon)
                &&& *final(listing) == *old(listing)
            },
        },
        old(coupon).is_redeemed ==> r is Err,
        final(coupon).is_redeemed == old(coupon).is_redeemed,
        old(listing).wf() ==> final(listing).wf(),
{
    if !listing.is_active {
        return Err(CouponError::ListingInactive);
    }
    if listing.coupon != coupon_key {
        return Err(CouponError::AccountMismatch);
    }
    match coupon.check_usable(now) {
        Ok(()) => {},
        Err(e) => {
            return Err(e);
        },
    }
    if coupon.owner != listing.seller {
        return Err(CouponError::NotCouponOwner);
    }
    if marketplace.fee_basis_points > MAX_FEE_BASIS_POINTS {
        return Err(CouponError::ArithmeticOverflow);
    }
    let split = marketplace.split(listing.price);
    let event = CouponSold {
        listing: listing_key,
        coupon: coupon_key,
        nft_mint: coupon.mint,
        seller: listing.seller,
        buyer,
        price: listing.price,
        marketplace_fee: split.fee,
        seller_proceeds: split.payout,
        timestamp: now,
    };
    coupon.owner = buyer;
    listing.is_active = false;
    Ok(event)
}

} // verus!
