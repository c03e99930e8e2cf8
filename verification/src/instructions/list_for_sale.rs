//! Putting a coupon up for sale, and withdrawing it.
//!
//! A coupon has one listing record. Listing a coupon that is already
//! listed replaces the open listing by the new one.

use vstd::prelude::*;
use crate::errors::CouponError;
use crate::events::{CouponListed, ListingCancelled};
use crate::identity::Identity;
use crate::state::coupon::Coupon;
use crate::state::listing::Listing;

verus! {

/// Why a listing is refused, if it is. The guards, in order: the price is
/// not zero; the coupon has not been redeemed and has not expired;
/// `seller` owns it; the listing record, if it was written before, is the
/// one of this coupon.
pub open spec fn refusal(
    listing: Option<Listing>,
    coupon: Coupon,
    coupon_key: Identity,
    seller: Identity,
    price: u64,
    now: i64,
) -> Option<CouponError> {
    if price == 0 {
        Some(CouponError::InvalidPrice)
    } else if coupon.refusal(now) is Some {
        coupon.refusal(now)
    } else if coupon.owner != seller {
        Some(CouponError::NotCouponOwner)
    } else if listing is Some && listing->0.coupon != coupon_key {
        Some(CouponError::AccountMismatch)
    } else {
        None
    }
}

/// Opens the listing of the coupon kept under `coupon_key` at `price`.
///
/// `listing` is the listing record of that coupon: a vacant record if the
/// coupon was never listed. Whatever the record held is replaced.
pub fn handler(
    listing: &mut Listing,
    coupon: &Coupon,
    listing_key: Identity,
    coupon_key: Identity,
    seller: Identity,
    price: u64,
    now: i64,
) -> (r: Result<CouponListed, CouponError>)
    ensures
        match r {
            Ok(event) => {
                &&& refusal(old(listing).occupant(), *coupon, coupon_key, seller, price, now) is None
                &&& *final(listing) == (Listing {
                    coupon: coupon_key,
                    seller,
                    price,
                    is_active: true,
                    created_at: now,
                })
                &&& final(listing).wf()
                &&& event == (CouponListed {
                    listing: listing_key,
                    coupon: coupon_key,
                    nft_mint: coupon.mint,
                    seller,
                    price,
                    timestamp: now,
                })
            },
            Err(e) => {
                &&& refusal(old(listing).occupant(), *coupon, coupon_key, seller, price, now) == Some(e)
                &&& *final(listing) == *old(listing)
            },
        },
        coupon.is_redeemed ==> r is Err,
{
    if price == 0 {
        return Err(CouponError::InvalidPrice);
    }
    match coupon.check_usable(now) {
        Ok(()) => {},
        Err(e) => {
            return Err(e);
        },
    }
    if coupon.owner != seller {
        return Err(CouponError::NotCouponOwner);
    }
    if !listing.coupon.is_default() && listing.coupon != coupon_key {
        return Err(CouponError::AccountMismatch);
    }
    listing.coupon = coupon_key;
    listing.seller = seller;
    listing.price = price;
    listing.is_active = true;
    listing.created_at = now;
    Ok(
        CouponListed {
            listing: listing_key,
            coupon: coupon_key,
            nft_mint: coupon.mint,
            seller,
            price,
            timestamp: now,
        },
    )
}

/// Why a cancellation is refused, if it is: the listing is not open, or
/// else `seller` is not its seller.
pub open spec fn cancel_refusal(listing: Listing, seller: Identity) -> Option<CouponError> {
    if !listing.is_active {
        Some(CouponError::ListingInactive)
    } else if listing.seller != seller {
        Some(CouponError::NotListingSeller)
    } else {
        None
    }
}

/// Closes `listing` on the word of its seller. The record stays.
pub fn cancel_listing(listing: &mut Listing, listing_key: Identity, seller: Identity, now: i64) -> (r:
    Result<ListingCancelled, CouponError>)
    ensures
        match r {
            Ok(event) => {
                &&& cancel_refusal(*old(listing), seller) is None
                &&& *final(listing) == (Listing { is_active: false, ..*old(listing) })
                &&& event == (ListingCancelled {
                    listing: listing_key,
                    coupon: old(listing).coupon,
                    seller,
                    timestamp: now,
                })
            },
            Err(e) => {
                &&& cancel_refusal(*old(listing), seller) == Some(e)
                &&& *final(listing) == *old(listing)
            },
        },
        old(listing).wf() ==> final(listing).wf(),
{
    if !listing.is_active {
        return Err(CouponError::ListingInactive);
    }
    if listing.seller != seller {
        return Err(CouponError::NotListingSeller);
    }
    listing.is_active = false;
    Ok(ListingCancelled { listing: listing_key, coupon: listing.coupon, seller, timestamp: now })
}

} // verus!
