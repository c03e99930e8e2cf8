//! Coupons: individually owned rights to a discount.

use vstd::prelude::*;
use crate::errors::CouponError;
use crate::identity::Identity;

verus! {

/// A coupon minted against a promotion.
///
/// A coupon is redeemed at most once, and a redeemed coupon stays redeemed.
/// Expiry is not recorded: a coupon has expired at any moment that is not
/// before its expiry timestamp.
#[derive(Clone, Copy, Debug, PartialEq, Eq)]
pub struct Coupon {
    /// The sequence number of the coupon within its promotion.
    pub id: u64,
    /// The address of the promotion.
    pub promotion: Identity,
    /// Who owns the coupon.
    pub owner: Identity,
    /// The address of the merchant that honours the coupon.
    pub merchant: Identity,
    /// The discount in percent, as the promotion had it at minting.
    pub discount_percentage: u8,
    /// The expiry, as the promotion had it at minting.
    pub expiry_timestamp: i64,
    /// Whether the coupon has been redeemed.
    pub is_redeemed: bool,
    /// When the coupon was redeemed, or 0.
    pub redeemed_at: i64,
    /// When the coupon was minted.
    pub created_at: i64,
    /// The token that stands for the coupon.
    pub mint: Identity,
}

impl Coupon {
    /// Why the coupon cannot be used at `now`, if so: it has been
    /// redeemed, or else it has expired.
    pub open spec fn refusal(&self, now: i64) -> Option<CouponError> {
        if self.is_redeemed {
            Some(CouponError::CouponAlreadyRedeemed)
        } else if self.expiry_timestamp <= now {
            Some(CouponError::CouponExpired)
        } else {
            None
        }
    }

    /// Whether the coupon is neither redeemed nor expired at `now`.
    pub open spec fn usable(&self, now: i64) -> bool {
        !self.is_redeemed && now < self.expiry_timestamp
    }

    /// Tests whether the coupon has expired at `now`.
    pub fn is_expired(&self, now: i64) -> (r: bool)
        ensures
            r == (self.expiry_timestamp <= now),
    {
        self.expiry_timestamp <= now
    }

    /// Tests whether the coupon can be used at `now`.
    pub fn check_usable(&self, now: i64) -> (r: Result<(), CouponError>)
        ensures
            r == match self.refusal(now) {
                Some(e) => Err::<(), CouponError>(e),
                None => Ok::<(), CouponError>(()),
            },
            r is Ok <==> self.usable(now),
    {
        if self.is_redeemed {
            Err(CouponError::CouponAlreadyRedeemed)
        } else if self.expiry_timestamp <= now {
            Err(CouponError::CouponExpired)
        } else {
            Ok(())
        }
    }
}

} // verus!
