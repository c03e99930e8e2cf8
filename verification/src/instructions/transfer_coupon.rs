//! Handing a coupon to another owner.

use vstd::prelude::*;
use crate::errors::CouponError;
use crate::events::CouponTransferred;
use crate::identity::Identity;
use crate::state::coupon::Coupon;

verus! {

/// Why a transfer is refused, if it is: the coupon has been redeemed, or
/// else `from_authority` does not own it.
pub open spec fn refusal(coupon: Coupon, from_authority: Identity) -> Option<CouponError> {
    if coupon.is_redeemed {
        Some(CouponError::CouponAlreadyRedeemed)
    } else if coupon.owner != from_authority {
        Some(CouponError::NotCouponOwner)
    } else {
        None
    }
}

/// Makes `new_owner` the owner of `coupon`, on the word of its current
/// owner `from_authority`. The event names the token that has to change
/// hands with it.
pub fn handler(
    coupon: &mut Coupon,
    coupon_key: Identity,
    from_authority: Identity,
    new_owner: Identity,
    now: i64,
) -> (r: Result<CouponTransferred, CouponError>)
    ensures
        match r {
            Ok(event) => {
                &&& refusal(*old(coupon), from_authority) is None
                &&& *final(coupon) == (Coupon { owner: new_owner, ..*old(coupon) })
                &&& event == (CouponTransferred {
                    coupon: coupon_key,
                    nft_mint: old(coupon).mint,
                    from: from_authority,
                    to: new_owner,
                    timestamp: now,
                })
            },
            Err(e) => {
                &&& refusal(*old(coupon), from_authority) == Some(e)
                &&& *final(coupon) == *old(coupon)
            },
        },
        old(coupon).is_redeemed ==> r == Err::<CouponTransferred, CouponError>(
            CouponError::CouponAlreadyRedeemed,
        ),
        final(coupon).is_redeemed == old(coupon).is_redeemed,
{
    if coupon.is_redeemed {
        return Err(CouponError::CouponAlreadyRedeemed);
    }
    if coupon.owner != from_authority {
        return Err(CouponError::NotCouponOwner);
    }
    coupon.owner = new_owner;
    Ok(
        CouponTransferred {
            coupon: coupon_key,
            nft_mint: coupon.mint,
            from: from_authority,
            to: new_owner,
            timestamp: now,
        },
    )
}

} // verus!
