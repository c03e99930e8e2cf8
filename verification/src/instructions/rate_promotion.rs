//! Rating a promotion.
//!
//! A user's first rating of a promotion is added to the promotion's
//! aggregate. A later one overwrites the rating in place: its old stars are
//! taken out of the aggregate and the new ones put in, so that the
//! aggregate always describes the ratings as they stand.

use vstd::prelude::*;
use crate::errors::CouponError;
use crate::events::PromotionRated;
use crate::identity::Identity;
use crate::state::badge::{
    award_applied,
    award_refusal,
    award_to,
    check_award_to,
    slot_wf,
    Activity,
    UserReputation,
};
use crate::state::promotion::Promotion;
use crate::state::rating::{valid_stars, Rating, RatingStats, MAX_STARS, MIN_STARS};

verus! {

/// Why a rating is refused, if it is. The guards, in order: the stars are
/// from 1 to 5 (else `InvalidDiscount`); then, for a first rating, the
/// reputation record, if there is one, is the user's and can take a
/// rating, and the aggregate can take one more; for a later one, the
/// record is that of this user and promotion, holds valid stars, and the
/// aggregate can take the change.
pub open spec fn refusal(
    rating: Option<Rating>,
    stats: RatingStats,
    reputation: Option<UserReputation>,
    promotion_key: Identity,
    user: Identity,
    stars: u8,
) -> Option<CouponError> {
    if !valid_stars(stars as int) {
        Some(CouponError::InvalidDiscount)
    } else if rating is None {
        if award_refusal(reputation, user, Activity::Rating) is Some {
            award_refusal(reputation, user, Activity::Rating)
        } else if !stats.can_add(stars as int) {
            Some(CouponError::ArithmeticOverflow)
        } else {
            None
        }
    } else if rating->0.user != user || rating->0.promotion != promotion_key {
        Some(CouponError::AccountMismatch)
    } else if !valid_stars(rating->0.stars as int) || !stats.can_replace(
        rating->0.stars as int,
        stars as int,
    ) {
        Some(CouponError::ArithmeticOverflow)
    } else {
        None
    }
}

/// The rating record after `user` has rated: a new rating is filled in,
/// an earlier one keeps everything but its stars and the time of its last
/// change.
pub open spec fn rated(
    rating: Option<Rating>,
    promotion: Promotion,
    promotion_key: Identity,
    user: Identity,
    stars: u8,
    now: i64,
) -> Rating {
    match rating {
        None => Rating {
            user,
            promotion: promotion_key,
            merchant: promotion.merchant,
            stars,
            created_at: now,
            updated_at: now,
        },
        Some(earlier) => Rating { stars, updated_at: now, ..earlier },
    }
}

/// Records that `user` gives the promotion kept under `promotion_key`
/// `stars` stars.
///
/// `rating` is the rating record of this user and promotion, vacant if the
/// user has not rated the promotion before, and `stats` the aggregate of
/// the promotion. A first rating earns the user the points of a rating; a
/// later one earns nothing. `reputation` is the user's reputation record,
/// or nothing if the user has none yet: a first rating then creates it.
pub fn handler(
    rating: &mut Rating,
    stats: &mut RatingStats,
    reputation: &mut Option<UserReputation>,
    promotion: &Promotion,
    promotion_key: Identity,
    user: Identity,
    stars: u8,
    now: i64,
) -> (r: Result<PromotionRated, CouponError>)
    ensures
        match r {
            Ok(event) => {
                &&& refusal(
                    old(rating).occupant(),
                    *old(stats),
                    *old(reputation),
                    promotion_key,
                    user,
                    stars,
                ) is None
                &&& *final(rating) == rated(
                    old(rating).occupant(),
                    *promotion,
                    promotion_key,
                    user,
                    stars,
                    now,
                )
                &&& if old(rating).is_vacant() {
                    &&& old(stats).added(*final(stats), stars as int)
                    &&& award_applied(
                        *old(reputation),
                        *final(reputation),
                        user,
                        now,
                        Activity::Rating,
                    )
                } else {
                    &&& old(stats).replaced(
                        *final(stats),
                        old(rating).stars as int,
                        stars as int,
                    )
                    &&& *final(reputation) == *old(reputation)
                }
                &&& event == (PromotionRated {
                    user: final(rating).user,
                    promotion: final(rating).promotion,
                    stars,
                    is_update: !old(rating).is_vacant(),
                })
            },
            Err(e) => {
                &&& refusal(
                    old(rating).occupant(),
                    *old(stats),
                    *old(reputation),
                    promotion_key,
                    user,
                    stars,
                ) == Some(e)
                &&& *final(rating) == *old(rating)
                &&& *final(stats) == *old(stats)
                &&& *final(reputation) == *old(reputation)
            },
        },
        old(stats).wf() ==> final(stats).wf(),
        slot_wf(*old(reputation)) ==> slot_wf(*final(reputation)),
        r is Ok && !user.is_sentinel() ==> final(rating).wf() && !final(rating).is_vacant(),
{
    if stars < MIN_STARS || stars > MAX_STARS {
        return Err(CouponError::InvalidDiscount);
    }
    let is_update = !rating.user.is_default();
    if !is_update {
        match check_award_to(reputation, &user, Activity::Rating) {
            Ok(()) => {},
            Err(e) => {
                return Err(e);
            },
        }
        match stats.add_rating(stars) {
            Ok(()) => {},
            Err(e) => {
                return Err(e);
            },
        }
        let awarded = award_to(reputation, user, now, Activity::Rating);
        assert(awarded is Ok);
        rating.user = user;
        rating.promotion = promotion_key;
        rating.merchant = promotion.merchant;
        rating.created_at = now;
    } else {
        if rating.user != user || rating.promotion != promotion_key {
            return Err(CouponError::AccountMismatch);
        }
        if rating.stars < MIN_STARS || rating.stars > MAX_STARS {
            return Err(CouponError::ArithmeticOverflow);
        }
        match stats.replace_rating(rating.stars, stars) {
            Ok(()) => {},
            Err(e) => {
                return Err(e);
            },
        }
    }
    rating.stars = stars;
    rating.updated_at = now;
    Ok(PromotionRated { user: rating.user, promotion: rating.promotion, stars, is_update })
}

} // verus!
