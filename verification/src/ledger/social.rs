//! The social layer: comments and ratings.

use vstd::prelude::*;
use crate::errors::CouponError;
use crate::events::{CommentAdded, CommentLiked, PromotionRated};
use crate::identity::{lemma_identity_by_view, Identity};
use crate::instructions::{add_comment, like_comment, rate_promotion};
use crate::ledger::{borrow_reputation, return_reputation, stars_for, Ledger, LedgerView};
use crate::state::badge::{award_applied, Activity};
use crate::state::comment::Comment;
use crate::state::rating::{
    lemma_add_summarizes,
    lemma_replace_summarizes,
    Rating,
    RatingStats,
};
use crate::store::PairKey;

verus! {

/// Appending a rating appends its stars to the stars of its promotion and
/// leaves those of every other promotion as they are.
pub proof fn lemma_stars_push(ratings: Seq<Rating>, rating: Rating, promotion: Seq<u8>)
    ensures
        stars_for(ratings.push(rating), promotion) == if rating.promotion@ == promotion {
            stars_for(ratings, promotion).push(rating.stars)
        } else {
            stars_for(ratings, promotion)
        },
{
    assert(ratings.push(rating).drop_last() =~= ratings);
}

/// A promotion that none of the ratings rates has no stars.
pub proof fn lemma_stars_none(ratings: Seq<Rating>, promotion: Seq<u8>)
    requires
        forall|i: int| 0 <= i < ratings.len() ==> (#[trigger] ratings[i]).promotion@ != promotion,
    ensures
        stars_for(ratings, promotion) == Seq::<u8>::empty(),
    decreases ratings.len(),
{
    if ratings.len() > 0 {
        let rest = ratings.drop_last();
        assert forall|i: int| 0 <= i < rest.len() implies (#[trigger] rest[i]).promotion@
            != promotion by {
            assert(rest[i] == ratings[i]);
        }
        lemma_stars_none(rest, promotion);
    }
}

/// The position that the stars of rating `i` have among the stars of its
/// promotion.
pub open spec fn star_position(ratings: Seq<Rating>, i: int) -> int {
    stars_for(ratings.take(i), ratings[i].promotion@).len() as int
}

/// Overwriting the stars of one rating overwrites one entry of the stars
/// of its promotion and leaves those of every other promotion as they are.
pub proof fn lemma_stars_update(ratings: Seq<Rating>, i: int, rating: Rating, promotion: Seq<u8>)
    requires
        0 <= i < ratings.len(),
        rating.promotion@ == ratings[i].promotion@,
    ensures
        ratings[i].promotion@ != promotion ==> stars_for(ratings.update(i, rating), promotion)
            == stars_for(ratings, promotion),
        ratings[i].promotion@ == promotion ==> {
            &&& 0 <= star_position(ratings, i) < stars_for(ratings, promotion).len()
            &&& stars_for(ratings, promotion)[star_position(ratings, i)] == ratings[i].stars
            &&& stars_for(ratings.update(i, rating), promotion) == stars_for(
                ratings,
                promotion,
            ).update(star_position(ratings, i), rating.stars)
        },
    decreases ratings.len(),
{
    let rest = ratings.drop_last();
    let next = ratings.update(i, rating);
    if i == ratings.len() - 1 {
        assert(next.drop_last() =~= rest);
    } else {
        assert(next.drop_last() =~= rest.update(i, rating));
        assert(rest.take(i) =~= ratings.take(i));
        lemma_stars_update(rest, i, rating, promotion);
    }
}

impl Ledger {
    /// The rating that `user` has given the promotion kept under
    /// `promotion`, if any.
    pub open spec fn rating_of(&self, user: Identity, promotion: Identity) -> Option<Rating> {
        if self@.ratings.contains_key((user@, promotion@)) {
            Some(self@.ratings[(user@, promotion@)])
        } else {
            None
        }
    }

    /// The aggregate of the ratings of the promotion kept under
    /// `promotion`: the empty one while nobody has rated it.
    pub open spec fn stats_of(&self, promotion: Identity) -> RatingStats {
        if self@.rating_stats.contains_key(promotion@) {
            self@.rating_stats[promotion@]
        } else {
            RatingStats::spec_new()
        }
    }

    /// Why a comment is refused, if it is: there is no promotion under
    /// `promotion`, or its merchant has no record, or the comment replied
    /// to does not exist (`AccountNotFound`), or else the address
    /// `comment` is taken (`AccountInUse`), or else the transaction
    /// refuses.
    pub open spec fn comment_refusal(
        &self,
        comment: Identity,
        promotion: Identity,
        user: Identity,
        content: Seq<char>,
        parent_comment: Option<Identity>,
    ) -> Option<CouponError> {
        if !self@.promotions.contains_key(promotion@) || !self@.merchants.contains_key(
            self@.promotions[promotion@].merchant@,
        ) || (parent_comment is Some && !self@.comments.contains_key(parent_comment->0@)) {
            Some(CouponError::AccountNotFound)
        } else if self@.comments.contains_key(comment@) {
            Some(CouponError::AccountInUse)
        } else {
            add_comment::refusal(
                self@.promotions[promotion@],
                self.reputation_of(user),
                self@.promotions[promotion@].merchant,
                user,
                content,
            )
        }
    }

    /// Why a rating is refused, if it is: there is no promotion under
    /// `promotion` (`AccountNotFound`), or else the user is the sentinel
    /// (`SentinelIdentity`), or else the transaction refuses.
    pub open spec fn rate_refusal(&self, promotion: Identity, user: Identity, stars: u8) -> Option<
        CouponError,
    > {
        if !self@.promotions.contains_key(promotion@) {
            Some(CouponError::AccountNotFound)
        } else if user.is_sentinel() {
            Some(CouponError::SentinelIdentity)
        } else {
            rate_promotion::refusal(
                self.rating_of(user, promotion),
                self.stats_of(promotion),
                self.reputation_of(user),
                promotion,
                user,
                stars,
            )
        }
    }
}

impl Ledger {
    /// Whether `after` and `r` are the ledger and the answer that posting
    /// a comment as described, kept under `comment`, makes of this ledger.
    pub open spec fn comment_outcome(
        &self,
        after: Ledger,
        r: Result<CommentAdded, CouponError>,
        comment: Identity,
        promotion: Identity,
        user: Identity,
        content: String,
        parent_comment: Option<Identity>,
        now: i64,
    ) -> bool {
        match r {
            Ok(event) => {
                &&& self.comment_refusal(comment, promotion, user, content@, parent_comment)
                    is None
                &&& after@ == (LedgerView {
                    comments: self@.comments.insert(
                        comment@,
                        add_comment::posted(
                            self@.merchants[self@.promotions[promotion@].merchant@],
                            promotion,
                            user,
                            content,
                            parent_comment,
                            now,
                        ),
                    ),
                    reputations: after@.reputations,
                    ..self@
                })
                &&& self.reputation_changed(after@.reputations, user)
                &&& award_applied(
                    self.reputation_of(user),
                    Some(after@.reputations[user@]),
                    user,
                    now,
                    Activity::Comment,
                )
                &&& event == (CommentAdded {
                    comment,
                    user,
                    promotion,
                    content,
                    is_reply: parent_comment is Some,
                })
            },
            Err(e) => {
                &&& self.comment_refusal(comment, promotion, user, content@, parent_comment)
                    == Some(e)
                &&& after@ == self@
            },
        }
    }
}

/// Posts a comment of `user` on the promotion kept under `promotion` and
/// keeps it under the unused address `comment`.
///
/// A reply names the comment it replies to, which must exist. The user's
/// reputation record is created if there is none.
pub fn add_comment(
    ledger: &mut Ledger,
    comment: Identity,
    promotion: Identity,
    user: Identity,
    content: String,
    parent_comment: Option<Identity>,
    now: i64,
) -> (r: Result<CommentAdded, CouponError>)
    requires
        old(ledger).wf(),
    ensures
        final(ledger).wf(),
        old(ledger).extends_to(*final(ledger)),
        old(ledger).comment_outcome(*final(ledger), r, comment, promotion, user, content, parent_comment, now),
{
    let promotion_at = match ledger.promotions.find(&promotion) {
        Some(i) => i,
        None => {
            return Err(CouponError::AccountNotFound);
        },
    };
    let merchant = ledger.promotions.values[promotion_at].merchant;
    let merchant_at = match ledger.merchants.find(&merchant) {
        Some(i) => i,
        None => {
            return Err(CouponError::AccountNotFound);
        },
    };
    match parent_comment {
        Some(parent) => {
            if !ledger.comments.contains(&parent) {
                return Err(CouponError::AccountNotFound);
            }
        },
        None => {},
    }
    if ledger.comments.contains(&comment) {
        return Err(CouponError::AccountInUse);
    }
    let ghost reputations = ledger.reputations;
    let (reputation_at, mut slot) = borrow_reputation(&mut ledger.reputations, user, now);
    let outcome = add_comment::handler(
        &ledger.promotions.values[promotion_at],
        &ledger.merchants.values[merchant_at],
        &mut slot,
        comment,
        promotion,
        merchant,
        user,
        content,
        parent_comment,
        now,
    );
    return_reputation(&mut ledger.reputations, reputation_at, slot, user, Ghost(reputations));
    proof {
        if outcome is Err {
            assert(ledger.reputations@ =~= old(ledger).reputations@);
        }
    }
    match outcome {
        Ok((record, event)) => {
            ledger.comments.insert(comment, record);
            Ok(event)
        },
        Err(e) => Err(e),
    }
}

/// Counts one more like of the comment kept under `comment`.
pub fn like_comment(ledger: &mut Ledger, comment: Identity, user: Identity) -> (r: Result<
    CommentLiked,
    CouponError,
>)
    requires
        old(ledger).wf(),
    ensures
        final(ledger).wf(),
        old(ledger).extends_to(*final(ledger)),
        match r {
            Ok(event) => {
                &&& old(ledger)@.comments.contains_key(comment@)
                &&& old(ledger)@.comments[comment@].likes < u32::MAX
                &&& final(ledger)@ == (LedgerView {
                    comments: old(ledger)@.comments.insert(
                        comment@,
                        Comment {
                            likes: (old(ledger)@.comments[comment@].likes + 1) as u32,
                            ..old(ledger)@.comments[comment@]
                        },
                    ),
                    ..old(ledger)@
                })
                &&& event == (CommentLiked { comment, user })
            },
            Err(e) => {
                &&& e == if old(ledger)@.comments.contains_key(comment@) {
                    CouponError::ArithmeticOverflow
                } else {
                    CouponError::AccountNotFound
                }
                &&& old(ledger)@.comments.contains_key(comment@)
                    ==> old(ledger)@.comments[comment@].likes == u32::MAX
                &&& final(ledger)@ == old(ledger)@
            },
        },
{
    let comment_at = match ledger.comments.find(&comment) {
        Some(i) => i,
        None => {
            return Err(CouponError::AccountNotFound);
        },
    };
    let outcome = like_comment::handler(&mut ledger.comments.values[comment_at], comment, user);
    proof {
        old(ledger).comments.lemma_replaced(ledger.comments, comment_at as int);
        if outcome is Err {
            assert(ledger.comments@ =~= old(ledger).comments@);
        }
    }
    outcome
}

/// Records that `user` gives the promotion kept under `promotion` `stars`
/// stars.
///
/// The user's first rating of the promotion is added to the promotion's
/// aggregate and earns the user the points of a rating. A later one
/// overwrites the earlier one, and the aggregate follows: it always
/// describes the ratings as they stand.
pub fn rate_promotion(
    ledger: &mut Ledger,
    promotion: Identity,
    user: Identity,
    stars: u8,
    now: i64,
) -> (r: Result<PromotionRated, CouponError>)
    requires
        old(ledger).wf(),
    ensures
        final(ledger).wf(),
        old(ledger).extends_to(*final(ledger)),
        match r {
            Ok(event) => {
                &&& old(ledger).rate_refusal(promotion, user, stars) is None
                &&& final(ledger)@ == (LedgerView {
                    ratings: old(ledger)@.ratings.insert(
                        (user@, promotion@),
                        rate_promotion::rated(
                            old(ledger).rating_of(user, promotion),
                            old(ledger)@.promotions[promotion@],
                            promotion,
                            user,
                            stars,
                            now,
                        ),
                    ),
                    rating_stats: old(ledger)@.rating_stats.insert(
                        promotion@,
                        final(ledger)@.rating_stats[promotion@],
                    ),
                    reputations: final(ledger)@.reputations,
                    ..old(ledger)@
                })
                &&& final(ledger)@.rating_stats.contains_key(promotion@)
                &&& match old(ledger).rating_of(user, promotion) {
                    None => {
                        &&& old(ledger).stats_of(promotion).added(
                            final(ledger)@.rating_stats[promotion@],
                            stars as int,
                        )
                        &&& old(ledger).reputation_changed(final(ledger)@.reputations, user)
                        &&& award_applied(
                            old(ledger).reputation_of(user),
                            Some(final(ledger)@.reputations[user@]),
                            user,
                            now,
                            Activity::Rating,
                        )
                    },
                    Some(earlier) => {
                        &&& old(ledger).stats_of(promotion).replaced(
                            final(ledger)@.rating_stats[promotion@],
                            earlier.stars as int,
                            stars as int,
                        )
                        &&& final(ledger)@.reputations == old(ledger)@.reputations
                    },
                }
                &&& event == (PromotionRated {
                    user,
                    promotion,
                    stars,
                    is_update: old(ledger).rating_of(user, promotion) is Some,
                })
            },
            Err(e) => {
                &&& old(ledger).rate_refusal(promotion, user, stars) == Some(e)
                &&& final(ledger)@ == old(ledger)@
            },
        },
{
    let promotion_at = match ledger.promotions.find(&promotion) {
        Some(i) => i,
        None => {
            return Err(CouponError::AccountNotFound);
        },
    };
    if user.is_default() {
        return Err(CouponError::SentinelIdentity);
    }
    let key = PairKey { user, promotion };
    let rating_at = ledger.ratings.find(&key);
    let stats_at = ledger.rating_stats.find(&promotion);
    let mut rating: Rating = match rating_at {
        Some(i) => ledger.ratings.values[i],
        None => Rating::default(),
    };
    let mut stats: RatingStats = match stats_at {
        Some(i) => ledger.rating_stats.values[i],
        None => RatingStats::new(),
    };
    let ghost stats_before = stats;
    let ghost stars_before = stars_for(ledger.ratings.values@, promotion@);
    proof {
        if rating_at is Some {
            lemma_identity_by_view(rating.user, user);
            lemma_identity_by_view(rating.promotion, promotion);
        }
        if stats_at is None {
            assert forall|i: int| 0 <= i < ledger.ratings.values@.len() implies (
            #[trigger] ledger.ratings.values@[i]).promotion@ != promotion@ by {
                assert(ledger.rating_stats@.contains_key(ledger.ratings.values@[i].promotion@));
            }
            lemma_stars_none(ledger.ratings.values@, promotion@);
        }
        assert(stats_before.summarizes(stars_before));
    }
    let ghost reputations = ledger.reputations;
    let (reputation_at, mut slot) = borrow_reputation(&mut ledger.reputations, user, now);
    let outcome = rate_promotion::handler(
        &mut rating,
        &mut stats,
        &mut slot,
        &ledger.promotions.values[promotion_at],
        promotion,
        user,
        stars,
        now,
    );
    return_reputation(&mut ledger.reputations, reputation_at, slot, user, Ghost(reputations));
    proof {
        if outcome is Err || rating_at is Some {
            assert(ledger.reputations@ =~= old(ledger).reputations@);
        }
    }
    match outcome {
        Ok(event) => {
            match rating_at {
                Some(i) => {
                    ledger.ratings.replace(i, rating);
                },
                None => {
                    ledger.ratings.insert(key, rating);
                },
            }
            match stats_at {
                Some(i) => {
                    ledger.rating_stats.replace(i, stats);
                },
                None => {
                    ledger.rating_stats.insert(promotion, stats);
                },
            }
            proof {
                let before = old(ledger).ratings.values@;
                let after = ledger.ratings.values@;
                lemma_identity_by_view(rating.user, user);
                lemma_identity_by_view(rating.promotion, promotion);
                match rating_at {
                    Some(i) => {
                        lemma_stars_update(before, i as int, rating, promotion@);
                        lemma_replace_summarizes(
                            stats_before,
                            stats,
                            stars_before,
                            star_position(before, i as int),
                            stars,
                        );
                    },
                    None => {
                        lemma_stars_push(before, rating, promotion@);
                        lemma_add_summarizes(stats_before, stats, stars_before, stars);
                    },
                }
                assert forall|other: Seq<u8>| #[trigger]
                    ledger.rating_stats@.contains_key(other) implies ledger.rating_stats@[other].summarizes(
                stars_for(after, other)) by {
                    if other != promotion@ {
                        match rating_at {
                            Some(i) => {
                                lemma_stars_update(before, i as int, rating, other);
                            },
                            None => {
                                lemma_stars_push(before, rating, other);
                            },
                        }
                    }
                }
                assert forall|i: int| 0 <= i < after.len() implies {
                    &&& (#[trigger] after[i]).user@ == ledger.ratings.keys@[i].user@
                    &&& after[i].promotion@ == ledger.ratings.keys@[i].promotion@
                    &&& !after[i].is_vacant()
                    &&& crate::state::rating::valid_stars(after[i].stars as int)
                    &&& ledger.rating_stats@.contains_key(after[i].promotion@)
                } by {
                    if i < before.len() && rating_at != Some(i as usize) {
                        assert(after[i] == before[i]);
                    }
                }
            }
            Ok(event)
        },
        Err(e) => Err(e),
    }
}

} // verus!
