//! Ratings of promotions and the running aggregate over them.
//!
//! Each user has at most one rating per promotion. The aggregate of a
//! promotion is kept current by deltas: a first rating is added, a changed
//! rating is taken out with its old value and put back with its new one.

use vstd::prelude::*;
use crate::errors::CouponError;
use crate::identity::Identity;

verus! {

/// Fewest stars in a rating.
pub const MIN_STARS: u8 = 1;

/// Most stars in a rating.
pub const MAX_STARS: u8 = 5;

/// The rating that one user gave one promotion.
#[derive(Clone, Copy, Debug, PartialEq, Eq)]
pub struct Rating {
    /// Who rated; the sentinel while the record has not been written.
    pub user: Identity,
    /// The address of the promotion.
    pub promotion: Identity,
    /// The address of the promotion's merchant.
    pub merchant: Identity,
    /// The stars given, from 1 to 5.
    pub stars: u8,
    /// When the user first rated the promotion.
    pub created_at: i64,
    /// When the user last rated the promotion.
    pub updated_at: i64,
}

/// Whether `stars` is a number of stars that can be given.
pub open spec fn valid_stars(stars: int) -> bool {
    1 <= stars <= 5
}

impl Rating {
    /// Whether the record has never been written: its user is the sentinel.
    pub open spec fn is_vacant(&self) -> bool {
        self.user.is_sentinel()
    }

    /// A written record holds a valid number of stars.
    pub open spec fn wf(&self) -> bool {
        !self.is_vacant() ==> valid_stars(self.stars as int)
    }

    /// The rating that the record holds, if it has been written.
    pub open spec fn occupant(&self) -> Option<Rating> {
        if self.is_vacant() {
            None
        } else {
            Some(*self)
        }
    }
}

impl Default for Rating {
    /// A record that has never been written.
    fn default() -> (r: Rating)
        ensures
            r.is_vacant(),
            r.wf(),
            r.stars == 0,
            r.created_at == 0,
            r.updated_at == 0,
            r.promotion.is_sentinel(),
            r.merchant.is_sentinel(),
    {
        Rating {
            user: Identity::default(),
            promotion: Identity::default(),
            merchant: Identity::default(),
            stars: 0,
            created_at: 0,
            updated_at: 0,
        }
    }
}

/// The aggregate over the ratings of one promotion.
#[derive(Clone, Copy, Debug, PartialEq, Eq)]
pub struct RatingStats {
    /// How many ratings there are.
    pub total_ratings: u32,
    /// The stars of all ratings, added up.
    pub sum_stars: u64,
    /// How many ratings there are of one star, of two, and so on to five.
    pub distribution: [u32; 5],
    /// A hundred times the average number of stars, rounded down; 0 while
    /// there is no rating.
    pub average_rating: u32,
}

/// A hundred times the average of `total` ratings whose stars add up to
/// `sum`, rounded down, and 0 where there is no rating.
pub open spec fn average_of(sum: int, total: int) -> int {
    if total > 0 {
        sum * 100 / total
    } else {
        0
    }
}

/// How many of `stars` are equal to `k`.
pub open spec fn count_of(stars: Seq<u8>, k: int) -> int
    decreases stars.len(),
{
    if stars.len() == 0 {
        0
    } else {
        count_of(stars.drop_last(), k) + if stars.last() == k {
            1int
        } else {
            0int
        }
    }
}

/// The sum of `stars`.
pub open spec fn sum_of(stars: Seq<u8>) -> int
    decreases stars.len(),
{
    if stars.len() == 0 {
        0
    } else {
        sum_of(stars.drop_last()) + stars.last()
    }
}

/// Whether every entry of `stars` is a valid number of stars.
pub open spec fn all_valid(stars: Seq<u8>) -> bool {
    forall|i: int| 0 <= i < stars.len() ==> valid_stars(#[trigger] stars[i] as int)
}

impl RatingStats {
    /// The number of ratings with `stars` stars.
    pub open spec fn bucket(&self, stars: int) -> int {
        self.distribution@[stars - 1] as int
    }

    /// The buckets add up to the number of ratings, the stars in the
    /// buckets to the sum of stars, and the average is that of the two.
    pub open spec fn wf(&self) -> bool {
        &&& self.total_ratings == self.bucket(1) + self.bucket(2) + self.bucket(3) + self.bucket(4)
            + self.bucket(5)
        &&& self.sum_stars == self.bucket(1) + 2 * self.bucket(2) + 3 * self.bucket(3) + 4
            * self.bucket(4) + 5 * self.bucket(5)
        &&& self.average_rating == average_of(self.sum_stars as int, self.total_ratings as int)
    }

    /// Whether this is the aggregate over ratings that hold exactly the
    /// values `stars`, one entry for each rating.
    pub open spec fn summarizes(&self, stars: Seq<u8>) -> bool {
        &&& all_valid(stars)
        &&& self.total_ratings == stars.len()
        &&& self.sum_stars == sum_of(stars)
        &&& forall|k: int| 1 <= k <= 5 ==> #[trigger] self.bucket(k) == count_of(stars, k)
        &&& self.average_rating == average_of(self.sum_stars as int, self.total_ratings as int)
    }

    /// The aggregate over no rating.
    pub open spec fn spec_new() -> RatingStats {
        RatingStats {
            total_ratings: 0,
            sum_stars: 0,
            distribution: [0u32, 0u32, 0u32, 0u32, 0u32],
            average_rating: 0,
        }
    }

    /// Whether the aggregate holds no rating.
    pub open spec fn is_empty(&self) -> bool {
        &&& self.total_ratings == 0
        &&& self.sum_stars == 0
        &&& forall|k: int| 1 <= k <= 5 ==> #[trigger] self.bucket(k) == 0
        &&& self.average_rating == 0
    }

    /// Whether a rating of `stars` can be added without a number leaving
    /// its range.
    pub open spec fn can_add(&self, stars: int) -> bool {
        &&& self.total_ratings < u32::MAX
        &&& self.bucket(stars) < u32::MAX
        &&& self.sum_stars + stars <= u64::MAX
        &&& average_of(self.sum_stars + stars, self.total_ratings + 1) <= u32::MAX
    }

    /// Whether `after` is this aggregate with one more rating of `stars`.
    pub open spec fn added(&self, after: RatingStats, stars: int) -> bool {
        &&& after.total_ratings == self.total_ratings + 1
        &&& after.sum_stars == self.sum_stars + stars
        &&& after.distribution@ == self.distribution@.update(
            stars - 1,
            (self.bucket(stars) + 1) as u32,
        )
        &&& after.average_rating == average_of(
            after.sum_stars as int,
            after.total_ratings as int,
        )
    }

    /// Whether a rating of `from` stars can be changed to `to` stars: the
    /// aggregate holds a rating of `from` stars, and no number leaves its
    /// range.
    pub open spec fn can_replace(&self, from: int, to: int) -> bool {
        &&& self.total_ratings > 0
        &&& self.bucket(from) > 0
        &&& self.sum_stars >= from
        &&& self.sum_stars - from + to <= u64::MAX
        &&& from != to ==> self.bucket(to) < u32::MAX
        &&& average_of(self.sum_stars - from + to, self.total_ratings as int) <= u32::MAX
    }

    /// Whether `after` is this aggregate with one rating changed from
    /// `from` stars to `to` stars.
    pub open spec fn replaced(&self, after: RatingStats, from: int, to: int) -> bool {
        &&& after.total_ratings == self.total_ratings
        &&& after.sum_stars == self.sum_stars - from + to
        &&& after.distribution@ == self.distribution@.update(
            from - 1,
            (self.bucket(from) - 1) as u32,
        ).update(
            to - 1,
            if from == to {
                self.distribution@[to - 1]
            } else {
                (self.bucket(to) + 1) as u32
            },
        )
        &&& after.average_rating == average_of(
            after.sum_stars as int,
            after.total_ratings as int,
        )
    }

    /// An aggregate with no rating in it.
    pub fn new() -> (r: RatingStats)
        ensures
            r == RatingStats::spec_new(),
            r.is_empty(),
            r.wf(),
            r.summarizes(Seq::<u8>::empty()),
    {
        RatingStats {
            total_ratings: 0,
            sum_stars: 0,
            distribution: [0u32, 0u32, 0u32, 0u32, 0u32],
            average_rating: 0,
        }
    }

    /// Why a rating of `stars` cannot be added, if so: the stars are not
    /// from 1 to 5 (`InvalidDiscount`), or else a number would leave its
    /// range (`ArithmeticOverflow`).
    pub open spec fn add_refusal(&self, stars: int) -> Option<CouponError> {
        if !valid_stars(stars) {
            Some(CouponError::InvalidDiscount)
        } else if !self.can_add(stars) {
            Some(CouponError::ArithmeticOverflow)
        } else {
            None
        }
    }

    /// Why a rating cannot be changed from `from` stars to `to` stars, if
    /// so: one of the two is not from 1 to 5 (`InvalidDiscount`), or else
    /// the aggregate holds no rating of `from` stars or a number would
    /// leave its range (`ArithmeticOverflow`).
    pub open spec fn replace_refusal(&self, from: int, to: int) -> Option<CouponError> {
        if !valid_stars(from) || !valid_stars(to) {
            Some(CouponError::InvalidDiscount)
        } else if !self.can_replace(from, to) {
            Some(CouponError::ArithmeticOverflow)
        } else {
            None
        }
    }

    /// Adds a rating of `stars`, or reports why it cannot and changes
    /// nothing.
    pub fn add_rating(&mut self, stars: u8) -> (r: Result<(), CouponError>)
        ensures
            match r {
                Ok(()) => old(self).add_refusal(stars as int) is None && old(self).added(
                    *final(self),
                    stars as int,
                ),
                Err(e) => old(self).add_refusal(stars as int) == Some(e) && *final(self) == *old(self),
            },
            old(self).wf() && r is Ok ==> final(self).wf(),
    {
        if stars < MIN_STARS || stars > MAX_STARS {
            return Err(CouponError::InvalidDiscount);
        }
        let index: usize = (stars - 1) as usize;
        if self.total_ratings == u32::MAX || self.distribution[index] == u32::MAX
            || self.sum_stars > u64::MAX - stars as u64 {
            return Err(CouponError::ArithmeticOverflow);
        }
        let total: u32 = self.total_ratings + 1;
        let sum: u64 = self.sum_stars + stars as u64;
        let average: u128 = sum as u128 * 100 / total as u128;
        if average > u32::MAX as u128 {
            return Err(CouponError::ArithmeticOverflow);
        }
        let bucket: u32 = self.distribution[index] + 1;
        self.total_ratings = total;
        self.sum_stars = sum;
        self.distribution[index] = bucket;
        self.average_rating = average as u32;
        Ok(())
    }

    /// Changes one rating from `from` stars to `to` stars, or reports why
    /// it cannot and changes nothing.
    pub fn replace_rating(&mut self, from: u8, to: u8) -> (r: Result<(), CouponError>)
        ensures
            match r {
                Ok(()) => old(self).replace_refusal(from as int, to as int) is None && old(self).replaced(*final(self), from as int, to as int),
                Err(e) => old(self).replace_refusal(from as int, to as int) == Some(e) && *final(self) == *old(self),
            },
            old(self).wf() && r is Ok ==> final(self).wf(),
    {
        if from < MIN_STARS || from > MAX_STARS || to < MIN_STARS || to > MAX_STARS {
            return Err(CouponError::InvalidDiscount);
        }
        let from_index: usize = (from - 1) as usize;
        let to_index: usize = (to - 1) as usize;
        if self.total_ratings == 0 || self.distribution[from_index] == 0 || self.sum_stars
            < from as u64 {
            return Err(CouponError::ArithmeticOverflow);
        }
        let lowered: u64 = self.sum_stars - from as u64;
        if lowered > u64::MAX - to as u64 {
            return Err(CouponError::ArithmeticOverflow);
        }
        if from != to && self.distribution[to_index] == u32::MAX {
            return Err(CouponError::ArithmeticOverflow);
        }
        let sum: u64 = lowered + to as u64;
        let average: u128 = sum as u128 * 100 / self.total_ratings as u128;
        if average > u32::MAX as u128 {
            return Err(CouponError::ArithmeticOverflow);
        }
        if from != to {
            let from_bucket: u32 = self.distribution[from_index] - 1;
            let to_bucket: u32 = self.distribution[to_index] + 1;
            self.distribution[from_index] = from_bucket;
            self.distribution[to_index] = to_bucket;
        }
        self.sum_stars = sum;
        self.average_rating = average as u32;
        proof {
            assert(final(self).distribution@ =~= old(self).distribution@.update(
                from - 1,
                (old(self).bucket(from as int) - 1) as u32,
            ).update(
                to - 1,
                if from == to {
                    old(self).distribution@[to - 1]
                } else {
                    (old(self).bucket(to as int) + 1) as u32
                },
            ));
        }
        Ok(())
    }
}

/// Appending a value raises its count by one and the sum by the value.
pub proof fn lemma_count_push(stars: Seq<u8>, x: u8, k: int)
    ensures
        count_of(stars.push(x), k) == count_of(stars, k) + if x == k {
            1int
        } else {
            0int
        },
        sum_of(stars.push(x)) == sum_of(stars) + x,
{
    assert(stars.push(x).drop_last() =~= stars);
}

/// Changing one entry moves one unit from the count of the old value to
/// the count of the new one, and the sum by their difference.
pub proof fn lemma_count_update(stars: Seq<u8>, i: int, x: u8, k: int)
    requires
        0 <= i < stars.len(),
    ensures
        count_of(stars.update(i, x), k) == count_of(stars, k) - (if stars[i] == k {
            1int
        } else {
            0int
        }) + (if x == k {
            1int
        } else {
            0int
        }),
        sum_of(stars.update(i, x)) == sum_of(stars) - stars[i] + x,
    decreases stars.len(),
{
    if i == stars.len() - 1 {
        assert(stars.update(i, x).drop_last() =~= stars.drop_last());
    } else {
        assert(stars.update(i, x).drop_last() =~= stars.drop_last().update(i, x));
        lemma_count_update(stars.drop_last(), i, x, k);
    }
}

/// Over valid ratings, the counts of one to five stars add up to the
/// number of ratings, and the stars counted by value add up to their sum.
pub proof fn lemma_counts_total(stars: Seq<u8>)
    requires
        all_valid(stars),
    ensures
        count_of(stars, 1) + count_of(stars, 2) + count_of(stars, 3) + count_of(stars, 4)
            + count_of(stars, 5) == stars.len(),
        count_of(stars, 1) + 2 * count_of(stars, 2) + 3 * count_of(stars, 3) + 4 * count_of(
            stars,
            4,
        ) + 5 * count_of(stars, 5) == sum_of(stars),
        forall|k: int| 0 <= #[trigger] count_of(stars, k),
    decreases stars.len(),
{
    if stars.len() > 0 {
        let rest = stars.drop_last();
        assert(all_valid(rest)) by {
            assert forall|i: int| 0 <= i < rest.len() implies valid_stars(
                #[trigger] rest[i] as int,
            ) by {
                assert(rest[i] == stars[i]);
            }
        }
        lemma_counts_total(rest);
        assert forall|k: int| 0 <= #[trigger] count_of(stars, k) by {
            assert(0 <= count_of(rest, k));
        }
    } else {
        assert forall|k: int| 0 <= #[trigger] count_of(stars, k) by {}
    }
}

/// The aggregate over any ratings is well formed: the buckets add up to
/// the number of ratings and the sum of stars is that of the ratings.
pub proof fn lemma_summary_wf(stats: RatingStats, stars: Seq<u8>)
    requires
        stats.summarizes(stars),
    ensures
        stats.wf(),
        stats.bucket(1) + stats.bucket(2) + stats.bucket(3) + stats.bucket(4) + stats.bucket(5)
            == stats.total_ratings,
        stats.sum_stars == sum_of(stars),
{
    lemma_counts_total(stars);
}

/// Adding a first rating keeps the aggregate in step with the ratings:
/// if `before` is the aggregate over `stars`, then `after` is the
/// aggregate over `stars` with the new value appended.
pub proof fn lemma_add_summarizes(before: RatingStats, after: RatingStats, stars: Seq<u8>, x: u8)
    requires
        before.summarizes(stars),
        valid_stars(x as int),
        before.added(after, x as int),
    ensures
        after.summarizes(stars.push(x)),
{
    let next = stars.push(x);
    assert(all_valid(next)) by {
        assert forall|i: int| 0 <= i < next.len() implies valid_stars(#[trigger] next[i] as int) by {
            if i < stars.len() {
                assert(next[i] == stars[i]);
            }
        }
    }
    lemma_counts_total(stars);
    assert forall|k: int| 1 <= k <= 5 implies #[trigger] after.bucket(k) == count_of(next, k) by {
        lemma_count_push(stars, x, k);
        assert(before.bucket(k) == count_of(stars, k));
        assert(count_of(stars, 1) + count_of(stars, 2) + count_of(stars, 3) + count_of(stars, 4)
            + count_of(stars, 5) == stars.len());
    }
    lemma_count_push(stars, x, 0);
}

/// Changing a rating keeps the aggregate in step with the ratings: if
/// `before` is the aggregate over `stars`, then `after` is the aggregate
/// over `stars` with entry `i` set to the new value.
pub proof fn lemma_replace_summarizes(
    before: RatingStats,
    after: RatingStats,
    stars: Seq<u8>,
    i: int,
    x: u8,
)
    requires
        before.summarizes(stars),
        0 <= i < stars.len(),
        valid_stars(x as int),
        before.replaced(after, stars[i] as int, x as int),
    ensures
        after.summarizes(stars.update(i, x)),
{
    let next = stars.update(i, x);
    assert(all_valid(next)) by {
        assert forall|j: int| 0 <= j < next.len() implies valid_stars(#[trigger] next[j] as int) by {
            if j != i {
                assert(next[j] == stars[j]);
            }
        }
    }
    lemma_counts_total(stars);
    lemma_count_at_least_one(stars, i);
    assert forall|k: int| 1 <= k <= 5 implies #[trigger] after.bucket(k) == count_of(next, k) by {
        lemma_count_update(stars, i, x, k);
        assert(before.bucket(k) == count_of(stars, k));
    }
    lemma_count_update(stars, i, x, 0);
}

/// An aggregate that summarizes some ratings can take any change of one
/// of them, and any first rating while the number of ratings is below the
/// limit of its counter.
pub proof fn lemma_summary_can_change(stats: RatingStats, stars: Seq<u8>, i: int, x: u8)
    requires
        stats.summarizes(stars),
        valid_stars(x as int),
    ensures
        0 <= i < stars.len() ==> stats.can_replace(stars[i] as int, x as int),
        stats.total_ratings < u32::MAX ==> stats.can_add(x as int),
{
    lemma_counts_total(stars);
    let total = stats.total_ratings as int;
    let sum = stats.sum_stars as int;
    if 0 <= i < stars.len() {
        let from = stars[i] as int;
        lemma_count_update(stars, i, x, from);
        lemma_count_update(stars, i, x, x as int);
        let next = stars.update(i, x);
        assert(all_valid(next)) by {
            assert forall|j: int| 0 <= j < next.len() implies valid_stars(
                #[trigger] next[j] as int,
            ) by {
                if j != i {
                    assert(next[j] == stars[j]);
                }
            }
        }
        lemma_counts_total(next);
        lemma_count_at_least_one(stars, i);
        lemma_average_bounded(sum - from + x, total);
    }
    if stats.total_ratings < u32::MAX {
        lemma_average_bounded(sum + x, total + 1);
    }
}

/// A value that occurs in a sequence is counted at least once.
pub proof fn lemma_count_at_least_one(stars: Seq<u8>, i: int)
    requires
        0 <= i < stars.len(),
    ensures
        count_of(stars, stars[i] as int) >= 1,
    decreases stars.len(),
{
    if i == stars.len() - 1 {
        lemma_count_nonnegative(stars.drop_last(), stars[i] as int);
    } else {
        lemma_count_at_least_one(stars.drop_last(), i);
    }
}

/// A count is never negative.
pub proof fn lemma_count_nonnegative(stars: Seq<u8>, k: int)
    ensures
        count_of(stars, k) >= 0,
    decreases stars.len(),
{
    if stars.len() > 0 {
        lemma_count_nonnegative(stars.drop_last(), k);
    }
}

/// The scaled average of ratings of at most five stars is at most 500.
pub proof fn lemma_average_bounded(sum: int, total: int)
    requires
        0 <= sum <= 5 * total,
    ensures
        0 <= average_of(sum, total) <= 500,
{
    if total > 0 {
        assert(sum * 100 / total <= 500) by (nonlinear_arith)
            requires
                total > 0,
                0 <= sum * 100 <= 500 * total,
        ;
        assert(0 <= sum * 100 / total) by (nonlinear_arith)
            requires
                total > 0,
                0 <= sum * 100,
        ;
    }
}

} // verus!
