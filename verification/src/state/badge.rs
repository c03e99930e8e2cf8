//! Reputation: activity counters, a score, the tier derived from it, and
//! the badges a user has earned.

use vstd::prelude::*;
use crate::errors::CouponError;
use crate::identity::Identity;

verus! {

/// Points for minting a coupon.
pub const POINTS_PER_PURCHASE: u64 = 10;

/// Points for redeeming a coupon.
pub const POINTS_PER_REDEMPTION: u64 = 20;

/// Points for a first rating of a promotion.
pub const POINTS_PER_RATING: u64 = 5;

/// Points for a comment.
pub const POINTS_PER_COMMENT: u64 = 2;

/// Most badges that a user can hold.
pub const MAX_BADGES: usize = 10;

/// Longest link to a badge's metadata, in characters.
pub const MAX_METADATA_URI_LEN: usize = 200;

/// The rank that a score earns.
#[derive(Clone, Copy, Debug, PartialEq, Eq, Hash, Structural)]
pub enum ReputationTier {
    Bronze,
    Silver,
    Gold,
    Platinum,
    Diamond,
}

/// The achievements that a user can earn, each at most once.
#[derive(Clone, Copy, Debug, PartialEq, Eq, Hash, Structural)]
pub enum BadgeType {
    FirstPurchase,
    TenRedemptions,
    FiftyRedemptions,
    TopReviewer,
    EarlyAdopter,
    MerchantPartner,
    CommunityModerator,
}

/// An action that earns reputation.
#[derive(Clone, Copy, Debug, PartialEq, Eq, Hash, Structural)]
pub enum Activity {
    /// A coupon was minted to the user.
    Purchase,
    /// The user redeemed a coupon.
    Redemption,
    /// The user rated a promotion for the first time.
    Rating,
    /// The user posted a comment.
    Comment,
}

/// The tier of a score: Bronze below 100, Silver below 500, Gold below
/// 2000, Platinum below 5000, Diamond from there on.
pub open spec fn tier_of(score: int) -> ReputationTier {
    if score < 100 {
        ReputationTier::Bronze
    } else if score < 500 {
        ReputationTier::Silver
    } else if score < 2000 {
        ReputationTier::Gold
    } else if score < 5000 {
        ReputationTier::Platinum
    } else {
        ReputationTier::Diamond
    }
}

/// Computes the tier of a score.
pub fn tier_for_score(score: u64) -> (tier: ReputationTier)
    ensures
        tier == tier_of(score as int),
{
    if score < 100 {
        ReputationTier::Bronze
    } else if score < 500 {
        ReputationTier::Silver
    } else if score < 2000 {
        ReputationTier::Gold
    } else if score < 5000 {
        ReputationTier::Platinum
    } else {
        ReputationTier::Diamond
    }
}

impl ReputationTier {
    /// The position of the tier, Bronze being 0 and Diamond 4.
    pub open spec fn rank(self) -> int {
        match self {
            ReputationTier::Bronze => 0,
            ReputationTier::Silver => 1,
            ReputationTier::Gold => 2,
            ReputationTier::Platinum => 3,
            ReputationTier::Diamond => 4,
        }
    }
}

/// A higher score never earns a lower tier.
pub proof fn lemma_tier_monotonic(low: int, high: int)
    requires
        low <= high,
    ensures
        tier_of(low).rank() <= tier_of(high).rank(),
{
}

impl Activity {
    /// The points that the action earns.
    pub open spec fn spec_points(self) -> int {
        match self {
            Activity::Purchase => 10,
            Activity::Redemption => 20,
            Activity::Rating => 5,
            Activity::Comment => 2,
        }
    }

    /// The points that the action earns.
    pub fn points(&self) -> (p: u64)
        ensures
            p == self.spec_points(),
    {
        match self {
            Activity::Purchase => POINTS_PER_PURCHASE,
            Activity::Redemption => POINTS_PER_REDEMPTION,
            Activity::Rating => POINTS_PER_RATING,
            Activity::Comment => POINTS_PER_COMMENT,
        }
    }
}

impl BadgeType {
    /// The number of the badge type, from 0 for `FirstPurchase` to 6 for
    /// `CommunityModerator`.
    pub open spec fn spec_code(self) -> int {
        match self {
            BadgeType::FirstPurchase => 0,
            BadgeType::TenRedemptions => 1,
            BadgeType::FiftyRedemptions => 2,
            BadgeType::TopReviewer => 3,
            BadgeType::EarlyAdopter => 4,
            BadgeType::MerchantPartner => 5,
            BadgeType::CommunityModerator => 6,
        }
    }

    /// The number of the badge type.
    pub fn code(&self) -> (c: u8)
        ensures
            c == self.spec_code(),
    {
        match self {
            BadgeType::FirstPurchase => 0,
            BadgeType::TenRedemptions => 1,
            BadgeType::FiftyRedemptions => 2,
            BadgeType::TopReviewer => 3,
            BadgeType::EarlyAdopter => 4,
            BadgeType::MerchantPartner => 5,
            BadgeType::CommunityModerator => 6,
        }
    }
}

/// The reputation of one user.
#[derive(Clone, Debug, PartialEq, Eq)]
pub struct UserReputation {
    /// Whose reputation this is.
    pub user: Identity,
    /// Coupons minted to the user.
    pub total_purchases: u32,
    /// Coupons the user redeemed.
    pub total_redemptions: u32,
    /// Promotions the user rated.
    pub total_ratings_given: u32,
    /// Comments the user posted.
    pub total_comments: u32,
    /// Points earned so far; never decreases.
    pub reputation_score: u64,
    /// The tier of the score.
    pub tier: ReputationTier,
    /// Badges earned, in the order in which they were earned.
    pub badges_earned: Vec<BadgeType>,
    /// When the record was created.
    pub joined_at: i64,
}

/// The record of a badge that a user has earned.
#[derive(Clone, Debug, PartialEq, Eq)]
pub struct BadgeNFT {
    /// Who earned the badge.
    pub user: Identity,
    /// Which badge it is.
    pub badge_type: BadgeType,
    /// The token that stands for the badge.
    pub mint: Identity,
    /// When the badge was earned.
    pub earned_at: i64,
    /// Where the badge's metadata can be found.
    pub metadata_uri: String,
}

impl BadgeNFT {
    /// The link has at most 200 characters.
    pub open spec fn wf(&self) -> bool {
        self.metadata_uri@.len() <= 200
    }
}

/// Whether `badge` is a badge of standing, which has no condition on the
/// counters: `EarlyAdopter`, `MerchantPartner` or `CommunityModerator`.
pub open spec fn standing(badge: BadgeType) -> bool {
    badge == BadgeType::EarlyAdopter || badge == BadgeType::MerchantPartner || badge
        == BadgeType::CommunityModerator
}

/// Whether the counters of `reputation` meet the condition of `badge`.
///
/// `FirstPurchase` asks for one purchase, `TenRedemptions` and
/// `FiftyRedemptions` for ten and fifty redemptions, `TopReviewer` for
/// fifty ratings given. The badges of standing ask for nothing.
pub open spec fn eligible(reputation: UserReputation, badge: BadgeType) -> bool {
    match badge {
        BadgeType::FirstPurchase => reputation.total_purchases >= 1,
        BadgeType::TenRedemptions => reputation.total_redemptions >= 10,
        BadgeType::FiftyRedemptions => reputation.total_redemptions >= 50,
        BadgeType::TopReviewer => reputation.total_ratings_given >= 50,
        BadgeType::EarlyAdopter => true,
        BadgeType::MerchantPartner => true,
        BadgeType::CommunityModerator => true,
    }
}

/// Whether a reputation record, where there is one, is well formed.
pub open spec fn slot_wf(slot: Option<UserReputation>) -> bool {
    slot matches Some(reputation) ==> reputation.wf()
}

/// Why `activity` cannot be recorded for `user` in `slot`, if so: the
/// record in the slot belongs to somebody else (`AccountMismatch`), or a
/// number would leave its range (`ArithmeticOverflow`). An empty slot
/// refuses nothing.
pub open spec fn award_refusal(
    slot: Option<UserReputation>,
    user: Identity,
    activity: Activity,
) -> Option<CouponError> {
    match slot {
        None => None,
        Some(reputation) => if reputation.user != user {
            Some(CouponError::AccountMismatch)
        } else if !reputation.can_award(activity) {
            Some(CouponError::ArithmeticOverflow)
        } else {
            None
        },
    }
}

/// Whether `after` is what recording `activity` for `user` at `now` makes
/// of `before`: the record there was with the activity recorded, or, where
/// there was none, a record created at `now` that holds this one activity.
pub open spec fn award_applied(
    before: Option<UserReputation>,
    after: Option<UserReputation>,
    user: Identity,
    now: i64,
    activity: Activity,
) -> bool {
    match before {
        Some(reputation) => after == Some(reputation.awarded(activity)),
        None => {
            &&& after is Some
            &&& after->0.user == user
            &&& after->0.joined_at == now
            &&& after->0.total_purchases == if activity == Activity::Purchase {
                1u32
            } else {
                0u32
            }
            &&& after->0.total_redemptions == if activity == Activity::Redemption {
                1u32
            } else {
                0u32
            }
            &&& after->0.total_ratings_given == if activity == Activity::Rating {
                1u32
            } else {
                0u32
            }
            &&& after->0.total_comments == if activity == Activity::Comment {
                1u32
            } else {
                0u32
            }
            &&& after->0.reputation_score == activity.spec_points()
            &&& after->0.tier == ReputationTier::Bronze
            &&& after->0.badges_earned@ == Seq::<BadgeType>::empty()
        },
    }
}

/// Tests whether `activity` can be recorded for `user` in `slot`.
pub fn check_award_to(slot: &Option<UserReputation>, user: &Identity, activity: Activity) -> (r:
    Result<(), CouponError>)
    ensures
        r == match award_refusal(*slot, *user, activity) {
            Some(e) => Err::<(), CouponError>(e),
            None => Ok::<(), CouponError>(()),
        },
{
    match slot {
        None => Ok(()),
        Some(reputation) => {
            if reputation.user != *user {
                Err(CouponError::AccountMismatch)
            } else if !reputation.check_award(activity) {
                Err(CouponError::ArithmeticOverflow)
            } else {
                Ok(())
            }
        },
    }
}

/// Records `activity` for `user` in `slot`, creating the user's record
/// where the slot is empty, or reports why it cannot and changes nothing.
pub fn award_to(slot: &mut Option<UserReputation>, user: Identity, now: i64, activity: Activity) -> (r:
    Result<(), CouponError>)
    ensures
        match r {
            Ok(()) => {
                &&& award_refusal(*old(slot), user, activity) is None
                &&& award_applied(*old(slot), *final(slot), user, now, activity)
            },
            Err(e) => {
                &&& award_refusal(*old(slot), user, activity) == Some(e)
                &&& *final(slot) == *old(slot)
            },
        },
        slot_wf(*old(slot)) ==> slot_wf(*final(slot)),
        *final(slot) matches Some(after) ==> (match *old(slot) {
            Some(before) => after.user == before.user,
            None => after.user == user,
        }),
        *old(slot) is Some ==> *final(slot) is Some,
{
    match check_award_to(slot, &user, activity) {
        Ok(()) => {},
        Err(e) => {
            return Err(e);
        },
    }
    match slot {
        Some(reputation) => {
            let awarded = reputation.award(activity);
            assert(awarded is Ok);
        },
        None => {
            let mut reputation = UserReputation::new(user, now);
            let awarded = reputation.award(activity);
            assert(awarded is Ok);
            *slot = Some(reputation);
        },
    }
    Ok(())
}

impl UserReputation {
    /// The tier is that of the score, and no badge occurs twice.
    pub open spec fn wf(&self) -> bool {
        &&& self.tier == tier_of(self.reputation_score as int)
        &&& self.badges_earned@.no_duplicates()
    }

    /// Whether this is a fresh record for `user`, created at `now`.
    pub open spec fn is_new(&self, user: Identity, now: i64) -> bool {
        &&& self.user == user
        &&& self.total_purchases == 0
        &&& self.total_redemptions == 0
        &&& self.total_ratings_given == 0
        &&& self.total_comments == 0
        &&& self.reputation_score == 0
        &&& self.tier == ReputationTier::Bronze
        &&& self.badges_earned@ == Seq::<BadgeType>::empty()
        &&& self.joined_at == now
    }

    /// The counter that `activity` increments.
    pub open spec fn counter(&self, activity: Activity) -> u32 {
        match activity {
            Activity::Purchase => self.total_purchases,
            Activity::Redemption => self.total_redemptions,
            Activity::Rating => self.total_ratings_given,
            Activity::Comment => self.total_comments,
        }
    }

    /// Whether `activity` can be recorded without a number leaving its range.
    pub open spec fn can_award(&self, activity: Activity) -> bool {
        &&& self.counter(activity) < u32::MAX
        &&& self.reputation_score + activity.spec_points() <= u64::MAX
    }

    /// The record after `activity`: its counter one higher, the score
    /// higher by the activity's points, the tier that of the new score.
    pub open spec fn awarded(&self, activity: Activity) -> UserReputation {
        let score = (self.reputation_score + activity.spec_points()) as u64;
        let base = UserReputation { reputation_score: score, tier: tier_of(score as int), ..*self };
        match activity {
            Activity::Purchase => UserReputation {
                total_purchases: (self.total_purchases + 1) as u32,
                ..base
            },
            Activity::Redemption => UserReputation {
                total_redemptions: (self.total_redemptions + 1) as u32,
                ..base
            },
            Activity::Rating => UserReputation {
                total_ratings_given: (self.total_ratings_given + 1) as u32,
                ..base
            },
            Activity::Comment => UserReputation {
                total_comments: (self.total_comments + 1) as u32,
                ..base
            },
        }
    }

    /// A fresh record for `user`, created at `now`.
    pub fn new(user: Identity, now: i64) -> (r: UserReputation)
        ensures
            r.is_new(user, now),
            r.wf(),
    {
        UserReputation {
            user,
            total_purchases: 0,
            total_redemptions: 0,
            total_ratings_given: 0,
            total_comments: 0,
            reputation_score: 0,
            tier: ReputationTier::Bronze,
            badges_earned: Vec::new(),
            joined_at: now,
        }
    }

    /// Tests whether `activity` can be recorded.
    pub fn check_award(&self, activity: Activity) -> (r: bool)
        ensures
            r == self.can_award(activity),
    {
        let counter: u32 = match activity {
            Activity::Purchase => self.total_purchases,
            Activity::Redemption => self.total_redemptions,
            Activity::Rating => self.total_ratings_given,
            Activity::Comment => self.total_comments,
        };
        counter < u32::MAX && self.reputation_score <= u64::MAX - activity.points()
    }

    /// Records `activity`, or reports `ArithmeticOverflow` and changes
    /// nothing when a counter or the score would leave its range.
    pub fn award(&mut self, activity: Activity) -> (r: Result<(), CouponError>)
        ensures
            old(self).can_award(activity) ==> r == Ok::<(), CouponError>(()) && *final(self) == old(self).awarded(activity),
            !old(self).can_award(activity) ==> r == Err::<(), CouponError>(
                CouponError::ArithmeticOverflow,
            ) && *final(self) == *old(self),
            old(self).wf() ==> final(self).wf(),
            final(self).reputation_score >= old(self).reputation_score,
            tier_of(final(self).reputation_score as int).rank() >= tier_of(
                old(self).reputation_score as int,
            ).rank(),
    {
        if !self.check_award(activity) {
            return Err(CouponError::ArithmeticOverflow);
        }
        let score: u64 = self.reputation_score + activity.points();
        match activity {
            Activity::Purchase => {
                self.total_purchases = self.total_purchases + 1;
            },
            Activity::Redemption => {
                self.total_redemptions = self.total_redemptions + 1;
            },
            Activity::Rating => {
                self.total_ratings_given = self.total_ratings_given + 1;
            },
            Activity::Comment => {
                self.total_comments = self.total_comments + 1;
            },
        }
        self.reputation_score = score;
        self.tier = tier_for_score(score);
        Ok(())
    }

    /// Tests whether the user has earned `badge`.
    pub fn has_badge(&self, badge: BadgeType) -> (r: bool)
        ensures
            r == self.badges_earned@.contains(badge),
    {
        let mut i: usize = 0;
        while i < self.badges_earned.len()
            invariant
                i <= self.badges_earned.len(),
                forall|j: int| 0 <= j < i ==> self.badges_earned@[j] != badge,
            decreases self.badges_earned.len() - i,
        {
            if self.badges_earned[i] == badge {
                return true;
            }
            i += 1;
        }
        false
    }

    /// Tests whether the counters meet the condition of `badge`.
    pub fn is_eligible(&self, badge: BadgeType) -> (r: bool)
        ensures
            r == eligible(*self, badge),
    {
        match badge {
            BadgeType::FirstPurchase => self.total_purchases >= 1,
            BadgeType::TenRedemptions => self.total_redemptions >= 10,
            BadgeType::FiftyRedemptions => self.total_redemptions >= 50,
            BadgeType::TopReviewer => self.total_ratings_given >= 50,
            BadgeType::EarlyAdopter => true,
            BadgeType::MerchantPartner => true,
            BadgeType::CommunityModerator => true,
        }
    }
}

/// A list of badges without repetition has at most seven entries, one for
/// each badge type, and so stays within the limit of ten.
pub proof fn lemma_badges_bounded(badges: Seq<BadgeType>)
    requires
        badges.no_duplicates(),
    ensures
        badges.len() <= 7,
        badges.len() <= MAX_BADGES,
{
    let codes = badges.map_values(|b: BadgeType| b.spec_code());
    assert(codes.no_duplicates()) by {
        assert forall|i: int, j: int|
            0 <= i < codes.len() && 0 <= j < codes.len() && i != j implies codes[i]
            != codes[j] by {
            assert(badges[i] != badges[j]);
        }
    }
    let range = vstd::set_lib::set_int_range(0, 7);
    assert(codes.to_set().subset_of(range)) by {
        assert forall|c: int| codes.to_set().contains(c) implies range.contains(c) by {
            let i = choose|i: int| 0 <= i < codes.len() && codes[i] == c;
            assert(codes[i] == badges[i].spec_code());
        }
    }
    vstd::set_lib::lemma_int_range(0, 7);
    vstd::set_lib::lemma_len_subset(codes.to_set(), range);
    codes.unique_seq_to_set();
}

} // verus!
