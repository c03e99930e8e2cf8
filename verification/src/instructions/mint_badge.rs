//! Issuing a badge.

use vstd::prelude::*;
use crate::errors::CouponError;
use crate::events::BadgeEarned;
use crate::identity::Identity;
use crate::state::badge::{
    eligible,
    lemma_badges_bounded,
    slot_wf,
    standing,
    BadgeNFT,
    BadgeType,
    ReputationTier,
    UserReputation,
    MAX_METADATA_URI_LEN,
};

verus! {

/// Why a badge is refused, if it is. The guards, in order: the reputation
/// record, if there is one, is the user's; the user has not earned the
/// badge before; the counters meet the badge's condition, which for a user
/// without a record only a badge of standing does; the link to the
/// metadata has at most 200 characters (else `DescriptionTooLong`).
pub open spec fn refusal(
    reputation: Option<UserReputation>,
    user: Identity,
    badge_type: BadgeType,
    metadata_uri: Seq<char>,
) -> Option<CouponError> {
    if reputation is Some && reputation->0.user != user {
        Some(CouponError::AccountMismatch)
    } else if reputation is Some && reputation->0.badges_earned@.contains(badge_type) {
        Some(CouponError::AlreadyEarned)
    } else if !(match reputation {
        Some(record) => eligible(record, badge_type),
        None => standing(badge_type),
    }) {
        Some(CouponError::NotEligible)
    } else if metadata_uri.len() > 200 {
        Some(CouponError::DescriptionTooLong)
    } else {
        None
    }
}

/// Whether `after` is what issuing `badge_type` to `user` at `now` makes
/// of `before`: the record there was with the badge appended to its
/// badges, or, where there was none, a record created at `now` that holds
/// this one badge. Nothing else differs.
pub open spec fn granted(
    before: Option<UserReputation>,
    after: Option<UserReputation>,
    user: Identity,
    badge_type: BadgeType,
    now: i64,
) -> bool {
    &&& after is Some
    &&& match before {
        Some(record) => {
            &&& after->0.user == record.user
            &&& after->0.total_purchases == record.total_purchases
            &&& after->0.total_redemptions == record.total_redemptions
            &&& after->0.total_ratings_given == record.total_ratings_given
            &&& after->0.total_comments == record.total_comments
            &&& after->0.reputation_score == record.reputation_score
            &&& after->0.tier == record.tier
            &&& after->0.badges_earned@ == record.badges_earned@.push(badge_type)
            &&& after->0.joined_at == record.joined_at
        },
        None => {
            &&& after->0.user == user
            &&& after->0.total_purchases == 0
            &&& after->0.total_redemptions == 0
            &&& after->0.total_ratings_given == 0
            &&& after->0.total_comments == 0
            &&& after->0.reputation_score == 0
            &&& after->0.tier == ReputationTier::Bronze
            &&& after->0.badges_earned@ == Seq::<BadgeType>::empty().push(badge_type)
            &&& after->0.joined_at == now
        },
    }
}

/// Tests whether the badge `badge_type` can be issued to `user`, whose
/// reputation record is `reputation` if the user has one.
pub fn check(
    reputation: Option<&UserReputation>,
    user: &Identity,
    badge_type: BadgeType,
    metadata_uri: &String,
) -> (r: Result<(), CouponError>)
    ensures
        r == match refusal(
            match reputation {
                Some(record) => Some(*record),
                None => None,
            },
            *user,
            badge_type,
            metadata_uri@,
        ) {
            Some(e) => Err::<(), CouponError>(e),
            None => Ok::<(), CouponError>(()),
        },
{
    let qualifies = match reputation {
        Some(record) => {
            if record.user != *user {
                return Err(CouponError::AccountMismatch);
            }
            if record.has_badge(badge_type) {
                return Err(CouponError::AlreadyEarned);
            }
            record.is_eligible(badge_type)
        },
        None => match badge_type {
            BadgeType::EarlyAdopter | BadgeType::MerchantPartner | BadgeType::CommunityModerator => true,
            _ => false,
        },
    };
    if !qualifies {
        return Err(CouponError::NotEligible);
    }
    if metadata_uri.as_str().unicode_len() > MAX_METADATA_URI_LEN {
        return Err(CouponError::DescriptionTooLong);
    }
    Ok(())
}

/// Appends a badge that the record does not hold yet.
fn append_badge(reputation: &mut UserReputation, badge_type: BadgeType)
    requires
        !old(reputation).badges_earned@.contains(badge_type),
    ensures
        granted(
            Some(*old(reputation)),
            Some(*final(reputation)),
            old(reputation).user,
            badge_type,
            old(reputation).joined_at,
        ),
        old(reputation).wf() ==> final(reputation).wf() && final(reputation).badges_earned@.len()
            <= 10,
{
    reputation.badges_earned.push(badge_type);
    proof {
        let before = old(reputation).badges_earned@;
        let after = reputation.badges_earned@;
        if before.no_duplicates() {
            assert forall|i: int, j: int|
                0 <= i < after.len() && 0 <= j < after.len() && i != j implies after[i]
                != after[j] by {
                if i < before.len() && j < before.len() {
                    assert(before[i] != before[j]);
                } else if i < before.len() {
                    assert(before.contains(before[i]));
                } else {
                    assert(before.contains(before[j]));
                }
            }
            lemma_badges_bounded(after);
        }
    }
}

/// Issues the badge `badge_type` to `user`.
///
/// `reputation` is the user's reputation record, or nothing if the user
/// has none yet: the record is then created. `badge_key` is the address
/// under which the badge's record will be kept, `mint` the token that
/// stands for the badge and `metadata_uri` the link to its metadata. On
/// success the badge is the last of the user's badges and the event names
/// the token to mint.
pub fn handler(
    reputation: &mut Option<UserReputation>,
    badge_key: Identity,
    user: Identity,
    badge_type: BadgeType,
    mint: Identity,
    metadata_uri: String,
    now: i64,
) -> (r: Result<(BadgeNFT, BadgeEarned), CouponError>)
    ensures
        match r {
            Ok((badge, event)) => {
                &&& refusal(*old(reputation), user, badge_type, metadata_uri@) is None
                &&& granted(*old(reputation), *final(reputation), user, badge_type, now)
                &&& badge == (BadgeNFT { user, badge_type, mint, earned_at: now, metadata_uri })
                &&& badge.wf()
                &&& event == (BadgeEarned { user, badge_type, mint })
            },
            Err(e) => {
                &&& refusal(*old(reputation), user, badge_type, metadata_uri@) == Some(e)
                &&& *final(reputation) == *old(reputation)
            },
        },
        slot_wf(*old(reputation)) ==> slot_wf(*final(reputation)),
        slot_wf(*old(reputation)) && r is Ok ==> final(reputation)->0.badges_earned@.len() <= 10,
{
    let verdict = match reputation {
        Some(record) => check(Some(record), &user, badge_type, &metadata_uri),
        None => check(None, &user, badge_type, &metadata_uri),
    };
    match verdict {
        Ok(()) => {},
        Err(e) => {
            return Err(e);
        },
    }
    match reputation {
        Some(record) => {
            append_badge(record, badge_type);
        },
        None => {
            let mut record = UserReputation::new(user, now);
            append_badge(&mut record, badge_type);
            *reputation = Some(record);
        },
    }
    Ok((
        BadgeNFT { user, badge_type, mint, earned_at: now, metadata_uri },
        BadgeEarned { user, badge_type, mint },
    ))
}

/// A badge is issued once. After it has been issued to a user, a second
/// request for it reports `AlreadyEarned`, and so does any later one,
/// whatever badges the user has earned in between.
pub proof fn lemma_badge_issued_once(
    before: Option<UserReputation>,
    after: Option<UserReputation>,
    later: UserReputation,
    user: Identity,
    badge_type: BadgeType,
    metadata_uri: Seq<char>,
    now: i64,
)
    requires
        refusal(before, user, badge_type, metadata_uri) is None,
        granted(before, after, user, badge_type, now),
        later.user == user,
        after->0.badges_earned@.is_prefix_of(later.badges_earned@),
    ensures
        refusal(after, user, badge_type, metadata_uri) == Some(CouponError::AlreadyEarned),
        refusal(Some(later), user, badge_type, metadata_uri) == Some(CouponError::AlreadyEarned),
{
    let held = after->0.badges_earned@;
    let n = held.len() - 1;
    assert(later.badges_earned@[n] == held[n]);
}

} // verus!
