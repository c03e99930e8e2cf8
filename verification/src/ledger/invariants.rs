//! What holds of every well-formed ledger.

use vstd::prelude::*;
use crate::errors::CouponError;
use crate::events::BadgeEarned;
use crate::identity::Identity;
use crate::ledger::{stars_for, Ledger};
use crate::state::badge::{lemma_badges_bounded, BadgeType};
use crate::state::rating::{count_of, lemma_summary_wf, sum_of};

verus! {

/// No promotion has minted more than its supply, and a promotion whose
/// supply is used up refuses every mint.
pub proof fn lemma_supply_within_bounds(
    ledger: Ledger,
    coupon: Identity,
    promotion: Identity,
    merchant: Identity,
    recipient: Identity,
    now: i64,
)
    requires
        ledger.wf(),
        ledger@.promotions.contains_key(promotion@),
    ensures
        0 <= ledger@.promotions[promotion@].current_supply
            <= ledger@.promotions[promotion@].max_supply,
        ledger@.promotions[promotion@].current_supply == ledger@.promotions[promotion@].max_supply
            ==> ledger.mint_refusal(coupon, promotion, merchant, recipient, now) is Some,
{
}

/// Redemption is final: once a coupon has been redeemed, listing,
/// transferring, buying and redeeming it are refused in every later state
/// of the ledger, whoever asks, whenever, and at whatever price.
pub proof fn lemma_redeemed_coupon_is_dead(
    ledger: Ledger,
    later: Ledger,
    coupon: Identity,
    merchant: Identity,
    actor: Identity,
    merchant_authority: Identity,
    price: u64,
    now: i64,
)
    requires
        ledger@.coupons.contains_key(coupon@),
        ledger@.coupons[coupon@].is_redeemed,
        ledger.extends_to(later),
    ensures
        later@.coupons.contains_key(coupon@),
        later@.coupons[coupon@].is_redeemed,
        later.list_refusal(coupon, actor, price, now) is Some,
        later.transfer_refusal(coupon, actor) == Some(CouponError::CouponAlreadyRedeemed),
        later.buy_refusal(coupon, now) is Some,
        later.redeem_refusal(coupon, merchant, actor, merchant_authority, now) is Some,
{
}

/// The aggregate of a promotion agrees with the ratings of the promotion
/// as they stand: its sum of stars is the sum of their stars, each of its
/// buckets counts the ratings with that many stars, and the buckets add up
/// to the number of ratings.
pub proof fn lemma_aggregate_agrees(ledger: Ledger, promotion: Identity)
    requires
        ledger.wf(),
        ledger@.rating_stats.contains_key(promotion@),
    ensures
        ({
            let stats = ledger@.rating_stats[promotion@];
            let stars = stars_for(ledger.ratings.values@, promotion@);
            &&& stats.total_ratings == stars.len()
            &&& stats.sum_stars == sum_of(stars)
            &&& forall|k: int| 1 <= k <= 5 ==> #[trigger] stats.bucket(k) == count_of(stars, k)
            &&& stats.bucket(1) + stats.bucket(2) + stats.bucket(3) + stats.bucket(4)
                + stats.bucket(5) == stats.total_ratings
            &&& stats.wf()
        }),
{
    let stats = ledger@.rating_stats[promotion@];
    let stars = stars_for(ledger.ratings.values@, promotion@);
    lemma_summary_wf(stats, stars);
}

/// A user and a promotion have at most one rating between them.
pub proof fn lemma_one_rating_each(ledger: Ledger, i: int, j: int)
    requires
        ledger.wf(),
        0 <= i < ledger.ratings.values@.len(),
        0 <= j < ledger.ratings.values@.len(),
        ledger.ratings.values@[i].user == ledger.ratings.values@[j].user,
        ledger.ratings.values@[i].promotion == ledger.ratings.values@[j].promotion,
    ensures
        i == j,
{
    let views = ledger.ratings.key_views();
    assert(views[i] == ledger.ratings.keys@[i]@);
    assert(views[j] == ledger.ratings.keys@[j]@);
}

/// No user holds a badge twice, and none holds more than ten.
pub proof fn lemma_badges_unique(ledger: Ledger, user: Identity)
    requires
        ledger.wf(),
        ledger@.reputations.contains_key(user@),
    ensures
        ledger@.reputations[user@].badges_earned@.no_duplicates(),
        ledger@.reputations[user@].badges_earned@.len() <= 10,
{
    lemma_badges_bounded(ledger@.reputations[user@].badges_earned@);
}

/// The marketplace never charges more than the whole price.
pub proof fn lemma_fee_within_bounds(ledger: Ledger, price: u64)
    requires
        ledger.wf(),
        ledger@.marketplace is Some,
    ensures
        0 <= ledger@.marketplace->0.fee_basis_points <= 10_000,
        0 <= crate::state::marketplace::fee_of(
            price as int,
            ledger@.marketplace->0.fee_basis_points as int,
        ) <= price,
{
    crate::state::marketplace::lemma_fee_split(
        price as int,
        ledger@.marketplace->0.fee_basis_points as int,
    );
}

/// A badge is issued once: after a badge has been issued to a user, every
/// further request for that badge and user is refused with
/// `AlreadyEarned`, in every later state of the ledger, at whatever
/// address and with whatever link.
pub proof fn lemma_badge_issued_once(
    before: Ledger,
    after: Ledger,
    later: Ledger,
    event: BadgeEarned,
    badge: Identity,
    user: Identity,
    badge_type: BadgeType,
    mint: Identity,
    metadata_uri: String,
    now: i64,
    again: Identity,
    link: Seq<char>,
)
    requires
        after.wf(),
        later.wf(),
        before.badge_outcome(
            after,
            Ok::<BadgeEarned, CouponError>(event),
            badge,
            user,
            badge_type,
            mint,
            metadata_uri,
            now,
        ),
        after.extends_to(later),
    ensures
        after.badge_refusal(again, user, badge_type, link) == Some(CouponError::AlreadyEarned),
        later.badge_refusal(again, user, badge_type, link) == Some(CouponError::AlreadyEarned),
{
    let held = after@.reputations[user@].badges_earned@;
    let last = held.len() - 1;
    assert(held[last] == badge_type);
    assert(later@.reputations[user@].badges_earned@[last] == badge_type);
    crate::identity::lemma_identity_by_view(after@.reputations[user@].user, user);
    crate::identity::lemma_identity_by_view(later@.reputations[user@].user, user);
}

/// The supply in use of a promotion never goes down and never passes the
/// supply: in every later state of a ledger it is at least what it was
/// and at most the supply.
pub proof fn lemma_supply_only_grows(ledger: Ledger, later: Ledger, promotion: Identity)
    requires
        ledger@.promotions.contains_key(promotion@),
        ledger.extends_to(later),
        later.wf(),
    ensures
        later@.promotions.contains_key(promotion@),
        ledger@.promotions[promotion@].current_supply
            <= later@.promotions[promotion@].current_supply
            <= later@.promotions[promotion@].max_supply,
        later@.promotions[promotion@].max_supply == ledger@.promotions[promotion@].max_supply,
{
}

/// What a ledger holds for good it holds through any number of
/// operations: keeping is reflexive and transitive.
pub proof fn lemma_kept_through_history(first: Ledger, second: Ledger, third: Ledger)
    requires
        first.extends_to(second),
        second.extends_to(third),
    ensures
        first.extends_to(first),
        first.extends_to(third),
{
    assert forall|key: Seq<u8>| #[trigger] first@.reputations.contains_key(key) implies {
        &&& third@.reputations.contains_key(key)
        &&& first@.reputations[key].badges_earned@.len() <= third@.reputations[key].badges_earned@.len()
        &&& forall|i: int|
            0 <= i < first@.reputations[key].badges_earned@.len()
                ==> third@.reputations[key].badges_earned@[i]
                == first@.reputations[key].badges_earned@[i]
    } by {
        assert(second@.reputations.contains_key(key));
    }
}

} // verus!
