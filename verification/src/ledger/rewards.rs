//! Badges.

use vstd::prelude::*;
use crate::errors::CouponError;
use crate::events::BadgeEarned;
use crate::identity::Identity;
use crate::instructions::mint_badge;
use crate::ledger::{borrow_reputation, return_reputation, Ledger, LedgerView};
use crate::state::badge::{BadgeNFT, BadgeType};

verus! {

impl Ledger {
    /// Why a badge is refused, if it is: the transaction refuses, or else
    /// the address `badge` is taken (`AccountInUse`).
    pub open spec fn badge_refusal(
        &self,
        badge: Identity,
        user: Identity,
        badge_type: BadgeType,
        metadata_uri: Seq<char>,
    ) -> Option<CouponError> {
        if mint_badge::refusal(self.reputation_of(user), user, badge_type, metadata_uri) is Some {
            mint_badge::refusal(self.reputation_of(user), user, badge_type, metadata_uri)
        } else if self@.badges.contains_key(badge@) {
            Some(CouponError::AccountInUse)
        } else {
            None
        }
    }
}

impl Ledger {
    /// Whether `after` and `r` are the ledger and the answer that issuing
    /// a badge as described, its record kept under `badge`, makes of this
    /// ledger.
    pub open spec fn badge_outcome(
        &self,
        after: Ledger,
        r: Result<BadgeEarned, CouponError>,
        badge: Identity,
        user: Identity,
        badge_type: BadgeType,
        mint: Identity,
        metadata_uri: String,
        now: i64,
    ) -> bool {
        match r {
            Ok(event) => {
                &&& self.badge_refusal(badge, user, badge_type, metadata_uri@) is None
                &&& after@ == (LedgerView {
                    badges: self@.badges.insert(
                        badge@,
                        BadgeNFT { user, badge_type, mint, earned_at: now, metadata_uri },
                    ),
                    reputations: after@.reputations,
                    ..self@
                })
                &&& self.reputation_changed(after@.reputations, user)
                &&& mint_badge::granted(
                    self.reputation_of(user),
                    Some(after@.reputations[user@]),
                    user,
                    badge_type,
                    now,
                )
                &&& after@.reputations[user@].badges_earned@.len() <= 10
                &&& event == (BadgeEarned { user, badge_type, mint })
            },
            Err(e) => {
                &&& self.badge_refusal(badge, user, badge_type, metadata_uri@) == Some(e)
                &&& after@ == self@
            },
        }
    }
}

/// Issues the badge `badge_type` to `user` and keeps its record under the
/// unused address `badge`.
///
/// `mint` is the token that stands for the badge. A user earns each badge
/// at most once: a second request reports `AlreadyEarned`.
pub fn mint_badge(
    ledger: &mut Ledger,
    badge: Identity,
    user: Identity,
    badge_type: BadgeType,
    mint: Identity,
    metadata_uri: String,
    now: i64,
) -> (r: Result<BadgeEarned, CouponError>)
    requires
        old(ledger).wf(),
    ensures
        final(ledger).wf(),
        old(ledger).extends_to(*final(ledger)),
        old(ledger).badge_outcome(*final(ledger), r, badge, user, badge_type, mint, metadata_uri, now),
{
    let verdict = match ledger.reputations.get(&user) {
        Some(record) => mint_badge::check(Some(record), &user, badge_type, &metadata_uri),
        None => mint_badge::check(None, &user, badge_type, &metadata_uri),
    };
    match verdict {
        Ok(()) => {},
        Err(e) => {
            return Err(e);
        },
    }
    if ledger.badges.contains(&badge) {
        return Err(CouponError::AccountInUse);
    }
    let ghost reputations = ledger.reputations;
    let (reputation_at, mut slot) = borrow_reputation(&mut ledger.reputations, user, now);
    let outcome = mint_badge::handler(&mut slot, badge, user, badge_type, mint, metadata_uri, now);
    return_reputation(&mut ledger.reputations, reputation_at, slot, user, Ghost(reputations));
    match outcome {
        Ok((record, event)) => {
            ledger.badges.insert(badge, record);
            Ok(event)
        },
        Err(e) => Err(e),
    }
}

} // verus!
