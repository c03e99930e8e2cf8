//! The coupon ledger: minting, transferring and redeeming coupons.

use vstd::prelude::*;
use crate::errors::CouponError;
use crate::events::{CouponMinted, CouponRedeemed, CouponTransferred};
use crate::identity::Identity;
use crate::instructions::{mint_coupon, redeem_coupon, transfer_coupon};
use crate::ledger::{borrow_reputation, return_reputation, Ledger, LedgerView};
use crate::state::badge::{award_applied, Activity};
use crate::state::coupon::Coupon;
use crate::state::marketplace::Marketplace;
use crate::state::merchant::Merchant;
use crate::state::promotion::Promotion;

verus! {

impl Ledger {
    /// Why a mint is refused, if it is: there is no marketplace yet
    /// (`MarketplaceNotInitialized`), or else no promotion under
    /// `promotion` or no merchant under `merchant` (`AccountNotFound`), or
    /// else the address `coupon` is taken (`AccountInUse`), or else the
    /// transaction refuses.
    pub open spec fn mint_refusal(
        &self,
        coupon: Identity,
        promotion: Identity,
        merchant: Identity,
        recipient: Identity,
        now: i64,
    ) -> Option<CouponError> {
        if self@.marketplace is None {
            Some(CouponError::MarketplaceNotInitialized)
        } else if !self@.promotions.contains_key(promotion@) || !self@.merchants.contains_key(
            merchant@,
        ) {
            Some(CouponError::AccountNotFound)
        } else if self@.coupons.contains_key(coupon@) {
            Some(CouponError::AccountInUse)
        } else {
            mint_coupon::refusal(
                self@.promotions[promotion@],
                self@.merchants[merchant@],
                self@.marketplace->0,
                self.reputation_of(recipient),
                merchant,
                recipient,
                now,
            )
        }
    }

    /// Why a transfer is refused, if it is: there is no coupon under
    /// `coupon` (`AccountNotFound`), or else the transaction refuses.
    pub open spec fn transfer_refusal(&self, coupon: Identity, from_authority: Identity) -> Option<
        CouponError,
    > {
        if !self@.coupons.contains_key(coupon@) {
            Some(CouponError::AccountNotFound)
        } else {
            transfer_coupon::refusal(self@.coupons[coupon@], from_authority)
        }
    }

    /// Why a redemption is refused, if it is: there is no coupon under
    /// `coupon` or no merchant under `merchant` (`AccountNotFound`), or
    /// else the transaction refuses.
    pub open spec fn redeem_refusal(
        &self,
        coupon: Identity,
        merchant: Identity,
        user: Identity,
        merchant_authority: Identity,
        now: i64,
    ) -> Option<CouponError> {
        if !self@.coupons.contains_key(coupon@) || !self@.merchants.contains_key(merchant@) {
            Some(CouponError::AccountNotFound)
        } else {
            redeem_coupon::refusal(
                self@.coupons[coupon@],
                self@.merchants[merchant@],
                self.reputation_of(user),
                merchant,
                user,
                merchant_authority,
                now,
            )
        }
    }
}

impl Ledger {
    /// Whether `after` and `r` are the ledger and the answer that a mint of
    /// the promotion kept under `promotion` to `recipient`, with the new
    /// coupon kept under `coupon`, makes of this ledger.
    pub open spec fn mint_outcome(
        &self,
        after: Ledger,
        r: Result<CouponMinted, CouponError>,
        coupon: Identity,
        promotion: Identity,
        merchant: Identity,
        recipient: Identity,
        nft_mint: Identity,
        now: i64,
    ) -> bool {
        match r {
            Ok(event) => {
                &&& self.mint_refusal(coupon, promotion, merchant, recipient, now) is None
                &&& after@ == (LedgerView {
                    marketplace: Some(
                        Marketplace {
                            total_coupons: (self@.marketplace->0.total_coupons + 1) as u64,
                            ..self@.marketplace->0
                        },
                    ),
                    promotions: self@.promotions.insert(
                        promotion@,
                        Promotion {
                            current_supply: (self@.promotions[promotion@].current_supply
                                + 1) as u32,
                            ..self@.promotions[promotion@]
                        },
                    ),
                    merchants: self@.merchants.insert(
                        merchant@,
                        Merchant {
                            total_coupons_created: (self@.merchants[merchant@]
                                .total_coupons_created + 1) as u64,
                            ..self@.merchants[merchant@]
                        },
                    ),
                    coupons: self@.coupons.insert(
                        coupon@,
                        mint_coupon::minted(
                            self@.promotions[promotion@],
                            promotion,
                            merchant,
                            recipient,
                            nft_mint,
                            now,
                        ),
                    ),
                    reputations: after@.reputations,
                    ..self@
                })
                &&& self.reputation_changed(after@.reputations, recipient)
                &&& award_applied(
                    self.reputation_of(recipient),
                    Some(after@.reputations[recipient@]),
                    recipient,
                    now,
                    Activity::Purchase,
                )
                &&& event == (CouponMinted {
                    coupon,
                    nft_mint,
                    promotion,
                    recipient,
                    merchant,
                    discount_percentage: self@.promotions[promotion@].discount_percentage,
                    expiry_timestamp: self@.promotions[promotion@].expiry_timestamp,
                    timestamp: now,
                })
            },
            Err(e) => {
                &&& self.mint_refusal(coupon, promotion, merchant, recipient, now) == Some(
                    e,
                )
                &&& after@ == self@
            },
        }
    }
}

/// Mints one coupon of the promotion kept under `promotion` to
/// `recipient` and keeps it under the unused address `coupon`.
///
/// `merchant` is the address of the promotion's merchant and `nft_mint`
/// the token that stands for the coupon. The recipient's reputation record
/// is created if there is none.
pub fn mint_coupon(
    ledger: &mut Ledger,
    coupon: Identity,
    promotion: Identity,
    merchant: Identity,
    recipient: Identity,
    nft_mint: Identity,
    now: i64,
) -> (r: Result<CouponMinted, CouponError>)
    requires
        old(ledger).wf(),
    ensures
        final(ledger).wf(),
        old(ledger).extends_to(*final(ledger)),
        old(ledger).mint_outcome(*final(ledger), r, coupon, promotion, merchant, recipient, nft_mint, now),
{
    if ledger.marketplace.is_none() {
        return Err(CouponError::MarketplaceNotInitialized);
    }
    let promotion_at = match ledger.promotions.find(&promotion) {
        Some(i) => i,
        None => {
            return Err(CouponError::AccountNotFound);
        },
    };
    let merchant_at = match ledger.merchants.find(&merchant) {
        Some(i) => i,
        None => {
            return Err(CouponError::AccountNotFound);
        },
    };
    if ledger.coupons.contains(&coupon) {
        return Err(CouponError::AccountInUse);
    }
    let ghost reputations = ledger.reputations;
    let (reputation_at, mut slot) = borrow_reputation(&mut ledger.reputations, recipient, now);
    let outcome = match &mut ledger.marketplace {
        None => Err(CouponError::MarketplaceNotInitialized),
        Some(marketplace) => mint_coupon::handler(
            &mut ledger.promotions.values[promotion_at],
            &mut ledger.merchants.values[merchant_at],
            marketplace,
            &mut slot,
            coupon,
            promotion,
            merchant,
            recipient,
            nft_mint,
            now,
        ),
    };
    return_reputation(&mut ledger.reputations, reputation_at, slot, recipient, Ghost(reputations));
    proof {
        old(ledger).promotions.lemma_replaced(ledger.promotions, promotion_at as int);
        old(ledger).merchants.lemma_replaced(ledger.merchants, merchant_at as int);
        if outcome is Err {
            assert(ledger.promotions@ =~= old(ledger).promotions@);
            assert(ledger.merchants@ =~= old(ledger).merchants@);
            assert(ledger.reputations@ =~= old(ledger).reputations@);
        }
    }
    match outcome {
        Ok((record, event)) => {
            ledger.coupons.insert(coupon, record);
            Ok(event)
        },
        Err(e) => Err(e),
    }
}

/// Makes `new_owner` the owner of the coupon kept under `coupon`, on the
/// word of its current owner `from_authority`.
pub fn transfer_coupon(
    ledger: &mut Ledger,
    coupon: Identity,
    from_authority: Identity,
    new_owner: Identity,
    now: i64,
) -> (r: Result<CouponTransferred, CouponError>)
    requires
        old(ledger).wf(),
    ensures
        final(ledger).wf(),
        old(ledger).extends_to(*final(ledger)),
        match r {
            Ok(event) => {
                &&& old(ledger).transfer_refusal(coupon, from_authority) is None
                &&& final(ledger)@ == (LedgerView {
                    coupons: old(ledger)@.coupons.insert(
                        coupon@,
                        Coupon { owner: new_owner, ..old(ledger)@.coupons[coupon@] },
                    ),
                    ..old(ledger)@
                })
                &&& event == (CouponTransferred {
                    coupon,
                    nft_mint: old(ledger)@.coupons[coupon@].mint,
                    from: from_authority,
                    to: new_owner,
                    timestamp: now,
                })
            },
            Err(e) => {
                &&& old(ledger).transfer_refusal(coupon, from_authority) == Some(e)
                &&& final(ledger)@ == old(ledger)@
            },
        },
{
    let coupon_at = match ledger.coupons.find(&coupon) {
        Some(i) => i,
        None => {
            return Err(CouponError::AccountNotFound);
        },
    };
    let mut record: Coupon = ledger.coupons.values[coupon_at];
    match transfer_coupon::handler(&mut record, coupon, from_authority, new_owner, now) {
        Ok(event) => {
            ledger.coupons.replace(coupon_at, record);
            Ok(event)
        },
        Err(e) => Err(e),
    }
}

/// Redeems the coupon kept under `coupon` for its owner `user` at the
/// merchant kept under `merchant`, whose authority `merchant_authority`
/// consents. The user's reputation record is created if there is none.
pub fn redeem_coupon(
    ledger: &mut Ledger,
    coupon: Identity,
    merchant: Identity,
    user: Identity,
    merchant_authority: Identity,
    now: i64,
) -> (r: Result<CouponRedeemed, CouponError>)
    requires
        old(ledger).wf(),
    ensures
        final(ledger).wf(),
        old(ledger).extends_to(*final(ledger)),
        match r {
            Ok(event) => {
                &&& old(ledger).redeem_refusal(coupon, merchant, user, merchant_authority, now)
                    is None
                &&& final(ledger)@ == (LedgerView {
                    coupons: old(ledger)@.coupons.insert(
                        coupon@,
                        Coupon {
                            is_redeemed: true,
                            redeemed_at: now,
                            ..old(ledger)@.coupons[coupon@]
                        },
                    ),
                    merchants: old(ledger)@.merchants.insert(
                        merchant@,
                        Merchant {
                            total_coupons_redeemed: (old(ledger)@.merchants[merchant@]
                                .total_coupons_redeemed + 1) as u64,
                            ..old(ledger)@.merchants[merchant@]
                        },
                    ),
                    reputations: final(ledger)@.reputations,
                    ..old(ledger)@
                })
                &&& old(ledger).reputation_changed(final(ledger)@.reputations, user)
                &&& award_applied(
                    old(ledger).reputation_of(user),
                    Some(final(ledger)@.reputations[user@]),
                    user,
                    now,
                    Activity::Redemption,
                )
                &&& event == (CouponRedeemed {
                    coupon,
                    nft_mint: old(ledger)@.coupons[coupon@].mint,
                    user,
                    merchant,
                    discount_percentage: old(ledger)@.coupons[coupon@].discount_percentage,
                    timestamp: now,
                })
            },
            Err(e) => {
                &&& old(ledger).redeem_refusal(coupon, merchant, user, merchant_authority, now)
                    == Some(e)
                &&& final(ledger)@ == old(ledger)@
            },
        },
{
    let coupon_at = match ledger.coupons.find(&coupon) {
        Some(i) => i,
        None => {
            return Err(CouponError::AccountNotFound);
        },
    };
    let merchant_at = match ledger.merchants.find(&merchant) {
        Some(i) => i,
        None => {
            return Err(CouponError::AccountNotFound);
        },
    };
    let mut record: Coupon = ledger.coupons.values[coupon_at];
    let ghost reputations = ledger.reputations;
    let (reputation_at, mut slot) = borrow_reputation(&mut ledger.reputations, user, now);
    let outcome = redeem_coupon::handler(
        &mut record,
        &mut ledger.merchants.values[merchant_at],
        &mut slot,
        coupon,
        merchant,
        user,
        merchant_authority,
        now,
    );
    return_reputation(&mut ledger.reputations, reputation_at, slot, user, Ghost(reputations));
    proof {
        old(ledger).merchants.lemma_replaced(ledger.merchants, merchant_at as int);
        if outcome is Err {
            assert(ledger.merchants@ =~= old(ledger).merchants@);
            assert(ledger.reputations@ =~= old(ledger).reputations@);
        }
    }
    match outcome {
        Ok(event) => {
            ledger.coupons.replace(coupon_at, record);
            Ok(event)
        },
        Err(e) => Err(e),
    }
}

} // verus!
