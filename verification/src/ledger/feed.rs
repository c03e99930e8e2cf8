//! The oracle deal feed.

use vstd::prelude::*;
use crate::errors::CouponError;
use crate::events::ExternalDealUpdated;
use crate::identity::Identity;
use crate::instructions::update_external_deal;
use crate::ledger::{Ledger, LedgerView};
use crate::state::external_deal::{DealSource, ExternalDeal, OracleConfig, MAX_ALLOWED_SOURCES};

verus! {

impl Ledger {
    /// The deal known to its source as `external_id`, if it has been
    /// written.
    pub open spec fn deal_of(&self, external_id: Seq<char>) -> Option<ExternalDeal> {
        if self@.deals.contains_key(external_id) {
            Some(self@.deals[external_id])
        } else {
            None
        }
    }

    /// Why the oracle cannot be set up, if so: it has been set up before
    /// (`AlreadyInitialized`), or else its authority is the sentinel
    /// (`SentinelIdentity`), or else more than ten sources are allowed
    /// (`TooManySources`).
    pub open spec fn oracle_refusal(&self, authority: Identity, sources: Seq<DealSource>) -> Option<
        CouponError,
    > {
        if self@.oracle is Some {
            Some(CouponError::AlreadyInitialized)
        } else if authority.is_sentinel() {
            Some(CouponError::SentinelIdentity)
        } else if sources.len() > 10 {
            Some(CouponError::TooManySources)
        } else {
            None
        }
    }

    /// Why a write of a deal is refused, if it is: the oracle has not been
    /// set up (`OracleNotConfigured`), or else the transaction refuses.
    pub open spec fn deal_refusal(
        &self,
        payer: Identity,
        external_id: Seq<char>,
        title: Seq<char>,
        description: Seq<char>,
        original_price: u64,
        discounted_price: u64,
        category: Seq<char>,
        image_url: Seq<char>,
        affiliate_url: Seq<char>,
        now: i64,
    ) -> Option<CouponError> {
        if self@.oracle is None {
            Some(CouponError::OracleNotConfigured)
        } else {
            update_external_deal::refusal(
                self.deal_of(external_id),
                self@.oracle->0,
                payer,
                external_id,
                title,
                description,
                original_price,
                discounted_price,
                category,
                image_url,
                affiliate_url,
                now,
            )
        }
    }
}

/// Sets up the oracle feed: `authority` alone may write deals, a deal is
/// verified after `min_verification_count` writes, and two writes of one
/// deal lie at least `update_interval` seconds apart.
pub fn initialize_oracle(
    ledger: &mut Ledger,
    authority: Identity,
    allowed_sources: Vec<DealSource>,
    min_verification_count: u32,
    update_interval: i64,
) -> (r: Result<(), CouponError>)
    requires
        old(ledger).wf(),
    ensures
        final(ledger).wf(),
        old(ledger).extends_to(*final(ledger)),
        match r {
            Ok(()) => {
                &&& old(ledger).oracle_refusal(authority, allowed_sources@) is None
                &&& final(ledger)@ == (LedgerView {
                    oracle: Some(
                        OracleConfig {
                            authority,
                            total_deals_imported: 0,
                            allowed_sources,
                            min_verification_count,
                            update_interval,
                        },
                    ),
                    ..old(ledger)@
                })
            },
            Err(e) => {
                &&& old(ledger).oracle_refusal(authority, allowed_sources@) == Some(e)
                &&& final(ledger)@ == old(ledger)@
            },
        },
{
    if ledger.oracle.is_some() {
        return Err(CouponError::AlreadyInitialized);
    }
    if authority.is_default() {
        return Err(CouponError::SentinelIdentity);
    }
    if allowed_sources.len() > MAX_ALLOWED_SOURCES {
        return Err(CouponError::TooManySources);
    }
    ledger.oracle = Some(
        OracleConfig {
            authority,
            total_deals_imported: 0,
            allowed_sources,
            min_verification_count,
            update_interval,
        },
    );
    Ok(())
}

/// Writes the deal known to its source as `external_id`, on the word of
/// the oracle `payer`. The deal is kept under its external identifier.
pub fn update_external_deal(
    ledger: &mut Ledger,
    payer: Identity,
    external_id: String,
    title: String,
    description: String,
    original_price: u64,
    discounted_price: u64,
    category: String,
    image_url: String,
    affiliate_url: String,
    expiry_timestamp: i64,
    now: i64,
) -> (r: Result<ExternalDealUpdated, CouponError>)
    requires
        old(ledger).wf(),
    ensures
        final(ledger).wf(),
        old(ledger).extends_to(*final(ledger)),
        match r {
            Ok(event) => {
                &&& old(ledger).deal_refusal(
                    payer,
                    external_id@,
                    title@,
                    description@,
                    original_price,
                    discounted_price,
                    category@,
                    image_url@,
                    affiliate_url@,
                    now,
                ) is None
                &&& final(ledger)@.deals.contains_key(external_id@)
                &&& final(ledger)@ == (LedgerView {
                    deals: old(ledger)@.deals.insert(
                        external_id@,
                        final(ledger)@.deals[external_id@],
                    ),
                    oracle: Some(
                        OracleConfig {
                            total_deals_imported: if old(ledger).deal_of(external_id@) is None {
                                (old(ledger)@.oracle->0.total_deals_imported + 1) as u64
                            } else {
                                old(ledger)@.oracle->0.total_deals_imported
                            },
                            ..old(ledger)@.oracle->0
                        },
                    ),
                    ..old(ledger)@
                })
                &&& update_external_deal::written(
                    old(ledger).deal_of(external_id@),
                    final(ledger)@.deals[external_id@],
                    old(ledger)@.oracle->0,
                    payer,
                    external_id@,
                    title@,
                    description@,
                    original_price,
                    discounted_price,
                    category@,
                    image_url@,
                    affiliate_url@,
                    expiry_timestamp,
                    now,
                )
                &&& event.source == final(ledger)@.deals[external_id@].source
                &&& event.external_id@ == external_id@
                &&& event.price == discounted_price
                &&& event.verified == final(ledger)@.deals[external_id@].is_verified
            },
            Err(e) => {
                &&& old(ledger).deal_refusal(
                    payer,
                    external_id@,
                    title@,
                    description@,
                    original_price,
                    discounted_price,
                    category@,
                    image_url@,
                    affiliate_url@,
                    now,
                ) == Some(e)
                &&& final(ledger)@ == old(ledger)@
            },
        },
{
    if ledger.oracle.is_none() {
        return Err(CouponError::OracleNotConfigured);
    }
    let key = external_id.clone();
    let deal_at = ledger.deals.find(&key);
    let mut deal = match deal_at {
        Some(i) => ledger.deals.lend(i, ExternalDeal::default()),
        None => ExternalDeal::default(),
    };
    let outcome = match &mut ledger.oracle {
        None => Err(CouponError::OracleNotConfigured),
        Some(config) => update_external_deal::handler(
            &mut deal,
            config,
            payer,
            external_id,
            title,
            description,
            original_price,
            discounted_price,
            category,
            image_url,
            affiliate_url,
            expiry_timestamp,
            now,
        ),
    };
    match deal_at {
        Some(i) => {
            ledger.deals.replace(i, deal);
            proof {
                old(ledger).deals.lemma_replaced(ledger.deals, i as int);
                if outcome is Err {
                    assert(ledger.deals@ =~= old(ledger).deals@);
                }
            }
        },
        None => {
            if outcome.is_ok() {
                ledger.deals.insert(key, deal);
            }
        },
    }
    outcome
}

} // verus!
