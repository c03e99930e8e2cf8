//! Setting up the marketplace.

use vstd::prelude::*;
use crate::events::MarketplaceInitialized;
use crate::identity::Identity;
use crate::state::marketplace::{Marketplace, DEFAULT_FEE_BASIS_POINTS};

verus! {

/// Creates the marketplace record for `authority`, with no coupon and no
/// merchant counted and the default fee.
pub fn initialize(authority: Identity, now: i64) -> (r: (Marketplace, MarketplaceInitialized))
    ensures
        r.0 == Marketplace::spec_new(authority),
        r.0.wf(),
        r.1 == (MarketplaceInitialized { authority, fee_basis_points: 250, timestamp: now }),
{
    let marketplace = Marketplace {
        authority,
        total_coupons: 0,
        total_merchants: 0,
        fee_basis_points: DEFAULT_FEE_BASIS_POINTS,
    };
    let event = MarketplaceInitialized {
        authority,
        fee_basis_points: DEFAULT_FEE_BASIS_POINTS,
        timestamp: now,
    };
    (marketplace, event)
}

} // verus!
