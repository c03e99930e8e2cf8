//! Registered merchants.

use vstd::prelude::*;
use crate::identity::Identity;
use crate::state::location::Location;

verus! {

/// Longest merchant name, in characters.
pub const MAX_NAME_LEN: usize = 50;

/// Longest category, in characters.
pub const MAX_CATEGORY_LEN: usize = 30;

/// A merchant and the totals of its coupons.
#[derive(Clone, Debug, PartialEq, Eq)]
pub struct Merchant {
    /// Who may act for the merchant.
    pub authority: Identity,
    /// Display name.
    pub name: String,
    /// Line of business.
    pub category: String,
    /// Coupons minted against this merchant's promotions.
    pub total_coupons_created: u64,
    /// Coupons redeemed at this merchant.
    pub total_coupons_redeemed: u64,
    /// Whether the merchant is in business.
    pub is_active: bool,
    /// When the merchant registered.
    pub created_at: i64,
    /// Where the merchant's premises are, if it has any.
    pub location: Option<Location>,
}

impl Merchant {
    /// Name and category are within their limits and the location, if
    /// there is one, lies on the globe.
    pub open spec fn wf(&self) -> bool {
        &&& self.name@.len() <= 50
        &&& self.category@.len() <= 30
        &&& self.location matches Some(l) ==> l.wf()
    }
}

} // verus!
