//! Listings: offers to resell a coupon.

use vstd::prelude::*;
use crate::identity::Identity;

verus! {

/// An offer to resell one coupon. Each coupon has one listing record, which
/// is opened by listing the coupon and closed by a cancellation or a sale.
#[derive(Clone, Copy, Debug, PartialEq, Eq)]
pub struct Listing {
    /// The address of the coupon on offer.
    pub coupon: Identity,
    /// Who offers it.
    pub seller: Identity,
    /// The asking price.
    pub price: u64,
    /// Whether the offer is open.
    pub is_active: bool,
    /// When the offer was last opened.
    pub created_at: i64,
}

impl Listing {
    /// An open listing has a price.
    pub open spec fn wf(&self) -> bool {
        self.is_active ==> self.price > 0
    }

    /// The listing that the record holds, if it names a coupon.
    pub open spec fn occupant(&self) -> Option<Listing> {
        if self.coupon.is_sentinel() {
            None
        } else {
            Some(*self)
        }
    }

    /// Whether the record has never been written.
    pub open spec fn is_vacant(&self) -> bool {
        &&& self.coupon.is_sentinel()
        &&& self.seller.is_sentinel()
        &&& self.price == 0
        &&& !self.is_active
        &&& self.created_at == 0
    }
}

impl Default for Listing {
    /// A record that has never been written.
    fn default() -> (r: Listing)
        ensures
            r.is_vacant(),
            r.wf(),
    {
        Listing {
            coupon: Identity::default(),
            seller: Identity::default(),
            price: 0,
            is_active: false,
            created_at: 0,
        }
    }
}

} // verus!
