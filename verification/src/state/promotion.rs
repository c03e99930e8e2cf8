//! Promotions: discount offers with a bounded supply and an expiry.

use vstd::prelude::*;
use crate::errors::CouponError;
use crate::identity::Identity;
use crate::state::location::{cell_id, cell_index, Location};

verus! {

/// Longest promotion description, in characters.
pub const MAX_DESCRIPTION_LEN: usize = 200;

/// Where a promotion can be used.
#[derive(Clone, Copy, Debug, PartialEq, Eq, Structural)]
pub enum Placement {
    /// Anywhere: the promotion has no place.
    Online,
    /// Around a place.
    Located {
        /// The centre of the area.
        location: Location,
        /// How far from the centre the promotion reaches.
        radius_meters: u32,
        /// The grid cell that holds the centre.
        geo_cell_id: u64,
    },
}

impl Placement {
    /// The place lies on the globe and the cell is the one that holds it.
    pub open spec fn wf(&self) -> bool {
        match *self {
            Placement::Online => true,
            Placement::Located { location, radius_meters, geo_cell_id } => {
                &&& location.wf()
                &&& geo_cell_id == cell_id(
                    cell_index(location.latitude as int),
                    cell_index(location.longitude as int),
                )
            },
        }
    }

    /// Whether the promotion is tied to a place.
    pub fn is_location_based(&self) -> (r: bool)
        ensures
            r == (*self is Located),
    {
        match self {
            Placement::Online => false,
            Placement::Located { .. } => true,
        }
    }

    /// The grid cell of the place, or 0 for a promotion without one.
    pub fn geo_cell_id(&self) -> (r: u64)
        ensures
            r == match *self {
                Placement::Online => 0,
                Placement::Located { geo_cell_id, .. } => geo_cell_id,
            },
    {
        match self {
            Placement::Online => 0,
            Placement::Located { geo_cell_id, .. } => *geo_cell_id,
        }
    }
}

/// A merchant's offer of coupons.
#[derive(Clone, Debug, PartialEq, Eq)]
pub struct Promotion {
    /// The address of the merchant that made the offer.
    pub merchant: Identity,
    /// The discount in percent.
    pub discount_percentage: u8,
    /// How many coupons may be minted.
    pub max_supply: u32,
    /// How many coupons have been minted; never decreases.
    pub current_supply: u32,
    /// The moment from which no coupon is minted.
    pub expiry_timestamp: i64,
    /// Line of business.
    pub category: String,
    /// What is on offer.
    pub description: String,
    /// Price of one coupon.
    pub price: u64,
    /// Whether coupons may be minted.
    pub is_active: bool,
    /// When the promotion was created.
    pub created_at: i64,
    /// Where the promotion can be used.
    pub placement: Placement,
}

impl Promotion {
    /// The discount is a percentage, there is supply, no more has been
    /// minted than there is, the expiry lay in the future at creation and
    /// the texts are within their limits.
    pub open spec fn wf(&self) -> bool {
        &&& 1 <= self.discount_percentage <= 100
        &&& 0 < self.max_supply
        &&& self.current_supply <= self.max_supply
        &&& self.created_at < self.expiry_timestamp
        &&& self.category@.len() <= 30
        &&& self.description@.len() <= 200
        &&& self.placement.wf()
    }

    /// Why no coupon can be minted at `now`, if so: the promotion is
    /// inactive, or else its supply is exhausted, or else it has expired.
    pub open spec fn mint_refusal(&self, now: i64) -> Option<CouponError> {
        if !self.is_active {
            Some(CouponError::PromotionInactive)
        } else if self.current_supply >= self.max_supply {
            Some(CouponError::SupplyExhausted)
        } else if self.expiry_timestamp <= now {
            Some(CouponError::PromotionExpired)
        } else {
            None
        }
    }

    /// Tests whether a coupon can be minted at `now`.
    pub fn check_mint(&self, now: i64) -> (r: Result<(), CouponError>)
        ensures
            r == match self.mint_refusal(now) {
                Some(e) => Err::<(), CouponError>(e),
                None => Ok::<(), CouponError>(()),
            },
    {
        if !self.is_active {
            Err(CouponError::PromotionInactive)
        } else if self.current_supply >= self.max_supply {
            Err(CouponError::SupplyExhausted)
        } else if self.expiry_timestamp <= now {
            Err(CouponError::PromotionExpired)
        } else {
            Ok(())
        }
    }

    /// How many coupons can still be minted.
    pub fn remaining_supply(&self) -> (r: u32)
        ensures
            r == if self.current_supply <= self.max_supply {
                self.max_supply - self.current_supply
            } else {
                0
            },
    {
        if self.current_supply <= self.max_supply {
            self.max_supply - self.current_supply
        } else {
            0
        }
    }
}

} // verus!
