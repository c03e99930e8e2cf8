//! The marketplace registry: one record of counters and fee policy.

use vstd::prelude::*;
use crate::identity::Identity;

verus! {

/// The fee of a new marketplace, in basis points: two and a half percent.
pub const DEFAULT_FEE_BASIS_POINTS: u16 = 250;

/// Basis points in the whole: the largest fee that a marketplace may charge.
pub const MAX_FEE_BASIS_POINTS: u16 = 10_000;

/// The singleton record of the marketplace.
#[derive(Clone, Copy, Debug, PartialEq, Eq)]
pub struct Marketplace {
    /// Who owns the marketplace.
    pub authority: Identity,
    /// Coupons minted so far, over all promotions.
    pub total_coupons: u64,
    /// Merchants registered so far.
    pub total_merchants: u64,
    /// Share of every resale that goes to the marketplace, in basis points.
    pub fee_basis_points: u16,
}

/// A sale price divided between the marketplace and the seller.
#[derive(Clone, Copy, Debug, PartialEq, Eq, Structural)]
pub struct FeeSplit {
    /// What the marketplace keeps.
    pub fee: u64,
    /// What the seller receives.
    pub payout: u64,
}

/// The marketplace's share of `price` at `fee_basis_points`, rounded down.
pub open spec fn fee_of(price: int, fee_basis_points: int) -> int {
    price * fee_basis_points / 10_000
}

/// Divides `price` into the marketplace's fee and the seller's payout.
pub fn split_fee(price: u64, fee_basis_points: u16) -> (split: FeeSplit)
    requires
        fee_basis_points <= MAX_FEE_BASIS_POINTS,
    ensures
        split.fee == fee_of(price as int, fee_basis_points as int),
        split.payout == price - split.fee,
{
    proof {
        lemma_fee_split(price as int, fee_basis_points as int);
    }
    let product: u128 = price as u128 * fee_basis_points as u128;
    let fee: u64 = (product / 10_000) as u64;
    FeeSplit { fee, payout: price - fee }
}

/// At any fee of at most the whole, the fee is no more than the price, and
/// fee and payout add up to the price.
pub proof fn lemma_fee_split(price: int, fee_basis_points: int)
    requires
        0 <= price,
        0 <= fee_basis_points <= 10_000,
    ensures
        0 <= fee_of(price, fee_basis_points) <= price,
        fee_of(price, fee_basis_points) + (price - fee_of(price, fee_basis_points)) == price,
{
    assert(0 <= price * fee_basis_points <= price * 10_000) by (nonlinear_arith)
        requires
            0 <= price,
            0 <= fee_basis_points <= 10_000,
    ;
}

impl Marketplace {
    /// The fee is at most the whole.
    pub open spec fn wf(&self) -> bool {
        self.fee_basis_points <= 10_000
    }

    /// A marketplace owned by `authority`, with nothing counted yet.
    pub open spec fn spec_new(authority: Identity) -> Marketplace {
        Marketplace { authority, total_coupons: 0, total_merchants: 0, fee_basis_points: 250 }
    }

    /// Divides `price` by this marketplace's fee.
    pub fn split(&self, price: u64) -> (split: FeeSplit)
        requires
            self.wf(),
        ensures
            split.fee == fee_of(price as int, self.fee_basis_points as int),
            split.payout == price - split.fee,
            split.fee <= price,
    {
        proof {
            lemma_fee_split(price as int, self.fee_basis_points as int);
        }
        split_fee(price, self.fee_basis_points)
    }
}

} // verus!
