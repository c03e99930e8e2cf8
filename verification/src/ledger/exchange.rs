//! The listing exchange: listing a coupon, withdrawing it, and buying it.

use vstd::prelude::*;
use crate::errors::CouponError;
use crate::events::{CouponListed, CouponSold, ListingCancelled};
use crate::identity::Identity;
use crate::instructions::{buy_listing, list_for_sale};
use crate::ledger::{Ledger, LedgerView};
use crate::state::coupon::Coupon;
use crate::state::listing::Listing;

verus! {

impl Ledger {
    /// The listing record of the coupon kept under `coupon`, if it has one.
    pub open spec fn listing_of(&self, coupon: Identity) -> Option<Listing> {
        if self@.listings.contains_key(coupon@) {
            Some(self@.listings[coupon@])
        } else {
            None
        }
    }

    /// Why a listing is refused, if it is: there is no coupon under
    /// `coupon` (`AccountNotFound`), or else the transaction refuses.
    pub open spec fn list_refusal(
        &self,
        coupon: Identity,
        seller: Identity,
        price: u64,
        now: i64,
    ) -> Option<CouponError> {
        if !self@.coupons.contains_key(coupon@) {
            Some(CouponError::AccountNotFound)
        } else if price == 0 {
            Some(CouponError::InvalidPrice)
        } else if self@.coupons[coupon@].refusal(now) is Some {
            self@.coupons[coupon@].refusal(now)
        } else if self@.coupons[coupon@].owner != seller {
            Some(CouponError::NotCouponOwner)
        } else {
            None
        }
    }

    /// Why a cancellation is refused, if it is: the coupon kept under
    /// `coupon` has no listing record (`AccountNotFound`), or else the
    /// transaction refuses.
    pub open spec fn cancel_refusal(&self, coupon: Identity, seller: Identity) -> Option<
        CouponError,
    > {
        if !self@.listings.contains_key(coupon@) {
            Some(CouponError::AccountNotFound)
        } else {
            list_for_sale::cancel_refusal(self@.listings[coupon@], seller)
        }
    }

    /// Why a sale is refused, if it is: there is no marketplace yet
    /// (`MarketplaceNotInitialized`), or else no coupon under `coupon` or
    /// no listing record of it (`AccountNotFound`), or else the
    /// transaction refuses.
    pub open spec fn buy_refusal(&self, coupon: Identity, now: i64) -> Option<CouponError> {
        if self@.marketplace is None {
            Some(CouponError::MarketplaceNotInitialized)
        } else if !self@.coupons.contains_key(coupon@) || !self@.listings.contains_key(coupon@) {
            Some(CouponError::AccountNotFound)
        } else {
            buy_listing::refusal(
                self@.listings[coupon@],
                self@.coupons[coupon@],
                self@.marketplace->0,
                coupon,
                now,
            )
        }
    }
}

/// Puts the coupon kept under `coupon` up for sale at `price`, on the word
/// of its owner `seller`.
///
/// The listing is kept under the address of the coupon. If the coupon is
/// listed already, the new listing replaces the old one.
pub fn list_coupon_for_sale(
    ledger: &mut Ledger,
    coupon: Identity,
    seller: Identity,
    price: u64,
    now: i64,
) -> (r: Result<CouponListed, CouponError>)
    requires
        old(ledger).wf(),
    ensures
        final(ledger).wf(),
        old(ledger).extends_to(*final(ledger)),
        match r {
            Ok(event) => {
                &&& old(ledger).list_refusal(coupon, seller, price, now) is None
                &&& final(ledger)@ == (LedgerView {
                    listings: old(ledger)@.listings.insert(
                        coupon@,
                        Listing { coupon, seller, price, is_active: true, created_at: now },
                    ),
                    ..old(ledger)@
                })
                &&& event == (CouponListed {
                    listing: coupon,
                    coupon,
                    nft_mint: old(ledger)@.coupons[coupon@].mint,
                    seller,
                    price,
                    timestamp: now,
                })
            },
            Err(e) => {
                &&& old(ledger).list_refusal(coupon, seller, price, now) == Some(e)
                &&& final(ledger)@ == old(ledger)@
            },
        },
{
    let coupon_at = match ledger.coupons.find(&coupon) {
        Some(i) => i,
        None => {
            return Err(CouponError::AccountNotFound);
        },
    };
    let listing_at = ledger.listings.find(&coupon);
    let mut listing: Listing = match listing_at {
        Some(i) => ledger.listings.values[i],
        None => Listing::default(),
    };
    proof {
        crate::identity::lemma_identity_by_view(listing.coupon, coupon);
    }
    match list_for_sale::handler(
        &mut listing,
        &ledger.coupons.values[coupon_at],
        coupon,
        coupon,
        seller,
        price,
        now,
    ) {
        Ok(event) => {
            match listing_at {
                Some(i) => {
                    ledger.listings.replace(i, listing);
                },
                None => {
                    ledger.listings.insert(coupon, listing);
                },
            }
            Ok(event)
        },
        Err(e) => Err(e),
    }
}

/// Withdraws the listing of the coupon kept under `coupon`, on the word of
/// its seller. The listing record stays.
pub fn cancel_listing(ledger: &mut Ledger, coupon: Identity, seller: Identity, now: i64) -> (r:
    Result<ListingCancelled, CouponError>)
    requires
        old(ledger).wf(),
    ensures
        final(ledger).wf(),
        old(ledger).extends_to(*final(ledger)),
        match r {
            Ok(event) => {
                &&& old(ledger).cancel_refusal(coupon, seller) is None
                &&& final(ledger)@ == (LedgerView {
                    listings: old(ledger)@.listings.insert(
                        coupon@,
                        Listing { is_active: false, ..old(ledger)@.listings[coupon@] },
                    ),
                    ..old(ledger)@
                })
                &&& event == (ListingCancelled {
                    listing: coupon,
                    coupon: old(ledger)@.listings[coupon@].coupon,
                    seller,
                    timestamp: now,
                })
            },
            Err(e) => {
                &&& old(ledger).cancel_refusal(coupon, seller) == Some(e)
                &&& final(ledger)@ == old(ledger)@
            },
        },
{
    let listing_at = match ledger.listings.find(&coupon) {
        Some(i) => i,
        None => {
            return Err(CouponError::AccountNotFound);
        },
    };
    let mut listing: Listing = ledger.listings.values[listing_at];
    match list_for_sale::cancel_listing(&mut listing, coupon, seller, now) {
        Ok(event) => {
            ledger.listings.replace(listing_at, listing);
            Ok(event)
        },
        Err(e) => Err(e),
    }
}

/// Sells the listed coupon kept under `coupon` to `buyer`.
///
/// The coupon changes owner and the listing closes in one step. The event
/// says what the buyer owes to the marketplace and to the seller.
pub fn buy_listed_coupon(ledger: &mut Ledger, coupon: Identity, buyer: Identity, now: i64) -> (r:
    Result<CouponSold, CouponError>)
    requires
        old(ledger).wf(),
    ensures
        final(ledger).wf(),
        old(ledger).extends_to(*final(ledger)),
        match r {
            Ok(event) => {
                &&& old(ledger).buy_refusal(coupon, now) is None
                &&& final(ledger)@ == (LedgerView {
                    coupons: old(ledger)@.coupons.insert(
                        coupon@,
                        Coupon { owner: buyer, ..old(ledger)@.coupons[coupon@] },
                    ),
                    listings: old(ledger)@.listings.insert(
                        coupon@,
                        Listing { is_active: false, ..old(ledger)@.listings[coupon@] },
                    ),
                    ..old(ledger)@
                })
                &&& event.listing == coupon
                &&& event.coupon == coupon
                &&& event.nft_mint == old(ledger)@.coupons[coupon@].mint
                &&& event.seller == old(ledger)@.listings[coupon@].seller
                &&& event.buyer == buyer
                &&& event.price == old(ledger)@.listings[coupon@].price
                &&& event.marketplace_fee == crate::state::marketplace::fee_of(
                    event.price as int,
                    old(ledger)@.marketplace->0.fee_basis_points as int,
                )
                &&& event.seller_proceeds == event.price - event.marketplace_fee
                &&& event.timestamp == now
            },
            Err(e) => {
                &&& old(ledger).buy_refusal(coupon, now) == Some(e)
                &&& final(ledger)@ == old(ledger)@
            },
        },
{
    if ledger.marketplace.is_none() {
        return Err(CouponError::MarketplaceNotInitialized);
    }
    let coupon_at = match ledger.coupons.find(&coupon) {
        Some(i) => i,
        None => {
            return Err(CouponError::AccountNotFound);
        },
    };
    let listing_at = match ledger.listings.find(&coupon) {
        Some(i) => i,
        None => {
            return Err(CouponError::AccountNotFound);
        },
    };
    let mut listing: Listing = ledger.listings.values[listing_at];
    let mut record: Coupon = ledger.coupons.values[coupon_at];
    let outcome = match &ledger.marketplace {
        None => Err(CouponError::MarketplaceNotInitialized),
        Some(marketplace) => buy_listing::handler(
            &mut listing,
            &mut record,
            marketplace,
            coupon,
            coupon,
            buyer,
            now,
        ),
    };
    proof {
        crate::state::marketplace::lemma_fee_split(
            listing.price as int,
            ledger.marketplace->0.fee_basis_points as int,
        );
    }
    match outcome {
        Ok(event) => {
            ledger.listings.replace(listing_at, listing);
            ledger.coupons.replace(coupon_at, record);
            Ok(event)
        },
        Err(e) => Err(e),
    }
}

} // verus!
