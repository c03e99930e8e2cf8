//! The ledger: a keyed store of all records, with the operations of the
//! marketplace on top of it.
//!
//! An operation names the records it works on by their addresses, finds
//! them in the store, runs the transaction of [`crate::instructions`] on
//! them and stores the outcome. It either succeeds and stores everything,
//! or reports an error and leaves the ledger as it was. Every operation
//! keeps the ledger well formed.
//!
//! Addresses. A merchant is kept under the identity of its authority, a
//! reputation record under that of its user, a listing and the aggregate of
//! ratings under the address of the coupon or promotion they belong to, a
//! rating under the pair of user and promotion, a grid cell under its
//! identifier and a deal under its external identifier. Promotions,
//! coupons, comments and badges are kept under an unused address: one that
//! the caller chooses, or, with the operations of [`derived`], the one
//! derived from the key of the record.

use vstd::prelude::*;
use crate::identity::Identity;
use crate::state::badge::{BadgeNFT, UserReputation};
use crate::state::comment::Comment;
use crate::state::coupon::Coupon;
use crate::state::external_deal::{ExternalDeal, OracleConfig};
use crate::state::listing::Listing;
use crate::state::location::GeoCell;
use crate::state::marketplace::Marketplace;
use crate::state::merchant::Merchant;
use crate::state::promotion::Promotion;
use crate::state::rating::{valid_stars, Rating, RatingStats};
use crate::store::{PairKey, Store};

pub mod catalog;
pub mod coupons;
pub mod derived;
pub mod exchange;
pub mod feed;
pub mod invariants;
pub mod rewards;
pub mod social;

verus! {

/// All records of the marketplace.
#[derive(Clone, Debug)]
pub struct Ledger {
    /// The marketplace registry, once it has been initialized.
    pub marketplace: Option<Marketplace>,
    /// The settings of the oracle feed, once they have been made.
    pub oracle: Option<OracleConfig>,
    /// Merchants, by the identity of their authority.
    pub merchants: Store<Identity, Merchant>,
    /// Promotions, by address.
    pub promotions: Store<Identity, Promotion>,
    /// Coupons, by address.
    pub coupons: Store<Identity, Coupon>,
    /// Listings, by the address of their coupon.
    pub listings: Store<Identity, Listing>,
    /// Comments, by address.
    pub comments: Store<Identity, Comment>,
    /// Reputation records, by user.
    pub reputations: Store<Identity, UserReputation>,
    /// Aggregates of ratings, by the address of their promotion.
    pub rating_stats: Store<Identity, RatingStats>,
    /// Badge records, by address.
    pub badges: Store<Identity, BadgeNFT>,
    /// Ratings, by user and promotion.
    pub ratings: Store<PairKey, Rating>,
    /// Grid cells, by identifier.
    pub geo_cells: Store<u64, GeoCell>,
    /// Deals, by external identifier.
    pub deals: Store<String, ExternalDeal>,
}

/// What a ledger holds: each kind of record as a map from keys to records.
pub struct LedgerView {
    pub marketplace: Option<Marketplace>,
    pub oracle: Option<OracleConfig>,
    pub merchants: Map<Seq<u8>, Merchant>,
    pub promotions: Map<Seq<u8>, Promotion>,
    pub coupons: Map<Seq<u8>, Coupon>,
    pub listings: Map<Seq<u8>, Listing>,
    pub comments: Map<Seq<u8>, Comment>,
    pub reputations: Map<Seq<u8>, UserReputation>,
    pub rating_stats: Map<Seq<u8>, RatingStats>,
    pub badges: Map<Seq<u8>, BadgeNFT>,
    pub ratings: Map<(Seq<u8>, Seq<u8>), Rating>,
    pub geo_cells: Map<u64, GeoCell>,
    pub deals: Map<Seq<char>, ExternalDeal>,
}

impl View for Ledger {
    type V = LedgerView;

    open spec fn view(&self) -> LedgerView {
        LedgerView {
            marketplace: self.marketplace,
            oracle: self.oracle,
            merchants: self.merchants@,
            promotions: self.promotions@,
            coupons: self.coupons@,
            listings: self.listings@,
            comments: self.comments@,
            reputations: self.reputations@,
            rating_stats: self.rating_stats@,
            badges: self.badges@,
            ratings: self.ratings@,
            geo_cells: self.geo_cells@,
            deals: self.deals@,
        }
    }
}

/// The stars of those of `ratings` that rate `promotion`, in their order.
pub open spec fn stars_for(ratings: Seq<Rating>, promotion: Seq<u8>) -> Seq<u8>
    decreases ratings.len(),
{
    if ratings.len() == 0 {
        Seq::empty()
    } else if ratings.last().promotion@ == promotion {
        stars_for(ratings.drop_last(), promotion).push(ratings.last().stars)
    } else {
        stars_for(ratings.drop_last(), promotion)
    }
}

/// Every merchant is well formed and kept under its authority.
pub open spec fn merchants_wf(merchants: Map<Seq<u8>, Merchant>) -> bool {
    forall|key: Seq<u8>| #[trigger]
        merchants.contains_key(key) ==> merchants[key].wf() && merchants[key].authority@ == key
}

/// Every promotion is well formed: none has minted more than its supply.
pub open spec fn promotions_wf(promotions: Map<Seq<u8>, Promotion>) -> bool {
    forall|key: Seq<u8>| #[trigger] promotions.contains_key(key) ==> promotions[key].wf()
}

/// Every listing is well formed and kept under its coupon.
pub open spec fn listings_wf(listings: Map<Seq<u8>, Listing>) -> bool {
    forall|key: Seq<u8>| #[trigger]
        listings.contains_key(key) ==> listings[key].wf() && listings[key].coupon@ == key
}

/// Every comment is well formed.
pub open spec fn comments_wf(comments: Map<Seq<u8>, Comment>) -> bool {
    forall|key: Seq<u8>| #[trigger] comments.contains_key(key) ==> comments[key].wf()
}

/// Every reputation record is well formed and kept under its user.
pub open spec fn reputations_wf(reputations: Map<Seq<u8>, UserReputation>) -> bool {
    forall|key: Seq<u8>| #[trigger]
        reputations.contains_key(key) ==> reputations[key].wf() && reputations[key].user@ == key
}

/// Every badge record is well formed.
pub open spec fn badges_wf(badges: Map<Seq<u8>, BadgeNFT>) -> bool {
    forall|key: Seq<u8>| #[trigger] badges.contains_key(key) ==> badges[key].wf()
}

/// Every grid cell is kept under its identifier.
pub open spec fn geo_cells_wf(geo_cells: Map<u64, GeoCell>) -> bool {
    forall|key: u64| #[trigger] geo_cells.contains_key(key) ==> geo_cells[key].cell_id == key
}

/// Every deal is well formed, has been written and is kept under its
/// external identifier.
pub open spec fn deals_wf(deals: Map<Seq<char>, ExternalDeal>) -> bool {
    forall|key: Seq<char>| #[trigger]
        deals.contains_key(key) ==> deals[key].wf() && !deals[key].is_vacant()
            && deals[key].external_id@ == key
}

/// Every rating has been written, holds valid stars, is kept under its
/// user and promotion, and rates a promotion that has an aggregate; and
/// every aggregate is the aggregate over the ratings of its promotion as
/// they stand.
pub open spec fn ratings_wf(
    ratings: Store<PairKey, Rating>,
    rating_stats: Map<Seq<u8>, RatingStats>,
) -> bool {
    &&& forall|i: int|
        0 <= i < ratings.values@.len() ==> {
            &&& (#[trigger] ratings.values@[i]).user@ == ratings.keys@[i].user@
            &&& ratings.values@[i].promotion@ == ratings.keys@[i].promotion@
            &&& !ratings.values@[i].is_vacant()
            &&& valid_stars(ratings.values@[i].stars as int)
            &&& rating_stats.contains_key(ratings.values@[i].promotion@)
        }
    &&& forall|promotion: Seq<u8>| #[trigger]
        rating_stats.contains_key(promotion) ==> rating_stats[promotion].summarizes(
            stars_for(ratings.values@, promotion),
        )
}

/// Whether `after` keeps the marketplace of `before`: it is still there,
/// with its authority and fee, and its totals have not gone down.
pub open spec fn marketplace_kept(before: Option<Marketplace>, after: Option<Marketplace>) -> bool {
    before is Some ==> {
        &&& after is Some
        &&& after->0.authority == before->0.authority
        &&& after->0.fee_basis_points == before->0.fee_basis_points
        &&& after->0.total_coupons >= before->0.total_coupons
        &&& after->0.total_merchants >= before->0.total_merchants
    }
}

/// Whether `after` keeps the merchants of `before`: each is still there,
/// with its authority, and its totals have not gone down.
pub open spec fn merchants_kept(
    before: Map<Seq<u8>, Merchant>,
    after: Map<Seq<u8>, Merchant>,
) -> bool {
    forall|key: Seq<u8>| #[trigger]
        before.contains_key(key) ==> {
            &&& after.contains_key(key)
            &&& after[key].authority == before[key].authority
            &&& after[key].total_coupons_created >= before[key].total_coupons_created
            &&& after[key].total_coupons_redeemed >= before[key].total_coupons_redeemed
        }
}

/// Whether `after` keeps the promotions of `before`: each is still there
/// with its terms, and its supply in use has not gone down.
pub open spec fn promotions_kept(
    before: Map<Seq<u8>, Promotion>,
    after: Map<Seq<u8>, Promotion>,
) -> bool {
    forall|key: Seq<u8>| #[trigger]
        before.contains_key(key) ==> {
            &&& after.contains_key(key)
            &&& after[key].merchant == before[key].merchant
            &&& after[key].discount_percentage == before[key].discount_percentage
            &&& after[key].max_supply == before[key].max_supply
            &&& after[key].expiry_timestamp == before[key].expiry_timestamp
            &&& after[key].current_supply >= before[key].current_supply
        }
}

/// Whether `after` keeps the coupons of `before`: each is still there with
/// what it held at minting, and a redeemed coupon is still redeemed.
pub open spec fn coupons_kept(before: Map<Seq<u8>, Coupon>, after: Map<Seq<u8>, Coupon>) -> bool {
    forall|key: Seq<u8>| #[trigger]
        before.contains_key(key) ==> {
            &&& after.contains_key(key)
            &&& after[key].id == before[key].id
            &&& after[key].promotion == before[key].promotion
            &&& after[key].merchant == before[key].merchant
            &&& after[key].discount_percentage == before[key].discount_percentage
            &&& after[key].expiry_timestamp == before[key].expiry_timestamp
            &&& after[key].mint == before[key].mint
            &&& before[key].is_redeemed ==> after[key].is_redeemed && after[key].redeemed_at
                == before[key].redeemed_at && after[key].owner == before[key].owner
        }
}

/// Whether `after` keeps the reputation records of `before`: each is still
/// there, no counter and no score has gone down, and every badge is still
/// held, in its place.
pub open spec fn reputations_kept(
    before: Map<Seq<u8>, UserReputation>,
    after: Map<Seq<u8>, UserReputation>,
) -> bool {
    forall|key: Seq<u8>| #[trigger]
        before.contains_key(key) ==> {
            &&& after.contains_key(key)
            &&& after[key].joined_at == before[key].joined_at
            &&& after[key].total_purchases >= before[key].total_purchases
            &&& after[key].total_redemptions >= before[key].total_redemptions
            &&& after[key].total_ratings_given >= before[key].total_ratings_given
            &&& after[key].total_comments >= before[key].total_comments
            &&& after[key].reputation_score >= before[key].reputation_score
            &&& before[key].badges_earned@.len() <= after[key].badges_earned@.len()
            &&& forall|i: int|
                0 <= i < before[key].badges_earned@.len() ==> after[key].badges_earned@[i]
                    == before[key].badges_earned@[i]
        }
}

impl Ledger {
    /// Whether `after` keeps what this ledger holds for good: no
    /// marketplace, merchant, promotion, coupon, listing, comment, rating,
    /// badge or reputation record is gone; no total, supply or score has
    /// gone down; a coupon holds what it held at minting; a redeemed
    /// coupon is still redeemed, at the same time and with the same owner;
    /// and no badge has been lost.
    pub open spec fn extends_to(&self, after: Ledger) -> bool {
        &&& marketplace_kept(self@.marketplace, after@.marketplace)
        &&& merchants_kept(self@.merchants, after@.merchants)
        &&& promotions_kept(self@.promotions, after@.promotions)
        &&& coupons_kept(self@.coupons, after@.coupons)
        &&& reputations_kept(self@.reputations, after@.reputations)
        &&& self@.listings.dom().subset_of(after@.listings.dom())
        &&& self@.comments.dom().subset_of(after@.comments.dom())
        &&& self@.ratings.dom().subset_of(after@.ratings.dom())
        &&& self@.badges.dom().subset_of(after@.badges.dom())
        &&& self@.deals.dom().subset_of(after@.deals.dom())
    }

    /// Whether every store has one record for each key and no key twice.
    pub open spec fn stores_wf(&self) -> bool {
        &&& self.merchants.wf()
        &&& self.promotions.wf()
        &&& self.coupons.wf()
        &&& self.listings.wf()
        &&& self.comments.wf()
        &&& self.reputations.wf()
        &&& self.rating_stats.wf()
        &&& self.badges.wf()
        &&& self.ratings.wf()
        &&& self.geo_cells.wf()
        &&& self.deals.wf()
    }

    /// The ledger is well formed: every record is, every record is kept
    /// under the key that belongs to it, the oracle is somebody, and every
    /// aggregate of ratings agrees with the ratings.
    pub open spec fn wf(&self) -> bool {
        &&& self.stores_wf()
        &&& self.marketplace matches Some(marketplace) ==> marketplace.wf()
        &&& self.oracle matches Some(config) ==> config.wf() && !config.authority.is_sentinel()
        &&& merchants_wf(self.merchants@)
        &&& promotions_wf(self.promotions@)
        &&& listings_wf(self.listings@)
        &&& comments_wf(self.comments@)
        &&& reputations_wf(self.reputations@)
        &&& badges_wf(self.badges@)
        &&& geo_cells_wf(self.geo_cells@)
        &&& deals_wf(self.deals@)
        &&& ratings_wf(self.ratings, self.rating_stats@)
    }

    /// The reputation record of `user`, if the user has one.
    pub open spec fn reputation_of(&self, user: Identity) -> Option<UserReputation> {
        if self@.reputations.contains_key(user@) {
            Some(self@.reputations[user@])
        } else {
            None
        }
    }

    /// Whether the reputation records of `after` are those of this ledger
    /// but for the record of `user`, which is there.
    pub open spec fn reputation_changed(
        &self,
        after: Map<Seq<u8>, UserReputation>,
        user: Identity,
    ) -> bool {
        &&& after.contains_key(user@)
        &&& after == self@.reputations.insert(user@, after[user@])
    }

    /// A ledger without records.
    pub fn new() -> (ledger: Ledger)
        ensures
            ledger.wf(),
            ledger@.marketplace is None,
            ledger@.oracle is None,
            ledger@.merchants == Map::<Seq<u8>, Merchant>::empty(),
            ledger@.promotions == Map::<Seq<u8>, Promotion>::empty(),
            ledger@.coupons == Map::<Seq<u8>, Coupon>::empty(),
            ledger@.listings == Map::<Seq<u8>, Listing>::empty(),
            ledger@.comments == Map::<Seq<u8>, Comment>::empty(),
            ledger@.reputations == Map::<Seq<u8>, UserReputation>::empty(),
            ledger@.rating_stats == Map::<Seq<u8>, RatingStats>::empty(),
            ledger@.badges == Map::<Seq<u8>, BadgeNFT>::empty(),
            ledger@.ratings == Map::<(Seq<u8>, Seq<u8>), Rating>::empty(),
            ledger@.geo_cells == Map::<u64, GeoCell>::empty(),
            ledger@.deals == Map::<Seq<char>, ExternalDeal>::empty(),
    {
        Ledger {
            marketplace: None,
            oracle: None,
            merchants: Store::new(),
            promotions: Store::new(),
            coupons: Store::new(),
            listings: Store::new(),
            comments: Store::new(),
            reputations: Store::new(),
            rating_stats: Store::new(),
            badges: Store::new(),
            ratings: Store::new(),
            geo_cells: Store::new(),
            deals: Store::new(),
        }
    }
}

/// Takes the reputation record of `user` out of the store, if the user has
/// one, and leaves a fresh record of that user in its place.
pub(crate) fn borrow_reputation(
    reputations: &mut Store<Identity, UserReputation>,
    user: Identity,
    now: i64,
) -> (r: (Option<usize>, Option<UserReputation>))
    requires
        old(reputations).wf(),
    ensures
        final(reputations).wf(),
        final(reputations).keys@ == old(reputations).keys@,
        final(reputations).values@.len() == old(reputations).values@.len(),
        match r.0 {
            Some(at) => {
                &&& at < old(reputations).keys@.len()
                &&& old(reputations).keys@[at as int]@ == user@
                &&& old(reputations)@.contains_key(user@)
                &&& r.1 == Some(old(reputations)@[user@])
                &&& forall|i: int|
                    0 <= i < old(reputations).values@.len() && i != at
                        ==> final(reputations).values@[i] == old(reputations).values@[i]
            },
            None => {
                &&& r.1 is None
                &&& !old(reputations)@.contains_key(user@)
                &&& final(reputations).values@ == old(reputations).values@
            },
        },
{
    match reputations.find(&user) {
        Some(at) => {
            let record = reputations.lend(at, UserReputation::new(user, now));
            (Some(at), Some(record))
        },
        None => (None, None),
    }
}

/// Puts the reputation record of `user` into the store: back where it was
/// taken from, or in a new place if the user had none.
pub(crate) fn return_reputation(
    reputations: &mut Store<Identity, UserReputation>,
    at: Option<usize>,
    slot: Option<UserReputation>,
    user: Identity,
    original: Ghost<Store<Identity, UserReputation>>,
)
    requires
        old(reputations).wf(),
        original@.wf(),
        old(reputations).keys@ == original@.keys@,
        old(reputations).values@.len() == original@.values@.len(),
        match at {
            Some(at) => {
                &&& at < original@.keys@.len()
                &&& original@.keys@[at as int]@ == user@
                &&& slot is Some
                &&& forall|i: int|
                    0 <= i < original@.values@.len() && i != at ==> old(reputations).values@[i]
                        == original@.values@[i]
            },
            None => {
                &&& !original@@.contains_key(user@)
                &&& old(reputations).values@ == original@.values@
            },
        },
    ensures
        final(reputations).wf(),
        match slot {
            Some(record) => final(reputations)@ == original@@.insert(user@, record),
            None => final(reputations)@ == original@@,
        },
{
    match slot {
        Some(record) => {
            match at {
                Some(at) => {
                    reputations.replace(at, record);
                    proof {
                        original@.lemma_replaced(*reputations, at as int);
                    }
                },
                None => {
                    proof {
                        original@.lemma_same(*old(reputations));
                    }
                    reputations.insert(user, record);
                },
            }
        },
        None => {
            proof {
                original@.lemma_same(*old(reputations));
            }
        },
    }
}

} // verus!
