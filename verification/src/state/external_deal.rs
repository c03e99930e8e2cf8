//! Deals imported from third parties by an oracle.

use vstd::prelude::*;
use crate::identity::Identity;

verus! {

/// Longest external identifier of a deal, in characters.
pub const MAX_EXTERNAL_ID_LEN: usize = 100;

/// Longest title of a deal, in characters.
pub const MAX_TITLE_LEN: usize = 200;

/// Longest description of a deal, in characters.
pub const MAX_DEAL_DESCRIPTION_LEN: usize = 500;

/// Longest category of a deal, in characters.
pub const MAX_DEAL_CATEGORY_LEN: usize = 50;

/// Longest link of a deal, in characters.
pub const MAX_URL_LEN: usize = 200;

/// Most sources that an oracle configuration can allow.
pub const MAX_ALLOWED_SOURCES: usize = 10;

/// Where a deal comes from.
#[derive(Clone, Copy, Debug, PartialEq, Eq, Hash, Structural)]
pub enum DealSource {
    Skyscanner,
    BookingCom,
    Shopify,
    Amazon,
    Custom,
}

/// The discount in percent that a drop from `original_price` to
/// `discounted_price` amounts to, rounded down.
pub open spec fn deal_discount(original_price: int, discounted_price: int) -> int {
    (original_price - discounted_price) * 100 / original_price
}

/// Whether a pair of prices describes a deal: the original price is not
/// zero and the discounted price does not exceed it.
pub open spec fn valid_prices(original_price: int, discounted_price: int) -> bool {
    0 <= discounted_price <= original_price && 0 < original_price
}

/// A deal that an oracle has imported, keyed by its external identifier.
#[derive(Clone, Debug, PartialEq, Eq)]
pub struct ExternalDeal {
    /// The oracle that first wrote the deal; the sentinel while the record
    /// has not been written.
    pub oracle_authority: Identity,
    /// Where the deal comes from.
    pub source: DealSource,
    /// The identifier of the deal at its source.
    pub external_id: String,
    /// Headline.
    pub title: String,
    /// What is on offer.
    pub description: String,
    /// The price before the discount.
    pub original_price: u64,
    /// The price after the discount.
    pub discounted_price: u64,
    /// The discount in percent, derived from the two prices.
    pub discount_percentage: u8,
    /// Line of business.
    pub category: String,
    /// Link to a picture.
    pub image_url: String,
    /// Link to the offer.
    pub affiliate_url: String,
    /// When the deal ends.
    pub expiry_timestamp: i64,
    /// When the oracle last wrote the deal.
    pub last_updated: i64,
    /// Whether the deal has been confirmed often enough.
    pub is_verified: bool,
    /// How often the oracle has written the deal.
    pub verification_count: u32,
}

impl ExternalDeal {
    /// Whether the record has never been written: its oracle is the
    /// sentinel.
    pub open spec fn is_vacant(&self) -> bool {
        self.oracle_authority.is_sentinel()
    }

    /// The deal that the record holds, if it has been written.
    pub open spec fn occupant(&self) -> Option<ExternalDeal> {
        if self.is_vacant() {
            None
        } else {
            Some(*self)
        }
    }

    /// Whether the texts are within their limits.
    pub open spec fn texts_wf(&self) -> bool {
        &&& self.external_id@.len() <= 100
        &&& self.title@.len() <= 200
        &&& self.description@.len() <= 500
        &&& self.category@.len() <= 50
        &&& self.image_url@.len() <= 200
        &&& self.affiliate_url@.len() <= 200
    }

    /// The texts are within their limits, and a written record holds valid
    /// prices, the discount derived from them, and at least one
    /// verification.
    pub open spec fn wf(&self) -> bool {
        &&& self.texts_wf()
        &&& !self.is_vacant() ==> {
            &&& valid_prices(self.original_price as int, self.discounted_price as int)
            &&& self.discount_percentage == deal_discount(
                self.original_price as int,
                self.discounted_price as int,
            )
            &&& self.verification_count >= 1
        }
    }
}

impl Default for ExternalDeal {
    /// A record that has never been written.
    fn default() -> (r: ExternalDeal)
        ensures
            r.is_vacant(),
            r.wf(),
            r.external_id@.len() == 0,
            r.verification_count == 0,
            !r.is_verified,
            r.last_updated == 0,
    {
        ExternalDeal {
            oracle_authority: Identity::default(),
            source: DealSource::Skyscanner,
            external_id: String::new(),
            title: String::new(),
            description: String::new(),
            original_price: 0,
            discounted_price: 0,
            discount_percentage: 0,
            category: String::new(),
            image_url: String::new(),
            affiliate_url: String::new(),
            expiry_timestamp: 0,
            last_updated: 0,
            is_verified: false,
            verification_count: 0,
        }
    }
}

/// The settings of the oracle feed.
#[derive(Clone, Debug, PartialEq, Eq)]
pub struct OracleConfig {
    /// The only identity that may write deals.
    pub authority: Identity,
    /// How many deals have been imported.
    pub total_deals_imported: u64,
    /// The sources that the feed accepts.
    pub allowed_sources: Vec<DealSource>,
    /// How many writes make a deal verified.
    pub min_verification_count: u32,
    /// Fewest seconds between two writes of one deal.
    pub update_interval: i64,
}

impl OracleConfig {
    /// There are at most ten allowed sources.
    pub open spec fn wf(&self) -> bool {
        self.allowed_sources@.len() <= 10
    }
}

/// The discount derived from valid prices is a percentage.
pub proof fn lemma_deal_discount_bounded(original_price: int, discounted_price: int)
    requires
        valid_prices(original_price, discounted_price),
    ensures
        0 <= deal_discount(original_price, discounted_price) <= 100,
{
    let drop = original_price - discounted_price;
    assert(drop * 100 / original_price <= 100) by (nonlinear_arith)
        requires
            original_price > 0,
            0 <= drop * 100 <= 100 * original_price,
    ;
    assert(0 <= drop * 100 / original_price) by (nonlinear_arith)
        requires
            original_price > 0,
            0 <= drop * 100,
    ;
}

} // verus!
