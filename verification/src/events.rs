//! The notifications that successful operations hand to their caller.
//!
//! An event is a snapshot for outside consumers. No rule of the marketplace
//! reads an event, and one that is lost changes nothing.

use vstd::prelude::*;
use crate::identity::Identity;
use crate::state::badge::BadgeType;
use crate::state::external_deal::DealSource;
use crate::state::promotion::Placement;

verus! {

/// The marketplace was initialized.
#[derive(Clone, Copy, Debug, PartialEq, Eq)]
pub struct MarketplaceInitialized {
    pub authority: Identity,
    pub fee_basis_points: u16,
    pub timestamp: i64,
}

/// A merchant registered.
#[derive(Clone, Debug, PartialEq, Eq)]
pub struct MerchantRegistered {
    pub merchant: Identity,
    pub authority: Identity,
    pub name: String,
    pub category: String,
    pub timestamp: i64,
}

/// A merchant created a promotion.
#[derive(Clone, Copy, Debug, PartialEq, Eq)]
pub struct PromotionCreated {
    pub promotion: Identity,
    pub merchant: Identity,
    pub discount_percentage: u8,
    pub max_supply: u32,
    pub expiry_timestamp: i64,
    pub price: u64,
    pub placement: Placement,
    pub timestamp: i64,
}

/// A coupon was minted.
#[derive(Clone, Copy, Debug, PartialEq, Eq)]
pub struct CouponMinted {
    pub coupon: Identity,
    pub nft_mint: Identity,
    pub promotion: Identity,
    pub recipient: Identity,
    pub merchant: Identity,
    pub discount_percentage: u8,
    pub expiry_timestamp: i64,
    pub timestamp: i64,
}

/// A coupon changed hands outside a sale.
#[derive(Clone, Copy, Debug, PartialEq, Eq)]
pub struct CouponTransferred {
    pub coupon: Identity,
    pub nft_mint: Identity,
    pub from: Identity,
    pub to: Identity,
    pub timestamp: i64,
}

/// A coupon was redeemed; its token is to be burnt.
#[derive(Clone, Copy, Debug, PartialEq, Eq)]
pub struct CouponRedeemed {
    pub coupon: Identity,
    pub nft_mint: Identity,
    pub user: Identity,
    pub merchant: Identity,
    pub discount_percentage: u8,
    pub timestamp: i64,
}

/// A coupon was put up for sale.
#[derive(Clone, Copy, Debug, PartialEq, Eq)]
pub struct CouponListed {
    pub listing: Identity,
    pub coupon: Identity,
    pub nft_mint: Identity,
    pub seller: Identity,
    pub price: u64,
    pub timestamp: i64,
}

/// A listing was withdrawn.
#[derive(Clone, Copy, Debug, PartialEq, Eq)]
pub struct ListingCancelled {
    pub listing: Identity,
    pub coupon: Identity,
    pub seller: Identity,
    pub timestamp: i64,
}

/// A listed coupon was sold. The buyer owes `price`: `marketplace_fee` of
/// it to the marketplace and `seller_proceeds` to the seller.
#[derive(Clone, Copy, Debug, PartialEq, Eq)]
pub struct CouponSold {
    pub listing: Identity,
    pub coupon: Identity,
    pub nft_mint: Identity,
    pub seller: Identity,
    pub buyer: Identity,
    pub price: u64,
    pub marketplace_fee: u64,
    pub seller_proceeds: u64,
    pub timestamp: i64,
}

/// A user rated a promotion, for the first time or again.
#[derive(Clone, Copy, Debug, PartialEq, Eq)]
pub struct PromotionRated {
    pub user: Identity,
    pub promotion: Identity,
    pub stars: u8,
    pub is_update: bool,
}

/// The oracle wrote a deal.
#[derive(Clone, Debug, PartialEq, Eq)]
pub struct ExternalDealUpdated {
    pub source: DealSource,
    pub external_id: String,
    pub price: u64,
    pub verified: bool,
}

/// A comment was liked.
#[derive(Clone, Copy, Debug, PartialEq, Eq)]
pub struct CommentLiked {
    pub comment: Identity,
    pub user: Identity,
}

/// A comment was posted.
#[derive(Clone, Debug, PartialEq, Eq)]
pub struct CommentAdded {
    pub comment: Identity,
    pub user: Identity,
    pub promotion: Identity,
    pub content: String,
    pub is_reply: bool,
}

/// A user earned a badge.
#[derive(Clone, Copy, Debug, PartialEq, Eq)]
pub struct BadgeEarned {
    pub user: Identity,
    pub badge_type: BadgeType,
    pub mint: Identity,
}

} // verus!
