//! The records of the marketplace and the rules that concern one record alone.

pub mod badge;
pub mod comment;
pub mod coupon;
pub mod external_deal;
pub mod listing;
pub mod location;
pub mod marketplace;
pub mod merchant;
pub mod promotion;
pub mod rating;

pub use badge::{Activity, BadgeNFT, BadgeType, ReputationTier, UserReputation};
pub use comment::Comment;
pub use coupon::Coupon;
pub use external_deal::{DealSource, ExternalDeal, OracleConfig};
pub use listing::Listing;
pub use location::{GeoCell, Location};
pub use marketplace::{FeeSplit, Marketplace};
pub use merchant::Merchant;
pub use promotion::{Placement, Promotion};
pub use rating::{Rating, RatingStats};
