//! One transaction for each operation of the marketplace.
//!
//! A transaction is handed the records that it reads and writes, the
//! identities that act, and the current time. It checks its guards in a
//! fixed order and reports the first that fails; in that case no record has
//! changed. Otherwise it updates every record it is responsible for and
//! returns what it created, together with the event to publish.

pub mod add_comment;
pub mod buy_listing;
pub mod create_promotion;
pub mod initialize;
pub mod like_comment;
pub mod list_for_sale;
pub mod mint_badge;
pub mod mint_coupon;
pub mod rate_promotion;
pub mod redeem_coupon;
pub mod register_merchant;
pub mod transfer_coupon;
pub mod update_external_deal;
