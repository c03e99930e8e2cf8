//! A marketplace for location-aware discount coupons.
//!
//! Merchants publish promotions with a bounded supply and an expiry; users
//! mint, resell and redeem coupons; a reputation layer rewards activity; a
//! social layer carries ratings and comments; an oracle feed imports deals
//! from third parties.
//!
//! The crate has three layers:
//!
//! * [`state`] holds the records and the rules that concern one record alone.
//! * [`instructions`] holds one transaction per operation. A transaction takes
//!   exclusive access to the records it touches and either updates all of them
//!   or leaves all of them as they were.
//! * [`ledger`] is a keyed store of all records with the operations on top of
//!   it. Every operation keeps the ledger well formed: no promotion mints
//!   beyond its supply, no aggregate of ratings disagrees with the ratings,
//!   no user holds a badge twice.
//!
//! Beside them, [`address`] derives the address of a record from its key,
//! [`store`] is the keyed store that the ledger is made of, [`events`] are
//! the notifications that operations hand back, and [`errors`] the reasons
//! for which they refuse.
//!
//! Time, token custody and payments are the caller's business: every
//! transaction takes the current time as an argument, names the token that a
//! coupon or badge stands for, and reports the amounts that have to be paid.

pub mod address;
pub mod errors;
pub mod events;
pub mod identity;
pub mod instructions;
pub mod ledger;
pub mod state;
pub mod store;
