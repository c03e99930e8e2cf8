//! The errors that an operation can report.

use vstd::prelude::*;

verus! {

/// Why an operation was refused. An operation that reports an error has
/// changed nothing.
#[derive(Clone, Copy, Debug, PartialEq, Eq, Hash, Structural)]
pub enum CouponError {
    /// A name is longer than its limit, or a comment is empty.
    NameTooLong,
    /// A category is longer than its limit.
    CategoryTooLong,
    /// A description, a comment or a link is longer than its limit.
    DescriptionTooLong,
    /// A discount is outside 1..=100, or a star rating outside 1..=5.
    InvalidDiscount,
    /// A promotion was offered with no supply.
    InvalidSupply,
    /// An expiry does not lie in the future.
    InvalidExpiry,
    /// A latitude or longitude is out of range.
    InvalidCoordinates,
    /// A price is zero where it must not be, or a discounted price exceeds
    /// the original one.
    InvalidPrice,
    /// An oracle configuration allows more sources than it can hold.
    TooManySources,
    /// The caller is not the authority of the merchant.
    NotMerchantAuthority,
    /// The caller does not own the coupon.
    NotCouponOwner,
    /// The merchant is not the one that the promotion or coupon names.
    WrongMerchant,
    /// The caller is not the seller of the listing.
    NotListingSeller,
    /// The caller is not the configured oracle authority.
    UnauthorizedOracle,
    /// A record that was handed in belongs to another identity or key than
    /// the one that the operation names.
    AccountMismatch,
    /// The sentinel identity, which stands for nobody, was named as the
    /// one who acts.
    SentinelIdentity,
    /// The promotion has been switched off.
    PromotionInactive,
    /// Every coupon of the promotion has been minted.
    SupplyExhausted,
    /// The promotion has expired.
    PromotionExpired,
    /// The coupon has been redeemed.
    CouponAlreadyRedeemed,
    /// The coupon has expired.
    CouponExpired,
    /// The listing is not open.
    ListingInactive,
    /// The user has earned this badge before.
    AlreadyEarned,
    /// The user does not meet the badge's condition.
    NotEligible,
    /// The store holds no marketplace yet.
    MarketplaceNotInitialized,
    /// The store holds no oracle configuration yet.
    OracleNotConfigured,
    /// A record that may exist only once exists already.
    AlreadyInitialized,
    /// The store holds no record under the given address.
    AccountNotFound,
    /// The address offered for a new record is taken.
    AccountInUse,
    /// No address can be derived from the key of a new record.
    AddressNotDerivable,
    /// The oracle wrote again before the update interval had passed.
    UpdateTooFrequent,
    /// A counter or an amount would leave its range.
    ArithmeticOverflow,
}

/// The five families of errors.
#[derive(Clone, Copy, Debug, PartialEq, Eq, Hash, Structural)]
pub enum ErrorKind {
    /// The input is out of range; the caller must correct it.
    Validation,
    /// The caller is not entitled to the operation.
    Authorization,
    /// The state of the records forbids the operation.
    StateConflict,
    /// The operation came too soon and may be tried again later.
    Throughput,
    /// A number left its range.
    Arithmetic,
}

impl CouponError {
    /// The family that this error belongs to.
    pub open spec fn spec_kind(self) -> ErrorKind {
        match self {
            CouponError::NameTooLong
            | CouponError::CategoryTooLong
            | CouponError::DescriptionTooLong
            | CouponError::InvalidDiscount
            | CouponError::InvalidSupply
            | CouponError::InvalidExpiry
            | CouponError::InvalidCoordinates
            | CouponError::InvalidPrice
            | CouponError::TooManySources => ErrorKind::Validation,
            CouponError::NotMerchantAuthority
            | CouponError::NotCouponOwner
            | CouponError::WrongMerchant
            | CouponError::NotListingSeller
            | CouponError::UnauthorizedOracle
            | CouponError::AccountMismatch
            | CouponError::SentinelIdentity => ErrorKind::Authorization,
            CouponError::PromotionInactive
            | CouponError::SupplyExhausted
            | CouponError::PromotionExpired
            | CouponError::CouponAlreadyRedeemed
            | CouponError::CouponExpired
            | CouponError::ListingInactive
            | CouponError::AlreadyEarned
            | CouponError::NotEligible
            | CouponError::MarketplaceNotInitialized
            | CouponError::OracleNotConfigured
            | CouponError::AlreadyInitialized
            | CouponError::AccountNotFound
            | CouponError::AccountInUse
            | CouponError::AddressNotDerivable => ErrorKind::StateConflict,
            CouponError::UpdateTooFrequent => ErrorKind::Throughput,
            CouponError::ArithmeticOverflow => ErrorKind::Arithmetic,
        }
    }

    /// The family that this error belongs to.
    pub fn kind(&self) -> (k: ErrorKind)
        ensures
            k == self.spec_kind(),
    {
        match self {
            CouponError::NameTooLong
            | CouponError::CategoryTooLong
            | CouponError::DescriptionTooLong
            | CouponError::InvalidDiscount
            | CouponError::InvalidSupply
            | CouponError::InvalidExpiry
            | CouponError::InvalidCoordinates
            | CouponError::InvalidPrice
            | CouponError::TooManySources => ErrorKind::Validation,
            CouponError::NotMerchantAuthority
            | CouponError::NotCouponOwner
            | CouponError::WrongMerchant
            | CouponError::NotListingSeller
            | CouponError::UnauthorizedOracle
            | CouponError::AccountMismatch
            | CouponError::SentinelIdentity => ErrorKind::Authorization,
            CouponError::PromotionInactive
            | CouponError::SupplyExhausted
            | CouponError::PromotionExpired
            | CouponError::CouponAlreadyRedeemed
            | CouponError::CouponExpired
            | CouponError::ListingInactive
            | CouponError::AlreadyEarned
            | CouponError::NotEligible
            | CouponError::MarketplaceNotInitialized
            | CouponError::OracleNotConfigured
            | CouponError::AlreadyInitialized
            | CouponError::AccountNotFound
            | CouponError::AccountInUse
            | CouponError::AddressNotDerivable => ErrorKind::StateConflict,
            CouponError::UpdateTooFrequent => ErrorKind::Throughput,
            CouponError::ArithmeticOverflow => ErrorKind::Arithmetic,
        }
    }
}

} // verus!
