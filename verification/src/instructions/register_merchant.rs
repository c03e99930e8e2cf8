//! Registering a merchant.

use vstd::prelude::*;
use crate::errors::CouponError;
use crate::events::MerchantRegistered;
use crate::identity::Identity;
use crate::state::location::{valid_coords, Location};
use crate::state::marketplace::Marketplace;
use crate::state::merchant::{Merchant, MAX_CATEGORY_LEN, MAX_NAME_LEN};

verus! {

/// Whether both coordinates are given.
pub open spec fn has_coords(latitude: Option<i64>, longitude: Option<i64>) -> bool {
    latitude is Some && longitude is Some
}

/// The location that a pair of optional coordinates describes: a place
/// where both are given, none otherwise.
pub open spec fn location_of(latitude: Option<i64>, longitude: Option<i64>) -> Option<Location> {
    if has_coords(latitude, longitude) {
        Some(Location::spec_from_coords(latitude->0 as int, longitude->0 as int))
    } else {
        None
    }
}

/// Whether coordinates, where both are given, lie on the globe.
pub open spec fn coords_ok(latitude: Option<i64>, longitude: Option<i64>) -> bool {
    has_coords(latitude, longitude) ==> valid_coords(latitude->0 as int, longitude->0 as int)
}

/// Turns optional coordinates into an optional location, or reports
/// `InvalidCoordinates` when both are given and lie off the globe.
pub fn locate(latitude: Option<i64>, longitude: Option<i64>) -> (r: Result<
    Option<Location>,
    CouponError,
>)
    ensures
        coords_ok(latitude, longitude) ==> r == Ok::<Option<Location>, CouponError>(
            location_of(latitude, longitude),
        ),
        !coords_ok(latitude, longitude) ==> r == Err::<Option<Location>, CouponError>(
            CouponError::InvalidCoordinates,
        ),
        r matches Ok(Some(l)) ==> l.wf(),
{
    match (latitude, longitude) {
        (Some(lat), Some(lon)) => match Location::from_coords(lat, lon) {
            Ok(location) => Ok(Some(location)),
            Err(e) => Err(e),
        },
        _ => Ok(None),
    }
}

/// Why a registration is refused, if it is: the first of the name being
/// too long, the category being too long, the coordinates lying off the
/// globe, and the marketplace's count of merchants being at its limit.
pub open spec fn refusal(
    marketplace: Marketplace,
    name: Seq<char>,
    category: Seq<char>,
    latitude: Option<i64>,
    longitude: Option<i64>,
) -> Option<CouponError> {
    if name.len() > 50 {
        Some(CouponError::NameTooLong)
    } else if category.len() > 30 {
        Some(CouponError::CategoryTooLong)
    } else if !coords_ok(latitude, longitude) {
        Some(CouponError::InvalidCoordinates)
    } else if marketplace.total_merchants == u64::MAX {
        Some(CouponError::ArithmeticOverflow)
    } else {
        None
    }
}

/// The record of a merchant that has just registered.
pub open spec fn registered(
    authority: Identity,
    name: String,
    category: String,
    latitude: Option<i64>,
    longitude: Option<i64>,
    now: i64,
) -> Merchant {
    Merchant {
        authority,
        name,
        category,
        total_coupons_created: 0,
        total_coupons_redeemed: 0,
        is_active: true,
        created_at: now,
        location: location_of(latitude, longitude),
    }
}

/// Registers a merchant for `authority` and counts it in the marketplace.
///
/// `merchant_key` is the address under which the new record will be kept.
/// The merchant has a location where both coordinates are given, in
/// millionths of a degree.
pub fn handler(
    marketplace: &mut Marketplace,
    merchant_key: Identity,
    authority: Identity,
    name: String,
    category: String,
    latitude: Option<i64>,
    longitude: Option<i64>,
    now: i64,
) -> (r: Result<(Merchant, MerchantRegistered), CouponError>)
    ensures
        match r {
            Ok((merchant, event)) => {
                &&& refusal(*old(marketplace), name@, category@, latitude, longitude) is None
                &&& merchant == registered(authority, name, category, latitude, longitude, now)
                &&& merchant.wf()
                &&& *final(marketplace) == (Marketplace {
                    total_merchants: (old(marketplace).total_merchants + 1) as u64,
                    ..*old(marketplace)
                })
                &&& event == (MerchantRegistered {
                    merchant: merchant_key,
                    authority,
                    name,
                    category,
                    timestamp: now,
                })
            },
            Err(e) => {
                &&& refusal(*old(marketplace), name@, category@, latitude, longitude) == Some(e)
                &&& *final(marketplace) == *old(marketplace)
            },
        },
{
    if name.as_str().unicode_len() > MAX_NAME_LEN {
        return Err(CouponError::NameTooLong);
    }
    if category.as_str().unicode_len() > MAX_CATEGORY_LEN {
        return Err(CouponError::CategoryTooLong);
    }
    let location = match locate(latitude, longitude) {
        Ok(location) => location,
        Err(e) => {
            return Err(e);
        },
    };
    if marketplace.total_merchants == u64::MAX {
        return Err(CouponError::ArithmeticOverflow);
    }
    let event = MerchantRegistered {
        merchant: merchant_key,
        authority,
        name: name.clone(),
        category: category.clone(),
        timestamp: now,
    };
    let merchant = Merchant {
        authority,
        name,
        category,
        total_coupons_created: 0,
        total_coupons_redeemed: 0,
        is_active: true,
        created_at: now,
        location,
    };
    marketplace.total_merchants = marketplace.total_merchants + 1;
    Ok((merchant, event))
}

} // verus!
