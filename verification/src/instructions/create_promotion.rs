//! Creating a promotion.

use vstd::prelude::*;
use crate::errors::CouponError;
use crate::events::PromotionCreated;
use crate::identity::Identity;
use crate::instructions::register_merchant::{coords_ok, has_coords, locate};
use crate::state::location::{cell_id, cell_index, GeoCell, Location};
use crate::state::merchant::{Merchant, MAX_CATEGORY_LEN};
use crate::state::promotion::{Placement, Promotion, MAX_DESCRIPTION_LEN};

verus! {

/// The placement that optional coordinates and a radius describe: around
/// the place where both coordinates are given, online otherwise.
pub open spec fn placement_of(
    latitude: Option<i64>,
    longitude: Option<i64>,
    radius_meters: u32,
) -> Placement {
    if has_coords(latitude, longitude) {
        let location = Location::spec_from_coords(latitude->0 as int, longitude->0 as int);
        Placement::Located {
            location,
            radius_meters,
            geo_cell_id: cell_id(
                cell_index(location.latitude as int),
                cell_index(location.longitude as int),
            ) as u64,
        }
    } else {
        Placement::Online
    }
}

/// Whether the grid cell handed in can take one more promotion placed as
/// described: nothing is asked of it for an online promotion; otherwise it
/// is absent, or it is the cell of the place and its count is below the
/// limit.
pub open spec fn cell_refusal(geo_cell: Option<GeoCell>, placement: Placement) -> Option<
    CouponError,
> {
    match placement {
        Placement::Online => None,
        Placement::Located { geo_cell_id, .. } => match geo_cell {
            None => None,
            Some(cell) => if cell.cell_id != geo_cell_id {
                Some(CouponError::AccountMismatch)
            } else if cell.promotion_count == u32::MAX {
                Some(CouponError::ArithmeticOverflow)
            } else {
                None
            },
        },
    }
}

/// Why a promotion is refused, if it is. The guards, in order: the caller
/// is the merchant's authority; the discount is from 1 to 100; there is
/// supply; the expiry lies after `now`; category and description are
/// within their limits; the coordinates lie on the globe; the grid cell
/// handed in is the right one and can count one more.
pub open spec fn refusal(
    merchant: Merchant,
    geo_cell: Option<GeoCell>,
    authority: Identity,
    discount_percentage: u8,
    max_supply: u32,
    expiry_timestamp: i64,
    category: Seq<char>,
    description: Seq<char>,
    latitude: Option<i64>,
    longitude: Option<i64>,
    radius_meters: u32,
    now: i64,
) -> Option<CouponError> {
    if merchant.authority != authority {
        Some(CouponError::NotMerchantAuthority)
    } else if !(1 <= discount_percentage <= 100) {
        Some(CouponError::InvalidDiscount)
    } else if max_supply == 0 {
        Some(CouponError::InvalidSupply)
    } else if expiry_timestamp <= now {
        Some(CouponError::InvalidExpiry)
    } else if category.len() > 30 {
        Some(CouponError::CategoryTooLong)
    } else if description.len() > 200 {
        Some(CouponError::DescriptionTooLong)
    } else if !coords_ok(latitude, longitude) {
        Some(CouponError::InvalidCoordinates)
    } else {
        cell_refusal(geo_cell, placement_of(latitude, longitude, radius_meters))
    }
}

/// The record of a promotion that has just been created.
pub open spec fn created(
    merchant_key: Identity,
    discount_percentage: u8,
    max_supply: u32,
    expiry_timestamp: i64,
    category: String,
    description: String,
    price: u64,
    placement: Placement,
    now: i64,
) -> Promotion {
    Promotion {
        merchant: merchant_key,
        discount_percentage,
        max_supply,
        current_supply: 0,
        expiry_timestamp,
        category,
        description,
        price,
        is_active: true,
        created_at: now,
        placement,
    }
}

/// Whether `after` is the grid cell record that results from placing a
/// promotion as described while the record was `before`: unchanged for an
/// online promotion; otherwise the cell of the place, created empty where
/// it was absent, with its count one higher.
pub open spec fn cell_counted(
    before: Option<GeoCell>,
    after: Option<GeoCell>,
    placement: Placement,
) -> bool {
    match placement {
        Placement::Online => after == before,
        Placement::Located { location, geo_cell_id, .. } => match before {
            Some(cell) => after == Some(
                GeoCell { promotion_count: (cell.promotion_count + 1) as u32, ..cell },
            ),
            None => {
                &&& after is Some
                &&& after->0.wf()
                &&& after->0.contains(location)
                &&& after->0.cell_id == geo_cell_id
                &&& after->0.promotion_count == 1
            },
        },
    }
}

/// Creates a promotion of the merchant kept under `merchant_key`, on the
/// word of `authority`.
///
/// `promotion_key` is the address under which the new record will be kept.
/// Where both coordinates are given, in millionths of a degree, the
/// promotion is placed there: `geo_cell` must then hold the record of the
/// grid cell of that place, or nothing if the cell has no record yet, and
/// afterwards holds the record with the promotion counted in.
pub fn handler(
    merchant: &Merchant,
    geo_cell: &mut Option<GeoCell>,
    merchant_key: Identity,
    promotion_key: Identity,
    authority: Identity,
    discount_percentage: u8,
    max_supply: u32,
    expiry_timestamp: i64,
    category: String,
    description: String,
    price: u64,
    latitude: Option<i64>,
    longitude: Option<i64>,
    radius_meters: u32,
    now: i64,
) -> (r: Result<(Promotion, PromotionCreated), CouponError>)
    ensures
        match r {
            Ok((promotion, event)) => {
                &&& refusal(
                    *merchant,
                    *old(geo_cell),
                    authority,
                    discount_percentage,
                    max_supply,
                    expiry_timestamp,
                    category@,
                    description@,
                    latitude,
                    longitude,
                    radius_meters,
                    now,
                ) is None
                &&& promotion == created(
                    merchant_key,
                    discount_percentage,
                    max_supply,
                    expiry_timestamp,
                    category,
                    description,
                    price,
                    placement_of(latitude, longitude, radius_meters),
                    now,
                )
                &&& promotion.wf()
                &&& cell_counted(*old(geo_cell), *final(geo_cell), promotion.placement)
                &&& event == (PromotionCreated {
                    promotion: promotion_key,
                    merchant: merchant_key,
                    discount_percentage,
                    max_supply,
                    expiry_timestamp,
                    price,
                    placement: promotion.placement,
                    timestamp: now,
                })
            },
            Err(e) => {
                &&& refusal(
                    *merchant,
                    *old(geo_cell),
                    authority,
                    discount_percentage,
                    max_supply,
                    expiry_timestamp,
                    category@,
                    description@,
                    latitude,
                    longitude,
                    radius_meters,
                    now,
                ) == Some(e)
                &&& *final(geo_cell) == *old(geo_cell)
            },
        },
{
    if merchant.authority != authority {
        return Err(CouponError::NotMerchantAuthority);
    }
    if discount_percentage == 0 || discount_percentage > 100 {
        return Err(CouponError::InvalidDiscount);
    }
    if max_supply == 0 {
        return Err(CouponError::InvalidSupply);
    }
    if expiry_timestamp <= now {
        return Err(CouponError::InvalidExpiry);
    }
    if category.as_str().unicode_len() > MAX_CATEGORY_LEN {
        return Err(CouponError::CategoryTooLong);
    }
    if description.as_str().unicode_len() > MAX_DESCRIPTION_LEN {
        return Err(CouponError::DescriptionTooLong);
    }
    let located = match locate(latitude, longitude) {
        Ok(located) => located,
        Err(e) => {
            return Err(e);
        },
    };
    let placement = match located {
        None => Placement::Online,
        Some(location) => {
            let (cell_lat, cell_lon) = GeoCell::from_coords(location.latitude, location.longitude);
            let geo_cell_id = GeoCell::to_cell_id(cell_lat, cell_lon);
            let counted = match *geo_cell {
                Some(cell) => {
                    if cell.cell_id != geo_cell_id {
                        return Err(CouponError::AccountMismatch);
                    }
                    if cell.promotion_count == u32::MAX {
                        return Err(CouponError::ArithmeticOverflow);
                    }
                    GeoCell { promotion_count: cell.promotion_count + 1, ..cell }
                },
                None => {
                    let cell = GeoCell::containing(&location);
                    GeoCell { promotion_count: 1, ..cell }
                },
            };
            *geo_cell = Some(counted);
            Placement::Located { location, radius_meters, geo_cell_id }
        },
    };
    let promotion = Promotion {
        merchant: merchant_key,
        discount_percentage,
        max_supply,
        current_supply: 0,
        expiry_timestamp,
        category,
        description,
        price,
        is_active: true,
        created_at: now,
        placement,
    };
    let event = PromotionCreated {
        promotion: promotion_key,
        merchant: merchant_key,
        discount_percentage,
        max_supply,
        expiry_timestamp,
        price,
        placement,
        timestamp: now,
    };
    Ok((promotion, event))
}

} // verus!
