//! The registry, the merchant directory and the promotion catalog.

use vstd::prelude::*;
use crate::errors::CouponError;
use crate::events::{MarketplaceInitialized, MerchantRegistered, PromotionCreated};
use crate::identity::Identity;
use crate::instructions::{create_promotion, initialize, register_merchant};
use crate::ledger::{Ledger, LedgerView};
use crate::instructions::register_merchant::locate;
use crate::state::location::GeoCell;
use crate::state::promotion::Placement;
use crate::state::marketplace::Marketplace;

verus! {

impl Ledger {
    /// Why a registration is refused, if it is: there is no marketplace
    /// yet (`MarketplaceNotInitialized`), or else the authority has a
    /// merchant already (`AlreadyInitialized`), or else the transaction
    /// refuses.
    pub open spec fn register_refusal(
        &self,
        authority: Identity,
        name: Seq<char>,
        category: Seq<char>,
        latitude: Option<i64>,
        longitude: Option<i64>,
    ) -> Option<CouponError> {
        if self@.marketplace is None {
            Some(CouponError::MarketplaceNotInitialized)
        } else if self@.merchants.contains_key(authority@) {
            Some(CouponError::AlreadyInitialized)
        } else {
            register_merchant::refusal(self@.marketplace->0, name, category, latitude, longitude)
        }
    }

    /// The record of the grid cell of `placement`, if the placement has a
    /// cell and the cell has a record.
    pub open spec fn cell_at(&self, placement: Placement) -> Option<GeoCell> {
        match placement {
            Placement::Online => None,
            Placement::Located { geo_cell_id, .. } => if self@.geo_cells.contains_key(
                geo_cell_id,
            ) {
                Some(self@.geo_cells[geo_cell_id])
            } else {
                None
            },
        }
    }

    /// Why a promotion is refused, if it is: there is no merchant under
    /// `merchant` (`AccountNotFound`), or else the address `promotion` is
    /// taken (`AccountInUse`), or else the transaction refuses.
    pub open spec fn create_refusal(
        &self,
        promotion: Identity,
        merchant: Identity,
        authority: Identity,
        discount_percentage: u8,
        max_supply: u32,
        expiry_timestamp: i64,
        category: Seq<char>,
        description: Seq<char>,
        latitude: Option<i64>,
        longitude: Option<i64>,
        radius_meters: u32,
        now: i64,
    ) -> Option<CouponError> {
        if !self@.merchants.contains_key(merchant@) {
            Some(CouponError::AccountNotFound)
        } else if self@.promotions.contains_key(promotion@) {
            Some(CouponError::AccountInUse)
        } else {
            create_promotion::refusal(
                self@.merchants[merchant@],
                self.cell_at(create_promotion::placement_of(latitude, longitude, radius_meters)),
                authority,
                discount_percentage,
                max_supply,
                expiry_timestamp,
                category,
                description,
                latitude,
                longitude,
                radius_meters,
                now,
            )
        }
    }

    /// Whether the grid cells of `after` are those of this ledger with one
    /// more promotion counted at `placement`: untouched for an online
    /// promotion, and otherwise differing in the cell of the place alone,
    /// which has been created if need be and counts one more.
    pub open spec fn cells_counted(&self, after: Map<u64, GeoCell>, placement: Placement) -> bool {
        match placement {
            Placement::Online => after == self@.geo_cells,
            Placement::Located { geo_cell_id, .. } => {
                &&& after.contains_key(geo_cell_id)
                &&& after == self@.geo_cells.insert(geo_cell_id, after[geo_cell_id])
                &&& create_promotion::cell_counted(
                    self.cell_at(placement),
                    Some(after[geo_cell_id]),
                    placement,
                )
            },
        }
    }
}

/// Initializes the marketplace for `authority`, or reports
/// `AlreadyInitialized` if the ledger has a marketplace.
pub fn initialize(ledger: &mut Ledger, authority: Identity, now: i64) -> (r: Result<
    MarketplaceInitialized,
    CouponError,
>)
    requires
        old(ledger).wf(),
    ensures
        final(ledger).wf(),
        old(ledger).extends_to(*final(ledger)),
        match r {
            Ok(event) => {
                &&& old(ledger)@.marketplace is None
                &&& final(ledger)@ == (LedgerView {
                    marketplace: Some(Marketplace::spec_new(authority)),
                    ..old(ledger)@
                })
                &&& event == (MarketplaceInitialized {
                    authority,
                    fee_basis_points: 250,
                    timestamp: now,
                })
            },
            Err(e) => {
                &&& old(ledger)@.marketplace is Some
                &&& e == CouponError::AlreadyInitialized
                &&& final(ledger)@ == old(ledger)@
            },
        },
{
    if ledger.marketplace.is_some() {
        return Err(CouponError::AlreadyInitialized);
    }
    let (marketplace, event) = initialize::initialize(authority, now);
    ledger.marketplace = Some(marketplace);
    Ok(event)
}

/// Registers a merchant for `authority`. The merchant is kept under the
/// identity of its authority.
pub fn register_merchant(
    ledger: &mut Ledger,
    authority: Identity,
    name: String,
    category: String,
    latitude: Option<i64>,
    longitude: Option<i64>,
    now: i64,
) -> (r: Result<MerchantRegistered, CouponError>)
    requires
        old(ledger).wf(),
    ensures
        final(ledger).wf(),
        old(ledger).extends_to(*final(ledger)),
        match r {
            Ok(event) => {
                &&& old(ledger).register_refusal(authority, name@, category@, latitude, longitude)
                    is None
                &&& final(ledger)@ == (LedgerView {
                    marketplace: Some(
                        Marketplace {
                            total_merchants: (old(ledger)@.marketplace->0.total_merchants
                                + 1) as u64,
                            ..old(ledger)@.marketplace->0
                        },
                    ),
                    merchants: old(ledger)@.merchants.insert(
                        authority@,
                        register_merchant::registered(
                            authority,
                            name,
                            category,
                            latitude,
                            longitude,
                            now,
                        ),
                    ),
                    ..old(ledger)@
                })
                &&& event == (MerchantRegistered {
                    merchant: authority,
                    authority,
                    name,
                    category,
                    timestamp: now,
                })
            },
            Err(e) => {
                &&& old(ledger).register_refusal(authority, name@, category@, latitude, longitude)
                    == Some(e)
                &&& final(ledger)@ == old(ledger)@
            },
        },
{
    if ledger.merchants.contains(&authority) {
        if ledger.marketplace.is_none() {
            return Err(CouponError::MarketplaceNotInitialized);
        }
        return Err(CouponError::AlreadyInitialized);
    }
    let outcome = match &mut ledger.marketplace {
        None => Err(CouponError::MarketplaceNotInitialized),
        Some(marketplace) => register_merchant::handler(
            marketplace,
            authority,
            authority,
            name,
            category,
            latitude,
            longitude,
            now,
        ),
    };
    match outcome {
        Ok((merchant, event)) => {
            ledger.merchants.insert(authority, merchant);
            Ok(event)
        },
        Err(e) => Err(e),
    }
}

impl Ledger {
    /// Whether `after` and `r` are the ledger and the answer that creating
    /// a promotion as described, kept under `promotion`, makes of this
    /// ledger.
    pub open spec fn create_outcome(
        &self,
        after: Ledger,
        r: Result<PromotionCreated, CouponError>,
        promotion: Identity,
        merchant: Identity,
        authority: Identity,
        discount_percentage: u8,
        max_supply: u32,
        expiry_timestamp: i64,
        category: String,
        description: String,
        price: u64,
        latitude: Option<i64>,
        longitude: Option<i64>,
        radius_meters: u32,
        now: i64,
    ) -> bool {
        match r {
            Ok(event) => {
                &&& self.create_refusal(
                    promotion,
                    merchant,
                    authority,
                    discount_percentage,
                    max_supply,
                    expiry_timestamp,
                    category@,
                    description@,
                    latitude,
                    longitude,
                    radius_meters,
                    now,
                ) is None
                &&& after@ == (LedgerView {
                    promotions: self@.promotions.insert(
                        promotion@,
                        create_promotion::created(
                            merchant,
                            discount_percentage,
                            max_supply,
                            expiry_timestamp,
                            category,
                            description,
                            price,
                            create_promotion::placement_of(latitude, longitude, radius_meters),
                            now,
                        ),
                    ),
                    geo_cells: after@.geo_cells,
                    ..self@
                })
                &&& self.cells_counted(
                    after@.geo_cells,
                    create_promotion::placement_of(latitude, longitude, radius_meters),
                )
                &&& event == (PromotionCreated {
                    promotion,
                    merchant,
                    discount_percentage,
                    max_supply,
                    expiry_timestamp,
                    price,
                    placement: create_promotion::placement_of(latitude, longitude, radius_meters),
                    timestamp: now,
                })
            },
            Err(e) => {
                &&& self.create_refusal(
                    promotion,
                    merchant,
                    authority,
                    discount_percentage,
                    max_supply,
                    expiry_timestamp,
                    category@,
                    description@,
                    latitude,
                    longitude,
                    radius_meters,
                    now,
                ) == Some(e)
                &&& after@ == self@
            },
        }
    }
}

/// Creates a promotion of the merchant kept under `merchant`, on the word
/// of `authority`, and keeps it under the unused address `promotion`.
///
/// Where both coordinates are given, in millionths of a degree, the
/// promotion is placed there and counted in the grid cell of the place.
pub fn create_coupon_promotion(
    ledger: &mut Ledger,
    promotion: Identity,
    merchant: Identity,
    authority: Identity,
    discount_percentage: u8,
    max_supply: u32,
    expiry_timestamp: i64,
    category: String,
    description: String,
    price: u64,
    latitude: Option<i64>,
    longitude: Option<i64>,
    radius_meters: u32,
    now: i64,
) -> (r: Result<PromotionCreated, CouponError>)
    requires
        old(ledger).wf(),
    ensures
        final(ledger).wf(),
        old(ledger).extends_to(*final(ledger)),
        old(ledger).create_outcome(*final(ledger), r, promotion,
            merchant,
            authority,
            discount_percentage,
            max_supply,
            expiry_timestamp,
            category,
            description,
            price,
            latitude,
            longitude,
            radius_meters,
            now),
{
    let merchant_at = match ledger.merchants.find(&merchant) {
        Some(i) => i,
        None => {
            return Err(CouponError::AccountNotFound);
        },
    };
    if ledger.promotions.contains(&promotion) {
        return Err(CouponError::AccountInUse);
    }
    let cell_key: Option<u64> = match locate(latitude, longitude) {
        Ok(Some(location)) => {
            let (cell_lat, cell_lon) = GeoCell::from_coords(location.latitude, location.longitude);
            Some(GeoCell::to_cell_id(cell_lat, cell_lon))
        },
        _ => None,
    };
    let cell_at: Option<usize> = match cell_key {
        Some(id) => ledger.geo_cells.find(&id),
        None => None,
    };
    let mut cell: Option<GeoCell> = match cell_at {
        Some(i) => Some(ledger.geo_cells.values[i]),
        None => None,
    };
    let outcome = create_promotion::handler(
        &ledger.merchants.values[merchant_at],
        &mut cell,
        merchant,
        promotion,
        authority,
        discount_percentage,
        max_supply,
        expiry_timestamp,
        category,
        description,
        price,
        latitude,
        longitude,
        radius_meters,
        now,
    );
    match outcome {
        Ok((record, event)) => {
            ledger.promotions.insert(promotion, record);
            match (cell_key, cell) {
                (Some(id), Some(counted)) => {
                    match cell_at {
                        Some(i) => {
                            ledger.geo_cells.replace(i, counted);
                        },
                        None => {
                            ledger.geo_cells.insert(id, counted);
                        },
                    }
                },
                _ => {},
            }
            Ok(event)
        },
        Err(e) => Err(e),
    }
}

} // verus!
