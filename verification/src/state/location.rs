//! Coordinates in fixed point, and the grid of cells that indexes them.
//!
//! A coordinate is held in millionths of a degree. The grid has cells of a
//! tenth of a degree; a coordinate belongs to the cell whose index is the
//! coordinate divided by the cell size and rounded down, so that cells west
//! of Greenwich and south of the equator have negative indices and every cell
//! has the same size.

use vstd::prelude::*;
use crate::errors::CouponError;

verus! {

/// Largest latitude, in millionths of a degree.
pub const MAX_LATITUDE: i64 = 90_000_000;

/// Largest longitude, in millionths of a degree.
pub const MAX_LONGITUDE: i64 = 180_000_000;

/// Side of a grid cell, in fixed-point units.
pub const GRID_SIZE: i32 = 100_000;

/// Two to the power 32: the weight of the latitude half of a cell identifier.
pub const CELL_ID_HIGH: u64 = 0x1_0000_0000;

/// A point on the globe.
#[derive(Clone, Copy, Debug, PartialEq, Eq, Structural)]
pub struct Location {
    /// Latitude in millionths of a degree.
    pub latitude: i32,
    /// Longitude in millionths of a degree.
    pub longitude: i32,
    /// Hierarchical region identifier.
    pub region_code: u16,
    /// Numeric country code.
    pub country_code: u16,
    /// Hash of the city name.
    pub city_hash: u64,
}

/// Whether a pair of fixed-point coordinates lies on the globe.
pub open spec fn valid_coords(lat: int, lon: int) -> bool {
    &&& -90_000_000 <= lat <= 90_000_000
    &&& -180_000_000 <= lon <= 180_000_000
}

impl Location {
    /// The coordinates lie on the globe.
    pub open spec fn wf(&self) -> bool {
        valid_coords(self.latitude as int, self.longitude as int)
    }

    /// The location at the given coordinates, with no region attached.
    pub open spec fn spec_from_coords(lat: int, lon: int) -> Location {
        Location {
            latitude: lat as i32,
            longitude: lon as i32,
            region_code: 0,
            country_code: 0,
            city_hash: 0,
        }
    }

    /// Builds a location from coordinates in millionths of a degree, or
    /// reports `InvalidCoordinates` when they lie off the globe.
    pub fn from_coords(lat: i64, lon: i64) -> (r: Result<Location, CouponError>)
        ensures
            valid_coords(lat as int, lon as int) ==> r == Ok::<Location, CouponError>(
                Location::spec_from_coords(lat as int, lon as int),
            ),
            !valid_coords(lat as int, lon as int) ==> r == Err::<Location, CouponError>(
                CouponError::InvalidCoordinates,
            ),
            r matches Ok(l) ==> l.wf() && l.latitude == lat && l.longitude == lon,
    {
        if lat < -MAX_LATITUDE || lat > MAX_LATITUDE || lon < -MAX_LONGITUDE || lon > MAX_LONGITUDE {
            return Err(CouponError::InvalidCoordinates);
        }
        Ok(
            Location {
                latitude: lat as i32,
                longitude: lon as i32,
                region_code: 0,
                country_code: 0,
                city_hash: 0,
            },
        )
    }

    /// The coordinates in millionths of a degree.
    pub fn to_coords(&self) -> (r: (i64, i64))
        ensures
            r.0 == self.latitude,
            r.1 == self.longitude,
    {
        (self.latitude as i64, self.longitude as i64)
    }
}

/// A location survives the trip to coordinates and back, and valid
/// coordinates survive the trip to a location and back.
pub proof fn lemma_coords_round_trip(lat: int, lon: int)
    requires
        valid_coords(lat, lon),
    ensures
        Location::spec_from_coords(lat, lon).wf(),
        Location::spec_from_coords(lat, lon).latitude == lat,
        Location::spec_from_coords(lat, lon).longitude == lon,
{
}

/// The index of the grid cell that holds a coordinate: the coordinate
/// divided by the cell size, rounded down.
pub open spec fn cell_index(coordinate: int) -> int {
    coordinate / 100_000
}

/// The 32-bit pattern of a signed index, read as an unsigned number.
pub open spec fn bit_pattern(index: int) -> int {
    if index >= 0 {
        index
    } else {
        index + 0x1_0000_0000
    }
}

/// The identifier of the cell with the given indices: the pattern of the
/// latitude index in the high 32 bits, that of the longitude index in the
/// low 32 bits.
pub open spec fn cell_id(cell_lat: int, cell_lon: int) -> int {
    bit_pattern(cell_lat) * 0x1_0000_0000 + bit_pattern(cell_lon)
}

/// A cell of the grid and the number of promotions placed in it.
#[derive(Clone, Copy, Debug, PartialEq, Eq, Structural)]
pub struct GeoCell {
    /// Identifier derived from the cell's indices.
    pub cell_id: u64,
    /// Southern edge, inclusive.
    pub min_latitude: i32,
    /// Northern edge, exclusive.
    pub max_latitude: i32,
    /// Western edge, inclusive.
    pub min_longitude: i32,
    /// Eastern edge, exclusive.
    pub max_longitude: i32,
    /// Number of promotions in this cell.
    pub promotion_count: u32,
}

impl GeoCell {
    /// The edges lie on the grid, a cell apart, and the identifier is the
    /// one that belongs to them.
    pub open spec fn wf(&self) -> bool {
        &&& self.min_latitude % 100_000 == 0
        &&& self.min_longitude % 100_000 == 0
        &&& self.max_latitude == self.min_latitude + 100_000
        &&& self.max_longitude == self.min_longitude + 100_000
        &&& self.cell_id == cell_id(
            cell_index(self.min_latitude as int),
            cell_index(self.min_longitude as int),
        )
    }

    /// Whether the location lies within the edges of this cell.
    pub open spec fn contains(&self, location: Location) -> bool {
        &&& self.min_latitude <= location.latitude < self.max_latitude
        &&& self.min_longitude <= location.longitude < self.max_longitude
    }

    /// The indices of the cell that holds the given coordinates.
    pub fn from_coords(lat: i32, lon: i32) -> (r: (i32, i32))
        ensures
            r.0 == cell_index(lat as int),
            r.1 == cell_index(lon as int),
    {
        (floor_to_cell(lat), floor_to_cell(lon))
    }

    /// Packs two cell indices into one identifier.
    pub fn to_cell_id(cell_lat: i32, cell_lon: i32) -> (id: u64)
        ensures
            id == cell_id(cell_lat as int, cell_lon as int),
    {
        let high: u64 = pattern_of(cell_lat);
        let low: u64 = pattern_of(cell_lon);
        high * CELL_ID_HIGH + low
    }

    /// The cell that holds `location`, with no promotion in it yet.
    pub fn containing(location: &Location) -> (cell: GeoCell)
        requires
            location.wf(),
        ensures
            cell.wf(),
            cell.contains(*location),
            cell.promotion_count == 0,
            cell.cell_id == cell_id(
                cell_index(location.latitude as int),
                cell_index(location.longitude as int),
            ),
    {
        let (cell_lat, cell_lon) = GeoCell::from_coords(location.latitude, location.longitude);
        let min_latitude: i32 = cell_lat * GRID_SIZE;
        let min_longitude: i32 = cell_lon * GRID_SIZE;
        GeoCell {
            cell_id: GeoCell::to_cell_id(cell_lat, cell_lon),
            min_latitude,
            max_latitude: min_latitude + GRID_SIZE,
            min_longitude,
            max_longitude: min_longitude + GRID_SIZE,
            promotion_count: 0,
        }
    }
}

/// Divides by the cell size, rounding down also below zero.
fn floor_to_cell(coordinate: i32) -> (r: i32)
    ensures
        r == cell_index(coordinate as int),
{
    // 21_475 cells reach below the smallest coordinate, so the sum is not negative.
    let shifted: i64 = coordinate as i64 + 2_147_500_000;
    let cells: i64 = shifted / 100_000;
    (cells - 21_475) as i32
}

/// The 32-bit pattern of a signed index.
fn pattern_of(index: i32) -> (r: u64)
    ensures
        r == bit_pattern(index as int),
        r < 0x1_0000_0000,
{
    if index >= 0 {
        index as u64
    } else {
        (index as i64 + 0x1_0000_0000) as u64
    }
}

/// Two pairs of cell indices with one identifier are the same pair.
pub proof fn lemma_cell_id_injective(lat_a: i32, lon_a: i32, lat_b: i32, lon_b: i32)
    requires
        cell_id(lat_a as int, lon_a as int) == cell_id(lat_b as int, lon_b as int),
    ensures
        lat_a == lat_b,
        lon_a == lon_b,
{
    let ha = bit_pattern(lat_a as int);
    let hb = bit_pattern(lat_b as int);
    let la = bit_pattern(lon_a as int);
    let lb = bit_pattern(lon_b as int);
    assert(0 <= la < 0x1_0000_0000 && 0 <= lb < 0x1_0000_0000);
    assert(ha == hb) by {
        if ha < hb {
            assert(ha * 0x1_0000_0000 + 0x1_0000_0000 <= hb * 0x1_0000_0000);
        } else if hb < ha {
            assert(hb * 0x1_0000_0000 + 0x1_0000_0000 <= ha * 0x1_0000_0000);
        }
    }
}

/// Every identifier fits in 64 bits, and its halves are the patterns of the
/// two indices.
pub proof fn lemma_cell_id_halves(cell_lat: i32, cell_lon: i32)
    ensures
        0 <= cell_id(cell_lat as int, cell_lon as int) <= u64::MAX,
        cell_id(cell_lat as int, cell_lon as int) / 0x1_0000_0000 == bit_pattern(cell_lat as int),
        cell_id(cell_lat as int, cell_lon as int) % 0x1_0000_0000 == bit_pattern(cell_lon as int),
{
}

/// Two locations fall into the same cell exactly when their coordinates
/// have the same cell indices.
pub proof fn lemma_same_cell(a: Location, b: Location)
    requires
        a.wf(),
        b.wf(),
    ensures
        cell_id(cell_index(a.latitude as int), cell_index(a.longitude as int)) == cell_id(
            cell_index(b.latitude as int),
            cell_index(b.longitude as int),
        ) <==> (cell_index(a.latitude as int) == cell_index(b.latitude as int) && cell_index(
            a.longitude as int,
        ) == cell_index(b.longitude as int)),
{
    let a_lat = cell_index(a.latitude as int);
    let a_lon = cell_index(a.longitude as int);
    let b_lat = cell_index(b.latitude as int);
    let b_lon = cell_index(b.longitude as int);
    if cell_id(a_lat, a_lon) == cell_id(b_lat, b_lon) {
        lemma_cell_id_injective(a_lat as i32, a_lon as i32, b_lat as i32, b_lon as i32);
    }
}

} // verus!
