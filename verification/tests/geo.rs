use discount_platform::errors::CouponError;
use discount_platform::state::location::{GeoCell, Location};

#[test]
fn from_coords_accepts_the_poles_and_the_date_line() {
    let l = Location::from_coords(90_000_000, -180_000_000).unwrap();
    assert_eq!(l.latitude, 90_000_000);
    assert_eq!(l.longitude, -180_000_000);
    assert_eq!(l.to_coords(), (90_000_000, -180_000_000));
}

#[test]
fn from_coords_rejects_what_lies_off_the_globe() {
    assert_eq!(Location::from_coords(90_000_001, 0), Err(CouponError::InvalidCoordinates));
    assert_eq!(Location::from_coords(0, 180_000_001), Err(CouponError::InvalidCoordinates));
    assert_eq!(Location::from_coords(-90_000_001, 0), Err(CouponError::InvalidCoordinates));
    assert_eq!(Location::from_coords(0, -180_000_001), Err(CouponError::InvalidCoordinates));
}

#[test]
fn cells_round_down_below_zero() {
    assert_eq!(GeoCell::from_coords(40_712_800, -74_006_000), (407, -741));
    assert_eq!(GeoCell::from_coords(-1, -100_000), (-1, -1));
    assert_eq!(GeoCell::from_coords(0, 99_999), (0, 0));
    assert_eq!(GeoCell::from_coords(-100_001, 100_000), (-2, 1));
}

#[test]
fn cell_id_packs_the_two_patterns() {
    assert_eq!(GeoCell::to_cell_id(0, 0), 0);
    assert_eq!(GeoCell::to_cell_id(407, -741), (407u64 << 32) | 0xFFFF_FD1B);
    assert_eq!(GeoCell::to_cell_id(-1, 1), 0xFFFF_FFFF_0000_0001);
    assert_eq!(
        GeoCell::to_cell_id(-900, 1800),
        (((-900i32) as u64) << 32) | ((1800i32 as u64) & 0xFFFF_FFFF)
    );
}

#[test]
fn the_cell_of_a_location_contains_it() {
    let l = Location::from_coords(-33_868_800, 151_209_300).unwrap();
    let cell = GeoCell::containing(&l);
    assert_eq!(cell.min_latitude, -33_900_000);
    assert_eq!(cell.max_latitude, -33_800_000);
    assert_eq!(cell.min_longitude, 151_200_000);
    assert_eq!(cell.max_longitude, 151_300_000);
    assert_eq!(cell.promotion_count, 0);
    assert_eq!(cell.cell_id, GeoCell::to_cell_id(-339, 1512));
}

#[test]
fn coordinates_survive_the_round_trip() {
    let pairs: [(i64, i64); 5] = [
        (0, 0),
        (40_712_800, -74_006_000),
        (-90_000_000, 180_000_000),
        (1, -1),
        (89_999_999, -179_999_999),
    ];
    for (lat, lon) in pairs {
        assert_eq!(Location::from_coords(lat, lon).unwrap().to_coords(), (lat, lon));
    }
}

#[test]
fn cell_ids_differ_where_the_cells_differ() {
    let cells: [(i32, i32); 6] = [(0, 0), (0, 1), (1, 0), (-1, 0), (0, -1), (-1, -1)];
    for (i, a) in cells.iter().enumerate() {
        for (j, b) in cells.iter().enumerate() {
            let same = GeoCell::to_cell_id(a.0, a.1) == GeoCell::to_cell_id(b.0, b.1);
            assert_eq!(same, i == j);
        }
    }
    assert_eq!(GeoCell::to_cell_id(i32::MIN, i32::MAX), 0x8000_0000_7FFF_FFFF);
    assert_eq!(GeoCell::to_cell_id(-1, -1), u64::MAX);
}
