//! Grid construction and accessors.

use geo_marching_squares::error::Error;
use geo_marching_squares::grid::GeoGrid;
use geo_marching_squares::types::GridPoint;

fn create_test_grid() -> Vec<Vec<GridPoint>> {
    vec![
        vec![
            GridPoint::new(-10_000_000, 4_100_000, 10),
            GridPoint::new(-9_900_000, 4_100_000, 20),
            GridPoint::new(-9_800_000, 4_100_000, 30),
        ],
        vec![
            GridPoint::new(-10_000_000, 4_000_000, 15),
            GridPoint::new(-9_900_000, 4_000_000, 25),
            GridPoint::new(-9_800_000, 4_000_000, 35),
        ],
        vec![
            GridPoint::new(-10_000_000, 3_900_000, 12),
            GridPoint::new(-9_900_000, 3_900_000, 22),
            GridPoint::new(-9_800_000, 3_900_000, 32),
        ],
    ]
}

#[test]
fn test_create_grid() {
    let grid = GeoGrid::from_points(create_test_grid()).unwrap();
    assert_eq!(grid.rows(), 3);
    assert_eq!(grid.cols(), 3);
}

#[test]
fn test_empty_grid() {
    let result = GeoGrid::from_points(vec![]);
    assert!(result.is_err());
    assert_eq!(result.unwrap_err(), Error::EmptyGrid);
}

#[test]
fn test_too_small_grid() {
    let points = vec![vec![GridPoint::new(-10_000_000, 4_000_000, 10)]];
    let result = GeoGrid::from_points(points);
    assert!(result.is_err());
    assert_eq!(result.unwrap_err(), Error::InvalidDimensions);
}

#[test]
fn test_inconsistent_rows() {
    let points = vec![
        vec![
            GridPoint::new(-10_000_000, 4_100_000, 10),
            GridPoint::new(-9_900_000, 4_100_000, 20),
        ],
        vec![GridPoint::new(-10_000_000, 4_000_000, 15)], // Wrong length.
    ];
    let result = GeoGrid::from_points(points);
    assert!(result.is_err());
    assert_eq!(result.unwrap_err(), Error::InvalidDimensions);
}

#[test]
fn test_invalid_coordinates() {
    let points = vec![
        vec![
            GridPoint::new(-10_000_000, 4_100_000, 10),
            GridPoint::new(-9_900_000, 9_100_000, 20), // Latitude past 90 degrees.
        ],
        vec![
            GridPoint::new(-10_000_000, 4_000_000, 15),
            GridPoint::new(-9_900_000, 4_000_000, 25),
        ],
    ];
    let result = GeoGrid::from_points(points);
    assert!(result.is_err());
    assert!(matches!(result.unwrap_err(), Error::InvalidCoordinates { .. }));
}

#[test]
fn test_get_point() {
    let grid = GeoGrid::from_points(create_test_grid()).unwrap();

    let point = grid.get(0, 0).unwrap();
    assert_eq!(point.lon, -10_000_000);
    assert_eq!(point.lat, 4_100_000);
    assert_eq!(point.value, 10);

    let point = grid.get(2, 2).unwrap();
    assert_eq!(point.lon, -9_800_000);
    assert_eq!(point.lat, 3_900_000);
    assert_eq!(point.value, 32);

    assert!(grid.get(10, 10).is_none());
}

#[test]
fn test_bounds() {
    let grid = GeoGrid::from_points(create_test_grid()).unwrap();
    let (min_lon, min_lat, max_lon, max_lat) = grid.bounds();

    assert_eq!(min_lon, -10_000_000);
    assert_eq!(min_lat, 3_900_000);
    assert_eq!(max_lon, -9_800_000);
    assert_eq!(max_lat, 4_100_000);
}

#[test]
fn test_value_range() {
    let grid = GeoGrid::from_points(create_test_grid()).unwrap();
    let (min_val, max_val) = grid.value_range();

    assert_eq!(min_val, 10);
    assert_eq!(max_val, 35);
}
