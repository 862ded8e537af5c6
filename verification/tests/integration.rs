//! End-to-end contouring over small grids.

use geo_marching_squares::error::Error;
use geo_marching_squares::grid::GeoGrid;
use geo_marching_squares::types::{GridPoint, SmoothingFactor};

#[test]
fn test_simple_isobands() {
    // A 3x3 grid with values ranging from 10 to 30.
    let points = vec![
        vec![
            GridPoint::new(-10_000_000, 4_200_000, 10),
            GridPoint::new(-9_900_000, 4_200_000, 15),
            GridPoint::new(-9_800_000, 4_200_000, 20),
        ],
        vec![
            GridPoint::new(-10_000_000, 4_100_000, 12),
            GridPoint::new(-9_900_000, 4_100_000, 18),
            GridPoint::new(-9_800_000, 4_100_000, 25),
        ],
        vec![
            GridPoint::new(-10_000_000, 4_000_000, 15),
            GridPoint::new(-9_900_000, 4_000_000, 22),
            GridPoint::new(-9_800_000, 4_000_000, 30),
        ],
    ];

    let grid = GeoGrid::from_points(points).expect("Failed to create grid");

    let isobands = grid
        .isobands(&vec![10, 15, 20, 25, 30])
        .expect("Failed to generate isobands");

    // Should have 4 isobands for 5 thresholds.
    assert_eq!(isobands.len(), 4);

    // Each isoband carries its threshold pair.
    let expected = [(10, 15), (15, 20), (20, 25), (25, 30)];
    for (feature, (lo, hi)) in isobands.iter().zip(expected.iter()) {
        assert_eq!(feature.lower, *lo);
        assert_eq!(feature.upper, *hi);
    }
}

#[test]
fn test_simple_isolines() {
    let points = vec![
        vec![
            GridPoint::new(-10_000_000, 4_100_000, 10),
            GridPoint::new(-9_900_000, 4_100_000, 20),
            GridPoint::new(-9_800_000, 4_100_000, 30),
        ],
        vec![
            GridPoint::new(-10_000_000, 4_000_000, 15),
            GridPoint::new(-9_900_000, 4_000_000, 25),
            GridPoint::new(-9_800_000, 4_000_000, 35),
        ],
    ];

    let grid = GeoGrid::from_points(points).expect("Failed to create grid");

    let isolines = grid.isolines(&vec![15, 20, 25]).expect("Failed to generate isolines");

    // Should have 3 isolines.
    assert_eq!(isolines.len(), 3);

    // Each carries the requested level, in order.
    let expected = [15, 20, 25];
    for (i, feature) in isolines.iter().enumerate() {
        assert_eq!(feature.level, expected[i]);
        assert!(!feature.lines.is_empty());
    }
}

#[test]
fn test_meteorological_grid() {
    // A small meteorological grid: 0.1-degree spacing, a smooth gradient.
    // Values are scaled by two to stay integral.
    let rows = 10usize;
    let cols = 10usize;

    let mut points = Vec::new();
    for row in 0..rows {
        let mut row_points = Vec::new();
        for col in 0..cols {
            let lon = -10_000_000 + (col as i64) * 10_000;
            let lat = 4_000_000 + (row as i64) * 10_000;
            let value = 20 + (row as i64) * 4 + (col as i64) * 3;
            row_points.push(GridPoint::new(lon, lat, value));
        }
        points.push(row_points);
    }

    let grid = GeoGrid::from_points(points).expect("Failed to create grid");

    assert_eq!(grid.rows(), rows);
    assert_eq!(grid.cols(), cols);

    let (min_lon, min_lat, max_lon, max_lat) = grid.bounds();
    assert_eq!(min_lon, -10_000_000);
    assert_eq!(min_lat, 4_000_000);
    assert_eq!(max_lon, -9_910_000);
    assert_eq!(max_lat, 4_090_000);

    // Value-doubled 5-degree intervals.
    let thresholds = vec![20, 30, 40, 50, 60, 70];
    let isobands = grid.isobands(&thresholds).expect("Failed to generate isobands");

    // Should generate n-1 bands for n thresholds.
    assert_eq!(isobands.len(), thresholds.len() - 1);

    // All features carry geometry.
    for feature in &isobands {
        assert!(!feature.polygons.is_empty());
    }
}

#[test]
fn test_edge_cases() {
    // The minimum grid size (2x2).
    let points = vec![
        vec![
            GridPoint::new(-10_000_000, 4_100_000, 10),
            GridPoint::new(-9_900_000, 4_100_000, 20),
        ],
        vec![
            GridPoint::new(-10_000_000, 4_000_000, 15),
            GridPoint::new(-9_900_000, 4_000_000, 25),
        ],
    ];

    let grid = GeoGrid::from_points(points).expect("Failed to create 2x2 grid");

    let isobands = grid.isobands(&vec![12, 18, 22]).expect("Failed on 2x2 grid");
    assert_eq!(isobands.len(), 2);
}

#[test]
fn test_uniform_grid() {
    // A grid with one value everywhere: no contours.
    let points = vec![
        vec![
            GridPoint::new(-10_000_000, 4_100_000, 20),
            GridPoint::new(-9_900_000, 4_100_000, 20),
        ],
        vec![
            GridPoint::new(-10_000_000, 4_000_000, 20),
            GridPoint::new(-9_900_000, 4_000_000, 20),
        ],
    ];

    let grid = GeoGrid::from_points(points).expect("Failed to create uniform grid");

    let isolines = grid.isolines(&vec![15, 25]).expect("Failed on uniform grid");
    assert!(isolines.len() <= 2);
}

#[test]
fn test_custom_config() {
    let points = vec![
        vec![
            GridPoint::new(-10_000_000, 4_100_000, 10),
            GridPoint::new(-9_900_000, 4_100_000, 20),
        ],
        vec![
            GridPoint::new(-10_000_000, 4_000_000, 15),
            GridPoint::new(-9_900_000, 4_000_000, 25),
        ],
    ];

    let mut grid = GeoGrid::from_points(points).expect("Failed to create grid");

    // Modify the smoothing factor (0.95 in thousandths).
    grid.config_mut().smoothing_factor = SmoothingFactor::new(950);

    let isobands = grid.isobands(&vec![12, 18, 22]).expect("Failed with custom config");
    assert_eq!(isobands.len(), 2);
}

#[test]
fn test_threshold_validation() {
    let points = vec![
        vec![
            GridPoint::new(-10_000_000, 4_100_000, 10),
            GridPoint::new(-9_900_000, 4_100_000, 20),
        ],
        vec![
            GridPoint::new(-10_000_000, 4_000_000, 15),
            GridPoint::new(-9_900_000, 4_000_000, 25),
        ],
    ];
    let grid = GeoGrid::from_points(points).expect("Failed to create grid");

    // Too few thresholds.
    assert_eq!(grid.isobands(&vec![10]).unwrap_err(), Error::InvalidThresholds);
    // Not strictly ascending.
    assert_eq!(grid.isobands(&vec![10, 10]).unwrap_err(), Error::InvalidThresholds);
    assert_eq!(grid.isobands(&vec![10, 20, 15]).unwrap_err(), Error::InvalidThresholds);
    // No levels at all.
    assert_eq!(grid.isolines(&vec![]).unwrap_err(), Error::InvalidThresholds);
}

#[test]
fn test_uniform_grid_isobands_empty() {
    // Thresholds entirely above every sample: no band has any cell.
    let points = vec![
        vec![
            GridPoint::new(-10_000_000, 4_100_000, 20),
            GridPoint::new(-9_900_000, 4_100_000, 20),
        ],
        vec![
            GridPoint::new(-10_000_000, 4_000_000, 20),
            GridPoint::new(-9_900_000, 4_000_000, 20),
        ],
    ];
    let grid = GeoGrid::from_points(points).unwrap();
    let isobands = grid.isobands(&vec![100, 200, 300]).unwrap();
    assert_eq!(isobands.len(), 0);
}

#[test]
fn test_out_of_range_value_rejected() {
    // A sample value past the admissible range fails grid construction.
    let points = vec![
        vec![
            GridPoint::new(-10_000_000, 4_100_000, 10),
            GridPoint::new(-9_900_000, 4_100_000, 200_000_000),
        ],
        vec![
            GridPoint::new(-10_000_000, 4_000_000, 15),
            GridPoint::new(-9_900_000, 4_000_000, 25),
        ],
    ];
    let result = GeoGrid::from_points(points);
    assert!(matches!(result.unwrap_err(), Error::InvalidCoordinates { .. }));
}
