//! Contour scenarios: a single-cell isoline crossing, an isoband around a
//! single high spot, and bit-for-bit reproducibility.

use geo_marching_squares::grid::GeoGrid;
use geo_marching_squares::types::GridPoint;

/// A 2x2 cell whose left column is below the level and right column above
/// it: the level 15 contour is one segment crossing the top and bottom
/// sides, halfway along each.
#[test]
fn test_single_cell_isoline_crossing() {
    let points = vec![
        vec![
            GridPoint::new(-10_000_000, 4_100_000, 10),
            GridPoint::new(-9_900_000, 4_100_000, 20),
        ],
        vec![
            GridPoint::new(-10_000_000, 4_000_000, 10),
            GridPoint::new(-9_900_000, 4_000_000, 20),
        ],
    ];
    let grid = GeoGrid::from_points(points).unwrap();

    let isolines = grid.isolines(&vec![15]).unwrap();
    assert_eq!(isolines.len(), 1);
    let feature = &isolines[0];
    assert_eq!(feature.level, 15);
    assert_eq!(feature.lines.len(), 1, "exactly one segment");

    // Level 15 is halfway between 10 and 20, and mu = 1/2 is exact under
    // the smoothing curve: the crossings sit exactly mid-side.
    let seg = &feature.lines[0];
    assert_eq!(seg.len(), 2);
    assert_eq!(seg[0].x, -9_950_000);
    assert_eq!(seg[0].y, 4_100_000);
    assert_eq!(seg[1].x, -9_950_000);
    assert_eq!(seg[1].y, 4_000_000);
}

/// A 3x3 grid with one high centre value surrounded by low values: the
/// isoband straddling the spot boundary yields exactly one exterior ring
/// and no holes, and the ring closes.
#[test]
fn test_single_spot_isoband() {
    let v = [
        [10, 10, 10],
        [10, 30, 10],
        [10, 10, 10],
    ];
    let mut points = Vec::new();
    for row in 0..3usize {
        let mut row_points = Vec::new();
        for col in 0..3usize {
            row_points.push(GridPoint::new(
                -10_000_000 + (col as i64) * 100_000,
                4_200_000 - (row as i64) * 100_000,
                v[row][col],
            ));
        }
        points.push(row_points);
    }
    let grid = GeoGrid::from_points(points).unwrap();

    let isobands = grid.isobands(&vec![15, 35]).unwrap();
    assert_eq!(isobands.len(), 1);
    let band = &isobands[0];
    assert_eq!(band.lower, 15);
    assert_eq!(band.upper, 35);
    assert_eq!(band.polygons.len(), 1, "exactly one exterior ring");
    assert_eq!(band.polygons[0].1.len(), 0, "zero holes");

    let exterior = &band.polygons[0].0;
    assert!(exterior.len() >= 3);
    assert_eq!(exterior[0], *exterior.last().unwrap(), "ring closes");
}

/// Repeated runs on identical input produce bit-identical coordinates and
/// ring vertex order.
#[test]
fn test_determinism() {
    let mut points = Vec::new();
    for row in 0..6usize {
        let mut row_points = Vec::new();
        for col in 0..6usize {
            // A bumpy but deterministic field.
            let value = ((row as i64 * 7 + col as i64 * 13) % 23) + (row as i64) * 2;
            row_points.push(GridPoint::new(
                -10_000_000 + (col as i64) * 50_000,
                4_000_000 + (row as i64) * 50_000,
                value,
            ));
        }
        points.push(row_points);
    }

    let grid1 = GeoGrid::from_points(points.clone()).unwrap();
    let grid2 = GeoGrid::from_points(points).unwrap();

    let a = grid1.isobands(&vec![5, 12, 20, 30]).unwrap();
    let b = grid2.isobands(&vec![5, 12, 20, 30]).unwrap();

    assert_eq!(a.len(), b.len());
    for (fa, fb) in a.iter().zip(b.iter()) {
        assert_eq!(fa.lower, fb.lower);
        assert_eq!(fa.upper, fb.upper);
        assert_eq!(fa.polygons, fb.polygons);
    }

    let la = grid1.isolines(&vec![8, 16]).unwrap();
    let lb = grid2.isolines(&vec![8, 16]).unwrap();
    assert_eq!(la.len(), lb.len());
    for (fa, fb) in la.iter().zip(lb.iter()) {
        assert_eq!(fa.level, fb.level);
        assert_eq!(fa.lines, fb.lines);
    }
}
