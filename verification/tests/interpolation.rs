//! Interpolation behaviour on the coordinate lattice (one lattice unit is
//! 1/100000 of a degree; values and levels are plain integers).

use geo_marching_squares::interpolate::{interpolate_point, interpolate_side};
use geo_marching_squares::types::{Point, Side, SmoothingFactor};

#[test]
fn test_interpolate_point_midpoint() {
    let p0 = Point::new(-10_000_000, 4_000_000);
    let p1 = Point::new(-9_900_000, 4_100_000);

    // Interpolate at the exact midpoint value.
    let result = interpolate_point(15, 10, 20, &p0, &p1, SmoothingFactor::new(999));

    // With centre bias, should be very close to the midpoint (0.01 deg).
    assert!((result.x - (-9_950_000i64)).abs() < 1_000);
    assert!((result.y - 4_050_000i64).abs() < 1_000);
}

#[test]
fn test_interpolate_point_endpoints() {
    let p0 = Point::new(-10_000_000, 4_000_000);
    let p1 = Point::new(-9_900_000, 4_100_000);

    // At the lower endpoint (within 0.5 deg).
    let result = interpolate_point(10, 10, 20, &p0, &p1, SmoothingFactor::new(999));
    assert!((result.x - p0.x).abs() < 50_000);
    assert!((result.y - p0.y).abs() < 50_000);

    // At the upper endpoint.
    let result = interpolate_point(20, 10, 20, &p0, &p1, SmoothingFactor::new(999));
    assert!((result.x - p1.x).abs() < 50_000);
    assert!((result.y - p1.y).abs() < 50_000);
}

#[test]
fn test_interpolate_side() {
    let tl = Point::new(-10_000_000, 4_100_000);
    let tr = Point::new(-9_900_000, 4_100_000);
    let br = Point::new(-9_900_000, 4_000_000);
    let bl = Point::new(-10_000_000, 4_000_000);

    // Interpolate on the top edge.
    let result = interpolate_side(
        15,
        Side::Top,
        (&tl, 10),
        (&tr, 20),
        (&br, 20),
        (&bl, 10),
        SmoothingFactor::new(999),
    );

    // Should be on the top edge (lat 41 deg) between tl and tr.
    assert!((result.y - 4_100_000i64).abs() < 1_000);
    assert!(result.x > -10_000_000 && result.x < -9_900_000);
}

#[test]
fn test_interpolate_exact_midpoint_value() {
    // mu = 1/2 is a fixed point of the smoothing curve, so the crossing
    // halfway in value lands exactly halfway in position.
    let p0 = Point::new(0, 0);
    let p1 = Point::new(100_000, 0);
    let result = interpolate_point(15, 10, 20, &p0, &p1, SmoothingFactor::new(999));
    assert_eq!(result, Point::new(50_000, 0));
}

#[test]
fn test_interpolate_degenerate_values_midpoint() {
    // Equal corner values degenerate to the rounded midpoint.
    let p0 = Point::new(0, 0);
    let p1 = Point::new(100_001, 0);
    let result = interpolate_point(15, 20, 20, &p0, &p1, SmoothingFactor::new(999));
    assert_eq!(result, Point::new(50_001, 0));
}

#[test]
fn test_interpolate_shared_side_agrees() {
    // The two cells sharing a side hand the ends over in the same order,
    // and the computation is exact, so the crossing is bit-identical
    // however often it is recomputed.
    let p0 = Point::new(-10_000_000, 4_000_000);
    let p1 = Point::new(-9_900_000, 4_000_000);
    let a = interpolate_point(17, 12, 23, &p0, &p1, SmoothingFactor::new(999));
    let b = interpolate_point(17, 12, 23, &p0, &p1, SmoothingFactor::new(999));
    assert_eq!(a, b);
}
