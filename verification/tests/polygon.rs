//! Point-in-polygon testing and polygon organisation.

use geo_marching_squares::polygon_util::{organize_polygons, point_in_polygon, polygon_in_polygon};
use geo_marching_squares::types::Point;

fn sq(x0: i64, y0: i64, x1: i64, y1: i64) -> Vec<Point> {
    vec![
        Point::new(x0, y0),
        Point::new(x1, y0),
        Point::new(x1, y1),
        Point::new(x0, y1),
    ]
}

const D: i64 = 100_000;

#[test]
fn test_point_in_simple_square() {
    let square = sq(0, 0, D, D);

    // Inside.
    assert!(point_in_polygon(&Point::new(D / 2, D / 2), &square));

    // Outside.
    assert!(!point_in_polygon(&Point::new(D + D / 2, D / 2), &square));
    assert!(!point_in_polygon(&Point::new(-D / 2, D / 2), &square));

    // On edge (algorithm may vary).
    let _on_edge = point_in_polygon(&Point::new(D, D / 2), &square);
    // Don't assert specific behavior for edge cases.
}

#[test]
fn test_point_in_triangle() {
    let triangle = vec![
        Point::new(0, 0),
        Point::new(2 * D, 0),
        Point::new(D, 2 * D),
    ];

    // Inside.
    assert!(point_in_polygon(&Point::new(D, D / 2), &triangle));

    // Outside.
    assert!(!point_in_polygon(&Point::new(0, D + D / 2), &triangle));
    assert!(!point_in_polygon(&Point::new(2 * D, D + D / 2), &triangle));
}

#[test]
fn test_polygon_in_polygon_basic() {
    let outer = sq(0, 0, 4 * D, 4 * D);
    let inner = sq(D, D, 2 * D, 2 * D);

    assert!(polygon_in_polygon(&inner, &outer));
    assert!(!polygon_in_polygon(&outer, &inner));
}

#[test]
fn test_organize_simple() {
    let ring1 = sq(0, 0, 4 * D, 4 * D);
    let ring2 = sq(10 * D, 10 * D, 14 * D, 14 * D);

    let rings = vec![ring1.clone(), ring2.clone()];
    let organized = organize_polygons(rings);

    // Should have 2 separate polygons with no holes.
    assert_eq!(organized.len(), 2);
    assert_eq!(organized[0].1.len(), 0);
    assert_eq!(organized[1].1.len(), 0);
}

#[test]
fn test_organize_with_hole() {
    let outer = sq(0, 0, 10 * D, 10 * D);
    let hole = sq(2 * D, 2 * D, 8 * D, 8 * D);

    let rings = vec![outer.clone(), hole.clone()];
    let organized = organize_polygons(rings);

    // Should have 1 polygon with 1 hole.
    assert_eq!(organized.len(), 1);
    assert_eq!(organized[0].1.len(), 1);

    // The hole's vertices all test inside the exterior.
    assert!(polygon_in_polygon(&organized[0].1[0], &organized[0].0));
}

#[test]
fn test_organize_nested() {
    // Large outer square, a hole in it, and an island inside the hole.
    let outer = sq(0, 0, 20 * D, 20 * D);
    let hole = sq(5 * D, 5 * D, 15 * D, 15 * D);
    let island = sq(8 * D, 8 * D, 12 * D, 12 * D);

    let rings = vec![outer.clone(), hole.clone(), island.clone()];
    let organized = organize_polygons(rings);

    // Should have 2 top-level polygons: outer (with hole) and island.
    assert_eq!(organized.len(), 2);

    let with_holes: Vec<_> = organized.iter().filter(|(_, h)| !h.is_empty()).collect();
    let without_holes: Vec<_> = organized.iter().filter(|(_, h)| h.is_empty()).collect();

    assert_eq!(with_holes.len(), 1);
    assert_eq!(without_holes.len(), 1);
    assert_eq!(with_holes[0].1.len(), 1);
}

#[test]
fn test_organize_ring_both_hole_and_container() {
    // A ring that is both a hole in a larger polygon and a container of a
    // smaller one, processed in the troublesome order.
    let tiny_a = sq(9 * D, 9 * D, 10 * D, 10 * D);
    let huge_b = sq(0, 0, 20 * D, 20 * D);
    let medium_c = sq(5 * D, 5 * D, 15 * D, 15 * D);

    let rings = vec![tiny_a.clone(), huge_b.clone(), medium_c.clone()];
    let organized = organize_polygons(rings);

    // Expected: B is exterior with C as hole; A is a separate exterior.
    assert_eq!(organized.len(), 2, "Should have 2 top-level polygons");

    let with_hole = organized.iter().find(|(_, h)| !h.is_empty());
    let without_hole = organized.iter().find(|(_, h)| h.is_empty());

    assert!(with_hole.is_some(), "Should have one polygon with a hole");
    assert!(without_hole.is_some(), "Should have one polygon without holes");

    let (exterior_with_hole, holes) = with_hole.unwrap();
    assert_eq!(holes.len(), 1, "Should have exactly 1 hole");

    // The exterior with the hole should be huge B.
    let ext_area = (exterior_with_hole[2].x - exterior_with_hole[0].x)
        * (exterior_with_hole[2].y - exterior_with_hole[0].y);
    assert_eq!(ext_area, 20 * D * 20 * D, "Exterior with hole should be huge B");

    // The hole should be medium C.
    let hole_area = (holes[0][2].x - holes[0][0].x) * (holes[0][2].y - holes[0][0].y);
    assert_eq!(hole_area, 10 * D * 10 * D, "Hole should be medium C");

    // The separate polygon should be tiny A.
    let (separate_exterior, separate_holes) = without_hole.unwrap();
    assert_eq!(separate_holes.len(), 0, "Tiny A should have no holes");
    let sep_area = (separate_exterior[2].x - separate_exterior[0].x)
        * (separate_exterior[2].y - separate_exterior[0].y);
    assert_eq!(sep_area, D * D, "Separate polygon should be tiny A");
}

#[test]
fn test_organize_multiple_contained_polygons() {
    // A subject polygon containing two existing polygons at once.
    let small_a = sq(D, D, 2 * D, 2 * D);
    let small_b = sq(5 * D, 5 * D, 6 * D, 6 * D);
    let large_c = sq(0, 0, 10 * D, 10 * D);

    let rings = vec![small_a.clone(), small_b.clone(), large_c.clone()];
    let organized = organize_polygons(rings);

    // Expected: C is exterior with A and B as holes.
    assert_eq!(organized.len(), 1, "Should have 1 top-level polygon");
    assert_eq!(organized[0].1.len(), 2, "Should have 2 holes");

    let ext_area = (organized[0].0[2].x - organized[0].0[0].x)
        * (organized[0].0[2].y - organized[0].0[0].y);
    assert_eq!(ext_area, 10 * D * 10 * D, "Exterior should be large C");

    for hole in &organized[0].1 {
        let hole_area = (hole[2].x - hole[0].x) * (hole[2].y - hole[0].y);
        assert_eq!(hole_area, D * D, "Each hole should have unit area");
    }
}

#[test]
fn test_organize_wrong_processing_order() {
    // The hole is processed before its container; re-nesting fixes it.
    let hole = sq(5 * D, 5 * D, 15 * D, 15 * D);
    let outer = sq(0, 0, 20 * D, 20 * D);

    let rings = vec![hole.clone(), outer.clone()];
    let organized = organize_polygons(rings);

    assert_eq!(organized.len(), 1, "Should have 1 top-level polygon");
    assert_eq!(organized[0].1.len(), 1, "Should have 1 hole");

    let ext_area = (organized[0].0[2].x - organized[0].0[0].x)
        * (organized[0].0[2].y - organized[0].0[0].y);
    assert_eq!(ext_area, 20 * D * 20 * D, "Exterior should be the outer ring");

    let hole_area = (organized[0].1[0][2].x - organized[0].1[0][0].x)
        * (organized[0].1[0][2].y - organized[0].1[0][0].y);
    assert_eq!(hole_area, 10 * D * 10 * D, "Hole should be the inner ring");
}
