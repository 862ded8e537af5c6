//! Per-cell edge bookkeeping and ring tracing.

use geo_marching_squares::cell_shapes::CellShape;
use geo_marching_squares::edge_tracing::{trace_all_rings, trace_ring, CellGrid, CellWithEdges};
use geo_marching_squares::types::{Edge, Move, Point};

const D: i64 = 100_000;

#[test]
fn test_points_equal() {
    // Junction matching is plain lattice equality.
    let p1 = Point::new(D, 2 * D);
    let p2 = Point::new(D, 2 * D);
    let p3 = Point::new(D, 2 * D + D / 10);

    assert_eq!(p1, p2);
    assert_ne!(p1, p3);
}

#[test]
fn test_cell_with_edges() {
    let edge1 = Edge::new(Point::new(0, 0), Point::new(D, 0), Move::Right);
    let edge2 = Edge::new(Point::new(D, 0), Point::new(D, D), Move::Stay);

    let shape = CellShape::new(vec![edge1.clone(), edge2.clone()]);
    let mut cell = CellWithEdges::new(shape);

    assert!(!cell.is_cleared());
    assert_eq!(cell.used_edges, 0);

    // Get the first chain.
    let first = cell.get_chained_edges_from(None);
    assert!(!first.is_empty());

    // Remove the edge.
    cell.remove_edge(&first[0].start);
    cell.increment_used_edges(1);
    assert_eq!(cell.used_edges, 1);
    assert!(!cell.is_cleared());

    // Remove the second edge.
    let second = cell.get_chained_edges_from(None);
    if !second.is_empty() {
        cell.remove_edge(&second[0].start);
        cell.increment_used_edges(1);
    }
    assert_eq!(cell.used_edges, 2);
    assert!(cell.is_cleared());
}

#[test]
fn test_edge_chaining() {
    // A chain of edges: (0,0) -> (1,0) -> (1,1) -> (0,1), in lattice units.
    let edge1 = Edge::new(Point::new(0, 0), Point::new(D, 0), Move::Right);
    let edge2 = Edge::new(Point::new(D, 0), Point::new(D, D), Move::Stay);
    let edge3 = Edge::new(Point::new(D, D), Point::new(0, D), Move::Stay);

    let shape = CellShape::new(vec![edge1, edge2, edge3]);
    let cell = CellWithEdges::new(shape);

    // Start from (0,0); should follow the chain through all 3 edges.
    let edges = cell.get_chained_edges_from(Some(&Point::new(0, 0)));
    assert_eq!(edges.len(), 3);

    assert_eq!(edges[0].start, Point::new(0, 0));
    assert_eq!(edges[0].end, Point::new(D, 0));
    assert_eq!(edges[1].end, Point::new(D, D));
    assert_eq!(edges[2].end, Point::new(0, D));

    // No edges start at a point not in the cell.
    let edges = cell.get_chained_edges_from(Some(&Point::new(5 * D, 5 * D)));
    assert_eq!(edges.len(), 0);
}

#[test]
fn test_simple_ring_trace() {
    // A single cell whose edges form a closed loop.
    let edge1 = Edge::new(Point::new(0, 0), Point::new(D, 0), Move::Stay);
    let edge2 = Edge::new(Point::new(D, 0), Point::new(D, D), Move::Stay);
    let edge3 = Edge::new(Point::new(D, D), Point::new(0, D), Move::Stay);
    let edge4 = Edge::new(Point::new(0, D), Point::new(0, 0), Move::Stay);

    let cell = CellWithEdges::new(CellShape::new(vec![edge1, edge2, edge3, edge4]));

    let mut cells = CellGrid::new(1, 1);
    cells.set_cell(0, 0, Some(cell));

    let ring = trace_ring(&mut cells, 0, 0);

    assert!(ring.is_some(), "Ring tracing should succeed");
    let points = ring.unwrap();
    assert!(points.len() >= 4, "Should have at least 4 points");
    // First and last are the same point (closed loop).
    assert_eq!(points[0], *points.last().unwrap());
}

#[test]
fn test_trace_all_rings_closure_and_conservation() {
    // Two cells: a closed quad in one, a dangling edge in the other.  The
    // quad is returned as a closed ring; the dangling edge's trace fails
    // and is discarded, and nothing is consumed twice.
    let quad = CellWithEdges::new(CellShape::new(vec![
        Edge::new(Point::new(0, 0), Point::new(D, 0), Move::Stay),
        Edge::new(Point::new(D, 0), Point::new(D, D), Move::Stay),
        Edge::new(Point::new(D, D), Point::new(0, 0), Move::Stay),
    ]));
    let dangling = CellWithEdges::new(CellShape::new(vec![
        Edge::new(Point::new(3 * D, 0), Point::new(4 * D, 0), Move::Right),
    ]));

    let mut cells = CellGrid::new(1, 2);
    cells.set_cell(0, 0, Some(quad));
    cells.set_cell(0, 1, Some(dangling));

    let rings = trace_all_rings(&mut cells);

    assert_eq!(rings.len(), 1);
    let ring = &rings[0];
    assert!(ring.len() >= 3);
    assert_eq!(ring[0], *ring.last().unwrap());
    // Three edges were generated for the quad, one for the dangler: the
    // closed ring lays down exactly three.
    assert_eq!(ring.len(), 4);
}
