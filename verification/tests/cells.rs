//! Cell classification: blank codes and a triangle family code, plus the
//! catalog's complement symmetry on concrete codes.

use geo_marching_squares::catalog::{templates, LevelSel, PtRef, Regime};
use geo_marching_squares::cell_shapes::{calculate_cell_config, CellShape};
use geo_marching_squares::isoline::{calculate_isoline_config, get_isoline_segments};
use geo_marching_squares::types::{GridPoint, Move, Point, SmoothingFactor};

const D: i64 = 100_000;

fn unit_corners(tl_v: i64, tr_v: i64, br_v: i64, bl_v: i64) -> (GridPoint, GridPoint, GridPoint, GridPoint) {
    (
        GridPoint::new(0, D, tl_v),
        GridPoint::new(D, D, tr_v),
        GridPoint::new(D, 0, br_v),
        GridPoint::new(0, 0, bl_v),
    )
}

#[test]
fn cell_shapes_test_empty_cells() {
    let (tl, tr, br, bl) = unit_corners(0, 0, 0, 0);

    // All below lower.
    let result = CellShape::from_config(
        0, &tl, &tr, &br, &bl, 5, 10, SmoothingFactor::new(999), false, false, false, false,
    );
    assert!(result.is_none());

    // All above upper.
    let result = CellShape::from_config(
        170, &tl, &tr, &br, &bl, 5, 10, SmoothingFactor::new(999), false, false, false, false,
    );
    assert!(result.is_none());
}

#[test]
fn cell_shapes_test_triangle_config() {
    let (tl, tr, br, bl) = unit_corners(12, 12, 12, 4);

    // Code 169 (state 2221): all above upper except BL below lower.
    let result = CellShape::from_config(
        169, &tl, &tr, &br, &bl, 5, 10, SmoothingFactor::new(999), false, false, false, false,
    );
    assert!(result.is_some());
    let shape = result.unwrap();
    assert!(shape.edges.len() > 0);
}

#[test]
fn mod_test_empty_cells() {
    let (tl, tr, br, bl) = unit_corners(0, 0, 0, 0);

    let result = CellShape::from_config(
        0, &tl, &tr, &br, &bl, 5, 10, SmoothingFactor::new(999), false, false, false, false,
    );
    assert!(result.is_none());

    let result = CellShape::from_config(
        170, &tl, &tr, &br, &bl, 5, 10, SmoothingFactor::new(999), false, false, false, false,
    );
    assert!(result.is_none());
}

#[test]
fn mod_test_triangle_config() {
    let (tl, tr, br, bl) = unit_corners(12, 12, 12, 4);

    let result = CellShape::from_config(
        169, &tl, &tr, &br, &bl, 5, 10, SmoothingFactor::new(999), false, false, false, false,
    );
    assert!(result.is_some());
    let shape = result.unwrap();
    assert!(shape.edges.len() > 0);
}

#[test]
fn test_one_sided_cells_are_blank() {
    // All four corner values strictly below the lower threshold.
    let (tl, tr, br, bl) = unit_corners(1, 2, 3, 4);
    assert_eq!(calculate_cell_config(&tl, &tr, &br, &bl, 5, 10), 0);
    assert_eq!(calculate_isoline_config(&tl, &tr, &br, &bl, 5), 0);
    assert!(get_isoline_segments(0, &tl, &tr, &br, &bl, 5, SmoothingFactor::new(999)).is_none());

    // All four strictly above the upper threshold.
    let (tl, tr, br, bl) = unit_corners(11, 12, 13, 14);
    assert_eq!(calculate_cell_config(&tl, &tr, &br, &bl, 5, 10), 170);
    assert_eq!(calculate_isoline_config(&tl, &tr, &br, &bl, 5), 15);
    assert!(get_isoline_segments(15, &tl, &tr, &br, &bl, 5, SmoothingFactor::new(999)).is_none());
    assert!(CellShape::from_config(
        170, &tl, &tr, &br, &bl, 5, 10, SmoothingFactor::new(999), true, true, true, true,
    )
    .is_none());
}

fn swapped(p: PtRef) -> PtRef {
    match p {
        PtRef::Ip(LevelSel::Lower, s) => PtRef::Ip(LevelSel::Upper, s),
        PtRef::Ip(LevelSel::Upper, s) => PtRef::Ip(LevelSel::Lower, s),
        other => other,
    }
}

#[test]
fn test_paired_codes_share_layout() {
    // Complement codes share one catalog entry outright...
    assert_eq!(templates(169, Regime::Mid), templates(1, Regime::Mid));
    assert_eq!(templates(5, Regime::Mid), templates(165, Regime::Mid));
    assert_eq!(templates(37, Regime::Low), templates(133, Regime::Low));

    // ...and complement saddles mirror each other with the thresholds
    // exchanged and the average regime flipped.
    let a = templates(153, Regime::High);
    let b = templates(17, Regime::Low);
    assert_eq!(a.len(), b.len());
    for (ta, tb) in a.iter().zip(b.iter()) {
        assert_eq!(tb.s, swapped(ta.s));
        assert_eq!(tb.e, swapped(ta.e));
        assert_eq!(tb.mv, ta.mv);
        assert_eq!(tb.gate, ta.gate);
    }

    let a = templates(136, Regime::Low);
    let b = templates(34, Regime::High);
    assert_eq!(a.len(), b.len());
    for (ta, tb) in a.iter().zip(b.iter()) {
        assert_eq!(tb.s, swapped(ta.s));
        assert_eq!(tb.e, swapped(ta.e));
        assert_eq!(tb.mv, ta.mv);
        assert_eq!(tb.gate, ta.gate);
    }
}

#[test]
fn test_isoline_saddle_average_tie_break() {
    // Code 5: TR and BL above, TL and BR below.  The four-corner average
    // picks the diagonal pairing; an average exactly at the level counts
    // as above.
    let (tl, tr, br, bl) = unit_corners(10, 20, 10, 20);
    let segs = get_isoline_segments(5, &tl, &tr, &br, &bl, 15, SmoothingFactor::new(999))
        .expect("saddle cell must contribute segments");
    assert_eq!(segs.len(), 2);
    // Average == level: connect left-bottom and right-top.
    assert_eq!(segs[0], vec![
        Point::new(0, D / 2),
        Point::new(D / 2, 0),
    ]);
    assert_eq!(segs[1], vec![
        Point::new(D, D / 2),
        Point::new(D / 2, D),
    ]);

    // Pull the average below the level: the other diagonal pairing.
    let (tl, tr, br, bl) = unit_corners(10, 20, 0, 20);
    let segs = get_isoline_segments(5, &tl, &tr, &br, &bl, 15, SmoothingFactor::new(999))
        .expect("saddle cell must contribute segments");
    assert_eq!(segs.len(), 2);
    assert_eq!(segs[0][1], Point::new(D / 2, D));
}

#[test]
fn test_isoband_saddle_regimes() {
    // Code 153 (corner states 2-1-2-1): the four-corner average picks the
    // connection pattern.  Interior cell, so only the ungated diagonal
    // strands are emitted.

    // Average between the thresholds: the band connects around the middle.
    let (tl, tr, br, bl) = unit_corners(12, 7, 12, 7);
    let shape = CellShape::from_config(
        153, &tl, &tr, &br, &bl, 5, 10, SmoothingFactor::new(999), false, false, false, false,
    )
    .expect("saddle cell must contribute edges");
    assert_eq!(shape.edges.len(), 2);
    assert_eq!(shape.edges[0].move_dir, Move::Down);

    // Average at or above the upper threshold: the strands flip.
    let (tl, tr, br, bl) = unit_corners(40, 7, 40, 7);
    let shape = CellShape::from_config(
        153, &tl, &tr, &br, &bl, 5, 10, SmoothingFactor::new(999), false, false, false, false,
    )
    .expect("saddle cell must contribute edges");
    assert_eq!(shape.edges.len(), 2);
    assert_eq!(shape.edges[0].move_dir, Move::Up);
}

#[test]
fn test_rectangle_on_full_boundary() {
    // Code 5 (only the bottom corners between the thresholds) on a cell
    // that is the whole grid: all four gates pass and the band closes
    // into a quad within the cell.
    let (tl, tr, br, bl) = unit_corners(2, 2, 7, 7);
    assert_eq!(calculate_cell_config(&tl, &tr, &br, &bl, 5, 10), 5);
    let shape = CellShape::from_config(
        5, &tl, &tr, &br, &bl, 5, 10, SmoothingFactor::new(999), true, true, true, true,
    )
    .expect("boundary rectangle must contribute edges");
    assert_eq!(shape.edges.len(), 4);

    // The same cell in the grid interior keeps only the ungated edge.
    let shape = CellShape::from_config(
        5, &tl, &tr, &br, &bl, 5, 10, SmoothingFactor::new(999), false, false, false, false,
    )
    .expect("interior rectangle must contribute its crossing edge");
    assert_eq!(shape.edges.len(), 1);
    assert_eq!(shape.edges[0].move_dir, Move::Right);
}
