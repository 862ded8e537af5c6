//! The contour pipeline: classify every cell of a band, trace the rings,
//! organise them into polygons; and the per-level isoline pass.

use vstd::prelude::*;

use crate::cell_shapes::{calculate_cell_config, spec_cell_config, spec_cell_edges, spec_key_edges, CellShape};
use crate::edge_tracing::{
    spec_scan, spec_scan_fuel, trace_all_rings, view_of_cells, CellGrid, CellView, CellWithEdges,
};
use crate::error::Error;
use crate::grid::{geo_grid_wf, GeoGrid};
use crate::isoline::{calculate_isoline_config, get_isoline_segments, spec_isoline_config, spec_isoline_segments};
use crate::polygon_util::{
    organize_polygons, organized_closed3, organized_ok, result_rings, ring_closed3, ring_views,
    rings_closed3,
};
use crate::types::{value_in_range, Point, SmoothingFactor};

verus! {

/// One isoband: the filled region between two thresholds, as organised
/// polygons.
#[derive(Clone, Debug)]
pub struct IsobandFeature {
    /// The band's lower threshold.
    pub lower: i64,
    /// The band's upper threshold.
    pub upper: i64,
    /// The organised polygons: each an exterior ring with its holes.
    pub polygons: Vec<(Vec<Point>, Vec<Vec<Point>>)>,
}

/// One isoline: the open polyline segments where the field equals a level.
#[derive(Clone, Debug)]
pub struct IsolineFeature {
    /// The contour level.
    pub level: i64,
    /// The open polyline segments, each a pair of crossing points.
    pub lines: Vec<Vec<Point>>,
}

/// Every generated band is consistently organised and carries an adjacent
/// pair of the threshold list.
pub open spec fn bands_ok(v: Seq<IsobandFeature>, thresholds: Seq<i64>) -> bool {
    forall|k: int|
        0 <= k < v.len() ==> organized_ok((#[trigger] v[k]).polygons@) && organized_closed3(
            v[k].polygons@,
        ) && (exists|t: int|
            0 <= t < thresholds.len() - 1 && v[k].lower == #[trigger] thresholds[t] && v[k].upper
                == thresholds[t + 1])
}

/// Every generated isoline feature is non-empty, each of its segments is
/// a pair of crossing points, and it carries one of the requested levels.
pub open spec fn isolines_ok(v: Seq<IsolineFeature>, levels: Seq<i64>) -> bool {
    forall|k: int|
        0 <= k < v.len() ==> (#[trigger] v[k]).lines@.len() > 0 && (forall|s: int|
            0 <= s < v[k].lines@.len() ==> (#[trigger] v[k].lines@[s])@.len() == 2) && (exists|
            t: int,
        |
            0 <= t < levels.len() && v[k].level == #[trigger] levels[t])
}

/// The spec segments contributed by the isoline cell at `(row, col)`.
#[verifier::opaque]
pub open spec fn spec_cell_iso_segs(g: GeoGrid, level: int, sf: int, row: int, col: int) -> Seq<
    Seq<Point>,
> {
    let tl = g.points@[row]@[col];
    let tr = g.points@[row]@[col + 1];
    let br = g.points@[row + 1]@[col + 1];
    let bl = g.points@[row + 1]@[col];
    spec_isoline_segments(
        spec_isoline_config(tl.value as int, tr.value as int, br.value as int, bl.value as int, level),
        tl,
        tr,
        br,
        bl,
        level,
        sf,
    )
}

/// The ghost state of the isoband cell at `(row, col)` after
/// classification: its keyed edge set, nothing consumed; or nothing when
/// the cell contributes no edges.
#[verifier::opaque]
pub open spec fn spec_band_cell(g: GeoGrid, lower: int, upper: int, sf: int, row: int, col: int) -> Option<CellView> {
    let tl = g.points@[row]@[col];
    let tr = g.points@[row]@[col + 1];
    let br = g.points@[row + 1]@[col + 1];
    let bl = g.points@[row + 1]@[col];
    let code = spec_cell_config(
        tl.value as int,
        tr.value as int,
        br.value as int,
        bl.value as int,
        lower,
        upper,
    );
    let es = spec_cell_edges(
        code,
        tl,
        tr,
        br,
        bl,
        lower,
        upper,
        sf,
        row == 0,
        col + 1 == g.cols - 1,
        row + 1 == g.rows - 1,
        col == 0,
    );
    if es.len() == 0 {
        Option::<CellView>::None
    } else {
        let keyed = spec_key_edges(es);
        Option::Some(CellView { edges: keyed, used: 0, total: keyed.len() as int, cleared: false })
    }
}

/// The ghost state of a band's whole classified arena, row-major.
pub open spec fn spec_band_cells(g: GeoGrid, lower: int, upper: int, sf: int) -> Seq<
    Option<CellView>,
> {
    Seq::new(
        ((g.rows - 1) * (g.cols - 1)) as nat,
        |i: int| spec_band_cell(g, lower, upper, sf, i / ((g.cols - 1) as int), i % ((g.cols
            - 1) as int)),
    )
}

/// The rings a band's trace extracts, in extraction order.
pub open spec fn spec_band_rings(g: GeoGrid, lower: int, upper: int) -> Seq<Seq<Point>> {
    let cv = spec_band_cells(g, lower, upper, clamped_smoothing(g));
    let crows = (g.rows - 1) as int;
    let ccols = (g.cols - 1) as int;
    spec_scan(cv, crows, ccols, 0, 0, spec_scan_fuel(cv, crows, ccols) as nat).1
}

/// The adjacent threshold pairs, in order, whose band is non-empty: the
/// pairs the generated feature list carries.
pub open spec fn spec_nonempty_bands(g: GeoGrid, thresholds: Seq<i64>, k: int) -> Seq<(i64, i64)>
    decreases k,
{
    if k <= 1 {
        Seq::<(i64, i64)>::empty()
    } else {
        let prefix = spec_nonempty_bands(g, thresholds, k - 1);
        if spec_band_rings(g, thresholds[k - 2] as int, thresholds[k - 1] as int).len() > 0 {
            prefix.push((thresholds[k - 2], thresholds[k - 1]))
        } else {
            prefix
        }
    }
}

/// The segments of the isoline cells `(row, 0..col)`, in cell order.
pub open spec fn spec_iso_row(g: GeoGrid, level: int, sf: int, row: int, col: int) -> Seq<
    Seq<Point>,
>
    decreases col,
{
    if col <= 0 {
        Seq::<Seq<Point>>::empty()
    } else {
        spec_iso_row(g, level, sf, row, col - 1) + spec_cell_iso_segs(g, level, sf, row, col - 1)
    }
}

/// The segments of all isoline cells in rows `0..row`, row-major.
pub open spec fn spec_iso_rows(g: GeoGrid, level: int, sf: int, row: int) -> Seq<Seq<Point>>
    decreases row,
{
    if row <= 0 {
        Seq::<Seq<Point>>::empty()
    } else {
        spec_iso_rows(g, level, sf, row - 1) + spec_iso_row(g, level, sf, row - 1, g.cols - 1)
    }
}

/// Every segment of one level over the whole grid, in row-major cell
/// order: the exact content of the level's isoline feature.
pub open spec fn spec_isoline_lines(g: GeoGrid, level: int, sf: int) -> Seq<Seq<Point>> {
    spec_iso_rows(g, level, sf, g.rows - 1)
}

/// The levels, in order, whose isoline pass produces segments: the levels
/// the generated feature list carries.
pub open spec fn spec_nonempty_levels(g: GeoGrid, levels: Seq<i64>, k: int) -> Seq<i64>
    decreases k,
{
    if k <= 0 {
        Seq::<i64>::empty()
    } else {
        let prefix = spec_nonempty_levels(g, levels, k - 1);
        if spec_isoline_lines(g, levels[k - 1] as int, clamped_smoothing(g)).len() > 0 {
            prefix.push(levels[k - 1])
        } else {
            prefix
        }
    }
}

/// Generate one isoband between `lower` and `upper`: classify every cell,
/// trace the rings, organise them into polygons with holes.
///
/// `None` exactly when the band's trace extracts no rings.  Otherwise the
/// feature's polygons hold exactly the extracted rings, consistently
/// nested — holes inside their exterior, no hole inside an earlier
/// sibling — every ring with at least three points and closed.
#[verifier::rlimit(100)]
pub fn generate_isobands_phase2(grid: &GeoGrid, lower: i64, upper: i64) -> (r: Result<
    Option<IsobandFeature>,
    Error,
>)
    requires
        geo_grid_wf(*grid),
        value_in_range(lower as int),
        value_in_range(upper as int),
        lower <= upper,
    ensures
        ({
            let band = spec_band_rings(*grid, lower as int, upper as int);
            match r {
                Result::Ok(opt) => match opt {
                    Option::None => band.len() == 0,
                    Option::Some(f) => band.len() > 0 && f.lower == lower && f.upper == upper
                        && organized_ok(f.polygons@) && organized_closed3(f.polygons@)
                        && result_rings(f.polygons@).to_multiset() == band.to_multiset(),
                },
                Result::Err(_) => false,
            }
        }),
{
    let rows = grid.rows();
    let cols = grid.cols();
    let smoothing = SmoothingFactor::new(grid.config().smoothing_factor.0);
    let ghost ccols: int = (cols - 1) as int;
    let ghost crows: int = (rows - 1) as int;
    proof {
        assert(smoothing.0 == clamped_smoothing(*grid));
        assert((rows - 1) * (cols - 1) <= rows * cols) by (nonlinear_arith)
            requires
                2 <= rows,
                2 <= cols,
        ;
    }
    let mut cells = CellGrid::new(rows - 1, cols - 1);
    proof {
        crate::edge_tracing::lemma_view_len(cells.cells@);
        assert forall|r2: int, c2: int|
            0 <= r2 < crows && 0 <= c2 < ccols implies (#[trigger] view_of_cells(
            cells.cells@,
        )[r2 * ccols + c2]) is None by {
            assert(0 <= r2 * ccols + c2 < crows * ccols) by (nonlinear_arith)
                requires
                    0 <= r2 < crows,
                    0 <= c2 < ccols,
            ;
            assert(cells.cells@[r2 * ccols + c2] is None);
            assert(view_of_cells(cells.cells@)[r2 * ccols + c2]
                == crate::edge_tracing::view_of_slot(cells.cells@[r2 * ccols + c2]));
        }
    }

    let mut row: usize = 0;
    while row < rows - 1
        invariant
            geo_grid_wf(*grid),
            rows == grid.rows,
            cols == grid.cols,
            ccols == cols - 1,
            crows == rows - 1,
            crate::edge_tracing::grid_wf(cells),
            cells.rows == rows - 1,
            cells.cols == cols - 1,
            cells.cells@.len() == crows * ccols,
            row <= rows - 1,
            value_in_range(lower as int),
            value_in_range(upper as int),
            lower <= upper,
            crate::types::smoothing_in_range(smoothing),
            smoothing.0 == clamped_smoothing(*grid),
            forall|r2: int, c2: int|
                0 <= r2 < crows && 0 <= c2 < ccols && r2 < row as int ==> view_of_cells(
                    cells.cells@,
                )[r2 * ccols + c2] == spec_band_cell(
                    *grid,
                    lower as int,
                    upper as int,
                    smoothing.0 as int,
                    r2,
                    c2,
                ),
            forall|r2: int, c2: int|
                0 <= r2 < crows && 0 <= c2 < ccols && r2 >= row as int ==> (
                #[trigger] view_of_cells(cells.cells@)[r2 * ccols + c2]) is None,
        decreases rows - 1 - row,
    {
        let mut col: usize = 0;
        while col < cols - 1
            invariant
                geo_grid_wf(*grid),
                rows == grid.rows,
                cols == grid.cols,
                ccols == cols - 1,
                crows == rows - 1,
                row < rows - 1,
                col <= cols - 1,
                crate::edge_tracing::grid_wf(cells),
                cells.rows == rows - 1,
                cells.cols == cols - 1,
                cells.cells@.len() == crows * ccols,
                value_in_range(lower as int),
                value_in_range(upper as int),
                lower <= upper,
                crate::types::smoothing_in_range(smoothing),
                smoothing.0 == clamped_smoothing(*grid),
                forall|r2: int, c2: int|
                    0 <= r2 < crows && 0 <= c2 < ccols && (r2 < row as int || (r2 == row as int
                        && c2 < col as int)) ==> view_of_cells(cells.cells@)[r2 * ccols + c2]
                        == spec_band_cell(
                        *grid,
                        lower as int,
                        upper as int,
                        smoothing.0 as int,
                        r2,
                        c2,
                    ),
                forall|r2: int, c2: int|
                    0 <= r2 < crows && 0 <= c2 < ccols && (r2 > row as int || (r2 == row as int
                        && c2 >= col as int)) ==> (#[trigger] view_of_cells(cells.cells@)[r2
                        * ccols + c2]) is None,
            decreases cols - 1 - col,
        {
            let tl = grid.get_at(row, col);
            let tr = grid.get_at(row, col + 1);
            let br = grid.get_at(row + 1, col + 1);
            let bl = grid.get_at(row + 1, col);
            let config = calculate_cell_config(&tl, &tr, &br, &bl, lower, upper);
            let is_top = row == 0;
            let is_right = col + 1 == cols - 1;
            let is_bottom = row + 1 == rows - 1;
            let is_left = col == 0;
            let shape_opt = CellShape::from_config(
                config,
                &tl,
                &tr,
                &br,
                &bl,
                lower,
                upper,
                smoothing,
                is_top,
                is_right,
                is_bottom,
                is_left,
            );
            let ghost pre_cells = cells.cells@;
            let ghost this_slot = spec_band_cell(
                *grid,
                lower as int,
                upper as int,
                smoothing.0 as int,
                row as int,
                col as int,
            );
            match shape_opt {
                Option::Some(shape) => {
                    let cell = CellWithEdges::new_with_config(
                        shape,
                        config,
                        (tl.value, tr.value, br.value, bl.value),
                    );
                    proof {
                        reveal(spec_band_cell);
                        assert(this_slot == Option::Some(
                            crate::edge_tracing::view_of_cell(cell),
                        ));
                    }
                    cells.set_cell(row, col, Option::Some(cell));
                    proof {
                        assert(0 <= (row as int) * ccols + (col as int) && (row as int) * ccols
                            + (col as int) < crows * ccols) by (nonlinear_arith)
                            requires
                                0 <= (row as int) < crows,
                                0 <= (col as int) < ccols,
                        ;
                        crate::edge_tracing::lemma_view_update(
                            pre_cells,
                            (row as int) * ccols + col as int,
                            Option::Some(cell),
                        );
                    }
                },
                Option::None => {
                    proof {
                        reveal(spec_band_cell);
                        assert(this_slot is None);
                    }
                },
            }
            proof {
                assert forall|r2: int, c2: int|
                    0 <= r2 < crows && 0 <= c2 < ccols && (r2 < row as int || (r2 == row as int
                        && c2 < col as int + 1)) implies view_of_cells(cells.cells@)[r2 * ccols
                    + c2] == spec_band_cell(
                    *grid,
                    lower as int,
                    upper as int,
                    smoothing.0 as int,
                    r2,
                    c2,
                ) by {
                    lemma_rowmajor_distinct(ccols, r2, c2, row as int, col as int);
                    assert(0 <= r2 * ccols + c2 < crows * ccols) by (nonlinear_arith)
                        requires
                            0 <= r2 < crows,
                            0 <= c2 < ccols,
                    ;
                }
                assert forall|r2: int, c2: int|
                    0 <= r2 < crows && 0 <= c2 < ccols && (r2 > row as int || (r2 == row as int
                        && c2 >= col as int + 1)) implies (#[trigger] view_of_cells(
                    cells.cells@,
                )[r2 * ccols + c2]) is None by {
                    lemma_rowmajor_distinct(ccols, r2, c2, row as int, col as int);
                    assert(0 <= r2 * ccols + c2 < crows * ccols) by (nonlinear_arith)
                        requires
                            0 <= r2 < crows,
                            0 <= c2 < ccols,
                    ;
                }
            }
            col = col + 1;
        }
        row = row + 1;
    }

    // The classified arena is exactly the band's ghost arena.
    proof {
        crate::edge_tracing::lemma_view_len(cells.cells@);
        let cv = spec_band_cells(*grid, lower as int, upper as int, smoothing.0 as int);
        assert forall|i: int| 0 <= i < crows * ccols implies view_of_cells(cells.cells@)[i]
            == cv[i] by {
            let r2 = i / ccols;
            let c2 = i % ccols;
            vstd::arithmetic::div_mod::lemma_fundamental_div_mod(i, ccols);
            vstd::arithmetic::div_mod::lemma_mod_bound(i, ccols);
            assert(0 <= r2 < crows) by (nonlinear_arith)
                requires
                    0 <= i < crows * ccols,
                    ccols > 0,
                    i == r2 * ccols + c2,
                    0 <= c2 < ccols,
            ;
            assert(i == r2 * ccols + c2);
            assert(view_of_cells(cells.cells@)[r2 * ccols + c2] == spec_band_cell(
                *grid,
                lower as int,
                upper as int,
                smoothing.0 as int,
                r2,
                c2,
            ));
            assert(cv[i] == spec_band_cell(
                *grid,
                lower as int,
                upper as int,
                smoothing.0 as int,
                r2,
                c2,
            ));
        }
        assert(view_of_cells(cells.cells@) =~= cv);
    }

    let rings = trace_all_rings(&mut cells);
    proof {
        assert(ring_views(rings@) == spec_band_rings(*grid, lower as int, upper as int));
        assert(ring_views(rings@).len() == rings@.len());
    }
    if rings.len() == 0 {
        return Result::Ok(Option::None);
    }

    proof {
        assert forall|i: int| 0 <= i < rings@.len() implies ring_closed3(
            (#[trigger] rings@[i])@,
        ) by {}
        assert(rings_closed3(rings@));
    }
    let organized = organize_polygons(rings);
    Result::Ok(
        Option::Some(IsobandFeature { lower, upper, polygons: organized }),
    )
}

/// Distinct cell positions have distinct row-major slot indices.
proof fn lemma_rowmajor_distinct(c: int, r1: int, c1: int, r2: int, c2: int)
    requires
        c > 0,
        0 <= c1 < c,
        0 <= c2 < c,
    ensures
        (r1 != r2 || c1 != c2) ==> r1 * c + c1 != r2 * c + c2,
{
    if r1 != r2 || c1 != c2 {
        assert(r1 * c + c1 != r2 * c + c2) by (nonlinear_arith)
            requires
                c > 0,
                0 <= c1 < c,
                0 <= c2 < c,
                r1 != r2 || c1 != c2,
        ;
    }
}

/// Generate the isobands for every adjacent pair of the ascending
/// threshold list, in order, keeping the non-empty bands; each feature's
/// polygons hold exactly its band's extracted rings.
#[verifier::rlimit(100)]
pub fn generate_isobands(grid: &GeoGrid, thresholds: &Vec<i64>) -> (r: Result<
    Vec<IsobandFeature>,
    Error,
>)
    requires
        geo_grid_wf(*grid),
        thresholds@.len() >= 2,
        forall|i: int| 0 <= i < thresholds@.len() ==> value_in_range(#[trigger] thresholds@[i] as int),
        forall|i: int| 0 < i < thresholds@.len() ==> thresholds@[i - 1] < #[trigger] thresholds@[i],
    ensures
        r matches Ok(v) && v@.len() <= thresholds@.len() - 1 && bands_ok(v@, thresholds@) && ({
            let chosen = spec_nonempty_bands(*grid, thresholds@, thresholds@.len() as int);
            &&& v@.len() == chosen.len()
            &&& forall|k: int|
                0 <= k < v@.len() ==> (#[trigger] v@[k]).lower == chosen[k].0 && v@[k].upper
                    == chosen[k].1 && result_rings(v@[k].polygons@).to_multiset()
                    == spec_band_rings(*grid, chosen[k].0 as int, chosen[k].1 as int).to_multiset()
        }),
{
    let mut features: Vec<IsobandFeature> = Vec::new();
    let mut i: usize = 0;
    while i < thresholds.len() - 1
        invariant
            geo_grid_wf(*grid),
            i <= thresholds@.len() - 1,
            thresholds@.len() >= 2,
            forall|k: int| 0 <= k < thresholds@.len() ==> value_in_range(
                #[trigger] thresholds@[k] as int,
            ),
            forall|k: int| 0 < k < thresholds@.len() ==> thresholds@[k - 1]
                < #[trigger] thresholds@[k],
            features@.len() <= i,
            bands_ok(features@, thresholds@),
            features@.len() == spec_nonempty_bands(*grid, thresholds@, i + 1).len(),
            forall|k: int|
                0 <= k < features@.len() ==> (#[trigger] features@[k]).lower
                    == spec_nonempty_bands(*grid, thresholds@, i + 1)[k].0 && features@[k].upper
                    == spec_nonempty_bands(*grid, thresholds@, i + 1)[k].1 && result_rings(
                    features@[k].polygons@,
                ).to_multiset() == spec_band_rings(
                    *grid,
                    spec_nonempty_bands(*grid, thresholds@, i + 1)[k].0 as int,
                    spec_nonempty_bands(*grid, thresholds@, i + 1)[k].1 as int,
                ).to_multiset(),
        decreases thresholds@.len() - 1 - i,
    {
        let lower = thresholds[i];
        let upper = thresholds[i + 1];
        let ghost chosen_pre = spec_nonempty_bands(*grid, thresholds@, i + 1);
        let band = generate_isobands_phase2(grid, lower, upper);
        match band {
            Result::Ok(Option::Some(feature)) => {
                let ghost pre = features@;
                features.push(feature);
                proof {
                    assert(spec_nonempty_bands(*grid, thresholds@, i + 2) == chosen_pre.push(
                        (lower, upper),
                    ));
                    assert forall|k: int| 0 <= k < features@.len() implies organized_ok(
                        (#[trigger] features@[k]).polygons@,
                    ) && organized_closed3(features@[k].polygons@) && (exists|t: int|
                        0 <= t < thresholds@.len() - 1 && features@[k].lower
                            == #[trigger] thresholds@[t] && features@[k].upper == thresholds@[t
                            + 1]) by {
                        if k < pre.len() {
                            assert(features@[k] == pre[k]);
                            assert(organized_ok(features@[k].polygons@) && organized_closed3(
                                features@[k].polygons@,
                            ) && (exists|t: int|
                                0 <= t < thresholds@.len() - 1 && features@[k].lower
                                    == #[trigger] thresholds@[t] && features@[k].upper
                                    == thresholds@[t + 1]));
                        } else {
                            assert(features@[k].lower == thresholds@[i as int]);
                            assert(features@[k].upper == thresholds@[i + 1]);
                        }
                    }
                    assert forall|k: int| 0 <= k < features@.len() implies (
                    #[trigger] features@[k]).lower == spec_nonempty_bands(
                        *grid,
                        thresholds@,
                        i + 2,
                    )[k].0 && features@[k].upper == spec_nonempty_bands(
                        *grid,
                        thresholds@,
                        i + 2,
                    )[k].1 && result_rings(features@[k].polygons@).to_multiset()
                        == spec_band_rings(
                        *grid,
                        spec_nonempty_bands(*grid, thresholds@, i + 2)[k].0 as int,
                        spec_nonempty_bands(*grid, thresholds@, i + 2)[k].1 as int,
                    ).to_multiset() by {
                        if k < pre.len() {
                            assert(features@[k] == pre[k]);
                            assert(features@[k].lower == chosen_pre[k].0 && features@[k].upper
                                == chosen_pre[k].1 && result_rings(
                                features@[k].polygons@,
                            ).to_multiset() == spec_band_rings(
                                *grid,
                                chosen_pre[k].0 as int,
                                chosen_pre[k].1 as int,
                            ).to_multiset());
                        }
                    }
                }
            },
            Result::Ok(Option::None) => {
                proof {
                    assert(spec_nonempty_bands(*grid, thresholds@, i + 2) == chosen_pre);
                }
            },
            Result::Err(_) => {
                proof {
                    assert(false);
                }
            },
        }
        i = i + 1;
    }
    proof {
        assert(i + 1 == thresholds@.len());
    }
    Result::Ok(features)
}

/// Classify one isoline cell and append its segments to the running line
/// list.
#[verifier::rlimit(100)]
fn append_cell_segments(
    lines: &mut Vec<Vec<Point>>,
    grid: &GeoGrid,
    level: i64,
    smoothing: SmoothingFactor,
    row: usize,
    col: usize,
)
    requires
        geo_grid_wf(*grid),
        value_in_range(level as int),
        crate::types::smoothing_in_range(smoothing),
        smoothing.0 == clamped_smoothing(*grid),
        row < grid.rows - 1,
        col < grid.cols - 1,
        forall|k: int| 0 <= k < old(lines)@.len() ==> (#[trigger] old(lines)@[k])@.len() == 2,
    ensures
        ring_views(final(lines)@) == ring_views(old(lines)@) + spec_cell_iso_segs(
            *grid,
            level as int,
            smoothing.0 as int,
            row as int,
            col as int,
        ),
        forall|k: int| 0 <= k < final(lines)@.len() ==> (#[trigger] final(lines)@[k])@.len() == 2,
{
    let tl = grid.get_at(row, col);
    let tr = grid.get_at(row, col + 1);
    let br = grid.get_at(row + 1, col + 1);
    let bl = grid.get_at(row + 1, col);
    let config = calculate_isoline_config(&tl, &tr, &br, &bl, level);
    let segs_opt = get_isoline_segments(config, &tl, &tr, &br, &bl, level, smoothing);
    let ghost cell_segs = spec_cell_iso_segs(
        *grid,
        level as int,
        smoothing.0 as int,
        row as int,
        col as int,
    );
    proof {
        reveal(spec_cell_iso_segs);
        assert(cell_segs == spec_isoline_segments(
            config as int,
            tl,
            tr,
            br,
            bl,
            level as int,
            smoothing.0 as int,
        ));
    }
    let ghost pre_lines = old(lines)@;
    match segs_opt {
        Option::Some(mut segs) => {
            let ghost segs0 = segs@;
            proof {
                assert(segs0.len() == cell_segs.len());
            }
            while segs.len() > 0
                invariant
                    segs0.len() == cell_segs.len(),
                    segs@.len() <= segs0.len(),
                    forall|m: int| 0 <= m < segs@.len() ==> (#[trigger] segs@[m])@
                        == cell_segs[segs0.len() - segs@.len() + m],
                    forall|m: int| 0 <= m < segs@.len() ==> (#[trigger] segs@[m])@.len() == 2,
                    forall|m: int| 0 <= m < lines@.len() ==> (#[trigger] lines@[m])@.len() == 2,
                    ring_views(lines@) == ring_views(pre_lines) + cell_segs.subrange(
                        0,
                        segs0.len() - segs@.len(),
                    ),
                decreases segs@.len(),
            {
                let ghost consumed = segs0.len() - segs@.len();
                let ghost lp = lines@;
                let ghost sp = segs@;
                let seg = segs.remove(0);
                lines.push(seg);
                proof {
                    assert(seg@ == cell_segs[consumed]);
                    assert forall|m: int| 0 <= m < segs@.len() implies (#[trigger] segs@[m])@
                        == cell_segs[segs0.len() - segs@.len() + m] by {
                        assert(segs@[m] == sp[m + 1]);
                    }
                    assert forall|m: int| 0 <= m < lines@.len() implies (
                    #[trigger] lines@[m])@.len() == 2 by {
                        if m < lp.len() {
                            assert(lines@[m] == lp[m]);
                        }
                    }
                    assert(ring_views(lines@) =~= ring_views(lp).push(seg@));
                    assert(cell_segs.subrange(0, consumed + 1) =~= cell_segs.subrange(
                        0,
                        consumed,
                    ).push(cell_segs[consumed]));
                    assert(ring_views(lines@) =~= ring_views(pre_lines) + cell_segs.subrange(
                        0,
                        consumed + 1,
                    ));
                }
            }
            proof {
                assert(cell_segs.subrange(0, cell_segs.len() as int) =~= cell_segs);
                assert(ring_views(lines@) =~= ring_views(pre_lines) + cell_segs);
            }
        },
        Option::None => {
            proof {
                assert(cell_segs.len() == 0);
                assert(ring_views(lines@) =~= ring_views(pre_lines) + cell_segs);
            }
        },
    }
}

#[verifier::rlimit(100)]
pub fn process_isoline(grid: &GeoGrid, level: i64) -> (r: Option<IsolineFeature>)
    requires
        geo_grid_wf(*grid),
        value_in_range(level as int),
    ensures
        ({
            let expect = spec_isoline_lines(*grid, level as int, clamped_smoothing(*grid));
            match r {
                Option::Some(f) => f.level == level && f.lines@.len() > 0 && ring_views(f.lines@)
                    == expect && (forall|k: int|
                    0 <= k < f.lines@.len() ==> (#[trigger] f.lines@[k])@.len() == 2),
                Option::None => expect.len() == 0,
            }
        }),
{
    let rows = grid.rows();
    let cols = grid.cols();
    let smoothing = SmoothingFactor::new(grid.config().smoothing_factor.0);
    proof {
        assert(smoothing.0 == clamped_smoothing(*grid));
    }
    let mut lines: Vec<Vec<Point>> = Vec::new();

    let mut row: usize = 0;
    while row < rows - 1
        invariant
            geo_grid_wf(*grid),
            rows == grid.rows,
            cols == grid.cols,
            value_in_range(level as int),
            crate::types::smoothing_in_range(smoothing),
            smoothing.0 == clamped_smoothing(*grid),
            row <= rows - 1,
            forall|k: int| 0 <= k < lines@.len() ==> (#[trigger] lines@[k])@.len() == 2,
            ring_views(lines@) == spec_iso_rows(*grid, level as int, smoothing.0 as int, row as int),
        decreases rows - 1 - row,
    {
        let mut col: usize = 0;
        proof {
            assert(spec_iso_row(*grid, level as int, smoothing.0 as int, row as int, 0)
                =~= Seq::<Seq<Point>>::empty());
            assert(ring_views(lines@) =~= spec_iso_rows(
                *grid,
                level as int,
                smoothing.0 as int,
                row as int,
            ) + spec_iso_row(*grid, level as int, smoothing.0 as int, row as int, 0));
        }
        while col < cols - 1
            invariant
                geo_grid_wf(*grid),
                rows == grid.rows,
                cols == grid.cols,
                row < rows - 1,
                col <= cols - 1,
                value_in_range(level as int),
                crate::types::smoothing_in_range(smoothing),
                smoothing.0 == clamped_smoothing(*grid),
                forall|k: int| 0 <= k < lines@.len() ==> (#[trigger] lines@[k])@.len() == 2,
                ring_views(lines@) == spec_iso_rows(
                    *grid,
                    level as int,
                    smoothing.0 as int,
                    row as int,
                ) + spec_iso_row(*grid, level as int, smoothing.0 as int, row as int, col as int),
            decreases cols - 1 - col,
        {
            let ghost cell_segs = spec_cell_iso_segs(
                *grid,
                level as int,
                smoothing.0 as int,
                row as int,
                col as int,
            );
            let ghost pre_lines = lines@;
            append_cell_segments(&mut lines, grid, level, smoothing, row, col);
            proof {
                assert(spec_iso_row(
                    *grid,
                    level as int,
                    smoothing.0 as int,
                    row as int,
                    col + 1,
                ) == spec_iso_row(*grid, level as int, smoothing.0 as int, row as int, col as int)
                    + cell_segs);
                assert(ring_views(lines@) =~= spec_iso_rows(
                    *grid,
                    level as int,
                    smoothing.0 as int,
                    row as int,
                ) + spec_iso_row(*grid, level as int, smoothing.0 as int, row as int, col + 1));
            }
            col = col + 1;
        }
        proof {
            assert(spec_iso_rows(*grid, level as int, smoothing.0 as int, row + 1)
                == spec_iso_rows(*grid, level as int, smoothing.0 as int, row as int)
                + spec_iso_row(
                *grid,
                level as int,
                smoothing.0 as int,
                row as int,
                grid.cols - 1,
            ));
        }
        row = row + 1;
    }

    if lines.len() == 0 {
        proof {
            assert(spec_isoline_lines(*grid, level as int, clamped_smoothing(*grid)).len()
                == ring_views(lines@).len());
        }
        Option::None
    } else {
        Option::Some(IsolineFeature { level, lines })
    }
}

/// The smoothing factor the pipeline actually uses: the configured one,
/// clamped into range.
pub open spec fn clamped_smoothing(g: GeoGrid) -> int {
    if g.config.smoothing_factor.0 < 0 {
        0int
    } else if g.config.smoothing_factor.0 > crate::types::SMOOTHING_SCALE {
        crate::types::SMOOTHING_SCALE as int
    } else {
        g.config.smoothing_factor.0 as int
    }
}

/// Generate the isoline features for the given levels, in order, keeping
/// the levels that produced segments.
pub fn generate_isolines(grid: &GeoGrid, levels: &Vec<i64>) -> (r: Result<
    Vec<IsolineFeature>,
    Error,
>)
    requires
        geo_grid_wf(*grid),
        levels@.len() > 0,
        forall|i: int| 0 <= i < levels@.len() ==> value_in_range(#[trigger] levels@[i] as int),
    ensures
        r matches Ok(v) && v@.len() <= levels@.len() && isolines_ok(v@, levels@) && ({
            let chosen = spec_nonempty_levels(*grid, levels@, levels@.len() as int);
            &&& v@.len() == chosen.len()
            &&& forall|k: int|
                0 <= k < v@.len() ==> (#[trigger] v@[k]).level == chosen[k] && ring_views(
                    v@[k].lines@,
                ) == spec_isoline_lines(*grid, chosen[k] as int, clamped_smoothing(*grid))
        }),
{
    let mut features: Vec<IsolineFeature> = Vec::new();
    let mut i: usize = 0;
    while i < levels.len()
        invariant
            geo_grid_wf(*grid),
            i <= levels@.len(),
            forall|k: int| 0 <= k < levels@.len() ==> value_in_range(#[trigger] levels@[k] as int),
            features@.len() <= i,
            isolines_ok(features@, levels@),
            features@.len() == spec_nonempty_levels(*grid, levels@, i as int).len(),
            forall|k: int|
                0 <= k < features@.len() ==> (#[trigger] features@[k]).level
                    == spec_nonempty_levels(*grid, levels@, i as int)[k] && ring_views(
                    features@[k].lines@,
                ) == spec_isoline_lines(
                    *grid,
                    spec_nonempty_levels(*grid, levels@, i as int)[k] as int,
                    clamped_smoothing(*grid),
                ),
        decreases levels@.len() - i,
    {
        let level = levels[i];
        let ghost chosen_pre = spec_nonempty_levels(*grid, levels@, i as int);
        match process_isoline(grid, level) {
            Option::Some(feature) => {
                let ghost pre = features@;
                features.push(feature);
                proof {
                    assert(spec_nonempty_levels(*grid, levels@, i + 1) == chosen_pre.push(level));
                    assert forall|k: int| 0 <= k < features@.len() implies (
                    #[trigger] features@[k]).lines@.len() > 0 && (forall|s: int|
                        0 <= s < features@[k].lines@.len() ==> (
                        #[trigger] features@[k].lines@[s])@.len() == 2) && (exists|t: int|
                        0 <= t < levels@.len() && features@[k].level == #[trigger] levels@[t]) by {
                        if k < pre.len() {
                            assert(features@[k] == pre[k]);
                            assert(features@[k].lines@.len() > 0 && (forall|s: int|
                                0 <= s < features@[k].lines@.len() ==> (
                                #[trigger] features@[k].lines@[s])@.len() == 2) && (exists|t: int|
                                0 <= t < levels@.len() && features@[k].level
                                    == #[trigger] levels@[t]));
                        } else {
                            assert(features@[k].level == levels@[i as int]);
                        }
                    }
                    assert forall|k: int| 0 <= k < features@.len() implies (
                    #[trigger] features@[k]).level == spec_nonempty_levels(
                        *grid,
                        levels@,
                        i + 1,
                    )[k] && ring_views(features@[k].lines@) == spec_isoline_lines(
                        *grid,
                        spec_nonempty_levels(*grid, levels@, i + 1)[k] as int,
                        clamped_smoothing(*grid),
                    ) by {
                        if k < pre.len() {
                            assert(features@[k] == pre[k]);
                            assert(features@[k].level == chosen_pre[k] && ring_views(
                                features@[k].lines@,
                            ) == spec_isoline_lines(
                                *grid,
                                chosen_pre[k] as int,
                                clamped_smoothing(*grid),
                            ));
                        }
                    }
                }
            },
            Option::None => {
                proof {
                    assert(spec_nonempty_levels(*grid, levels@, i + 1) == chosen_pre);
                }
            },
        }
        i = i + 1;
    }
    Result::Ok(features)
}

} // verus!
