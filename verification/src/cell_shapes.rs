//! Per-cell classification for isobands: corner states, configuration
//! codes, candidate crossing points, and the assembly of a cell's edge set
//! from the catalog.
//!
//! Each corner is in one of three states against the `(lower, upper)`
//! threshold pair: below the lower threshold (0), between (1), or at or
//! above the upper (2).  The four states combine to the configuration code
//! `TL*64 + TR*16 + BR*4 + BL*1`, a sparse value in `0..=170` covering the
//! 81 valid combinations.

use vstd::prelude::*;

use crate::catalog::{
    spec_templates, templates, CornerSel, EdgeTemplate, Gate, LevelSel, PtRef, Regime,
};
use crate::interpolate::{interpolate_point, spec_interpolate};
use crate::types::{
    grid_point_valid, point_in_range, smoothing_in_range, value_in_range, Edge, GridPoint, Point,
    Side, SmoothingFactor,
};

verus! {

/// Cell configuration value (`0..=170` in the three-state encoding).
pub type CellConfig = u8;

/// The three-state classification of one corner value.
pub open spec fn spec_corner_state(v: int, lower: int, upper: int) -> int {
    if v >= upper {
        2
    } else if v >= lower {
        1
    } else {
        0
    }
}

/// The configuration code of a cell, from its four corner values.
pub open spec fn spec_cell_config(
    tl: int,
    tr: int,
    br: int,
    bl: int,
    lower: int,
    upper: int,
) -> int {
    64 * spec_corner_state(tl, lower, upper) + 16 * spec_corner_state(tr, lower, upper) + 4
        * spec_corner_state(br, lower, upper) + spec_corner_state(bl, lower, upper)
}

/// Compute the configuration code of a cell.
pub fn calculate_cell_config(
    tl: &GridPoint,
    tr: &GridPoint,
    br: &GridPoint,
    bl: &GridPoint,
    lower: i64,
    upper: i64,
) -> (r: CellConfig)
    ensures
        r as int == spec_cell_config(
            tl.value as int,
            tr.value as int,
            br.value as int,
            bl.value as int,
            lower as int,
            upper as int,
        ),
{
    let mut config: u8 = 0;
    if tl.value >= upper {
        config = config + 128;
    } else if tl.value >= lower {
        config = config + 64;
    }
    if tr.value >= upper {
        config = config + 32;
    } else if tr.value >= lower {
        config = config + 16;
    }
    if br.value >= upper {
        config = config + 8;
    } else if br.value >= lower {
        config = config + 4;
    }
    if bl.value >= upper {
        config = config + 2;
    } else if bl.value >= lower {
        config = config + 1;
    }
    config
}

/// The saddle regime of the four-corner average against the thresholds.
pub open spec fn spec_regime(tl: int, tr: int, br: int, bl: int, lower: int, upper: int) -> Regime {
    let sum = tl + tr + br + bl;
    if sum >= 4 * upper {
        Regime::High
    } else if sum < 4 * lower {
        Regime::Low
    } else {
        Regime::Mid
    }
}

/// Compute the saddle regime of a cell.
pub fn calculate_regime(
    tl: &GridPoint,
    tr: &GridPoint,
    br: &GridPoint,
    bl: &GridPoint,
    lower: i64,
    upper: i64,
) -> (r: Regime)
    requires
        grid_point_valid(*tl),
        grid_point_valid(*tr),
        grid_point_valid(*br),
        grid_point_valid(*bl),
        value_in_range(lower as int),
        value_in_range(upper as int),
    ensures
        r == spec_regime(
            tl.value as int,
            tr.value as int,
            br.value as int,
            bl.value as int,
            lower as int,
            upper as int,
        ),
{
    let sum: i64 = tl.value + tr.value + br.value + bl.value;
    if sum >= 4 * upper {
        Regime::High
    } else if sum < 4 * lower {
        Regime::Low
    } else {
        Regime::Mid
    }
}

/// The lattice position of a grid sample.
pub open spec fn spec_pt_of(g: GridPoint) -> Point {
    Point { x: g.lon, y: g.lat }
}

/// The two samples bounding one side of a cell, in the order interpolation
/// reads them.
pub open spec fn spec_side_ends(
    sd: Side,
    tl: GridPoint,
    tr: GridPoint,
    br: GridPoint,
    bl: GridPoint,
) -> (GridPoint, GridPoint) {
    match sd {
        Side::Top => (tl, tr),
        Side::Right => (tr, br),
        Side::Bottom => (bl, br),
        Side::Left => (tl, bl),
    }
}

/// The sample at one corner of a cell.
pub open spec fn spec_corner_of(
    c: CornerSel,
    tl: GridPoint,
    tr: GridPoint,
    br: GridPoint,
    bl: GridPoint,
) -> GridPoint {
    match c {
        CornerSel::TL => tl,
        CornerSel::TR => tr,
        CornerSel::BR => br,
        CornerSel::BL => bl,
    }
}

/// Clamp a level into the closed interval spanned by the two corner
/// values.  Where the side straddles the level this is the identity; the
/// all-between square family pins its quad at the nearer corner value.
pub open spec fn clamp_level(level: int, v0: int, v1: int) -> int {
    if v0 <= v1 {
        if level < v0 {
            v0
        } else if level > v1 {
            v1
        } else {
            level
        }
    } else {
        if level < v1 {
            v1
        } else if level > v0 {
            v0
        } else {
            level
        }
    }
}

/// The crossing of one threshold on one side of a cell: the interpolated
/// point at the clamped level.
pub open spec fn spec_side_cross(
    lv: LevelSel,
    sd: Side,
    tl: GridPoint,
    tr: GridPoint,
    br: GridPoint,
    bl: GridPoint,
    lower: int,
    upper: int,
    sf: int,
) -> Point {
    let (a, b) = spec_side_ends(sd, tl, tr, br, bl);
    let level = match lv {
        LevelSel::Lower => lower,
        LevelSel::Upper => upper,
    };
    spec_interpolate(
        clamp_level(level, a.value as int, b.value as int),
        a.value as int,
        b.value as int,
        spec_pt_of(a),
        spec_pt_of(b),
        sf,
    )
}

/// Compute the crossing of one threshold on one side of a cell.
fn side_cross(
    lv: LevelSel,
    sd: Side,
    tl: &GridPoint,
    tr: &GridPoint,
    br: &GridPoint,
    bl: &GridPoint,
    lower: i64,
    upper: i64,
    smoothing: SmoothingFactor,
) -> (r: Point)
    requires
        grid_point_valid(*tl),
        grid_point_valid(*tr),
        grid_point_valid(*br),
        grid_point_valid(*bl),
        value_in_range(lower as int),
        value_in_range(upper as int),
        smoothing_in_range(smoothing),
    ensures
        r == spec_side_cross(
            lv,
            sd,
            *tl,
            *tr,
            *br,
            *bl,
            lower as int,
            upper as int,
            smoothing.0 as int,
        ),
        point_in_range(r),
{
    let (a, b) = match sd {
        Side::Top => (tl, tr),
        Side::Right => (tr, br),
        Side::Bottom => (bl, br),
        Side::Left => (tl, bl),
    };
    let level = match lv {
        LevelSel::Lower => lower,
        LevelSel::Upper => upper,
    };
    let clamped: i64 = if a.value <= b.value {
        if level < a.value {
            a.value
        } else if level > b.value {
            b.value
        } else {
            level
        }
    } else {
        if level < b.value {
            b.value
        } else if level > a.value {
            a.value
        } else {
            level
        }
    };
    let pa = Point { x: a.lon, y: a.lat };
    let pb = Point { x: b.lon, y: b.lat };
    interpolate_point(clamped, a.value, b.value, &pa, &pb, smoothing)
}

/// A side is blank when both of its corners sit on the same outer side of
/// the threshold pair: no contour crosses it.
pub open spec fn spec_side_blank(
    sd: Side,
    tl: GridPoint,
    tr: GridPoint,
    br: GridPoint,
    bl: GridPoint,
    lower: int,
    upper: int,
) -> bool {
    let (a, b) = spec_side_ends(sd, tl, tr, br, bl);
    (a.value >= upper && b.value >= upper) || ((a.value as int) < lower && (b.value as int)
        < lower)
}

/// The side and near corner examined by each of the eight candidate slots,
/// clockwise from the top edge at the top-right corner.
pub open spec fn spec_slot(k: int) -> (Side, CornerSel) {
    if k == 0 {
        (Side::Top, CornerSel::TR)
    } else if k == 1 {
        (Side::Right, CornerSel::TR)
    } else if k == 2 {
        (Side::Right, CornerSel::BR)
    } else if k == 3 {
        (Side::Bottom, CornerSel::BR)
    } else if k == 4 {
        (Side::Bottom, CornerSel::BL)
    } else if k == 5 {
        (Side::Left, CornerSel::BL)
    } else if k == 6 {
        (Side::Left, CornerSel::TL)
    } else {
        (Side::Top, CornerSel::TL)
    }
}

/// The candidate point of one slot: nothing on a blank side; otherwise the
/// crossing of the threshold the near corner lies beyond, or the corner
/// itself when it lies between the thresholds.
pub open spec fn spec_candidate(
    k: int,
    tl: GridPoint,
    tr: GridPoint,
    br: GridPoint,
    bl: GridPoint,
    lower: int,
    upper: int,
    sf: int,
) -> Option<Point> {
    let (sd, cnr) = spec_slot(k);
    if spec_side_blank(sd, tl, tr, br, bl, lower, upper) {
        Option::None
    } else {
        let cv = spec_corner_of(cnr, tl, tr, br, bl).value as int;
        if cv >= upper {
            Option::Some(spec_side_cross(LevelSel::Upper, sd, tl, tr, br, bl, lower, upper, sf))
        } else if cv < lower {
            Option::Some(spec_side_cross(LevelSel::Lower, sd, tl, tr, br, bl, lower, upper, sf))
        } else {
            Option::Some(spec_pt_of(spec_corner_of(cnr, tl, tr, br, bl)))
        }
    }
}

/// Append a candidate unless it is absent or already present.
pub open spec fn spec_dedup_push(s: Seq<Point>, p: Option<Point>) -> Seq<Point> {
    match p {
        Option::None => s,
        Option::Some(q) => if s.contains(q) {
            s
        } else {
            s.push(q)
        },
    }
}

/// The deduplicated candidate list built from the first `k` slots.
pub open spec fn spec_candidates_upto(
    k: int,
    tl: GridPoint,
    tr: GridPoint,
    br: GridPoint,
    bl: GridPoint,
    lower: int,
    upper: int,
    sf: int,
) -> Seq<Point>
    decreases k,
{
    if k <= 0 {
        Seq::<Point>::empty()
    } else {
        spec_dedup_push(
            spec_candidates_upto(k - 1, tl, tr, br, bl, lower, upper, sf),
            spec_candidate(k - 1, tl, tr, br, bl, lower, upper, sf),
        )
    }
}

/// The cell's deduplicated candidate list, all eight slots in clockwise
/// order.
pub open spec fn spec_candidates(
    tl: GridPoint,
    tr: GridPoint,
    br: GridPoint,
    bl: GridPoint,
    lower: int,
    upper: int,
    sf: int,
) -> Seq<Point> {
    spec_candidates_upto(8, tl, tr, br, bl, lower, upper, sf)
}

/// Whether a vector of points contains the given point.
fn contains_point(pts: &Vec<Point>, p: &Point) -> (r: bool)
    ensures
        r == pts@.contains(*p),
{
    let mut i: usize = 0;
    while i < pts.len()
        invariant
            i <= pts@.len(),
            forall|k: int| 0 <= k < i ==> pts@[k] != *p,
        decreases pts@.len() - i,
    {
        if pts[i].x == p.x && pts[i].y == p.y {
            assert(pts@[i as int] == *p);
            return true;
        }
        i = i + 1;
    }
    false
}

/// Append a candidate to the list unless it is absent or already present.
fn dedup_push(pts: &mut Vec<Point>, c: Option<Point>)
    ensures
        final(pts)@ == spec_dedup_push(old(pts)@, c),
{
    match c {
        Option::Some(q) => {
            if !contains_point(pts, &q) {
                pts.push(q);
            }
        },
        Option::None => {},
    }
}

/// The candidate point of one slot.
fn candidate(
    k: usize,
    tl: &GridPoint,
    tr: &GridPoint,
    br: &GridPoint,
    bl: &GridPoint,
    lower: i64,
    upper: i64,
    smoothing: SmoothingFactor,
) -> (r: Option<Point>)
    requires
        k < 8,
        grid_point_valid(*tl),
        grid_point_valid(*tr),
        grid_point_valid(*br),
        grid_point_valid(*bl),
        value_in_range(lower as int),
        value_in_range(upper as int),
        smoothing_in_range(smoothing),
    ensures
        r == spec_candidate(
            k as int,
            *tl,
            *tr,
            *br,
            *bl,
            lower as int,
            upper as int,
            smoothing.0 as int,
        ),
{
    let (sd, cnr): (Side, CornerSel) = if k == 0 {
        (Side::Top, CornerSel::TR)
    } else if k == 1 {
        (Side::Right, CornerSel::TR)
    } else if k == 2 {
        (Side::Right, CornerSel::BR)
    } else if k == 3 {
        (Side::Bottom, CornerSel::BR)
    } else if k == 4 {
        (Side::Bottom, CornerSel::BL)
    } else if k == 5 {
        (Side::Left, CornerSel::BL)
    } else if k == 6 {
        (Side::Left, CornerSel::TL)
    } else {
        (Side::Top, CornerSel::TL)
    };
    let (a, b) = match sd {
        Side::Top => (tl, tr),
        Side::Right => (tr, br),
        Side::Bottom => (bl, br),
        Side::Left => (tl, bl),
    };
    if (a.value >= upper && b.value >= upper) || (a.value < lower && b.value < lower) {
        return Option::None;
    }
    let cp: &GridPoint = match cnr {
        CornerSel::TL => tl,
        CornerSel::TR => tr,
        CornerSel::BR => br,
        CornerSel::BL => bl,
    };
    if cp.value >= upper {
        Option::Some(side_cross(LevelSel::Upper, sd, tl, tr, br, bl, lower, upper, smoothing))
    } else if cp.value < lower {
        Option::Some(side_cross(LevelSel::Lower, sd, tl, tr, br, bl, lower, upper, smoothing))
    } else {
        Option::Some(Point { x: cp.lon, y: cp.lat })
    }
}

/// Collect the cell's deduplicated candidate list.
fn collect_candidates(
    tl: &GridPoint,
    tr: &GridPoint,
    br: &GridPoint,
    bl: &GridPoint,
    lower: i64,
    upper: i64,
    smoothing: SmoothingFactor,
) -> (r: Vec<Point>)
    requires
        grid_point_valid(*tl),
        grid_point_valid(*tr),
        grid_point_valid(*br),
        grid_point_valid(*bl),
        value_in_range(lower as int),
        value_in_range(upper as int),
        smoothing_in_range(smoothing),
    ensures
        r@ == spec_candidates(
            *tl,
            *tr,
            *br,
            *bl,
            lower as int,
            upper as int,
            smoothing.0 as int,
        ),
{
    let mut pts: Vec<Point> = Vec::new();
    let mut k: usize = 0;
    while k < 8
        invariant
            k <= 8,
            grid_point_valid(*tl),
            grid_point_valid(*tr),
            grid_point_valid(*br),
            grid_point_valid(*bl),
            value_in_range(lower as int),
            value_in_range(upper as int),
            smoothing_in_range(smoothing),
            pts@ == spec_candidates_upto(
                k as int,
                *tl,
                *tr,
                *br,
                *bl,
                lower as int,
                upper as int,
                smoothing.0 as int,
            ),
        decreases 8 - k,
    {
        let c = candidate(k, tl, tr, br, bl, lower, upper, smoothing);
        dedup_push(&mut pts, c);
        k = k + 1;
    }
    pts
}

/// A boundary gate passes for the given cell position flags.
pub open spec fn spec_gate_pass(
    g: Gate,
    is_top: bool,
    is_right: bool,
    is_bottom: bool,
    is_left: bool,
) -> bool {
    match g {
        Gate::Always => true,
        Gate::Top => is_top,
        Gate::Right => is_right,
        Gate::Bottom => is_bottom,
        Gate::Left => is_left,
    }
}

/// An endpoint reference can be resolved against a candidate list of the
/// given length.
pub open spec fn spec_ref_ok(r: PtRef, n: int) -> bool {
    match r {
        PtRef::Cand(i) => (i as int) < n,
        _ => true,
    }
}

/// Every template of the list can be resolved: no candidate index reaches
/// past the list.  A cell whose candidates collapsed below the family's
/// arity contributes no edges at all.
pub open spec fn spec_templates_ok(tpls: Seq<EdgeTemplate>, n: int) -> bool {
    forall|i: int| 0 <= i < tpls.len() ==> #[trigger] spec_ref_ok(tpls[i].s, n) && spec_ref_ok(
        tpls[i].e,
        n,
    )
}

/// Resolve an endpoint reference to a lattice point.
pub open spec fn spec_resolve(
    r: PtRef,
    cands: Seq<Point>,
    tl: GridPoint,
    tr: GridPoint,
    br: GridPoint,
    bl: GridPoint,
    lower: int,
    upper: int,
    sf: int,
) -> Point {
    match r {
        PtRef::Cand(i) => cands[i as int],
        PtRef::Ip(lv, sd) => spec_side_cross(lv, sd, tl, tr, br, bl, lower, upper, sf),
        PtRef::Corner(c) => spec_pt_of(spec_corner_of(c, tl, tr, br, bl)),
    }
}

/// The edges produced by the first `k` templates whose gates pass.
pub open spec fn spec_build_upto(
    tpls: Seq<EdgeTemplate>,
    k: int,
    cands: Seq<Point>,
    tl: GridPoint,
    tr: GridPoint,
    br: GridPoint,
    bl: GridPoint,
    lower: int,
    upper: int,
    sf: int,
    is_top: bool,
    is_right: bool,
    is_bottom: bool,
    is_left: bool,
) -> Seq<Edge>
    decreases k,
{
    if k <= 0 {
        Seq::<Edge>::empty()
    } else {
        let rest = spec_build_upto(
            tpls,
            k - 1,
            cands,
            tl,
            tr,
            br,
            bl,
            lower,
            upper,
            sf,
            is_top,
            is_right,
            is_bottom,
            is_left,
        );
        let t = tpls[k - 1];
        if spec_gate_pass(t.gate, is_top, is_right, is_bottom, is_left) {
            rest.push(
                Edge {
                    start: spec_resolve(t.s, cands, tl, tr, br, bl, lower, upper, sf),
                    end: spec_resolve(t.e, cands, tl, tr, br, bl, lower, upper, sf),
                    move_dir: t.mv,
                },
            )
        } else {
            rest
        }
    }
}

/// The full edge list of one cell for one configuration code: the catalog
/// templates of the code under the cell's saddle regime, resolved against
/// the candidate list, gated by the cell's boundary position.  Blank and
/// unknown codes, and cells whose candidates collapsed below the family's
/// arity, give the empty list.
pub open spec fn spec_cell_edges(
    config: int,
    tl: GridPoint,
    tr: GridPoint,
    br: GridPoint,
    bl: GridPoint,
    lower: int,
    upper: int,
    sf: int,
    is_top: bool,
    is_right: bool,
    is_bottom: bool,
    is_left: bool,
) -> Seq<Edge> {
    let regime = spec_regime(
        tl.value as int,
        tr.value as int,
        br.value as int,
        bl.value as int,
        lower,
        upper,
    );
    let tpls = spec_templates(config, regime);
    let cands = spec_candidates(tl, tr, br, bl, lower, upper, sf);
    if spec_templates_ok(tpls, cands.len() as int) {
        spec_build_upto(
            tpls,
            tpls.len() as int,
            cands,
            tl,
            tr,
            br,
            bl,
            lower,
            upper,
            sf,
            is_top,
            is_right,
            is_bottom,
            is_left,
        )
    } else {
        Seq::<Edge>::empty()
    }
}

/// Every endpoint of every edge lies on the admissible lattice.
pub open spec fn edges_in_range(s: Seq<Edge>) -> bool {
    forall|i: int|
        0 <= i < s.len() ==> point_in_range((#[trigger] s[i]).start) && point_in_range(s[i].end)
}

/// A threshold crossing lies on the admissible lattice.
proof fn lemma_side_cross_in_range(
    lv: LevelSel,
    sd: Side,
    tl: GridPoint,
    tr: GridPoint,
    br: GridPoint,
    bl: GridPoint,
    lower: int,
    upper: int,
    sf: int,
)
    requires
        grid_point_valid(tl),
        grid_point_valid(tr),
        grid_point_valid(br),
        grid_point_valid(bl),
        0 <= sf <= 1000,
    ensures
        point_in_range(spec_side_cross(lv, sd, tl, tr, br, bl, lower, upper, sf)),
{
    let (a, b) = spec_side_ends(sd, tl, tr, br, bl);
    let level = match lv {
        LevelSel::Lower => lower,
        LevelSel::Upper => upper,
    };
    crate::interpolate::lemma_interpolate_between(
        clamp_level(level, a.value as int, b.value as int),
        a.value as int,
        b.value as int,
        spec_pt_of(a),
        spec_pt_of(b),
        sf,
    );
}

/// Every candidate point lies on the admissible lattice.
proof fn lemma_candidates_in_range(
    k: int,
    tl: GridPoint,
    tr: GridPoint,
    br: GridPoint,
    bl: GridPoint,
    lower: int,
    upper: int,
    sf: int,
)
    requires
        grid_point_valid(tl),
        grid_point_valid(tr),
        grid_point_valid(br),
        grid_point_valid(bl),
        0 <= sf <= 1000,
    ensures
        forall|i: int|
            0 <= i < spec_candidates_upto(k, tl, tr, br, bl, lower, upper, sf).len()
                ==> point_in_range(
                #[trigger] spec_candidates_upto(k, tl, tr, br, bl, lower, upper, sf)[i],
            ),
    decreases k,
{
    if k > 0 {
        lemma_candidates_in_range(k - 1, tl, tr, br, bl, lower, upper, sf);
        let prev = spec_candidates_upto(k - 1, tl, tr, br, bl, lower, upper, sf);
        let cur = spec_candidates_upto(k, tl, tr, br, bl, lower, upper, sf);
        match spec_candidate(k - 1, tl, tr, br, bl, lower, upper, sf) {
            Option::Some(q) => {
                let (sd, cnr) = spec_slot(k - 1);
                let cv = spec_corner_of(cnr, tl, tr, br, bl).value as int;
                if !spec_side_blank(sd, tl, tr, br, bl, lower, upper) {
                    if cv >= upper {
                        lemma_side_cross_in_range(
                            LevelSel::Upper,
                            sd,
                            tl,
                            tr,
                            br,
                            bl,
                            lower,
                            upper,
                            sf,
                        );
                    } else if cv < lower {
                        lemma_side_cross_in_range(
                            LevelSel::Lower,
                            sd,
                            tl,
                            tr,
                            br,
                            bl,
                            lower,
                            upper,
                            sf,
                        );
                    }
                }
                assert(point_in_range(q));
                assert forall|i: int| 0 <= i < cur.len() implies point_in_range(
                    #[trigger] cur[i],
                ) by {
                    if i < prev.len() {
                        assert(cur[i] == prev[i]);
                    }
                }
            },
            Option::None => {},
        }
    }
}

/// Every built edge's endpoints lie on the admissible lattice.
proof fn lemma_build_in_range(
    tpls: Seq<EdgeTemplate>,
    k: int,
    cands: Seq<Point>,
    tl: GridPoint,
    tr: GridPoint,
    br: GridPoint,
    bl: GridPoint,
    lower: int,
    upper: int,
    sf: int,
    is_top: bool,
    is_right: bool,
    is_bottom: bool,
    is_left: bool,
)
    requires
        grid_point_valid(tl),
        grid_point_valid(tr),
        grid_point_valid(br),
        grid_point_valid(bl),
        0 <= sf <= 1000,
        k <= tpls.len(),
        spec_templates_ok(tpls, cands.len() as int),
        forall|i: int| 0 <= i < cands.len() ==> point_in_range(#[trigger] cands[i]),
    ensures
        edges_in_range(
            spec_build_upto(
                tpls,
                k,
                cands,
                tl,
                tr,
                br,
                bl,
                lower,
                upper,
                sf,
                is_top,
                is_right,
                is_bottom,
                is_left,
            ),
        ),
    decreases k,
{
    if k > 0 {
        lemma_build_in_range(
            tpls,
            k - 1,
            cands,
            tl,
            tr,
            br,
            bl,
            lower,
            upper,
            sf,
            is_top,
            is_right,
            is_bottom,
            is_left,
        );
        let t = tpls[k - 1];
        assert(spec_ref_ok(tpls[k - 1].s, cands.len() as int) && spec_ref_ok(
            tpls[k - 1].e,
            cands.len() as int,
        ));
        lemma_resolve_in_range(t.s, cands, tl, tr, br, bl, lower, upper, sf);
        lemma_resolve_in_range(t.e, cands, tl, tr, br, bl, lower, upper, sf);
        let prev = spec_build_upto(
            tpls,
            k - 1,
            cands,
            tl,
            tr,
            br,
            bl,
            lower,
            upper,
            sf,
            is_top,
            is_right,
            is_bottom,
            is_left,
        );
        let cur = spec_build_upto(
            tpls,
            k,
            cands,
            tl,
            tr,
            br,
            bl,
            lower,
            upper,
            sf,
            is_top,
            is_right,
            is_bottom,
            is_left,
        );
        assert forall|i: int| 0 <= i < cur.len() implies point_in_range(
            (#[trigger] cur[i]).start,
        ) && point_in_range(cur[i].end) by {
            if i < prev.len() {
                assert(cur[i] == prev[i]);
            }
        }
    }
}

/// A resolved endpoint lies on the admissible lattice.
proof fn lemma_resolve_in_range(
    r: PtRef,
    cands: Seq<Point>,
    tl: GridPoint,
    tr: GridPoint,
    br: GridPoint,
    bl: GridPoint,
    lower: int,
    upper: int,
    sf: int,
)
    requires
        grid_point_valid(tl),
        grid_point_valid(tr),
        grid_point_valid(br),
        grid_point_valid(bl),
        0 <= sf <= 1000,
        spec_ref_ok(r, cands.len() as int),
        forall|i: int| 0 <= i < cands.len() ==> point_in_range(#[trigger] cands[i]),
    ensures
        point_in_range(spec_resolve(r, cands, tl, tr, br, bl, lower, upper, sf)),
{
    match r {
        PtRef::Ip(lv, sd) => {
            lemma_side_cross_in_range(lv, sd, tl, tr, br, bl, lower, upper, sf);
        },
        _ => {},
    }
}

/// Keyed insertion of in-range edges keeps every endpoint in range.
proof fn lemma_key_edges_in_range(es: Seq<Edge>, k: int)
    requires
        edges_in_range(es),
        k <= es.len(),
    ensures
        edges_in_range(spec_key_edges_upto(es, k)),
    decreases k,
{
    if k > 0 {
        lemma_key_edges_in_range(es, k - 1);
        let prev = spec_key_edges_upto(es, k - 1);
        let e = es[k - 1];
        lemma_find_start(prev, e.start);
        assert forall|i: int|
            0 <= i < spec_key_insert(prev, e).len() implies point_in_range(
            (#[trigger] spec_key_insert(prev, e)[i]).start,
        ) && point_in_range(spec_key_insert(prev, e)[i].end) by {
            let t = spec_key_insert(prev, e);
            if t[i] != e {
                assert(t[i] == prev[i]);
            }
        }
    }
}

/// No two edges of a cell share a start point.
pub open spec fn shape_wf(edges: Seq<Edge>) -> bool {
    forall|i: int, j: int|
        0 <= i < j < edges.len() ==> (#[trigger] edges[i]).start != (#[trigger] edges[j]).start
}

/// The index of the first edge starting at `p`, or `-1`.
pub open spec fn find_start(s: Seq<Edge>, p: Point) -> int
    decreases s.len(),
{
    if s.len() == 0 {
        -1
    } else if s[0].start == p {
        0
    } else {
        let r = find_start(s.drop_first(), p);
        if r < 0 {
            -1
        } else {
            r + 1
        }
    }
}

/// What `find_start` finds: the first index whose edge starts at `p`, and
/// `-1` exactly when none does.
pub proof fn lemma_find_start(s: Seq<Edge>, p: Point)
    ensures
        find_start(s, p) < 0 ==> forall|i: int| 0 <= i < s.len() ==> (#[trigger] s[i]).start != p,
        find_start(s, p) >= 0 ==> 0 <= find_start(s, p) < s.len() && s[find_start(s, p)].start
            == p,
        find_start(s, p) >= 0 ==> forall|i: int|
            0 <= i < find_start(s, p) ==> (#[trigger] s[i]).start != p,
    decreases s.len(),
{
    if s.len() > 0 && s[0].start != p {
        lemma_find_start(s.drop_first(), p);
        assert forall|i: int| 1 <= i < s.len() implies s[i] == s.drop_first()[i - 1] by {}
    }
}

/// Insert an edge keyed by its start point: replace the edge already
/// starting there, else append.
pub open spec fn spec_key_insert(s: Seq<Edge>, e: Edge) -> Seq<Edge> {
    let i = find_start(s, e.start);
    if i >= 0 {
        s.update(i, e)
    } else {
        s.push(e)
    }
}

/// Keyed insertion preserves start uniqueness.
pub proof fn lemma_key_insert_wf(s: Seq<Edge>, e: Edge)
    requires
        shape_wf(s),
    ensures
        shape_wf(spec_key_insert(s, e)),
{
    lemma_find_start(s, e.start);
}

/// The edge list after keyed insertion of the first `k` edges.
pub open spec fn spec_key_edges_upto(es: Seq<Edge>, k: int) -> Seq<Edge>
    decreases k,
{
    if k <= 0 {
        Seq::<Edge>::empty()
    } else {
        spec_key_insert(spec_key_edges_upto(es, k - 1), es[k - 1])
    }
}

/// The edge list after keyed insertion of a whole edge sequence: later
/// edges replace earlier ones with the same start.
pub open spec fn spec_key_edges(es: Seq<Edge>) -> Seq<Edge> {
    spec_key_edges_upto(es, es.len() as int)
}

/// Keyed insertion of any sequence yields unique starts.
pub proof fn lemma_key_edges_wf(es: Seq<Edge>, k: int)
    ensures
        shape_wf(spec_key_edges_upto(es, k)),
    decreases k,
{
    if k <= 0 {
    } else {
        lemma_key_edges_wf(es, k - 1);
        lemma_key_insert_wf(spec_key_edges_upto(es, k - 1), es[k - 1]);
    }
}

/// The edge set of one classified cell, addressable by start point.
///
/// Invariant: no two edges share a start point; lookup by start is
/// unambiguous.
#[derive(Clone, Debug)]
pub struct CellShape {
    /// The edges, in catalog emission order, starts pairwise distinct.
    pub edges: Vec<Edge>,
}

impl CellShape {
    /// Build a cell shape from an edge list, keyed by start point: a later
    /// edge replaces an earlier one with the same start.
    pub fn new(edges: Vec<Edge>) -> (r: CellShape)
        ensures
            r.edges@ == spec_key_edges(edges@),
            shape_wf(r.edges@),
    {
        let mut acc: Vec<Edge> = Vec::new();
        let mut i: usize = 0;
        while i < edges.len()
            invariant
                i <= edges@.len(),
                acc@ == spec_key_edges_upto(edges@, i as int),
            decreases edges@.len() - i,
        {
            key_insert(&mut acc, edges[i]);
            i = i + 1;
        }
        proof {
            lemma_key_edges_wf(edges@, edges@.len() as int);
        }
        CellShape { edges: acc }
    }

    /// Build the edge set for one cell from its configuration code, corner
    /// samples, threshold pair and boundary position; `None` when the cell
    /// contributes no edges.
    pub fn from_config(
        config: CellConfig,
        tl: &GridPoint,
        tr: &GridPoint,
        br: &GridPoint,
        bl: &GridPoint,
        lower: i64,
        upper: i64,
        smoothing: SmoothingFactor,
        is_top_edge: bool,
        is_right_edge: bool,
        is_bottom_edge: bool,
        is_left_edge: bool,
    ) -> (r: Option<CellShape>)
        requires
            grid_point_valid(*tl),
            grid_point_valid(*tr),
            grid_point_valid(*br),
            grid_point_valid(*bl),
            value_in_range(lower as int),
            value_in_range(upper as int),
            lower <= upper,
            smoothing_in_range(smoothing),
        ensures
            ({
                let es = spec_cell_edges(
                    config as int,
                    *tl,
                    *tr,
                    *br,
                    *bl,
                    lower as int,
                    upper as int,
                    smoothing.0 as int,
                    is_top_edge,
                    is_right_edge,
                    is_bottom_edge,
                    is_left_edge,
                );
                match r {
                    Option::None => es.len() == 0,
                    Option::Some(s) => es.len() > 0 && s.edges@ == spec_key_edges(es) && shape_wf(
                        s.edges@,
                    ) && edges_in_range(s.edges@),
                }
            }),
    {
        let ghost es_spec = spec_cell_edges(
            config as int,
            *tl,
            *tr,
            *br,
            *bl,
            lower as int,
            upper as int,
            smoothing.0 as int,
            is_top_edge,
            is_right_edge,
            is_bottom_edge,
            is_left_edge,
        );
        let regime = calculate_regime(tl, tr, br, bl, lower, upper);
        let tpls = templates(config, regime);
        let cands = collect_candidates(tl, tr, br, bl, lower, upper, smoothing);

        // Check that every candidate reference is within the list.
        let mut ok = true;
        let mut i: usize = 0;
        while i < tpls.len()
            invariant
                i <= tpls@.len(),
                ok ==> forall|k: int|
                    0 <= k < i ==> #[trigger] spec_ref_ok(tpls@[k].s, cands@.len() as int)
                        && spec_ref_ok(tpls@[k].e, cands@.len() as int),
                !ok ==> !spec_templates_ok(tpls@, cands@.len() as int),
            decreases tpls@.len() - i,
        {
            let t = &tpls[i];
            let s_ok = match t.s {
                PtRef::Cand(ci) => (ci as usize) < cands.len(),
                _ => true,
            };
            let e_ok = match t.e {
                PtRef::Cand(ci) => (ci as usize) < cands.len(),
                _ => true,
            };
            proof {
                assert(s_ok == spec_ref_ok(tpls@[i as int].s, cands@.len() as int));
                assert(e_ok == spec_ref_ok(tpls@[i as int].e, cands@.len() as int));
            }
            let prev_ok = ok;
            ok = ok && s_ok && e_ok;
            proof {
                if ok {
                    assert forall|k: int| 0 <= k < i + 1 implies #[trigger] spec_ref_ok(
                        tpls@[k].s,
                        cands@.len() as int,
                    ) && spec_ref_ok(tpls@[k].e, cands@.len() as int) by {
                        if k < i {
                            assert(prev_ok);
                        }
                    }
                }
            }
            i = i + 1;
        }
        if !ok {
            assert(!spec_templates_ok(tpls@, cands@.len() as int));
            assert(es_spec.len() == 0);
            return Option::None;
        }
        assert(spec_templates_ok(tpls@, cands@.len() as int));

        let mut edges: Vec<Edge> = Vec::new();
        let mut ti: usize = 0;
        while ti < tpls.len()
            invariant
                ti <= tpls@.len(),
                grid_point_valid(*tl),
                grid_point_valid(*tr),
                grid_point_valid(*br),
                grid_point_valid(*bl),
                value_in_range(lower as int),
                value_in_range(upper as int),
                smoothing_in_range(smoothing),
                spec_templates_ok(tpls@, cands@.len() as int),
                cands@ == spec_candidates(
                    *tl,
                    *tr,
                    *br,
                    *bl,
                    lower as int,
                    upper as int,
                    smoothing.0 as int,
                ),
                edges@ == spec_build_upto(
                    tpls@,
                    ti as int,
                    cands@,
                    *tl,
                    *tr,
                    *br,
                    *bl,
                    lower as int,
                    upper as int,
                    smoothing.0 as int,
                    is_top_edge,
                    is_right_edge,
                    is_bottom_edge,
                    is_left_edge,
                ),
            decreases tpls@.len() - ti,
        {
            let t = tpls[ti];
            let pass = match t.gate {
                Gate::Always => true,
                Gate::Top => is_top_edge,
                Gate::Right => is_right_edge,
                Gate::Bottom => is_bottom_edge,
                Gate::Left => is_left_edge,
            };
            if pass {
                assert(spec_ref_ok(tpls@[ti as int].s, cands@.len() as int) && spec_ref_ok(
                    tpls@[ti as int].e,
                    cands@.len() as int,
                ));
                let sp = resolve_ref(t.s, &cands, tl, tr, br, bl, lower, upper, smoothing);
                let ep = resolve_ref(t.e, &cands, tl, tr, br, bl, lower, upper, smoothing);
                edges.push(Edge { start: sp, end: ep, move_dir: t.mv });
            }
            ti = ti + 1;
        }
        if edges.len() == 0 {
            Option::None
        } else {
            proof {
                lemma_candidates_in_range(
                    8,
                    *tl,
                    *tr,
                    *br,
                    *bl,
                    lower as int,
                    upper as int,
                    smoothing.0 as int,
                );
                lemma_build_in_range(
                    tpls@,
                    tpls@.len() as int,
                    cands@,
                    *tl,
                    *tr,
                    *br,
                    *bl,
                    lower as int,
                    upper as int,
                    smoothing.0 as int,
                    is_top_edge,
                    is_right_edge,
                    is_bottom_edge,
                    is_left_edge,
                );
                lemma_key_edges_in_range(edges@, edges@.len() as int);
            }
            Option::Some(CellShape::new(edges))
        }
    }
}

/// Resolve an endpoint reference against the candidate list and cell data.
fn resolve_ref(
    r: PtRef,
    cands: &Vec<Point>,
    tl: &GridPoint,
    tr: &GridPoint,
    br: &GridPoint,
    bl: &GridPoint,
    lower: i64,
    upper: i64,
    smoothing: SmoothingFactor,
) -> (p: Point)
    requires
        grid_point_valid(*tl),
        grid_point_valid(*tr),
        grid_point_valid(*br),
        grid_point_valid(*bl),
        value_in_range(lower as int),
        value_in_range(upper as int),
        smoothing_in_range(smoothing),
        spec_ref_ok(r, cands@.len() as int),
    ensures
        p == spec_resolve(
            r,
            cands@,
            *tl,
            *tr,
            *br,
            *bl,
            lower as int,
            upper as int,
            smoothing.0 as int,
        ),
{
    match r {
        PtRef::Cand(i) => cands[i as usize],
        PtRef::Ip(lv, sd) => side_cross(lv, sd, tl, tr, br, bl, lower, upper, smoothing),
        PtRef::Corner(c) => {
            let g = match c {
                CornerSel::TL => tl,
                CornerSel::TR => tr,
                CornerSel::BR => br,
                CornerSel::BL => bl,
            };
            Point { x: g.lon, y: g.lat }
        },
    }
}

/// Insert an edge into the list keyed by start point: replace the first
/// edge with the same start, else append.
fn key_insert(edges: &mut Vec<Edge>, e: Edge)
    ensures
        final(edges)@ == spec_key_insert(old(edges)@, e),
{
    proof {
        lemma_find_start(old(edges)@, e.start);
    }
    let mut i: usize = 0;
    while i < edges.len()
        invariant
            i <= edges@.len(),
            edges@ == old(edges)@,
            forall|k: int| 0 <= k < i ==> (#[trigger] edges@[k]).start != e.start,
        decreases edges@.len() - i,
    {
        if edges[i].same_start(&e) {
            proof {
                lemma_find_start(edges@, e.start);
                assert(find_start(edges@, e.start) == i as int);
            }
            edges.set(i, e);
            return;
        }
        i = i + 1;
    }
    edges.push(e);
}

impl Edge {
    /// Whether this edge starts at the same point as another.
    fn same_start(&self, other: &Edge) -> (r: bool)
        ensures
            r == (self.start == other.start),
    {
        self.start.x == other.start.x && self.start.y == other.start.y
    }
}

/// A cell whose four corner values all lie strictly on one outer side of
/// the threshold pair classifies as blank: its code is `0` or `170` and it
/// contributes no edges.
pub proof fn lemma_one_sided_cell_is_blank(
    tl: GridPoint,
    tr: GridPoint,
    br: GridPoint,
    bl: GridPoint,
    lower: int,
    upper: int,
    sf: int,
    is_top: bool,
    is_right: bool,
    is_bottom: bool,
    is_left: bool,
)
    requires
        ((tl.value as int) < lower && (tr.value as int) < lower && (br.value as int) < lower && (
        bl.value as int) < lower) || ((tl.value as int) >= upper && (tr.value as int) >= upper && (
        br.value as int) >= upper && (bl.value as int) >= upper),
        lower <= upper,
    ensures
        ({
            let code = spec_cell_config(
                tl.value as int,
                tr.value as int,
                br.value as int,
                bl.value as int,
                lower,
                upper,
            );
            &&& (code == 0 || code == 170)
            &&& spec_cell_edges(
                code,
                tl,
                tr,
                br,
                bl,
                lower,
                upper,
                sf,
                is_top,
                is_right,
                is_bottom,
                is_left,
            ) == Seq::<Edge>::empty()
        }),
{
    let code = spec_cell_config(
        tl.value as int,
        tr.value as int,
        br.value as int,
        bl.value as int,
        lower,
        upper,
    );
    let regime = spec_regime(
        tl.value as int,
        tr.value as int,
        br.value as int,
        bl.value as int,
        lower,
        upper,
    );
    assert(spec_templates(code, regime) == Seq::<EdgeTemplate>::empty());
}

} // verus!
