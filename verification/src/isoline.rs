//! Per-cell classification for isolines: the binary corner test against a
//! single level and the 16-entry segment table.
//!
//! Isoline cells contribute open polyline segments, not traced edges: each
//! cell yields up to two segments between the sides its corners straddle.

use vstd::prelude::*;

use crate::cell_shapes::{clamp_level, spec_pt_of, spec_side_ends};
use crate::interpolate::{interpolate_point, spec_interpolate};
use crate::types::{
    grid_point_valid, point_in_range, smoothing_in_range, value_in_range, GridPoint, Point, Side,
    SmoothingFactor,
};

verus! {

/// One corner's state against the level: `1` at or above, `0` below.
pub open spec fn spec_corner_above(v: int, level: int) -> int {
    if v >= level {
        1
    } else {
        0
    }
}

/// The 4-bit isoline configuration code:
/// `TL*8 + TR*4 + BR*2 + BL*1`.
pub open spec fn spec_isoline_config(tl: int, tr: int, br: int, bl: int, level: int) -> int {
    8 * spec_corner_above(tl, level) + 4 * spec_corner_above(tr, level) + 2 * spec_corner_above(
        br,
        level,
    ) + spec_corner_above(bl, level)
}

/// Compute the isoline configuration code of a cell.
pub fn calculate_isoline_config(
    tl: &GridPoint,
    tr: &GridPoint,
    br: &GridPoint,
    bl: &GridPoint,
    level: i64,
) -> (r: u8)
    ensures
        r as int == spec_isoline_config(
            tl.value as int,
            tr.value as int,
            br.value as int,
            bl.value as int,
            level as int,
        ),
{
    let mut config: u8 = 0;
    if tl.value >= level {
        config = config + 8;
    }
    if tr.value >= level {
        config = config + 4;
    }
    if br.value >= level {
        config = config + 2;
    }
    if bl.value >= level {
        config = config + 1;
    }
    config
}

/// The level crossing on one side of a cell, at the clamped level.
pub open spec fn spec_iso_cross(
    sd: Side,
    tl: GridPoint,
    tr: GridPoint,
    br: GridPoint,
    bl: GridPoint,
    level: int,
    sf: int,
) -> Point {
    let (a, b) = spec_side_ends(sd, tl, tr, br, bl);
    spec_interpolate(
        clamp_level(level, a.value as int, b.value as int),
        a.value as int,
        b.value as int,
        spec_pt_of(a),
        spec_pt_of(b),
        sf,
    )
}

/// Whether the four-corner average lies at or above the level.
pub open spec fn spec_iso_above_avg(tl: int, tr: int, br: int, bl: int, level: int) -> bool {
    tl + tr + br + bl >= 4 * level
}

/// The open polyline segments of one isoline cell, by configuration code.
/// Codes `0` and `15` are blank; the two saddle codes `5` and `10` pick
/// their diagonal pairing by the four-corner average.
pub open spec fn spec_isoline_segments(
    config: int,
    tl: GridPoint,
    tr: GridPoint,
    br: GridPoint,
    bl: GridPoint,
    level: int,
    sf: int,
) -> Seq<Seq<Point>> {
    let t = spec_iso_cross(Side::Top, tl, tr, br, bl, level, sf);
    let r = spec_iso_cross(Side::Right, tl, tr, br, bl, level, sf);
    let b = spec_iso_cross(Side::Bottom, tl, tr, br, bl, level, sf);
    let l = spec_iso_cross(Side::Left, tl, tr, br, bl, level, sf);
    if config == 1 || config == 14 {
        seq![seq![l, b]]
    } else if config == 2 || config == 13 {
        seq![seq![b, r]]
    } else if config == 3 || config == 12 {
        seq![seq![l, r]]
    } else if config == 4 || config == 11 {
        seq![seq![r, t]]
    } else if config == 5 {
        if spec_iso_above_avg(tl.value as int, tr.value as int, br.value as int, bl.value as int, level) {
            seq![seq![l, b], seq![r, t]]
        } else {
            seq![seq![l, t], seq![b, r]]
        }
    } else if config == 6 || config == 9 {
        seq![seq![t, b]]
    } else if config == 7 || config == 8 {
        seq![seq![t, l]]
    } else if config == 10 {
        if spec_iso_above_avg(tl.value as int, tr.value as int, br.value as int, bl.value as int, level) {
            seq![seq![t, l], seq![b, r]]
        } else {
            seq![seq![t, r], seq![b, l]]
        }
    } else {
        Seq::<Seq<Point>>::empty()
    }
}

/// Compute the level crossing on one side of a cell.
fn iso_cross(
    sd: Side,
    tl: &GridPoint,
    tr: &GridPoint,
    br: &GridPoint,
    bl: &GridPoint,
    level: i64,
    smoothing: SmoothingFactor,
) -> (r: Point)
    requires
        grid_point_valid(*tl),
        grid_point_valid(*tr),
        grid_point_valid(*br),
        grid_point_valid(*bl),
        value_in_range(level as int),
        smoothing_in_range(smoothing),
    ensures
        r == spec_iso_cross(sd, *tl, *tr, *br, *bl, level as int, smoothing.0 as int),
        point_in_range(r),
{
    let (a, b) = match sd {
        Side::Top => (tl, tr),
        Side::Right => (tr, br),
        Side::Bottom => (bl, br),
        Side::Left => (tl, bl),
    };
    let clamped: i64 = if a.value <= b.value {
        if level < a.value {
            a.value
        } else if level > b.value {
            b.value
        } else {
            level
        }
    } else {
        if level < b.value {
            b.value
        } else if level > a.value {
            a.value
        } else {
            level
        }
    };
    let pa = Point { x: a.lon, y: a.lat };
    let pb = Point { x: b.lon, y: b.lat };
    interpolate_point(clamped, a.value, b.value, &pa, &pb, smoothing)
}

/// The line segments of one isoline cell for a configuration code; `None`
/// when the cell contributes none.
pub fn get_isoline_segments(
    config: u8,
    tl: &GridPoint,
    tr: &GridPoint,
    br: &GridPoint,
    bl: &GridPoint,
    level: i64,
    smoothing: SmoothingFactor,
) -> (r: Option<Vec<Vec<Point>>>)
    requires
        grid_point_valid(*tl),
        grid_point_valid(*tr),
        grid_point_valid(*br),
        grid_point_valid(*bl),
        value_in_range(level as int),
        smoothing_in_range(smoothing),
    ensures
        ({
            let segs = spec_isoline_segments(
                config as int,
                *tl,
                *tr,
                *br,
                *bl,
                level as int,
                smoothing.0 as int,
            );
            match r {
                Option::None => segs.len() == 0,
                Option::Some(v) => v@.len() == segs.len() && forall|i: int|
                    0 <= i < segs.len() ==> (#[trigger] v@[i])@ == segs[i],
            }
        }),
{
    if config == 0 || config == 15 || config > 15 {
        return Option::None;
    }
    let t = iso_cross(Side::Top, tl, tr, br, bl, level, smoothing);
    let rr = iso_cross(Side::Right, tl, tr, br, bl, level, smoothing);
    let b = iso_cross(Side::Bottom, tl, tr, br, bl, level, smoothing);
    let l = iso_cross(Side::Left, tl, tr, br, bl, level, smoothing);
    let segs: Vec<Vec<Point>> = if config == 1 || config == 14 {
        vec![vec![l, b]]
    } else if config == 2 || config == 13 {
        vec![vec![b, rr]]
    } else if config == 3 || config == 12 {
        vec![vec![l, rr]]
    } else if config == 4 || config == 11 {
        vec![vec![rr, t]]
    } else if config == 5 {
        let sum: i64 = tl.value + tr.value + br.value + bl.value;
        if sum >= 4 * level {
            vec![vec![l, b], vec![rr, t]]
        } else {
            vec![vec![l, t], vec![b, rr]]
        }
    } else if config == 6 || config == 9 {
        vec![vec![t, b]]
    } else if config == 7 || config == 8 {
        vec![vec![t, l]]
    } else {
        let sum: i64 = tl.value + tr.value + br.value + bl.value;
        if sum >= 4 * level {
            vec![vec![t, l], vec![b, rr]]
        } else {
            vec![vec![t, rr], vec![b, l]]
        }
    };
    Option::Some(segs)
}

/// A cell whose four corner values all lie strictly on one side of the
/// level classifies as blank: its code is `0` or `15` and it contributes
/// no segments.
pub proof fn lemma_one_sided_isoline_is_blank(
    tl: GridPoint,
    tr: GridPoint,
    br: GridPoint,
    bl: GridPoint,
    level: int,
    sf: int,
)
    requires
        ((tl.value as int) < level && (tr.value as int) < level && (br.value as int) < level && (
        bl.value as int) < level) || ((tl.value as int) >= level && (tr.value as int) >= level && (
        br.value as int) >= level && (bl.value as int) >= level),
    ensures
        ({
            let code = spec_isoline_config(
                tl.value as int,
                tr.value as int,
                br.value as int,
                bl.value as int,
                level,
            );
            &&& (code == 0 || code == 15)
            &&& spec_isoline_segments(code, tl, tr, br, bl, level, sf) == Seq::<Seq<Point>>::empty()
        }),
{
}

} // verus!
