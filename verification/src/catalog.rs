//! The local-topology catalog: which directed edges a cell contributes,
//! for every configuration code of the three-state (below, between, above)
//! corner classification.
//!
//! The catalog is data: each code maps to a list of edge templates.  A
//! template names its two endpoints — a candidate index for the ordinary
//! shape families, or a threshold crossing / corner for the saddle and
//! square families — together with the tracer move and the boundary gate
//! that decides whether the edge is emitted at all.  Saddle codes carry one
//! template list per regime of the four-corner average.

use vstd::prelude::*;

use crate::types::{Move, Side};

verus! {

/// Which of the two band thresholds a crossing is interpolated at.
#[derive(Clone, Copy, Debug, PartialEq, Eq, Structural)]
pub enum LevelSel {
    Lower,
    Upper,
}

/// One of the four cell corners.
#[derive(Clone, Copy, Debug, PartialEq, Eq, Structural)]
pub enum CornerSel {
    TL,
    TR,
    BR,
    BL,
}

/// A template's way of naming an edge endpoint.
#[derive(Clone, Copy, Debug, PartialEq, Eq, Structural)]
pub enum PtRef {
    /// An index into the cell's deduplicated candidate-point list.
    Cand(u8),
    /// The crossing of one threshold on one side of the cell.
    Ip(LevelSel, Side),
    /// A corner position of the cell.
    Corner(CornerSel),
}

/// When an edge template is emitted: always, or only when the cell lies on
/// the named boundary of the grid.
#[derive(Clone, Copy, Debug, PartialEq, Eq, Structural)]
pub enum Gate {
    Always,
    Top,
    Right,
    Bottom,
    Left,
}

/// One catalog entry: an edge from `s` to `e`, with the tracer move `mv`,
/// emitted when `gate` passes.
#[derive(Clone, Copy, Debug, PartialEq, Eq, Structural)]
pub struct EdgeTemplate {
    /// Start of the edge.
    pub s: PtRef,
    /// End of the edge.
    pub e: PtRef,
    /// Where the tracer continues after this edge.
    pub mv: Move,
    /// Boundary condition under which the edge is emitted.
    pub gate: Gate,
}

/// Regime of the four-corner average for the saddle families.
#[derive(Clone, Copy, Debug, PartialEq, Eq, Structural)]
pub enum Regime {
    /// Average below the lower threshold.
    Low,
    /// Average between the thresholds.
    Mid,
    /// Average at or above the upper threshold.
    High,
}

/// Template constructor, for the catalog text.
pub open spec fn et(s: PtRef, e: PtRef, mv: Move, gate: Gate) -> EdgeTemplate {
    EdgeTemplate { s, e, mv, gate }
}

/// Candidate-index endpoint, for the catalog text.
pub open spec fn cand(i: int) -> PtRef {
    PtRef::Cand(i as u8)
}

/// Threshold-crossing endpoint, for the catalog text.
pub open spec fn ip(l: LevelSel, sd: Side) -> PtRef {
    PtRef::Ip(l, sd)
}

/// Corner endpoint, for the catalog text.
pub open spec fn corner(c: CornerSel) -> PtRef {
    PtRef::Corner(c)
}

/// The opposite saddle regime: reflecting the values about the thresholds
/// turns an average below the lower threshold into one at or above the
/// upper, and keeps the middle regime.
pub open spec fn flip_regime(r: Regime) -> Regime {
    match r {
        Regime::Low => Regime::High,
        Regime::Mid => Regime::Mid,
        Regime::High => Regime::Low,
    }
}

/// Exchange the lower and upper thresholds in an endpoint reference.
pub open spec fn swap_ref(p: PtRef) -> PtRef {
    match p {
        PtRef::Ip(LevelSel::Lower, sd) => PtRef::Ip(LevelSel::Upper, sd),
        PtRef::Ip(LevelSel::Upper, sd) => PtRef::Ip(LevelSel::Lower, sd),
        other => other,
    }
}

/// Exchange the lower and upper thresholds in a template.
pub open spec fn swap_template(t: EdgeTemplate) -> EdgeTemplate {
    EdgeTemplate { s: swap_ref(t.s), e: swap_ref(t.e), mv: t.mv, gate: t.gate }
}

/// The edge-template catalog.  Codes `0` and `170` (all corners below, all
/// corners above) and any code outside the 81-value encoding are blank.
pub open spec fn spec_templates(code: int, regime: Regime) -> Seq<EdgeTemplate> {
    if code == 169 || code == 1 {
        seq![
            et(cand(0), cand(1), Move::Left, Gate::Bottom),
            et(cand(1), cand(2), Move::Stay, Gate::Left),
            et(cand(2), cand(0), Move::Down, Gate::Always),
        ]
    } else if code == 166 || code == 4 {
        seq![
            et(cand(0), cand(1), Move::Down, Gate::Right),
            et(cand(1), cand(2), Move::Stay, Gate::Bottom),
            et(cand(2), cand(0), Move::Right, Gate::Always),
        ]
    } else if code == 154 || code == 16 {
        seq![
            et(cand(0), cand(1), Move::Stay, Gate::Right),
            et(cand(1), cand(2), Move::Up, Gate::Always),
            et(cand(2), cand(0), Move::Right, Gate::Top),
        ]
    } else if code == 106 || code == 64 {
        seq![
            et(cand(0), cand(1), Move::Left, Gate::Always),
            et(cand(1), cand(2), Move::Up, Gate::Left),
            et(cand(2), cand(0), Move::Stay, Gate::Top),
        ]
    } else if code == 101 || code == 69 {
        seq![
            et(cand(0), cand(1), Move::Right, Gate::Always),
            et(cand(1), cand(2), Move::Down, Gate::Right),
            et(cand(2), cand(3), Move::Left, Gate::Bottom),
            et(cand(3), cand(4), Move::Up, Gate::Left),
            et(cand(4), cand(0), Move::Stay, Gate::Top),
        ]
    } else if code == 149 || code == 21 {
        seq![
            et(cand(0), cand(1), Move::Down, Gate::Right),
            et(cand(1), cand(2), Move::Left, Gate::Bottom),
            et(cand(2), cand(3), Move::Stay, Gate::Left),
            et(cand(3), cand(4), Move::Up, Gate::Always),
            et(cand(4), cand(0), Move::Right, Gate::Top),
        ]
    } else if code == 86 || code == 84 {
        seq![
            et(cand(0), cand(1), Move::Down, Gate::Right),
            et(cand(1), cand(2), Move::Stay, Gate::Bottom),
            et(cand(2), cand(3), Move::Left, Gate::Always),
            et(cand(3), cand(4), Move::Up, Gate::Left),
            et(cand(4), cand(0), Move::Right, Gate::Top),
        ]
    } else if code == 89 || code == 81 {
        seq![
            et(cand(0), cand(1), Move::Stay, Gate::Right),
            et(cand(1), cand(2), Move::Down, Gate::Always),
            et(cand(2), cand(3), Move::Left, Gate::Bottom),
            et(cand(3), cand(4), Move::Up, Gate::Left),
            et(cand(4), cand(0), Move::Right, Gate::Top),
        ]
    } else if code == 96 || code == 74 {
        seq![
            et(cand(0), cand(1), Move::Right, Gate::Always),
            et(cand(1), cand(2), Move::Stay, Gate::Right),
            et(cand(2), cand(3), Move::Left, Gate::Always),
            et(cand(3), cand(4), Move::Up, Gate::Left),
            et(cand(4), cand(0), Move::Stay, Gate::Top),
        ]
    } else if code == 24 || code == 146 {
        seq![
            et(cand(0), cand(1), Move::Stay, Gate::Right),
            et(cand(1), cand(2), Move::Down, Gate::Always),
            et(cand(2), cand(3), Move::Stay, Gate::Bottom),
            et(cand(3), cand(4), Move::Up, Gate::Always),
            et(cand(4), cand(0), Move::Right, Gate::Top),
        ]
    } else if code == 6 || code == 164 {
        seq![
            et(cand(0), cand(1), Move::Down, Gate::Right),
            et(cand(1), cand(2), Move::Stay, Gate::Bottom),
            et(cand(2), cand(3), Move::Left, Gate::Always),
            et(cand(3), cand(4), Move::Stay, Gate::Left),
            et(cand(4), cand(0), Move::Right, Gate::Always),
        ]
    } else if code == 129 || code == 41 {
        seq![
            et(cand(0), cand(1), Move::Down, Gate::Always),
            et(cand(1), cand(2), Move::Left, Gate::Bottom),
            et(cand(2), cand(3), Move::Stay, Gate::Left),
            et(cand(3), cand(4), Move::Up, Gate::Always),
            et(cand(4), cand(0), Move::Stay, Gate::Top),
        ]
    } else if code == 66 || code == 104 {
        seq![
            et(cand(0), cand(1), Move::Down, Gate::Always),
            et(cand(1), cand(2), Move::Stay, Gate::Bottom),
            et(cand(2), cand(3), Move::Left, Gate::Always),
            et(cand(3), cand(4), Move::Up, Gate::Left),
            et(cand(4), cand(0), Move::Stay, Gate::Top),
        ]
    } else if code == 144 || code == 26 {
        seq![
            et(cand(0), cand(1), Move::Stay, Gate::Right),
            et(cand(1), cand(2), Move::Left, Gate::Always),
            et(cand(2), cand(3), Move::Stay, Gate::Left),
            et(cand(3), cand(4), Move::Up, Gate::Always),
            et(cand(4), cand(0), Move::Right, Gate::Top),
        ]
    } else if code == 36 || code == 134 {
        seq![
            et(cand(0), cand(1), Move::Right, Gate::Always),
            et(cand(1), cand(2), Move::Down, Gate::Right),
            et(cand(2), cand(3), Move::Stay, Gate::Bottom),
            et(cand(3), cand(4), Move::Up, Gate::Always),
            et(cand(4), cand(0), Move::Stay, Gate::Top),
        ]
    } else if code == 9 || code == 161 {
        seq![
            et(cand(0), cand(1), Move::Stay, Gate::Right),
            et(cand(1), cand(2), Move::Down, Gate::Always),
            et(cand(2), cand(3), Move::Left, Gate::Bottom),
            et(cand(3), cand(4), Move::Stay, Gate::Left),
            et(cand(4), cand(0), Move::Right, Gate::Always),
        ]
    } else if code == 5 || code == 165 {
        seq![
            et(cand(0), cand(1), Move::Down, Gate::Right),
            et(cand(1), cand(2), Move::Left, Gate::Bottom),
            et(cand(2), cand(3), Move::Stay, Gate::Left),
            et(cand(3), cand(0), Move::Right, Gate::Always),
        ]
    } else if code == 20 || code == 150 {
        seq![
            et(cand(0), cand(1), Move::Down, Gate::Right),
            et(cand(1), cand(2), Move::Stay, Gate::Bottom),
            et(cand(2), cand(3), Move::Up, Gate::Always),
            et(cand(3), cand(0), Move::Right, Gate::Top),
        ]
    } else if code == 80 || code == 90 {
        seq![
            et(cand(0), cand(1), Move::Stay, Gate::Right),
            et(cand(1), cand(2), Move::Left, Gate::Always),
            et(cand(2), cand(3), Move::Up, Gate::Left),
            et(cand(3), cand(0), Move::Right, Gate::Top),
        ]
    } else if code == 65 || code == 105 {
        seq![
            et(cand(0), cand(1), Move::Down, Gate::Always),
            et(cand(1), cand(2), Move::Left, Gate::Bottom),
            et(cand(2), cand(3), Move::Up, Gate::Left),
            et(cand(3), cand(0), Move::Stay, Gate::Top),
        ]
    } else if code == 160 || code == 10 {
        seq![
            et(cand(0), cand(1), Move::Stay, Gate::Right),
            et(cand(1), cand(2), Move::Left, Gate::Always),
            et(cand(2), cand(3), Move::Stay, Gate::Left),
            et(cand(3), cand(0), Move::Right, Gate::Always),
        ]
    } else if code == 130 || code == 40 {
        seq![
            et(cand(0), cand(1), Move::Down, Gate::Always),
            et(cand(1), cand(2), Move::Stay, Gate::Bottom),
            et(cand(2), cand(3), Move::Up, Gate::Always),
            et(cand(3), cand(0), Move::Stay, Gate::Top),
        ]
    } else if code == 168 || code == 2 {
        seq![
            et(cand(0), cand(1), Move::Stay, Gate::Bottom),
            et(cand(1), cand(2), Move::Left, Gate::Always),
            et(cand(2), cand(3), Move::Stay, Gate::Left),
            et(cand(3), cand(0), Move::Down, Gate::Always),
        ]
    } else if code == 162 || code == 8 {
        seq![
            et(cand(0), cand(1), Move::Stay, Gate::Right),
            et(cand(1), cand(2), Move::Down, Gate::Always),
            et(cand(2), cand(3), Move::Stay, Gate::Bottom),
            et(cand(3), cand(0), Move::Right, Gate::Always),
        ]
    } else if code == 138 || code == 32 {
        seq![
            et(cand(0), cand(1), Move::Right, Gate::Always),
            et(cand(1), cand(2), Move::Stay, Gate::Right),
            et(cand(2), cand(3), Move::Up, Gate::Always),
            et(cand(3), cand(0), Move::Stay, Gate::Top),
        ]
    } else if code == 42 || code == 128 {
        seq![
            et(cand(0), cand(1), Move::Left, Gate::Always),
            et(cand(1), cand(2), Move::Stay, Gate::Left),
            et(cand(2), cand(3), Move::Up, Gate::Always),
            et(cand(3), cand(0), Move::Stay, Gate::Top),
        ]
    } else if code == 37 || code == 133 {
        seq![
            et(cand(0), cand(1), Move::Right, Gate::Always),
            et(cand(1), cand(2), Move::Down, Gate::Right),
            et(cand(2), cand(3), Move::Left, Gate::Bottom),
            et(cand(3), cand(4), Move::Stay, Gate::Left),
            et(cand(4), cand(5), Move::Up, Gate::Always),
            et(cand(5), cand(0), Move::Stay, Gate::Top),
        ]
    } else if code == 148 || code == 22 {
        seq![
            et(cand(0), cand(1), Move::Down, Gate::Right),
            et(cand(1), cand(2), Move::Stay, Gate::Bottom),
            et(cand(2), cand(3), Move::Left, Gate::Always),
            et(cand(3), cand(4), Move::Stay, Gate::Left),
            et(cand(4), cand(5), Move::Up, Gate::Always),
            et(cand(5), cand(0), Move::Right, Gate::Top),
        ]
    } else if code == 82 || code == 88 {
        seq![
            et(cand(0), cand(1), Move::Stay, Gate::Right),
            et(cand(1), cand(2), Move::Down, Gate::Always),
            et(cand(2), cand(3), Move::Stay, Gate::Bottom),
            et(cand(3), cand(4), Move::Left, Gate::Always),
            et(cand(4), cand(5), Move::Up, Gate::Left),
            et(cand(5), cand(0), Move::Right, Gate::Top),
        ]
    } else if code == 73 || code == 97 {
        seq![
            et(cand(0), cand(1), Move::Right, Gate::Always),
            et(cand(1), cand(2), Move::Stay, Gate::Right),
            et(cand(2), cand(3), Move::Down, Gate::Always),
            et(cand(3), cand(4), Move::Left, Gate::Bottom),
            et(cand(4), cand(5), Move::Up, Gate::Left),
            et(cand(5), cand(0), Move::Stay, Gate::Top),
        ]
    } else if code == 145 || code == 25 {
        seq![
            et(cand(0), cand(1), Move::Stay, Gate::Right),
            et(cand(1), cand(2), Move::Down, Gate::Always),
            et(cand(2), cand(3), Move::Left, Gate::Bottom),
            et(cand(3), cand(4), Move::Stay, Gate::Left),
            et(cand(4), cand(5), Move::Up, Gate::Always),
            et(cand(5), cand(0), Move::Right, Gate::Top),
        ]
    } else if code == 70 || code == 100 {
        seq![
            et(cand(0), cand(1), Move::Right, Gate::Always),
            et(cand(1), cand(2), Move::Down, Gate::Right),
            et(cand(2), cand(3), Move::Stay, Gate::Bottom),
            et(cand(3), cand(4), Move::Left, Gate::Always),
            et(cand(4), cand(5), Move::Up, Gate::Left),
            et(cand(5), cand(0), Move::Stay, Gate::Top),
        ]
    } else if code == 153 {
        match regime {
            Regime::Low => Seq::<EdgeTemplate>::empty(),
            Regime::Mid => seq![
                et(ip(LevelSel::Upper, Side::Right), ip(LevelSel::Upper, Side::Bottom), Move::Down, Gate::Always),
                et(ip(LevelSel::Upper, Side::Bottom), corner(CornerSel::BL), Move::Left, Gate::Bottom),
                et(corner(CornerSel::BL), ip(LevelSel::Upper, Side::Left), Move::Stay, Gate::Left),
                et(ip(LevelSel::Upper, Side::Left), ip(LevelSel::Upper, Side::Top), Move::Up, Gate::Always),
                et(ip(LevelSel::Upper, Side::Top), corner(CornerSel::TR), Move::Right, Gate::Top),
                et(corner(CornerSel::TR), ip(LevelSel::Upper, Side::Right), Move::Stay, Gate::Right),
            ],
            Regime::High => seq![
                et(ip(LevelSel::Upper, Side::Right), ip(LevelSel::Upper, Side::Top), Move::Up, Gate::Always),
                et(ip(LevelSel::Upper, Side::Top), corner(CornerSel::TR), Move::Right, Gate::Top),
                et(corner(CornerSel::TR), ip(LevelSel::Upper, Side::Right), Move::Stay, Gate::Right),
                et(ip(LevelSel::Upper, Side::Left), ip(LevelSel::Upper, Side::Bottom), Move::Down, Gate::Always),
                et(ip(LevelSel::Upper, Side::Bottom), corner(CornerSel::BL), Move::Left, Gate::Bottom),
                et(corner(CornerSel::BL), ip(LevelSel::Upper, Side::Left), Move::Stay, Gate::Left),
            ],
        }
    } else if code == 102 {
        match regime {
            Regime::Low => Seq::<EdgeTemplate>::empty(),
            Regime::Mid => seq![
                et(ip(LevelSel::Upper, Side::Top), ip(LevelSel::Upper, Side::Right), Move::Right, Gate::Always),
                et(ip(LevelSel::Upper, Side::Right), corner(CornerSel::BR), Move::Down, Gate::Right),
                et(corner(CornerSel::BR), ip(LevelSel::Upper, Side::Bottom), Move::Stay, Gate::Bottom),
                et(ip(LevelSel::Upper, Side::Bottom), ip(LevelSel::Upper, Side::Left), Move::Left, Gate::Always),
                et(ip(LevelSel::Upper, Side::Left), corner(CornerSel::TL), Move::Up, Gate::Left),
                et(corner(CornerSel::TL), ip(LevelSel::Upper, Side::Top), Move::Stay, Gate::Top),
            ],
            Regime::High => seq![
                et(ip(LevelSel::Upper, Side::Top), ip(LevelSel::Upper, Side::Left), Move::Left, Gate::Always),
                et(ip(LevelSel::Upper, Side::Left), corner(CornerSel::TL), Move::Up, Gate::Left),
                et(corner(CornerSel::TL), ip(LevelSel::Upper, Side::Top), Move::Stay, Gate::Top),
                et(ip(LevelSel::Upper, Side::Bottom), ip(LevelSel::Upper, Side::Right), Move::Right, Gate::Always),
                et(ip(LevelSel::Upper, Side::Right), corner(CornerSel::BR), Move::Down, Gate::Right),
                et(corner(CornerSel::BR), ip(LevelSel::Upper, Side::Bottom), Move::Stay, Gate::Bottom),
            ],
        }
    } else if code == 68 {
        match regime {
            Regime::Low => seq![
                et(ip(LevelSel::Lower, Side::Top), ip(LevelSel::Lower, Side::Left), Move::Left, Gate::Always),
                et(ip(LevelSel::Lower, Side::Left), corner(CornerSel::TL), Move::Up, Gate::Left),
                et(corner(CornerSel::TL), ip(LevelSel::Lower, Side::Top), Move::Stay, Gate::Top),
                et(ip(LevelSel::Lower, Side::Bottom), ip(LevelSel::Lower, Side::Right), Move::Right, Gate::Always),
                et(ip(LevelSel::Lower, Side::Right), corner(CornerSel::BR), Move::Down, Gate::Right),
                et(corner(CornerSel::BR), ip(LevelSel::Lower, Side::Bottom), Move::Stay, Gate::Bottom),
            ],
            Regime::Mid => seq![
                et(ip(LevelSel::Lower, Side::Top), ip(LevelSel::Lower, Side::Right), Move::Right, Gate::Always),
                et(ip(LevelSel::Lower, Side::Right), corner(CornerSel::BR), Move::Down, Gate::Right),
                et(corner(CornerSel::BR), ip(LevelSel::Lower, Side::Bottom), Move::Stay, Gate::Bottom),
                et(ip(LevelSel::Lower, Side::Bottom), ip(LevelSel::Lower, Side::Left), Move::Left, Gate::Always),
                et(ip(LevelSel::Lower, Side::Left), corner(CornerSel::TL), Move::Up, Gate::Left),
                et(corner(CornerSel::TL), ip(LevelSel::Lower, Side::Top), Move::Stay, Gate::Top),
            ],
            Regime::High => Seq::<EdgeTemplate>::empty(),
        }
    } else if code == 17 {
        match regime {
            Regime::Low => seq![
                et(ip(LevelSel::Lower, Side::Right), ip(LevelSel::Lower, Side::Top), Move::Up, Gate::Always),
                et(ip(LevelSel::Lower, Side::Top), corner(CornerSel::TR), Move::Right, Gate::Top),
                et(corner(CornerSel::TR), ip(LevelSel::Lower, Side::Right), Move::Stay, Gate::Right),
                et(ip(LevelSel::Lower, Side::Left), ip(LevelSel::Lower, Side::Bottom), Move::Down, Gate::Always),
                et(ip(LevelSel::Lower, Side::Bottom), corner(CornerSel::BL), Move::Left, Gate::Bottom),
                et(corner(CornerSel::BL), ip(LevelSel::Lower, Side::Left), Move::Stay, Gate::Left),
            ],
            Regime::Mid => seq![
                et(ip(LevelSel::Lower, Side::Right), ip(LevelSel::Lower, Side::Bottom), Move::Down, Gate::Always),
                et(ip(LevelSel::Lower, Side::Bottom), corner(CornerSel::BL), Move::Left, Gate::Bottom),
                et(corner(CornerSel::BL), ip(LevelSel::Lower, Side::Left), Move::Stay, Gate::Left),
                et(ip(LevelSel::Lower, Side::Left), ip(LevelSel::Lower, Side::Top), Move::Up, Gate::Always),
                et(ip(LevelSel::Lower, Side::Top), corner(CornerSel::TR), Move::Right, Gate::Top),
                et(corner(CornerSel::TR), ip(LevelSel::Lower, Side::Right), Move::Stay, Gate::Right),
            ],
            Regime::High => Seq::<EdgeTemplate>::empty(),
        }
    } else if code == 136 {
        match regime {
            Regime::Low => seq![
                et(ip(LevelSel::Lower, Side::Top), ip(LevelSel::Lower, Side::Left), Move::Left, Gate::Always),
                et(ip(LevelSel::Lower, Side::Left), ip(LevelSel::Upper, Side::Left), Move::Stay, Gate::Left),
                et(ip(LevelSel::Upper, Side::Left), ip(LevelSel::Upper, Side::Top), Move::Up, Gate::Always),
                et(ip(LevelSel::Upper, Side::Top), ip(LevelSel::Lower, Side::Top), Move::Stay, Gate::Top),
                et(ip(LevelSel::Upper, Side::Right), ip(LevelSel::Upper, Side::Bottom), Move::Down, Gate::Always),
                et(ip(LevelSel::Upper, Side::Bottom), ip(LevelSel::Lower, Side::Bottom), Move::Stay, Gate::Bottom),
                et(ip(LevelSel::Lower, Side::Bottom), ip(LevelSel::Lower, Side::Right), Move::Right, Gate::Always),
                et(ip(LevelSel::Lower, Side::Right), ip(LevelSel::Upper, Side::Right), Move::Stay, Gate::Right),
            ],
            Regime::Mid => seq![
                et(ip(LevelSel::Lower, Side::Top), ip(LevelSel::Lower, Side::Right), Move::Right, Gate::Always),
                et(ip(LevelSel::Lower, Side::Right), ip(LevelSel::Upper, Side::Right), Move::Stay, Gate::Right),
                et(ip(LevelSel::Upper, Side::Right), ip(LevelSel::Upper, Side::Bottom), Move::Down, Gate::Always),
                et(ip(LevelSel::Upper, Side::Bottom), ip(LevelSel::Lower, Side::Bottom), Move::Stay, Gate::Bottom),
                et(ip(LevelSel::Lower, Side::Bottom), ip(LevelSel::Lower, Side::Left), Move::Left, Gate::Always),
                et(ip(LevelSel::Lower, Side::Left), ip(LevelSel::Upper, Side::Left), Move::Stay, Gate::Left),
                et(ip(LevelSel::Upper, Side::Left), ip(LevelSel::Upper, Side::Top), Move::Up, Gate::Always),
                et(ip(LevelSel::Upper, Side::Top), ip(LevelSel::Lower, Side::Top), Move::Stay, Gate::Top),
            ],
            Regime::High => seq![
                et(ip(LevelSel::Lower, Side::Top), ip(LevelSel::Lower, Side::Right), Move::Right, Gate::Always),
                et(ip(LevelSel::Lower, Side::Right), ip(LevelSel::Upper, Side::Right), Move::Stay, Gate::Right),
                et(ip(LevelSel::Upper, Side::Right), ip(LevelSel::Upper, Side::Top), Move::Up, Gate::Always),
                et(ip(LevelSel::Upper, Side::Top), ip(LevelSel::Lower, Side::Top), Move::Stay, Gate::Top),
                et(ip(LevelSel::Lower, Side::Bottom), ip(LevelSel::Lower, Side::Left), Move::Left, Gate::Always),
                et(ip(LevelSel::Lower, Side::Left), ip(LevelSel::Upper, Side::Left), Move::Stay, Gate::Left),
                et(ip(LevelSel::Upper, Side::Left), ip(LevelSel::Upper, Side::Bottom), Move::Down, Gate::Always),
                et(ip(LevelSel::Upper, Side::Bottom), ip(LevelSel::Lower, Side::Bottom), Move::Stay, Gate::Bottom),
            ],
        }
    } else if code == 34 {
        match regime {
            Regime::Low => seq![
                et(ip(LevelSel::Upper, Side::Top), ip(LevelSel::Upper, Side::Right), Move::Right, Gate::Always),
                et(ip(LevelSel::Upper, Side::Right), ip(LevelSel::Lower, Side::Right), Move::Stay, Gate::Right),
                et(ip(LevelSel::Lower, Side::Right), ip(LevelSel::Lower, Side::Top), Move::Up, Gate::Always),
                et(ip(LevelSel::Lower, Side::Top), ip(LevelSel::Upper, Side::Top), Move::Stay, Gate::Top),
                et(ip(LevelSel::Upper, Side::Bottom), ip(LevelSel::Upper, Side::Left), Move::Left, Gate::Always),
                et(ip(LevelSel::Upper, Side::Left), ip(LevelSel::Lower, Side::Left), Move::Stay, Gate::Left),
                et(ip(LevelSel::Lower, Side::Left), ip(LevelSel::Lower, Side::Bottom), Move::Down, Gate::Always),
                et(ip(LevelSel::Lower, Side::Bottom), ip(LevelSel::Upper, Side::Bottom), Move::Stay, Gate::Bottom),
            ],
            Regime::Mid => seq![
                et(ip(LevelSel::Upper, Side::Top), ip(LevelSel::Upper, Side::Right), Move::Right, Gate::Always),
                et(ip(LevelSel::Upper, Side::Right), ip(LevelSel::Lower, Side::Right), Move::Stay, Gate::Right),
                et(ip(LevelSel::Lower, Side::Right), ip(LevelSel::Lower, Side::Bottom), Move::Down, Gate::Always),
                et(ip(LevelSel::Lower, Side::Bottom), ip(LevelSel::Upper, Side::Bottom), Move::Stay, Gate::Bottom),
                et(ip(LevelSel::Upper, Side::Bottom), ip(LevelSel::Upper, Side::Left), Move::Left, Gate::Always),
                et(ip(LevelSel::Upper, Side::Left), ip(LevelSel::Lower, Side::Left), Move::Stay, Gate::Left),
                et(ip(LevelSel::Lower, Side::Left), ip(LevelSel::Lower, Side::Top), Move::Up, Gate::Always),
                et(ip(LevelSel::Lower, Side::Top), ip(LevelSel::Upper, Side::Top), Move::Stay, Gate::Top),
            ],
            Regime::High => seq![
                et(ip(LevelSel::Upper, Side::Top), ip(LevelSel::Upper, Side::Left), Move::Left, Gate::Always),
                et(ip(LevelSel::Upper, Side::Left), ip(LevelSel::Lower, Side::Left), Move::Stay, Gate::Left),
                et(ip(LevelSel::Lower, Side::Left), ip(LevelSel::Lower, Side::Top), Move::Up, Gate::Always),
                et(ip(LevelSel::Lower, Side::Top), ip(LevelSel::Upper, Side::Top), Move::Stay, Gate::Top),
                et(ip(LevelSel::Lower, Side::Right), ip(LevelSel::Lower, Side::Bottom), Move::Down, Gate::Always),
                et(ip(LevelSel::Lower, Side::Bottom), ip(LevelSel::Upper, Side::Bottom), Move::Stay, Gate::Bottom),
                et(ip(LevelSel::Upper, Side::Bottom), ip(LevelSel::Upper, Side::Right), Move::Right, Gate::Always),
                et(ip(LevelSel::Upper, Side::Right), ip(LevelSel::Lower, Side::Right), Move::Stay, Gate::Right),
            ],
        }
    } else if code == 152 {
        match regime {
            Regime::Low => seq![
                et(ip(LevelSel::Upper, Side::Right), ip(LevelSel::Upper, Side::Top), Move::Up, Gate::Always),
                et(ip(LevelSel::Upper, Side::Top), corner(CornerSel::TR), Move::Right, Gate::Top),
                et(corner(CornerSel::TR), ip(LevelSel::Upper, Side::Right), Move::Stay, Gate::Right),
                et(ip(LevelSel::Lower, Side::Bottom), ip(LevelSel::Lower, Side::Left), Move::Left, Gate::Always),
                et(ip(LevelSel::Lower, Side::Left), ip(LevelSel::Upper, Side::Left), Move::Stay, Gate::Left),
                et(ip(LevelSel::Upper, Side::Left), ip(LevelSel::Upper, Side::Bottom), Move::Down, Gate::Always),
                et(ip(LevelSel::Upper, Side::Bottom), ip(LevelSel::Lower, Side::Bottom), Move::Stay, Gate::Bottom),
            ],
            Regime::Mid => seq![
                et(ip(LevelSel::Upper, Side::Right), ip(LevelSel::Upper, Side::Bottom), Move::Down, Gate::Always),
                et(ip(LevelSel::Upper, Side::Bottom), ip(LevelSel::Lower, Side::Bottom), Move::Stay, Gate::Bottom),
                et(ip(LevelSel::Lower, Side::Bottom), ip(LevelSel::Lower, Side::Left), Move::Left, Gate::Always),
                et(ip(LevelSel::Lower, Side::Left), ip(LevelSel::Upper, Side::Left), Move::Stay, Gate::Left),
                et(ip(LevelSel::Upper, Side::Left), ip(LevelSel::Upper, Side::Top), Move::Up, Gate::Always),
                et(ip(LevelSel::Upper, Side::Top), corner(CornerSel::TR), Move::Right, Gate::Top),
                et(corner(CornerSel::TR), ip(LevelSel::Upper, Side::Right), Move::Stay, Gate::Right),
            ],
            Regime::High => seq![
                et(ip(LevelSel::Upper, Side::Right), ip(LevelSel::Upper, Side::Top), Move::Up, Gate::Always),
                et(ip(LevelSel::Upper, Side::Top), corner(CornerSel::TR), Move::Right, Gate::Top),
                et(corner(CornerSel::TR), ip(LevelSel::Upper, Side::Right), Move::Stay, Gate::Right),
                et(ip(LevelSel::Lower, Side::Bottom), ip(LevelSel::Lower, Side::Left), Move::Left, Gate::Always),
                et(ip(LevelSel::Lower, Side::Left), ip(LevelSel::Upper, Side::Left), Move::Stay, Gate::Left),
                et(ip(LevelSel::Upper, Side::Left), ip(LevelSel::Upper, Side::Bottom), Move::Down, Gate::Always),
                et(ip(LevelSel::Upper, Side::Bottom), ip(LevelSel::Lower, Side::Bottom), Move::Stay, Gate::Bottom),
            ],
        }
    } else if code == 18 {
        match regime {
            Regime::Low => seq![
                et(ip(LevelSel::Lower, Side::Right), ip(LevelSel::Lower, Side::Top), Move::Up, Gate::Always),
                et(ip(LevelSel::Lower, Side::Top), corner(CornerSel::TR), Move::Right, Gate::Top),
                et(corner(CornerSel::TR), ip(LevelSel::Lower, Side::Right), Move::Stay, Gate::Right),
                et(ip(LevelSel::Upper, Side::Bottom), ip(LevelSel::Upper, Side::Left), Move::Left, Gate::Always),
                et(ip(LevelSel::Upper, Side::Left), ip(LevelSel::Lower, Side::Left), Move::Stay, Gate::Left),
                et(ip(LevelSel::Lower, Side::Left), ip(LevelSel::Lower, Side::Bottom), Move::Down, Gate::Always),
                et(ip(LevelSel::Lower, Side::Bottom), ip(LevelSel::Upper, Side::Bottom), Move::Stay, Gate::Bottom),
            ],
            Regime::Mid => seq![
                et(ip(LevelSel::Lower, Side::Right), ip(LevelSel::Lower, Side::Bottom), Move::Down, Gate::Always),
                et(ip(LevelSel::Lower, Side::Bottom), ip(LevelSel::Upper, Side::Bottom), Move::Stay, Gate::Bottom),
                et(ip(LevelSel::Upper, Side::Bottom), ip(LevelSel::Upper, Side::Left), Move::Left, Gate::Always),
                et(ip(LevelSel::Upper, Side::Left), ip(LevelSel::Lower, Side::Left), Move::Stay, Gate::Left),
                et(ip(LevelSel::Lower, Side::Left), ip(LevelSel::Lower, Side::Top), Move::Up, Gate::Always),
                et(ip(LevelSel::Lower, Side::Top), corner(CornerSel::TR), Move::Right, Gate::Top),
                et(corner(CornerSel::TR), ip(LevelSel::Lower, Side::Right), Move::Stay, Gate::Right),
            ],
            Regime::High => seq![
                et(ip(LevelSel::Lower, Side::Right), ip(LevelSel::Lower, Side::Top), Move::Up, Gate::Always),
                et(ip(LevelSel::Lower, Side::Top), corner(CornerSel::TR), Move::Right, Gate::Top),
                et(corner(CornerSel::TR), ip(LevelSel::Lower, Side::Right), Move::Stay, Gate::Right),
                et(ip(LevelSel::Upper, Side::Bottom), ip(LevelSel::Upper, Side::Left), Move::Left, Gate::Always),
                et(ip(LevelSel::Upper, Side::Left), ip(LevelSel::Lower, Side::Left), Move::Stay, Gate::Left),
                et(ip(LevelSel::Lower, Side::Left), ip(LevelSel::Lower, Side::Bottom), Move::Down, Gate::Always),
                et(ip(LevelSel::Lower, Side::Bottom), ip(LevelSel::Upper, Side::Bottom), Move::Stay, Gate::Bottom),
            ],
        }
    } else if code == 137 {
        match regime {
            Regime::Low => seq![
                et(ip(LevelSel::Lower, Side::Top), ip(LevelSel::Lower, Side::Right), Move::Right, Gate::Always),
                et(ip(LevelSel::Lower, Side::Right), ip(LevelSel::Upper, Side::Right), Move::Stay, Gate::Right),
                et(ip(LevelSel::Upper, Side::Right), ip(LevelSel::Upper, Side::Top), Move::Up, Gate::Always),
                et(ip(LevelSel::Upper, Side::Top), ip(LevelSel::Lower, Side::Top), Move::Stay, Gate::Top),
                et(ip(LevelSel::Upper, Side::Left), ip(LevelSel::Upper, Side::Bottom), Move::Down, Gate::Always),
                et(ip(LevelSel::Upper, Side::Bottom), corner(CornerSel::BL), Move::Left, Gate::Bottom),
                et(corner(CornerSel::BL), ip(LevelSel::Upper, Side::Left), Move::Stay, Gate::Left),
            ],
            Regime::Mid => seq![
                et(ip(LevelSel::Lower, Side::Top), ip(LevelSel::Lower, Side::Right), Move::Right, Gate::Always),
                et(ip(LevelSel::Lower, Side::Right), ip(LevelSel::Upper, Side::Right), Move::Stay, Gate::Right),
                et(ip(LevelSel::Upper, Side::Right), ip(LevelSel::Upper, Side::Bottom), Move::Down, Gate::Always),
                et(ip(LevelSel::Upper, Side::Bottom), corner(CornerSel::BL), Move::Left, Gate::Bottom),
                et(corner(CornerSel::BL), ip(LevelSel::Upper, Side::Left), Move::Stay, Gate::Left),
                et(ip(LevelSel::Upper, Side::Left), ip(LevelSel::Upper, Side::Top), Move::Up, Gate::Always),
                et(ip(LevelSel::Upper, Side::Top), ip(LevelSel::Lower, Side::Top), Move::Stay, Gate::Top),
            ],
            Regime::High => seq![
                et(ip(LevelSel::Lower, Side::Top), ip(LevelSel::Lower, Side::Right), Move::Right, Gate::Always),
                et(ip(LevelSel::Lower, Side::Right), ip(LevelSel::Upper, Side::Right), Move::Stay, Gate::Right),
                et(ip(LevelSel::Upper, Side::Right), ip(LevelSel::Upper, Side::Top), Move::Up, Gate::Always),
                et(ip(LevelSel::Upper, Side::Top), ip(LevelSel::Lower, Side::Top), Move::Stay, Gate::Top),
                et(ip(LevelSel::Upper, Side::Left), ip(LevelSel::Upper, Side::Bottom), Move::Down, Gate::Always),
                et(ip(LevelSel::Upper, Side::Bottom), corner(CornerSel::BL), Move::Left, Gate::Bottom),
                et(corner(CornerSel::BL), ip(LevelSel::Upper, Side::Left), Move::Stay, Gate::Left),
            ],
        }
    } else if code == 33 {
        match regime {
            Regime::Low => seq![
                et(ip(LevelSel::Upper, Side::Top), ip(LevelSel::Upper, Side::Right), Move::Right, Gate::Always),
                et(ip(LevelSel::Upper, Side::Right), ip(LevelSel::Lower, Side::Right), Move::Stay, Gate::Right),
                et(ip(LevelSel::Lower, Side::Right), ip(LevelSel::Lower, Side::Top), Move::Up, Gate::Always),
                et(ip(LevelSel::Lower, Side::Top), ip(LevelSel::Upper, Side::Top), Move::Stay, Gate::Top),
                et(ip(LevelSel::Lower, Side::Left), ip(LevelSel::Lower, Side::Bottom), Move::Down, Gate::Always),
                et(ip(LevelSel::Lower, Side::Bottom), corner(CornerSel::BL), Move::Left, Gate::Bottom),
                et(corner(CornerSel::BL), ip(LevelSel::Lower, Side::Left), Move::Stay, Gate::Left),
            ],
            Regime::Mid => seq![
                et(ip(LevelSel::Upper, Side::Top), ip(LevelSel::Upper, Side::Right), Move::Right, Gate::Always),
                et(ip(LevelSel::Upper, Side::Right), ip(LevelSel::Lower, Side::Right), Move::Stay, Gate::Right),
                et(ip(LevelSel::Lower, Side::Right), ip(LevelSel::Lower, Side::Bottom), Move::Down, Gate::Always),
                et(ip(LevelSel::Lower, Side::Bottom), corner(CornerSel::BL), Move::Left, Gate::Bottom),
                et(corner(CornerSel::BL), ip(LevelSel::Lower, Side::Left), Move::Stay, Gate::Left),
                et(ip(LevelSel::Lower, Side::Left), ip(LevelSel::Lower, Side::Top), Move::Up, Gate::Always),
                et(ip(LevelSel::Lower, Side::Top), ip(LevelSel::Upper, Side::Top), Move::Stay, Gate::Top),
            ],
            Regime::High => seq![
                et(ip(LevelSel::Upper, Side::Top), ip(LevelSel::Upper, Side::Right), Move::Right, Gate::Always),
                et(ip(LevelSel::Upper, Side::Right), ip(LevelSel::Lower, Side::Right), Move::Stay, Gate::Right),
                et(ip(LevelSel::Lower, Side::Right), ip(LevelSel::Lower, Side::Top), Move::Up, Gate::Always),
                et(ip(LevelSel::Lower, Side::Top), ip(LevelSel::Upper, Side::Top), Move::Stay, Gate::Top),
                et(ip(LevelSel::Lower, Side::Left), ip(LevelSel::Lower, Side::Bottom), Move::Down, Gate::Always),
                et(ip(LevelSel::Lower, Side::Bottom), corner(CornerSel::BL), Move::Left, Gate::Bottom),
                et(corner(CornerSel::BL), ip(LevelSel::Lower, Side::Left), Move::Stay, Gate::Left),
            ],
        }
    } else if code == 98 {
        match regime {
            Regime::Low => seq![
                et(ip(LevelSel::Upper, Side::Top), ip(LevelSel::Upper, Side::Left), Move::Left, Gate::Always),
                et(ip(LevelSel::Upper, Side::Left), corner(CornerSel::TL), Move::Up, Gate::Left),
                et(corner(CornerSel::TL), ip(LevelSel::Upper, Side::Top), Move::Stay, Gate::Top),
                et(ip(LevelSel::Lower, Side::Right), ip(LevelSel::Lower, Side::Bottom), Move::Down, Gate::Always),
                et(ip(LevelSel::Lower, Side::Bottom), ip(LevelSel::Upper, Side::Bottom), Move::Stay, Gate::Bottom),
                et(ip(LevelSel::Upper, Side::Bottom), ip(LevelSel::Upper, Side::Right), Move::Right, Gate::Always),
                et(ip(LevelSel::Upper, Side::Right), ip(LevelSel::Lower, Side::Right), Move::Stay, Gate::Right),
            ],
            Regime::Mid => seq![
                et(ip(LevelSel::Upper, Side::Top), ip(LevelSel::Upper, Side::Right), Move::Right, Gate::Always),
                et(ip(LevelSel::Upper, Side::Right), ip(LevelSel::Lower, Side::Right), Move::Stay, Gate::Right),
                et(ip(LevelSel::Lower, Side::Right), ip(LevelSel::Lower, Side::Bottom), Move::Down, Gate::Always),
                et(ip(LevelSel::Lower, Side::Bottom), ip(LevelSel::Upper, Side::Bottom), Move::Stay, Gate::Bottom),
                et(ip(LevelSel::Upper, Side::Bottom), ip(LevelSel::Upper, Side::Left), Move::Left, Gate::Always),
                et(ip(LevelSel::Upper, Side::Left), corner(CornerSel::TL), Move::Up, Gate::Left),
                et(corner(CornerSel::TL), ip(LevelSel::Upper, Side::Top), Move::Stay, Gate::Top),
            ],
            Regime::High => seq![
                et(ip(LevelSel::Upper, Side::Top), ip(LevelSel::Upper, Side::Left), Move::Left, Gate::Always),
                et(ip(LevelSel::Upper, Side::Left), corner(CornerSel::TL), Move::Up, Gate::Left),
                et(corner(CornerSel::TL), ip(LevelSel::Upper, Side::Top), Move::Stay, Gate::Top),
                et(ip(LevelSel::Lower, Side::Right), ip(LevelSel::Lower, Side::Bottom), Move::Down, Gate::Always),
                et(ip(LevelSel::Lower, Side::Bottom), ip(LevelSel::Upper, Side::Bottom), Move::Stay, Gate::Bottom),
                et(ip(LevelSel::Upper, Side::Bottom), ip(LevelSel::Upper, Side::Right), Move::Right, Gate::Always),
                et(ip(LevelSel::Upper, Side::Right), ip(LevelSel::Lower, Side::Right), Move::Stay, Gate::Right),
            ],
        }
    } else if code == 72 {
        match regime {
            Regime::Low => seq![
                et(ip(LevelSel::Lower, Side::Top), ip(LevelSel::Lower, Side::Left), Move::Left, Gate::Always),
                et(ip(LevelSel::Lower, Side::Left), corner(CornerSel::TL), Move::Up, Gate::Left),
                et(corner(CornerSel::TL), ip(LevelSel::Lower, Side::Top), Move::Stay, Gate::Top),
                et(ip(LevelSel::Upper, Side::Right), ip(LevelSel::Upper, Side::Bottom), Move::Down, Gate::Always),
                et(ip(LevelSel::Upper, Side::Bottom), ip(LevelSel::Lower, Side::Bottom), Move::Stay, Gate::Bottom),
                et(ip(LevelSel::Lower, Side::Bottom), ip(LevelSel::Lower, Side::Right), Move::Right, Gate::Always),
                et(ip(LevelSel::Lower, Side::Right), ip(LevelSel::Upper, Side::Right), Move::Stay, Gate::Right),
            ],
            Regime::Mid => seq![
                et(ip(LevelSel::Lower, Side::Top), ip(LevelSel::Lower, Side::Right), Move::Right, Gate::Always),
                et(ip(LevelSel::Lower, Side::Right), ip(LevelSel::Upper, Side::Right), Move::Stay, Gate::Right),
                et(ip(LevelSel::Upper, Side::Right), ip(LevelSel::Upper, Side::Bottom), Move::Down, Gate::Always),
                et(ip(LevelSel::Upper, Side::Bottom), ip(LevelSel::Lower, Side::Bottom), Move::Stay, Gate::Bottom),
                et(ip(LevelSel::Lower, Side::Bottom), ip(LevelSel::Lower, Side::Left), Move::Left, Gate::Always),
                et(ip(LevelSel::Lower, Side::Left), corner(CornerSel::TL), Move::Up, Gate::Left),
                et(corner(CornerSel::TL), ip(LevelSel::Lower, Side::Top), Move::Stay, Gate::Top),
            ],
            Regime::High => seq![
                et(ip(LevelSel::Lower, Side::Top), ip(LevelSel::Lower, Side::Left), Move::Left, Gate::Always),
                et(ip(LevelSel::Lower, Side::Left), corner(CornerSel::TL), Move::Up, Gate::Left),
                et(corner(CornerSel::TL), ip(LevelSel::Lower, Side::Top), Move::Stay, Gate::Top),
                et(ip(LevelSel::Upper, Side::Right), ip(LevelSel::Upper, Side::Bottom), Move::Down, Gate::Always),
                et(ip(LevelSel::Upper, Side::Bottom), ip(LevelSel::Lower, Side::Bottom), Move::Stay, Gate::Bottom),
                et(ip(LevelSel::Lower, Side::Bottom), ip(LevelSel::Lower, Side::Right), Move::Right, Gate::Always),
                et(ip(LevelSel::Lower, Side::Right), ip(LevelSel::Upper, Side::Right), Move::Stay, Gate::Right),
            ],
        }
    } else if code == 38 {
        match regime {
            Regime::Low => seq![
                et(ip(LevelSel::Upper, Side::Top), ip(LevelSel::Upper, Side::Left), Move::Left, Gate::Always),
                et(ip(LevelSel::Upper, Side::Left), ip(LevelSel::Lower, Side::Left), Move::Stay, Gate::Left),
                et(ip(LevelSel::Lower, Side::Left), ip(LevelSel::Lower, Side::Top), Move::Up, Gate::Always),
                et(ip(LevelSel::Lower, Side::Top), ip(LevelSel::Upper, Side::Top), Move::Stay, Gate::Top),
                et(ip(LevelSel::Upper, Side::Bottom), ip(LevelSel::Upper, Side::Right), Move::Right, Gate::Always),
                et(ip(LevelSel::Upper, Side::Right), corner(CornerSel::BR), Move::Down, Gate::Right),
                et(corner(CornerSel::BR), ip(LevelSel::Upper, Side::Bottom), Move::Stay, Gate::Bottom),
            ],
            Regime::Mid => seq![
                et(ip(LevelSel::Upper, Side::Top), ip(LevelSel::Upper, Side::Right), Move::Right, Gate::Always),
                et(ip(LevelSel::Upper, Side::Right), corner(CornerSel::BR), Move::Down, Gate::Right),
                et(corner(CornerSel::BR), ip(LevelSel::Upper, Side::Bottom), Move::Stay, Gate::Bottom),
                et(ip(LevelSel::Upper, Side::Bottom), ip(LevelSel::Upper, Side::Left), Move::Left, Gate::Always),
                et(ip(LevelSel::Upper, Side::Left), ip(LevelSel::Lower, Side::Left), Move::Stay, Gate::Left),
                et(ip(LevelSel::Lower, Side::Left), ip(LevelSel::Lower, Side::Top), Move::Up, Gate::Always),
                et(ip(LevelSel::Lower, Side::Top), ip(LevelSel::Upper, Side::Top), Move::Stay, Gate::Top),
            ],
            Regime::High => seq![
                et(ip(LevelSel::Upper, Side::Top), ip(LevelSel::Upper, Side::Left), Move::Left, Gate::Always),
                et(ip(LevelSel::Upper, Side::Left), ip(LevelSel::Lower, Side::Left), Move::Stay, Gate::Left),
                et(ip(LevelSel::Lower, Side::Left), ip(LevelSel::Lower, Side::Top), Move::Up, Gate::Always),
                et(ip(LevelSel::Lower, Side::Top), ip(LevelSel::Upper, Side::Top), Move::Stay, Gate::Top),
                et(ip(LevelSel::Upper, Side::Bottom), ip(LevelSel::Upper, Side::Right), Move::Right, Gate::Always),
                et(ip(LevelSel::Upper, Side::Right), corner(CornerSel::BR), Move::Down, Gate::Right),
                et(corner(CornerSel::BR), ip(LevelSel::Upper, Side::Bottom), Move::Stay, Gate::Bottom),
            ],
        }
    } else if code == 132 {
        match regime {
            Regime::Low => seq![
                et(ip(LevelSel::Lower, Side::Top), ip(LevelSel::Lower, Side::Left), Move::Left, Gate::Always),
                et(ip(LevelSel::Lower, Side::Left), ip(LevelSel::Upper, Side::Left), Move::Stay, Gate::Left),
                et(ip(LevelSel::Upper, Side::Left), ip(LevelSel::Upper, Side::Top), Move::Up, Gate::Always),
                et(ip(LevelSel::Upper, Side::Top), ip(LevelSel::Lower, Side::Top), Move::Stay, Gate::Top),
                et(ip(LevelSel::Lower, Side::Bottom), ip(LevelSel::Lower, Side::Right), Move::Right, Gate::Always),
                et(ip(LevelSel::Lower, Side::Right), corner(CornerSel::BR), Move::Down, Gate::Right),
                et(corner(CornerSel::BR), ip(LevelSel::Lower, Side::Bottom), Move::Stay, Gate::Bottom),
            ],
            Regime::Mid => seq![
                et(ip(LevelSel::Lower, Side::Top), ip(LevelSel::Lower, Side::Right), Move::Right, Gate::Always),
                et(ip(LevelSel::Lower, Side::Right), corner(CornerSel::BR), Move::Down, Gate::Right),
                et(corner(CornerSel::BR), ip(LevelSel::Lower, Side::Bottom), Move::Stay, Gate::Bottom),
                et(ip(LevelSel::Lower, Side::Bottom), ip(LevelSel::Lower, Side::Left), Move::Left, Gate::Always),
                et(ip(LevelSel::Lower, Side::Left), ip(LevelSel::Upper, Side::Left), Move::Stay, Gate::Left),
                et(ip(LevelSel::Upper, Side::Left), ip(LevelSel::Upper, Side::Top), Move::Up, Gate::Always),
                et(ip(LevelSel::Upper, Side::Top), ip(LevelSel::Lower, Side::Top), Move::Stay, Gate::Top),
            ],
            Regime::High => seq![
                et(ip(LevelSel::Lower, Side::Top), ip(LevelSel::Lower, Side::Left), Move::Left, Gate::Always),
                et(ip(LevelSel::Lower, Side::Left), ip(LevelSel::Upper, Side::Left), Move::Stay, Gate::Left),
                et(ip(LevelSel::Upper, Side::Left), ip(LevelSel::Upper, Side::Top), Move::Up, Gate::Always),
                et(ip(LevelSel::Upper, Side::Top), ip(LevelSel::Lower, Side::Top), Move::Stay, Gate::Top),
                et(ip(LevelSel::Lower, Side::Bottom), ip(LevelSel::Lower, Side::Right), Move::Right, Gate::Always),
                et(ip(LevelSel::Lower, Side::Right), corner(CornerSel::BR), Move::Down, Gate::Right),
                et(corner(CornerSel::BR), ip(LevelSel::Lower, Side::Bottom), Move::Stay, Gate::Bottom),
            ],
        }
    } else if code == 85 {
        seq![
            et(ip(LevelSel::Upper, Side::Right), ip(LevelSel::Upper, Side::Bottom), Move::Down, Gate::Right),
            et(ip(LevelSel::Upper, Side::Bottom), ip(LevelSel::Upper, Side::Left), Move::Left, Gate::Bottom),
            et(ip(LevelSel::Upper, Side::Left), ip(LevelSel::Upper, Side::Top), Move::Up, Gate::Left),
            et(ip(LevelSel::Upper, Side::Top), ip(LevelSel::Upper, Side::Right), Move::Right, Gate::Top),
        ]
    } else {
        Seq::<EdgeTemplate>::empty()
    }
}

/// The edge templates for one configuration code and saddle regime.
pub fn templates(code: u8, regime: Regime) -> (r: Vec<EdgeTemplate>)
    ensures
        r@ == spec_templates(code as int, regime),
{
    match code {
        169 | 1 => {
            let v: Vec<EdgeTemplate> = vec![
                EdgeTemplate { s: PtRef::Cand(0), e: PtRef::Cand(1), mv: Move::Left, gate: Gate::Bottom },
                EdgeTemplate { s: PtRef::Cand(1), e: PtRef::Cand(2), mv: Move::Stay, gate: Gate::Left },
                EdgeTemplate { s: PtRef::Cand(2), e: PtRef::Cand(0), mv: Move::Down, gate: Gate::Always },
            ];
            proof { assert(v@ =~= spec_templates(code as int, regime)); }
            v
        }
        166 | 4 => {
            let v: Vec<EdgeTemplate> = vec![
                EdgeTemplate { s: PtRef::Cand(0), e: PtRef::Cand(1), mv: Move::Down, gate: Gate::Right },
                EdgeTemplate { s: PtRef::Cand(1), e: PtRef::Cand(2), mv: Move::Stay, gate: Gate::Bottom },
                EdgeTemplate { s: PtRef::Cand(2), e: PtRef::Cand(0), mv: Move::Right, gate: Gate::Always },
            ];
            proof { assert(v@ =~= spec_templates(code as int, regime)); }
            v
        }
        154 | 16 => {
            let v: Vec<EdgeTemplate> = vec![
                EdgeTemplate { s: PtRef::Cand(0), e: PtRef::Cand(1), mv: Move::Stay, gate: Gate::Right },
                EdgeTemplate { s: PtRef::Cand(1), e: PtRef::Cand(2), mv: Move::Up, gate: Gate::Always },
                EdgeTemplate { s: PtRef::Cand(2), e: PtRef::Cand(0), mv: Move::Right, gate: Gate::Top },
            ];
            proof { assert(v@ =~= spec_templates(code as int, regime)); }
            v
        }
        106 | 64 => {
            let v: Vec<EdgeTemplate> = vec![
                EdgeTemplate { s: PtRef::Cand(0), e: PtRef::Cand(1), mv: Move::Left, gate: Gate::Always },
                EdgeTemplate { s: PtRef::Cand(1), e: PtRef::Cand(2), mv: Move::Up, gate: Gate::Left },
                EdgeTemplate { s: PtRef::Cand(2), e: PtRef::Cand(0), mv: Move::Stay, gate: Gate::Top },
            ];
            proof { assert(v@ =~= spec_templates(code as int, regime)); }
            v
        }
        101 | 69 => {
            let v: Vec<EdgeTemplate> = vec![
                EdgeTemplate { s: PtRef::Cand(0), e: PtRef::Cand(1), mv: Move::Right, gate: Gate::Always },
                EdgeTemplate { s: PtRef::Cand(1), e: PtRef::Cand(2), mv: Move::Down, gate: Gate::Right },
                EdgeTemplate { s: PtRef::Cand(2), e: PtRef::Cand(3), mv: Move::Left, gate: Gate::Bottom },
                EdgeTemplate { s: PtRef::Cand(3), e: PtRef::Cand(4), mv: Move::Up, gate: Gate::Left },
                EdgeTemplate { s: PtRef::Cand(4), e: PtRef::Cand(0), mv: Move::Stay, gate: Gate::Top },
            ];
            proof { assert(v@ =~= spec_templates(code as int, regime)); }
            v
        }
        149 | 21 => {
            let v: Vec<EdgeTemplate> = vec![
                EdgeTemplate { s: PtRef::Cand(0), e: PtRef::Cand(1), mv: Move::Down, gate: Gate::Right },
                EdgeTemplate { s: PtRef::Cand(1), e: PtRef::Cand(2), mv: Move::Left, gate: Gate::Bottom },
                EdgeTemplate { s: PtRef::Cand(2), e: PtRef::Cand(3), mv: Move::Stay, gate: Gate::Left },
                EdgeTemplate { s: PtRef::Cand(3), e: PtRef::Cand(4), mv: Move::Up, gate: Gate::Always },
                EdgeTemplate { s: PtRef::Cand(4), e: PtRef::Cand(0), mv: Move::Right, gate: Gate::Top },
            ];
            proof { assert(v@ =~= spec_templates(code as int, regime)); }
            v
        }
        86 | 84 => {
            let v: Vec<EdgeTemplate> = vec![
                EdgeTemplate { s: PtRef::Cand(0), e: PtRef::Cand(1), mv: Move::Down, gate: Gate::Right },
                EdgeTemplate { s: PtRef::Cand(1), e: PtRef::Cand(2), mv: Move::Stay, gate: Gate::Bottom },
                EdgeTemplate { s: PtRef::Cand(2), e: PtRef::Cand(3), mv: Move::Left, gate: Gate::Always },
                EdgeTemplate { s: PtRef::Cand(3), e: PtRef::Cand(4), mv: Move::Up, gate: Gate::Left },
                EdgeTemplate { s: PtRef::Cand(4), e: PtRef::Cand(0), mv: Move::Right, gate: Gate::Top },
            ];
            proof { assert(v@ =~= spec_templates(code as int, regime)); }
            v
        }
        89 | 81 => {
            let v: Vec<EdgeTemplate> = vec![
                EdgeTemplate { s: PtRef::Cand(0), e: PtRef::Cand(1), mv: Move::Stay, gate: Gate::Right },
                EdgeTemplate { s: PtRef::Cand(1), e: PtRef::Cand(2), mv: Move::Down, gate: Gate::Always },
                EdgeTemplate { s: PtRef::Cand(2), e: PtRef::Cand(3), mv: Move::Left, gate: Gate::Bottom },
                EdgeTemplate { s: PtRef::Cand(3), e: PtRef::Cand(4), mv: Move::Up, gate: Gate::Left },
                EdgeTemplate { s: PtRef::Cand(4), e: PtRef::Cand(0), mv: Move::Right, gate: Gate::Top },
            ];
            proof { assert(v@ =~= spec_templates(code as int, regime)); }
            v
        }
        96 | 74 => {
            let v: Vec<EdgeTemplate> = vec![
                EdgeTemplate { s: PtRef::Cand(0), e: PtRef::Cand(1), mv: Move::Right, gate: Gate::Always },
                EdgeTemplate { s: PtRef::Cand(1), e: PtRef::Cand(2), mv: Move::Stay, gate: Gate::Right },
                EdgeTemplate { s: PtRef::Cand(2), e: PtRef::Cand(3), mv: Move::Left, gate: Gate::Always },
                EdgeTemplate { s: PtRef::Cand(3), e: PtRef::Cand(4), mv: Move::Up, gate: Gate::Left },
                EdgeTemplate { s: PtRef::Cand(4), e: PtRef::Cand(0), mv: Move::Stay, gate: Gate::Top },
            ];
            proof { assert(v@ =~= spec_templates(code as int, regime)); }
            v
        }
        24 | 146 => {
            let v: Vec<EdgeTemplate> = vec![
                EdgeTemplate { s: PtRef::Cand(0), e: PtRef::Cand(1), mv: Move::Stay, gate: Gate::Right },
                EdgeTemplate { s: PtRef::Cand(1), e: PtRef::Cand(2), mv: Move::Down, gate: Gate::Always },
                EdgeTemplate { s: PtRef::Cand(2), e: PtRef::Cand(3), mv: Move::Stay, gate: Gate::Bottom },
                EdgeTemplate { s: PtRef::Cand(3), e: PtRef::Cand(4), mv: Move::Up, gate: Gate::Always },
                EdgeTemplate { s: PtRef::Cand(4), e: PtRef::Cand(0), mv: Move::Right, gate: Gate::Top },
            ];
            proof { assert(v@ =~= spec_templates(code as int, regime)); }
            v
        }
        6 | 164 => {
            let v: Vec<EdgeTemplate> = vec![
                EdgeTemplate { s: PtRef::Cand(0), e: PtRef::Cand(1), mv: Move::Down, gate: Gate::Right },
                EdgeTemplate { s: PtRef::Cand(1), e: PtRef::Cand(2), mv: Move::Stay, gate: Gate::Bottom },
                EdgeTemplate { s: PtRef::Cand(2), e: PtRef::Cand(3), mv: Move::Left, gate: Gate::Always },
                EdgeTemplate { s: PtRef::Cand(3), e: PtRef::Cand(4), mv: Move::Stay, gate: Gate::Left },
                EdgeTemplate { s: PtRef::Cand(4), e: PtRef::Cand(0), mv: Move::Right, gate: Gate::Always },
            ];
            proof { assert(v@ =~= spec_templates(code as int, regime)); }
            v
        }
        129 | 41 => {
            let v: Vec<EdgeTemplate> = vec![
                EdgeTemplate { s: PtRef::Cand(0), e: PtRef::Cand(1), mv: Move::Down, gate: Gate::Always },
                EdgeTemplate { s: PtRef::Cand(1), e: PtRef::Cand(2), mv: Move::Left, gate: Gate::Bottom },
                EdgeTemplate { s: PtRef::Cand(2), e: PtRef::Cand(3), mv: Move::Stay, gate: Gate::Left },
                EdgeTemplate { s: PtRef::Cand(3), e: PtRef::Cand(4), mv: Move::Up, gate: Gate::Always },
                EdgeTemplate { s: PtRef::Cand(4), e: PtRef::Cand(0), mv: Move::Stay, gate: Gate::Top },
            ];
            proof { assert(v@ =~= spec_templates(code as int, regime)); }
            v
        }
        66 | 104 => {
            let v: Vec<EdgeTemplate> = vec![
                EdgeTemplate { s: PtRef::Cand(0), e: PtRef::Cand(1), mv: Move::Down, gate: Gate::Always },
                EdgeTemplate { s: PtRef::Cand(1), e: PtRef::Cand(2), mv: Move::Stay, gate: Gate::Bottom },
                EdgeTemplate { s: PtRef::Cand(2), e: PtRef::Cand(3), mv: Move::Left, gate: Gate::Always },
                EdgeTemplate { s: PtRef::Cand(3), e: PtRef::Cand(4), mv: Move::Up, gate: Gate::Left },
                EdgeTemplate { s: PtRef::Cand(4), e: PtRef::Cand(0), mv: Move::Stay, gate: Gate::Top },
            ];
            proof { assert(v@ =~= spec_templates(code as int, regime)); }
            v
        }
        144 | 26 => {
            let v: Vec<EdgeTemplate> = vec![
                EdgeTemplate { s: PtRef::Cand(0), e: PtRef::Cand(1), mv: Move::Stay, gate: Gate::Right },
                EdgeTemplate { s: PtRef::Cand(1), e: PtRef::Cand(2), mv: Move::Left, gate: Gate::Always },
                EdgeTemplate { s: PtRef::Cand(2), e: PtRef::Cand(3), mv: Move::Stay, gate: Gate::Left },
                EdgeTemplate { s: PtRef::Cand(3), e: PtRef::Cand(4), mv: Move::Up, gate: Gate::Always },
                EdgeTemplate { s: PtRef::Cand(4), e: PtRef::Cand(0), mv: Move::Right, gate: Gate::Top },
            ];
            proof { assert(v@ =~= spec_templates(code as int, regime)); }
            v
        }
        36 | 134 => {
            let v: Vec<EdgeTemplate> = vec![
                EdgeTemplate { s: PtRef::Cand(0), e: PtRef::Cand(1), mv: Move::Right, gate: Gate::Always },
                EdgeTemplate { s: PtRef::Cand(1), e: PtRef::Cand(2), mv: Move::Down, gate: Gate::Right },
                EdgeTemplate { s: PtRef::Cand(2), e: PtRef::Cand(3), mv: Move::Stay, gate: Gate::Bottom },
                EdgeTemplate { s: PtRef::Cand(3), e: PtRef::Cand(4), mv: Move::Up, gate: Gate::Always },
                EdgeTemplate { s: PtRef::Cand(4), e: PtRef::Cand(0), mv: Move::Stay, gate: Gate::Top },
            ];
            proof { assert(v@ =~= spec_templates(code as int, regime)); }
            v
        }
        9 | 161 => {
            let v: Vec<EdgeTemplate> = vec![
                EdgeTemplate { s: PtRef::Cand(0), e: PtRef::Cand(1), mv: Move::Stay, gate: Gate::Right },
                EdgeTemplate { s: PtRef::Cand(1), e: PtRef::Cand(2), mv: Move::Down, gate: Gate::Always },
                EdgeTemplate { s: PtRef::Cand(2), e: PtRef::Cand(3), mv: Move::Left, gate: Gate::Bottom },
                EdgeTemplate { s: PtRef::Cand(3), e: PtRef::Cand(4), mv: Move::Stay, gate: Gate::Left },
                EdgeTemplate { s: PtRef::Cand(4), e: PtRef::Cand(0), mv: Move::Right, gate: Gate::Always },
            ];
            proof { assert(v@ =~= spec_templates(code as int, regime)); }
            v
        }
        5 | 165 => {
            let v: Vec<EdgeTemplate> = vec![
                EdgeTemplate { s: PtRef::Cand(0), e: PtRef::Cand(1), mv: Move::Down, gate: Gate::Right },
                EdgeTemplate { s: PtRef::Cand(1), e: PtRef::Cand(2), mv: Move::Left, gate: Gate::Bottom },
                EdgeTemplate { s: PtRef::Cand(2), e: PtRef::Cand(3), mv: Move::Stay, gate: Gate::Left },
                EdgeTemplate { s: PtRef::Cand(3), e: PtRef::Cand(0), mv: Move::Right, gate: Gate::Always },
            ];
            proof { assert(v@ =~= spec_templates(code as int, regime)); }
            v
        }
        20 | 150 => {
            let v: Vec<EdgeTemplate> = vec![
                EdgeTemplate { s: PtRef::Cand(0), e: PtRef::Cand(1), mv: Move::Down, gate: Gate::Right },
                EdgeTemplate { s: PtRef::Cand(1), e: PtRef::Cand(2), mv: Move::Stay, gate: Gate::Bottom },
                EdgeTemplate { s: PtRef::Cand(2), e: PtRef::Cand(3), mv: Move::Up, gate: Gate::Always },
                EdgeTemplate { s: PtRef::Cand(3), e: PtRef::Cand(0), mv: Move::Right, gate: Gate::Top },
            ];
            proof { assert(v@ =~= spec_templates(code as int, regime)); }
            v
        }
        80 | 90 => {
            let v: Vec<EdgeTemplate> = vec![
                EdgeTemplate { s: PtRef::Cand(0), e: PtRef::Cand(1), mv: Move::Stay, gate: Gate::Right },
                EdgeTemplate { s: PtRef::Cand(1), e: PtRef::Cand(2), mv: Move::Left, gate: Gate::Always },
                EdgeTemplate { s: PtRef::Cand(2), e: PtRef::Cand(3), mv: Move::Up, gate: Gate::Left },
                EdgeTemplate { s: PtRef::Cand(3), e: PtRef::Cand(0), mv: Move::Right, gate: Gate::Top },
            ];
            proof { assert(v@ =~= spec_templates(code as int, regime)); }
            v
        }
        65 | 105 => {
            let v: Vec<EdgeTemplate> = vec![
                EdgeTemplate { s: PtRef::Cand(0), e: PtRef::Cand(1), mv: Move::Down, gate: Gate::Always },
                EdgeTemplate { s: PtRef::Cand(1), e: PtRef::Cand(2), mv: Move::Left, gate: Gate::Bottom },
                EdgeTemplate { s: PtRef::Cand(2), e: PtRef::Cand(3), mv: Move::Up, gate: Gate::Left },
                EdgeTemplate { s: PtRef::Cand(3), e: PtRef::Cand(0), mv: Move::Stay, gate: Gate::Top },
            ];
            proof { assert(v@ =~= spec_templates(code as int, regime)); }
            v
        }
        160 | 10 => {
            let v: Vec<EdgeTemplate> = vec![
                EdgeTemplate { s: PtRef::Cand(0), e: PtRef::Cand(1), mv: Move::Stay, gate: Gate::Right },
                EdgeTemplate { s: PtRef::Cand(1), e: PtRef::Cand(2), mv: Move::Left, gate: Gate::Always },
                EdgeTemplate { s: PtRef::Cand(2), e: PtRef::Cand(3), mv: Move::Stay, gate: Gate::Left },
                EdgeTemplate { s: PtRef::Cand(3), e: PtRef::Cand(0), mv: Move::Right, gate: Gate::Always },
            ];
            proof { assert(v@ =~= spec_templates(code as int, regime)); }
            v
        }
        130 | 40 => {
            let v: Vec<EdgeTemplate> = vec![
                EdgeTemplate { s: PtRef::Cand(0), e: PtRef::Cand(1), mv: Move::Down, gate: Gate::Always },
                EdgeTemplate { s: PtRef::Cand(1), e: PtRef::Cand(2), mv: Move::Stay, gate: Gate::Bottom },
                EdgeTemplate { s: PtRef::Cand(2), e: PtRef::Cand(3), mv: Move::Up, gate: Gate::Always },
                EdgeTemplate { s: PtRef::Cand(3), e: PtRef::Cand(0), mv: Move::Stay, gate: Gate::Top },
            ];
            proof { assert(v@ =~= spec_templates(code as int, regime)); }
            v
        }
        168 | 2 => {
            let v: Vec<EdgeTemplate> = vec![
                EdgeTemplate { s: PtRef::Cand(0), e: PtRef::Cand(1), mv: Move::Stay, gate: Gate::Bottom },
                EdgeTemplate { s: PtRef::Cand(1), e: PtRef::Cand(2), mv: Move::Left, gate: Gate::Always },
                EdgeTemplate { s: PtRef::Cand(2), e: PtRef::Cand(3), mv: Move::Stay, gate: Gate::Left },
                EdgeTemplate { s: PtRef::Cand(3), e: PtRef::Cand(0), mv: Move::Down, gate: Gate::Always },
            ];
            proof { assert(v@ =~= spec_templates(code as int, regime)); }
            v
        }
        162 | 8 => {
            let v: Vec<EdgeTemplate> = vec![
                EdgeTemplate { s: PtRef::Cand(0), e: PtRef::Cand(1), mv: Move::Stay, gate: Gate::Right },
                EdgeTemplate { s: PtRef::Cand(1), e: PtRef::Cand(2), mv: Move::Down, gate: Gate::Always },
                EdgeTemplate { s: PtRef::Cand(2), e: PtRef::Cand(3), mv: Move::Stay, gate: Gate::Bottom },
                EdgeTemplate { s: PtRef::Cand(3), e: PtRef::Cand(0), mv: Move::Right, gate: Gate::Always },
            ];
            proof { assert(v@ =~= spec_templates(code as int, regime)); }
            v
        }
        138 | 32 => {
            let v: Vec<EdgeTemplate> = vec![
                EdgeTemplate { s: PtRef::Cand(0), e: PtRef::Cand(1), mv: Move::Right, gate: Gate::Always },
                EdgeTemplate { s: PtRef::Cand(1), e: PtRef::Cand(2), mv: Move::Stay, gate: Gate::Right },
                EdgeTemplate { s: PtRef::Cand(2), e: PtRef::Cand(3), mv: Move::Up, gate: Gate::Always },
                EdgeTemplate { s: PtRef::Cand(3), e: PtRef::Cand(0), mv: Move::Stay, gate: Gate::Top },
            ];
            proof { assert(v@ =~= spec_templates(code as int, regime)); }
            v
        }
        42 | 128 => {
            let v: Vec<EdgeTemplate> = vec![
                EdgeTemplate { s: PtRef::Cand(0), e: PtRef::Cand(1), mv: Move::Left, gate: Gate::Always },
                EdgeTemplate { s: PtRef::Cand(1), e: PtRef::Cand(2), mv: Move::Stay, gate: Gate::Left },
                EdgeTemplate { s: PtRef::Cand(2), e: PtRef::Cand(3), mv: Move::Up, gate: Gate::Always },
                EdgeTemplate { s: PtRef::Cand(3), e: PtRef::Cand(0), mv: Move::Stay, gate: Gate::Top },
            ];
            proof { assert(v@ =~= spec_templates(code as int, regime)); }
            v
        }
        37 | 133 => {
            let v: Vec<EdgeTemplate> = vec![
                EdgeTemplate { s: PtRef::Cand(0), e: PtRef::Cand(1), mv: Move::Right, gate: Gate::Always },
                EdgeTemplate { s: PtRef::Cand(1), e: PtRef::Cand(2), mv: Move::Down, gate: Gate::Right },
                EdgeTemplate { s: PtRef::Cand(2), e: PtRef::Cand(3), mv: Move::Left, gate: Gate::Bottom },
                EdgeTemplate { s: PtRef::Cand(3), e: PtRef::Cand(4), mv: Move::Stay, gate: Gate::Left },
                EdgeTemplate { s: PtRef::Cand(4), e: PtRef::Cand(5), mv: Move::Up, gate: Gate::Always },
                EdgeTemplate { s: PtRef::Cand(5), e: PtRef::Cand(0), mv: Move::Stay, gate: Gate::Top },
            ];
            proof { assert(v@ =~= spec_templates(code as int, regime)); }
            v
        }
        148 | 22 => {
            let v: Vec<EdgeTemplate> = vec![
                EdgeTemplate { s: PtRef::Cand(0), e: PtRef::Cand(1), mv: Move::Down, gate: Gate::Right },
                EdgeTemplate { s: PtRef::Cand(1), e: PtRef::Cand(2), mv: Move::Stay, gate: Gate::Bottom },
                EdgeTemplate { s: PtRef::Cand(2), e: PtRef::Cand(3), mv: Move::Left, gate: Gate::Always },
                EdgeTemplate { s: PtRef::Cand(3), e: PtRef::Cand(4), mv: Move::Stay, gate: Gate::Left },
                EdgeTemplate { s: PtRef::Cand(4), e: PtRef::Cand(5), mv: Move::Up, gate: Gate::Always },
                EdgeTemplate { s: PtRef::Cand(5), e: PtRef::Cand(0), mv: Move::Right, gate: Gate::Top },
            ];
            proof { assert(v@ =~= spec_templates(code as int, regime)); }
            v
        }
        82 | 88 => {
            let v: Vec<EdgeTemplate> = vec![
                EdgeTemplate { s: PtRef::Cand(0), e: PtRef::Cand(1), mv: Move::Stay, gate: Gate::Right },
                EdgeTemplate { s: PtRef::Cand(1), e: PtRef::Cand(2), mv: Move::Down, gate: Gate::Always },
                EdgeTemplate { s: PtRef::Cand(2), e: PtRef::Cand(3), mv: Move::Stay, gate: Gate::Bottom },
                EdgeTemplate { s: PtRef::Cand(3), e: PtRef::Cand(4), mv: Move::Left, gate: Gate::Always },
                EdgeTemplate { s: PtRef::Cand(4), e: PtRef::Cand(5), mv: Move::Up, gate: Gate::Left },
                EdgeTemplate { s: PtRef::Cand(5), e: PtRef::Cand(0), mv: Move::Right, gate: Gate::Top },
            ];
            proof { assert(v@ =~= spec_templates(code as int, regime)); }
            v
        }
        73 | 97 => {
            let v: Vec<EdgeTemplate> = vec![
                EdgeTemplate { s: PtRef::Cand(0), e: PtRef::Cand(1), mv: Move::Right, gate: Gate::Always },
                EdgeTemplate { s: PtRef::Cand(1), e: PtRef::Cand(2), mv: Move::Stay, gate: Gate::Right },
                EdgeTemplate { s: PtRef::Cand(2), e: PtRef::Cand(3), mv: Move::Down, gate: Gate::Always },
                EdgeTemplate { s: PtRef::Cand(3), e: PtRef::Cand(4), mv: Move::Left, gate: Gate::Bottom },
                EdgeTemplate { s: PtRef::Cand(4), e: PtRef::Cand(5), mv: Move::Up, gate: Gate::Left },
                EdgeTemplate { s: PtRef::Cand(5), e: PtRef::Cand(0), mv: Move::Stay, gate: Gate::Top },
            ];
            proof { assert(v@ =~= spec_templates(code as int, regime)); }
            v
        }
        145 | 25 => {
            let v: Vec<EdgeTemplate> = vec![
                EdgeTemplate { s: PtRef::Cand(0), e: PtRef::Cand(1), mv: Move::Stay, gate: Gate::Right },
                EdgeTemplate { s: PtRef::Cand(1), e: PtRef::Cand(2), mv: Move::Down, gate: Gate::Always },
                EdgeTemplate { s: PtRef::Cand(2), e: PtRef::Cand(3), mv: Move::Left, gate: Gate::Bottom },
                EdgeTemplate { s: PtRef::Cand(3), e: PtRef::Cand(4), mv: Move::Stay, gate: Gate::Left },
                EdgeTemplate { s: PtRef::Cand(4), e: PtRef::Cand(5), mv: Move::Up, gate: Gate::Always },
                EdgeTemplate { s: PtRef::Cand(5), e: PtRef::Cand(0), mv: Move::Right, gate: Gate::Top },
            ];
            proof { assert(v@ =~= spec_templates(code as int, regime)); }
            v
        }
        70 | 100 => {
            let v: Vec<EdgeTemplate> = vec![
                EdgeTemplate { s: PtRef::Cand(0), e: PtRef::Cand(1), mv: Move::Right, gate: Gate::Always },
                EdgeTemplate { s: PtRef::Cand(1), e: PtRef::Cand(2), mv: Move::Down, gate: Gate::Right },
                EdgeTemplate { s: PtRef::Cand(2), e: PtRef::Cand(3), mv: Move::Stay, gate: Gate::Bottom },
                EdgeTemplate { s: PtRef::Cand(3), e: PtRef::Cand(4), mv: Move::Left, gate: Gate::Always },
                EdgeTemplate { s: PtRef::Cand(4), e: PtRef::Cand(5), mv: Move::Up, gate: Gate::Left },
                EdgeTemplate { s: PtRef::Cand(5), e: PtRef::Cand(0), mv: Move::Stay, gate: Gate::Top },
            ];
            proof { assert(v@ =~= spec_templates(code as int, regime)); }
            v
        }
        153 => {
            match regime {
                Regime::Low => {
                    let v: Vec<EdgeTemplate> = Vec::new();
                    proof { assert(v@ =~= spec_templates(code as int, regime)); }
                    v
                }
                Regime::Mid => {
                    let v: Vec<EdgeTemplate> = vec![
                        EdgeTemplate { s: PtRef::Ip(LevelSel::Upper, Side::Right), e: PtRef::Ip(LevelSel::Upper, Side::Bottom), mv: Move::Down, gate: Gate::Always },
                        EdgeTemplate { s: PtRef::Ip(LevelSel::Upper, Side::Bottom), e: PtRef::Corner(CornerSel::BL), mv: Move::Left, gate: Gate::Bottom },
                        EdgeTemplate { s: PtRef::Corner(CornerSel::BL), e: PtRef::Ip(LevelSel::Upper, Side::Left), mv: Move::Stay, gate: Gate::Left },
                        EdgeTemplate { s: PtRef::Ip(LevelSel::Upper, Side::Left), e: PtRef::Ip(LevelSel::Upper, Side::Top), mv: Move::Up, gate: Gate::Always },
                        EdgeTemplate { s: PtRef::Ip(LevelSel::Upper, Side::Top), e: PtRef::Corner(CornerSel::TR), mv: Move::Right, gate: Gate::Top },
                        EdgeTemplate { s: PtRef::Corner(CornerSel::TR), e: PtRef::Ip(LevelSel::Upper, Side::Right), mv: Move::Stay, gate: Gate::Right },
                    ];
                    proof { assert(v@ =~= spec_templates(code as int, regime)); }
                    v
                }
                Regime::High => {
                    let v: Vec<EdgeTemplate> = vec![
                        EdgeTemplate { s: PtRef::Ip(LevelSel::Upper, Side::Right), e: PtRef::Ip(LevelSel::Upper, Side::Top), mv: Move::Up, gate: Gate::Always },
                        EdgeTemplate { s: PtRef::Ip(LevelSel::Upper, Side::Top), e: PtRef::Corner(CornerSel::TR), mv: Move::Right, gate: Gate::Top },
                        EdgeTemplate { s: PtRef::Corner(CornerSel::TR), e: PtRef::Ip(LevelSel::Upper, Side::Right), mv: Move::Stay, gate: Gate::Right },
                        EdgeTemplate { s: PtRef::Ip(LevelSel::Upper, Side::Left), e: PtRef::Ip(LevelSel::Upper, Side::Bottom), mv: Move::Down, gate: Gate::Always },
                        EdgeTemplate { s: PtRef::Ip(LevelSel::Upper, Side::Bottom), e: PtRef::Corner(CornerSel::BL), mv: Move::Left, gate: Gate::Bottom },
                        EdgeTemplate { s: PtRef::Corner(CornerSel::BL), e: PtRef::Ip(LevelSel::Upper, Side::Left), mv: Move::Stay, gate: Gate::Left },
                    ];
                    proof { assert(v@ =~= spec_templates(code as int, regime)); }
                    v
                }
            }
        }
        102 => {
            match regime {
                Regime::Low => {
                    let v: Vec<EdgeTemplate> = Vec::new();
                    proof { assert(v@ =~= spec_templates(code as int, regime)); }
                    v
                }
                Regime::Mid => {
                    let v: Vec<EdgeTemplate> = vec![
                        EdgeTemplate { s: PtRef::Ip(LevelSel::Upper, Side::Top), e: PtRef::Ip(LevelSel::Upper, Side::Right), mv: Move::Right, gate: Gate::Always },
                        EdgeTemplate { s: PtRef::Ip(LevelSel::Upper, Side::Right), e: PtRef::Corner(CornerSel::BR), mv: Move::Down, gate: Gate::Right },
                        EdgeTemplate { s: PtRef::Corner(CornerSel::BR), e: PtRef::Ip(LevelSel::Upper, Side::Bottom), mv: Move::Stay, gate: Gate::Bottom },
                        EdgeTemplate { s: PtRef::Ip(LevelSel::Upper, Side::Bottom), e: PtRef::Ip(LevelSel::Upper, Side::Left), mv: Move::Left, gate: Gate::Always },
                        EdgeTemplate { s: PtRef::Ip(LevelSel::Upper, Side::Left), e: PtRef::Corner(CornerSel::TL), mv: Move::Up, gate: Gate::Left },
                        EdgeTemplate { s: PtRef::Corner(CornerSel::TL), e: PtRef::Ip(LevelSel::Upper, Side::Top), mv: Move::Stay, gate: Gate::Top },
                    ];
                    proof { assert(v@ =~= spec_templates(code as int, regime)); }
                    v
                }
                Regime::High => {
                    let v: Vec<EdgeTemplate> = vec![
                        EdgeTemplate { s: PtRef::Ip(LevelSel::Upper, Side::Top), e: PtRef::Ip(LevelSel::Upper, Side::Left), mv: Move::Left, gate: Gate::Always },
                        EdgeTemplate { s: PtRef::Ip(LevelSel::Upper, Side::Left), e: PtRef::Corner(CornerSel::TL), mv: Move::Up, gate: Gate::Left },
                        EdgeTemplate { s: PtRef::Corner(CornerSel::TL), e: PtRef::Ip(LevelSel::Upper, Side::Top), mv: Move::Stay, gate: Gate::Top },
                        EdgeTemplate { s: PtRef::Ip(LevelSel::Upper, Side::Bottom), e: PtRef::Ip(LevelSel::Upper, Side::Right), mv: Move::Right, gate: Gate::Always },
                        EdgeTemplate { s: PtRef::Ip(LevelSel::Upper, Side::Right), e: PtRef::Corner(CornerSel::BR), mv: Move::Down, gate: Gate::Right },
                        EdgeTemplate { s: PtRef::Corner(CornerSel::BR), e: PtRef::Ip(LevelSel::Upper, Side::Bottom), mv: Move::Stay, gate: Gate::Bottom },
                    ];
                    proof { assert(v@ =~= spec_templates(code as int, regime)); }
                    v
                }
            }
        }
        68 => {
            match regime {
                Regime::Low => {
                    let v: Vec<EdgeTemplate> = vec![
                        EdgeTemplate { s: PtRef::Ip(LevelSel::Lower, Side::Top), e: PtRef::Ip(LevelSel::Lower, Side::Left), mv: Move::Left, gate: Gate::Always },
                        EdgeTemplate { s: PtRef::Ip(LevelSel::Lower, Side::Left), e: PtRef::Corner(CornerSel::TL), mv: Move::Up, gate: Gate::Left },
                        EdgeTemplate { s: PtRef::Corner(CornerSel::TL), e: PtRef::Ip(LevelSel::Lower, Side::Top), mv: Move::Stay, gate: Gate::Top },
                        EdgeTemplate { s: PtRef::Ip(LevelSel::Lower, Side::Bottom), e: PtRef::Ip(LevelSel::Lower, Side::Right), mv: Move::Right, gate: Gate::Always },
                        EdgeTemplate { s: PtRef::Ip(LevelSel::Lower, Side::Right), e: PtRef::Corner(CornerSel::BR), mv: Move::Down, gate: Gate::Right },
                        EdgeTemplate { s: PtRef::Corner(CornerSel::BR), e: PtRef::Ip(LevelSel::Lower, Side::Bottom), mv: Move::Stay, gate: Gate::Bottom },
                    ];
                    proof { assert(v@ =~= spec_templates(code as int, regime)); }
                    v
                }
                Regime::Mid => {
                    let v: Vec<EdgeTemplate> = vec![
                        EdgeTemplate { s: PtRef::Ip(LevelSel::Lower, Side::Top), e: PtRef::Ip(LevelSel::Lower, Side::Right), mv: Move::Right, gate: Gate::Always },
                        EdgeTemplate { s: PtRef::Ip(LevelSel::Lower, Side::Right), e: PtRef::Corner(CornerSel::BR), mv: Move::Down, gate: Gate::Right },
                        EdgeTemplate { s: PtRef::Corner(CornerSel::BR), e: PtRef::Ip(LevelSel::Lower, Side::Bottom), mv: Move::Stay, gate: Gate::Bottom },
                        EdgeTemplate { s: PtRef::Ip(LevelSel::Lower, Side::Bottom), e: PtRef::Ip(LevelSel::Lower, Side::Left), mv: Move::Left, gate: Gate::Always },
                        EdgeTemplate { s: PtRef::Ip(LevelSel::Lower, Side::Left), e: PtRef::Corner(CornerSel::TL), mv: Move::Up, gate: Gate::Left },
                        EdgeTemplate { s: PtRef::Corner(CornerSel::TL), e: PtRef::Ip(LevelSel::Lower, Side::Top), mv: Move::Stay, gate: Gate::Top },
                    ];
                    proof { assert(v@ =~= spec_templates(code as int, regime)); }
                    v
                }
                Regime::High => {
                    let v: Vec<EdgeTemplate> = Vec::new();
                    proof { assert(v@ =~= spec_templates(code as int, regime)); }
                    v
                }
            }
        }
        17 => {
            match regime {
                Regime::Low => {
                    let v: Vec<EdgeTemplate> = vec![
                        EdgeTemplate { s: PtRef::Ip(LevelSel::Lower, Side::Right), e: PtRef::Ip(LevelSel::Lower, Side::Top), mv: Move::Up, gate: Gate::Always },
                        EdgeTemplate { s: PtRef::Ip(LevelSel::Lower, Side::Top), e: PtRef::Corner(CornerSel::TR), mv: Move::Right, gate: Gate::Top },
                        EdgeTemplate { s: PtRef::Corner(CornerSel::TR), e: PtRef::Ip(LevelSel::Lower, Side::Right), mv: Move::Stay, gate: Gate::Right },
                        EdgeTemplate { s: PtRef::Ip(LevelSel::Lower, Side::Left), e: PtRef::Ip(LevelSel::Lower, Side::Bottom), mv: Move::Down, gate: Gate::Always },
                        EdgeTemplate { s: PtRef::Ip(LevelSel::Lower, Side::Bottom), e: PtRef::Corner(CornerSel::BL), mv: Move::Left, gate: Gate::Bottom },
                        EdgeTemplate { s: PtRef::Corner(CornerSel::BL), e: PtRef::Ip(LevelSel::Lower, Side::Left), mv: Move::Stay, gate: Gate::Left },
                    ];
                    proof { assert(v@ =~= spec_templates(code as int, regime)); }
                    v
                }
                Regime::Mid => {
                    let v: Vec<EdgeTemplate> = vec![
                        EdgeTemplate { s: PtRef::Ip(LevelSel::Lower, Side::Right), e: PtRef::Ip(LevelSel::Lower, Side::Bottom), mv: Move::Down, gate: Gate::Always },
                        EdgeTemplate { s: PtRef::Ip(LevelSel::Lower, Side::Bottom), e: PtRef::Corner(CornerSel::BL), mv: Move::Left, gate: Gate::Bottom },
                        EdgeTemplate { s: PtRef::Corner(CornerSel::BL), e: PtRef::Ip(LevelSel::Lower, Side::Left), mv: Move::Stay, gate: Gate::Left },
                        EdgeTemplate { s: PtRef::Ip(LevelSel::Lower, Side::Left), e: PtRef::Ip(LevelSel::Lower, Side::Top), mv: Move::Up, gate: Gate::Always },
                        EdgeTemplate { s: PtRef::Ip(LevelSel::Lower, Side::Top), e: PtRef::Corner(CornerSel::TR), mv: Move::Right, gate: Gate::Top },
                        EdgeTemplate { s: PtRef::Corner(CornerSel::TR), e: PtRef::Ip(LevelSel::Lower, Side::Right), mv: Move::Stay, gate: Gate::Right },
                    ];
                    proof { assert(v@ =~= spec_templates(code as int, regime)); }
                    v
                }
                Regime::High => {
                    let v: Vec<EdgeTemplate> = Vec::new();
                    proof { assert(v@ =~= spec_templates(code as int, regime)); }
                    v
                }
            }
        }
        136 => {
            match regime {
                Regime::Low => {
                    let v: Vec<EdgeTemplate> = vec![
                        EdgeTemplate { s: PtRef::Ip(LevelSel::Lower, Side::Top), e: PtRef::Ip(LevelSel::Lower, Side::Left), mv: Move::Left, gate: Gate::Always },
                        EdgeTemplate { s: PtRef::Ip(LevelSel::Lower, Side::Left), e: PtRef::Ip(LevelSel::Upper, Side::Left), mv: Move::Stay, gate: Gate::Left },
                        EdgeTemplate { s: PtRef::Ip(LevelSel::Upper, Side::Left), e: PtRef::Ip(LevelSel::Upper, Side::Top), mv: Move::Up, gate: Gate::Always },
                        EdgeTemplate { s: PtRef::Ip(LevelSel::Upper, Side::Top), e: PtRef::Ip(LevelSel::Lower, Side::Top), mv: Move::Stay, gate: Gate::Top },
                        EdgeTemplate { s: PtRef::Ip(LevelSel::Upper, Side::Right), e: PtRef::Ip(LevelSel::Upper, Side::Bottom), mv: Move::Down, gate: Gate::Always },
                        EdgeTemplate { s: PtRef::Ip(LevelSel::Upper, Side::Bottom), e: PtRef::Ip(LevelSel::Lower, Side::Bottom), mv: Move::Stay, gate: Gate::Bottom },
                        EdgeTemplate { s: PtRef::Ip(LevelSel::Lower, Side::Bottom), e: PtRef::Ip(LevelSel::Lower, Side::Right), mv: Move::Right, gate: Gate::Always },
                        EdgeTemplate { s: PtRef::Ip(LevelSel::Lower, Side::Right), e: PtRef::Ip(LevelSel::Upper, Side::Right), mv: Move::Stay, gate: Gate::Right },
                    ];
                    proof { assert(v@ =~= spec_templates(code as int, regime)); }
                    v
                }
                Regime::Mid => {
                    let v: Vec<EdgeTemplate> = vec![
                        EdgeTemplate { s: PtRef::Ip(LevelSel::Lower, Side::Top), e: PtRef::Ip(LevelSel::Lower, Side::Right), mv: Move::Right, gate: Gate::Always },
                        EdgeTemplate { s: PtRef::Ip(LevelSel::Lower, Side::Right), e: PtRef::Ip(LevelSel::Upper, Side::Right), mv: Move::Stay, gate: Gate::Right },
                        EdgeTemplate { s: PtRef::Ip(LevelSel::Upper, Side::Right), e: PtRef::Ip(LevelSel::Upper, Side::Bottom), mv: Move::Down, gate: Gate::Always },
                        EdgeTemplate { s: PtRef::Ip(LevelSel::Upper, Side::Bottom), e: PtRef::Ip(LevelSel::Lower, Side::Bottom), mv: Move::Stay, gate: Gate::Bottom },
                        EdgeTemplate { s: PtRef::Ip(LevelSel::Lower, Side::Bottom), e: PtRef::Ip(LevelSel::Lower, Side::Left), mv: Move::Left, gate: Gate::Always },
                        EdgeTemplate { s: PtRef::Ip(LevelSel::Lower, Side::Left), e: PtRef::Ip(LevelSel::Upper, Side::Left), mv: Move::Stay, gate: Gate::Left },
                        EdgeTemplate { s: PtRef::Ip(LevelSel::Upper, Side::Left), e: PtRef::Ip(LevelSel::Upper, Side::Top), mv: Move::Up, gate: Gate::Always },
                        EdgeTemplate { s: PtRef::Ip(LevelSel::Upper, Side::Top), e: PtRef::Ip(LevelSel::Lower, Side::Top), mv: Move::Stay, gate: Gate::Top },
                    ];
                    proof { assert(v@ =~= spec_templates(code as int, regime)); }
                    v
                }
                Regime::High => {
                    let v: Vec<EdgeTemplate> = vec![
                        EdgeTemplate { s: PtRef::Ip(LevelSel::Lower, Side::Top), e: PtRef::Ip(LevelSel::Lower, Side::Right), mv: Move::Right, gate: Gate::Always },
                        EdgeTemplate { s: PtRef::Ip(LevelSel::Lower, Side::Right), e: PtRef::Ip(LevelSel::Upper, Side::Right), mv: Move::Stay, gate: Gate::Right },
                        EdgeTemplate { s: PtRef::Ip(LevelSel::Upper, Side::Right), e: PtRef::Ip(LevelSel::Upper, Side::Top), mv: Move::Up, gate: Gate::Always },
                        EdgeTemplate { s: PtRef::Ip(LevelSel::Upper, Side::Top), e: PtRef::Ip(LevelSel::Lower, Side::Top), mv: Move::Stay, gate: Gate::Top },
                        EdgeTemplate { s: PtRef::Ip(LevelSel::Lower, Side::Bottom), e: PtRef::Ip(LevelSel::Lower, Side::Left), mv: Move::Left, gate: Gate::Always },
                        EdgeTemplate { s: PtRef::Ip(LevelSel::Lower, Side::Left), e: PtRef::Ip(LevelSel::Upper, Side::Left), mv: Move::Stay, gate: Gate::Left },
                        EdgeTemplate { s: PtRef::Ip(LevelSel::Upper, Side::Left), e: PtRef::Ip(LevelSel::Upper, Side::Bottom), mv: Move::Down, gate: Gate::Always },
                        EdgeTemplate { s: PtRef::Ip(LevelSel::Upper, Side::Bottom), e: PtRef::Ip(LevelSel::Lower, Side::Bottom), mv: Move::Stay, gate: Gate::Bottom },
                    ];
                    proof { assert(v@ =~= spec_templates(code as int, regime)); }
                    v
                }
            }
        }
        34 => {
            match regime {
                Regime::Low => {
                    let v: Vec<EdgeTemplate> = vec![
                        EdgeTemplate { s: PtRef::Ip(LevelSel::Upper, Side::Top), e: PtRef::Ip(LevelSel::Upper, Side::Right), mv: Move::Right, gate: Gate::Always },
                        EdgeTemplate { s: PtRef::Ip(LevelSel::Upper, Side::Right), e: PtRef::Ip(LevelSel::Lower, Side::Right), mv: Move::Stay, gate: Gate::Right },
                        EdgeTemplate { s: PtRef::Ip(LevelSel::Lower, Side::Right), e: PtRef::Ip(LevelSel::Lower, Side::Top), mv: Move::Up, gate: Gate::Always },
                        EdgeTemplate { s: PtRef::Ip(LevelSel::Lower, Side::Top), e: PtRef::Ip(LevelSel::Upper, Side::Top), mv: Move::Stay, gate: Gate::Top },
                        EdgeTemplate { s: PtRef::Ip(LevelSel::Upper, Side::Bottom), e: PtRef::Ip(LevelSel::Upper, Side::Left), mv: Move::Left, gate: Gate::Always },
                        EdgeTemplate { s: PtRef::Ip(LevelSel::Upper, Side::Left), e: PtRef::Ip(LevelSel::Lower, Side::Left), mv: Move::Stay, gate: Gate::Left },
                        EdgeTemplate { s: PtRef::Ip(LevelSel::Lower, Side::Left), e: PtRef::Ip(LevelSel::Lower, Side::Bottom), mv: Move::Down, gate: Gate::Always },
                        EdgeTemplate { s: PtRef::Ip(LevelSel::Lower, Side::Bottom), e: PtRef::Ip(LevelSel::Upper, Side::Bottom), mv: Move::Stay, gate: Gate::Bottom },
                    ];
                    proof { assert(v@ =~= spec_templates(code as int, regime)); }
                    v
                }
                Regime::Mid => {
                    let v: Vec<EdgeTemplate> = vec![
                        EdgeTemplate { s: PtRef::Ip(LevelSel::Upper, Side::Top), e: PtRef::Ip(LevelSel::Upper, Side::Right), mv: Move::Right, gate: Gate::Always },
                        EdgeTemplate { s: PtRef::Ip(LevelSel::Upper, Side::Right), e: PtRef::Ip(LevelSel::Lower, Side::Right), mv: Move::Stay, gate: Gate::Right },
                        EdgeTemplate { s: PtRef::Ip(LevelSel::Lower, Side::Right), e: PtRef::Ip(LevelSel::Lower, Side::Bottom), mv: Move::Down, gate: Gate::Always },
                        EdgeTemplate { s: PtRef::Ip(LevelSel::Lower, Side::Bottom), e: PtRef::Ip(LevelSel::Upper, Side::Bottom), mv: Move::Stay, gate: Gate::Bottom },
                        EdgeTemplate { s: PtRef::Ip(LevelSel::Upper, Side::Bottom), e: PtRef::Ip(LevelSel::Upper, Side::Left), mv: Move::Left, gate: Gate::Always },
                        EdgeTemplate { s: PtRef::Ip(LevelSel::Upper, Side::Left), e: PtRef::Ip(LevelSel::Lower, Side::Left), mv: Move::Stay, gate: Gate::Left },
                        EdgeTemplate { s: PtRef::Ip(LevelSel::Lower, Side::Left), e: PtRef::Ip(LevelSel::Lower, Side::Top), mv: Move::Up, gate: Gate::Always },
                        EdgeTemplate { s: PtRef::Ip(LevelSel::Lower, Side::Top), e: PtRef::Ip(LevelSel::Upper, Side::Top), mv: Move::Stay, gate: Gate::Top },
                    ];
                    proof { assert(v@ =~= spec_templates(code as int, regime)); }
                    v
                }
                Regime::High => {
                    let v: Vec<EdgeTemplate> = vec![
                        EdgeTemplate { s: PtRef::Ip(LevelSel::Upper, Side::Top), e: PtRef::Ip(LevelSel::Upper, Side::Left), mv: Move::Left, gate: Gate::Always },
                        EdgeTemplate { s: PtRef::Ip(LevelSel::Upper, Side::Left), e: PtRef::Ip(LevelSel::Lower, Side::Left), mv: Move::Stay, gate: Gate::Left },
                        EdgeTemplate { s: PtRef::Ip(LevelSel::Lower, Side::Left), e: PtRef::Ip(LevelSel::Lower, Side::Top), mv: Move::Up, gate: Gate::Always },
                        EdgeTemplate { s: PtRef::Ip(LevelSel::Lower, Side::Top), e: PtRef::Ip(LevelSel::Upper, Side::Top), mv: Move::Stay, gate: Gate::Top },
                        EdgeTemplate { s: PtRef::Ip(LevelSel::Lower, Side::Right), e: PtRef::Ip(LevelSel::Lower, Side::Bottom), mv: Move::Down, gate: Gate::Always },
                        EdgeTemplate { s: PtRef::Ip(LevelSel::Lower, Side::Bottom), e: PtRef::Ip(LevelSel::Upper, Side::Bottom), mv: Move::Stay, gate: Gate::Bottom },
                        EdgeTemplate { s: PtRef::Ip(LevelSel::Upper, Side::Bottom), e: PtRef::Ip(LevelSel::Upper, Side::Right), mv: Move::Right, gate: Gate::Always },
                        EdgeTemplate { s: PtRef::Ip(LevelSel::Upper, Side::Right), e: PtRef::Ip(LevelSel::Lower, Side::Right), mv: Move::Stay, gate: Gate::Right },
                    ];
                    proof { assert(v@ =~= spec_templates(code as int, regime)); }
                    v
                }
            }
        }
        152 => {
            match regime {
                Regime::Low => {
                    let v: Vec<EdgeTemplate> = vec![
                        EdgeTemplate { s: PtRef::Ip(LevelSel::Upper, Side::Right), e: PtRef::Ip(LevelSel::Upper, Side::Top), mv: Move::Up, gate: Gate::Always },
                        EdgeTemplate { s: PtRef::Ip(LevelSel::Upper, Side::Top), e: PtRef::Corner(CornerSel::TR), mv: Move::Right, gate: Gate::Top },
                        EdgeTemplate { s: PtRef::Corner(CornerSel::TR), e: PtRef::Ip(LevelSel::Upper, Side::Right), mv: Move::Stay, gate: Gate::Right },
                        EdgeTemplate { s: PtRef::Ip(LevelSel::Lower, Side::Bottom), e: PtRef::Ip(LevelSel::Lower, Side::Left), mv: Move::Left, gate: Gate::Always },
                        EdgeTemplate { s: PtRef::Ip(LevelSel::Lower, Side::Left), e: PtRef::Ip(LevelSel::Upper, Side::Left), mv: Move::Stay, gate: Gate::Left },
                        EdgeTemplate { s: PtRef::Ip(LevelSel::Upper, Side::Left), e: PtRef::Ip(LevelSel::Upper, Side::Bottom), mv: Move::Down, gate: Gate::Always },
                        EdgeTemplate { s: PtRef::Ip(LevelSel::Upper, Side::Bottom), e: PtRef::Ip(LevelSel::Lower, Side::Bottom), mv: Move::Stay, gate: Gate::Bottom },
                    ];
                    proof { assert(v@ =~= spec_templates(code as int, regime)); }
                    v
                }
                Regime::Mid => {
                    let v: Vec<EdgeTemplate> = vec![
                        EdgeTemplate { s: PtRef::Ip(LevelSel::Upper, Side::Right), e: PtRef::Ip(LevelSel::Upper, Side::Bottom), mv: Move::Down, gate: Gate::Always },
                        EdgeTemplate { s: PtRef::Ip(LevelSel::Upper, Side::Bottom), e: PtRef::Ip(LevelSel::Lower, Side::Bottom), mv: Move::Stay, gate: Gate::Bottom },
                        EdgeTemplate { s: PtRef::Ip(LevelSel::Lower, Side::Bottom), e: PtRef::Ip(LevelSel::Lower, Side::Left), mv: Move::Left, gate: Gate::Always },
                        EdgeTemplate { s: PtRef::Ip(LevelSel::Lower, Side::Left), e: PtRef::Ip(LevelSel::Upper, Side::Left), mv: Move::Stay, gate: Gate::Left },
                        EdgeTemplate { s: PtRef::Ip(LevelSel::Upper, Side::Left), e: PtRef::Ip(LevelSel::Upper, Side::Top), mv: Move::Up, gate: Gate::Always },
                        EdgeTemplate { s: PtRef::Ip(LevelSel::Upper, Side::Top), e: PtRef::Corner(CornerSel::TR), mv: Move::Right, gate: Gate::Top },
                        EdgeTemplate { s: PtRef::Corner(CornerSel::TR), e: PtRef::Ip(LevelSel::Upper, Side::Right), mv: Move::Stay, gate: Gate::Right },
                    ];
                    proof { assert(v@ =~= spec_templates(code as int, regime)); }
                    v
                }
                Regime::High => {
                    let v: Vec<EdgeTemplate> = vec![
                        EdgeTemplate { s: PtRef::Ip(LevelSel::Upper, Side::Right), e: PtRef::Ip(LevelSel::Upper, Side::Top), mv: Move::Up, gate: Gate::Always },
                        EdgeTemplate { s: PtRef::Ip(LevelSel::Upper, Side::Top), e: PtRef::Corner(CornerSel::TR), mv: Move::Right, gate: Gate::Top },
                        EdgeTemplate { s: PtRef::Corner(CornerSel::TR), e: PtRef::Ip(LevelSel::Upper, Side::Right), mv: Move::Stay, gate: Gate::Right },
                        EdgeTemplate { s: PtRef::Ip(LevelSel::Lower, Side::Bottom), e: PtRef::Ip(LevelSel::Lower, Side::Left), mv: Move::Left, gate: Gate::Always },
                        EdgeTemplate { s: PtRef::Ip(LevelSel::Lower, Side::Left), e: PtRef::Ip(LevelSel::Upper, Side::Left), mv: Move::Stay, gate: Gate::Left },
                        EdgeTemplate { s: PtRef::Ip(LevelSel::Upper, Side::Left), e: PtRef::Ip(LevelSel::Upper, Side::Bottom), mv: Move::Down, gate: Gate::Always },
                        EdgeTemplate { s: PtRef::Ip(LevelSel::Upper, Side::Bottom), e: PtRef::Ip(LevelSel::Lower, Side::Bottom), mv: Move::Stay, gate: Gate::Bottom },
                    ];
                    proof { assert(v@ =~= spec_templates(code as int, regime)); }
                    v
                }
            }
        }
        18 => {
            match regime {
                Regime::Low => {
                    let v: Vec<EdgeTemplate> = vec![
                        EdgeTemplate { s: PtRef::Ip(LevelSel::Lower, Side::Right), e: PtRef::Ip(LevelSel::Lower, Side::Top), mv: Move::Up, gate: Gate::Always },
                        EdgeTemplate { s: PtRef::Ip(LevelSel::Lower, Side::Top), e: PtRef::Corner(CornerSel::TR), mv: Move::Right, gate: Gate::Top },
                        EdgeTemplate { s: PtRef::Corner(CornerSel::TR), e: PtRef::Ip(LevelSel::Lower, Side::Right), mv: Move::Stay, gate: Gate::Right },
                        EdgeTemplate { s: PtRef::Ip(LevelSel::Upper, Side::Bottom), e: PtRef::Ip(LevelSel::Upper, Side::Left), mv: Move::Left, gate: Gate::Always },
                        EdgeTemplate { s: PtRef::Ip(LevelSel::Upper, Side::Left), e: PtRef::Ip(LevelSel::Lower, Side::Left), mv: Move::Stay, gate: Gate::Left },
                        EdgeTemplate { s: PtRef::Ip(LevelSel::Lower, Side::Left), e: PtRef::Ip(LevelSel::Lower, Side::Bottom), mv: Move::Down, gate: Gate::Always },
                        EdgeTemplate { s: PtRef::Ip(LevelSel::Lower, Side::Bottom), e: PtRef::Ip(LevelSel::Upper, Side::Bottom), mv: Move::Stay, gate: Gate::Bottom },
                    ];
                    proof { assert(v@ =~= spec_templates(code as int, regime)); }
                    v
                }
                Regime::Mid => {
                    let v: Vec<EdgeTemplate> = vec![
                        EdgeTemplate { s: PtRef::Ip(LevelSel::Lower, Side::Right), e: PtRef::Ip(LevelSel::Lower, Side::Bottom), mv: Move::Down, gate: Gate::Always },
                        EdgeTemplate { s: PtRef::Ip(LevelSel::Lower, Side::Bottom), e: PtRef::Ip(LevelSel::Upper, Side::Bottom), mv: Move::Stay, gate: Gate::Bottom },
                        EdgeTemplate { s: PtRef::Ip(LevelSel::Upper, Side::Bottom), e: PtRef::Ip(LevelSel::Upper, Side::Left), mv: Move::Left, gate: Gate::Always },
                        EdgeTemplate { s: PtRef::Ip(LevelSel::Upper, Side::Left), e: PtRef::Ip(LevelSel::Lower, Side::Left), mv: Move::Stay, gate: Gate::Left },
                        EdgeTemplate { s: PtRef::Ip(LevelSel::Lower, Side::Left), e: PtRef::Ip(LevelSel::Lower, Side::Top), mv: Move::Up, gate: Gate::Always },
                        EdgeTemplate { s: PtRef::Ip(LevelSel::Lower, Side::Top), e: PtRef::Corner(CornerSel::TR), mv: Move::Right, gate: Gate::Top },
                        EdgeTemplate { s: PtRef::Corner(CornerSel::TR), e: PtRef::Ip(LevelSel::Lower, Side::Right), mv: Move::Stay, gate: Gate::Right },
                    ];
                    proof { assert(v@ =~= spec_templates(code as int, regime)); }
                    v
                }
                Regime::High => {
                    let v: Vec<EdgeTemplate> = vec![
                        EdgeTemplate { s: PtRef::Ip(LevelSel::Lower, Side::Right), e: PtRef::Ip(LevelSel::Lower, Side::Top), mv: Move::Up, gate: Gate::Always },
                        EdgeTemplate { s: PtRef::Ip(LevelSel::Lower, Side::Top), e: PtRef::Corner(CornerSel::TR), mv: Move::Right, gate: Gate::Top },
                        EdgeTemplate { s: PtRef::Corner(CornerSel::TR), e: PtRef::Ip(LevelSel::Lower, Side::Right), mv: Move::Stay, gate: Gate::Right },
                        EdgeTemplate { s: PtRef::Ip(LevelSel::Upper, Side::Bottom), e: PtRef::Ip(LevelSel::Upper, Side::Left), mv: Move::Left, gate: Gate::Always },
                        EdgeTemplate { s: PtRef::Ip(LevelSel::Upper, Side::Left), e: PtRef::Ip(LevelSel::Lower, Side::Left), mv: Move::Stay, gate: Gate::Left },
                        EdgeTemplate { s: PtRef::Ip(LevelSel::Lower, Side::Left), e: PtRef::Ip(LevelSel::Lower, Side::Bottom), mv: Move::Down, gate: Gate::Always },
                        EdgeTemplate { s: PtRef::Ip(LevelSel::Lower, Side::Bottom), e: PtRef::Ip(LevelSel::Upper, Side::Bottom), mv: Move::Stay, gate: Gate::Bottom },
                    ];
                    proof { assert(v@ =~= spec_templates(code as int, regime)); }
                    v
                }
            }
        }
        137 => {
            match regime {
                Regime::Low => {
                    let v: Vec<EdgeTemplate> = vec![
                        EdgeTemplate { s: PtRef::Ip(LevelSel::Lower, Side::Top), e: PtRef::Ip(LevelSel::Lower, Side::Right), mv: Move::Right, gate: Gate::Always },
                        EdgeTemplate { s: PtRef::Ip(LevelSel::Lower, Side::Right), e: PtRef::Ip(LevelSel::Upper, Side::Right), mv: Move::Stay, gate: Gate::Right },
                        EdgeTemplate { s: PtRef::Ip(LevelSel::Upper, Side::Right), e: PtRef::Ip(LevelSel::Upper, Side::Top), mv: Move::Up, gate: Gate::Always },
                        EdgeTemplate { s: PtRef::Ip(LevelSel::Upper, Side::Top), e: PtRef::Ip(LevelSel::Lower, Side::Top), mv: Move::Stay, gate: Gate::Top },
                        EdgeTemplate { s: PtRef::Ip(LevelSel::Upper, Side::Left), e: PtRef::Ip(LevelSel::Upper, Side::Bottom), mv: Move::Down, gate: Gate::Always },
                        EdgeTemplate { s: PtRef::Ip(LevelSel::Upper, Side::Bottom), e: PtRef::Corner(CornerSel::BL), mv: Move::Left, gate: Gate::Bottom },
                        EdgeTemplate { s: PtRef::Corner(CornerSel::BL), e: PtRef::Ip(LevelSel::Upper, Side::Left), mv: Move::Stay, gate: Gate::Left },
                    ];
                    proof { assert(v@ =~= spec_templates(code as int, regime)); }
                    v
                }
                Regime::Mid => {
                    let v: Vec<EdgeTemplate> = vec![
                        EdgeTemplate { s: PtRef::Ip(LevelSel::Lower, Side::Top), e: PtRef::Ip(LevelSel::Lower, Side::Right), mv: Move::Right, gate: Gate::Always },
                        EdgeTemplate { s: PtRef::Ip(LevelSel::Lower, Side::Right), e: PtRef::Ip(LevelSel::Upper, Side::Right), mv: Move::Stay, gate: Gate::Right },
                        EdgeTemplate { s: PtRef::Ip(LevelSel::Upper, Side::Right), e: PtRef::Ip(LevelSel::Upper, Side::Bottom), mv: Move::Down, gate: Gate::Always },
                        EdgeTemplate { s: PtRef::Ip(LevelSel::Upper, Side::Bottom), e: PtRef::Corner(CornerSel::BL), mv: Move::Left, gate: Gate::Bottom },
                        EdgeTemplate { s: PtRef::Corner(CornerSel::BL), e: PtRef::Ip(LevelSel::Upper, Side::Left), mv: Move::Stay, gate: Gate::Left },
                        EdgeTemplate { s: PtRef::Ip(LevelSel::Upper, Side::Left), e: PtRef::Ip(LevelSel::Upper, Side::Top), mv: Move::Up, gate: Gate::Always },
                        EdgeTemplate { s: PtRef::Ip(LevelSel::Upper, Side::Top), e: PtRef::Ip(LevelSel::Lower, Side::Top), mv: Move::Stay, gate: Gate::Top },
                    ];
                    proof { assert(v@ =~= spec_templates(code as int, regime)); }
                    v
                }
                Regime::High => {
                    let v: Vec<EdgeTemplate> = vec![
                        EdgeTemplate { s: PtRef::Ip(LevelSel::Lower, Side::Top), e: PtRef::Ip(LevelSel::Lower, Side::Right), mv: Move::Right, gate: Gate::Always },
                        EdgeTemplate { s: PtRef::Ip(LevelSel::Lower, Side::Right), e: PtRef::Ip(LevelSel::Upper, Side::Right), mv: Move::Stay, gate: Gate::Right },
                        EdgeTemplate { s: PtRef::Ip(LevelSel::Upper, Side::Right), e: PtRef::Ip(LevelSel::Upper, Side::Top), mv: Move::Up, gate: Gate::Always },
                        EdgeTemplate { s: PtRef::Ip(LevelSel::Upper, Side::Top), e: PtRef::Ip(LevelSel::Lower, Side::Top), mv: Move::Stay, gate: Gate::Top },
                        EdgeTemplate { s: PtRef::Ip(LevelSel::Upper, Side::Left), e: PtRef::Ip(LevelSel::Upper, Side::Bottom), mv: Move::Down, gate: Gate::Always },
                        EdgeTemplate { s: PtRef::Ip(LevelSel::Upper, Side::Bottom), e: PtRef::Corner(CornerSel::BL), mv: Move::Left, gate: Gate::Bottom },
                        EdgeTemplate { s: PtRef::Corner(CornerSel::BL), e: PtRef::Ip(LevelSel::Upper, Side::Left), mv: Move::Stay, gate: Gate::Left },
                    ];
                    proof { assert(v@ =~= spec_templates(code as int, regime)); }
                    v
                }
            }
        }
        33 => {
            match regime {
                Regime::Low => {
                    let v: Vec<EdgeTemplate> = vec![
                        EdgeTemplate { s: PtRef::Ip(LevelSel::Upper, Side::Top), e: PtRef::Ip(LevelSel::Upper, Side::Right), mv: Move::Right, gate: Gate::Always },
                        EdgeTemplate { s: PtRef::Ip(LevelSel::Upper, Side::Right), e: PtRef::Ip(LevelSel::Lower, Side::Right), mv: Move::Stay, gate: Gate::Right },
                        EdgeTemplate { s: PtRef::Ip(LevelSel::Lower, Side::Right), e: PtRef::Ip(LevelSel::Lower, Side::Top), mv: Move::Up, gate: Gate::Always },
                        EdgeTemplate { s: PtRef::Ip(LevelSel::Lower, Side::Top), e: PtRef::Ip(LevelSel::Upper, Side::Top), mv: Move::Stay, gate: Gate::Top },
                        EdgeTemplate { s: PtRef::Ip(LevelSel::Lower, Side::Left), e: PtRef::Ip(LevelSel::Lower, Side::Bottom), mv: Move::Down, gate: Gate::Always },
                        EdgeTemplate { s: PtRef::Ip(LevelSel::Lower, Side::Bottom), e: PtRef::Corner(CornerSel::BL), mv: Move::Left, gate: Gate::Bottom },
                        EdgeTemplate { s: PtRef::Corner(CornerSel::BL), e: PtRef::Ip(LevelSel::Lower, Side::Left), mv: Move::Stay, gate: Gate::Left },
                    ];
                    proof { assert(v@ =~= spec_templates(code as int, regime)); }
                    v
                }
                Regime::Mid => {
                    let v: Vec<EdgeTemplate> = vec![
                        EdgeTemplate { s: PtRef::Ip(LevelSel::Upper, Side::Top), e: PtRef::Ip(LevelSel::Upper, Side::Right), mv: Move::Right, gate: Gate::Always },
                        EdgeTemplate { s: PtRef::Ip(LevelSel::Upper, Side::Right), e: PtRef::Ip(LevelSel::Lower, Side::Right), mv: Move::Stay, gate: Gate::Right },
                        EdgeTemplate { s: PtRef::Ip(LevelSel::Lower, Side::Right), e: PtRef::Ip(LevelSel::Lower, Side::Bottom), mv: Move::Down, gate: Gate::Always },
                        EdgeTemplate { s: PtRef::Ip(LevelSel::Lower, Side::Bottom), e: PtRef::Corner(CornerSel::BL), mv: Move::Left, gate: Gate::Bottom },
                        EdgeTemplate { s: PtRef::Corner(CornerSel::BL), e: PtRef::Ip(LevelSel::Lower, Side::Left), mv: Move::Stay, gate: Gate::Left },
                        EdgeTemplate { s: PtRef::Ip(LevelSel::Lower, Side::Left), e: PtRef::Ip(LevelSel::Lower, Side::Top), mv: Move::Up, gate: Gate::Always },
                        EdgeTemplate { s: PtRef::Ip(LevelSel::Lower, Side::Top), e: PtRef::Ip(LevelSel::Upper, Side::Top), mv: Move::Stay, gate: Gate::Top },
                    ];
                    proof { assert(v@ =~= spec_templates(code as int, regime)); }
                    v
                }
                Regime::High => {
                    let v: Vec<EdgeTemplate> = vec![
                        EdgeTemplate { s: PtRef::Ip(LevelSel::Upper, Side::Top), e: PtRef::Ip(LevelSel::Upper, Side::Right), mv: Move::Right, gate: Gate::Always },
                        EdgeTemplate { s: PtRef::Ip(LevelSel::Upper, Side::Right), e: PtRef::Ip(LevelSel::Lower, Side::Right), mv: Move::Stay, gate: Gate::Right },
                        EdgeTemplate { s: PtRef::Ip(LevelSel::Lower, Side::Right), e: PtRef::Ip(LevelSel::Lower, Side::Top), mv: Move::Up, gate: Gate::Always },
                        EdgeTemplate { s: PtRef::Ip(LevelSel::Lower, Side::Top), e: PtRef::Ip(LevelSel::Upper, Side::Top), mv: Move::Stay, gate: Gate::Top },
                        EdgeTemplate { s: PtRef::Ip(LevelSel::Lower, Side::Left), e: PtRef::Ip(LevelSel::Lower, Side::Bottom), mv: Move::Down, gate: Gate::Always },
                        EdgeTemplate { s: PtRef::Ip(LevelSel::Lower, Side::Bottom), e: PtRef::Corner(CornerSel::BL), mv: Move::Left, gate: Gate::Bottom },
                        EdgeTemplate { s: PtRef::Corner(CornerSel::BL), e: PtRef::Ip(LevelSel::Lower, Side::Left), mv: Move::Stay, gate: Gate::Left },
                    ];
                    proof { assert(v@ =~= spec_templates(code as int, regime)); }
                    v
                }
            }
        }
        98 => {
            match regime {
                Regime::Low => {
                    let v: Vec<EdgeTemplate> = vec![
                        EdgeTemplate { s: PtRef::Ip(LevelSel::Upper, Side::Top), e: PtRef::Ip(LevelSel::Upper, Side::Left), mv: Move::Left, gate: Gate::Always },
                        EdgeTemplate { s: PtRef::Ip(LevelSel::Upper, Side::Left), e: PtRef::Corner(CornerSel::TL), mv: Move::Up, gate: Gate::Left },
                        EdgeTemplate { s: PtRef::Corner(CornerSel::TL), e: PtRef::Ip(LevelSel::Upper, Side::Top), mv: Move::Stay, gate: Gate::Top },
                        EdgeTemplate { s: PtRef::Ip(LevelSel::Lower, Side::Right), e: PtRef::Ip(LevelSel::Lower, Side::Bottom), mv: Move::Down, gate: Gate::Always },
                        EdgeTemplate { s: PtRef::Ip(LevelSel::Lower, Side::Bottom), e: PtRef::Ip(LevelSel::Upper, Side::Bottom), mv: Move::Stay, gate: Gate::Bottom },
                        EdgeTemplate { s: PtRef::Ip(LevelSel::Upper, Side::Bottom), e: PtRef::Ip(LevelSel::Upper, Side::Right), mv: Move::Right, gate: Gate::Always },
                        EdgeTemplate { s: PtRef::Ip(LevelSel::Upper, Side::Right), e: PtRef::Ip(LevelSel::Lower, Side::Right), mv: Move::Stay, gate: Gate::Right },
                    ];
                    proof { assert(v@ =~= spec_templates(code as int, regime)); }
                    v
                }
                Regime::Mid => {
                    let v: Vec<EdgeTemplate> = vec![
                        EdgeTemplate { s: PtRef::Ip(LevelSel::Upper, Side::Top), e: PtRef::Ip(LevelSel::Upper, Side::Right), mv: Move::Right, gate: Gate::Always },
                        EdgeTemplate { s: PtRef::Ip(LevelSel::Upper, Side::Right), e: PtRef::Ip(LevelSel::Lower, Side::Right), mv: Move::Stay, gate: Gate::Right },
                        EdgeTemplate { s: PtRef::Ip(LevelSel::Lower, Side::Right), e: PtRef::Ip(LevelSel::Lower, Side::Bottom), mv: Move::Down, gate: Gate::Always },
                        EdgeTemplate { s: PtRef::Ip(LevelSel::Lower, Side::Bottom), e: PtRef::Ip(LevelSel::Upper, Side::Bottom), mv: Move::Stay, gate: Gate::Bottom },
                        EdgeTemplate { s: PtRef::Ip(LevelSel::Upper, Side::Bottom), e: PtRef::Ip(LevelSel::Upper, Side::Left), mv: Move::Left, gate: Gate::Always },
                        EdgeTemplate { s: PtRef::Ip(LevelSel::Upper, Side::Left), e: PtRef::Corner(CornerSel::TL), mv: Move::Up, gate: Gate::Left },
                        EdgeTemplate { s: PtRef::Corner(CornerSel::TL), e: PtRef::Ip(LevelSel::Upper, Side::Top), mv: Move::Stay, gate: Gate::Top },
                    ];
                    proof { assert(v@ =~= spec_templates(code as int, regime)); }
                    v
                }
                Regime::High => {
                    let v: Vec<EdgeTemplate> = vec![
                        EdgeTemplate { s: PtRef::Ip(LevelSel::Upper, Side::Top), e: PtRef::Ip(LevelSel::Upper, Side::Left), mv: Move::Left, gate: Gate::Always },
                        EdgeTemplate { s: PtRef::Ip(LevelSel::Upper, Side::Left), e: PtRef::Corner(CornerSel::TL), mv: Move::Up, gate: Gate::Left },
                        EdgeTemplate { s: PtRef::Corner(CornerSel::TL), e: PtRef::Ip(LevelSel::Upper, Side::Top), mv: Move::Stay, gate: Gate::Top },
                        EdgeTemplate { s: PtRef::Ip(LevelSel::Lower, Side::Right), e: PtRef::Ip(LevelSel::Lower, Side::Bottom), mv: Move::Down, gate: Gate::Always },
                        EdgeTemplate { s: PtRef::Ip(LevelSel::Lower, Side::Bottom), e: PtRef::Ip(LevelSel::Upper, Side::Bottom), mv: Move::Stay, gate: Gate::Bottom },
                        EdgeTemplate { s: PtRef::Ip(LevelSel::Upper, Side::Bottom), e: PtRef::Ip(LevelSel::Upper, Side::Right), mv: Move::Right, gate: Gate::Always },
                        EdgeTemplate { s: PtRef::Ip(LevelSel::Upper, Side::Right), e: PtRef::Ip(LevelSel::Lower, Side::Right), mv: Move::Stay, gate: Gate::Right },
                    ];
                    proof { assert(v@ =~= spec_templates(code as int, regime)); }
                    v
                }
            }
        }
        72 => {
            match regime {
                Regime::Low => {
                    let v: Vec<EdgeTemplate> = vec![
                        EdgeTemplate { s: PtRef::Ip(LevelSel::Lower, Side::Top), e: PtRef::Ip(LevelSel::Lower, Side::Left), mv: Move::Left, gate: Gate::Always },
                        EdgeTemplate { s: PtRef::Ip(LevelSel::Lower, Side::Left), e: PtRef::Corner(CornerSel::TL), mv: Move::Up, gate: Gate::Left },
                        EdgeTemplate { s: PtRef::Corner(CornerSel::TL), e: PtRef::Ip(LevelSel::Lower, Side::Top), mv: Move::Stay, gate: Gate::Top },
                        EdgeTemplate { s: PtRef::Ip(LevelSel::Upper, Side::Right), e: PtRef::Ip(LevelSel::Upper, Side::Bottom), mv: Move::Down, gate: Gate::Always },
                        EdgeTemplate { s: PtRef::Ip(LevelSel::Upper, Side::Bottom), e: PtRef::Ip(LevelSel::Lower, Side::Bottom), mv: Move::Stay, gate: Gate::Bottom },
                        EdgeTemplate { s: PtRef::Ip(LevelSel::Lower, Side::Bottom), e: PtRef::Ip(LevelSel::Lower, Side::Right), mv: Move::Right, gate: Gate::Always },
                        EdgeTemplate { s: PtRef::Ip(LevelSel::Lower, Side::Right), e: PtRef::Ip(LevelSel::Upper, Side::Right), mv: Move::Stay, gate: Gate::Right },
                    ];
                    proof { assert(v@ =~= spec_templates(code as int, regime)); }
                    v
                }
                Regime::Mid => {
                    let v: Vec<EdgeTemplate> = vec![
                        EdgeTemplate { s: PtRef::Ip(LevelSel::Lower, Side::Top), e: PtRef::Ip(LevelSel::Lower, Side::Right), mv: Move::Right, gate: Gate::Always },
                        EdgeTemplate { s: PtRef::Ip(LevelSel::Lower, Side::Right), e: PtRef::Ip(LevelSel::Upper, Side::Right), mv: Move::Stay, gate: Gate::Right },
                        EdgeTemplate { s: PtRef::Ip(LevelSel::Upper, Side::Right), e: PtRef::Ip(LevelSel::Upper, Side::Bottom), mv: Move::Down, gate: Gate::Always },
                        EdgeTemplate { s: PtRef::Ip(LevelSel::Upper, Side::Bottom), e: PtRef::Ip(LevelSel::Lower, Side::Bottom), mv: Move::Stay, gate: Gate::Bottom },
                        EdgeTemplate { s: PtRef::Ip(LevelSel::Lower, Side::Bottom), e: PtRef::Ip(LevelSel::Lower, Side::Left), mv: Move::Left, gate: Gate::Always },
                        EdgeTemplate { s: PtRef::Ip(LevelSel::Lower, Side::Left), e: PtRef::Corner(CornerSel::TL), mv: Move::Up, gate: Gate::Left },
                        EdgeTemplate { s: PtRef::Corner(CornerSel::TL), e: PtRef::Ip(LevelSel::Lower, Side::Top), mv: Move::Stay, gate: Gate::Top },
                    ];
                    proof { assert(v@ =~= spec_templates(code as int, regime)); }
                    v
                }
                Regime::High => {
                    let v: Vec<EdgeTemplate> = vec![
                        EdgeTemplate { s: PtRef::Ip(LevelSel::Lower, Side::Top), e: PtRef::Ip(LevelSel::Lower, Side::Left), mv: Move::Left, gate: Gate::Always },
                        EdgeTemplate { s: PtRef::Ip(LevelSel::Lower, Side::Left), e: PtRef::Corner(CornerSel::TL), mv: Move::Up, gate: Gate::Left },
                        EdgeTemplate { s: PtRef::Corner(CornerSel::TL), e: PtRef::Ip(LevelSel::Lower, Side::Top), mv: Move::Stay, gate: Gate::Top },
                        EdgeTemplate { s: PtRef::Ip(LevelSel::Upper, Side::Right), e: PtRef::Ip(LevelSel::Upper, Side::Bottom), mv: Move::Down, gate: Gate::Always },
                        EdgeTemplate { s: PtRef::Ip(LevelSel::Upper, Side::Bottom), e: PtRef::Ip(LevelSel::Lower, Side::Bottom), mv: Move::Stay, gate: Gate::Bottom },
                        EdgeTemplate { s: PtRef::Ip(LevelSel::Lower, Side::Bottom), e: PtRef::Ip(LevelSel::Lower, Side::Right), mv: Move::Right, gate: Gate::Always },
                        EdgeTemplate { s: PtRef::Ip(LevelSel::Lower, Side::Right), e: PtRef::Ip(LevelSel::Upper, Side::Right), mv: Move::Stay, gate: Gate::Right },
                    ];
                    proof { assert(v@ =~= spec_templates(code as int, regime)); }
                    v
                }
            }
        }
        38 => {
            match regime {
                Regime::Low => {
                    let v: Vec<EdgeTemplate> = vec![
                        EdgeTemplate { s: PtRef::Ip(LevelSel::Upper, Side::Top), e: PtRef::Ip(LevelSel::Upper, Side::Left), mv: Move::Left, gate: Gate::Always },
                        EdgeTemplate { s: PtRef::Ip(LevelSel::Upper, Side::Left), e: PtRef::Ip(LevelSel::Lower, Side::Left), mv: Move::Stay, gate: Gate::Left },
                        EdgeTemplate { s: PtRef::Ip(LevelSel::Lower, Side::Left), e: PtRef::Ip(LevelSel::Lower, Side::Top), mv: Move::Up, gate: Gate::Always },
                        EdgeTemplate { s: PtRef::Ip(LevelSel::Lower, Side::Top), e: PtRef::Ip(LevelSel::Upper, Side::Top), mv: Move::Stay, gate: Gate::Top },
                        EdgeTemplate { s: PtRef::Ip(LevelSel::Upper, Side::Bottom), e: PtRef::Ip(LevelSel::Upper, Side::Right), mv: Move::Right, gate: Gate::Always },
                        EdgeTemplate { s: PtRef::Ip(LevelSel::Upper, Side::Right), e: PtRef::Corner(CornerSel::BR), mv: Move::Down, gate: Gate::Right },
                        EdgeTemplate { s: PtRef::Corner(CornerSel::BR), e: PtRef::Ip(LevelSel::Upper, Side::Bottom), mv: Move::Stay, gate: Gate::Bottom },
                    ];
                    proof { assert(v@ =~= spec_templates(code as int, regime)); }
                    v
                }
                Regime::Mid => {
                    let v: Vec<EdgeTemplate> = vec![
                        EdgeTemplate { s: PtRef::Ip(LevelSel::Upper, Side::Top), e: PtRef::Ip(LevelSel::Upper, Side::Right), mv: Move::Right, gate: Gate::Always },
                        EdgeTemplate { s: PtRef::Ip(LevelSel::Upper, Side::Right), e: PtRef::Corner(CornerSel::BR), mv: Move::Down, gate: Gate::Right },
                        EdgeTemplate { s: PtRef::Corner(CornerSel::BR), e: PtRef::Ip(LevelSel::Upper, Side::Bottom), mv: Move::Stay, gate: Gate::Bottom },
                        EdgeTemplate { s: PtRef::Ip(LevelSel::Upper, Side::Bottom), e: PtRef::Ip(LevelSel::Upper, Side::Left), mv: Move::Left, gate: Gate::Always },
                        EdgeTemplate { s: PtRef::Ip(LevelSel::Upper, Side::Left), e: PtRef::Ip(LevelSel::Lower, Side::Left), mv: Move::Stay, gate: Gate::Left },
                        EdgeTemplate { s: PtRef::Ip(LevelSel::Lower, Side::Left), e: PtRef::Ip(LevelSel::Lower, Side::Top), mv: Move::Up, gate: Gate::Always },
                        EdgeTemplate { s: PtRef::Ip(LevelSel::Lower, Side::Top), e: PtRef::Ip(LevelSel::Upper, Side::Top), mv: Move::Stay, gate: Gate::Top },
                    ];
                    proof { assert(v@ =~= spec_templates(code as int, regime)); }
                    v
                }
                Regime::High => {
                    let v: Vec<EdgeTemplate> = vec![
                        EdgeTemplate { s: PtRef::Ip(LevelSel::Upper, Side::Top), e: PtRef::Ip(LevelSel::Upper, Side::Left), mv: Move::Left, gate: Gate::Always },
                        EdgeTemplate { s: PtRef::Ip(LevelSel::Upper, Side::Left), e: PtRef::Ip(LevelSel::Lower, Side::Left), mv: Move::Stay, gate: Gate::Left },
                        EdgeTemplate { s: PtRef::Ip(LevelSel::Lower, Side::Left), e: PtRef::Ip(LevelSel::Lower, Side::Top), mv: Move::Up, gate: Gate::Always },
                        EdgeTemplate { s: PtRef::Ip(LevelSel::Lower, Side::Top), e: PtRef::Ip(LevelSel::Upper, Side::Top), mv: Move::Stay, gate: Gate::Top },
                        EdgeTemplate { s: PtRef::Ip(LevelSel::Upper, Side::Bottom), e: PtRef::Ip(LevelSel::Upper, Side::Right), mv: Move::Right, gate: Gate::Always },
                        EdgeTemplate { s: PtRef::Ip(LevelSel::Upper, Side::Right), e: PtRef::Corner(CornerSel::BR), mv: Move::Down, gate: Gate::Right },
                        EdgeTemplate { s: PtRef::Corner(CornerSel::BR), e: PtRef::Ip(LevelSel::Upper, Side::Bottom), mv: Move::Stay, gate: Gate::Bottom },
                    ];
                    proof { assert(v@ =~= spec_templates(code as int, regime)); }
                    v
                }
            }
        }
        132 => {
            match regime {
                Regime::Low => {
                    let v: Vec<EdgeTemplate> = vec![
                        EdgeTemplate { s: PtRef::Ip(LevelSel::Lower, Side::Top), e: PtRef::Ip(LevelSel::Lower, Side::Left), mv: Move::Left, gate: Gate::Always },
                        EdgeTemplate { s: PtRef::Ip(LevelSel::Lower, Side::Left), e: PtRef::Ip(LevelSel::Upper, Side::Left), mv: Move::Stay, gate: Gate::Left },
                        EdgeTemplate { s: PtRef::Ip(LevelSel::Upper, Side::Left), e: PtRef::Ip(LevelSel::Upper, Side::Top), mv: Move::Up, gate: Gate::Always },
                        EdgeTemplate { s: PtRef::Ip(LevelSel::Upper, Side::Top), e: PtRef::Ip(LevelSel::Lower, Side::Top), mv: Move::Stay, gate: Gate::Top },
                        EdgeTemplate { s: PtRef::Ip(LevelSel::Lower, Side::Bottom), e: PtRef::Ip(LevelSel::Lower, Side::Right), mv: Move::Right, gate: Gate::Always },
                        EdgeTemplate { s: PtRef::Ip(LevelSel::Lower, Side::Right), e: PtRef::Corner(CornerSel::BR), mv: Move::Down, gate: Gate::Right },
                        EdgeTemplate { s: PtRef::Corner(CornerSel::BR), e: PtRef::Ip(LevelSel::Lower, Side::Bottom), mv: Move::Stay, gate: Gate::Bottom },
                    ];
                    proof { assert(v@ =~= spec_templates(code as int, regime)); }
                    v
                }
                Regime::Mid => {
                    let v: Vec<EdgeTemplate> = vec![
                        EdgeTemplate { s: PtRef::Ip(LevelSel::Lower, Side::Top), e: PtRef::Ip(LevelSel::Lower, Side::Right), mv: Move::Right, gate: Gate::Always },
                        EdgeTemplate { s: PtRef::Ip(LevelSel::Lower, Side::Right), e: PtRef::Corner(CornerSel::BR), mv: Move::Down, gate: Gate::Right },
                        EdgeTemplate { s: PtRef::Corner(CornerSel::BR), e: PtRef::Ip(LevelSel::Lower, Side::Bottom), mv: Move::Stay, gate: Gate::Bottom },
                        EdgeTemplate { s: PtRef::Ip(LevelSel::Lower, Side::Bottom), e: PtRef::Ip(LevelSel::Lower, Side::Left), mv: Move::Left, gate: Gate::Always },
                        EdgeTemplate { s: PtRef::Ip(LevelSel::Lower, Side::Left), e: PtRef::Ip(LevelSel::Upper, Side::Left), mv: Move::Stay, gate: Gate::Left },
                        EdgeTemplate { s: PtRef::Ip(LevelSel::Upper, Side::Left), e: PtRef::Ip(LevelSel::Upper, Side::Top), mv: Move::Up, gate: Gate::Always },
                        EdgeTemplate { s: PtRef::Ip(LevelSel::Upper, Side::Top), e: PtRef::Ip(LevelSel::Lower, Side::Top), mv: Move::Stay, gate: Gate::Top },
                    ];
                    proof { assert(v@ =~= spec_templates(code as int, regime)); }
                    v
                }
                Regime::High => {
                    let v: Vec<EdgeTemplate> = vec![
                        EdgeTemplate { s: PtRef::Ip(LevelSel::Lower, Side::Top), e: PtRef::Ip(LevelSel::Lower, Side::Left), mv: Move::Left, gate: Gate::Always },
                        EdgeTemplate { s: PtRef::Ip(LevelSel::Lower, Side::Left), e: PtRef::Ip(LevelSel::Upper, Side::Left), mv: Move::Stay, gate: Gate::Left },
                        EdgeTemplate { s: PtRef::Ip(LevelSel::Upper, Side::Left), e: PtRef::Ip(LevelSel::Upper, Side::Top), mv: Move::Up, gate: Gate::Always },
                        EdgeTemplate { s: PtRef::Ip(LevelSel::Upper, Side::Top), e: PtRef::Ip(LevelSel::Lower, Side::Top), mv: Move::Stay, gate: Gate::Top },
                        EdgeTemplate { s: PtRef::Ip(LevelSel::Lower, Side::Bottom), e: PtRef::Ip(LevelSel::Lower, Side::Right), mv: Move::Right, gate: Gate::Always },
                        EdgeTemplate { s: PtRef::Ip(LevelSel::Lower, Side::Right), e: PtRef::Corner(CornerSel::BR), mv: Move::Down, gate: Gate::Right },
                        EdgeTemplate { s: PtRef::Corner(CornerSel::BR), e: PtRef::Ip(LevelSel::Lower, Side::Bottom), mv: Move::Stay, gate: Gate::Bottom },
                    ];
                    proof { assert(v@ =~= spec_templates(code as int, regime)); }
                    v
                }
            }
        }
        85 => {
            let v: Vec<EdgeTemplate> = vec![
                EdgeTemplate { s: PtRef::Ip(LevelSel::Upper, Side::Right), e: PtRef::Ip(LevelSel::Upper, Side::Bottom), mv: Move::Down, gate: Gate::Right },
                EdgeTemplate { s: PtRef::Ip(LevelSel::Upper, Side::Bottom), e: PtRef::Ip(LevelSel::Upper, Side::Left), mv: Move::Left, gate: Gate::Bottom },
                EdgeTemplate { s: PtRef::Ip(LevelSel::Upper, Side::Left), e: PtRef::Ip(LevelSel::Upper, Side::Top), mv: Move::Up, gate: Gate::Left },
                EdgeTemplate { s: PtRef::Ip(LevelSel::Upper, Side::Top), e: PtRef::Ip(LevelSel::Upper, Side::Right), mv: Move::Right, gate: Gate::Top },
            ];
            proof { assert(v@ =~= spec_templates(code as int, regime)); }
            v
        }
        _ => {
            let v: Vec<EdgeTemplate> = Vec::new();
            proof { assert(v@ =~= spec_templates(code as int, regime)); }
            v
        }
    }
}

proof fn lemma_complement_169(regime: Regime)
    ensures
        spec_templates(1, flip_regime(regime)) =~= spec_templates(169, regime).map_values(
            |t: EdgeTemplate| swap_template(t),
        ),
{
    assert(spec_templates(1, flip_regime(regime)) =~= spec_templates(169, regime).map_values(
        |t: EdgeTemplate| swap_template(t),
    )) by {
        match regime {
            Regime::Low => { }
            Regime::Mid => { }
            Regime::High => { }
        }
    }
}

proof fn lemma_complement_1(regime: Regime)
    ensures
        spec_templates(169, flip_regime(regime)) =~= spec_templates(1, regime).map_values(
            |t: EdgeTemplate| swap_template(t),
        ),
{
    assert(spec_templates(169, flip_regime(regime)) =~= spec_templates(1, regime).map_values(
        |t: EdgeTemplate| swap_template(t),
    )) by {
        match regime {
            Regime::Low => { }
            Regime::Mid => { }
            Regime::High => { }
        }
    }
}

proof fn lemma_complement_166(regime: Regime)
    ensures
        spec_templates(4, flip_regime(regime)) =~= spec_templates(166, regime).map_values(
            |t: EdgeTemplate| swap_template(t),
        ),
{
    assert(spec_templates(4, flip_regime(regime)) =~= spec_templates(166, regime).map_values(
        |t: EdgeTemplate| swap_template(t),
    )) by {
        match regime {
            Regime::Low => { }
            Regime::Mid => { }
            Regime::High => { }
        }
    }
}

proof fn lemma_complement_4(regime: Regime)
    ensures
        spec_templates(166, flip_regime(regime)) =~= spec_templates(4, regime).map_values(
            |t: EdgeTemplate| swap_template(t),
        ),
{
    assert(spec_templates(166, flip_regime(regime)) =~= spec_templates(4, regime).map_values(
        |t: EdgeTemplate| swap_template(t),
    )) by {
        match regime {
            Regime::Low => { }
            Regime::Mid => { }
            Regime::High => { }
        }
    }
}

proof fn lemma_complement_154(regime: Regime)
    ensures
        spec_templates(16, flip_regime(regime)) =~= spec_templates(154, regime).map_values(
            |t: EdgeTemplate| swap_template(t),
        ),
{
    assert(spec_templates(16, flip_regime(regime)) =~= spec_templates(154, regime).map_values(
        |t: EdgeTemplate| swap_template(t),
    )) by {
        match regime {
            Regime::Low => { }
            Regime::Mid => { }
            Regime::High => { }
        }
    }
}

proof fn lemma_complement_16(regime: Regime)
    ensures
        spec_templates(154, flip_regime(regime)) =~= spec_templates(16, regime).map_values(
            |t: EdgeTemplate| swap_template(t),
        ),
{
    assert(spec_templates(154, flip_regime(regime)) =~= spec_templates(16, regime).map_values(
        |t: EdgeTemplate| swap_template(t),
    )) by {
        match regime {
            Regime::Low => { }
            Regime::Mid => { }
            Regime::High => { }
        }
    }
}

proof fn lemma_complement_106(regime: Regime)
    ensures
        spec_templates(64, flip_regime(regime)) =~= spec_templates(106, regime).map_values(
            |t: EdgeTemplate| swap_template(t),
        ),
{
    assert(spec_templates(64, flip_regime(regime)) =~= spec_templates(106, regime).map_values(
        |t: EdgeTemplate| swap_template(t),
    )) by {
        match regime {
            Regime::Low => { }
            Regime::Mid => { }
            Regime::High => { }
        }
    }
}

proof fn lemma_complement_64(regime: Regime)
    ensures
        spec_templates(106, flip_regime(regime)) =~= spec_templates(64, regime).map_values(
            |t: EdgeTemplate| swap_template(t),
        ),
{
    assert(spec_templates(106, flip_regime(regime)) =~= spec_templates(64, regime).map_values(
        |t: EdgeTemplate| swap_template(t),
    )) by {
        match regime {
            Regime::Low => { }
            Regime::Mid => { }
            Regime::High => { }
        }
    }
}

proof fn lemma_complement_101(regime: Regime)
    ensures
        spec_templates(69, flip_regime(regime)) =~= spec_templates(101, regime).map_values(
            |t: EdgeTemplate| swap_template(t),
        ),
{
    assert(spec_templates(69, flip_regime(regime)) =~= spec_templates(101, regime).map_values(
        |t: EdgeTemplate| swap_template(t),
    )) by {
        match regime {
            Regime::Low => { }
            Regime::Mid => { }
            Regime::High => { }
        }
    }
}

proof fn lemma_complement_69(regime: Regime)
    ensures
        spec_templates(101, flip_regime(regime)) =~= spec_templates(69, regime).map_values(
            |t: EdgeTemplate| swap_template(t),
        ),
{
    assert(spec_templates(101, flip_regime(regime)) =~= spec_templates(69, regime).map_values(
        |t: EdgeTemplate| swap_template(t),
    )) by {
        match regime {
            Regime::Low => { }
            Regime::Mid => { }
            Regime::High => { }
        }
    }
}

proof fn lemma_complement_149(regime: Regime)
    ensures
        spec_templates(21, flip_regime(regime)) =~= spec_templates(149, regime).map_values(
            |t: EdgeTemplate| swap_template(t),
        ),
{
    assert(spec_templates(21, flip_regime(regime)) =~= spec_templates(149, regime).map_values(
        |t: EdgeTemplate| swap_template(t),
    )) by {
        match regime {
            Regime::Low => { }
            Regime::Mid => { }
            Regime::High => { }
        }
    }
}

proof fn lemma_complement_21(regime: Regime)
    ensures
        spec_templates(149, flip_regime(regime)) =~= spec_templates(21, regime).map_values(
            |t: EdgeTemplate| swap_template(t),
        ),
{
    assert(spec_templates(149, flip_regime(regime)) =~= spec_templates(21, regime).map_values(
        |t: EdgeTemplate| swap_template(t),
    )) by {
        match regime {
            Regime::Low => { }
            Regime::Mid => { }
            Regime::High => { }
        }
    }
}

proof fn lemma_complement_86(regime: Regime)
    ensures
        spec_templates(84, flip_regime(regime)) =~= spec_templates(86, regime).map_values(
            |t: EdgeTemplate| swap_template(t),
        ),
{
    assert(spec_templates(84, flip_regime(regime)) =~= spec_templates(86, regime).map_values(
        |t: EdgeTemplate| swap_template(t),
    )) by {
        match regime {
            Regime::Low => { }
            Regime::Mid => { }
            Regime::High => { }
        }
    }
}

proof fn lemma_complement_84(regime: Regime)
    ensures
        spec_templates(86, flip_regime(regime)) =~= spec_templates(84, regime).map_values(
            |t: EdgeTemplate| swap_template(t),
        ),
{
    assert(spec_templates(86, flip_regime(regime)) =~= spec_templates(84, regime).map_values(
        |t: EdgeTemplate| swap_template(t),
    )) by {
        match regime {
            Regime::Low => { }
            Regime::Mid => { }
            Regime::High => { }
        }
    }
}

proof fn lemma_complement_89(regime: Regime)
    ensures
        spec_templates(81, flip_regime(regime)) =~= spec_templates(89, regime).map_values(
            |t: EdgeTemplate| swap_template(t),
        ),
{
    assert(spec_templates(81, flip_regime(regime)) =~= spec_templates(89, regime).map_values(
        |t: EdgeTemplate| swap_template(t),
    )) by {
        match regime {
            Regime::Low => { }
            Regime::Mid => { }
            Regime::High => { }
        }
    }
}

proof fn lemma_complement_81(regime: Regime)
    ensures
        spec_templates(89, flip_regime(regime)) =~= spec_templates(81, regime).map_values(
            |t: EdgeTemplate| swap_template(t),
        ),
{
    assert(spec_templates(89, flip_regime(regime)) =~= spec_templates(81, regime).map_values(
        |t: EdgeTemplate| swap_template(t),
    )) by {
        match regime {
            Regime::Low => { }
            Regime::Mid => { }
            Regime::High => { }
        }
    }
}

proof fn lemma_complement_96(regime: Regime)
    ensures
        spec_templates(74, flip_regime(regime)) =~= spec_templates(96, regime).map_values(
            |t: EdgeTemplate| swap_template(t),
        ),
{
    assert(spec_templates(74, flip_regime(regime)) =~= spec_templates(96, regime).map_values(
        |t: EdgeTemplate| swap_template(t),
    )) by {
        match regime {
            Regime::Low => { }
            Regime::Mid => { }
            Regime::High => { }
        }
    }
}

proof fn lemma_complement_74(regime: Regime)
    ensures
        spec_templates(96, flip_regime(regime)) =~= spec_templates(74, regime).map_values(
            |t: EdgeTemplate| swap_template(t),
        ),
{
    assert(spec_templates(96, flip_regime(regime)) =~= spec_templates(74, regime).map_values(
        |t: EdgeTemplate| swap_template(t),
    )) by {
        match regime {
            Regime::Low => { }
            Regime::Mid => { }
            Regime::High => { }
        }
    }
}

proof fn lemma_complement_24(regime: Regime)
    ensures
        spec_templates(146, flip_regime(regime)) =~= spec_templates(24, regime).map_values(
            |t: EdgeTemplate| swap_template(t),
        ),
{
    assert(spec_templates(146, flip_regime(regime)) =~= spec_templates(24, regime).map_values(
        |t: EdgeTemplate| swap_template(t),
    )) by {
        match regime {
            Regime::Low => { }
            Regime::Mid => { }
            Regime::High => { }
        }
    }
}

proof fn lemma_complement_146(regime: Regime)
    ensures
        spec_templates(24, flip_regime(regime)) =~= spec_templates(146, regime).map_values(
            |t: EdgeTemplate| swap_template(t),
        ),
{
    assert(spec_templates(24, flip_regime(regime)) =~= spec_templates(146, regime).map_values(
        |t: EdgeTemplate| swap_template(t),
    )) by {
        match regime {
            Regime::Low => { }
            Regime::Mid => { }
            Regime::High => { }
        }
    }
}

proof fn lemma_complement_6(regime: Regime)
    ensures
        spec_templates(164, flip_regime(regime)) =~= spec_templates(6, regime).map_values(
            |t: EdgeTemplate| swap_template(t),
        ),
{
    assert(spec_templates(164, flip_regime(regime)) =~= spec_templates(6, regime).map_values(
        |t: EdgeTemplate| swap_template(t),
    )) by {
        match regime {
            Regime::Low => { }
            Regime::Mid => { }
            Regime::High => { }
        }
    }
}

proof fn lemma_complement_164(regime: Regime)
    ensures
        spec_templates(6, flip_regime(regime)) =~= spec_templates(164, regime).map_values(
            |t: EdgeTemplate| swap_template(t),
        ),
{
    assert(spec_templates(6, flip_regime(regime)) =~= spec_templates(164, regime).map_values(
        |t: EdgeTemplate| swap_template(t),
    )) by {
        match regime {
            Regime::Low => { }
            Regime::Mid => { }
            Regime::High => { }
        }
    }
}

proof fn lemma_complement_129(regime: Regime)
    ensures
        spec_templates(41, flip_regime(regime)) =~= spec_templates(129, regime).map_values(
            |t: EdgeTemplate| swap_template(t),
        ),
{
    assert(spec_templates(41, flip_regime(regime)) =~= spec_templates(129, regime).map_values(
        |t: EdgeTemplate| swap_template(t),
    )) by {
        match regime {
            Regime::Low => { }
            Regime::Mid => { }
            Regime::High => { }
        }
    }
}

proof fn lemma_complement_41(regime: Regime)
    ensures
        spec_templates(129, flip_regime(regime)) =~= spec_templates(41, regime).map_values(
            |t: EdgeTemplate| swap_template(t),
        ),
{
    assert(spec_templates(129, flip_regime(regime)) =~= spec_templates(41, regime).map_values(
        |t: EdgeTemplate| swap_template(t),
    )) by {
        match regime {
            Regime::Low => { }
            Regime::Mid => { }
            Regime::High => { }
        }
    }
}

proof fn lemma_complement_66(regime: Regime)
    ensures
        spec_templates(104, flip_regime(regime)) =~= spec_templates(66, regime).map_values(
            |t: EdgeTemplate| swap_template(t),
        ),
{
    assert(spec_templates(104, flip_regime(regime)) =~= spec_templates(66, regime).map_values(
        |t: EdgeTemplate| swap_template(t),
    )) by {
        match regime {
            Regime::Low => { }
            Regime::Mid => { }
            Regime::High => { }
        }
    }
}

proof fn lemma_complement_104(regime: Regime)
    ensures
        spec_templates(66, flip_regime(regime)) =~= spec_templates(104, regime).map_values(
            |t: EdgeTemplate| swap_template(t),
        ),
{
    assert(spec_templates(66, flip_regime(regime)) =~= spec_templates(104, regime).map_values(
        |t: EdgeTemplate| swap_template(t),
    )) by {
        match regime {
            Regime::Low => { }
            Regime::Mid => { }
            Regime::High => { }
        }
    }
}

proof fn lemma_complement_144(regime: Regime)
    ensures
        spec_templates(26, flip_regime(regime)) =~= spec_templates(144, regime).map_values(
            |t: EdgeTemplate| swap_template(t),
        ),
{
    assert(spec_templates(26, flip_regime(regime)) =~= spec_templates(144, regime).map_values(
        |t: EdgeTemplate| swap_template(t),
    )) by {
        match regime {
            Regime::Low => { }
            Regime::Mid => { }
            Regime::High => { }
        }
    }
}

proof fn lemma_complement_26(regime: Regime)
    ensures
        spec_templates(144, flip_regime(regime)) =~= spec_templates(26, regime).map_values(
            |t: EdgeTemplate| swap_template(t),
        ),
{
    assert(spec_templates(144, flip_regime(regime)) =~= spec_templates(26, regime).map_values(
        |t: EdgeTemplate| swap_template(t),
    )) by {
        match regime {
            Regime::Low => { }
            Regime::Mid => { }
            Regime::High => { }
        }
    }
}

proof fn lemma_complement_36(regime: Regime)
    ensures
        spec_templates(134, flip_regime(regime)) =~= spec_templates(36, regime).map_values(
            |t: EdgeTemplate| swap_template(t),
        ),
{
    assert(spec_templates(134, flip_regime(regime)) =~= spec_templates(36, regime).map_values(
        |t: EdgeTemplate| swap_template(t),
    )) by {
        match regime {
            Regime::Low => { }
            Regime::Mid => { }
            Regime::High => { }
        }
    }
}

proof fn lemma_complement_134(regime: Regime)
    ensures
        spec_templates(36, flip_regime(regime)) =~= spec_templates(134, regime).map_values(
            |t: EdgeTemplate| swap_template(t),
        ),
{
    assert(spec_templates(36, flip_regime(regime)) =~= spec_templates(134, regime).map_values(
        |t: EdgeTemplate| swap_template(t),
    )) by {
        match regime {
            Regime::Low => { }
            Regime::Mid => { }
            Regime::High => { }
        }
    }
}

proof fn lemma_complement_9(regime: Regime)
    ensures
        spec_templates(161, flip_regime(regime)) =~= spec_templates(9, regime).map_values(
            |t: EdgeTemplate| swap_template(t),
        ),
{
    assert(spec_templates(161, flip_regime(regime)) =~= spec_templates(9, regime).map_values(
        |t: EdgeTemplate| swap_template(t),
    )) by {
        match regime {
            Regime::Low => { }
            Regime::Mid => { }
            Regime::High => { }
        }
    }
}

proof fn lemma_complement_161(regime: Regime)
    ensures
        spec_templates(9, flip_regime(regime)) =~= spec_templates(161, regime).map_values(
            |t: EdgeTemplate| swap_template(t),
        ),
{
    assert(spec_templates(9, flip_regime(regime)) =~= spec_templates(161, regime).map_values(
        |t: EdgeTemplate| swap_template(t),
    )) by {
        match regime {
            Regime::Low => { }
            Regime::Mid => { }
            Regime::High => { }
        }
    }
}

proof fn lemma_complement_5(regime: Regime)
    ensures
        spec_templates(165, flip_regime(regime)) =~= spec_templates(5, regime).map_values(
            |t: EdgeTemplate| swap_template(t),
        ),
{
    assert(spec_templates(165, flip_regime(regime)) =~= spec_templates(5, regime).map_values(
        |t: EdgeTemplate| swap_template(t),
    )) by {
        match regime {
            Regime::Low => { }
            Regime::Mid => { }
            Regime::High => { }
        }
    }
}

proof fn lemma_complement_165(regime: Regime)
    ensures
        spec_templates(5, flip_regime(regime)) =~= spec_templates(165, regime).map_values(
            |t: EdgeTemplate| swap_template(t),
        ),
{
    assert(spec_templates(5, flip_regime(regime)) =~= spec_templates(165, regime).map_values(
        |t: EdgeTemplate| swap_template(t),
    )) by {
        match regime {
            Regime::Low => { }
            Regime::Mid => { }
            Regime::High => { }
        }
    }
}

proof fn lemma_complement_20(regime: Regime)
    ensures
        spec_templates(150, flip_regime(regime)) =~= spec_templates(20, regime).map_values(
            |t: EdgeTemplate| swap_template(t),
        ),
{
    assert(spec_templates(150, flip_regime(regime)) =~= spec_templates(20, regime).map_values(
        |t: EdgeTemplate| swap_template(t),
    )) by {
        match regime {
            Regime::Low => { }
            Regime::Mid => { }
            Regime::High => { }
        }
    }
}

proof fn lemma_complement_150(regime: Regime)
    ensures
        spec_templates(20, flip_regime(regime)) =~= spec_templates(150, regime).map_values(
            |t: EdgeTemplate| swap_template(t),
        ),
{
    assert(spec_templates(20, flip_regime(regime)) =~= spec_templates(150, regime).map_values(
        |t: EdgeTemplate| swap_template(t),
    )) by {
        match regime {
            Regime::Low => { }
            Regime::Mid => { }
            Regime::High => { }
        }
    }
}

proof fn lemma_complement_80(regime: Regime)
    ensures
        spec_templates(90, flip_regime(regime)) =~= spec_templates(80, regime).map_values(
            |t: EdgeTemplate| swap_template(t),
        ),
{
    assert(spec_templates(90, flip_regime(regime)) =~= spec_templates(80, regime).map_values(
        |t: EdgeTemplate| swap_template(t),
    )) by {
        match regime {
            Regime::Low => { }
            Regime::Mid => { }
            Regime::High => { }
        }
    }
}

proof fn lemma_complement_90(regime: Regime)
    ensures
        spec_templates(80, flip_regime(regime)) =~= spec_templates(90, regime).map_values(
            |t: EdgeTemplate| swap_template(t),
        ),
{
    assert(spec_templates(80, flip_regime(regime)) =~= spec_templates(90, regime).map_values(
        |t: EdgeTemplate| swap_template(t),
    )) by {
        match regime {
            Regime::Low => { }
            Regime::Mid => { }
            Regime::High => { }
        }
    }
}

proof fn lemma_complement_65(regime: Regime)
    ensures
        spec_templates(105, flip_regime(regime)) =~= spec_templates(65, regime).map_values(
            |t: EdgeTemplate| swap_template(t),
        ),
{
    assert(spec_templates(105, flip_regime(regime)) =~= spec_templates(65, regime).map_values(
        |t: EdgeTemplate| swap_template(t),
    )) by {
        match regime {
            Regime::Low => { }
            Regime::Mid => { }
            Regime::High => { }
        }
    }
}

proof fn lemma_complement_105(regime: Regime)
    ensures
        spec_templates(65, flip_regime(regime)) =~= spec_templates(105, regime).map_values(
            |t: EdgeTemplate| swap_template(t),
        ),
{
    assert(spec_templates(65, flip_regime(regime)) =~= spec_templates(105, regime).map_values(
        |t: EdgeTemplate| swap_template(t),
    )) by {
        match regime {
            Regime::Low => { }
            Regime::Mid => { }
            Regime::High => { }
        }
    }
}

proof fn lemma_complement_160(regime: Regime)
    ensures
        spec_templates(10, flip_regime(regime)) =~= spec_templates(160, regime).map_values(
            |t: EdgeTemplate| swap_template(t),
        ),
{
    assert(spec_templates(10, flip_regime(regime)) =~= spec_templates(160, regime).map_values(
        |t: EdgeTemplate| swap_template(t),
    )) by {
        match regime {
            Regime::Low => { }
            Regime::Mid => { }
            Regime::High => { }
        }
    }
}

proof fn lemma_complement_10(regime: Regime)
    ensures
        spec_templates(160, flip_regime(regime)) =~= spec_templates(10, regime).map_values(
            |t: EdgeTemplate| swap_template(t),
        ),
{
    assert(spec_templates(160, flip_regime(regime)) =~= spec_templates(10, regime).map_values(
        |t: EdgeTemplate| swap_template(t),
    )) by {
        match regime {
            Regime::Low => { }
            Regime::Mid => { }
            Regime::High => { }
        }
    }
}

proof fn lemma_complement_130(regime: Regime)
    ensures
        spec_templates(40, flip_regime(regime)) =~= spec_templates(130, regime).map_values(
            |t: EdgeTemplate| swap_template(t),
        ),
{
    assert(spec_templates(40, flip_regime(regime)) =~= spec_templates(130, regime).map_values(
        |t: EdgeTemplate| swap_template(t),
    )) by {
        match regime {
            Regime::Low => { }
            Regime::Mid => { }
            Regime::High => { }
        }
    }
}

proof fn lemma_complement_40(regime: Regime)
    ensures
        spec_templates(130, flip_regime(regime)) =~= spec_templates(40, regime).map_values(
            |t: EdgeTemplate| swap_template(t),
        ),
{
    assert(spec_templates(130, flip_regime(regime)) =~= spec_templates(40, regime).map_values(
        |t: EdgeTemplate| swap_template(t),
    )) by {
        match regime {
            Regime::Low => { }
            Regime::Mid => { }
            Regime::High => { }
        }
    }
}

proof fn lemma_complement_168(regime: Regime)
    ensures
        spec_templates(2, flip_regime(regime)) =~= spec_templates(168, regime).map_values(
            |t: EdgeTemplate| swap_template(t),
        ),
{
    assert(spec_templates(2, flip_regime(regime)) =~= spec_templates(168, regime).map_values(
        |t: EdgeTemplate| swap_template(t),
    )) by {
        match regime {
            Regime::Low => { }
            Regime::Mid => { }
            Regime::High => { }
        }
    }
}

proof fn lemma_complement_2(regime: Regime)
    ensures
        spec_templates(168, flip_regime(regime)) =~= spec_templates(2, regime).map_values(
            |t: EdgeTemplate| swap_template(t),
        ),
{
    assert(spec_templates(168, flip_regime(regime)) =~= spec_templates(2, regime).map_values(
        |t: EdgeTemplate| swap_template(t),
    )) by {
        match regime {
            Regime::Low => { }
            Regime::Mid => { }
            Regime::High => { }
        }
    }
}

proof fn lemma_complement_162(regime: Regime)
    ensures
        spec_templates(8, flip_regime(regime)) =~= spec_templates(162, regime).map_values(
            |t: EdgeTemplate| swap_template(t),
        ),
{
    assert(spec_templates(8, flip_regime(regime)) =~= spec_templates(162, regime).map_values(
        |t: EdgeTemplate| swap_template(t),
    )) by {
        match regime {
            Regime::Low => { }
            Regime::Mid => { }
            Regime::High => { }
        }
    }
}

proof fn lemma_complement_8(regime: Regime)
    ensures
        spec_templates(162, flip_regime(regime)) =~= spec_templates(8, regime).map_values(
            |t: EdgeTemplate| swap_template(t),
        ),
{
    assert(spec_templates(162, flip_regime(regime)) =~= spec_templates(8, regime).map_values(
        |t: EdgeTemplate| swap_template(t),
    )) by {
        match regime {
            Regime::Low => { }
            Regime::Mid => { }
            Regime::High => { }
        }
    }
}

proof fn lemma_complement_138(regime: Regime)
    ensures
        spec_templates(32, flip_regime(regime)) =~= spec_templates(138, regime).map_values(
            |t: EdgeTemplate| swap_template(t),
        ),
{
    assert(spec_templates(32, flip_regime(regime)) =~= spec_templates(138, regime).map_values(
        |t: EdgeTemplate| swap_template(t),
    )) by {
        match regime {
            Regime::Low => { }
            Regime::Mid => { }
            Regime::High => { }
        }
    }
}

proof fn lemma_complement_32(regime: Regime)
    ensures
        spec_templates(138, flip_regime(regime)) =~= spec_templates(32, regime).map_values(
            |t: EdgeTemplate| swap_template(t),
        ),
{
    assert(spec_templates(138, flip_regime(regime)) =~= spec_templates(32, regime).map_values(
        |t: EdgeTemplate| swap_template(t),
    )) by {
        match regime {
            Regime::Low => { }
            Regime::Mid => { }
            Regime::High => { }
        }
    }
}

proof fn lemma_complement_42(regime: Regime)
    ensures
        spec_templates(128, flip_regime(regime)) =~= spec_templates(42, regime).map_values(
            |t: EdgeTemplate| swap_template(t),
        ),
{
    assert(spec_templates(128, flip_regime(regime)) =~= spec_templates(42, regime).map_values(
        |t: EdgeTemplate| swap_template(t),
    )) by {
        match regime {
            Regime::Low => { }
            Regime::Mid => { }
            Regime::High => { }
        }
    }
}

proof fn lemma_complement_128(regime: Regime)
    ensures
        spec_templates(42, flip_regime(regime)) =~= spec_templates(128, regime).map_values(
            |t: EdgeTemplate| swap_template(t),
        ),
{
    assert(spec_templates(42, flip_regime(regime)) =~= spec_templates(128, regime).map_values(
        |t: EdgeTemplate| swap_template(t),
    )) by {
        match regime {
            Regime::Low => { }
            Regime::Mid => { }
            Regime::High => { }
        }
    }
}

proof fn lemma_complement_37(regime: Regime)
    ensures
        spec_templates(133, flip_regime(regime)) =~= spec_templates(37, regime).map_values(
            |t: EdgeTemplate| swap_template(t),
        ),
{
    assert(spec_templates(133, flip_regime(regime)) =~= spec_templates(37, regime).map_values(
        |t: EdgeTemplate| swap_template(t),
    )) by {
        match regime {
            Regime::Low => { }
            Regime::Mid => { }
            Regime::High => { }
        }
    }
}

proof fn lemma_complement_133(regime: Regime)
    ensures
        spec_templates(37, flip_regime(regime)) =~= spec_templates(133, regime).map_values(
            |t: EdgeTemplate| swap_template(t),
        ),
{
    assert(spec_templates(37, flip_regime(regime)) =~= spec_templates(133, regime).map_values(
        |t: EdgeTemplate| swap_template(t),
    )) by {
        match regime {
            Regime::Low => { }
            Regime::Mid => { }
            Regime::High => { }
        }
    }
}

proof fn lemma_complement_148(regime: Regime)
    ensures
        spec_templates(22, flip_regime(regime)) =~= spec_templates(148, regime).map_values(
            |t: EdgeTemplate| swap_template(t),
        ),
{
    assert(spec_templates(22, flip_regime(regime)) =~= spec_templates(148, regime).map_values(
        |t: EdgeTemplate| swap_template(t),
    )) by {
        match regime {
            Regime::Low => { }
            Regime::Mid => { }
            Regime::High => { }
        }
    }
}

proof fn lemma_complement_22(regime: Regime)
    ensures
        spec_templates(148, flip_regime(regime)) =~= spec_templates(22, regime).map_values(
            |t: EdgeTemplate| swap_template(t),
        ),
{
    assert(spec_templates(148, flip_regime(regime)) =~= spec_templates(22, regime).map_values(
        |t: EdgeTemplate| swap_template(t),
    )) by {
        match regime {
            Regime::Low => { }
            Regime::Mid => { }
            Regime::High => { }
        }
    }
}

proof fn lemma_complement_82(regime: Regime)
    ensures
        spec_templates(88, flip_regime(regime)) =~= spec_templates(82, regime).map_values(
            |t: EdgeTemplate| swap_template(t),
        ),
{
    assert(spec_templates(88, flip_regime(regime)) =~= spec_templates(82, regime).map_values(
        |t: EdgeTemplate| swap_template(t),
    )) by {
        match regime {
            Regime::Low => { }
            Regime::Mid => { }
            Regime::High => { }
        }
    }
}

proof fn lemma_complement_88(regime: Regime)
    ensures
        spec_templates(82, flip_regime(regime)) =~= spec_templates(88, regime).map_values(
            |t: EdgeTemplate| swap_template(t),
        ),
{
    assert(spec_templates(82, flip_regime(regime)) =~= spec_templates(88, regime).map_values(
        |t: EdgeTemplate| swap_template(t),
    )) by {
        match regime {
            Regime::Low => { }
            Regime::Mid => { }
            Regime::High => { }
        }
    }
}

proof fn lemma_complement_73(regime: Regime)
    ensures
        spec_templates(97, flip_regime(regime)) =~= spec_templates(73, regime).map_values(
            |t: EdgeTemplate| swap_template(t),
        ),
{
    assert(spec_templates(97, flip_regime(regime)) =~= spec_templates(73, regime).map_values(
        |t: EdgeTemplate| swap_template(t),
    )) by {
        match regime {
            Regime::Low => { }
            Regime::Mid => { }
            Regime::High => { }
        }
    }
}

proof fn lemma_complement_97(regime: Regime)
    ensures
        spec_templates(73, flip_regime(regime)) =~= spec_templates(97, regime).map_values(
            |t: EdgeTemplate| swap_template(t),
        ),
{
    assert(spec_templates(73, flip_regime(regime)) =~= spec_templates(97, regime).map_values(
        |t: EdgeTemplate| swap_template(t),
    )) by {
        match regime {
            Regime::Low => { }
            Regime::Mid => { }
            Regime::High => { }
        }
    }
}

proof fn lemma_complement_145(regime: Regime)
    ensures
        spec_templates(25, flip_regime(regime)) =~= spec_templates(145, regime).map_values(
            |t: EdgeTemplate| swap_template(t),
        ),
{
    assert(spec_templates(25, flip_regime(regime)) =~= spec_templates(145, regime).map_values(
        |t: EdgeTemplate| swap_template(t),
    )) by {
        match regime {
            Regime::Low => { }
            Regime::Mid => { }
            Regime::High => { }
        }
    }
}

proof fn lemma_complement_25(regime: Regime)
    ensures
        spec_templates(145, flip_regime(regime)) =~= spec_templates(25, regime).map_values(
            |t: EdgeTemplate| swap_template(t),
        ),
{
    assert(spec_templates(145, flip_regime(regime)) =~= spec_templates(25, regime).map_values(
        |t: EdgeTemplate| swap_template(t),
    )) by {
        match regime {
            Regime::Low => { }
            Regime::Mid => { }
            Regime::High => { }
        }
    }
}

proof fn lemma_complement_70(regime: Regime)
    ensures
        spec_templates(100, flip_regime(regime)) =~= spec_templates(70, regime).map_values(
            |t: EdgeTemplate| swap_template(t),
        ),
{
    assert(spec_templates(100, flip_regime(regime)) =~= spec_templates(70, regime).map_values(
        |t: EdgeTemplate| swap_template(t),
    )) by {
        match regime {
            Regime::Low => { }
            Regime::Mid => { }
            Regime::High => { }
        }
    }
}

proof fn lemma_complement_100(regime: Regime)
    ensures
        spec_templates(70, flip_regime(regime)) =~= spec_templates(100, regime).map_values(
            |t: EdgeTemplate| swap_template(t),
        ),
{
    assert(spec_templates(70, flip_regime(regime)) =~= spec_templates(100, regime).map_values(
        |t: EdgeTemplate| swap_template(t),
    )) by {
        match regime {
            Regime::Low => { }
            Regime::Mid => { }
            Regime::High => { }
        }
    }
}

proof fn lemma_complement_153(regime: Regime)
    ensures
        spec_templates(17, flip_regime(regime)) =~= spec_templates(153, regime).map_values(
            |t: EdgeTemplate| swap_template(t),
        ),
{
    assert(spec_templates(17, flip_regime(regime)) =~= spec_templates(153, regime).map_values(
        |t: EdgeTemplate| swap_template(t),
    )) by {
        match regime {
            Regime::Low => { }
            Regime::Mid => { }
            Regime::High => { }
        }
    }
}

proof fn lemma_complement_17(regime: Regime)
    ensures
        spec_templates(153, flip_regime(regime)) =~= spec_templates(17, regime).map_values(
            |t: EdgeTemplate| swap_template(t),
        ),
{
    assert(spec_templates(153, flip_regime(regime)) =~= spec_templates(17, regime).map_values(
        |t: EdgeTemplate| swap_template(t),
    )) by {
        match regime {
            Regime::Low => { }
            Regime::Mid => { }
            Regime::High => { }
        }
    }
}

proof fn lemma_complement_102(regime: Regime)
    ensures
        spec_templates(68, flip_regime(regime)) =~= spec_templates(102, regime).map_values(
            |t: EdgeTemplate| swap_template(t),
        ),
{
    assert(spec_templates(68, flip_regime(regime)) =~= spec_templates(102, regime).map_values(
        |t: EdgeTemplate| swap_template(t),
    )) by {
        match regime {
            Regime::Low => { }
            Regime::Mid => { }
            Regime::High => { }
        }
    }
}

proof fn lemma_complement_68(regime: Regime)
    ensures
        spec_templates(102, flip_regime(regime)) =~= spec_templates(68, regime).map_values(
            |t: EdgeTemplate| swap_template(t),
        ),
{
    assert(spec_templates(102, flip_regime(regime)) =~= spec_templates(68, regime).map_values(
        |t: EdgeTemplate| swap_template(t),
    )) by {
        match regime {
            Regime::Low => { }
            Regime::Mid => { }
            Regime::High => { }
        }
    }
}

proof fn lemma_complement_136(regime: Regime)
    ensures
        spec_templates(34, flip_regime(regime)) =~= spec_templates(136, regime).map_values(
            |t: EdgeTemplate| swap_template(t),
        ),
{
    assert(spec_templates(34, flip_regime(regime)) =~= spec_templates(136, regime).map_values(
        |t: EdgeTemplate| swap_template(t),
    )) by {
        match regime {
            Regime::Low => { }
            Regime::Mid => { }
            Regime::High => { }
        }
    }
}

proof fn lemma_complement_34(regime: Regime)
    ensures
        spec_templates(136, flip_regime(regime)) =~= spec_templates(34, regime).map_values(
            |t: EdgeTemplate| swap_template(t),
        ),
{
    assert(spec_templates(136, flip_regime(regime)) =~= spec_templates(34, regime).map_values(
        |t: EdgeTemplate| swap_template(t),
    )) by {
        match regime {
            Regime::Low => { }
            Regime::Mid => { }
            Regime::High => { }
        }
    }
}

proof fn lemma_complement_152(regime: Regime)
    ensures
        spec_templates(18, flip_regime(regime)) =~= spec_templates(152, regime).map_values(
            |t: EdgeTemplate| swap_template(t),
        ),
{
    assert(spec_templates(18, flip_regime(regime)) =~= spec_templates(152, regime).map_values(
        |t: EdgeTemplate| swap_template(t),
    )) by {
        match regime {
            Regime::Low => { }
            Regime::Mid => { }
            Regime::High => { }
        }
    }
}

proof fn lemma_complement_18(regime: Regime)
    ensures
        spec_templates(152, flip_regime(regime)) =~= spec_templates(18, regime).map_values(
            |t: EdgeTemplate| swap_template(t),
        ),
{
    assert(spec_templates(152, flip_regime(regime)) =~= spec_templates(18, regime).map_values(
        |t: EdgeTemplate| swap_template(t),
    )) by {
        match regime {
            Regime::Low => { }
            Regime::Mid => { }
            Regime::High => { }
        }
    }
}

proof fn lemma_complement_137(regime: Regime)
    ensures
        spec_templates(33, flip_regime(regime)) =~= spec_templates(137, regime).map_values(
            |t: EdgeTemplate| swap_template(t),
        ),
{
    assert(spec_templates(33, flip_regime(regime)) =~= spec_templates(137, regime).map_values(
        |t: EdgeTemplate| swap_template(t),
    )) by {
        match regime {
            Regime::Low => { }
            Regime::Mid => { }
            Regime::High => { }
        }
    }
}

proof fn lemma_complement_33(regime: Regime)
    ensures
        spec_templates(137, flip_regime(regime)) =~= spec_templates(33, regime).map_values(
            |t: EdgeTemplate| swap_template(t),
        ),
{
    assert(spec_templates(137, flip_regime(regime)) =~= spec_templates(33, regime).map_values(
        |t: EdgeTemplate| swap_template(t),
    )) by {
        match regime {
            Regime::Low => { }
            Regime::Mid => { }
            Regime::High => { }
        }
    }
}

proof fn lemma_complement_98(regime: Regime)
    ensures
        spec_templates(72, flip_regime(regime)) =~= spec_templates(98, regime).map_values(
            |t: EdgeTemplate| swap_template(t),
        ),
{
    assert(spec_templates(72, flip_regime(regime)) =~= spec_templates(98, regime).map_values(
        |t: EdgeTemplate| swap_template(t),
    )) by {
        match regime {
            Regime::Low => { }
            Regime::Mid => { }
            Regime::High => { }
        }
    }
}

proof fn lemma_complement_72(regime: Regime)
    ensures
        spec_templates(98, flip_regime(regime)) =~= spec_templates(72, regime).map_values(
            |t: EdgeTemplate| swap_template(t),
        ),
{
    assert(spec_templates(98, flip_regime(regime)) =~= spec_templates(72, regime).map_values(
        |t: EdgeTemplate| swap_template(t),
    )) by {
        match regime {
            Regime::Low => { }
            Regime::Mid => { }
            Regime::High => { }
        }
    }
}

proof fn lemma_complement_38(regime: Regime)
    ensures
        spec_templates(132, flip_regime(regime)) =~= spec_templates(38, regime).map_values(
            |t: EdgeTemplate| swap_template(t),
        ),
{
    assert(spec_templates(132, flip_regime(regime)) =~= spec_templates(38, regime).map_values(
        |t: EdgeTemplate| swap_template(t),
    )) by {
        match regime {
            Regime::Low => { }
            Regime::Mid => { }
            Regime::High => { }
        }
    }
}

proof fn lemma_complement_132(regime: Regime)
    ensures
        spec_templates(38, flip_regime(regime)) =~= spec_templates(132, regime).map_values(
            |t: EdgeTemplate| swap_template(t),
        ),
{
    assert(spec_templates(38, flip_regime(regime)) =~= spec_templates(132, regime).map_values(
        |t: EdgeTemplate| swap_template(t),
    )) by {
        match regime {
            Regime::Low => { }
            Regime::Mid => { }
            Regime::High => { }
        }
    }
}

proof fn lemma_complement_0(regime: Regime)
    ensures
        spec_templates(170, flip_regime(regime)) =~= spec_templates(0, regime).map_values(
            |t: EdgeTemplate| swap_template(t),
        ),
{
    assert(spec_templates(170, flip_regime(regime)) =~= spec_templates(0, regime).map_values(
        |t: EdgeTemplate| swap_template(t),
    )) by {
        match regime {
            Regime::Low => { }
            Regime::Mid => { }
            Regime::High => { }
        }
    }
}

proof fn lemma_complement_170(regime: Regime)
    ensures
        spec_templates(0, flip_regime(regime)) =~= spec_templates(170, regime).map_values(
            |t: EdgeTemplate| swap_template(t),
        ),
{
    assert(spec_templates(0, flip_regime(regime)) =~= spec_templates(170, regime).map_values(
        |t: EdgeTemplate| swap_template(t),
    )) by {
        match regime {
            Regime::Low => { }
            Regime::Mid => { }
            Regime::High => { }
        }
    }
}

/// The configuration catalog is point-symmetric: a code and its
/// complement `170 - code`, under the opposite saddle regime, prescribe the
/// same edge layout with the lower and upper thresholds exchanged.  The one
/// exception is the all-between square code 85, its own complement, whose
/// quad is pinned at the upper threshold alone.
pub proof fn lemma_templates_complement(code: int, regime: Regime)
    requires
        code != 85,
    ensures
        spec_templates(170 - code, flip_regime(regime)) == spec_templates(code, regime).map_values(
            |t: EdgeTemplate| swap_template(t),
        ),
{
    if false {
    } else if code == 169 {
        lemma_complement_169(regime);
    } else if code == 1 {
        lemma_complement_1(regime);
    } else if code == 166 {
        lemma_complement_166(regime);
    } else if code == 4 {
        lemma_complement_4(regime);
    } else if code == 154 {
        lemma_complement_154(regime);
    } else if code == 16 {
        lemma_complement_16(regime);
    } else if code == 106 {
        lemma_complement_106(regime);
    } else if code == 64 {
        lemma_complement_64(regime);
    } else if code == 101 {
        lemma_complement_101(regime);
    } else if code == 69 {
        lemma_complement_69(regime);
    } else if code == 149 {
        lemma_complement_149(regime);
    } else if code == 21 {
        lemma_complement_21(regime);
    } else if code == 86 {
        lemma_complement_86(regime);
    } else if code == 84 {
        lemma_complement_84(regime);
    } else if code == 89 {
        lemma_complement_89(regime);
    } else if code == 81 {
        lemma_complement_81(regime);
    } else if code == 96 {
        lemma_complement_96(regime);
    } else if code == 74 {
        lemma_complement_74(regime);
    } else if code == 24 {
        lemma_complement_24(regime);
    } else if code == 146 {
        lemma_complement_146(regime);
    } else if code == 6 {
        lemma_complement_6(regime);
    } else if code == 164 {
        lemma_complement_164(regime);
    } else if code == 129 {
        lemma_complement_129(regime);
    } else if code == 41 {
        lemma_complement_41(regime);
    } else if code == 66 {
        lemma_complement_66(regime);
    } else if code == 104 {
        lemma_complement_104(regime);
    } else if code == 144 {
        lemma_complement_144(regime);
    } else if code == 26 {
        lemma_complement_26(regime);
    } else if code == 36 {
        lemma_complement_36(regime);
    } else if code == 134 {
        lemma_complement_134(regime);
    } else if code == 9 {
        lemma_complement_9(regime);
    } else if code == 161 {
        lemma_complement_161(regime);
    } else if code == 5 {
        lemma_complement_5(regime);
    } else if code == 165 {
        lemma_complement_165(regime);
    } else if code == 20 {
        lemma_complement_20(regime);
    } else if code == 150 {
        lemma_complement_150(regime);
    } else if code == 80 {
        lemma_complement_80(regime);
    } else if code == 90 {
        lemma_complement_90(regime);
    } else if code == 65 {
        lemma_complement_65(regime);
    } else if code == 105 {
        lemma_complement_105(regime);
    } else if code == 160 {
        lemma_complement_160(regime);
    } else if code == 10 {
        lemma_complement_10(regime);
    } else if code == 130 {
        lemma_complement_130(regime);
    } else if code == 40 {
        lemma_complement_40(regime);
    } else if code == 168 {
        lemma_complement_168(regime);
    } else if code == 2 {
        lemma_complement_2(regime);
    } else if code == 162 {
        lemma_complement_162(regime);
    } else if code == 8 {
        lemma_complement_8(regime);
    } else if code == 138 {
        lemma_complement_138(regime);
    } else if code == 32 {
        lemma_complement_32(regime);
    } else if code == 42 {
        lemma_complement_42(regime);
    } else if code == 128 {
        lemma_complement_128(regime);
    } else if code == 37 {
        lemma_complement_37(regime);
    } else if code == 133 {
        lemma_complement_133(regime);
    } else if code == 148 {
        lemma_complement_148(regime);
    } else if code == 22 {
        lemma_complement_22(regime);
    } else if code == 82 {
        lemma_complement_82(regime);
    } else if code == 88 {
        lemma_complement_88(regime);
    } else if code == 73 {
        lemma_complement_73(regime);
    } else if code == 97 {
        lemma_complement_97(regime);
    } else if code == 145 {
        lemma_complement_145(regime);
    } else if code == 25 {
        lemma_complement_25(regime);
    } else if code == 70 {
        lemma_complement_70(regime);
    } else if code == 100 {
        lemma_complement_100(regime);
    } else if code == 153 {
        lemma_complement_153(regime);
    } else if code == 17 {
        lemma_complement_17(regime);
    } else if code == 102 {
        lemma_complement_102(regime);
    } else if code == 68 {
        lemma_complement_68(regime);
    } else if code == 136 {
        lemma_complement_136(regime);
    } else if code == 34 {
        lemma_complement_34(regime);
    } else if code == 152 {
        lemma_complement_152(regime);
    } else if code == 18 {
        lemma_complement_18(regime);
    } else if code == 137 {
        lemma_complement_137(regime);
    } else if code == 33 {
        lemma_complement_33(regime);
    } else if code == 98 {
        lemma_complement_98(regime);
    } else if code == 72 {
        lemma_complement_72(regime);
    } else if code == 38 {
        lemma_complement_38(regime);
    } else if code == 132 {
        lemma_complement_132(regime);
    } else if code == 0 {
        lemma_complement_0(regime);
    } else if code == 170 {
        lemma_complement_170(regime);
    } else {
        assert(spec_templates(170 - code, flip_regime(regime)) =~= spec_templates(code, regime)
            .map_values(|t: EdgeTemplate| swap_template(t)));
    }
}

} // verus!
