//! Cross-cell edge tracing: walking cell to cell, consuming per-cell edges
//! to assemble closed polygon rings.
//!
//! Each classified cell carries its remaining edges, a count of consumed
//! edges and an irreversible `cleared` flag.  A trace follows the chain of
//! edges whose start equals the running point, consuming each exactly
//! once; it closes when the running point returns to the ring's first
//! point, and fails — discarding the partial trace but keeping its edges
//! consumed — when the chain breaks or leaves the grid.

use vstd::prelude::*;

use crate::cell_shapes::{edges_in_range, find_start, lemma_find_start, shape_wf, CellShape};
use crate::polygon_util::ring_in_range;
use crate::types::point_in_range;
use crate::types::{Edge, Move, Point};

verus! {

/// A classified cell with its consumption state.
#[derive(Debug)]
pub struct CellWithEdges {
    /// The remaining (not yet consumed) edges of the cell.
    pub shape: CellShape,
    /// How many edges have been consumed.
    pub used_edges: usize,
    /// Irreversibly true once every original edge is consumed.
    pub cleared: bool,
    /// How many edges the cell started with.
    pub total_edge_count: usize,
    /// The cell's configuration code, kept for diagnostics.
    pub config: u8,
    /// The cell's corner values (top-left, top-right, bottom-right,
    /// bottom-left), kept for diagnostics.
    pub corners: (i64, i64, i64, i64),
}

/// Consumption accounting of one cell is consistent: consumed plus
/// remaining equals the original count, the remaining edges have pairwise
/// distinct starts, and every endpoint lies on the admissible lattice.
pub open spec fn cell_wf(c: CellWithEdges) -> bool {
    &&& c.used_edges + c.shape.edges@.len() == c.total_edge_count
    &&& shape_wf(c.shape.edges@)
    &&& edges_in_range(c.shape.edges@)
}

/// The edge chain readable from `cur`: follow starts equal to the running
/// point, without consuming, for at most `fuel` steps.
pub open spec fn spec_chain_from(edges: Seq<Edge>, cur: Point, fuel: nat) -> Seq<Edge>
    decreases fuel,
{
    if fuel == 0 {
        Seq::<Edge>::empty()
    } else {
        let i = find_start(edges, cur);
        if i < 0 {
            Seq::<Edge>::empty()
        } else {
            seq![edges[i]] + spec_chain_from(edges, edges[i].end, (fuel - 1) as nat)
        }
    }
}

/// The chain a cell hands out for a start point (or from its first edge
/// when unconstrained); a cleared or empty cell hands out nothing.
pub open spec fn spec_chained_edges(c: CellWithEdges, start: Option<Point>) -> Seq<Edge> {
    if c.cleared || c.shape.edges@.len() == 0 {
        Seq::<Edge>::empty()
    } else {
        let p = match start {
            Option::Some(q) => q,
            Option::None => c.shape.edges@[0].start,
        };
        spec_chain_from(c.shape.edges@, p, c.shape.edges@.len() as nat)
    }
}

/// The chain consumed from `cur`: follow and remove edges whose start
/// equals the running point, stopping when the chain breaks or the
/// running point returns to `first`.  Yields the consumed edges in order,
/// the remaining edges, and whether the chain closed.
#[verifier::opaque]
pub open spec fn spec_take_chain(edges: Seq<Edge>, cur: Point, first: Point) -> (Seq<Edge>, Seq<
    Edge,
>, bool)
    decreases edges.len(),
{
    let i = find_start(edges, cur);
    if i < 0 || i >= edges.len() {
        (Seq::<Edge>::empty(), edges, false)
    } else {
        let e = edges[i];
        let rest = edges.remove(i);
        if e.end == first {
            (seq![e], rest, true)
        } else {
            let sub = spec_take_chain(rest, e.end, first);
            (seq![e] + sub.0, sub.1, sub.2)
        }
    }
}

/// What `take_chain` consumes from a cell: nothing from a cleared or
/// empty cell; otherwise the chain from `start` (or from the first
/// remaining edge), closing against `first` (or against the chain's own
/// first point).
pub open spec fn spec_cell_take(c: CellWithEdges, first: Option<Point>, start: Option<Point>) -> (
    Seq<Edge>,
    Seq<Edge>,
    bool,
) {
    spec_view_take(view_of_cell(c), first, start)
}

/// Find the index of the first remaining edge starting at `p`.
fn find_edge_idx(edges: &Vec<Edge>, p: &Point) -> (r: Option<usize>)
    ensures
        match r {
            Option::Some(i) => find_start(edges@, *p) == i as int && i < edges@.len(),
            Option::None => find_start(edges@, *p) < 0,
        },
{
    proof {
        lemma_find_start(edges@, *p);
    }
    let mut i: usize = 0;
    while i < edges.len()
        invariant
            i <= edges@.len(),
            forall|k: int| 0 <= k < i ==> (#[trigger] edges@[k]).start != *p,
        decreases edges@.len() - i,
    {
        if edges[i].start.x == p.x && edges[i].start.y == p.y {
            proof {
                lemma_find_start(edges@, *p);
            }
            return Option::Some(i);
        }
        i = i + 1;
    }
    Option::None
}

/// Removing an edge keeps the remaining starts pairwise distinct.
proof fn lemma_remove_wf(s: Seq<Edge>, i: int)
    requires
        shape_wf(s),
        0 <= i < s.len(),
    ensures
        shape_wf(s.remove(i)),
{
    let t = s.remove(i);
    assert forall|a: int, b: int| 0 <= a < b < t.len() implies (#[trigger] t[a]).start != (
    #[trigger] t[b]).start by {
        let a0 = if a < i {
            a
        } else {
            a + 1
        };
        let b0 = if b < i {
            b
        } else {
            b + 1
        };
        assert(t[a] == s[a0] && t[b] == s[b0]);
    }
}

impl CellWithEdges {
    /// Wrap a freshly classified cell shape.
    pub fn new(shape: CellShape) -> (r: CellWithEdges)
        ensures
            r.shape == shape,
            r.used_edges == 0,
            !r.cleared,
            r.total_edge_count == shape.edges@.len(),
            r.config == 0,
            shape_wf(shape.edges@) && edges_in_range(shape.edges@) ==> cell_wf(r),
    {
        let total = shape.edges.len();
        CellWithEdges {
            shape,
            used_edges: 0,
            cleared: false,
            total_edge_count: total,
            config: 0,
            corners: (0, 0, 0, 0),
        }
    }

    /// Wrap a freshly classified cell shape, recording its configuration
    /// code and corner values.
    pub fn new_with_config(shape: CellShape, config: u8, corners: (i64, i64, i64, i64)) -> (r:
        CellWithEdges)
        ensures
            r.shape == shape,
            r.used_edges == 0,
            !r.cleared,
            r.total_edge_count == shape.edges@.len(),
            r.config == config,
            r.corners == corners,
            shape_wf(shape.edges@) && edges_in_range(shape.edges@) ==> cell_wf(r),
    {
        let total = shape.edges.len();
        CellWithEdges { shape, used_edges: 0, cleared: false, total_edge_count: total, config, corners }
    }

    /// The chain of edges readable from `start_point` (or from the first
    /// remaining edge), without consuming anything.
    pub fn get_chained_edges_from(&self, start_point: Option<&Point>) -> (r: Vec<Edge>)
        ensures
            match start_point {
                Option::Some(p) => r@ == spec_chained_edges(*self, Option::Some(*p)),
                Option::None => r@ == spec_chained_edges(*self, Option::<Point>::None),
            },
    {
        let mut result: Vec<Edge> = Vec::new();
        if self.cleared || self.shape.edges.len() == 0 {
            return result;
        }
        let mut cur: Point = match start_point {
            Option::Some(p) => *p,
            Option::None => self.shape.edges[0].start,
        };
        let max = self.shape.edges.len();
        let ghost full = spec_chain_from(self.shape.edges@, cur, max as nat);
        proof {
            assert(match start_point {
                Option::Some(p) => full == spec_chained_edges(*self, Option::Some(*p)),
                Option::None => full == spec_chained_edges(*self, Option::<Point>::None),
            });
        }
        while result.len() < max
            invariant
                result@.len() <= max,
                max == self.shape.edges@.len(),
                match start_point {
                    Option::Some(p) => full == spec_chained_edges(*self, Option::Some(*p)),
                    Option::None => full == spec_chained_edges(*self, Option::<Point>::None),
                },
                full == result@ + spec_chain_from(
                    self.shape.edges@,
                    cur,
                    (max - result@.len()) as nat,
                ),
            decreases max - result@.len(),
        {
            match find_edge_idx(&self.shape.edges, &cur) {
                Option::Some(i) => {
                    let e = self.shape.edges[i];
                    result.push(e);
                    cur = e.end;
                },
                Option::None => {
                    assert(spec_chain_from(
                        self.shape.edges@,
                        cur,
                        (max - result@.len()) as nat,
                    ) =~= Seq::<Edge>::empty());
                    assert(full =~= result@);
                    return result;
                },
            }
        }
        assert(full =~= result@);
        result
    }

    /// Remove the remaining edge that starts at `start_point`, if any.
    pub fn remove_edge(&mut self, start_point: &Point)
        ensures
            ({
                let i = find_start(old(self).shape.edges@, *start_point);
                &&& i >= 0 ==> final(self).shape.edges@ == old(self).shape.edges@.remove(i)
                &&& i < 0 ==> final(self).shape.edges@ == old(self).shape.edges@
            }),
            final(self).used_edges == old(self).used_edges,
            final(self).cleared == old(self).cleared,
            final(self).total_edge_count == old(self).total_edge_count,
            final(self).config == old(self).config,
            final(self).corners == old(self).corners,
    {
        match find_edge_idx(&self.shape.edges, start_point) {
            Option::Some(i) => {
                self.shape.edges.remove(i);
            },
            Option::None => {},
        }
    }

    /// Count `count` more edges as consumed; the cell clears once the
    /// count reaches its original edge count.
    pub fn increment_used_edges(&mut self, count: usize)
        requires
            old(self).used_edges + count <= usize::MAX,
        ensures
            final(self).used_edges == old(self).used_edges + count,
            final(self).cleared == (old(self).cleared || old(self).used_edges + count >= old(
                self,
            ).total_edge_count),
            final(self).shape == old(self).shape,
            final(self).total_edge_count == old(self).total_edge_count,
            final(self).config == old(self).config,
            final(self).corners == old(self).corners,
    {
        self.used_edges = self.used_edges + count;
        if self.used_edges >= self.total_edge_count {
            self.cleared = true;
        }
    }

    /// Whether the cell has nothing left to hand out.
    pub fn is_cleared(&self) -> (r: bool)
        ensures
            r == (self.cleared || self.shape.edges@.len() == 0),
    {
        self.cleared || self.shape.edges.len() == 0
    }

    /// Consume the chain readable from `start` (or from the first
    /// remaining edge): remove each chained edge, counting it, until the
    /// chain breaks or the running point returns to `first` (or, when
    /// `first` is absent, to the chain's own first start).
    ///
    /// Returns the consumed edges in order and whether the chain closed.
    #[verifier::rlimit(100)]
    pub fn take_chain(&mut self, first: Option<Point>, start: Option<Point>) -> (r: (Vec<Edge>, bool))
        requires
            cell_wf(*old(self)),
        ensures
            r.0@ == spec_cell_take(*old(self), first, start).0,
            final(self).shape.edges@ == spec_cell_take(*old(self), first, start).1,
            r.1 == spec_cell_take(*old(self), first, start).2,
            !(old(self).cleared || old(self).shape.edges@.len() == 0) ==> final(self).cleared == (
            old(self).cleared || final(self).used_edges >= final(self).total_edge_count),
            (old(self).cleared || old(self).shape.edges@.len() == 0) ==> final(self).cleared == old(
                self,
            ).cleared,
            cell_wf(*final(self)),
            final(self).total_edge_count == old(self).total_edge_count,
            final(self).config == old(self).config,
            final(self).corners == old(self).corners,
            final(self).used_edges == old(self).used_edges + r.0@.len(),
            final(self).shape.edges@.len() + r.0@.len() == old(self).shape.edges@.len(),
            old(self).cleared ==> final(self).cleared && r.0@.len() == 0,
            forall|i: int| 1 <= i < r.0@.len() ==> (#[trigger] r.0@[i]).start == r.0@[i - 1].end,
            forall|i: int|
                0 <= i < r.0@.len() ==> point_in_range((#[trigger] r.0@[i]).start)
                    && point_in_range(r.0@[i].end),
            r.0@.len() > 0 ==> (start matches Option::Some(p) ==> r.0@[0].start == p),
            r.1 ==> r.0@.len() > 0 && r.0@[r.0@.len() - 1].end == (match first {
                Option::Some(f) => f,
                Option::None => r.0@[0].start,
            }),
    {
        let mut taken: Vec<Edge> = Vec::new();
        let mut closed = false;
        if self.cleared || self.shape.edges.len() == 0 {
            return (taken, false);
        }
        let mut cur: Point = match start {
            Option::Some(p) => p,
            Option::None => self.shape.edges[0].start,
        };
        let first_pt: Point = match first {
            Option::Some(f) => f,
            Option::None => cur,
        };
        let ghost target = spec_cell_take(*old(self), first, start);
        proof {
            reveal(spec_take_chain);
        }
        let mut go = true;
        while go
            invariant
                target == spec_cell_take(*old(self), first, start),
                go ==> !closed && ({
                    let sub = spec_take_chain(self.shape.edges@, cur, first_pt);
                    target.0 == taken@ + sub.0 && target.1 == sub.1 && target.2 == sub.2
                }),
                !go ==> target.0 == taken@ && target.1 == self.shape.edges@ && target.2 == closed,
                cell_wf(*self),
                self.total_edge_count == old(self).total_edge_count,
                self.config == old(self).config,
                self.corners == old(self).corners,
                self.used_edges == old(self).used_edges + taken@.len(),
                self.shape.edges@.len() + taken@.len() == old(self).shape.edges@.len(),
                forall|i: int| 1 <= i < taken@.len() ==> (#[trigger] taken@[i]).start == taken@[i
                    - 1].end,
                forall|i: int|
                    0 <= i < taken@.len() ==> point_in_range((#[trigger] taken@[i]).start)
                        && point_in_range(taken@[i].end),
                taken@.len() > 0 ==> (start matches Option::Some(p) ==> taken@[0].start == p),
                taken@.len() > 0 ==> cur == taken@[taken@.len() - 1].end,
                taken@.len() == 0 ==> cur == (match start {
                    Option::Some(p) => p,
                    Option::None => old(self).shape.edges@[0].start,
                }),
                closed ==> !go,
                closed ==> taken@.len() > 0 && taken@[taken@.len() - 1].end == first_pt,
                !old(self).cleared,
                old(self).shape.edges@.len() > 0,
                self.cleared == (self.used_edges >= self.total_edge_count),
                taken@.len() > 0 ==> taken@[0].start == (match start {
                    Option::Some(p) => p,
                    Option::None => old(self).shape.edges@[0].start,
                }),
                first_pt == (match first {
                    Option::Some(f) => f,
                    Option::None => match start {
                        Option::Some(p) => p,
                        Option::None => old(self).shape.edges@[0].start,
                    },
                }),
            decreases self.shape.edges@.len() + (if go { 1int } else { 0int }),
        {
            let ghost edges_pre = self.shape.edges@;
            let ghost taken_pre = taken@;
            match find_edge_idx(&self.shape.edges, &cur) {
                Option::Some(i) => {
                    proof {
                        lemma_find_start(self.shape.edges@, cur);
                    }
                    let e = self.shape.edges[i];
                    proof {
                        lemma_remove_wf(self.shape.edges@, i as int);
                        assert(e.start == cur);
                    }
                    self.shape.edges.remove(i);
                    self.used_edges = self.used_edges + 1;
                    if self.used_edges >= self.total_edge_count {
                        self.cleared = true;
                    }
                    taken.push(e);
                    cur = e.end;
                    if e.end.x == first_pt.x && e.end.y == first_pt.y {
                        closed = true;
                        go = false;
                        proof {
                            reveal(spec_take_chain);
                            assert(spec_take_chain(edges_pre, e.start, first_pt)
                                == (seq![e], self.shape.edges@, true));
                            assert(taken@ =~= taken_pre + seq![e]);
                        }
                    } else {
                        proof {
                            reveal(spec_take_chain);
                            let sub = spec_take_chain(self.shape.edges@, e.end, first_pt);
                            assert(spec_take_chain(edges_pre, e.start, first_pt)
                                == (seq![e] + sub.0, sub.1, sub.2));
                            assert(taken_pre + (seq![e] + sub.0) =~= (taken_pre + seq![e]) + sub.0);
                            assert(taken@ =~= taken_pre + seq![e]);
                        }
                    }
                },
                Option::None => {
                    go = false;
                    proof {
                        reveal(spec_take_chain);
                        assert(spec_take_chain(edges_pre, cur, first_pt)
                            == (Seq::<Edge>::empty(), edges_pre, false));
                        assert(taken@ + Seq::<Edge>::empty() =~= taken@);
                    }
                },
            }
        }
        (taken, closed)
    }
}

/// How a trace ended.
#[derive(Clone, Copy, Debug, PartialEq, Eq, Structural)]
pub enum TraceEnd {
    /// The running point returned to the ring's first point.
    Closed,
    /// The chain broke: a missing, cleared or exhausted cell, or a move
    /// off the grid.
    Broke,
    /// The iteration ceiling was reached.
    Exhausted,
}

/// The ghost state of one cell: its remaining edges and consumption
/// accounting.
pub ghost struct CellView {
    /// The remaining edges.
    pub edges: Seq<Edge>,
    /// Consumed-edge count.
    pub used: int,
    /// Original edge count.
    pub total: int,
    /// Whether the cell has cleared.
    pub cleared: bool,
}

/// The ghost state of one cell slot of the arena.
pub open spec fn view_of_cell(c: CellWithEdges) -> CellView {
    CellView {
        edges: c.shape.edges@,
        used: c.used_edges as int,
        total: c.total_edge_count as int,
        cleared: c.cleared,
    }
}

/// The ghost state of one slot.
pub open spec fn view_of_slot(s: Option<CellWithEdges>) -> Option<CellView> {
    match s {
        Option::Some(c) => Option::Some(view_of_cell(c)),
        Option::None => Option::None,
    }
}

/// The ghost state of the whole arena.
#[verifier::opaque]
pub open spec fn view_of_cells(s: Seq<Option<CellWithEdges>>) -> Seq<Option<CellView>> {
    Seq::new(s.len(), |i: int| view_of_slot(s[i]))
}

/// The view has one slot per cell slot.
pub proof fn lemma_view_len(s: Seq<Option<CellWithEdges>>)
    ensures
        view_of_cells(s).len() == s.len(),
        forall|i: int| 0 <= i < s.len() ==> view_of_cells(s)[i] == view_of_slot(#[trigger] s[i]),
{
    reveal(view_of_cells);
}

/// Updating one slot updates one slot of the view.
pub proof fn lemma_view_update(s: Seq<Option<CellWithEdges>>, i: int, v: Option<CellWithEdges>)
    requires
        0 <= i < s.len(),
    ensures
        view_of_cells(s.update(i, v)) == view_of_cells(s).update(i, view_of_slot(v)),
        view_of_cells(s).len() == s.len(),
        view_of_cells(s)[i] == view_of_slot(s[i]),
{
    reveal(view_of_cells);
    assert(view_of_cells(s.update(i, v)) =~= view_of_cells(s).update(i, view_of_slot(v)));
}

/// What `take_chain` consumes, on the ghost cell state.
pub open spec fn spec_view_take(v: CellView, first: Option<Point>, start: Option<Point>) -> (
    Seq<Edge>,
    Seq<Edge>,
    bool,
) {
    if v.cleared || v.edges.len() == 0 {
        (Seq::<Edge>::empty(), v.edges, false)
    } else {
        let cur = match start {
            Option::Some(p) => p,
            Option::None => v.edges[0].start,
        };
        let f = match first {
            Option::Some(q) => q,
            Option::None => cur,
        };
        spec_take_chain(v.edges, cur, f)
    }
}

/// The ghost cell state after `take_chain` on a live cell.
pub open spec fn spec_view_after_take(v: CellView, first: Option<Point>, start: Option<Point>) -> CellView {
    let t = spec_view_take(v, first, start);
    CellView {
        edges: t.1,
        used: v.used + t.0.len(),
        total: v.total,
        cleared: v.cleared || v.used + t.0.len() >= v.total,
    }
}

/// The ghost state of one ring walk: the arena, the position, the edges
/// consumed so far, and how the walk ended, if it has.
pub ghost struct WalkState {
    /// Ghost state of the arena.
    pub cells: Seq<Option<CellView>>,
    /// Current cell row.
    pub row: int,
    /// Current cell column.
    pub col: int,
    /// Edges consumed so far, in walk order.
    pub acc: Seq<Edge>,
    /// How the walk ended, once it has.
    pub done: Option<TraceEnd>,
}

/// How consuming a chain in one cell went.
#[derive(Clone, Copy, Debug, PartialEq, Eq, Structural)]
pub enum ConsumeRes {
    /// No live cell at the position: absent, cleared or exhausted.
    NoCell,
    /// A live cell, but no edge starts at the carried-over point.
    Empty,
    /// The consumed chain closed the ring.
    Closed,
    /// The consumed chain ended on a move to a neighbour.
    Open,
}

/// Consuming the readable chain of the cell at `idx`: the arena and trace
/// afterwards, and how it went.
#[verifier::opaque]
pub open spec fn spec_consume(cells: Seq<Option<CellView>>, idx: int, acc: Seq<Edge>) -> (
    Seq<Option<CellView>>,
    Seq<Edge>,
    ConsumeRes,
) {
    if !(0 <= idx < cells.len()) {
        (cells, acc, ConsumeRes::NoCell)
    } else {
        match cells[idx] {
            Option::None => (cells, acc, ConsumeRes::NoCell),
            Option::Some(v) => {
                if v.cleared || v.edges.len() == 0 {
                    (cells, acc, ConsumeRes::NoCell)
                } else {
                    let first = if acc.len() > 0 {
                        Option::Some(acc[0].start)
                    } else {
                        Option::<Point>::None
                    };
                    let start = if acc.len() > 0 {
                        Option::Some(acc[acc.len() - 1].end)
                    } else {
                        Option::<Point>::None
                    };
                    let t = spec_view_take(v, first, start);
                    let cells2 = cells.update(
                        idx,
                        Option::Some(spec_view_after_take(v, first, start)),
                    );
                    let acc2 = acc + t.0;
                    let res = if t.0.len() == 0 {
                        ConsumeRes::Empty
                    } else if t.2 {
                        ConsumeRes::Closed
                    } else {
                        ConsumeRes::Open
                    };
                    (cells2, acc2, res)
                }
            },
        }
    }
}

/// One step of the ring walk: consume the chain readable in the current
/// cell, then move to the neighbour named by the last consumed edge.
#[verifier::opaque]
pub open spec fn spec_walk_step(rows: int, cols: int, st: WalkState) -> WalkState {
    if st.done is Some {
        st
    } else if !(0 <= st.row < rows && 0 <= st.col < cols) {
        WalkState { done: Option::Some(TraceEnd::Broke), ..st }
    } else {
        let c = spec_consume(st.cells, st.row * cols + st.col, st.acc);
        match c.2 {
            ConsumeRes::NoCell => WalkState { done: Option::Some(TraceEnd::Broke), ..st },
            ConsumeRes::Empty => WalkState {
                cells: c.0,
                acc: c.1,
                done: Option::Some(TraceEnd::Broke),
                ..st
            },
            ConsumeRes::Closed => WalkState {
                cells: c.0,
                acc: c.1,
                done: Option::Some(TraceEnd::Closed),
                ..st
            },
            ConsumeRes::Open => {
                let last = c.1[c.1.len() - 1];
                match last.move_dir {
                    Move::Right => if st.col + 1 < cols {
                        WalkState { cells: c.0, acc: c.1, col: st.col + 1, ..st }
                    } else {
                        WalkState { cells: c.0, acc: c.1, done: Option::Some(TraceEnd::Broke), ..st }
                    },
                    Move::Down => if st.row + 1 < rows {
                        WalkState { cells: c.0, acc: c.1, row: st.row + 1, ..st }
                    } else {
                        WalkState { cells: c.0, acc: c.1, done: Option::Some(TraceEnd::Broke), ..st }
                    },
                    Move::Left => if st.col > 0 {
                        WalkState { cells: c.0, acc: c.1, col: st.col - 1, ..st }
                    } else {
                        WalkState { cells: c.0, acc: c.1, done: Option::Some(TraceEnd::Broke), ..st }
                    },
                    Move::Up => if st.row > 0 {
                        WalkState { cells: c.0, acc: c.1, row: st.row - 1, ..st }
                    } else {
                        WalkState { cells: c.0, acc: c.1, done: Option::Some(TraceEnd::Broke), ..st }
                    },
                    Move::Stay => WalkState { cells: c.0, acc: c.1, ..st },
                }
            },
        }
    }
}

/// The ring walk, stepping until it ends or the fuel runs out.
pub open spec fn spec_walk(rows: int, cols: int, st: WalkState, fuel: nat) -> WalkState
    decreases fuel,
{
    if st.done is Some {
        st
    } else if fuel == 0 {
        WalkState { done: Option::Some(TraceEnd::Exhausted), ..st }
    } else {
        spec_walk(rows, cols, spec_walk_step(rows, cols, st), (fuel - 1) as nat)
    }
}

/// The point list of a walked edge chain: the first edge's start, then
/// every edge's end.
pub open spec fn spec_ring_points(acc: Seq<Edge>) -> Seq<Point> {
    Seq::new(acc.len() + 1, |i: int| if i == 0 { acc[0].start } else { acc[i - 1].end })
}

/// The gap between a broken trace's last and first points is at most one
/// lattice degree.
pub open spec fn spec_gap_ok(a: Point, b: Point) -> bool {
    &&& -100_000 <= a.x - b.x <= 100_000
    &&& -100_000 <= a.y - b.y <= 100_000
    &&& (a.x - b.x) * (a.x - b.x) + (a.y - b.y) * (a.y - b.y) <= 10_000_000_000
}

/// One full ring trace from a start cell, on the ghost arena state: the
/// arena after the trace, and the ring, if one is returned.  A trace whose
/// walk closes, or breaks within one lattice degree of closing (the last
/// point is then pinned to the first), yields its ring when it has at
/// least three points; an out-of-bounds, absent or cleared start, a wider
/// gap, a short trace, and a walk that exhausts the iteration ceiling all
/// yield nothing.
pub open spec fn spec_trace_view(
    cells: Seq<Option<CellView>>,
    rows: int,
    cols: int,
    row: int,
    col: int,
) -> (Seq<Option<CellView>>, Option<Seq<Point>>) {
    if !(0 <= row < rows && 0 <= col < cols && 0 <= row * cols + col < cells.len()) {
        (cells, Option::<Seq<Point>>::None)
    } else {
        match cells[row * cols + col] {
            Option::None => (cells, Option::<Seq<Point>>::None),
            Option::Some(v) => {
                if v.cleared || v.edges.len() == 0 {
                    (cells, Option::<Seq<Point>>::None)
                } else {
                    let st = spec_walk(
                        rows,
                        cols,
                        WalkState {
                            cells,
                            row,
                            col,
                            acc: Seq::<Edge>::empty(),
                            done: Option::<TraceEnd>::None,
                        },
                        MAX_TRACE_ITERATIONS as nat,
                    );
                    let res = if st.acc.len() == 0 {
                        Option::<Seq<Point>>::None
                    } else {
                        let pts = spec_ring_points(st.acc);
                        if pts.len() < 3 {
                            Option::<Seq<Point>>::None
                        } else if st.done == Option::Some(TraceEnd::Exhausted) {
                            Option::<Seq<Point>>::None
                        } else if pts[0] == pts[pts.len() - 1] {
                            Option::Some(pts)
                        } else if spec_gap_ok(pts[0], pts[pts.len() - 1]) {
                            Option::Some(pts.update(pts.len() - 1, pts[0]))
                        } else {
                            Option::<Seq<Point>>::None
                        }
                    };
                    (st.cells, res)
                }
            },
        }
    }
}

/// One full ring trace on an arena.
pub open spec fn spec_trace_ring(g: CellGrid, row: int, col: int) -> (
    Seq<Option<CellView>>,
    Option<Seq<Point>>,
) {
    spec_trace_view(view_of_cells(g.cells@), g.rows as int, g.cols as int, row, col)
}

/// The consumed-edge count of a cell slot.
pub open spec fn used_of(c: Option<CellWithEdges>) -> int {
    match c {
        Option::Some(cell) => cell.used_edges as int,
        Option::None => 0,
    }
}

/// The original edge count of a cell slot.
pub open spec fn total_of(c: Option<CellWithEdges>) -> int {
    match c {
        Option::Some(cell) => cell.total_edge_count as int,
        Option::None => 0,
    }
}

/// The remaining edge count of a cell slot.
pub open spec fn remaining_of(c: Option<CellWithEdges>) -> int {
    match c {
        Option::Some(cell) => cell.shape.edges@.len() as int,
        Option::None => 0,
    }
}

/// Sum of a per-slot measure over the cell array.
pub open spec fn sum_cells(s: Seq<Option<CellWithEdges>>, f: spec_fn(Option<CellWithEdges>) -> int) -> int
    decreases s.len(),
{
    if s.len() == 0 {
        0
    } else {
        sum_cells(s.drop_last(), f) + f(s.last())
    }
}

/// Updating one slot shifts the sum by the measure's difference there.
pub proof fn lemma_sum_cells_update(
    s: Seq<Option<CellWithEdges>>,
    i: int,
    v: Option<CellWithEdges>,
    f: spec_fn(Option<CellWithEdges>) -> int,
)
    requires
        0 <= i < s.len(),
    ensures
        sum_cells(s.update(i, v), f) == sum_cells(s, f) - f(s[i]) + f(v),
    decreases s.len(),
{
    let t = s.update(i, v);
    if i == s.len() - 1 {
        assert(t.drop_last() =~= s.drop_last());
    } else {
        lemma_sum_cells_update(s.drop_last(), i, v, f);
        assert(t.drop_last() =~= s.drop_last().update(i, v));
        assert(t.last() == s.last());
    }
}

/// A pointwise inequality between measures carries over to the sums.
pub proof fn lemma_sum_cells_le(
    s: Seq<Option<CellWithEdges>>,
    f: spec_fn(Option<CellWithEdges>) -> int,
    g: spec_fn(Option<CellWithEdges>) -> int,
)
    requires
        forall|c: Option<CellWithEdges>| #[trigger] f(c) <= #[trigger] g(c),
    ensures
        sum_cells(s, f) <= sum_cells(s, g),
    decreases s.len(),
{
    if s.len() > 0 {
        lemma_sum_cells_le(s.drop_last(), f, g);
    }
}

/// Total consumed edges across the cell array.
pub open spec fn grid_used(s: Seq<Option<CellWithEdges>>) -> int {
    sum_cells(s, |c: Option<CellWithEdges>| used_of(c))
}

/// Total original edges across the cell array.
pub open spec fn grid_total(s: Seq<Option<CellWithEdges>>) -> int {
    sum_cells(s, |c: Option<CellWithEdges>| total_of(c))
}

/// The per-band arena of cells, indexed by `(row, col)` in row-major
/// order.
pub struct CellGrid {
    /// The cell slots, `rows * cols` of them.
    pub cells: Vec<Option<CellWithEdges>>,
    /// Number of cell rows.
    pub rows: usize,
    /// Number of cell columns.
    pub cols: usize,
}

/// The arena holds exactly `rows * cols` slots, every occupied slot has
/// consistent accounting, and the area is small enough for index
/// arithmetic.
pub open spec fn grid_wf(g: CellGrid) -> bool {
    &&& g.cells@.len() == g.rows * g.cols
    &&& g.rows * g.cols <= 1_000_000_000
    &&& forall|i: int| 0 <= i < g.cells@.len() ==> (match #[trigger] g.cells@[i] {
        Option::Some(c) => cell_wf(c),
        Option::None => true,
    })
}

/// Row-major slot index of a cell position.
pub open spec fn spec_idx(g: CellGrid, row: int, col: int) -> int {
    row * g.cols + col
}

/// A cell position is inside the arena, and its slot index in bounds.
pub proof fn lemma_idx_bounds(g: CellGrid, row: int, col: int)
    requires
        grid_wf(g),
        0 <= row < g.rows,
        0 <= col < g.cols,
    ensures
        0 <= spec_idx(g, row, col) < g.cells@.len(),
{
    assert(row * g.cols + col < g.rows * g.cols) by (nonlinear_arith)
        requires
            0 <= row < g.rows,
            0 <= col < g.cols,
    ;
    assert(row * g.cols + col >= 0) by (nonlinear_arith)
        requires
            0 <= row,
            0 <= col,
            g.cols >= 0,
    ;
}

impl CellGrid {
    /// An arena of empty slots.
    pub fn new(rows: usize, cols: usize) -> (r: CellGrid)
        requires
            rows * cols <= 1_000_000_000,
        ensures
            grid_wf(r),
            r.rows == rows,
            r.cols == cols,
            forall|i: int| 0 <= i < r.cells@.len() ==> (#[trigger] r.cells@[i]) is None,
            grid_used(r.cells@) == 0,
            grid_total(r.cells@) == 0,
    {
        proof {
            assert(rows * cols >= 0) by (nonlinear_arith);
        }
        let n = rows * cols;
        let mut cells: Vec<Option<CellWithEdges>> = Vec::new();
        let mut i: usize = 0;
        while i < n
            invariant
                i <= n,
                cells@.len() == i,
                forall|k: int| 0 <= k < i ==> (#[trigger] cells@[k]) is None,
                grid_used(cells@) == 0,
                grid_total(cells@) == 0,
            decreases n - i,
        {
            let ghost prev = cells@;
            cells.push(Option::None);
            proof {
                assert(cells@.drop_last() =~= prev);
            }
            i = i + 1;
        }
        CellGrid { cells, rows, cols }
    }

    /// Place a classified cell into its slot.
    pub fn set_cell(&mut self, row: usize, col: usize, v: Option<CellWithEdges>)
        requires
            grid_wf(*old(self)),
            row < old(self).rows,
            col < old(self).cols,
            match v {
                Option::Some(c) => cell_wf(c),
                Option::None => true,
            },
        ensures
            grid_wf(*final(self)),
            final(self).rows == old(self).rows,
            final(self).cols == old(self).cols,
            final(self).cells@ == old(self).cells@.update(
                spec_idx(*old(self), row as int, col as int),
                v,
            ),
            grid_used(final(self).cells@) == grid_used(old(self).cells@) - used_of(
                old(self).cells@[spec_idx(*old(self), row as int, col as int)],
            ) + used_of(v),
            grid_total(final(self).cells@) == grid_total(old(self).cells@) - total_of(
                old(self).cells@[spec_idx(*old(self), row as int, col as int)],
            ) + total_of(v),
    {
        proof {
            lemma_idx_bounds(*self, row as int, col as int);
            lemma_sum_cells_update(
                self.cells@,
                spec_idx(*self, row as int, col as int),
                v,
                |c: Option<CellWithEdges>| used_of(c),
            );
            lemma_sum_cells_update(
                self.cells@,
                spec_idx(*self, row as int, col as int),
                v,
                |c: Option<CellWithEdges>| total_of(c),
            );
        }
        let idx = row * self.cols + col;
        self.cells.set(idx, v);
    }

    /// Read a cell slot.
    pub fn get_cell(&self, row: usize, col: usize) -> (r: &Option<CellWithEdges>)
        requires
            grid_wf(*self),
            row < self.rows,
            col < self.cols,
        ensures
            *r == self.cells@[spec_idx(*self, row as int, col as int)],
    {
        proof {
            lemma_idx_bounds(*self, row as int, col as int);
        }
        &self.cells[row * self.cols + col]
    }

    /// Take a cell out of its slot, leaving the slot empty.
    fn take_cell(&mut self, row: usize, col: usize) -> (r: Option<CellWithEdges>)
        requires
            grid_wf(*old(self)),
            row < old(self).rows,
            col < old(self).cols,
        ensures
            grid_wf(*final(self)),
            final(self).rows == old(self).rows,
            final(self).cols == old(self).cols,
            r == old(self).cells@[spec_idx(*old(self), row as int, col as int)],
            final(self).cells@ == old(self).cells@.update(
                spec_idx(*old(self), row as int, col as int),
                Option::<CellWithEdges>::None,
            ),
            grid_used(final(self).cells@) == grid_used(old(self).cells@) - used_of(r),
            grid_total(final(self).cells@) == grid_total(old(self).cells@) - total_of(r),
            match r {
                Option::Some(c) => cell_wf(c),
                Option::None => true,
            },
    {
        proof {
            lemma_idx_bounds(*self, row as int, col as int);
            lemma_sum_cells_update(
                self.cells@,
                spec_idx(*self, row as int, col as int),
                Option::<CellWithEdges>::None,
                |c: Option<CellWithEdges>| used_of(c),
            );
            lemma_sum_cells_update(
                self.cells@,
                spec_idx(*self, row as int, col as int),
                Option::<CellWithEdges>::None,
                |c: Option<CellWithEdges>| total_of(c),
            );
        }
        let idx = row * self.cols + col;
        self.cells[idx].take()
    }
}

/// Ceiling on edge consumptions in one trace, guarding against malformed
/// topology.
pub const MAX_TRACE_ITERATIONS: usize = 10_000;

/// Take the readable chain out of the cell at `(row, col)`: `None` when
/// the slot holds no live cell, else the consumed batch and whether it
/// closed, with the slot updated in place.
#[verifier::rlimit(100)]
#[verifier::spinoff_prover]
fn take_in_cell(
    cells: &mut CellGrid,
    row: usize,
    col: usize,
    first: Option<Point>,
    start: Option<Point>,
) -> (r: Option<(Vec<Edge>, bool)>)
    requires
        grid_wf(*old(cells)),
        row < old(cells).rows,
        col < old(cells).cols,
    ensures
        grid_wf(*final(cells)),
        final(cells).rows == old(cells).rows,
        final(cells).cols == old(cells).cols,
        grid_total(final(cells).cells@) == grid_total(old(cells).cells@),
        ({
            let idx = spec_idx(*old(cells), row as int, col as int);
            let vslot = view_of_cells(old(cells).cells@)[idx];
            match r {
                Option::None => view_of_cells(final(cells).cells@) == view_of_cells(
                    old(cells).cells@,
                ) && grid_used(final(cells).cells@) == grid_used(old(cells).cells@) && (match vslot {
                    Option::Some(v) => v.cleared || v.edges.len() == 0,
                    Option::None => true,
                }),
                Option::Some(tc) => match vslot {
                    Option::Some(v) => !v.cleared && v.edges.len() > 0 && tc.0@ == spec_view_take(
                        v,
                        first,
                        start,
                    ).0 && tc.1 == spec_view_take(v, first, start).2 && view_of_cells(
                        final(cells).cells@,
                    ) == view_of_cells(old(cells).cells@).update(
                        idx,
                        Option::Some(spec_view_after_take(v, first, start)),
                    ) && grid_used(final(cells).cells@) == grid_used(old(cells).cells@)
                        + tc.0@.len(),
                    Option::None => false,
                },
            }
        }),
        ({
            match r {
                Option::Some(tc) => {
                    &&& (forall|i: int|
                        1 <= i < tc.0@.len() ==> (#[trigger] tc.0@[i]).start == tc.0@[i - 1].end)
                    &&& (forall|i: int|
                        0 <= i < tc.0@.len() ==> point_in_range((#[trigger] tc.0@[i]).start)
                            && point_in_range(tc.0@[i].end))
                    &&& (tc.0@.len() > 0 ==> (start matches Option::Some(p) ==> tc.0@[0].start
                        == p))
                    &&& (tc.1 ==> tc.0@.len() > 0 && tc.0@[tc.0@.len() - 1].end == (match first {
                        Option::Some(f) => f,
                        Option::None => tc.0@[0].start,
                    }))
                },
                Option::None => true,
            }
        }),
{
    let ghost entry_grid = *cells;
    proof {
        lemma_idx_bounds(entry_grid, row as int, col as int);
        lemma_view_len(entry_grid.cells@);
    }
    let taken_cell = cells.take_cell(row, col);
    let ghost mid_grid = *cells;
    let mut cell = match taken_cell {
        Option::Some(c) => c,
        Option::None => {
            proof {
                lemma_view_update(
                    entry_grid.cells@,
                    spec_idx(entry_grid, row as int, col as int),
                    Option::<CellWithEdges>::None,
                );
                assert(mid_grid.cells@ =~= entry_grid.cells@);
            }
            return Option::None;
        },
    };
    if cell.is_cleared() {
        cells.set_cell(row, col, Option::Some(cell));
        proof {
            assert(cells.cells@ =~= entry_grid.cells@);
        }
        return Option::None;
    }
    let ghost old_cell_view = view_of_cell(cell);
    let (tmp, tmp_closed) = cell.take_chain(first, start);
    proof {
        assert(view_of_cell(cell) == spec_view_after_take(old_cell_view, first, start));
    }
    cells.set_cell(row, col, Option::Some(cell));
    proof {
        assert(cells.cells@ =~= entry_grid.cells@.update(
            spec_idx(entry_grid, row as int, col as int),
            Option::Some(cell),
        ));
        lemma_view_update(
            entry_grid.cells@,
            spec_idx(entry_grid, row as int, col as int),
            Option::Some(cell),
        );
    }
    Option::Some((tmp, tmp_closed))
}

/// Consume the chain readable in the cell at `(row, col)` and append it
/// to the trace; the effect is exactly `spec_consume` on the ghost state.
#[verifier::rlimit(100)]
#[verifier::spinoff_prover]
fn consume_at(cells: &mut CellGrid, row: usize, col: usize, all_edges: &mut Vec<Edge>) -> (r:
    ConsumeRes)
    requires
        grid_wf(*old(cells)),
        row < old(cells).rows,
        col < old(cells).cols,
        forall|i: int| 1 <= i < old(all_edges)@.len() ==> (#[trigger] old(all_edges)@[i]).start
            == old(all_edges)@[i - 1].end,
        forall|i: int|
            0 <= i < old(all_edges)@.len() ==> point_in_range(
                (#[trigger] old(all_edges)@[i]).start,
            ) && point_in_range(old(all_edges)@[i].end),
    ensures
        grid_wf(*final(cells)),
        final(cells).rows == old(cells).rows,
        final(cells).cols == old(cells).cols,
        ({
            let sc = spec_consume(
                view_of_cells(old(cells).cells@),
                spec_idx(*old(cells), row as int, col as int),
                old(all_edges)@,
            );
            &&& view_of_cells(final(cells).cells@) == sc.0
            &&& final(all_edges)@ == sc.1
            &&& r == sc.2
        }),
        grid_total(final(cells).cells@) == grid_total(old(cells).cells@),
        final(all_edges)@.len() >= old(all_edges)@.len(),
        grid_used(final(cells).cells@) == grid_used(old(cells).cells@) + final(all_edges)@.len()
            - old(all_edges)@.len(),
        forall|i: int| 1 <= i < final(all_edges)@.len() ==> (#[trigger] final(all_edges)@[i]).start
            == final(all_edges)@[i - 1].end,
        forall|i: int|
            0 <= i < final(all_edges)@.len() ==> point_in_range(
                (#[trigger] final(all_edges)@[i]).start,
            ) && point_in_range(final(all_edges)@[i].end),
        old(all_edges)@.len() > 0 ==> final(all_edges)@.len() > 0 && final(all_edges)@[0] == old(
            all_edges,
        )@[0],
        r == ConsumeRes::Closed ==> final(all_edges)@.len() > 0 && ({
            let fa = final(all_edges)@;
            fa[fa.len() - 1].end == fa[0].start
        }),
{
    proof {
        lemma_idx_bounds(*cells, row as int, col as int);
        lemma_view_len(cells.cells@);
        reveal(spec_consume);
    }
    let first: Option<Point> = if all_edges.len() > 0 {
        Option::Some(all_edges[0].start)
    } else {
        Option::None
    };
    let start_pt: Option<Point> = if all_edges.len() > 0 {
        Option::Some(all_edges[all_edges.len() - 1].end)
    } else {
        Option::None
    };
    match take_in_cell(cells, row, col, first, start_pt) {
        Option::None => ConsumeRes::NoCell,
        Option::Some((tmp, tmp_closed)) => {
            // Append the consumed batch to the trace.
            let ghost prev_edges = all_edges@;
            let mut k: usize = 0;
            while k < tmp.len()
                invariant
                    k <= tmp@.len(),
                    all_edges@ == prev_edges + tmp@.subrange(0, k as int),
                decreases tmp@.len() - k,
            {
                all_edges.push(tmp[k]);
                proof {
                    assert(all_edges@ =~= prev_edges + tmp@.subrange(0, k + 1));
                }
                k = k + 1;
            }
            proof {
                assert(all_edges@ =~= prev_edges + tmp@);
            }
            if tmp.len() == 0 {
                ConsumeRes::Empty
            } else if tmp_closed {
                ConsumeRes::Closed
            } else {
                ConsumeRes::Open
            }
        },
    }
}

/// One step of a ring walk: consume the chain readable in the current
/// cell, append it to the trace, and move to the neighbour the last
/// consumed edge names.  Returns how the walk ended, or `None` to
/// continue; the effect is exactly `spec_walk_step` on the ghost state.
#[verifier::rlimit(100)]
fn walk_step(
    cells: &mut CellGrid,
    row: &mut usize,
    col: &mut usize,
    all_edges: &mut Vec<Edge>,
) -> (r: Option<TraceEnd>)
    requires
        grid_wf(*old(cells)),
        *old(row) < old(cells).rows,
        *old(col) < old(cells).cols,
        forall|i: int| 1 <= i < old(all_edges)@.len() ==> (#[trigger] old(all_edges)@[i]).start
            == old(all_edges)@[i - 1].end,
        forall|i: int|
            0 <= i < old(all_edges)@.len() ==> point_in_range(
                (#[trigger] old(all_edges)@[i]).start,
            ) && point_in_range(old(all_edges)@[i].end),
    ensures
        grid_wf(*final(cells)),
        final(cells).rows == old(cells).rows,
        final(cells).cols == old(cells).cols,
        *final(row) < final(cells).rows,
        *final(col) < final(cells).cols,
        ({
            let st2 = spec_walk_step(
                old(cells).rows as int,
                old(cells).cols as int,
                WalkState {
                    cells: view_of_cells(old(cells).cells@),
                    row: *old(row) as int,
                    col: *old(col) as int,
                    acc: old(all_edges)@,
                    done: Option::<TraceEnd>::None,
                },
            );
            &&& view_of_cells(final(cells).cells@) == st2.cells
            &&& final(all_edges)@ == st2.acc
            &&& (r is None ==> *final(row) as int == st2.row && *final(col) as int == st2.col
                && st2.done is None)
            &&& (r matches Some(end) ==> st2.done == Option::Some(end))
        }),
        grid_total(final(cells).cells@) == grid_total(old(cells).cells@),
        final(all_edges)@.len() >= old(all_edges)@.len(),
        grid_used(final(cells).cells@) == grid_used(old(cells).cells@) + final(all_edges)@.len()
            - old(all_edges)@.len(),
        forall|i: int| 1 <= i < final(all_edges)@.len() ==> (#[trigger] final(all_edges)@[i]).start
            == final(all_edges)@[i - 1].end,
        forall|i: int|
            0 <= i < final(all_edges)@.len() ==> point_in_range(
                (#[trigger] final(all_edges)@[i]).start,
            ) && point_in_range(final(all_edges)@[i].end),
        old(all_edges)@.len() > 0 ==> final(all_edges)@.len() > 0 && final(all_edges)@[0] == old(
            all_edges,
        )@[0],
        r == Option::Some(TraceEnd::Closed) ==> final(all_edges)@.len() > 0 && ({
            let fa = final(all_edges)@;
            fa[fa.len() - 1].end == fa[0].start
        }),
        r != Option::Some(TraceEnd::Exhausted),
{
    let cur_row = *row;
    let cur_col = *col;
    proof {
        reveal(spec_walk_step);
        reveal(spec_consume);
    }
    let res = consume_at(cells, cur_row, cur_col, all_edges);
    proof {
        let g0 = *old(cells);
        let st = WalkState {
            cells: view_of_cells(g0.cells@),
            row: cur_row as int,
            col: cur_col as int,
            acc: old(all_edges)@,
            done: Option::<TraceEnd>::None,
        };
        assert(spec_idx(g0, cur_row as int, cur_col as int) == st.row * (g0.cols as int)
            + st.col);
        assert(spec_consume(view_of_cells(g0.cells@), spec_idx(g0, cur_row as int, cur_col as int),
            old(all_edges)@) == spec_consume(st.cells, st.row * (g0.cols as int) + st.col, st.acc));
    }
    match res {
        ConsumeRes::NoCell => Option::Some(TraceEnd::Broke),
        ConsumeRes::Empty => Option::Some(TraceEnd::Broke),
        ConsumeRes::Closed => Option::Some(TraceEnd::Closed),
        ConsumeRes::Open => {
            // Step to the neighbouring cell named by the last consumed
            // edge; a move off the grid ends the walk.
            let last = all_edges[all_edges.len() - 1];
            match last.move_dir {
                Move::Right => {
                    if cur_col + 1 < cells.cols {
                        *col = cur_col + 1;
                        Option::None
                    } else {
                        Option::Some(TraceEnd::Broke)
                    }
                },
                Move::Down => {
                    if cur_row + 1 < cells.rows {
                        *row = cur_row + 1;
                        Option::None
                    } else {
                        Option::Some(TraceEnd::Broke)
                    }
                },
                Move::Left => {
                    if cur_col == 0 {
                        Option::Some(TraceEnd::Broke)
                    } else {
                        *col = cur_col - 1;
                        Option::None
                    }
                },
                Move::Up => {
                    if cur_row == 0 {
                        Option::Some(TraceEnd::Broke)
                    } else {
                        *row = cur_row - 1;
                        Option::None
                    }
                },
                Move::Stay => Option::None,
            }
        },
    }
}

/// Trace one polygon ring starting from the given cell.
///
/// The result and the arena afterwards are exactly `spec_trace_ring` of
/// the arena before: `Some` of the walked ring's points — at least three,
/// first equal to last — when the walk closes, or breaks within one
/// lattice degree of closing (the last point is then pinned to the
/// first); `None` on an out-of-bounds, absent or cleared start (the arena
/// then untouched), on a wider break, a short trace, or the iteration
/// ceiling.  Either way every followed edge stays consumed, and no edge
/// is consumed twice.
#[verifier::rlimit(100)]
pub fn trace_ring(cells: &mut CellGrid, start_row: usize, start_col: usize) -> (r: Option<
    Vec<Point>,
>)
    requires
        grid_wf(*old(cells)),
    ensures
        grid_wf(*final(cells)),
        final(cells).rows == old(cells).rows,
        final(cells).cols == old(cells).cols,
        grid_total(final(cells).cells@) == grid_total(old(cells).cells@),
        grid_used(final(cells).cells@) >= grid_used(old(cells).cells@),
        view_of_cells(final(cells).cells@) == spec_trace_ring(
            *old(cells),
            start_row as int,
            start_col as int,
        ).0,
        match r {
            Option::Some(ring) => spec_trace_ring(*old(cells), start_row as int, start_col as int).1
                == Option::Some(ring@) && ring@.len() >= 3 && ring@[0] == ring@[ring@.len() - 1]
                && ring_in_range(ring@) && grid_used(final(cells).cells@) == grid_used(
                old(cells).cells@,
            ) + ring@.len() - 1,
            Option::None => spec_trace_ring(*old(cells), start_row as int, start_col as int).1
                is None,
        },
{
    if !(start_row < cells.rows && start_col < cells.cols) {
        return Option::None;
    }
    proof {
        reveal(view_of_cells);
        lemma_idx_bounds(*cells, start_row as int, start_col as int);
    }
    {
        let start_cell = cells.get_cell(start_row, start_col);
        match start_cell {
            Option::Some(c) => {
                if c.is_cleared() {
                    return Option::None;
                }
            },
            Option::None => {
                return Option::None;
            },
        }
    }

    let mut cur_row = start_row;
    let mut cur_col = start_col;
    let mut all_edges: Vec<Edge> = Vec::new();
    let mut ended: Option<TraceEnd> = Option::None;
    let mut iterations: usize = 0;
    let ghost st0 = WalkState {
        cells: view_of_cells(old(cells).cells@),
        row: start_row as int,
        col: start_col as int,
        acc: Seq::<Edge>::empty(),
        done: Option::<TraceEnd>::None,
    };
    let ghost target = spec_walk(
        old(cells).rows as int,
        old(cells).cols as int,
        st0,
        MAX_TRACE_ITERATIONS as nat,
    );

    while ended.is_none() && iterations < MAX_TRACE_ITERATIONS
        invariant
            grid_wf(*cells),
            cells.rows == old(cells).rows,
            cells.cols == old(cells).cols,
            cur_row < cells.rows,
            cur_col < cells.cols,
            iterations <= MAX_TRACE_ITERATIONS,
            target == spec_walk(
                old(cells).rows as int,
                old(cells).cols as int,
                st0,
                MAX_TRACE_ITERATIONS as nat,
            ),
            grid_total(cells.cells@) == grid_total(old(cells).cells@),
            grid_used(cells.cells@) == grid_used(old(cells).cells@) + all_edges@.len(),
            forall|i: int| 1 <= i < all_edges@.len() ==> (#[trigger] all_edges@[i]).start
                == all_edges@[i - 1].end,
            forall|i: int|
                0 <= i < all_edges@.len() ==> point_in_range((#[trigger] all_edges@[i]).start)
                    && point_in_range(all_edges@[i].end),
            ended is None ==> target == spec_walk(
                old(cells).rows as int,
                old(cells).cols as int,
                WalkState {
                    cells: view_of_cells(cells.cells@),
                    row: cur_row as int,
                    col: cur_col as int,
                    acc: all_edges@,
                    done: Option::<TraceEnd>::None,
                },
                (MAX_TRACE_ITERATIONS - iterations) as nat,
            ),
            ended matches Some(end) ==> target == (WalkState {
                cells: view_of_cells(cells.cells@),
                row: target.row,
                col: target.col,
                acc: all_edges@,
                done: Option::Some(end),
            }),
            ended == Option::Some(TraceEnd::Closed) ==> all_edges@.len() > 0
                && all_edges@[all_edges@.len() - 1].end == all_edges@[0].start,
            ended != Option::Some(TraceEnd::Exhausted),
        decreases MAX_TRACE_ITERATIONS - iterations,
    {
        iterations = iterations + 1;
        let ghost pre_state = WalkState {
            cells: view_of_cells(cells.cells@),
            row: cur_row as int,
            col: cur_col as int,
            acc: all_edges@,
            done: Option::<TraceEnd>::None,
        };
        let step = walk_step(cells, &mut cur_row, &mut cur_col, &mut all_edges);
        proof {
            let st2 = spec_walk_step(old(cells).rows as int, old(cells).cols as int, pre_state);
            match step {
                Option::Some(end) => {
                    assert(st2 == (WalkState {
                        cells: view_of_cells(cells.cells@),
                        row: st2.row,
                        col: st2.col,
                        acc: all_edges@,
                        done: Option::Some(end),
                    }));
                    assert(spec_walk(
                        old(cells).rows as int,
                        old(cells).cols as int,
                        st2,
                        (MAX_TRACE_ITERATIONS - iterations) as nat,
                    ) == st2);
                },
                Option::None => {},
            }
        }
        ended = step;
    }

    if ended.is_none() {
        // The iteration ceiling was reached without an end: a malformed
        // topology; the trace is discarded.
        proof {
            assert(target.done == Option::Some(TraceEnd::Exhausted));
            assert(target.cells == view_of_cells(cells.cells@));
            lemma_trace_finish(*old(cells), start_row as int, start_col as int, target);
        }
        return Option::None;
    }

    proof {
        lemma_trace_finish(*old(cells), start_row as int, start_col as int, target);
    }
    if all_edges.len() == 0 {
        return Option::None;
    }

    // Build the point list: the first edge's start, then every end.
    let mut points: Vec<Point> = Vec::new();
    points.push(all_edges[0].start);
    let mut k: usize = 0;
    while k < all_edges.len()
        invariant
            k <= all_edges@.len(),
            all_edges@.len() > 0,
            points@.len() == k + 1,
            points@[0] == all_edges@[0].start,
            forall|i: int| 0 <= i < k ==> points@[i + 1] == (#[trigger] all_edges@[i]).end,
            forall|i: int|
                0 <= i < all_edges@.len() ==> point_in_range((#[trigger] all_edges@[i]).start)
                    && point_in_range(all_edges@[i].end),
            forall|i: int| 0 <= i < points@.len() ==> point_in_range(#[trigger] points@[i]),
        decreases all_edges@.len() - k,
    {
        points.push(all_edges[k].end);
        k = k + 1;
    }
    proof {
        assert(points@ =~= spec_ring_points(all_edges@));
    }
    if points.len() < 3 {
        return Option::None;
    }
    let first = points[0];
    let last = points[points.len() - 1];
    if first.x == last.x && first.y == last.y {
        proof {
            assert(first == last);
            assert(spec_trace_ring(*old(cells), start_row as int, start_col as int).1
                == Option::Some(points@));
        }
        return Option::Some(points);
    }
    // The chain broke just short of closing: within one lattice degree,
    // pin the last point to the first; any wider gap discards the trace.
    let dx: i128 = (first.x as i128) - (last.x as i128);
    let dy: i128 = (first.y as i128) - (last.y as i128);
    if dx > 100_000 || dx < -100_000 || dy > 100_000 || dy < -100_000 {
        return Option::None;
    }
    proof {
        assert(0 <= (dx as int) * (dx as int) <= 10_000_000_000int) by (nonlinear_arith)
            requires
                -100_000 <= dx as int <= 100_000,
        ;
        assert(0 <= (dy as int) * (dy as int) <= 10_000_000_000int) by (nonlinear_arith)
            requires
                -100_000 <= dy as int <= 100_000,
        ;
    }
    if dx * dx + dy * dy <= 10_000_000_000i128 {
        let n = points.len();
        let ghost pts_pre = points@;
        points.set(n - 1, first);
        proof {
            assert(spec_gap_ok(pts_pre[0], pts_pre[pts_pre.len() - 1]));
            assert(points@ == pts_pre.update(pts_pre.len() - 1, pts_pre[0]));
            assert(spec_trace_ring(*old(cells), start_row as int, start_col as int).1
                == Option::Some(points@));
        }
        Option::Some(points)
    } else {
        proof {
            assert(!spec_gap_ok(points@[0], points@[points@.len() - 1]));
        }
        Option::None
    }
}

/// The walk result determines the trace result: unfolds `spec_trace_ring`
/// for a live start cell.
proof fn lemma_trace_finish(g: CellGrid, row: int, col: int, target: WalkState)
    requires
        grid_wf(g),
        0 <= row < g.rows,
        0 <= col < g.cols,
        ({
            let idx = row * g.cols + col;
            &&& 0 <= idx < view_of_cells(g.cells@).len()
            &&& (match view_of_cells(g.cells@)[idx] {
                Option::Some(v) => !v.cleared && v.edges.len() > 0,
                Option::None => false,
            })
        }),
        target == spec_walk(
            g.rows as int,
            g.cols as int,
            WalkState {
                cells: view_of_cells(g.cells@),
                row,
                col,
                acc: Seq::<Edge>::empty(),
                done: Option::<TraceEnd>::None,
            },
            MAX_TRACE_ITERATIONS as nat,
        ),
    ensures
        spec_trace_ring(g, row, col).0 == target.cells,
        spec_trace_ring(g, row, col).1 == (if target.acc.len() == 0 {
            Option::<Seq<Point>>::None
        } else {
            let pts = spec_ring_points(target.acc);
            if pts.len() < 3 {
                Option::<Seq<Point>>::None
            } else if target.done == Option::Some(TraceEnd::Exhausted) {
                Option::<Seq<Point>>::None
            } else if pts[0] == pts[pts.len() - 1] {
                Option::Some(pts)
            } else if spec_gap_ok(pts[0], pts[pts.len() - 1]) {
                Option::Some(pts.update(pts.len() - 1, pts[0]))
            } else {
                Option::<Seq<Point>>::None
            }
        }),
{
    lemma_idx_bounds(g, row, col);
}

/// Remaining edges across a ghost arena.
pub open spec fn view_remaining(cells: Seq<Option<CellView>>) -> int
    decreases cells.len(),
{
    if cells.len() == 0 {
        0
    } else {
        view_remaining(cells.drop_last()) + (match cells.last() {
            Option::Some(v) => v.edges.len() as int,
            Option::None => 0,
        })
    }
}

/// Remaining edges agree between an arena and its ghost state.
pub proof fn lemma_view_remaining(s: Seq<Option<CellWithEdges>>)
    ensures
        view_remaining(view_of_cells(s)) == sum_cells(
            s,
            |c: Option<CellWithEdges>| remaining_of(c),
        ),
    decreases s.len(),
{
    reveal(view_of_cells);
    if s.len() > 0 {
        lemma_view_remaining(s.drop_last());
        assert(view_of_cells(s).drop_last() =~= view_of_cells(s.drop_last()));
        assert(view_of_cells(s).last() == view_of_slot(s.last()));
    }
}

/// Fuel that certainly outlasts a full scan: one step per cell passed,
/// one per row turned, and one per two edges consumed.
pub open spec fn spec_scan_fuel(cells: Seq<Option<CellView>>, rows: int, cols: int) -> int {
    rows * cols + rows + view_remaining(cells) + 1
}

/// The full row-major ring extraction: trace from each cell until the
/// trace fails, then move on; collect the rings in extraction order.
pub open spec fn spec_scan(
    cells: Seq<Option<CellView>>,
    rows: int,
    cols: int,
    row: int,
    col: int,
    fuel: nat,
) -> (Seq<Option<CellView>>, Seq<Seq<Point>>)
    decreases fuel,
{
    if fuel == 0 {
        (cells, Seq::<Seq<Point>>::empty())
    } else if row >= rows {
        (cells, Seq::<Seq<Point>>::empty())
    } else if col >= cols {
        spec_scan(cells, rows, cols, row + 1, 0, (fuel - 1) as nat)
    } else {
        let t = spec_trace_view(cells, rows, cols, row, col);
        match t.1 {
            Option::None => spec_scan(t.0, rows, cols, row, col + 1, (fuel - 1) as nat),
            Option::Some(ring) => {
                let sub = spec_scan(t.0, rows, cols, row, col, (fuel - 1) as nat);
                (sub.0, seq![ring] + sub.1)
            },
        }
    }
}

/// Edge count laid down in a collection of rings: each ring of `n` points
/// consumed `n - 1` edges.
pub open spec fn rings_edge_count(rings: Seq<Vec<Point>>) -> int
    decreases rings.len(),
{
    if rings.len() == 0 {
        0
    } else {
        rings_edge_count(rings.drop_last()) + (rings.last()@.len() - 1)
    }
}

/// Trace every ring out of the arena: scan cells row-major, tracing from
/// each until it fails, collecting the closed rings.
///
/// The rings and the arena afterwards are exactly `spec_scan` of the
/// arena before.  Every returned ring has at least three points and
/// closes, and edges are conserved: the edges laid down in the returned
/// rings never exceed the edges the cells were created with.
#[verifier::rlimit(100)]
pub fn trace_all_rings(cells: &mut CellGrid) -> (r: Vec<Vec<Point>>)
    requires
        grid_wf(*old(cells)),
    ensures
        grid_wf(*final(cells)),
        final(cells).rows == old(cells).rows,
        final(cells).cols == old(cells).cols,
        grid_total(final(cells).cells@) == grid_total(old(cells).cells@),
        forall|i: int| 0 <= i < r@.len() ==> (#[trigger] r@[i])@.len() >= 3 && r@[i]@[0]
            == r@[i]@[r@[i]@.len() - 1] && ring_in_range(r@[i]@),
        rings_edge_count(r@) + grid_used(old(cells).cells@) <= grid_total(old(cells).cells@),
        ({
            let sc = spec_scan(
                view_of_cells(old(cells).cells@),
                old(cells).rows as int,
                old(cells).cols as int,
                0,
                0,
                spec_scan_fuel(
                    view_of_cells(old(cells).cells@),
                    old(cells).rows as int,
                    old(cells).cols as int,
                ) as nat,
            );
            &&& view_of_cells(final(cells).cells@) == sc.0
            &&& crate::polygon_util::ring_views(r@) == sc.1
        }),
{
    let mut rings: Vec<Vec<Point>> = Vec::new();
    proof {
        lemma_grid_used_le_total(*cells);
        lemma_view_remaining(cells.cells@);
        lemma_wf_remaining(cells.cells@);
    }
    let rows = cells.rows;
    let cols = cells.cols;
    let mut row: usize = 0;
    let mut col: usize = 0;
    let ghost mut fuel_now: int = spec_scan_fuel(
        view_of_cells(cells.cells@),
        rows as int,
        cols as int,
    );
    proof {
        assert(fuel_now >= (rows - row) * cols - col + (rows - row) + (grid_total(cells.cells@)
            - grid_used(cells.cells@)) + 1) by (nonlinear_arith)
            requires
                fuel_now == rows * cols + rows + (grid_total(cells.cells@) - grid_used(
                    cells.cells@,
                )) + 1,
                row == 0,
                col == 0,
        ;
    }

    while row < rows
        invariant
            grid_wf(*cells),
            cells.rows == old(cells).rows,
            cells.cols == old(cells).cols,
            rows == cells.rows,
            cols == cells.cols,
            row <= rows,
            col <= cols,
            grid_total(cells.cells@) == grid_total(old(cells).cells@),
            grid_used(cells.cells@) >= grid_used(old(cells).cells@),
            grid_used(cells.cells@) <= grid_total(cells.cells@),
            rings_edge_count(rings@) + grid_used(old(cells).cells@) <= grid_used(cells.cells@),
            forall|i: int| 0 <= i < rings@.len() ==> (#[trigger] rings@[i])@.len() >= 3
                && rings@[i]@[0] == rings@[i]@[rings@[i]@.len() - 1] && ring_in_range(rings@[i]@),
            fuel_now >= (rows - row) * cols - col + (rows - row) + (grid_total(cells.cells@)
                - grid_used(cells.cells@)) + 1,
            spec_scan(
                view_of_cells(old(cells).cells@),
                rows as int,
                cols as int,
                0,
                0,
                spec_scan_fuel(
                    view_of_cells(old(cells).cells@),
                    rows as int,
                    cols as int,
                ) as nat,
            ) == ({
                let sub = spec_scan(
                    view_of_cells(cells.cells@),
                    rows as int,
                    cols as int,
                    row as int,
                    col as int,
                    fuel_now as nat,
                );
                (sub.0, crate::polygon_util::ring_views(rings@) + sub.1)
            }),
        decreases fuel_now,
    {
        proof {
            assert(fuel_now >= 1) by (nonlinear_arith)
                requires
                    fuel_now >= (rows - row) * cols - col + (rows - row) + (grid_total(
                        cells.cells@,
                    ) - grid_used(cells.cells@)) + 1,
                    row < rows,
                    col <= cols,
                    grid_used(cells.cells@) <= grid_total(cells.cells@),
            ;
        }
        if col >= cols {
            proof {
                assert((rows - row - 1) * cols + (rows - row - 1) + 1 <= (rows - row) * cols - col
                    + (rows - row)) by (nonlinear_arith)
                    requires
                        col == cols,
                        row < rows,
                ;
                fuel_now = fuel_now - 1;
            }
            row = row + 1;
            col = 0;
        } else {
            let ghost used_before = grid_used(cells.cells@);
            let ghost rings_pre = rings@;
            match trace_ring(cells, row, col) {
                Option::Some(ring) => {
                    proof {
                        lemma_grid_used_le_total(*cells);
                        fuel_now = fuel_now - 1;
                    }
                    let ghost rv = ring@;
                    rings.push(ring);
                    proof {
                        assert(rings@.drop_last() =~= rings_pre);
                        assert(crate::polygon_util::ring_views(rings@)
                            =~= crate::polygon_util::ring_views(rings_pre).push(rv));
                        assert(crate::polygon_util::ring_views(rings_pre) + (seq![rv] + spec_scan(
                            view_of_cells(cells.cells@),
                            rows as int,
                            cols as int,
                            row as int,
                            col as int,
                            fuel_now as nat,
                        ).1) =~= crate::polygon_util::ring_views(rings@) + spec_scan(
                            view_of_cells(cells.cells@),
                            rows as int,
                            cols as int,
                            row as int,
                            col as int,
                            fuel_now as nat,
                        ).1);
                    }
                },
                Option::None => {
                    proof {
                        lemma_grid_used_le_total(*cells);
                        fuel_now = fuel_now - 1;
                    }
                    col = col + 1;
                },
            }
        }
    }
    proof {
        assert(spec_scan(
            view_of_cells(cells.cells@),
            rows as int,
            cols as int,
            row as int,
            col as int,
            fuel_now as nat,
        ).1 =~= Seq::<Seq<Point>>::empty());
        assert(crate::polygon_util::ring_views(rings@) + Seq::<Seq<Point>>::empty()
            =~= crate::polygon_util::ring_views(rings@));
    }
    rings
}

/// In a consistent arena the remaining edges are exactly the created
/// ones not yet consumed.
proof fn lemma_wf_remaining(s: Seq<Option<CellWithEdges>>)
    requires
        forall|i: int| 0 <= i < s.len() ==> (match #[trigger] s[i] {
            Option::Some(c) => cell_wf(c),
            Option::None => true,
        }),
    ensures
        sum_cells(s, |c: Option<CellWithEdges>| remaining_of(c)) == grid_total(s) - grid_used(s),
    decreases s.len(),
{
    if s.len() > 0 {
        lemma_wf_remaining(s.drop_last());
        assert(forall|i: int| 0 <= i < s.drop_last().len() ==> s.drop_last()[i] == s[i]);
    }
}

/// In a consistent arena no more edges are consumed than were created.
pub proof fn lemma_grid_used_le_total(g: CellGrid)
    requires
        grid_wf(g),
    ensures
        grid_used(g.cells@) <= grid_total(g.cells@),
{
    lemma_sum_cells_le_pointwise(g.cells@);
}

/// Pointwise form of the conservation inequality over a consistent array.
proof fn lemma_sum_cells_le_pointwise(s: Seq<Option<CellWithEdges>>)
    requires
        forall|i: int| 0 <= i < s.len() ==> (match #[trigger] s[i] {
            Option::Some(c) => cell_wf(c),
            Option::None => true,
        }),
    ensures
        sum_cells(s, |c: Option<CellWithEdges>| used_of(c)) <= sum_cells(
            s,
            |c: Option<CellWithEdges>| total_of(c),
        ),
    decreases s.len(),
{
    if s.len() > 0 {
        lemma_sum_cells_le_pointwise(s.drop_last());
        assert(forall|i: int| 0 <= i < s.drop_last().len() ==> s.drop_last()[i] == s[i]);
    }
}

} // verus!
