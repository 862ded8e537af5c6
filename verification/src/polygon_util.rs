//! Ring containment and polygon organisation: grouping closed rings into
//! exterior-plus-holes polygons by ray-casting containment, with re-nesting
//! when a later ring turns out to surround earlier ones.

use vstd::prelude::*;
use vstd::multiset::Multiset;
use vstd::seq_lib::lemma_multiset_commutative;

use crate::types::{point_in_range, Point};

verus! {

/// Whether a horizontal ray from `p` to the left crosses the segment
/// `a`-`b`, by the crossing-number rule.  Exact integer form of the
/// quotient comparison `p.x < (b.x - a.x) * (p.y - a.y) / (b.y - a.y) + a.x`.
pub open spec fn spec_ray_crosses(p: Point, a: Point, b: Point) -> bool {
    if ((a.y > p.y) == (b.y > p.y)) {
        false
    } else if b.y > a.y {
        (p.x - a.x) * (b.y - a.y) < (b.x - a.x) * (p.y - a.y)
    } else {
        (p.x - a.x) * (b.y - a.y) > (b.x - a.x) * (p.y - a.y)
    }
}

/// The vertex preceding `i` on a closed ring of `n` vertices.
pub open spec fn prev_idx(i: int, n: int) -> int {
    if i == 0 {
        n - 1
    } else {
        i - 1
    }
}

/// Crossing parity of the ray from `p` against the first `k` ring edges.
pub open spec fn spec_crossing_parity(p: Point, poly: Seq<Point>, k: int) -> bool
    decreases k,
{
    if k <= 0 {
        false
    } else {
        spec_crossing_parity(p, poly, k - 1) != spec_ray_crosses(
            p,
            poly[k - 1],
            poly[prev_idx(k - 1, poly.len() as int)],
        )
    }
}

/// A point is inside a ring when the leftward ray crosses its boundary an
/// odd number of times.
pub open spec fn spec_point_in_polygon(p: Point, poly: Seq<Point>) -> bool {
    spec_crossing_parity(p, poly, poly.len() as int)
}

/// A ring is inside another when every one of its vertices tests inside;
/// empty rings are inside nothing and contain nothing.
pub open spec fn spec_polygon_in_polygon(subject: Seq<Point>, poly: Seq<Point>) -> bool {
    &&& subject.len() > 0
    &&& poly.len() > 0
    &&& forall|i: int| 0 <= i < subject.len() ==> spec_point_in_polygon(#[trigger] subject[i], poly)
}

/// Every point of a ring lies on the admissible lattice.
pub open spec fn ring_in_range(s: Seq<Point>) -> bool {
    forall|i: int| 0 <= i < s.len() ==> point_in_range(#[trigger] s[i])
}

/// Products of lattice coordinate differences stay far inside `i128`.
proof fn lemma_small_product(a: int, b: int)
    requires
        -40_000_000 <= a <= 40_000_000,
        -40_000_000 <= b <= 40_000_000,
    ensures
        -1_600_000_000_000_000 <= a * b <= 1_600_000_000_000_000,
{
    assert(-1_600_000_000_000_000 <= a * b <= 1_600_000_000_000_000) by (nonlinear_arith)
        requires
            -40_000_000 <= a <= 40_000_000,
            -40_000_000 <= b <= 40_000_000,
    ;
}

/// Test whether a point lies inside a polygon ring by ray casting.
pub fn point_in_polygon(point: &Point, polygon: &Vec<Point>) -> (r: bool)
    requires
        polygon@.len() > 0,
        point_in_range(*point),
        ring_in_range(polygon@),
    ensures
        r == spec_point_in_polygon(*point, polygon@),
{
    let mut inside = false;
    let n = polygon.len();
    let mut j = n - 1;
    let mut i: usize = 0;
    while i < n
        invariant
            n == polygon@.len(),
            0 < n,
            i <= n,
            point_in_range(*point),
            ring_in_range(polygon@),
            j as int == prev_idx(i as int, n as int) || (i == 0 && j == n - 1),
            inside == spec_crossing_parity(*point, polygon@, i as int),
        decreases n - i,
    {
        let pi = polygon[i];
        let pj = polygon[j];
        proof {
            assert(point_in_range(polygon@[i as int]));
            assert(point_in_range(polygon@[j as int]));
            lemma_small_product(point.x - pi.x, pj.y - pi.y);
            lemma_small_product(pj.x - pi.x, point.y - pi.y);
        }
        let crosses: bool = if (pi.y > point.y) == (pj.y > point.y) {
            false
        } else {
            let lhs: i128 = ((point.x as i128) - (pi.x as i128)) * ((pj.y as i128) - (pi.y as i128));
            let rhs: i128 = ((pj.x as i128) - (pi.x as i128)) * ((point.y as i128) - (pi.y as i128));
            if pj.y > pi.y {
                lhs < rhs
            } else {
                lhs > rhs
            }
        };
        proof {
            assert(crosses == spec_ray_crosses(*point, polygon@[i as int], polygon@[prev_idx(i as int, n as int)]));
        }
        if crosses {
            inside = !inside;
        }
        j = i;
        i = i + 1;
    }
    inside
}

/// Test whether every vertex of `subject` lies inside `polygon`.
pub fn polygon_in_polygon(subject: &Vec<Point>, polygon: &Vec<Point>) -> (r: bool)
    requires
        ring_in_range(subject@),
        ring_in_range(polygon@),
    ensures
        r == spec_polygon_in_polygon(subject@, polygon@),
{
    if subject.len() == 0 || polygon.len() == 0 {
        return false;
    }
    let mut i: usize = 0;
    while i < subject.len()
        invariant
            i <= subject@.len(),
            polygon@.len() > 0,
            ring_in_range(subject@),
            ring_in_range(polygon@),
            forall|k: int| 0 <= k < i ==> spec_point_in_polygon(#[trigger] subject@[k], polygon@),
        decreases subject@.len() - i,
    {
        if !point_in_polygon(&subject[i], polygon) {
            return false;
        }
        i = i + 1;
    }
    true
}

/// One organised polygon is consistent: every hole lies inside the
/// exterior, and no hole lies inside a hole recorded before it.
pub open spec fn entry_ok(e: (Vec<Point>, Vec<Vec<Point>>)) -> bool {
    &&& forall|h: int| 0 <= h < e.1@.len() ==> spec_polygon_in_polygon((#[trigger] e.1@[h])@, e.0@)
    &&& forall|h1: int, h2: int|
        0 <= h1 < h2 < e.1@.len() ==> !spec_polygon_in_polygon((#[trigger] e.1@[h2])@, (#[trigger] e.1@[h1])@)
}

/// Every organised polygon of the result is consistent.
pub open spec fn organized_ok(r: Seq<(Vec<Point>, Vec<Vec<Point>>)>) -> bool {
    forall|i: int| 0 <= i < r.len() ==> entry_ok(#[trigger] r[i])
}

/// Every ring of a queue lies on the admissible lattice.
pub open spec fn rings_in_range(r: Seq<Vec<Point>>) -> bool {
    forall|i: int| 0 <= i < r.len() ==> ring_in_range((#[trigger] r[i])@)
}

/// Every ring of an organised polygon lies on the admissible lattice.
pub open spec fn entry_in_range(e: (Vec<Point>, Vec<Vec<Point>>)) -> bool {
    ring_in_range(e.0@) && rings_in_range(e.1@)
}

/// Every ring of the organised result lies on the admissible lattice.
pub open spec fn organized_in_range(r: Seq<(Vec<Point>, Vec<Vec<Point>>)>) -> bool {
    forall|i: int| 0 <= i < r.len() ==> entry_in_range(#[trigger] r[i])
}

/// A ring has at least three points and its last point equals its first.
pub open spec fn ring_closed3(s: Seq<Point>) -> bool {
    s.len() >= 3 && s[0] == s[s.len() - 1]
}

/// Every ring of a queue is closed with at least three points.
pub open spec fn rings_closed3(r: Seq<Vec<Point>>) -> bool {
    forall|i: int| 0 <= i < r.len() ==> ring_closed3((#[trigger] r[i])@)
}

/// Every ring of an organised polygon is closed with at least three
/// points.
pub open spec fn entry_closed3(e: (Vec<Point>, Vec<Vec<Point>>)) -> bool {
    ring_closed3(e.0@) && rings_closed3(e.1@)
}

/// Every ring of the organised result is closed with at least three
/// points.
pub open spec fn organized_closed3(r: Seq<(Vec<Point>, Vec<Vec<Point>>)>) -> bool {
    forall|i: int| 0 <= i < r.len() ==> entry_closed3(#[trigger] r[i])
}

/// The rings of a queue, as point sequences.
pub open spec fn ring_views(q: Seq<Vec<Point>>) -> Seq<Seq<Point>> {
    q.map_values(|v: Vec<Point>| v@)
}

/// The rings held by one organised polygon: its exterior, then its holes.
pub open spec fn entry_rings(e: (Vec<Point>, Vec<Vec<Point>>)) -> Seq<Seq<Point>> {
    seq![e.0@] + ring_views(e.1@)
}

/// All rings held by an organised result, in entry order.
pub open spec fn result_rings(r: Seq<(Vec<Point>, Vec<Vec<Point>>)>) -> Seq<Seq<Point>>
    decreases r.len(),
{
    if r.len() == 0 {
        Seq::<Seq<Point>>::empty()
    } else {
        result_rings(r.drop_last()) + entry_rings(r.last())
    }
}

/// Pushing a ring onto a queue appends its point sequence to the views.
proof fn lemma_ring_views_push(q: Seq<Vec<Point>>, x: Vec<Point>)
    ensures
        ring_views(q.push(x)) =~= ring_views(q).push(x@),
{
}

/// Removing a ring from a queue removes its point sequence from the views.
proof fn lemma_ring_views_remove(q: Seq<Vec<Point>>, i: int)
    requires
        0 <= i < q.len(),
    ensures
        ring_views(q.remove(i)) =~= ring_views(q).remove(i),
{
}

/// Appending an entry appends its rings.
proof fn lemma_result_rings_push(r: Seq<(Vec<Point>, Vec<Vec<Point>>)>, e: (Vec<Point>, Vec<Vec<Point>>))
    ensures
        result_rings(r.push(e)) == result_rings(r) + entry_rings(e),
{
    assert(r.push(e).drop_last() =~= r);
    assert(r.push(e).last() == e);
}

/// Removing an entry removes exactly its rings from the result's multiset.
proof fn lemma_result_rings_remove(r: Seq<(Vec<Point>, Vec<Vec<Point>>)>, j: int)
    requires
        0 <= j < r.len(),
    ensures
        result_rings(r.remove(j)).to_multiset().add(entry_rings(r[j]).to_multiset())
            == result_rings(r).to_multiset(),
    decreases r.len(),
{
    lemma_multiset_commutative(result_rings(r.drop_last()), entry_rings(r.last()));
    if j == r.len() - 1 {
        assert(r.remove(j) =~= r.drop_last());
    } else {
        lemma_result_rings_remove(r.drop_last(), j);
        assert(r.remove(j).drop_last() =~= r.drop_last().remove(j));
        assert(r.remove(j).last() == r.last());
        lemma_multiset_commutative(
            result_rings(r.drop_last().remove(j)),
            entry_rings(r.last()),
        );
        assert(r.drop_last()[j] == r[j]);
        assert(result_rings(r.remove(j)).to_multiset().add(entry_rings(r[j]).to_multiset())
            =~= result_rings(r).to_multiset());
    }
}

/// Inserting an entry adds exactly its rings to the result's multiset.
proof fn lemma_result_rings_insert(
    r: Seq<(Vec<Point>, Vec<Vec<Point>>)>,
    j: int,
    e: (Vec<Point>, Vec<Vec<Point>>),
)
    requires
        0 <= j <= r.len(),
    ensures
        result_rings(r.insert(j, e)).to_multiset() == result_rings(r).to_multiset().add(
            entry_rings(e).to_multiset(),
        ),
{
    let r2 = r.insert(j, e);
    assert(r2.remove(j) =~= r);
    assert(r2[j] == e);
    lemma_result_rings_remove(r2, j);
}

/// Filing a ring as a hole appends it to the entry's rings.
proof fn lemma_entry_rings_push_hole(
    e1: (Vec<Point>, Vec<Vec<Point>>),
    e2: (Vec<Point>, Vec<Vec<Point>>),
    h: Vec<Point>,
)
    requires
        e2.0@ == e1.0@,
        e2.1@ == e1.1@.push(h),
    ensures
        entry_rings(e2) =~= entry_rings(e1).push(h@),
{
    lemma_ring_views_push(e1.1@, h);
}

/// Group closed rings into exterior-plus-holes polygons.
///
/// Rings are processed from a pending queue.  A ring whose every vertex
/// lies inside an existing exterior, and not inside one of that polygon's
/// holes, becomes a hole there; in either case, every existing polygon
/// whose exterior lies inside the ring is dissolved and re-queued, since
/// the ring may be its proper parent.  A bounded number of passes guards
/// against malformed (mutually containing) ring sets.
pub fn organize_polygons(rings: Vec<Vec<Point>>) -> (r: Vec<(Vec<Point>, Vec<Vec<Point>>)>)
    requires
        rings_in_range(rings@),
    ensures
        organized_ok(r@),
        organized_in_range(r@),
        rings_closed3(rings@) ==> organized_closed3(r@),
        result_rings(r@).to_multiset() == ring_views(rings@).to_multiset(),
{
    let ghost all_closed = rings_closed3(rings@);
    let mut pending = rings;
    let mut result: Vec<(Vec<Point>, Vec<Vec<Point>>)> = Vec::new();

    // Pass ceiling: generous cubic fuel in the ring count, against
    // pathological mutual containment that valid contour output never
    // produces.
    let n = pending.len();
    let fuel: u64 = if n > 1_000_000 {
        u64::MAX
    } else {
        let n64 = n as u64;
        proof {
            assert(n64 * n64 <= 1_000_000_000_000u64) by (nonlinear_arith)
                requires
                    n64 <= 1_000_000,
            ;
        }
        let sq: u64 = n64 * n64;
        proof {
            assert(sq * n64 <= 1_000_000_000_000_000_000u64) by (nonlinear_arith)
                requires
                    n64 <= 1_000_000,
                    sq <= 1_000_000_000_000u64,
            ;
        }
        sq * n64 + n64 + 1
    };
    let mut step: u64 = 0;
    proof {
        broadcast use vstd::seq_lib::group_to_multiset_ensures;
        broadcast use vstd::multiset::group_multiset_axioms;

        assert(result_rings(result@) =~= Seq::<Seq<Point>>::empty());
        assert(result_rings(result@).to_multiset() =~= Multiset::<Seq<Point>>::empty());
        assert(ring_views(pending@).to_multiset().add(result_rings(result@).to_multiset())
            =~= ring_views(rings@).to_multiset());
    }

    while pending.len() > 0 && step < fuel
        invariant
            organized_ok(result@),
            organized_in_range(result@),
            rings_in_range(pending@),
            all_closed ==> rings_closed3(pending@) && organized_closed3(result@),
            ring_views(pending@).to_multiset().add(result_rings(result@).to_multiset())
                == ring_views(rings@).to_multiset(),
            step <= fuel,
        decreases fuel - step,
    {
        step = step + 1;
        proof {
            assert(ring_in_range(pending@[0]@));
            if all_closed {
                assert(ring_closed3(pending@[0]@));
            }
        }
        let ghost pend_before = pending@;
        let subject = pending.remove(0);
        proof {
            broadcast use vstd::seq_lib::group_to_multiset_ensures;

            assert forall|i: int| 0 <= i < pending@.len() implies ring_in_range(
                (#[trigger] pending@[i])@,
            ) by {}
            if all_closed {
                assert forall|i: int| 0 <= i < pending@.len() implies ring_closed3(
                    (#[trigger] pending@[i])@,
                ) by {
                    assert(pending@[i] == pend_before[i + 1]);
                }
            }
            lemma_ring_views_remove(pend_before, 0);
            assert(ring_views(pend_before)[0] == subject@);
            assert(ring_views(pending@).to_multiset() == ring_views(pend_before).to_multiset()
                .remove(subject@));
            assert(ring_views(pend_before).to_multiset().contains(subject@)) by {
                assert(ring_views(pend_before).contains(subject@)) by {
                    assert(ring_views(pend_before)[0] == subject@);
                }
            }
            broadcast use vstd::multiset::group_multiset_axioms;

            assert(ring_views(pending@).to_multiset().insert(subject@)
                =~= ring_views(pend_before).to_multiset());
            assert(ring_views(pending@).to_multiset().add(result_rings(result@).to_multiset())
                .insert(subject@) =~= ring_views(rings@).to_multiset());
        }

        // Find the polygon this ring is a hole of, if any.
        let mut hole_of: Option<usize> = Option::None;
        let mut ei: usize = 0;
        while ei < result.len()
            invariant
                organized_ok(result@),
                organized_in_range(result@),
                rings_in_range(pending@),
                ring_in_range(subject@),
                all_closed ==> rings_closed3(pending@) && organized_closed3(result@)
                    && ring_closed3(subject@),
                ring_views(pending@).to_multiset().add(result_rings(result@).to_multiset()).insert(
                    subject@,
                ) == ring_views(rings@).to_multiset(),
                hole_of matches Option::Some(k) ==> k < result@.len()
                    && spec_polygon_in_polygon(subject@, result@[k as int].0@) && (forall|h: int|
                    0 <= h < result@[k as int].1@.len() ==> !spec_polygon_in_polygon(
                        subject@,
                        (#[trigger] result@[k as int].1@[h])@,
                    )),
            decreases result@.len() - ei,
        {
            if polygon_in_polygon(&subject, &result[ei].0) {
                let mut inside_hole = false;
                let mut hi: usize = 0;
                while hi < result[ei].1.len()
                    invariant
                        ei < result@.len(),
                        ring_in_range(subject@),
                        organized_in_range(result@),
                        !inside_hole ==> forall|h: int|
                            0 <= h < hi ==> !spec_polygon_in_polygon(
                                subject@,
                                (#[trigger] result@[ei as int].1@[h])@,
                            ),
                        inside_hole ==> exists|h: int|
                            0 <= h < result@[ei as int].1@.len() && spec_polygon_in_polygon(
                                subject@,
                                (#[trigger] result@[ei as int].1@[h])@,
                            ),
                    decreases result@[ei as int].1@.len() - hi,
                {
                    if polygon_in_polygon(&subject, &result[ei].1[hi]) {
                        inside_hole = true;
                    }
                    hi = hi + 1;
                }
                if !inside_hole {
                    hole_of = Option::Some(ei);
                    break ;
                }
            }
            ei = ei + 1;
        }

        // Dissolve every existing polygon whose exterior lies inside the
        // ring: it and its holes go back to the queue for re-nesting.
        let mut requeue_subject = false;
        let mut j: usize = 0;
        while j < result.len()
            invariant
                organized_ok(result@),
                organized_in_range(result@),
                rings_in_range(pending@),
                ring_in_range(subject@),
                all_closed ==> rings_closed3(pending@) && organized_closed3(result@)
                    && ring_closed3(subject@),
                ring_views(pending@).to_multiset().add(result_rings(result@).to_multiset()).insert(
                    subject@,
                ) == ring_views(rings@).to_multiset(),
                hole_of matches Option::Some(k) ==> k < result@.len()
                    && spec_polygon_in_polygon(subject@, result@[k as int].0@) && (forall|h: int|
                    0 <= h < result@[k as int].1@.len() ==> !spec_polygon_in_polygon(
                        subject@,
                        (#[trigger] result@[k as int].1@[h])@,
                    )),
            decreases result@.len() - j,
        {
            if polygon_in_polygon(&result[j].0, &subject) {
                let ghost pre = result@;
                let removed = result.remove(j);
                proof {
                    lemma_result_rings_remove(pre, j as int);
                    assert(pre[j as int] == removed);
                    assert(entry_in_range(removed));
                    if all_closed {
                        assert(entry_closed3(removed));
                    }
                    assert forall|i: int| 0 <= i < result@.len() implies entry_ok(
                        #[trigger] result@[i],
                    ) && entry_in_range(#[trigger] result@[i]) by {
                        if i < j {
                            assert(result@[i] == pre[i]);
                        } else {
                            assert(result@[i] == pre[i + 1]);
                        }
                    }
                    if all_closed {
                        assert forall|i: int| 0 <= i < result@.len() implies entry_closed3(
                            #[trigger] result@[i],
                        ) by {
                            if i < j {
                                assert(result@[i] == pre[i]);
                            } else {
                                assert(result@[i] == pre[i + 1]);
                            }
                        }
                    }
                }
                match hole_of {
                    Option::Some(k) => {
                        if k == j {
                            hole_of = Option::None;
                            requeue_subject = true;
                        } else if k > j {
                            hole_of = Option::Some(k - 1);
                            proof {
                                assert(result@[k - 1] == pre[k as int]);
                            }
                        } else {
                            proof {
                                assert(result@[k as int] == pre[k as int]);
                            }
                        }
                    },
                    Option::None => {},
                }
                let (ext, mut holes) = removed;
                let ghost pend_pre = pending@;
                pending.push(ext);
                proof {
                    broadcast use vstd::seq_lib::group_to_multiset_ensures;
                    broadcast use vstd::multiset::group_multiset_axioms;

                    lemma_ring_views_push(pend_pre, ext);
                    lemma_multiset_commutative(seq![ext@], ring_views(holes@));
                    assert(entry_rings((ext, holes)) == seq![ext@] + ring_views(holes@));
                    assert(seq![ext@] =~= Seq::<Seq<Point>>::empty().push(ext@));
                    assert(seq![ext@].to_multiset() =~= Multiset::<Seq<Point>>::empty().insert(
                        ext@,
                    ));
                    assert(ring_views(pending@).to_multiset().add(
                        result_rings(result@).to_multiset(),
                    ).insert(subject@).add(ring_views(holes@).to_multiset())
                        =~= ring_views(rings@).to_multiset());
                    assert forall|i: int| 0 <= i < pending@.len() implies ring_in_range(
                        (#[trigger] pending@[i])@,
                    ) by {
                        if i < pend_pre.len() {
                            assert(pending@[i] == pend_pre[i]);
                        }
                    }
                    if all_closed {
                        assert forall|i: int| 0 <= i < pending@.len() implies ring_closed3(
                            (#[trigger] pending@[i])@,
                        ) by {
                            if i < pend_pre.len() {
                                assert(pending@[i] == pend_pre[i]);
                            }
                        }
                    }
                }
                while holes.len() > 0
                    invariant
                        rings_in_range(pending@),
                        rings_in_range(holes@),
                        all_closed ==> rings_closed3(pending@) && rings_closed3(holes@),
                        ring_views(pending@).to_multiset().add(
                            result_rings(result@).to_multiset(),
                        ).insert(subject@).add(ring_views(holes@).to_multiset()) == ring_views(
                            rings@,
                        ).to_multiset(),
                    decreases holes@.len(),
                {
                    proof {
                        assert(ring_in_range(holes@[0]@));
                        if all_closed {
                            assert(ring_closed3(holes@[0]@));
                        }
                    }
                    let ghost pend_mid = pending@;
                    let ghost holes_pre = holes@;
                    let h = holes.remove(0);
                    pending.push(h);
                    proof {
                        broadcast use vstd::seq_lib::group_to_multiset_ensures;
                        broadcast use vstd::multiset::group_multiset_axioms;

                        lemma_ring_views_remove(holes_pre, 0);
                        assert(ring_views(holes_pre)[0] == h@);
                        assert(ring_views(holes_pre).to_multiset().contains(h@)) by {
                            assert(ring_views(holes_pre).contains(h@)) by {
                                assert(ring_views(holes_pre)[0] == h@);
                            }
                        }
                        assert(ring_views(holes@).to_multiset().insert(h@) =~= ring_views(
                            holes_pre,
                        ).to_multiset());
                        lemma_ring_views_push(pend_mid, h);
                        assert(ring_views(pending@).to_multiset().add(
                            result_rings(result@).to_multiset(),
                        ).insert(subject@).add(ring_views(holes@).to_multiset()) =~= ring_views(
                            rings@,
                        ).to_multiset());
                        assert forall|i: int| 0 <= i < pending@.len() implies ring_in_range(
                            (#[trigger] pending@[i])@,
                        ) by {
                            if i < pend_mid.len() {
                                assert(pending@[i] == pend_mid[i]);
                            }
                        }
                        assert forall|i: int| 0 <= i < holes@.len() implies ring_in_range(
                            (#[trigger] holes@[i])@,
                        ) by {
                            assert(holes@[i] == holes_pre[i + 1]);
                        }
                        if all_closed {
                            assert forall|i: int| 0 <= i < pending@.len() implies ring_closed3(
                                (#[trigger] pending@[i])@,
                            ) by {
                                if i < pend_mid.len() {
                                    assert(pending@[i] == pend_mid[i]);
                                }
                            }
                            assert forall|i: int| 0 <= i < holes@.len() implies ring_closed3(
                                (#[trigger] holes@[i])@,
                            ) by {
                                assert(holes@[i] == holes_pre[i + 1]);
                            }
                        }
                    }
                }
                proof {
                    broadcast use vstd::multiset::group_multiset_axioms;

                    assert(ring_views(holes@) =~= Seq::<Seq<Point>>::empty());
                    assert(ring_views(holes@).to_multiset() =~= Multiset::<Seq<Point>>::empty());
                    assert(ring_views(pending@).to_multiset().add(
                        result_rings(result@).to_multiset(),
                    ).insert(subject@) =~= ring_views(rings@).to_multiset());
                }
            } else {
                j = j + 1;
            }
        }

        // File the ring: as a hole of its surviving parent, else as a new
        // exterior.  A ring whose parent dissolved goes back to the queue.
        if requeue_subject {
            let ghost pend_pre = pending@;
            pending.push(subject);
            proof {
                broadcast use vstd::seq_lib::group_to_multiset_ensures;
                broadcast use vstd::multiset::group_multiset_axioms;

                lemma_ring_views_push(pend_pre, subject);
                assert(ring_views(pending@).to_multiset().add(
                    result_rings(result@).to_multiset(),
                ) =~= ring_views(rings@).to_multiset());
                assert forall|i: int| 0 <= i < pending@.len() implies ring_in_range(
                    (#[trigger] pending@[i])@,
                ) by {
                    if i < pend_pre.len() {
                        assert(pending@[i] == pend_pre[i]);
                    }
                }
                if all_closed {
                    assert forall|i: int| 0 <= i < pending@.len() implies ring_closed3(
                        (#[trigger] pending@[i])@,
                    ) by {
                        if i < pend_pre.len() {
                            assert(pending@[i] == pend_pre[i]);
                        }
                    }
                }
            }
            continue ;
        }
        match hole_of {
            Option::Some(k) => {
                let ghost pre = result@;
                let mut entry = result.remove(k);
                proof {
                    assert(entry_ok(pre[k as int]));
                    assert(entry == pre[k as int]);
                }
                entry.1.push(subject);
                proof {
                    assert(entry.0 == pre[k as int].0);
                    assert(entry.1@ == pre[k as int].1@.push(subject));
                    assert(entry_ok(entry));
                }
                result.insert(k, entry);
                proof {
                    assert(entry_in_range(entry)) by {
                        assert(entry_in_range(pre[k as int]));
                        assert forall|h: int| 0 <= h < entry.1@.len() implies ring_in_range(
                            (#[trigger] entry.1@[h])@,
                        ) by {
                            if h < pre[k as int].1@.len() {
                                assert(entry.1@[h] == pre[k as int].1@[h]);
                            }
                        }
                    }
                    if all_closed {
                        assert(entry_closed3(entry)) by {
                            assert(entry_closed3(pre[k as int]));
                            assert forall|h: int| 0 <= h < entry.1@.len() implies ring_closed3(
                                (#[trigger] entry.1@[h])@,
                            ) by {
                                if h < pre[k as int].1@.len() {
                                    assert(entry.1@[h] == pre[k as int].1@[h]);
                                }
                            }
                        }
                    }
                    assert forall|i: int| 0 <= i < result@.len() implies entry_ok(
                        #[trigger] result@[i],
                    ) && entry_in_range(#[trigger] result@[i]) by {
                        if i < k {
                            assert(result@[i] == pre[i]);
                        } else if i == k {
                            assert(result@[i] == entry);
                        } else {
                            assert(result@[i] == pre[i]);
                        }
                    }
                    if all_closed {
                        assert forall|i: int| 0 <= i < result@.len() implies entry_closed3(
                            #[trigger] result@[i],
                        ) by {
                            if i < k {
                                assert(result@[i] == pre[i]);
                            } else if i == k {
                                assert(result@[i] == entry);
                            } else {
                                assert(result@[i] == pre[i]);
                            }
                        }
                    }
                    broadcast use vstd::seq_lib::group_to_multiset_ensures;
                    broadcast use vstd::multiset::group_multiset_axioms;

                    lemma_result_rings_remove(pre, k as int);
                    lemma_result_rings_insert(pre.remove(k as int), k as int, entry);
                    lemma_entry_rings_push_hole(pre[k as int], entry, result@[k as int].1@[(
                    entry.1@.len() - 1) as int]);
                    assert(entry_rings(entry).to_multiset() =~= entry_rings(
                        pre[k as int],
                    ).to_multiset().insert(entry.1@[entry.1@.len() - 1]@));
                    assert(result_rings(result@).to_multiset() =~= result_rings(
                        pre,
                    ).to_multiset().insert(entry.1@[entry.1@.len() - 1]@));
                    assert(ring_views(pending@).to_multiset().add(
                        result_rings(result@).to_multiset(),
                    ) =~= ring_views(rings@).to_multiset());
                }
            },
            Option::None => {
                let empty_holes: Vec<Vec<Point>> = Vec::new();
                let ghost pre = result@;
                result.push((subject, empty_holes));
                proof {
                    assert forall|i: int| 0 <= i < result@.len() implies entry_ok(
                        #[trigger] result@[i],
                    ) && entry_in_range(#[trigger] result@[i]) by {
                        if i < pre.len() {
                            assert(result@[i] == pre[i]);
                        } else {
                            assert(result@[i].1@.len() == 0);
                        }
                    }
                    if all_closed {
                        assert forall|i: int| 0 <= i < result@.len() implies entry_closed3(
                            #[trigger] result@[i],
                        ) by {
                            if i < pre.len() {
                                assert(result@[i] == pre[i]);
                            } else {
                                assert(result@[i].1@.len() == 0);
                            }
                        }
                    }
                    broadcast use vstd::seq_lib::group_to_multiset_ensures;
                    broadcast use vstd::multiset::group_multiset_axioms;

                    let e = result@[pre.len() as int];
                    lemma_result_rings_push(pre, e);
                    assert(entry_rings(e) =~= seq![e.0@]);
                    assert(seq![e.0@] =~= Seq::<Seq<Point>>::empty().push(e.0@));
                    lemma_multiset_commutative(result_rings(pre), entry_rings(e));
                    assert(result_rings(result@).to_multiset() =~= result_rings(
                        pre,
                    ).to_multiset().insert(e.0@));
                    assert(ring_views(pending@).to_multiset().add(
                        result_rings(result@).to_multiset(),
                    ) =~= ring_views(rings@).to_multiset());
                }
            },
        }
    }

    // A pass ceiling reached on malformed input files the still-pending
    // rings as hole-less exteriors: nothing is dropped either way.
    while pending.len() > 0
        invariant
            organized_ok(result@),
            organized_in_range(result@),
            rings_in_range(pending@),
            all_closed ==> rings_closed3(pending@) && organized_closed3(result@),
            ring_views(pending@).to_multiset().add(result_rings(result@).to_multiset())
                == ring_views(rings@).to_multiset(),
        decreases pending@.len(),
    {
        proof {
            assert(ring_in_range(pending@[0]@));
            if all_closed {
                assert(ring_closed3(pending@[0]@));
            }
        }
        let ghost pend_before = pending@;
        let subject = pending.remove(0);
        let empty_holes: Vec<Vec<Point>> = Vec::new();
        let ghost pre = result@;
        result.push((subject, empty_holes));
        proof {
            broadcast use vstd::seq_lib::group_to_multiset_ensures;
            broadcast use vstd::multiset::group_multiset_axioms;

            assert forall|i: int| 0 <= i < pending@.len() implies ring_in_range(
                (#[trigger] pending@[i])@,
            ) by {}
            if all_closed {
                assert forall|i: int| 0 <= i < pending@.len() implies ring_closed3(
                    (#[trigger] pending@[i])@,
                ) by {
                    assert(pending@[i] == pend_before[i + 1]);
                }
            }
            assert forall|i: int| 0 <= i < result@.len() implies entry_ok(
                #[trigger] result@[i],
            ) && entry_in_range(#[trigger] result@[i]) by {
                if i < pre.len() {
                    assert(result@[i] == pre[i]);
                } else {
                    assert(result@[i].1@.len() == 0);
                }
            }
            if all_closed {
                assert forall|i: int| 0 <= i < result@.len() implies entry_closed3(
                    #[trigger] result@[i],
                ) by {
                    if i < pre.len() {
                        assert(result@[i] == pre[i]);
                    } else {
                        assert(result@[i].1@.len() == 0);
                    }
                }
            }
            lemma_ring_views_remove(pend_before, 0);
            assert(ring_views(pend_before)[0] == subject@);
            assert(ring_views(pend_before).to_multiset().contains(subject@)) by {
                assert(ring_views(pend_before).contains(subject@)) by {
                    assert(ring_views(pend_before)[0] == subject@);
                }
            }
            assert(ring_views(pending@).to_multiset().insert(subject@) =~= ring_views(
                pend_before,
            ).to_multiset());
            let e = result@[pre.len() as int];
            lemma_result_rings_push(pre, e);
            assert(entry_rings(e) =~= seq![e.0@]);
            assert(seq![e.0@] =~= Seq::<Seq<Point>>::empty().push(e.0@));
            lemma_multiset_commutative(result_rings(pre), entry_rings(e));
            assert(result_rings(result@).to_multiset() =~= result_rings(pre).to_multiset().insert(
                e.0@,
            ));
            assert(ring_views(pending@).to_multiset().add(result_rings(result@).to_multiset())
                =~= ring_views(rings@).to_multiset());
        }
    }
    proof {
        broadcast use vstd::seq_lib::group_to_multiset_ensures;
        broadcast use vstd::multiset::group_multiset_axioms;

        assert(ring_views(pending@) =~= Seq::<Seq<Point>>::empty());
        assert(ring_views(pending@).to_multiset() =~= Multiset::<Seq<Point>>::empty());
        assert(result_rings(result@).to_multiset() =~= ring_views(rings@).to_multiset());
    }
    result
}

} // verus!
