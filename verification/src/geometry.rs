//! Points on the canvas and the exclusion-zone geometry of the placement
//! engine, with the counting lemmas that bound how many anchors one
//! placement can rule out.

use vstd::prelude::*;

verus! {

/// A coordinate on the canvas: `(x, y)` with the origin at the top left.
#[derive(PartialEq, Eq, Structural, Clone, Copy, Debug)]
pub struct Point(pub u16, pub u16);

/// `p` is a legal top-left anchor for a `fw` by `fh` sprite on a `cw` by
/// `ch` canvas: the sprite fits entirely inside a one-cell border.
pub open spec fn in_bounds(p: Point, cw: int, ch: int, fw: int, fh: int) -> bool {
    &&& 1 <= p.0 <= cw - 1 - fw
    &&& 1 <= p.1 <= ch - 1 - fh
}

/// The conservative exclusion rule: placing a sprite at `p` rules out every
/// anchor `q` within a full footprint of `p` in each axis.  This excludes
/// some anchors that would not actually overlap, trading density for a
/// guaranteed absence of collision.  The relation is symmetric.
pub open spec fn excludes(p: Point, q: Point, fw: int, fh: int) -> bool {
    &&& p.0 - fw < q.0 < p.0 + fw
    &&& p.1 - fh < q.1 < p.1 + fh
}

/// All points inside the half-open rectangle `[x0, x0 + w) x [y0, y0 + h)`.
spec fn rect(x0: int, y0: int, w: int, h: int) -> Set<Point> {
    Set::new(|q: Point| x0 <= q.0 < x0 + w && y0 <= q.1 < y0 + h)
}

/// The set of anchors that placing a sprite at `p` rules out.
pub open spec fn zone(p: Point, fw: int, fh: int) -> Set<Point> {
    Set::new(|q: Point| excludes(p, q, fw, fh))
}

/// An upper bound on how many anchors one placement rules out: the
/// exclusion zone is an open box of `2 * fw - 1` by `2 * fh - 1` cells.
pub open spec fn zone_cap(fw: int, fh: int) -> int {
    (2 * fw - 1) * (2 * fh - 1)
}

/// A one-cell-wide rectangle holds at most `h` points.
proof fn lemma_column_card(x0: int, y0: int, h: int)
    requires
        0 <= h,
    ensures
        rect(x0, y0, 1, h).finite(),
        rect(x0, y0, 1, h).len() <= h,
    decreases h,
{
    broadcast use vstd::set::group_set_axioms;

    if h == 0 {
        assert(rect(x0, y0, 1, 0) =~= Set::<Point>::empty());
    } else {
        lemma_column_card(x0, y0, h - 1);
        let pt = Point(x0 as u16, (y0 + h - 1) as u16);
        let smaller = rect(x0, y0, 1, h - 1).insert(pt);
        assert forall|q: Point| rect(x0, y0, 1, h).contains(q) implies smaller.contains(q) by {
            if q.1 == y0 + h - 1 {
                assert(q == pt);
            }
        }
        vstd::set_lib::lemma_len_subset(rect(x0, y0, 1, h), smaller);
    }
}

/// A `w` by `h` rectangle holds at most `w * h` points.
proof fn lemma_rect_card(x0: int, y0: int, w: int, h: int)
    requires
        0 <= w,
        0 <= h,
    ensures
        rect(x0, y0, w, h).finite(),
        rect(x0, y0, w, h).len() <= w * h,
    decreases w,
{
    broadcast use vstd::set::group_set_axioms;

    if w == 0 {
        assert(rect(x0, y0, 0, h) =~= Set::<Point>::empty());
    } else {
        lemma_rect_card(x0, y0, w - 1, h);
        lemma_column_card(x0 + w - 1, y0, h);
        let body = rect(x0, y0, w - 1, h);
        let edge = rect(x0 + w - 1, y0, 1, h);
        assert(rect(x0, y0, w, h) =~= body.union(edge));
        vstd::set_lib::lemma_len_union(body, edge);
        assert((w - 1) * h + h == w * h) by (nonlinear_arith);
    }
}

/// The exclusion zone of any point holds at most `zone_cap(fw, fh)` anchors.
pub proof fn lemma_zone_card(p: Point, fw: int, fh: int)
    requires
        1 <= fw,
        1 <= fh,
    ensures
        zone(p, fw, fh).finite(),
        zone(p, fw, fh).len() <= zone_cap(fw, fh),
{
    assert(zone(p, fw, fh) =~= rect(p.0 - fw + 1, p.1 - fh + 1, 2 * fw - 1, 2 * fh - 1));
    lemma_rect_card(p.0 - fw + 1, p.1 - fh + 1, 2 * fw - 1, 2 * fh - 1);
}

} // verus!
