//! The non-overlapping random placement engine.
//!
//! `place` builds the exhaustive set of legal anchors, then repeatedly
//! draws a random anchor and purges every anchor its sprite rules out.
//! The contracts pin down the layout that comes back, and a counting
//! argument proves that a placement can never run out of space as long as
//! the candidate grid is larger than the anchors `count - 1` placements
//! can rule out.

use vstd::prelude::*;

use crate::geometry::{excludes, in_bounds, zone, zone_cap, lemma_zone_card, Point};
use crate::random::rand_index;
use crate::{CANVAS_HEIGHT, CANVAS_WIDTH, DIE_HEIGHT, DIE_WIDTH};

verus! {

broadcast use vstd::seq_lib::group_seq_properties;

/// The one failure of the placement engine: the candidate set became
/// empty before the requested number of sprites was placed.
#[derive(PartialEq, Eq, Structural, Clone, Copy, Debug)]
pub enum PlacementError {
    InsufficientSpace,
}

/// How many legal anchors a `cw` by `ch` canvas offers a `fw` by `fh`
/// sprite: all `(x, y)` with `1 <= x <= cw - 1 - fw` and
/// `1 <= y <= ch - 1 - fh`.
pub open spec fn candidate_total(cw: int, ch: int, fw: int, fh: int) -> int {
    if cw - 1 - fw >= 1 && ch - 1 - fh >= 1 {
        (cw - 1 - fw) * (ch - 1 - fh)
    } else {
        0
    }
}

/// Sufficient condition for a placement that can never fail: even if every
/// earlier placement ruled out a full exclusion zone of anchors, one more
/// anchor is still left before each draw.
pub open spec fn placement_guaranteed(cw: int, ch: int, fw: int, fh: int, count: int) -> bool {
    candidate_total(cw, ch, fw, fh) > (count - 1) * zone_cap(fw, fh)
}

/// What the engine promises of a successful layout: every point is a legal
/// anchor and no pair falls inside one another's exclusion zone.
pub open spec fn valid_layout(pts: Seq<Point>, cw: int, ch: int, fw: int, fh: int) -> bool {
    &&& forall|i: int| 0 <= i < pts.len() ==> in_bounds(#[trigger] pts[i], cw, ch, fw, fh)
    &&& forall|i: int, j: int|
        0 <= i < pts.len() && 0 <= j < pts.len() && i != j ==> !excludes(
            #[trigger] pts[i],
            #[trigger] pts[j],
            fw,
            fh,
        )
}

/// Purge from the candidate set every anchor that a sprite just placed at
/// `point` rules out.  The candidate set is treated as a set: it must hold
/// no duplicates, and `point` itself has already been drawn from it.
#[verifier::loop_isolation(false)]
pub fn filter_invalid_points(valid_points: &mut Vec<Point>, point: Point, fw: u16, fh: u16)
    requires
        1 <= fw,
        1 <= fh,
        old(valid_points)@.no_duplicates(),
        !old(valid_points)@.contains(point),
    ensures
        final(valid_points)@.no_duplicates(),
        forall|q: Point|
            #[trigger] final(valid_points)@.contains(q) <==> old(valid_points)@.contains(q)
                && !excludes(point, q, fw as int, fh as int),
        final(valid_points)@.len() + zone_cap(fw as int, fh as int) > old(valid_points)@.len(),
{
    let ghost orig = valid_points@;
    let mut kept: Vec<Point> = Vec::new();
    let mut j: usize = 0;
    while j < valid_points.len()
        invariant
            j <= orig.len(),
            valid_points@ == orig,
            kept@.no_duplicates(),
            forall|q: Point|
                #[trigger] kept@.contains(q) <==> orig.take(j as int).contains(q) && !excludes(
                    point,
                    q,
                    fw as int,
                    fh as int,
                ),
        decreases orig.len() - j,
    {
        let q = valid_points[j];
        proof {
            assert(orig.take(j as int + 1) =~= orig.take(j as int).push(orig[j as int]));
            if kept@.contains(q) {
                let i = choose|i: int| 0 <= i < j && orig.take(j as int)[i] == q;
                assert(orig[i] == orig[j as int]);
            }
        }
        if !is_excluded(point, q, fw, fh) {
            kept.push(q);
        }
        j += 1;
    }
    proof {
        assert(orig.take(orig.len() as int) =~= orig);
        broadcast use vstd::set::group_set_axioms;
        broadcast use vstd::seq_lib::seq_to_set_is_finite;

        let all = orig.to_set();
        let keep = kept@.to_set();
        let gone = all.difference(keep);
        orig.unique_seq_to_set();
        kept@.unique_seq_to_set();
        let z = zone(point, fw as int, fh as int);
        lemma_zone_card(point, fw as int, fh as int);
        assert(z.contains(point));
        assert forall|q: Point| gone.contains(q) implies z.remove(point).contains(q) by {
            assert(orig.contains(q) && !kept@.contains(q));
        }
        vstd::set_lib::lemma_len_subset(gone, z.remove(point));
        assert(all =~= keep.union(gone));
        vstd::set_lib::lemma_len_union(keep, gone);
    }
    *valid_points = kept;
}

/// Whether placing a sprite at `p` rules out the anchor `q`.
fn is_excluded(p: Point, q: Point, fw: u16, fh: u16) -> (r: bool)
    ensures
        r == excludes(p, q, fw as int, fh as int),
{
    let px = p.0 as u32;
    let py = p.1 as u32;
    let qx = q.0 as u32;
    let qy = q.1 as u32;
    let w = fw as u32;
    let h = fh as u32;
    qx + w > px && qx < px + w && qy + h > py && qy < py + h
}

/// Build the full candidate set: every legal anchor of the canvas, each
/// exactly once, in row-major order.
#[verifier::loop_isolation(false)]
fn build_candidates(cw: u16, ch: u16, fw: u16, fh: u16) -> (r: Vec<Point>)
    requires
        1 <= fw,
        1 <= fh,
    ensures
        r@.no_duplicates(),
        forall|i: int|
            0 <= i < r@.len() ==> in_bounds(#[trigger] r@[i], cw as int, ch as int, fw as int, fh as int),
        r@.len() == candidate_total(cw as int, ch as int, fw as int, fh as int),
{
    if (cw as u32) < (fw as u32) + 2 || (ch as u32) < (fh as u32) + 2 {
        return Vec::new();
    }
    let xmax: u16 = cw - 1 - fw;
    let ymax: u16 = ch - 1 - fh;
    let mut r: Vec<Point> = Vec::new();
    let mut x: u16 = 1;
    while x <= xmax
        invariant
            1 <= x <= xmax + 1,
            r@.len() == (x - 1) * (ymax as int),
            r@.no_duplicates(),
            forall|i: int|
                0 <= i < r@.len() ==> in_bounds(
                    #[trigger] r@[i],
                    cw as int,
                    ch as int,
                    fw as int,
                    fh as int,
                ),
            forall|i: int| 0 <= i < r@.len() ==> (#[trigger] r@[i]).0 < x,
        decreases xmax + 1 - x,
    {
        let mut y: u16 = 1;
        while y <= ymax
            invariant
                1 <= x <= xmax,
                1 <= y <= ymax + 1,
                r@.len() == (x - 1) * (ymax as int) + (y - 1),
                r@.no_duplicates(),
                forall|i: int|
                    0 <= i < r@.len() ==> in_bounds(
                        #[trigger] r@[i],
                        cw as int,
                        ch as int,
                        fw as int,
                        fh as int,
                    ),
                forall|i: int|
                    0 <= i < r@.len() ==> (#[trigger] r@[i]).0 < x || ((#[trigger] r@[i]).0 == x
                        && r@[i].1 < y),
            decreases ymax + 1 - y,
        {
            r.push(Point(x, y));
            y += 1;
        }
        proof {
            assert((x - 1) * (ymax as int) + (ymax as int) == x * (ymax as int))
                by (nonlinear_arith);
        }
        x += 1;
    }
    r
}

/// The placement engine.
///
/// Produces `count` anchors, each fitting inside the one-cell-inset canvas
/// and no two inside one another's exclusion zone, or fails with
/// `InsufficientSpace` when the candidate set runs out first.  Whenever
/// `placement_guaranteed` holds of the configuration, success is certain,
/// whatever the random draws; so repeated calls on such a configuration
/// always return a valid layout.
#[verifier::loop_isolation(false)]
pub fn place(cw: u16, ch: u16, fw: u16, fh: u16, count: usize) -> (r: Result<
    Vec<Point>,
    PlacementError,
>)
    requires
        1 <= fw,
        1 <= fh,
    ensures
        (r matches Ok(pts) ==> pts@.len() == count && valid_layout(
            pts@,
            cw as int,
            ch as int,
            fw as int,
            fh as int,
        )),
        placement_guaranteed(cw as int, ch as int, fw as int, fh as int, count as int)
            ==> r is Ok,
        count == 0 ==> r is Ok,
        count > 0 && candidate_total(cw as int, ch as int, fw as int, fh as int) == 0
            ==> r is Err,
        r is Err ==> count > 0 && !placement_guaranteed(
            cw as int,
            ch as int,
            fw as int,
            fh as int,
            count as int,
        ),
{
    let ghost zc = zone_cap(fw as int, fh as int);
    let ghost total = candidate_total(cw as int, ch as int, fw as int, fh as int);
    proof {
        assert(zc >= 1) by (nonlinear_arith)
            requires
                1 <= fw as int,
                1 <= fh as int,
                zc == (2 * (fw as int) - 1) * (2 * (fh as int) - 1),
        ;
    }
    let mut candidates = build_candidates(cw, ch, fw, fh);
    let mut chosen: Vec<Point> = Vec::new();
    let mut k: usize = 0;
    while k < count
        invariant
            k <= count,
            chosen@.len() == k,
            valid_layout(chosen@, cw as int, ch as int, fw as int, fh as int),
            candidates@.no_duplicates(),
            forall|q: Point|
                #[trigger] candidates@.contains(q) ==> in_bounds(
                    q,
                    cw as int,
                    ch as int,
                    fw as int,
                    fh as int,
                ),
            forall|i: int, q: Point|
                0 <= i < k && #[trigger] candidates@.contains(q) ==> !excludes(
                    #[trigger] chosen@[i],
                    q,
                    fw as int,
                    fh as int,
                ),
            candidates@.len() >= total - k * zc,
            k == 0 ==> candidates@.len() == total,
            k > 0 ==> total > 0,
        decreases count - k,
    {
        if candidates.len() == 0 {
            proof {
                if placement_guaranteed(cw as int, ch as int, fw as int, fh as int, count as int) {
                    assert(k as int * zc <= (count - 1) * zc) by (nonlinear_arith)
                        requires
                            k as int <= count as int - 1,
                            zc >= 0,
                    ;
                    assert(false);
                }
            }
            return Err(PlacementError::InsufficientSpace);
        }
        let ghost before = candidates@;
        let i: usize = rand_index(candidates.len());
        let p = candidates.swap_remove(i);
        proof {
            let after = candidates@;
            assert(before.contains(p)) by {
                assert(before[i as int] == p);
            }
            assert forall|a: int, b: int|
                0 <= a < after.len() && 0 <= b < after.len() && a != b implies after[a]
                != after[b] by {
                let a0: int = if a == i { before.len() - 1 } else { a };
                let b0: int = if b == i { before.len() - 1 } else { b };
                assert(after[a] == before[a0] && after[b] == before[b0]);
            }
            assert forall|q: Point| #[trigger] after.contains(q) implies before.contains(q)
                && q != p by {
                let a = choose|a: int| 0 <= a < after.len() && after[a] == q;
                let a0: int = if a == i { before.len() - 1 } else { a };
                assert(before[a0] == q && a0 != i);
                assert(before[i as int] == p);
            }
        }
        filter_invalid_points(&mut candidates, p, fw, fh);
        proof {
            assert forall|a: int, q: Point|
                0 <= a < chosen@.push(p).len() && #[trigger] candidates@.contains(q)
                implies !excludes(#[trigger] chosen@.push(p)[a], q, fw as int, fh as int) by {
                assert(before.contains(q));
            }
            assert forall|a: int| 0 <= a < chosen@.len() implies !excludes(
                chosen@.push(p)[a],
                p,
                fw as int,
                fh as int,
            ) && !excludes(p, chosen@[a], fw as int, fh as int) by {
                assert(!excludes(chosen@[a], p, fw as int, fh as int));
            }
            assert((k as int + 1) * zc == k as int * zc + zc) by (nonlinear_arith);
        }
        chosen.push(p);
        k += 1;
    }
    Ok(chosen)
}

/// The fixed configuration can always be laid out.
///
/// For the standard canvas and die footprint, the candidate grid holds
/// `69 * 15 == 1035` anchors while up to five earlier placements rule out
/// at most `5 * 153 == 765`; so for any die count up to six, the placement
/// engine is guaranteed to succeed, whatever the random draws.
pub proof fn lemma_standard_layout_fits(count: int)
    requires
        0 <= count <= 6,
    ensures
        placement_guaranteed(
            CANVAS_WIDTH as int,
            CANVAS_HEIGHT as int,
            DIE_WIDTH as int,
            DIE_HEIGHT as int,
            count,
        ),
{
    let zc = zone_cap(DIE_WIDTH as int, DIE_HEIGHT as int);
    assert(zc == 153) by (nonlinear_arith)
        requires
            zc == (2 * (DIE_WIDTH as int) - 1) * (2 * (DIE_HEIGHT as int) - 1),
            DIE_WIDTH == 9,
            DIE_HEIGHT == 5,
    ;
    let total = candidate_total(
        CANVAS_WIDTH as int,
        CANVAS_HEIGHT as int,
        DIE_WIDTH as int,
        DIE_HEIGHT as int,
    );
    assert(total == 1035) by (nonlinear_arith)
        requires
            total == (CANVAS_WIDTH as int - 1 - DIE_WIDTH as int) * (CANVAS_HEIGHT as int - 1
                - DIE_HEIGHT as int),
            CANVAS_WIDTH == 79,
            CANVAS_HEIGHT == 21,
            DIE_WIDTH == 9,
            DIE_HEIGHT == 5,
    ;
    assert((count - 1) * zc <= 765) by (nonlinear_arith)
        requires
            count <= 6,
            zc == 153,
    ;
}

} // verus!
