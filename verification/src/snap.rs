//! Snapping a dragged button to the edges of the other buttons.
use vstd::prelude::*;
use crate::geometry::SerializableRect;
use crate::geometry::spec_wabs;
use crate::geometry::wabs;
use crate::button::VirtualButton;

verus! {

/// The best alignment found so far on each axis: its distance and the position it gives.
#[derive(Clone, Copy, Debug, PartialEq, Eq, Structural)]
pub struct SnapScan {
    pub min_dx: i32,
    pub target_x: i32,
    pub min_dy: i32,
    pub target_y: i32,
}

/// One candidate alignment on an axis: the moving edge `moving` (the near side `base` of
/// the dragged rectangle, or its far side) against a fixed edge `edge`. A strictly
/// closer candidate replaces the best one; the position it gives puts the near side on
/// `edge`, or the far side on `edge` (`edge - size`).
pub open spec fn try_edge(best: (i32, i32), edge: i32, moving: i32, base: i32, size: i32) -> (i32, i32) {
    let diff = spec_wabs(moving.wrapping_sub(edge));
    if diff < best.0 {
        (diff, if moving == base { edge } else { edge.wrapping_sub(size) })
    } else {
        best
    }
}

/// The four alignments of one axis against a fixed span `[lo, hi)`, in order:
/// near side to `lo`, near side to `hi`, far side to `lo`, far side to `hi`.
pub open spec fn try_axis(best: (i32, i32), lo: i32, hi: i32, base: i32, size: i32) -> (i32, i32) {
    let far = base.wrapping_add(size);
    try_edge(try_edge(try_edge(try_edge(best, lo, base, base, size), hi, base, base, size), lo, far, base, size), hi, far, base, size)
}

/// The scan state after trying all alignments against rectangle `o`.
pub open spec fn try_rect(acc: SnapScan, o: SerializableRect, l: i32, t: i32, w: i32, h: i32) -> SnapScan {
    let x = try_axis((acc.min_dx, acc.target_x), o.left, o.right, l, w);
    let y = try_axis((acc.min_dy, acc.target_y), o.top, o.bottom, t, h);
    SnapScan { min_dx: x.0, target_x: x.1, min_dy: y.0, target_y: y.1 }
}

/// The scan over the buttons of `bs` other than `cur`, in order.
pub open spec fn snap_scan(bs: Seq<VirtualButton>, cur: int, l: i32, t: i32, w: i32, h: i32, init: SnapScan) -> SnapScan
    decreases bs.len(),
{
    if bs.len() == 0 {
        init
    } else {
        let acc = snap_scan(bs.drop_last(), cur, l, t, w, h, init);
        if bs.len() - 1 == cur {
            acc
        } else {
            try_rect(acc, bs.last().rect, l, t, w, h)
        }
    }
}

/// The top-left corner that rectangle `r`, dragged as button `cur`, snaps to: on each
/// axis, the closest alignment of one of its sides with a side of another button (the
/// first one found on a tie), when it is at most `snap_dist` away; the dragged position
/// otherwise.
pub open spec fn spec_snap(cur: int, r: SerializableRect, bs: Seq<VirtualButton>, snap_dist: i32) -> (i32, i32) {
    let w = r.right.wrapping_sub(r.left);
    let h = r.bottom.wrapping_sub(r.top);
    let none = snap_dist.wrapping_add(1);
    let s = snap_scan(bs, cur, r.left, r.top, w, h, SnapScan { min_dx: none, target_x: r.left, min_dy: none, target_y: r.top });
    (
        if s.min_dx <= snap_dist { s.target_x } else { r.left },
        if s.min_dy <= snap_dist { s.target_y } else { r.top },
    )
}

fn edge_step(best: (i32, i32), edge: i32, moving: i32, base: i32, size: i32) -> (r: (i32, i32))
    ensures
        r == try_edge(best, edge, moving, base, size),
{
    let diff = wabs(moving.wrapping_sub(edge));
    if diff < best.0 {
        (diff, if moving == base { edge } else { edge.wrapping_sub(size) })
    } else {
        best
    }
}

fn axis_step(best: (i32, i32), lo: i32, hi: i32, base: i32, size: i32) -> (r: (i32, i32))
    ensures
        r == try_axis(best, lo, hi, base, size),
{
    let far = base.wrapping_add(size);
    let a = edge_step(best, lo, base, base, size);
    let b = edge_step(a, hi, base, base, size);
    let c = edge_step(b, lo, far, base, size);
    edge_step(c, hi, far, base, size)
}

/// Computes where a dragged button snaps to (see `spec_snap`).
pub fn calculate_snap(current_idx: usize, current_rect: SerializableRect, buttons: &Vec<VirtualButton>, snap_dist: i32) -> (r: (
    i32,
    i32,
))
    ensures
        r == spec_snap(current_idx as int, current_rect, buttons@, snap_dist),
{
    let l = current_rect.left;
    let t = current_rect.top;
    let w = current_rect.right.wrapping_sub(current_rect.left);
    let h = current_rect.bottom.wrapping_sub(current_rect.top);
    let none = snap_dist.wrapping_add(1);
    let ghost init = SnapScan { min_dx: none, target_x: l, min_dy: none, target_y: t };
    let mut acc = SnapScan { min_dx: none, target_x: l, min_dy: none, target_y: t };
    let mut i: usize = 0;
    while i < buttons.len()
        invariant
            i <= buttons@.len(),
            acc == snap_scan(buttons@.take(i as int), current_idx as int, l, t, w, h, init),
        decreases buttons@.len() - i,
    {
        assert(buttons@.take(i as int + 1).drop_last() =~= buttons@.take(i as int));
        if i != current_idx {
            let o = buttons[i].rect;
            let x = axis_step((acc.min_dx, acc.target_x), o.left, o.right, l, w);
            let y = axis_step((acc.min_dy, acc.target_y), o.top, o.bottom, t, h);
            acc = SnapScan { min_dx: x.0, target_x: x.1, min_dy: y.0, target_y: y.1 };
        }
        i = i + 1;
    }
    assert(buttons@.take(buttons@.len() as int) =~= buttons@);
    (
        if acc.min_dx <= snap_dist { acc.target_x } else { l },
        if acc.min_dy <= snap_dist { acc.target_y } else { t },
    )
}

/// Whether a fixed edge `e` can be compared with the sides `near` and `far` of the
/// dragged span without leaving `i32`: both differences and their absolute values fit,
/// and so does the position that puts the far side on `e`.
pub open spec fn edge_fits(e: i32, near: i32, far: i32) -> bool {
    &&& i32::MIN < near - e <= i32::MAX
    &&& i32::MIN < far - e <= i32::MAX
    &&& i32::MIN <= e - (far - near) <= i32::MAX
}

/// Whether the dragged rectangle `r` can be compared with rectangle `o` without any of
/// the snap's arithmetic leaving `i32`.
pub open spec fn snap_fits(r: SerializableRect, o: SerializableRect) -> bool {
    &&& edge_fits(o.left, r.left, r.right)
    &&& edge_fits(o.right, r.left, r.right)
    &&& edge_fits(o.top, r.top, r.bottom)
    &&& edge_fits(o.bottom, r.top, r.bottom)
}

/// Whether the width and height of `r` fit in `i32`.
pub open spec fn size_fits(r: SerializableRect) -> bool {
    &&& i32::MIN <= r.right - r.left <= i32::MAX
    &&& i32::MIN <= r.bottom - r.top <= i32::MAX
}

/// What an axis of the scan keeps: either nothing closer than the limit was found and
/// the position is the dragged one, or the best distance is within the limit and the
/// position is exactly that far from the dragged one.
pub open spec fn axis_inv(best: (i32, i32), base: i32, snap_dist: i32) -> bool {
    ||| (best.0 == snap_dist + 1 && best.1 == base)
    ||| (0 <= best.0 <= snap_dist && (best.1 - base == best.0 || base - best.1 == best.0))
}

proof fn lemma_try_edge(best: (i32, i32), edge: i32, moving: i32, base: i32, size: i32, snap_dist: i32)
    requires
        axis_inv(best, base, snap_dist),
        0 <= snap_dist < i32::MAX,
        moving == base || moving == base + size,
        i32::MIN < moving - edge <= i32::MAX,
        i32::MIN <= edge - size <= i32::MAX,
    ensures
        axis_inv(try_edge(best, edge, moving, base, size), base, snap_dist),
{
    let d = moving - edge;
    assert(moving.wrapping_sub(edge) == d);
    assert(edge.wrapping_sub(size) == edge - size);
    let diff = spec_wabs(moving.wrapping_sub(edge));
    if d < 0 {
        assert(0i32.wrapping_sub(d as i32) == -d);
    }
    assert(diff >= 0);
}

proof fn lemma_try_axis(best: (i32, i32), lo: i32, hi: i32, near: i32, far: i32, snap_dist: i32)
    requires
        axis_inv(best, near, snap_dist),
        0 <= snap_dist < i32::MAX,
        i32::MIN <= far - near <= i32::MAX,
        edge_fits(lo, near, far),
        edge_fits(hi, near, far),
    ensures
        axis_inv(try_axis(best, lo, hi, near, far.wrapping_sub(near)), near, snap_dist),
{
    let size = far.wrapping_sub(near);
    assert(size == far - near);
    assert(near.wrapping_add(size) == far);
    lemma_try_edge(best, lo, near, near, size, snap_dist);
    let a = try_edge(best, lo, near, near, size);
    lemma_try_edge(a, hi, near, near, size, snap_dist);
    let b = try_edge(a, hi, near, near, size);
    lemma_try_edge(b, lo, far, near, size, snap_dist);
    let c = try_edge(b, lo, far, near, size);
    lemma_try_edge(c, hi, far, near, size, snap_dist);
}

/// Snapping moves a dragged button by at most `snap_dist` on each axis, whenever none
/// of its arithmetic leaves `i32`: the limit plus one fits, the dragged rectangle's
/// width and height fit, and every other button's sides can be compared with its sides.
pub proof fn lemma_snap_moves_at_most(cur: int, r: SerializableRect, bs: Seq<VirtualButton>, snap_dist: i32)
    requires
        0 <= snap_dist < i32::MAX,
        size_fits(r),
        forall|i: int| 0 <= i < bs.len() && i != cur ==> snap_fits(r, #[trigger] bs[i].rect),
    ensures
        -snap_dist <= spec_snap(cur, r, bs, snap_dist).0 - r.left <= snap_dist,
        -snap_dist <= spec_snap(cur, r, bs, snap_dist).1 - r.top <= snap_dist,
{
    let w = r.right.wrapping_sub(r.left);
    let h = r.bottom.wrapping_sub(r.top);
    let none = snap_dist.wrapping_add(1);
    assert(none == snap_dist + 1);
    let init = SnapScan { min_dx: none, target_x: r.left, min_dy: none, target_y: r.top };
    lemma_scan_inv(bs, cur, r, init, snap_dist);
}

proof fn lemma_scan_inv(bs: Seq<VirtualButton>, cur: int, r: SerializableRect, init: SnapScan, snap_dist: i32)
    requires
        0 <= snap_dist < i32::MAX,
        size_fits(r),
        axis_inv((init.min_dx, init.target_x), r.left, snap_dist),
        axis_inv((init.min_dy, init.target_y), r.top, snap_dist),
        forall|i: int| 0 <= i < bs.len() && i != cur ==> snap_fits(r, #[trigger] bs[i].rect),
    ensures
        ({
            let s = snap_scan(bs, cur, r.left, r.top, r.right.wrapping_sub(r.left), r.bottom.wrapping_sub(r.top), init);
            &&& axis_inv((s.min_dx, s.target_x), r.left, snap_dist)
            &&& axis_inv((s.min_dy, s.target_y), r.top, snap_dist)
        }),
    decreases bs.len(),
{
    let w = r.right.wrapping_sub(r.left);
    let h = r.bottom.wrapping_sub(r.top);
    if bs.len() > 0 {
        let d = bs.drop_last();
        assert forall|i: int| 0 <= i < d.len() && i != cur implies snap_fits(r, #[trigger] d[i].rect) by {
            assert(d[i] == bs[i]);
        }
        lemma_scan_inv(d, cur, r, init, snap_dist);
        let acc = snap_scan(d, cur, r.left, r.top, w, h, init);
        if bs.len() - 1 != cur {
            let o = bs.last().rect;
            assert(snap_fits(r, bs[bs.len() - 1].rect));
            lemma_try_axis((acc.min_dx, acc.target_x), o.left, o.right, r.left, r.right, snap_dist);
            lemma_try_axis((acc.min_dy, acc.target_y), o.top, o.bottom, r.top, r.bottom, snap_dist);
        }
    }
}

/// The near side (left or top) of `r` on the x axis (`is_x`) or the y axis.
pub open spec fn ax_near(r: SerializableRect, is_x: bool) -> i32 {
    if is_x { r.left } else { r.top }
}

/// The far side (right or bottom) of `r` on the x axis (`is_x`) or the y axis.
pub open spec fn ax_far(r: SerializableRect, is_x: bool) -> i32 {
    if is_x { r.right } else { r.bottom }
}

/// The side of the dragged rectangle `r` in pairing `k` (0 to 3): the near side for
/// pairings 0 and 1, the far side for 2 and 3.
pub open spec fn pairing_side(r: SerializableRect, is_x: bool, k: int) -> int {
    if k < 2 { ax_near(r, is_x) as int } else { ax_far(r, is_x) as int }
}

/// The side of the other rectangle `o` in pairing `k`: its near side for pairings 0 and
/// 2, its far side for 1 and 3.
pub open spec fn pairing_edge(o: SerializableRect, is_x: bool, k: int) -> int {
    if k % 2 == 0 { ax_near(o, is_x) as int } else { ax_far(o, is_x) as int }
}

/// The distance between the two sides of pairing `k`.
pub open spec fn side_gap(r: SerializableRect, o: SerializableRect, is_x: bool, k: int) -> int {
    let a = pairing_side(r, is_x, k);
    let b = pairing_edge(o, is_x, k);
    if a >= b { a - b } else { b - a }
}

/// The near-side position of the dragged rectangle that puts the two sides of pairing
/// `k` together.
pub open spec fn aligned_at(r: SerializableRect, o: SerializableRect, is_x: bool, k: int) -> int {
    pairing_edge(o, is_x, k) - (pairing_side(r, is_x, k) - ax_near(r, is_x))
}

/// Whether `(j, k)` names a pairing of a side of the dragged rectangle with a side of
/// button `j`, another button than the dragged one `cur`.
pub open spec fn is_pairing(bs: Seq<VirtualButton>, cur: int, j: int, k: int) -> bool {
    0 <= j < bs.len() && j != cur && 0 <= k < 4
}

/// The snapped near-side position on the x axis (`is_x`) or the y axis.
pub open spec fn snapped_on(cur: int, r: SerializableRect, bs: Seq<VirtualButton>, snap_dist: i32, is_x: bool) -> int {
    if is_x { spec_snap(cur, r, bs, snap_dist).0 as int } else { spec_snap(cur, r, bs, snap_dist).1 as int }
}

/// The x or y part of a scan state.
pub open spec fn axis_of(s: SnapScan, is_x: bool) -> (i32, i32) {
    if is_x { (s.min_dx, s.target_x) } else { (s.min_dy, s.target_y) }
}

/// Whether best `b` is the dragged position with nothing found yet, or the alignment of
/// a pairing of `bs` at distance `b.0`.
pub open spec fn witnessed(bs: Seq<VirtualButton>, cur: int, r: SerializableRect, d: i32, is_x: bool, b: (i32, i32)) -> bool {
    ||| (b.0 == d + 1 && b.1 == ax_near(r, is_x))
    ||| exists|j: int, k: int| #[trigger] is_pairing(bs, cur, j, k) && side_gap(r, bs[j].rect, is_x, k) == b.0
        && b.1 == aligned_at(r, bs[j].rect, is_x, k) && earlier_farther(bs, cur, r, is_x, j, k)
}

/// Whether pairing `(j2, k2)` comes before pairing `(j, k)` in the scan: an earlier
/// button, or the same button and an earlier pairing.
pub open spec fn before(j2: int, k2: int, j: int, k: int) -> bool {
    j2 < j || (j2 == j && k2 < k)
}

/// Whether every pairing that comes before `(j, k)` is farther apart than it.
pub open spec fn earlier_farther(bs: Seq<VirtualButton>, cur: int, r: SerializableRect, is_x: bool, j: int, k: int) -> bool {
    forall|j2: int, k2: int| #[trigger] is_pairing(bs, cur, j2, k2) && before(j2, k2, j, k)
        ==> side_gap(r, bs[j2].rect, is_x, k2) > side_gap(r, bs[j].rect, is_x, k)
}

/// What the scan keeps on an axis: no pairing seen is closer than the best, and the
/// best is witnessed.
pub open spec fn scan_ok(bs: Seq<VirtualButton>, cur: int, r: SerializableRect, d: i32, is_x: bool, b: (i32, i32)) -> bool {
    &&& forall|j: int, k: int| #[trigger] is_pairing(bs, cur, j, k) ==> side_gap(r, bs[j].rect, is_x, k) >= b.0
    &&& witnessed(bs, cur, r, d, is_x, b)
    &&& b.0 <= d + 1
}

proof fn lemma_edge_step(best: (i32, i32), edge: i32, moving: i32, base: i32, size: i32)
    requires
        i32::MIN < moving - edge <= i32::MAX,
        i32::MIN <= edge - size <= i32::MAX,
    ensures
        ({
            let g = if moving >= edge { moving - edge } else { edge - moving };
            let al = if moving == base { edge as int } else { edge - size };
            let n = try_edge(best, edge, moving, base, size);
            ||| (n == best && g >= best.0)
            ||| (n.0 == g && n.1 == al && g < best.0)
        }),
{
    let d = moving - edge;
    assert(moving.wrapping_sub(edge) == d);
    assert(edge.wrapping_sub(size) == edge - size);
    if d < 0 {
        assert(0i32.wrapping_sub(d as i32) == -d);
    }
}

/// The edge of `o` and the side of the dragged rectangle (of near side `near`, far side
/// `far`) that pairing `k` compares, as the scan tries them.
pub open spec fn step_at(b: (i32, i32), o: SerializableRect, is_x: bool, near: i32, far: i32, k: int) -> (i32, i32) {
    try_edge(
        b,
        if k % 2 == 0 { ax_near(o, is_x) } else { ax_far(o, is_x) },
        if k < 2 { near } else { far },
        near,
        far.wrapping_sub(near),
    )
}

proof fn lemma_pairing_step(bs: Seq<VirtualButton>, cur: int, r: SerializableRect, d: i32, is_x: bool, k: int, b: (i32, i32))
    requires
        bs.len() > 0,
        is_pairing(bs, cur, bs.len() - 1, k),
        size_fits(r),
        snap_fits(r, bs[bs.len() - 1].rect),
        witnessed(bs, cur, r, d, is_x, b),
        forall|j2: int, k2: int| #[trigger] is_pairing(bs, cur, j2, k2) && before(j2, k2, bs.len() - 1, k)
            ==> side_gap(r, bs[j2].rect, is_x, k2) >= b.0,
    ensures
        ({
            let n = step_at(b, bs[bs.len() - 1].rect, is_x, ax_near(r, is_x), ax_far(r, is_x), k);
            &&& witnessed(bs, cur, r, d, is_x, n)
            &&& n.0 <= b.0
            &&& side_gap(r, bs[bs.len() - 1].rect, is_x, k) >= n.0
            &&& forall|j2: int, k2: int| #[trigger] is_pairing(bs, cur, j2, k2) && before(j2, k2, bs.len() - 1, k + 1)
                ==> side_gap(r, bs[j2].rect, is_x, k2) >= n.0
        }),
{
    let j = bs.len() - 1;
    let o = bs[j].rect;
    let near = ax_near(r, is_x);
    let far = ax_far(r, is_x);
    let size = far.wrapping_sub(near);
    assert(size == far - near);
    let edge = if k % 2 == 0 { ax_near(o, is_x) } else { ax_far(o, is_x) };
    let moving = if k < 2 { near } else { far };
    lemma_edge_step(b, edge, moving, near, size);
    let n = step_at(b, o, is_x, near, far, k);
    if n != b {
        assert(earlier_farther(bs, cur, r, is_x, j, k));
        assert(is_pairing(bs, cur, j, k) && side_gap(r, bs[j].rect, is_x, k) == n.0 && n.1 == aligned_at(r, bs[j].rect, is_x, k)
            && earlier_farther(bs, cur, r, is_x, j, k));
    }
    assert forall|j2: int, k2: int| #[trigger] is_pairing(bs, cur, j2, k2) && before(j2, k2, j, k + 1)
        implies side_gap(r, bs[j2].rect, is_x, k2) >= n.0 by {
        if !before(j2, k2, j, k) {
            assert(j2 == j && k2 == k);
        }
    }
}

proof fn lemma_old_witness(bs: Seq<VirtualButton>, cur: int, r: SerializableRect, d: i32, is_x: bool, b: (i32, i32))
    requires
        bs.len() > 0,
        scan_ok(bs.drop_last(), cur, r, d, is_x, b),
    ensures
        witnessed(bs, cur, r, d, is_x, b),
        forall|j: int, k: int| #[trigger] is_pairing(bs, cur, j, k) && j < bs.len() - 1 ==> side_gap(r, bs[j].rect, is_x, k) >= b.0,
{
    let d0 = bs.drop_last();
    if !(b.0 == d + 1 && b.1 == ax_near(r, is_x)) {
        let (j, k) = choose|j: int, k: int| #[trigger] is_pairing(d0, cur, j, k) && side_gap(r, d0[j].rect, is_x, k) == b.0
            && b.1 == aligned_at(r, d0[j].rect, is_x, k) && earlier_farther(d0, cur, r, is_x, j, k);
        assert(d0[j] == bs[j]);
        assert(is_pairing(bs, cur, j, k));
        assert forall|j2: int, k2: int| #[trigger] is_pairing(bs, cur, j2, k2) && before(j2, k2, j, k)
            implies side_gap(r, bs[j2].rect, is_x, k2) > side_gap(r, bs[j].rect, is_x, k) by {
            assert(is_pairing(d0, cur, j2, k2));
            assert(d0[j2] == bs[j2]);
        }
        assert(earlier_farther(bs, cur, r, is_x, j, k));
    }
    assert forall|j: int, k: int| #[trigger] is_pairing(bs, cur, j, k) && j < bs.len() - 1 implies side_gap(r, bs[j].rect, is_x, k) >= b.0 by {
        assert(is_pairing(d0, cur, j, k));
        assert(d0[j] == bs[j]);
    }
}

#[verifier::spinoff_prover]
proof fn lemma_scan_closest(bs: Seq<VirtualButton>, cur: int, r: SerializableRect, init: SnapScan, d: i32, is_x: bool)
    requires
        0 <= d < i32::MAX,
        size_fits(r),
        axis_of(init, is_x).0 == d + 1,
        axis_of(init, is_x).1 == ax_near(r, is_x),
        forall|i: int| 0 <= i < bs.len() && i != cur ==> snap_fits(r, #[trigger] bs[i].rect),
    ensures
        scan_ok(bs, cur, r, d, is_x, axis_of(snap_scan(bs, cur, r.left, r.top, r.right.wrapping_sub(r.left), r.bottom.wrapping_sub(r.top), init), is_x)),
    decreases bs.len(),
{
    let w = r.right.wrapping_sub(r.left);
    let h = r.bottom.wrapping_sub(r.top);
    if bs.len() == 0 {
        return;
    }
    let n = bs.len();
    let d0 = bs.drop_last();
    assert forall|i: int| 0 <= i < d0.len() && i != cur implies snap_fits(r, #[trigger] d0[i].rect) by {
        assert(d0[i] == bs[i]);
    }
    lemma_scan_closest(d0, cur, r, init, d, is_x);
    let acc = snap_scan(d0, cur, r.left, r.top, w, h, init);
    let b0 = axis_of(acc, is_x);
    lemma_old_witness(bs, cur, r, d, is_x, b0);
    if n - 1 == cur {
        return;
    }
    let o = bs.last().rect;
    assert(bs[n - 1] == bs.last());
    assert(snap_fits(r, bs[n - 1].rect));
    let near = ax_near(r, is_x);
    let far = ax_far(r, is_x);
    assert(far.wrapping_sub(near) == far - near);
    assert(near.wrapping_add(far.wrapping_sub(near)) == far);
    let b1 = step_at(b0, o, is_x, near, far, 0);
    let b2 = step_at(b1, o, is_x, near, far, 1);
    let b3 = step_at(b2, o, is_x, near, far, 2);
    let b4 = step_at(b3, o, is_x, near, far, 3);
    assert(axis_of(try_rect(acc, o, r.left, r.top, w, h), is_x) == b4);
    let j = n - 1;
    assert(is_pairing(bs, cur, j, 0) && is_pairing(bs, cur, j, 1) && is_pairing(bs, cur, j, 2) && is_pairing(bs, cur, j, 3));
    assert forall|j2: int, k2: int| #[trigger] is_pairing(bs, cur, j2, k2) && before(j2, k2, n - 1, 0)
        implies side_gap(r, bs[j2].rect, is_x, k2) >= b0.0 by {}
    lemma_pairing_step(bs, cur, r, d, is_x, 0, b0);
    lemma_pairing_step(bs, cur, r, d, is_x, 1, b1);
    lemma_pairing_step(bs, cur, r, d, is_x, 2, b2);
    lemma_pairing_step(bs, cur, r, d, is_x, 3, b3);
    assert forall|j2: int, k: int| #[trigger] is_pairing(bs, cur, j2, k) implies side_gap(r, bs[j2].rect, is_x, k) >= b4.0 by {
        if j2 == n - 1 {
            assert(k == 0 || k == 1 || k == 2 || k == 3);
        }
    }
}

/// On each axis, when a side of the dragged rectangle `r` (button `cur`) lies within
/// `snap_dist` of a side of another button (its near or far side against their near or
/// far side), the dragged button snaps: its position is the one that puts together a
/// pairing within `snap_dist` than which no pairing is closer (the first such pairing
/// in button order, then in the order near-near, near-far, far-near, far-far), so it
/// moves by exactly that pairing's distance. When no pairing lies within `snap_dist`, it stays where it
/// was dragged. This holds whenever none of the snap's arithmetic leaves `i32`.
pub proof fn lemma_snap_aligns_closest(cur: int, r: SerializableRect, bs: Seq<VirtualButton>, snap_dist: i32, is_x: bool)
    requires
        0 <= snap_dist < i32::MAX,
        size_fits(r),
        forall|i: int| 0 <= i < bs.len() && i != cur ==> snap_fits(r, #[trigger] bs[i].rect),
    ensures
        (exists|j: int, k: int| #[trigger] is_pairing(bs, cur, j, k) && side_gap(r, bs[j].rect, is_x, k) <= snap_dist) ==> exists|j: int, k: int|
            #[trigger] is_pairing(bs, cur, j, k) && side_gap(r, bs[j].rect, is_x, k) <= snap_dist
            && snapped_on(cur, r, bs, snap_dist, is_x) == aligned_at(r, bs[j].rect, is_x, k)
            && (snapped_on(cur, r, bs, snap_dist, is_x) - ax_near(r, is_x) == side_gap(r, bs[j].rect, is_x, k)
                || ax_near(r, is_x) - snapped_on(cur, r, bs, snap_dist, is_x) == side_gap(r, bs[j].rect, is_x, k))
            && (forall|j2: int, k2: int| #[trigger] is_pairing(bs, cur, j2, k2)
                ==> side_gap(r, bs[j2].rect, is_x, k2) >= side_gap(r, bs[j].rect, is_x, k))
            && earlier_farther(bs, cur, r, is_x, j, k),
        !(exists|j: int, k: int| #[trigger] is_pairing(bs, cur, j, k) && side_gap(r, bs[j].rect, is_x, k) <= snap_dist)
            ==> snapped_on(cur, r, bs, snap_dist, is_x) == ax_near(r, is_x),
{
    let w = r.right.wrapping_sub(r.left);
    let h = r.bottom.wrapping_sub(r.top);
    let none = snap_dist.wrapping_add(1);
    assert(none == snap_dist + 1);
    let init = SnapScan { min_dx: none, target_x: r.left, min_dy: none, target_y: r.top };
    lemma_scan_closest(bs, cur, r, init, snap_dist, is_x);
    let s = snap_scan(bs, cur, r.left, r.top, w, h, init);
    let b = axis_of(s, is_x);
    if b.0 <= snap_dist {
        let (j, k) = choose|j: int, k: int| #[trigger] is_pairing(bs, cur, j, k) && side_gap(r, bs[j].rect, is_x, k) == b.0
            && b.1 == aligned_at(r, bs[j].rect, is_x, k) && earlier_farther(bs, cur, r, is_x, j, k);
        assert(is_pairing(bs, cur, j, k));
    } else {
        assert forall|j: int, k: int| #[trigger] is_pairing(bs, cur, j, k) implies side_gap(r, bs[j].rect, is_x, k) > snap_dist by {}
    }
}

} // verus!
