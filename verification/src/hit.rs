//! Hit testing of buttons, on-screen keyboard keys and button groups.
use vstd::prelude::*;
use crate::geometry::Point;
use crate::geometry::SerializableRect;
use crate::geometry::spec_contains;
use crate::geometry::pt_in_rect;
use crate::button::VirtualButton;
use crate::geometry::spec_inflate;
use crate::geometry::inflate_rect;
use crate::ids::IdFilter;
use crate::ids::ids_where;
use crate::ids::passes;
use crate::ids::strictly_increasing;
use crate::ids::sorted_ids_where;

verus! {

/// An optional index as a mathematical integer.
pub open spec fn opt_int(r: Option<usize>) -> Option<int> {
    match r {
        Some(i) => Some(i as int),
        None => None,
    }
}

/// The index of the topmost (last) button whose rectangle contains `pt`.
pub open spec fn last_hit(bs: Seq<VirtualButton>, pt: Point) -> Option<int>
    decreases bs.len(),
{
    if bs.len() == 0 {
        None
    } else if spec_contains(bs.last().rect, pt) {
        Some(bs.len() - 1)
    } else {
        last_hit(bs.drop_last(), pt)
    }
}

/// The index of the first button whose rectangle contains `pt`.
pub open spec fn first_hit(bs: Seq<VirtualButton>, pt: Point) -> Option<int>
    decreases bs.len(),
{
    if bs.len() == 0 {
        None
    } else if spec_contains(bs[0].rect, pt) {
        Some(0)
    } else {
        match first_hit(bs.drop_first(), pt) {
            Some(j) => Some(j + 1),
            None => None,
        }
    }
}

/// `last_hit` picks a hit with no hit above it.
pub proof fn lemma_last_hit(bs: Seq<VirtualButton>, pt: Point)
    ensures
        match last_hit(bs, pt) {
            Some(i) => 0 <= i < bs.len() && spec_contains(bs[i].rect, pt) && forall|j: int|
                i < j < bs.len() ==> !spec_contains(#[trigger] bs[j].rect, pt),
            None => forall|j: int| 0 <= j < bs.len() ==> !spec_contains(#[trigger] bs[j].rect, pt),
        },
    decreases bs.len(),
{
    if bs.len() > 0 {
        lemma_last_hit(bs.drop_last(), pt);
        if !spec_contains(bs.last().rect, pt) {
            assert forall|j: int| 0 <= j < bs.len() - 1 implies #[trigger] bs[j] == bs.drop_last()[j] by {}
        }
    }
}

/// `first_hit` picks a hit with no hit before it.
pub proof fn lemma_first_hit(bs: Seq<VirtualButton>, pt: Point)
    ensures
        match first_hit(bs, pt) {
            Some(i) => 0 <= i < bs.len() && spec_contains(bs[i].rect, pt) && forall|j: int|
                0 <= j < i ==> !spec_contains(#[trigger] bs[j].rect, pt),
            None => forall|j: int| 0 <= j < bs.len() ==> !spec_contains(#[trigger] bs[j].rect, pt),
        },
    decreases bs.len(),
{
    if bs.len() > 0 {
        lemma_first_hit(bs.drop_first(), pt);
        if !spec_contains(bs[0].rect, pt) {
            assert forall|j: int| 1 <= j < bs.len() implies #[trigger] bs[j] == bs.drop_first()[j - 1] by {}
        }
    }
}

/// A hit with no hit above it is what `last_hit` picks.
pub proof fn lemma_last_hit_unique(bs: Seq<VirtualButton>, pt: Point, r: Option<int>)
    requires
        match r {
            Some(i) => 0 <= i < bs.len() && spec_contains(bs[i].rect, pt) && forall|j: int|
                i < j < bs.len() ==> !spec_contains(#[trigger] bs[j].rect, pt),
            None => forall|j: int| 0 <= j < bs.len() ==> !spec_contains(#[trigger] bs[j].rect, pt),
        },
    ensures
        last_hit(bs, pt) == r,
    decreases bs.len(),
{
    if bs.len() > 0 {
        let n = bs.len() - 1;
        if r != Some(n) {
            if spec_contains(bs[n].rect, pt) {
                match r {
                    Some(i) => { assert(!spec_contains(bs[n].rect, pt)); },
                    None => { assert(!spec_contains(bs[n].rect, pt)); },
                }
            }
            assert forall|j: int| 0 <= j < n implies #[trigger] bs.drop_last()[j] == bs[j] by {}
            lemma_last_hit_unique(bs.drop_last(), pt, r);
        }
    }
}

/// A hit with no hit before it is what `first_hit` picks.
pub proof fn lemma_first_hit_unique(bs: Seq<VirtualButton>, pt: Point, r: Option<int>)
    requires
        match r {
            Some(i) => 0 <= i < bs.len() && spec_contains(bs[i].rect, pt) && forall|j: int|
                0 <= j < i ==> !spec_contains(#[trigger] bs[j].rect, pt),
            None => forall|j: int| 0 <= j < bs.len() ==> !spec_contains(#[trigger] bs[j].rect, pt),
        },
    ensures
        first_hit(bs, pt) == r,
    decreases bs.len(),
{
    if bs.len() > 0 {
        if r != Some(0int) {
            if spec_contains(bs[0].rect, pt) {
                match r {
                    Some(i) => { assert(!spec_contains(bs[0].rect, pt)); },
                    None => { assert(!spec_contains(bs[0].rect, pt)); },
                }
            }
            let r2 = match r { Some(i) => Some(i - 1), None => None };
            assert forall|j: int| 0 <= j < bs.len() - 1 implies #[trigger] bs.drop_first()[j] == bs[j + 1] by {}
            lemma_first_hit_unique(bs.drop_first(), pt, r2);
        }
    }
}

/// Finds the topmost button under `pt`.
pub fn find_last_hit(bs: &Vec<VirtualButton>, pt: Point) -> (r: Option<usize>)
    ensures
        opt_int(r) == last_hit(bs@, pt),
{
    let mut i = bs.len();
    while i > 0
        invariant
            i <= bs@.len(),
            forall|j: int| i <= j < bs@.len() ==> !spec_contains(#[trigger] bs@[j].rect, pt),
        decreases i,
    {
        let k = i - 1;
        if pt_in_rect(&bs[k].rect, pt) {
            proof { lemma_last_hit_unique(bs@, pt, Some(k as int)); }
            return Some(k);
        }
        i = k;
    }
    proof { lemma_last_hit_unique(bs@, pt, None); }
    None
}

/// Finds the first button under `pt`.
pub fn find_first_hit(bs: &Vec<VirtualButton>, pt: Point) -> (r: Option<usize>)
    ensures
        opt_int(r) == first_hit(bs@, pt),
{
    let mut i: usize = 0;
    while i < bs.len()
        invariant
            i <= bs@.len(),
            forall|j: int| 0 <= j < i ==> !spec_contains(#[trigger] bs@[j].rect, pt),
        decreases bs@.len() - i,
    {
        if pt_in_rect(&bs[i].rect, pt) {
            proof { lemma_first_hit_unique(bs@, pt, Some(i as int)); }
            return Some(i);
        }
        i = i + 1;
    }
    proof { lemma_first_hit_unique(bs@, pt, None); }
    None
}

/// The smallest rectangle holding both `a` and `b`.
pub open spec fn spec_union(a: SerializableRect, b: SerializableRect) -> SerializableRect {
    SerializableRect {
        left: if a.left <= b.left { a.left } else { b.left },
        top: if a.top <= b.top { a.top } else { b.top },
        right: if a.right >= b.right { a.right } else { b.right },
        bottom: if a.bottom >= b.bottom { a.bottom } else { b.bottom },
    }
}

/// The bounding rectangle of the buttons of group `gid` in `bs` (`None` when none).
pub open spec fn group_bbox(bs: Seq<VirtualButton>, gid: u32) -> Option<SerializableRect>
    decreases bs.len(),
{
    if bs.len() == 0 {
        None
    } else {
        let rest = group_bbox(bs.drop_last(), gid);
        if bs.last().group_id == gid {
            match rest {
                None => Some(bs.last().rect),
                Some(r) => Some(spec_union(r, bs.last().rect)),
            }
        } else {
            rest
        }
    }
}

/// The bounding rectangle of a combo group; group 0 (no group) has none.
pub open spec fn spec_group_bounding_rect(bs: Seq<VirtualButton>, gid: u32) -> Option<SerializableRect> {
    if gid == 0 { None } else { group_bbox(bs, gid) }
}

/// Computes the bounding rectangle of the buttons of combo group `group_id`.
pub fn get_group_bounding_rect(bs: &Vec<VirtualButton>, group_id: u32) -> (r: Option<SerializableRect>)
    ensures
        r == spec_group_bounding_rect(bs@, group_id),
{
    if group_id == 0 {
        return None;
    }
    let mut acc: Option<SerializableRect> = None;
    let mut i: usize = 0;
    while i < bs.len()
        invariant
            i <= bs@.len(),
            acc == group_bbox(bs@.take(i as int), group_id),
        decreases bs@.len() - i,
    {
        assert(bs@.take(i as int + 1).drop_last() =~= bs@.take(i as int));
        if bs[i].group_id == group_id {
            let r = bs[i].rect;
            acc = match acc {
                None => Some(r),
                Some(a) => Some(SerializableRect {
                    left: if a.left <= r.left { a.left } else { r.left },
                    top: if a.top <= r.top { a.top } else { r.top },
                    right: if a.right >= r.right { a.right } else { r.right },
                    bottom: if a.bottom >= r.bottom { a.bottom } else { r.bottom },
                }),
            };
        }
        i = i + 1;
    }
    assert(bs@.take(bs@.len() as int) =~= bs@);
    acc
}

/// Every button of group `gid` lies inside the group's bounding rectangle, and the
/// rectangle exists exactly when the group has a button.
pub proof fn lemma_group_bbox_contains(bs: Seq<VirtualButton>, gid: u32)
    ensures
        group_bbox(bs, gid) is Some <==> exists|i: int| 0 <= i < bs.len() && (#[trigger] bs[i]).group_id == gid,
        group_bbox(bs, gid) matches Some(r) ==> forall|i: int|
            0 <= i < bs.len() && (#[trigger] bs[i]).group_id == gid ==> r.left <= bs[i].rect.left
                && r.top <= bs[i].rect.top && bs[i].rect.right <= r.right && bs[i].rect.bottom <= r.bottom,
    decreases bs.len(),
{
    if bs.len() > 0 {
        let d = bs.drop_last();
        lemma_group_bbox_contains(d, gid);
        assert forall|i: int| 0 <= i < d.len() implies #[trigger] d[i] == bs[i] by {}
        if group_bbox(d, gid) is None && bs.last().group_id != gid {
            assert forall|i: int| 0 <= i < bs.len() implies (#[trigger] bs[i]).group_id != gid by {
                if i < d.len() {
                    assert(d[i] == bs[i]);
                }
            }
        }
        if bs.last().group_id == gid {
            assert(bs[bs.len() - 1].group_id == gid);
        }
        if group_bbox(d, gid) is Some {
            let i0 = choose|i: int| 0 <= i < d.len() && (#[trigger] d[i]).group_id == gid;
            assert(bs[i0].group_id == gid);
        }
        if let Some(r) = group_bbox(bs, gid) {
            assert forall|i: int|
                0 <= i < bs.len() && (#[trigger] bs[i]).group_id == gid implies r.left <= bs[i].rect.left
                    && r.top <= bs[i].rect.top && bs[i].rect.right <= r.right && bs[i].rect.bottom
                    <= r.bottom by {
                if i < d.len() {
                    assert(d[i] == bs[i]);
                }
            }
        }
    }
}

/// Whether a press at `pt` lands on combo group `g`: inside its bounding rectangle
/// grown by 5 pixels on every side.
pub open spec fn group_hit_ok(bs: Seq<VirtualButton>, pt: Point, g: u32) -> bool {
    match spec_group_bounding_rect(bs, g) {
        Some(r) => spec_contains(spec_inflate(r, 5), pt),
        None => false,
    }
}

/// Whether `g` is the smallest group id hit at `pt`.
pub open spec fn is_first_group_hit(bs: Seq<VirtualButton>, pt: Point, g: u32) -> bool {
    group_hit_ok(bs, pt, g) && forall|h: u32| h < g ==> !(#[trigger] group_hit_ok(bs, pt, h))
}

/// The combo group hit at `pt`: the smallest group id whose (grown) bounding rectangle
/// holds the point.
pub open spec fn group_hit(bs: Seq<VirtualButton>, pt: Point) -> Option<u32> {
    if exists|g: u32| is_first_group_hit(bs, pt, g) {
        Some(choose|g: u32| is_first_group_hit(bs, pt, g))
    } else {
        None
    }
}

/// A group id that no button carries is never hit.
proof fn lemma_unlisted_group_not_hit(bs: Seq<VirtualButton>, pt: Point, h: u32)
    requires
        !ids_where(bs, IdFilter::Grouped).contains(h),
    ensures
        !group_hit_ok(bs, pt, h),
{
    if h != 0 {
        lemma_group_bbox_contains(bs, h);
        if group_bbox(bs, h) is Some {
            let i = choose|i: int| 0 <= i < bs.len() && (#[trigger] bs[i]).group_id == h;
            assert(passes(IdFilter::Grouped, bs[i]));
            assert(ids_where(bs, IdFilter::Grouped).contains(h));
        }
    }
}

/// Finds the combo group hit at `pt`, trying the groups in increasing id order.
pub fn find_group_hit(bs: &Vec<VirtualButton>, pt: Point) -> (r: Option<u32>)
    ensures
        r == group_hit(bs@, pt),
        r matches Some(g) ==> g != 0,
{
    let ids = sorted_ids_where(bs, IdFilter::Grouped);
    let mut k: usize = 0;
    while k < ids.len()
        invariant
            k <= ids@.len(),
            strictly_increasing(ids@),
            ids@.to_set() == ids_where(bs@, IdFilter::Grouped),
            forall|j: int| 0 <= j < k ==> !group_hit_ok(bs@, pt, #[trigger] ids@[j]),
        decreases ids@.len() - k,
    {
        let g = ids[k];
        let bb = get_group_bounding_rect(bs, g);
        let hit = match bb {
            Some(b) => pt_in_rect(&inflate_rect(&b, 5), pt),
            None => false,
        };
        if hit {
            proof {
                assert forall|h: u32| h < g implies !(#[trigger] group_hit_ok(bs@, pt, h)) by {
                    if ids@.contains(h) {
                        let j = choose|j: int| 0 <= j < ids@.len() && ids@[j] == h;
                        if j >= k {
                            if j > k {
                                assert(ids@[k as int] < ids@[j]);
                            }
                        }
                        assert(!group_hit_ok(bs@, pt, ids@[j]));
                    } else {
                        assert(!ids@.to_set().contains(h));
                        lemma_unlisted_group_not_hit(bs@, pt, h);
                    }
                }
                assert(is_first_group_hit(bs@, pt, g));
                let c = choose|c: u32| is_first_group_hit(bs@, pt, c);
                assert(is_first_group_hit(bs@, pt, c));
                if c < g {
                    assert(!group_hit_ok(bs@, pt, c));
                } else if g < c {
                    assert(!group_hit_ok(bs@, pt, g));
                }
                if g == 0 {
                    assert(!group_hit_ok(bs@, pt, g));
                }
            }
            return Some(g);
        }
        k = k + 1;
    }
    proof {
        assert forall|h: u32| !(#[trigger] group_hit_ok(bs@, pt, h)) by {
            if ids@.contains(h) {
                let j = choose|j: int| 0 <= j < ids@.len() && ids@[j] == h;
                assert(!group_hit_ok(bs@, pt, ids@[j]));
            } else {
                assert(!ids@.to_set().contains(h));
                lemma_unlisted_group_not_hit(bs@, pt, h);
            }
        }
        if exists|g: u32| is_first_group_hit(bs@, pt, g) {
            let g = choose|g: u32| is_first_group_hit(bs@, pt, g);
            assert(group_hit_ok(bs@, pt, g));
        }
    }
    None
}

} // verus!
