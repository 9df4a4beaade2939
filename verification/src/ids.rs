//! Sorted, duplicate-free lists of combo group ids.
use vstd::prelude::*;
use crate::button::VirtualButton;

verus! {

broadcast use vstd::set::group_set_axioms;

/// Whether `v` is strictly increasing (hence sorted and free of duplicates).
pub open spec fn strictly_increasing(v: Seq<u32>) -> bool {
    forall|i: int, j: int| 0 <= i < j < v.len() ==> v[i] < v[j]
}

/// Which buttons contribute their group id to a list.
#[derive(Clone, Copy, Debug, PartialEq, Eq, Structural)]
pub enum IdFilter {
    /// Buttons of combo category `c`.
    Category(i32),
    /// Buttons counted as instances next to group `g`: those whose combo category
    /// equals `g` read as an `i32`, and the categorised buttons of group `g` itself.
    InstancesOf(u32),
    /// Buttons that belong to a combo group (group id other than 0).
    Grouped,
}

/// Whether button `b` passes the filter.
pub open spec fn passes(f: IdFilter, b: VirtualButton) -> bool {
    match f {
        IdFilter::Category(c) => b.combo_category == c,
        IdFilter::InstancesOf(g) => b.combo_category == (g as i32) || (b.combo_category >= 0 && b.group_id == g),
        IdFilter::Grouped => b.group_id != 0,
    }
}

/// The group ids of the buttons of `bs` that pass the filter.
pub open spec fn ids_where(bs: Seq<VirtualButton>, f: IdFilter) -> Set<u32> {
    Set::new(|g: u32| exists|j: int| 0 <= j < bs.len() && passes(f, #[trigger] bs[j]) && bs[j].group_id == g)
}

fn passes_exec(f: IdFilter, b: &VirtualButton) -> (r: bool)
    ensures
        r == passes(f, *b),
{
    match f {
        IdFilter::Category(c) => b.combo_category == c,
        IdFilter::InstancesOf(g) => {
            #[verifier::truncate]
            let gi = g as i32;
            b.combo_category == gi || (b.combo_category >= 0 && b.group_id == g)
        },
        IdFilter::Grouped => b.group_id != 0,
    }
}

/// Inserts `x` into a strictly increasing vector, keeping it strictly increasing.
pub fn insert_sorted_unique(v: &mut Vec<u32>, x: u32)
    requires
        strictly_increasing(old(v)@),
    ensures
        strictly_increasing(final(v)@),
        final(v)@.to_set() == old(v)@.to_set().insert(x),
{
    let mut p: usize = 0;
    while p < v.len() && v[p] < x
        invariant
            p <= v@.len(),
            forall|i: int| 0 <= i < p ==> v@[i] < x,
        decreases v@.len() - p,
    {
        p = p + 1;
    }
    if p < v.len() && v[p] == x {
        assert(v@.to_set().insert(x) =~= v@.to_set()) by {
            assert(v@.contains(x)) by { assert(v@[p as int] == x); }
        }
        return;
    }
    let ghost old_v = v@;
    v.insert(p, x);
    proof {
        assert(v@ =~= old_v.take(p as int).push(x) + old_v.skip(p as int));
        assert forall|i: int, j: int| 0 <= i < j < v@.len() implies v@[i] < v@[j] by {
            if j < p {
            } else if j == p {
            } else if i < p {
                assert(old_v[j - 1] >= x);
            } else if i == p {
                assert(old_v[j - 1] > x) by {
                    if p < old_v.len() {
                        assert(old_v[p as int] >= x);
                        assert(old_v[p as int] != x);
                    }
                }
            } else {
                assert(old_v[i - 1] < old_v[j - 1]);
            }
        }
        assert forall|y: u32| v@.to_set().contains(y) <==> old_v.to_set().insert(x).contains(y) by {
            if v@.contains(y) {
                let k = choose|k: int| 0 <= k < v@.len() && v@[k] == y;
                if k < p {
                    assert(old_v[k] == y);
                } else if k > p {
                    assert(old_v[k - 1] == y);
                }
            }
            if old_v.contains(y) {
                let k = choose|k: int| 0 <= k < old_v.len() && old_v[k] == y;
                if k < p {
                    assert(v@[k] == y);
                } else {
                    assert(v@[k + 1] == y);
                }
            }
            if y == x {
                assert(v@[p as int] == x);
            }
        }
        assert(v@.to_set() =~= old_v.to_set().insert(x));
    }
}

/// The sorted, duplicate-free list of the group ids of the buttons passing `f`.
pub fn sorted_ids_where(bs: &Vec<VirtualButton>, f: IdFilter) -> (v: Vec<u32>)
    ensures
        strictly_increasing(v@),
        v@.to_set() == ids_where(bs@, f),
{
    let mut v: Vec<u32> = Vec::new();
    let mut i: usize = 0;
    while i < bs.len()
        invariant
            i <= bs@.len(),
            strictly_increasing(v@),
            v@.to_set() == ids_where(bs@.take(i as int), f),
        decreases bs@.len() - i,
    {
        let ghost before = v@.to_set();
        if passes_exec(f, &bs[i]) {
            insert_sorted_unique(&mut v, bs[i].group_id);
        }
        proof {
            let t1 = bs@.take(i as int + 1);
            let t0 = bs@.take(i as int);
            assert forall|g: u32| ids_where(t1, f).contains(g) <==> v@.to_set().contains(g) by {
                if ids_where(t1, f).contains(g) {
                    let j = choose|j: int| 0 <= j < t1.len() && passes(f, #[trigger] t1[j]) && t1[j].group_id == g;
                    if j < i {
                        assert(t0[j] == t1[j]);
                        assert(ids_where(t0, f).contains(g));
                    }
                }
                if ids_where(t0, f).contains(g) {
                    let j = choose|j: int| 0 <= j < t0.len() && passes(f, #[trigger] t0[j]) && t0[j].group_id == g;
                    assert(t1[j] == t0[j]);
                }
                if passes(f, bs@[i as int]) && g == bs@[i as int].group_id {
                    assert(t1[i as int] == bs@[i as int]);
                }
            }
            assert(v@.to_set() =~= ids_where(t1, f));
        }
        i = i + 1;
    }
    assert(bs@.take(bs@.len() as int) =~= bs@);
    v
}

/// The number of elements of `s` below `x`: `x`'s position in the sorted list of `s`.
pub open spec fn rank(s: Set<u32>, x: u32) -> nat {
    s.filter(|y: u32| y < x).len()
}

/// In a strictly increasing list, the position of an element is its rank.
pub proof fn lemma_rank_is_position(v: Seq<u32>, k: int)
    requires
        strictly_increasing(v),
        0 <= k < v.len(),
    ensures
        rank(v.to_set(), v[k]) == k,
{
    let x = v[k];
    let t = v.take(k);
    assert(v.to_set().filter(|y: u32| y < x) =~= t.to_set()) by {
        assert forall|y: u32| v.to_set().filter(|y: u32| y < x).contains(y) <==> t.to_set().contains(y) by {
            if v.contains(y) && y < x {
                let j = choose|j: int| 0 <= j < v.len() && v[j] == y;
                if j >= k {
                    if j > k {
                        assert(v[k] < v[j]);
                    }
                }
                assert(t[j] == y);
            }
            if t.contains(y) {
                let j = choose|j: int| 0 <= j < t.len() && t[j] == y;
                assert(v[j] == y);
                assert(v[j] < v[k]);
            }
        }
    }
    assert(t.no_duplicates()) by {
        assert forall|i: int, j: int| 0 <= i < t.len() && 0 <= j < t.len() && i != j implies t[i] != t[j] by {
            if i < j {
                assert(v[i] < v[j]);
            } else {
                assert(v[j] < v[i]);
            }
        }
    }
    t.unique_seq_to_set();
}

/// The position of `x` in the sorted list of the group ids passing `f`, or 0 when
/// `x` is not among them.
pub open spec fn spec_position_of(bs: Seq<VirtualButton>, f: IdFilter, x: u32) -> nat {
    if ids_where(bs, f).contains(x) { rank(ids_where(bs, f), x) } else { 0 }
}

/// Finds the position of `x` in the sorted list of the group ids passing `f`
/// (0 when it is absent).
pub fn position_of_id(bs: &Vec<VirtualButton>, f: IdFilter, x: u32) -> (r: usize)
    ensures
        r == spec_position_of(bs@, f, x),
{
    let v = sorted_ids_where(bs, f);
    let mut k: usize = 0;
    while k < v.len()
        invariant
            k <= v@.len(),
            strictly_increasing(v@),
            v@.to_set() == ids_where(bs@, f),
            forall|j: int| 0 <= j < k ==> v@[j] != x,
        decreases v@.len() - k,
    {
        if v[k] == x {
            proof {
                lemma_rank_is_position(v@, k as int);
                assert(v@.to_set().contains(x)) by { assert(v@.contains(x)); }
            }
            return k;
        }
        k = k + 1;
    }
    assert(!ids_where(bs@, f).contains(x)) by {
        if v@.to_set().contains(x) {
            let j = choose|j: int| 0 <= j < v@.len() && v@[j] == x;
        }
    }
    0
}

} // verus!
