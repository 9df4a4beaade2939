//! Editing combo instances: naming them, picking their members and deleting them.
use vstd::prelude::*;
use crate::button::VirtualButton;
use crate::state::AppState;
use crate::sidebar::Members;
use crate::sidebar::members;
use crate::sidebar::list_members;
use crate::events::is_first_member;

verus! {

/// The buttons with every button of group `gid` renamed to `name`.
pub open spec fn renamed(bs: Seq<VirtualButton>, gid: u32, name: Seq<char>, t: Seq<VirtualButton>) -> bool {
    &&& t.len() == bs.len()
    &&& forall|i: int| 0 <= i < bs.len() ==> #[trigger] t[i] == if bs[i].group_id == gid {
        VirtualButton { group_name: t[i].group_name, ..bs[i] }
    } else {
        bs[i]
    }
    &&& forall|i: int| 0 <= i < bs.len() && bs[i].group_id == gid ==> ((#[trigger] t[i]).group_name matches Some(n) && n@ == name)
}

/// Gives every button of combo group `gid` the custom group name `name`.
pub fn rename_group(state: &mut AppState, gid: u32, name: &String)
    ensures
        renamed(old(state).buttons@, gid, name@, final(state).buttons@),
        *final(state) == (AppState { buttons: final(state).buttons, ..*old(state) }),
{
    let ghost b0 = state.buttons@;
    let n = state.buttons.len();
    let mut i: usize = 0;
    while i < n
        invariant
            0 <= i <= n,
            n == b0.len(),
            state.buttons@.len() == n,
            b0 == old(state).buttons@,
            forall|j: int| 0 <= j < i ==> #[trigger] state.buttons@[j] == if b0[j].group_id == gid {
                VirtualButton { group_name: state.buttons@[j].group_name, ..b0[j] }
            } else {
                b0[j]
            },
            forall|j: int| 0 <= j < i && b0[j].group_id == gid ==> ((#[trigger] state.buttons@[j]).group_name matches Some(m) && m@ == name@),
            forall|j: int| i <= j < n ==> #[trigger] state.buttons@[j] == b0[j],
            *state == (AppState { buttons: state.buttons, ..*old(state) }),
        decreases n - i,
    {
        if state.buttons[i].group_id == gid {
            state.buttons[i].group_name = Some(name.clone());
        }
        i = i + 1;
    }
}

/// Starts picking the members of combo group `gid`: the current members are selected.
pub fn start_member_pick(state: &mut AppState, gid: u32)
    ensures
        final(state).combo_select_temp@ == members(old(state).buttons@, Members::Group(gid)),
        *final(state) == (AppState {
            combo_select_mode: Some(gid),
            combo_select_temp: final(state).combo_select_temp,
            ..*old(state)
        }),
{
    state.combo_select_mode = Some(gid);
    state.combo_select_temp = list_members(&state.buttons, Members::Group(gid));
}

/// Stops picking members without changing the group.
pub fn cancel_member_pick(state: &mut AppState)
    ensures
        final(state).combo_select_temp@.len() == 0,
        *final(state) == (AppState {
            combo_select_mode: None,
            combo_select_temp: final(state).combo_select_temp,
            ..*old(state)
        }),
{
    state.combo_select_mode = None;
    state.combo_select_temp.clear();
}

/// The combo category that the picked members of group `gid` get: that of the group's
/// first button, or 5 (custom combo) when the group is empty or that button is in none.
pub open spec fn pick_category(bs: Seq<VirtualButton>, gid: u32) -> i32 {
    if exists|i: int| is_first_member(bs, gid, i) {
        let c = bs[choose|i: int| is_first_member(bs, gid, i)].combo_category;
        if c == -1 { 5 } else { c }
    } else {
        5
    }
}

/// The button at position `i` after the picked positions `picked` become the members
/// of group `gid`: a picked button joins the group (with category `cat`), a former
/// member that was not picked leaves it (group 0, no category), others stay.
pub open spec fn after_pick(b: VirtualButton, i: int, picked: Seq<usize>, gid: u32, cat: i32) -> VirtualButton {
    if picked.contains(i as usize) {
        VirtualButton { group_id: gid, combo_category: cat, ..b }
    } else if b.group_id == gid {
        VirtualButton { group_id: 0, combo_category: -1i32, ..b }
    } else {
        b
    }
}

fn find_pick_category(bs: &Vec<VirtualButton>, gid: u32) -> (c: i32)
    ensures
        c == pick_category(bs@, gid),
{
    let mut i: usize = 0;
    while i < bs.len()
        invariant
            i <= bs@.len(),
            forall|j: int| 0 <= j < i ==> (#[trigger] bs@[j]).group_id != gid,
        decreases bs@.len() - i,
    {
        if bs[i].group_id == gid {
            proof {
                assert(is_first_member(bs@, gid, i as int));
                let c = choose|c: int| is_first_member(bs@, gid, c);
                assert(is_first_member(bs@, gid, c));
                if c < i {
                    assert(bs@[c].group_id != gid);
                } else if i < c {
                    assert(bs@[i as int].group_id != gid);
                }
            }
            let c = bs[i].combo_category;
            return if c == -1 { 5 } else { c };
        }
        i = i + 1;
    }
    proof {
        if exists|c: int| is_first_member(bs@, gid, c) {
            let c = choose|c: int| is_first_member(bs@, gid, c);
            assert(bs@[c].group_id != gid);
        }
    }
    5
}

/// Confirms the picked members of combo group `gid` (see `after_pick`) and stops
/// picking.
pub fn confirm_member_pick(state: &mut AppState, gid: u32)
    ensures
        final(state).buttons@.len() == old(state).buttons@.len(),
        forall|i: int| 0 <= i < old(state).buttons@.len() ==> #[trigger] final(state).buttons@[i] == after_pick(
            old(state).buttons@[i],
            i,
            old(state).combo_select_temp@,
            gid,
            pick_category(old(state).buttons@, gid),
        ),
        final(state).combo_select_temp@.len() == 0,
        *final(state) == (AppState {
            buttons: final(state).buttons,
            combo_select_mode: None,
            combo_select_temp: final(state).combo_select_temp,
            ..*old(state)
        }),
{
    let cat = find_pick_category(&state.buttons, gid);
    let ghost b0 = state.buttons@;
    let ghost picked = state.combo_select_temp@;
    let n = state.buttons.len();
    let mut i: usize = 0;
    while i < n
        invariant
            0 <= i <= n,
            n == b0.len(),
            state.buttons@.len() == n,
            forall|j: int| 0 <= j < i ==> #[trigger] state.buttons@[j] == if b0[j].group_id == gid {
                VirtualButton { group_id: 0, combo_category: -1i32, ..b0[j] }
            } else {
                b0[j]
            },
            forall|j: int| i <= j < n ==> #[trigger] state.buttons@[j] == b0[j],
            *state == (AppState { buttons: state.buttons, ..*old(state) }),
        decreases n - i,
    {
        if state.buttons[i].group_id == gid {
            state.buttons[i].group_id = 0;
            state.buttons[i].combo_category = -1;
        }
        i = i + 1;
    }
    let ghost b1 = state.buttons@;
    let m = state.combo_select_temp.len();
    let mut k: usize = 0;
    while k < m
        invariant
            0 <= k <= m,
            m == picked.len(),
            picked == old(state).combo_select_temp@,
            state.combo_select_temp@ == picked,
            state.buttons@.len() == n,
            n == b1.len(),
            forall|j: int| 0 <= j < n ==> #[trigger] state.buttons@[j] == if picked.take(k as int).contains(j as usize) {
                VirtualButton { group_id: gid, combo_category: cat, ..b1[j] }
            } else {
                b1[j]
            },
            *state == (AppState { buttons: state.buttons, ..*old(state) }),
        decreases m - k,
    {
        let idx = state.combo_select_temp[k];
        if idx < state.buttons.len() {
            state.buttons[idx].group_id = gid;
            state.buttons[idx].combo_category = cat;
        }
        proof {
            let t1 = picked.take(k as int + 1);
            let t0 = picked.take(k as int);
            assert forall|u: usize| #[trigger] t1.contains(u) <==> (t0.contains(u) || u == idx) by {
                if t1.contains(u) {
                    let w = choose|w: int| 0 <= w < t1.len() && #[trigger] t1[w] == u;
                    if w < k {
                        assert(t0[w] == u);
                    }
                }
                if t0.contains(u) {
                    let w = choose|w: int| 0 <= w < t0.len() && #[trigger] t0[w] == u;
                    assert(t1[w] == u);
                }
                if u == idx {
                    assert(t1[k as int] == idx);
                }
            }
        }
        k = k + 1;
    }
    assert(picked.take(m as int) =~= picked);
    state.combo_select_mode = None;
    state.combo_select_temp.clear();
}

/// After confirming the picked members of a group other than 0, a button belongs to
/// the group exactly when its position was picked.
pub proof fn lemma_pick_membership(bs: Seq<VirtualButton>, picked: Seq<usize>, gid: u32, cat: i32, i: int)
    requires
        gid != 0,
        0 <= i < bs.len(),
    ensures
        after_pick(bs[i], i, picked, gid, cat).group_id == gid <==> picked.contains(i as usize),
{
}

/// The buttons that are not in combo group `gid`, in order.
pub open spec fn without_group(bs: Seq<VirtualButton>, gid: u32) -> Seq<VirtualButton> {
    bs.filter(|b: VirtualButton| b.group_id != gid)
}

/// Deletes combo group `gid` with all its buttons (group 0 holds no combo and is
/// left alone).
pub fn delete_group(state: &mut AppState, gid: u32)
    ensures
        final(state).buttons@ == if gid != 0 {
            without_group(old(state).buttons@, gid)
        } else {
            old(state).buttons@
        },
        *final(state) == (AppState { buttons: final(state).buttons, ..*old(state) }),
{
    if gid == 0 {
        return;
    }
    let ghost b0 = state.buttons@;
    let mut kept: Vec<VirtualButton> = Vec::new();
    let mut i: usize = 0;
    while i < state.buttons.len()
        invariant
            i <= b0.len(),
            state.buttons@ == b0,
            b0 == old(state).buttons@,
            kept@ == without_group(b0.take(i as int), gid),
            *state == *old(state),
        decreases b0.len() - i,
    {
        proof {
            assert(b0.take(i as int + 1).drop_last() =~= b0.take(i as int));
            reveal(Seq::filter);
        }
        if state.buttons[i].group_id != gid {
            kept.push(state.buttons[i].clone());
        }
        i = i + 1;
    }
    assert(b0.take(b0.len() as int) =~= b0);
    state.buttons = kept;
}

} // verus!
