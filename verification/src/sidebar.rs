//! The editor's sidebar: which buttons and combo instances it lists, how its items are
//! tagged, and what selecting an item does.
use vstd::prelude::*;
use crate::button::VirtualButton;
use crate::state::Action;
use crate::state::AppState;
use crate::state::ProgramMode;
use crate::ids::IdFilter;
use crate::ids::ids_where;
use crate::ids::rank;
use crate::ids::sorted_ids_where;
use crate::ids::lemma_rank_is_position;
use crate::ids::strictly_increasing;
use crate::events::is_first_member;
use crate::text::spec_instance_name;
use crate::text::instance_name;

verus! {

/// An item of the sidebar tree.
#[derive(Clone, Copy, Debug, PartialEq, Eq, Structural)]
pub enum TreeItem {
    /// A folder that only groups other items.
    Folder,
    /// Interaction group `g` (0 to 6) of the single buttons.
    Group(usize),
    /// Button `i`.
    Button(usize),
    /// Combo preset `p`.
    Preset(usize),
    /// Instance `k` (in increasing group-id order) of combo preset `p`.
    Instance(usize, usize),
    /// A tag that names nothing.
    Other,
}

/// Whether an item can be tagged (and its tag read back).
pub open spec fn taggable(item: TreeItem) -> bool {
    match item {
        TreeItem::Folder => true,
        TreeItem::Group(g) => g < 7,
        TreeItem::Button(i) => i + 1 <= isize::MAX,
        TreeItem::Preset(p) => p < 1000,
        TreeItem::Instance(p, k) => k < 1000 && 20000 + p * 1000 + k <= isize::MAX,
        TreeItem::Other => false,
    }
}

/// The tag of an item: 0 for a folder, `g + 1` for a group, `-(i + 1)` for a button,
/// `1000 + p` for a preset, `20000 + 1000 p + k` for an instance.
pub open spec fn spec_tag(item: TreeItem) -> int {
    match item {
        TreeItem::Folder => 0,
        TreeItem::Group(g) => g + 1,
        TreeItem::Button(i) => -(i + 1),
        TreeItem::Preset(p) => 1000 + p,
        TreeItem::Instance(p, k) => 20000 + p * 1000 + k,
        TreeItem::Other => 0,
    }
}

/// Computes the tag of a taggable item.
pub fn tag_of(item: TreeItem) -> (t: isize)
    requires
        taggable(item),
    ensures
        t == spec_tag(item),
{
    match item {
        TreeItem::Folder => 0,
        TreeItem::Group(g) => g as isize + 1,
        TreeItem::Button(i) => -(i as isize) - 1,
        TreeItem::Preset(p) => 1000 + p as isize,
        TreeItem::Instance(p, k) => {
            assert(p * 1000 <= isize::MAX) by (nonlinear_arith)
                requires
                    20000 + p * 1000 + k <= isize::MAX,
                    k >= 0,
            ;
            20000 + (p as isize) * 1000 + k as isize
        },
        TreeItem::Other => 0,
    }
}

/// The item a tag names, as the sidebar reads it: negative tags are buttons, tags from
/// 20000 on are combo instances, tags from 1000 to 1999 presets, tags from 1 to 7
/// interaction groups, 0 the folder; other positive tags name nothing.
pub open spec fn spec_item_of(t: int) -> TreeItem {
    if t < 0 {
        TreeItem::Button((-t - 1) as usize)
    } else if t >= 20000 {
        TreeItem::Instance(((t - 20000) / 1000) as usize, ((t - 20000) % 1000) as usize)
    } else if 1000 <= t < 2000 {
        TreeItem::Preset((t - 1000) as usize)
    } else if t > 0 {
        if t - 1 < 7 {
            TreeItem::Group((t - 1) as usize)
        } else {
            TreeItem::Other
        }
    } else {
        TreeItem::Folder
    }
}

/// Reads the item a tag names.
pub fn item_of(t: isize) -> (item: TreeItem)
    requires
        t != isize::MIN,
    ensures
        item == spec_item_of(t as int),
{
    if t < 0 {
        TreeItem::Button((-t - 1) as usize)
    } else if t >= 20000 {
        TreeItem::Instance(((t - 20000) / 1000) as usize, ((t - 20000) % 1000) as usize)
    } else if 1000 <= t && t < 2000 {
        TreeItem::Preset((t - 1000) as usize)
    } else if t > 0 {
        if t - 1 < 7 {
            TreeItem::Group((t - 1) as usize)
        } else {
            TreeItem::Other
        }
    } else {
        TreeItem::Folder
    }
}

/// Reading back the tag of a taggable item gives the item.
pub proof fn lemma_tag_round_trip(item: TreeItem)
    requires
        taggable(item),
    ensures
        spec_item_of(spec_tag(item)) == item,
{
    if let TreeItem::Instance(p, k) = item {
        let t = spec_tag(item);
        assert((t - 20000) / 1000 == p && (t - 20000) % 1000 == k) by (nonlinear_arith)
            requires
                t == 20000 + p * 1000 + k,
                0 <= k < 1000,
                p >= 0,
        ;
    }
}

/// Which buttons a sidebar node lists.
#[derive(Clone, Copy, Debug, PartialEq, Eq, Structural)]
pub enum Members {
    /// The single buttons (in no combo) of interaction group `g`.
    Plain(u8),
    /// The buttons of combo preset `p` with group id `gid`.
    Instance(i32, u32),
    /// The buttons with group id `gid`.
    Group(u32),
}

/// Whether button `b` is listed under `m`.
pub open spec fn is_member(m: Members, b: VirtualButton) -> bool {
    match m {
        Members::Plain(g) => b.combo_category == -1 && b.group == g,
        Members::Instance(p, gid) => b.combo_category == p && b.group_id == gid,
        Members::Group(gid) => b.group_id == gid,
    }
}

/// The positions of the buttons of `bs` listed under `m`, in order.
pub open spec fn members(bs: Seq<VirtualButton>, m: Members) -> Seq<usize>
    decreases bs.len(),
{
    if bs.len() == 0 {
        Seq::empty()
    } else if is_member(m, bs.last()) {
        members(bs.drop_last(), m).push((bs.len() - 1) as usize)
    } else {
        members(bs.drop_last(), m)
    }
}

/// Lists the positions of the buttons under `m`.
pub fn list_members(bs: &Vec<VirtualButton>, m: Members) -> (r: Vec<usize>)
    ensures
        r@ == members(bs@, m),
{
    let mut r: Vec<usize> = Vec::new();
    let mut i: usize = 0;
    while i < bs.len()
        invariant
            i <= bs@.len(),
            r@ == members(bs@.take(i as int), m),
        decreases bs@.len() - i,
    {
        assert(bs@.take(i as int + 1).drop_last() =~= bs@.take(i as int));
        let hit = match m {
            Members::Plain(g) => bs[i].combo_category == -1 && bs[i].group == g,
            Members::Instance(p, gid) => bs[i].combo_category == p && bs[i].group_id == gid,
            Members::Group(gid) => bs[i].group_id == gid,
        };
        if hit {
            r.push(i);
        }
        i = i + 1;
    }
    assert(bs@.take(bs@.len() as int) =~= bs@);
    r
}

/// The name shown for instance `k` of preset `p` with group id `gid` in the tree: the
/// custom name of its first button, or "组合 k+1".
pub open spec fn spec_instance_label(bs: Seq<VirtualButton>, p: i32, gid: u32, k: nat) -> Seq<char> {
    let m = members(bs, Members::Instance(p, gid));
    if m.len() > 0 && bs[m[0] as int].group_name is Some {
        bs[m[0] as int].group_name->0@
    } else {
        spec_instance_name(k + 1)
    }
}

proof fn lemma_members_in_range(bs: Seq<VirtualButton>, m: Members)
    ensures
        forall|j: int| 0 <= j < members(bs, m).len() ==> (#[trigger] members(bs, m)[j]) < bs.len(),
    decreases bs.len(),
{
    if bs.len() > 0 {
        let d = bs.drop_last();
        lemma_members_in_range(d, m);
        let r = members(bs, m);
        assert forall|j: int| 0 <= j < r.len() implies (#[trigger] r[j]) < bs.len() by {
            if j < members(d, m).len() {
                assert(r[j] == members(d, m)[j]);
            }
        }
    }
}

/// Builds the tree name of a combo instance.
pub fn instance_label(bs: &Vec<VirtualButton>, p: i32, gid: u32, k: usize) -> (s: String)
    requires
        k < usize::MAX,
    ensures
        s@ == spec_instance_label(bs@, p, gid, k as nat),
{
    let m = list_members(bs, Members::Instance(p, gid));
    proof { lemma_members_in_range(bs@, Members::Instance(p, gid)); }
    if m.len() > 0 {
        match &bs[m[0]].group_name {
            Some(n) => {
                return n.clone();
            },
            None => {},
        }
    }
    instance_name(k + 1)
}

/// The name shown on the panel of combo group `gid` (instance `k`): the custom name of
/// the first button of the group, or "组合 k+1".
pub open spec fn spec_group_display_name(bs: Seq<VirtualButton>, gid: u32, k: nat) -> Seq<char> {
    if exists|i: int| is_first_member(bs, gid, i) {
        match bs[choose|i: int| is_first_member(bs, gid, i)].group_name {
            Some(n) => n@,
            None => spec_instance_name(k + 1),
        }
    } else {
        spec_instance_name(k + 1)
    }
}

/// Builds the panel name of combo group `gid`.
pub fn group_display_name(bs: &Vec<VirtualButton>, gid: u32, k: usize) -> (s: String)
    requires
        k < usize::MAX,
    ensures
        s@ == spec_group_display_name(bs@, gid, k as nat),
{
    let mut i: usize = 0;
    while i < bs.len()
        invariant
            i <= bs@.len(),
            k < usize::MAX,
            forall|j: int| 0 <= j < i ==> (#[trigger] bs@[j]).group_id != gid,
        decreases bs@.len() - i,
    {
        if bs[i].group_id == gid {
            proof {
                assert(is_first_member(bs@, gid, i as int));
                let c = choose|c: int| is_first_member(bs@, gid, c);
                assert(is_first_member(bs@, gid, c));
                if c < i {
                    assert(bs@[c].group_id != gid);
                } else if i < c {
                    assert(bs@[i as int].group_id != gid);
                }
            }
            match &bs[i].group_name {
                Some(n) => {
                    return n.clone();
                },
                None => {
                    return instance_name(k + 1);
                },
            }
        }
        i = i + 1;
    }
    proof {
        if exists|c: int| is_first_member(bs@, gid, c) {
            let c = choose|c: int| is_first_member(bs@, gid, c);
            assert(bs@[c].group_id != gid);
        }
    }
    instance_name(k + 1)
}

/// The number of buttons with group id `gid`.
pub fn count_group(bs: &Vec<VirtualButton>, gid: u32) -> (n: usize)
    ensures
        n == members(bs@, Members::Group(gid)).len(),
{
    let m = list_members(bs, Members::Group(gid));
    m.len()
}

/// Whether `g` is the instance of rank `k` among the group ids passing `f`.
pub open spec fn is_nth_id(bs: Seq<VirtualButton>, f: IdFilter, k: int, g: u32) -> bool {
    ids_where(bs, f).contains(g) && rank(ids_where(bs, f), g) == k
}

/// The group id of rank `k` (counting from 0) among those passing `f`, if there is one.
pub open spec fn nth_id(bs: Seq<VirtualButton>, f: IdFilter, k: int) -> Option<u32> {
    if exists|g: u32| is_nth_id(bs, f, k, g) {
        Some(choose|g: u32| is_nth_id(bs, f, k, g))
    } else {
        None
    }
}

/// Finds the group id of rank `k` among those passing `f`.
pub fn find_nth_id(bs: &Vec<VirtualButton>, f: IdFilter, k: usize) -> (r: Option<u32>)
    ensures
        r == nth_id(bs@, f, k as int),
{
    let v = sorted_ids_where(bs, f);
    proof {
        assert forall|g: u32| #[trigger] ids_where(bs@, f).contains(g) implies exists|j: int|
            0 <= j < v@.len() && v@[j] == g && rank(ids_where(bs@, f), g) == j by {
            assert(v@.to_set().contains(g));
            let j = choose|j: int| 0 <= j < v@.len() && v@[j] == g;
            lemma_rank_is_position(v@, j);
        }
    }
    if k < v.len() {
        let g = v[k];
        proof {
            lemma_rank_is_position(v@, k as int);
            assert(v@.contains(g));
            assert(is_nth_id(bs@, f, k as int, g));
            let c = choose|c: u32| is_nth_id(bs@, f, k as int, c);
            assert(is_nth_id(bs@, f, k as int, c));
            let j = choose|j: int| 0 <= j < v@.len() && v@[j] == c && rank(ids_where(bs@, f), c) == j;
            assert(j == k);
        }
        Some(g)
    } else {
        proof {
            if exists|c: u32| is_nth_id(bs@, f, k as int, c) {
                let c = choose|c: u32| is_nth_id(bs@, f, k as int, c);
                assert(ids_where(bs@, f).contains(c));
                let j = choose|j: int| 0 <= j < v@.len() && v@[j] == c && rank(ids_where(bs@, f), c) == j;
            }
        }
        None
    }
}

/// `t` and `acts` after the sidebar item tagged `data` is selected in state `s`: a
/// button opens its property panel (and the overlay repaints); a combo instance that
/// exists opens its panel; a preset or an interaction group (0 to 6) opens the panel
/// that adds one; the folder closes the panel; anything else does nothing.
pub open spec fn sidebar_select_post(s: AppState, data: isize, t: AppState, acts: Seq<Action>) -> bool {
    match spec_item_of(data as int) {
        TreeItem::Button(i) => {
            &&& t == (AppState { mode: ProgramMode::ButtonDetail(i), ..s })
            &&& acts == seq![Action::ShowButtonProperties { button: i }, Action::Invalidate]
        },
        TreeItem::Instance(p, k) => {
            &&& t == s
            &&& acts == match nth_id(s.buttons@, IdFilter::Category(p as i32), k as int) {
                Some(g) => seq![Action::ShowComboInstance { category: p, instance: k, group_id: g }],
                None => Seq::<Action>::empty(),
            }
        },
        TreeItem::Preset(p) => t == s && acts == seq![Action::ShowCategoryAdd { kind: 0, index: p }],
        TreeItem::Group(g) => t == s && acts == seq![Action::ShowCategoryAdd { kind: 1, index: g }],
        TreeItem::Folder => t == s && acts == seq![Action::DestroyPropertyWindow],
        TreeItem::Other => t == s && acts.len() == 0,
    }
}

/// Handles the selection of the sidebar item tagged `data`.
pub fn on_sidebar_select(state: &mut AppState, data: isize) -> (actions: Vec<Action>)
    requires
        data != isize::MIN,
    ensures
        sidebar_select_post(*old(state), data, *final(state), actions@),
{
    let mut actions: Vec<Action> = Vec::new();
    match item_of(data) {
        TreeItem::Button(i) => {
            state.mode = ProgramMode::ButtonDetail(i);
            actions.push(Action::ShowButtonProperties { button: i });
            actions.push(Action::Invalidate);
            assert(actions@ =~= seq![Action::ShowButtonProperties { button: i }, Action::Invalidate]);
        },
        TreeItem::Instance(p, k) => {
            #[verifier::truncate]
            let pc = p as i32;
            match find_nth_id(&state.buttons, IdFilter::Category(pc), k) {
                Some(g) => {
                    actions.push(Action::ShowComboInstance { category: p, instance: k, group_id: g });
                    assert(actions@ =~= seq![Action::ShowComboInstance { category: p, instance: k, group_id: g }]);
                },
                None => {},
            }
        },
        TreeItem::Preset(p) => {
            actions.push(Action::ShowCategoryAdd { kind: 0, index: p });
            assert(actions@ =~= seq![Action::ShowCategoryAdd { kind: 0, index: p }]);
        },
        TreeItem::Group(g) => {
            actions.push(Action::ShowCategoryAdd { kind: 1, index: g });
            assert(actions@ =~= seq![Action::ShowCategoryAdd { kind: 1, index: g }]);
        },
        TreeItem::Folder => {
            actions.push(Action::DestroyPropertyWindow);
            assert(actions@ =~= seq![Action::DestroyPropertyWindow]);
        },
        TreeItem::Other => {},
    }
    actions
}

/// The tag that the category panel stores: the kind in the high 16 bits, the index in
/// the low 16 bits.
pub open spec fn spec_pane_tag(kind: u32, index: u32) -> u32 {
    ((kind << 16) | index) as u32
}

/// Packs a category panel's kind and index.
pub fn pane_tag(kind: u32, index: u32) -> (t: u32)
    ensures
        t == spec_pane_tag(kind, index),
{
    (kind << 16) | index
}

/// Unpacks a category panel's tag into its kind and index.
pub fn pane_untag(t: u32) -> (r: (u32, usize))
    ensures
        r.0 == t >> 16,
        r.1 == (t & 0xFFFF) as usize,
{
    (t >> 16, (t & 0xFFFF) as usize)
}

/// Unpacking a packed category panel tag gives back its kind and index, for a kind
/// below 2^16 and an index below 2^16.
pub proof fn lemma_pane_tag_round_trip(kind: u32, index: u32)
    requires
        kind < 0x10000,
        index < 0x10000,
    ensures
        spec_pane_tag(kind, index) >> 16 == kind,
        spec_pane_tag(kind, index) & 0xFFFF == index,
{
    assert(((kind << 16) | index) >> 16 == kind) by (bit_vector)
        requires
            kind < 0x10000,
            index < 0x10000,
    ;
    assert(((kind << 16) | index) & 0xFFFF == index) by (bit_vector)
        requires
            kind < 0x10000,
            index < 0x10000,
    ;
}

/// How many times `i` occurs in `s`.
pub open spec fn occurrences(s: Seq<usize>, i: usize) -> nat
    decreases s.len(),
{
    if s.len() == 0 {
        0
    } else {
        occurrences(s.drop_last(), i) + if s.last() == i { 1nat } else { 0nat }
    }
}

/// The button positions listed under the nodes `ms`, node after node.
pub open spec fn listed_under(bs: Seq<VirtualButton>, ms: Seq<Members>) -> Seq<usize>
    decreases ms.len(),
{
    if ms.len() == 0 {
        Seq::empty()
    } else {
        listed_under(bs, ms.drop_last()) + members(bs, ms.last())
    }
}

/// The nodes of the seven interaction groups `0..n`.
pub open spec fn group_nodes(n: nat) -> Seq<Members> {
    Seq::new(n, |g: int| Members::Plain(g as u8))
}

/// The instance nodes of combo preset `p` with group ids `v`, in order.
pub open spec fn instance_row(p: i32, v: Seq<u32>) -> Seq<Members> {
    v.map_values(|gid: u32| Members::Instance(p, gid))
}

/// The instance nodes of the combo presets `0..n`, preset after preset, with the group
/// ids of preset `p` in the order `ids[p]`.
pub open spec fn instance_nodes(ids: Seq<Seq<u32>>, n: nat) -> Seq<Members>
    decreases n,
{
    if n == 0 {
        Seq::empty()
    } else {
        instance_nodes(ids, (n - 1) as nat) + instance_row((n - 1) as i32, ids[n - 1])
    }
}

/// The nodes of the sidebar tree that list buttons, in the order the tree shows them:
/// the seven interaction groups, then the instances of the six combo presets, each
/// preset's instances in the order `ids[p]`.
pub open spec fn tree_nodes(ids: Seq<Seq<u32>>) -> Seq<Members> {
    group_nodes(7) + instance_nodes(ids, 6)
}

/// Whether the sidebar lists button `b`: a single button of one of the seven groups, or
/// a button of one of the six combo presets.
pub open spec fn listed_in_sidebar(b: VirtualButton) -> bool {
    (b.combo_category == -1 && b.group < 7) || (0 <= b.combo_category < 6)
}

/// How many of the nodes `ms` list button `b`.
pub open spec fn nodes_listing(ms: Seq<Members>, b: VirtualButton) -> nat
    decreases ms.len(),
{
    if ms.len() == 0 {
        0
    } else {
        nodes_listing(ms.drop_last(), b) + if is_member(ms.last(), b) { 1nat } else { 0nat }
    }
}

proof fn lemma_occurrences_concat(a: Seq<usize>, b: Seq<usize>, i: usize)
    ensures
        occurrences(a + b, i) == occurrences(a, i) + occurrences(b, i),
    decreases b.len(),
{
    if b.len() == 0 {
        assert(a + b =~= a);
    } else {
        assert((a + b).drop_last() =~= a + b.drop_last());
        lemma_occurrences_concat(a, b.drop_last(), i);
    }
}

proof fn lemma_occurrences_members(bs: Seq<VirtualButton>, m: Members, i: usize)
    requires
        bs.len() <= usize::MAX,
    ensures
        occurrences(members(bs, m), i) == if i < bs.len() && is_member(m, bs[i as int]) { 1nat } else { 0nat },
    decreases bs.len(),
{
    if bs.len() > 0 {
        let d = bs.drop_last();
        lemma_occurrences_members(d, m, i);
        if i < d.len() {
            assert(d[i as int] == bs[i as int]);
        }
        if is_member(m, bs.last()) {
            let r = members(bs, m);
            assert(r == members(d, m).push((bs.len() - 1) as usize));
            assert(r.drop_last() =~= members(d, m));
            assert(r.last() == (bs.len() - 1) as usize);
            assert(occurrences(r, i) == occurrences(members(d, m), i) + if r.last() == i { 1nat } else { 0nat });
        } else {
            assert(members(bs, m) == members(d, m));
        }
        if i == bs.len() - 1 {
            assert(bs.last() == bs[i as int]);
        }
    }
}

proof fn lemma_nodes_concat(a: Seq<Members>, c: Seq<Members>, b: VirtualButton)
    ensures
        nodes_listing(a + c, b) == nodes_listing(a, b) + nodes_listing(c, b),
    decreases c.len(),
{
    if c.len() == 0 {
        assert(a + c =~= a);
    } else {
        assert((a + c).drop_last() =~= a + c.drop_last());
        lemma_nodes_concat(a, c.drop_last(), b);
    }
}

proof fn lemma_listed_under(bs: Seq<VirtualButton>, ms: Seq<Members>, i: usize)
    requires
        bs.len() <= usize::MAX,
    ensures
        occurrences(listed_under(bs, ms), i) == if i < bs.len() { nodes_listing(ms, bs[i as int]) } else { 0nat },
    decreases ms.len(),
{
    if ms.len() > 0 {
        lemma_listed_under(bs, ms.drop_last(), i);
        lemma_occurrences_concat(listed_under(bs, ms.drop_last()), members(bs, ms.last()), i);
        lemma_occurrences_members(bs, ms.last(), i);
    }
}

proof fn lemma_group_nodes(n: nat, b: VirtualButton)
    requires
        n <= 7,
    ensures
        nodes_listing(group_nodes(n), b) == if b.combo_category == -1 && b.group < n { 1nat } else { 0nat },
    decreases n,
{
    if n > 0 {
        assert(group_nodes(n).drop_last() =~= group_nodes((n - 1) as nat));
        lemma_group_nodes((n - 1) as nat, b);
    }
}

proof fn lemma_instance_row(p: i32, v: Seq<u32>, b: VirtualButton)
    requires
        strictly_increasing(v),
    ensures
        nodes_listing(instance_row(p, v), b) == if b.combo_category == p && v.contains(b.group_id) { 1nat } else { 0nat },
    decreases v.len(),
{
    if v.len() > 0 {
        let d = v.drop_last();
        assert(instance_row(p, v).drop_last() =~= instance_row(p, d));
        assert(strictly_increasing(d)) by {
            assert forall|i: int, j: int| 0 <= i < j < d.len() implies d[i] < d[j] by {
                assert(d[i] == v[i] && d[j] == v[j]);
            }
        }
        lemma_instance_row(p, d, b);
        assert(v.contains(b.group_id) <==> d.contains(b.group_id) || v.last() == b.group_id) by {
            if v.contains(b.group_id) {
                let k = choose|k: int| 0 <= k < v.len() && v[k] == b.group_id;
                if k < v.len() - 1 {
                    assert(d[k] == v[k]);
                }
            }
            if d.contains(b.group_id) {
                let k = choose|k: int| 0 <= k < d.len() && d[k] == b.group_id;
                assert(v[k] == d[k]);
            }
            if v.last() == b.group_id {
                assert(v[v.len() - 1] == b.group_id);
            }
        }
        if d.contains(b.group_id) {
            let k = choose|k: int| 0 <= k < d.len() && d[k] == b.group_id;
            assert(v[k] < v[v.len() - 1]);
            assert(v[k] == d[k]);
        }
    }
}

proof fn lemma_instance_nodes(bs: Seq<VirtualButton>, ids: Seq<Seq<u32>>, n: nat, i: int)
    requires
        n <= 6,
        ids.len() == 6,
        0 <= i < bs.len(),
        forall|p: int| 0 <= p < 6 ==> strictly_increasing(#[trigger] ids[p]),
        forall|p: int| 0 <= p < 6 ==> (#[trigger] ids[p]).to_set() == ids_where(bs, IdFilter::Category(p as i32)),
    ensures
        nodes_listing(instance_nodes(ids, n), bs[i]) == if 0 <= bs[i].combo_category < n { 1nat } else { 0nat },
    decreases n,
{
    if n > 0 {
        let p = n - 1;
        lemma_instance_nodes(bs, ids, (n - 1) as nat, i);
        lemma_nodes_concat(instance_nodes(ids, (n - 1) as nat), instance_row(p as i32, ids[p]), bs[i]);
        lemma_instance_row(p as i32, ids[p], bs[i]);
        if bs[i].combo_category == p {
            assert(ids_where(bs, IdFilter::Category(p as i32)).contains(bs[i].group_id));
            assert(ids[p].to_set().contains(bs[i].group_id));
        }
    }
}

/// The sidebar tree lists every button exactly once when the sidebar lists it at all
/// (a single button of one of the seven groups, or a button of one of the six combo
/// presets), and never otherwise: the tree is made of the group nodes followed by the
/// instance nodes of each preset, taken in the increasing group-id order that
/// `sorted_ids_where` gives, each node listing the buttons that `list_members` gives.
pub proof fn lemma_sidebar_lists_each_button_once(bs: Seq<VirtualButton>, ids: Seq<Seq<u32>>)
    requires
        bs.len() <= usize::MAX,
        ids.len() == 6,
        forall|p: int| 0 <= p < 6 ==> strictly_increasing(#[trigger] ids[p]),
        forall|p: int| 0 <= p < 6 ==> (#[trigger] ids[p]).to_set() == ids_where(bs, IdFilter::Category(p as i32)),
    ensures
        forall|i: usize| #[trigger] occurrences(listed_under(bs, tree_nodes(ids)), i) == if i < bs.len() && listed_in_sidebar(bs[i as int]) {
            1nat
        } else {
            0nat
        },
{
    assert forall|i: usize| #[trigger] occurrences(listed_under(bs, tree_nodes(ids)), i) == if i < bs.len() && listed_in_sidebar(bs[i as int]) {
        1nat
    } else {
        0nat
    } by {
        lemma_listed_under(bs, tree_nodes(ids), i);
        if i < bs.len() {
            let b = bs[i as int];
            lemma_nodes_concat(group_nodes(7), instance_nodes(ids, 6), b);
            lemma_group_nodes(7, b);
            lemma_instance_nodes(bs, ids, 6, i as int);
        }
    }
}

/// The contents of lists of group ids.
pub open spec fn id_lists(ids: Seq<Vec<u32>>) -> Seq<Seq<u32>> {
    ids.map_values(|v: Vec<u32>| v@)
}

/// The group ids of the instances of each of the six combo presets, each list in
/// increasing order: the lists the sidebar tree is built from. Through them the tree
/// lists every button exactly once when the sidebar lists it, and never otherwise.
pub fn preset_instance_ids(bs: &Vec<VirtualButton>) -> (ids: Vec<Vec<u32>>)
    ensures
        ids@.len() == 6,
        forall|p: int| 0 <= p < 6 ==> strictly_increasing(#[trigger] ids@[p]@),
        forall|p: int| 0 <= p < 6 ==> (#[trigger] ids@[p]@).to_set() == ids_where(bs@, IdFilter::Category(p as i32)),
        forall|i: usize| #[trigger] occurrences(listed_under(bs@, tree_nodes(id_lists(ids@))), i)
            == if i < bs@.len() && listed_in_sidebar(bs@[i as int]) { 1nat } else { 0nat },
{
    let mut ids: Vec<Vec<u32>> = Vec::new();
    let mut p: i32 = 0;
    while p < 6
        invariant
            0 <= p <= 6,
            ids@.len() == p,
            forall|q: int| 0 <= q < p ==> strictly_increasing(#[trigger] ids@[q]@),
            forall|q: int| 0 <= q < p ==> (#[trigger] ids@[q]@).to_set() == ids_where(bs@, IdFilter::Category(q as i32)),
        decreases 6 - p,
    {
        let v = sorted_ids_where(bs, IdFilter::Category(p));
        ids.push(v);
        p = p + 1;
    }
    proof {
        let views = id_lists(ids@);
        assert(bs@.len() == bs.len());
        assert forall|q: int| 0 <= q < 6 implies strictly_increasing(#[trigger] views[q]) by {
            assert(views[q] == ids@[q]@);
        }
        assert forall|q: int| 0 <= q < 6 implies (#[trigger] views[q]).to_set() == ids_where(bs@, IdFilter::Category(q as i32)) by {
            assert(views[q] == ids@[q]@);
        }
        lemma_sidebar_lists_each_button_once(bs@, views);
    }
    ids
}

} // verus!
