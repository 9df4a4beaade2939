//! Hit testing of the virtual on-screen keyboard panel.
use vstd::prelude::*;
use crate::geometry::Point;
use crate::geometry::SerializableRect;
use crate::geometry::spec_contains;
use crate::geometry::spec_absolute;
use crate::geometry::pt_in_rect;
use crate::geometry::absolute_rect;
use crate::button::VirtualButton;

verus! {

/// The close box in the top-right corner of the keyboard panel (40 x 30).
pub open spec fn spec_close_box(o: SerializableRect) -> SerializableRect {
    SerializableRect { left: o.right.wrapping_sub(40), top: o.top, right: o.right, bottom: o.top.wrapping_add(30) }
}

/// The title bar of the keyboard panel (its top 50 pixels), by which it is dragged.
pub open spec fn spec_title_bar(o: SerializableRect) -> SerializableRect {
    SerializableRect { left: o.left, top: o.top, right: o.right, bottom: o.top.wrapping_add(50) }
}

/// The close box of the keyboard panel `o`.
pub fn close_box(o: &SerializableRect) -> (r: SerializableRect)
    ensures
        r == spec_close_box(*o),
{
    SerializableRect { left: o.right.wrapping_sub(40), top: o.top, right: o.right, bottom: o.top.wrapping_add(30) }
}

/// The title bar of the keyboard panel `o`.
pub fn title_bar(o: &SerializableRect) -> (r: SerializableRect)
    ensures
        r == spec_title_bar(*o),
{
    SerializableRect { left: o.left, top: o.top, right: o.right, bottom: o.top.wrapping_add(50) }
}

/// Whether `k` is the first key of `keys` (placed relative to the panel `o`) under `pt`.
pub open spec fn is_first_key(o: SerializableRect, keys: Seq<VirtualButton>, pt: Point, k: int) -> bool {
    &&& 0 <= k < keys.len()
    &&& spec_contains(spec_absolute(o, keys[k].rect), pt)
    &&& forall|j: int| 0 <= j < k ==> !spec_contains(spec_absolute(o, #[trigger] keys[j].rect), pt)
}

/// The first key of the panel under `pt`, if any.
pub open spec fn key_hit(o: SerializableRect, keys: Seq<VirtualButton>, pt: Point) -> Option<int> {
    if exists|k: int| is_first_key(o, keys, pt, k) {
        Some(choose|k: int| is_first_key(o, keys, pt, k))
    } else {
        None
    }
}

/// The first key under the point is unique.
pub proof fn lemma_first_key_unique(o: SerializableRect, keys: Seq<VirtualButton>, pt: Point, k: int)
    requires
        is_first_key(o, keys, pt, k),
    ensures
        key_hit(o, keys, pt) == Some(k),
{
    let c = choose|c: int| is_first_key(o, keys, pt, c);
    assert(is_first_key(o, keys, pt, c));
    if c < k {
        assert(!spec_contains(spec_absolute(o, keys[c].rect), pt));
    } else if k < c {
        assert(!spec_contains(spec_absolute(o, keys[k].rect), pt));
    }
}

/// Where a press on the keyboard panel lands.
#[derive(Clone, Copy, Debug, PartialEq, Eq, Structural)]
pub enum OskHit {
    /// The close box.
    Close,
    /// The title bar (outside the close box).
    Title,
    /// Key `k` of the panel.
    Key(usize),
    /// Inside the panel, but on no key.
    Panel,
    /// Outside the panel.
    Outside,
}

/// The classification of a press at `pt` on the panel `o` holding `keys`: the close
/// box first, then the title bar, then the first key under the point.
pub open spec fn spec_osk_hit(o: SerializableRect, keys: Seq<VirtualButton>, pt: Point) -> OskHit {
    if spec_contains(spec_close_box(o), pt) {
        OskHit::Close
    } else if spec_contains(spec_title_bar(o), pt) {
        OskHit::Title
    } else if spec_contains(o, pt) {
        match key_hit(o, keys, pt) {
            Some(k) => OskHit::Key(k as usize),
            None => OskHit::Panel,
        }
    } else {
        OskHit::Outside
    }
}

/// Finds the first key of the panel under `pt`.
pub fn find_key(o: &SerializableRect, keys: &Vec<VirtualButton>, pt: Point) -> (r: Option<usize>)
    ensures
        match r {
            Some(k) => key_hit(*o, keys@, pt) == Some(k as int),
            None => key_hit(*o, keys@, pt) is None,
        },
{
    let mut i: usize = 0;
    while i < keys.len()
        invariant
            i <= keys@.len(),
            forall|j: int| 0 <= j < i ==> !spec_contains(spec_absolute(*o, #[trigger] keys@[j].rect), pt),
        decreases keys@.len() - i,
    {
        let r = absolute_rect(o, &keys[i].rect);
        if pt_in_rect(&r, pt) {
            proof { lemma_first_key_unique(*o, keys@, pt, i as int); }
            return Some(i);
        }
        i = i + 1;
    }
    proof {
        if exists|k: int| is_first_key(*o, keys@, pt, k) {
            let k = choose|k: int| is_first_key(*o, keys@, pt, k);
            assert(!spec_contains(spec_absolute(*o, keys@[k].rect), pt));
        }
    }
    None
}

/// Classifies a press at `pt` on the keyboard panel `o`.
pub fn osk_hit(o: &SerializableRect, keys: &Vec<VirtualButton>, pt: Point) -> (r: OskHit)
    ensures
        r == spec_osk_hit(*o, keys@, pt),
        r matches OskHit::Key(k) ==> k < keys@.len(),
{
    if pt_in_rect(&close_box(o), pt) {
        OskHit::Close
    } else if pt_in_rect(&title_bar(o), pt) {
        OskHit::Title
    } else if pt_in_rect(o, pt) {
        match find_key(o, keys, pt) {
            Some(k) => OskHit::Key(k),
            None => OskHit::Panel,
        }
    } else {
        OskHit::Outside
    }
}

/// What the system-wide mouse hook does with a left-button event over the panel: it
/// swallows presses inside the panel but outside its title bar, and reports the key
/// under the point.
pub open spec fn spec_hook_target(o: SerializableRect, keys: Seq<VirtualButton>, pt: Point) -> (bool, Option<int>) {
    if !spec_contains(spec_title_bar(o), pt) && spec_contains(o, pt) {
        (true, key_hit(o, keys, pt))
    } else {
        (false, None)
    }
}

/// Decides whether the mouse hook swallows a left-button event at `pt` (in the
/// overlay's client coordinates) while the keyboard is shown, and which key it hits.
/// The key's pressed flag follows the button (`is_down`).
pub fn osk_hook_event(keys: &mut Vec<VirtualButton>, o: &SerializableRect, pt: Point, is_down: bool) -> (r: (
    bool,
    Option<u16>,
))
    ensures
        r.0 == spec_hook_target(*o, old(keys)@, pt).0,
        match spec_hook_target(*o, old(keys)@, pt).1 {
            Some(k) => {
                &&& r.1 == Some(old(keys)@[k].key_code)
                &&& final(keys)@ == old(keys)@.update(k, VirtualButton { is_pressed: is_down, ..old(keys)@[k] })
            },
            None => r.1 is None && final(keys)@ == old(keys)@,
        },
{
    if !pt_in_rect(&title_bar(o), pt) && pt_in_rect(o, pt) {
        match find_key(o, keys, pt) {
            Some(k) => {
                proof { lemma_key_hit_in_range(*o, keys@, pt); }
                let vk = keys[k].key_code;
                keys[k].is_pressed = is_down;
                (true, Some(vk))
            },
            None => (true, None),
        }
    } else {
        (false, None)
    }
}

/// A key hit lies within the key list.
pub proof fn lemma_key_hit_in_range(o: SerializableRect, keys: Seq<VirtualButton>, pt: Point)
    ensures
        key_hit(o, keys, pt) matches Some(k) ==> 0 <= k < keys.len(),
{
    if exists|k: int| is_first_key(o, keys, pt, k) {
        let k = choose|k: int| is_first_key(o, keys, pt, k);
        assert(is_first_key(o, keys, pt, k));
    }
}

} // verus!
