//! The property panel of a button: what each field and control changes.
use vstd::prelude::*;
use crate::geometry::SerializableRect;
use crate::geometry::spec_shift;
use crate::geometry::shift_rect;
use crate::button::VirtualButton;
use crate::keys::KeyInfo;
use crate::keys::KeyCategory;
use crate::state::AppState;
use crate::state::ProgramMode;
use crate::text::spec_vk_display;
use crate::text::vk_display;
use crate::number::spec_parse_i32;
use crate::number::parse_i32;

verus! {

/// Whether `i` is the first key of `keys` with code `vk`.
pub open spec fn is_first_key_with(keys: Seq<KeyInfo>, vk: u16, i: int) -> bool {
    0 <= i < keys.len() && keys[i].vk == vk && forall|j: int| 0 <= j < i ==> (#[trigger] keys[j]).vk != vk
}

/// The label a pick of key code `vk` gives the button: the label of the first key with
/// that code in the last category holding one; empty when no category does.
pub open spec fn picked_label(cats: Seq<KeyCategory>, vk: u16) -> Seq<char>
    decreases cats.len(),
{
    if cats.len() == 0 {
        Seq::empty()
    } else if exists|i: int| is_first_key_with(cats.last().keys@, vk, i) {
        cats.last().keys@[choose|i: int| is_first_key_with(cats.last().keys@, vk, i)].label@
    } else {
        picked_label(cats.drop_last(), vk)
    }
}

fn first_key_label(keys: &Vec<KeyInfo>, vk: u16) -> (r: Option<String>)
    ensures
        match r {
            Some(l) => exists|i: int| is_first_key_with(keys@, vk, i) && l@ == keys@[choose|i: int| is_first_key_with(keys@, vk, i)].label@,
            None => !exists|i: int| is_first_key_with(keys@, vk, i),
        },
{
    let mut i: usize = 0;
    while i < keys.len()
        invariant
            i <= keys@.len(),
            forall|j: int| 0 <= j < i ==> (#[trigger] keys@[j]).vk != vk,
        decreases keys@.len() - i,
    {
        if keys[i].vk == vk {
            proof {
                assert(is_first_key_with(keys@, vk, i as int));
                let c = choose|c: int| is_first_key_with(keys@, vk, c);
                assert(is_first_key_with(keys@, vk, c));
                if c < i {
                    assert(keys@[c].vk != vk);
                } else if i < c {
                    assert(keys@[i as int].vk != vk);
                }
            }
            return Some(keys[i].label.clone());
        }
        i = i + 1;
    }
    proof {
        if exists|c: int| is_first_key_with(keys@, vk, c) {
            let c = choose|c: int| is_first_key_with(keys@, vk, c);
            assert(keys@[c].vk != vk);
        }
    }
    None
}

/// Finds the label a pick of key code `vk` gives (see `picked_label`).
pub fn key_picker_label(cats: &Vec<KeyCategory>, vk: u16) -> (r: String)
    ensures
        r@ == picked_label(cats@, vk),
{
    let mut label = String::new();
    let mut i: usize = 0;
    while i < cats.len()
        invariant
            i <= cats@.len(),
            label@ == picked_label(cats@.take(i as int), vk),
        decreases cats@.len() - i,
    {
        let ghost t = cats@.take(i as int + 1);
        assert(t.drop_last() =~= cats@.take(i as int));
        assert(t.last() == cats@[i as int]);
        match first_key_label(&cats[i].keys, vk) {
            Some(l) => {
                label = l;
            },
            None => {},
        }
        i = i + 1;
    }
    assert(cats@.take(cats@.len() as int) =~= cats@);
    label
}

/// Sets the label of button `idx`.
pub fn set_label(state: &mut AppState, idx: usize, label: String)
    requires
        idx < old(state).buttons@.len(),
    ensures
        final(state).buttons@ == old(state).buttons@.update(idx as int, VirtualButton { label, ..old(state).buttons@[idx as int] }),
        *final(state) == (AppState { buttons: final(state).buttons, ..*old(state) }),
{
    state.buttons[idx].label = label;
}

/// Binds button `idx` to key code `vk`. When the code changes, the button also takes
/// the label the key picker has for it (if any), and the text to show for the binding
/// is returned: that label, or the code in hexadecimal. Picking the bound code again
/// changes nothing.
pub fn pick_key(state: &mut AppState, idx: usize, vk: u16) -> (r: Option<String>)
    requires
        idx < old(state).buttons@.len(),
    ensures
        old(state).buttons@[idx as int].key_code == vk ==> *final(state) == *old(state) && r is None,
        old(state).buttons@[idx as int].key_code != vk ==> {
            let b = old(state).buttons@[idx as int];
            let picked = picked_label(old(state).key_categories@, vk);
            &&& final(state).buttons@ == old(state).buttons@.update(idx as int, final(state).buttons@[idx as int])
            &&& final(state).buttons@[idx as int] == (VirtualButton { key_code: vk, label: final(state).buttons@[idx as int].label, ..b })
            &&& final(state).buttons@[idx as int].label@ == if picked.len() == 0 { b.label@ } else { picked }
            &&& *final(state) == (AppState { buttons: final(state).buttons, ..*old(state) })
            &&& r matches Some(d) && d@ == if picked.len() == 0 { spec_vk_display(vk) } else { picked }
        },
{
    if state.buttons[idx].key_code == vk {
        return None;
    }
    let new_label = key_picker_label(&state.key_categories, vk);
    state.buttons[idx].key_code = vk;
    if new_label.unicode_len() == 0 {
        Some(vk_display(vk))
    } else {
        state.buttons[idx].label = new_label.clone();
        Some(new_label)
    }
}

/// Moves button `idx` to interaction group `sel` (a list position; negative means no
/// selection). Returns whether the group changed and, if so, whether the new group is a
/// mouse kind (3 or 6) whose sensitivity controls apply.
pub fn set_interaction_group(state: &mut AppState, idx: usize, sel: isize) -> (r: Option<bool>)
    requires
        idx < old(state).buttons@.len(),
    ensures
        (sel < 0 || old(state).buttons@[idx as int].group == sel as u8) ==> *final(state) == *old(state) && r is None,
        sel >= 0 && old(state).buttons@[idx as int].group != sel as u8 ==> {
            &&& final(state).buttons@ == old(state).buttons@.update(idx as int, VirtualButton { group: sel as u8, ..old(state).buttons@[idx as int] })
            &&& *final(state) == (AppState { buttons: final(state).buttons, ..*old(state) })
            &&& r == Some(sel == 3 || sel == 6)
        },
{
    if sel < 0 {
        return None;
    }
    #[verifier::truncate]
    let g = sel as u8;
    if state.buttons[idx].group == g {
        return None;
    }
    state.buttons[idx].group = g;
    Some(sel == 3 || sel == 6)
}

/// Deletes button `idx` and returns to plain editing.
pub fn delete_button(state: &mut AppState, idx: usize)
    requires
        idx < old(state).buttons@.len(),
    ensures
        final(state).buttons@ == old(state).buttons@.remove(idx as int),
        *final(state) == (AppState { buttons: final(state).buttons, mode: ProgramMode::Editing, ..*old(state) }),
{
    state.buttons.remove(idx);
    state.mode = ProgramMode::Editing;
}

/// The suffix a duplicated button's label gets.
pub open spec fn copy_suffix() -> Seq<char> {
    seq!['_', '副', '本']
}

/// Appends a copy of button `idx`, moved 30 pixels right and down, with "_副本"
/// appended to its label.
pub fn duplicate_button(state: &mut AppState, idx: usize)
    requires
        idx < old(state).buttons@.len(),
    ensures
        final(state).buttons@.len() == old(state).buttons@.len() + 1,
        final(state).buttons@.drop_last() == old(state).buttons@,
        ({
            let b = old(state).buttons@[idx as int];
            let c = final(state).buttons@.last();
            &&& c == (VirtualButton { rect: spec_shift(b.rect, 30, 30), label: c.label, ..b })
            &&& c.label@ == b.label@ + copy_suffix()
        }),
        *final(state) == (AppState { buttons: final(state).buttons, ..*old(state) }),
{
    let mut b = state.buttons[idx].clone();
    b.rect = shift_rect(&b.rect, 30, 30);
    proof { reveal_strlit("_副本"); }
    b.label.append("_副本");
    state.buttons.push(b);
    assert(state.buttons@.drop_last() =~= old(state).buttons@);
}

/// Sets the width of button `idx` to `w`, at least 10; returns the width set.
pub fn set_width(state: &mut AppState, idx: usize, w: i32) -> (safe: i32)
    requires
        idx < old(state).buttons@.len(),
    ensures
        safe == if w < 10 { 10 } else { w },
        ({
            let b = old(state).buttons@[idx as int];
            final(state).buttons@ == old(state).buttons@.update(idx as int, VirtualButton {
                rect: SerializableRect { right: b.rect.left.wrapping_add(safe), ..b.rect },
                ..b
            })
        }),
        *final(state) == (AppState { buttons: final(state).buttons, ..*old(state) }),
{
    let safe = if w < 10 { 10 } else { w };
    state.buttons[idx].rect.right = state.buttons[idx].rect.left.wrapping_add(safe);
    safe
}

/// Sets the height of button `idx` to `h`, at least 10; returns the height set.
pub fn set_height(state: &mut AppState, idx: usize, h: i32) -> (safe: i32)
    requires
        idx < old(state).buttons@.len(),
    ensures
        safe == if h < 10 { 10 } else { h },
        ({
            let b = old(state).buttons@[idx as int];
            final(state).buttons@ == old(state).buttons@.update(idx as int, VirtualButton {
                rect: SerializableRect { bottom: b.rect.top.wrapping_add(safe), ..b.rect },
                ..b
            })
        }),
        *final(state) == (AppState { buttons: final(state).buttons, ..*old(state) }),
{
    let safe = if h < 10 { 10 } else { h };
    state.buttons[idx].rect.bottom = state.buttons[idx].rect.top.wrapping_add(safe);
    safe
}

/// `v` clamped to `[lo, hi]`.
pub open spec fn clamp(v: int, lo: int, hi: int) -> int {
    if v < lo { lo } else if v > hi { hi } else { v }
}

/// Sets the opacity of button `idx` from a typed value, clamped to 0..=255. Returns
/// whether it changed.
pub fn set_opacity(state: &mut AppState, idx: usize, v: i32) -> (changed: bool)
    requires
        idx < old(state).buttons@.len(),
    ensures
        changed == (old(state).buttons@[idx as int].opacity != clamp(v as int, 0, 255)),
        final(state).buttons@ == old(state).buttons@.update(idx as int, VirtualButton {
            opacity: clamp(v as int, 0, 255) as u8,
            ..old(state).buttons@[idx as int]
        }),
        *final(state) == (AppState { buttons: final(state).buttons, ..*old(state) }),
{
    let safe: u8 = if v < 0 { 0 } else if v > 255 { 255 } else { v as u8 };
    let changed = state.buttons[idx].opacity != safe;
    state.buttons[idx].opacity = safe;
    changed
}

/// Sets the opacity of button `idx` from the slider position (its low 8 bits).
pub fn set_opacity_from_slider(state: &mut AppState, idx: usize, pos: i32)
    requires
        idx < old(state).buttons@.len(),
    ensures
        final(state).buttons@ == old(state).buttons@.update(idx as int, VirtualButton {
            opacity: pos as u8,
            ..old(state).buttons@[idx as int]
        }),
        *final(state) == (AppState { buttons: final(state).buttons, ..*old(state) }),
{
    #[verifier::truncate]
    let o = pos as u8;
    state.buttons[idx].opacity = o;
}

/// Sets the corner radius of button `idx`, clamped to 0..=500. Returns whether it
/// changed.
pub fn set_radius(state: &mut AppState, idx: usize, v: i32) -> (changed: bool)
    requires
        idx < old(state).buttons@.len(),
    ensures
        changed == (old(state).buttons@[idx as int].corner_radius != clamp(v as int, 0, 500)),
        final(state).buttons@ == old(state).buttons@.update(idx as int, VirtualButton {
            corner_radius: clamp(v as int, 0, 500) as i32,
            ..old(state).buttons@[idx as int]
        }),
        *final(state) == (AppState { buttons: final(state).buttons, ..*old(state) }),
{
    let safe: i32 = if v < 0 { 0 } else if v > 500 { 500 } else { v };
    let changed = state.buttons[idx].corner_radius != safe;
    state.buttons[idx].corner_radius = safe;
    changed
}

/// A numeric field of the property panel.
#[derive(Clone, Copy, Debug, PartialEq, Eq, Structural)]
pub enum NumberField {
    Width,
    Height,
    Opacity,
    Radius,
}

/// Applies the text typed into a numeric field of button `idx`: an empty text or one
/// that is not a whole number changes nothing; otherwise the field is set as
/// `set_width`, `set_height`, `set_opacity` or `set_radius` does. Returns whether the
/// button changed (a width or height is always set again).
pub fn apply_number_text(state: &mut AppState, idx: usize, field: NumberField, text: &str) -> (changed: bool)
    requires
        idx < old(state).buttons@.len(),
    ensures
        (text@.len() == 0 || spec_parse_i32(text@) is None) ==> *final(state) == *old(state) && !changed,
        text@.len() != 0 && spec_parse_i32(text@) is Some ==> {
            let v = spec_parse_i32(text@)->0;
            let b = old(state).buttons@[idx as int];
            let nb = match field {
                NumberField::Width => VirtualButton {
                    rect: SerializableRect { right: b.rect.left.wrapping_add(if v < 10 { 10 } else { v }), ..b.rect },
                    ..b
                },
                NumberField::Height => VirtualButton {
                    rect: SerializableRect { bottom: b.rect.top.wrapping_add(if v < 10 { 10 } else { v }), ..b.rect },
                    ..b
                },
                NumberField::Opacity => VirtualButton { opacity: clamp(v as int, 0, 255) as u8, ..b },
                NumberField::Radius => VirtualButton { corner_radius: clamp(v as int, 0, 500) as i32, ..b },
            };
            &&& final(state).buttons@ == old(state).buttons@.update(idx as int, nb)
            &&& *final(state) == (AppState { buttons: final(state).buttons, ..*old(state) })
            &&& changed == match field {
                NumberField::Opacity => b.opacity != clamp(v as int, 0, 255),
                NumberField::Radius => b.corner_radius != clamp(v as int, 0, 500),
                _ => true,
            }
        },
{
    if text.unicode_len() == 0 {
        return false;
    }
    match parse_i32(text) {
        None => false,
        Some(v) => match field {
            NumberField::Width => {
                set_width(state, idx, v);
                true
            },
            NumberField::Height => {
                set_height(state, idx, v);
                true
            },
            NumberField::Opacity => set_opacity(state, idx, v),
            NumberField::Radius => set_radius(state, idx, v),
        },
    }
}

/// What a text field of a panel gaining or losing the focus does: with the system
/// keyboard in use, gaining the focus asks for that keyboard to open; otherwise the
/// virtual keyboard is shown while the field has the focus. Returns whether the
/// overlay needs repainting and whether the system keyboard is to be opened.
pub fn text_focus_changed(state: &mut AppState, gained: bool) -> (r: (bool, bool))
    ensures
        old(state).use_system_osk ==> *final(state) == *old(state) && r == (false, gained),
        !old(state).use_system_osk ==> *final(state) == (AppState { osk_visible: gained, ..*old(state) }) && r == (true, false),
{
    if state.use_system_osk {
        (false, gained)
    } else {
        state.osk_visible = gained;
        (true, false)
    }
}

} // verus!
