//! The overlay's reactions to mouse presses: what a press changes in the state and
//! which actions it asks the host to perform.
use vstd::prelude::*;
use crate::geometry::Point;
use crate::geometry::spec_offset_in;
use crate::geometry::offset_in;
use crate::button::VirtualButton;
use crate::keys::VK_RETURN;
use crate::state::Action;
use crate::state::AppState;
use crate::state::ProgramMode;
use crate::state::osk_dismissed;
use crate::state::close_osk_and_defocus;
use crate::state::unpressed;
use crate::state::release_actions;
use crate::state::release_buttons;
use crate::state::toggle_osk;
use crate::state::lemma_no_release_when_unpressed;
use crate::osk::OskHit;
use crate::osk::spec_osk_hit;
use crate::osk::osk_hit;
use crate::hit::last_hit;
use crate::hit::find_last_hit;
use crate::hit::group_hit;
use crate::hit::find_group_hit;
use crate::ids::IdFilter;
use crate::ids::spec_position_of;
use crate::ids::position_of_id;
use crate::press::PressKind;
use crate::press::press_kind;
use crate::press::get_press_kind;
use crate::press::is_stick;
use crate::press::pressed;
use crate::press::press_actions;
use crate::press::press_button;
use crate::press::released_button;
use crate::press::sweep_actions;
use crate::press::sweep_toggles;
use crate::press::release_all;

verus! {

/// Whether the overlay maps input to keys in this mode (running, or shown from the menu).
pub open spec fn is_live(m: ProgramMode) -> bool {
    m == ProgramMode::Running || m == ProgramMode::Menu
}

/// Whether the overlay is being edited in this mode.
pub open spec fn is_editing(m: ProgramMode) -> bool {
    m is Editing || m is ButtonDetail || m is GroupDetail
}

/// Whether the mode maps input to keys.
pub fn mode_is_live(m: ProgramMode) -> (r: bool)
    ensures
        r == is_live(m),
{
    match m {
        ProgramMode::Running | ProgramMode::Menu => true,
        _ => false,
    }
}

/// Whether the mode is one of the editing modes.
pub fn mode_is_editing(m: ProgramMode) -> (r: bool)
    ensures
        r == is_editing(m),
{
    match m {
        ProgramMode::Editing | ProgramMode::ButtonDetail(_) | ProgramMode::GroupDetail(_) => true,
        _ => false,
    }
}

/// A gamepad synchronisation when the virtual gamepad is in use.
pub open spec fn sync_if(s: AppState) -> Seq<Action> {
    if s.use_virtual_gamepad {
        seq![Action::SyncGamepad]
    } else {
        Seq::empty()
    }
}

/// The keys of the panel with key `k` held.
pub open spec fn osk_key_pressed(keys: Seq<VirtualButton>, k: int) -> Seq<VirtualButton> {
    keys.update(k, VirtualButton { is_pressed: true, ..keys[k] })
}

/// `t` and `acts` after key `k` of the panel is pressed in state `s`: the key is held
/// and sent down; Enter also closes the panel (releasing what is held, itself included)
/// and moves the focus away.
pub open spec fn osk_key_post(s: AppState, k: int, t: AppState, acts: Seq<Action>) -> bool {
    let keys = osk_key_pressed(s.osk_buttons@, k);
    let vk = s.osk_buttons@[k].key_code;
    if vk == VK_RETURN {
        &&& acts.len() >= 1
        &&& acts[0] == Action::OskKey { vk, down: true }
        &&& osk_dismissed(s, keys, t, acts.skip(1))
    } else {
        &&& t.osk_buttons@ == keys
        &&& t == (AppState { osk_buttons: t.osk_buttons, ..s })
        &&& acts == seq![Action::OskKey { vk, down: true }]
    }
}

/// Presses key `k` of the on-screen keyboard.
pub fn press_osk_key(state: &mut AppState, k: usize) -> (actions: Vec<Action>)
    requires
        k < old(state).osk_buttons@.len(),
    ensures
        osk_key_post(*old(state), k as int, *final(state), actions@),
{
    let vk = state.osk_buttons[k].key_code;
    state.osk_buttons[k].is_pressed = true;
    let mut actions: Vec<Action> = Vec::new();
    actions.push(Action::OskKey { vk, down: true });
    if vk == VK_RETURN {
        let ghost mid = *state;
        let mut rest = close_osk_and_defocus(state);
        let ghost r = rest@;
        actions.append(&mut rest);
        assert(actions@.skip(1) =~= r);
        assert(mid.osk_buttons@ =~= osk_key_pressed(old(state).osk_buttons@, k as int));
        assert(mid == (AppState { osk_buttons: mid.osk_buttons, ..*old(state) }));
    } else {
        assert(state.osk_buttons@ =~= osk_key_pressed(old(state).osk_buttons@, k as int));
    }
    actions
}

/// `t` and `acts` after a press at `pt` that falls on button `i` of a live overlay.
/// A stick is grabbed (it becomes the active touchpad button); any other button is
/// pressed by its kind, becomes the dragged button and the gamepad is resynchronised.
pub open spec fn live_press_post(s: AppState, pt: Point, i: int, t: AppState, acts: Seq<Action>) -> bool {
    let b = s.buttons@[i];
    let k = press_kind(b);
    &&& t.buttons@ == s.buttons@.update(i, pressed(b))
    &&& if is_stick(b) {
        &&& t == (AppState {
            buttons: t.buttons,
            touchpad_active_button: Some(i as usize),
            touchpad_last_pos: pt,
            ..s
        })
        &&& acts == seq![Action::SetCapture]
    } else {
        &&& t == (AppState {
            buttons: t.buttons,
            dragging_button_index: Some(i as usize),
            drag_offset: spec_offset_in(b.rect, pt),
            group_drag_start_pt: if k == PressKind::Free {
                pt
            } else {
                s.group_drag_start_pt
            },
            touchpad_active_button: if k == PressKind::Touchpad || k == PressKind::Absolute || k
                == PressKind::Capture {
                Some(i as usize)
            } else {
                s.touchpad_active_button
            },
            touchpad_last_pos: if k == PressKind::Touchpad || k == PressKind::Absolute {
                pt
            } else {
                s.touchpad_last_pos
            },
            ..s
        })
        &&& acts == seq![Action::SetCapture] + press_actions(b, pt) + sync_if(s)
    }
}

/// The first position of `x` in `v`.
pub open spec fn first_index_of(v: Seq<usize>, x: usize) -> int {
    choose|i: int| 0 <= i < v.len() && v[i] == x && forall|j: int| 0 <= j < i ==> v[j] != x
}

/// `v` with `x` taken out (its first occurrence) when present, appended otherwise.
pub open spec fn toggled(v: Seq<usize>, x: usize) -> Seq<usize> {
    if v.contains(x) {
        v.remove(first_index_of(v, x))
    } else {
        v.push(x)
    }
}

/// Adds `x` to the selection, or takes it out when it is already selected.
pub fn toggle_selection(v: &mut Vec<usize>, x: usize)
    ensures
        final(v)@ == toggled(old(v)@, x),
{
    let mut i: usize = 0;
    while i < v.len()
        invariant
            i <= v@.len(),
            v@ == old(v)@,
            forall|j: int| 0 <= j < i ==> v@[j] != x,
        decreases v@.len() - i,
    {
        if v[i] == x {
            proof {
                let c = first_index_of(old(v)@, x);
                assert(old(v)@.contains(x));
                assert(0 <= i < v@.len() && v@[i as int] == x && forall|j: int| 0 <= j < i ==> v@[j] != x);
                assert(0 <= c < v@.len() && v@[c] == x && forall|j: int| 0 <= j < c ==> v@[j] != x);
                if c < i {
                    assert(v@[c] != x);
                } else if i < c {
                    assert(v@[i as int] != x);
                }
            }
            v.remove(i);
            return;
        }
        i = i + 1;
    }
    assert(!old(v)@.contains(x));
    v.push(x);
}

/// Whether `i` is the first button of group `g`.
pub open spec fn is_first_member(bs: Seq<VirtualButton>, g: u32, i: int) -> bool {
    0 <= i < bs.len() && bs[i].group_id == g && forall|j: int| 0 <= j < i ==> (#[trigger] bs[j]).group_id != g
}

/// The combo category of the first button of group `g` (0 when the group is empty).
pub open spec fn first_member_category(bs: Seq<VirtualButton>, g: u32) -> i32 {
    if exists|i: int| is_first_member(bs, g, i) {
        bs[choose|i: int| is_first_member(bs, g, i)].combo_category
    } else {
        0
    }
}

/// Finds the combo category of the first button of group `g`.
pub fn group_category(bs: &Vec<VirtualButton>, g: u32) -> (r: i32)
    ensures
        r == first_member_category(bs@, g),
{
    let mut i: usize = 0;
    while i < bs.len()
        invariant
            i <= bs@.len(),
            forall|j: int| 0 <= j < i ==> (#[trigger] bs@[j]).group_id != g,
        decreases bs@.len() - i,
    {
        if bs[i].group_id == g {
            proof {
                assert(is_first_member(bs@, g, i as int));
                let c = choose|c: int| is_first_member(bs@, g, c);
                assert(is_first_member(bs@, g, c));
                if c < i {
                    assert(bs@[c].group_id != g);
                } else if i < c {
                    assert(bs@[i as int].group_id != g);
                }
            }
            return bs[i].combo_category;
        }
        i = i + 1;
    }
    proof {
        if exists|c: int| is_first_member(bs@, g, c) {
            let c = choose|c: int| is_first_member(bs@, g, c);
            assert(bs@[c].group_id != g);
        }
    }
    0
}

/// `t` and `acts` after a press at `pt` in an editing mode.
///
/// While combo members are being picked, the button under the point joins or leaves
/// the selection. Otherwise the topmost button under the point is selected and dragged
/// (with its whole group when it has one) and its property panel opens; failing that,
/// the combo group whose outline holds the point is selected with its panel; failing
/// that, the selection is cleared and the panel closes.
pub open spec fn edit_press_post(s: AppState, pt: Point, t: AppState, acts: Seq<Action>) -> bool {
    if s.combo_select_mode is Some {
        match last_hit(s.buttons@, pt) {
            Some(i) => {
                &&& t.combo_select_temp@ == toggled(s.combo_select_temp@, i as usize)
                &&& t == (AppState { combo_select_temp: t.combo_select_temp, ..s })
                &&& acts == seq![Action::SetCapture, Action::Invalidate]
            },
            None => t == s && acts == seq![Action::SetCapture],
        }
    } else {
        match last_hit(s.buttons@, pt) {
            Some(i) => {
                let b = s.buttons@[i];
                &&& t == (AppState {
                    dragging_button_index: Some(i as usize),
                    drag_offset: spec_offset_in(b.rect, pt),
                    active_group_drag_id: if b.group_id != 0 {
                        Some(b.group_id)
                    } else {
                        None
                    },
                    group_drag_start_pt: if b.group_id != 0 {
                        pt
                    } else {
                        s.group_drag_start_pt
                    },
                    mode: ProgramMode::ButtonDetail(i as usize),
                    ..s
                })
                &&& acts == seq![Action::SetCapture] + if s.mode == ProgramMode::ButtonDetail(i as usize) {
                    Seq::empty()
                } else {
                    seq![Action::ShowButtonProperties { button: i as usize }]
                }
            },
            None => match group_hit(s.buttons@, pt) {
                Some(g) => {
                    &&& t == (AppState {
                        active_group_drag_id: Some(g),
                        group_drag_start_pt: pt,
                        edit_selected_group_id: Some(g),
                        mode: ProgramMode::GroupDetail(g),
                        dragging_button_index: None,
                        ..s
                    })
                    &&& acts == seq![
                        Action::SetCapture,
                        Action::ShowComboInstance {
                            category: first_member_category(s.buttons@, g) as usize,
                            instance: spec_position_of(s.buttons@, IdFilter::InstancesOf(g), g) as usize,
                            group_id: g,
                        },
                    ]
                },
                None => {
                    &&& t == (AppState {
                        mode: ProgramMode::Editing,
                        edit_selected_group_id: None,
                        dragging_button_index: None,
                        active_group_drag_id: None,
                        ..s
                    })
                    &&& acts == seq![Action::SetCapture, Action::DestroyPropertyWindow]
                },
            },
        }
    }
}

/// `t` and `acts` after a left-button press at `pt` in state `s` (with the pointer
/// position recorded first).
pub open spec fn lbutton_down_post(s: AppState, pt: Point, t: AppState, acts: Seq<Action>) -> bool {
    let s1 = AppState { last_mouse_pos: pt, ..s };
    if s.osk_visible {
        match spec_osk_hit(s.osk_rect, s.osk_buttons@, pt) {
            OskHit::Close => osk_dismissed(s1, s.osk_buttons@, t, acts),
            OskHit::Outside => osk_dismissed(s1, s.osk_buttons@, t, acts),
            OskHit::Title => {
                &&& t == (AppState {
                    is_dragging_osk: true,
                    osk_drag_offset: spec_offset_in(s.osk_rect, pt),
                    ..s1
                })
                &&& acts == seq![Action::SetCapture]
            },
            OskHit::Key(k) => osk_key_post(s1, k as int, t, acts),
            OskHit::Panel => t == s1 && acts.len() == 0,
        }
    } else if is_live(s.mode) {
        match last_hit(s.buttons@, pt) {
            Some(i) => live_press_post(s1, pt, i, t, acts),
            None => t == s1 && acts == seq![Action::SetCapture],
        }
    } else if is_editing(s.mode) {
        edit_press_post(s1, pt, t, acts)
    } else {
        t == s1 && acts == seq![Action::SetCapture]
    }
}

/// Presses button `i` of a live overlay at `pt`.
fn live_press(state: &mut AppState, pt: Point, i: usize) -> (actions: Vec<Action>)
    requires
        i < old(state).buttons@.len(),
    ensures
        live_press_post(*old(state), pt, i as int, *final(state), actions@),
{
    let mut actions: Vec<Action> = Vec::new();
    actions.push(Action::SetCapture);
    let kind = get_press_kind(&state.buttons[i]);
    let rect = state.buttons[i].rect;
    let mut b = state.buttons[i].clone();
    if kind == PressKind::Stick {
        b.is_pressed = true;
        state.buttons.set(i, b);
        state.touchpad_active_button = Some(i);
        state.touchpad_last_pos = pt;
        return actions;
    }
    press_button(&mut b, pt, &mut actions);
    state.buttons.set(i, b);
    match kind {
        PressKind::Free => {
            state.group_drag_start_pt = pt;
        },
        PressKind::Touchpad | PressKind::Absolute => {
            state.touchpad_active_button = Some(i);
            state.touchpad_last_pos = pt;
        },
        PressKind::Capture => {
            state.touchpad_active_button = Some(i);
        },
        _ => {},
    }
    state.dragging_button_index = Some(i);
    state.drag_offset = offset_in(&rect, pt);
    if state.use_virtual_gamepad {
        actions.push(Action::SyncGamepad);
    }
    assert(actions@ =~= seq![Action::SetCapture] + press_actions(old(state).buttons@[i as int], pt) + sync_if(
        *old(state),
    ));
    actions
}

/// Handles a press in an editing mode.
fn edit_press(state: &mut AppState, pt: Point) -> (actions: Vec<Action>)
    ensures
        edit_press_post(*old(state), pt, *final(state), actions@),
{
    let mut actions: Vec<Action> = Vec::new();
    actions.push(Action::SetCapture);
    let hit = find_last_hit(&state.buttons, pt);
    proof { crate::hit::lemma_last_hit(state.buttons@, pt); }
    if state.combo_select_mode.is_some() {
        if let Some(idx) = hit {
            toggle_selection(&mut state.combo_select_temp, idx);
            actions.push(Action::Invalidate);
            assert(actions@ =~= seq![Action::SetCapture, Action::Invalidate]);
        } else {
            assert(actions@ =~= seq![Action::SetCapture]);
        }
        return actions;
    }
    match hit {
        Some(idx) => {
            let rect = state.buttons[idx].rect;
            let gid = state.buttons[idx].group_id;
            state.dragging_button_index = Some(idx);
            state.drag_offset = offset_in(&rect, pt);
            if gid != 0 {
                state.active_group_drag_id = Some(gid);
                state.group_drag_start_pt = pt;
            } else {
                state.active_group_drag_id = None;
            }
            let already = match state.mode {
                ProgramMode::ButtonDetail(j) => j == idx,
                _ => false,
            };
            if !already {
                state.mode = ProgramMode::ButtonDetail(idx);
                actions.push(Action::ShowButtonProperties { button: idx });
            }
            proof {
                if already {
                    assert(old(state).mode == ProgramMode::ButtonDetail(idx));
                }
                assert(last_hit(old(state).buttons@, pt) == Some(idx as int));
                let b = old(state).buttons@[idx as int];
                assert(rect == b.rect);
                assert(gid == b.group_id);
                assert(*state == (AppState {
                    dragging_button_index: Some(idx),
                    drag_offset: spec_offset_in(b.rect, pt),
                    active_group_drag_id: if b.group_id != 0 {
                        Some(b.group_id)
                    } else {
                        None
                    },
                    group_drag_start_pt: if b.group_id != 0 {
                        pt
                    } else {
                        old(state).group_drag_start_pt
                    },
                    mode: ProgramMode::ButtonDetail(idx),
                    ..*old(state)
                }));
            }
            assert(actions@ =~= seq![Action::SetCapture] + if old(state).mode == ProgramMode::ButtonDetail(idx) {
                Seq::empty()
            } else {
                seq![Action::ShowButtonProperties { button: idx }]
            });
            actions
        },
        None => {
            match find_group_hit(&state.buttons, pt) {
                Some(g) => {
                    state.active_group_drag_id = Some(g);
                    state.group_drag_start_pt = pt;
                    state.edit_selected_group_id = Some(g);
                    state.mode = ProgramMode::GroupDetail(g);
                    state.dragging_button_index = None;
                    let c = group_category(&state.buttons, g);
                    #[verifier::truncate]
                    let category = c as usize;
                    let instance = position_of_id(&state.buttons, IdFilter::InstancesOf(g), g);
                    actions.push(Action::ShowComboInstance { category, instance, group_id: g });
                    assert(actions@ =~= seq![
                        Action::SetCapture,
                        Action::ShowComboInstance { category, instance, group_id: g },
                    ]);
                    actions
                },
                None => {
                    state.mode = ProgramMode::Editing;
                    state.edit_selected_group_id = None;
                    state.dragging_button_index = None;
                    state.active_group_drag_id = None;
                    actions.push(Action::DestroyPropertyWindow);
                    assert(actions@ =~= seq![Action::SetCapture, Action::DestroyPropertyWindow]);
                    actions
                },
            }
        },
    }
}

/// Handles a left-button press at `pt` (overlay client coordinates): the on-screen
/// keyboard takes the press first when it is shown; otherwise the mouse is captured
/// and the press goes to the buttons (when live) or to the editor.
pub fn on_lbutton_down(state: &mut AppState, pt: Point) -> (actions: Vec<Action>)
    ensures
        lbutton_down_post(*old(state), pt, *final(state), actions@),
{
    state.last_mouse_pos = pt;
    if state.osk_visible {
        let o = state.osk_rect;
        match osk_hit(&o, &state.osk_buttons, pt) {
            OskHit::Close | OskHit::Outside => {
                return close_osk_and_defocus(state);
            },
            OskHit::Title => {
                state.is_dragging_osk = true;
                state.osk_drag_offset = offset_in(&o, pt);
                let mut actions: Vec<Action> = Vec::new();
                actions.push(Action::SetCapture);
                return actions;
            },
            OskHit::Key(k) => {
                return press_osk_key(state, k);
            },
            OskHit::Panel => {
                return Vec::new();
            },
        }
    }
    if mode_is_live(state.mode) {
        match find_last_hit(&state.buttons, pt) {
            Some(i) => {
                proof { crate::hit::lemma_last_hit(state.buttons@, pt); }
                live_press(state, pt, i)
            },
            None => {
                let mut actions: Vec<Action> = Vec::new();
                actions.push(Action::SetCapture);
                actions
            },
        }
    } else if mode_is_editing(state.mode) {
        edit_press(state, pt)
    } else {
        let mut actions: Vec<Action> = Vec::new();
        actions.push(Action::SetCapture);
        actions
    }
}

/// The keys of the on-screen keyboard after the mouse button goes up: all let go when
/// the keyboard is shown.
pub open spec fn keys_after_up(s: AppState) -> Seq<VirtualButton> {
    if s.osk_visible {
        s.osk_buttons@.map_values(|b: VirtualButton| unpressed(b))
    } else {
        s.osk_buttons@
    }
}

/// The buttons with the active stick (if the active touchpad button is one) at rest.
pub open spec fn stick_at_rest(bs: Seq<VirtualButton>, active: Option<usize>) -> Seq<VirtualButton> {
    match active {
        Some(i) => if is_stick(bs[i as int]) {
            bs.update(i as int, VirtualButton { joystick_bits: (0, 0), ..bs[i as int] })
        } else {
            bs
        },
        None => bs,
    }
}

/// Whether the state's indices of a dragged and of an active touchpad button are valid.
pub open spec fn indices_valid(s: AppState) -> bool {
    &&& (s.dragging_button_index matches Some(i) ==> i < s.buttons@.len())
    &&& (s.touchpad_active_button matches Some(i) ==> i < s.buttons@.len())
}

/// Whether the state's active touchpad button, if any, is a button of the state.
pub open spec fn touchpad_index_valid(s: AppState) -> bool {
    s.touchpad_active_button matches Some(i) ==> i < s.buttons@.len()
}

/// Whether the state's active touchpad button, if any, is a button of the state.
pub fn check_touchpad_index(s: &AppState) -> (r: bool)
    ensures
        r == touchpad_index_valid(*s),
{
    match s.touchpad_active_button {
        Some(i) => i < s.buttons.len(),
        None => true,
    }
}

/// Whether the state's indices are valid.
pub fn check_indices(s: &AppState) -> (r: bool)
    ensures
        r == indices_valid(*s),
{
    let d = match s.dragging_button_index {
        Some(i) => i < s.buttons.len(),
        None => true,
    };
    let a = match s.touchpad_active_button {
        Some(i) => i < s.buttons.len(),
        None => true,
    };
    d && a
}

/// `t` and `acts` after the left mouse button goes up in state `s`.
///
/// The capture and any group or keyboard drag end; held keys of a shown keyboard are
/// released; the active stick returns to rest. On a live overlay every held button is
/// let go (a free button taps its key, the keyboard button toggles the keyboard), the
/// drag and touchpad capture end and the gamepad is resynchronised; otherwise only the
/// drag ends.
pub open spec fn lbutton_up_post(s: AppState, t: AppState, acts: Seq<Action>) -> bool {
    let keys = keys_after_up(s);
    let bs1 = stick_at_rest(s.buttons@, s.touchpad_active_button);
    let acts1 = seq![Action::ReleaseCapture] + if s.osk_visible {
        release_actions(s.osk_buttons@, true)
    } else {
        Seq::empty()
    };
    &&& t.osk_buttons@ == keys
    &&& if is_live(s.mode) {
        let toggle = sweep_toggles(bs1);
        &&& t.buttons@ == bs1.map_values(|b: VirtualButton| released_button(b, false))
        &&& t == (AppState {
            buttons: t.buttons,
            osk_buttons: t.osk_buttons,
            active_group_drag_id: None,
            is_dragging_osk: false,
            osk_visible: if toggle && !s.use_system_osk {
                !s.osk_visible
            } else {
                s.osk_visible
            },
            osk_target_text: if toggle && !s.use_system_osk && s.osk_visible {
                None
            } else {
                s.osk_target_text
            },
            dragging_button_index: None,
            touchpad_active_button: None,
            ..s
        })
        &&& acts == acts1 + sweep_actions(bs1) + (if toggle && s.use_system_osk {
            seq![Action::ToggleSystemOsk]
        } else {
            Seq::empty()
        }) + sync_if(s)
    } else {
        &&& t.buttons@ == bs1
        &&& t == (AppState {
            buttons: t.buttons,
            osk_buttons: t.osk_buttons,
            active_group_drag_id: None,
            is_dragging_osk: false,
            dragging_button_index: None,
            ..s
        })
        &&& acts == acts1
    }
}

/// Handles the left mouse button going up.
pub fn on_lbutton_up(state: &mut AppState) -> (actions: Vec<Action>)
    requires
        touchpad_index_valid(*old(state)),
    ensures
        lbutton_up_post(*old(state), *final(state), actions@),
{
    let mut actions: Vec<Action> = Vec::new();
    actions.push(Action::ReleaseCapture);
    state.active_group_drag_id = None;
    state.is_dragging_osk = false;
    if state.osk_visible {
        release_buttons(&mut state.osk_buttons, true, false, &mut actions);
    }
    proof {
        assert(state.osk_buttons@ =~= keys_after_up(*old(state)));
        assert(actions@ =~= seq![Action::ReleaseCapture] + if old(state).osk_visible {
            release_actions(old(state).osk_buttons@, true)
        } else {
            Seq::empty()
        });
    }
    if let Some(idx) = state.touchpad_active_button {
        let kind = get_press_kind(&state.buttons[idx]);
        if kind == PressKind::Stick {
            state.buttons[idx].joystick_bits = (0, 0);
        }
    }
    assert(state.buttons@ =~= stick_at_rest(old(state).buttons@, old(state).touchpad_active_button));
    if mode_is_live(state.mode) {
        let ghost bs1 = state.buttons@;
        let ghost acts1 = actions@;
        let ghost keys = state.osk_buttons@;
        let toggle = release_all(&mut state.buttons, &mut actions);
        assert(state.buttons@ =~= bs1.map_values(|b: VirtualButton| released_button(b, false)));
        let ghost acts2 = actions@;
        if toggle {
            proof {
                if state.osk_visible {
                    assert forall|i: int| 0 <= i < keys.len() implies !(#[trigger] keys[i]).is_pressed by {}
                    lemma_no_release_when_unpressed(keys, true);
                    assert forall|i: int| 0 <= i < keys.len() implies #[trigger] unpressed(keys[i]) == keys[i] by {
                        assert(keys[i] == unpressed(old(state).osk_buttons@[i]));
                    }
                }
            }
            let mut more = toggle_osk(state);
            actions.append(&mut more);
            assert(state.osk_buttons@ =~= keys);
        }
        state.dragging_button_index = None;
        state.touchpad_active_button = None;
        if state.use_virtual_gamepad {
            actions.push(Action::SyncGamepad);
        }
        assert(actions@ =~= acts1 + sweep_actions(bs1) + (if toggle && old(state).use_system_osk {
            seq![Action::ToggleSystemOsk]
        } else {
            Seq::empty()
        }) + sync_if(*old(state)));
    } else {
        state.dragging_button_index = None;
    }
    actions
}

/// `t` and the result `(handled, acts)` after the sidebar item carrying `item_data` is
/// selected in state `s`. Combo picking stops. A positive value `n` selects
/// interaction group `n - 1`; a negative value `-(i + 1)` selects button `i` and opens
/// its property panel unless it is already shown; zero selects nothing.
pub open spec fn tree_item_post(s: AppState, item_data: isize, t: AppState, handled: bool, acts: Seq<Action>) -> bool {
    let s1 = AppState { combo_select_mode: None, combo_select_temp: t.combo_select_temp, ..s };
    &&& t.combo_select_temp@.len() == 0
    &&& if item_data == 0 {
        t == s1 && !handled && acts.len() == 0
    } else if item_data > 0 {
        t == (AppState { group_selected: Some((item_data - 1) as u8), ..s1 }) && !handled && acts.len() == 0
    } else {
        let idx = (-item_data - 1) as usize;
        &&& handled
        &&& t == (AppState { mode: ProgramMode::ButtonDetail(idx), ..s1 })
        &&& acts == if s.mode == ProgramMode::ButtonDetail(idx) {
            Seq::<Action>::empty()
        } else {
            seq![Action::ShowButtonProperties { button: idx }]
        }
    }
}

/// Handles the selection of a sidebar item.
pub fn on_tree_item_selected(state: &mut AppState, item_data: isize) -> (r: (bool, Vec<Action>))
    requires
        item_data != isize::MIN,
    ensures
        tree_item_post(*old(state), item_data, *final(state), r.0, r.1@),
{
    state.combo_select_mode = None;
    state.combo_select_temp.clear();
    let mut actions: Vec<Action> = Vec::new();
    if item_data == 0 {
        return (false, actions);
    }
    if item_data > 0 {
        #[verifier::truncate]
        let g = (item_data - 1) as u8;
        state.group_selected = Some(g);
        return (false, actions);
    }
    let idx = (-item_data - 1) as usize;
    let already = match state.mode {
        ProgramMode::ButtonDetail(i) => i == idx,
        _ => false,
    };
    if !already {
        state.mode = ProgramMode::ButtonDetail(idx);
        actions.push(Action::ShowButtonProperties { button: idx });
        assert(actions@ =~= seq![Action::ShowButtonProperties { button: idx }]);
    }
    (true, actions)
}

} // verus!
