//! The overlay's reaction to the mouse moving: dragging, sliding between buttons and
//! driving touchpads and analog controls.
use vstd::prelude::*;
use crate::geometry::Point;
use crate::geometry::SerializableRect;
use crate::geometry::spec_moved_to;
use crate::geometry::moved_to;
use crate::geometry::spec_shift;
use crate::geometry::shift_rect;
use crate::geometry::spec_wabs;
use crate::geometry::wabs;
use crate::button::VirtualButton;
use crate::button::ButtonVariant;
use crate::state::Action;
use crate::state::AppState;
use crate::state::ProgramMode;
use crate::hit::first_hit;
use crate::hit::find_first_hit;
use crate::snap::spec_snap;
use crate::snap::calculate_snap;
use crate::events::is_live;
use crate::events::mode_is_live;
use crate::events::indices_valid;

verus! {

/// The part of the state that a mouse move changes, with the redraw flag and the
/// actions gathered so far.
pub struct MoveModel {
    pub buttons: Seq<VirtualButton>,
    pub osk_rect: SerializableRect,
    pub dragging: Option<usize>,
    pub group_drag_start_pt: Point,
    pub touchpad_last_pos: Point,
    pub redraw: bool,
    pub acts: Seq<Action>,
}

/// The model of a state before the move.
pub open spec fn move_start(s: AppState) -> MoveModel {
    MoveModel {
        buttons: s.buttons@,
        osk_rect: s.osk_rect,
        dragging: s.dragging_button_index,
        group_drag_start_pt: s.group_drag_start_pt,
        touchpad_last_pos: s.touchpad_last_pos,
        redraw: false,
        acts: Seq::empty(),
    }
}

/// Whether `t` is `s` with the fields of `m` in place.
pub open spec fn holds_model(s: AppState, m: MoveModel, t: AppState) -> bool {
    &&& t.buttons@ == m.buttons
    &&& t == (AppState {
        buttons: t.buttons,
        osk_rect: m.osk_rect,
        dragging_button_index: m.dragging,
        group_drag_start_pt: m.group_drag_start_pt,
        touchpad_last_pos: m.touchpad_last_pos,
        ..s
    })
}

/// The rectangle a button snaps to when dragged in the editor so that the pointer
/// keeps its offset `off` from the top-left corner.
pub open spec fn edit_drag_rect(bs: Seq<VirtualButton>, idx: int, pt: Point, off: Point) -> SerializableRect {
    let r = bs[idx].rect;
    let w = r.right.wrapping_sub(r.left);
    let h = r.bottom.wrapping_sub(r.top);
    let l = pt.x.wrapping_sub(off.x);
    let t = pt.y.wrapping_sub(off.y);
    let snapped = spec_snap(idx, SerializableRect { left: l, top: t, right: l.wrapping_add(w), bottom: t.wrapping_add(h) }, bs, 10);
    SerializableRect { left: snapped.0, top: snapped.1, right: snapped.0.wrapping_add(w), bottom: snapped.1.wrapping_add(h) }
}

/// Whether the pointer moved more than 10 pixels on an axis from `start`.
pub open spec fn moved_far(pt: Point, start: Point) -> bool {
    spec_wabs(pt.x.wrapping_sub(start.x)) > 10 || spec_wabs(pt.y.wrapping_sub(start.y)) > 10
}

/// The buttons of group `gid` moved by `(dx, dy)`.
pub open spec fn shift_group(bs: Seq<VirtualButton>, gid: u32, dx: i32, dy: i32) -> Seq<VirtualButton> {
    bs.map_values(|b: VirtualButton| if b.group_id == gid {
        VirtualButton { rect: spec_shift(b.rect, dx, dy), ..b }
    } else {
        b
    })
}

/// The drag part of a move to `pt`: the keyboard panel when it is being dragged;
/// otherwise the dragged button (snapped in the editor; a free button on a live
/// overlay, which stops counting as a tap once it moved more than 10 pixels); otherwise
/// the dragged group.
#[verifier::opaque]
pub open spec fn drag_step(s: AppState, pt: Point) -> MoveModel {
    let m = move_start(s);
    if s.is_dragging_osk {
        MoveModel {
            osk_rect: spec_moved_to(s.osk_rect, pt.x.wrapping_sub(s.osk_drag_offset.x), pt.y.wrapping_sub(s.osk_drag_offset.y)),
            redraw: true,
            ..m
        }
    } else if let Some(idx) = s.dragging_button_index {
        let b = s.buttons@[idx as int];
        if s.mode is Editing || s.mode is ButtonDetail {
            MoveModel {
                buttons: s.buttons@.update(idx as int, VirtualButton { rect: edit_drag_rect(s.buttons@, idx as int, pt, s.drag_offset), ..b }),
                redraw: true,
                ..m
            }
        } else if b.group == 5 && is_live(s.mode) {
            MoveModel {
                buttons: s.buttons@.update(idx as int, VirtualButton {
                    is_pressed: if moved_far(pt, s.group_drag_start_pt) { false } else { b.is_pressed },
                    rect: spec_moved_to(b.rect, pt.x.wrapping_sub(s.drag_offset.x), pt.y.wrapping_sub(s.drag_offset.y)),
                    ..b
                }),
                redraw: true,
                ..m
            }
        } else {
            m
        }
    } else if let Some(gid) = s.active_group_drag_id {
        MoveModel {
            buttons: shift_group(s.buttons@, gid, pt.x.wrapping_sub(s.group_drag_start_pt.x), pt.y.wrapping_sub(s.group_drag_start_pt.y)),
            group_drag_start_pt: pt,
            redraw: true,
            ..m
        }
    } else {
        m
    }
}

/// An optional position as an optional index.
pub open spec fn opt_usize(r: Option<int>) -> Option<usize> {
    match r {
        Some(i) => Some(i as usize),
        None => None,
    }
}

/// The slide part of a move on a live overlay with the button held: when the pointer
/// enters another button than the dragged one (and no free button is being dragged), a
/// slide button (group 2) left behind is released, a slide button entered is pressed,
/// and the entered button becomes the dragged one.
#[verifier::opaque]
pub open spec fn slide_step(s: AppState, m: MoveModel, pt: Point, held: bool) -> MoveModel {
    let hover = opt_usize(first_hit(m.buttons, pt));
    let free = match m.dragging {
        Some(i) => m.buttons[i as int].group == 5,
        None => false,
    };
    if !is_live(s.mode) || !held || free || hover == m.dragging {
        m
    } else {
        let (bs1, acts1) = match m.dragging {
            Some(o) => if m.buttons[o as int].group == 2 {
                (
                    m.buttons.update(o as int, VirtualButton { is_pressed: false, ..m.buttons[o as int] }),
                    m.acts.push(Action::Key { vk: m.buttons[o as int].key_code, down: false }),
                )
            } else {
                (m.buttons, m.acts)
            },
            None => (m.buttons, m.acts),
        };
        let (bs2, acts2) = match hover {
            Some(n) => if bs1[n as int].group == 2 {
                (
                    bs1.update(n as int, VirtualButton { is_pressed: true, ..bs1[n as int] }),
                    acts1.push(Action::Key { vk: bs1[n as int].key_code, down: true }),
                )
            } else {
                (bs1, acts1)
            },
            None => (bs1, acts1),
        };
        MoveModel { buttons: bs2, dragging: hover, redraw: true, acts: acts2, ..m }
    }
}

/// The touchpad part of a move: a held touchpad (live) moves the mouse by the step
/// when it is nonzero and under 200 pixels on both axes; a held absolute pointer (live)
/// moves the mouse to the point; a held stick or trigger follows the point.
#[verifier::opaque]
pub open spec fn touch_step(s: AppState, m: MoveModel, pt: Point) -> MoveModel {
    match s.touchpad_active_button {
        Some(idx) => {
            let b = m.buttons[idx as int];
            let dx = pt.x.wrapping_sub(m.touchpad_last_pos.x);
            let dy = pt.y.wrapping_sub(m.touchpad_last_pos.y);
            if !b.is_pressed {
                m
            } else if b.group == 3 && is_live(s.mode) {
                MoveModel {
                    touchpad_last_pos: pt,
                    acts: if (dx != 0 || dy != 0) && spec_wabs(dx) < 200 && spec_wabs(dy) < 200 {
                        m.acts.push(Action::MouseRelative { button: idx, dx, dy })
                    } else {
                        m.acts
                    },
                    ..m
                }
            } else if b.group == 4 && is_live(s.mode) {
                MoveModel { touchpad_last_pos: pt, acts: m.acts.push(Action::MouseAbsolute { pt }), ..m }
            } else if b.variant == ButtonVariant::Joystick {
                MoveModel {
                    redraw: true,
                    acts: m.acts.push(Action::SetJoystick {
                        button: idx,
                        dx,
                        dy,
                        divisor: if s.mode == ProgramMode::Running { 2 } else { 1 },
                    }),
                    ..m
                }
            } else if b.variant == ButtonVariant::Trigger {
                MoveModel { redraw: true, acts: m.acts.push(Action::SetTrigger { button: idx, y: pt.y }), ..m }
            } else {
                m
            }
        },
        None => m,
    }
}

/// The whole reaction to a move to `pt` (`held`: whether the left button is down),
/// before the gamepad synchronisation.
pub open spec fn move_model(s: AppState, pt: Point, held: bool) -> MoveModel {
    touch_step(s, slide_step(s, drag_step(s, pt), pt, held), pt)
}

/// `t` and the result `(redraw, acts)` after the mouse moves to `pt` in state `s`.
/// A move to the position already recorded changes nothing; otherwise the drag, slide
/// and touchpad parts run in turn, the gamepad is resynchronised when something
/// changed on a live overlay, and the position is recorded.
pub open spec fn mouse_move_post(s: AppState, pt: Point, held: bool, t: AppState, redraw: bool, acts: Seq<Action>) -> bool {
    if pt == s.last_mouse_pos {
        t == s && !redraw && acts.len() == 0
    } else {
        let m = move_model(s, pt, held);
        &&& holds_model(AppState { last_mouse_pos: pt, ..s }, m, t)
        &&& redraw == m.redraw
        &&& acts == m.acts + if m.redraw && is_live(s.mode) && s.use_virtual_gamepad {
            seq![Action::SyncGamepad]
        } else {
            Seq::empty()
        }
    }
}

fn drag_phase(state: &mut AppState, pt: Point) -> (redraw: bool)
    requires
        indices_valid(*old(state)),
    ensures
        holds_model(*old(state), drag_step(*old(state), pt), *final(state)),
        redraw == drag_step(*old(state), pt).redraw,
        drag_step(*old(state), pt).acts == Seq::<Action>::empty(),
        drag_step(*old(state), pt).buttons.len() == old(state).buttons@.len(),
        drag_step(*old(state), pt).dragging == old(state).dragging_button_index,
{
    reveal(drag_step);
    if state.is_dragging_osk {
        let o = state.osk_rect;
        state.osk_rect = moved_to(&o, pt.x.wrapping_sub(state.osk_drag_offset.x), pt.y.wrapping_sub(state.osk_drag_offset.y));
        return true;
    }
    if let Some(idx) = state.dragging_button_index {
        let editing = match state.mode {
            ProgramMode::Editing | ProgramMode::ButtonDetail(_) => true,
            _ => false,
        };
        if editing {
            let r = state.buttons[idx].rect;
            let w = r.right.wrapping_sub(r.left);
            let h = r.bottom.wrapping_sub(r.top);
            let l = pt.x.wrapping_sub(state.drag_offset.x);
            let t = pt.y.wrapping_sub(state.drag_offset.y);
            let snapped = calculate_snap(idx, SerializableRect { left: l, top: t, right: l.wrapping_add(w), bottom: t.wrapping_add(h) }, &state.buttons, 10);
            let nr = SerializableRect { left: snapped.0, top: snapped.1, right: snapped.0.wrapping_add(w), bottom: snapped.1.wrapping_add(h) };
            state.buttons[idx].rect = nr;
            assert(state.buttons@ =~= drag_step(*old(state), pt).buttons);
            return true;
        } else if state.buttons[idx].group == 5 && mode_is_live(state.mode) {
            let dx = pt.x.wrapping_sub(state.group_drag_start_pt.x);
            let dy = pt.y.wrapping_sub(state.group_drag_start_pt.y);
            if wabs(dx) > 10 || wabs(dy) > 10 {
                state.buttons[idx].is_pressed = false;
            }
            let r = state.buttons[idx].rect;
            let nr = moved_to(&r, pt.x.wrapping_sub(state.drag_offset.x), pt.y.wrapping_sub(state.drag_offset.y));
            state.buttons[idx].rect = nr;
            assert(state.buttons@ =~= drag_step(*old(state), pt).buttons);
            return true;
        }
        return false;
    }
    if let Some(gid) = state.active_group_drag_id {
        let dx = pt.x.wrapping_sub(state.group_drag_start_pt.x);
        let dy = pt.y.wrapping_sub(state.group_drag_start_pt.y);
        let ghost b0 = state.buttons@;
        let n = state.buttons.len();
        let mut i: usize = 0;
        while i < n
            invariant
                0 <= i <= n,
                n == b0.len(),
                state.buttons@.len() == n,
                forall|j: int| 0 <= j < i ==> #[trigger] state.buttons@[j] == shift_group(b0, gid, dx, dy)[j],
                forall|j: int| i <= j < n ==> #[trigger] state.buttons@[j] == b0[j],
                *state == (AppState { buttons: state.buttons, ..*old(state) }),
            decreases n - i,
        {
            if state.buttons[i].group_id == gid {
                let r = state.buttons[i].rect;
                state.buttons[i].rect = shift_rect(&r, dx, dy);
            }
            i = i + 1;
        }
        assert(state.buttons@ =~= shift_group(b0, gid, dx, dy));
        state.group_drag_start_pt = pt;
        return true;
    }
    false
}

fn slide_phase(state: &mut AppState, pt: Point, held: bool, actions: &mut Vec<Action>, Ghost(s0): Ghost<AppState>, Ghost(m): Ghost<MoveModel>) -> (redraw: bool)
    requires
        holds_model(s0, m, *old(state)),
        old(actions)@ == m.acts,
        m.dragging matches Some(i) ==> i < m.buttons.len(),
    ensures
        holds_model(s0, slide_step(s0, m, pt, held), *final(state)),
        final(actions)@ == slide_step(s0, m, pt, held).acts,
        redraw == (slide_step(s0, m, pt, held).redraw && slide_step(s0, m, pt, held) != m),
        slide_step(s0, m, pt, held).redraw == (m.redraw || slide_step(s0, m, pt, held) != m),
        slide_step(s0, m, pt, held).buttons.len() == m.buttons.len(),
{
    reveal(slide_step);
    if !mode_is_live(state.mode) || !held {
        return false;
    }
    let hover = find_first_hit(&state.buttons, pt);
    proof { crate::hit::lemma_first_hit(state.buttons@, pt); }
    let free = match state.dragging_button_index {
        Some(i) => state.buttons[i].group == 5,
        None => false,
    };
    if free || hover == state.dragging_button_index {
        proof {
            assert(opt_usize(first_hit(m.buttons, pt)) == hover);
        }
        return false;
    }
    if let Some(o) = state.dragging_button_index {
        if state.buttons[o].group == 2 {
            let vk = state.buttons[o].key_code;
            actions.push(Action::Key { vk, down: false });
            state.buttons[o].is_pressed = false;
        }
    }
    if let Some(n) = hover {
        if state.buttons[n].group == 2 {
            let vk = state.buttons[n].key_code;
            actions.push(Action::Key { vk, down: true });
            state.buttons[n].is_pressed = true;
        }
    }
    state.dragging_button_index = hover;
    proof {
        assert(opt_usize(first_hit(m.buttons, pt)) == hover);
        let r = slide_step(s0, m, pt, held);
        assert(state.buttons@ =~= r.buttons);
        assert(actions@ =~= r.acts);
        assert(r != m) by {
            assert(r.dragging != m.dragging);
        }
    }
    true
}

fn touch_phase(state: &mut AppState, pt: Point, actions: &mut Vec<Action>, Ghost(s0): Ghost<AppState>, Ghost(m): Ghost<MoveModel>) -> (redraw: bool)
    requires
        holds_model(s0, m, *old(state)),
        old(actions)@ == m.acts,
        s0.touchpad_active_button matches Some(i) ==> i < m.buttons.len(),
    ensures
        holds_model(s0, touch_step(s0, m, pt), *final(state)),
        final(actions)@ == touch_step(s0, m, pt).acts,
        touch_step(s0, m, pt).redraw == (m.redraw || redraw),
{
    reveal(touch_step);
    if let Some(idx) = state.touchpad_active_button {
        if !state.buttons[idx].is_pressed {
            return false;
        }
        let live = mode_is_live(state.mode);
        let dx = pt.x.wrapping_sub(state.touchpad_last_pos.x);
        let dy = pt.y.wrapping_sub(state.touchpad_last_pos.y);
        let group = state.buttons[idx].group;
        let variant = state.buttons[idx].variant;
        if group == 3 && live {
            if (dx != 0 || dy != 0) && wabs(dx) < 200 && wabs(dy) < 200 {
                actions.push(Action::MouseRelative { button: idx, dx, dy });
            }
            state.touchpad_last_pos = pt;
            false
        } else if group == 4 && live {
            actions.push(Action::MouseAbsolute { pt });
            state.touchpad_last_pos = pt;
            false
        } else if variant == ButtonVariant::Joystick {
            let divisor: i32 = if state.mode == ProgramMode::Running { 2 } else { 1 };
            actions.push(Action::SetJoystick { button: idx, dx, dy, divisor });
            true
        } else if variant == ButtonVariant::Trigger {
            actions.push(Action::SetTrigger { button: idx, y: pt.y });
            true
        } else {
            false
        }
    } else {
        false
    }
}

/// Handles the mouse moving to `pt`; `held` tells whether the left button is down.
/// Returns whether the overlay needs repainting and the actions to perform.
pub fn on_mouse_move(state: &mut AppState, pt: Point, held: bool) -> (r: (bool, Vec<Action>))
    requires
        indices_valid(*old(state)),
    ensures
        mouse_move_post(*old(state), pt, held, *final(state), r.0, r.1@),
{
    let mut actions: Vec<Action> = Vec::new();
    if pt == state.last_mouse_pos {
        return (false, actions);
    }
    let ghost s0 = *state;
    let r1 = drag_phase(state, pt);
    let ghost m1 = drag_step(s0, pt);
    let r2 = slide_phase(state, pt, held, &mut actions, Ghost(s0), Ghost(m1));
    let ghost m2 = slide_step(s0, m1, pt, held);
    assert(m2.buttons.len() == s0.buttons@.len());
    let r3 = touch_phase(state, pt, &mut actions, Ghost(s0), Ghost(m2));
    let ghost m3 = touch_step(s0, m2, pt);
    let redraw = r1 || r2 || r3;
    assert(redraw == m3.redraw);
    if redraw && mode_is_live(state.mode) && state.use_virtual_gamepad {
        actions.push(Action::SyncGamepad);
    }
    state.last_mouse_pos = pt;
    proof {
        assert(holds_model(AppState { last_mouse_pos: pt, ..s0 }, m3, *state));
        assert(actions@ =~= m3.acts + if m3.redraw && is_live(s0.mode) && s0.use_virtual_gamepad {
            seq![Action::SyncGamepad]
        } else {
            Seq::empty()
        });
    }
    (redraw, actions)
}

} // verus!
