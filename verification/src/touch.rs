//! The overlay's reactions to touch input: each finger is tracked by its pointer id.
use vstd::prelude::*;
use crate::geometry::Point;
use crate::geometry::spec_offset_in;
use crate::geometry::offset_in;
use crate::geometry::spec_moved_to;
use crate::geometry::moved_to;
use crate::geometry::spec_wabs;
use crate::geometry::wabs;
use crate::button::VirtualButton;
use crate::button::ButtonVariant;
use crate::state::Action;
use crate::state::AppState;
use crate::state::TouchRecord;
use crate::state::osk_dismissed;
use crate::state::close_osk_and_defocus;
use crate::state::toggle_osk;
use crate::state::unpressed;
use crate::osk::OskHit;
use crate::osk::spec_osk_hit;
use crate::osk::osk_hit;
use crate::hit::last_hit;
use crate::hit::find_last_hit;
use crate::hit::first_hit;
use crate::hit::find_first_hit;
use crate::press::PressKind;
use crate::press::press_kind;
use crate::press::get_press_kind;
use crate::press::pressed;
use crate::press::press_actions;
use crate::press::press_button;
use crate::press::released_button;
use crate::press::release_actions_of;
use crate::press::release_toggles_osk;
use crate::press::release_button;
use crate::events::sync_if;
use crate::events::osk_key_post;
use crate::events::press_osk_key;
use crate::motion::moved_far;

verus! {

broadcast use vstd::std_specs::hash::group_hash_axioms;

/// The button index recorded for a finger that drags the keyboard panel.
pub const TOUCH_OSK_DRAG_SENTINEL: usize = 9999;

/// The base added to a key code to record a finger that holds a keyboard key.
pub const TOUCH_OSK_KEY_SENTINEL_BASE: usize = 10000;

/// A fresh record of a finger put down at `pt` on button (or sentinel) `idx`.
pub open spec fn new_touch(idx: usize, pt: Point, off: Point) -> TouchRecord {
    TouchRecord { btn_idx: idx, last_pos: pt, start_pos: pt, drag_offset: off }
}

/// `t` and `acts` after finger `pid` goes down at `pt` in state `s`. The keyboard panel
/// takes the touch first when shown (its title bar starts a drag of the panel, a key
/// is pressed and remembered by its code); otherwise the topmost button under the
/// finger is pressed by its kind and remembered with the finger's offset inside it.
pub open spec fn pointer_down_post(s: AppState, pid: u32, pt: Point, t: AppState, acts: Seq<Action>) -> bool {
    if s.osk_visible {
        match spec_osk_hit(s.osk_rect, s.osk_buttons@, pt) {
            OskHit::Close => osk_dismissed(s, s.osk_buttons@, t, acts),
            OskHit::Outside => osk_dismissed(s, s.osk_buttons@, t, acts),
            OskHit::Title => {
                &&& t.active_touches@ == s.active_touches@.insert(
                    pid,
                    new_touch(TOUCH_OSK_DRAG_SENTINEL, pt, Point { x: 0, y: 0 }),
                )
                &&& t == (AppState {
                    active_touches: t.active_touches,
                    is_dragging_osk: true,
                    osk_drag_offset: spec_offset_in(s.osk_rect, pt),
                    ..s
                })
                &&& acts.len() == 0
            },
            OskHit::Key(k) => {
                &&& t.active_touches@ == s.active_touches@.insert(
                    pid,
                    new_touch(
                        (TOUCH_OSK_KEY_SENTINEL_BASE + s.osk_buttons@[k as int].key_code) as usize,
                        pt,
                        Point { x: 0, y: 0 },
                    ),
                )
                &&& osk_key_post(AppState { active_touches: t.active_touches, ..s }, k as int, t, acts)
            },
            OskHit::Panel => t == s && acts.len() == 0,
        }
    } else {
        match last_hit(s.buttons@, pt) {
            Some(i) => {
                let b = s.buttons@[i];
                let k = press_kind(b);
                &&& t.buttons@ == s.buttons@.update(i, pressed(b))
                &&& t.active_touches@ == s.active_touches@.insert(pid, new_touch(i as usize, pt, spec_offset_in(b.rect, pt)))
                &&& t == (AppState {
                    buttons: t.buttons,
                    active_touches: t.active_touches,
                    touchpad_active_button: if (k == PressKind::Stick && b.group == 6) || k == PressKind::Capture {
                        Some(i as usize)
                    } else {
                        s.touchpad_active_button
                    },
                    ..s
                })
                &&& acts == press_actions(b, pt) + sync_if(s)
            },
            None => t == s && acts.len() == 0,
        }
    }
}

/// Handles finger `pid` going down at `pt`.
pub fn on_pointer_down(state: &mut AppState, pid: u32, pt: Point) -> (actions: Vec<Action>)
    ensures
        pointer_down_post(*old(state), pid, pt, *final(state), actions@),
{
    if state.osk_visible {
        let o = state.osk_rect;
        match osk_hit(&o, &state.osk_buttons, pt) {
            OskHit::Close | OskHit::Outside => {
                return close_osk_and_defocus(state);
            },
            OskHit::Title => {
                state.is_dragging_osk = true;
                state.osk_drag_offset = offset_in(&o, pt);
                state.active_touches.insert(
                    pid,
                    TouchRecord { btn_idx: TOUCH_OSK_DRAG_SENTINEL, last_pos: pt, start_pos: pt, drag_offset: Point { x: 0, y: 0 } },
                );
                return Vec::new();
            },
            OskHit::Key(k) => {
                let vk = state.osk_buttons[k].key_code;
                let idx: usize = TOUCH_OSK_KEY_SENTINEL_BASE + vk as usize;
                state.active_touches.insert(
                    pid,
                    TouchRecord { btn_idx: idx, last_pos: pt, start_pos: pt, drag_offset: Point { x: 0, y: 0 } },
                );
                return press_osk_key(state, k);
            },
            OskHit::Panel => {
                return Vec::new();
            },
        }
    }
    match find_last_hit(&state.buttons, pt) {
        Some(i) => {
            proof { crate::hit::lemma_last_hit(state.buttons@, pt); }
            let mut actions: Vec<Action> = Vec::new();
            let rect = state.buttons[i].rect;
            let off = offset_in(&rect, pt);
            let kind = get_press_kind(&state.buttons[i]);
            let group = state.buttons[i].group;
            let mut b = state.buttons[i].clone();
            press_button(&mut b, pt, &mut actions);
            state.buttons.set(i, b);
            if (kind == PressKind::Stick && group == 6) || kind == PressKind::Capture {
                state.touchpad_active_button = Some(i);
            }
            state.active_touches.insert(pid, TouchRecord { btn_idx: i, last_pos: pt, start_pos: pt, drag_offset: off });
            if state.use_virtual_gamepad {
                actions.push(Action::SyncGamepad);
            }
            assert(actions@ =~= press_actions(old(state).buttons@[i as int], pt) + sync_if(*old(state)));
            actions
        },
        None => Vec::new(),
    }
}

/// Whether the record of finger `pid` (if any) names a valid button or a sentinel.
pub open spec fn touch_valid(s: AppState, pid: u32) -> bool {
    s.active_touches@.contains_key(pid) && s.active_touches@[pid].btn_idx < TOUCH_OSK_DRAG_SENTINEL
        ==> s.active_touches@[pid].btn_idx < s.buttons@.len()
}

/// Decides whether the finger `pid` is valid in `s` (see `touch_valid`).
pub fn check_touch(s: &AppState, pid: u32) -> (r: bool)
    ensures
        r == touch_valid(*s, pid),
{
    match s.active_touches.get(&pid) {
        Some(rec) => rec.btn_idx >= TOUCH_OSK_DRAG_SENTINEL || rec.btn_idx < s.buttons.len(),
        None => true,
    }
}

/// The part of the state that a finger move on a button changes, with the redraw flag,
/// the actions and the button the finger is recorded on.
pub struct FingerModel {
    pub buttons: Seq<VirtualButton>,
    pub redraw: bool,
    pub acts: Seq<Action>,
    pub btn_idx: usize,
}

/// A finger recorded by `rec` on button `rec.btn_idx` moves to `pt`. A free button
/// follows the finger (and stops counting as a tap beyond 10 pixels); a held touchpad
/// moves the mouse by the step (when nonzero and under 200 pixels per axis), a held
/// absolute pointer moves it to the point, a held stick or trigger follows the finger;
/// a finger on a slide button (group 2) entering another slide button releases the
/// first, presses the second and moves to it.
#[verifier::opaque]
pub open spec fn finger_move(bs: Seq<VirtualButton>, rec: TouchRecord, pt: Point) -> FingerModel {
    let idx = rec.btn_idx as int;
    let b0 = bs[idx];
    let bs1 = if b0.group == 5 {
        bs.update(idx, VirtualButton {
            is_pressed: if moved_far(pt, rec.start_pos) { false } else { b0.is_pressed },
            rect: spec_moved_to(b0.rect, pt.x.wrapping_sub(rec.drag_offset.x), pt.y.wrapping_sub(rec.drag_offset.y)),
            ..b0
        })
    } else {
        bs
    };
    let r1 = b0.group == 5;
    let cur = bs1[idx];
    let dx = pt.x.wrapping_sub(rec.last_pos.x);
    let dy = pt.y.wrapping_sub(rec.last_pos.y);
    let (acts2, r2) = if !cur.is_pressed {
        (Seq::empty(), false)
    } else if cur.group == 3 {
        (
            if (dx != 0 || dy != 0) && spec_wabs(dx) < 200 && spec_wabs(dy) < 200 {
                seq![Action::MouseRelative { button: rec.btn_idx, dx, dy }]
            } else {
                Seq::empty()
            },
            false,
        )
    } else if cur.group == 4 {
        (seq![Action::MouseAbsolute { pt }], false)
    } else if cur.variant == ButtonVariant::Joystick {
        (
            seq![Action::SetJoystick {
                button: rec.btn_idx,
                dx: pt.x.wrapping_sub(rec.start_pos.x),
                dy: pt.y.wrapping_sub(rec.start_pos.y),
                divisor: 2,
            }],
            true,
        )
    } else if cur.variant == ButtonVariant::Trigger {
        (seq![Action::SetTrigger { button: rec.btn_idx, y: pt.y }], true)
    } else {
        (Seq::empty(), false)
    };
    let hover = first_hit(bs1, pt);
    if cur.group == 2 && (hover matches Some(n) && n != idx && bs1[n].group == 2) {
        let n = hover->0;
        FingerModel {
            buttons: bs1.update(idx, VirtualButton { is_pressed: false, ..cur }).update(n, VirtualButton { is_pressed: true, ..bs1[n] }),
            redraw: true,
            acts: acts2 + seq![
                Action::Key { vk: cur.key_code, down: false },
                Action::Key { vk: bs1[n].key_code, down: true },
            ],
            btn_idx: n as usize,
        }
    } else {
        FingerModel { buttons: bs1, redraw: r1 || r2, acts: acts2, btn_idx: rec.btn_idx }
    }
}

/// `t` and the result `(redraw, acts)` after finger `pid` moves to `pt` in state `s`.
/// An unknown finger changes nothing. A finger dragging the keyboard panel moves it; a
/// finger on a key changes nothing more; a finger on a button moves as `finger_move`
/// says. The finger's last position is updated and the gamepad resynchronised when
/// something changed.
pub open spec fn pointer_update_post(s: AppState, pid: u32, pt: Point, t: AppState, redraw: bool, acts: Seq<Action>) -> bool {
    if !s.active_touches@.contains_key(pid) {
        t == s && !redraw && acts.len() == 0
    } else {
        let rec = s.active_touches@[pid];
        let sync = if redraw && s.use_virtual_gamepad {
            seq![Action::SyncGamepad]
        } else {
            Seq::<Action>::empty()
        };
        if rec.btn_idx == TOUCH_OSK_DRAG_SENTINEL {
            &&& t.active_touches@ == s.active_touches@.insert(pid, TouchRecord { last_pos: pt, ..rec })
            &&& t == (AppState {
                active_touches: t.active_touches,
                osk_rect: if s.is_dragging_osk {
                    spec_moved_to(s.osk_rect, pt.x.wrapping_sub(s.osk_drag_offset.x), pt.y.wrapping_sub(s.osk_drag_offset.y))
                } else {
                    s.osk_rect
                },
                ..s
            })
            &&& redraw == s.is_dragging_osk
            &&& acts == sync
        } else if rec.btn_idx >= TOUCH_OSK_KEY_SENTINEL_BASE {
            &&& t.active_touches@ == s.active_touches@.insert(pid, TouchRecord { last_pos: pt, ..rec })
            &&& t == (AppState { active_touches: t.active_touches, ..s })
            &&& !redraw
            &&& acts.len() == 0
        } else {
            let m = finger_move(s.buttons@, rec, pt);
            &&& t.buttons@ == m.buttons
            &&& t.active_touches@ == s.active_touches@.insert(pid, TouchRecord { btn_idx: m.btn_idx, last_pos: pt, ..rec })
            &&& t == (AppState { buttons: t.buttons, active_touches: t.active_touches, ..s })
            &&& redraw == m.redraw
            &&& acts == m.acts + sync
        }
    }
}

fn finger_move_exec(bs: &mut Vec<VirtualButton>, rec: TouchRecord, pt: Point) -> (r: (bool, Vec<Action>, usize))
    requires
        rec.btn_idx < old(bs)@.len(),
    ensures
        final(bs)@ == finger_move(old(bs)@, rec, pt).buttons,
        r.0 == finger_move(old(bs)@, rec, pt).redraw,
        r.1@ == finger_move(old(bs)@, rec, pt).acts,
        r.2 == finger_move(old(bs)@, rec, pt).btn_idx,
{
    reveal(finger_move);
    let idx = rec.btn_idx;
    let mut redraw = false;
    let mut actions: Vec<Action> = Vec::new();
    if bs[idx].group == 5 {
        let dx = pt.x.wrapping_sub(rec.start_pos.x);
        let dy = pt.y.wrapping_sub(rec.start_pos.y);
        if wabs(dx) > 10 || wabs(dy) > 10 {
            bs[idx].is_pressed = false;
        }
        let r = bs[idx].rect;
        bs[idx].rect = moved_to(&r, pt.x.wrapping_sub(rec.drag_offset.x), pt.y.wrapping_sub(rec.drag_offset.y));
        redraw = true;
    }
    let ghost bs1 = bs@;
    assert(bs1 =~= (if old(bs)@[idx as int].group == 5 {
        old(bs)@.update(idx as int, VirtualButton {
            is_pressed: if moved_far(pt, rec.start_pos) { false } else { old(bs)@[idx as int].is_pressed },
            rect: spec_moved_to(old(bs)@[idx as int].rect, pt.x.wrapping_sub(rec.drag_offset.x), pt.y.wrapping_sub(rec.drag_offset.y)),
            ..old(bs)@[idx as int]
        })
    } else {
        old(bs)@
    }));
    if bs[idx].is_pressed {
        let group = bs[idx].group;
        let variant = bs[idx].variant;
        if group == 3 {
            let dx = pt.x.wrapping_sub(rec.last_pos.x);
            let dy = pt.y.wrapping_sub(rec.last_pos.y);
            if (dx != 0 || dy != 0) && wabs(dx) < 200 && wabs(dy) < 200 {
                actions.push(Action::MouseRelative { button: idx, dx, dy });
            }
        } else if group == 4 {
            actions.push(Action::MouseAbsolute { pt });
        } else if variant == ButtonVariant::Joystick {
            actions.push(Action::SetJoystick {
                button: idx,
                dx: pt.x.wrapping_sub(rec.start_pos.x),
                dy: pt.y.wrapping_sub(rec.start_pos.y),
                divisor: 2,
            });
            redraw = true;
        } else if variant == ButtonVariant::Trigger {
            actions.push(Action::SetTrigger { button: idx, y: pt.y });
            redraw = true;
        }
    }
    let mut new_idx = idx;
    if bs[idx].group == 2 {
        let hover = find_first_hit(bs, pt);
        proof { crate::hit::lemma_first_hit(bs@, pt); }
        if let Some(n) = hover {
            if n != idx && bs[n].group == 2 {
                let vk_old = bs[idx].key_code;
                let vk_new = bs[n].key_code;
                actions.push(Action::Key { vk: vk_old, down: false });
                bs[idx].is_pressed = false;
                actions.push(Action::Key { vk: vk_new, down: true });
                bs[n].is_pressed = true;
                new_idx = n;
                redraw = true;
            }
        }
    }
    proof {
        let m = finger_move(old(bs)@, rec, pt);
        assert(bs@ =~= m.buttons);
        assert(actions@ =~= m.acts);
    }
    (redraw, actions, new_idx)
}

/// Handles finger `pid` moving to `pt`. Returns whether the overlay needs repainting
/// and the actions to perform.
pub fn on_pointer_update(state: &mut AppState, pid: u32, pt: Point) -> (r: (bool, Vec<Action>))
    requires
        touch_valid(*old(state), pid),
    ensures
        pointer_update_post(*old(state), pid, pt, *final(state), r.0, r.1@),
{
    let rec = match state.active_touches.get(&pid) {
        Some(r) => *r,
        None => {
            return (false, Vec::new());
        },
    };
    let mut redraw = false;
    let mut actions: Vec<Action> = Vec::new();
    let mut new_idx = rec.btn_idx;
    if rec.btn_idx == TOUCH_OSK_DRAG_SENTINEL {
        if state.is_dragging_osk {
            let o = state.osk_rect;
            state.osk_rect = moved_to(&o, pt.x.wrapping_sub(state.osk_drag_offset.x), pt.y.wrapping_sub(state.osk_drag_offset.y));
            redraw = true;
        }
    } else if rec.btn_idx < TOUCH_OSK_KEY_SENTINEL_BASE {
        let r = finger_move_exec(&mut state.buttons, rec, pt);
        redraw = r.0;
        actions = r.1;
        new_idx = r.2;
    }
    let ghost acts0 = actions@;
    state.active_touches.insert(pid, TouchRecord { btn_idx: new_idx, last_pos: pt, start_pos: rec.start_pos, drag_offset: rec.drag_offset });
    if redraw && state.use_virtual_gamepad {
        actions.push(Action::SyncGamepad);
    }
    proof {
        assert(actions@ =~= acts0 + if redraw && old(state).use_virtual_gamepad {
            seq![Action::SyncGamepad]
        } else {
            Seq::<Action>::empty()
        });
    }
    (redraw, actions)
}

/// The key-up messages for every key of `keys` with code `kc`, in order.
pub open spec fn key_ups(keys: Seq<VirtualButton>, kc: u16) -> Seq<Action>
    decreases keys.len(),
{
    if keys.len() == 0 {
        Seq::empty()
    } else if keys.last().key_code == kc {
        key_ups(keys.drop_last(), kc).push(Action::OskKey { vk: kc, down: false })
    } else {
        key_ups(keys.drop_last(), kc)
    }
}

/// The keys with every key of code `kc` let go.
pub open spec fn keys_released(keys: Seq<VirtualButton>, kc: u16) -> Seq<VirtualButton> {
    keys.map_values(|b: VirtualButton| if b.key_code == kc { unpressed(b) } else { b })
}

fn release_keys_with_code(keys: &mut Vec<VirtualButton>, kc: u16, actions: &mut Vec<Action>)
    ensures
        final(keys)@ == keys_released(old(keys)@, kc),
        final(actions)@ == old(actions)@ + key_ups(old(keys)@, kc),
{
    let ghost k0 = keys@;
    let ghost a0 = actions@;
    let n = keys.len();
    let mut i: usize = 0;
    while i < n
        invariant
            0 <= i <= n,
            n == k0.len(),
            keys@.len() == n,
            forall|j: int| 0 <= j < i ==> #[trigger] keys@[j] == keys_released(k0, kc)[j],
            forall|j: int| i <= j < n ==> #[trigger] keys@[j] == k0[j],
            actions@ == a0 + key_ups(k0.take(i as int), kc),
        decreases n - i,
    {
        assert(k0.take(i as int + 1).drop_last() =~= k0.take(i as int));
        if keys[i].key_code == kc {
            keys[i].is_pressed = false;
            actions.push(Action::OskKey { vk: kc, down: false });
        }
        i = i + 1;
        assert(actions@ =~= a0 + key_ups(k0.take(i as int), kc));
    }
    assert(k0.take(n as int) =~= k0);
    assert(keys@ =~= keys_released(k0, kc));
}

/// `t` and `acts` after finger `pid` is lifted in state `s`. An unknown finger changes
/// nothing. The finger is forgotten; a panel drag ends; every keyboard key with the
/// recorded code is let go and sent up; a button is released by its kind (a stick
/// returns to rest), a capture it held ends, the keyboard is toggled when it is the
/// keyboard button, and the gamepad is resynchronised.
pub open spec fn pointer_up_post(s: AppState, pid: u32, t: AppState, acts: Seq<Action>) -> bool {
    if !s.active_touches@.contains_key(pid) {
        t == s && acts.len() == 0
    } else {
        let rec = s.active_touches@[pid];
        &&& t.active_touches@ == s.active_touches@.remove(pid)
        &&& if rec.btn_idx == TOUCH_OSK_DRAG_SENTINEL {
            t == (AppState { active_touches: t.active_touches, is_dragging_osk: false, ..s }) && acts.len() == 0
        } else if rec.btn_idx >= TOUCH_OSK_KEY_SENTINEL_BASE {
            let kc = (rec.btn_idx - TOUCH_OSK_KEY_SENTINEL_BASE) as u16;
            &&& t.osk_buttons@ == keys_released(s.osk_buttons@, kc)
            &&& t == (AppState { active_touches: t.active_touches, osk_buttons: t.osk_buttons, ..s })
            &&& acts == key_ups(s.osk_buttons@, kc)
        } else {
            let idx = rec.btn_idx;
            let b = s.buttons@[idx as int];
            let tog = release_toggles_osk(b);
            let closes = tog && !s.use_system_osk && s.osk_visible;
            &&& t.buttons@ == s.buttons@.update(idx as int, released_button(b, true))
            &&& if closes {
                &&& t.osk_buttons@.len() == s.osk_buttons@.len()
                &&& forall|i: int| 0 <= i < s.osk_buttons@.len() ==> #[trigger] t.osk_buttons@[i] == unpressed(s.osk_buttons@[i])
            } else {
                t.osk_buttons == s.osk_buttons
            }
            &&& t == (AppState {
                buttons: t.buttons,
                active_touches: t.active_touches,
                osk_buttons: t.osk_buttons,
                touchpad_active_button: if b.group == 6 && s.touchpad_active_button == Some(idx) {
                    None
                } else {
                    s.touchpad_active_button
                },
                osk_visible: if tog && !s.use_system_osk { !s.osk_visible } else { s.osk_visible },
                is_dragging_osk: if closes { false } else { s.is_dragging_osk },
                osk_target_text: if closes { None } else { s.osk_target_text },
                ..s
            })
            &&& acts == release_actions_of(b) + (if tog { toggle_actions(s) } else { Seq::empty() }) + sync_if(s)
        }
    }
}

/// What toggling the on-screen keyboard sends in state `s`.
pub open spec fn toggle_actions(s: AppState) -> Seq<Action> {
    if s.use_system_osk {
        seq![Action::ToggleSystemOsk]
    } else if s.osk_visible {
        crate::state::release_actions(s.osk_buttons@, true)
    } else {
        Seq::empty()
    }
}

/// Handles finger `pid` being lifted.
pub fn on_pointer_up(state: &mut AppState, pid: u32) -> (actions: Vec<Action>)
    requires
        touch_valid(*old(state), pid),
    ensures
        pointer_up_post(*old(state), pid, *final(state), actions@),
{
    if !state.active_touches.contains_key(&pid) {
        return Vec::new();
    }
    let rec = match state.active_touches.remove(&pid) {
        Some(r) => r,
        None => {
            return Vec::new();
        },
    };
    let mut actions: Vec<Action> = Vec::new();
    if rec.btn_idx == TOUCH_OSK_DRAG_SENTINEL {
        state.is_dragging_osk = false;
        return actions;
    }
    if rec.btn_idx >= TOUCH_OSK_KEY_SENTINEL_BASE {
        #[verifier::truncate]
        let kc = (rec.btn_idx - TOUCH_OSK_KEY_SENTINEL_BASE) as u16;
        release_keys_with_code(&mut state.osk_buttons, kc, &mut actions);
        assert(actions@ =~= key_ups(old(state).osk_buttons@, kc));
        return actions;
    }
    let idx = rec.btn_idx;
    let group = state.buttons[idx].group;
    let mut b = state.buttons[idx].clone();
    let toggle = release_button(&mut b, true, &mut actions);
    state.buttons.set(idx, b);
    if group == 6 && state.touchpad_active_button == Some(idx) {
        state.touchpad_active_button = None;
    }
    let ghost a1 = actions@;
    let ghost u = *state;
    if toggle {
        let mut more = toggle_osk(state);
        actions.append(&mut more);
    }
    let ghost a2 = actions@;
    if state.use_virtual_gamepad {
        actions.push(Action::SyncGamepad);
    }
    proof {
        let rb = release_actions_of(old(state).buttons@[idx as int]);
        let sy = sync_if(*old(state));
        assert(a1 =~= rb);
        assert(actions@ =~= rb + (if toggle { toggle_actions(*old(state)) } else { Seq::empty() }) + sy);
    }
    actions
}


/// Lifting a finger forgets it and leaves every other finger's record as it was; a
/// finger put down and then lifted leaves the records of all fingers as they were
/// before it went down, less any earlier record of that finger.
pub proof fn lemma_down_then_up_forgets(
    s: AppState,
    pid: u32,
    pt: Point,
    t1: AppState,
    a1: Seq<Action>,
    t2: AppState,
    a2: Seq<Action>,
)
    requires
        pointer_down_post(s, pid, pt, t1, a1),
        pointer_up_post(t1, pid, t2, a2),
    ensures
        !t2.active_touches@.contains_key(pid),
        t2.active_touches@ == t1.active_touches@.remove(pid),
        t2.active_touches@ == s.active_touches@.remove(pid),
{
    if !t1.active_touches@.contains_key(pid) {
        assert(t1.active_touches@.remove(pid) =~= t1.active_touches@);
    }
    if s.osk_visible {
        match spec_osk_hit(s.osk_rect, s.osk_buttons@, pt) {
            OskHit::Key(k) => {
                let vk = s.osk_buttons@[k as int].key_code;
                if vk == crate::keys::VK_RETURN {
                    assert(t1.active_touches@ == s.active_touches@.insert(
                        pid,
                        new_touch((TOUCH_OSK_KEY_SENTINEL_BASE + vk) as usize, pt, Point { x: 0, y: 0 }),
                    ));
                }
            },
            _ => {},
        }
    }
    assert(t2.active_touches@ =~= s.active_touches@.remove(pid));
}

} // verus!
