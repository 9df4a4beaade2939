//! Decisions of the application's windows: where input lands, when the editor closes,
//! and what the main menu's commands and settings switches change.
use vstd::prelude::*;
use crate::geometry::Point;
use crate::geometry::SerializableRect;
use crate::geometry::spec_contains;
use crate::geometry::pt_in_rect;
use crate::button::VirtualButton;
use crate::button::ButtonVariant;
use crate::state::Action;
use crate::state::AppState;
use crate::state::ProgramMode;
use crate::state::released;
use crate::state::unpressed;
use crate::state::release_actions;
use crate::state::osk_closed;
use crate::hit::find_first_hit;

verus! {

broadcast use vstd::std_specs::hash::group_hash_axioms;

/// The point packed in a message parameter: signed 16-bit x in the low word, y in the
/// next.
pub open spec fn spec_point_of(l: isize) -> Point {
    Point { x: ((l & 0xFFFF) as i16) as i32, y: (((l >> 16) & 0xFFFF) as i16) as i32 }
}

/// Unpacks the point of a mouse or pointer message.
pub fn point_of(l: isize) -> (p: Point)
    ensures
        p == spec_point_of(l),
{
    #[verifier::truncate]
    let x = (l & 0xFFFF) as i16;
    #[verifier::truncate]
    let y = ((l >> 16) & 0xFFFF) as i16;
    Point { x: x as i32, y: y as i32 }
}

/// The signed wheel turn packed in the high word of a wheel message's parameter.
pub open spec fn spec_wheel_delta(w: usize) -> i16 {
    ((w >> 16) & 0xFFFF) as i16
}

/// Unpacks the wheel turn of a wheel message.
pub fn wheel_delta(w: usize) -> (d: i16)
    ensures
        d == spec_wheel_delta(w),
{
    #[verifier::truncate]
    let d = ((w >> 16) & 0xFFFF) as i16;
    d
}

/// Whether any button of `bs` holds `pt`.
pub open spec fn any_button_at(bs: Seq<VirtualButton>, pt: Point) -> bool {
    exists|i: int| 0 <= i < bs.len() && spec_contains(#[trigger] bs[i].rect, pt)
}

fn button_at(bs: &Vec<VirtualButton>, pt: Point) -> (r: bool)
    ensures
        r == any_button_at(bs@, pt),
{
    let h = find_first_hit(bs, pt);
    proof { crate::hit::lemma_first_hit(bs@, pt); }
    h.is_some()
}

/// Whether the running overlay takes input at `pt` (otherwise it passes through): on a
/// shown keyboard panel, or, while running, on a button.
pub open spec fn spec_overlay_takes(s: AppState, pt: Point) -> bool {
    if s.osk_visible && spec_contains(s.osk_rect, pt) {
        true
    } else if s.mode == ProgramMode::Running {
        any_button_at(s.buttons@, pt)
    } else {
        false
    }
}

/// Decides whether the running overlay takes input at `pt`.
pub fn overlay_takes(s: &AppState, pt: Point) -> (r: bool)
    ensures
        r == spec_overlay_takes(*s, pt),
{
    if s.osk_visible && pt_in_rect(&s.osk_rect, pt) {
        true
    } else if s.mode == ProgramMode::Running {
        button_at(&s.buttons, pt)
    } else {
        false
    }
}

/// Whether the editing overlay takes input at `pt`: on a shown keyboard panel; not
/// over the sidebar window (`sidebar`, when there is one); on a button when live; and
/// everywhere while editing.
pub open spec fn spec_editor_takes(s: AppState, pt: Point, sidebar: Option<SerializableRect>) -> bool {
    if s.osk_visible && spec_contains(s.osk_rect, pt) {
        true
    } else if sidebar matches Some(r) && spec_contains(r, pt) {
        false
    } else if s.mode == ProgramMode::Running || s.mode == ProgramMode::Menu {
        any_button_at(s.buttons@, pt)
    } else {
        s.mode is Editing || s.mode is ButtonDetail || s.mode is GroupDetail
    }
}

/// Decides whether the editing overlay takes input at `pt`.
pub fn editor_takes(s: &AppState, pt: Point, sidebar: Option<SerializableRect>) -> (r: bool)
    ensures
        r == spec_editor_takes(*s, pt, sidebar),
{
    if s.osk_visible && pt_in_rect(&s.osk_rect, pt) {
        return true;
    }
    if let Some(r) = sidebar {
        if pt_in_rect(&r, pt) {
            return false;
        }
    }
    match s.mode {
        ProgramMode::Running | ProgramMode::Menu => button_at(&s.buttons, pt),
        ProgramMode::Editing | ProgramMode::ButtonDetail(_) | ProgramMode::GroupDetail(_) => true,
        _ => false,
    }
}

/// Whether the editor closes after handling input: when the mode went back to the menu
/// or to pause.
pub fn editor_should_close(mode: ProgramMode) -> (r: bool)
    ensures
        r == (mode == ProgramMode::Menu || mode == ProgramMode::Paused),
{
    match mode {
        ProgramMode::Menu | ProgramMode::Paused => true,
        _ => false,
    }
}

/// The button that moves the mouse while held, if any: on a running overlay, the
/// active touchpad button when it is a held stick of group 6.
pub open spec fn spec_mouse_stick(s: AppState) -> Option<usize> {
    match s.touchpad_active_button {
        Some(i) => if s.mode == ProgramMode::Running && i < s.buttons@.len() && s.buttons@[i as int].group == 6
            && s.buttons@[i as int].is_pressed && s.buttons@[i as int].variant == ButtonVariant::Joystick {
            Some(i)
        } else {
            None
        },
        None => None,
    }
}

/// Finds the stick that moves the mouse, if any.
pub fn mouse_stick(s: &AppState) -> (r: Option<usize>)
    ensures
        r == spec_mouse_stick(*s),
{
    match s.touchpad_active_button {
        Some(i) => {
            if s.mode == ProgramMode::Running && i < s.buttons.len() && s.buttons[i].group == 6 && s.buttons[i].is_pressed
                && s.buttons[i].variant == ButtonVariant::Joystick {
                Some(i)
            } else {
                None
            }
        },
        None => None,
    }
}

/// Whether mapping can start: a configuration must be selected.
pub fn can_start_mapping(s: &AppState) -> (r: bool)
    ensures
        r == (s.config_selected is Some),
{
    s.config_selected.is_some()
}

/// Starts mapping: the overlay runs.
pub fn start_mapping(s: &mut AppState)
    ensures
        *final(s) == (AppState { mode: ProgramMode::Running, ..*old(s) }),
{
    s.mode = ProgramMode::Running;
}

/// Stops mapping: everything held is released (as `emergency_release_all_keys`) and the
/// overlay returns to the menu.
pub fn stop_mapping(s: &mut AppState) -> (actions: Vec<Action>)
    ensures
        final(s).buttons@.len() == old(s).buttons@.len(),
        forall|i: int| 0 <= i < old(s).buttons@.len() ==> #[trigger] final(s).buttons@[i] == released(old(s).buttons@[i]),
        final(s).osk_buttons@.len() == old(s).osk_buttons@.len(),
        forall|i: int| 0 <= i < old(s).osk_buttons@.len() ==> #[trigger] final(s).osk_buttons@[i] == unpressed(old(s).osk_buttons@[i]),
        final(s).active_touches@ == Map::<u32, crate::state::TouchRecord>::empty(),
        *final(s) == (AppState {
            buttons: final(s).buttons,
            osk_buttons: final(s).osk_buttons,
            active_touches: final(s).active_touches,
            dragging_button_index: None,
            touchpad_active_button: None,
            mode: ProgramMode::Menu,
            ..osk_closed(*old(s))
        }),
        actions@ == release_actions(old(s).buttons@, false) + release_actions(old(s).osk_buttons@, false) + (if old(s).use_virtual_gamepad {
            seq![Action::SyncGamepad]
        } else {
            Seq::empty()
        }) + seq![Action::CloseSystemOsk],
{
    let actions = s.emergency_release_all_keys();
    s.mode = ProgramMode::Menu;
    actions
}

/// A switch of the settings page.
#[derive(Clone, Copy, Debug, PartialEq, Eq, Structural)]
pub enum Setting {
    AutoStart,
    SystemOsk,
    VirtualGamepad,
    MinimizeToTray,
}

/// Flips a settings switch; returns its new value.
pub fn toggle_setting(s: &mut AppState, which: Setting) -> (on: bool)
    ensures
        which == Setting::AutoStart ==> *final(s) == (AppState { auto_start: !old(s).auto_start, ..*old(s) }) && on == !old(s).auto_start,
        which == Setting::SystemOsk ==> *final(s) == (AppState { use_system_osk: !old(s).use_system_osk, ..*old(s) }) && on == !old(s).use_system_osk,
        which == Setting::VirtualGamepad ==> *final(s) == (AppState { use_virtual_gamepad: !old(s).use_virtual_gamepad, ..*old(s) }) && on == !old(s).use_virtual_gamepad,
        which == Setting::MinimizeToTray ==> *final(s) == (AppState { minimize_to_tray: !old(s).minimize_to_tray, ..*old(s) }) && on == !old(s).minimize_to_tray,
{
    match which {
        Setting::AutoStart => {
            s.auto_start = !s.auto_start;
            s.auto_start
        },
        Setting::SystemOsk => {
            s.use_system_osk = !s.use_system_osk;
            s.use_system_osk
        },
        Setting::VirtualGamepad => {
            s.use_virtual_gamepad = !s.use_virtual_gamepad;
            s.use_virtual_gamepad
        },
        Setting::MinimizeToTray => {
            s.minimize_to_tray = !s.minimize_to_tray;
            s.minimize_to_tray
        },
    }
}

/// Flipping a settings switch twice restores the state.
pub proof fn lemma_toggle_twice(s: AppState, which: Setting)
    ensures
        ({
            let once = match which {
                Setting::AutoStart => AppState { auto_start: !s.auto_start, ..s },
                Setting::SystemOsk => AppState { use_system_osk: !s.use_system_osk, ..s },
                Setting::VirtualGamepad => AppState { use_virtual_gamepad: !s.use_virtual_gamepad, ..s },
                Setting::MinimizeToTray => AppState { minimize_to_tray: !s.minimize_to_tray, ..s },
            };
            let twice = match which {
                Setting::AutoStart => AppState { auto_start: !once.auto_start, ..once },
                Setting::SystemOsk => AppState { use_system_osk: !once.use_system_osk, ..once },
                Setting::VirtualGamepad => AppState { use_virtual_gamepad: !once.use_virtual_gamepad, ..once },
                Setting::MinimizeToTray => AppState { minimize_to_tray: !once.minimize_to_tray, ..once },
            };
            twice == s
        }),
{
}

/// The labels of the settings switches show a check mark when on and a cross when off;
/// this is the mark for `on`.
pub fn switch_mark(on: bool) -> (r: &'static str)
    ensures
        on ==> r@ == "✅"@,
        !on ==> r@ == "❌"@,
{
    if on { "✅" } else { "❌" }
}

/// Whether closing the main window hides it in the tray instead of quitting.
pub fn close_hides_to_tray(s: &AppState) -> (r: bool)
    ensures
        r == s.minimize_to_tray,
{
    s.minimize_to_tray
}

/// Leaves the editor for the menu.
pub fn finish_editing(s: &mut AppState)
    ensures
        *final(s) == (AppState { mode: ProgramMode::Menu, ..*old(s) }),
{
    s.mode = ProgramMode::Menu;
}

/// What leaving the editor with changes does, by the user's answer.
#[derive(Clone, Copy, Debug, PartialEq, Eq, Structural)]
pub enum CloseAnswer {
    Yes,
    No,
    Cancel,
}

/// What the editor does on closing: without unsaved changes it closes; with changes a
/// "yes" saves, a "no" reloads the saved configuration, a "cancel" keeps it open.
#[derive(Clone, Copy, Debug, PartialEq, Eq, Structural)]
pub enum CloseDecision {
    Close,
    SaveAndClose,
    RevertAndClose,
    Stay,
}

/// Decides what closing the editor does.
pub fn editor_close_decision(unsaved: bool, answer: CloseAnswer) -> (d: CloseDecision)
    ensures
        !unsaved ==> d == CloseDecision::Close,
        unsaved && answer == CloseAnswer::Yes ==> d == CloseDecision::SaveAndClose,
        unsaved && answer == CloseAnswer::No ==> d == CloseDecision::RevertAndClose,
        unsaved && answer == CloseAnswer::Cancel ==> d == CloseDecision::Stay,
{
    if !unsaved {
        CloseDecision::Close
    } else {
        match answer {
            CloseAnswer::Yes => CloseDecision::SaveAndClose,
            CloseAnswer::No => CloseDecision::RevertAndClose,
            CloseAnswer::Cancel => CloseDecision::Stay,
        }
    }
}

} // verus!
