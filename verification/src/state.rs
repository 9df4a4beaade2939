//! The application state of the overlay and the actions its decisions produce.
use vstd::prelude::*;
use crate::geometry::Point;
use crate::geometry::SerializableRect;
use crate::button::VirtualButton;
use crate::keys::KeyCategory;

verus! {

broadcast use vstd::std_specs::hash::group_hash_axioms;

/// What the overlay is currently doing.
#[derive(Clone, Copy, Debug, PartialEq, Eq, Structural)]
pub enum ProgramMode {
    Menu,
    Editing,
    Running,
    Paused,
    ButtonDetail(usize),
    GroupDetail(u32),
}

/// One finger on the overlay: which button (or sentinel) it holds and where it is.
#[derive(Clone, Copy, Debug, PartialEq, Eq, Structural)]
pub struct TouchRecord {
    pub btn_idx: usize,
    pub last_pos: Point,
    pub start_pos: Point,
    pub drag_offset: Point,
}

/// A side effect that a decision of the library asks its host to perform, in order.
#[derive(Clone, Copy, Debug, PartialEq, Eq, Structural)]
pub enum Action {
    /// Inject a press (`down`) or release of a virtual key.
    Key { vk: u16, down: bool },
    /// Send a key of the on-screen keyboard: to the focused window when there is one,
    /// otherwise as injected input.
    OskKey { vk: u16, down: bool },
    /// Inject a short tap (press, about 30 ms, release) of a key without blocking.
    TapKey { vk: u16 },
    /// Move the cursor to an absolute screen position.
    MouseAbsolute { pt: Point },
    /// Move the cursor by `(dx, dy)` scaled by the sensitivity of button `button`.
    MouseRelative { button: usize, dx: i32, dy: i32 },
    /// Set the stick position of button `button` from the offset `(dx, dy)`; the full
    /// deflection radius is the button's width divided by `divisor`.
    SetJoystick { button: usize, dx: i32, dy: i32, divisor: i32 },
    /// Set the trigger value of button `button` from the pointer's `y`.
    SetTrigger { button: usize, y: i32 },
    /// Move the keyboard focus from the focused window to its parent.
    Defocus,
    /// Open the system on-screen keyboard if it is closed, close it if it is open.
    ToggleSystemOsk,
    /// Close the system on-screen keyboard if it is open.
    CloseSystemOsk,
    /// Capture the mouse for the overlay window.
    SetCapture,
    /// Release the mouse capture.
    ReleaseCapture,
    /// Show the property panel of a button.
    ShowButtonProperties { button: usize },
    /// Show the panel of instance `instance` (with group id `group_id`) of combo preset
    /// `category`.
    ShowComboInstance { category: usize, instance: usize, group_id: u32 },
    /// Show the panel that adds a button of interaction group `index` (`kind` 1) or a
    /// combo of preset `index` (`kind` 0).
    ShowCategoryAdd { kind: u32, index: usize },
    /// Close the property panel, if one is open.
    DestroyPropertyWindow,
    /// Repaint the window.
    Invalidate,
    /// Send the current button state to the virtual gamepad.
    SyncGamepad,
}

/// The state of the running application that the decisions read and change.
pub struct AppState {
    pub mode: ProgramMode,
    pub buttons: Vec<VirtualButton>,
    pub dragging_button_index: Option<usize>,
    pub drag_offset: Point,
    pub last_mouse_pos: Point,
    pub key_categories: Vec<KeyCategory>,
    pub group_selected: Option<u8>,
    pub touchpad_active_button: Option<usize>,
    pub touchpad_last_pos: Point,
    pub configs: Vec<String>,
    pub configs_dir: String,
    pub config_selected: Option<usize>,
    pub osk_visible: bool,
    pub osk_rect: SerializableRect,
    pub osk_buttons: Vec<VirtualButton>,
    pub osk_target_text: Option<String>,
    pub osk_drag_offset: Point,
    pub is_dragging_osk: bool,
    pub group_drag_start_pt: Point,
    pub active_group_drag_id: Option<u32>,
    pub edit_selected_group_id: Option<u32>,
    pub auto_start: bool,
    pub use_system_osk: bool,
    pub use_virtual_gamepad: bool,
    pub minimize_to_tray: bool,
    pub active_touches: std::collections::HashMap<u32, TouchRecord>,
    pub combo_select_mode: Option<u32>,
    pub combo_select_temp: Vec<usize>,
}

/// A button with its pressed flag cleared.
pub open spec fn unpressed(b: VirtualButton) -> VirtualButton {
    VirtualButton { is_pressed: false, ..b }
}

/// A button with its pressed flag cleared and its stick at rest.
pub open spec fn released(b: VirtualButton) -> VirtualButton {
    VirtualButton { is_pressed: false, joystick_bits: (0, 0), ..b }
}

/// The release actions for the pressed buttons of `bs`, in order: `OskKey` releases
/// when `osk`, `Key` releases otherwise.
pub open spec fn release_actions(bs: Seq<VirtualButton>, osk: bool) -> Seq<Action>
    decreases bs.len(),
{
    if bs.len() == 0 {
        Seq::empty()
    } else {
        let rest = release_actions(bs.drop_last(), osk);
        if bs.last().is_pressed {
            rest.push(
                if osk {
                    Action::OskKey { vk: bs.last().key_code, down: false }
                } else {
                    Action::Key { vk: bs.last().key_code, down: false }
                },
            )
        } else {
            rest
        }
    }
}

/// Clears the pressed flag of every button (and, when `reset_stick`, the stick value),
/// appending a release action for each button that was pressed.
pub(crate) fn release_buttons(bs: &mut Vec<VirtualButton>, osk: bool, reset_stick: bool, actions: &mut Vec<Action>)
    ensures
        final(bs)@.len() == old(bs)@.len(),
        forall|i: int|
            0 <= i < old(bs)@.len() ==> #[trigger] final(bs)@[i] == (if reset_stick {
                released(old(bs)@[i])
            } else {
                unpressed(old(bs)@[i])
            }),
        final(actions)@ == old(actions)@ + release_actions(old(bs)@, osk),
{
    let ghost b0 = bs@;
    let ghost a0 = actions@;
    let n = bs.len();
    let mut i: usize = 0;
    while i < n
        invariant
            0 <= i <= n,
            n == b0.len(),
            bs@.len() == n,
            forall|j: int|
                0 <= j < i ==> #[trigger] bs@[j] == (if reset_stick {
                    released(b0[j])
                } else {
                    unpressed(b0[j])
                }),
            forall|j: int| i <= j < n ==> #[trigger] bs@[j] == b0[j],
            actions@ == a0 + release_actions(b0.take(i as int), osk),
        decreases n - i,
    {
        assert(b0.take(i as int + 1).drop_last() =~= b0.take(i as int));
        if bs[i].is_pressed {
            let vk = bs[i].key_code;
            if osk {
                actions.push(Action::OskKey { vk, down: false });
            } else {
                actions.push(Action::Key { vk, down: false });
            }
        }
        bs[i].is_pressed = false;
        if reset_stick {
            bs[i].joystick_bits = (0, 0);
        }
        i = i + 1;
        assert(actions@ =~= a0 + release_actions(b0.take(i as int), osk));
    }
    assert(b0.take(n as int) =~= b0);
}

/// The on-screen keyboard state after `close_virtual_osk`.
pub open spec fn osk_closed(s: AppState) -> AppState {
    AppState {
        osk_visible: false,
        is_dragging_osk: false,
        osk_target_text: None,
        osk_buttons: s.osk_buttons,
        ..s
    }
}

/// Hides the virtual on-screen keyboard: stops dragging it, forgets its target text
/// and releases every key of it that is held (an `OskKey` release each, in order).
pub fn close_virtual_osk(state: &mut AppState) -> (actions: Vec<Action>)
    ensures
        !final(state).osk_visible,
        !final(state).is_dragging_osk,
        final(state).osk_target_text is None,
        final(state).osk_buttons@.len() == old(state).osk_buttons@.len(),
        forall|i: int|
            0 <= i < old(state).osk_buttons@.len() ==> #[trigger] final(state).osk_buttons@[i]
                == unpressed(old(state).osk_buttons@[i]),
        *final(state) == (AppState { osk_buttons: final(state).osk_buttons, ..osk_closed(*old(state)) }),
        actions@ == release_actions(old(state).osk_buttons@, true),
{
    state.osk_visible = false;
    state.is_dragging_osk = false;
    state.osk_target_text = None;
    let mut actions: Vec<Action> = Vec::new();
    release_buttons(&mut state.osk_buttons, true, false, &mut actions);
    assert(actions@ =~= release_actions(old(state).osk_buttons@, true));
    actions
}

/// Closes both on-screen keyboards: the virtual one (as `close_virtual_osk`) and then
/// the system one.
pub fn close_all_osk(state: &mut AppState) -> (actions: Vec<Action>)
    ensures
        !final(state).osk_visible,
        !final(state).is_dragging_osk,
        final(state).osk_target_text is None,
        final(state).osk_buttons@.len() == old(state).osk_buttons@.len(),
        forall|i: int|
            0 <= i < old(state).osk_buttons@.len() ==> #[trigger] final(state).osk_buttons@[i]
                == unpressed(old(state).osk_buttons@[i]),
        *final(state) == (AppState { osk_buttons: final(state).osk_buttons, ..osk_closed(*old(state)) }),
        actions@ == release_actions(old(state).osk_buttons@, true).push(Action::CloseSystemOsk),
{
    let mut actions = close_virtual_osk(state);
    actions.push(Action::CloseSystemOsk);
    actions
}

/// `t` is `s` after its on-screen keyboard, holding the keys `keys`, was closed and the
/// focus moved away; `acts` is what that sent.
pub open spec fn osk_dismissed(s: AppState, keys: Seq<VirtualButton>, t: AppState, acts: Seq<Action>) -> bool {
    &&& t.osk_buttons@.len() == keys.len()
    &&& forall|i: int| 0 <= i < keys.len() ==> #[trigger] t.osk_buttons@[i] == unpressed(keys[i])
    &&& t == (AppState { osk_buttons: t.osk_buttons, ..osk_closed(s) })
    &&& acts == release_actions(keys, true).push(Action::Defocus)
}

/// Closes the virtual on-screen keyboard and moves the focus away from the window
/// that was typing into it.
pub fn close_osk_and_defocus(state: &mut AppState) -> (actions: Vec<Action>)
    ensures
        osk_dismissed(*old(state), old(state).osk_buttons@, *final(state), actions@),
{
    let mut actions = close_virtual_osk(state);
    actions.push(Action::Defocus);
    actions
}

/// `t` and `acts` after the on-screen keyboard is toggled in state `s`: the system
/// keyboard is toggled by the host when it is the one in use; otherwise a shown virtual
/// keyboard is closed (as `close_virtual_osk`) and a hidden one is shown.
pub open spec fn osk_toggled(s: AppState, t: AppState, acts: Seq<Action>) -> bool {
    if s.use_system_osk {
        t == s && acts == seq![Action::ToggleSystemOsk]
    } else if s.osk_visible {
        &&& t.osk_buttons@.len() == s.osk_buttons@.len()
        &&& forall|i: int| 0 <= i < s.osk_buttons@.len() ==> #[trigger] t.osk_buttons@[i] == unpressed(s.osk_buttons@[i])
        &&& t == (AppState { osk_buttons: t.osk_buttons, ..osk_closed(s) })
        &&& acts == release_actions(s.osk_buttons@, true)
    } else {
        t == (AppState { osk_visible: true, ..s }) && acts.len() == 0
    }
}

/// Shows or hides the on-screen keyboard (see `osk_toggled`).
pub fn toggle_osk(state: &mut AppState) -> (actions: Vec<Action>)
    ensures
        osk_toggled(*old(state), *final(state), actions@),
{
    if state.use_system_osk {
        let mut actions = Vec::new();
        actions.push(Action::ToggleSystemOsk);
        actions
    } else if state.osk_visible {
        close_virtual_osk(state)
    } else {
        state.osk_visible = true;
        Vec::new()
    }
}

/// Whether no button and no key of the on-screen keyboard is held.
pub open spec fn nothing_pressed(s: AppState) -> bool {
    &&& forall|i: int| 0 <= i < s.buttons@.len() ==> !(#[trigger] s.buttons@[i]).is_pressed
    &&& forall|i: int| 0 <= i < s.osk_buttons@.len() ==> !(#[trigger] s.osk_buttons@[i]).is_pressed
}

impl AppState {
    /// Releases everything the user may be holding: each pressed button and each
    /// pressed key of the on-screen keyboard gets a key release (buttons first, in
    /// order), every stick returns to rest, the gamepad is resynchronised when it is in
    /// use, both on-screen keyboards close and all touches, drags and touchpad captures
    /// are forgotten.
    pub fn emergency_release_all_keys(&mut self) -> (actions: Vec<Action>)
        ensures
            nothing_pressed(*final(self)),
            final(self).buttons@.len() == old(self).buttons@.len(),
            forall|i: int|
                0 <= i < old(self).buttons@.len() ==> #[trigger] final(self).buttons@[i]
                    == released(old(self).buttons@[i]),
            final(self).osk_buttons@.len() == old(self).osk_buttons@.len(),
            forall|i: int|
                0 <= i < old(self).osk_buttons@.len() ==> #[trigger] final(self).osk_buttons@[i]
                    == unpressed(old(self).osk_buttons@[i]),
            final(self).active_touches@ == Map::<u32, TouchRecord>::empty(),
            *final(self) == (AppState {
                buttons: final(self).buttons,
                osk_buttons: final(self).osk_buttons,
                active_touches: final(self).active_touches,
                dragging_button_index: None,
                touchpad_active_button: None,
                ..osk_closed(*old(self))
            }),
            actions@ == release_actions(old(self).buttons@, false) + release_actions(
                old(self).osk_buttons@,
                false,
            ) + (if old(self).use_virtual_gamepad {
                seq![Action::SyncGamepad]
            } else {
                Seq::empty()
            }) + seq![Action::CloseSystemOsk],
    {
        let mut actions: Vec<Action> = Vec::new();
        release_buttons(&mut self.buttons, false, true, &mut actions);
        release_buttons(&mut self.osk_buttons, false, false, &mut actions);
        let ghost mid = actions@;
        if self.use_virtual_gamepad {
            actions.push(Action::SyncGamepad);
        }
        let ghost osk_before = self.osk_buttons@;
        let mut rest = close_all_osk(self);
        proof {
            assert(release_actions(osk_before, true) =~= Seq::<Action>::empty()) by {
                lemma_no_release_when_unpressed(osk_before, true);
            }
            assert forall|i: int| 0 <= i < osk_before.len() implies #[trigger] self.osk_buttons@[i]
                == unpressed(old(self).osk_buttons@[i]) by {
                assert(osk_before[i] == unpressed(old(self).osk_buttons@[i]));
            }
        }
        actions.append(&mut rest);
        self.active_touches.clear();
        self.dragging_button_index = None;
        self.touchpad_active_button = None;
        actions
    }
}

/// A sequence with no pressed button yields no release actions.
pub proof fn lemma_no_release_when_unpressed(bs: Seq<VirtualButton>, osk: bool)
    requires
        forall|i: int| 0 <= i < bs.len() ==> !(#[trigger] bs[i]).is_pressed,
    ensures
        release_actions(bs, osk) == Seq::<Action>::empty(),
    decreases bs.len(),
{
    if bs.len() > 0 {
        assert(!bs[bs.len() - 1].is_pressed);
        lemma_no_release_when_unpressed(bs.drop_last(), osk);
    }
}

} // verus!
