//! What pressing and releasing a single button does, by its kind.
use vstd::prelude::*;
use crate::geometry::Point;
use crate::button::VirtualButton;
use crate::button::ButtonVariant;
use crate::state::Action;

verus! {

/// Whether a button is an analog stick or an analog trigger.
pub open spec fn is_stick(b: VirtualButton) -> bool {
    b.variant == ButtonVariant::Joystick || b.variant == ButtonVariant::Trigger
}

/// How a button reacts to a press, in the order the rules are tried.
#[derive(Clone, Copy, Debug, PartialEq, Eq, Structural)]
pub enum PressKind {
    /// An analog stick or trigger.
    Stick,
    /// A free button (group 5): it can be dragged around and taps its key on release.
    Free,
    /// The button that shows or hides the on-screen keyboard.
    OskToggle,
    /// A toggle (group 1): each press flips it and sends the new key state.
    Toggle,
    /// A touchpad (group 3): moving on it moves the mouse relatively.
    Touchpad,
    /// An absolute pointer (group 4): moves the mouse to the touch and holds its key.
    Absolute,
    /// A capturing area (group 6).
    Capture,
    /// An ordinary key: held while pressed.
    Plain,
}

/// The kind of a button.
pub open spec fn press_kind(b: VirtualButton) -> PressKind {
    if is_stick(b) {
        PressKind::Stick
    } else if b.group == 5 {
        PressKind::Free
    } else if b.variant == ButtonVariant::OSKToggle {
        PressKind::OskToggle
    } else if b.group == 1 {
        PressKind::Toggle
    } else if b.group == 3 {
        PressKind::Touchpad
    } else if b.group == 4 {
        PressKind::Absolute
    } else if b.group == 6 {
        PressKind::Capture
    } else {
        PressKind::Plain
    }
}

/// Computes the kind of a button.
pub fn get_press_kind(b: &VirtualButton) -> (k: PressKind)
    ensures
        k == press_kind(*b),
{
    if b.variant == ButtonVariant::Joystick || b.variant == ButtonVariant::Trigger {
        PressKind::Stick
    } else if b.group == 5 {
        PressKind::Free
    } else if b.variant == ButtonVariant::OSKToggle {
        PressKind::OskToggle
    } else if b.group == 1 {
        PressKind::Toggle
    } else if b.group == 3 {
        PressKind::Touchpad
    } else if b.group == 4 {
        PressKind::Absolute
    } else if b.group == 6 {
        PressKind::Capture
    } else {
        PressKind::Plain
    }
}

/// The button after a press: a toggle flips, every other button is held.
pub open spec fn pressed(b: VirtualButton) -> VirtualButton {
    VirtualButton { is_pressed: if press_kind(b) == PressKind::Toggle { !b.is_pressed } else { true }, ..b }
}

/// The input a press at `pt` sends.
pub open spec fn press_actions(b: VirtualButton, pt: Point) -> Seq<Action> {
    match press_kind(b) {
        PressKind::Toggle => seq![Action::Key { vk: b.key_code, down: !b.is_pressed }],
        PressKind::Absolute => seq![Action::MouseAbsolute { pt }, Action::Key { vk: b.key_code, down: true }],
        PressKind::Plain => seq![Action::Key { vk: b.key_code, down: true }],
        _ => Seq::empty(),
    }
}

/// Presses a button at `pt`, appending the input it sends.
pub fn press_button(b: &mut VirtualButton, pt: Point, actions: &mut Vec<Action>)
    ensures
        *final(b) == pressed(*old(b)),
        final(actions)@ == old(actions)@ + press_actions(*old(b), pt),
{
    let kind = get_press_kind(b);
    let vk = b.key_code;
    match kind {
        PressKind::Toggle => {
            b.is_pressed = !b.is_pressed;
            actions.push(Action::Key { vk, down: b.is_pressed });
        },
        PressKind::Absolute => {
            b.is_pressed = true;
            actions.push(Action::MouseAbsolute { pt });
            actions.push(Action::Key { vk, down: true });
        },
        PressKind::Plain => {
            b.is_pressed = true;
            actions.push(Action::Key { vk, down: true });
        },
        _ => {
            b.is_pressed = true;
        },
    }
    assert(actions@ =~= old(actions)@ + press_actions(*old(b), pt));
}

/// The button after the finger or mouse leaves it. A held free button, keyboard toggle
/// or absolute pointer is let go, so is a held ordinary key (but not a toggle), and a
/// stick is let go (and returns to rest when `reset_stick`).
pub open spec fn released_button(b: VirtualButton, reset_stick: bool) -> VirtualButton {
    if b.group == 5 || b.variant == ButtonVariant::OSKToggle {
        VirtualButton { is_pressed: false, ..b }
    } else if b.group == 4 && b.is_pressed {
        VirtualButton { is_pressed: false, ..b }
    } else if b.group != 1 && b.is_pressed && b.variant == ButtonVariant::Normal {
        VirtualButton { is_pressed: false, ..b }
    } else if is_stick(b) {
        if reset_stick {
            VirtualButton { is_pressed: false, joystick_bits: (0, 0), ..b }
        } else {
            VirtualButton { is_pressed: false, ..b }
        }
    } else {
        b
    }
}

/// The input a release sends: a tap for a held free button, a key release for a held
/// absolute pointer or ordinary key.
pub open spec fn release_actions_of(b: VirtualButton) -> Seq<Action> {
    if b.group == 5 || b.variant == ButtonVariant::OSKToggle {
        if b.is_pressed && b.variant != ButtonVariant::OSKToggle {
            seq![Action::TapKey { vk: b.key_code }]
        } else {
            Seq::empty()
        }
    } else if (b.group == 4 && b.is_pressed) || (b.group != 1 && b.is_pressed && b.variant
        == ButtonVariant::Normal) {
        seq![Action::Key { vk: b.key_code, down: false }]
    } else {
        Seq::empty()
    }
}

/// Whether releasing the button asks for the on-screen keyboard to be toggled: a held
/// keyboard toggle button.
pub open spec fn release_toggles_osk(b: VirtualButton) -> bool {
    (b.group == 5 || b.variant == ButtonVariant::OSKToggle) && b.is_pressed && b.variant
        == ButtonVariant::OSKToggle
}

/// Releases one button, appending the input it sends; returns whether the on-screen
/// keyboard is to be toggled.
pub fn release_button(b: &mut VirtualButton, reset_stick: bool, actions: &mut Vec<Action>) -> (toggle: bool)
    ensures
        *final(b) == released_button(*old(b), reset_stick),
        final(actions)@ == old(actions)@ + release_actions_of(*old(b)),
        toggle == release_toggles_osk(*old(b)),
{
    let vk = b.key_code;
    let mut toggle = false;
    if b.group == 5 || b.variant == ButtonVariant::OSKToggle {
        if b.is_pressed {
            b.is_pressed = false;
            if b.variant == ButtonVariant::OSKToggle {
                toggle = true;
            } else {
                actions.push(Action::TapKey { vk });
            }
        }
    } else if b.group == 4 && b.is_pressed {
        b.is_pressed = false;
        actions.push(Action::Key { vk, down: false });
    } else if b.group != 1 && b.is_pressed && b.variant == ButtonVariant::Normal {
        b.is_pressed = false;
        actions.push(Action::Key { vk, down: false });
    } else if b.variant == ButtonVariant::Joystick || b.variant == ButtonVariant::Trigger {
        b.is_pressed = false;
        if reset_stick {
            b.joystick_bits = (0, 0);
        }
    }
    assert(actions@ =~= old(actions)@ + release_actions_of(*old(b)));
    toggle
}

/// The input released by letting go of every button of `bs`, in order.
pub open spec fn sweep_actions(bs: Seq<VirtualButton>) -> Seq<Action>
    decreases bs.len(),
{
    if bs.len() == 0 {
        Seq::empty()
    } else {
        sweep_actions(bs.drop_last()) + release_actions_of(bs.last())
    }
}

/// Whether letting go of every button of `bs` toggles the on-screen keyboard.
pub open spec fn sweep_toggles(bs: Seq<VirtualButton>) -> bool {
    exists|i: int| 0 <= i < bs.len() && release_toggles_osk(#[trigger] bs[i])
}

/// Lets go of every button (sticks keep their position); returns whether the
/// on-screen keyboard is to be toggled.
pub fn release_all(bs: &mut Vec<VirtualButton>, actions: &mut Vec<Action>) -> (toggle: bool)
    ensures
        final(bs)@.len() == old(bs)@.len(),
        forall|i: int|
            0 <= i < old(bs)@.len() ==> #[trigger] final(bs)@[i] == released_button(old(bs)@[i], false),
        final(actions)@ == old(actions)@ + sweep_actions(old(bs)@),
        toggle == sweep_toggles(old(bs)@),
{
    let ghost b0 = bs@;
    let ghost a0 = actions@;
    let n = bs.len();
    let mut toggle = false;
    let mut i: usize = 0;
    while i < n
        invariant
            0 <= i <= n,
            n == b0.len(),
            bs@.len() == n,
            forall|j: int| 0 <= j < i ==> #[trigger] bs@[j] == released_button(b0[j], false),
            forall|j: int| i <= j < n ==> #[trigger] bs@[j] == b0[j],
            actions@ == a0 + sweep_actions(b0.take(i as int)),
            toggle == (exists|j: int| 0 <= j < i && release_toggles_osk(#[trigger] b0[j])),
        decreases n - i,
    {
        assert(b0.take(i as int + 1).drop_last() =~= b0.take(i as int));
        let mut b = bs[i].clone();
        let t = release_button(&mut b, false, actions);
        bs.set(i, b);
        if t {
            toggle = true;
        }
        proof {
            assert(b0.take(i as int + 1).last() == b0[i as int]);
            assert(actions@ =~= a0 + sweep_actions(b0.take(i as int + 1)));
            if toggle {
                if !t {
                    let j = choose|j: int| 0 <= j < i && release_toggles_osk(#[trigger] b0[j]);
                    assert(0 <= j < i + 1);
                }
            }
        }
        i = i + 1;
    }
    assert(b0.take(n as int) =~= b0);
    toggle
}

/// Pressing an ordinary key that is not held and letting it go gives the button back as
/// it was, and sends the key down and then up.
pub proof fn lemma_press_release_round_trip(b: VirtualButton, pt: Point, reset_stick: bool)
    requires
        press_kind(b) == PressKind::Plain,
        !b.is_pressed,
    ensures
        released_button(pressed(b), reset_stick) == b,
        press_actions(b, pt) + release_actions_of(pressed(b)) == seq![
            Action::Key { vk: b.key_code, down: true },
            Action::Key { vk: b.key_code, down: false },
        ],
{
    assert(press_actions(b, pt) + release_actions_of(pressed(b)) =~= seq![
        Action::Key { vk: b.key_code, down: true },
        Action::Key { vk: b.key_code, down: false },
    ]);
}

/// Pressing a toggle twice gives the button back as it was, and the two presses send
/// opposite key states, the first one the opposite of the held state.
pub proof fn lemma_toggle_press_twice(b: VirtualButton, pt: Point, pt2: Point)
    requires
        press_kind(b) == PressKind::Toggle,
    ensures
        pressed(pressed(b)) == b,
        press_actions(b, pt) + press_actions(pressed(b), pt2) == seq![
            Action::Key { vk: b.key_code, down: !b.is_pressed },
            Action::Key { vk: b.key_code, down: b.is_pressed },
        ],
{
    assert(press_actions(b, pt) + press_actions(pressed(b), pt2) =~= seq![
        Action::Key { vk: b.key_code, down: !b.is_pressed },
        Action::Key { vk: b.key_code, down: b.is_pressed },
    ]);
}

} // verus!
