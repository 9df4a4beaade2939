//! Preset combos of buttons that the editor can add in one step.
use vstd::prelude::*;
use crate::osk_layout::is_letter_or_digit_label;
use crate::button::VirtualButton;
use crate::button::ButtonVariant;
use crate::button::is_new_button;
use crate::button::new_button;
use crate::geometry::fits_i32;
use crate::state::AppState;
use crate::keys::VK_W;
use crate::keys::VK_A;
use crate::keys::VK_S;
use crate::keys::VK_D;
use crate::keys::VK_UP;
use crate::keys::VK_LEFT;
use crate::keys::VK_DOWN;
use crate::keys::VK_RIGHT;
use crate::keys::VK_GAMEPAD_A;
use crate::keys::VK_GAMEPAD_B;
use crate::keys::VK_GAMEPAD_X;
use crate::keys::VK_GAMEPAD_Y;
use crate::keys::VK_GAMEPAD_LEFT_TRIGGER;
use crate::keys::VK_GAMEPAD_RIGHT_TRIGGER;
use crate::keys::VK_GAMEPAD_LEFT_SHOULDER;
use crate::keys::VK_GAMEPAD_RIGHT_SHOULDER;
use crate::keys::VK_GAMEPAD_DPAD_UP;
use crate::keys::VK_GAMEPAD_DPAD_DOWN;
use crate::keys::VK_GAMEPAD_DPAD_LEFT;
use crate::keys::VK_GAMEPAD_DPAD_RIGHT;
use crate::keys::VK_GAMEPAD_VIEW;
use crate::keys::VK_GAMEPAD_MENU;
use crate::keys::VK_LBUTTON;
use crate::geometry::SerializableRect;
use crate::button::SENSITIVITY_ONE_BITS;

verus! {

/// One button of a preset combo: its rectangle (placed around the point (500, 400)),
/// label, key code, variant and interaction group.
#[derive(Clone, Copy, Debug)]
pub struct ComboKey {
    pub x: i32,
    pub y: i32,
    pub w: i32,
    pub h: i32,
    pub label: &'static str,
    pub vk: u16,
    pub variant: ButtonVariant,
    pub group: u8,
}

/// The buttons of preset combo `idx`, in the order they are added (empty for an
/// unknown preset).
pub open spec fn combo_keys(idx: int) -> Seq<ComboKey> {
    if idx == 0 {
        seq![
            ComboKey { x: 600, y: 400, w: 100, h: 100, label: "W", vk: VK_W, variant: ButtonVariant::Normal, group: 2 },
            ComboKey { x: 500, y: 500, w: 100, h: 100, label: "A", vk: VK_A, variant: ButtonVariant::Normal, group: 2 },
            ComboKey { x: 600, y: 500, w: 100, h: 100, label: "S", vk: VK_S, variant: ButtonVariant::Normal, group: 2 },
            ComboKey { x: 700, y: 500, w: 100, h: 100, label: "D", vk: VK_D, variant: ButtonVariant::Normal, group: 2 },
        ]
    } else if idx == 1 {
        seq![
            ComboKey { x: 600, y: 400, w: 100, h: 100, label: "↑", vk: VK_UP, variant: ButtonVariant::Normal, group: 2 },
            ComboKey { x: 500, y: 500, w: 100, h: 100, label: "←", vk: VK_LEFT, variant: ButtonVariant::Normal, group: 2 },
            ComboKey { x: 600, y: 500, w: 100, h: 100, label: "↓", vk: VK_DOWN, variant: ButtonVariant::Normal, group: 2 },
            ComboKey { x: 700, y: 500, w: 100, h: 100, label: "→", vk: VK_RIGHT, variant: ButtonVariant::Normal, group: 2 },
        ]
    } else if idx == 2 {
        seq![
            ComboKey { x: 250, y: 400, w: 50, h: 50, label: "1", vk: 0x31, variant: ButtonVariant::Normal, group: 0 },
            ComboKey { x: 305, y: 400, w: 50, h: 50, label: "2", vk: 0x32, variant: ButtonVariant::Normal, group: 0 },
            ComboKey { x: 360, y: 400, w: 50, h: 50, label: "3", vk: 0x33, variant: ButtonVariant::Normal, group: 0 },
            ComboKey { x: 415, y: 400, w: 50, h: 50, label: "4", vk: 0x34, variant: ButtonVariant::Normal, group: 0 },
            ComboKey { x: 470, y: 400, w: 50, h: 50, label: "5", vk: 0x35, variant: ButtonVariant::Normal, group: 0 },
            ComboKey { x: 525, y: 400, w: 50, h: 50, label: "6", vk: 0x36, variant: ButtonVariant::Normal, group: 0 },
            ComboKey { x: 580, y: 400, w: 50, h: 50, label: "7", vk: 0x37, variant: ButtonVariant::Normal, group: 0 },
            ComboKey { x: 635, y: 400, w: 50, h: 50, label: "8", vk: 0x38, variant: ButtonVariant::Normal, group: 0 },
            ComboKey { x: 690, y: 400, w: 50, h: 50, label: "9", vk: 0x39, variant: ButtonVariant::Normal, group: 0 },
            ComboKey { x: 745, y: 400, w: 50, h: 50, label: "0", vk: 0x30, variant: ButtonVariant::Normal, group: 0 },
        ]
    } else if idx == 3 {
        seq![
            ComboKey { x: 300, y: 540, w: 80, h: 80, label: "L-Stick", vk: 0, variant: ButtonVariant::Joystick, group: 0 },
            ComboKey { x: 780, y: 540, w: 80, h: 80, label: "R-Stick", vk: 0, variant: ButtonVariant::Joystick, group: 0 },
            ComboKey { x: 320, y: 260, w: 60, h: 80, label: "LT", vk: VK_GAMEPAD_LEFT_TRIGGER, variant: ButtonVariant::Trigger, group: 0 },
            ComboKey { x: 780, y: 260, w: 60, h: 80, label: "RT", vk: VK_GAMEPAD_RIGHT_TRIGGER, variant: ButtonVariant::Trigger, group: 0 },
            ComboKey { x: 720, y: 500, w: 50, h: 50, label: "A", vk: VK_GAMEPAD_A, variant: ButtonVariant::Normal, group: 2 },
            ComboKey { x: 770, y: 450, w: 50, h: 50, label: "B", vk: VK_GAMEPAD_B, variant: ButtonVariant::Normal, group: 2 },
            ComboKey { x: 670, y: 450, w: 50, h: 50, label: "X", vk: VK_GAMEPAD_X, variant: ButtonVariant::Normal, group: 2 },
            ComboKey { x: 720, y: 400, w: 50, h: 50, label: "Y", vk: VK_GAMEPAD_Y, variant: ButtonVariant::Normal, group: 2 },
            ComboKey { x: 320, y: 340, w: 60, h: 50, label: "LB", vk: VK_GAMEPAD_LEFT_SHOULDER, variant: ButtonVariant::Normal, group: 2 },
            ComboKey { x: 780, y: 340, w: 60, h: 50, label: "RB", vk: VK_GAMEPAD_RIGHT_SHOULDER, variant: ButtonVariant::Normal, group: 2 },
            ComboKey { x: 380, y: 400, w: 50, h: 50, label: "Up", vk: VK_GAMEPAD_DPAD_UP, variant: ButtonVariant::Normal, group: 2 },
            ComboKey { x: 380, y: 500, w: 50, h: 50, label: "Down", vk: VK_GAMEPAD_DPAD_DOWN, variant: ButtonVariant::Normal, group: 2 },
            ComboKey { x: 330, y: 450, w: 50, h: 50, label: "Left", vk: VK_GAMEPAD_DPAD_LEFT, variant: ButtonVariant::Normal, group: 2 },
            ComboKey { x: 430, y: 450, w: 50, h: 50, label: "Right", vk: VK_GAMEPAD_DPAD_RIGHT, variant: ButtonVariant::Normal, group: 2 },
            ComboKey { x: 520, y: 280, w: 60, h: 50, label: "Back", vk: VK_GAMEPAD_VIEW, variant: ButtonVariant::Normal, group: 2 },
            ComboKey { x: 580, y: 280, w: 60, h: 50, label: "Start", vk: VK_GAMEPAD_MENU, variant: ButtonVariant::Normal, group: 2 },
        ]
    } else if idx == 4 {
        seq![
            ComboKey { x: 500, y: 400, w: 50, h: 50, label: "键盘", vk: 0, variant: ButtonVariant::OSKToggle, group: 5 },
        ]
    } else if idx == 5 {
        seq![
            ComboKey { x: 500, y: 400, w: 100, h: 100, label: "New", vk: VK_A, variant: ButtonVariant::Normal, group: 0 },
        ]
    } else {
        Seq::empty()
    }
}

/// The buttons of preset combo `idx`.
pub fn combo_key_list(idx: usize) -> (v: Vec<ComboKey>)
    ensures
        v@ == combo_keys(idx as int),
{
    let mut v: Vec<ComboKey> = Vec::new();
    if idx == 0 {
        v.push(ComboKey { x: 600, y: 400, w: 100, h: 100, label: "W", vk: VK_W, variant: ButtonVariant::Normal, group: 2 });
        v.push(ComboKey { x: 500, y: 500, w: 100, h: 100, label: "A", vk: VK_A, variant: ButtonVariant::Normal, group: 2 });
        v.push(ComboKey { x: 600, y: 500, w: 100, h: 100, label: "S", vk: VK_S, variant: ButtonVariant::Normal, group: 2 });
        v.push(ComboKey { x: 700, y: 500, w: 100, h: 100, label: "D", vk: VK_D, variant: ButtonVariant::Normal, group: 2 });
    } else if idx == 1 {
        v.push(ComboKey { x: 600, y: 400, w: 100, h: 100, label: "↑", vk: VK_UP, variant: ButtonVariant::Normal, group: 2 });
        v.push(ComboKey { x: 500, y: 500, w: 100, h: 100, label: "←", vk: VK_LEFT, variant: ButtonVariant::Normal, group: 2 });
        v.push(ComboKey { x: 600, y: 500, w: 100, h: 100, label: "↓", vk: VK_DOWN, variant: ButtonVariant::Normal, group: 2 });
        v.push(ComboKey { x: 700, y: 500, w: 100, h: 100, label: "→", vk: VK_RIGHT, variant: ButtonVariant::Normal, group: 2 });
    } else if idx == 2 {
        v.push(ComboKey { x: 250, y: 400, w: 50, h: 50, label: "1", vk: 0x31, variant: ButtonVariant::Normal, group: 0 });
        v.push(ComboKey { x: 305, y: 400, w: 50, h: 50, label: "2", vk: 0x32, variant: ButtonVariant::Normal, group: 0 });
        v.push(ComboKey { x: 360, y: 400, w: 50, h: 50, label: "3", vk: 0x33, variant: ButtonVariant::Normal, group: 0 });
        v.push(ComboKey { x: 415, y: 400, w: 50, h: 50, label: "4", vk: 0x34, variant: ButtonVariant::Normal, group: 0 });
        v.push(ComboKey { x: 470, y: 400, w: 50, h: 50, label: "5", vk: 0x35, variant: ButtonVariant::Normal, group: 0 });
        v.push(ComboKey { x: 525, y: 400, w: 50, h: 50, label: "6", vk: 0x36, variant: ButtonVariant::Normal, group: 0 });
        v.push(ComboKey { x: 580, y: 400, w: 50, h: 50, label: "7", vk: 0x37, variant: ButtonVariant::Normal, group: 0 });
        v.push(ComboKey { x: 635, y: 400, w: 50, h: 50, label: "8", vk: 0x38, variant: ButtonVariant::Normal, group: 0 });
        v.push(ComboKey { x: 690, y: 400, w: 50, h: 50, label: "9", vk: 0x39, variant: ButtonVariant::Normal, group: 0 });
        v.push(ComboKey { x: 745, y: 400, w: 50, h: 50, label: "0", vk: 0x30, variant: ButtonVariant::Normal, group: 0 });
    } else if idx == 3 {
        v.push(ComboKey { x: 300, y: 540, w: 80, h: 80, label: "L-Stick", vk: 0, variant: ButtonVariant::Joystick, group: 0 });
        v.push(ComboKey { x: 780, y: 540, w: 80, h: 80, label: "R-Stick", vk: 0, variant: ButtonVariant::Joystick, group: 0 });
        v.push(ComboKey { x: 320, y: 260, w: 60, h: 80, label: "LT", vk: VK_GAMEPAD_LEFT_TRIGGER, variant: ButtonVariant::Trigger, group: 0 });
        v.push(ComboKey { x: 780, y: 260, w: 60, h: 80, label: "RT", vk: VK_GAMEPAD_RIGHT_TRIGGER, variant: ButtonVariant::Trigger, group: 0 });
        v.push(ComboKey { x: 720, y: 500, w: 50, h: 50, label: "A", vk: VK_GAMEPAD_A, variant: ButtonVariant::Normal, group: 2 });
        v.push(ComboKey { x: 770, y: 450, w: 50, h: 50, label: "B", vk: VK_GAMEPAD_B, variant: ButtonVariant::Normal, group: 2 });
        v.push(ComboKey { x: 670, y: 450, w: 50, h: 50, label: "X", vk: VK_GAMEPAD_X, variant: ButtonVariant::Normal, group: 2 });
        v.push(ComboKey { x: 720, y: 400, w: 50, h: 50, label: "Y", vk: VK_GAMEPAD_Y, variant: ButtonVariant::Normal, group: 2 });
        v.push(ComboKey { x: 320, y: 340, w: 60, h: 50, label: "LB", vk: VK_GAMEPAD_LEFT_SHOULDER, variant: ButtonVariant::Normal, group: 2 });
        v.push(ComboKey { x: 780, y: 340, w: 60, h: 50, label: "RB", vk: VK_GAMEPAD_RIGHT_SHOULDER, variant: ButtonVariant::Normal, group: 2 });
        v.push(ComboKey { x: 380, y: 400, w: 50, h: 50, label: "Up", vk: VK_GAMEPAD_DPAD_UP, variant: ButtonVariant::Normal, group: 2 });
        v.push(ComboKey { x: 380, y: 500, w: 50, h: 50, label: "Down", vk: VK_GAMEPAD_DPAD_DOWN, variant: ButtonVariant::Normal, group: 2 });
        v.push(ComboKey { x: 330, y: 450, w: 50, h: 50, label: "Left", vk: VK_GAMEPAD_DPAD_LEFT, variant: ButtonVariant::Normal, group: 2 });
        v.push(ComboKey { x: 430, y: 450, w: 50, h: 50, label: "Right", vk: VK_GAMEPAD_DPAD_RIGHT, variant: ButtonVariant::Normal, group: 2 });
        v.push(ComboKey { x: 520, y: 280, w: 60, h: 50, label: "Back", vk: VK_GAMEPAD_VIEW, variant: ButtonVariant::Normal, group: 2 });
        v.push(ComboKey { x: 580, y: 280, w: 60, h: 50, label: "Start", vk: VK_GAMEPAD_MENU, variant: ButtonVariant::Normal, group: 2 });
    } else if idx == 4 {
        v.push(ComboKey { x: 500, y: 400, w: 50, h: 50, label: "键盘", vk: 0, variant: ButtonVariant::OSKToggle, group: 5 });
    } else if idx == 5 {
        v.push(ComboKey { x: 500, y: 400, w: 100, h: 100, label: "New", vk: VK_A, variant: ButtonVariant::Normal, group: 0 });
    }
    assert(v@ =~= combo_keys(idx as int));
    v
}

/// Whether every key of a combo lies within the first 1000 pixels.
pub open spec fn combo_bounded(keys: Seq<ComboKey>) -> bool
    decreases keys.len(),
{
    if keys.len() == 0 {
        true
    } else {
        let k = keys.last();
        combo_bounded(keys.drop_last()) && 0 <= k.x <= 1000 && 0 <= k.y <= 1000 && 0 <= k.w <= 1000 && 0 <= k.h <= 1000
    }
}

proof fn lemma_combo_bounded(idx: int)
    ensures
        forall|j: int| 0 <= j < combo_keys(idx).len() ==> {
            let k = #[trigger] combo_keys(idx)[j];
            0 <= k.x <= 1000 && 0 <= k.y <= 1000 && 0 <= k.w <= 1000 && 0 <= k.h <= 1000
        },
{
    reveal_with_fuel(combo_bounded, 17);
    assert(combo_bounded(combo_keys(idx)));
    lemma_bounded_elems(combo_keys(idx));
}

proof fn lemma_bounded_elems(keys: Seq<ComboKey>)
    requires
        combo_bounded(keys),
    ensures
        forall|j: int| 0 <= j < keys.len() ==> {
            let k = #[trigger] keys[j];
            0 <= k.x <= 1000 && 0 <= k.y <= 1000 && 0 <= k.w <= 1000 && 0 <= k.h <= 1000
        },
    decreases keys.len(),
{
    if keys.len() > 0 {
        let d = keys.drop_last();
        lemma_bounded_elems(d);
        assert forall|j: int| 0 <= j < keys.len() implies {
            let k = #[trigger] keys[j];
            0 <= k.x <= 1000 && 0 <= k.y <= 1000 && 0 <= k.w <= 1000 && 0 <= k.h <= 1000
        } by {
            if j < d.len() {
                assert(keys[j] == d[j]);
            }
        }
    }
}

/// Whether `b` is the button built from combo key `k` for combo instance `gid` of
/// preset `category`.
pub open spec fn is_combo_button(b: VirtualButton, k: ComboKey, gid: u32, category: i32) -> bool {
    is_new_button(b, k.x as int, k.y as int, k.w as int, k.h as int, k.label@, k.vk, gid, k.variant, category, k.group)
}

impl AppState {
    /// Builds a button with the default style (see `new_button`).
    pub fn create_btn(
        &self,
        x: i32,
        y: i32,
        w: i32,
        h: i32,
        label: String,
        code: u16,
        gid: u32,
        variant: ButtonVariant,
        combo_category: i32,
        group: u8,
    ) -> (b: VirtualButton)
        requires
            fits_i32(x + w),
            fits_i32(y + h),
        ensures
            is_new_button(b, x as int, y as int, w as int, h as int, label@, code, gid, variant, combo_category, group),
    {
        new_button(x, y, w, h, label, code, gid, variant, combo_category, group)
    }

    /// Adds the buttons of preset combo `combo_idx` (0: WASD, 1: arrow keys, 2: the
    /// number row, 3: a gamepad, 4: the keyboard button, 5: a blank button) at the end
    /// of the button list, all tagged with the combo instance id `gid` and the preset as
    /// their combo category. An unknown preset adds nothing.
    pub fn add_combo(&mut self, combo_idx: usize, gid: u32)
        ensures
            final(self).buttons@.len() == old(self).buttons@.len() + combo_keys(combo_idx as int).len(),
            forall|i: int| 0 <= i < old(self).buttons@.len() ==> #[trigger] final(self).buttons@[i] == old(self).buttons@[i],
            forall|j: int|
                0 <= j < combo_keys(combo_idx as int).len() ==> is_combo_button(
                    #[trigger] final(self).buttons@[old(self).buttons@.len() + j],
                    combo_keys(combo_idx as int)[j],
                    gid,
                    combo_idx as i32,
                ),
            *final(self) == (AppState { buttons: final(self).buttons, ..*old(self) }),
    {
        let keys = combo_key_list(combo_idx);
        proof { lemma_combo_bounded(combo_idx as int); }
        #[verifier::truncate]
        let category = combo_idx as i32;
        let ghost b0 = self.buttons@;
        let mut j: usize = 0;
        while j < keys.len()
            invariant
                j <= keys@.len(),
                keys@ == combo_keys(combo_idx as int),
                category == combo_idx as i32,
                forall|m: int| 0 <= m < keys@.len() ==> {
                    let k = #[trigger] keys@[m];
                    0 <= k.x <= 1000 && 0 <= k.y <= 1000 && 0 <= k.w <= 1000 && 0 <= k.h <= 1000
                },
                b0 == old(self).buttons@,
                self.buttons@.len() == b0.len() + j,
                forall|i: int| 0 <= i < b0.len() ==> #[trigger] self.buttons@[i] == b0[i],
                forall|m: int| 0 <= m < j ==> is_combo_button(#[trigger] self.buttons@[b0.len() + m], keys@[m], gid, category),
                *self == (AppState { buttons: self.buttons, ..*old(self) }),
            decreases keys@.len() - j,
        {
            let k = keys[j];
            let b = self.create_btn(k.x, k.y, k.w, k.h, String::from_str(k.label), k.vk, gid, k.variant, category, k.group);
            let ghost before = self.buttons@;
            self.buttons.push(b);
            proof {
                assert forall|m: int| 0 <= m < j + 1 implies is_combo_button(#[trigger] self.buttons@[b0.len() + m], keys@[m], gid, category) by {
                    if m < j {
                        assert(self.buttons@[b0.len() + m] == before[b0.len() + m]);
                    }
                }
            }
            j = j + 1;
        }
    }
}

/// The button that the category panel adds to interaction group `g`: at (400, 400), a
/// 150 x 150 mouse stick (radius 75) for group 6, otherwise a 100 x 100 button bound to
/// the left mouse button for group 4 and to "A" for the others, labelled "绝对鼠标",
/// "鼠标摇杆" or "触控板" (the last for every other group).
pub open spec fn is_category_button(b: VirtualButton, g: u8) -> bool {
    let far: i32 = if g == 6 { 550 } else { 500 };
    &&& b.rect == (SerializableRect { left: 400, top: 400, right: far, bottom: far })
    &&& b.key_code == if g == 4 { VK_LBUTTON } else { VK_A }
    &&& b.label@ == if g == 4 { "绝对鼠标"@ } else if g == 6 { "鼠标摇杆"@ } else { "触控板"@ }
    &&& b.opacity == 180
    &&& !b.is_pressed
    &&& b.group == g
    &&& b.variant == if g == 6 { ButtonVariant::Joystick } else { ButtonVariant::Normal }
    &&& b.group_id == 0
    &&& b.joystick_bits == (0u32, 0u32)
    &&& b.combo_category == -1
    &&& b.group_name is None
    &&& b.corner_radius == if g == 6 { 75i32 } else { 25i32 }
    &&& b.sensitivity_bits == SENSITIVITY_ONE_BITS
}

impl AppState {
    /// Adds the button of interaction group `g` that the category panel offers (see
    /// `is_category_button`) at the end of the button list.
    pub fn add_category_button(&mut self, g: u8)
        ensures
            final(self).buttons@.len() == old(self).buttons@.len() + 1,
            final(self).buttons@.drop_last() == old(self).buttons@,
            is_category_button(final(self).buttons@.last(), g),
            *final(self) == (AppState { buttons: final(self).buttons, ..*old(self) }),
    {
        let side: i32 = if g == 6 { 150 } else { 100 };
        let label = if g == 4 {
            String::from_str("绝对鼠标")
        } else if g == 6 {
            String::from_str("鼠标摇杆")
        } else {
            String::from_str("触控板")
        };
        let b = VirtualButton {
            rect: SerializableRect { left: 400, top: 400, right: 400 + side, bottom: 400 + side },
            key_code: if g == 4 { VK_LBUTTON } else { VK_A },
            label,
            opacity: 180,
            is_pressed: false,
            group: g,
            variant: if g == 6 { ButtonVariant::Joystick } else { ButtonVariant::Normal },
            group_id: 0,
            joystick_bits: (0, 0),
            combo_category: -1,
            group_name: None,
            corner_radius: if g == 6 { 75 } else { 25 },
            sensitivity_bits: SENSITIVITY_ONE_BITS,
        };
        self.buttons.push(b);
        assert(self.buttons@.drop_last() =~= old(self).buttons@);
    }
}

/// The key a button of preset combo `idx` labelled `l` sends: on the gamepad preset
/// (3) the pad button it names (A 0xC3, B 0xC4, X 0xC5, Y 0xC6, LB 0xC8, RB 0xC7, the
/// D-pad 0xCB to 0xCE, Back 0xD0, Start 0xCF, LT 0xC9, RT 0xCA; the sticks no key);
/// the keyboard toggle (preset 4) no key; the new key of preset 5 `A`; otherwise the
/// arrow it shows (↑ 0x26, ← 0x25, ↓ 0x28, → 0x27) or the letter or digit it is.
pub open spec fn named_key(idx: int, l: Seq<char>) -> int {
    if idx == 3 {
        if l == "A"@ { 0xC3 }
        else if l == "B"@ { 0xC4 }
        else if l == "X"@ { 0xC5 }
        else if l == "Y"@ { 0xC6 }
        else if l == "LB"@ { 0xC8 }
        else if l == "RB"@ { 0xC7 }
        else if l == "Up"@ { 0xCB }
        else if l == "Down"@ { 0xCC }
        else if l == "Left"@ { 0xCD }
        else if l == "Right"@ { 0xCE }
        else if l == "Back"@ { 0xD0 }
        else if l == "Start"@ { 0xCF }
        else if l == "LT"@ { 0xC9 }
        else if l == "RT"@ { 0xCA }
        else if l == "L-Stick"@ { 0x00 }
        else if l == "R-Stick"@ { 0x00 }
        else { -1 }
    } else if idx == 4 {
        0
    } else if idx == 5 {
        0x41
    } else if l == "↑"@ {
        0x26
    } else if l == "←"@ {
        0x25
    } else if l == "↓"@ {
        0x28
    } else if l == "→"@ {
        0x27
    } else if is_letter_or_digit_label(l) {
        l[0] as int
    } else {
        -1
    }
}

/// Every button of a preset combo sends the key its label names (see `named_key`).
pub proof fn lemma_preset_keys_follow_labels(idx: int, c: int)
    requires
        0 <= idx < 6,
        0 <= c < combo_keys(idx).len(),
    ensures
        combo_keys(idx)[c].vk as int == named_key(idx, combo_keys(idx)[c].label@),
{
    reveal_strlit("W");
    reveal_strlit("A");
    reveal_strlit("S");
    reveal_strlit("D");
    reveal_strlit("↑");
    reveal_strlit("←");
    reveal_strlit("↓");
    reveal_strlit("→");
    reveal_strlit("1");
    reveal_strlit("2");
    reveal_strlit("3");
    reveal_strlit("4");
    reveal_strlit("5");
    reveal_strlit("6");
    reveal_strlit("7");
    reveal_strlit("8");
    reveal_strlit("9");
    reveal_strlit("0");
    reveal_strlit("L-Stick");
    reveal_strlit("R-Stick");
    reveal_strlit("LT");
    reveal_strlit("RT");
    reveal_strlit("B");
    reveal_strlit("X");
    reveal_strlit("Y");
    reveal_strlit("LB");
    reveal_strlit("RB");
    reveal_strlit("Up");
    reveal_strlit("Down");
    reveal_strlit("Left");
    reveal_strlit("Right");
    reveal_strlit("Back");
    reveal_strlit("Start");
    reveal_strlit("键盘");
    reveal_strlit("New");
    assert("W"@.len() == 1 && "W"@[0] == 'W');
    assert("A"@.len() == 1 && "A"@[0] == 'A');
    assert("S"@.len() == 1 && "S"@[0] == 'S');
    assert("D"@.len() == 1 && "D"@[0] == 'D');
    assert("↑"@.len() == 1 && "↑"@[0] == '↑');
    assert("←"@.len() == 1 && "←"@[0] == '←');
    assert("↓"@.len() == 1 && "↓"@[0] == '↓');
    assert("→"@.len() == 1 && "→"@[0] == '→');
    assert("1"@.len() == 1 && "1"@[0] == '1');
    assert("2"@.len() == 1 && "2"@[0] == '2');
    assert("3"@.len() == 1 && "3"@[0] == '3');
    assert("4"@.len() == 1 && "4"@[0] == '4');
    assert("5"@.len() == 1 && "5"@[0] == '5');
    assert("6"@.len() == 1 && "6"@[0] == '6');
    assert("7"@.len() == 1 && "7"@[0] == '7');
    assert("8"@.len() == 1 && "8"@[0] == '8');
    assert("9"@.len() == 1 && "9"@[0] == '9');
    assert("0"@.len() == 1 && "0"@[0] == '0');
    assert("L-Stick"@.len() == 7 && "L-Stick"@[0] == 'L' && "L-Stick"@[1] == '-');
    assert("R-Stick"@.len() == 7 && "R-Stick"@[0] == 'R' && "R-Stick"@[1] == '-');
    assert("LT"@.len() == 2 && "LT"@[0] == 'L' && "LT"@[1] == 'T');
    assert("RT"@.len() == 2 && "RT"@[0] == 'R' && "RT"@[1] == 'T');
    assert("B"@.len() == 1 && "B"@[0] == 'B');
    assert("X"@.len() == 1 && "X"@[0] == 'X');
    assert("Y"@.len() == 1 && "Y"@[0] == 'Y');
    assert("LB"@.len() == 2 && "LB"@[0] == 'L' && "LB"@[1] == 'B');
    assert("RB"@.len() == 2 && "RB"@[0] == 'R' && "RB"@[1] == 'B');
    assert("Up"@.len() == 2 && "Up"@[0] == 'U' && "Up"@[1] == 'p');
    assert("Down"@.len() == 4 && "Down"@[0] == 'D' && "Down"@[1] == 'o');
    assert("Left"@.len() == 4 && "Left"@[0] == 'L' && "Left"@[1] == 'e');
    assert("Right"@.len() == 5 && "Right"@[0] == 'R' && "Right"@[1] == 'i');
    assert("Back"@.len() == 4 && "Back"@[0] == 'B' && "Back"@[1] == 'a');
    assert("Start"@.len() == 5 && "Start"@[0] == 'S' && "Start"@[1] == 't');
    assert("键盘"@.len() == 2 && "键盘"@[0] == '键' && "键盘"@[1] == '盘');
    assert("New"@.len() == 3 && "New"@[0] == 'N' && "New"@[1] == 'e');
}

/// No two buttons of the WASD, arrow, number-row and gamepad presets send the same key
/// (the two sticks of the gamepad preset send none).
pub proof fn lemma_preset_codes_distinct(idx: int, c1: int, c2: int)
    requires
        0 <= idx < 4,
        0 <= c1 < combo_keys(idx).len(),
        0 <= c2 < combo_keys(idx).len(),
        c1 != c2,
        combo_keys(idx)[c1].variant != ButtonVariant::Joystick,
    ensures
        combo_keys(idx)[c1].vk != combo_keys(idx)[c2].vk,
{
}

} // verus!
