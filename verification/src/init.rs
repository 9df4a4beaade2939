//! The initial state of the overlay, the key picker's catalogue and the global
//! settings.
use vstd::prelude::*;
use crate::geometry::Point;
use crate::geometry::SerializableRect;
use crate::button::VirtualButton;
use crate::button::ButtonVariant;
use crate::button::SENSITIVITY_ONE_BITS;
use crate::keys::KeyInfo;
use crate::keys::KeyCategory;
use crate::state::AppState;
use crate::state::ProgramMode;
use crate::state::TouchRecord;
use crate::osk_layout::osk_row_defs;
use crate::osk_layout::osk_slot;
use crate::keys::VK_F1;
use crate::keys::VK_F2;
use crate::keys::VK_F3;
use crate::keys::VK_F4;
use crate::keys::VK_F5;
use crate::keys::VK_F6;
use crate::keys::VK_F7;
use crate::keys::VK_F8;
use crate::keys::VK_F9;
use crate::keys::VK_F10;
use crate::keys::VK_F11;
use crate::keys::VK_F12;
use crate::keys::VK_ESCAPE;
use crate::keys::VK_TAB;
use crate::keys::VK_SPACE;
use crate::keys::VK_RETURN;
use crate::keys::VK_BACK;
use crate::keys::VK_UP;
use crate::keys::VK_DOWN;
use crate::keys::VK_LEFT;
use crate::keys::VK_RIGHT;
use crate::keys::VK_A;
use crate::keys::VK_GAMEPAD_A;
use crate::keys::VK_GAMEPAD_B;
use crate::keys::VK_GAMEPAD_X;
use crate::keys::VK_GAMEPAD_Y;
use crate::keys::VK_GAMEPAD_RIGHT_SHOULDER;
use crate::keys::VK_GAMEPAD_LEFT_SHOULDER;

verus! {

broadcast use vstd::std_specs::hash::group_hash_axioms;

/// A key of the picker's catalogue: its label and code.
#[derive(Clone, Copy, Debug)]
pub struct KeyName {
    pub label: &'static str,
    pub vk: u16,
}

/// The name of key category `i` of the key picker.
pub open spec fn category_name(i: int) -> &'static str {
    if i == 0 {
        "字母 (A-Z)"
    } else if i == 1 {
        "数字 (0-9)"
    } else if i == 2 {
        "功能键 (F1-F12)"
    } else if i == 3 {
        "控制与编辑"
    } else {
        "游戏手柄"
    }
}

/// The keys of category `i` of the key picker, in order.
pub open spec fn category_keys(i: int) -> Seq<KeyName> {
    if i == 0 {
        seq![
            KeyName { label: "A", vk: 0x41 },
            KeyName { label: "B", vk: 0x42 },
            KeyName { label: "C", vk: 0x43 },
            KeyName { label: "D", vk: 0x44 },
            KeyName { label: "E", vk: 0x45 },
            KeyName { label: "F", vk: 0x46 },
            KeyName { label: "G", vk: 0x47 },
            KeyName { label: "H", vk: 0x48 },
            KeyName { label: "I", vk: 0x49 },
            KeyName { label: "J", vk: 0x4a },
            KeyName { label: "K", vk: 0x4b },
            KeyName { label: "L", vk: 0x4c },
            KeyName { label: "M", vk: 0x4d },
            KeyName { label: "N", vk: 0x4e },
            KeyName { label: "O", vk: 0x4f },
            KeyName { label: "P", vk: 0x50 },
            KeyName { label: "Q", vk: 0x51 },
            KeyName { label: "R", vk: 0x52 },
            KeyName { label: "S", vk: 0x53 },
            KeyName { label: "T", vk: 0x54 },
            KeyName { label: "U", vk: 0x55 },
            KeyName { label: "V", vk: 0x56 },
            KeyName { label: "W", vk: 0x57 },
            KeyName { label: "X", vk: 0x58 },
            KeyName { label: "Y", vk: 0x59 },
            KeyName { label: "Z", vk: 0x5a },
        ]
    } else if i == 1 {
        seq![
            KeyName { label: "0", vk: 0x30 },
            KeyName { label: "1", vk: 0x31 },
            KeyName { label: "2", vk: 0x32 },
            KeyName { label: "3", vk: 0x33 },
            KeyName { label: "4", vk: 0x34 },
            KeyName { label: "5", vk: 0x35 },
            KeyName { label: "6", vk: 0x36 },
            KeyName { label: "7", vk: 0x37 },
            KeyName { label: "8", vk: 0x38 },
            KeyName { label: "9", vk: 0x39 },
        ]
    } else if i == 2 {
        seq![
            KeyName { label: "F1", vk: VK_F1 },
            KeyName { label: "F2", vk: VK_F2 },
            KeyName { label: "F3", vk: VK_F3 },
            KeyName { label: "F4", vk: VK_F4 },
            KeyName { label: "F5", vk: VK_F5 },
            KeyName { label: "F6", vk: VK_F6 },
            KeyName { label: "F7", vk: VK_F7 },
            KeyName { label: "F8", vk: VK_F8 },
            KeyName { label: "F9", vk: VK_F9 },
            KeyName { label: "F10", vk: VK_F10 },
            KeyName { label: "F11", vk: VK_F11 },
            KeyName { label: "F12", vk: VK_F12 },
        ]
    } else if i == 3 {
        seq![
            KeyName { label: "Esc", vk: VK_ESCAPE },
            KeyName { label: "Tab", vk: VK_TAB },
            KeyName { label: "Space", vk: VK_SPACE },
            KeyName { label: "Enter", vk: VK_RETURN },
            KeyName { label: "Backspace", vk: VK_BACK },
            KeyName { label: "Up Arrow", vk: VK_UP },
            KeyName { label: "Down Arrow", vk: VK_DOWN },
            KeyName { label: "Left Arrow", vk: VK_LEFT },
            KeyName { label: "Right Arrow", vk: VK_RIGHT },
        ]
    } else {
        seq![
            KeyName { label: "A", vk: VK_GAMEPAD_A },
            KeyName { label: "B", vk: VK_GAMEPAD_B },
            KeyName { label: "X", vk: VK_GAMEPAD_X },
            KeyName { label: "Y", vk: VK_GAMEPAD_Y },
            KeyName { label: "RB", vk: VK_GAMEPAD_RIGHT_SHOULDER },
            KeyName { label: "LB", vk: VK_GAMEPAD_LEFT_SHOULDER },
        ]
    }
}

fn category_key_list(i: usize) -> (v: Vec<KeyName>)
    requires
        i < 5,
    ensures
        v@ == category_keys(i as int),
{
    let mut v: Vec<KeyName> = Vec::new();
    if i == 0 {
        v.push(KeyName { label: "A", vk: 0x41 });
        v.push(KeyName { label: "B", vk: 0x42 });
        v.push(KeyName { label: "C", vk: 0x43 });
        v.push(KeyName { label: "D", vk: 0x44 });
        v.push(KeyName { label: "E", vk: 0x45 });
        v.push(KeyName { label: "F", vk: 0x46 });
        v.push(KeyName { label: "G", vk: 0x47 });
        v.push(KeyName { label: "H", vk: 0x48 });
        v.push(KeyName { label: "I", vk: 0x49 });
        v.push(KeyName { label: "J", vk: 0x4a });
        v.push(KeyName { label: "K", vk: 0x4b });
        v.push(KeyName { label: "L", vk: 0x4c });
        v.push(KeyName { label: "M", vk: 0x4d });
        v.push(KeyName { label: "N", vk: 0x4e });
        v.push(KeyName { label: "O", vk: 0x4f });
        v.push(KeyName { label: "P", vk: 0x50 });
        v.push(KeyName { label: "Q", vk: 0x51 });
        v.push(KeyName { label: "R", vk: 0x52 });
        v.push(KeyName { label: "S", vk: 0x53 });
        v.push(KeyName { label: "T", vk: 0x54 });
        v.push(KeyName { label: "U", vk: 0x55 });
        v.push(KeyName { label: "V", vk: 0x56 });
        v.push(KeyName { label: "W", vk: 0x57 });
        v.push(KeyName { label: "X", vk: 0x58 });
        v.push(KeyName { label: "Y", vk: 0x59 });
        v.push(KeyName { label: "Z", vk: 0x5a });
    } else if i == 1 {
        v.push(KeyName { label: "0", vk: 0x30 });
        v.push(KeyName { label: "1", vk: 0x31 });
        v.push(KeyName { label: "2", vk: 0x32 });
        v.push(KeyName { label: "3", vk: 0x33 });
        v.push(KeyName { label: "4", vk: 0x34 });
        v.push(KeyName { label: "5", vk: 0x35 });
        v.push(KeyName { label: "6", vk: 0x36 });
        v.push(KeyName { label: "7", vk: 0x37 });
        v.push(KeyName { label: "8", vk: 0x38 });
        v.push(KeyName { label: "9", vk: 0x39 });
    } else if i == 2 {
        v.push(KeyName { label: "F1", vk: VK_F1 });
        v.push(KeyName { label: "F2", vk: VK_F2 });
        v.push(KeyName { label: "F3", vk: VK_F3 });
        v.push(KeyName { label: "F4", vk: VK_F4 });
        v.push(KeyName { label: "F5", vk: VK_F5 });
        v.push(KeyName { label: "F6", vk: VK_F6 });
        v.push(KeyName { label: "F7", vk: VK_F7 });
        v.push(KeyName { label: "F8", vk: VK_F8 });
        v.push(KeyName { label: "F9", vk: VK_F9 });
        v.push(KeyName { label: "F10", vk: VK_F10 });
        v.push(KeyName { label: "F11", vk: VK_F11 });
        v.push(KeyName { label: "F12", vk: VK_F12 });
    } else if i == 3 {
        v.push(KeyName { label: "Esc", vk: VK_ESCAPE });
        v.push(KeyName { label: "Tab", vk: VK_TAB });
        v.push(KeyName { label: "Space", vk: VK_SPACE });
        v.push(KeyName { label: "Enter", vk: VK_RETURN });
        v.push(KeyName { label: "Backspace", vk: VK_BACK });
        v.push(KeyName { label: "Up Arrow", vk: VK_UP });
        v.push(KeyName { label: "Down Arrow", vk: VK_DOWN });
        v.push(KeyName { label: "Left Arrow", vk: VK_LEFT });
        v.push(KeyName { label: "Right Arrow", vk: VK_RIGHT });
    } else {
        v.push(KeyName { label: "A", vk: VK_GAMEPAD_A });
        v.push(KeyName { label: "B", vk: VK_GAMEPAD_B });
        v.push(KeyName { label: "X", vk: VK_GAMEPAD_X });
        v.push(KeyName { label: "Y", vk: VK_GAMEPAD_Y });
        v.push(KeyName { label: "RB", vk: VK_GAMEPAD_RIGHT_SHOULDER });
        v.push(KeyName { label: "LB", vk: VK_GAMEPAD_LEFT_SHOULDER });
    }
    assert(v@ =~= category_keys(i as int));
    v
}

fn category_name_of(i: usize) -> (n: &'static str)
    requires
        i < 5,
    ensures
        n == category_name(i as int),
{
    if i == 0 {
        "字母 (A-Z)"
    } else if i == 1 {
        "数字 (0-9)"
    } else if i == 2 {
        "功能键 (F1-F12)"
    } else if i == 3 {
        "控制与编辑"
    } else {
        "游戏手柄"
    }
}

/// Whether `c` is the catalogue's category `i`.
pub open spec fn is_catalog_category(c: KeyCategory, i: int) -> bool {
    &&& c.name@ == category_name(i)@
    &&& c.keys@.len() == category_keys(i).len()
    &&& forall|j: int| 0 <= j < category_keys(i).len() ==> (#[trigger] c.keys@[j]).label@ == category_keys(i)[j].label@
        && c.keys@[j].vk == category_keys(i)[j].vk
}

fn make_category(i: usize) -> (c: KeyCategory)
    requires
        i < 5,
    ensures
        is_catalog_category(c, i as int),
{
    let defs = category_key_list(i);
    let mut keys: Vec<KeyInfo> = Vec::new();
    let mut j: usize = 0;
    while j < defs.len()
        invariant
            j <= defs@.len(),
            defs@ == category_keys(i as int),
            keys@.len() == j,
            forall|k: int| 0 <= k < j ==> (#[trigger] keys@[k]).label@ == defs@[k].label@ && keys@[k].vk == defs@[k].vk,
        decreases defs@.len() - j,
    {
        let d = defs[j];
        keys.push(KeyInfo { label: String::from_str(d.label), vk: d.vk });
        j = j + 1;
    }
    KeyCategory { name: String::from_str(category_name_of(i)), keys }
}

/// The key picker's catalogue: letters, digits, function keys, control keys and
/// gamepad keys.
pub fn key_catalog() -> (cats: Vec<KeyCategory>)
    ensures
        cats@.len() == 5,
        forall|i: int| 0 <= i < 5 ==> is_catalog_category(#[trigger] cats@[i], i),
{
    let mut cats: Vec<KeyCategory> = Vec::new();
    let mut i: usize = 0;
    while i < 5
        invariant
            i <= 5,
            cats@.len() == i,
            forall|k: int| 0 <= k < i ==> is_catalog_category(#[trigger] cats@[k], k),
        decreases 5 - i,
    {
        let c = make_category(i);
        cats.push(c);
        i = i + 1;
    }
    cats
}

/// The switches kept in the settings file.
#[derive(Clone, Copy, Debug, PartialEq, Eq, Structural)]
pub struct GlobalSettings {
    pub use_system_osk: bool,
    pub use_virtual_gamepad: bool,
    pub minimize_to_tray: bool,
}

/// The switches of state `s` that the settings file keeps.
pub open spec fn settings_of(s: AppState) -> GlobalSettings {
    GlobalSettings {
        use_system_osk: s.use_system_osk,
        use_virtual_gamepad: s.use_virtual_gamepad,
        minimize_to_tray: s.minimize_to_tray,
    }
}

/// State `s` with the switches read from a settings file `g`; nothing else changes.
pub open spec fn with_settings(s: AppState, g: GlobalSettings) -> AppState {
    AppState {
        use_system_osk: g.use_system_osk,
        use_virtual_gamepad: g.use_virtual_gamepad,
        minimize_to_tray: g.minimize_to_tray,
        ..s
    }
}

/// Switches written from state `s` and read back into state `t` give `t` the switches
/// of `s` and change nothing else of `t`; read back into `s` itself they change nothing.
pub proof fn lemma_settings_round_trip(s: AppState, t: AppState)
    ensures
        with_settings(t, settings_of(s)).use_system_osk == s.use_system_osk,
        with_settings(t, settings_of(s)).use_virtual_gamepad == s.use_virtual_gamepad,
        with_settings(t, settings_of(s)).minimize_to_tray == s.minimize_to_tray,
        with_settings(t, settings_of(s)) == (AppState {
            use_system_osk: s.use_system_osk,
            use_virtual_gamepad: s.use_virtual_gamepad,
            minimize_to_tray: s.minimize_to_tray,
            ..t
        }),
        with_settings(s, settings_of(s)) == s,
{
}

impl AppState {
    /// The switches to write to the settings file.
    pub fn global_settings(&self) -> (g: GlobalSettings)
        ensures
            g == settings_of(*self),
    {
        GlobalSettings {
            use_system_osk: self.use_system_osk,
            use_virtual_gamepad: self.use_virtual_gamepad,
            minimize_to_tray: self.minimize_to_tray,
        }
    }

    /// Takes the switches read from the settings file.
    pub fn apply_global_settings(&mut self, g: GlobalSettings)
        ensures
            *final(self) == with_settings(*old(self), g),
    {
        self.use_system_osk = g.use_system_osk;
        self.use_virtual_gamepad = g.use_virtual_gamepad;
        self.minimize_to_tray = g.minimize_to_tray;
    }
}

/// The button a fresh setup starts with: "A" at (100, 200), 100 x 100.
pub open spec fn is_starter_button(b: VirtualButton) -> bool {
    &&& b.rect == (SerializableRect { left: 100, top: 200, right: 200, bottom: 300 })
    &&& b.key_code == VK_A
    &&& b.label@ == "A"@
    &&& b.opacity == 180
    &&& !b.is_pressed
    &&& b.group == 0
    &&& b.variant == ButtonVariant::Normal
    &&& b.group_id == 0
    &&& b.joystick_bits == (0u32, 0u32)
    &&& b.combo_category == -1
    &&& b.group_name is None
    &&& b.corner_radius == 25
    &&& b.sensitivity_bits == SENSITIVITY_ONE_BITS
}

/// Whether `s` is the state the overlay starts in with the saved buttons `saved`
/// (before any configuration is loaded): paused, with the saved buttons (or the starter
/// button when none were saved), the key catalogue, the keyboard laid out in its panel
/// at (100, 400), and everything else off, empty or at the origin.
pub open spec fn is_initial_state(s: AppState, saved: Seq<VirtualButton>) -> bool {
    let o = Point { x: 0, y: 0 };
    &&& if saved.len() == 0 {
        s.buttons@.len() == 1 && is_starter_button(s.buttons@[0])
    } else {
        s.buttons@ == saved
    }
    &&& s.key_categories@.len() == 5
    &&& forall|i: int| 0 <= i < 5 ==> is_catalog_category(#[trigger] s.key_categories@[i], i)
    &&& s.osk_buttons@.len() == 66
    &&& forall|r: int, c: int| 0 <= r < 5 && 0 <= c < osk_row_defs(r).len() ==> #[trigger] osk_slot(s.osk_buttons@, r, c)
    &&& s.osk_rect == (SerializableRect { left: 100, top: 400, right: 995, bottom: 745 })
    &&& s.mode == ProgramMode::Paused
    &&& s.dragging_button_index is None
    &&& s.drag_offset == o
    &&& s.last_mouse_pos == o
    &&& s.group_selected is None
    &&& s.touchpad_active_button is None
    &&& s.touchpad_last_pos == o
    &&& s.configs@.len() == 0
    &&& s.configs_dir@ == "configs"@
    &&& s.config_selected is None
    &&& !s.osk_visible
    &&& s.osk_target_text is None
    &&& s.osk_drag_offset == o
    &&& !s.is_dragging_osk
    &&& s.group_drag_start_pt == o
    &&& s.active_group_drag_id is None
    &&& s.edit_selected_group_id is None
    &&& !s.auto_start
    &&& !s.use_system_osk
    &&& !s.use_virtual_gamepad
    &&& !s.minimize_to_tray
    &&& s.active_touches@ == Map::<u32, TouchRecord>::empty()
    &&& s.combo_select_mode is None
    &&& s.combo_select_temp@.len() == 0
}

impl AppState {
    /// The state the overlay starts in with the buttons `saved` read from the saved
    /// configuration (see `is_initial_state`).
    pub fn new(saved: Vec<VirtualButton>) -> (s: AppState)
        ensures
            is_initial_state(s, saved@),
    {
        let mut buttons = saved;
        if buttons.len() == 0 {
            buttons.push(VirtualButton {
                rect: SerializableRect { left: 100, top: 200, right: 200, bottom: 300 },
                key_code: VK_A,
                label: String::from_str("A"),
                opacity: 180,
                is_pressed: false,
                group: 0,
                variant: ButtonVariant::Normal,
                group_id: 0,
                joystick_bits: (0, 0),
                combo_category: -1,
                group_name: None,
                corner_radius: 25,
                sensitivity_bits: SENSITIVITY_ONE_BITS,
            });
        }
        let o = Point { x: 0, y: 0 };
        let mut s = AppState {
            mode: ProgramMode::Paused,
            buttons,
            dragging_button_index: None,
            drag_offset: o,
            last_mouse_pos: o,
            key_categories: key_catalog(),
            group_selected: None,
            touchpad_active_button: None,
            touchpad_last_pos: o,
            configs: Vec::new(),
            configs_dir: String::from_str("configs"),
            config_selected: None,
            osk_visible: false,
            osk_rect: SerializableRect { left: 100, top: 400, right: 900, bottom: 650 },
            osk_buttons: Vec::new(),
            osk_target_text: None,
            osk_drag_offset: o,
            is_dragging_osk: false,
            group_drag_start_pt: o,
            active_group_drag_id: None,
            edit_selected_group_id: None,
            auto_start: false,
            use_system_osk: false,
            use_virtual_gamepad: false,
            minimize_to_tray: false,
            active_touches: std::collections::HashMap::new(),
            combo_select_mode: None,
            combo_select_temp: Vec::new(),
        };
        s.generate_osk_layout();
        s
    }
}

/// Whether two buttons save the same: every field that a configuration file keeps
/// (all but the pressed flag and the stick position) is equal.
pub open spec fn saves_same(a: VirtualButton, b: VirtualButton) -> bool {
    &&& a.rect == b.rect
    &&& a.key_code == b.key_code
    &&& a.label@ == b.label@
    &&& a.opacity == b.opacity
    &&& a.group == b.group
    &&& a.variant == b.variant
    &&& a.group_id == b.group_id
    &&& a.combo_category == b.combo_category
    &&& match (a.group_name, b.group_name) {
        (Some(x), Some(y)) => x@ == y@,
        (None, None) => true,
        _ => false,
    }
    &&& a.corner_radius == b.corner_radius
    &&& a.sensitivity_bits == b.sensitivity_bits
}

/// Whether two button lists save the same.
pub open spec fn lists_save_same(a: Seq<VirtualButton>, b: Seq<VirtualButton>) -> bool {
    a.len() == b.len() && forall|i: int| 0 <= i < a.len() ==> saves_same(#[trigger] a[i], b[i])
}

fn same_opt_text(a: &Option<String>, b: &Option<String>) -> (r: bool)
    ensures
        r == match (*a, *b) {
            (Some(x), Some(y)) => x@ == y@,
            (None, None) => true,
            _ => false,
        },
{
    match (a, b) {
        (Some(x), Some(y)) => *x == *y,
        (None, None) => true,
        _ => false,
    }
}

/// Decides whether two button lists save the same.
pub fn buttons_save_same(a: &Vec<VirtualButton>, b: &Vec<VirtualButton>) -> (r: bool)
    ensures
        r == lists_save_same(a@, b@),
{
    if a.len() != b.len() {
        return false;
    }
    let mut i: usize = 0;
    while i < a.len()
        invariant
            i <= a@.len(),
            a@.len() == b@.len(),
            forall|j: int| 0 <= j < i ==> saves_same(#[trigger] a@[j], b@[j]),
        decreases a@.len() - i,
    {
        let x = &a[i];
        let y = &b[i];
        let same = x.rect == y.rect && x.key_code == y.key_code && x.label == y.label && x.opacity == y.opacity
            && x.group == y.group && x.variant == y.variant && x.group_id == y.group_id && x.combo_category
            == y.combo_category && same_opt_text(&x.group_name, &y.group_name) && x.corner_radius == y.corner_radius
            && x.sensitivity_bits == y.sensitivity_bits;
        if !same {
            return false;
        }
        i = i + 1;
    }
    true
}

impl AppState {
    /// Whether the buttons differ from those saved in the selected configuration
    /// (`saved`, read from its file; empty when it cannot be read): only when a listed
    /// configuration is selected.
    pub fn has_unsaved_changes(&self, saved: &Vec<VirtualButton>) -> (r: bool)
        ensures
            r == unsaved_changes(*self, saved@),
    {
        match self.config_selected {
            Some(i) => i < self.configs.len() && !buttons_save_same(&self.buttons, saved),
            None => false,
        }
    }
}

/// Whether state `s` has changes that the selected configuration, whose file holds
/// `saved`, lacks: only when a listed configuration is selected, and then when the
/// buttons do not save the same as `saved`.
pub open spec fn unsaved_changes(s: AppState, saved: Seq<VirtualButton>) -> bool {
    match s.config_selected {
        Some(i) => i < s.configs@.len() && !lists_save_same(s.buttons@, saved),
        None => false,
    }
}

/// Right after the buttons are saved to the selected configuration and its file is read
/// back as the list that was written, the state has no unsaved change.
pub proof fn lemma_saved_selection_is_clean(s: AppState)
    ensures
        !unsaved_changes(s, s.buttons@),
{
    lemma_saved_buttons_are_clean(s.buttons@);
}

/// Buttons compared with themselves show no unsaved change: right after the buttons are
/// saved (and read back unchanged), the editor has nothing to save.
pub proof fn lemma_saved_buttons_are_clean(bs: Seq<VirtualButton>)
    ensures
        lists_save_same(bs, bs),
{
}

} // verus!
