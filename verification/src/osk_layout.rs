//! The layout of the virtual on-screen keyboard.
use vstd::prelude::*;
use crate::geometry::SerializableRect;
use crate::button::VirtualButton;
use crate::button::ButtonVariant;
use crate::button::SENSITIVITY_ONE_BITS;
use crate::state::AppState;
use crate::keys::VK_ESCAPE;
use crate::keys::VK_OEM_3;
use crate::keys::VK_0;
use crate::keys::VK_1;
use crate::keys::VK_2;
use crate::keys::VK_3;
use crate::keys::VK_4;
use crate::keys::VK_5;
use crate::keys::VK_6;
use crate::keys::VK_7;
use crate::keys::VK_8;
use crate::keys::VK_9;
use crate::keys::VK_OEM_MINUS;
use crate::keys::VK_OEM_PLUS;
use crate::keys::VK_BACK;
use crate::keys::VK_TAB;
use crate::keys::VK_Q;
use crate::keys::VK_W;
use crate::keys::VK_E;
use crate::keys::VK_R;
use crate::keys::VK_T;
use crate::keys::VK_Y;
use crate::keys::VK_U;
use crate::keys::VK_I;
use crate::keys::VK_O;
use crate::keys::VK_P;
use crate::keys::VK_OEM_4;
use crate::keys::VK_OEM_6;
use crate::keys::VK_OEM_5;
use crate::keys::VK_DELETE;
use crate::keys::VK_CAPITAL;
use crate::keys::VK_A;
use crate::keys::VK_S;
use crate::keys::VK_D;
use crate::keys::VK_F;
use crate::keys::VK_G;
use crate::keys::VK_H;
use crate::keys::VK_J;
use crate::keys::VK_K;
use crate::keys::VK_L;
use crate::keys::VK_OEM_1;
use crate::keys::VK_OEM_7;
use crate::keys::VK_RETURN;
use crate::keys::VK_LSHIFT;
use crate::keys::VK_Z;
use crate::keys::VK_X;
use crate::keys::VK_C;
use crate::keys::VK_V;
use crate::keys::VK_B;
use crate::keys::VK_N;
use crate::keys::VK_M;
use crate::keys::VK_OEM_COMMA;
use crate::keys::VK_OEM_PERIOD;
use crate::keys::VK_OEM_2;
use crate::keys::VK_UP;
use crate::keys::VK_RSHIFT;
use crate::keys::VK_LCONTROL;
use crate::keys::VK_LWIN;
use crate::keys::VK_LMENU;
use crate::keys::VK_SPACE;
use crate::keys::VK_RMENU;
use crate::keys::VK_RCONTROL;
use crate::keys::VK_LEFT;
use crate::keys::VK_DOWN;
use crate::keys::VK_RIGHT;
use crate::keys::VK_APPS;

verus! {

/// Left edge of the first key of each row, relative to the panel.
pub const OSK_START_X: i32 = 10;
/// Top edge of the first row, relative to the panel (below the title bar).
pub const OSK_START_Y: i32 = 60;
/// Width of a one-unit key.
pub const OSK_KEY_UNIT: i32 = 50;
/// Height of every key.
pub const OSK_KEY_HEIGHT: i32 = 50;
/// Gap between neighbouring keys and rows.
pub const OSK_GAP: i32 = 5;
/// Width of a full row: sixteen one-unit keys and the fifteen gaps between them.
pub const OSK_ROW_WIDTH: i32 = OSK_KEY_UNIT * 16 + OSK_GAP * 15;

/// How wide a key is: a fixed number of pixels (one unit is 50; a 1.25-unit key is
/// 62 and a 2.25-unit key 112, the products truncated), or a share of what the row
/// leaves over.
#[derive(Clone, Copy, Debug)]
pub enum KeyWidth {
    Fixed(i32),
    Fill,
}

/// A key of the on-screen keyboard: its label, its virtual-key code and its width.
#[derive(Clone, Copy, Debug)]
pub struct KeyDef {
    pub label: &'static str,
    pub vk: u16,
    pub width: KeyWidth,
}

/// The key rows of the on-screen keyboard, top to bottom: label, key code, width.
pub open spec fn osk_row_defs(r: int) -> Seq<KeyDef> {
    if r == 0 {
        seq![
            KeyDef { label: "Esc", vk: VK_ESCAPE, width: KeyWidth::Fixed(62) },
            KeyDef { label: "`", vk: VK_OEM_3, width: KeyWidth::Fixed(50) },
            KeyDef { label: "1", vk: VK_1, width: KeyWidth::Fixed(50) },
            KeyDef { label: "2", vk: VK_2, width: KeyWidth::Fixed(50) },
            KeyDef { label: "3", vk: VK_3, width: KeyWidth::Fixed(50) },
            KeyDef { label: "4", vk: VK_4, width: KeyWidth::Fixed(50) },
            KeyDef { label: "5", vk: VK_5, width: KeyWidth::Fixed(50) },
            KeyDef { label: "6", vk: VK_6, width: KeyWidth::Fixed(50) },
            KeyDef { label: "7", vk: VK_7, width: KeyWidth::Fixed(50) },
            KeyDef { label: "8", vk: VK_8, width: KeyWidth::Fixed(50) },
            KeyDef { label: "9", vk: VK_9, width: KeyWidth::Fixed(50) },
            KeyDef { label: "0", vk: VK_0, width: KeyWidth::Fixed(50) },
            KeyDef { label: "-", vk: VK_OEM_MINUS, width: KeyWidth::Fixed(50) },
            KeyDef { label: "=", vk: VK_OEM_PLUS, width: KeyWidth::Fixed(50) },
            KeyDef { label: "⌫", vk: VK_BACK, width: KeyWidth::Fill },
        ]
    } else if r == 1 {
        seq![
            KeyDef { label: "Tab", vk: VK_TAB, width: KeyWidth::Fill },
            KeyDef { label: "Q", vk: VK_Q, width: KeyWidth::Fixed(50) },
            KeyDef { label: "W", vk: VK_W, width: KeyWidth::Fixed(50) },
            KeyDef { label: "E", vk: VK_E, width: KeyWidth::Fixed(50) },
            KeyDef { label: "R", vk: VK_R, width: KeyWidth::Fixed(50) },
            KeyDef { label: "T", vk: VK_T, width: KeyWidth::Fixed(50) },
            KeyDef { label: "Y", vk: VK_Y, width: KeyWidth::Fixed(50) },
            KeyDef { label: "U", vk: VK_U, width: KeyWidth::Fixed(50) },
            KeyDef { label: "I", vk: VK_I, width: KeyWidth::Fixed(50) },
            KeyDef { label: "O", vk: VK_O, width: KeyWidth::Fixed(50) },
            KeyDef { label: "P", vk: VK_P, width: KeyWidth::Fixed(50) },
            KeyDef { label: "[", vk: VK_OEM_4, width: KeyWidth::Fixed(50) },
            KeyDef { label: "]", vk: VK_OEM_6, width: KeyWidth::Fixed(50) },
            KeyDef { label: "\\", vk: VK_OEM_5, width: KeyWidth::Fixed(50) },
            KeyDef { label: "DEL", vk: VK_DELETE, width: KeyWidth::Fixed(62) },
        ]
    } else if r == 2 {
        seq![
            KeyDef { label: "Caps", vk: VK_CAPITAL, width: KeyWidth::Fixed(112) },
            KeyDef { label: "A", vk: VK_A, width: KeyWidth::Fixed(50) },
            KeyDef { label: "S", vk: VK_S, width: KeyWidth::Fixed(50) },
            KeyDef { label: "D", vk: VK_D, width: KeyWidth::Fixed(50) },
            KeyDef { label: "F", vk: VK_F, width: KeyWidth::Fixed(50) },
            KeyDef { label: "G", vk: VK_G, width: KeyWidth::Fixed(50) },
            KeyDef { label: "H", vk: VK_H, width: KeyWidth::Fixed(50) },
            KeyDef { label: "J", vk: VK_J, width: KeyWidth::Fixed(50) },
            KeyDef { label: "K", vk: VK_K, width: KeyWidth::Fixed(50) },
            KeyDef { label: "L", vk: VK_L, width: KeyWidth::Fixed(50) },
            KeyDef { label: ";", vk: VK_OEM_1, width: KeyWidth::Fixed(50) },
            KeyDef { label: "'", vk: VK_OEM_7, width: KeyWidth::Fixed(50) },
            KeyDef { label: "Enter", vk: VK_RETURN, width: KeyWidth::Fill },
        ]
    } else if r == 3 {
        seq![
            KeyDef { label: "Shift", vk: VK_LSHIFT, width: KeyWidth::Fill },
            KeyDef { label: "Z", vk: VK_Z, width: KeyWidth::Fixed(50) },
            KeyDef { label: "X", vk: VK_X, width: KeyWidth::Fixed(50) },
            KeyDef { label: "C", vk: VK_C, width: KeyWidth::Fixed(50) },
            KeyDef { label: "V", vk: VK_V, width: KeyWidth::Fixed(50) },
            KeyDef { label: "B", vk: VK_B, width: KeyWidth::Fixed(50) },
            KeyDef { label: "N", vk: VK_N, width: KeyWidth::Fixed(50) },
            KeyDef { label: "M", vk: VK_M, width: KeyWidth::Fixed(50) },
            KeyDef { label: ",", vk: VK_OEM_COMMA, width: KeyWidth::Fixed(50) },
            KeyDef { label: ".", vk: VK_OEM_PERIOD, width: KeyWidth::Fixed(50) },
            KeyDef { label: "/", vk: VK_OEM_2, width: KeyWidth::Fixed(50) },
            KeyDef { label: "↑", vk: VK_UP, width: KeyWidth::Fixed(50) },
            KeyDef { label: "Shift", vk: VK_RSHIFT, width: KeyWidth::Fill },
        ]
    } else {
        seq![
            KeyDef { label: "Ctrl", vk: VK_LCONTROL, width: KeyWidth::Fixed(62) },
            KeyDef { label: "Win", vk: VK_LWIN, width: KeyWidth::Fixed(62) },
            KeyDef { label: "Alt", vk: VK_LMENU, width: KeyWidth::Fixed(62) },
            KeyDef { label: "Space", vk: VK_SPACE, width: KeyWidth::Fill },
            KeyDef { label: "Alt", vk: VK_RMENU, width: KeyWidth::Fixed(62) },
            KeyDef { label: "Ctrl", vk: VK_RCONTROL, width: KeyWidth::Fixed(62) },
            KeyDef { label: "←", vk: VK_LEFT, width: KeyWidth::Fixed(50) },
            KeyDef { label: "↓", vk: VK_DOWN, width: KeyWidth::Fixed(50) },
            KeyDef { label: "→", vk: VK_RIGHT, width: KeyWidth::Fixed(50) },
            KeyDef { label: "Menu", vk: VK_APPS, width: KeyWidth::Fixed(62) },
        ]
    }
}

/// The key row `r` of the on-screen keyboard (rows 0 to 4).
pub fn osk_row(r: usize) -> (v: Vec<KeyDef>)
    requires
        r < 5,
    ensures
        v@ == osk_row_defs(r as int),
{
    let mut v: Vec<KeyDef> = Vec::new();
    if r == 0 {
        v.push(KeyDef { label: "Esc", vk: VK_ESCAPE, width: KeyWidth::Fixed(62) });
        v.push(KeyDef { label: "`", vk: VK_OEM_3, width: KeyWidth::Fixed(50) });
        v.push(KeyDef { label: "1", vk: VK_1, width: KeyWidth::Fixed(50) });
        v.push(KeyDef { label: "2", vk: VK_2, width: KeyWidth::Fixed(50) });
        v.push(KeyDef { label: "3", vk: VK_3, width: KeyWidth::Fixed(50) });
        v.push(KeyDef { label: "4", vk: VK_4, width: KeyWidth::Fixed(50) });
        v.push(KeyDef { label: "5", vk: VK_5, width: KeyWidth::Fixed(50) });
        v.push(KeyDef { label: "6", vk: VK_6, width: KeyWidth::Fixed(50) });
        v.push(KeyDef { label: "7", vk: VK_7, width: KeyWidth::Fixed(50) });
        v.push(KeyDef { label: "8", vk: VK_8, width: KeyWidth::Fixed(50) });
        v.push(KeyDef { label: "9", vk: VK_9, width: KeyWidth::Fixed(50) });
        v.push(KeyDef { label: "0", vk: VK_0, width: KeyWidth::Fixed(50) });
        v.push(KeyDef { label: "-", vk: VK_OEM_MINUS, width: KeyWidth::Fixed(50) });
        v.push(KeyDef { label: "=", vk: VK_OEM_PLUS, width: KeyWidth::Fixed(50) });
        v.push(KeyDef { label: "⌫", vk: VK_BACK, width: KeyWidth::Fill });
    } else if r == 1 {
        v.push(KeyDef { label: "Tab", vk: VK_TAB, width: KeyWidth::Fill });
        v.push(KeyDef { label: "Q", vk: VK_Q, width: KeyWidth::Fixed(50) });
        v.push(KeyDef { label: "W", vk: VK_W, width: KeyWidth::Fixed(50) });
        v.push(KeyDef { label: "E", vk: VK_E, width: KeyWidth::Fixed(50) });
        v.push(KeyDef { label: "R", vk: VK_R, width: KeyWidth::Fixed(50) });
        v.push(KeyDef { label: "T", vk: VK_T, width: KeyWidth::Fixed(50) });
        v.push(KeyDef { label: "Y", vk: VK_Y, width: KeyWidth::Fixed(50) });
        v.push(KeyDef { label: "U", vk: VK_U, width: KeyWidth::Fixed(50) });
        v.push(KeyDef { label: "I", vk: VK_I, width: KeyWidth::Fixed(50) });
        v.push(KeyDef { label: "O", vk: VK_O, width: KeyWidth::Fixed(50) });
        v.push(KeyDef { label: "P", vk: VK_P, width: KeyWidth::Fixed(50) });
        v.push(KeyDef { label: "[", vk: VK_OEM_4, width: KeyWidth::Fixed(50) });
        v.push(KeyDef { label: "]", vk: VK_OEM_6, width: KeyWidth::Fixed(50) });
        v.push(KeyDef { label: "\\", vk: VK_OEM_5, width: KeyWidth::Fixed(50) });
        v.push(KeyDef { label: "DEL", vk: VK_DELETE, width: KeyWidth::Fixed(62) });
    } else if r == 2 {
        v.push(KeyDef { label: "Caps", vk: VK_CAPITAL, width: KeyWidth::Fixed(112) });
        v.push(KeyDef { label: "A", vk: VK_A, width: KeyWidth::Fixed(50) });
        v.push(KeyDef { label: "S", vk: VK_S, width: KeyWidth::Fixed(50) });
        v.push(KeyDef { label: "D", vk: VK_D, width: KeyWidth::Fixed(50) });
        v.push(KeyDef { label: "F", vk: VK_F, width: KeyWidth::Fixed(50) });
        v.push(KeyDef { label: "G", vk: VK_G, width: KeyWidth::Fixed(50) });
        v.push(KeyDef { label: "H", vk: VK_H, width: KeyWidth::Fixed(50) });
        v.push(KeyDef { label: "J", vk: VK_J, width: KeyWidth::Fixed(50) });
        v.push(KeyDef { label: "K", vk: VK_K, width: KeyWidth::Fixed(50) });
        v.push(KeyDef { label: "L", vk: VK_L, width: KeyWidth::Fixed(50) });
        v.push(KeyDef { label: ";", vk: VK_OEM_1, width: KeyWidth::Fixed(50) });
        v.push(KeyDef { label: "'", vk: VK_OEM_7, width: KeyWidth::Fixed(50) });
        v.push(KeyDef { label: "Enter", vk: VK_RETURN, width: KeyWidth::Fill });
    } else if r == 3 {
        v.push(KeyDef { label: "Shift", vk: VK_LSHIFT, width: KeyWidth::Fill });
        v.push(KeyDef { label: "Z", vk: VK_Z, width: KeyWidth::Fixed(50) });
        v.push(KeyDef { label: "X", vk: VK_X, width: KeyWidth::Fixed(50) });
        v.push(KeyDef { label: "C", vk: VK_C, width: KeyWidth::Fixed(50) });
        v.push(KeyDef { label: "V", vk: VK_V, width: KeyWidth::Fixed(50) });
        v.push(KeyDef { label: "B", vk: VK_B, width: KeyWidth::Fixed(50) });
        v.push(KeyDef { label: "N", vk: VK_N, width: KeyWidth::Fixed(50) });
        v.push(KeyDef { label: "M", vk: VK_M, width: KeyWidth::Fixed(50) });
        v.push(KeyDef { label: ",", vk: VK_OEM_COMMA, width: KeyWidth::Fixed(50) });
        v.push(KeyDef { label: ".", vk: VK_OEM_PERIOD, width: KeyWidth::Fixed(50) });
        v.push(KeyDef { label: "/", vk: VK_OEM_2, width: KeyWidth::Fixed(50) });
        v.push(KeyDef { label: "↑", vk: VK_UP, width: KeyWidth::Fixed(50) });
        v.push(KeyDef { label: "Shift", vk: VK_RSHIFT, width: KeyWidth::Fill });
    } else {
        v.push(KeyDef { label: "Ctrl", vk: VK_LCONTROL, width: KeyWidth::Fixed(62) });
        v.push(KeyDef { label: "Win", vk: VK_LWIN, width: KeyWidth::Fixed(62) });
        v.push(KeyDef { label: "Alt", vk: VK_LMENU, width: KeyWidth::Fixed(62) });
        v.push(KeyDef { label: "Space", vk: VK_SPACE, width: KeyWidth::Fill });
        v.push(KeyDef { label: "Alt", vk: VK_RMENU, width: KeyWidth::Fixed(62) });
        v.push(KeyDef { label: "Ctrl", vk: VK_RCONTROL, width: KeyWidth::Fixed(62) });
        v.push(KeyDef { label: "←", vk: VK_LEFT, width: KeyWidth::Fixed(50) });
        v.push(KeyDef { label: "↓", vk: VK_DOWN, width: KeyWidth::Fixed(50) });
        v.push(KeyDef { label: "→", vk: VK_RIGHT, width: KeyWidth::Fixed(50) });
        v.push(KeyDef { label: "Menu", vk: VK_APPS, width: KeyWidth::Fixed(62) });
    }
    assert(v@ =~= osk_row_defs(r as int));
    v
}

/// The total width of the fixed-width keys of a row.
pub open spec fn fixed_sum(row: Seq<KeyDef>) -> int
    decreases row.len(),
{
    if row.len() == 0 {
        0
    } else {
        fixed_sum(row.drop_last()) + match row.last().width {
            KeyWidth::Fixed(w) => w as int,
            KeyWidth::Fill => 0,
        }
    }
}

/// The number of filling keys of a row.
pub open spec fn fill_count(row: Seq<KeyDef>) -> int
    decreases row.len(),
{
    if row.len() == 0 {
        0
    } else {
        fill_count(row.drop_last()) + match row.last().width {
            KeyWidth::Fixed(_) => 0int,
            KeyWidth::Fill => 1int,
        }
    }
}

/// Integer division rounding toward zero (for a positive divisor).
pub open spec fn trunc_div(a: int, b: int) -> int {
    if a >= 0 {
        a / b
    } else {
        -((-a) / b)
    }
}

/// The width of each filling key of a row: what the row width leaves after the fixed
/// keys and the gaps, shared equally (rounded toward zero).
pub open spec fn fill_width(row: Seq<KeyDef>) -> int {
    if fill_count(row) > 0 {
        trunc_div(OSK_ROW_WIDTH - fixed_sum(row) - (row.len() - 1) * OSK_GAP, fill_count(row))
    } else {
        0
    }
}

/// The width of key `c` of a row.
pub open spec fn key_width(row: Seq<KeyDef>, c: int) -> int {
    match row[c].width {
        KeyWidth::Fixed(w) => w as int,
        KeyWidth::Fill => fill_width(row),
    }
}

/// The left edge of key `c` of a row: the keys before it and a gap after each.
pub open spec fn key_left(row: Seq<KeyDef>, c: int) -> int
    decreases c,
{
    if c <= 0 {
        OSK_START_X as int
    } else {
        key_left(row, c - 1) + key_width(row, c - 1) + OSK_GAP
    }
}

/// The top edge of row `r`.
pub open spec fn row_top(r: int) -> int {
    OSK_START_Y + r * (OSK_KEY_HEIGHT + OSK_GAP)
}

/// The rectangle of key `c` of row `r`, relative to the panel.
pub open spec fn placed(r: int, c: int) -> SerializableRect {
    let row = osk_row_defs(r);
    SerializableRect {
        left: key_left(row, c) as i32,
        top: row_top(r) as i32,
        right: (key_left(row, c) + key_width(row, c)) as i32,
        bottom: (row_top(r) + OSK_KEY_HEIGHT) as i32,
    }
}

/// The position of the first key of row `r` in the key list.
pub open spec fn row_start(r: int) -> int
    decreases r,
{
    if r <= 0 {
        0
    } else {
        row_start(r - 1) + osk_row_defs(r - 1).len()
    }
}

/// Whether `b` is the keyboard key described by `d` at rectangle `rect`: opacity 200,
/// everything else as for a fresh button.
pub open spec fn is_osk_key(b: VirtualButton, d: KeyDef, rect: SerializableRect) -> bool {
    &&& b.rect == rect
    &&& b.key_code == d.vk
    &&& b.label@ == d.label@
    &&& b.opacity == 200
    &&& !b.is_pressed
    &&& b.group == 0
    &&& b.variant == ButtonVariant::Normal
    &&& b.group_id == 0
    &&& b.joystick_bits == (0u32, 0u32)
    &&& b.combo_category == -1
    &&& b.group_name is None
    &&& b.corner_radius == 25
    &&& b.sensitivity_bits == SENSITIVITY_ONE_BITS
}

/// Whether the key list `bs` holds key `c` of row `r` in its place.
pub open spec fn osk_slot(bs: Seq<VirtualButton>, r: int, c: int) -> bool {
    is_osk_key(bs[row_start(r) + c], osk_row_defs(r)[c], placed(r, c))
}

/// Whether every fixed width of a row lies between 0 and the row width.
pub open spec fn row_bounded(row: Seq<KeyDef>) -> bool
    decreases row.len(),
{
    if row.len() == 0 {
        true
    } else {
        row_bounded(row.drop_last()) && match row.last().width {
            KeyWidth::Fixed(w) => 0 <= w <= OSK_ROW_WIDTH,
            KeyWidth::Fill => true,
        }
    }
}

proof fn lemma_rows_bounded(r: int)
    requires
        0 <= r < 5,
    ensures
        row_bounded(osk_row_defs(r)),
        1 <= osk_row_defs(r).len() <= 16,
        row_start(5) == 66,
{
    reveal_with_fuel(row_bounded, 17);
    reveal_with_fuel(row_start, 6);
    let row = osk_row_defs(r);
    assert(row.len() <= 16);
    assert(row_bounded(row));
    assert(row_start(5) == 66);
}

proof fn lemma_row_bounded_elems(row: Seq<KeyDef>)
    requires
        row_bounded(row),
    ensures
        forall|c: int| 0 <= c < row.len() ==> (#[trigger] row[c].width matches KeyWidth::Fixed(w) ==> 0 <= w <= OSK_ROW_WIDTH),
    decreases row.len(),
{
    if row.len() > 0 {
        let d = row.drop_last();
        lemma_row_bounded_elems(d);
        assert forall|c: int| 0 <= c < row.len() implies (#[trigger] row[c].width matches KeyWidth::Fixed(w) ==> 0 <= w <= OSK_ROW_WIDTH) by {
            if c < d.len() {
                assert(row[c] == d[c]);
            }
        }
    }
}

proof fn lemma_row_start_mono(r2: int, r: int)
    requires
        0 <= r2 < r,
    ensures
        0 <= row_start(r2),
        row_start(r2) + osk_row_defs(r2).len() <= row_start(r),
    decreases r,
{
    if r2 < r - 1 {
        lemma_row_start_mono(r2, r - 1);
    } else {
        lemma_row_start_nonneg(r2);
    }
}

proof fn lemma_row_start_nonneg(r: int)
    ensures
        0 <= row_start(r),
    decreases r,
{
    if r > 0 {
        lemma_row_start_nonneg(r - 1);
    }
}

/// The room that row `r` leaves for its filling keys (the row width less its fixed keys
/// and gaps) is not negative, and every row has a filling key.
#[verifier::spinoff_prover]
#[verifier::rlimit(40)]
proof fn lemma_row_room(r: int)
    requires
        0 <= r < 5,
    ensures
        fill_count(osk_row_defs(r)) >= 1,
        OSK_ROW_WIDTH - fixed_sum(osk_row_defs(r)) - (osk_row_defs(r).len() - 1) * OSK_GAP >= 0,
{
    reveal_with_fuel(fixed_sum, 17);
    reveal_with_fuel(fill_count, 17);
    let row = osk_row_defs(r);
    if r == 0 {
        assert(fixed_sum(row) == 712 && fill_count(row) == 1);
    } else if r == 1 {
        assert(fixed_sum(row) == 712 && fill_count(row) == 1);
    } else if r == 2 {
        assert(fixed_sum(row) == 662 && fill_count(row) == 1);
    } else if r == 3 {
        assert(fixed_sum(row) == 550 && fill_count(row) == 2);
    } else {
        assert(fixed_sum(row) == 522 && fill_count(row) == 1);
    }
}

/// The left edge of key `c` is the start of the row plus the fixed keys, the filling keys
/// and the gaps before it.
proof fn lemma_left_closed(row: Seq<KeyDef>, c: int)
    requires
        0 <= c <= row.len(),
    ensures
        key_left(row, c) == OSK_START_X + fixed_sum(row.take(c)) + fill_count(row.take(c)) * fill_width(row) + c * OSK_GAP,
    decreases c,
{
    if c > 0 {
        lemma_left_closed(row, c - 1);
        let t = row.take(c);
        assert(t.drop_last() =~= row.take(c - 1));
        assert(t.last() == row[c - 1]);
        let fw = fill_width(row);
        let k = fill_count(row.take(c - 1));
        assert((k + 1) * fw == k * fw + fw) by (nonlinear_arith);
    } else {
        assert(row.take(0) =~= Seq::<KeyDef>::empty());
    }
}

/// With no key narrower than 0, a key ends (with its gap) before any later key starts.
proof fn lemma_left_mono(row: Seq<KeyDef>, c1: int, c2: int)
    requires
        0 <= c1 < c2 <= row.len(),
        forall|c: int| 0 <= c < row.len() ==> key_width(row, c) >= 0,
    ensures
        key_left(row, c1) + key_width(row, c1) + OSK_GAP <= key_left(row, c2),
    decreases c2,
{
    if c2 > c1 + 1 {
        lemma_left_mono(row, c1, c2 - 1);
        assert(key_width(row, c2 - 1) >= 0);
    }
}

/// Every key of row `r` has a width of at least 0, and the keys with their gaps end
/// within the row width.
proof fn lemma_row_fits(r: int)
    requires
        0 <= r < 5,
    ensures
        forall|c: int| 0 <= c < osk_row_defs(r).len() ==> key_width(osk_row_defs(r), c) >= 0,
        key_left(osk_row_defs(r), osk_row_defs(r).len() as int) <= OSK_START_X + OSK_ROW_WIDTH + OSK_GAP,
{
    let row = osk_row_defs(r);
    lemma_row_room(r);
    lemma_rows_bounded(r);
    lemma_row_bounded_elems(row);
    let room = OSK_ROW_WIDTH - fixed_sum(row) - (row.len() - 1) * OSK_GAP;
    let k = fill_count(row);
    let fw = fill_width(row);
    assert(fw == room / k);
    assert(0 <= fw && k * fw <= room) by (nonlinear_arith)
        requires
            fw == room / k,
            room >= 0,
            k >= 1,
    ;
    assert forall|c: int| 0 <= c < row.len() implies key_width(row, c) >= 0 by {
        assert(row[c].width matches KeyWidth::Fixed(w) ==> 0 <= w <= OSK_ROW_WIDTH);
    }
    lemma_left_closed(row, row.len() as int);
    assert(row.take(row.len() as int) =~= row);
}

/// Every key of the on-screen keyboard lies inside the keyboard panel: between the left
/// margin (10) and the end of the 875-pixel row, and between the top of the first row
/// (60) and the bottom of the fifth, inside the 895 x 345 panel that the layout gives.
pub proof fn lemma_key_inside_panel(r: int, c: int)
    requires
        0 <= r < 5,
        0 <= c < osk_row_defs(r).len(),
    ensures
        OSK_START_X <= placed(r, c).left <= placed(r, c).right <= OSK_START_X + OSK_ROW_WIDTH,
        OSK_START_Y <= placed(r, c).top < placed(r, c).bottom <= OSK_START_Y + 5 * OSK_KEY_HEIGHT + 4 * OSK_GAP,
        placed(r, c).right < OSK_ROW_WIDTH + 20,
        placed(r, c).bottom < OSK_START_Y + 5 * (OSK_KEY_HEIGHT + OSK_GAP) + 10,
        placed(r, c).left == key_left(osk_row_defs(r), c),
        placed(r, c).right == key_left(osk_row_defs(r), c) + key_width(osk_row_defs(r), c),
        placed(r, c).top == row_top(r),
        placed(r, c).bottom == row_top(r) + OSK_KEY_HEIGHT,
{
    let row = osk_row_defs(r);
    lemma_row_fits(r);
    let n = row.len() as int;
    if c + 1 < n {
        lemma_left_mono(row, c, n);
    } else {
        assert(key_left(row, n) == key_left(row, c) + key_width(row, c) + OSK_GAP);
    }
    if c > 0 {
        lemma_left_mono(row, 0, c);
    }
    assert(key_width(row, c) >= 0);
}

/// Whether two rectangles share a point.
pub open spec fn rects_overlap(a: SerializableRect, b: SerializableRect) -> bool {
    a.left < b.right && b.left < a.right && a.top < b.bottom && b.top < a.bottom
}

/// No two keys of the on-screen keyboard overlap: keys of one row are a gap apart, and
/// rows are a gap apart.
pub proof fn lemma_keys_apart(r1: int, c1: int, r2: int, c2: int)
    requires
        0 <= r1 < 5,
        0 <= c1 < osk_row_defs(r1).len(),
        0 <= r2 < 5,
        0 <= c2 < osk_row_defs(r2).len(),
        r1 != r2 || c1 != c2,
    ensures
        !rects_overlap(placed(r1, c1), placed(r2, c2)),
{
    lemma_key_inside_panel(r1, c1);
    lemma_key_inside_panel(r2, c2);
    if r1 == r2 {
        let row = osk_row_defs(r1);
        lemma_row_fits(r1);
        if c1 < c2 {
            lemma_left_mono(row, c1, c2);
        } else {
            lemma_left_mono(row, c2, c1);
        }
    }
}

/// Appends the keys of row `r` (at height `top`) to the key list.
fn place_row(bs: &mut Vec<VirtualButton>, r: usize, top: i32)
    requires
        r < 5,
        old(bs)@.len() == row_start(r as int),
        top == row_top(r as int),
        forall|r2: int, c: int| 0 <= r2 < r && 0 <= c < osk_row_defs(r2).len() ==> #[trigger] osk_slot(old(bs)@, r2, c),
    ensures
        final(bs)@.len() == row_start(r + 1),
        forall|r2: int, c: int| 0 <= r2 <= r && 0 <= c < osk_row_defs(r2).len() ==> #[trigger] osk_slot(final(bs)@, r2, c),
{
    let row = osk_row(r);
    proof {
        lemma_rows_bounded(r as int);
        lemma_row_bounded_elems(row@);
    }
    let n = row.len();
    assert(OSK_ROW_WIDTH == 875);
    let mut fixed: i32 = 0;
    let mut fills: i32 = 0;
    let mut c: usize = 0;
    while c < n
        invariant
            c <= n,
            n == row@.len(),
            n <= 16,
            row@ == osk_row_defs(r as int),
            forall|k: int| 0 <= k < row@.len() ==> (#[trigger] row@[k].width matches KeyWidth::Fixed(w) ==> 0 <= w <= OSK_ROW_WIDTH),
            fixed == fixed_sum(row@.take(c as int)),
            fills == fill_count(row@.take(c as int)),
            0 <= fixed <= c * 875,
            0 <= fills <= c,
        decreases n - c,
    {
        assert(row@.take(c as int + 1).drop_last() =~= row@.take(c as int));
        match row[c].width {
            KeyWidth::Fixed(w) => {
                fixed = fixed + w;
            },
            KeyWidth::Fill => {
                fills = fills + 1;
            },
        }
        c = c + 1;
    }
    assert(row@.take(n as int) =~= row@);
    let gaps: i32 = (n as i32 - 1) * OSK_GAP;
    let remaining: i32 = OSK_ROW_WIDTH - fixed - gaps;
    let auto: i32 = if fills > 0 {
        if remaining >= 0 {
            remaining / fills
        } else {
            -((-remaining) / fills)
        }
    } else {
        0
    };
    assert(auto == fill_width(row@));
    assert(-14000 <= auto <= 14000) by (nonlinear_arith)
        requires
            auto == fill_width(row@),
            fills == fill_count(row@),
            -14000 <= remaining <= 14000,
            remaining == OSK_ROW_WIDTH - fixed_sum(row@) - (row@.len() - 1) * OSK_GAP,
            fills > 0 ==> fill_width(row@) == trunc_div(remaining as int, fills as int),
            fills <= 0 ==> fill_width(row@) == 0,
    ;
    let ghost b0 = bs@;
    let mut x: i32 = OSK_START_X;
    let mut c: usize = 0;
    while c < n
        invariant
            c <= n,
            n == row@.len(),
            n <= 16,
            r < 5,
            top == row_top(r as int),
            row@ == osk_row_defs(r as int),
            forall|k: int| 0 <= k < row@.len() ==> (#[trigger] row@[k].width matches KeyWidth::Fixed(w) ==> 0 <= w <= OSK_ROW_WIDTH),
            auto == fill_width(row@),
            -14000 <= auto <= 14000,
            x == key_left(row@, c as int),
            OSK_START_X - c * 14005 <= x <= OSK_START_X + c * 14005,
            b0.len() == row_start(r as int),
            bs@.len() == b0.len() + c,
            forall|i: int| 0 <= i < b0.len() ==> #[trigger] bs@[i] == b0[i],
            forall|k: int| 0 <= k < c ==> #[trigger] osk_slot(bs@, r as int, k),
        decreases n - c,
    {
        let d = row[c];
        let w: i32 = match d.width {
            KeyWidth::Fixed(fw) => fw,
            KeyWidth::Fill => auto,
        };
        assert(w == key_width(row@, c as int));
        let b = VirtualButton {
            rect: SerializableRect { left: x, top, right: x + w, bottom: top + OSK_KEY_HEIGHT },
            key_code: d.vk,
            label: String::from_str(d.label),
            opacity: 200,
            is_pressed: false,
            group: 0,
            variant: ButtonVariant::Normal,
            group_id: 0,
            joystick_bits: (0, 0),
            combo_category: -1,
            group_name: None,
            corner_radius: 25,
            sensitivity_bits: SENSITIVITY_ONE_BITS,
        };
        let ghost before = bs@;
        bs.push(b);
        proof {
            assert(bs@[row_start(r as int) + c] == b);
            assert(osk_slot(bs@, r as int, c as int));
            assert forall|k: int| 0 <= k < c + 1 implies #[trigger] osk_slot(bs@, r as int, k) by {
                if k < c {
                    assert(osk_slot(before, r as int, k));
                    assert(bs@[row_start(r as int) + k] == before[row_start(r as int) + k]);
                }
            }
        }
        x = x + w + OSK_GAP;
        c = c + 1;
    }
    proof {
        assert forall|r2: int, k: int| 0 <= r2 <= r && 0 <= k < osk_row_defs(r2).len() implies #[trigger] osk_slot(bs@, r2, k) by {
            if r2 < r {
                lemma_row_start_mono(r2, r as int);
                assert(osk_slot(b0, r2, k));
                assert(bs@[row_start(r2) + k] == b0[row_start(r2) + k]);
            }
        }
    }
}

impl AppState {
    /// Lays out the on-screen keyboard: five rows of keys (the rows of `osk_row_defs`),
    /// each key placed after the previous one with a 5-pixel gap, starting at (10, 60)
    /// with 55 pixels between rows; filling keys share what a 875-pixel row leaves. The
    /// panel is resized to the rows plus a margin (895 x 345), keeping its top-left
    /// corner.
    pub fn generate_osk_layout(&mut self)
        ensures
            final(self).osk_buttons@.len() == 66,
            forall|r: int, c: int| 0 <= r < 5 && 0 <= c < osk_row_defs(r).len() ==> #[trigger] osk_slot(final(self).osk_buttons@, r, c),
            *final(self) == (AppState {
                osk_buttons: final(self).osk_buttons,
                osk_rect: SerializableRect {
                    right: old(self).osk_rect.left.wrapping_add(895),
                    bottom: old(self).osk_rect.top.wrapping_add(345),
                    ..old(self).osk_rect
                },
                ..*old(self)
            }),
    {
        self.osk_buttons.clear();
        let mut top: i32 = OSK_START_Y;
        let mut r: usize = 0;
        while r < 5
            invariant
                r <= 5,
                top == row_top(r as int),
                self.osk_buttons@.len() == row_start(r as int),
                forall|r2: int, c: int| 0 <= r2 < r && 0 <= c < osk_row_defs(r2).len() ==> #[trigger] osk_slot(self.osk_buttons@, r2, c),
                *self == (AppState { osk_buttons: self.osk_buttons, ..*old(self) }),
            decreases 5 - r,
        {
            place_row(&mut self.osk_buttons, r, top);
            top = top + OSK_KEY_HEIGHT + OSK_GAP;
            r = r + 1;
        }
        proof { lemma_rows_bounded(0); }
        self.osk_rect.right = self.osk_rect.left.wrapping_add(OSK_ROW_WIDTH + 20);
        self.osk_rect.bottom = self.osk_rect.top.wrapping_add(top + 10);
    }
}

/// Whether a key label is a single letter `A` to `Z` or digit `0` to `9`.
pub open spec fn is_letter_or_digit_label(l: Seq<char>) -> bool {
    l.len() == 1 && (('A' <= l[0] && l[0] <= 'Z') || ('0' <= l[0] && l[0] <= '9'))
}

/// Every letter and digit key of the on-screen keyboard sends the key its label names:
/// its virtual-key code is the label's character code (`A` is 0x41, `0` is 0x30).
pub proof fn lemma_osk_letters_send_their_labels(r: int, c: int)
    requires
        0 <= r < 5,
        0 <= c < osk_row_defs(r).len(),
    ensures
        is_letter_or_digit_label(osk_row_defs(r)[c].label@) ==> osk_row_defs(r)[c].vk as int == osk_row_defs(r)[c].label@[0] as int,
{
    reveal_strlit("Esc");
    reveal_strlit("`");
    reveal_strlit("1");
    reveal_strlit("2");
    reveal_strlit("3");
    reveal_strlit("4");
    reveal_strlit("5");
    reveal_strlit("6");
    reveal_strlit("7");
    reveal_strlit("8");
    reveal_strlit("9");
    reveal_strlit("0");
    reveal_strlit("-");
    reveal_strlit("=");
    reveal_strlit("⌫");
    reveal_strlit("Tab");
    reveal_strlit("Q");
    reveal_strlit("W");
    reveal_strlit("E");
    reveal_strlit("R");
    reveal_strlit("T");
    reveal_strlit("Y");
    reveal_strlit("U");
    reveal_strlit("I");
    reveal_strlit("O");
    reveal_strlit("P");
    reveal_strlit("[");
    reveal_strlit("]");
    reveal_strlit("\\");
    reveal_strlit("DEL");
    reveal_strlit("Caps");
    reveal_strlit("A");
    reveal_strlit("S");
    reveal_strlit("D");
    reveal_strlit("F");
    reveal_strlit("G");
    reveal_strlit("H");
    reveal_strlit("J");
    reveal_strlit("K");
    reveal_strlit("L");
    reveal_strlit(";");
    reveal_strlit("'");
    reveal_strlit("Enter");
    reveal_strlit("Shift");
    reveal_strlit("Z");
    reveal_strlit("X");
    reveal_strlit("C");
    reveal_strlit("V");
    reveal_strlit("B");
    reveal_strlit("N");
    reveal_strlit("M");
    reveal_strlit(",");
    reveal_strlit(".");
    reveal_strlit("/");
    reveal_strlit("↑");
    reveal_strlit("Ctrl");
    reveal_strlit("Win");
    reveal_strlit("Alt");
    reveal_strlit("Space");
    reveal_strlit("←");
    reveal_strlit("↓");
    reveal_strlit("→");
    reveal_strlit("Menu");
}

/// No two keys of the on-screen keyboard send the same key: the left and right Shift,
/// Ctrl and Alt keys have codes of their own too.
pub proof fn lemma_osk_codes_distinct(r1: int, c1: int, r2: int, c2: int)
    requires
        0 <= r1 < 5,
        0 <= c1 < osk_row_defs(r1).len(),
        0 <= r2 < 5,
        0 <= c2 < osk_row_defs(r2).len(),
        r1 != r2 || c1 != c2,
    ensures
        osk_row_defs(r1)[c1].vk != osk_row_defs(r2)[c2].vk,
{
}

} // verus!
