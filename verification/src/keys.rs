//! Virtual-key codes and the pure decisions of input injection.
use vstd::prelude::*;

verus! {

pub const VK_LBUTTON: u16 = 0x01;
pub const VK_RBUTTON: u16 = 0x02;
pub const VK_BACK: u16 = 0x08;
pub const VK_TAB: u16 = 0x09;
pub const VK_RETURN: u16 = 0x0D;
pub const VK_CAPITAL: u16 = 0x14;
pub const VK_ESCAPE: u16 = 0x1B;
pub const VK_SPACE: u16 = 0x20;
pub const VK_PRIOR: u16 = 0x21;
pub const VK_NEXT: u16 = 0x22;
pub const VK_END: u16 = 0x23;
pub const VK_HOME: u16 = 0x24;
pub const VK_LEFT: u16 = 0x25;
pub const VK_UP: u16 = 0x26;
pub const VK_RIGHT: u16 = 0x27;
pub const VK_DOWN: u16 = 0x28;
pub const VK_SNAPSHOT: u16 = 0x2C;
pub const VK_INSERT: u16 = 0x2D;
pub const VK_DELETE: u16 = 0x2E;
pub const VK_0: u16 = 0x30;
pub const VK_1: u16 = 0x31;
pub const VK_2: u16 = 0x32;
pub const VK_3: u16 = 0x33;
pub const VK_4: u16 = 0x34;
pub const VK_5: u16 = 0x35;
pub const VK_6: u16 = 0x36;
pub const VK_7: u16 = 0x37;
pub const VK_8: u16 = 0x38;
pub const VK_9: u16 = 0x39;
pub const VK_A: u16 = 0x41;
pub const VK_B: u16 = 0x42;
pub const VK_C: u16 = 0x43;
pub const VK_D: u16 = 0x44;
pub const VK_E: u16 = 0x45;
pub const VK_F: u16 = 0x46;
pub const VK_G: u16 = 0x47;
pub const VK_H: u16 = 0x48;
pub const VK_I: u16 = 0x49;
pub const VK_J: u16 = 0x4A;
pub const VK_K: u16 = 0x4B;
pub const VK_L: u16 = 0x4C;
pub const VK_M: u16 = 0x4D;
pub const VK_N: u16 = 0x4E;
pub const VK_O: u16 = 0x4F;
pub const VK_P: u16 = 0x50;
pub const VK_Q: u16 = 0x51;
pub const VK_R: u16 = 0x52;
pub const VK_S: u16 = 0x53;
pub const VK_T: u16 = 0x54;
pub const VK_U: u16 = 0x55;
pub const VK_V: u16 = 0x56;
pub const VK_W: u16 = 0x57;
pub const VK_X: u16 = 0x58;
pub const VK_Y: u16 = 0x59;
pub const VK_Z: u16 = 0x5A;
pub const VK_LWIN: u16 = 0x5B;
pub const VK_RWIN: u16 = 0x5C;
pub const VK_APPS: u16 = 0x5D;
pub const VK_DIVIDE: u16 = 0x6F;
pub const VK_F1: u16 = 0x70;
pub const VK_F2: u16 = 0x71;
pub const VK_F3: u16 = 0x72;
pub const VK_F4: u16 = 0x73;
pub const VK_F5: u16 = 0x74;
pub const VK_F6: u16 = 0x75;
pub const VK_F7: u16 = 0x76;
pub const VK_F8: u16 = 0x77;
pub const VK_F9: u16 = 0x78;
pub const VK_F10: u16 = 0x79;
pub const VK_F11: u16 = 0x7A;
pub const VK_F12: u16 = 0x7B;
pub const VK_NUMLOCK: u16 = 0x90;
pub const VK_LSHIFT: u16 = 0xA0;
pub const VK_RSHIFT: u16 = 0xA1;
pub const VK_LCONTROL: u16 = 0xA2;
pub const VK_RCONTROL: u16 = 0xA3;
pub const VK_LMENU: u16 = 0xA4;
pub const VK_RMENU: u16 = 0xA5;
pub const VK_OEM_1: u16 = 0xBA;
pub const VK_OEM_PLUS: u16 = 0xBB;
pub const VK_OEM_COMMA: u16 = 0xBC;
pub const VK_OEM_MINUS: u16 = 0xBD;
pub const VK_OEM_PERIOD: u16 = 0xBE;
pub const VK_OEM_2: u16 = 0xBF;
pub const VK_OEM_3: u16 = 0xC0;
pub const VK_GAMEPAD_A: u16 = 0xC3;
pub const VK_GAMEPAD_B: u16 = 0xC4;
pub const VK_GAMEPAD_X: u16 = 0xC5;
pub const VK_GAMEPAD_Y: u16 = 0xC6;
pub const VK_GAMEPAD_RIGHT_SHOULDER: u16 = 0xC7;
pub const VK_GAMEPAD_LEFT_SHOULDER: u16 = 0xC8;
pub const VK_GAMEPAD_LEFT_TRIGGER: u16 = 0xC9;
pub const VK_GAMEPAD_RIGHT_TRIGGER: u16 = 0xCA;
pub const VK_GAMEPAD_DPAD_UP: u16 = 0xCB;
pub const VK_GAMEPAD_DPAD_DOWN: u16 = 0xCC;
pub const VK_GAMEPAD_DPAD_LEFT: u16 = 0xCD;
pub const VK_GAMEPAD_DPAD_RIGHT: u16 = 0xCE;
pub const VK_GAMEPAD_MENU: u16 = 0xCF;
pub const VK_GAMEPAD_VIEW: u16 = 0xD0;
pub const VK_GAMEPAD_LEFT_THUMBSTICK_BUTTON: u16 = 0xD1;
pub const VK_GAMEPAD_RIGHT_THUMBSTICK_BUTTON: u16 = 0xD2;
pub const VK_OEM_4: u16 = 0xDB;
pub const VK_OEM_5: u16 = 0xDC;
pub const VK_OEM_6: u16 = 0xDD;
pub const VK_OEM_7: u16 = 0xDE;

/// Marker placed in `dwExtraInfo` of every input this program injects.
pub const INJECTED_INPUT_SIGNATURE: usize = 0xFFC3C3;
/// Signature the system puts on mouse messages synthesised from touch input.
pub const TOUCH_MOUSE_SIGNATURE: usize = 0xFF51_5700;
/// Mask selecting the signature bits of the extra-info value.
pub const TOUCH_MOUSE_SIGNATURE_MASK: usize = 0xFFFF_FF00;

/// Mouse-input flags of `SendInput`.
pub const MOUSEEVENTF_MOVE: u32 = 0x0001;
pub const MOUSEEVENTF_LEFTDOWN: u32 = 0x0002;
pub const MOUSEEVENTF_LEFTUP: u32 = 0x0004;
pub const MOUSEEVENTF_RIGHTDOWN: u32 = 0x0008;
pub const MOUSEEVENTF_RIGHTUP: u32 = 0x0010;
/// Keyboard-input flags of `SendInput`.
pub const KEYEVENTF_EXTENDEDKEY: u32 = 0x0001;
pub const KEYEVENTF_KEYUP: u32 = 0x0002;
pub const KEYEVENTF_SCANCODE: u32 = 0x0008;

/// The keyboard key that stands in for a gamepad key, where there is one.
pub open spec fn spec_gamepad_to_vk(vk: u16) -> Option<u16> {
    if vk == VK_GAMEPAD_A { Some(VK_SPACE) }
    else if vk == VK_GAMEPAD_B { Some(VK_ESCAPE) }
    else if vk == VK_GAMEPAD_X { Some(VK_E) }
    else if vk == VK_GAMEPAD_Y { Some(VK_Q) }
    else if vk == VK_GAMEPAD_LEFT_SHOULDER { Some(VK_Q) }
    else if vk == VK_GAMEPAD_RIGHT_SHOULDER { Some(VK_E) }
    else if vk == VK_GAMEPAD_DPAD_UP { Some(VK_UP) }
    else if vk == VK_GAMEPAD_DPAD_DOWN { Some(VK_DOWN) }
    else if vk == VK_GAMEPAD_DPAD_LEFT { Some(VK_LEFT) }
    else if vk == VK_GAMEPAD_DPAD_RIGHT { Some(VK_RIGHT) }
    else if vk == VK_GAMEPAD_MENU { Some(VK_RETURN) }
    else if vk == VK_GAMEPAD_VIEW { Some(VK_TAB) }
    else if vk == VK_GAMEPAD_LEFT_THUMBSTICK_BUTTON { Some(VK_LSHIFT) }
    else if vk == VK_GAMEPAD_RIGHT_THUMBSTICK_BUTTON { Some(VK_LCONTROL) }
    else { None }
}

/// Maps some gamepad virtual keys to the keyboard key that replaces them.
pub fn map_gamepad_to_vk(vk: u16) -> (res: Option<u16>)
    ensures
        res == spec_gamepad_to_vk(vk),
{
    if vk == VK_GAMEPAD_A { Some(VK_SPACE) }
    else if vk == VK_GAMEPAD_B { Some(VK_ESCAPE) }
    else if vk == VK_GAMEPAD_X { Some(VK_E) }
    else if vk == VK_GAMEPAD_Y { Some(VK_Q) }
    else if vk == VK_GAMEPAD_LEFT_SHOULDER { Some(VK_Q) }
    else if vk == VK_GAMEPAD_RIGHT_SHOULDER { Some(VK_E) }
    else if vk == VK_GAMEPAD_DPAD_UP { Some(VK_UP) }
    else if vk == VK_GAMEPAD_DPAD_DOWN { Some(VK_DOWN) }
    else if vk == VK_GAMEPAD_DPAD_LEFT { Some(VK_LEFT) }
    else if vk == VK_GAMEPAD_DPAD_RIGHT { Some(VK_RIGHT) }
    else if vk == VK_GAMEPAD_MENU { Some(VK_RETURN) }
    else if vk == VK_GAMEPAD_VIEW { Some(VK_TAB) }
    else if vk == VK_GAMEPAD_LEFT_THUMBSTICK_BUTTON { Some(VK_LSHIFT) }
    else if vk == VK_GAMEPAD_RIGHT_THUMBSTICK_BUTTON { Some(VK_LCONTROL) }
    else { None }
}

/// The XInput button bit that a gamepad virtual key sets in a report (0 for other keys).
pub open spec fn spec_gamepad_mask(vk: u16) -> u16 {
    if vk == VK_GAMEPAD_A { 0x1000 }
    else if vk == VK_GAMEPAD_B { 0x2000 }
    else if vk == VK_GAMEPAD_X { 0x4000 }
    else if vk == VK_GAMEPAD_Y { 0x8000 }
    else if vk == VK_GAMEPAD_LEFT_SHOULDER { 0x0100 }
    else if vk == VK_GAMEPAD_RIGHT_SHOULDER { 0x0200 }
    else if vk == VK_GAMEPAD_DPAD_UP { 0x0001 }
    else if vk == VK_GAMEPAD_DPAD_DOWN { 0x0002 }
    else if vk == VK_GAMEPAD_DPAD_LEFT { 0x0004 }
    else if vk == VK_GAMEPAD_DPAD_RIGHT { 0x0008 }
    else if vk == VK_GAMEPAD_MENU { 0x0010 }
    else if vk == VK_GAMEPAD_VIEW { 0x0020 }
    else if vk == VK_GAMEPAD_LEFT_THUMBSTICK_BUTTON { 0x0040 }
    else if vk == VK_GAMEPAD_RIGHT_THUMBSTICK_BUTTON { 0x0080 }
    else { 0 }
}

/// The XInput button bit for a gamepad virtual key.
pub fn gamepad_button_mask(vk: u16) -> (res: u16)
    ensures
        res == spec_gamepad_mask(vk),
{
    if vk == VK_GAMEPAD_A { 0x1000 }
    else if vk == VK_GAMEPAD_B { 0x2000 }
    else if vk == VK_GAMEPAD_X { 0x4000 }
    else if vk == VK_GAMEPAD_Y { 0x8000 }
    else if vk == VK_GAMEPAD_LEFT_SHOULDER { 0x0100 }
    else if vk == VK_GAMEPAD_RIGHT_SHOULDER { 0x0200 }
    else if vk == VK_GAMEPAD_DPAD_UP { 0x0001 }
    else if vk == VK_GAMEPAD_DPAD_DOWN { 0x0002 }
    else if vk == VK_GAMEPAD_DPAD_LEFT { 0x0004 }
    else if vk == VK_GAMEPAD_DPAD_RIGHT { 0x0008 }
    else if vk == VK_GAMEPAD_MENU { 0x0010 }
    else if vk == VK_GAMEPAD_VIEW { 0x0020 }
    else if vk == VK_GAMEPAD_LEFT_THUMBSTICK_BUTTON { 0x0040 }
    else if vk == VK_GAMEPAD_RIGHT_THUMBSTICK_BUTTON { 0x0080 }
    else { 0 }
}

/// Keys that must be sent with the extended-key flag.
pub open spec fn spec_is_extended_key(vk: u16) -> bool {
    vk == VK_LEFT || vk == VK_RIGHT || vk == VK_UP || vk == VK_DOWN || vk == VK_PRIOR
        || vk == VK_NEXT || vk == VK_END || vk == VK_HOME || vk == VK_INSERT || vk == VK_DELETE
        || vk == VK_NUMLOCK || vk == VK_SNAPSHOT || vk == VK_DIVIDE || vk == VK_RMENU
        || vk == VK_RCONTROL || vk == VK_LWIN || vk == VK_RWIN
}

/// Whether a key is sent with the extended-key flag.
pub fn is_extended_key(vk: u16) -> (res: bool)
    ensures
        res == spec_is_extended_key(vk),
{
    vk == VK_LEFT || vk == VK_RIGHT || vk == VK_UP || vk == VK_DOWN || vk == VK_PRIOR
        || vk == VK_NEXT || vk == VK_END || vk == VK_HOME || vk == VK_INSERT || vk == VK_DELETE
        || vk == VK_NUMLOCK || vk == VK_SNAPSHOT || vk == VK_DIVIDE || vk == VK_RMENU
        || vk == VK_RCONTROL || vk == VK_LWIN || vk == VK_RWIN
}

/// What one injected key press or release becomes at the `SendInput` level.
#[derive(Clone, Copy, Debug, PartialEq, Eq, Structural)]
pub enum KeyInput {
    /// A mouse-button event with these `MOUSEEVENTF_*` flags.
    Mouse { flags: u32 },
    /// A scan-code keyboard event for `vk` with these `KEYEVENTF_*` flags.
    Keyboard { vk: u16, flags: u32 },
}

/// The `SendInput` event for a key that is not remapped.
pub open spec fn spec_direct_input(vk: u16, down: bool) -> KeyInput {
    if vk == VK_LBUTTON || vk == VK_RBUTTON {
        KeyInput::Mouse {
            flags: if vk == VK_LBUTTON {
                if down { MOUSEEVENTF_LEFTDOWN } else { MOUSEEVENTF_LEFTUP }
            } else {
                if down { MOUSEEVENTF_RIGHTDOWN } else { MOUSEEVENTF_RIGHTUP }
            },
        }
    } else {
        KeyInput::Keyboard {
            vk,
            flags: KEYEVENTF_SCANCODE | (if down { 0u32 } else { KEYEVENTF_KEYUP })
                | (if spec_is_extended_key(vk) { KEYEVENTF_EXTENDEDKEY } else { 0u32 }),
        }
    }
}

/// The `SendInput` event that injecting `vk` (pressed when `down`) produces.
pub open spec fn spec_key_input(vk: u16, down: bool) -> KeyInput {
    if spec_gamepad_to_vk(vk) is Some {
        spec_direct_input(spec_gamepad_to_vk(vk)->0, down)
    } else {
        spec_direct_input(vk, down)
    }
}

fn direct_input(vk: u16, down: bool) -> (res: KeyInput)
    ensures
        res == spec_direct_input(vk, down),
{
    if vk == VK_LBUTTON || vk == VK_RBUTTON {
        let flags = if vk == VK_LBUTTON {
            if down { MOUSEEVENTF_LEFTDOWN } else { MOUSEEVENTF_LEFTUP }
        } else {
            if down { MOUSEEVENTF_RIGHTDOWN } else { MOUSEEVENTF_RIGHTUP }
        };
        KeyInput::Mouse { flags }
    } else {
        let up_flag: u32 = if down { 0 } else { KEYEVENTF_KEYUP };
        let ext_flag: u32 = if is_extended_key(vk) { KEYEVENTF_EXTENDEDKEY } else { 0 };
        KeyInput::Keyboard { vk, flags: KEYEVENTF_SCANCODE | up_flag | ext_flag }
    }
}

/// Decides how pressing (`down`) or releasing a virtual key is injected: mouse buttons
/// become mouse events, other keys scan-code keyboard events (extended where needed),
/// and every gamepad key that `map_gamepad_to_vk` covers is first replaced by its
/// keyboard stand-in.
pub fn plan_key_input(vk: u16, down: bool) -> (res: KeyInput)
    ensures
        res == spec_key_input(vk, down),
{
    if let Some(mapped) = map_gamepad_to_vk(vk) {
        return direct_input(mapped, down);
    }
    direct_input(vk, down)
}

/// Whether a mouse message's extra info marks it as synthesised from touch.
pub fn is_touch_signature(extra: usize) -> (res: bool)
    ensures
        res == (extra & TOUCH_MOUSE_SIGNATURE_MASK == TOUCH_MOUSE_SIGNATURE),
{
    (extra & TOUCH_MOUSE_SIGNATURE_MASK) == TOUCH_MOUSE_SIGNATURE
}

/// Whether a mouse message's extra info marks it as injected by this program.
pub fn is_injected_signature(extra: usize) -> (res: bool)
    ensures
        res == (extra == INJECTED_INPUT_SIGNATURE),
{
    extra == INJECTED_INPUT_SIGNATURE
}

/// A key that the key picker offers: its label and virtual-key code.
pub struct KeyInfo {
    pub label: String,
    pub vk: u16,
}

impl Clone for KeyInfo {
    fn clone(&self) -> (r: Self)
        ensures
            r == *self,
    {
        KeyInfo { label: self.label.clone(), vk: self.vk }
    }
}

/// A named group of keys in the key picker.
pub struct KeyCategory {
    pub name: String,
    pub keys: Vec<KeyInfo>,
}

/// Division rounding toward zero, as `/` on machine integers.
pub open spec fn div_toward_zero(a: int, b: int) -> int {
    if (a >= 0) == (b > 0) {
        (if a >= 0 { a } else { -a }) / (if b > 0 { b } else { -b })
    } else {
        -((if a >= 0 { a } else { -a }) / (if b > 0 { b } else { -b }))
    }
}

/// The normalised coordinate (0 to 65536 across the screen) of pixel `v` on a screen
/// `size` pixels wide, with the `i32` wrap-around of the product.
pub open spec fn spec_normalized(v: i32, size: i32) -> int {
    div_toward_zero(v.wrapping_mul(65536) as int, size as int)
}

/// Computes a normalised absolute mouse coordinate.
pub fn normalized(v: i32, size: i32) -> (r: i32)
    requires
        size != 0,
        !(v.wrapping_mul(65536) == i32::MIN && size == -1),
    ensures
        r == spec_normalized(v, size),
{
    let a = v.wrapping_mul(65536) as i64;
    let b = size as i64;
    let ma: i64 = if a >= 0 { a } else { -a };
    let mb: i64 = if b > 0 { b } else { -b };
    let q = ma / mb;
    assert(q <= ma) by (nonlinear_arith)
        requires
            q == ma / mb,
            ma >= 0,
            mb >= 1,
    ;
    assert(mb >= 2 ==> q <= ma / 2) by (nonlinear_arith)
        requires
            q == ma / mb,
            ma >= 0,
            mb >= 1,
    ;
    if (a >= 0) == (b > 0) {
        q as i32
    } else {
        (-q) as i32
    }
}

/// A pixel on the screen maps into the absolute range: for `0 <= v < size`, the
/// normalised coordinate lies in `[0, 65536)` (for `v` below 32768, where the product
/// does not wrap).
pub proof fn lemma_normalized_in_range(v: i32, size: i32)
    requires
        0 <= v < size,
        v < 32768,
    ensures
        0 <= spec_normalized(v, size) < 65536,
{
    assert(v * 65536 <= i32::MAX) by (nonlinear_arith)
        requires
            0 <= v < 32768,
    ;
    assert(v.wrapping_mul(65536) == v * 65536);
    let a = v * 65536;
    assert(0 <= a / (size as int) < 65536) by (nonlinear_arith)
        requires
            a == v * 65536,
            0 <= v < size,
    ;
}

/// Whether `vk` is one of the keys that Windows reads as extended: the four arrows,
/// Page Up, Page Down, End, Home, Insert, Delete, Num Lock, Print Screen, numpad
/// Divide, right Alt, right Ctrl and both Windows keys.
pub open spec fn is_extended_code(vk: u16) -> bool {
    vk == 0x25 || vk == 0x27 || vk == 0x26 || vk == 0x28 || vk == 0x21 || vk == 0x22 || vk == 0x23
        || vk == 0x24 || vk == 0x2D || vk == 0x2E || vk == 0x90 || vk == 0x2C || vk == 0x6F
        || vk == 0xA5 || vk == 0xA3 || vk == 0x5B || vk == 0x5C
}

/// The keyboard event of a key pressed (`down`) or released: a scan-code event
/// (`0x0008`), with the key-up flag (`0x0002`) on release and the extended-key flag
/// (`0x0001`) for an extended key.
pub open spec fn keyboard_event(vk: u16, down: bool) -> KeyInput {
    KeyInput::Keyboard {
        vk,
        flags: if is_extended_code(vk) {
            if down { 0x0009u32 } else { 0x000Bu32 }
        } else {
            if down { 0x0008u32 } else { 0x000Au32 }
        },
    }
}

/// The keyboard key that a gamepad key is injected as: A Space, B Escape, X E, Y Q,
/// left shoulder Q, right shoulder E, the D-pad the arrows, Menu Enter, View Tab, the
/// left stick button left Shift and the right stick button left Ctrl; other keys
/// (the triggers among them) are injected as they are.
pub open spec fn stand_in_code(vk: u16) -> u16 {
    if vk == 0xC3 { 0x20 }
    else if vk == 0xC4 { 0x1B }
    else if vk == 0xC5 { 0x45 }
    else if vk == 0xC6 { 0x51 }
    else if vk == 0xC8 { 0x51 }
    else if vk == 0xC7 { 0x45 }
    else if vk == 0xCB { 0x26 }
    else if vk == 0xCC { 0x28 }
    else if vk == 0xCD { 0x25 }
    else if vk == 0xCE { 0x27 }
    else if vk == 0xCF { 0x0D }
    else if vk == 0xD0 { 0x09 }
    else if vk == 0xD1 { 0xA0 }
    else if vk == 0xD2 { 0xA2 }
    else { vk }
}

/// Injecting a key: the left mouse button becomes a left-button event (`0x0002` down,
/// `0x0004` up), the right one a right-button event (`0x0008` / `0x0010`); every other
/// key, after a gamepad key is replaced by its keyboard stand-in, a scan-code keyboard
/// event whose extended-key flag is set exactly for the extended keys.
pub proof fn lemma_key_injection(vk: u16, down: bool)
    ensures
        vk == 0x01 ==> spec_key_input(vk, down) == (KeyInput::Mouse { flags: if down { 0x0002u32 } else { 0x0004u32 } }),
        vk == 0x02 ==> spec_key_input(vk, down) == (KeyInput::Mouse { flags: if down { 0x0008u32 } else { 0x0010u32 } }),
        vk != 0x01 && vk != 0x02 ==> spec_key_input(vk, down) == keyboard_event(stand_in_code(vk), down),
        is_extended_code(vk) ==> spec_key_input(vk, down) == keyboard_event(vk, down),
        is_extended_code(vk) ==> (spec_key_input(vk, down) matches KeyInput::Keyboard { flags, .. } && flags & 1 == 1),
{
    assert(0x0008u32 | 0u32 | 0u32 == 0x0008u32) by (bit_vector);
    assert(0x0008u32 | 0x0002u32 | 0u32 == 0x000Au32) by (bit_vector);
    assert(0x0008u32 | 0u32 | 0x0001u32 == 0x0009u32) by (bit_vector);
    assert(0x0008u32 | 0x0002u32 | 0x0001u32 == 0x000Bu32) by (bit_vector);
    assert(0x0009u32 & 1 == 1u32) by (bit_vector);
    assert(0x000Bu32 & 1 == 1u32) by (bit_vector);
}

/// The report bit of each gamepad key, as XInput numbers them: A `0x1000`, B `0x2000`,
/// X `0x4000`, Y `0x8000`, left shoulder `0x0100`, right shoulder `0x0200`, D-pad up,
/// down, left, right `0x0001`, `0x0002`, `0x0004`, `0x0008`, Menu `0x0010`, View
/// `0x0020`, left stick button `0x0040`, right stick button `0x0080`; no bit for any
/// other key (the triggers are analog). The fourteen bits are distinct single bits.
pub proof fn lemma_gamepad_report_bits(vk: u16)
    ensures
        vk == 0xC3 ==> spec_gamepad_mask(vk) == 0x1000,
        vk == 0xC4 ==> spec_gamepad_mask(vk) == 0x2000,
        vk == 0xC5 ==> spec_gamepad_mask(vk) == 0x4000,
        vk == 0xC6 ==> spec_gamepad_mask(vk) == 0x8000,
        vk == 0xC8 ==> spec_gamepad_mask(vk) == 0x0100,
        vk == 0xC7 ==> spec_gamepad_mask(vk) == 0x0200,
        vk == 0xCB ==> spec_gamepad_mask(vk) == 0x0001,
        vk == 0xCC ==> spec_gamepad_mask(vk) == 0x0002,
        vk == 0xCD ==> spec_gamepad_mask(vk) == 0x0004,
        vk == 0xCE ==> spec_gamepad_mask(vk) == 0x0008,
        vk == 0xCF ==> spec_gamepad_mask(vk) == 0x0010,
        vk == 0xD0 ==> spec_gamepad_mask(vk) == 0x0020,
        vk == 0xD1 ==> spec_gamepad_mask(vk) == 0x0040,
        vk == 0xD2 ==> spec_gamepad_mask(vk) == 0x0080,
        !(0xC3 <= vk <= 0xD2) || vk == 0xC9 || vk == 0xCA ==> spec_gamepad_mask(vk) == 0,
{
}

/// Different gamepad keys set different bits: two keys with report bits share no bit
/// unless they are the same key.
pub proof fn lemma_gamepad_bits_distinct(a: u16, b: u16)
    requires
        spec_gamepad_mask(a) != 0,
        spec_gamepad_mask(b) != 0,
        a != b,
    ensures
        spec_gamepad_mask(a) & spec_gamepad_mask(b) == 0,
{
    lemma_gamepad_report_bits(a);
    lemma_gamepad_report_bits(b);
    let x = spec_gamepad_mask(a);
    let y = spec_gamepad_mask(b);
    assert(x & y == 0) by (bit_vector)
        requires
            x == 0x1000u16 || x == 0x2000u16 || x == 0x4000u16 || x == 0x8000u16 || x == 0x0100u16 || x == 0x0200u16
                || x == 0x0001u16 || x == 0x0002u16 || x == 0x0004u16 || x == 0x0008u16 || x == 0x0010u16 || x == 0x0020u16
                || x == 0x0040u16 || x == 0x0080u16,
            y == 0x1000u16 || y == 0x2000u16 || y == 0x4000u16 || y == 0x8000u16 || y == 0x0100u16 || y == 0x0200u16
                || y == 0x0001u16 || y == 0x0002u16 || y == 0x0004u16 || y == 0x0008u16 || y == 0x0010u16 || y == 0x0020u16
                || y == 0x0040u16 || y == 0x0080u16,
            x != y,
    ;
}

} // verus!
