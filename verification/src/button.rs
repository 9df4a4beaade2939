//! The virtual button model and its defaults.
use vstd::prelude::*;
use crate::geometry::SerializableRect;
use crate::geometry::spec_rect_at;
use crate::geometry::fits_i32;
use crate::geometry::rect_at;

verus! {

/// How a virtual button behaves when touched.
#[derive(Clone, Copy, Debug, PartialEq, Eq, Structural)]
pub enum ButtonVariant {
    Normal,
    Joystick,
    Trigger,
    OSKToggle,
}

impl Default for ButtonVariant {
    fn default() -> (v: Self)
        ensures
            v == ButtonVariant::Normal,
    {
        ButtonVariant::Normal
    }
}

/// IEEE-754 bit pattern of `1.0f32`, the default touchpad sensitivity.
pub const SENSITIVITY_ONE_BITS: u32 = 0x3F80_0000;

/// A button drawn on the overlay.
///
/// `joystick_bits` and `sensitivity_bits` hold the bit patterns of `f32` values
/// (the analog stick/trigger position and the touchpad sensitivity). The library
/// only stores them, resets the position to `0.0` (bits `0`) and copies them; the
/// floating-point work on them happens outside the library.
pub struct VirtualButton {
    pub rect: SerializableRect,
    pub key_code: u16,
    pub label: String,
    pub opacity: u8,
    pub is_pressed: bool,
    pub group: u8,
    pub variant: ButtonVariant,
    pub group_id: u32,
    pub joystick_bits: (u32, u32),
    pub combo_category: i32,
    pub group_name: Option<String>,
    pub corner_radius: i32,
    pub sensitivity_bits: u32,
}

/// Clones an optional string, keeping its value.
pub fn clone_opt_string(s: &Option<String>) -> (r: Option<String>)
    ensures
        r == *s,
{
    match s {
        Some(t) => Some(t.clone()),
        None => None,
    }
}

impl Clone for VirtualButton {
    fn clone(&self) -> (r: Self)
        ensures
            r == *self,
    {
        VirtualButton {
            rect: self.rect,
            key_code: self.key_code,
            label: self.label.clone(),
            opacity: self.opacity,
            is_pressed: self.is_pressed,
            group: self.group,
            variant: self.variant,
            group_id: self.group_id,
            joystick_bits: self.joystick_bits,
            combo_category: self.combo_category,
            group_name: clone_opt_string(&self.group_name),
            corner_radius: self.corner_radius,
            sensitivity_bits: self.sensitivity_bits,
        }
    }
}

/// Default combo category of a button that belongs to no combo.
pub fn default_combo_category() -> (r: i32)
    ensures
        r == -1,
{
    -1
}

/// Default corner radius of a button.
pub fn default_corner_radius() -> (r: i32)
    ensures
        r == 25,
{
    25
}

/// Default opacity of a button read from a configuration without one.
pub fn default_opacity() -> (r: u8)
    ensures
        r == 180,
{
    180
}

/// Default interaction group of a button.
pub fn default_group() -> (r: u8)
    ensures
        r == 0,
{
    0
}

/// Default touchpad sensitivity (the bits of `1.0f32`).
pub fn default_sensitivity() -> (r: u32)
    ensures
        r == SENSITIVITY_ONE_BITS,
{
    SENSITIVITY_ONE_BITS
}

/// Whether `b` is the button that `create_btn` builds from these arguments.
pub open spec fn is_new_button(
    b: VirtualButton,
    x: int,
    y: int,
    w: int,
    h: int,
    label: Seq<char>,
    code: u16,
    gid: u32,
    variant: ButtonVariant,
    combo_category: i32,
    group: u8,
) -> bool {
    &&& b.rect == spec_rect_at(x, y, w, h)
    &&& b.key_code == code
    &&& b.label@ == label
    &&& b.opacity == 180
    &&& !b.is_pressed
    &&& b.group == group
    &&& b.variant == variant
    &&& b.group_id == gid
    &&& b.joystick_bits == (0u32, 0u32)
    &&& b.combo_category == combo_category
    &&& b.group_name is None
    &&& b.corner_radius == 25
    &&& b.sensitivity_bits == SENSITIVITY_ONE_BITS
}

/// Builds a button with the default style (opacity 180, radius 25, sensitivity 1.0).
pub fn new_button(
    x: i32,
    y: i32,
    w: i32,
    h: i32,
    label: String,
    code: u16,
    gid: u32,
    variant: ButtonVariant,
    combo_category: i32,
    group: u8,
) -> (b: VirtualButton)
    requires
        fits_i32(x + w),
        fits_i32(y + h),
    ensures
        is_new_button(b, x as int, y as int, w as int, h as int, label@, code, gid, variant, combo_category, group),
{
    VirtualButton {
        rect: rect_at(x, y, w, h),
        key_code: code,
        label,
        opacity: 180,
        is_pressed: false,
        group,
        variant,
        group_id: gid,
        joystick_bits: (0, 0),
        combo_category,
        group_name: None,
        corner_radius: 25,
        sensitivity_bits: SENSITIVITY_ONE_BITS,
    }
}

impl Default for VirtualButton {
    /// The button a "new button" flow starts from: a 100x100 square at the origin
    /// labelled "New", fully opaque, unbound (key 0).
    fn default() -> (b: Self)
        ensures
            b.rect == (SerializableRect { left: 0, top: 0, right: 100, bottom: 100 }),
            b.key_code == 0,
            b.label@ == "New"@,
            b.opacity == 255,
            !b.is_pressed,
            b.group == 0,
            b.group_id == 0,
            b.joystick_bits == (0u32, 0u32),
            b.variant == ButtonVariant::Normal,
            b.combo_category == -1,
            b.group_name is None,
            b.corner_radius == 25,
            b.sensitivity_bits == SENSITIVITY_ONE_BITS,
    {
        VirtualButton {
            rect: SerializableRect { left: 0, top: 0, right: 100, bottom: 100 },
            key_code: 0,
            label: String::from_str("New"),
            opacity: 255,
            is_pressed: false,
            group: 0,
            group_id: 0,
            joystick_bits: (0, 0),
            variant: ButtonVariant::Normal,
            combo_category: -1,
            group_name: None,
            corner_radius: 25,
            sensitivity_bits: SENSITIVITY_ONE_BITS,
        }
    }
}

} // verus!
