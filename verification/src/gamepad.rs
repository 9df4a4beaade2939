//! What the virtual gamepad's report is made of.
use vstd::prelude::*;
use crate::button::VirtualButton;
use crate::button::ButtonVariant;
use crate::keys::spec_gamepad_mask;
use crate::keys::gamepad_button_mask;

verus! {

/// The button bits of the report: the bits of every held ordinary button bound to a
/// gamepad key.
pub open spec fn buttons_mask(bs: Seq<VirtualButton>) -> u16
    decreases bs.len(),
{
    if bs.len() == 0 {
        0
    } else {
        let m = buttons_mask(bs.drop_last());
        let b = bs.last();
        if b.is_pressed && b.variant == ButtonVariant::Normal {
            m | spec_gamepad_mask(b.key_code)
        } else {
            m
        }
    }
}

/// Every held ordinary button sets its gamepad key's bit in the report.
pub proof fn lemma_report_has_held_keys(bs: Seq<VirtualButton>, i: int)
    requires
        0 <= i < bs.len(),
        bs[i].is_pressed,
        bs[i].variant == ButtonVariant::Normal,
    ensures
        buttons_mask(bs) & spec_gamepad_mask(bs[i].key_code) == spec_gamepad_mask(bs[i].key_code),
    decreases bs.len(),
{
    let x = spec_gamepad_mask(bs[i].key_code);
    let d = bs.drop_last();
    let m = buttons_mask(d);
    if i == bs.len() - 1 {
        assert(bs.last() == bs[i]);
        assert((m | x) & x == x) by (bit_vector);
    } else {
        assert(d[i] == bs[i]);
        lemma_report_has_held_keys(d, i);
        let b = bs.last();
        let y = spec_gamepad_mask(b.key_code);
        assert(m & x == x ==> (m | y) & x == x) by (bit_vector);
    }
}

/// A report in which no ordinary button is held has no button bit set.
pub proof fn lemma_report_empty_when_nothing_held(bs: Seq<VirtualButton>)
    requires
        forall|i: int| 0 <= i < bs.len() ==> !(#[trigger] bs[i].is_pressed && bs[i].variant == ButtonVariant::Normal),
    ensures
        buttons_mask(bs) == 0,
    decreases bs.len(),
{
    if bs.len() > 0 {
        let d = bs.drop_last();
        assert forall|i: int| 0 <= i < d.len() implies !(#[trigger] d[i].is_pressed && d[i].variant == ButtonVariant::Normal) by {
            assert(d[i] == bs[i]);
        }
        lemma_report_empty_when_nothing_held(d);
        assert(bs.last() == bs[bs.len() - 1]);
    }
}

/// An analog slot of the report.
#[derive(Clone, Copy, Debug, PartialEq, Eq, Structural)]
pub enum Slot {
    LeftTrigger,
    RightTrigger,
    LeftStick,
    RightStick,
}

/// Whether button `b` feeds slot `s`: a held trigger labelled "LT" or "RT", or a held
/// stick labelled "L-Stick" or "R-Stick".
pub open spec fn feeds(b: VirtualButton, s: Slot) -> bool {
    b.is_pressed && match s {
        Slot::LeftTrigger => b.variant == ButtonVariant::Trigger && b.label@ == "LT"@,
        Slot::RightTrigger => b.variant == ButtonVariant::Trigger && b.label@ == "RT"@,
        Slot::LeftStick => b.variant == ButtonVariant::Joystick && b.label@ == "L-Stick"@,
        Slot::RightStick => b.variant == ButtonVariant::Joystick && b.label@ == "R-Stick"@,
    }
}

/// The button whose value a slot reports: the last button feeding it (none when no
/// button does, and the slot stays at rest).
pub open spec fn slot_source(bs: Seq<VirtualButton>, s: Slot) -> Option<int>
    decreases bs.len(),
{
    if bs.len() == 0 {
        None
    } else if feeds(bs.last(), s) {
        Some(bs.len() - 1)
    } else {
        slot_source(bs.drop_last(), s)
    }
}

/// Computes the button bits of the report.
pub fn report_buttons(bs: &Vec<VirtualButton>) -> (m: u16)
    ensures
        m == buttons_mask(bs@),
{
    let mut m: u16 = 0;
    let mut i: usize = 0;
    while i < bs.len()
        invariant
            i <= bs@.len(),
            m == buttons_mask(bs@.take(i as int)),
        decreases bs@.len() - i,
    {
        assert(bs@.take(i as int + 1).drop_last() =~= bs@.take(i as int));
        if bs[i].is_pressed && bs[i].variant == ButtonVariant::Normal {
            m = m | gamepad_button_mask(bs[i].key_code);
        }
        i = i + 1;
    }
    assert(bs@.take(bs@.len() as int) =~= bs@);
    m
}

/// Finds the button whose value slot `s` reports.
pub fn report_source(bs: &Vec<VirtualButton>, s: Slot) -> (r: Option<usize>)
    ensures
        match r {
            Some(i) => slot_source(bs@, s) == Some(i as int),
            None => slot_source(bs@, s) is None,
        },
{
    let name = match s {
        Slot::LeftTrigger => String::from_str("LT"),
        Slot::RightTrigger => String::from_str("RT"),
        Slot::LeftStick => String::from_str("L-Stick"),
        Slot::RightStick => String::from_str("R-Stick"),
    };
    let variant = match s {
        Slot::LeftTrigger | Slot::RightTrigger => ButtonVariant::Trigger,
        _ => ButtonVariant::Joystick,
    };
    let mut r: Option<usize> = None;
    let mut i: usize = 0;
    while i < bs.len()
        invariant
            i <= bs@.len(),
            forall|b: VirtualButton| feeds(b, s) <==> (b.is_pressed && b.variant == variant && b.label@ == name@),
            match r {
                Some(k) => slot_source(bs@.take(i as int), s) == Some(k as int),
                None => slot_source(bs@.take(i as int), s) is None,
            },
        decreases bs@.len() - i,
    {
        assert(bs@.take(i as int + 1).drop_last() =~= bs@.take(i as int));
        assert(bs@.take(i as int + 1).last() == bs@[i as int]);
        if bs[i].is_pressed && bs[i].variant == variant && bs[i].label == name {
            r = Some(i);
        }
        i = i + 1;
    }
    assert(bs@.take(bs@.len() as int) =~= bs@);
    r
}

/// The warning shown once when the virtual gamepad could not be set up, by the step
/// that failed (4: allocating the client, 5: connecting to the bus driver, 6:
/// allocating the pad, 7: plugging it in; any other code: a general failure).
pub fn gamepad_failure_message(code: u8) -> (m: &'static str)
    ensures
        code == 4 ==> m@ == "ViGEm 客户端内存分配失败。"@,
        code == 5 ==> m@ == "ViGEm 客户端连接失败 (可能是总线驱动未启动)。"@,
        code == 6 ==> m@ == "ViGEm 手柄目标分配失败。"@,
        code == 7 ==> m@ == "ViGEm 接入系统失败。"@,
        !(4 <= code <= 7) ==> m@ == "ViGEm 虚拟手柄初始化失败。"@,
{
    if code == 4 {
        "ViGEm 客户端内存分配失败。"
    } else if code == 5 {
        "ViGEm 客户端连接失败 (可能是总线驱动未启动)。"
    } else if code == 6 {
        "ViGEm 手柄目标分配失败。"
    } else if code == 7 {
        "ViGEm 接入系统失败。"
    } else {
        "ViGEm 虚拟手柄初始化失败。"
    }
}

} // verus!
