//! Scrolling of the settings page and of the property panel, and touch panning.
use vstd::prelude::*;
use crate::osk_layout::trunc_div;
use crate::props::clamp;
use crate::geometry::spec_wabs;
use crate::geometry::wabs;

verus! {

/// The pixels one wheel notch scrolls.
pub const WHEEL_STEP: i32 = 40;

/// The pixels a finger must move before a press becomes a pan.
pub const PAN_THRESHOLD: i32 = 8;

/// The largest scroll offset: what the content exceeds the window by (never negative).
pub open spec fn max_offset(over: int) -> int {
    if over < 0 { 0 } else { over }
}

/// The scroll distance of a wheel turn of `delta` (whole notches of 120, rounded toward
/// zero, 40 pixels each).
pub open spec fn wheel_distance(delta: i16) -> int {
    trunc_div(delta as int, 120) * 40
}

fn wheel_distance_exec(delta: i16) -> (d: i32)
    ensures
        d == wheel_distance(delta),
        -11000 <= d <= 11000,
{
    let notches: i32 = if delta >= 0 { delta as i32 / 120 } else { -((-(delta as i32)) / 120) };
    notches * 40
}

/// The new scroll offset of the settings (or about) page after scrolling by `delta_y`
/// pixels: the offset moves against the finger and stays between 0 and what the
/// content (410 pixels, 330 for the about page) exceeds the window height by.
pub open spec fn spec_settings_scroll(cur: i32, delta_y: i32, window_h: i32, about: bool) -> int {
    let content: int = if about { 330 } else { 410 };
    clamp(cur.wrapping_sub(delta_y) as int, 0, max_offset(content - window_h))
}

/// Computes the settings page's new scroll offset.
pub fn settings_scroll(cur: i32, delta_y: i32, window_h: i32, about: bool) -> (r: i32)
    ensures
        r == spec_settings_scroll(cur, delta_y, window_h, about),
{
    let content: i32 = if about { 330 } else { 410 };
    let over: i64 = content as i64 - window_h as i64;
    let max: i64 = if over < 0 { 0 } else { over };
    let v: i64 = cur.wrapping_sub(delta_y) as i64;
    let r: i64 = if v < 0 { 0 } else if v > max { max } else { v };
    r as i32
}

/// Computes the settings page's new scroll offset after a wheel turn of `delta`.
pub fn settings_wheel(cur: i32, delta: i16, window_h: i32, about: bool) -> (r: i32)
    ensures
        r == spec_settings_scroll(cur, wheel_distance(delta) as i32, window_h, about),
{
    settings_scroll(cur, wheel_distance_exec(delta), window_h, about)
}

/// The largest scroll position of a panel with scroll range up to `nmax` and a page of
/// `npage` pixels.
pub open spec fn panel_max(nmax: i32, npage: i32) -> int {
    max_offset(nmax.wrapping_sub(npage).wrapping_add(1) as int)
}

/// The property panel's position after a wheel turn of `delta`, kept within the range.
pub open spec fn spec_panel_wheel(cur: i32, delta: i16, nmax: i32, npage: i32) -> int {
    clamp(cur.wrapping_sub(wheel_distance(delta) as i32) as int, 0, panel_max(nmax, npage))
}

fn clamp_exec(v: i32, max: i32) -> (r: i32)
    requires
        max >= 0,
    ensures
        r == clamp(v as int, 0, max as int),
{
    if v < 0 { 0 } else if v > max { max } else { v }
}

fn panel_max_exec(nmax: i32, npage: i32) -> (r: i32)
    ensures
        r == panel_max(nmax, npage),
{
    let m = nmax.wrapping_sub(npage).wrapping_add(1);
    if m < 0 { 0 } else { m }
}

/// Computes the property panel's position after a wheel turn.
pub fn panel_wheel(cur: i32, delta: i16, nmax: i32, npage: i32) -> (r: i32)
    ensures
        r == spec_panel_wheel(cur, delta, nmax, npage),
{
    let d = wheel_distance_exec(delta);
    clamp_exec(cur.wrapping_sub(d), panel_max_exec(nmax, npage))
}

/// The property panel's position after a scroll-bar request: 0 and 1 step by 30 pixels
/// up and down, 2 and 3 by a page, 4 and 5 go to the thumb position (`thumb`, or the
/// tracked position `track` when that reads 0), 6 and 7 to the ends of the range; the
/// result is kept within the range.
pub open spec fn spec_panel_request(request: u32, cur: i32, nmin: i32, nmax: i32, npage: i32, thumb: i32, track: i32) -> int {
    let target: i32 = if request == 0 {
        cur.wrapping_sub(30)
    } else if request == 1 {
        cur.wrapping_add(30)
    } else if request == 2 {
        cur.wrapping_sub(npage)
    } else if request == 3 {
        cur.wrapping_add(npage)
    } else if request == 4 || request == 5 {
        if thumb == 0 { track } else { thumb }
    } else if request == 6 {
        nmin
    } else if request == 7 {
        nmax
    } else {
        cur
    };
    clamp(target as int, 0, panel_max(nmax, npage))
}

/// Computes the property panel's position after a scroll-bar request.
pub fn panel_request(request: u32, cur: i32, nmin: i32, nmax: i32, npage: i32, thumb: i32, track: i32) -> (r: i32)
    ensures
        r == spec_panel_request(request, cur, nmin, nmax, npage, thumb, track),
{
    let target: i32 = if request == 0 {
        cur.wrapping_sub(30)
    } else if request == 1 {
        cur.wrapping_add(30)
    } else if request == 2 {
        cur.wrapping_sub(npage)
    } else if request == 3 {
        cur.wrapping_add(npage)
    } else if request == 4 || request == 5 {
        if thumb == 0 { track } else { thumb }
    } else if request == 6 {
        nmin
    } else if request == 7 {
        nmax
    } else {
        cur
    };
    clamp_exec(target, panel_max_exec(nmax, npage))
}

/// After the property panel is resized to `height` with content `content` pixels high,
/// the position it must move back to when it lies past the end (none otherwise).
pub open spec fn spec_panel_resize(cur: i32, content: i32, height: i32) -> Option<int> {
    let m = panel_max(content, height);
    if cur > m { Some(m) } else { None }
}

/// Computes where the property panel moves back to after a resize.
pub fn panel_resize(cur: i32, content: i32, height: i32) -> (r: Option<i32>)
    ensures
        match spec_panel_resize(cur, content, height) {
            Some(m) => r == Some(m as i32),
            None => r is None,
        },
{
    let m = panel_max_exec(content, height);
    if cur > m { Some(m) } else { None }
}

/// Whether a finger that went down at height `start_y` pans the page once it is at
/// `y`: it keeps panning once it started, and starts when it moved 8 pixels or more.
pub fn pan_started(start_y: i32, dragging: bool, y: i32) -> (r: bool)
    ensures
        r == (dragging || spec_wabs(y.wrapping_sub(start_y)) >= PAN_THRESHOLD),
{
    dragging || wabs(y.wrapping_sub(start_y)) >= PAN_THRESHOLD
}

/// Scrolling never leaves the page's range: the offset is between 0 and what the
/// content exceeds the window by.
pub proof fn lemma_settings_scroll_in_range(cur: i32, delta_y: i32, window_h: i32, about: bool)
    ensures
        0 <= spec_settings_scroll(cur, delta_y, window_h, about),
        spec_settings_scroll(cur, delta_y, window_h, about) <= max_offset((if about { 330int } else { 410int }) - window_h),
{
}

} // verus!
