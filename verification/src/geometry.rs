use vstd::prelude::*;

verus! {

/// Whether an integer fits in an `i32`.
pub open spec fn fits_i32(v: int) -> bool {
    i32::MIN <= v <= i32::MAX
}

/// A point in screen (or overlay client) coordinates.
#[derive(Clone, Copy, Debug, PartialEq, Eq, Structural)]
pub struct Point {
    pub x: i32,
    pub y: i32,
}

/// A rectangle given by its edges; `left`/`top` are inside, `right`/`bottom` outside.
#[derive(Clone, Copy, Debug, PartialEq, Eq, Structural)]
pub struct SerializableRect {
    pub left: i32,
    pub top: i32,
    pub right: i32,
    pub bottom: i32,
}

/// The half-open containment test used for every hit test: a point is inside when
/// `left <= x < right` and `top <= y < bottom`.
pub open spec fn spec_contains(r: SerializableRect, p: Point) -> bool {
    r.left <= p.x < r.right && r.top <= p.y < r.bottom
}

/// Hit test of a point against a rectangle (the `PtInRect` rule).
pub fn pt_in_rect(r: &SerializableRect, p: Point) -> (res: bool)
    ensures
        res == spec_contains(*r, p),
{
    r.left <= p.x && p.x < r.right && r.top <= p.y && p.y < r.bottom
}

/// The rectangle `r` moved by `(dx, dy)`, as mathematical integers.
pub open spec fn offset_fits(r: SerializableRect, dx: int, dy: int) -> bool {
    &&& fits_i32(r.left + dx)
    &&& fits_i32(r.right + dx)
    &&& fits_i32(r.top + dy)
    &&& fits_i32(r.bottom + dy)
}

/// The rectangle `r` moved by `(dx, dy)`.
pub open spec fn spec_offset(r: SerializableRect, dx: int, dy: int) -> SerializableRect {
    SerializableRect {
        left: (r.left + dx) as i32,
        top: (r.top + dy) as i32,
        right: (r.right + dx) as i32,
        bottom: (r.bottom + dy) as i32,
    }
}

/// Moves a rectangle by `(dx, dy)`.
pub fn offset_rect(r: SerializableRect, dx: i32, dy: i32) -> (res: SerializableRect)
    requires
        offset_fits(r, dx as int, dy as int),
    ensures
        res == spec_offset(r, dx as int, dy as int),
{
    SerializableRect { left: r.left + dx, top: r.top + dy, right: r.right + dx, bottom: r.bottom + dy }
}

/// A rectangle of the given size whose top-left corner is `(x, y)`.
pub open spec fn spec_rect_at(x: int, y: int, w: int, h: int) -> SerializableRect {
    SerializableRect { left: x as i32, top: y as i32, right: (x + w) as i32, bottom: (y + h) as i32 }
}

/// Builds the rectangle with top-left corner `(x, y)` and size `w` x `h`.
pub fn rect_at(x: i32, y: i32, w: i32, h: i32) -> (res: SerializableRect)
    requires
        fits_i32(x + w),
        fits_i32(y + h),
    ensures
        res == spec_rect_at(x as int, y as int, w as int, h as int),
{
    SerializableRect { left: x, top: y, right: x + w, bottom: y + h }
}

/// `inner` (relative to `origin`'s top-left corner) in absolute coordinates, with the
/// two's-complement wrap-around of `i32` addition.
pub open spec fn spec_absolute(origin: SerializableRect, inner: SerializableRect) -> SerializableRect {
    SerializableRect {
        left: origin.left.wrapping_add(inner.left),
        top: origin.top.wrapping_add(inner.top),
        right: origin.left.wrapping_add(inner.right),
        bottom: origin.top.wrapping_add(inner.bottom),
    }
}

/// Converts a rectangle relative to `origin`'s top-left corner into absolute coordinates.
pub fn absolute_rect(origin: &SerializableRect, inner: &SerializableRect) -> (res: SerializableRect)
    ensures
        res == spec_absolute(*origin, *inner),
{
    SerializableRect {
        left: origin.left.wrapping_add(inner.left),
        top: origin.top.wrapping_add(inner.top),
        right: origin.left.wrapping_add(inner.right),
        bottom: origin.top.wrapping_add(inner.bottom),
    }
}

/// `r` grown by `d` on every side (with `i32` wrap-around).
pub open spec fn spec_inflate(r: SerializableRect, d: i32) -> SerializableRect {
    SerializableRect {
        left: r.left.wrapping_sub(d),
        top: r.top.wrapping_sub(d),
        right: r.right.wrapping_add(d),
        bottom: r.bottom.wrapping_add(d),
    }
}

/// Grows a rectangle by `d` on every side.
pub fn inflate_rect(r: &SerializableRect, d: i32) -> (res: SerializableRect)
    ensures
        res == spec_inflate(*r, d),
{
    SerializableRect {
        left: r.left.wrapping_sub(d),
        top: r.top.wrapping_sub(d),
        right: r.right.wrapping_add(d),
        bottom: r.bottom.wrapping_add(d),
    }
}

/// The offset of `p` from the top-left corner of `r` (with `i32` wrap-around).
pub open spec fn spec_offset_in(r: SerializableRect, p: Point) -> Point {
    Point { x: p.x.wrapping_sub(r.left), y: p.y.wrapping_sub(r.top) }
}

/// The offset of a point from a rectangle's top-left corner.
pub fn offset_in(r: &SerializableRect, p: Point) -> (res: Point)
    ensures
        res == spec_offset_in(*r, p),
{
    Point { x: p.x.wrapping_sub(r.left), y: p.y.wrapping_sub(r.top) }
}

/// A rectangle of `r`'s size whose top-left corner is `(x, y)` (with `i32` wrap-around).
pub open spec fn spec_moved_to(r: SerializableRect, x: i32, y: i32) -> SerializableRect {
    SerializableRect {
        left: x,
        top: y,
        right: x.wrapping_add(r.right.wrapping_sub(r.left)),
        bottom: y.wrapping_add(r.bottom.wrapping_sub(r.top)),
    }
}

/// Moves a rectangle so that its top-left corner is `(x, y)`, keeping its size.
pub fn moved_to(r: &SerializableRect, x: i32, y: i32) -> (res: SerializableRect)
    ensures
        res == spec_moved_to(*r, x, y),
{
    let w = r.right.wrapping_sub(r.left);
    let h = r.bottom.wrapping_sub(r.top);
    SerializableRect { left: x, top: y, right: x.wrapping_add(w), bottom: y.wrapping_add(h) }
}

/// The absolute value with `i32` wrap-around (`i32::MIN` stays `i32::MIN`).
pub open spec fn spec_wabs(v: i32) -> i32 {
    if v < 0 { 0i32.wrapping_sub(v) } else { v }
}

/// The absolute value of `v`, wrapping at `i32::MIN`.
pub fn wabs(v: i32) -> (r: i32)
    ensures
        r == spec_wabs(v),
{
    if v < 0 { 0i32.wrapping_sub(v) } else { v }
}

/// `r` moved by `(dx, dy)` (with `i32` wrap-around).
pub open spec fn spec_shift(r: SerializableRect, dx: i32, dy: i32) -> SerializableRect {
    SerializableRect {
        left: r.left.wrapping_add(dx),
        top: r.top.wrapping_add(dy),
        right: r.right.wrapping_add(dx),
        bottom: r.bottom.wrapping_add(dy),
    }
}

/// Moves a rectangle by `(dx, dy)`, wrapping like `i32` addition.
pub fn shift_rect(r: &SerializableRect, dx: i32, dy: i32) -> (res: SerializableRect)
    ensures
        res == spec_shift(*r, dx, dy),
{
    SerializableRect {
        left: r.left.wrapping_add(dx),
        top: r.top.wrapping_add(dy),
        right: r.right.wrapping_add(dx),
        bottom: r.bottom.wrapping_add(dy),
    }
}

} // verus!
