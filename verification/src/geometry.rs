//! The toolkit's vectors, points and rectangles, and the arithmetic on them.
//!
//! The values themselves are opaque here. A contract speaks of one through
//! its view: the bit patterns of the numbers that it holds (see
//! [`crate::number`]).

use crate::number::{
    is_finite, is_length, is_max_of, number_difference, number_lt, number_of, number_product,
    number_quotient, number_sum,
};
use egui::{Pos2, Rect, Vec2};
use vstd::prelude::*;

verus! {

#[verifier::external_type_specification]
#[verifier::external_body]
pub struct ExVec2(egui::Vec2);

#[verifier::external_type_specification]
#[verifier::external_body]
pub struct ExPos2(egui::Pos2);

#[verifier::external_type_specification]
#[verifier::external_body]
pub struct ExRect(egui::Rect);

/// Two numbers: what a vector or a point holds.
pub struct Point {
    pub x: u32,
    pub y: u32,
}

/// Two corners: what a rectangle holds.
pub struct Frame {
    pub min: Point,
    pub max: Point,
}

/// The components of a vector.
pub uninterp spec fn vec2_view(v: Vec2) -> Point;

/// The coordinates of a point.
pub uninterp spec fn pos2_view(p: Pos2) -> Point;

/// The corners of a rectangle.
pub uninterp spec fn rect_view(r: Rect) -> Frame;

pub open spec fn point_sum(a: Point, b: Point) -> Point {
    Point { x: number_sum(a.x, b.x), y: number_sum(a.y, b.y) }
}

pub open spec fn point_difference(a: Point, b: Point) -> Point {
    Point { x: number_difference(a.x, b.x), y: number_difference(a.y, b.y) }
}

/// The frame with each side moved outward by `by`.
pub open spec fn frame_grown(f: Frame, by: Point) -> Frame {
    Frame { min: point_difference(f.min, by), max: point_sum(f.max, by) }
}

/// The frame with each side moved inward by `by`.
pub open spec fn frame_shrunk(f: Frame, by: Point) -> Frame {
    Frame { min: point_sum(f.min, by), max: point_difference(f.max, by) }
}

/// Whether both components are numbers at or above zero.
pub open spec fn is_size(p: Point) -> bool {
    is_length(p.x) && is_length(p.y)
}

/// Whether the frame is narrower or lower than nothing: its greatest `x`
/// is below its least, or its greatest `y` below its least.
pub open spec fn is_negative_frame(f: Frame) -> bool {
    number_lt(f.max.x, f.min.x) || number_lt(f.max.y, f.min.y)
}

/// Whether both components are finite numbers at or above zero.
pub open spec fn is_finite_size(p: Point) -> bool {
    is_size(p) && is_finite(p.x) && is_finite(p.y)
}

/// `egui::vec2` on two small integers, each converted by std's
/// `From<u8>`: the vector whose components are the numbers `x` and `y`,
/// both finite and neither below zero.
#[verifier::external_body]
pub(crate) fn vec2_of(x: u8, y: u8) -> (r: Vec2)
    ensures
        vec2_view(r) == (Point { x: number_of(x), y: number_of(y) }),
        is_finite_size(vec2_view(r)),
{
    egui::vec2(x.into(), y.into())
}

/// `Vec2 + Vec2`: the components are added one by one.
#[verifier::external_body]
pub(crate) fn vec2_sum(a: Vec2, b: Vec2) -> (r: Vec2)
    ensures
        vec2_view(r).x == number_sum(vec2_view(a).x, vec2_view(b).x),
        vec2_view(r).y == number_sum(vec2_view(a).y, vec2_view(b).y),
{
    a + b
}

/// `Vec2 - Vec2`: the components are subtracted one by one.
#[verifier::external_body]
pub(crate) fn vec2_difference(a: Vec2, b: Vec2) -> (r: Vec2)
    ensures
        vec2_view(r).x == number_difference(vec2_view(a).x, vec2_view(b).x),
        vec2_view(r).y == number_difference(vec2_view(a).y, vec2_view(b).y),
{
    a - b
}

/// `Vec2 / Vec2`: the components are divided one by one.
#[verifier::external_body]
pub(crate) fn vec2_quotient(a: Vec2, b: Vec2) -> (r: Vec2)
    ensures
        vec2_view(r).x == number_quotient(vec2_view(a).x, vec2_view(b).x),
        vec2_view(r).y == number_quotient(vec2_view(a).y, vec2_view(b).y),
{
    a / b
}

/// `Vec2 * f32`, the factor being the first component of `by`: both
/// components of `v` are multiplied by it.
#[verifier::external_body]
pub(crate) fn vec2_scaled(v: Vec2, by: Vec2) -> (r: Vec2)
    ensures
        vec2_view(r).x == number_product(vec2_view(v).x, vec2_view(by).x),
        vec2_view(r).y == number_product(vec2_view(v).y, vec2_view(by).x),
{
    v * by.x
}

/// `NumExt::at_least` on the second components, which is the maximum of
/// the two that ignores NaN; the first component of `v` is kept. The
/// result is put together by `egui::vec2`.
#[verifier::external_body]
pub(crate) fn vec2_raised(v: Vec2, floor: Vec2) -> (r: Vec2)
    ensures
        vec2_view(r).x == vec2_view(v).x,
        is_max_of(vec2_view(r).y, vec2_view(v).y, vec2_view(floor).y),
{
    egui::vec2(v.x, egui::NumExt::at_least(v.y, floor.y))
}

/// `Pos2 + Vec2`: the point moved by the vector.
#[verifier::external_body]
pub(crate) fn pos2_plus(p: Pos2, v: Vec2) -> (r: Pos2)
    ensures
        pos2_view(r) == point_sum(pos2_view(p), vec2_view(v)),
{
    p + v
}

/// `Pos2 - Vec2`: the point moved against the vector.
#[verifier::external_body]
pub(crate) fn pos2_minus(p: Pos2, v: Vec2) -> (r: Pos2)
    ensures
        pos2_view(r) == point_difference(pos2_view(p), vec2_view(v)),
{
    p - v
}

/// `Rect::left_bottom`: the least `x` with the greatest `y`.
#[verifier::external_body]
pub(crate) fn rect_left_bottom(rect: Rect) -> (r: Pos2)
    ensures
        pos2_view(r) == (Point { x: rect_view(rect).min.x, y: rect_view(rect).max.y }),
{
    rect.left_bottom()
}

/// `Rect::right_bottom`: the greatest `x` with the greatest `y`.
#[verifier::external_body]
pub(crate) fn rect_right_bottom(rect: Rect) -> (r: Pos2)
    ensures
        pos2_view(r) == rect_view(rect).max,
{
    rect.right_bottom()
}

/// `Rect::with_min_y`, the new top being the `y` of `p`.
#[verifier::external_body]
pub(crate) fn rect_with_min_y(rect: Rect, p: Pos2) -> (r: Rect)
    ensures
        rect_view(r) == (Frame {
            min: Point { x: rect_view(rect).min.x, y: pos2_view(p).y },
            max: rect_view(rect).max,
        }),
{
    rect.with_min_y(p.y)
}

/// `Rect::with_max_y`, the new bottom being the `y` of `p`.
#[verifier::external_body]
pub(crate) fn rect_with_max_y(rect: Rect, p: Pos2) -> (r: Rect)
    ensures
        rect_view(r) == (Frame {
            min: rect_view(rect).min,
            max: Point { x: rect_view(rect).max.x, y: pos2_view(p).y },
        }),
{
    rect.with_max_y(p.y)
}

/// `Rect::expand`, the amount being the first component of `by`: every
/// side moves outward by that one number.
#[verifier::external_body]
pub(crate) fn rect_expand(rect: Rect, by: Vec2) -> (r: Rect)
    ensures
        rect_view(r) == frame_grown(
            rect_view(rect),
            Point { x: vec2_view(by).x, y: vec2_view(by).x },
        ),
{
    rect.expand(by.x)
}

/// `Rect::expand2`: the sides move outward by the vector's components.
#[verifier::external_body]
pub(crate) fn rect_expand2(rect: Rect, by: Vec2) -> (r: Rect)
    ensures
        rect_view(r) == frame_grown(rect_view(rect), vec2_view(by)),
{
    rect.expand2(by)
}

/// `Rect::is_negative`: whether the width or the height is below zero.
#[verifier::external_body]
pub(crate) fn rect_is_negative(rect: Rect) -> (r: bool)
    ensures
        r == is_negative_frame(rect_view(rect)),
{
    rect.is_negative()
}

/// `Rect::shrink2`: the sides move inward by the vector's components.
#[verifier::external_body]
pub(crate) fn rect_shrink2(rect: Rect, by: Vec2) -> (r: Rect)
    ensures
        rect_view(r) == frame_shrunk(rect_view(rect), vec2_view(by)),
{
    rect.shrink2(by)
}

} // verus!
