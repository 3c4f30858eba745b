//! The toolkit's strokes, corner radii and colours.

use crate::geometry::{vec2_view, Point};
use crate::number::number_of;
use egui::{Color32, Rounding, Stroke, Vec2};
use vstd::prelude::*;

verus! {

#[verifier::external_type_specification]
#[verifier::external_body]
pub struct ExColor32(egui::Color32);

#[verifier::external_type_specification]
#[verifier::external_body]
pub struct ExStroke(egui::Stroke);

#[verifier::external_type_specification]
#[verifier::external_body]
pub struct ExRounding(egui::Rounding);

/// The four corner radii of a rectangle's outline.
pub struct Corners {
    pub nw: u32,
    pub ne: u32,
    pub sw: u32,
    pub se: u32,
}

/// The width of a stroke.
pub uninterp spec fn stroke_width(s: Stroke) -> u32;

/// The colour of a stroke.
pub uninterp spec fn stroke_color(s: Stroke) -> Color32;

/// The radii that a rounding holds.
pub uninterp spec fn rounding_view(r: Rounding) -> Corners;

/// `Stroke::new` on a small integer width, which it converts by std's
/// `From<u8>`, and a colour: the stroke that holds the two.
#[verifier::external_body]
pub(crate) fn stroke_of(width: u8, color: Color32) -> (r: Stroke)
    ensures
        stroke_width(r) == number_of(width),
        stroke_color(r) == color,
{
    Stroke::new(width, color)
}

/// The field `color` of a stroke.
#[verifier::external_body]
pub(crate) fn color_of(stroke: Stroke) -> (r: Color32)
    ensures
        r == stroke_color(stroke),
{
    stroke.color
}

/// `Vec2::splat` on a stroke's width: the vector with the width in both
/// components.
#[verifier::external_body]
pub(crate) fn extent_of(stroke: Stroke) -> (r: Vec2)
    ensures
        vec2_view(r) == (Point { x: stroke_width(stroke), y: stroke_width(stroke) }),
{
    Vec2::splat(stroke.width)
}

/// The constant `Rounding::ZERO`: every radius is the number zero.
#[verifier::external_body]
pub(crate) fn no_rounding() -> (r: Rounding)
    ensures
        rounding_view(r) == (Corners {
            nw: number_of(0),
            ne: number_of(0),
            sw: number_of(0),
            se: number_of(0),
        }),
{
    Rounding::ZERO
}

/// A `Rounding` put together from the two upper radii of `top` and the
/// two lower radii of `bottom`.
#[verifier::external_body]
pub(crate) fn rounding_with_bottom(top: Rounding, bottom: Rounding) -> (r: Rounding)
    ensures
        rounding_view(r) == (Corners {
            nw: rounding_view(top).nw,
            ne: rounding_view(top).ne,
            sw: rounding_view(bottom).sw,
            se: rounding_view(bottom).se,
        }),
{
    Rounding { nw: top.nw, ne: top.ne, sw: bottom.sw, se: bottom.se }
}

} // verus!
