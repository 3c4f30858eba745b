//! What has been painted through a layout context.
//!
//! The painter of a context appends every shape that it is handed to the
//! paint list of the context's layer. Contracts speak of that list through
//! its view: one entry of plain values for each shape, in the order in
//! which they were added.

use crate::geometry::{pos2_view, rect_view, Frame, Point};
use crate::number::number_of;
use crate::style::{rounding_view, stroke_color, stroke_width, Corners};
use crate::toolkit::same_layout;
use egui::{Color32, Galley, Pos2, Rect, Rounding, Stroke, Ui};
use std::sync::Arc;
use vstd::prelude::*;

verus! {

/// The four bytes that a colour holds.
pub struct Rgba {
    pub r: u8,
    pub g: u8,
    pub b: u8,
    pub a: u8,
}

/// One entry of a paint list.
pub enum Painted {
    /// A rectangle with its fill and the stroke of its outline.
    Rect { rect: Frame, rounding: Corners, fill: Rgba, width: u32, color: Rgba },
    /// A straight line in one colour.
    Line { from: Point, to: Point, width: u32, color: Rgba },
    /// A laid-out text, by its characters, in its fallback colour.
    Label { pos: Point, text: Seq<char>, color: Rgba },
    /// Anything else, a placeholder that shows nothing included.
    Other,
}

/// The colour that shows nothing: all four bytes zero.
pub open spec fn clear() -> Rgba {
    Rgba { r: 0, g: 0, b: 0, a: 0 }
}

/// The bytes of a colour.
pub uninterp spec fn color_channels(color: Color32) -> Rgba;

/// The text that was laid out.
pub uninterp spec fn galley_text(galley: Arc<Galley>) -> Seq<char>;

/// Whether the laid-out text has no section at all.
pub uninterp spec fn galley_is_empty(galley: Arc<Galley>) -> bool;

/// The paint list of the context's layer.
pub uninterp spec fn painted_of(ui: Ui) -> Seq<Painted>;

/// Whether the context's painter adds a shape as it is given: it has no
/// colour to fade towards, and its opacity is not below one.
pub uninterp spec fn paints_as_given(ui: Ui) -> bool;

/// Whether `list` begins with all of `start`.
pub open spec fn extends(list: Seq<Painted>, start: Seq<Painted>) -> bool {
    start.len() <= list.len() && list.subrange(0, start.len() as int) == start
}

/// The outline of a rectangle, as an entry.
pub open spec fn outline_entry(rect: Rect, rounding: Rounding, stroke: Stroke) -> Painted {
    Painted::Rect {
        rect: rect_view(rect),
        rounding: rounding_view(rounding),
        fill: clear(),
        width: stroke_width(stroke),
        color: color_channels(stroke_color(stroke)),
    }
}

/// A filled rectangle without an outline, as an entry.
pub open spec fn fill_entry(rect: Rect, rounding: Rounding, fill: Color32) -> Painted {
    Painted::Rect {
        rect: rect_view(rect),
        rounding: rounding_view(rounding),
        fill: color_channels(fill),
        width: number_of(0),
        color: clear(),
    }
}

/// A line, as an entry.
pub open spec fn line_entry(from: Pos2, to: Pos2, stroke: Stroke) -> Painted {
    Painted::Line {
        from: pos2_view(from),
        to: pos2_view(to),
        width: stroke_width(stroke),
        color: color_channels(stroke_color(stroke)),
    }
}

/// A label, as an entry.
pub open spec fn label_entry(pos: Pos2, galley: Arc<Galley>, color: Color32) -> Painted {
    Painted::Label {
        pos: pos2_view(pos),
        text: galley_text(galley),
        color: color_channels(color),
    }
}

/// Whether the paint list `after` is `before` with one entry added, which
/// is `entry` where shapes are added as given.
pub open spec fn added_one(before: Ui, after: Ui, entry: Painted) -> bool {
    &&& painted_of(after) == painted_of(before).push(painted_of(after).last())
    &&& paints_as_given(before) ==> painted_of(after).last() == entry
    &&& paints_as_given(after) == paints_as_given(before)
}

/// `Painter::rect_stroke`: adds one shape to the paint list, which is the
/// rectangle with a clear fill and the given stroke unless the painter
/// fades or dims it, or puts a placeholder in its place.
#[verifier::external_body]
pub(crate) fn paint_rect_stroke(ui: &mut Ui, rect: Rect, rounding: Rounding, stroke: Stroke)
    ensures
        painted_of(*final(ui)) == painted_of(*old(ui)).push(painted_of(*final(ui)).last()),
        paints_as_given(*old(ui)) ==> painted_of(*final(ui)).last() == (Painted::Rect {
            rect: rect_view(rect),
            rounding: rounding_view(rounding),
            fill: clear(),
            width: stroke_width(stroke),
            color: color_channels(stroke_color(stroke)),
        }),
        paints_as_given(*final(ui)) == paints_as_given(*old(ui)),
        same_layout(*old(ui), *final(ui)),
{
    ui.painter().rect_stroke(rect, rounding, stroke);
}

/// `Painter::rect_filled`: adds one shape to the paint list, which is the
/// rectangle with the given fill and no stroke unless the painter fades
/// or dims it, or puts a placeholder in its place.
#[verifier::external_body]
pub(crate) fn paint_rect_filled(ui: &mut Ui, rect: Rect, rounding: Rounding, fill: Color32)
    ensures
        added_one(*old(ui), *final(ui), fill_entry(rect, rounding, fill)),
        same_layout(*old(ui), *final(ui)),
{
    ui.painter().rect_filled(rect, rounding, fill);
}

/// `Painter::add` with `Shape::line_segment`: adds one shape to the paint
/// list, which is the line in the stroke's width and colour unless the
/// painter fades or dims it, or puts a placeholder in its place.
#[verifier::external_body]
pub(crate) fn paint_line_segment(ui: &mut Ui, from: Pos2, to: Pos2, stroke: Stroke)
    ensures
        added_one(*old(ui), *final(ui), line_entry(from, to, stroke)),
        same_layout(*old(ui), *final(ui)),
{
    ui.painter().add(egui::Shape::line_segment([from, to], stroke));
}

/// `Painter::galley`: adds nothing for a text without sections, and else
/// one shape to the paint list, which is the text at the position with
/// the fallback colour unless the painter fades or dims it, or puts a
/// placeholder in its place.
#[verifier::external_body]
pub(crate) fn paint_galley(ui: &mut Ui, pos: Pos2, galley: Arc<Galley>, color: Color32)
    ensures
        galley_is_empty(galley) ==> painted_of(*final(ui)) == painted_of(*old(ui)),
        !galley_is_empty(galley) ==> painted_of(*final(ui)) == painted_of(*old(ui)).push(
            painted_of(*final(ui)).last(),
        ),
        !galley_is_empty(galley) && paints_as_given(*old(ui)) ==> painted_of(*final(ui)).last()
            == (Painted::Label {
            pos: pos2_view(pos),
            text: galley_text(galley),
            color: color_channels(color),
        }),
        paints_as_given(*final(ui)) == paints_as_given(*old(ui)),
        same_layout(*old(ui), *final(ui)),
{
    ui.painter().galley(pos, galley, color);
}

} // verus!
