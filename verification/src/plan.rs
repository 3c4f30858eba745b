//! What a visible tab paints, decided before anything is painted.

use crate::geometry::{
    frame_grown, point_difference, point_sum, pos2_minus, pos2_plus, pos2_view, rect_expand,
    rect_expand2, rect_left_bottom, rect_right_bottom, rect_view, rect_with_max_y,
    rect_with_min_y, vec2_of, vec2_scaled, vec2_view, Frame, Point,
};
use crate::number::{number_of, number_product, number_sum};
use crate::style::{
    color_of, extent_of, no_rounding, rounding_view, rounding_with_bottom, stroke_color,
    stroke_of, stroke_width, Corners,
};
use crate::tab::{edge_offset_of, tab_edge_vect};
use crate::paint::{
    color_channels, fill_entry, galley_is_empty, label_entry, line_entry, outline_entry, Painted,
};
use crate::toolkit::TabVisuals;
use egui::{Color32, Galley, Pos2, Rect, Rounding, Stroke, Vec2};
use std::sync::Arc;
use vstd::prelude::*;

verus! {

/// The stroked outline of a rectangle.
pub struct Outline {
    pub rect: Rect,
    pub rounding: Rounding,
    pub stroke: Stroke,
}

/// A filled rectangle.
pub struct Patch {
    pub rect: Rect,
    pub rounding: Rounding,
    pub fill: Color32,
}

/// A straight line between two points.
pub struct Segment {
    pub from: Pos2,
    pub to: Pos2,
    pub stroke: Stroke,
}

/// What the toolkit reports for a tab that has been laid out.
pub struct TabLook {
    /// Whether any of the tab's rectangle can be seen.
    pub visible: bool,
    /// Whether the tab is the active one.
    pub selected: bool,
    /// Whether the pointer is over the tab.
    pub hovered: bool,
    /// The rectangle that the layout gave to the tab.
    pub rect: Rect,
    /// The button padding of the context's style.
    pub padding: Vec2,
    /// The visuals for the tab's state.
    pub visuals: TabVisuals,
    /// The stroke of the surrounding container's border.
    pub window_stroke: Stroke,
    /// The fill of the surrounding container.
    pub window_fill: Color32,
    /// The colour of plain text.
    pub text_color: Color32,
    /// Where the label goes.
    pub label_at: Pos2,
}

/// Everything that one visible tab paints, in the order in which it is
/// painted: the border, the mask over its lower edge, the right and the
/// left connector, the label.
pub struct TabPaint {
    pub border: Outline,
    pub mask: Option<Patch>,
    pub right: Segment,
    pub left: Segment,
    pub label_at: Pos2,
    pub label_color: Color32,
}

/// The stroke of the tab's own outline: the foreground stroke of the
/// visuals for the active tab, the container's border stroke for the
/// others.
pub open spec fn outline_stroke_of(look: TabLook) -> Stroke {
    if look.selected {
        look.visuals.fg_stroke
    } else {
        look.window_stroke
    }
}

/// The corner radii of the border: those of the visuals above, none below.
pub open spec fn border_corners_of(style: Corners) -> Corners {
    Corners { nw: style.nw, ne: style.ne, sw: number_of(0), se: number_of(0) }
}

/// No corner rounded.
pub open spec fn square_corners() -> Corners {
    Corners { nw: number_of(0), ne: number_of(0), sw: number_of(0), se: number_of(0) }
}

/// Whether `stroke` is the stroke of the border: one unit wide in the
/// colour of plain text while the pointer is over a tab that is not the
/// active one, the outline's stroke otherwise.
pub open spec fn is_border_stroke(stroke: Stroke, look: TabLook) -> bool {
    if look.hovered && !look.selected {
        stroke_width(stroke) == number_of(1) && stroke_color(stroke) == look.text_color
    } else {
        stroke == outline_stroke_of(look)
    }
}

/// The mask of the active tab: the lower edge of `rect`, extended downward
/// by the stroke width `w`, then grown upward and downward by `w` again.
pub open spec fn mask_frame_of(rect: Frame, w: u32) -> Frame {
    let edge = Frame {
        min: Point { x: rect.min.x, y: rect.max.y },
        max: Point { x: rect.max.x, y: number_sum(rect.max.y, w) },
    };
    frame_grown(
        edge,
        Point { x: number_product(number_of(0), w), y: number_product(number_of(1), w) },
    )
}

/// The rectangle from whose lower corners the connectors start: `rect`
/// grown by the stroke width `w` on every side.
pub open spec fn connector_frame_of(rect: Frame, w: u32) -> Frame {
    frame_grown(rect, Point { x: w, y: w })
}

/// Whether `plan` is what a visible tab of the given look paints.
pub open spec fn is_tab_paint(plan: TabPaint, look: TabLook) -> bool {
    let outline = outline_stroke_of(look);
    let w = stroke_width(outline);
    let grown = connector_frame_of(rect_view(look.rect), w);
    let offset = edge_offset_of(vec2_view(look.padding));
    let left_bottom = Point { x: grown.min.x, y: grown.max.y };
    &&& plan.border.rect == look.rect
    &&& rounding_view(plan.border.rounding) == border_corners_of(
        rounding_view(look.visuals.rounding),
    )
    &&& is_border_stroke(plan.border.stroke, look)
    &&& plan.mask is Some <==> look.selected
    &&& plan.mask matches Some(mask) ==> {
        &&& rect_view(mask.rect) == mask_frame_of(rect_view(look.rect), w)
        &&& rounding_view(mask.rounding) == square_corners()
        &&& mask.fill == look.window_fill
    }
    &&& pos2_view(plan.right.from) == grown.max
    &&& pos2_view(plan.right.to) == point_sum(grown.max, offset)
    &&& plan.right.stroke == outline
    &&& pos2_view(plan.left.from) == left_bottom
    &&& pos2_view(plan.left.to) == point_difference(left_bottom, offset)
    &&& plan.left.stroke == outline
    &&& plan.label_at == look.label_at
    &&& plan.label_color == stroke_color(look.visuals.fg_stroke)
}

/// The entries that a plan adds to a paint list, in their order: the
/// border, the mask where there is one, the right and the left connector,
/// and the label unless it has no section. Nothing without a plan.
pub open spec fn shapes_of(plan: Option<TabPaint>, label: Arc<Galley>) -> Seq<Painted> {
    match plan {
        None => Seq::empty(),
        Some(seen) => {
            let border = seq![
                outline_entry(seen.border.rect, seen.border.rounding, seen.border.stroke),
            ];
            let mask = match seen.mask {
                Some(mask) => seq![fill_entry(mask.rect, mask.rounding, mask.fill)],
                None => Seq::empty(),
            };
            let connectors = seq![
                line_entry(seen.right.from, seen.right.to, seen.right.stroke),
                line_entry(seen.left.from, seen.left.to, seen.left.stroke),
            ];
            let text = if galley_is_empty(label) {
                Seq::empty()
            } else {
                seq![label_entry(seen.label_at, label, seen.label_color)]
            };
            border + mask + connectors + text
        },
    }
}

/// The rectangle that hides the lower edge of the active tab's border.
pub fn mask_rect(rect: Rect, stroke: Stroke) -> (mask: Rect)
    ensures
        rect_view(mask) == mask_frame_of(rect_view(rect), stroke_width(stroke)),
{
    let corner = rect_right_bottom(rect);
    let edge = rect_with_min_y(rect, corner);
    let lowered = rect_with_max_y(edge, pos2_plus(corner, extent_of(stroke)));
    rect_expand2(lowered, vec2_scaled(vec2_of(0, 1), extent_of(stroke)))
}

/// Decides what a tab paints: nothing where it cannot be seen, else its
/// border, the mask where it is the active one, its connectors and its
/// label.
pub fn tab_paint(look: TabLook) -> (plan: Option<TabPaint>)
    ensures
        plan is Some <==> look.visible,
        plan matches Some(seen) ==> is_tab_paint(seen, look),
{
    if !look.visible {
        return None;
    }
    let outline = if look.selected {
        look.visuals.fg_stroke
    } else {
        look.window_stroke
    };
    let border_stroke = if look.hovered && !look.selected {
        stroke_of(1, look.text_color)
    } else {
        outline
    };
    let border = Outline {
        rect: look.rect,
        rounding: rounding_with_bottom(look.visuals.rounding, no_rounding()),
        stroke: border_stroke,
    };
    let mask = if look.selected {
        Some(
            Patch {
                rect: mask_rect(look.rect, outline),
                rounding: no_rounding(),
                fill: look.window_fill,
            },
        )
    } else {
        None
    };
    let offset = tab_edge_vect(look.padding);
    let grown = rect_expand(look.rect, extent_of(outline));
    let right_bottom = rect_right_bottom(grown);
    let left_bottom = rect_left_bottom(grown);
    Some(
        TabPaint {
            border,
            mask,
            right: Segment {
                from: right_bottom,
                to: pos2_plus(right_bottom, offset),
                stroke: outline,
            },
            left: Segment {
                from: left_bottom,
                to: pos2_minus(left_bottom, offset),
                stroke: outline,
            },
            label_at: look.label_at,
            label_color: color_of(look.visuals.fg_stroke),
        },
    )
}

/// Whether `line` closes the border under a tab row whose content fills
/// `rect`: it runs along the lower edge of `rect` grown by the width of
/// `stroke`, and beyond each lower corner by the connector offset.
pub open spec fn is_cap_line(line: Segment, rect: Rect, stroke: Stroke, padding: Vec2) -> bool {
    let grown = connector_frame_of(rect_view(rect), stroke_width(stroke));
    let offset = edge_offset_of(vec2_view(padding));
    &&& pos2_view(line.from) == point_difference(Point { x: grown.min.x, y: grown.max.y }, offset)
    &&& pos2_view(line.to) == point_sum(grown.max, offset)
    &&& line.stroke == stroke
}

/// The entry that the line under a tab row makes in a paint list, where
/// `room` is left in the layout, `stroke` is the stroke of the container's
/// border and `padding` the button padding.
pub open spec fn cap_entry(room: Frame, stroke: Stroke, padding: Point) -> Painted {
    let grown = connector_frame_of(room, stroke_width(stroke));
    let offset = edge_offset_of(padding);
    Painted::Line {
        from: point_difference(Point { x: grown.min.x, y: grown.max.y }, offset),
        to: point_sum(grown.max, offset),
        width: stroke_width(stroke),
        color: color_channels(stroke_color(stroke)),
    }
}

/// The line that closes the border under a tab row.
pub fn cap_line(rect: Rect, stroke: Stroke, padding: Vec2) -> (line: Segment)
    ensures
        is_cap_line(line, rect, stroke, padding),
{
    let grown = rect_expand(rect, extent_of(stroke));
    let offset = tab_edge_vect(padding);
    Segment {
        from: pos2_minus(rect_left_bottom(grown), offset),
        to: pos2_plus(rect_right_bottom(grown), offset),
        stroke,
    }
}

/// Whether the tab is selected or not, hovered or not: the two lower
/// corners of its border are square, and the two upper corners are rounded
/// as the visuals say.
pub proof fn lemma_border_open_below(plan: TabPaint, look: TabLook)
    requires
        is_tab_paint(plan, look),
    ensures
        rounding_view(plan.border.rounding).sw == number_of(0),
        rounding_view(plan.border.rounding).se == number_of(0),
        rounding_view(plan.border.rounding).nw == rounding_view(look.visuals.rounding).nw,
        rounding_view(plan.border.rounding).ne == rounding_view(look.visuals.rounding).ne,
{
}

} // verus!
