//! What the widget asks of the surrounding toolkit: the layout context, the
//! laid-out label, the interaction result and the painter.
//!
//! What the toolkit answers depends on its own state, which is opaque here,
//! so most of these calls promise nothing about their result. The verified
//! functions that use them are proved for every answer.

use crate::geometry::{
    is_finite_size, is_negative_frame, is_size, pos2_view, rect_view, vec2_view, Frame, Point,
};
use crate::paint::{extends, galley_text, painted_of, paints_as_given};
use crate::number::{is_finite, is_length, is_max_of};
use egui::{
    Color32, Galley, Pos2, Rect, Response, Rounding, Stroke, TextStyle, Ui, Vec2, WidgetInfo,
    WidgetText, WidgetType,
};
use std::sync::Arc;
use vstd::prelude::*;

verus! {

#[verifier::external_type_specification]
#[verifier::external_body]
pub struct ExUi(egui::Ui);

#[verifier::external_type_specification]
#[verifier::external_body]
pub struct ExResponse(egui::Response);

#[verifier::external_type_specification]
#[verifier::external_body]
pub struct ExWidgetText(egui::WidgetText);

#[verifier::external_type_specification]
#[verifier::external_body]
pub struct ExGalley(egui::Galley);

#[verifier::external_type_specification]
#[verifier::external_body]
pub struct ExWidgetInfo(egui::WidgetInfo);

#[verifier::external_type_specification]
#[verifier::external_body]
pub struct ExWidgetType(egui::WidgetType);

#[verifier::external_type_specification]
#[verifier::external_body]
pub struct ExTextStyle(egui::TextStyle);

/// The kind of element that a description is of.
pub uninterp spec fn info_kind(info: WidgetInfo) -> WidgetType;

/// Whether a description says that its element is enabled.
pub uninterp spec fn info_enabled(info: WidgetInfo) -> bool;

/// What a description says of its element being selected, if anything.
pub uninterp spec fn info_selected(info: WidgetInfo) -> Option<bool>;

/// The label that a description gives, if any.
pub uninterp spec fn info_label(info: WidgetInfo) -> Option<Seq<char>>;

/// Whether the context lets its elements be interacted with.
pub uninterp spec fn enabled_of(ui: Ui) -> bool;

/// Whether `kind` is the kind of a label that can be selected.
pub uninterp spec fn is_selectable_label(kind: WidgetType) -> bool;

/// Whether `style` is the text style of buttons.
pub uninterp spec fn is_button_style(style: TextStyle) -> bool;

/// The characters of a label's text.
pub uninterp spec fn widget_text_of(text: WidgetText) -> Seq<char>;

/// Whether the toolkit lays `text` out in the context, with `style`
/// where the text names no style of its own, rather than give up: the
/// context's fonts are loaded and bind a font to every family that is
/// asked for, and the context's style holds every text style that is asked
/// for.
pub uninterp spec fn lays_out(ui: Ui, text: WidgetText, style: TextStyle) -> bool;

/// Where the context's layout puts the upper left corner of a box of
/// `size` inside `outer`.
pub uninterp spec fn aligned_in(ui: Ui, size: Point, outer: Frame) -> Point;

/// The rectangle that the response's element was given.
pub uninterp spec fn rect_of(response: Response) -> Rect;

/// Whether the pointer hovers over the response's element.
pub uninterp spec fn hovered_of(response: Response) -> bool;

/// The fill of the surrounding container in the style that the context
/// holds.
pub uninterp spec fn window_fill_of(ui: Ui) -> Color32;

/// The colour of plain text in the style that the context holds.
pub uninterp spec fn text_color_of(ui: Ui) -> Color32;

/// Whether the response carries the mark that the widget's value changed.
pub uninterp spec fn marked_changed(response: Response) -> bool;

/// Whether the element that the response is about senses clicks.
pub uninterp spec fn senses_clicks(response: Response) -> bool;

/// The size that was asked of the layout for the response's element, as
/// the response has it on record; `None` where it has none.
pub uninterp spec fn asked_size_of(response: Response) -> Option<Point>;

/// The size that a laid-out text measures.
pub uninterp spec fn galley_size_of(galley: Arc<Galley>) -> Point;

/// The button padding in the style that the context holds.
pub uninterp spec fn padding_of(ui: Ui) -> Point;

/// The least size of an interactive element in the style that the context
/// holds.
pub uninterp spec fn interact_size_of(ui: Ui) -> Point;

/// The stroke of the surrounding container's border in the style that the
/// context holds.
pub uninterp spec fn window_stroke_of(ui: Ui) -> Stroke;

/// The room that is left in the context's layout before it wraps.
pub uninterp spec fn room_of(ui: Ui) -> Frame;

/// Whether two states of a context agree in what a tab reads of the
/// context apart from the room that is left: button padding, least
/// interactive size, stroke and fill of the container, colour of plain
/// text, the enabled flag, where the layout aligns a box, and which labels
/// can be laid out.
pub open spec fn same_style(a: Ui, b: Ui) -> bool {
    &&& padding_of(a) == padding_of(b)
    &&& interact_size_of(a) == interact_size_of(b)
    &&& window_stroke_of(a) == window_stroke_of(b)
    &&& window_fill_of(a) == window_fill_of(b)
    &&& text_color_of(a) == text_color_of(b)
    &&& enabled_of(a) == enabled_of(b)
    &&& forall|size: Point, outer: Frame|
        #![trigger aligned_in(a, size, outer)]
        #![trigger aligned_in(b, size, outer)]
        aligned_in(a, size, outer) == aligned_in(b, size, outer)
    &&& forall|text: WidgetText, style: TextStyle|
        #![trigger lays_out(a, text, style)]
        #![trigger lays_out(b, text, style)]
        lays_out(a, text, style) == lays_out(b, text, style)
}

/// Whether two states of a context agree in all that `same_style` names
/// and have the same room left.
pub open spec fn same_layout(a: Ui, b: Ui) -> bool {
    same_style(a, b) && room_of(a) == room_of(b)
}

/// How the toolkit would draw an interactive element in its present state.
pub struct TabVisuals {
    /// Stroke and text colour of the element's foreground.
    pub fg_stroke: Stroke,
    /// Corner radii of the element's frame.
    pub rounding: Rounding,
}

/// `Ui::spacing`, field `button_padding`: the padding inside a button,
/// horizontal and vertical, read from the context's own style.
#[verifier::external_body]
pub(crate) fn button_padding(ui: &Ui) -> (r: Vec2)
    ensures
        vec2_view(r) == padding_of(*ui),
{
    ui.spacing().button_padding
}

/// `Ui::spacing`, field `interact_size`: the least size of an interactive
/// element, read from the context's own style.
#[verifier::external_body]
pub(crate) fn interact_size(ui: &Ui) -> (r: Vec2)
    ensures
        vec2_view(r) == interact_size_of(*ui),
{
    ui.spacing().interact_size
}

/// `Ui::available_size`: the room left at the cursor.
#[verifier::external_body]
pub(crate) fn available_size(ui: &Ui) -> Vec2 {
    ui.available_size()
}

/// `Ui::available_rect_before_wrap`: the room left before the layout
/// wraps, read from the context's own layout.
#[verifier::external_body]
pub(crate) fn available_rect_before_wrap(ui: &Ui) -> (r: Rect)
    ensures
        rect_view(r) == room_of(*ui),
{
    ui.available_rect_before_wrap()
}

/// The constant `TextStyle::Button`: the text style of buttons.
#[verifier::external_body]
pub(crate) fn button_text_style() -> (r: TextStyle)
    ensures
        is_button_style(r),
{
    TextStyle::Button
}

/// The constant `WidgetType::SelectableLabel`: the kind of a label that
/// can be selected.
#[verifier::external_body]
pub(crate) fn selectable_label_kind() -> (r: WidgetType)
    ensures
        is_selectable_label(r),
{
    WidgetType::SelectableLabel
}

/// `WidgetText::into_galley` in the context's own wrap mode, with `style`
/// where the text names no style of its own: the label laid out within
/// the width that is the first component of `room`. The toolkit documents
/// the result as the layout of the text given, which holds that text; it
/// finds a layout that it has made before by a 64-bit hash of what was
/// asked. The layout compares the width with the width of a row, rounds
/// it where it is finite and hashes it, and asserts nothing of it: a
/// width below zero lets nothing fit, as a width of zero does, and one
/// that is no number never wraps. The toolkit gives up where the context's
/// fonts are not loaded, where a font family is bound to no font, and
/// where the context's style does not hold a text style that is asked
/// for.
#[verifier::external_body]
pub(crate) fn layout_label(
    text: WidgetText,
    ui: &Ui,
    room: Vec2,
    style: TextStyle,
) -> (galley: Arc<Galley>)
    requires
        lays_out(*ui, text, style),
    ensures
        galley_text(galley) == widget_text_of(text),
{
    text.into_galley(ui, None, room.x, style)
}

/// `Galley::size`: the measured size of a laid-out label.
#[verifier::external_body]
pub(crate) fn galley_size(galley: &Arc<Galley>) -> (r: Vec2)
    ensures
        vec2_view(r) == galley_size_of(*galley),
{
    galley.size()
}

/// `>=` on the first component of a vector and that of `Vec2::ZERO`.
#[verifier::external_body]
pub(crate) fn width_is_length(v: Vec2) -> (r: bool)
    ensures
        r == is_length(vec2_view(v).x),
{
    v.x >= Vec2::ZERO.x
}

/// `>=` on the second component of a vector and that of `Vec2::ZERO`.
#[verifier::external_body]
pub(crate) fn height_is_length(v: Vec2) -> (r: bool)
    ensures
        r == is_length(vec2_view(v).y),
{
    v.y >= Vec2::ZERO.y
}

/// Whether both components of a vector are numbers at or above zero.
pub(crate) fn vec2_is_size(v: Vec2) -> (r: bool)
    ensures
        r == is_size(vec2_view(v)),
{
    width_is_length(v) && height_is_length(v)
}

/// `Vec2::is_finite`: whether both components are numbers and neither is
/// infinite.
#[verifier::external_body]
pub(crate) fn vec2_is_finite(v: Vec2) -> (r: bool)
    ensures
        r == (is_finite(vec2_view(v).x) && is_finite(vec2_view(v).y)),
{
    v.is_finite()
}

/// `Vec2::max`: in each component the maximum of the two that ignores
/// NaN.
#[verifier::external_body]
pub(crate) fn vec2_max(a: Vec2, b: Vec2) -> (r: Vec2)
    ensures
        is_max_of(vec2_view(r).x, vec2_view(a).x, vec2_view(b).x),
        is_max_of(vec2_view(r).y, vec2_view(a).y, vec2_view(b).y),
{
    a.max(b)
}

/// `Ui::allocate_at_least` with click sensing: reserves room of at least
/// the desired size at the cursor and returns the rectangle given and the
/// interaction with it. The response is made with the sense that was
/// handed over and without the mark of a change, and then has the desired
/// size put on record as its field `intrinsic_size`; the rectangle
/// returned is the one in the response. Style, fonts, layout rule and
/// painter of the context stay as they are; to its paint list the toolkit may add
/// marks of its own. The toolkit asserts that the size is no less than
/// zero in either component, and that the place it computes from the size
/// holds no NaN, which an infinite size can bring about.
#[verifier::external_body]
pub(crate) fn allocate_clickable(ui: &mut Ui, desired_size: Vec2) -> (r: (Rect, Response))
    requires
        is_finite_size(vec2_view(desired_size)),
    ensures
        !marked_changed(r.1),
        senses_clicks(r.1),
        asked_size_of(r.1) == Some(vec2_view(desired_size)),
        r.0 == rect_of(r.1),
        same_style(*old(ui), *final(ui)),
        forall|text: WidgetText, style: TextStyle|
            #![trigger lays_out(*final(ui), text, style)]
            #![trigger lays_out(*old(ui), text, style)]
            lays_out(*final(ui), text, style) == lays_out(*old(ui), text, style),
        paints_as_given(*final(ui)) == paints_as_given(*old(ui)),
        extends(painted_of(*final(ui)), painted_of(*old(ui))),
{
    ui.allocate_at_least(desired_size, egui::Sense::click())
}

/// `WidgetInfo::selected`: what accessibility tools are told of an
/// element of the given kind, made of the context's enabled flag
/// (`Ui::is_enabled`), the selected flag and the label's text
/// (`Galley::text`).
#[verifier::external_body]
pub(crate) fn selectable_info(
    kind: WidgetType,
    ui: &Ui,
    selected: bool,
    galley: &Arc<Galley>,
) -> (info: WidgetInfo)
    ensures
        info_kind(info) == kind,
        info_enabled(info) == enabled_of(*ui),
        info_selected(info) == Some(selected),
        info_label(info) == Some(galley_text(*galley)),
{
    WidgetInfo::selected(kind, ui.is_enabled(), selected, galley.text())
}

/// `Response::widget_info`: hands the description of the element to the
/// toolkit.
#[verifier::external_body]
pub(crate) fn report_info(response: &Response, info: WidgetInfo) {
    response.widget_info(|| info.clone());
}

/// `Ui::is_rect_visible` on the rectangle of the response.
#[verifier::external_body]
pub(crate) fn is_visible(ui: &Ui, response: &Response) -> bool {
    ui.is_rect_visible(response.rect)
}

/// `Response::hovered`: reads the response's own flag.
#[verifier::external_body]
pub(crate) fn is_hovered(response: &Response) -> (r: bool)
    ensures
        r == hovered_of(*response),
{
    response.hovered()
}

/// `Response::clicked`.
#[verifier::external_body]
pub(crate) fn is_clicked(response: &Response) -> bool {
    response.clicked()
}

/// `Response::mark_changed`: sets the mark and nothing else.
#[verifier::external_body]
pub(crate) fn mark_changed(response: &mut Response)
    ensures
        marked_changed(*final(response)),
        senses_clicks(*final(response)) == senses_clicks(*old(response)),
        asked_size_of(*final(response)) == asked_size_of(*old(response)),
        rect_of(*final(response)) == rect_of(*old(response)),
        hovered_of(*final(response)) == hovered_of(*old(response)),
{
    response.mark_changed();
}

/// `Layout::align_size_within_rect`: the upper left corner of a box of
/// `size` placed inside `outer` as the context's layout aligns its
/// content. The toolkit asserts that the size is no less than zero in
/// either component and that `outer` is not negative.
#[verifier::external_body]
pub(crate) fn align_in_layout(ui: &Ui, size: Vec2, outer: Rect) -> (r: Pos2)
    requires
        is_size(vec2_view(size)),
        !is_negative_frame(rect_view(outer)),
    ensures
        pos2_view(r) == aligned_in(*ui, vec2_view(size), rect_view(outer)),
{
    ui.layout().align_size_within_rect(size, outer).min
}

/// `Align2::align_size_within_rect` for the horizontal and the vertical
/// alignment of the context's layout (`Layout::horizontal_align`,
/// `Layout::vertical_align`): the upper left corner of a box of `size`
/// placed inside `outer`. The layout's own alignment is this very call on
/// these two alignments, after its assertions.
#[verifier::external_body]
pub(crate) fn align_within(ui: &Ui, size: Vec2, outer: Rect) -> (r: Pos2)
    ensures
        pos2_view(r) == aligned_in(*ui, vec2_view(size), rect_view(outer)),
{
    let layout = ui.layout();
    let align = egui::Align2([layout.horizontal_align(), layout.vertical_align()]);
    align.align_size_within_rect(size, outer).min
}

/// `Style::interact_selectable`: the visuals for the response's state and
/// the selected flag, of which the foreground stroke and the corner radii
/// are kept.
#[verifier::external_body]
pub(crate) fn interact_visuals(ui: &Ui, response: &Response, selected: bool) -> TabVisuals {
    let visuals = ui.style().interact_selectable(response, selected);
    TabVisuals { fg_stroke: visuals.fg_stroke, rounding: visuals.rounding }
}

/// `Visuals::window_stroke`: the stroke of the surrounding container's
/// border, read from the context's own style.
#[verifier::external_body]
pub(crate) fn window_stroke(ui: &Ui) -> (r: Stroke)
    ensures
        r == window_stroke_of(*ui),
{
    ui.style().visuals.window_stroke()
}

/// `Visuals::window_fill`: the fill of the surrounding container, read
/// from the context's own style.
#[verifier::external_body]
pub(crate) fn window_fill(ui: &Ui) -> (r: Color32)
    ensures
        r == window_fill_of(*ui),
{
    ui.style().visuals.window_fill()
}

/// `Visuals::text_color`: the colour of plain text, read from the
/// context's own style.
#[verifier::external_body]
pub(crate) fn text_color(ui: &Ui) -> (r: Color32)
    ensures
        r == text_color_of(*ui),
{
    ui.style().visuals.text_color()
}

} // verus!
