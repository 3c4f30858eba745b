//! The tab: a selectable label whose outline is open towards the content
//! below it.

use crate::geometry::{
    frame_shrunk, is_finite_size, is_size, pos2_view, rect_is_negative, rect_shrink2, rect_view,
    vec2_difference, vec2_of, vec2_quotient, vec2_raised, vec2_scaled, vec2_sum, vec2_view,
    Point,
};
use crate::number::{
    is_max_of, is_nan, number_difference, number_le, number_of, number_product, number_quotient,
    number_sum,
};
use crate::paint::{
    extends, paint_galley, paint_line_segment, paint_rect_filled, paint_rect_stroke, painted_of,
    paints_as_given, Painted,
};
use crate::plan::{is_tab_paint, shapes_of, tab_paint, TabLook, TabPaint};
use crate::paint::galley_text;
use crate::toolkit::{
    enabled_of, info_enabled, info_kind, info_label, info_selected, is_selectable_label,
    align_in_layout, align_within, aligned_in, allocate_clickable, asked_size_of,
    available_size, button_padding, button_text_style, galley_size, galley_size_of,
    hovered_of, interact_size, interact_size_of, interact_visuals, is_button_style, is_hovered,
    is_visible, layout_label, lays_out, marked_changed, padding_of, rect_of, report_info,
    same_layout, same_style, selectable_info, selectable_label_kind, senses_clicks, text_color,
    text_color_of, vec2_is_finite, vec2_is_size, vec2_max, widget_text_of, window_fill,
    window_fill_of, window_stroke, window_stroke_of,
};
use egui::{Galley, Pos2, Rect, Response, TextStyle, Ui, Vec2, WidgetInfo, WidgetText};
use std::sync::Arc;
use vstd::prelude::*;
use vstd::std_specs::convert::IntoSpec;

verus! {

/// One tab of a tab row, made anew for each frame.
pub struct TabWidget {
    selected: bool,
    text: WidgetText,
}

impl TabWidget {
    /// Whether the tab is drawn as the active one.
    pub closed spec fn is_selected(&self) -> bool {
        self.selected
    }

    /// The tab's label.
    pub closed spec fn label(&self) -> WidgetText {
        self.text
    }

    /// A tab with the given label, drawn as the active one where
    /// `selected` is set.
    pub fn new<T: Into<WidgetText>>(selected: bool, text: T) -> (tab: Self)
        ensures
            tab.is_selected() == selected,
            T::obeys_into_spec() ==> tab.label() == text.into_spec(),
    {
        Self { selected, text: text.into() }
    }
}

/// The number `1.25`, as the quotient of 5 and 4.
pub open spec fn edge_ratio() -> u32 {
    number_quotient(number_of(5), number_of(4))
}

/// The horizontal offset between a tab's lower corner and the end of its
/// connector: the unit vector along `x`, times the horizontal padding,
/// divided by `1.25`.
pub open spec fn edge_offset_of(padding: Point) -> Point {
    Point {
        x: number_quotient(number_product(number_of(1), padding.x), edge_ratio()),
        y: number_quotient(number_product(number_of(0), padding.x), edge_ratio()),
    }
}

/// The offset of a connector's end for the given button padding.
pub fn tab_edge_vect(padding: Vec2) -> (v: Vec2)
    ensures
        vec2_view(v) == edge_offset_of(vec2_view(padding)),
{
    let along_x = vec2_scaled(vec2_of(1, 0), padding);
    let ratio = vec2_quotient(vec2_of(5, 5), vec2_of(4, 4));
    vec2_quotient(along_x, ratio)
}

/// The padding on both sides of the label, in each direction.
pub open spec fn total_extra_of(padding: Point) -> Point {
    Point { x: number_sum(padding.x, padding.x), y: number_sum(padding.y, padding.y) }
}

/// The label's size with the padding round it, before the height is
/// raised.
pub open spec fn padded_size_of(padding: Point, label: Point) -> Point {
    Point {
        x: number_sum(total_extra_of(padding).x, label.x),
        y: number_sum(total_extra_of(padding).y, label.y),
    }
}

/// Whether `size` is the size that a tab asks for: as wide as the padded
/// label, and as high as the higher of the padded label and the least
/// height of an interactive element.
pub open spec fn is_desired_size(
    size: Point,
    padding: Point,
    label: Point,
    interact: Point,
) -> bool {
    &&& size.x == padded_size_of(padding, label).x
    &&& is_max_of(size.y, padded_size_of(padding, label).y, interact.y)
}

/// The width within which the label is laid out: the first component of
/// the room that is left after the padding on both sides.
pub open spec fn wrap_room_of(available: Point, padding: Point) -> Point {
    Point {
        x: number_difference(available.x, total_extra_of(padding).x),
        y: number_difference(available.y, total_extra_of(padding).y),
    }
}

/// The room for the label where `available` is left at the cursor.
pub fn wrap_room(available: Vec2, padding: Vec2) -> (room: Vec2)
    ensures
        vec2_view(room) == wrap_room_of(vec2_view(available), vec2_view(padding)),
{
    vec2_difference(available, vec2_sum(padding, padding))
}

/// The size that a tab asks of the layout, for the button padding, the
/// measured size of its label and the least size of an interactive
/// element.
pub fn desired_size(padding: Vec2, label: Vec2, interact: Vec2) -> (size: Vec2)
    ensures
        is_desired_size(
            vec2_view(size),
            vec2_view(padding),
            vec2_view(label),
            vec2_view(interact),
        ),
{
    let total_extra = vec2_sum(padding, padding);
    let padded = vec2_sum(total_extra, label);
    vec2_raised(padded, interact)
}

/// A tab is never lower than an interactive element has to be: the
/// desired height is at or above the least interactive height, whatever
/// the label and the padding are, as long as that least height is a
/// number.
pub proof fn lemma_desired_height_at_least_interactive(
    size: Point,
    padding: Point,
    label: Point,
    interact: Point,
)
    requires
        is_desired_size(size, padding, label, interact),
        !is_nan(interact.y),
    ensures
        number_le(interact.y, size.y),
{
}

/// The desired width is the label's width plus twice the horizontal
/// padding: the padding is first added to itself, then the label's width
/// to that. Neither the heights nor the least interactive size bear on it.
pub proof fn lemma_desired_width_is_label_plus_padding(
    size: Point,
    padding: Point,
    label: Point,
    interact: Point,
)
    requires
        is_desired_size(size, padding, label, interact),
    ensures
        size.x == number_sum(number_sum(padding.x, padding.x), label.x),
{
}

/// The pattern of positive infinity.
pub open spec fn infinity() -> u32 {
    0x7f80_0000
}

/// Whether `size` is what the layout is asked for where the tab desires
/// `desired`, so that the layout is never asked for less than nothing nor
/// for endless room: the desired size itself where that is a finite size;
/// nothing at all where a component of it is infinite; and else the
/// desired size with each component raised to zero.
pub open spec fn is_requested_size(size: Point, desired: Point) -> bool {
    if is_finite_size(desired) {
        size == desired
    } else if desired.x == infinity() || desired.y == infinity() {
        size == (Point { x: number_of(0), y: number_of(0) })
    } else {
        &&& is_max_of(size.x, desired.x, number_of(0))
        &&& is_max_of(size.y, desired.y, number_of(0))
    }
}

/// The size to ask of the layout for a desired size.
pub fn requested_size(desired: Vec2) -> (size: Vec2)
    ensures
        is_requested_size(vec2_view(size), vec2_view(desired)),
        is_finite_size(vec2_view(size)),
        is_finite_size(vec2_view(desired)) ==> size == desired,
{
    if vec2_is_size(desired) && vec2_is_finite(desired) {
        desired
    } else {
        let nothing = vec2_of(0, 0);
        let raised = vec2_max(desired, nothing);
        if vec2_is_finite(raised) {
            raised
        } else {
            nothing
        }
    }
}

/// Whether `size` is what a tab asks of the layout under the given button
/// padding and least interactive size: the requested size for the size
/// that the tab desires for its label, whatever the label measures.
pub open spec fn is_tab_request(size: Point, padding: Point, interact: Point) -> bool {
    exists|label: Point, desired: Point|
        #![trigger is_desired_size(desired, padding, label, interact)]
        is_desired_size(desired, padding, label, interact) && is_requested_size(size, desired)
}

/// What a tab asks of the layout is never lower than an interactive
/// element has to be, as long as that least height is a number and no
/// component of the desired size is infinite: raising a desired size to
/// zero does not lower it.
pub proof fn lemma_request_height_at_least_interactive(
    size: Point,
    desired: Point,
    padding: Point,
    label: Point,
    interact: Point,
)
    requires
        is_desired_size(desired, padding, label, interact),
        is_requested_size(size, desired),
        !is_nan(interact.y),
        desired.x != infinity(),
        desired.y != infinity(),
    ensures
        number_le(interact.y, size.y),
{
}

/// Whether `response` is the interaction that a tab returns where it was
/// shown in a context that held `padding` and `interact` in its style:
/// it senses clicks, has on record that the tab's size was asked of the
/// layout, and carries no mark of a change.
pub open spec fn is_tab_response(response: Response, padding: Point, interact: Point) -> bool {
    &&& senses_clicks(response)
    &&& !marked_changed(response)
    &&& asked_size_of(response) matches Some(size) && is_tab_request(size, padding, interact)
}

/// Whether `info` describes a tab to accessibility tools: a label that
/// can be selected, enabled as the context is, selected or not as the tab
/// is, with the tab's text as its label.
pub open spec fn is_tab_description(
    info: WidgetInfo,
    enabled: bool,
    selected: bool,
    text: Seq<char>,
) -> bool {
    &&& is_selectable_label(info_kind(info))
    &&& info_enabled(info) == enabled
    &&& info_selected(info) == Some(selected)
    &&& info_label(info) == Some(text)
}

/// What accessibility tools are told of a tab whose label was laid out
/// as `galley`.
pub fn tab_description(ui: &Ui, selected: bool, galley: &Arc<Galley>) -> (info: WidgetInfo)
    ensures
        is_tab_description(info, enabled_of(*ui), selected, galley_text(*galley)),
{
    selectable_info(selectable_label_kind(), ui, selected, galley)
}

/// The frame inside which the label is aligned: the tab's rectangle with
/// its sides moved inward by the button padding.
pub fn label_frame(rect: Rect, padding: Vec2) -> (frame: Rect)
    ensures
        rect_view(frame) == frame_shrunk(rect_view(rect), vec2_view(padding)),
{
    rect_shrink2(rect, padding)
}

/// Where the context's layout puts a label of `size` inside `outer`. The
/// layout's own alignment is asked where it accepts the two, a size and a
/// frame that is not negative, and the alignment that it is made of where
/// it would refuse one of them.
pub(crate) fn label_place(ui: &Ui, size: Vec2, outer: Rect) -> (place: Pos2)
    ensures
        pos2_view(place) == aligned_in(*ui, vec2_view(size), rect_view(outer)),
{
    if vec2_is_size(size) && !rect_is_negative(outer) {
        align_in_layout(ui, size, outer)
    } else {
        align_within(ui, size, outer)
    }
}

/// Whether the context can show a tab with the label `text`: the toolkit
/// lays the text out in the context, in the text style of buttons where
/// the text names no style of its own.
pub open spec fn can_show(ui: Ui, text: WidgetText) -> bool {
    forall|style: TextStyle| is_button_style(style) ==> #[trigger] lays_out(ui, text, style)
}

/// Whether a tab with the label `text` was shown between the states
/// `before` and `after` of a context, with `response` as its interaction:
/// `label` is the text laid out and measured, `desired` is the size the
/// tab desired under the context's style, the layout was asked for the
/// size requested for that, `look` is what the toolkit reported of the
/// tab, and the entries of `plan`, which is what a tab of that look
/// paints, were added to the paint list after `base`, which is what the
/// list held once the room was given.
pub open spec fn tab_shown(
    before: Ui,
    after: Ui,
    response: Response,
    selected: bool,
    text: WidgetText,
    look: TabLook,
    plan: Option<TabPaint>,
    label: Arc<Galley>,
    desired: Point,
    base: Seq<Painted>,
) -> bool {
    &&& galley_text(label) == widget_text_of(text)
    &&& is_desired_size(
        desired,
        padding_of(before),
        galley_size_of(label),
        interact_size_of(before),
    )
    &&& asked_size_of(response) matches Some(size) && is_requested_size(size, desired)
    &&& look.selected == selected
    &&& look.hovered == hovered_of(response)
    &&& look.rect == rect_of(response)
    &&& vec2_view(look.padding) == padding_of(before)
    &&& look.window_stroke == window_stroke_of(before)
    &&& look.window_fill == window_fill_of(before)
    &&& look.text_color == text_color_of(before)
    &&& pos2_view(look.label_at) == aligned_in(
        before,
        galley_size_of(label),
        frame_shrunk(rect_view(look.rect), padding_of(before)),
    )
    &&& plan is Some <==> look.visible
    &&& plan matches Some(seen) ==> is_tab_paint(seen, look)
    &&& extends(base, painted_of(before))
    &&& extends(painted_of(after), base)
    &&& painted_of(after).len() == base.len() + shapes_of(plan, label).len()
    &&& paints_as_given(before) ==> painted_of(after) == base + shapes_of(plan, label)
}

/// Whether a tab with the label `text`, drawn as the active one where
/// `selected` is set, was shown between two states of a context with
/// `response` as its interaction. Whether the tab can be seen and how the
/// toolkit draws an element in its state are the toolkit's to report; all
/// else that the tab paints follows from the context, the response and
/// the label.
pub open spec fn shows_tab(
    before: Ui,
    after: Ui,
    response: Response,
    selected: bool,
    text: WidgetText,
) -> bool {
    exists|
        look: TabLook,
        plan: Option<TabPaint>,
        label: Arc<Galley>,
        desired: Point,
        base: Seq<Painted>,
    |
        #[trigger] tab_shown(
            before,
            after,
            response,
            selected,
            text,
            look,
            plan,
            label,
            desired,
            base,
        )
}

/// Paints what was planned for a tab, in this order: border, mask, right
/// connector, left connector, label. Paints nothing where nothing was
/// planned.
pub(crate) fn paint_tab(ui: &mut Ui, plan: Option<TabPaint>, galley: Arc<Galley>)
    ensures
        extends(painted_of(*final(ui)), painted_of(*old(ui))),
        painted_of(*final(ui)).len() == painted_of(*old(ui)).len() + shapes_of(
            plan,
            galley,
        ).len(),
        paints_as_given(*old(ui)) ==> painted_of(*final(ui)) == painted_of(*old(ui)) + shapes_of(
            plan,
            galley,
        ),
        paints_as_given(*final(ui)) == paints_as_given(*old(ui)),
        same_layout(*old(ui), *final(ui)),
{
    let ghost start = painted_of(*ui);
    let ghost label = galley;
    match plan {
        Some(seen) => {
            paint_rect_stroke(ui, seen.border.rect, seen.border.rounding, seen.border.stroke);
            let ghost bordered = painted_of(*ui);
            match seen.mask {
                Some(mask) => paint_rect_filled(ui, mask.rect, mask.rounding, mask.fill),
                None => {},
            }
            let ghost masked = painted_of(*ui);
            paint_line_segment(ui, seen.right.from, seen.right.to, seen.right.stroke);
            paint_line_segment(ui, seen.left.from, seen.left.to, seen.left.stroke);
            let ghost lined = painted_of(*ui);
            paint_galley(ui, seen.label_at, galley, seen.label_color);
            proof {
                let done = painted_of(*ui);
                let planned = shapes_of(plan, label);
                assert(bordered.len() == start.len() + 1);
                assert(masked.len() == bordered.len() + (if seen.mask is Some { 1int } else { 0 }));
                assert(lined.len() == masked.len() + 2);
                assert(done.subrange(0, start.len() as int) =~= start);
                if paints_as_given(*old(ui)) {
                    assert(done =~= start + planned);
                }
            }
        },
        None => {
            proof {
                assert(start.subrange(0, start.len() as int) =~= start);
                assert(start + shapes_of(plan, label) =~= start);
            }
        },
    }
}

impl TabWidget {
    /// Lays the tab out at the cursor in its requested size, senses
    /// clicks on it and paints what `tab_paint` plans for it. Returns the
    /// interaction as the toolkit reports it: for an element that senses
    /// clicks and for which the tab's size, under the padding and the
    /// least interactive size of the context's style, was asked of the
    /// layout. Nothing is marked as changed on it, and the style of the
    /// context is left as it was. The toolkit must be able to lay the
    /// label out.
    pub fn ui(self, ui: &mut Ui) -> (response: Response)
        requires
            can_show(*old(ui), self.label()),
        ensures
            is_tab_response(response, padding_of(*old(ui)), interact_size_of(*old(ui))),
            shows_tab(*old(ui), *final(ui), response, self.is_selected(), self.label()),
            same_style(*old(ui), *final(ui)),
    {
        let ghost before = *ui;
        let ghost text = self.text;
        let selected = self.selected;
        let padding = button_padding(ui);
        let room = wrap_room(available_size(ui), padding);
        let galley = layout_label(self.text, ui, room, button_text_style());
        let label = galley_size(&galley);
        let desired = desired_size(padding, label, interact_size(ui));
        let size = requested_size(desired);
        assert(is_tab_request(vec2_view(size), padding_of(*ui), interact_size_of(*ui))) by {
            assert(is_desired_size(
                vec2_view(desired),
                padding_of(*ui),
                vec2_view(label),
                interact_size_of(*ui),
            ));
        }
        let (rect, response) = allocate_clickable(ui, size);
        let ghost base = painted_of(*ui);
        report_info(&response, tab_description(ui, selected, &galley));
        let look = TabLook {
            visible: is_visible(ui, &response),
            selected,
            hovered: is_hovered(&response),
            rect,
            padding,
            visuals: interact_visuals(ui, &response, selected),
            window_stroke: window_stroke(ui),
            window_fill: window_fill(ui),
            text_color: text_color(ui),
            label_at: label_place(ui, label, label_frame(rect, padding)),
        };
        let ghost seen = look;
        let plan = tab_paint(look);
        let ghost planned = plan;
        let ghost laid_out = galley;
        paint_tab(ui, plan, galley);
        proof {
            assert(tab_shown(
                before,
                *ui,
                response,
                selected,
                text,
                seen,
                planned,
                laid_out,
                vec2_view(desired),
                base,
            ));
        }
        response
    }
}

impl egui::Widget for TabWidget {
    fn ui(self, ui: &mut Ui) -> (response: Response)
        requires
            can_show(*old(ui), self.label()),
        ensures
            is_tab_response(response, padding_of(*old(ui)), interact_size_of(*old(ui))),
            shows_tab(*old(ui), *final(ui), response, self.is_selected(), self.label()),
            same_style(*old(ui), *final(ui)),
    {
        TabWidget::ui(self, ui)
    }
}

} // verus!
