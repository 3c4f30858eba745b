//! A row of tabs over one selection value that the caller owns.

use crate::geometry::Point;
use crate::paint::{added_one, paint_line_segment, Painted};
use crate::plan::{cap_entry, cap_line, TabLook, TabPaint};
use crate::tab::{can_show, shows_tab, tab_shown, TabWidget};
use crate::toolkit::{
    available_rect_before_wrap, button_padding, is_clicked, mark_changed, marked_changed,
    padding_of, room_of, same_layout, same_style, senses_clicks, window_stroke, window_stroke_of,
};
use egui::{Galley, Response, Ui, WidgetText};
use std::sync::Arc;
use vstd::prelude::*;
use vstd::std_specs::cmp::PartialEqSpec;
use vstd::std_specs::convert::IntoSpec;

verus! {

/// Moves the selection to `selected_value` where its tab was clicked and
/// is not the active one already. Returns whether the selection moved:
/// it moves if and only if there was a click and the selection did not
/// equal `selected_value`, and is left as it was otherwise. On a tab that
/// is the active one already nothing moves, click or no click.
pub fn select_on_click<Value: PartialEq>(
    current_value: &mut Value,
    selected_value: Value,
    clicked: bool,
) -> (changed: bool)
    ensures
        changed ==> *final(current_value) == selected_value,
        !changed ==> *final(current_value) == *old(current_value),
        !clicked ==> !changed,
        Value::obeys_eq_spec() ==> changed == (clicked && !(*old(current_value)).eq_spec(
            &selected_value,
        )),
        Value::obeys_eq_spec() && (*old(current_value)).eq_spec(&selected_value) ==> !changed
            && *final(current_value) == *old(current_value),
{
    if clicked && *current_value != selected_value {
        *current_value = selected_value;
        true
    } else {
        false
    }
}

/// Tabs on a layout context.
pub trait TabWidgetExt {
    /// Whether a tab with the label `text` can be shown on this context.
    spec fn can_show_tab(&self, text: WidgetText) -> bool;

    /// Shows the tab of `selected_value`, as the active one where the
    /// selection equals it, and moves the selection to it on a click.
    /// The selection is either left as it was or set to `selected_value`,
    /// and the response is marked as changed exactly where it was set. A
    /// tab that is the active one already never moves the selection. The
    /// context must be able to show a tab with the label that `text`
    /// converts to.
    fn add_tab<Value: PartialEq, T: Into<WidgetText>>(
        &mut self,
        current_value: &mut Value,
        selected_value: Value,
        text: T,
    ) -> (response: Response)
        requires
            forall|label: WidgetText|
                (T::obeys_into_spec() ==> label == text.into_spec()) ==> #[trigger] old(
                    self,
                ).can_show_tab(label),
        ensures
            marked_changed(response) ==> *final(current_value) == selected_value,
            !marked_changed(response) ==> *final(current_value) == *old(current_value),
            Value::obeys_eq_spec() && (*old(current_value)).eq_spec(&selected_value)
                ==> !marked_changed(response) && *final(current_value) == *old(current_value),
    ;

    /// Closes the border under the tab row. To be called once, after the
    /// tabs and the content below them.
    fn cap_tabs(&mut self);
}

impl TabWidgetExt for Ui {
    /// A context can show a tab whose label the toolkit lays out in it.
    open spec fn can_show_tab(&self, text: WidgetText) -> bool {
        can_show(*self, text)
    }

    /// Shows one tab with the label that `text` converts to, drawn as the
    /// active one exactly where the selection equals `selected_value`
    /// before the call, and returns its interaction, which senses clicks.
    /// The style of the context is left as it was.
    fn add_tab<Value: PartialEq, T: Into<WidgetText>>(
        &mut self,
        current_value: &mut Value,
        selected_value: Value,
        text: T,
    ) -> (response: Response)
        ensures
            senses_clicks(response),
            exists|selected: bool, label: WidgetText|
                (Value::obeys_eq_spec() ==> selected == (*old(current_value)).eq_spec(
                    &selected_value,
                )) && (T::obeys_into_spec() ==> label == text.into_spec()) && #[trigger] shows_tab(
                    *old(self),
                    *final(self),
                    response,
                    selected,
                    label,
                ),
            same_style(*old(self), *final(self)),
    {
        let ghost before = *self;
        let selected = *current_value == selected_value;
        let tab = TabWidget::new(selected, text);
        let ghost shown_text = tab.label();
        assert(before.can_show_tab(shown_text));
        let mut response = tab.ui(self);
        let ghost shown = response;
        if select_on_click(current_value, selected_value, is_clicked(&response)) {
            mark_changed(&mut response);
        }
        proof {
            let (look, plan, label, desired, base) = choose|
                look: TabLook,
                plan: Option<TabPaint>,
                label: Arc<Galley>,
                desired: Point,
                base: Seq<Painted>,
            |
                #[trigger] tab_shown(
                    before,
                    *self,
                    shown,
                    selected,
                    shown_text,
                    look,
                    plan,
                    label,
                    desired,
                    base,
                );
            assert(tab_shown(
                before,
                *self,
                response,
                selected,
                shown_text,
                look,
                plan,
                label,
                desired,
                base,
            ));
            assert(shows_tab(before, *self, response, selected, shown_text));
        }
        response
    }

    /// Adds one line to the paint list of the context's layer: the line
    /// of `cap_line` for the room that is left in the layout, the stroke
    /// of the container's border and the button padding. Style and layout
    /// of the context are left as they were.
    fn cap_tabs(&mut self)
        ensures
            added_one(
                *old(self),
                *final(self),
                cap_entry(
                    room_of(*old(self)),
                    window_stroke_of(*old(self)),
                    padding_of(*old(self)),
                ),
            ),
            same_layout(*old(self), *final(self)),
    {
        let rect = available_rect_before_wrap(self);
        let stroke = window_stroke(self);
        let line = cap_line(rect, stroke, button_padding(self));
        paint_line_segment(self, line.from, line.to, line.stroke);
    }
}

} // verus!
