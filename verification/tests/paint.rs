use egui::{pos2, vec2, Color32, Pos2, Rect, Rounding, Stroke};
use egui_simpletabs::plan::{cap_line, mask_rect, tab_paint, TabLook};
use egui_simpletabs::tab::label_frame;
use egui_simpletabs::toolkit::TabVisuals;

const FG: Stroke = Stroke { width: 1.5, color: Color32::WHITE };
const WINDOW: Stroke = Stroke { width: 2.0, color: Color32::GRAY };

fn look(visible: bool, selected: bool, hovered: bool) -> TabLook {
    TabLook {
        visible,
        selected,
        hovered,
        rect: Rect::from_min_max(pos2(10.0, 20.0), pos2(70.0, 40.0)),
        padding: vec2(4.0, 1.0),
        visuals: TabVisuals {
            fg_stroke: FG,
            rounding: Rounding { nw: 3.0, ne: 5.0, sw: 7.0, se: 9.0 },
        },
        window_stroke: WINDOW,
        window_fill: Color32::DARK_BLUE,
        text_color: Color32::YELLOW,
        label_at: pos2(14.0, 21.0),
    }
}

#[test]
fn hidden_tab_paints_nothing() {
    for selected in [false, true] {
        for hovered in [false, true] {
            assert!(tab_paint(look(false, selected, hovered)).is_none());
        }
    }
}

#[test]
fn visible_tab_paints() {
    for selected in [false, true] {
        for hovered in [false, true] {
            assert!(tab_paint(look(true, selected, hovered)).is_some());
        }
    }
}

#[test]
fn border_is_square_below_and_rounded_above() {
    for selected in [false, true] {
        for hovered in [false, true] {
            let plan = tab_paint(look(true, selected, hovered)).unwrap();
            assert_eq!(plan.border.rounding, Rounding { nw: 3.0, ne: 5.0, sw: 0.0, se: 0.0 });
            assert_eq!(plan.border.rect, Rect::from_min_max(pos2(10.0, 20.0), pos2(70.0, 40.0)));
        }
    }
}

#[test]
fn selected_tab_has_foreground_border() {
    let plan = tab_paint(look(true, true, false)).unwrap();
    assert_eq!(plan.border.stroke, FG);
    let hovered = tab_paint(look(true, true, true)).unwrap();
    assert_eq!(hovered.border.stroke, FG);
}

#[test]
fn unselected_tab_has_window_border() {
    let plan = tab_paint(look(true, false, false)).unwrap();
    assert_eq!(plan.border.stroke, WINDOW);
}

#[test]
fn hovered_unselected_tab_has_thin_text_coloured_border() {
    let plan = tab_paint(look(true, false, true)).unwrap();
    assert_eq!(plan.border.stroke, Stroke { width: 1.0, color: Color32::YELLOW });
    assert_eq!(plan.right.stroke, WINDOW);
    assert_eq!(plan.left.stroke, WINDOW);
}

#[test]
fn only_selected_tab_is_masked() {
    assert!(tab_paint(look(true, false, false)).unwrap().mask.is_none());
    assert!(tab_paint(look(true, false, true)).unwrap().mask.is_none());
    let mask = tab_paint(look(true, true, false)).unwrap().mask.unwrap();
    assert_eq!(mask.rect, Rect::from_min_max(pos2(10.0, 38.5), pos2(70.0, 43.0)));
    assert_eq!(mask.rounding, Rounding::ZERO);
    assert_eq!(mask.fill, Color32::DARK_BLUE);
}

#[test]
fn mask_covers_the_lower_edge() {
    let rect = Rect::from_min_max(pos2(10.0, 20.0), pos2(70.0, 40.0));
    let mask = mask_rect(rect, WINDOW);
    assert_eq!(mask, Rect::from_min_max(pos2(10.0, 38.0), pos2(70.0, 44.0)));
}

#[test]
fn connectors_of_selected_tab() {
    let plan = tab_paint(look(true, true, false)).unwrap();
    assert_eq!(plan.right.from, pos2(71.5, 41.5));
    assert_eq!(plan.right.to, pos2(71.5 + 3.2, 41.5));
    assert_eq!(plan.right.stroke, FG);
    assert_eq!(plan.left.from, pos2(8.5, 41.5));
    assert_eq!(plan.left.to, pos2(8.5 - 3.2, 41.5));
    assert_eq!(plan.left.stroke, FG);
}

#[test]
fn connectors_of_unselected_tab() {
    let plan = tab_paint(look(true, false, false)).unwrap();
    assert_eq!(plan.right.from, pos2(72.0, 42.0));
    assert_eq!(plan.right.to, pos2(72.0 + 3.2, 42.0));
    assert_eq!(plan.left.from, pos2(8.0, 42.0));
    assert_eq!(plan.left.to, pos2(8.0 - 3.2, 42.0));
}

#[test]
fn label_goes_where_told_in_foreground_colour() {
    let plan = tab_paint(look(true, false, true)).unwrap();
    assert_eq!(plan.label_at, pos2(14.0, 21.0));
    assert_eq!(plan.label_color, Color32::WHITE);
}

#[test]
fn cap_runs_under_the_content() {
    let rect = Rect::from_min_max(pos2(10.0, 50.0), pos2(210.0, 150.0));
    let line = cap_line(rect, WINDOW, vec2(4.0, 1.0));
    assert_eq!(line.from, pos2(8.0 - 3.2, 152.0));
    assert_eq!(line.to, pos2(212.0 + 3.2, 152.0));
    assert_eq!(line.stroke, WINDOW);
}

#[test]
fn cap_of_empty_room() {
    let rect = Rect::from_min_max(Pos2::ZERO, Pos2::ZERO);
    let line = cap_line(rect, Stroke { width: 1.0, color: Color32::RED }, vec2(5.0, 0.0));
    assert_eq!(line.from, pos2(-5.0, 1.0));
    assert_eq!(line.to, pos2(5.0, 1.0));
}

#[test]
fn label_frame_is_the_rectangle_less_the_padding() {
    let rect = Rect::from_min_max(pos2(10.0, 20.0), pos2(70.0, 40.0));
    let frame = label_frame(rect, vec2(4.0, 1.0));
    assert_eq!(frame, Rect::from_min_max(pos2(14.0, 21.0), pos2(66.0, 39.0)));
}

#[test]
fn label_frame_may_be_negative() {
    let rect = Rect::from_min_max(pos2(0.0, 0.0), pos2(6.0, 10.0));
    let frame = label_frame(rect, vec2(4.0, 1.0));
    assert_eq!(frame, Rect::from_min_max(pos2(4.0, 1.0), pos2(2.0, 9.0)));
    assert!(frame.is_negative());
}
