use egui::{
    pos2, vec2, CentralPanel, Context, Event, FullOutput, Modifiers, PointerButton, Pos2, RawInput,
    Rect, Response, Shape, TextStyle, Ui, WidgetText,
};
use egui_simpletabs::tab::desired_size;
use egui_simpletabs::{TabWidget, TabWidgetExt};

#[derive(Clone, Copy, Debug, PartialEq)]
enum Tabs {
    Home,
    TabOne,
    TabTwo,
}

fn input(events: Vec<Event>) -> RawInput {
    RawInput {
        screen_rect: Some(Rect::from_min_size(Pos2::ZERO, vec2(800.0, 600.0))),
        events,
        ..Default::default()
    }
}

fn press(pos: Pos2, pressed: bool) -> Event {
    Event::PointerButton {
        pos,
        button: PointerButton::Primary,
        pressed,
        modifiers: Modifiers::NONE,
    }
}

fn show(ctx: &Context, events: Vec<Event>, mut content: impl FnMut(&mut Ui)) -> FullOutput {
    ctx.run(input(events), |ctx| {
        CentralPanel::default().show(ctx, |ui| content(ui));
    })
}

fn show_row(ctx: &Context, events: Vec<Event>, tab: &mut Tabs) -> Vec<Response> {
    let mut responses = Vec::new();
    show(ctx, events, |ui| {
        ui.horizontal(|ui| {
            responses.push(ui.add_tab(tab, Tabs::Home, "Home"));
            responses.push(ui.add_tab(tab, Tabs::TabOne, "TabOne"));
            responses.push(ui.add_tab(tab, Tabs::TabTwo, "TabTwo"));
        });
    });
    responses
}

fn click_on(ctx: &Context, tab: &mut Tabs, index: usize) -> Vec<Response> {
    let at = show_row(ctx, vec![], tab)[index].rect.center();
    show_row(ctx, vec![Event::PointerMoved(at)], tab);
    show_row(ctx, vec![press(at, true)], tab);
    show_row(ctx, vec![press(at, false)], tab)
}

fn count(output: &FullOutput, wanted: fn(&Shape) -> bool) -> usize {
    output.shapes.iter().filter(|clipped| wanted(&clipped.shape)).count()
}

fn is_painted(shape: &Shape) -> bool {
    !matches!(shape, Shape::Noop)
}

fn is_line(shape: &Shape) -> bool {
    matches!(shape, Shape::LineSegment { .. })
}

fn is_rect(shape: &Shape) -> bool {
    matches!(shape, Shape::Rect(_))
}

fn is_text(shape: &Shape) -> bool {
    matches!(shape, Shape::Text(_))
}

#[test]
fn row_without_click_keeps_selection() {
    let ctx = Context::default();
    let mut tab = Tabs::Home;
    for _ in 0..3 {
        let responses = show_row(&ctx, vec![], &mut tab);
        assert_eq!(tab, Tabs::Home);
        for response in responses {
            assert!(!response.clicked());
            assert!(!response.changed());
        }
    }
}

#[test]
fn click_on_other_tab_selects_it_and_marks_change() {
    let ctx = Context::default();
    let mut tab = Tabs::Home;
    let responses = click_on(&ctx, &mut tab, 1);
    assert_eq!(tab, Tabs::TabOne);
    assert!(responses[1].clicked());
    assert!(responses[1].changed());
    assert!(!responses[0].changed());
    assert!(!responses[2].changed());
}

#[test]
fn click_on_selected_tab_changes_nothing() {
    let ctx = Context::default();
    let mut tab = Tabs::TabTwo;
    let responses = click_on(&ctx, &mut tab, 2);
    assert_eq!(tab, Tabs::TabTwo);
    assert!(responses[2].clicked());
    for response in responses {
        assert!(!response.changed());
    }
}

#[test]
fn click_is_reported_with_label_and_selected_flag() {
    let ctx = Context::default();
    let mut tab = Tabs::Home;
    let at = show_row(&ctx, vec![], &mut tab)[2].rect.center();
    show_row(&ctx, vec![Event::PointerMoved(at)], &mut tab);
    show_row(&ctx, vec![press(at, true)], &mut tab);
    let output = show(&ctx, vec![press(at, false)], |ui| {
        ui.horizontal(|ui| {
            ui.add_tab(&mut tab, Tabs::Home, "Home");
            ui.add_tab(&mut tab, Tabs::TabOne, "TabOne");
            ui.add_tab(&mut tab, Tabs::TabTwo, "TabTwo");
        });
    });
    assert_eq!(tab, Tabs::TabTwo);
    let mut clicks = 0;
    for event in &output.platform_output.events {
        if let egui::output::OutputEvent::Clicked(info) = event {
            assert_eq!(info.typ, egui::WidgetType::SelectableLabel);
            assert_eq!(info.label.as_deref(), Some("TabTwo"));
            assert_eq!(info.selected, Some(false));
            assert!(info.enabled);
            clicks += 1;
        }
    }
    assert_eq!(clicks, 1);
}

#[test]
fn response_records_the_size_asked_and_senses_clicks() {
    let ctx = Context::default();
    show(&ctx, vec![], |ui| {
        ui.horizontal(|ui| {
            let padding = ui.spacing().button_padding;
            let interact = ui.spacing().interact_size;
            let galley =
                WidgetText::from("Home").into_galley(ui, None, 1000.0, TextStyle::Button);
            let asked = desired_size(padding, galley.size(), interact);
            for response in [
                TabWidget::new(false, "Home").ui(ui),
                ui.add(TabWidget::new(true, "Home")),
            ] {
                assert_eq!(response.intrinsic_size, Some(asked));
                assert!(response.sense.click);
                assert!(!response.changed());
            }
        });
    });
}

#[test]
fn tab_follows_the_style_of_its_context() {
    let ctx = Context::default();
    show(&ctx, vec![], |ui| {
        ui.horizontal(|ui| {
            ui.spacing_mut().button_padding = vec2(10.0, 3.0);
            ui.spacing_mut().interact_size = vec2(40.0, 50.0);
            let galley =
                WidgetText::from("Home").into_galley(ui, None, 1000.0, TextStyle::Button);
            let response = ui.add(TabWidget::new(false, "Home"));
            let asked = response.intrinsic_size.unwrap();
            assert_eq!(asked.x, 10.0 + 10.0 + galley.size().x);
            assert_eq!(asked.y, 50.0);
        });
    });
}

#[test]
fn tab_takes_its_desired_size() {
    let ctx = Context::default();
    show(&ctx, vec![], |ui| {
        ui.horizontal(|ui| {
            let padding = ui.spacing().button_padding;
            let interact = ui.spacing().interact_size;
            let galley =
                WidgetText::from("Home").into_galley(ui, None, 1000.0, TextStyle::Button);
            let response = TabWidget::new(false, "Home").ui(ui);
            assert_eq!(response.rect.width(), galley.size().x + 2.0 * padding.x);
            assert!(response.rect.height() >= interact.y);
            assert_eq!(response.rect.size(), desired_size(padding, galley.size(), interact));
        });
    });
}

#[test]
fn empty_label_takes_padding_and_interactive_height() {
    let ctx = Context::default();
    show(&ctx, vec![], |ui| {
        let padding = ui.spacing().button_padding;
        let interact = ui.spacing().interact_size;
        let galley = WidgetText::from("").into_galley(ui, None, 200.0, TextStyle::Button);
        let size = desired_size(padding, galley.size(), interact);
        assert_eq!(size.y, interact.y);
        assert_eq!(size.x, 2.0 * padding.x);
    });
}

#[test]
fn visible_tabs_paint_border_connectors_and_label() {
    let ctx = Context::default();
    let mut tab = Tabs::Home;
    let empty = show(&ctx, vec![], |_ui| {});
    let unselected = show(&ctx, vec![], |ui| {
        ui.add_tab(&mut tab, Tabs::TabOne, "TabOne");
    });
    let selected = show(&ctx, vec![], |ui| {
        ui.add_tab(&mut tab, Tabs::Home, "Home");
    });
    assert_eq!(count(&unselected, is_rect) - count(&empty, is_rect), 1);
    assert_eq!(count(&selected, is_rect) - count(&empty, is_rect), 2);
    for output in [&unselected, &selected] {
        assert_eq!(count(output, is_line) - count(&empty, is_line), 2);
        assert_eq!(count(output, is_text) - count(&empty, is_text), 1);
    }
}

fn kinds(output: &FullOutput, skip: usize) -> Vec<&'static str> {
    let mut names = Vec::new();
    for clipped in output.shapes.iter().skip(skip) {
        names.push(match &clipped.shape {
            Shape::Rect(rect) if rect.fill == egui::Color32::TRANSPARENT => "outline",
            Shape::Rect(_) => "fill",
            Shape::LineSegment { .. } => "line",
            Shape::Text(_) => "text",
            Shape::Noop => "nothing",
            _ => "other",
        });
    }
    names
}

#[test]
fn selected_tab_adds_its_shapes_in_order() {
    let ctx = Context::default();
    let mut tab = Tabs::Home;
    let empty = show(&ctx, vec![], |_ui| {});
    let selected = show(&ctx, vec![], |ui| {
        ui.add_tab(&mut tab, Tabs::Home, "Home");
    });
    let added = kinds(&selected, empty.shapes.len());
    assert_eq!(added, vec!["outline", "fill", "line", "line", "text"]);
}

#[test]
fn unselected_tab_adds_its_shapes_in_order() {
    let ctx = Context::default();
    let mut tab = Tabs::Home;
    let empty = show(&ctx, vec![], |_ui| {});
    let unselected = show(&ctx, vec![], |ui| {
        ui.add_tab(&mut tab, Tabs::TabTwo, "TabTwo");
    });
    let added = kinds(&unselected, empty.shapes.len());
    assert_eq!(added, vec!["outline", "line", "line", "text"]);
}

#[test]
fn painted_border_and_mask_are_as_planned() {
    let ctx = Context::default();
    let empty = show(&ctx, vec![], |_ui| {});
    let mut rect = Rect::NOTHING;
    let mut fill = egui::Color32::TRANSPARENT;
    let mut stroke = egui::Stroke::NONE;
    let mut rounding = egui::Rounding::ZERO;
    let shown = show(&ctx, vec![], |ui| {
        let response = ui.add(TabWidget::new(true, "Home"));
        let visuals = ui.style().interact_selectable(&response, true);
        rect = response.rect;
        fill = ui.style().visuals.window_fill();
        stroke = visuals.fg_stroke;
        rounding = visuals.rounding;
    });
    let added = &shown.shapes[empty.shapes.len()..];
    match (&added[0].shape, &added[1].shape) {
        (Shape::Rect(border), Shape::Rect(mask)) => {
            assert_eq!(border.rect, rect);
            assert_eq!(border.stroke, stroke);
            assert_eq!(border.fill, egui::Color32::TRANSPARENT);
            assert_eq!(border.rounding.nw, rounding.nw);
            assert_eq!(border.rounding.ne, rounding.ne);
            assert_eq!(border.rounding.sw, 0.0);
            assert_eq!(border.rounding.se, 0.0);
            assert_eq!(mask.fill, fill);
            assert_eq!(mask.stroke, egui::Stroke::NONE);
            assert_eq!(mask.rounding, egui::Rounding::ZERO);
            assert_eq!(mask.rect.min, pos2(rect.min.x, rect.max.y - stroke.width));
            assert_eq!(
                mask.rect.max,
                pos2(rect.max.x, rect.max.y + stroke.width + stroke.width)
            );
        }
        _ => panic!("the tab begins with its border and its mask"),
    }
}

#[test]
fn faded_tab_adds_as_many_shapes() {
    let ctx = Context::default();
    let mut tab = Tabs::Home;
    let empty = show(&ctx, vec![], |ui| {
        ui.disable();
    });
    let faded = show(&ctx, vec![], |ui| {
        ui.disable();
        ui.add_tab(&mut tab, Tabs::Home, "Home");
    });
    assert_eq!(faded.shapes.len(), empty.shapes.len() + 5);
}

#[test]
fn cap_leaves_the_room_as_it_was() {
    let ctx = Context::default();
    show(&ctx, vec![], |ui| {
        let room = ui.available_rect_before_wrap();
        let padding = ui.spacing().button_padding;
        ui.cap_tabs();
        assert_eq!(ui.available_rect_before_wrap(), room);
        assert_eq!(ui.spacing().button_padding, padding);
    });
}

#[test]
fn endless_padding_asks_the_layout_for_nothing() {
    for padding in [vec2(4.0, f32::INFINITY), vec2(f32::INFINITY, 1.0)] {
        let ctx = Context::default();
        let mut tab = Tabs::Home;
        show(&ctx, vec![], |ui| {
            ui.horizontal(|ui| {
                ui.spacing_mut().button_padding = padding;
                let response = ui.add_tab(&mut tab, Tabs::Home, "Home");
                assert_eq!(response.intrinsic_size, Some(egui::Vec2::ZERO));
                assert!(!response.rect.any_nan());
            });
        });
    }
}

#[test]
fn negative_padding_is_laid_out() {
    let ctx = Context::default();
    let mut tab = Tabs::Home;
    show(&ctx, vec![], |ui| {
        ui.horizontal(|ui| {
            ui.spacing_mut().button_padding = vec2(-500.0, 1.0);
            let response = ui.add_tab(&mut tab, Tabs::Home, "Home");
            assert_eq!(response.intrinsic_size.unwrap().x, 0.0);
            assert!(response.intrinsic_size.unwrap().y > 0.0);
        });
    });
}

#[test]
fn hovered_tab_has_a_thin_border_in_text_colour() {
    let ctx = Context::default();
    let mut tab = Tabs::Home;
    let empty = show(&ctx, vec![], |_ui| {});
    let at = show_row(&ctx, vec![], &mut tab)[1].rect.center();
    show_row(&ctx, vec![Event::PointerMoved(at)], &mut tab);
    let mut hovered = false;
    let mut rect = Rect::NOTHING;
    let mut text_color = egui::Color32::TRANSPARENT;
    let mut window_stroke = egui::Stroke::NONE;
    let shown = show(&ctx, vec![Event::PointerMoved(at)], |ui| {
        ui.horizontal(|ui| {
            ui.add_tab(&mut tab, Tabs::Home, "Home");
            let response = ui.add_tab(&mut tab, Tabs::TabOne, "TabOne");
            hovered = response.hovered();
            rect = response.rect;
            text_color = ui.style().visuals.text_color();
            window_stroke = ui.style().visuals.window_stroke();
        });
    });
    assert!(hovered);
    let mut borders = 0;
    let mut connectors = 0;
    for clipped in shown.shapes.iter().skip(empty.shapes.len()) {
        match &clipped.shape {
            Shape::Rect(border) if border.rect == rect => {
                assert_eq!(border.stroke, egui::Stroke::new(1.0, text_color));
                borders += 1;
            }
            Shape::LineSegment { points, stroke } if points[0].x >= rect.left() - 2.0 => {
                assert_eq!(stroke.width, window_stroke.width);
                connectors += 1;
            }
            _ => {}
        }
    }
    assert_eq!(borders, 1);
    assert_eq!(connectors, 2);
}

#[test]
fn label_shown_is_the_text_given() {
    let ctx = Context::default();
    let mut tab = Tabs::Home;
    let shown = show(&ctx, vec![], |ui| {
        ui.add_tab(&mut tab, Tabs::TabOne, String::from("Another label"));
    });
    let mut texts = Vec::new();
    for clipped in &shown.shapes {
        if let Shape::Text(text) = &clipped.shape {
            texts.push(text.galley.text().to_owned());
        }
    }
    assert_eq!(texts, vec![String::from("Another label")]);
}

#[test]
fn hidden_tab_is_laid_out_but_not_painted() {
    let ctx = Context::default();
    let mut tab = Tabs::Home;
    let empty = show(&ctx, vec![], |ui| {
        ui.set_invisible();
    });
    let mut seen = None;
    let hidden = show(&ctx, vec![], |ui| {
        ui.set_invisible();
        seen = Some(ui.add_tab(&mut tab, Tabs::Home, "Home"));
    });
    assert_eq!(hidden.shapes.len(), empty.shapes.len());
    assert_eq!(count(&hidden, is_painted), count(&empty, is_painted));
    let response = seen.unwrap();
    assert!(response.rect.width() > 0.0);
    assert!(response.rect.height() > 0.0);
    assert!(!response.clicked());
    assert!(!response.changed());
    assert_eq!(tab, Tabs::Home);
}

#[test]
fn tab_is_a_widget() {
    let ctx = Context::default();
    let empty = show(&ctx, vec![], |_ui| {});
    let mut size = vec2(0.0, 0.0);
    let shown = show(&ctx, vec![], |ui| {
        size = ui.add(TabWidget::new(true, "Home")).rect.size();
    });
    assert!(size.x > 0.0);
    assert_eq!(count(&shown, is_line) - count(&empty, is_line), 2);
}

#[test]
fn label_is_aligned_inside_the_padding() {
    let ctx = Context::default();
    let mut expected = pos2(0.0, 0.0);
    let shown = show(&ctx, vec![], |ui| {
        let padding = ui.spacing().button_padding;
        let galley = WidgetText::from("Home").into_galley(ui, None, 1000.0, TextStyle::Button);
        let response = TabWidget::new(false, "Home").ui(ui);
        expected = ui
            .layout()
            .align_size_within_rect(galley.size(), response.rect.shrink2(padding))
            .min;
    });
    let mut found = 0;
    for clipped in &shown.shapes {
        if let Shape::Text(text) = &clipped.shape {
            assert_eq!(text.pos, expected);
            assert_eq!(text.galley.text(), "Home");
            found += 1;
        }
    }
    assert_eq!(found, 1);
}

#[test]
fn cap_paints_one_line_under_the_room() {
    let ctx = Context::default();
    let empty = show(&ctx, vec![], |_ui| {});
    let mut expected = [pos2(0.0, 0.0), pos2(0.0, 0.0)];
    let mut width = 0.0;
    let capped = show(&ctx, vec![], |ui| {
        let stroke = ui.style().visuals.window_stroke();
        let rect = ui.available_rect_before_wrap().expand(stroke.width);
        let v = egui::Vec2::X * ui.spacing().button_padding.x / 1.25;
        expected = [rect.left_bottom() - v, rect.right_bottom() + v];
        width = stroke.width;
        ui.cap_tabs();
    });
    assert_eq!(count(&capped, is_line) - count(&empty, is_line), 1);
    for clipped in &capped.shapes {
        if let Shape::LineSegment { points, stroke } = &clipped.shape {
            assert_eq!(*points, expected);
            assert_eq!(stroke.width, width);
        }
    }
}
