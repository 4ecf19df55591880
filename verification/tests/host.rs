use eframe::egui::{self, Context, LayerId, Response, Sense, Ui, UiBuilder};
use egui_float_scroller::{
    Edges, FixedScrollbar, Gestures, Operation, Rectangle, Region, Scalar,
};

fn scalar(x: f32) -> Scalar {
    Scalar::from_bits(x.to_bits())
}

fn number(s: Scalar) -> f32 {
    f32::from_bits(s.to_bits())
}

fn arithmetic(operation: Operation, left: Scalar, right: Scalar) -> Scalar {
    let (left, right) = (number(left), number(right));
    scalar(match operation {
        Operation::Plus => left + right,
        Operation::Minus => left - right,
        Operation::Times => left * right,
        Operation::Over => left / right,
    })
}

fn rect(rectangle: Rectangle) -> egui::Rect {
    egui::Rect::from_min_size(
        egui::pos2(number(rectangle.left), number(rectangle.top)),
        egui::vec2(number(rectangle.width), number(rectangle.height)),
    )
}

/// Adds the scrollbar to the layout: allocates its region, reads the
/// gestures, runs the frame and paints the picture.
fn add(ui: &mut Ui, scrollbar: &mut FixedScrollbar) -> Response {
    let available_height = ui.available_height();
    let (region, response) = ui.allocate_exact_size(
        egui::vec2(number(scrollbar.width()), available_height),
        Sense::click_and_drag(),
    );
    let (smooth_delta, raw_delta) = ui.input(|i| (i.smooth_scroll_delta.y, i.raw_scroll_delta.y));
    let gestures = Gestures {
        dragged: response.dragged(),
        pointer: response.interact_pointer_pos().map(|pointer| scalar(pointer.y)),
        smooth_delta: scalar(smooth_delta),
        raw_delta: scalar(raw_delta),
    };
    let region = Region {
        left: scalar(region.min.x),
        top: scalar(region.min.y),
        height: scalar(region.height()),
    };
    let picture = scrollbar.ui(scalar(available_height), region, gestures, &arithmetic);
    ui.painter().rect_filled(rect(picture.track), 0.0, ui.style().visuals.extreme_bg_color);
    ui.painter().rect_filled(
        rect(picture.handle),
        0.0,
        ui.style().visuals.widgets.active.bg_fill,
    );
    response
}

/// Helper function to create a test context with proper initialization
fn test_context() -> Context {
    let ctx = Context::default();
    // Initialize the context with a frame
    ctx.begin_pass(egui::RawInput::default());
    ctx
}

/// Helper function to create a test UI
fn test_ui(ctx: &Context) -> Ui {
    let mut ui = Ui::new(
        ctx.clone(),
        LayerId::new(egui::Order::Foreground, "test".into()),
        egui::Id::new("test"),
        UiBuilder::default(),
    );
    ui.set_style(egui::Style::default());
    ui
}

#[test]
fn test_scrollbar_clamping() {
    let ctx = test_context();
    let mut ui = test_ui(&ctx);

    let value = 2.0; // Start with an out-of-bounds value
    let mut scrollbar = FixedScrollbar::new(scalar(value), scalar(20.0));
    add(&mut ui, &mut scrollbar);
    let value = number(scrollbar.value());

    // Value should be clamped to 1.0
    assert!(value <= 1.0);

    let value = -1.0;
    let mut scrollbar = FixedScrollbar::new(scalar(value), scalar(20.0));
    add(&mut ui, &mut scrollbar);
    let value = number(scrollbar.value());

    // Value should be clamped to 0.0
    assert!(value >= 0.0);
}

#[test]
fn test_side_panel_creation() {
    let ctx = test_context();

    let value = 0.5;
    let mut scrollbar = FixedScrollbar::new(scalar(value), scalar(20.0));

    // This should not panic
    egui::SidePanel::right("test_panel")
        .resizable(false)
        .max_width(number(scrollbar.width()))
        .frame(egui::Frame::none())
        .show(&ctx, |ui| {
            add(ui, &mut scrollbar);
        });
    assert_eq!(number(scrollbar.value()), 0.5);
}

#[test]
fn test_floating_creation() {
    let ctx = test_context();
    let ui = test_ui(&ctx);

    let value = 0.5;
    let mut scrollbar = FixedScrollbar::new(scalar(value), scalar(20.0));

    // This should not panic
    egui::Area::new("floating_scrollbar".into())
        .movable(false)
        .fixed_pos(egui::pos2(100.0, 100.0))
        .show(ui.ctx(), |ui| {
            add(ui, &mut scrollbar);
        });
    assert_eq!(number(scrollbar.value()), 0.5);
}

#[test]
fn test_docked_creation() {
    let ctx = test_context();
    let ui = test_ui(&ctx);

    let value = 0.5;
    let mut scrollbar = FixedScrollbar::new(scalar(value), scalar(20.0));

    let area = ui.available_rect_before_wrap();
    // This should not panic
    let place = scrollbar.dock(
        Edges {
            left: scalar(area.min.x),
            top: scalar(area.min.y),
            right: scalar(area.max.x),
            bottom: scalar(area.max.y),
        },
        &arithmetic,
    );
    egui::Area::new("docked_scrollbar".into())
        .movable(false)
        .fixed_pos(rect(place).min)
        .show(ui.ctx(), |ui| {
            add(ui, &mut scrollbar);
        });
    assert_eq!(number(place.left), area.max.x);
    assert_eq!(number(place.top), area.min.y);
    assert_eq!(number(place.width), 20.0);
    assert_eq!(number(place.height), area.height());
    assert_eq!(number(scrollbar.value()), 0.5);
}

#[test]
fn a_host_frame_paints_track_and_handle() {
    let ctx = test_context();
    let mut ui = test_ui(&ctx);
    let mut scrollbar = FixedScrollbar::new(scalar(0.25), scalar(20.0));
    let response = add(&mut ui, &mut scrollbar);
    assert_eq!(response.rect.width(), 20.0);
    assert!(!response.dragged());
    assert_eq!(number(scrollbar.value()), 0.25);
}
