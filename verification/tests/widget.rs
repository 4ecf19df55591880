use egui_float_scroller::formulas::{handle_limit, handle_top, pointer_place, scroll_target};
use egui_float_scroller::{
    Edges, FixedScrollbar, Gestures, Operation, Picture, Rectangle, Region, Scalar, ScrollRequest,
};
use std::cell::RefCell;

fn scalar(x: f32) -> Scalar {
    Scalar::from_bits(x.to_bits())
}

fn number(s: Scalar) -> f32 {
    f32::from_bits(s.to_bits())
}

/// The arithmetic of the machine.
fn arithmetic(operation: Operation, left: Scalar, right: Scalar) -> Scalar {
    let (left, right) = (number(left), number(right));
    scalar(match operation {
        Operation::Plus => left + right,
        Operation::Minus => left - right,
        Operation::Times => left * right,
        Operation::Over => left / right,
    })
}

fn rectangle(left: f32, top: f32, width: f32, height: f32) -> Rectangle {
    Rectangle { left: scalar(left), top: scalar(top), width: scalar(width), height: scalar(height) }
}

fn region(left: f32, top: f32, height: f32) -> Region {
    Region { left: scalar(left), top: scalar(top), height: scalar(height) }
}

/// Gestures of a frame in which the host saw none.
fn quiet() -> Gestures {
    Gestures { dragged: false, pointer: None, smooth_delta: scalar(0.0), raw_delta: scalar(0.0) }
}

#[test]
fn pointer_place_is_distance_over_length() {
    let place = pointer_place(&arithmetic, scalar(90.0), scalar(40.0), scalar(200.0));
    assert_eq!(number(place), 0.25);
    let place = pointer_place(&arithmetic, scalar(10.0), scalar(40.0), scalar(200.0));
    assert_eq!(number(place), -0.15);
    let place = pointer_place(&arithmetic, scalar(7.0), scalar(3.0), scalar(3.0));
    assert_eq!(number(place), (7.0f32 - 3.0) / 3.0);
}

#[test]
fn scroll_target_is_position_less_the_scaled_delta() {
    let request =
        ScrollRequest { position: scalar(0.5), delta: scalar(8.0), sensitivity: scalar(0.5) };
    assert_eq!(number(scroll_target(&arithmetic, request, scalar(64.0))), 0.4375);
    let request =
        ScrollRequest { position: scalar(0.5), delta: scalar(10.0), sensitivity: scalar(0.1) };
    assert_eq!(scroll_target(&arithmetic, request, scalar(100.0)).to_bits(), 0x3efa_e148);
    let request =
        ScrollRequest { position: scalar(0.3), delta: scalar(-7.0), sensitivity: scalar(0.3) };
    assert_eq!(
        number(scroll_target(&arithmetic, request, scalar(33.0))),
        0.3f32 - (-7.0f32 * 0.3 / 33.0)
    );
}

#[test]
fn handle_limit_is_a_fifth() {
    assert_eq!(number(handle_limit(&arithmetic, scalar(100.0))), 20.0);
    assert_eq!(number(handle_limit(&arithmetic, scalar(250.0))), 50.0);
    assert_eq!(number(handle_limit(&arithmetic, scalar(33.0))), 33.0f32 * 0.2);
    assert_eq!(number(handle_limit(&arithmetic, scalar(0.0))), 0.0);
}

#[test]
fn handle_top_runs_from_the_top_to_the_bottom() {
    let at = |position: f32| {
        number(handle_top(&arithmetic, scalar(40.0), scalar(200.0), scalar(50.0), scalar(position)))
    };
    assert_eq!(at(0.0), 40.0);
    assert_eq!(at(1.0), 190.0);
    assert_eq!(at(1.0) + 50.0, 40.0 + 200.0);
    assert_eq!(at(0.5), 115.0);
    assert_eq!(at(0.3), 40.0f32 + (200.0f32 - 50.0) * 0.3);
}

#[test]
fn formulas_call_the_arithmetic_in_order() {
    let calls = RefCell::new(Vec::new());
    let recording = |operation: Operation, left: Scalar, right: Scalar| {
        calls.borrow_mut().push((operation, number(left), number(right)));
        arithmetic(operation, left, right)
    };
    pointer_place(&recording, scalar(90.0), scalar(40.0), scalar(200.0));
    assert_eq!(
        *calls.borrow(),
        vec![(Operation::Minus, 90.0, 40.0), (Operation::Over, 50.0, 200.0)]
    );
    calls.borrow_mut().clear();
    let request =
        ScrollRequest { position: scalar(0.5), delta: scalar(8.0), sensitivity: scalar(0.5) };
    scroll_target(&recording, request, scalar(64.0));
    assert_eq!(
        *calls.borrow(),
        vec![
            (Operation::Times, 8.0, 0.5),
            (Operation::Over, 4.0, 64.0),
            (Operation::Minus, 0.5, 0.0625)
        ]
    );
    calls.borrow_mut().clear();
    handle_limit(&recording, scalar(100.0));
    assert_eq!(*calls.borrow(), vec![(Operation::Times, 100.0, 0.2)]);
    calls.borrow_mut().clear();
    handle_top(&recording, scalar(40.0), scalar(200.0), scalar(50.0), scalar(0.5));
    assert_eq!(
        *calls.borrow(),
        vec![
            (Operation::Minus, 200.0, 50.0),
            (Operation::Times, 150.0, 0.5),
            (Operation::Plus, 40.0, 75.0)
        ]
    );
}

#[test]
fn ui_paints_a_quiet_frame() {
    let mut bar = FixedScrollbar::new(scalar(0.5), scalar(20.0));
    let picture = bar.ui(scalar(300.0), region(10.0, 40.0, 300.0), quiet(), &arithmetic);
    assert_eq!(number(bar.value()), 0.5);
    assert_eq!(
        picture,
        Picture {
            track: rectangle(10.0, 40.0, 20.0, 300.0),
            handle: rectangle(10.0, 40.0 + (300.0 - 50.0) * 0.5, 20.0, 50.0),
        }
    );
    assert_eq!(number(picture.handle.top), 165.0);
}

#[test]
fn ui_clamps_the_handle_to_a_fifth() {
    let mut bar = FixedScrollbar::new(scalar(1.0), scalar(20.0)).handle_height(scalar(1000.0));
    let picture = bar.ui(scalar(100.0), region(0.0, 0.0, 100.0), quiet(), &arithmetic);
    assert_eq!(number(picture.handle.height), 20.0);
    assert_eq!(number(picture.handle.top), 80.0);
    assert_eq!(number(picture.handle.width), 20.0);
    assert_eq!(number(picture.track.height), 100.0);
}

#[test]
fn ui_drags_to_the_pointer() {
    let mut bar = FixedScrollbar::new(scalar(0.0), scalar(20.0));
    let gestures = Gestures { dragged: true, pointer: Some(scalar(90.0)), ..quiet() };
    let picture = bar.ui(scalar(200.0), region(5.0, 40.0, 200.0), gestures, &arithmetic);
    assert_eq!(number(bar.value()), 0.25);
    assert_eq!(number(picture.handle.height), 40.0);
    assert_eq!(number(picture.handle.top), 80.0);
    assert_eq!(number(picture.handle.left), 5.0);

    let gestures = Gestures { dragged: true, pointer: Some(scalar(1000.0)), ..quiet() };
    bar.ui(scalar(200.0), region(5.0, 40.0, 200.0), gestures, &arithmetic);
    assert_eq!(number(bar.value()), 1.0);
    let gestures = Gestures { dragged: true, pointer: Some(scalar(-1000.0)), ..quiet() };
    bar.ui(scalar(200.0), region(5.0, 40.0, 200.0), gestures, &arithmetic);
    assert_eq!(number(bar.value()), 0.0);
}

#[test]
fn ui_ignores_a_pointer_that_does_not_drag() {
    let mut bar = FixedScrollbar::new(scalar(0.5), scalar(20.0));
    let gestures = Gestures { dragged: false, pointer: Some(scalar(90.0)), ..quiet() };
    bar.ui(scalar(200.0), region(5.0, 40.0, 200.0), gestures, &arithmetic);
    assert_eq!(number(bar.value()), 0.5);
    let gestures = Gestures { dragged: true, pointer: None, ..quiet() };
    bar.ui(scalar(200.0), region(5.0, 40.0, 200.0), gestures, &arithmetic);
    assert_eq!(number(bar.value()), 0.5);
}

#[test]
fn ui_scrolls_over_the_available_height() {
    let mut bar = FixedScrollbar::new(scalar(0.5), scalar(20.0)).scroll_sensitivity(scalar(0.5));
    let gestures = Gestures { smooth_delta: scalar(8.0), ..quiet() };
    // The region is shorter than what was available: the scroll step goes by
    // what was available.
    let picture = bar.ui(scalar(64.0), region(0.0, 0.0, 32.0), gestures, &arithmetic);
    assert_eq!(number(bar.value()), 0.4375);
    assert_eq!(number(picture.handle.height), 64.0f32 * 0.2);
    assert_eq!(number(picture.handle.top), (32.0f32 - 64.0 * 0.2) * 0.4375);
}

#[test]
fn ui_scrolls_after_it_drags() {
    let mut bar = FixedScrollbar::new(scalar(0.0), scalar(20.0)).scroll_sensitivity(scalar(1.0));
    let gestures = Gestures {
        dragged: true,
        pointer: Some(scalar(48.0)),
        smooth_delta: scalar(16.0),
        raw_delta: scalar(0.0),
    };
    bar.ui(scalar(64.0), region(0.0, 0.0, 64.0), gestures, &arithmetic);
    // The drag puts the position at 0.75, the scroll takes 0.25 from that.
    assert_eq!(number(bar.value()), 0.5);
}

#[test]
fn ui_reads_the_delta_that_smoothing_selects() {
    let gestures = Gestures { smooth_delta: scalar(0.0), raw_delta: scalar(32.0), ..quiet() };
    let mut smooth = FixedScrollbar::new(scalar(0.5), scalar(20.0)).scroll_sensitivity(scalar(1.0));
    smooth.ui(scalar(64.0), region(0.0, 0.0, 64.0), gestures, &arithmetic);
    assert_eq!(number(smooth.value()), 0.5);
    let mut raw = FixedScrollbar::new(scalar(0.5), scalar(20.0))
        .scroll_sensitivity(scalar(1.0))
        .scroll_smoothing(false);
    raw.ui(scalar(64.0), region(0.0, 0.0, 64.0), gestures, &arithmetic);
    assert_eq!(number(raw.value()), 0.0);
}

#[test]
fn ui_calls_the_arithmetic_only_where_needed() {
    let calls = RefCell::new(Vec::new());
    let recording = |operation: Operation, left: Scalar, right: Scalar| {
        calls.borrow_mut().push(operation);
        arithmetic(operation, left, right)
    };
    let mut bar = FixedScrollbar::new(scalar(0.5), scalar(20.0));
    bar.ui(scalar(100.0), region(0.0, 0.0, 100.0), quiet(), &recording);
    assert_eq!(
        *calls.borrow(),
        vec![Operation::Times, Operation::Minus, Operation::Times, Operation::Plus]
    );
    calls.borrow_mut().clear();
    let gestures = Gestures {
        dragged: true,
        pointer: Some(scalar(48.0)),
        smooth_delta: scalar(16.0),
        raw_delta: scalar(0.0),
    };
    bar.ui(scalar(100.0), region(0.0, 0.0, 100.0), gestures, &recording);
    assert_eq!(
        *calls.borrow(),
        vec![
            Operation::Minus,
            Operation::Over,
            Operation::Times,
            Operation::Over,
            Operation::Minus,
            Operation::Times,
            Operation::Minus,
            Operation::Times,
            Operation::Plus
        ]
    );
}

#[test]
fn ui_leaves_the_position_over_quiet_frames() {
    for start in [0.0f32, 0.3, 0.49, 1.0] {
        let mut position = start;
        for _ in 0..500 {
            let mut bar = FixedScrollbar::new(scalar(position), scalar(20.0));
            bar.ui(scalar(480.0), region(0.0, 0.0, 480.0), quiet(), &arithmetic);
            position = number(bar.value());
        }
        assert_eq!(position.to_bits(), start.to_bits());
    }
}

#[test]
fn ui_in_a_region_without_height() {
    let mut bar = FixedScrollbar::new(scalar(0.5), scalar(20.0));
    let picture = bar.ui(scalar(0.0), region(0.0, 0.0, 0.0), quiet(), &arithmetic);
    assert_eq!(number(bar.value()), 0.5);
    assert_eq!(number(picture.handle.height), 0.0);
    assert_eq!(number(picture.handle.top), 0.0);
    let gestures = Gestures { dragged: true, pointer: Some(scalar(0.0)), ..quiet() };
    bar.ui(scalar(0.0), region(0.0, 0.0, 0.0), gestures, &arithmetic);
    assert!(number(bar.value()).is_nan());
}

#[test]
fn dock_stands_to_the_right_of_the_area() {
    let bar = FixedScrollbar::new(scalar(0.5), scalar(20.0));
    let area = Edges {
        left: scalar(100.0),
        top: scalar(300.0),
        right: scalar(300.0),
        bottom: scalar(320.0),
    };
    assert_eq!(bar.dock(area, &arithmetic), rectangle(300.0, 300.0, 20.0, 20.0));
    let area = Edges { left: scalar(0.0), top: scalar(-5.0), right: scalar(8.0), bottom: scalar(45.5) };
    assert_eq!(bar.dock(area, &arithmetic), rectangle(8.0, -5.0, 20.0, 50.5));
}
