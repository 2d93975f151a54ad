use ui_layout::animation::UIHoverAnimation;
use ui_layout::geometry::{UIFrameInput, UILayout, UIPoint};
use ui_layout::label::label_text;
use ui_layout::slider::{
    UIBlockStyle, UIColor, UILabelStyle, UISlider, UISliderContext, UISliderEvent, POS_SCALE,
};

const P: i128 = POS_SCALE as i128;

fn context() -> UISliderContext {
    UISliderContext::new(UIBlockStyle::slider_track(), UIBlockStyle::slider_dot(), UILabelStyle::slider_value())
}

fn frame(left: i64, top: i64, pressed: bool) -> UIFrameInput {
    UIFrameInput { mouse_pos: UIPoint { left, top }, left_mouse_button_pressed: pressed }
}

fn track() -> UILayout {
    UILayout { left: 0, top: 0, width: 100, height: 20 }
}

#[test]
fn context_keeps_styles() {
    let c = context();
    assert_eq!(c.track_style.radius, 4);
    assert_eq!(c.dot_style.radius, 8);
    assert_eq!(c.label_style.size, 15);
}

#[test]
fn new_slider_is_idle() {
    let s = UISlider::new(&context(), 0, 100, 1, 50, 0, 7);
    assert_eq!(s.value, 50);
    assert_eq!(s.drag_value, None);
    assert_eq!(s.label_value, 50);
    assert!(!s.pressed);
    assert_eq!(s.hover, UIHoverAnimation { active: false, from: 0, to: 0, start: 7 });
}

#[test]
fn value_position_round_trip_half_steps() {
    // values in tenths: range 0..10, step 0.5, value 3.5
    let s = UISlider::new(&context(), 0, 100, 5, 35, 1, 0);
    let layout = UILayout { left: 0, top: 0, width: 200, height: 20 };
    let pos = s.value_to_pos(35, layout);
    assert_eq!(pos, 70 * P);
    assert_eq!(s.value_from_pos(layout.left as i128 * P + pos, layout), 35);
}

#[test]
fn value_position_round_trip_every_grid_value() {
    let s = UISlider::new(&context(), -20, 40, 4, 0, 0, 0);
    let layout = UILayout { left: 13, top: 0, width: 30, height: 20 };
    let mut v = -20;
    while v <= 40 {
        let pos = s.value_to_pos(v, layout);
        assert_eq!(s.value_from_pos(layout.left as i128 * P + pos, layout), v);
        v += 4;
    }
}

#[test]
fn value_from_pos_clamps_and_rounds() {
    let s = UISlider::new(&context(), 0, 100, 10, 0, 0, 0);
    let layout = UILayout { left: 10, top: 0, width: 100, height: 20 };
    assert_eq!(s.value_from_pos(-500 * P, layout), 0);
    assert_eq!(s.value_from_pos(5000 * P, layout), 100);
    assert_eq!(s.value_from_pos((10 + 44) * P, layout), 40);
    assert_eq!(s.value_from_pos((10 + 45) * P, layout), 50);
    assert_eq!(s.value_from_pos(i128::MIN, layout), 0);
    assert_eq!(s.value_from_pos(i128::MAX, layout), 100);
    let flat = UILayout { left: 10, top: 0, width: 0, height: 20 };
    assert_eq!(s.value_from_pos(60 * P, flat), 0);
}

#[test]
fn value_to_pos_snaps_to_step() {
    let s = UISlider::new(&context(), 0, 100, 10, 0, 0, 0);
    assert_eq!(s.value_to_pos(44, track()), 40 * P);
    assert_eq!(s.value_to_pos(45, track()), 50 * P);
}

#[test]
fn drag_sequence_reports_change_then_finish() {
    let mut s = UISlider::new(&context(), 0, 100, 1, 50, 0, 0);
    let mut events = vec![];
    s.update_input(track(), frame(73, 10, true), 10, &mut events);
    assert_eq!(events, vec![UISliderEvent::ValueChanged(73)]);
    assert_eq!(s.drag_value, Some(73));
    assert_eq!(s.value, 50);
    assert_eq!(s.label_value, 73);
    s.update_input(track(), frame(73, 10, true), 20, &mut events);
    assert_eq!(events, vec![UISliderEvent::ValueChanged(73)]);
    s.update_input(track(), frame(73, 10, false), 30, &mut events);
    assert_eq!(events, vec![UISliderEvent::ValueChanged(73), UISliderEvent::ValueFinished(73)]);
    assert_eq!(s.drag_value, None);
    assert_eq!(s.value, 73);
}

#[test]
fn drag_follows_pointer_beyond_track() {
    let mut s = UISlider::new(&context(), 0, 100, 1, 50, 0, 0);
    let mut events = vec![];
    s.update_input(track(), frame(50, 10, true), 0, &mut events);
    assert!(events.is_empty());
    assert_eq!(s.drag_value, Some(50));
    s.update_input(track(), frame(400, 90, true), 5, &mut events);
    assert_eq!(events, vec![UISliderEvent::ValueChanged(100)]);
}

#[test]
fn press_away_from_track_starts_no_drag() {
    let mut s = UISlider::new(&context(), 0, 100, 1, 50, 0, 0);
    let mut events = vec![];
    s.update_input(track(), frame(73, 100, true), 0, &mut events);
    assert!(events.is_empty());
    assert_eq!(s.drag_value, None);
    assert!(s.pressed);
    s.update_input(track(), frame(73, 10, true), 5, &mut events);
    assert!(events.is_empty());
    assert_eq!(s.drag_value, None);
}

#[test]
fn repeated_input_reports_nothing_new() {
    let inputs = [frame(73, 10, true), frame(73, 10, false), frame(20, 10, true), frame(5, 300, false)];
    for input in inputs {
        let mut s = UISlider::new(&context(), 0, 100, 1, 50, 0, 0);
        let mut events = vec![];
        s.update_input(track(), input, 0, &mut events);
        let after_first = events.len();
        s.update_input(track(), input, 40, &mut events);
        assert_eq!(events.len(), after_first);
    }
}

#[test]
fn hovering_indicator_starts_both_animations() {
    let mut s = UISlider::new(&context(), 0, 100, 1, 50, 0, 0);
    let mut events = vec![];
    s.update_input(track(), frame(50, 10, false), 100, &mut events);
    assert_eq!(s.hover, UIHoverAnimation { active: true, from: 0, to: 1000, start: 100 });
    assert_eq!(s.slider_hover, UIHoverAnimation { active: true, from: 0, to: 1000, start: 100 });
    s.update_input(track(), frame(50, 10, false), 150, &mut events);
    assert_eq!(s.hover.start, 100);
    s.update_input(track(), frame(50, 200, false), 162, &mut events);
    assert_eq!(s.hover, UIHoverAnimation { active: false, from: 746, to: 0, start: 162 });
    assert!(events.is_empty());
}

#[test]
fn render_at_rest() {
    let s = UISlider::new(&context(), 0, 100, 1, 50, 0, 0);
    let plan = s.render(track(), 0);
    assert_eq!(plan.dot_layout, UILayout { left: 42, top: 2, width: 16, height: 16 });
    assert_eq!(plan.track_layout, UILayout { left: 0, top: 6, width: 100, height: 8 });
    assert_eq!((plan.track_style.left_offset, plan.track_style.right_offset), (48, 52));
    assert_eq!(plan.dot_style.radius, 8);
    assert_eq!(plan.dot_style.shade_color, UIColor { red: 0, green: 0, blue: 0 });
    assert_eq!(plan.dot_style.right_color, UIColor { red: 600, green: 100, blue: 900 });
    assert_eq!(plan.label_layout, UILayout { left: 42, top: -18, width: 16, height: 16 });
    assert_eq!(plan.label_style.opacity, 0);
    assert_eq!(plan.label_value, 50);
}

#[test]
fn render_while_dragging_and_hovered() {
    let mut s = UISlider::new(&context(), 0, 100, 1, 50, 0, 0);
    let mut events = vec![];
    s.update_input(track(), frame(50, 10, true), 0, &mut events);
    let plan = s.render(track(), 1000);
    assert_eq!(plan.dot_style.shade_color, UIColor { red: 1000, green: 1000, blue: 1000 });
    assert_eq!(plan.dot_style.radius, 10);
    assert_eq!(plan.dot_layout.width, 20);
    assert_eq!(plan.dot_layout.left, 39);
    assert_eq!(plan.label_style.opacity, 1000);
}

#[test]
fn value_position_round_trip_on_narrow_track() {
    let s = UISlider::new(&context(), 0, 1000, 1, 0, 0, 0);
    let layout = UILayout { left: 3, top: 0, width: 10, height: 20 };
    for v in [0, 1, 7, 499, 500, 999, 1000] {
        let pos = s.value_to_pos(v, layout);
        assert_eq!(s.value_from_pos(layout.left as i128 * P + pos, layout), v);
    }
}

#[test]
fn initial_value_outside_range_is_kept() {
    let s = UISlider::new(&context(), 0, 100, 1, 150, 0, 0);
    assert_eq!(s.value, 150);
    let plan = s.render(track(), 0);
    assert_eq!(plan.dot_layout.left, 150 - 8);
    assert_eq!(plan.label_value, 150);
}

#[test]
fn label_text_writes_decimals() {
    let text = |v: i64, p: usize| -> String { label_text(v, p).into_iter().collect() };
    assert_eq!(text(35, 1), "3.5");
    assert_eq!(text(73, 0), "73");
    assert_eq!(text(0, 0), "0");
    assert_eq!(text(-5, 2), "-0.05");
    assert_eq!(text(1200, 2), "12.00");
    assert_eq!(text(i64::MIN, 0), "-9223372036854775808");
}
