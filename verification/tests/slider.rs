use core_widgets::core_slider::{CoreSlider, Fraction};
use core_widgets::entity::CallbackId;
use core_widgets::events::{Action, Delta, Key, KeyInput, UiEvent, ValueChange};
use core_widgets::world::{UiWorld, Widget};

fn slider(value: i64, min: i64, max: i64, increment: i64, thumb_size: i64) -> CoreSlider {
    CoreSlider { value, min, max, increment, thumb_size, on_change: None }
}

#[test]
fn set_value_clamps_to_range() {
    let mut s = CoreSlider::default();
    s.set_value(150);
    assert_eq!(s.value(), 100);
    s.set_value(-5);
    assert_eq!(s.value(), 0);
    s.set_value(42);
    assert_eq!(s.value(), 42);
}

#[test]
fn set_range_reclamps_current_value() {
    let mut s = CoreSlider::default();
    s.set_value(50);
    s.set_range(0, 10);
    // Clamped to the new range only; a range like [0, 10] must not collapse
    // the value to 1.
    assert_eq!(s.value(), 10);
    assert_eq!(s.min, 0);
    assert_eq!(s.max, 10);
}

#[test]
fn default_slider_sits_at_midpoint() {
    let s = CoreSlider::default();
    assert_eq!(s.min, 0);
    assert_eq!(s.max, 100);
    assert_eq!(s.value(), 50);
    assert_eq!(s.increment, 1);
    assert!(s.on_change.is_none());
}

#[test]
fn thumb_position_is_half_for_midpoint() {
    let s = slider(5, 0, 10, 1, 0);
    let f = s.thumb_position();
    assert_eq!(f, Fraction { num: 5, den: 10 });
    // 5/10 equals one half exactly.
    assert_eq!(2 * f.num, f.den);
}

#[test]
fn thumb_position_is_half_for_degenerate_range() {
    let s = slider(7, 7, 7, 1, 0);
    assert_eq!(s.thumb_position(), Fraction { num: 1, den: 2 });
    let s2 = slider(-3, -3, -3, 1, 0);
    assert_eq!(s2.thumb_position(), Fraction { num: 1, den: 2 });
}

#[test]
fn drag_maps_displacement_into_value_space() {
    let mut w = UiWorld::new();
    let s = w.spawn(None, Widget::Slider(slider(40, 0, 100, 1, 0)));
    w.set_geometry(
        s,
        core_widgets::world::NodeGeom { size_x: 100, size_y: 10, content_x: 0, content_y: 0 },
    );
    let a1 = core_widgets::propagation::handle_event(&mut w, s, UiEvent::DragStart);
    assert!(a1.is_empty());
    assert!(w.slider_drag(s).unwrap().dragging);
    let a2 = core_widgets::propagation::handle_event(
        &mut w,
        s,
        UiEvent::DragMove(Delta { x: 30, y: 0 }),
    );
    // 40 + 30 * 100 / 100 = 70.
    assert_eq!(a2, vec![Action::EmitValueChange { target: s, change: ValueChange(70) }]);
    // The slider's own value is not updated by the drag.
    assert_eq!(w.slider(s).unwrap().value, 40);
    // The receiver stores it back, clamped.
    w.set_slider_value(s, 70);
    assert_eq!(w.slider(s).unwrap().value, 70);
    let a3 = core_widgets::propagation::handle_event(&mut w, s, UiEvent::DragEnd);
    assert!(a3.is_empty());
    assert!(!w.slider_drag(s).unwrap().dragging);
}

#[test]
fn drag_value_is_emitted_unclamped() {
    let mut w = UiWorld::new();
    let s = w.spawn(None, Widget::Slider(slider(40, 0, 100, 1, 0)));
    w.set_geometry(
        s,
        core_widgets::world::NodeGeom { size_x: 100, size_y: 10, content_x: 0, content_y: 0 },
    );
    core_widgets::propagation::handle_event(&mut w, s, UiEvent::DragStart);
    let a = core_widgets::propagation::handle_event(
        &mut w,
        s,
        UiEvent::DragMove(Delta { x: 100, y: 0 }),
    );
    // 40 + 100 * 100 / 100 = 140, beyond max; the receiver clamps, not the slider.
    assert_eq!(a, vec![Action::EmitValueChange { target: s, change: ValueChange(140) }]);
}

#[test]
fn drag_uses_thumb_size_reduced_track() {
    let mut w = UiWorld::new();
    let s = w.spawn(None, Widget::Slider(slider(0, 0, 100, 1, 20)));
    w.set_geometry(
        s,
        core_widgets::world::NodeGeom { size_x: 100, size_y: 10, content_x: 0, content_y: 0 },
    );
    core_widgets::propagation::handle_event(&mut w, s, UiEvent::DragStart);
    let a = core_widgets::propagation::handle_event(
        &mut w,
        s,
        UiEvent::DragMove(Delta { x: 40, y: 0 }),
    );
    // Usable track is 100 - 20 = 80: 0 + 40 * 100 / 80 = 50.
    assert_eq!(a, vec![Action::EmitValueChange { target: s, change: ValueChange(50) }]);
}

#[test]
fn keyboard_steps_clamp_at_the_edges() {
    let mut w = UiWorld::new();
    let s = w.spawn(None, Widget::Slider(slider(95, 0, 100, 10, 0)));
    let right = KeyInput { key: Key::ArrowRight, pressed: true, repeat: false };
    let a = core_widgets::propagation::handle_event(&mut w, s, UiEvent::Key(right));
    assert_eq!(a, vec![Action::EmitValueChange { target: s, change: ValueChange(100) }]);
    let home = KeyInput { key: Key::Home, pressed: true, repeat: false };
    let a2 = core_widgets::propagation::handle_event(&mut w, s, UiEvent::Key(home));
    assert_eq!(a2, vec![Action::EmitValueChange { target: s, change: ValueChange(0) }]);
    let end = KeyInput { key: Key::End, pressed: true, repeat: false };
    let a3 = core_widgets::propagation::handle_event(&mut w, s, UiEvent::Key(end));
    assert_eq!(a3, vec![Action::EmitValueChange { target: s, change: ValueChange(100) }]);
}

#[test]
fn keyboard_step_runs_configured_callback() {
    let mut w = UiWorld::new();
    let mut cfg = slider(50, 0, 100, 5, 0);
    cfg.on_change = Some(CallbackId(9));
    let s = w.spawn(None, Widget::Slider(cfg));
    let left = KeyInput { key: Key::ArrowLeft, pressed: true, repeat: false };
    let a = core_widgets::propagation::handle_event(&mut w, s, UiEvent::Key(left));
    assert_eq!(a, vec![Action::RunCallbackValue { id: CallbackId(9), value: 45 }]);
}

#[test]
fn pointer_down_focuses_without_ring() {
    let mut w = UiWorld::new();
    let s = w.spawn(None, Widget::Slider(CoreSlider::default()));
    let a = core_widgets::propagation::handle_event(&mut w, s, UiEvent::PointerPressed);
    assert!(a.is_empty());
    assert_eq!(w.focus(), Some(s));
    assert!(!w.focus_visible());
}

#[test]
fn disabled_slider_emits_nothing() {
    let mut w = UiWorld::new();
    let s = w.spawn(None, Widget::Slider(CoreSlider::default()));
    w.set_geometry(
        s,
        core_widgets::world::NodeGeom { size_x: 100, size_y: 10, content_x: 0, content_y: 0 },
    );
    w.insert_disabled(s);
    let right = KeyInput { key: Key::ArrowRight, pressed: true, repeat: false };
    assert!(core_widgets::propagation::handle_event(&mut w, s, UiEvent::Key(right)).is_empty());
    // A drag never begins on a disabled slider, so moves emit nothing.
    core_widgets::propagation::handle_event(&mut w, s, UiEvent::DragStart);
    assert!(!w.slider_drag(s).unwrap().dragging);
    let a = core_widgets::propagation::handle_event(
        &mut w,
        s,
        UiEvent::DragMove(Delta { x: 30, y: 0 }),
    );
    assert!(a.is_empty());
}

#[test]
fn slider_a11y_mirrors_numeric_state() {
    let mut w = UiWorld::new();
    let s = w.spawn(None, Widget::Slider(slider(25, 0, 50, 5, 0)));
    w.update_slider_a11y(s);
    let a = w.access_state(s).unwrap();
    assert_eq!(a.numeric_value, Some(25));
    assert_eq!(a.numeric_min, Some(0));
    assert_eq!(a.numeric_max, Some(50));
    assert_eq!(a.numeric_step, Some(5));
    assert!(a.horizontal);
}

#[test]
fn replacing_a_config_keeps_the_widget_state() {
    let mut w = UiWorld::new();
    let s = w.spawn(None, Widget::Slider(slider(40, 0, 100, 1, 0)));
    w.replace_widget(s, Widget::Slider(slider(10, 0, 20, 2, 5)));
    let cfg = w.slider(s).unwrap();
    assert_eq!(cfg.max, 20);
    assert_eq!(cfg.increment, 2);
    // The drag state attached to the entity survived the replacement.
    assert!(w.slider_drag(s).is_some());
}
