use core_widgets::core_button::CoreButton;
use core_widgets::core_checkbox::CoreCheckbox;
use core_widgets::entity::CallbackId;
use core_widgets::events::{Action, ButtonClicked, Key, KeyInput, UiEvent, ValueChange};
use core_widgets::propagation::handle_event;
use core_widgets::world::{UiWorld, Widget};

fn press(key: Key) -> UiEvent {
    UiEvent::Key(KeyInput { key, pressed: true, repeat: false })
}

#[test]
fn clicking_an_unchecked_checkbox_emits_true_without_mutating() {
    let mut w = UiWorld::new();
    let c = w.spawn(None, Widget::Checkbox(CoreCheckbox { on_change: None }));
    let actions = handle_event(&mut w, c, UiEvent::PointerClick);
    assert_eq!(actions, vec![Action::EmitBoolChange { target: c, change: ValueChange(true) }]);
    // Checked is untouched until a separate write applies the intent.
    assert_eq!(w.checked(c), Some(false));
    assert_eq!(w.access_state(c).unwrap().toggled, Some(false));
    // Applying the intent flips both the state and its accessibility mirror.
    w.set_checked(c, true);
    assert_eq!(w.checked(c), Some(true));
    assert_eq!(w.access_state(c).unwrap().toggled, Some(true));
}

#[test]
fn clicking_a_checked_checkbox_emits_false() {
    let mut w = UiWorld::new();
    let c = w.spawn(None, Widget::Checkbox(CoreCheckbox { on_change: None }));
    w.set_checked(c, true);
    let actions = handle_event(&mut w, c, UiEvent::PointerClick);
    assert_eq!(actions, vec![Action::EmitBoolChange { target: c, change: ValueChange(false) }]);
    assert_eq!(w.checked(c), Some(true));
}

#[test]
fn checkbox_click_acquires_focus_without_ring() {
    let mut w = UiWorld::new();
    let c = w.spawn(None, Widget::Checkbox(CoreCheckbox { on_change: None }));
    handle_event(&mut w, c, UiEvent::PointerClick);
    assert_eq!(w.focus(), Some(c));
    assert!(!w.focus_visible());
}

#[test]
fn checkbox_enter_and_space_toggle() {
    let mut w = UiWorld::new();
    let c = w.spawn(None, Widget::Checkbox(CoreCheckbox { on_change: None }));
    let a1 = handle_event(&mut w, c, press(Key::Enter));
    assert_eq!(a1, vec![Action::EmitBoolChange { target: c, change: ValueChange(true) }]);
    let a2 = handle_event(&mut w, c, press(Key::Space));
    assert_eq!(a2, vec![Action::EmitBoolChange { target: c, change: ValueChange(true) }]);
}

#[test]
fn checkbox_ignores_key_repeats_and_other_keys() {
    let mut w = UiWorld::new();
    let c = w.spawn(None, Widget::Checkbox(CoreCheckbox { on_change: None }));
    let repeat = UiEvent::Key(KeyInput { key: Key::Enter, pressed: true, repeat: true });
    assert!(handle_event(&mut w, c, repeat).is_empty());
    assert!(handle_event(&mut w, c, press(Key::ArrowUp)).is_empty());
    let release = UiEvent::Key(KeyInput { key: Key::Enter, pressed: false, repeat: false });
    assert!(handle_event(&mut w, c, release).is_empty());
}

#[test]
fn checkbox_callback_receives_the_intent() {
    let mut w = UiWorld::new();
    let c = w.spawn(None, Widget::Checkbox(CoreCheckbox { on_change: Some(CallbackId(7)) }));
    let actions = handle_event(&mut w, c, UiEvent::PointerClick);
    assert_eq!(actions, vec![Action::RunCallbackBool { id: CallbackId(7), value: true }]);
}

#[test]
fn disabled_checkbox_emits_nothing_but_still_focuses() {
    let mut w = UiWorld::new();
    let c = w.spawn(None, Widget::Checkbox(CoreCheckbox { on_change: None }));
    w.insert_disabled(c);
    assert!(handle_event(&mut w, c, UiEvent::PointerClick).is_empty());
    assert_eq!(w.focus(), Some(c));
    assert!(!w.focus_visible());
    assert!(handle_event(&mut w, c, press(Key::Enter)).is_empty());
    // The accessibility node reports the disabled state.
    assert!(w.access_state(c).unwrap().disabled);
    w.remove_disabled(c);
    assert!(!w.access_state(c).unwrap().disabled);
}

#[test]
fn button_click_without_callback_bubbles_to_the_application() {
    let mut w = UiWorld::new();
    let b = w.spawn(None, Widget::Button(CoreButton { on_click: None }));
    let actions = handle_event(&mut w, b, UiEvent::PointerClick);
    assert_eq!(actions, vec![Action::EmitButtonClicked { target: b, event: ButtonClicked }]);
    assert_eq!(w.focus(), Some(b));
}

#[test]
fn button_click_runs_the_configured_callback() {
    let mut w = UiWorld::new();
    let b = w.spawn(None, Widget::Button(CoreButton { on_click: Some(CallbackId(3)) }));
    let actions = handle_event(&mut w, b, UiEvent::PointerClick);
    assert_eq!(actions, vec![Action::RunCallback { id: CallbackId(3) }]);
}

#[test]
fn button_tracks_the_press_gesture() {
    let mut w = UiWorld::new();
    let b = w.spawn(None, Widget::Button(CoreButton { on_click: None }));
    assert_eq!(w.pressed(b), Some(false));
    handle_event(&mut w, b, UiEvent::PointerPressed);
    assert_eq!(w.pressed(b), Some(true));
    handle_event(&mut w, b, UiEvent::PointerClick);
    assert_eq!(w.pressed(b), Some(false));
    handle_event(&mut w, b, UiEvent::PointerPressed);
    handle_event(&mut w, b, UiEvent::DragEnd);
    assert_eq!(w.pressed(b), Some(false));
}

#[test]
fn button_enter_fires_space_fires_repeat_does_not() {
    let mut w = UiWorld::new();
    let b = w.spawn(None, Widget::Button(CoreButton { on_click: Some(CallbackId(1)) }));
    assert_eq!(
        handle_event(&mut w, b, press(Key::Enter)),
        vec![Action::RunCallback { id: CallbackId(1) }]
    );
    assert_eq!(
        handle_event(&mut w, b, press(Key::Space)),
        vec![Action::RunCallback { id: CallbackId(1) }]
    );
    let repeat = UiEvent::Key(KeyInput { key: Key::Space, pressed: true, repeat: true });
    assert!(handle_event(&mut w, b, repeat).is_empty());
}

#[test]
fn disabled_button_never_fires() {
    let mut w = UiWorld::new();
    let b = w.spawn(None, Widget::Button(CoreButton { on_click: None }));
    w.insert_disabled(b);
    assert!(handle_event(&mut w, b, UiEvent::PointerClick).is_empty());
    assert!(handle_event(&mut w, b, press(Key::Enter)).is_empty());
    // Focus and press tracking keep working.
    assert_eq!(w.focus(), Some(b));
}
