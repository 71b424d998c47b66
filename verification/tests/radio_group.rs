use core_widgets::core_checkbox::CoreCheckbox;
use core_widgets::core_radio::CoreRadio;
use core_widgets::core_radio_group::{apply_group_selection, radio_group_on_button_click,
    CoreRadioGroup};
use core_widgets::entity::{CallbackId, Entity};
use core_widgets::events::{Action, ButtonClicked, Key, KeyInput, UiEvent, ValueChange};
use core_widgets::propagation::handle_event;
use core_widgets::world::{UiWorld, Widget};

fn nav(key: Key) -> UiEvent {
    UiEvent::Key(KeyInput { key, pressed: true, repeat: false })
}

fn group_of(w: &mut UiWorld, n: usize) -> (Entity, Vec<Entity>) {
    let g = w.spawn(None, Widget::RadioGroup(CoreRadioGroup { on_change: None }));
    let mut radios = Vec::new();
    for _ in 0..n {
        radios.push(w.spawn(Some(g), Widget::Radio(CoreRadio)));
    }
    (g, radios)
}

#[test]
fn clicking_a_new_radio_selects_it() {
    let mut w = UiWorld::new();
    let (g, r) = group_of(&mut w, 3);
    w.set_checked(r[1], true);
    // A click on radio C bubbles a ButtonClicked to the group, which emits
    // the selection.
    let actions = handle_event(&mut w, r[2], UiEvent::PointerClick);
    assert_eq!(actions, vec![Action::EmitEntityChange { target: g, change: ValueChange(r[2]) }]);
    // Focus moved to the group while the notification was handled.
    assert_eq!(w.focus(), Some(g));
    // The group did not flip any Checked state itself.
    assert_eq!(w.checked(r[1]), Some(true));
    assert_eq!(w.checked(r[2]), Some(false));
}

#[test]
fn applying_a_selection_keeps_exactly_one_checked() {
    let mut w = UiWorld::new();
    let (g, r) = group_of(&mut w, 3);
    w.set_checked(r[1], true);
    apply_group_selection(&mut w, g, r[2]);
    assert_eq!(w.checked(r[0]), Some(false));
    assert_eq!(w.checked(r[1]), Some(false));
    assert_eq!(w.checked(r[2]), Some(true));
    // The accessibility toggled state followed each write.
    assert_eq!(w.access_state(r[1]).unwrap().toggled, Some(false));
    assert_eq!(w.access_state(r[2]).unwrap().toggled, Some(true));
}

#[test]
fn clicking_the_checked_radio_does_nothing() {
    let mut w = UiWorld::new();
    let (_g, r) = group_of(&mut w, 3);
    w.set_checked(r[1], true);
    let actions = handle_event(&mut w, r[1], UiEvent::PointerClick);
    assert!(actions.is_empty());
}

#[test]
fn arrow_up_from_first_wraps_to_last() {
    let mut w = UiWorld::new();
    let (g, r) = group_of(&mut w, 3);
    w.set_checked(r[0], true);
    let actions = handle_event(&mut w, g, nav(Key::ArrowUp));
    assert_eq!(actions, vec![Action::EmitEntityChange { target: g, change: ValueChange(r[2]) }]);
}

#[test]
fn arrow_down_from_last_wraps_to_first() {
    let mut w = UiWorld::new();
    let (g, r) = group_of(&mut w, 3);
    w.set_checked(r[2], true);
    let actions = handle_event(&mut w, g, nav(Key::ArrowDown));
    assert_eq!(actions, vec![Action::EmitEntityChange { target: g, change: ValueChange(r[0]) }]);
}

#[test]
fn arrow_down_moves_to_the_next_radio() {
    let mut w = UiWorld::new();
    let (g, r) = group_of(&mut w, 3);
    w.set_checked(r[0], true);
    let actions = handle_event(&mut w, g, nav(Key::ArrowRight));
    assert_eq!(actions, vec![Action::EmitEntityChange { target: g, change: ValueChange(r[1]) }]);
}

#[test]
fn navigation_skips_disabled_radios() {
    let mut w = UiWorld::new();
    let (g, r) = group_of(&mut w, 4);
    // Disabled radios sit first and last in child order.
    w.insert_disabled(r[0]);
    w.insert_disabled(r[3]);
    w.set_checked(r[1], true);
    // End jumps to the last *enabled* radio.
    let a1 = handle_event(&mut w, g, nav(Key::End));
    assert_eq!(a1, vec![Action::EmitEntityChange { target: g, change: ValueChange(r[2]) }]);
    // Home from the second enabled one jumps to the first *enabled* radio.
    w.set_checked(r[1], false);
    w.set_checked(r[2], true);
    let a2 = handle_event(&mut w, g, nav(Key::Home));
    assert_eq!(a2, vec![Action::EmitEntityChange { target: g, change: ValueChange(r[1]) }]);
    // ArrowUp from the first enabled one wraps to the last enabled one.
    w.set_checked(r[2], false);
    w.set_checked(r[1], true);
    let a3 = handle_event(&mut w, g, nav(Key::ArrowUp));
    assert_eq!(a3, vec![Action::EmitEntityChange { target: g, change: ValueChange(r[2]) }]);
}

#[test]
fn disabled_radio_click_is_never_selected() {
    let mut w = UiWorld::new();
    let (_g, r) = group_of(&mut w, 3);
    w.insert_disabled(r[2]);
    let actions = handle_event(&mut w, r[2], UiEvent::PointerClick);
    assert!(actions.is_empty());
    // Focus still moved to the radio; hover/focus behaviour is unaffected.
    assert_eq!(w.focus(), Some(r[2]));
}

#[test]
fn empty_group_ignores_navigation() {
    let mut w = UiWorld::new();
    let (g, r) = group_of(&mut w, 2);
    w.insert_disabled(r[0]);
    w.insert_disabled(r[1]);
    let actions = handle_event(&mut w, g, nav(Key::ArrowDown));
    assert!(actions.is_empty());
}

#[test]
fn empty_group_does_not_consume_the_key() {
    // With zero enabled radios all keyboard handling is a no-op: the key is
    // not consumed and keeps bubbling — here to an enclosing slider, which
    // reacts to ArrowLeft.
    let mut w = UiWorld::new();
    let mut cfg = core_widgets::core_slider::CoreSlider::default();
    cfg.value = 50;
    let s = w.spawn(None, Widget::Slider(cfg));
    let g = w.spawn(Some(s), Widget::RadioGroup(CoreRadioGroup { on_change: None }));
    let r = w.spawn(Some(g), Widget::Radio(CoreRadio));
    w.insert_disabled(r);
    let actions = handle_event(&mut w, g, nav(Key::ArrowLeft));
    assert_eq!(
        actions,
        vec![Action::EmitValueChange { target: s, change: ValueChange(49) }]
    );
}

#[test]
fn empty_group_click_handling_is_a_no_op() {
    // With zero enabled radios all click handling is a no-op: in particular
    // the group does not take focus, and the notification is not consumed.
    let mut w = UiWorld::new();
    let (g, r) = group_of(&mut w, 2);
    w.insert_disabled(r[0]);
    w.insert_disabled(r[1]);
    let resp = radio_group_on_button_click(&mut w, g, r[0]);
    assert!(!resp.halt);
    assert!(resp.actions.is_empty());
    assert_eq!(w.focus(), None);
}

#[test]
fn click_on_the_current_selection_is_consumed_without_emission() {
    // A ButtonClicked from the already-selected radio is consumed and emits
    // nothing; the group still takes focus, since roving focus belongs to
    // the group.
    let mut w = UiWorld::new();
    let (g, r) = group_of(&mut w, 3);
    w.set_checked(r[1], true);
    let resp = radio_group_on_button_click(&mut w, g, r[1]);
    assert!(resp.halt);
    assert!(resp.actions.is_empty());
    assert_eq!(w.focus(), Some(g));
    assert!(!w.focus_visible());
}

#[test]
fn navigation_with_nothing_checked_enters_the_list() {
    let mut w = UiWorld::new();
    let (g, r) = group_of(&mut w, 3);
    let a1 = handle_event(&mut w, g, nav(Key::ArrowDown));
    assert_eq!(a1, vec![Action::EmitEntityChange { target: g, change: ValueChange(r[0]) }]);
    let a2 = handle_event(&mut w, g, nav(Key::ArrowUp));
    assert_eq!(a2, vec![Action::EmitEntityChange { target: g, change: ValueChange(r[2]) }]);
}

#[test]
fn key_repeats_are_ignored() {
    let mut w = UiWorld::new();
    let (g, r) = group_of(&mut w, 3);
    w.set_checked(r[0], true);
    let repeat = UiEvent::Key(KeyInput { key: Key::ArrowDown, pressed: true, repeat: true });
    assert!(handle_event(&mut w, g, repeat).is_empty());
}

#[test]
fn group_callback_is_preferred_over_event() {
    let mut w = UiWorld::new();
    let g = w.spawn(None, Widget::RadioGroup(CoreRadioGroup { on_change: Some(CallbackId(4)) }));
    let a = w.spawn(Some(g), Widget::Radio(CoreRadio));
    let b = w.spawn(Some(g), Widget::Radio(CoreRadio));
    w.set_checked(a, true);
    let actions = handle_event(&mut w, b, UiEvent::PointerClick);
    assert_eq!(actions, vec![Action::RunCallbackEntity { id: CallbackId(4), entity: b }]);
}

#[test]
fn radio_without_a_group_lets_the_click_escape() {
    let mut w = UiWorld::new();
    // The radio's parent is a checkbox, not a radio group.
    let parent = w.spawn(None, Widget::Checkbox(CoreCheckbox { on_change: None }));
    let r = w.spawn(Some(parent), Widget::Radio(CoreRadio));
    let actions = handle_event(&mut w, r, UiEvent::PointerClick);
    // The ButtonClicked is not consumed and reaches the application.
    assert_eq!(actions, vec![Action::EmitButtonClicked { target: r, event: ButtonClicked }]);
}
