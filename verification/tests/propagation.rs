use core_widgets::core_button::CoreButton;
use core_widgets::core_checkbox::CoreCheckbox;
use core_widgets::events::{Action, ButtonClicked, UiEvent, ValueChange};
use core_widgets::propagation::handle_event;
use core_widgets::world::{UiWorld, Widget};

#[test]
fn a_click_bubbles_from_a_plain_child_to_its_widget_ancestor() {
    let mut w = UiWorld::new();
    let c = w.spawn(None, Widget::Checkbox(CoreCheckbox { on_change: None }));
    let inner = w.spawn(Some(c), Widget::Plain);
    // The click lands on the plain child and bubbles up to the checkbox.
    let actions = handle_event(&mut w, inner, UiEvent::PointerClick);
    assert_eq!(actions, vec![Action::EmitBoolChange { target: c, change: ValueChange(true) }]);
    assert_eq!(w.focus(), Some(c));
}

#[test]
fn a_halting_descendant_shields_its_ancestors() {
    let mut w = UiWorld::new();
    // A button-like element sits inside a checkbox.
    let c = w.spawn(None, Widget::Checkbox(CoreCheckbox { on_change: None }));
    let b = w.spawn(Some(c), Widget::Button(CoreButton { on_click: None }));
    let actions = handle_event(&mut w, b, UiEvent::PointerClick);
    // The button consumed the click: the checkbox's observer never ran, so
    // no ValueChange was emitted; only the button's own notification (which
    // nothing consumed) reaches the application.
    assert_eq!(actions, vec![Action::EmitButtonClicked { target: b, event: ButtonClicked }]);
    assert_eq!(w.focus(), Some(b));
    // The checkbox state is untouched.
    assert_eq!(w.checked(c), Some(false));
}

#[test]
fn an_event_on_a_plain_tree_does_nothing() {
    let mut w = UiWorld::new();
    let root = w.spawn(None, Widget::Plain);
    let child = w.spawn(Some(root), Widget::Plain);
    let actions = handle_event(&mut w, child, UiEvent::PointerClick);
    assert!(actions.is_empty());
    assert_eq!(w.focus(), None);
}

#[test]
fn an_event_on_a_despawned_entity_does_nothing() {
    let mut w = UiWorld::new();
    let c = w.spawn(None, Widget::Checkbox(CoreCheckbox { on_change: None }));
    w.despawn(c);
    let actions = handle_event(&mut w, c, UiEvent::PointerClick);
    assert!(actions.is_empty());
    assert_eq!(w.focus(), None);
}

#[test]
fn bubbling_stops_at_a_despawned_parent() {
    let mut w = UiWorld::new();
    let c = w.spawn(None, Widget::Checkbox(CoreCheckbox { on_change: None }));
    let inner = w.spawn(Some(c), Widget::Plain);
    w.despawn(c);
    let actions = handle_event(&mut w, inner, UiEvent::PointerClick);
    assert!(actions.is_empty());
}
