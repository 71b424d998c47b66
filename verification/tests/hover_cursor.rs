use core_widgets::core_button::CoreButton;
use core_widgets::cursor::{resolve_cursor, windows_to_change};
use core_widgets::hover::update_hover_states;
use core_widgets::world::{UiWorld, Widget};

#[test]
fn hovering_a_descendant_hovers_the_ancestor() {
    let mut w = UiWorld::new();
    let root = w.spawn(None, Widget::Plain);
    let child = w.spawn(Some(root), Widget::Plain);
    let grandchild = w.spawn(Some(child), Widget::Plain);
    let other = w.spawn(None, Widget::Plain);
    w.insert_hovering(root);
    w.insert_hovering(child);
    w.insert_hovering(other);
    update_hover_states(&mut w, &vec![grandchild]);
    assert_eq!(w.hovering(root), Some(true));
    assert_eq!(w.hovering(child), Some(true));
    assert_eq!(w.hovering(other), Some(false));
    // An entity that never opted in reports nothing.
    assert_eq!(w.hovering(grandchild), None);
}

#[test]
fn an_empty_hover_set_clears_the_flags() {
    let mut w = UiWorld::new();
    let root = w.spawn(None, Widget::Plain);
    w.insert_hovering(root);
    update_hover_states(&mut w, &vec![root]);
    assert_eq!(w.hovering(root), Some(true));
    update_hover_states(&mut w, &vec![]);
    assert_eq!(w.hovering(root), Some(false));
}

#[test]
fn a_disabled_widget_still_tracks_hover() {
    let mut w = UiWorld::new();
    let b = w.spawn(None, Widget::Button(CoreButton { on_click: None }));
    w.insert_hovering(b);
    w.insert_disabled(b);
    update_hover_states(&mut w, &vec![b]);
    assert_eq!(w.hovering(b), Some(true));
}

#[test]
fn the_nearest_declared_icon_wins() {
    let mut w = UiWorld::new();
    let root = w.spawn(None, Widget::Plain);
    let mid = w.spawn(Some(root), Widget::Plain);
    let leaf = w.spawn(Some(mid), Widget::Plain);
    w.set_cursor_icon(root, 1);
    w.set_cursor_icon(mid, 7);
    assert_eq!(resolve_cursor(&w, &vec![leaf]), Some(7));
    assert_eq!(resolve_cursor(&w, &vec![mid]), Some(7));
    assert_eq!(resolve_cursor(&w, &vec![root]), Some(1));
}

#[test]
fn no_declared_icon_means_the_platform_default() {
    let mut w = UiWorld::new();
    let root = w.spawn(None, Widget::Plain);
    let leaf = w.spawn(Some(root), Widget::Plain);
    assert_eq!(resolve_cursor(&w, &vec![leaf]), None);
    assert_eq!(resolve_cursor(&w, &vec![]), None);
}

#[test]
fn the_first_hovered_entity_decides() {
    let mut w = UiWorld::new();
    let a = w.spawn(None, Widget::Plain);
    let b = w.spawn(None, Widget::Plain);
    w.set_cursor_icon(b, 9);
    // `a` resolves nothing, so the second entry decides.
    assert_eq!(resolve_cursor(&w, &vec![a, b]), Some(9));
}

#[test]
fn only_stale_windows_are_rewritten() {
    let prev = vec![Some(7), None, Some(3)];
    assert_eq!(windows_to_change(&prev, Some(7)), vec![1, 2]);
    assert_eq!(windows_to_change(&prev, None), vec![0, 2]);
    let all_set = vec![Some(4), Some(4)];
    assert_eq!(windows_to_change(&all_set, Some(4)), Vec::<usize>::new());
}
