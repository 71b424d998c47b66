use core_widgets::core_scrollbar::{thumb_geometry, update_scrollbar_thumb, CoreScrollArea,
    CoreScrollbar, CoreScrollbarThumb, Orientation, ScrollPosition, ThumbLayout};
use core_widgets::entity::Entity;
use core_widgets::events::{Delta, UiEvent};
use core_widgets::propagation::handle_event;
use core_widgets::world::{NodeGeom, UiWorld, Widget};

fn scroll_world() -> (UiWorld, Entity, Entity, Entity) {
    // A scroll area of 100x100 viewport with 200x200 content, and a vertical
    // scrollbar (track 100 long, thumb at least 10) targeting it.
    let mut w = UiWorld::new();
    let area = w.spawn(None, Widget::ScrollArea(CoreScrollArea));
    w.set_geometry(area, NodeGeom { size_x: 100, size_y: 100, content_x: 200, content_y: 200 });
    let bar = w.spawn(
        None,
        Widget::Scrollbar(CoreScrollbar::new(area, Orientation::Vertical, 10)),
    );
    w.set_geometry(bar, NodeGeom { size_x: 10, size_y: 100, content_x: 0, content_y: 0 });
    let thumb = w.spawn(Some(bar), Widget::ScrollbarThumb(CoreScrollbarThumb));
    (w, area, bar, thumb)
}

#[test]
fn thumb_fills_the_track_when_content_fits() {
    // content == visible: full track, whatever the minimum thumb size.
    assert_eq!(
        thumb_geometry(100, 50, 50, 0, 20),
        ThumbLayout { offset: 0, size: 100 }
    );
    assert_eq!(
        thumb_geometry(100, 80, 30, 0, 95),
        ThumbLayout { offset: 0, size: 100 }
    );
}

#[test]
fn thumb_is_half_the_track_for_double_content() {
    let t = thumb_geometry(100, 50, 100, 0, 0);
    assert_eq!(t.size, 50);
    assert_eq!(t.offset, 0);
}

#[test]
fn thumb_size_respects_the_minimum() {
    // Raw size would be 10; the minimum floors it at 20.
    let t = thumb_geometry(100, 10, 100, 0, 20);
    assert_eq!(t.size, 20);
    // The minimum never pushes the thumb beyond the track.
    let t2 = thumb_geometry(100, 10, 100, 0, 300);
    assert_eq!(t2.size, 100);
}

#[test]
fn thumb_position_follows_the_offset() {
    // track 100, visible 50, content 100: thumb 50, leftover 50, range 50.
    let t = thumb_geometry(100, 50, 100, 25, 0);
    assert_eq!(t.size, 50);
    // 25 * (100 - 50) / (100 - 50) = 25.
    assert_eq!(t.offset, 25);
}

#[test]
fn thumb_pass_reads_the_world() {
    let (mut w, area, bar, _thumb) = scroll_world();
    w.set_scroll_offset(area, 0, 50);
    let t = update_scrollbar_thumb(&w, bar).unwrap();
    // Vertical axis: track 100, visible 100, content 200: thumb 50; offset
    // 50 * (100 - 50) / (200 - 100) = 25.
    assert_eq!(t, ThumbLayout { offset: 25, size: 50 });
}

#[test]
fn thumb_pass_skips_a_missing_target() {
    let (mut w, area, bar, _thumb) = scroll_world();
    w.despawn(area);
    assert_eq!(update_scrollbar_thumb(&w, bar), None);
}

#[test]
fn dragging_the_thumb_scrolls_the_target() {
    let (mut w, area, _bar, thumb) = scroll_world();
    handle_event(&mut w, thumb, UiEvent::DragStart);
    assert!(w.scrollbar_drag(area).unwrap().dragging);
    // The drag bubbles from the thumb to the scrollbar, which maps it:
    // 0 + 45 * 200 / (100 - 10) = 100, clamped into [0, 100].
    handle_event(&mut w, thumb, UiEvent::DragMove(Delta { x: 0, y: 45 }));
    assert_eq!(
        w.scroll_offset(area).unwrap(),
        ScrollPosition { offset_x: 0, offset_y: 100 }
    );
    // A further pull cannot scroll past the end.
    handle_event(&mut w, thumb, UiEvent::DragMove(Delta { x: 0, y: 500 }));
    assert_eq!(w.scroll_offset(area).unwrap().offset_y, 100);
    handle_event(&mut w, thumb, UiEvent::DragEnd);
    assert!(!w.scrollbar_drag(area).unwrap().dragging);
}

#[test]
fn thumb_drags_move_from_the_snapshot_not_the_live_offset() {
    let (mut w, area, _bar, thumb) = scroll_world();
    w.set_scroll_offset(area, 0, 40);
    handle_event(&mut w, thumb, UiEvent::DragStart);
    // 40 + 9 * 200 / 90 = 60.
    handle_event(&mut w, thumb, UiEvent::DragMove(Delta { x: 0, y: 9 }));
    assert_eq!(w.scroll_offset(area).unwrap().offset_y, 60);
    // The next displacement is measured from the gesture start, not from 60:
    // 40 + 18 * 200 / 90 = 80.
    handle_event(&mut w, thumb, UiEvent::DragMove(Delta { x: 0, y: 18 }));
    assert_eq!(w.scroll_offset(area).unwrap().offset_y, 80);
}

#[test]
fn dragging_the_content_scrolls_both_axes_inversely() {
    let (mut w, area, _bar, _thumb) = scroll_world();
    handle_event(&mut w, area, UiEvent::DragStart);
    handle_event(&mut w, area, UiEvent::DragMove(Delta { x: -30, y: -40 }));
    assert_eq!(
        w.scroll_offset(area).unwrap(),
        ScrollPosition { offset_x: 30, offset_y: 40 }
    );
    // Clamped to the scrollable range on both axes.
    handle_event(&mut w, area, UiEvent::DragMove(Delta { x: -500, y: 20 }));
    assert_eq!(
        w.scroll_offset(area).unwrap(),
        ScrollPosition { offset_x: 100, offset_y: 0 }
    );
    handle_event(&mut w, area, UiEvent::DragEnd);
    assert!(!w.scrollbar_drag(area).unwrap().dragging);
}

#[test]
fn a_scrollbar_with_a_dead_target_is_a_no_op() {
    let (mut w, area, _bar, thumb) = scroll_world();
    w.despawn(area);
    handle_event(&mut w, thumb, UiEvent::DragStart);
    handle_event(&mut w, thumb, UiEvent::DragMove(Delta { x: 0, y: 45 }));
    handle_event(&mut w, thumb, UiEvent::DragEnd);
    // Nothing changed on the despawned area.
    assert_eq!(
        w.scroll_offset(area).unwrap(),
        ScrollPosition { offset_x: 0, offset_y: 0 }
    );
    assert!(!w.scrollbar_drag(area).unwrap().dragging);
}

#[test]
fn nothing_scrolls_when_content_fits() {
    let mut w = UiWorld::new();
    let area = w.spawn(None, Widget::ScrollArea(CoreScrollArea));
    w.set_geometry(area, NodeGeom { size_x: 100, size_y: 100, content_x: 80, content_y: 100 });
    handle_event(&mut w, area, UiEvent::DragStart);
    handle_event(&mut w, area, UiEvent::DragMove(Delta { x: -30, y: -40 }));
    assert_eq!(
        w.scroll_offset(area).unwrap(),
        ScrollPosition { offset_x: 0, offset_y: 0 }
    );
}

#[test]
fn horizontal_scrollbars_map_the_x_axis() {
    let mut w = UiWorld::new();
    let area = w.spawn(None, Widget::ScrollArea(CoreScrollArea));
    w.set_geometry(area, NodeGeom { size_x: 100, size_y: 100, content_x: 300, content_y: 100 });
    let bar = w.spawn(
        None,
        Widget::Scrollbar(CoreScrollbar::new(area, Orientation::Horizontal, 0)),
    );
    w.set_geometry(bar, NodeGeom { size_x: 100, size_y: 10, content_x: 0, content_y: 0 });
    let thumb = w.spawn(Some(bar), Widget::ScrollbarThumb(CoreScrollbarThumb));
    handle_event(&mut w, thumb, UiEvent::DragStart);
    // 0 + 20 * 300 / 100 = 60.
    handle_event(&mut w, thumb, UiEvent::DragMove(Delta { x: 20, y: 0 }));
    assert_eq!(
        w.scroll_offset(area).unwrap(),
        ScrollPosition { offset_x: 60, offset_y: 0 }
    );
}
