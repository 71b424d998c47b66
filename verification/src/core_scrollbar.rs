//! A headless scrollbar: drag-based control of a scroll area's offset, with
//! the thumb's extent and position derived from the content-to-viewport size
//! ratio. The scrollbar holds a non-owning reference to the scroll area it
//! controls; when that reference resolves to nothing, every operation is a
//! silent no-op.

use vstd::prelude::*;
use crate::entity::Entity;
use crate::events::{spec_noop, Delta, Response, SpecResponse};
use crate::math::{clamp_i64, linear_map_sat, spec_clamp, spec_div_trunc, spec_sat64};
use crate::world::{is_live, rec_of, rec_wf, wf, EntityRec, UiWorld, Widget, WorldView};

verus! {

/// The axis a scrollbar controls.
#[derive(Clone, Copy, Debug, PartialEq, Eq, Structural)]
pub enum Orientation {
    Horizontal,
    Vertical,
}

impl Default for Orientation {
    fn default() -> (r: Self)
        ensures
            r == Orientation::Vertical,
    {
        Orientation::Vertical
    }
}

/// Marker and configuration for a scrollbar entity.
#[derive(Clone, Copy, Debug, PartialEq, Eq, Structural)]
pub struct CoreScrollbar {
    /// Entity being scrolled.
    pub target: Entity,
    /// Whether the scrollbar is vertical or horizontal.
    pub orientation: Orientation,
    /// Minimum extent of the scrollbar thumb, in logical pixels.
    pub min_thumb_size: i64,
}

impl CoreScrollbar {
    pub fn new(target: Entity, orientation: Orientation, min_thumb_size: i64) -> (r: Self)
        ensures
            r.target == target,
            r.orientation == orientation,
            r.min_thumb_size == min_thumb_size,
    {
        CoreScrollbar { target, orientation, min_thumb_size }
    }
}

/// Marker for the scrollbar's draggable thumb; a child of the scrollbar
/// entity. Other children of the scrollbar are ignored.
#[derive(Clone, Copy, Debug, PartialEq, Eq, Structural)]
pub struct CoreScrollbarThumb;

/// Marker for a scrollable container whose offset a scrollbar controls.
#[derive(Clone, Copy, Debug, PartialEq, Eq, Structural)]
pub struct CoreScrollArea;

/// The scroll offset of a scroll area, in logical pixels.
#[derive(Clone, Copy, Debug, PartialEq, Eq, Structural)]
pub struct ScrollPosition {
    pub offset_x: i64,
    pub offset_y: i64,
}

/// Component used to manage the state of a scrollbar during dragging.
#[derive(Clone, Copy, Debug, PartialEq, Eq, Structural)]
pub struct ScrollbarDragState {
    /// Whether a drag gesture is currently in progress.
    pub dragging: bool,
    /// The scroll offset captured when dragging started; the baseline that
    /// pointer displacement is applied to.
    pub offset: ScrollPosition,
}

/// The world after a drag gesture began on scroll area `area`: its drag
/// state holds a snapshot of the current offset.
pub open spec fn start_area_drag(v: WorldView, area: Entity) -> WorldView {
    WorldView {
        nodes: v.nodes.update(
            area.0 as int,
            EntityRec {
                scrollbar_drag: Some(
                    ScrollbarDragState { dragging: true, offset: rec_of(v, area).scroll->Some_0 },
                ),
                ..rec_of(v, area)
            },
        ),
        ..v
    }
}

/// The world after a drag gesture on scroll area `area` ended: the dragging
/// flag is cleared; the snapshot is kept but no longer used.
pub open spec fn end_area_drag(v: WorldView, area: Entity) -> WorldView {
    WorldView {
        nodes: v.nodes.update(
            area.0 as int,
            EntityRec {
                scrollbar_drag: Some(
                    ScrollbarDragState {
                        dragging: false,
                        ..rec_of(v, area).scrollbar_drag->Some_0
                    },
                ),
                ..rec_of(v, area)
            },
        ),
        ..v
    }
}

/// Whether the scrollbar `e` resolves, through its target reference, to a
/// live scroll area; when it does not, every scrollbar operation is a
/// silent no-op.
pub open spec fn scrollbar_target_ok(v: WorldView, sb: CoreScrollbar) -> bool {
    is_live(v, sb.target) && rec_of(v, sb.target).widget is ScrollArea
}

/// What the scrollbar family does when the pointer goes down: a press on
/// the thumb is consumed and left to the drag gesture; a press on the
/// scrollbar track is consumed and reserved for page-up / page-down
/// behaviour (the hook exists; the hit-testing is not prescribed here).
pub open spec fn scrollbar_pressed_spec(v: WorldView, e: Entity) -> SpecResponse {
    if is_live(v, e) && rec_of(v, e).widget is ScrollbarThumb {
        SpecResponse { world: v, halt: true, actions: Seq::empty(), bubble_click: None }
    } else if is_live(v, e) && rec_of(v, e).widget is Scrollbar {
        SpecResponse { world: v, halt: true, actions: Seq::empty(), bubble_click: None }
    } else {
        spec_noop(v)
    }
}

/// What the scrollbar family does when a drag gesture starts. On the thumb:
/// the event is consumed and, when the thumb's parent is a scrollbar whose
/// target resolves to a live scroll area, that area's drag state snapshots
/// the current offset. Directly on a scroll area: the event is consumed and
/// the area snapshots its own offset.
pub open spec fn scrollbar_drag_start_spec(v: WorldView, e: Entity) -> SpecResponse {
    if is_live(v, e) && rec_of(v, e).widget is ScrollbarThumb && rec_of(v, e).parent is Some {
        let p = rec_of(v, e).parent->Some_0;
        let world = if is_live(v, p) && rec_of(v, p).widget is Scrollbar {
            let sb = rec_of(v, p).widget->Scrollbar_0;
            if scrollbar_target_ok(v, sb) {
                start_area_drag(v, sb.target)
            } else {
                v
            }
        } else {
            v
        };
        SpecResponse { world, halt: true, actions: Seq::empty(), bubble_click: None }
    } else if is_live(v, e) && rec_of(v, e).widget is ScrollArea {
        SpecResponse {
            world: start_area_drag(v, e),
            halt: true,
            actions: Seq::empty(),
            bubble_click: None,
        }
    } else {
        spec_noop(v)
    }
}

/// What the scrollbar family does when a drag gesture ends: the dragging
/// flag of the affected scroll area is cleared — through the thumb's parent
/// scrollbar when the gesture was on the thumb, or on the scroll area
/// itself.
pub open spec fn scrollbar_drag_end_spec(v: WorldView, e: Entity) -> SpecResponse {
    if is_live(v, e) && rec_of(v, e).widget is ScrollbarThumb && rec_of(v, e).parent is Some {
        let p = rec_of(v, e).parent->Some_0;
        let world = if is_live(v, p) && rec_of(v, p).widget is Scrollbar {
            let sb = rec_of(v, p).widget->Scrollbar_0;
            if scrollbar_target_ok(v, sb) {
                end_area_drag(v, sb.target)
            } else {
                v
            }
        } else {
            v
        };
        SpecResponse { world, halt: true, actions: Seq::empty(), bubble_click: None }
    } else if is_live(v, e) && rec_of(v, e).widget is ScrollArea {
        SpecResponse {
            world: end_area_drag(v, e),
            halt: true,
            actions: Seq::empty(),
            bubble_click: None,
        }
    } else {
        spec_noop(v)
    }
}

/// The scroll offset a thumb drag maps to along one axis: the baseline
/// captured at drag-start, plus the pointer displacement scaled by the
/// inverse of the thumb-sizing ratio (content extent over the effective
/// track length), clamped into `[0, range]` — or 0 when nothing can scroll.
pub open spec fn scrollbar_drag_offset(
    base: i64,
    delta: i64,
    content: int,
    width: int,
    range: int,
) -> int {
    if range > 0 {
        spec_clamp(base + spec_div_trunc(delta * content, width), 0, range)
    } else {
        0
    }
}

/// The usable track length a scrollbar maps displacement over: its extent
/// minus the minimum thumb size, floored at 1.
pub open spec fn spec_effective_track(track: int, min_thumb: int) -> int {
    if track - min_thumb < 1 {
        1
    } else {
        track - min_thumb
    }
}

/// The scrollable range of one axis: content extent minus viewport extent,
/// floored at 0.
pub open spec fn spec_scroll_range(content: int, visible: int) -> int {
    if content - visible < 0 {
        0
    } else {
        content - visible
    }
}

/// The scroll position after a drag displacement on a scrollbar: the dragged
/// axis follows `scrollbar_drag_offset`; the other axis is untouched.
pub open spec fn scrollbar_dragged_scroll(v: WorldView, e: Entity, delta: Delta)
    -> ScrollPosition {
    let sb = rec_of(v, e).widget->Scrollbar_0;
    let g = rec_of(v, e).geom->Some_0;
    let tr = rec_of(v, sb.target);
    let cg = tr.geom->Some_0;
    let d = tr.scrollbar_drag->Some_0;
    let sp = tr.scroll->Some_0;
    match sb.orientation {
        Orientation::Horizontal => ScrollPosition {
            offset_x: scrollbar_drag_offset(
                d.offset.offset_x,
                delta.x,
                cg.content_x as int,
                spec_effective_track(g.size_x as int, sb.min_thumb_size as int),
                spec_scroll_range(cg.content_x as int, cg.size_x as int),
            ) as i64,
            offset_y: sp.offset_y,
        },
        Orientation::Vertical => ScrollPosition {
            offset_x: sp.offset_x,
            offset_y: scrollbar_drag_offset(
                d.offset.offset_y,
                delta.y,
                cg.content_y as int,
                spec_effective_track(g.size_y as int, sb.min_thumb_size as int),
                spec_scroll_range(cg.content_y as int, cg.size_y as int),
            ) as i64,
        },
    }
}

/// The scroll position after a drag displacement directly on a scroll area:
/// the displacement is subtracted (content follows the pointer) on both
/// axes independently, clamped into each axis's scrollable range.
pub open spec fn area_dragged_scroll(v: WorldView, e: Entity, delta: Delta) -> ScrollPosition {
    let tr = rec_of(v, e);
    let cg = tr.geom->Some_0;
    let d = tr.scrollbar_drag->Some_0;
    let xr = spec_scroll_range(cg.content_x as int, cg.size_x as int);
    let yr = spec_scroll_range(cg.content_y as int, cg.size_y as int);
    ScrollPosition {
        offset_x: (if xr > 0 {
            spec_clamp(d.offset.offset_x - delta.x, 0, xr)
        } else {
            0
        }) as i64,
        offset_y: (if yr > 0 {
            spec_clamp(d.offset.offset_y - delta.y, 0, yr)
        } else {
            0
        }) as i64,
    }
}

/// What the scrollbar family does with a drag displacement. On a scrollbar
/// with known layout: the event is consumed, and while a gesture is active
/// on its resolved target area, the dragged axis of the target's offset is
/// recomputed from the drag baseline. Directly on a scroll area with known
/// layout: both axes follow the pointer inversely; the event keeps
/// propagating, so nested scroll areas each react.
pub open spec fn scrollbar_drag_spec(v: WorldView, e: Entity, delta: Delta) -> SpecResponse {
    if is_live(v, e) && rec_of(v, e).widget is Scrollbar && rec_of(v, e).geom is Some {
        let sb = rec_of(v, e).widget->Scrollbar_0;
        let world = if scrollbar_target_ok(v, sb) && rec_of(v, sb.target).geom is Some
            && rec_of(v, sb.target).scrollbar_drag->Some_0.dragging {
            WorldView {
                nodes: v.nodes.update(
                    sb.target.0 as int,
                    EntityRec {
                        scroll: Some(scrollbar_dragged_scroll(v, e, delta)),
                        ..rec_of(v, sb.target)
                    },
                ),
                ..v
            }
        } else {
            v
        };
        SpecResponse { world, halt: true, actions: Seq::empty(), bubble_click: None }
    } else if is_live(v, e) && rec_of(v, e).widget is ScrollArea && rec_of(v, e).geom is Some {
        let world = if rec_of(v, e).scrollbar_drag->Some_0.dragging {
            WorldView {
                nodes: v.nodes.update(
                    e.0 as int,
                    EntityRec { scroll: Some(area_dragged_scroll(v, e, delta)), ..rec_of(v, e) },
                ),
                ..v
            }
        } else {
            v
        };
        SpecResponse { world, halt: false, actions: Seq::empty(), bubble_click: None }
    } else {
        spec_noop(v)
    }
}

/// The extent of the scrollbar thumb along the track. When the content does
/// not exceed the viewport the thumb fills the whole track, whatever the
/// minimum thumb size; otherwise it is the track length scaled by the
/// viewport-to-content ratio, floored at `min_thumb` and capped at the
/// track length.
pub open spec fn spec_thumb_size(track: int, visible: int, content: int, min_thumb: int) -> int {
    if content > visible {
        let sz = track * visible / content;
        let floored = if sz < min_thumb {
            min_thumb
        } else {
            sz
        };
        if floored > track {
            track
        } else {
            floored
        }
    } else {
        track
    }
}

/// The position of the thumb along the track: the scroll offset scaled by
/// the leftover track over the scrollable range, or 0 when nothing can
/// scroll.
pub open spec fn spec_thumb_offset(
    track: int,
    visible: int,
    content: int,
    offset: int,
    size: int,
) -> int {
    if content > visible {
        spec_sat64(spec_div_trunc(offset * (track - size), content - visible))
    } else {
        0
    }
}

/// The extent and position of a scrollbar thumb along the track, in logical
/// pixels.
#[derive(Clone, Copy, Debug, PartialEq, Eq, Structural)]
pub struct ThumbLayout {
    /// Distance of the thumb's leading edge from the track's leading edge.
    pub offset: i64,
    /// Extent of the thumb along the track.
    pub size: i64,
}

/// Compute a thumb's extent and position for one axis from the track
/// length, the viewport and content extents, the current scroll offset and
/// the configured minimum thumb size.
pub fn thumb_geometry(track: i64, visible: i64, content: i64, offset: i64, min_thumb: i64) -> (r:
    ThumbLayout)
    requires
        track >= 0,
        visible >= 0,
        content >= 0,
        min_thumb >= 0,
    ensures
        r.size == spec_thumb_size(track as int, visible as int, content as int, min_thumb as int),
        r.offset == spec_thumb_offset(
            track as int,
            visible as int,
            content as int,
            offset as int,
            r.size as int,
        ),
        0 <= r.size,
{
    if content > visible {
        proof {
            assert(0 <= (track as int) * (visible as int)
                <= 0x4000_0000_0000_0000_0000_0000_0000_0000 - 1) by (nonlinear_arith)
                requires
                    0 <= track as int <= 0x7fff_ffff_ffff_ffff,
                    0 <= visible as int <= 0x7fff_ffff_ffff_ffff,
            ;
        }
        let prod: i128 = (track as i128) * (visible as i128);
        let sz: i128 = prod / (content as i128);
        proof {
            vstd::arithmetic::div_mod::lemma_div_pos_is_pos(prod as int, content as int);
            if visible > 0 {
                vstd::arithmetic::div_mod::lemma_div_is_ordered_by_denominator(
                    prod as int,
                    visible as int,
                    content as int,
                );
                vstd::arithmetic::div_mod::lemma_div_by_multiple(track as int, visible as int);
            }
        }
        let floored: i128 = if sz < min_thumb as i128 {
            min_thumb as i128
        } else {
            sz
        };
        let size: i64 = if floored > track as i128 {
            track
        } else {
            floored as i64
        };
        let leftover = track - size;
        proof {
            assert(-0x4000_0000_0000_0000_0000_0000_0000_0000 <= (offset as int) * (leftover
                as int) <= 0x4000_0000_0000_0000_0000_0000_0000_0000 - 1) by (nonlinear_arith)
                requires
                    -0x8000_0000_0000_0000 <= offset as int <= 0x7fff_ffff_ffff_ffff,
                    0 <= leftover as int <= 0x7fff_ffff_ffff_ffff,
            ;
        }
        let prod2: i128 = (offset as i128) * (leftover as i128);
        let pos = crate::math::div_trunc_i128(prod2, (content - visible) as i128);
        ThumbLayout { offset: crate::math::sat_i64(pos), size }
    } else {
        ThumbLayout { offset: 0, size: track }
    }
}

/// The thumb layout a scrollbar asks for this frame, along its axis: `None`
/// when the scrollbar has no layout yet, or when its target does not resolve
/// to a live entity with a scroll offset and a layout — in which case the
/// frame's sizing is skipped with no state mutation and no error.
pub open spec fn scrollbar_thumb_layout_spec(v: WorldView, e: Entity) -> Option<ThumbLayout> {
    if is_live(v, e) && rec_of(v, e).widget is Scrollbar && rec_of(v, e).geom is Some {
        let sb = rec_of(v, e).widget->Scrollbar_0;
        let g = rec_of(v, e).geom->Some_0;
        if is_live(v, sb.target) && rec_of(v, sb.target).scroll is Some && rec_of(
            v,
            sb.target,
        ).geom is Some {
            let cg = rec_of(v, sb.target).geom->Some_0;
            let sp = rec_of(v, sb.target).scroll->Some_0;
            match sb.orientation {
                Orientation::Horizontal => {
                    let size = spec_thumb_size(
                        g.size_x as int,
                        cg.size_x as int,
                        cg.content_x as int,
                        sb.min_thumb_size as int,
                    );
                    Some(
                        ThumbLayout {
                            offset: spec_thumb_offset(
                                g.size_x as int,
                                cg.size_x as int,
                                cg.content_x as int,
                                sp.offset_x as int,
                                size,
                            ) as i64,
                            size: size as i64,
                        },
                    )
                },
                Orientation::Vertical => {
                    let size = spec_thumb_size(
                        g.size_y as int,
                        cg.size_y as int,
                        cg.content_y as int,
                        sb.min_thumb_size as int,
                    );
                    Some(
                        ThumbLayout {
                            offset: spec_thumb_offset(
                                g.size_y as int,
                                cg.size_y as int,
                                cg.content_y as int,
                                sp.offset_y as int,
                                size,
                            ) as i64,
                            size: size as i64,
                        },
                    )
                },
            }
        } else {
            None
        }
    } else {
        None
    }
}

/// The per-frame thumb pass for one scrollbar: the extent and position its
/// thumb children should be given along the scrollbar's axis, or `None`
/// when the scrollbar or its target has no usable layout this frame.
pub fn update_scrollbar_thumb(w: &UiWorld, e: Entity) -> (r: Option<ThumbLayout>)
    requires
        wf(w@),
    ensures
        r == scrollbar_thumb_layout_spec(w@, e),
{
    if !w.is_live(e) {
        return None;
    }
    let rec = w.node_at(e);
    let (sb, g) = match (rec.widget, rec.geom) {
        (Widget::Scrollbar(sb), Some(g)) => (sb, g),
        _ => {
            return None;
        },
    };
    if !w.is_live(sb.target) {
        return None;
    }
    let trec = w.node_at(sb.target);
    let (sp, cg) = match (trec.scroll, trec.geom) {
        (Some(sp), Some(cg)) => (sp, cg),
        _ => {
            return None;
        },
    };
    proof {
        assert(rec_wf(w@, e.0 as int));
        assert(rec_wf(w@, sb.target.0 as int));
    }
    match sb.orientation {
        Orientation::Horizontal => Some(
            thumb_geometry(g.size_x, cg.size_x, cg.content_x, sp.offset_x, sb.min_thumb_size),
        ),
        Orientation::Vertical => Some(
            thumb_geometry(g.size_y, cg.size_y, cg.content_y, sp.offset_y, sb.min_thumb_size),
        ),
    }
}

/// Law: when the content fits the viewport exactly, the thumb fills the
/// whole track, whatever the minimum thumb size; and when the content is
/// exactly twice the viewport, the thumb is half the track length, subject
/// to the minimum-thumb floor and the track-length cap.
pub proof fn lemma_thumb_sizing(track: int, visible: int, content: int, min_thumb: int)
    requires
        track >= 0,
        visible >= 0,
        min_thumb >= 0,
    ensures
        content == visible ==> spec_thumb_size(track, visible, content, min_thumb) == track,
        visible > 0 && content == 2 * visible ==> ({
            let half = track / 2;
            let floored = if half < min_thumb {
                min_thumb
            } else {
                half
            };
            spec_thumb_size(track, visible, content, min_thumb) == (if floored > track {
                track
            } else {
                floored
            })
        }),
{
    if visible > 0 && content == 2 * visible {
        vstd::arithmetic::mul::lemma_mul_nonnegative(track, visible);
        vstd::arithmetic::div_mod::lemma_div_by_multiple(track, visible);
        vstd::arithmetic::div_mod::lemma_div_denominator(track * visible, visible, 2);
        assert(track * visible / content == track / 2);
    }
}

/// One axis of a thumb drag, executed: `base + (delta * content) / width`
/// clamped into `[0, range]`.
fn drag_axis_offset(base: i64, delta: i64, content: i64, width: i64, range: i64) -> (r: i64)
    requires
        width >= 1,
        content >= 0,
        range >= 0,
    ensures
        r == scrollbar_drag_offset(base, delta, content as int, width as int, range as int),
{
    if range > 0 {
        let m = linear_map_sat(base, delta, content, width);
        clamp_i64(m, 0, range)
    } else {
        0
    }
}

/// Observer for the pointer going down on a scrollbar thumb or track.
pub fn scrollbar_on_pointer_down(w: &UiWorld, e: Entity) -> (r: Response)
    requires
        wf(w@),
    ensures
        ({
            let s = scrollbar_pressed_spec(w@, e);
            &&& s.world == w@
            &&& r.halt == s.halt
            &&& r.actions@ == s.actions
            &&& r.bubble_click == s.bubble_click
        }),
{
    if !w.is_live(e) {
        return Response::noop();
    }
    let rec = w.node_at(e);
    match rec.widget {
        Widget::ScrollbarThumb(_) => {
            // A press on the thumb is handled by the drag gesture.
            Response { halt: true, actions: Vec::new(), bubble_click: None }
        },
        Widget::Scrollbar(_) => {
            // A press on the track is reserved for page-up / page-down.
            Response { halt: true, actions: Vec::new(), bubble_click: None }
        },
        _ => Response::noop(),
    }
}

/// Observer for the start of a drag gesture on a scrollbar thumb or a
/// scroll area.
pub fn scrollbar_on_drag_start(w: &mut UiWorld, e: Entity) -> (r: Response)
    requires
        wf(old(w)@),
    ensures
        wf(final(w)@),
        ({
            let s = scrollbar_drag_start_spec(old(w)@, e);
            &&& final(w)@ == s.world
            &&& r.halt == s.halt
            &&& r.actions@ == s.actions
            &&& r.bubble_click == s.bubble_click
        }),
{
    if !w.is_live(e) {
        return Response::noop();
    }
    let rec = w.node_at(e);
    match rec.widget {
        Widget::ScrollbarThumb(_) => {
            let p = match rec.parent {
                Some(p) => p,
                None => {
                    return Response::noop();
                },
            };
            if w.is_live(p) {
                let prec = w.node_at(p);
                if let Widget::Scrollbar(sb) = prec.widget {
                    if w.is_live(sb.target) {
                        let trec = w.node_at(sb.target);
                        if let Widget::ScrollArea(_) = trec.widget {
                            proof {
                                assert(rec_wf(old(w)@, sb.target.0 as int));
                            }
                            let mut trec2 = trec;
                            trec2.scrollbar_drag = Some(
                                ScrollbarDragState { dragging: true, offset: trec.scroll.unwrap() },
                            );
                            w.set_node(sb.target, trec2);
                            proof {
                                assert(wf(w@)) by {
                                    assert forall|i: int|
                                        0 <= i < w@.nodes.len() implies #[trigger] rec_wf(
                                        w@,
                                        i,
                                    ) by {
                                        assert(rec_wf(old(w)@, i));
                                    }
                                }
                            }
                        }
                    }
                }
            }
            Response { halt: true, actions: Vec::new(), bubble_click: None }
        },
        Widget::ScrollArea(_) => {
            proof {
                assert(rec_wf(old(w)@, e.0 as int));
            }
            let mut rec2 = rec;
            rec2.scrollbar_drag = Some(
                ScrollbarDragState { dragging: true, offset: rec.scroll.unwrap() },
            );
            w.set_node(e, rec2);
            proof {
                assert(wf(w@)) by {
                    assert forall|i: int| 0 <= i < w@.nodes.len() implies #[trigger] rec_wf(
                        w@,
                        i,
                    ) by {
                        assert(rec_wf(old(w)@, i));
                    }
                }
            }
            Response { halt: true, actions: Vec::new(), bubble_click: None }
        },
        _ => Response::noop(),
    }
}

/// Observer for a drag displacement on a scrollbar or a scroll area.
pub fn scrollbar_on_drag(w: &mut UiWorld, e: Entity, delta: Delta) -> (r: Response)
    requires
        wf(old(w)@),
    ensures
        wf(final(w)@),
        ({
            let s = scrollbar_drag_spec(old(w)@, e, delta);
            &&& final(w)@ == s.world
            &&& r.halt == s.halt
            &&& r.actions@ == s.actions
            &&& r.bubble_click == s.bubble_click
        }),
{
    if !w.is_live(e) {
        return Response::noop();
    }
    let rec = w.node_at(e);
    match (rec.widget, rec.geom) {
        (Widget::Scrollbar(sb), Some(g)) => {
            if w.is_live(sb.target) {
                let trec = w.node_at(sb.target);
                match (trec.widget, trec.geom) {
                    (Widget::ScrollArea(_), Some(cg)) => {
                        proof {
                            assert(rec_wf(old(w)@, sb.target.0 as int));
                            assert(rec_wf(old(w)@, e.0 as int));
                        }
                        let drag = trec.scrollbar_drag.unwrap();
                        if drag.dragging {
                            let sp = trec.scroll.unwrap();
                            let new_scroll = match sb.orientation {
                                Orientation::Horizontal => {
                                    let raw_track = g.size_x - sb.min_thumb_size;
                                    let width = if raw_track < 1 {
                                        1
                                    } else {
                                        raw_track
                                    };
                                    let raw_range = cg.content_x - cg.size_x;
                                    let range = if raw_range < 0 {
                                        0
                                    } else {
                                        raw_range
                                    };
                                    ScrollPosition {
                                        offset_x: drag_axis_offset(
                                            drag.offset.offset_x,
                                            delta.x,
                                            cg.content_x,
                                            width,
                                            range,
                                        ),
                                        offset_y: sp.offset_y,
                                    }
                                },
                                Orientation::Vertical => {
                                    let raw_track = g.size_y - sb.min_thumb_size;
                                    let width = if raw_track < 1 {
                                        1
                                    } else {
                                        raw_track
                                    };
                                    let raw_range = cg.content_y - cg.size_y;
                                    let range = if raw_range < 0 {
                                        0
                                    } else {
                                        raw_range
                                    };
                                    ScrollPosition {
                                        offset_x: sp.offset_x,
                                        offset_y: drag_axis_offset(
                                            drag.offset.offset_y,
                                            delta.y,
                                            cg.content_y,
                                            width,
                                            range,
                                        ),
                                    }
                                },
                            };
                            proof {
                                assert(new_scroll == scrollbar_dragged_scroll(old(w)@, e, delta));
                            }
                            let mut trec2 = trec;
                            trec2.scroll = Some(new_scroll);
                            w.set_node(sb.target, trec2);
                            proof {
                                assert(wf(w@)) by {
                                    assert forall|i: int|
                                        0 <= i < w@.nodes.len() implies #[trigger] rec_wf(
                                        w@,
                                        i,
                                    ) by {
                                        assert(rec_wf(old(w)@, i));
                                    }
                                }
                            }
                        }
                    },
                    _ => {},
                }
            }
            Response { halt: true, actions: Vec::new(), bubble_click: None }
        },
        (Widget::ScrollArea(_), Some(cg)) => {
            proof {
                assert(rec_wf(old(w)@, e.0 as int));
            }
            let drag = rec.scrollbar_drag.unwrap();
            if drag.dragging {
                let xraw = cg.content_x - cg.size_x;
                let xr = if xraw < 0 {
                    0
                } else {
                    xraw
                };
                let yraw = cg.content_y - cg.size_y;
                let yr = if yraw < 0 {
                    0
                } else {
                    yraw
                };
                let nx: i64 = if xr > 0 {
                    let wide: i128 = (drag.offset.offset_x as i128) - (delta.x as i128);
                    if wide < 0 {
                        0
                    } else if wide > xr as i128 {
                        xr
                    } else {
                        wide as i64
                    }
                } else {
                    0
                };
                let ny: i64 = if yr > 0 {
                    let wide: i128 = (drag.offset.offset_y as i128) - (delta.y as i128);
                    if wide < 0 {
                        0
                    } else if wide > yr as i128 {
                        yr
                    } else {
                        wide as i64
                    }
                } else {
                    0
                };
                let new_scroll = ScrollPosition { offset_x: nx, offset_y: ny };
                proof {
                    assert(new_scroll == area_dragged_scroll(old(w)@, e, delta));
                }
                let mut rec2 = rec;
                rec2.scroll = Some(new_scroll);
                w.set_node(e, rec2);
                proof {
                    assert(wf(w@)) by {
                        assert forall|i: int| 0 <= i < w@.nodes.len() implies #[trigger] rec_wf(
                            w@,
                            i,
                        ) by {
                            assert(rec_wf(old(w)@, i));
                        }
                    }
                }
            }
            Response::noop()
        },
        _ => Response::noop(),
    }
}

/// Observer for the end of a drag gesture on a scrollbar thumb or a scroll
/// area.
pub fn scrollbar_on_drag_end(w: &mut UiWorld, e: Entity) -> (r: Response)
    requires
        wf(old(w)@),
    ensures
        wf(final(w)@),
        ({
            let s = scrollbar_drag_end_spec(old(w)@, e);
            &&& final(w)@ == s.world
            &&& r.halt == s.halt
            &&& r.actions@ == s.actions
            &&& r.bubble_click == s.bubble_click
        }),
{
    if !w.is_live(e) {
        return Response::noop();
    }
    let rec = w.node_at(e);
    match rec.widget {
        Widget::ScrollbarThumb(_) => {
            let p = match rec.parent {
                Some(p) => p,
                None => {
                    return Response::noop();
                },
            };
            if w.is_live(p) {
                let prec = w.node_at(p);
                if let Widget::Scrollbar(sb) = prec.widget {
                    if w.is_live(sb.target) {
                        let trec = w.node_at(sb.target);
                        if let Widget::ScrollArea(_) = trec.widget {
                            proof {
                                assert(rec_wf(old(w)@, sb.target.0 as int));
                            }
                            let drag = trec.scrollbar_drag.unwrap();
                            let mut trec2 = trec;
                            trec2.scrollbar_drag = Some(
                                ScrollbarDragState { dragging: false, offset: drag.offset },
                            );
                            w.set_node(sb.target, trec2);
                            proof {
                                assert(wf(w@)) by {
                                    assert forall|i: int|
                                        0 <= i < w@.nodes.len() implies #[trigger] rec_wf(
                                        w@,
                                        i,
                                    ) by {
                                        assert(rec_wf(old(w)@, i));
                                    }
                                }
                            }
                        }
                    }
                }
            }
            Response { halt: true, actions: Vec::new(), bubble_click: None }
        },
        Widget::ScrollArea(_) => {
            proof {
                assert(rec_wf(old(w)@, e.0 as int));
            }
            let drag = rec.scrollbar_drag.unwrap();
            let mut rec2 = rec;
            rec2.scrollbar_drag = Some(ScrollbarDragState { dragging: false, offset: drag.offset });
            w.set_node(e, rec2);
            proof {
                assert(wf(w@)) by {
                    assert forall|i: int| 0 <= i < w@.nodes.len() implies #[trigger] rec_wf(
                        w@,
                        i,
                    ) by {
                        assert(rec_wf(old(w)@, i));
                    }
                }
            }
            Response { halt: true, actions: Vec::new(), bubble_click: None }
        },
        _ => Response::noop(),
    }
}

} // verus!
