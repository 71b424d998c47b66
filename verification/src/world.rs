//! The widget world: an arena of entities, each a bundle of interaction
//! components, linked into a tree by parent handles. All relationships are
//! indices into the arena; a handle that resolves to nothing is an ordinary,
//! cheap-to-check condition, never an error.

use vstd::prelude::*;
use crate::core_button::CoreButton;
use crate::core_checkbox::CoreCheckbox;
use crate::core_radio::CoreRadio;
use crate::core_radio_group::CoreRadioGroup;
use crate::core_scrollbar::{CoreScrollArea, CoreScrollbar, CoreScrollbarThumb, ScrollPosition,
    ScrollbarDragState};
use crate::core_slider::{CoreSlider, SliderDragState};
use crate::entity::Entity;
use crate::hover::Hovering;
use crate::interaction_states::{ButtonPressed, Checked, InteractionDisabled};
use crate::math::spec_clamp;

verus! {

/// The computed layout of an entity, in logical pixels: its own extent and,
/// for scrollable containers, the extent of its content.
#[derive(Clone, Copy, Debug, PartialEq, Eq, Structural)]
pub struct NodeGeom {
    pub size_x: i64,
    pub size_y: i64,
    pub content_x: i64,
    pub content_y: i64,
}

/// The model of an entity's accessibility node: the pieces of assistive
/// state this library maintains. The embedding application mirrors this
/// record into its accessibility tree.
#[derive(Clone, Copy, Debug, PartialEq, Eq, Structural)]
pub struct AccessState {
    /// The toggled / checked state; `None` when the property is unset.
    pub toggled: Option<bool>,
    /// Whether the entity is reported as disabled.
    pub disabled: bool,
    /// Numeric range state, mirrored from a slider.
    pub numeric_value: Option<i64>,
    pub numeric_min: Option<i64>,
    pub numeric_max: Option<i64>,
    pub numeric_step: Option<i64>,
    /// Whether the entity is reported with a horizontal orientation.
    pub horizontal: bool,
}

impl AccessState {
    /// A fresh accessibility node with nothing set.
    pub open spec fn spec_empty() -> AccessState {
        AccessState {
            toggled: None,
            disabled: false,
            numeric_value: None,
            numeric_min: None,
            numeric_max: None,
            numeric_step: None,
            horizontal: false,
        }
    }

    pub fn empty() -> (r: AccessState)
        ensures
            r == AccessState::spec_empty(),
    {
        AccessState {
            toggled: None,
            disabled: false,
            numeric_value: None,
            numeric_min: None,
            numeric_max: None,
            numeric_step: None,
            horizontal: false,
        }
    }
}

/// The widget attached to an entity: a marker plus its configuration.
#[derive(Clone, Copy, Debug, PartialEq, Eq)]
pub enum Widget {
    /// No widget behaviour; a plain tree node.
    Plain,
    Button(CoreButton),
    Checkbox(CoreCheckbox),
    Radio(CoreRadio),
    RadioGroup(CoreRadioGroup),
    Slider(CoreSlider),
    Scrollbar(CoreScrollbar),
    ScrollbarThumb(CoreScrollbarThumb),
    ScrollArea(CoreScrollArea),
}

/// One entity: its tree link and the components attached to it.
#[derive(Clone, Copy, Debug, PartialEq, Eq)]
pub struct EntityRec {
    /// False once the entity is despawned; a dead slot never reacts.
    pub live: bool,
    /// The parent entity, or `None` for a root.
    pub parent: Option<Entity>,
    pub widget: Widget,
    pub checked: Option<Checked>,
    /// Presence of the `InteractionDisabled` marker.
    pub disabled: Option<InteractionDisabled>,
    pub pressed: Option<ButtonPressed>,
    pub hovering: Option<Hovering>,
    /// The cursor icon this entity declares, as an application-chosen id.
    pub cursor_icon: Option<u32>,
    pub access: Option<AccessState>,
    pub slider_drag: Option<SliderDragState>,
    pub scrollbar_drag: Option<ScrollbarDragState>,
    pub scroll: Option<ScrollPosition>,
    pub geom: Option<NodeGeom>,
}

/// The mathematical view of a world: the arena contents plus the two pieces
/// of process-wide focus state.
pub struct WorldView {
    pub nodes: Seq<EntityRec>,
    pub focus: Option<Entity>,
    pub focus_visible: bool,
}

/// Whether `e` names a slot of the arena.
pub open spec fn valid(v: WorldView, e: Entity) -> bool {
    e.0 < v.nodes.len()
}

/// The record in `e`'s slot.
pub open spec fn rec_of(v: WorldView, e: Entity) -> EntityRec {
    v.nodes[e.0 as int]
}

/// Whether `e` resolves to a live entity.
pub open spec fn is_live(v: WorldView, e: Entity) -> bool {
    valid(v, e) && rec_of(v, e).live
}

/// Whether `e` carries the `InteractionDisabled` marker.
pub open spec fn is_disabled(v: WorldView, e: Entity) -> bool {
    rec_of(v, e).disabled is Some
}

/// Whether `a` is `e` or one of `e`'s ancestors, following live parent links.
pub open spec fn in_chain(v: WorldView, e: Entity, a: Entity) -> bool
    decreases e.0,
{
    is_live(v, e) && (e == a || match rec_of(v, e).parent {
        Some(p) => p.0 < e.0 && in_chain(v, p, a),
        None => false,
    })
}

/// The propagation chain of `e`: `e` itself, then its live ancestors in
/// order, ending at the first entity without a live parent.
pub open spec fn chain(v: WorldView, e: Entity) -> Seq<Entity>
    decreases e.0,
{
    if !is_live(v, e) {
        Seq::empty()
    } else {
        match rec_of(v, e).parent {
            Some(p) => {
                if p.0 < e.0 && is_live(v, p) {
                    seq![e] + chain(v, p)
                } else {
                    seq![e]
                }
            },
            None => seq![e],
        }
    }
}

/// Validity of one slot: the parent was spawned earlier, and the components
/// a widget's behaviour relies on are present and consistent.
pub open spec fn rec_wf(v: WorldView, i: int) -> bool {
    let r = v.nodes[i];
    &&& (r.parent matches Some(p) ==> p.0 < i)
    &&& (r.widget matches Widget::Slider(s) ==> s.wf() && r.slider_drag is Some && r.access is Some)
    &&& (r.widget matches Widget::Checkbox(_) ==> r.checked is Some && r.access is Some)
    &&& (r.widget matches Widget::Radio(_) ==> r.checked is Some && r.access is Some)
    &&& (r.widget matches Widget::RadioGroup(_) ==> r.access is Some)
    &&& (r.widget matches Widget::Button(_) ==> r.pressed is Some)
    &&& (r.widget matches Widget::Scrollbar(sb) ==> sb.min_thumb_size >= 0)
    &&& (r.widget matches Widget::ScrollArea(_) ==> r.scroll is Some && r.scrollbar_drag is Some)
    &&& (r.geom matches Some(g) ==> g.size_x >= 0 && g.size_y >= 0 && g.content_x >= 0
        && g.content_y >= 0)
    &&& (r.access matches Some(a) ==> {
        &&& a.disabled == (r.disabled is Some)
        &&& (r.checked matches Some(c) ==> a.toggled == Some(c.0))
    })
}

/// The world invariant: every slot is valid. In particular, every entity's
/// checked state agrees with its accessibility toggled state, and its
/// disabled marker agrees with its accessibility disabled flag, at all times.
pub open spec fn wf(v: WorldView) -> bool {
    forall|i: int| 0 <= i < v.nodes.len() ==> #[trigger] rec_wf(v, i)
}

/// The widget world: the entity arena plus process-wide focus state (the
/// currently focused entity and whether the focus ring should be visible).
pub struct UiWorld {
    pub(crate) nodes: Vec<EntityRec>,
    pub(crate) focus: Option<Entity>,
    pub(crate) focus_visible: bool,
}

impl View for UiWorld {
    type V = WorldView;

    closed spec fn view(&self) -> WorldView {
        WorldView { nodes: self.nodes@, focus: self.focus, focus_visible: self.focus_visible }
    }
}

/// The record a freshly spawned entity of kind `widget` starts with: the
/// components the widget's behaviour requires, in their initial state.
pub open spec fn spec_initial_rec(parent: Option<Entity>, widget: Widget) -> EntityRec {
    EntityRec {
        live: true,
        parent,
        widget,
        checked: match widget {
            Widget::Checkbox(_) | Widget::Radio(_) => Some(Checked(false)),
            _ => None,
        },
        disabled: None,
        pressed: match widget {
            Widget::Button(_) => Some(ButtonPressed(false)),
            _ => None,
        },
        hovering: None,
        cursor_icon: None,
        access: match widget {
            Widget::Checkbox(_) | Widget::Radio(_) => Some(
                AccessState { toggled: Some(false), ..AccessState::spec_empty() },
            ),
            Widget::RadioGroup(_) | Widget::Slider(_) => Some(AccessState::spec_empty()),
            _ => None,
        },
        slider_drag: match widget {
            Widget::Slider(_) => Some(SliderDragState { dragging: false, offset: 0 }),
            _ => None,
        },
        scrollbar_drag: match widget {
            Widget::ScrollArea(_) => Some(
                ScrollbarDragState {
                    dragging: false,
                    offset: ScrollPosition { offset_x: 0, offset_y: 0 },
                },
            ),
            _ => None,
        },
        scroll: match widget {
            Widget::ScrollArea(_) => Some(ScrollPosition { offset_x: 0, offset_y: 0 }),
            _ => None,
        },
        geom: None,
    }
}

/// Whether two widget values are of the same kind (possibly with different
/// configuration).
pub open spec fn same_widget_kind(a: Widget, b: Widget) -> bool {
    match (a, b) {
        (Widget::Plain, Widget::Plain) => true,
        (Widget::Button(_), Widget::Button(_)) => true,
        (Widget::Checkbox(_), Widget::Checkbox(_)) => true,
        (Widget::Radio(_), Widget::Radio(_)) => true,
        (Widget::RadioGroup(_), Widget::RadioGroup(_)) => true,
        (Widget::Slider(_), Widget::Slider(_)) => true,
        (Widget::Scrollbar(_), Widget::Scrollbar(_)) => true,
        (Widget::ScrollbarThumb(_), Widget::ScrollbarThumb(_)) => true,
        (Widget::ScrollArea(_), Widget::ScrollArea(_)) => true,
        _ => false,
    }
}

/// Validity of a widget configuration handed in from outside.
pub open spec fn widget_wf(widget: Widget) -> bool {
    &&& (widget matches Widget::Slider(s) ==> s.wf())
    &&& (widget matches Widget::Scrollbar(sb) ==> sb.min_thumb_size >= 0)
}

impl UiWorld {
    /// An empty world: no entities, nothing focused.
    pub fn new() -> (r: UiWorld)
        ensures
            r@.nodes.len() == 0,
            r@.focus is None,
            !r@.focus_visible,
            wf(r@),
    {
        UiWorld { nodes: Vec::new(), focus: None, focus_visible: false }
    }

    /// The number of slots in the arena (live or despawned).
    pub fn entity_count(&self) -> (r: usize)
        ensures
            r == self@.nodes.len(),
    {
        self.nodes.len()
    }

    /// Spawn a new entity carrying `widget`, as a child of `parent` when one
    /// is given. The new entity starts with the components its widget kind
    /// requires: checkboxes and radios get an unchecked `Checked` state and
    /// an accessibility node (kept in sync from the start), sliders get drag
    /// state and an accessibility node, scroll areas get a zero scroll
    /// offset and drag state, buttons get a released `ButtonPressed`.
    pub fn spawn(&mut self, parent: Option<Entity>, widget: Widget) -> (r: Entity)
        requires
            wf(old(self)@),
            parent matches Some(p) ==> valid(old(self)@, p),
            widget_wf(widget),
            old(self)@.nodes.len() < usize::MAX,
        ensures
            wf(final(self)@),
            r.0 == old(self)@.nodes.len(),
            final(self)@.nodes == old(self)@.nodes.push(spec_initial_rec(parent, widget)),
            final(self)@.focus == old(self)@.focus,
            final(self)@.focus_visible == old(self)@.focus_visible,
    {
        let id = self.nodes.len();
        let rec = EntityRec {
            live: true,
            parent,
            widget,
            checked: match widget {
                Widget::Checkbox(_) | Widget::Radio(_) => Some(Checked(false)),
                _ => None,
            },
            disabled: None,
            pressed: match widget {
                Widget::Button(_) => Some(ButtonPressed(false)),
                _ => None,
            },
            hovering: None,
            cursor_icon: None,
            access: match widget {
                Widget::Checkbox(_) | Widget::Radio(_) => {
                    let mut a = AccessState::empty();
                    a.toggled = Some(false);
                    Some(a)
                },
                Widget::RadioGroup(_) | Widget::Slider(_) => Some(AccessState::empty()),
                _ => None,
            },
            slider_drag: match widget {
                Widget::Slider(_) => Some(SliderDragState { dragging: false, offset: 0 }),
                _ => None,
            },
            scrollbar_drag: match widget {
                Widget::ScrollArea(_) => Some(
                    ScrollbarDragState {
                        dragging: false,
                        offset: ScrollPosition { offset_x: 0, offset_y: 0 },
                    },
                ),
                _ => None,
            },
            scroll: match widget {
                Widget::ScrollArea(_) => Some(ScrollPosition { offset_x: 0, offset_y: 0 }),
                _ => None,
            },
            geom: None,
        };
        proof {
            assert(rec == spec_initial_rec(parent, widget));
        }
        self.nodes.push(rec);
        proof {
            assert forall|i: int| 0 <= i < self@.nodes.len() implies #[trigger] rec_wf(
                self@,
                i,
            ) by {
                if i < old(self)@.nodes.len() {
                    assert(rec_wf(old(self)@, i));
                    assert(self@.nodes[i] == old(self)@.nodes[i]);
                }
            }
        }
        Entity(id)
    }

    /// Despawn an entity: the slot stays, but the entity no longer reacts to
    /// anything and no longer counts as anyone's child. References to it
    /// (a scrollbar's target, a stale parent link) now resolve to nothing.
    pub fn despawn(&mut self, e: Entity)
        requires
            wf(old(self)@),
            valid(old(self)@, e),
        ensures
            wf(final(self)@),
            final(self)@.nodes == old(self)@.nodes.update(
                e.0 as int,
                EntityRec { live: false, ..old(self)@.nodes[e.0 as int] },
            ),
            final(self)@.focus == old(self)@.focus,
            final(self)@.focus_visible == old(self)@.focus_visible,
    {
        let mut rec = self.nodes[e.0];
        rec.live = false;
        self.nodes.set(e.0, rec);
        proof {
            assert forall|i: int| 0 <= i < self@.nodes.len() implies #[trigger] rec_wf(
                self@,
                i,
            ) by {
                assert(rec_wf(old(self)@, i));
            }
        }
    }

    /// Write the checked state of a checkbox or radio entity. As part of the
    /// same mutation, the accessibility toggled state is re-derived, so the
    /// two are never observed out of sync; rewriting an unchanged value is
    /// harmless.
    pub fn set_checked(&mut self, e: Entity, value: bool)
        requires
            wf(old(self)@),
            is_live(old(self)@, e),
            rec_of(old(self)@, e).checked is Some,
            rec_of(old(self)@, e).access is Some,
        ensures
            wf(final(self)@),
            final(self)@.nodes == old(self)@.nodes.update(
                e.0 as int,
                EntityRec {
                    checked: Some(Checked(value)),
                    access: Some(
                        AccessState {
                            toggled: Some(value),
                            ..rec_of(old(self)@, e).access->Some_0
                        },
                    ),
                    ..rec_of(old(self)@, e)
                },
            ),
            final(self)@.focus == old(self)@.focus,
            final(self)@.focus_visible == old(self)@.focus_visible,
    {
        let mut rec = self.nodes[e.0];
        rec.checked = Some(Checked(value));
        let mut a = rec.access.unwrap();
        a.toggled = Some(value);
        rec.access = Some(a);
        self.nodes.set(e.0, rec);
        proof {
            assert forall|i: int| 0 <= i < self@.nodes.len() implies #[trigger] rec_wf(
                self@,
                i,
            ) by {
                assert(rec_wf(old(self)@, i));
            }
        }
    }

    /// Add the `InteractionDisabled` marker to an entity. When the entity
    /// has an accessibility node, its disabled flag is set as part of the
    /// same mutation, never deferred.
    pub fn insert_disabled(&mut self, e: Entity)
        requires
            wf(old(self)@),
            valid(old(self)@, e),
        ensures
            wf(final(self)@),
            final(self)@.nodes == old(self)@.nodes.update(
                e.0 as int,
                EntityRec {
                    disabled: Some(InteractionDisabled),
                    access: match rec_of(old(self)@, e).access {
                        Some(a) => Some(AccessState { disabled: true, ..a }),
                        None => None,
                    },
                    ..rec_of(old(self)@, e)
                },
            ),
            final(self)@.focus == old(self)@.focus,
            final(self)@.focus_visible == old(self)@.focus_visible,
    {
        let mut rec = self.nodes[e.0];
        rec.disabled = Some(InteractionDisabled);
        if let Some(a) = rec.access {
            let mut a2 = a;
            a2.disabled = true;
            rec.access = Some(a2);
        }
        self.nodes.set(e.0, rec);
        proof {
            assert forall|i: int| 0 <= i < self@.nodes.len() implies #[trigger] rec_wf(
                self@,
                i,
            ) by {
                assert(rec_wf(old(self)@, i));
            }
        }
    }

    /// Remove the `InteractionDisabled` marker from an entity, clearing the
    /// accessibility disabled flag in the same mutation.
    pub fn remove_disabled(&mut self, e: Entity)
        requires
            wf(old(self)@),
            valid(old(self)@, e),
        ensures
            wf(final(self)@),
            final(self)@.nodes == old(self)@.nodes.update(
                e.0 as int,
                EntityRec {
                    disabled: None,
                    access: match rec_of(old(self)@, e).access {
                        Some(a) => Some(AccessState { disabled: false, ..a }),
                        None => None,
                    },
                    ..rec_of(old(self)@, e)
                },
            ),
            final(self)@.focus == old(self)@.focus,
            final(self)@.focus_visible == old(self)@.focus_visible,
    {
        let mut rec = self.nodes[e.0];
        rec.disabled = None;
        if let Some(a) = rec.access {
            let mut a2 = a;
            a2.disabled = false;
            rec.access = Some(a2);
        }
        self.nodes.set(e.0, rec);
        proof {
            assert forall|i: int| 0 <= i < self@.nodes.len() implies #[trigger] rec_wf(
                self@,
                i,
            ) by {
                assert(rec_wf(old(self)@, i));
            }
        }
    }

    /// Record the computed layout of an entity, as refreshed once per frame
    /// by the external layout engine.
    pub fn set_geometry(&mut self, e: Entity, geom: NodeGeom)
        requires
            wf(old(self)@),
            valid(old(self)@, e),
            geom.size_x >= 0,
            geom.size_y >= 0,
            geom.content_x >= 0,
            geom.content_y >= 0,
        ensures
            wf(final(self)@),
            final(self)@.nodes == old(self)@.nodes.update(
                e.0 as int,
                EntityRec { geom: Some(geom), ..rec_of(old(self)@, e) },
            ),
            final(self)@.focus == old(self)@.focus,
            final(self)@.focus_visible == old(self)@.focus_visible,
    {
        let mut rec = self.nodes[e.0];
        rec.geom = Some(geom);
        self.nodes.set(e.0, rec);
        proof {
            assert forall|i: int| 0 <= i < self@.nodes.len() implies #[trigger] rec_wf(
                self@,
                i,
            ) by {
                assert(rec_wf(old(self)@, i));
            }
        }
    }

    /// Write a scroll area's offset directly (the receiver side of a scroll
    /// change, or application-driven scrolling).
    pub fn set_scroll_offset(&mut self, e: Entity, offset_x: i64, offset_y: i64)
        requires
            wf(old(self)@),
            valid(old(self)@, e),
            rec_of(old(self)@, e).scroll is Some,
        ensures
            wf(final(self)@),
            final(self)@.nodes == old(self)@.nodes.update(
                e.0 as int,
                EntityRec {
                    scroll: Some(ScrollPosition { offset_x, offset_y }),
                    ..rec_of(old(self)@, e)
                },
            ),
            final(self)@.focus == old(self)@.focus,
            final(self)@.focus_visible == old(self)@.focus_visible,
    {
        let mut rec = self.nodes[e.0];
        rec.scroll = Some(ScrollPosition { offset_x, offset_y });
        self.nodes.set(e.0, rec);
        proof {
            assert forall|i: int| 0 <= i < self@.nodes.len() implies #[trigger] rec_wf(
                self@,
                i,
            ) by {
                assert(rec_wf(old(self)@, i));
            }
        }
    }

    /// Opt an entity into hover tracking; the flag starts false and is
    /// recomputed by `update_hover_states` every frame.
    pub fn insert_hovering(&mut self, e: Entity)
        requires
            wf(old(self)@),
            valid(old(self)@, e),
        ensures
            wf(final(self)@),
            final(self)@.nodes == old(self)@.nodes.update(
                e.0 as int,
                EntityRec { hovering: Some(Hovering(false)), ..rec_of(old(self)@, e) },
            ),
            final(self)@.focus == old(self)@.focus,
            final(self)@.focus_visible == old(self)@.focus_visible,
    {
        let mut rec = self.nodes[e.0];
        rec.hovering = Some(Hovering(false));
        self.nodes.set(e.0, rec);
        proof {
            assert forall|i: int| 0 <= i < self@.nodes.len() implies #[trigger] rec_wf(
                self@,
                i,
            ) by {
                assert(rec_wf(old(self)@, i));
            }
        }
    }

    /// Declare the cursor icon shown while this entity (or a descendant) is
    /// hovered, as an application-chosen icon id.
    pub fn set_cursor_icon(&mut self, e: Entity, icon: u32)
        requires
            wf(old(self)@),
            valid(old(self)@, e),
        ensures
            wf(final(self)@),
            final(self)@.nodes == old(self)@.nodes.update(
                e.0 as int,
                EntityRec { cursor_icon: Some(icon), ..rec_of(old(self)@, e) },
            ),
            final(self)@.focus == old(self)@.focus,
            final(self)@.focus_visible == old(self)@.focus_visible,
    {
        let mut rec = self.nodes[e.0];
        rec.cursor_icon = Some(icon);
        self.nodes.set(e.0, rec);
        proof {
            assert forall|i: int| 0 <= i < self@.nodes.len() implies #[trigger] rec_wf(
                self@,
                i,
            ) by {
                assert(rec_wf(old(self)@, i));
            }
        }
    }

    /// Replace a widget's configuration wholesale (the owning application
    /// may do this at any time). The widget's kind stays what it was: the
    /// components spawned for it remain the right ones. The receiver side of
    /// a slider `ValueChange` uses `set_slider_value` instead.
    pub fn replace_widget(&mut self, e: Entity, widget: Widget)
        requires
            wf(old(self)@),
            valid(old(self)@, e),
            same_widget_kind(rec_of(old(self)@, e).widget, widget),
            widget_wf(widget),
        ensures
            wf(final(self)@),
            final(self)@.nodes == old(self)@.nodes.update(
                e.0 as int,
                EntityRec { widget, ..rec_of(old(self)@, e) },
            ),
            final(self)@.focus == old(self)@.focus,
            final(self)@.focus_visible == old(self)@.focus_visible,
    {
        let mut rec = self.nodes[e.0];
        rec.widget = widget;
        self.nodes.set(e.0, rec);
        proof {
            assert forall|i: int| 0 <= i < self@.nodes.len() implies #[trigger] rec_wf(
                self@,
                i,
            ) by {
                assert(rec_wf(old(self)@, i));
            }
        }
    }

    /// The receiver side of a slider `ValueChange`: store the (possibly
    /// unclamped) value, clamped into the slider's range.
    pub fn set_slider_value(&mut self, e: Entity, value: i64)
        requires
            wf(old(self)@),
            valid(old(self)@, e),
            rec_of(old(self)@, e).widget is Slider,
        ensures
            wf(final(self)@),
            ({
                let s = rec_of(old(self)@, e).widget->Slider_0;
                let stored = spec_clamp(value as int, s.min as int, s.max as int);
                final(self)@.nodes == old(self)@.nodes.update(
                    e.0 as int,
                    EntityRec {
                        widget: Widget::Slider(CoreSlider { value: stored as i64, ..s }),
                        ..rec_of(old(self)@, e)
                    },
                )
            }),
            final(self)@.focus == old(self)@.focus,
            final(self)@.focus_visible == old(self)@.focus_visible,
    {
        let mut rec = self.nodes[e.0];
        let mut s = match rec.widget {
            Widget::Slider(s) => s,
            _ => {
                proof {
                    assert(false);
                }
                CoreSlider::default()
            },
        };
        proof {
            assert(rec_wf(old(self)@, e.0 as int));
        }
        s.set_value(value);
        rec.widget = Widget::Slider(s);
        self.nodes.set(e.0, rec);
        proof {
            assert forall|i: int| 0 <= i < self@.nodes.len() implies #[trigger] rec_wf(
                self@,
                i,
            ) by {
                assert(rec_wf(old(self)@, i));
            }
        }
    }

    /// Mirror a slider's numeric state into its accessibility node: value,
    /// bounds, step, and the fixed horizontal orientation. Run once per
    /// frame, or on change.
    pub fn update_slider_a11y(&mut self, e: Entity)
        requires
            wf(old(self)@),
            valid(old(self)@, e),
            rec_of(old(self)@, e).widget is Slider,
        ensures
            wf(final(self)@),
            ({
                let s = rec_of(old(self)@, e).widget->Slider_0;
                let a = rec_of(old(self)@, e).access->Some_0;
                final(self)@.nodes == old(self)@.nodes.update(
                    e.0 as int,
                    EntityRec {
                        access: Some(
                            AccessState {
                                numeric_value: Some(s.value),
                                numeric_min: Some(s.min),
                                numeric_max: Some(s.max),
                                numeric_step: Some(s.increment),
                                horizontal: true,
                                ..a
                            },
                        ),
                        ..rec_of(old(self)@, e)
                    },
                )
            }),
            final(self)@.focus == old(self)@.focus,
            final(self)@.focus_visible == old(self)@.focus_visible,
    {
        proof {
            assert(rec_wf(old(self)@, e.0 as int));
        }
        let mut rec = self.nodes[e.0];
        let s = match rec.widget {
            Widget::Slider(s) => s,
            _ => {
                proof {
                    assert(false);
                }
                CoreSlider::default()
            },
        };
        let mut a = rec.access.unwrap();
        a.numeric_value = Some(s.value);
        a.numeric_min = Some(s.min);
        a.numeric_max = Some(s.max);
        a.numeric_step = Some(s.increment);
        a.horizontal = true;
        rec.access = Some(a);
        self.nodes.set(e.0, rec);
        proof {
            assert forall|i: int| 0 <= i < self@.nodes.len() implies #[trigger] rec_wf(
                self@,
                i,
            ) by {
                assert(rec_wf(old(self)@, i));
            }
        }
    }

    /// Read an entity's record. Crate-internal: the widget observers read
    /// components through this.
    pub(crate) fn node_at(&self, e: Entity) -> (r: EntityRec)
        requires
            valid(self@, e),
        ensures
            r == rec_of(self@, e),
    {
        self.nodes[e.0]
    }

    /// Whether `e` names a slot of the arena.
    pub fn is_valid(&self, e: Entity) -> (r: bool)
        ensures
            r == valid(self@, e),
    {
        e.0 < self.nodes.len()
    }

    /// Whether `e` resolves to a live entity.
    pub fn is_live(&self, e: Entity) -> (r: bool)
        ensures
            r == is_live(self@, e),
    {
        e.0 < self.nodes.len() && self.nodes[e.0].live
    }

    /// The checked state of an entity, when it has one.
    pub fn checked(&self, e: Entity) -> (r: Option<bool>)
        requires
            valid(self@, e),
        ensures
            r == match rec_of(self@, e).checked {
                Some(c) => Some(c.0),
                None => None::<bool>,
            },
    {
        match self.nodes[e.0].checked {
            Some(c) => Some(c.0),
            None => None,
        }
    }

    /// Whether an entity carries the `InteractionDisabled` marker.
    pub fn disabled(&self, e: Entity) -> (r: bool)
        requires
            valid(self@, e),
        ensures
            r == is_disabled(self@, e),
    {
        self.nodes[e.0].disabled.is_some()
    }

    /// The entity currently holding focus.
    pub fn focus(&self) -> (r: Option<Entity>)
        ensures
            r == self@.focus,
    {
        self.focus
    }

    /// Whether the focus ring should be visible (false after focus was
    /// acquired with the pointer rather than the keyboard).
    pub fn focus_visible(&self) -> (r: bool)
        ensures
            r == self@.focus_visible,
    {
        self.focus_visible
    }

    /// The hover flag of an entity that opted into hover tracking.
    pub fn hovering(&self, e: Entity) -> (r: Option<bool>)
        requires
            valid(self@, e),
        ensures
            r == match rec_of(self@, e).hovering {
                Some(h) => Some(h.0),
                None => None::<bool>,
            },
    {
        match self.nodes[e.0].hovering {
            Some(h) => Some(h.0),
            None => None,
        }
    }

    /// An entity's accessibility-node model, when it has one.
    pub fn access_state(&self, e: Entity) -> (r: Option<AccessState>)
        requires
            valid(self@, e),
        ensures
            r == rec_of(self@, e).access,
    {
        self.nodes[e.0].access
    }

    /// A slider entity's configuration and value.
    pub fn slider(&self, e: Entity) -> (r: Option<CoreSlider>)
        requires
            valid(self@, e),
        ensures
            r == match rec_of(self@, e).widget {
                Widget::Slider(s) => Some(s),
                _ => None::<CoreSlider>,
            },
    {
        match self.nodes[e.0].widget {
            Widget::Slider(s) => Some(s),
            _ => None,
        }
    }

    /// A slider entity's transient drag state.
    pub fn slider_drag(&self, e: Entity) -> (r: Option<SliderDragState>)
        requires
            valid(self@, e),
        ensures
            r == rec_of(self@, e).slider_drag,
    {
        self.nodes[e.0].slider_drag
    }

    /// A scroll area's current offset.
    pub fn scroll_offset(&self, e: Entity) -> (r: Option<ScrollPosition>)
        requires
            valid(self@, e),
        ensures
            r == rec_of(self@, e).scroll,
    {
        self.nodes[e.0].scroll
    }

    /// A scroll area's transient drag state.
    pub fn scrollbar_drag(&self, e: Entity) -> (r: Option<ScrollbarDragState>)
        requires
            valid(self@, e),
        ensures
            r == rec_of(self@, e).scrollbar_drag,
    {
        self.nodes[e.0].scrollbar_drag
    }

    /// A button entity's pressed state.
    pub fn pressed(&self, e: Entity) -> (r: Option<bool>)
        requires
            valid(self@, e),
        ensures
            r == match rec_of(self@, e).pressed {
                Some(p) => Some(p.0),
                None => None::<bool>,
            },
    {
        match self.nodes[e.0].pressed {
            Some(p) => Some(p.0),
            None => None,
        }
    }

    /// An entity's parent link, when it is live.
    pub fn parent_of(&self, e: Entity) -> (r: Option<Entity>)
        requires
            valid(self@, e),
        ensures
            r == rec_of(self@, e).parent,
    {
        self.nodes[e.0].parent
    }

    /// Write an entity's record. Crate-internal: the widget observers write
    /// components through this and re-establish the world invariant.
    pub(crate) fn set_node(&mut self, e: Entity, rec: EntityRec)
        requires
            valid(old(self)@, e),
        ensures
            final(self)@.nodes == old(self)@.nodes.update(e.0 as int, rec),
            final(self)@.focus == old(self)@.focus,
            final(self)@.focus_visible == old(self)@.focus_visible,
    {
        self.nodes.set(e.0, rec);
    }

    /// Move focus to `target` and set the ring visibility. Crate-internal:
    /// the widget observers acquire focus through this.
    pub(crate) fn set_focus(&mut self, target: Option<Entity>, visible: bool)
        ensures
            final(self)@.nodes == old(self)@.nodes,
            final(self)@.focus == target,
            final(self)@.focus_visible == visible,
    {
        self.focus = target;
        self.focus_visible = visible;
    }
}

} // verus!
