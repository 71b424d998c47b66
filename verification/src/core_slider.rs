//! A headless slider widget: a numeric value inside a configured range,
//! adjusted by dragging the thumb or by keyboard increments. The widget emits
//! `ValueChange` events carrying the new, unclamped value; the receiver is
//! responsible for clamping (and may quantize first) before storing it back
//! with `set_value`.

use vstd::prelude::*;
use crate::entity::{CallbackId, Entity};
use crate::events::{spec_noop, Action, Delta, Key, KeyInput, Response, SpecResponse, ValueChange};
use crate::math::{spec_clamp, spec_div_trunc, spec_sat64};
use crate::world::{is_disabled, is_live, rec_of, rec_wf, wf, EntityRec, UiWorld, Widget,
    WorldView};

verus! {

/// A position along a track, as an exact fraction `num / den` of the track
/// length, with `0 <= num <= den` and `den > 0`.
#[derive(Clone, Copy, Debug, PartialEq, Eq, Structural)]
pub struct Fraction {
    pub num: i64,
    pub den: i64,
}

/// Whether two fractions denote the same position.
pub open spec fn frac_eq(a: Fraction, b: Fraction) -> bool {
    a.num * b.den == b.num * a.den
}

/// Well-formedness of a fraction that denotes a position in `[0, 1]`.
pub open spec fn frac_wf(a: Fraction) -> bool {
    0 < a.den && 0 <= a.num <= a.den
}

/// Configuration and current value of a slider. The value lives in an
/// integer value space chosen by the application (for example hundredths).
#[derive(Clone, Copy, Debug, PartialEq, Eq)]
pub struct CoreSlider {
    /// Current value, always within `[min, max]`.
    pub value: i64,
    /// Lower bound of the range.
    pub min: i64,
    /// Upper bound of the range.
    pub max: i64,
    /// Step applied by the ArrowLeft / ArrowRight keys.
    pub increment: i64,
    /// Extent of the draggable thumb along the track, in logical pixels;
    /// subtracted from the track length when mapping pointer motion.
    pub thumb_size: i64,
    /// Callback to run on a change of value; `None` means a bubbling
    /// `ValueChange` event is emitted instead.
    pub on_change: Option<CallbackId>,
}

impl CoreSlider {
    /// Validity of a slider configuration: the value sits inside the range,
    /// the range's width is representable, and increment and thumb size are
    /// non-negative.
    pub open spec fn wf(self) -> bool {
        &&& self.min <= self.value <= self.max
        &&& self.max - self.min <= i64::MAX
        &&& self.increment >= 0
        &&& self.thumb_size >= 0
    }

    /// Get the current value of the slider.
    pub fn value(&self) -> (r: i64)
        ensures
            r == self.value,
    {
        self.value
    }

    /// Set the value of the slider, clamping it to the min and max values.
    pub fn set_value(&mut self, value: i64)
        requires
            old(self).min <= old(self).max,
        ensures
            final(self).value == spec_clamp(value as int, old(self).min as int, old(self).max as int),
            final(self).min == old(self).min,
            final(self).max == old(self).max,
            final(self).increment == old(self).increment,
            final(self).thumb_size == old(self).thumb_size,
            final(self).on_change == old(self).on_change,
            old(self).wf() ==> final(self).wf(),
    {
        self.value = crate::math::clamp_i64(value, self.min, self.max);
    }

    /// Set the minimum and maximum value of the slider, clamping the current
    /// value to the new range.
    pub fn set_range(&mut self, min: i64, max: i64)
        requires
            min <= max,
            max - min <= i64::MAX,
        ensures
            final(self).min == min,
            final(self).max == max,
            final(self).value == spec_clamp(old(self).value as int, min as int, max as int),
            final(self).increment == old(self).increment,
            final(self).thumb_size == old(self).thumb_size,
            final(self).on_change == old(self).on_change,
            old(self).increment >= 0 && old(self).thumb_size >= 0 ==> final(self).wf(),
    {
        self.min = min;
        self.max = max;
        self.value = crate::math::clamp_i64(self.value, min, max);
    }

    /// The thumb position that `thumb_position` computes: the value's offset
    /// into the range as a fraction of the range's width, or the midpoint
    /// when the range is degenerate.
    pub open spec fn spec_thumb_position(self) -> Fraction {
        if self.max > self.min {
            Fraction { num: (self.value - self.min) as i64, den: (self.max - self.min) as i64 }
        } else {
            Fraction { num: 1, den: 2 }
        }
    }

    /// Compute the position of the thumb on the slider, as an exact fraction
    /// of the track between 0 and 1.
    pub fn thumb_position(&self) -> (r: Fraction)
        requires
            self.wf(),
        ensures
            r == self.spec_thumb_position(),
            frac_wf(r),
    {
        if self.max > self.min {
            Fraction { num: self.value - self.min, den: self.max - self.min }
        } else {
            Fraction { num: 1, den: 2 }
        }
    }
}

impl Default for CoreSlider {
    /// A slider over `[0, 100]` with the value at the midpoint.
    fn default() -> (r: Self)
        ensures
            r.value == 50,
            r.min == 0,
            r.max == 100,
            r.increment == 1,
            r.thumb_size == 0,
            r.on_change.is_none(),
            r.wf(),
    {
        CoreSlider {
            value: 50,
            min: 0,
            max: 100,
            increment: 1,
            thumb_size: 0,
            on_change: None,
        }
    }
}

/// Component used to manage the state of a slider during dragging.
#[derive(Clone, Copy, Debug, PartialEq, Eq, Structural)]
pub struct SliderDragState {
    /// Whether the slider is currently being dragged.
    pub dragging: bool,
    /// The value of the slider when dragging started; the baseline that
    /// pointer displacement is applied to.
    pub offset: i64,
}

impl Default for SliderDragState {
    fn default() -> (r: Self)
        ensures
            !r.dragging,
            r.offset == 0,
    {
        SliderDragState { dragging: false, offset: 0 }
    }
}

/// Law: storing any value `v` with `set_value` and reading it back yields
/// `clamp(v, min, max)`.
pub proof fn lemma_set_value_clamps(s: CoreSlider, v: i64)
    requires
        s.min <= s.max,
    ensures
        ({
            let stored = spec_clamp(v as int, s.min as int, s.max as int);
            &&& s.min <= stored <= s.max
            &&& (s.min <= v <= s.max ==> stored == v)
        }),
{
}

/// What a slider does when the pointer goes down on it: it acquires focus
/// with the focus ring suppressed. The event keeps propagating.
pub open spec fn slider_pressed_spec(v: WorldView, e: Entity) -> SpecResponse {
    if is_live(v, e) && rec_of(v, e).widget is Slider {
        SpecResponse {
            world: WorldView { focus: Some(e), focus_visible: false, ..v },
            halt: false,
            actions: Seq::empty(),
            bubble_click: None,
        }
    } else {
        spec_noop(v)
    }
}

/// What a slider does when a drag gesture starts: it consumes the event
/// and, when not disabled, snapshots the current value as the drag baseline
/// and marks itself dragging.
pub open spec fn slider_drag_start_spec(v: WorldView, e: Entity) -> SpecResponse {
    if is_live(v, e) && rec_of(v, e).widget is Slider {
        let s = rec_of(v, e).widget->Slider_0;
        let after = if !is_disabled(v, e) {
            WorldView {
                nodes: v.nodes.update(
                    e.0 as int,
                    EntityRec {
                        slider_drag: Some(SliderDragState { dragging: true, offset: s.value }),
                        ..rec_of(v, e)
                    },
                ),
                ..v
            }
        } else {
            v
        };
        SpecResponse { world: after, halt: true, actions: Seq::empty(), bubble_click: None }
    } else {
        spec_noop(v)
    }
}

/// The value a drag displacement maps to: the baseline captured at
/// drag-start, plus the horizontal displacement scaled from the usable track
/// length (the node width minus the thumb extent, floored at 1) into the
/// value range, saturated into `i64`. For a degenerate range the result is
/// `min`. The result is intentionally not clamped to the range.
pub open spec fn slider_drag_value(v: WorldView, e: Entity, delta: Delta) -> int {
    let s = rec_of(v, e).widget->Slider_0;
    let g = rec_of(v, e).geom->Some_0;
    let d = rec_of(v, e).slider_drag->Some_0;
    let width: int = if g.size_x - s.thumb_size < 1 {
        1
    } else {
        g.size_x - s.thumb_size
    };
    if s.max - s.min > 0 {
        spec_sat64(d.offset + spec_div_trunc(delta.x * (s.max - s.min), width))
    } else {
        s.min as int
    }
}

/// What a slider does with a drag displacement: when its layout is known it
/// consumes the event, and if a drag gesture is active it reports the mapped
/// value — through the configured callback, or as a bubbling `ValueChange`.
/// The slider's own stored value is not updated; the receiver is expected to
/// store the value back with `set_value`.
pub open spec fn slider_drag_spec(v: WorldView, e: Entity, delta: Delta) -> SpecResponse {
    if is_live(v, e) && rec_of(v, e).widget is Slider && rec_of(v, e).geom is Some {
        let s = rec_of(v, e).widget->Slider_0;
        let d = rec_of(v, e).slider_drag->Some_0;
        let actions = if d.dragging {
            let value = slider_drag_value(v, e, delta) as i64;
            match s.on_change {
                Some(id) => seq![Action::RunCallbackValue { id, value }],
                None => seq![Action::EmitValueChange { target: e, change: ValueChange(value) }],
            }
        } else {
            Seq::empty()
        };
        SpecResponse { world: v, halt: true, actions, bubble_click: None }
    } else {
        spec_noop(v)
    }
}

/// What a slider does when a drag gesture ends: it consumes the event and
/// clears the dragging flag.
pub open spec fn slider_drag_end_spec(v: WorldView, e: Entity) -> SpecResponse {
    if is_live(v, e) && rec_of(v, e).widget is Slider {
        let d = rec_of(v, e).slider_drag->Some_0;
        let after = if d.dragging {
            WorldView {
                nodes: v.nodes.update(
                    e.0 as int,
                    EntityRec {
                        slider_drag: Some(SliderDragState { dragging: false, ..d }),
                        ..rec_of(v, e)
                    },
                ),
                ..v
            }
        } else {
            v
        };
        SpecResponse { world: after, halt: true, actions: Seq::empty(), bubble_click: None }
    } else {
        spec_noop(v)
    }
}

/// The value a key press moves a slider to: ArrowLeft / ArrowRight step by
/// the increment, clamped at the range edge; Home and End jump to the
/// bounds. Other keys do nothing.
pub open spec fn slider_key_value(s: CoreSlider, key: Key) -> Option<int> {
    match key {
        Key::ArrowLeft => Some(
            if s.value - s.increment < s.min {
                s.min as int
            } else {
                s.value - s.increment
            },
        ),
        Key::ArrowRight => Some(
            if s.value + s.increment > s.max {
                s.max as int
            } else {
                s.value + s.increment
            },
        ),
        Key::Home => Some(s.min as int),
        Key::End => Some(s.max as int),
        _ => None,
    }
}

/// What a slider does with a key event while focused: when not disabled, a
/// press (including a key repeat) of ArrowLeft / ArrowRight / Home / End is
/// consumed and the stepped value is reported, exactly as a drag update
/// would be.
pub open spec fn slider_key_spec(v: WorldView, e: Entity, input: KeyInput) -> SpecResponse {
    if is_live(v, e) && rec_of(v, e).widget is Slider {
        let s = rec_of(v, e).widget->Slider_0;
        if !is_disabled(v, e) && input.pressed && slider_key_value(s, input.key) is Some {
            let value = slider_key_value(s, input.key)->Some_0 as i64;
            let actions = match s.on_change {
                Some(id) => seq![Action::RunCallbackValue { id, value }],
                None => seq![Action::EmitValueChange { target: e, change: ValueChange(value) }],
            };
            SpecResponse { world: v, halt: true, actions, bubble_click: None }
        } else {
            spec_noop(v)
        }
    } else {
        spec_noop(v)
    }
}

/// Law: a disabled slider, key-activated, emits nothing; and a drag gesture
/// on it never begins (drag-start leaves the world untouched), so drag
/// displacements emit nothing either while no gesture is active.
pub proof fn lemma_slider_disabled_gating(v: WorldView, e: Entity, input: KeyInput, delta: Delta)
    requires
        is_live(v, e),
        rec_of(v, e).widget is Slider,
        is_disabled(v, e),
    ensures
        slider_key_spec(v, e, input) == spec_noop(v),
        slider_drag_start_spec(v, e).world == v,
        !(rec_of(v, e).slider_drag->Some_0.dragging) ==> slider_drag_spec(v, e, delta).actions
            == Seq::<Action>::empty(),
{
}

/// Observer for the pointer going down on a slider.
pub fn slider_on_pointer_down(w: &mut UiWorld, e: Entity) -> (r: Response)
    requires
        wf(old(w)@),
    ensures
        wf(final(w)@),
        ({
            let s = slider_pressed_spec(old(w)@, e);
            &&& final(w)@ == s.world
            &&& r.halt == s.halt
            &&& r.actions@ == s.actions
            &&& r.bubble_click == s.bubble_click
        }),
{
    if !w.is_live(e) {
        return Response::noop();
    }
    let rec = w.node_at(e);
    match rec.widget {
        Widget::Slider(_) => {
            w.set_focus(Some(e), false);
            proof {
                assert(wf(w@)) by {
                    assert forall|i: int| 0 <= i < w@.nodes.len() implies #[trigger] rec_wf(
                        w@,
                        i,
                    ) by {
                        assert(rec_wf(old(w)@, i));
                    }
                }
            }
            Response::noop()
        },
        _ => Response::noop(),
    }
}

/// Observer for the start of a drag gesture on a slider.
pub fn slider_on_drag_start(w: &mut UiWorld, e: Entity) -> (r: Response)
    requires
        wf(old(w)@),
    ensures
        wf(final(w)@),
        ({
            let s = slider_drag_start_spec(old(w)@, e);
            &&& final(w)@ == s.world
            &&& r.halt == s.halt
            &&& r.actions@ == s.actions
            &&& r.bubble_click == s.bubble_click
        }),
{
    if !w.is_live(e) {
        return Response::noop();
    }
    let rec = w.node_at(e);
    match rec.widget {
        Widget::Slider(s) => {
            if rec.disabled.is_none() {
                let mut rec2 = rec;
                rec2.slider_drag = Some(SliderDragState { dragging: true, offset: s.value });
                w.set_node(e, rec2);
                proof {
                    assert(wf(w@)) by {
                        assert forall|i: int| 0 <= i < w@.nodes.len() implies #[trigger] rec_wf(
                            w@,
                            i,
                        ) by {
                            assert(rec_wf(old(w)@, i));
                        }
                    }
                }
            }
            Response { halt: true, actions: Vec::new(), bubble_click: None }
        },
        _ => Response::noop(),
    }
}

/// Observer for a drag displacement on a slider.
pub fn slider_on_drag(w: &UiWorld, e: Entity, delta: Delta) -> (r: Response)
    requires
        wf(w@),
    ensures
        ({
            let s = slider_drag_spec(w@, e, delta);
            &&& s.world == w@
            &&& r.halt == s.halt
            &&& r.actions@ == s.actions
            &&& r.bubble_click == s.bubble_click
        }),
{
    if !w.is_live(e) {
        return Response::noop();
    }
    let rec = w.node_at(e);
    match (rec.widget, rec.geom) {
        (Widget::Slider(s), Some(g)) => {
            proof {
                assert(rec_wf(w@, e.0 as int));
            }
            let drag = rec.slider_drag.unwrap();
            if drag.dragging {
                let raw_width = g.size_x - s.thumb_size;
                let width = if raw_width < 1 {
                    1
                } else {
                    raw_width
                };
                let range = s.max - s.min;
                let value = if range > 0 {
                    crate::math::linear_map_sat(drag.offset, delta.x, range, width)
                } else {
                    s.min
                };
                let mut actions: Vec<Action> = Vec::new();
                match s.on_change {
                    Some(id) => actions.push(Action::RunCallbackValue { id, value }),
                    None => actions.push(
                        Action::EmitValueChange { target: e, change: ValueChange(value) },
                    ),
                }
                proof {
                    assert(value == slider_drag_value(w@, e, delta) as i64);
                    assert(actions@ =~= slider_drag_spec(w@, e, delta).actions);
                }
                Response { halt: true, actions, bubble_click: None }
            } else {
                Response { halt: true, actions: Vec::new(), bubble_click: None }
            }
        },
        _ => Response::noop(),
    }
}

/// Observer for the end of a drag gesture on a slider.
pub fn slider_on_drag_end(w: &mut UiWorld, e: Entity) -> (r: Response)
    requires
        wf(old(w)@),
    ensures
        wf(final(w)@),
        ({
            let s = slider_drag_end_spec(old(w)@, e);
            &&& final(w)@ == s.world
            &&& r.halt == s.halt
            &&& r.actions@ == s.actions
            &&& r.bubble_click == s.bubble_click
        }),
{
    if !w.is_live(e) {
        return Response::noop();
    }
    let rec = w.node_at(e);
    match rec.widget {
        Widget::Slider(_) => {
            proof {
                assert(rec_wf(old(w)@, e.0 as int));
            }
            let drag = rec.slider_drag.unwrap();
            if drag.dragging {
                let mut rec2 = rec;
                rec2.slider_drag = Some(SliderDragState { dragging: false, offset: drag.offset });
                w.set_node(e, rec2);
                proof {
                    assert(wf(w@)) by {
                        assert forall|i: int| 0 <= i < w@.nodes.len() implies #[trigger] rec_wf(
                            w@,
                            i,
                        ) by {
                            assert(rec_wf(old(w)@, i));
                        }
                    }
                    assert(w@ == slider_drag_end_spec(old(w)@, e).world);
                }
            }
            Response { halt: true, actions: Vec::new(), bubble_click: None }
        },
        _ => Response::noop(),
    }
}

/// Observer for key input on a focused slider.
pub fn slider_on_key_input(w: &UiWorld, e: Entity, input: KeyInput) -> (r: Response)
    requires
        wf(w@),
    ensures
        ({
            let s = slider_key_spec(w@, e, input);
            &&& s.world == w@
            &&& r.halt == s.halt
            &&& r.actions@ == s.actions
            &&& r.bubble_click == s.bubble_click
        }),
{
    if !w.is_live(e) {
        return Response::noop();
    }
    let rec = w.node_at(e);
    match rec.widget {
        Widget::Slider(s) => {
            proof {
                assert(rec_wf(w@, e.0 as int));
            }
            if rec.disabled.is_none() && input.pressed {
                let value: i64 = match input.key {
                    Key::ArrowLeft => {
                        let raw: i128 = (s.value as i128) - (s.increment as i128);
                        if raw < s.min as i128 {
                            s.min
                        } else {
                            raw as i64
                        }
                    },
                    Key::ArrowRight => {
                        let raw: i128 = (s.value as i128) + (s.increment as i128);
                        if raw > s.max as i128 {
                            s.max
                        } else {
                            raw as i64
                        }
                    },
                    Key::Home => s.min,
                    Key::End => s.max,
                    _ => {
                        return Response::noop();
                    },
                };
                proof {
                    assert(Some(value as int) == slider_key_value(s, input.key));
                }
                let mut actions: Vec<Action> = Vec::new();
                match s.on_change {
                    Some(id) => actions.push(Action::RunCallbackValue { id, value }),
                    None => actions.push(
                        Action::EmitValueChange { target: e, change: ValueChange(value) },
                    ),
                }
                proof {
                    assert(actions@ =~= slider_key_spec(w@, e, input).actions);
                }
                Response { halt: true, actions, bubble_click: None }
            } else {
                Response::noop()
            }
        },
        _ => Response::noop(),
    }
}

/// Law: for a degenerate range (`min == max`) the thumb sits exactly at the
/// midpoint of the track, whatever the stored value; for a proper range the
/// thumb position equals one half exactly when the value is the midpoint of
/// the range — `2 * (value - min) == max - min`.
pub proof fn lemma_thumb_position(s: CoreSlider)
    requires
        s.wf(),
    ensures
        s.min == s.max ==> s.spec_thumb_position() == (Fraction { num: 1, den: 2 }),
        s.max > s.min ==> (frac_eq(s.spec_thumb_position(), Fraction { num: 1, den: 2 }) <==> 2
            * (s.value - s.min) == s.max - s.min),
        frac_wf(s.spec_thumb_position()),
{
}

} // verus!
