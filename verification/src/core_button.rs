//! A headless button: click semantics from pointer and keyboard, disabled
//! gating, and focus acquisition. A click runs the configured callback, or,
//! when none is configured, emits a `ButtonClicked` notification targeted at
//! the button with propagation enabled. `ButtonPressed` is held true while a
//! press-and-hold or drag gesture is active.

use vstd::prelude::*;
use crate::entity::{CallbackId, Entity};
use crate::events::{spec_noop, Action, Response, SpecResponse, KeyInput};
use crate::interaction_states::ButtonPressed;
use crate::world::{is_disabled, is_live, rec_of, rec_wf, wf, EntityRec, UiWorld, Widget,
    WorldView};
use crate::core_checkbox::is_activation_key;

verus! {

/// Marker and configuration for a button entity. `on_click` is the callback
/// run when the button is activated; `None` means a bubbling `ButtonClicked`
/// notification is emitted instead.
#[derive(Clone, Copy, Debug, PartialEq, Eq)]
pub struct CoreButton {
    pub on_click: Option<CallbackId>,
}

/// What firing a button requests: the configured callback, or a
/// `ButtonClicked` notification bubbling from the button.
pub open spec fn button_fire(v: WorldView, e: Entity) -> (Seq<Action>, Option<Entity>) {
    match rec_of(v, e).widget->Button_0.on_click {
        Some(id) => (seq![Action::RunCallback { id }], None),
        None => (Seq::empty(), Some(e)),
    }
}

/// What a button does with a pointer click: the press gesture ends, the
/// button acquires focus (ring suppressed) and consumes the event; when not
/// disabled it fires.
pub open spec fn button_click_spec(v: WorldView, e: Entity) -> SpecResponse {
    if is_live(v, e) && rec_of(v, e).widget is Button {
        let after = WorldView {
            nodes: v.nodes.update(
                e.0 as int,
                EntityRec { pressed: Some(ButtonPressed(false)), ..rec_of(v, e) },
            ),
            focus: Some(e),
            focus_visible: false,
        };
        if !is_disabled(v, e) {
            let fire = button_fire(v, e);
            SpecResponse { world: after, halt: true, actions: fire.0, bubble_click: fire.1 }
        } else {
            SpecResponse { world: after, halt: true, actions: Seq::empty(), bubble_click: None }
        }
    } else {
        spec_noop(v)
    }
}

/// What a button does with a key event: on a fresh Enter / Space press,
/// when not disabled, it consumes the event and fires.
pub open spec fn button_key_spec(v: WorldView, e: Entity, input: KeyInput) -> SpecResponse {
    if is_live(v, e) && rec_of(v, e).widget is Button {
        if !is_disabled(v, e) && is_activation_key(input) {
            let fire = button_fire(v, e);
            SpecResponse { world: v, halt: true, actions: fire.0, bubble_click: fire.1 }
        } else {
            spec_noop(v)
        }
    } else {
        spec_noop(v)
    }
}

/// What a button does when the pointer goes down on it: the press gesture
/// begins. The event keeps propagating.
pub open spec fn button_pressed_spec(v: WorldView, e: Entity) -> SpecResponse {
    if is_live(v, e) && rec_of(v, e).widget is Button {
        SpecResponse {
            world: WorldView {
                nodes: v.nodes.update(
                    e.0 as int,
                    EntityRec { pressed: Some(ButtonPressed(true)), ..rec_of(v, e) },
                ),
                ..v
            },
            halt: false,
            actions: Seq::empty(),
            bubble_click: None,
        }
    } else {
        spec_noop(v)
    }
}

/// What a button does when a drag gesture over it ends: the press gesture
/// ends without firing. The event keeps propagating.
pub open spec fn button_drag_end_spec(v: WorldView, e: Entity) -> SpecResponse {
    if is_live(v, e) && rec_of(v, e).widget is Button {
        SpecResponse {
            world: WorldView {
                nodes: v.nodes.update(
                    e.0 as int,
                    EntityRec { pressed: Some(ButtonPressed(false)), ..rec_of(v, e) },
                ),
                ..v
            },
            halt: false,
            actions: Seq::empty(),
            bubble_click: None,
        }
    } else {
        spec_noop(v)
    }
}

/// Law: a disabled button, clicked or key-activated, fires nothing — no
/// callback and no `ButtonClicked` notification; the click is still
/// consumed, focus still moves to the button, and the press gesture state
/// still tracks the pointer.
pub proof fn lemma_button_disabled_gating(v: WorldView, e: Entity, input: KeyInput)
    requires
        is_live(v, e),
        rec_of(v, e).widget is Button,
        is_disabled(v, e),
    ensures
        button_click_spec(v, e).actions == Seq::<Action>::empty(),
        button_click_spec(v, e).bubble_click is None,
        button_click_spec(v, e).world.focus == Some(e),
        button_key_spec(v, e, input) == spec_noop(v),
{
}

/// Observer for a pointer click on a button.
pub fn button_on_pointer_click(w: &mut UiWorld, e: Entity) -> (r: Response)
    requires
        wf(old(w)@),
    ensures
        wf(final(w)@),
        ({
            let s = button_click_spec(old(w)@, e);
            &&& final(w)@ == s.world
            &&& r.halt == s.halt
            &&& r.actions@ == s.actions
            &&& r.bubble_click == s.bubble_click
        }),
{
    if !w.is_live(e) {
        return Response::noop();
    }
    let rec = w.node_at(e);
    match rec.widget {
        Widget::Button(b) => {
            let mut rec2 = rec;
            rec2.pressed = Some(ButtonPressed(false));
            w.set_node(e, rec2);
            w.set_focus(Some(e), false);
            proof {
                assert(wf(w@)) by {
                    assert forall|i: int| 0 <= i < w@.nodes.len() implies #[trigger] rec_wf(
                        w@,
                        i,
                    ) by {
                        assert(rec_wf(old(w)@, i));
                    }
                }
            }
            let mut actions: Vec<Action> = Vec::new();
            let mut bubble: Option<Entity> = None;
            if rec.disabled.is_none() {
                match b.on_click {
                    Some(id) => actions.push(Action::RunCallback { id }),
                    None => {
                        bubble = Some(e);
                    },
                }
            }
            proof {
                let s = button_click_spec(old(w)@, e);
                assert(actions@ =~= s.actions);
            }
            Response { halt: true, actions, bubble_click: bubble }
        },
        _ => Response::noop(),
    }
}

/// Observer for key input on a focused button.
pub fn button_on_key_input(w: &UiWorld, e: Entity, input: KeyInput) -> (r: Response)
    requires
        wf(w@),
    ensures
        ({
            let s = button_key_spec(w@, e, input);
            &&& s.world == w@
            &&& r.halt == s.halt
            &&& r.actions@ == s.actions
            &&& r.bubble_click == s.bubble_click
        }),
{
    if !w.is_live(e) {
        return Response::noop();
    }
    let rec = w.node_at(e);
    match rec.widget {
        Widget::Button(b) => {
            if rec.disabled.is_none() && input.pressed && !input.repeat && (input.key
                == crate::events::Key::Enter || input.key == crate::events::Key::Space) {
                let mut actions: Vec<Action> = Vec::new();
                let mut bubble: Option<Entity> = None;
                match b.on_click {
                    Some(id) => actions.push(Action::RunCallback { id }),
                    None => {
                        bubble = Some(e);
                    },
                }
                proof {
                    let s = button_key_spec(w@, e, input);
                    assert(actions@ =~= s.actions);
                }
                Response { halt: true, actions, bubble_click: bubble }
            } else {
                Response::noop()
            }
        },
        _ => Response::noop(),
    }
}

/// Observer for the pointer going down on a button.
pub fn button_on_pointer_down(w: &mut UiWorld, e: Entity) -> (r: Response)
    requires
        wf(old(w)@),
    ensures
        wf(final(w)@),
        ({
            let s = button_pressed_spec(old(w)@, e);
            &&& final(w)@ == s.world
            &&& r.halt == s.halt
            &&& r.actions@ == s.actions
            &&& r.bubble_click == s.bubble_click
        }),
{
    if !w.is_live(e) {
        return Response::noop();
    }
    let rec = w.node_at(e);
    match rec.widget {
        Widget::Button(_) => {
            let mut rec2 = rec;
            rec2.pressed = Some(ButtonPressed(true));
            w.set_node(e, rec2);
            proof {
                assert(wf(w@)) by {
                    assert forall|i: int| 0 <= i < w@.nodes.len() implies #[trigger] rec_wf(
                        w@,
                        i,
                    ) by {
                        assert(rec_wf(old(w)@, i));
                    }
                }
            }
            Response::noop()
        },
        _ => Response::noop(),
    }
}

/// Observer for the end of a drag gesture over a button.
pub fn button_on_drag_end(w: &mut UiWorld, e: Entity) -> (r: Response)
    requires
        wf(old(w)@),
    ensures
        wf(final(w)@),
        ({
            let s = button_drag_end_spec(old(w)@, e);
            &&& final(w)@ == s.world
            &&& r.halt == s.halt
            &&& r.actions@ == s.actions
            &&& r.bubble_click == s.bubble_click
        }),
{
    if !w.is_live(e) {
        return Response::noop();
    }
    let rec = w.node_at(e);
    match rec.widget {
        Widget::Button(_) => {
            let mut rec2 = rec;
            rec2.pressed = Some(ButtonPressed(false));
            w.set_node(e, rec2);
            proof {
                assert(wf(w@)) by {
                    assert forall|i: int| 0 <= i < w@.nodes.len() implies #[trigger] rec_wf(
                        w@,
                        i,
                    ) by {
                        assert(rec_wf(old(w)@, i));
                    }
                }
            }
            Response::noop()
        },
        _ => Response::noop(),
    }
}

} // verus!
