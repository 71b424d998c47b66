//! A headless checkbox widget: toggle semantics layered on button-like input.
//!
//! On activation (a pointer click, or Enter / Space while focused, when not
//! disabled) the checkbox computes the *intended* next state `!checked` and
//! reports it — through the configured callback, or as a bubbling
//! `ValueChange` event. It never writes its own `Checked` state: the receiver
//! of the intent is responsible for the authoritative write, which lets an
//! application veto or transform the change.

use vstd::prelude::*;
use crate::entity::{CallbackId, Entity};
use crate::events::{spec_noop, Action, Key, KeyInput, Response, SpecResponse, ValueChange};
use crate::world::{is_disabled, is_live, rec_of, rec_wf, wf, UiWorld, Widget, WorldView};

verus! {

/// Marker and configuration for a checkbox entity. `on_change` is the
/// callback run when the checkbox is activated; `None` means a bubbling
/// `ValueChange` event is emitted instead.
#[derive(Clone, Copy, Debug, PartialEq, Eq)]
pub struct CoreCheckbox {
    pub on_change: Option<CallbackId>,
}

/// The one action a checkbox activation requests: the configured callback
/// run with the intended next state `!checked`, or a bubbling
/// `ValueChange(!checked)` targeted at the checkbox itself.
pub open spec fn checkbox_intent(v: WorldView, e: Entity) -> Action {
    let rec = rec_of(v, e);
    let next = !rec.checked->Some_0.0;
    match rec.widget->Checkbox_0.on_change {
        Some(id) => Action::RunCallbackBool { id, value: next },
        None => Action::EmitBoolChange { target: e, change: ValueChange(next) },
    }
}

/// Whether a key event activates a focused checkbox: a fresh (non-repeat)
/// press of Enter or Space.
pub open spec fn is_activation_key(input: KeyInput) -> bool {
    input.pressed && !input.repeat && (input.key == Key::Enter || input.key == Key::Space)
}

/// What a checkbox does with a key event: on a fresh Enter / Space press,
/// when not disabled, it consumes the event and requests the toggle intent;
/// on anything else it lets the event propagate. The checkbox never writes
/// its own `Checked` state.
pub open spec fn checkbox_key_spec(v: WorldView, e: Entity, input: KeyInput) -> SpecResponse {
    if is_live(v, e) && rec_of(v, e).widget is Checkbox {
        if !is_disabled(v, e) && is_activation_key(input) {
            SpecResponse {
                world: v,
                halt: true,
                actions: seq![checkbox_intent(v, e)],
                bubble_click: None,
            }
        } else {
            spec_noop(v)
        }
    } else {
        spec_noop(v)
    }
}

/// What a checkbox does with a pointer click: it acquires focus (with the
/// focus ring suppressed, since the focus came from the pointer) and
/// consumes the event; when not disabled it additionally requests the
/// toggle intent. The checkbox never writes its own `Checked` state.
pub open spec fn checkbox_click_spec(v: WorldView, e: Entity) -> SpecResponse {
    if is_live(v, e) && rec_of(v, e).widget is Checkbox {
        let after = WorldView { focus: Some(e), focus_visible: false, ..v };
        let actions = if !is_disabled(v, e) {
            seq![checkbox_intent(v, e)]
        } else {
            Seq::empty()
        };
        SpecResponse { world: after, halt: true, actions, bubble_click: None }
    } else {
        spec_noop(v)
    }
}

/// Law: clicking an enabled checkbox with no callback configured emits
/// `ValueChange(!checked)` targeted at the checkbox — `ValueChange(true)`
/// for an unchecked one — and does not itself mutate `Checked`: no entity's
/// components change; only the focus state does. `Checked` stays as it was
/// until a separate write applies the change.
pub proof fn lemma_checkbox_decoupled_toggle(v: WorldView, e: Entity)
    requires
        is_live(v, e),
        rec_of(v, e).widget is Checkbox,
        rec_of(v, e).widget->Checkbox_0.on_change is None,
        !is_disabled(v, e),
    ensures
        ({
            let s = checkbox_click_spec(v, e);
            &&& s.actions == seq![
                Action::EmitBoolChange {
                    target: e,
                    change: ValueChange(!rec_of(v, e).checked->Some_0.0),
                },
            ]
            &&& s.world.nodes == v.nodes
            &&& s.halt
        }),
{
}

/// Law: a disabled checkbox, clicked or key-activated, emits no action and
/// invokes no callback; a click still consumes the event and still moves
/// focus to the checkbox with the ring suppressed, and no component of any
/// entity changes.
pub proof fn lemma_checkbox_disabled_gating(v: WorldView, e: Entity, input: KeyInput)
    requires
        is_live(v, e),
        rec_of(v, e).widget is Checkbox,
        is_disabled(v, e),
    ensures
        checkbox_click_spec(v, e).actions == Seq::<Action>::empty(),
        checkbox_click_spec(v, e).world.nodes == v.nodes,
        checkbox_click_spec(v, e).world.focus == Some(e),
        !checkbox_click_spec(v, e).world.focus_visible,
        checkbox_key_spec(v, e, input) == spec_noop(v),
{
}

/// Observer for key input on a focused checkbox.
pub fn checkbox_on_key_input(w: &UiWorld, e: Entity, input: KeyInput) -> (r: Response)
    requires
        wf(w@),
    ensures
        ({
            let s = checkbox_key_spec(w@, e, input);
            &&& s.world == w@
            &&& r.halt == s.halt
            &&& r.actions@ == s.actions
            &&& r.bubble_click == s.bubble_click
        }),
{
    if !w.is_live(e) {
        return Response::noop();
    }
    let rec = w.node_at(e);
    match rec.widget {
        Widget::Checkbox(cb) => {
            if rec.disabled.is_none() && input.pressed && !input.repeat && (input.key == Key::Enter
                || input.key == Key::Space) {
                proof {
                    assert(rec_wf(w@, e.0 as int));
                }
                let next = !rec.checked.unwrap().0;
                let mut actions: Vec<Action> = Vec::new();
                match cb.on_change {
                    Some(id) => actions.push(Action::RunCallbackBool { id, value: next }),
                    None => actions.push(
                        Action::EmitBoolChange { target: e, change: ValueChange(next) },
                    ),
                }
                proof {
                    assert(actions@ =~= seq![checkbox_intent(w@, e)]);
                }
                Response { halt: true, actions, bubble_click: None }
            } else {
                Response::noop()
            }
        },
        _ => Response::noop(),
    }
}

/// Observer for a pointer click on a checkbox.
pub fn checkbox_on_pointer_click(w: &mut UiWorld, e: Entity) -> (r: Response)
    requires
        wf(old(w)@),
    ensures
        wf(final(w)@),
        ({
            let s = checkbox_click_spec(old(w)@, e);
            &&& final(w)@ == s.world
            &&& r.halt == s.halt
            &&& r.actions@ == s.actions
            &&& r.bubble_click == s.bubble_click
        }),
{
    if !w.is_live(e) {
        return Response::noop();
    }
    let rec = w.node_at(e);
    match rec.widget {
        Widget::Checkbox(cb) => {
            w.set_focus(Some(e), false);
            let mut actions: Vec<Action> = Vec::new();
            if rec.disabled.is_none() {
                proof {
                    assert(rec_wf(old(w)@, e.0 as int));
                }
                let next = !rec.checked.unwrap().0;
                match cb.on_change {
                    Some(id) => actions.push(Action::RunCallbackBool { id, value: next }),
                    None => actions.push(
                        Action::EmitBoolChange { target: e, change: ValueChange(next) },
                    ),
                }
            }
            proof {
                assert(wf(w@)) by {
                    assert forall|i: int| 0 <= i < w@.nodes.len() implies #[trigger] rec_wf(
                        w@,
                        i,
                    ) by {
                        assert(rec_wf(old(w)@, i));
                    }
                }
                assert(w@ == checkbox_click_spec(old(w)@, e).world);
                assert(actions@ =~= checkbox_click_spec(old(w)@, e).actions);
            }
            Response { halt: true, actions, bubble_click: None }
        },
        _ => Response::noop(),
    }
}

} // verus!
