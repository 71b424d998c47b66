//! A headless radio button. A radio only knows its own checked and disabled
//! flags; mutual exclusion within a group is handled by the enclosing
//! `CoreRadioGroup`, which reinterprets the radio's `ButtonClicked`
//! notification as a group-level selection.

use vstd::prelude::*;
use crate::entity::Entity;
use crate::events::{spec_noop, Action, Response, SpecResponse};
use crate::world::{is_disabled, is_live, rec_of, rec_wf, wf, UiWorld, Widget, WorldView};

verus! {

/// Marker for a radio button entity. Activation on an already-checked or
/// disabled radio is a no-op; otherwise a `ButtonClicked` notification is
/// emitted at the radio, to bubble to the enclosing group.
#[derive(Clone, Copy, Debug, PartialEq, Eq, Structural)]
pub struct CoreRadio;

/// What a radio does with a pointer click: it acquires focus (ring
/// suppressed) and consumes the event; when neither already checked nor
/// disabled, it emits a `ButtonClicked` notification that bubbles from the
/// radio, to be reinterpreted by the enclosing group.
pub open spec fn radio_click_spec(v: WorldView, e: Entity) -> SpecResponse {
    if is_live(v, e) && rec_of(v, e).widget is Radio {
        let after = WorldView { focus: Some(e), focus_visible: false, ..v };
        if rec_of(v, e).checked->Some_0.0 || is_disabled(v, e) {
            SpecResponse { world: after, halt: true, actions: Seq::empty(), bubble_click: None }
        } else {
            SpecResponse { world: after, halt: true, actions: Seq::empty(), bubble_click: Some(e) }
        }
    } else {
        spec_noop(v)
    }
}

/// Law: a disabled radio, clicked, emits nothing — no action and no
/// `ButtonClicked` notification — and so can never become the selection;
/// the click is still consumed and focus still moves to the radio. The same
/// holds for a click on an already-checked radio.
pub proof fn lemma_radio_disabled_gating(v: WorldView, e: Entity)
    requires
        is_live(v, e),
        rec_of(v, e).widget is Radio,
        is_disabled(v, e) || rec_of(v, e).checked->Some_0.0,
    ensures
        radio_click_spec(v, e).actions == Seq::<Action>::empty(),
        radio_click_spec(v, e).bubble_click is None,
        radio_click_spec(v, e).world.nodes == v.nodes,
        radio_click_spec(v, e).world.focus == Some(e),
{
}

/// Observer for a pointer click on a radio button.
pub fn radio_on_pointer_click(w: &mut UiWorld, e: Entity) -> (r: Response)
    requires
        wf(old(w)@),
    ensures
        wf(final(w)@),
        ({
            let s = radio_click_spec(old(w)@, e);
            &&& final(w)@ == s.world
            &&& r.halt == s.halt
            &&& r.actions@ == s.actions
            &&& r.bubble_click == s.bubble_click
        }),
{
    if !w.is_live(e) {
        return Response::noop();
    }
    let rec = w.node_at(e);
    match rec.widget {
        Widget::Radio(_) => {
            w.set_focus(Some(e), false);
            proof {
                assert(rec_wf(old(w)@, e.0 as int));
                assert(wf(w@)) by {
                    assert forall|i: int| 0 <= i < w@.nodes.len() implies #[trigger] rec_wf(
                        w@,
                        i,
                    ) by {
                        assert(rec_wf(old(w)@, i));
                    }
                }
            }
            if rec.checked.unwrap().0 || rec.disabled.is_some() {
                Response { halt: true, actions: Vec::new(), bubble_click: None }
            } else {
                Response { halt: true, actions: Vec::new(), bubble_click: Some(e) }
            }
        },
        _ => Response::noop(),
    }
}

} // verus!
