//! The event-propagation substrate. An input event is delivered to a target
//! entity and walks up the ancestor chain; at each entity the widget's
//! observers run, and the walk stops at the first observer that halts
//! propagation, or at the first entity without a live parent. `ButtonClicked`
//! notifications emitted along the way bubble the same way afterwards, before
//! the collected actions are handed back to the caller — so every mutation
//! requested during a dispatch is visible before the caller proceeds.

use vstd::prelude::*;
use crate::core_button::{button_click_spec, button_drag_end_spec, button_key_spec,
    button_on_drag_end, button_on_key_input, button_on_pointer_click, button_on_pointer_down,
    button_pressed_spec};
use crate::core_checkbox::{checkbox_click_spec, checkbox_key_spec, checkbox_on_key_input,
    checkbox_on_pointer_click};
use crate::core_radio::{radio_click_spec, radio_on_pointer_click};
use crate::core_radio_group::{radio_group_click_spec, radio_group_key_spec,
    radio_group_on_button_click, radio_group_on_key_input};
use crate::core_scrollbar::{scrollbar_drag_end_spec, scrollbar_drag_spec,
    scrollbar_drag_start_spec, scrollbar_on_drag, scrollbar_on_drag_end, scrollbar_on_drag_start,
    scrollbar_on_pointer_down, scrollbar_pressed_spec};
use crate::core_slider::{slider_drag_end_spec, slider_drag_spec, slider_drag_start_spec,
    slider_key_spec, slider_on_drag, slider_on_drag_end, slider_on_drag_start,
    slider_on_key_input, slider_on_pointer_down, slider_pressed_spec};
use crate::entity::Entity;
use crate::events::{spec_noop, Action, ButtonClicked, Response, SpecResponse, UiEvent};
use crate::world::{chain, is_live, rec_of, wf, UiWorld, Widget, WorldView};

verus! {

/// What one propagation pass did: the world it left behind, the actions
/// collected in visit order, the `ButtonClicked` notifications emitted along
/// the way, the entities visited in order, and each visited entity's halt
/// decision.
pub struct SpecDispatch {
    pub world: WorldView,
    pub actions: Seq<Action>,
    pub clicks: Seq<Entity>,
    pub visited: Seq<Entity>,
    pub halts: Seq<bool>,
    pub halted: bool,
}

/// What the observers attached to entity `e` do with an input event: each
/// widget kind subscribes to the event kinds its behaviour needs; everything
/// else lets the event propagate untouched.
pub open spec fn observe_spec(v: WorldView, e: Entity, ev: UiEvent) -> SpecResponse {
    if !is_live(v, e) {
        spec_noop(v)
    } else {
        match ev {
            UiEvent::PointerPressed => match rec_of(v, e).widget {
                Widget::Button(_) => button_pressed_spec(v, e),
                Widget::Slider(_) => slider_pressed_spec(v, e),
                Widget::ScrollbarThumb(_) | Widget::Scrollbar(_) => scrollbar_pressed_spec(v, e),
                _ => spec_noop(v),
            },
            UiEvent::PointerClick => match rec_of(v, e).widget {
                Widget::Button(_) => button_click_spec(v, e),
                Widget::Checkbox(_) => checkbox_click_spec(v, e),
                Widget::Radio(_) => radio_click_spec(v, e),
                _ => spec_noop(v),
            },
            UiEvent::DragStart => match rec_of(v, e).widget {
                Widget::Slider(_) => slider_drag_start_spec(v, e),
                Widget::ScrollbarThumb(_) | Widget::ScrollArea(_) => scrollbar_drag_start_spec(
                    v,
                    e,
                ),
                _ => spec_noop(v),
            },
            UiEvent::DragMove(delta) => match rec_of(v, e).widget {
                Widget::Slider(_) => slider_drag_spec(v, e, delta),
                Widget::Scrollbar(_) | Widget::ScrollArea(_) => scrollbar_drag_spec(v, e, delta),
                _ => spec_noop(v),
            },
            UiEvent::DragEnd => match rec_of(v, e).widget {
                Widget::Button(_) => button_drag_end_spec(v, e),
                Widget::Slider(_) => slider_drag_end_spec(v, e),
                Widget::ScrollbarThumb(_) | Widget::ScrollArea(_) => scrollbar_drag_end_spec(v, e),
                _ => spec_noop(v),
            },
            UiEvent::Key(input) => match rec_of(v, e).widget {
                Widget::Button(_) => button_key_spec(v, e, input),
                Widget::Checkbox(_) => checkbox_key_spec(v, e, input),
                Widget::RadioGroup(_) => radio_group_key_spec(v, e, input),
                Widget::Slider(_) => slider_key_spec(v, e, input),
                _ => spec_noop(v),
            },
        }
    }
}

/// Run entity `e`'s observers on an input event.
pub fn observe(w: &mut UiWorld, e: Entity, ev: UiEvent) -> (r: Response)
    requires
        wf(old(w)@),
    ensures
        wf(final(w)@),
        ({
            let s = observe_spec(old(w)@, e, ev);
            &&& final(w)@ == s.world
            &&& r.halt == s.halt
            &&& r.actions@ == s.actions
            &&& r.bubble_click == s.bubble_click
        }),
{
    if !w.is_live(e) {
        return Response::noop();
    }
    let widget = w.node_at(e).widget;
    match ev {
        UiEvent::PointerPressed => match widget {
            Widget::Button(_) => button_on_pointer_down(w, e),
            Widget::Slider(_) => slider_on_pointer_down(w, e),
            Widget::ScrollbarThumb(_) | Widget::Scrollbar(_) => scrollbar_on_pointer_down(w, e),
            _ => Response::noop(),
        },
        UiEvent::PointerClick => match widget {
            Widget::Button(_) => button_on_pointer_click(w, e),
            Widget::Checkbox(_) => checkbox_on_pointer_click(w, e),
            Widget::Radio(_) => radio_on_pointer_click(w, e),
            _ => Response::noop(),
        },
        UiEvent::DragStart => match widget {
            Widget::Slider(_) => slider_on_drag_start(w, e),
            Widget::ScrollbarThumb(_) | Widget::ScrollArea(_) => scrollbar_on_drag_start(w, e),
            _ => Response::noop(),
        },
        UiEvent::DragMove(delta) => match widget {
            Widget::Slider(_) => slider_on_drag(w, e, delta),
            Widget::Scrollbar(_) | Widget::ScrollArea(_) => scrollbar_on_drag(w, e, delta),
            _ => Response::noop(),
        },
        UiEvent::DragEnd => match widget {
            Widget::Button(_) => button_on_drag_end(w, e),
            Widget::Slider(_) => slider_on_drag_end(w, e),
            Widget::ScrollbarThumb(_) | Widget::ScrollArea(_) => scrollbar_on_drag_end(w, e),
            _ => Response::noop(),
        },
        UiEvent::Key(input) => match widget {
            Widget::Button(_) => button_on_key_input(w, e, input),
            Widget::Checkbox(_) => checkbox_on_key_input(w, e, input),
            Widget::RadioGroup(_) => radio_group_on_key_input(w, e, input),
            Widget::Slider(_) => slider_on_key_input(w, e, input),
            _ => Response::noop(),
        },
    }
}

/// One propagation pass of an input event, starting at `cur`: visit `cur`,
/// then — unless an observer halted — its live parent, and so on. The pass
/// on an entity that does not resolve visits nothing.
pub open spec fn dispatch_spec(v: WorldView, cur: Entity, ev: UiEvent) -> SpecDispatch
    decreases cur.0,
{
    if !is_live(v, cur) {
        SpecDispatch {
            world: v,
            actions: Seq::empty(),
            clicks: Seq::empty(),
            visited: Seq::empty(),
            halts: Seq::empty(),
            halted: false,
        }
    } else {
        let r = observe_spec(v, cur, ev);
        let clicks = match r.bubble_click {
            Some(c) => seq![c],
            None => Seq::<Entity>::empty(),
        };
        let cont = !r.halt && (match rec_of(r.world, cur).parent {
            Some(p) => p.0 < cur.0 && is_live(r.world, p),
            None => false,
        });
        if cont {
            let p = rec_of(r.world, cur).parent->Some_0;
            let rest = dispatch_spec(r.world, p, ev);
            SpecDispatch {
                world: rest.world,
                actions: r.actions + rest.actions,
                clicks: clicks + rest.clicks,
                visited: seq![cur] + rest.visited,
                halts: seq![r.halt] + rest.halts,
                halted: rest.halted,
            }
        } else {
            SpecDispatch {
                world: r.world,
                actions: r.actions,
                clicks,
                visited: seq![cur],
                halts: seq![r.halt],
                halted: r.halt,
            }
        }
    }
}

/// Propagate an input event up from `cur`. Returns the actions collected,
/// the `ButtonClicked` notifications to bubble next, and whether some
/// observer halted the propagation.
fn dispatch_from(w: &mut UiWorld, cur: Entity, ev: UiEvent) -> (r: (Vec<Action>, Vec<
    Entity,
>, bool))
    requires
        wf(old(w)@),
    ensures
        wf(final(w)@),
        ({
            let d = dispatch_spec(old(w)@, cur, ev);
            &&& final(w)@ == d.world
            &&& r.0@ == d.actions
            &&& r.1@ == d.clicks
            &&& r.2 == d.halted
        }),
    decreases cur.0,
{
    if !w.is_live(cur) {
        return (Vec::new(), Vec::new(), false);
    }
    let resp = observe(w, cur, ev);
    let mut clicks: Vec<Entity> = Vec::new();
    if let Some(c) = resp.bubble_click {
        clicks.push(c);
    }
    proof {
        assert(clicks@ =~= (match observe_spec(old(w)@, cur, ev).bubble_click {
            Some(c) => seq![c],
            None => Seq::<Entity>::empty(),
        }));
    }
    if resp.halt {
        return (resp.actions, clicks, true);
    }
    let p = match w.parent_of(cur) {
        Some(p) => p,
        None => {
            return (resp.actions, clicks, false);
        },
    };
    if p.0 >= cur.0 {
        return (resp.actions, clicks, false);
    }
    if !w.is_live(p) {
        return (resp.actions, clicks, false);
    }
    let rest = dispatch_from(w, p, ev);
    let mut actions = resp.actions;
    let mut rest_actions = rest.0;
    actions.append(&mut rest_actions);
    let mut rest_clicks = rest.1;
    clicks.append(&mut rest_clicks);
    (actions, clicks, rest.2)
}

/// One propagation pass of a `ButtonClicked` notification bubbling from
/// `src`, currently visiting `cur`. The radio group is the one widget that
/// observes it; everything else lets it propagate.
pub open spec fn dispatch_clicked_spec(v: WorldView, cur: Entity, src: Entity) -> SpecDispatch
    decreases cur.0,
{
    if !is_live(v, cur) {
        SpecDispatch {
            world: v,
            actions: Seq::empty(),
            clicks: Seq::empty(),
            visited: Seq::empty(),
            halts: Seq::empty(),
            halted: false,
        }
    } else {
        let r = radio_group_click_spec(v, cur, src);
        let cont = !r.halt && (match rec_of(r.world, cur).parent {
            Some(p) => p.0 < cur.0 && is_live(r.world, p),
            None => false,
        });
        if cont {
            let p = rec_of(r.world, cur).parent->Some_0;
            let rest = dispatch_clicked_spec(r.world, p, src);
            SpecDispatch {
                world: rest.world,
                actions: r.actions + rest.actions,
                clicks: Seq::empty(),
                visited: seq![cur] + rest.visited,
                halts: seq![r.halt] + rest.halts,
                halted: rest.halted,
            }
        } else {
            SpecDispatch {
                world: r.world,
                actions: r.actions,
                clicks: Seq::empty(),
                visited: seq![cur],
                halts: seq![r.halt],
                halted: r.halt,
            }
        }
    }
}

/// Propagate a `ButtonClicked` notification up from `cur`.
fn dispatch_clicked_from(w: &mut UiWorld, cur: Entity, src: Entity) -> (r: (Vec<Action>, bool))
    requires
        wf(old(w)@),
    ensures
        wf(final(w)@),
        ({
            let d = dispatch_clicked_spec(old(w)@, cur, src);
            &&& final(w)@ == d.world
            &&& r.0@ == d.actions
            &&& r.1 == d.halted
        }),
    decreases cur.0,
{
    if !w.is_live(cur) {
        return (Vec::new(), false);
    }
    let resp = radio_group_on_button_click(w, cur, src);
    if resp.halt {
        return (resp.actions, true);
    }
    let p = match w.parent_of(cur) {
        Some(p) => p,
        None => {
            return (resp.actions, false);
        },
    };
    if p.0 >= cur.0 {
        return (resp.actions, false);
    }
    if !w.is_live(p) {
        return (resp.actions, false);
    }
    let rest = dispatch_clicked_from(w, p, src);
    let mut actions = resp.actions;
    let mut rest_actions = rest.0;
    actions.append(&mut rest_actions);
    (actions, rest.1)
}

/// Bubble each emitted `ButtonClicked` in order. One that no observer
/// consumed is handed to the application as an action.
pub open spec fn process_clicks_spec(v: WorldView, clicks: Seq<Entity>) -> (WorldView, Seq<Action>)
    decreases clicks.len(),
{
    if clicks.len() == 0 {
        (v, Seq::empty())
    } else {
        let d = dispatch_clicked_spec(v, clicks[0], clicks[0]);
        let emitted = if d.halted {
            d.actions
        } else {
            d.actions + seq![Action::EmitButtonClicked { target: clicks[0], event: ButtonClicked }]
        };
        let rest = process_clicks_spec(d.world, clicks.skip(1));
        (rest.0, emitted + rest.1)
    }
}

/// Bubble the pending `ButtonClicked` notifications, from index `i` on.
fn process_clicks(w: &mut UiWorld, clicks: &Vec<Entity>, i: usize) -> (r: Vec<Action>)
    requires
        wf(old(w)@),
        i <= clicks@.len(),
    ensures
        wf(final(w)@),
        ({
            let p = process_clicks_spec(old(w)@, clicks@.skip(i as int));
            &&& final(w)@ == p.0
            &&& r@ == p.1
        }),
    decreases clicks@.len() - i,
{
    if i == clicks.len() {
        return Vec::new();
    }
    proof {
        assert(clicks@.skip(i as int)[0] == clicks@[i as int]);
        assert(clicks@.skip(i as int).skip(1) =~= clicks@.skip(i as int + 1));
    }
    let src = clicks[i];
    let (mut actions, consumed) = dispatch_clicked_from(w, src, src);
    if !consumed {
        actions.push(Action::EmitButtonClicked { target: src, event: ButtonClicked });
    }
    let mut rest = process_clicks(w, clicks, i + 1);
    actions.append(&mut rest);
    actions
}

/// The world and actions a full event dispatch produces: the input event
/// propagates from its target, then every `ButtonClicked` emitted along the
/// way bubbles in turn.
pub open spec fn handle_event_spec(v: WorldView, target: Entity, ev: UiEvent) -> (
    WorldView,
    Seq<Action>,
) {
    let d = dispatch_spec(v, target, ev);
    let p = process_clicks_spec(d.world, d.clicks);
    (p.0, d.actions + p.1)
}

/// Dispatch one input event delivered to `target`: run the widget observers
/// along the ancestor chain, bubble any `ButtonClicked` they emitted, and
/// hand back the actions for the application to perform, in order. All
/// component mutation requested by the observers is applied before this
/// returns.
pub fn handle_event(w: &mut UiWorld, target: Entity, ev: UiEvent) -> (r: Vec<Action>)
    requires
        wf(old(w)@),
    ensures
        wf(final(w)@),
        final(w)@ == handle_event_spec(old(w)@, target, ev).0,
        r@ == handle_event_spec(old(w)@, target, ev).1,
{
    let (mut actions, clicks, _halted) = dispatch_from(w, target, ev);
    proof {
        assert(clicks@.skip(0) =~= clicks@);
    }
    let mut emitted = process_clicks(w, &clicks, 0);
    actions.append(&mut emitted);
    actions
}

/// Two worlds with the same tree structure: the same arena size, and the
/// same liveness flag and parent link in every slot.
pub open spec fn same_structure(v1: WorldView, v2: WorldView) -> bool {
    &&& v1.nodes.len() == v2.nodes.len()
    &&& forall|i: int|
        0 <= i < v1.nodes.len() ==> (#[trigger] v2.nodes[i]).live == v1.nodes[i].live
            && v2.nodes[i].parent == v1.nodes[i].parent
}

/// Observers mutate components, never the tree: the world an observer
/// leaves behind has the same liveness flags and parent links.
pub proof fn lemma_observe_preserves_structure(v: WorldView, e: Entity, ev: UiEvent)
    ensures
        same_structure(v, observe_spec(v, e, ev).world),
{
}

/// The `ButtonClicked` observer mutates only focus state, never the tree.
pub proof fn lemma_clicked_preserves_structure(v: WorldView, cur: Entity, src: Entity)
    ensures
        same_structure(v, radio_group_click_spec(v, cur, src).world),
{
}

/// Worlds with the same tree structure have the same propagation chains.
pub proof fn lemma_chain_same_structure(v1: WorldView, v2: WorldView, e: Entity)
    requires
        same_structure(v1, v2),
    ensures
        chain(v1, e) == chain(v2, e),
    decreases e.0,
{
    if is_live(v1, e) {
        match rec_of(v1, e).parent {
            Some(p) => {
                if p.0 < e.0 && is_live(v1, p) {
                    lemma_chain_same_structure(v1, v2, p);
                }
            },
            None => {},
        }
    }
}

/// Law: propagation halts at the first observer that asks it to. The
/// entities an input event visits are exactly a prefix of the target's
/// ancestor chain; no entity before the last visited one halted; without a
/// halt the whole chain is visited; and with one, the last visited entity
/// is the one whose observer halted — so an observer attached to any
/// ancestor above it never runs.
pub proof fn lemma_propagation_halt(v: WorldView, target: Entity, ev: UiEvent)
    ensures
        ({
            let d = dispatch_spec(v, target, ev);
            let c = chain(v, target);
            &&& d.visited.len() == d.halts.len()
            &&& d.visited.len() <= c.len()
            &&& forall|j: int| 0 <= j < d.visited.len() ==> d.visited[j] == c[j]
            &&& forall|j: int| 0 <= j < d.halts.len() - 1 ==> !d.halts[j]
            &&& (!d.halted ==> d.visited == c)
            &&& (d.halted ==> d.halts.len() >= 1 && d.halts[d.halts.len() - 1])
        }),
    decreases target.0,
{
    if is_live(v, target) {
        let r = observe_spec(v, target, ev);
        lemma_observe_preserves_structure(v, target, ev);
        let cont = !r.halt && (match rec_of(r.world, target).parent {
            Some(p) => p.0 < target.0 && is_live(r.world, p),
            None => false,
        });
        if cont {
            let p = rec_of(r.world, target).parent->Some_0;
            lemma_propagation_halt(r.world, p, ev);
            lemma_chain_same_structure(v, r.world, p);
            assert(chain(v, target) == seq![target] + chain(v, p));
        }
    }
}

/// Law: a bubbling `ButtonClicked` visits exactly a prefix of its source's
/// ancestor chain and stops at the first observer that consumes it; an
/// ancestor container's observer above that point never runs.
pub proof fn lemma_clicked_propagation_halt(v: WorldView, target: Entity, src: Entity)
    ensures
        ({
            let d = dispatch_clicked_spec(v, target, src);
            let c = chain(v, target);
            &&& d.visited.len() == d.halts.len()
            &&& d.visited.len() <= c.len()
            &&& forall|j: int| 0 <= j < d.visited.len() ==> d.visited[j] == c[j]
            &&& forall|j: int| 0 <= j < d.halts.len() - 1 ==> !d.halts[j]
            &&& (!d.halted ==> d.visited == c)
            &&& (d.halted ==> d.halts.len() >= 1 && d.halts[d.halts.len() - 1])
        }),
    decreases target.0,
{
    if is_live(v, target) {
        let r = radio_group_click_spec(v, target, src);
        lemma_clicked_preserves_structure(v, target, src);
        let cont = !r.halt && (match rec_of(r.world, target).parent {
            Some(p) => p.0 < target.0 && is_live(r.world, p),
            None => false,
        });
        if cont {
            let p = rec_of(r.world, target).parent->Some_0;
            lemma_clicked_propagation_halt(r.world, p, src);
            lemma_chain_same_structure(v, r.world, p);
            assert(chain(v, target) == seq![target] + chain(v, p));
        }
    }
}

} // verus!
