//! A headless radio group: turns a child radio's raw click into group-level
//! selection semantics, and owns the roving keyboard navigation over the
//! enabled child radios (arrow keys with wraparound, Home and End).
//!
//! The group keeps no state of its own and makes no assumption about what
//! value each radio represents: it emits a `ValueChange` event carrying the
//! id of the selected radio (or runs the configured callback with it), and
//! the receiver decides which `Checked` components flip.

use vstd::prelude::*;
use crate::entity::{CallbackId, Entity};
use crate::events::{spec_noop, Action, Key, KeyInput, Response, SpecResponse, ValueChange};
use crate::interaction_states::Checked;
use crate::world::{is_live, rec_of, rec_wf, wf, AccessState, EntityRec, UiWorld, Widget,
    WorldView};

verus! {

/// Marker and configuration for a radio group entity. `on_change` is the
/// callback run with the newly selected radio entity; `None` means a
/// bubbling `ValueChange` event targeted at the group is emitted instead.
#[derive(Clone, Copy, Debug, PartialEq, Eq)]
pub struct CoreRadioGroup {
    pub on_change: Option<CallbackId>,
}

/// Whether `e` is a live radio button that is a direct child of `g`
/// (disabled or not).
pub open spec fn is_radio_child(v: WorldView, g: Entity, e: Entity) -> bool {
    &&& is_live(v, e)
    &&& rec_of(v, e).widget is Radio
    &&& rec_of(v, e).parent == Some(g)
}

/// Whether `e` takes part in the group's navigation and selection: a live,
/// enabled radio that is a direct child of `g`.
pub open spec fn is_enabled_radio_child(v: WorldView, g: Entity, e: Entity) -> bool {
    is_radio_child(v, g, e) && rec_of(v, e).disabled is None
}

/// The enabled radio children of `g` among the first `n` slots, in child
/// order (ascending spawn order).
pub open spec fn radio_children_upto(v: WorldView, g: Entity, n: nat) -> Seq<Entity>
    decreases n,
{
    if n == 0 {
        Seq::empty()
    } else {
        radio_children_upto(v, g, (n - 1) as nat) + if is_enabled_radio_child(
            v,
            g,
            Entity((n - 1) as usize),
        ) {
            seq![Entity((n - 1) as usize)]
        } else {
            Seq::empty()
        }
    }
}

/// The ordered list of enabled radio children of `g`: the navigable list.
/// Disabled radios are excluded entirely.
pub open spec fn enabled_radio_children(v: WorldView, g: Entity) -> Seq<Entity> {
    radio_children_upto(v, g, v.nodes.len())
}

/// Every element of the navigable list is an enabled radio child of `g`.
pub proof fn lemma_radio_children_elems(v: WorldView, g: Entity, n: nat)
    ensures
        forall|j: int|
            0 <= j < radio_children_upto(v, g, n).len() ==> is_enabled_radio_child(
                v,
                g,
                #[trigger] radio_children_upto(v, g, n)[j],
            ),
    decreases n,
{
    if n > 0 {
        lemma_radio_children_elems(v, g, (n - 1) as nat);
        let prev = radio_children_upto(v, g, (n - 1) as nat);
        let cur = radio_children_upto(v, g, n);
        assert forall|j: int| 0 <= j < cur.len() implies is_enabled_radio_child(
            v,
            g,
            cur[j],
        ) by {
            if j < prev.len() {
                assert(cur[j] == prev[j]);
            } else {
                assert(cur[j] == Entity((n - 1) as usize));
            }
        }
    }
}

/// Whether `e` currently has `Checked(true)`.
pub open spec fn spec_checked(v: WorldView, e: Entity) -> bool {
    rec_of(v, e).checked matches Some(c) && c.0
}

/// The index of the first checked entity in `s` at or after `i`, if any.
pub open spec fn first_checked_from(v: WorldView, s: Seq<Entity>, i: nat) -> Option<int>
    decreases s.len() - i,
{
    if i >= s.len() {
        None
    } else if spec_checked(v, s[i as int]) {
        Some(i as int)
    } else {
        first_checked_from(v, s, i + 1)
    }
}

/// Whether a key takes part in roving navigation.
pub open spec fn is_nav_key(key: Key) -> bool {
    match key {
        Key::ArrowUp | Key::ArrowDown | Key::ArrowLeft | Key::ArrowRight | Key::Home
            | Key::End => true,
        _ => false,
    }
}

/// The index the navigation keys move the selection to, within a navigable
/// list of length `len >= 1` whose current selection sits at `current`
/// (`None` when no radio is checked). ArrowUp / ArrowLeft move to the
/// previous entry, wrapping from the first to the last; ArrowDown /
/// ArrowRight move to the next, wrapping from the last to the first; Home
/// and End jump to the first and last entry regardless of `current`. With
/// no current selection, the previous-keys land on the last entry and the
/// next-keys on the first.
pub open spec fn nav_target_index(key: Key, current: Option<int>, len: int) -> Option<int> {
    match key {
        Key::ArrowUp | Key::ArrowLeft => Some(
            match current {
                Some(i) => if i == 0 {
                    len - 1
                } else {
                    i - 1
                },
                None => len - 1,
            },
        ),
        Key::ArrowDown | Key::ArrowRight => Some(
            match current {
                Some(i) => if i >= len - 1 {
                    0
                } else {
                    i + 1
                },
                None => 0,
            },
        ),
        Key::Home => Some(0),
        Key::End => Some(len - 1),
        _ => None,
    }
}

/// The radio that a navigation key selects in group `g`, or `None` when the
/// group has no enabled radios, the key is not a navigation key, or the
/// target of the move is already the current selection.
pub open spec fn group_nav_result(v: WorldView, g: Entity, key: Key) -> Option<Entity> {
    let radios = enabled_radio_children(v, g);
    if radios.len() == 0 {
        None
    } else {
        let current = first_checked_from(v, radios, 0);
        match nav_target_index(key, current, radios.len() as int) {
            Some(n) => if current == Some(n) {
                None
            } else {
                Some(radios[n])
            },
            None => None,
        }
    }
}

/// The action a group selection requests: the configured callback run with
/// the selected radio, or a bubbling `ValueChange` carrying it, targeted at
/// the group.
pub open spec fn group_select_action(v: WorldView, g: Entity, selected: Entity) -> Action {
    match rec_of(v, g).widget->RadioGroup_0.on_change {
        Some(id) => Action::RunCallbackEntity { id, entity: selected },
        None => Action::EmitEntityChange { target: g, change: ValueChange(selected) },
    }
}

/// What a radio group does with a key event while it holds focus: a fresh
/// press of a navigation key is consumed, and when the move lands on a new
/// enabled radio, its selection is requested; a move that would not change
/// the selection is consumed but requests nothing. With zero enabled radios
/// all keyboard handling is a no-op: the key is not even consumed, and keeps
/// propagating.
pub open spec fn radio_group_key_spec(v: WorldView, g: Entity, input: KeyInput) -> SpecResponse {
    if is_live(v, g) && rec_of(v, g).widget is RadioGroup {
        if input.pressed && !input.repeat && is_nav_key(input.key) && enabled_radio_children(
            v,
            g,
        ).len() > 0 {
            let actions = match group_nav_result(v, g, input.key) {
                Some(t) => seq![group_select_action(v, g, t)],
                None => Seq::empty(),
            };
            SpecResponse { world: v, halt: true, actions, bubble_click: None }
        } else {
            spec_noop(v)
        }
    } else {
        spec_noop(v)
    }
}

/// What a radio group does when a `ButtonClicked` bubbled to it from a
/// direct child radio `src`. With zero enabled radios all click handling is
/// a no-op: nothing changes (in particular no focus write) and the
/// notification keeps propagating. Otherwise the group takes focus (ring
/// suppressed — roving focus belongs to the group, so that the arrow keys
/// work from here on) and consumes the notification; unless `src` is already
/// the current selection, its selection is requested — on the current
/// selection "do nothing" means no selection is emitted. The group itself
/// flips no `Checked` state.
pub open spec fn radio_group_click_spec(v: WorldView, visited: Entity, src: Entity)
    -> SpecResponse {
    if is_live(v, src) && rec_of(v, src).widget is Radio && rec_of(v, src).parent == Some(visited)
        && is_live(v, visited) && rec_of(v, visited).widget is RadioGroup {
        let after = WorldView { focus: Some(visited), focus_visible: false, ..v };
        let radios = enabled_radio_children(v, visited);
        if radios.len() == 0 {
            spec_noop(v)
        } else {
            let current = first_checked_from(v, radios, 0);
            let already = match current {
                Some(i) => radios[i] == src,
                None => false,
            };
            if already {
                SpecResponse {
                    world: after,
                    halt: true,
                    actions: Seq::empty(),
                    bubble_click: None,
                }
            } else {
                SpecResponse {
                    world: after,
                    halt: true,
                    actions: seq![group_select_action(v, visited, src)],
                    bubble_click: None,
                }
            }
        }
    } else {
        spec_noop(v)
    }
}

/// The navigable list of group `g`: its live, enabled radio children in
/// child order.
pub fn enabled_radios(w: &UiWorld, g: Entity) -> (r: Vec<Entity>)
    ensures
        r@ == enabled_radio_children(w@, g),
{
    let n = w.entity_count();
    let mut out: Vec<Entity> = Vec::new();
    let mut i: usize = 0;
    while i < n
        invariant
            n == w@.nodes.len(),
            i <= n,
            out@ == radio_children_upto(w@, g, i as nat),
        decreases n - i,
    {
        let rec = w.node_at(Entity(i));
        let ok = rec.live && (match rec.widget {
            Widget::Radio(_) => true,
            _ => false,
        }) && rec.disabled.is_none() && (match rec.parent {
            Some(p) => p.0 == g.0,
            None => false,
        });
        if ok {
            out.push(Entity(i));
        }
        proof {
            assert(out@ =~= radio_children_upto(w@, g, (i + 1) as nat));
        }
        i = i + 1;
    }
    out
}

/// The index of the first checked entry of the navigable list, if any.
fn first_checked(w: &UiWorld, g: Entity, radios: &Vec<Entity>) -> (r: Option<usize>)
    requires
        wf(w@),
        radios@ == enabled_radio_children(w@, g),
    ensures
        match r {
            Some(j) => j < radios@.len() && first_checked_from(w@, radios@, 0) == Some(j as int),
            None => first_checked_from(w@, radios@, 0) is None,
        },
{
    proof {
        lemma_radio_children_elems(w@, g, w@.nodes.len());
    }
    let n = radios.len();
    let mut j: usize = 0;
    while j < n
        invariant
            wf(w@),
            n == radios@.len(),
            j <= n,
            radios@ == enabled_radio_children(w@, g),
            forall|k: int|
                0 <= k < radios@.len() ==> is_enabled_radio_child(w@, g, #[trigger] radios@[k]),
            first_checked_from(w@, radios@, 0) == first_checked_from(w@, radios@, j as nat),
        decreases n - j,
    {
        let e = radios[j];
        proof {
            assert(is_enabled_radio_child(w@, g, radios@[j as int]));
            assert(rec_wf(w@, e.0 as int));
        }
        let rec = w.node_at(e);
        if rec.checked.unwrap().0 {
            return Some(j);
        }
        j = j + 1;
    }
    None
}

/// Observer for key input while the radio group holds focus: roving
/// navigation over the enabled child radios.
pub fn radio_group_on_key_input(w: &UiWorld, g: Entity, input: KeyInput) -> (r: Response)
    requires
        wf(w@),
    ensures
        ({
            let s = radio_group_key_spec(w@, g, input);
            &&& s.world == w@
            &&& r.halt == s.halt
            &&& r.actions@ == s.actions
            &&& r.bubble_click == s.bubble_click
        }),
{
    if !w.is_live(g) {
        return Response::noop();
    }
    let rec = w.node_at(g);
    let grp = match rec.widget {
        Widget::RadioGroup(grp) => grp,
        _ => {
            return Response::noop();
        },
    };
    let nav = match input.key {
        Key::ArrowUp | Key::ArrowDown | Key::ArrowLeft | Key::ArrowRight | Key::Home
            | Key::End => true,
        _ => false,
    };
    if !(input.pressed && !input.repeat && nav) {
        return Response::noop();
    }
    let radios = enabled_radios(w, g);
    if radios.len() == 0 {
        // Zero enabled radios: all keyboard handling is a no-op, and the
        // key is not consumed.
        return Response::noop();
    }
    let len = radios.len();
    let current = first_checked(w, g, &radios);
    let next: usize = match input.key {
        Key::ArrowUp | Key::ArrowLeft => match current {
            Some(i) => if i == 0 {
                len - 1
            } else {
                i - 1
            },
            None => len - 1,
        },
        Key::ArrowDown | Key::ArrowRight => match current {
            Some(i) => if i >= len - 1 {
                0
            } else {
                i + 1
            },
            None => 0,
        },
        Key::Home => 0,
        Key::End => len - 1,
        _ => 0,
    };
    proof {
        assert(nav_target_index(
            input.key,
            first_checked_from(w@, radios@, 0),
            radios@.len() as int,
        ) == Some(next as int));
    }
    let same = match current {
        Some(i) => i == next,
        None => false,
    };
    if same {
        return Response { halt: true, actions: Vec::new(), bubble_click: None };
    }
    let target = radios[next];
    let mut actions: Vec<Action> = Vec::new();
    match grp.on_change {
        Some(id) => actions.push(Action::RunCallbackEntity { id, entity: target }),
        None => actions.push(Action::EmitEntityChange { target: g, change: ValueChange(target) }),
    }
    proof {
        assert(actions@ =~= radio_group_key_spec(w@, g, input).actions);
    }
    Response { halt: true, actions, bubble_click: None }
}

/// Observer for a `ButtonClicked` notification visiting entity `visited`
/// while bubbling from its source `src`.
pub fn radio_group_on_button_click(w: &mut UiWorld, visited: Entity, src: Entity) -> (r: Response)
    requires
        wf(old(w)@),
    ensures
        wf(final(w)@),
        ({
            let s = radio_group_click_spec(old(w)@, visited, src);
            &&& final(w)@ == s.world
            &&& r.halt == s.halt
            &&& r.actions@ == s.actions
            &&& r.bubble_click == s.bubble_click
        }),
{
    if !w.is_live(src) {
        return Response::noop();
    }
    let src_rec = w.node_at(src);
    let matched = (match src_rec.widget {
        Widget::Radio(_) => true,
        _ => false,
    }) && (match src_rec.parent {
        Some(p) => p.0 == visited.0,
        None => false,
    });
    if !matched {
        return Response::noop();
    }
    if !w.is_live(visited) {
        return Response::noop();
    }
    let grp_rec = w.node_at(visited);
    let grp = match grp_rec.widget {
        Widget::RadioGroup(grp) => grp,
        _ => {
            // The radio's parent is not a radio group: ignore the click and
            // let it keep propagating.
            return Response::noop();
        },
    };
    let radios = enabled_radios(w, visited);
    if radios.len() == 0 {
        // Zero enabled radios: all click handling is a no-op — no focus
        // write — and the notification keeps propagating.
        return Response::noop();
    }
    let current = first_checked(w, visited, &radios);
    w.set_focus(Some(visited), false);
    proof {
        assert(wf(w@)) by {
            assert forall|i: int| 0 <= i < w@.nodes.len() implies #[trigger] rec_wf(w@, i) by {
                assert(rec_wf(old(w)@, i));
            }
        }
        assert(w@ == radio_group_click_spec(old(w)@, visited, src).world);
    }
    let already = match current {
        Some(i) => {
            let c = radios[i];
            c.0 == src.0
        },
        None => false,
    };
    if already {
        return Response { halt: true, actions: Vec::new(), bubble_click: None };
    }
    let mut actions: Vec<Action> = Vec::new();
    match grp.on_change {
        Some(id) => actions.push(Action::RunCallbackEntity { id, entity: src }),
        None => actions.push(Action::EmitEntityChange { target: visited, change: ValueChange(src) }),
    }
    proof {
        assert(actions@ =~= radio_group_click_spec(old(w)@, visited, src).actions);
    }
    Response { halt: true, actions, bubble_click: None }
}

/// The world after the canonical receiver applied a group selection: every
/// live radio child of `g` has `Checked(child == selected)`, with its
/// accessibility toggled state re-derived; every other entity is untouched.
pub open spec fn apply_selection_spec(v: WorldView, g: Entity, selected: Entity) -> WorldView {
    WorldView {
        nodes: Seq::new(
            v.nodes.len(),
            |i: int|
                if is_radio_child(v, g, Entity(i as usize)) {
                    EntityRec {
                        checked: Some(Checked(Entity(i as usize) == selected)),
                        access: Some(
                            AccessState {
                                toggled: Some(Entity(i as usize) == selected),
                                ..v.nodes[i].access->Some_0
                            },
                        ),
                        ..v.nodes[i]
                    }
                } else {
                    v.nodes[i]
                },
        ),
        ..v
    }
}

/// The canonical receiver of a group-level selection (`ValueChange` carrying
/// a radio entity, or the callback argument): write `Checked(true)` on the
/// selected radio and `Checked(false)` on every other radio child of the
/// group, re-deriving each radio's accessibility toggled state in the same
/// mutation.
pub fn apply_group_selection(w: &mut UiWorld, g: Entity, selected: Entity)
    requires
        wf(old(w)@),
    ensures
        wf(final(w)@),
        final(w)@ == apply_selection_spec(old(w)@, g, selected),
{
    let n = w.entity_count();
    let mut i: usize = 0;
    while i < n
        invariant
            wf(w@),
            n == old(w)@.nodes.len(),
            i <= n,
            w@.nodes.len() == n,
            w@.focus == old(w)@.focus,
            w@.focus_visible == old(w)@.focus_visible,
            forall|j: int|
                0 <= j < n ==> #[trigger] w@.nodes[j] == (if j < i && is_radio_child(
                    old(w)@,
                    g,
                    Entity(j as usize),
                ) {
                    EntityRec {
                        checked: Some(Checked(Entity(j as usize) == selected)),
                        access: Some(
                            AccessState {
                                toggled: Some(Entity(j as usize) == selected),
                                ..old(w)@.nodes[j].access->Some_0
                            },
                        ),
                        ..old(w)@.nodes[j]
                    }
                } else {
                    old(w)@.nodes[j]
                }),
        decreases n - i,
    {
        let e = Entity(i);
        proof {
            assert(w@.nodes[i as int] == old(w)@.nodes[i as int]);
        }
        let rec = w.node_at(e);
        let is_child = rec.live && (match rec.widget {
            Widget::Radio(_) => true,
            _ => false,
        }) && (match rec.parent {
            Some(p) => p.0 == g.0,
            None => false,
        });
        if is_child {
            proof {
                assert(rec_wf(w@, i as int));
            }
            w.set_checked(e, e.0 == selected.0);
        }
        i = i + 1;
    }
    proof {
        assert(w@ =~= apply_selection_spec(old(w)@, g, selected)) by {
            assert(w@.nodes =~= apply_selection_spec(old(w)@, g, selected).nodes);
        }
    }
}

/// Law: after the canonical receiver applies a selection, the selected radio
/// is the only checked radio child of the group — mutual exclusion holds.
pub proof fn lemma_radio_mutual_exclusion(v: WorldView, g: Entity, selected: Entity)
    ensures
        ({
            let after = apply_selection_spec(v, g, selected);
            forall|e: Entity|
                is_radio_child(v, g, e) ==> (#[trigger] spec_checked(after, e) <==> e == selected)
        }),
{
    let after = apply_selection_spec(v, g, selected);
    assert forall|e: Entity| is_radio_child(v, g, e) implies (#[trigger] spec_checked(after, e)
        <==> e == selected) by {
        assert(after.nodes[e.0 as int] == apply_selection_spec(v, g, selected).nodes[e.0 as int]);
    }
}

/// Law: moving backwards (ArrowUp / ArrowLeft) from the first entry of the
/// navigable list wraps around to the last entry; moving forwards
/// (ArrowDown / ArrowRight) from the last entry wraps around to the first.
pub proof fn lemma_navigation_wraparound(current: Option<int>, len: int)
    requires
        len >= 1,
    ensures
        current == Some(0int) ==> nav_target_index(Key::ArrowUp, current, len) == Some(len - 1)
            && nav_target_index(Key::ArrowLeft, current, len) == Some(len - 1),
        current == Some(len - 1) ==> nav_target_index(Key::ArrowDown, current, len) == Some(0int)
            && nav_target_index(Key::ArrowRight, current, len) == Some(0int),
{
}

/// Law: keyboard navigation never selects a disabled radio. Whatever radio
/// a navigation key lands on is a live, enabled radio child of the group,
/// wherever disabled radios sit in the child order.
pub proof fn lemma_navigation_selects_enabled(v: WorldView, g: Entity, key: Key)
    ensures
        group_nav_result(v, g, key) matches Some(t) ==> is_enabled_radio_child(v, g, t)
            && rec_of(v, t).disabled is None,
{
    lemma_radio_children_elems(v, g, v.nodes.len());
    let radios = enabled_radio_children(v, g);
    if radios.len() > 0 {
        let current = first_checked_from(v, radios, 0);
        lemma_first_checked_bounds(v, radios, 0);
        match nav_target_index(key, current, radios.len() as int) {
            Some(n) => {
                if current != Some(n) {
                    assert(0 <= n < radios.len());
                }
            },
            None => {},
        }
    }
}

/// The index returned by `first_checked_from` is within bounds.
pub proof fn lemma_first_checked_bounds(v: WorldView, s: Seq<Entity>, i: nat)
    requires
        i <= s.len(),
    ensures
        first_checked_from(v, s, i) matches Some(j) ==> i <= j < s.len(),
    decreases s.len() - i,
{
    if i < s.len() && !spec_checked(v, s[i as int]) {
        lemma_first_checked_bounds(v, s, i + 1);
    }
}

} // verus!
