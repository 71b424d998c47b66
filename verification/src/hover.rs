//! Hover tracking: a per-frame pass that computes, for every entity that
//! opted in, whether the pointer is over it or over any of its descendants.

use vstd::prelude::*;
use crate::entity::Entity;
use crate::world::{in_chain, is_live, rec_of, rec_wf, wf, EntityRec, UiWorld, WorldView};

verus! {

/// Component which indicates that the entity is interested in knowing when
/// the pointer is hovering over it or any of its descendants.
#[derive(Clone, Copy, Debug, PartialEq, Eq, Structural)]
pub struct Hovering(pub bool);

/// Whether `e` is hovered: some entity in the hover set is `e` itself or a
/// descendant of `e` (that is, `e` lies on its ancestor chain).
pub open spec fn spec_is_hovered(v: WorldView, hs: Seq<Entity>, e: Entity) -> bool {
    exists|j: int| 0 <= j < hs.len() && in_chain(v, hs[j], e)
}

/// The world after the hover pass: every live entity that opted in carries
/// the freshly computed flag; everything else is untouched.
pub open spec fn hover_updated(v: WorldView, hs: Seq<Entity>) -> WorldView {
    WorldView {
        nodes: Seq::new(
            v.nodes.len(),
            |i: int|
                if v.nodes[i].live && v.nodes[i].hovering is Some {
                    EntityRec {
                        hovering: Some(Hovering(spec_is_hovered(v, hs, Entity(i as usize)))),
                        ..v.nodes[i]
                    }
                } else {
                    v.nodes[i]
                },
        ),
        ..v
    }
}

/// Whether `a` is `h` or one of `h`'s ancestors, walking live parent links.
pub fn chain_contains(w: &UiWorld, h: Entity, a: Entity) -> (r: bool)
    ensures
        r == in_chain(w@, h, a),
{
    if !w.is_live(h) {
        return false;
    }
    let mut cur = h;
    loop
        invariant
            is_live(w@, cur),
            in_chain(w@, h, a) == in_chain(w@, cur, a),
        decreases cur.0,
    {
        if cur.0 == a.0 {
            proof {
                assert(cur == a);
            }
            return true;
        }
        let p = match w.node_at(cur).parent {
            Some(p) => p,
            None => {
                return false;
            },
        };
        if p.0 >= cur.0 {
            return false;
        }
        if !w.is_live(p) {
            proof {
                assert(!in_chain(w@, p, a));
            }
            return false;
        }
        cur = p;
    }
}

/// Whether any entity of the hover set is `e` or one of its descendants.
fn is_hovered_by(w: &UiWorld, hover: &Vec<Entity>, e: Entity) -> (r: bool)
    ensures
        r == spec_is_hovered(w@, hover@, e),
{
    let n = hover.len();
    let mut j: usize = 0;
    while j < n
        invariant
            n == hover@.len(),
            j <= n,
            forall|k: int| 0 <= k < j ==> !in_chain(w@, hover@[k], e),
        decreases n - j,
    {
        if chain_contains(w, hover[j], e) {
            proof {
                assert(in_chain(w@, hover@[j as int], e));
            }
            return true;
        }
        j = j + 1;
    }
    false
}

/// The per-frame hover pass: recompute the hover flag of every entity that
/// opted in, from the set of entities currently under the pointer.
pub fn update_hover_states(w: &mut UiWorld, hover: &Vec<Entity>)
    requires
        wf(old(w)@),
    ensures
        wf(final(w)@),
        final(w)@ == hover_updated(old(w)@, hover@),
{
    let n = w.entity_count();
    // First pass: compute every flag against the unmodified world.
    let mut flags: Vec<bool> = Vec::new();
    let mut i: usize = 0;
    while i < n
        invariant
            n == w@.nodes.len(),
            i <= n,
            flags@.len() == i,
            forall|k: int| 0 <= k < i ==> flags@[k] == spec_is_hovered(w@, hover@, Entity(
                k as usize,
            )),
        decreases n - i,
    {
        let f = is_hovered_by(w, hover, Entity(i));
        flags.push(f);
        i = i + 1;
    }
    // Second pass: write the flags of the opted-in entities.
    let mut i: usize = 0;
    while i < n
        invariant
            wf(w@),
            n == old(w)@.nodes.len(),
            i <= n,
            w@.nodes.len() == n,
            w@.focus == old(w)@.focus,
            w@.focus_visible == old(w)@.focus_visible,
            flags@.len() == n,
            forall|k: int| 0 <= k < n ==> flags@[k] == spec_is_hovered(old(w)@, hover@, Entity(
                k as usize,
            )),
            forall|j: int|
                0 <= j < n ==> #[trigger] w@.nodes[j] == (if j < i && old(w)@.nodes[j].live
                    && old(w)@.nodes[j].hovering is Some {
                    EntityRec {
                        hovering: Some(
                            Hovering(spec_is_hovered(old(w)@, hover@, Entity(j as usize))),
                        ),
                        ..old(w)@.nodes[j]
                    }
                } else {
                    old(w)@.nodes[j]
                }),
        decreases n - i,
    {
        proof {
            assert(w@.nodes[i as int] == old(w)@.nodes[i as int]);
        }
        let rec = w.node_at(Entity(i));
        if rec.live && rec.hovering.is_some() {
            let ghost pre = w@;
            let mut rec2 = rec;
            rec2.hovering = Some(Hovering(flags[i]));
            w.set_node(Entity(i), rec2);
            proof {
                assert(wf(w@)) by {
                    assert forall|k: int| 0 <= k < w@.nodes.len() implies #[trigger] rec_wf(
                        w@,
                        k,
                    ) by {
                        assert(rec_wf(pre, k));
                    }
                }
            }
        }
        i = i + 1;
    }
    proof {
        assert(w@ =~= hover_updated(old(w)@, hover@)) by {
            assert(w@.nodes =~= hover_updated(old(w)@, hover@).nodes);
        }
    }
}

} // verus!
