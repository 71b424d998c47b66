//! Cursor tracking: resolve the cursor icon declared by the hovered entity
//! (or its nearest ancestor that declares one), and decide which windows
//! need their cursor icon rewritten. Icons are application-chosen ids; the
//! embedding application maps them to platform cursors.

use vstd::prelude::*;
use crate::entity::Entity;
use crate::world::{is_live, rec_of, UiWorld, WorldView};

verus! {

/// The icon declared by `h` or by its nearest ancestor that declares one,
/// walking live parent links; `None` when nobody on the chain declares one.
pub open spec fn icon_in_chain(v: WorldView, h: Entity) -> Option<u32>
    decreases h.0,
{
    if !is_live(v, h) {
        None
    } else if rec_of(v, h).cursor_icon is Some {
        rec_of(v, h).cursor_icon
    } else {
        match rec_of(v, h).parent {
            Some(p) => if p.0 < h.0 {
                icon_in_chain(v, p)
            } else {
                None
            },
            None => None,
        }
    }
}

/// The icon the pointer should show: the first entity of the hover set that
/// resolves an icon through `icon_in_chain` decides; `None` means the
/// platform default.
pub open spec fn resolve_cursor_spec(v: WorldView, hs: Seq<Entity>) -> Option<u32>
    decreases hs.len(),
{
    if hs.len() == 0 {
        None
    } else {
        match icon_in_chain(v, hs[0]) {
            Some(i) => Some(i),
            None => resolve_cursor_spec(v, hs.skip(1)),
        }
    }
}

/// Walk the ancestor chain of `h` for a declared cursor icon.
fn icon_lookup(w: &UiWorld, h: Entity) -> (r: Option<u32>)
    ensures
        r == icon_in_chain(w@, h),
{
    if !w.is_live(h) {
        return None;
    }
    let mut cur = h;
    loop
        invariant
            is_live(w@, cur),
            icon_in_chain(w@, h) == icon_in_chain(w@, cur),
        decreases cur.0,
    {
        let rec = w.node_at(cur);
        if let Some(icon) = rec.cursor_icon {
            return Some(icon);
        }
        let p = match rec.parent {
            Some(p) => p,
            None => {
                return None;
            },
        };
        if p.0 >= cur.0 {
            return None;
        }
        if !w.is_live(p) {
            proof {
                assert(icon_in_chain(w@, p) is None);
            }
            return None;
        }
        cur = p;
    }
}

/// The per-frame cursor pass: resolve the icon to show from the entities
/// currently under the pointer, in hover order.
pub fn resolve_cursor(w: &UiWorld, hover: &Vec<Entity>) -> (r: Option<u32>)
    ensures
        r == resolve_cursor_spec(w@, hover@),
{
    let n = hover.len();
    proof {
        assert(hover@.skip(0) =~= hover@);
    }
    let mut j: usize = 0;
    while j < n
        invariant
            n == hover@.len(),
            j <= n,
            resolve_cursor_spec(w@, hover@) == resolve_cursor_spec(w@, hover@.skip(j as int)),
        decreases n - j,
    {
        proof {
            assert(hover@.skip(j as int)[0] == hover@[j as int]);
        }
        if let Some(icon) = icon_lookup(w, hover[j]) {
            return Some(icon);
        }
        proof {
            assert(hover@.skip(j as int).skip(1) =~= hover@.skip(j as int + 1));
        }
        j = j + 1;
    }
    None
}

/// The windows (by index) whose cursor icon differs from `next` and must be
/// rewritten this frame, in ascending order; all other windows are left
/// untouched.
pub open spec fn stale_windows_upto(prev: Seq<Option<u32>>, next: Option<u32>, n: nat) -> Seq<
    usize,
>
    decreases n,
{
    if n == 0 {
        Seq::empty()
    } else {
        stale_windows_upto(prev, next, (n - 1) as nat) + if prev[n - 1] != next {
            seq![(n - 1) as usize]
        } else {
            Seq::empty()
        }
    }
}

/// Decide which windows need their cursor icon rewritten: exactly those
/// whose current icon differs from the resolved one. Writing only on change
/// keeps the per-frame pass from touching every window every frame.
pub fn windows_to_change(prev: &Vec<Option<u32>>, next: Option<u32>) -> (r: Vec<usize>)
    ensures
        r@ == stale_windows_upto(prev@, next, prev@.len()),
{
    let n = prev.len();
    let mut out: Vec<usize> = Vec::new();
    let mut i: usize = 0;
    while i < n
        invariant
            n == prev@.len(),
            i <= n,
            out@ == stale_windows_upto(prev@, next, i as nat),
        decreases n - i,
    {
        let differs = match (prev[i], next) {
            (Some(a), Some(b)) => a != b,
            (None, None) => false,
            _ => true,
        };
        if differs {
            out.push(i);
        }
        proof {
            assert(out@ =~= stale_windows_upto(prev@, next, (i + 1) as nat));
        }
        i = i + 1;
    }
    out
}

} // verus!
