//! Opaque handles: entity ids in the widget tree and callback handles.

use vstd::prelude::*;

verus! {

/// A handle to an entity in the widget tree. Entities are slots in an arena;
/// a handle may refer to a slot that has since been despawned, and every
/// consumer must treat "resolves to nothing" as an ordinary, silent case.
#[derive(Clone, Copy, Debug, PartialEq, Eq, Structural)]
pub struct Entity(pub usize);

/// A handle to an application-registered callback. The library never runs a
/// callback itself; it reports which callback to run, with which argument.
#[derive(Clone, Copy, Debug, PartialEq, Eq, Structural)]
pub struct CallbackId(pub u64);

} // verus!
