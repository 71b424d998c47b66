//! Events: the raw input events delivered to a target entity, the bubbling
//! notifications the widgets emit, and the actions handed back to the caller.

use vstd::prelude::*;
use crate::entity::{CallbackId, Entity};
use crate::world::WorldView;

verus! {

/// An event that indicates a change in value of a property, emitted by
/// sliders, checkboxes and radio groups. The value is not clamped: the
/// receiver of the event is responsible for clamping it to the appropriate
/// range, so that it may quantize or otherwise modify the value first.
#[derive(Clone, Copy, Debug, PartialEq, Eq)]
pub struct ValueChange<T>(pub T);

/// A bubbling notification that a button-like widget was activated.
/// It carries no payload; the source entity identifies the button.
#[derive(Clone, Copy, Debug, PartialEq, Eq, Structural)]
pub struct ButtonClicked;

/// The keys the widgets react to. Every other key is `Other`.
#[derive(Clone, Copy, Debug, PartialEq, Eq, Structural)]
pub enum Key {
    ArrowUp,
    ArrowDown,
    ArrowLeft,
    ArrowRight,
    Home,
    End,
    Enter,
    Space,
    Other,
}

/// A keyboard event, as delivered by the input backend to the focused entity.
#[derive(Clone, Copy, Debug, PartialEq, Eq, Structural)]
pub struct KeyInput {
    pub key: Key,
    /// True for a key-down, false for a key-up.
    pub pressed: bool,
    /// True when this event is an auto-repeat of a held key.
    pub repeat: bool,
}

/// A pointer displacement in logical pixels, measured from the start of the
/// current drag gesture.
#[derive(Clone, Copy, Debug, PartialEq, Eq, Structural)]
pub struct Delta {
    pub x: i64,
    pub y: i64,
}

/// A raw input event, already targeted at a specific entity by the input
/// backend; it propagates from the target up the ancestor chain.
#[derive(Clone, Copy, Debug, PartialEq, Eq, Structural)]
pub enum UiEvent {
    PointerPressed,
    PointerClick,
    DragStart,
    DragMove(Delta),
    DragEnd,
    Key(KeyInput),
}

/// What a dispatch asks the application to do: run a registered callback, or
/// deliver a notification that no widget consumed.
#[derive(Clone, Copy, Debug, PartialEq, Eq)]
pub enum Action {
    /// Run a callback that takes a boolean (checkbox intent).
    RunCallbackBool { id: CallbackId, value: bool },
    /// Run a callback that takes the selected entity (radio group intent).
    RunCallbackEntity { id: CallbackId, entity: Entity },
    /// Run a callback that takes a numeric value (slider intent).
    RunCallbackValue { id: CallbackId, value: i64 },
    /// Run a callback with no argument (button click).
    RunCallback { id: CallbackId },
    /// Deliver `ValueChange<bool>` targeted at `target`.
    EmitBoolChange { target: Entity, change: ValueChange<bool> },
    /// Deliver `ValueChange<Entity>` targeted at `target`.
    EmitEntityChange { target: Entity, change: ValueChange<Entity> },
    /// Deliver `ValueChange<i64>` targeted at `target`.
    EmitValueChange { target: Entity, change: ValueChange<i64> },
    /// Deliver a `ButtonClicked` that no widget in the tree consumed.
    EmitButtonClicked { target: Entity, event: ButtonClicked },
}

/// What one entity's observers did with an event: whether propagation was
/// halted, the actions requested, and a `ButtonClicked` notification to
/// bubble from this entity afterwards, if any.
pub struct Response {
    pub halt: bool,
    pub actions: Vec<Action>,
    pub bubble_click: Option<Entity>,
}

/// The specification-level mirror of `Response`, together with the world as
/// the observers left it.
pub struct SpecResponse {
    pub world: WorldView,
    pub halt: bool,
    pub actions: Seq<Action>,
    pub bubble_click: Option<Entity>,
}

/// A response that halts nothing, does nothing and changes nothing.
pub open spec fn spec_noop(v: WorldView) -> SpecResponse {
    SpecResponse { world: v, halt: false, actions: Seq::empty(), bubble_click: None }
}

impl Response {
    /// The response of an observer that ignored the event.
    pub fn noop() -> (r: Response)
        ensures
            !r.halt,
            r.actions@ == Seq::<Action>::empty(),
            r.bubble_click is None,
    {
        Response { halt: false, actions: Vec::new(), bubble_click: None }
    }
}

} // verus!
