//! Reusable interaction-state components attached to widget entities.

use vstd::prelude::*;

verus! {

/// A marker component to indicate that a widget is disabled and should be
/// "grayed out". Its presence suppresses value-changing reactions to input,
/// but never suppresses focus acquisition or hover updates. Adding or
/// removing it synchronously updates the accessibility "disabled" state.
#[derive(Clone, Copy, Debug, PartialEq, Eq, Structural)]
pub struct InteractionDisabled;

/// Component that indicates whether a button is currently pressed. This is
/// true while a press-and-hold or drag gesture is in progress.
#[derive(Clone, Copy, Debug, PartialEq, Eq, Structural)]
pub struct ButtonPressed(pub bool);

/// Component that indicates whether a checkbox or radio button is in a
/// checked state. Every write re-derives the accessibility "toggled" state.
#[derive(Clone, Copy, Debug, PartialEq, Eq, Structural)]
pub struct Checked(pub bool);

} // verus!
