//! The bridge to the accessibility tree: push the library's per-entity
//! accessibility model (`AccessState`) into real `accesskit::Node` values.
//! The library only ever writes to the accessibility tree, never reads from
//! it during its logic; the getters exist so that what was written can be
//! observed.

use vstd::prelude::*;
use crate::world::AccessState;

verus! {

/// The widget roles this library assigns to accessibility nodes.
#[derive(Clone, Copy, Debug, PartialEq, Eq, Structural)]
pub enum AccessRole {
    Button,
    CheckBox,
    RadioButton,
    RadioGroup,
    Slider,
}

#[verifier::external_type_specification]
#[verifier::external_body]
pub struct ExAccessNode(accesskit::Node);

/// The toggled state stored in an accessibility node, read as a boolean
/// (a node toggled `True` reads as `Some(true)`; any other stored state
/// reads as `Some(false)`; an unset property reads as `None`).
pub uninterp spec fn node_toggled(n: accesskit::Node) -> Option<bool>;

/// The disabled flag stored in an accessibility node.
pub uninterp spec fn node_disabled(n: accesskit::Node) -> bool;

/// Relies on accesskit::Node::new: a fresh node has no properties and no
/// flags set, so its toggled state is unset and it is not disabled.
#[verifier::external_body]
pub(crate) fn new_access_node(role: AccessRole) -> (r: accesskit::Node)
    ensures
        node_toggled(r) is None,
        !node_disabled(r),
{
    accesskit::Node::new(
        match role {
            AccessRole::Button => accesskit::Role::Button,
            AccessRole::CheckBox => accesskit::Role::CheckBox,
            AccessRole::RadioButton => accesskit::Role::RadioButton,
            AccessRole::RadioGroup => accesskit::Role::RadioGroup,
            AccessRole::Slider => accesskit::Role::Slider,
        },
    )
}

/// Relies on accesskit::Node::set_toggled: it stores exactly the given
/// toggled state in the node's property table and touches nothing else, in
/// particular not the disabled flag, which lives in the separate flag set.
#[verifier::external_body]
pub(crate) fn set_node_toggled(n: &mut accesskit::Node, value: bool)
    ensures
        node_toggled(*final(n)) == Some(value),
        node_disabled(*final(n)) == node_disabled(*old(n)),
{
    n.set_toggled(
        if value {
            accesskit::Toggled::True
        } else {
            accesskit::Toggled::False
        },
    );
}

/// Relies on accesskit::Node::set_disabled: it sets one bit in the node's
/// flag set and touches nothing else, in particular not the property table
/// that holds the toggled state.
#[verifier::external_body]
pub(crate) fn set_node_disabled(n: &mut accesskit::Node)
    ensures
        node_disabled(*final(n)),
        node_toggled(*final(n)) == node_toggled(*old(n)),
{
    n.set_disabled();
}

/// Relies on accesskit::Node::clear_disabled: it clears one bit in the
/// node's flag set and touches nothing else.
#[verifier::external_body]
pub(crate) fn clear_node_disabled(n: &mut accesskit::Node)
    ensures
        !node_disabled(*final(n)),
        node_toggled(*final(n)) == node_toggled(*old(n)),
{
    n.clear_disabled();
}

/// Relies on accesskit::Node::toggled: it reads back the stored toggled
/// state (True reads as true, False and Mixed as false, unset as None).
#[verifier::external_body]
pub(crate) fn get_node_toggled(n: &accesskit::Node) -> (r: Option<bool>)
    ensures
        r == node_toggled(*n),
{
    match n.toggled() {
        Some(accesskit::Toggled::True) => Some(true),
        Some(_) => Some(false),
        None => None,
    }
}

/// Relies on accesskit::Node::is_disabled: it reads back the disabled flag.
#[verifier::external_body]
pub(crate) fn get_node_disabled(n: &accesskit::Node) -> (r: bool)
    ensures
        r == node_disabled(*n),
{
    n.is_disabled()
}

/// Build the accessibility node for a widget of the given role: a fresh
/// node with no toggled state and the disabled flag clear.
pub fn build_access_node(role: AccessRole) -> (r: accesskit::Node)
    ensures
        node_toggled(r) is None,
        !node_disabled(r),
{
    new_access_node(role)
}

/// Read the toggled state stored in an accessibility node.
pub fn read_toggled(n: &accesskit::Node) -> (r: Option<bool>)
    ensures
        r == node_toggled(*n),
{
    get_node_toggled(n)
}

/// Read the disabled flag stored in an accessibility node.
pub fn read_disabled(n: &accesskit::Node) -> (r: bool)
    ensures
        r == node_disabled(*n),
{
    get_node_disabled(n)
}

/// Push an entity's accessibility model into its real accessibility node:
/// afterwards the node's toggled state and disabled flag are exactly the
/// model's. (The numeric range state of sliders is pushed by the embedding
/// application, which owns the conversion into its numeric types.)
pub fn apply_access_state(n: &mut accesskit::Node, st: &AccessState)
    ensures
        node_disabled(*final(n)) == st.disabled,
        st.toggled matches Some(t) ==> node_toggled(*final(n)) == Some(t),
        st.toggled is None ==> node_toggled(*final(n)) == node_toggled(*old(n)),
{
    if let Some(t) = st.toggled {
        set_node_toggled(n, t);
    }
    if st.disabled {
        set_node_disabled(n);
    } else {
        clear_node_disabled(n);
    }
}

} // verus!
