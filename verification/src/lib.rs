//! Headless interactive widgets for an entity-tree UI: buttons, checkboxes,
//! radio buttons and groups, sliders and scrollbars, together with the
//! event-propagation substrate that connects them. Each widget supplies
//! input-handling behaviour and state; visual presentation is left entirely
//! to the embedding application.
//!
//! The tree of entities and their components lives in [`world::UiWorld`].
//! Raw input events enter through [`propagation::handle_event`], bubble from
//! their target entity up the ancestor chain, and come back as actions —
//! callbacks to run and `ValueChange` / `ButtonClicked` events to deliver.
//! The per-frame passes ([`hover`], [`cursor`], the scrollbar thumb pass in
//! [`core_scrollbar`]) recompute derived state, and [`access`] pushes each
//! entity's accessibility model into real accessibility nodes.

pub mod math;
pub mod entity;
pub mod events;
pub mod interaction_states;
pub mod core_button;
pub mod core_checkbox;
pub mod core_radio;
pub mod core_radio_group;
pub mod core_slider;
pub mod core_scrollbar;
pub mod hover;
pub mod cursor;
pub mod access;
pub mod world;
pub mod propagation;
