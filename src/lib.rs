//! Archetype invariants: rules about which components may coexist on the
//! entities of a component store, and the registry that checks the store's
//! archetypes against them.

pub mod component_set;
pub mod statement;
pub mod archetype_invariant;
pub mod registry;
