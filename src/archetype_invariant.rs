//! Archetype invariants: a predicate and the consequence it demands.

use crate::component_set::{ComponentId, ComponentSet};
use crate::statement::{ArchetypeStatement, UntypedArchetypeStatement};
use vstd::prelude::*;

verus! {

/// A rule about which components can coexist on entities: on every archetype
/// where the predicate holds, the consequence must hold too.
///
/// Invariants are checked when a new archetype appears and, after a new invariant
/// is registered, on every archetype; moving entities between archetypes that
/// already exist triggers no check. The bundles are named by type; before
/// registration an invariant is erased into an [`UntypedArchetypeInvariant`].
#[derive(Debug)]
#[verifier::reject_recursive_types(B1)]
#[verifier::reject_recursive_types(B2)]
pub struct ArchetypeInvariant<B1, B2 = B1> {
    /// For all archetypes where the predicate is true
    pub predicate: ArchetypeStatement<B1>,
    /// the consequence must also be true.
    pub consequence: ArchetypeStatement<B2>,
}

impl<B1, B2> ArchetypeInvariant<B1, B2> {
    /// Erases the bundle types, given the identifiers that the store resolved the
    /// predicate's and the consequence's bundles to. The two are resolved apart:
    /// they may be disjoint, overlap or be the same.
    pub fn into_untyped(
        self,
        predicate_ids: &Vec<ComponentId>,
        consequence_ids: &Vec<ComponentId>,
    ) -> (r: UntypedArchetypeInvariant)
        ensures
            r.predicate.component_set()@ == crate::component_set::index_set(predicate_ids@),
            r.consequence.component_set()@ == crate::component_set::index_set(consequence_ids@),
            r.predicate.component_set()@.finite(),
            r.consequence.component_set()@.finite(),
            self.predicate is AllOf <==> r.predicate is AllOf,
            self.predicate is AtLeastOneOf <==> r.predicate is AtLeastOneOf,
            self.predicate is NoneOf <==> r.predicate is NoneOf,
            self.consequence is AllOf <==> r.consequence is AllOf,
            self.consequence is AtLeastOneOf <==> r.consequence is AtLeastOneOf,
            self.consequence is NoneOf <==> r.consequence is NoneOf,
    {
        UntypedArchetypeInvariant {
            predicate: self.predicate.into_untyped(predicate_ids),
            consequence: self.consequence.into_untyped(consequence_ids),
        }
    }
}

impl<B> ArchetypeInvariant<B, B> {
    /// All components of the bundle require each other: if any one of them is
    /// present, all of them must be.
    pub fn full_bundle() -> (r: Self)
        ensures
            r.predicate is AtLeastOneOf,
            r.consequence is AllOf,
    {
        ArchetypeInvariant {
            predicate: ArchetypeStatement::<B>::at_least_one_of(),
            consequence: ArchetypeStatement::<B>::all_of(),
        }
    }
}

/// An archetype invariant over explicit sets of component identifiers, as the
/// registry holds it. It also serves components that no Rust type names.
#[derive(Debug)]
pub struct UntypedArchetypeInvariant {
    /// For all archetypes where the predicate is true
    pub predicate: UntypedArchetypeStatement,
    /// the consequence must also be true.
    pub consequence: UntypedArchetypeStatement,
}

impl UntypedArchetypeInvariant {
    /// Whether an archetype with the components `archetype` satisfies the invariant.
    pub open spec fn holds(&self, archetype: Set<usize>) -> bool {
        self.predicate.holds(archetype) ==> self.consequence.holds(archetype)
    }

    /// Whether either statement is an `AtLeastOneOf` over a single component.
    pub open spec fn has_redundant_singleton(&self) -> bool {
        self.predicate.is_redundant_singleton() || self.consequence.is_redundant_singleton()
    }

    /// Checks the invariant on an archetype with the components `archetype`.
    pub fn test_archetype(&self, archetype: &ComponentSet) -> (r: bool)
        ensures
            r == self.holds(archetype@),
    {
        !self.predicate.test(archetype) || self.consequence.test(archetype)
    }

    /// Whether either statement should be written with `AllOf` instead.
    pub fn redundant_singleton(&self) -> (r: bool)
        ensures
            r == self.has_redundant_singleton(),
    {
        self.predicate.redundant_singleton() || self.consequence.redundant_singleton()
    }
}

} // verus!
