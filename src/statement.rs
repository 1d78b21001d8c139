//! Statements about the presence or absence of components on an archetype.

use crate::component_set::{index_set, ComponentId, ComponentSet};
use core::marker::PhantomData;
use vstd::prelude::*;

verus! {

/// A statement about the presence or absence of the components of the bundle `B`.
///
/// When used as a predicate, an invariant matches the archetypes on which the
/// statement holds; when used as a consequence, the statement must hold on every
/// archetype that the predicate matched. `B` only names the bundle: its
/// components are resolved to identifiers by the store, in [`Self::into_untyped`].
#[derive(Debug)]
#[verifier::reject_recursive_types(B)]
pub enum ArchetypeStatement<B> {
    /// The archetype has every component of the bundle.
    AllOf(PhantomData<B>),
    /// The archetype has at least one component of the bundle, and may have all of them.
    /// For a single-component bundle, `AllOf` says the same and reads more clearly.
    AtLeastOneOf(PhantomData<B>),
    /// The archetype has no component of the bundle.
    NoneOf(PhantomData<B>),
}

/// A statement over an explicit set of component identifiers.
#[derive(Debug)]
pub enum UntypedArchetypeStatement {
    /// The archetype has every component of the set.
    AllOf(ComponentSet),
    /// The archetype has at least one component of the set, and may have all of them.
    AtLeastOneOf(ComponentSet),
    /// The archetype has no component of the set.
    NoneOf(ComponentSet),
}

impl<B> ArchetypeStatement<B> {
    /// The statement that every component of the bundle `B` is present.
    pub fn all_of() -> (r: Self)
        ensures
            r is AllOf,
    {
        ArchetypeStatement::AllOf(PhantomData)
    }

    /// The statement that at least one component of the bundle `B` is present.
    pub fn at_least_one_of() -> (r: Self)
        ensures
            r is AtLeastOneOf,
    {
        ArchetypeStatement::AtLeastOneOf(PhantomData)
    }

    /// The statement that no component of the bundle `B` is present.
    pub fn none_of() -> (r: Self)
        ensures
            r is NoneOf,
    {
        ArchetypeStatement::NoneOf(PhantomData)
    }

    /// Erases the bundle type, given the identifiers that the store resolved the
    /// bundle's components to. The kind of statement is kept.
    pub fn into_untyped(self, component_ids: &Vec<ComponentId>) -> (r: UntypedArchetypeStatement)
        ensures
            r.component_set()@ == index_set(component_ids@),
            r.component_set()@.finite(),
            self is AllOf <==> r is AllOf,
            self is AtLeastOneOf <==> r is AtLeastOneOf,
            self is NoneOf <==> r is NoneOf,
    {
        let set = ComponentSet::from_ids(component_ids);
        match self {
            ArchetypeStatement::AllOf(_) => UntypedArchetypeStatement::AllOf(set),
            ArchetypeStatement::AtLeastOneOf(_) => UntypedArchetypeStatement::AtLeastOneOf(set),
            ArchetypeStatement::NoneOf(_) => UntypedArchetypeStatement::NoneOf(set),
        }
    }
}

impl UntypedArchetypeStatement {
    /// The set of components that the statement speaks of.
    pub open spec fn component_set(&self) -> ComponentSet {
        match self {
            UntypedArchetypeStatement::AllOf(s) => *s,
            UntypedArchetypeStatement::AtLeastOneOf(s) => *s,
            UntypedArchetypeStatement::NoneOf(s) => *s,
        }
    }

    /// Whether the statement is true of an archetype with the components `archetype`.
    pub open spec fn holds(&self, archetype: Set<usize>) -> bool {
        match self {
            UntypedArchetypeStatement::AllOf(s) => s@.subset_of(archetype),
            UntypedArchetypeStatement::AtLeastOneOf(s) => !s@.disjoint(archetype),
            UntypedArchetypeStatement::NoneOf(s) => s@.disjoint(archetype),
        }
    }

    /// Whether the statement asks for at least one of a single component, which
    /// says the same as asking for all of it.
    pub open spec fn is_redundant_singleton(&self) -> bool {
        self is AtLeastOneOf && self.component_set()@.len() == 1
    }

    /// Evaluates the statement on an archetype with the components `archetype`.
    pub fn test(&self, archetype: &ComponentSet) -> (r: bool)
        ensures
            r == self.holds(archetype@),
    {
        match self {
            UntypedArchetypeStatement::AllOf(s) => s.is_subset(archetype),
            UntypedArchetypeStatement::AtLeastOneOf(s) => !s.is_disjoint(archetype),
            UntypedArchetypeStatement::NoneOf(s) => s.is_disjoint(archetype),
        }
    }

    /// Whether the statement is an `AtLeastOneOf` over exactly one component,
    /// for which `AllOf` is the clearer form.
    pub fn redundant_singleton(&self) -> (r: bool)
        ensures
            r == self.is_redundant_singleton(),
    {
        match self {
            UntypedArchetypeStatement::AtLeastOneOf(s) => s.len() == 1,
            _ => false,
        }
    }
}

/// Over the empty set, `AllOf` and `NoneOf` hold of every archetype and
/// `AtLeastOneOf` of none.
pub proof fn lemma_empty_set_statements(s: ComponentSet, archetype: Set<usize>)
    requires
        s@ == Set::<usize>::empty(),
    ensures
        UntypedArchetypeStatement::AllOf(s).holds(archetype),
        UntypedArchetypeStatement::NoneOf(s).holds(archetype),
        !UntypedArchetypeStatement::AtLeastOneOf(s).holds(archetype),
{
}

/// Over a set of exactly one component, `AtLeastOneOf` holds of exactly the
/// archetypes of which `AllOf` holds.
pub proof fn lemma_singleton_at_least_one_of_is_all_of(s: ComponentSet, archetype: Set<usize>)
    requires
        s@.finite(),
        s@.len() == 1,
    ensures
        UntypedArchetypeStatement::AtLeastOneOf(s).holds(archetype)
            == UntypedArchetypeStatement::AllOf(s).holds(archetype),
{
    let c = s@.choose();
    assert(s@.contains(c)) by {
        if !s@.contains(c) {
            s@.lemma_len0_is_empty();
        }
    }
    assert(s@ =~= set![c]) by {
        s@.remove(c).lemma_len0_is_empty();
        assert forall|x: usize| s@.contains(x) implies x == c by {
            if x != c {
                assert(s@.remove(c).contains(x));
            }
        }
    }
}

} // verus!
