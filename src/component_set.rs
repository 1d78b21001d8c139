//! Component identifiers and sets of them.

use bevy_utils::HashSet;
use vstd::prelude::*;

verus! {

/// A stable handle for a component type, issued by the store's component registry.
#[derive(Clone, Copy, Debug, PartialEq, Eq, Structural, Hash)]
pub struct ComponentId(pub usize);

/// A set of component identifiers.
///
/// The identifiers are kept by index in a bevy hash set; Verus sees the set
/// only through its view, the set of those indices.
#[verifier::external_body]
#[derive(Debug)]
pub struct ComponentSet {
    indices: HashSet<usize>,
}

/// The indices of the component identifiers that a component set holds.
pub uninterp spec fn component_indices(s: ComponentSet) -> Set<usize>;

impl View for ComponentSet {
    type V = Set<usize>;

    open spec fn view(&self) -> Set<usize> {
        component_indices(*self)
    }
}

/// The set of indices of the identifiers in `ids`.
pub open spec fn index_set(ids: Seq<ComponentId>) -> Set<usize> {
    Set::new(|i: usize| exists|j: int| 0 <= j < ids.len() && ids[j].0 == i)
}

impl ComponentSet {
    /// Relies on `Default` for hashbrown's `HashSet`: a new set is empty.
    #[verifier::external_body]
    pub(crate) fn empty() -> (r: ComponentSet)
        ensures
            component_indices(r) == Set::<usize>::empty(),
    {
        ComponentSet { indices: HashSet::default() }
    }

    /// Relies on hashbrown's `HashSet::insert`: the value is in the set afterwards,
    /// and `true` comes back exactly when it was not there before.
    #[verifier::external_body]
    pub(crate) fn insert_index(&mut self, index: usize) -> (r: bool)
        ensures
            component_indices(*final(self)) == component_indices(*old(self)).insert(index),
            r == !component_indices(*old(self)).contains(index),
    {
        self.indices.insert(index)
    }

    /// Relies on hashbrown's `HashSet::len`: the number of values in the set.
    #[verifier::external_body]
    pub fn len(&self) -> (r: usize)
        ensures
            r == component_indices(*self).len(),
    {
        self.indices.len()
    }

    /// Relies on hashbrown's `HashSet::is_subset`: every value of `self` is in `other`.
    #[verifier::external_body]
    pub(crate) fn is_subset(&self, other: &ComponentSet) -> (r: bool)
        ensures
            r == component_indices(*self).subset_of(component_indices(*other)),
    {
        self.indices.is_subset(&other.indices)
    }

    /// Relies on hashbrown's `HashSet::is_disjoint`: no value is in both sets.
    #[verifier::external_body]
    pub(crate) fn is_disjoint(&self, other: &ComponentSet) -> (r: bool)
        ensures
            r == component_indices(*self).disjoint(component_indices(*other)),
    {
        self.indices.is_disjoint(&other.indices)
    }

    /// Builds the set of the given component identifiers; repeated ones count once.
    pub fn from_ids(ids: &Vec<ComponentId>) -> (r: ComponentSet)
        ensures
            r@ == index_set(ids@),
            r@.finite(),
    {
        let mut set = ComponentSet::empty();
        let mut k: usize = 0;
        while k < ids.len()
            invariant
                k <= ids.len(),
                set@ == index_set(ids@.subrange(0, k as int)),
                set@.finite(),
            decreases ids.len() - k,
        {
            let ghost before = set@;
            set.insert_index(ids[k].0);
            proof {
                let next = ids@.subrange(0, k + 1);
                assert(set@ =~= index_set(next)) by {
                    assert forall|i: usize| set@.contains(i) implies index_set(next).contains(i) by {
                        if i == ids[k as int].0 {
                            assert(next[k as int].0 == i);
                        } else {
                            let j = choose|j: int| 0 <= j < k && ids@.subrange(0, k as int)[j].0 == i;
                            assert(next[j].0 == i);
                        }
                    }
                    assert forall|i: usize| index_set(next).contains(i) implies set@.contains(i) by {
                        let j = choose|j: int| 0 <= j < next.len() && next[j].0 == i;
                        if j < k {
                            assert(ids@.subrange(0, k as int)[j].0 == i);
                        }
                    }
                }
            }
            k = k + 1;
        }
        assert(ids@.subrange(0, ids.len() as int) =~= ids@);
        set
    }
}

} // verus!
