//! The registry of archetype invariants and its incremental check policy.

use crate::archetype_invariant::UntypedArchetypeInvariant;
use crate::component_set::ComponentSet;
use vstd::prelude::*;

verus! {

/// Whether an archetype with the components `archetype` satisfies every invariant of `invariants`.
pub open spec fn satisfies_all(invariants: Seq<UntypedArchetypeInvariant>, archetype: Set<usize>) -> bool {
    forall|k: int| 0 <= k < invariants.len() ==> #[trigger] invariants[k].holds(archetype)
}

/// Whether every archetype with an index in `[from, to)` satisfies every invariant.
pub open spec fn all_satisfied(
    invariants: Seq<UntypedArchetypeInvariant>,
    archetypes: Seq<ComponentSet>,
    from: int,
    to: int,
) -> bool {
    forall|i: int| from <= i < to ==> satisfies_all(invariants, #[trigger] archetypes[i]@)
}

/// Whether the invariant at `index` is the first of `invariants` that the archetype breaks.
pub open spec fn is_first_broken(
    invariants: Seq<UntypedArchetypeInvariant>,
    archetype: Set<usize>,
    index: int,
) -> bool {
    &&& 0 <= index < invariants.len()
    &&& !invariants[index].holds(archetype)
    &&& forall|k: int| 0 <= k < index ==> #[trigger] invariants[k].holds(archetype)
}

/// An archetype that breaks a registered invariant.
///
/// This is a logic error in the invariants or in the code that moves components:
/// the store must not go on being used once it has been reported.
#[derive(Clone, Copy, Debug, PartialEq, Eq, Structural)]
pub struct InvariantViolation {
    /// The position of the broken invariant in the registry.
    pub invariant_index: usize,
    /// The index of the offending archetype in the store's archetype list.
    pub archetype_index: usize,
}

/// The archetype invariants of a store, in the order they were added, and how
/// much of the store's archetype list has been checked against all of them.
#[derive(Debug)]
pub struct ArchetypeInvariants {
    raw_list: Vec<UntypedArchetypeInvariant>,
    last_checked_archetype_index: usize,
}

impl ArchetypeInvariants {
    /// The registered invariants, in the order they were added.
    pub closed spec fn invariants(&self) -> Seq<UntypedArchetypeInvariant> {
        self.raw_list@
    }

    /// The number of archetypes, from the start of the list, already checked
    /// against every registered invariant.
    pub closed spec fn cursor(&self) -> nat {
        self.last_checked_archetype_index as nat
    }

    /// Whether every archetype before the cursor satisfies every registered invariant.
    pub open spec fn validated(&self, archetypes: Seq<ComponentSet>) -> bool {
        all_satisfied(self.invariants(), archetypes, 0, self.cursor() as int)
    }

    /// Adds an invariant. The cursor goes back to the start, so that the next pass
    /// checks every archetype again, those without entities too.
    ///
    /// Returns `true` when a statement of the invariant is an `AtLeastOneOf` over a
    /// single component, where `AllOf` would be clearer; the invariant is added all
    /// the same and evaluates as it would with `AllOf`.
    pub fn add(&mut self, archetype_invariant: UntypedArchetypeInvariant) -> (redundant: bool)
        ensures
            final(self).invariants() == old(self).invariants().push(archetype_invariant),
            final(self).cursor() == 0,
            redundant == archetype_invariant.has_redundant_singleton(),
    {
        let redundant = archetype_invariant.redundant_singleton();
        self.last_checked_archetype_index = 0;
        self.raw_list.push(archetype_invariant);
        redundant
    }

    /// The number of registered invariants.
    pub fn len(&self) -> (r: usize)
        ensures
            r == self.invariants().len(),
    {
        self.raw_list.len()
    }

    /// The number of archetypes already checked against every registered invariant.
    pub fn last_checked_archetype_index(&self) -> (r: usize)
        ensures
            r == self.cursor(),
    {
        self.last_checked_archetype_index
    }

    /// Checks the archetype at `index` against every registered invariant, and
    /// reports the first one it breaks.
    pub fn check_archetype(&self, archetypes: &Vec<ComponentSet>, index: usize) -> (r: Result<
        (),
        InvariantViolation,
    >)
        requires
            index < archetypes.len(),
        ensures
            r is Ok <==> satisfies_all(self.invariants(), archetypes@[index as int]@),
            r matches Err(v) ==> v.archetype_index == index && is_first_broken(
                self.invariants(),
                archetypes@[index as int]@,
                v.invariant_index as int,
            ),
    {
        let archetype = &archetypes[index];
        let mut k: usize = 0;
        while k < self.raw_list.len()
            invariant
                k <= self.raw_list@.len(),
                index < archetypes.len(),
                archetype@ == archetypes@[index as int]@,
                forall|j: int| 0 <= j < k ==> #[trigger] self.raw_list@[j].holds(archetype@),
            decreases self.raw_list@.len() - k,
        {
            if !self.raw_list[k].test_archetype(archetype) {
                return Err(InvariantViolation { invariant_index: k, archetype_index: index });
            }
            k = k + 1;
        }
        Ok(())
    }

    /// Checks every archetype from the cursor to the end of the list against every
    /// registered invariant, stopping at the first violation. When all pass, the
    /// cursor moves to the end of the list; on a violation it stays where it was.
    /// With the cursor already at the end, nothing is checked.
    pub fn run_pending_checks(&mut self, archetypes: &Vec<ComponentSet>) -> (r: Result<
        (),
        InvariantViolation,
    >)
        requires
            old(self).cursor() <= archetypes.len(),
        ensures
            final(self).invariants() == old(self).invariants(),
            old(self).cursor() <= final(self).cursor() <= archetypes.len(),
            r is Ok <==> all_satisfied(
                old(self).invariants(),
                archetypes@,
                old(self).cursor() as int,
                archetypes.len() as int,
            ),
            r is Ok ==> final(self).cursor() == archetypes.len(),
            r is Err ==> final(self).cursor() == old(self).cursor(),
            r matches Err(v) ==> {
                &&& old(self).cursor() <= v.archetype_index < archetypes.len()
                &&& all_satisfied(
                    old(self).invariants(),
                    archetypes@,
                    old(self).cursor() as int,
                    v.archetype_index as int,
                )
                &&& is_first_broken(
                    old(self).invariants(),
                    archetypes@[v.archetype_index as int]@,
                    v.invariant_index as int,
                )
            },
            old(self).cursor() == archetypes.len() ==> r is Ok && final(self).cursor() == old(
                self,
            ).cursor(),
            old(self).validated(archetypes@) && r is Ok ==> final(self).validated(archetypes@),
    {
        let start = self.last_checked_archetype_index;
        let mut i: usize = start;
        while i < archetypes.len()
            invariant
                start <= i <= archetypes.len(),
                *self == *old(self),
                start == old(self).cursor(),
                all_satisfied(self.invariants(), archetypes@, start as int, i as int),
            decreases archetypes.len() - i,
        {
            match self.check_archetype(archetypes, i) {
                Err(v) => {
                    return Err(v);
                },
                Ok(()) => {},
            }
            i = i + 1;
        }
        self.last_checked_archetype_index = archetypes.len();
        Ok(())
    }
}

impl Default for ArchetypeInvariants {
    /// A registry with no invariants, which has checked nothing yet.
    fn default() -> (r: Self)
        ensures
            r.invariants() == Seq::<UntypedArchetypeInvariant>::empty(),
            r.cursor() == 0,
    {
        ArchetypeInvariants { raw_list: Vec::new(), last_checked_archetype_index: 0 }
    }
}

/// Once an invariant has been added, a pass that succeeds has checked it on every
/// archetype of the list, those that appeared before the invariant too.
pub proof fn lemma_pass_after_add_checks_every_archetype(
    before: ArchetypeInvariants,
    after: ArchetypeInvariants,
    archetype_invariant: UntypedArchetypeInvariant,
    archetypes: Seq<ComponentSet>,
)
    requires
        after.invariants() == before.invariants().push(archetype_invariant),
        after.cursor() == 0,
        all_satisfied(after.invariants(), archetypes, after.cursor() as int, archetypes.len() as int),
    ensures
        forall|i: int| 0 <= i < archetypes.len() ==> archetype_invariant.holds(#[trigger] archetypes[i]@),
        forall|i: int| 0 <= i < archetypes.len() ==> satisfies_all(before.invariants(), #[trigger] archetypes[i]@),
{
    let n = before.invariants().len();
    assert forall|i: int| 0 <= i < archetypes.len() implies archetype_invariant.holds(#[trigger] archetypes[i]@) by {
        assert(after.invariants()[n as int] == archetype_invariant);
        assert(satisfies_all(after.invariants(), archetypes[i]@));
    }
    assert forall|i: int| 0 <= i < archetypes.len() implies satisfies_all(before.invariants(), #[trigger] archetypes[i]@) by {
        assert(satisfies_all(after.invariants(), archetypes[i]@));
        assert forall|k: int| 0 <= k < n implies #[trigger] before.invariants()[k].holds(archetypes[i]@) by {
            assert(after.invariants()[k] == before.invariants()[k]);
        }
    }
}

} // verus!
