use archetype_invariants::archetype_invariant::{ArchetypeInvariant, UntypedArchetypeInvariant};
use archetype_invariants::component_set::{ComponentId, ComponentSet};
use archetype_invariants::registry::{ArchetypeInvariants, InvariantViolation};
use archetype_invariants::statement::{ArchetypeStatement, UntypedArchetypeStatement};

#[derive(Debug)]
struct A;

#[derive(Debug)]
struct B;

#[derive(Debug)]
struct C;

const ID_A: ComponentId = ComponentId(0);
const ID_B: ComponentId = ComponentId(1);
const ID_C: ComponentId = ComponentId(2);
const ID_D: ComponentId = ComponentId(3);

fn set(ids: &[ComponentId]) -> ComponentSet {
    ComponentSet::from_ids(&ids.to_vec())
}

fn abc_full_bundle() -> UntypedArchetypeInvariant {
    let abc = vec![ID_A, ID_B, ID_C];
    ArchetypeInvariant::<(A, B, C)>::full_bundle().into_untyped(&abc, &abc)
}

#[test]
fn full_bundle() {
    let mut invariants = ArchetypeInvariants::default();
    let redundant = invariants.add(abc_full_bundle());
    assert!(!redundant);
    assert_eq!(invariants.len(), 1);
    assert_eq!(invariants.last_checked_archetype_index(), 0);
}

#[test]
fn full_bundle_statement_kinds() {
    let invariant = ArchetypeInvariant::<(A, B, C)>::full_bundle();
    assert!(matches!(invariant.predicate, ArchetypeStatement::AtLeastOneOf(_)));
    assert!(matches!(invariant.consequence, ArchetypeStatement::AllOf(_)));
    let untyped = abc_full_bundle();
    assert!(matches!(untyped.predicate, UntypedArchetypeStatement::AtLeastOneOf(_)));
    assert!(matches!(untyped.consequence, UntypedArchetypeStatement::AllOf(_)));
}

#[test]
fn empty_set_statements() {
    for archetype in [set(&[]), set(&[ID_A]), set(&[ID_A, ID_B, ID_D])] {
        assert!(UntypedArchetypeStatement::AllOf(set(&[])).test(&archetype));
        assert!(UntypedArchetypeStatement::NoneOf(set(&[])).test(&archetype));
        assert!(!UntypedArchetypeStatement::AtLeastOneOf(set(&[])).test(&archetype));
    }
}

#[test]
fn statement_evaluation() {
    let archetype = set(&[ID_A, ID_B]);
    assert!(UntypedArchetypeStatement::AllOf(set(&[ID_A, ID_B])).test(&archetype));
    assert!(!UntypedArchetypeStatement::AllOf(set(&[ID_A, ID_C])).test(&archetype));
    assert!(UntypedArchetypeStatement::AtLeastOneOf(set(&[ID_B, ID_C])).test(&archetype));
    assert!(!UntypedArchetypeStatement::AtLeastOneOf(set(&[ID_C, ID_D])).test(&archetype));
    assert!(UntypedArchetypeStatement::NoneOf(set(&[ID_C, ID_D])).test(&archetype));
    assert!(!UntypedArchetypeStatement::NoneOf(set(&[ID_A, ID_D])).test(&archetype));
}

#[test]
fn from_ids_counts_repeats_once() {
    assert_eq!(set(&[]).len(), 0);
    assert_eq!(set(&[ID_A, ID_B, ID_A, ID_A]).len(), 2);
    let archetype = set(&[ID_B]);
    assert!(UntypedArchetypeStatement::AllOf(set(&[ID_B, ID_B])).test(&archetype));
}

#[test]
fn into_untyped_keeps_kind_and_components() {
    let ids = vec![ID_C, ID_D];
    let none = ArchetypeStatement::<(C,)>::none_of().into_untyped(&ids);
    assert!(matches!(none, UntypedArchetypeStatement::NoneOf(_)));
    assert!(none.test(&set(&[ID_A])));
    assert!(!none.test(&set(&[ID_A, ID_D])));
    let all = ArchetypeStatement::<(C,)>::all_of().into_untyped(&ids);
    assert!(matches!(all, UntypedArchetypeStatement::AllOf(_)));
    assert!(all.test(&set(&[ID_C, ID_D, ID_A])));
    assert!(!all.test(&set(&[ID_C])));
}

#[test]
fn full_bundle_semantics() {
    let invariant = abc_full_bundle();
    assert!(!invariant.test_archetype(&set(&[ID_A])));
    assert!(invariant.test_archetype(&set(&[ID_A, ID_B, ID_C])));
    assert!(invariant.test_archetype(&set(&[ID_D])));
}

#[test]
fn retroactive_recheck() {
    let archetypes = vec![set(&[ID_A]), set(&[ID_A, ID_B, ID_C])];
    let mut invariants = ArchetypeInvariants::default();
    assert_eq!(invariants.run_pending_checks(&archetypes), Ok(()));
    assert_eq!(invariants.last_checked_archetype_index(), 2);
    invariants.add(abc_full_bundle());
    assert_eq!(invariants.last_checked_archetype_index(), 0);
    assert_eq!(
        invariants.run_pending_checks(&archetypes),
        Err(InvariantViolation { invariant_index: 0, archetype_index: 0 })
    );
    assert_eq!(invariants.last_checked_archetype_index(), 0);
}

#[test]
fn no_recheck_on_archetype_reuse() {
    let archetypes = vec![set(&[ID_A, ID_B, ID_C]), set(&[ID_D])];
    let mut invariants = ArchetypeInvariants::default();
    invariants.add(abc_full_bundle());
    assert_eq!(invariants.run_pending_checks(&archetypes), Ok(()));
    assert_eq!(invariants.last_checked_archetype_index(), 2);
    assert_eq!(invariants.run_pending_checks(&archetypes), Ok(()));
    assert_eq!(invariants.last_checked_archetype_index(), 2);
}

#[test]
fn new_archetype_is_checked_alone() {
    let mut archetypes = vec![set(&[ID_A, ID_B, ID_C])];
    let mut invariants = ArchetypeInvariants::default();
    invariants.add(abc_full_bundle());
    assert_eq!(invariants.run_pending_checks(&archetypes), Ok(()));
    archetypes.push(set(&[ID_B, ID_D]));
    assert_eq!(invariants.check_archetype(&archetypes, 1), Err(InvariantViolation {
        invariant_index: 0,
        archetype_index: 1,
    }));
    assert_eq!(
        invariants.run_pending_checks(&archetypes),
        Err(InvariantViolation { invariant_index: 0, archetype_index: 1 })
    );
    assert_eq!(invariants.last_checked_archetype_index(), 1);
}

#[test]
fn redundancy_advisory() {
    let single = vec![ID_A];
    let at_least_one = ArchetypeStatement::<(A,)>::at_least_one_of().into_untyped(&single);
    let all = ArchetypeStatement::<(A,)>::all_of().into_untyped(&single);
    assert!(at_least_one.redundant_singleton());
    assert!(!all.redundant_singleton());
    for archetype in [set(&[]), set(&[ID_A]), set(&[ID_B]), set(&[ID_A, ID_B])] {
        assert_eq!(at_least_one.test(&archetype), all.test(&archetype));
    }
    let mut invariants = ArchetypeInvariants::default();
    let invariant = ArchetypeInvariant::<(A,), (B,)> {
        predicate: ArchetypeStatement::at_least_one_of(),
        consequence: ArchetypeStatement::all_of(),
    };
    assert!(invariants.add(invariant.into_untyped(&single, &vec![ID_B])));
    assert!(!invariants.add(abc_full_bundle()));
    assert_eq!(invariants.len(), 2);
}

#[test]
fn first_broken_invariant_is_reported() {
    let mut invariants = ArchetypeInvariants::default();
    invariants.add(abc_full_bundle());
    let exclusive = ArchetypeInvariant::<(A,), (C,)> {
        predicate: ArchetypeStatement::all_of(),
        consequence: ArchetypeStatement::none_of(),
    };
    invariants.add(exclusive.into_untyped(&vec![ID_A], &vec![ID_C]));
    let archetypes = vec![set(&[ID_D]), set(&[ID_A, ID_B, ID_C]), set(&[ID_A])];
    assert_eq!(invariants.check_archetype(&archetypes, 0), Ok(()));
    assert_eq!(
        invariants.check_archetype(&archetypes, 1),
        Err(InvariantViolation { invariant_index: 1, archetype_index: 1 })
    );
    assert_eq!(
        invariants.check_archetype(&archetypes, 2),
        Err(InvariantViolation { invariant_index: 0, archetype_index: 2 })
    );
    assert_eq!(
        invariants.run_pending_checks(&archetypes),
        Err(InvariantViolation { invariant_index: 1, archetype_index: 1 })
    );
}

#[test]
fn empty_archetype_list_and_registry() {
    let mut invariants = ArchetypeInvariants::default();
    assert_eq!(invariants.len(), 0);
    assert_eq!(invariants.run_pending_checks(&Vec::new()), Ok(()));
    assert_eq!(invariants.last_checked_archetype_index(), 0);
    let archetypes = vec![set(&[]), set(&[ID_A])];
    assert_eq!(invariants.check_archetype(&archetypes, 1), Ok(()));
    invariants.add(abc_full_bundle());
    assert_eq!(invariants.run_pending_checks(&archetypes), Err(InvariantViolation {
        invariant_index: 0,
        archetype_index: 1,
    }));
}
