use mir_eval::ir::{Atom, DefinitionId, IntegerKind, Literal, Type, Variable};
use mir_eval::subst::Substitutions;

fn number(value: u64) -> Atom {
    Atom::Literal(Literal::Integer(value, IntegerKind::U64))
}

fn var(id: u64) -> Variable {
    Variable { definition_id: DefinitionId(id), typ: Type::Unit }
}

#[test]
fn new_environment_binds_nothing() {
    let env = Substitutions::new();
    assert_eq!(env.lookup(DefinitionId(0)), None);
    assert_eq!(env.lookup(DefinitionId(u64::MAX)), None);
}

#[test]
fn extend_binds_the_value() {
    let env = Substitutions::new().extend(DefinitionId(1), number(10));
    assert_eq!(env.lookup(DefinitionId(1)), Some(&number(10)));
    assert_eq!(env.lookup(DefinitionId(2)), None);
}

#[test]
fn extend_replaces_an_earlier_binding() {
    let env = Substitutions::new()
        .extend(DefinitionId(1), number(10))
        .extend(DefinitionId(1), number(20));
    assert_eq!(env.lookup(DefinitionId(1)), Some(&number(20)));
}

#[test]
fn extend_leaves_the_environment_as_it_was() {
    let base = Substitutions::new().extend(DefinitionId(1), number(10));
    let extended = base.extend(DefinitionId(2), number(20));
    let replaced = base.extend(DefinitionId(1), number(30));
    assert_eq!(base.lookup(DefinitionId(1)), Some(&number(10)));
    assert_eq!(base.lookup(DefinitionId(2)), None);
    assert_eq!(extended.lookup(DefinitionId(1)), Some(&number(10)));
    assert_eq!(extended.lookup(DefinitionId(2)), Some(&number(20)));
    assert_eq!(replaced.lookup(DefinitionId(1)), Some(&number(30)));
}

#[test]
fn remove_unbinds_the_identity() {
    let base = Substitutions::new()
        .extend(DefinitionId(1), number(10))
        .extend(DefinitionId(2), number(20));
    let pruned = base.remove(DefinitionId(1));
    assert_eq!(pruned.lookup(DefinitionId(1)), None);
    assert_eq!(pruned.lookup(DefinitionId(2)), Some(&number(20)));
    assert_eq!(base.lookup(DefinitionId(1)), Some(&number(10)));
}

#[test]
fn remove_of_an_unbound_identity_changes_nothing() {
    let base = Substitutions::new().extend(DefinitionId(1), number(10));
    let pruned = base.remove(DefinitionId(7));
    assert_eq!(pruned.lookup(DefinitionId(1)), Some(&number(10)));
    assert_eq!(pruned.lookup(DefinitionId(7)), None);
}

#[test]
fn clone_shares_nothing_that_can_be_seen() {
    let base = Substitutions::new().extend(DefinitionId(1), number(10));
    let copy = base.clone();
    let changed = copy.extend(DefinitionId(1), number(11)).remove(DefinitionId(1));
    assert_eq!(base.lookup(DefinitionId(1)), Some(&number(10)));
    assert_eq!(copy.lookup(DefinitionId(1)), Some(&number(10)));
    assert_eq!(changed.lookup(DefinitionId(1)), None);
}

#[test]
fn without_params_unbinds_every_parameter() {
    let base = Substitutions::new()
        .extend(DefinitionId(1), number(10))
        .extend(DefinitionId(2), number(20))
        .extend(DefinitionId(3), number(30));
    let pruned = base.without_params(&vec![var(3), var(1), var(3), var(9)]);
    assert_eq!(pruned.lookup(DefinitionId(1)), None);
    assert_eq!(pruned.lookup(DefinitionId(2)), Some(&number(20)));
    assert_eq!(pruned.lookup(DefinitionId(3)), None);
    assert_eq!(base.lookup(DefinitionId(3)), Some(&number(30)));
    let same = base.without_params(&vec![]);
    assert_eq!(same.lookup(DefinitionId(1)), Some(&number(10)));
}

#[test]
fn with_arguments_binds_each_parameter_to_its_argument() {
    let base = Substitutions::new()
        .extend(DefinitionId(1), number(10))
        .extend(DefinitionId(5), number(50));
    let bound = base.with_arguments(&vec![var(1), var(2)], vec![number(11), number(22)]);
    assert_eq!(bound.lookup(DefinitionId(1)), Some(&number(11)));
    assert_eq!(bound.lookup(DefinitionId(2)), Some(&number(22)));
    assert_eq!(bound.lookup(DefinitionId(5)), Some(&number(50)));
    assert_eq!(base.lookup(DefinitionId(1)), Some(&number(10)));
    assert_eq!(base.lookup(DefinitionId(2)), None);
}

#[test]
fn with_arguments_lets_the_later_parameter_win() {
    let bound = Substitutions::new().with_arguments(&vec![var(1), var(1)], vec![number(1), number(2)]);
    assert_eq!(bound.lookup(DefinitionId(1)), Some(&number(2)));
}

#[test]
fn many_bindings_are_all_found_again() {
    let mut env = Substitutions::new();
    for id in 0..500u64 {
        env = env.extend(DefinitionId(id * 7919), number(id));
    }
    for id in 0..500u64 {
        assert_eq!(env.lookup(DefinitionId(id * 7919)), Some(&number(id)));
    }
    for id in 0..250u64 {
        env = env.remove(DefinitionId(id * 2 * 7919));
    }
    for id in 0..500u64 {
        let expected = if id % 2 == 0 { None } else { Some(number(id)) };
        assert_eq!(env.lookup(DefinitionId(id * 7919)), expected.as_ref());
    }
}
