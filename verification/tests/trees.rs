use mir_eval::error::EvalError;
use mir_eval::evaluate::evaluate_decision_tree;
use mir_eval::ir::{
    Ast, Atom, DecisionTree, DefinitionId, Effect, FunctionCall, IntegerKind, Lambda, Literal,
    Match, MemberAccess, Type, Variable,
};
use mir_eval::subst::Substitutions;

fn var(id: u64) -> Variable {
    Variable { definition_id: DefinitionId(id), typ: Type::Integer(IntegerKind::U8) }
}

fn name(id: u64) -> Atom {
    Atom::Variable(var(id))
}

fn number(value: u64) -> Atom {
    Atom::Literal(Literal::Integer(value, IntegerKind::U8))
}

fn field(of: Atom, index: u32) -> Ast {
    Ast::MemberAccess(MemberAccess { lhs: of, member_index: index })
}

fn binding(id: u64, expr: Ast, body: DecisionTree) -> DecisionTree {
    DecisionTree::Let { variable: DefinitionId(id), expr: Box::new(expr), body: Box::new(body) }
}

fn switch(on: Atom, cases: Vec<(u32, DecisionTree)>, default: Option<DecisionTree>) -> DecisionTree {
    DecisionTree::Switch { int_to_switch_on: on, cases, else_case: default.map(Box::new) }
}

fn env() -> Substitutions {
    Substitutions::new().extend(DefinitionId(1), number(10)).extend(DefinitionId(2), number(20))
}

#[test]
fn leaf_stays_as_it_is() {
    assert_eq!(evaluate_decision_tree(DecisionTree::Leaf(0), &env(), 0), Ok(DecisionTree::Leaf(0)));
    assert_eq!(evaluate_decision_tree(DecisionTree::Leaf(7), &env(), 0), Ok(DecisionTree::Leaf(7)));
}

#[test]
fn switch_reduces_its_tag_and_every_subtree() {
    let tree = switch(
        name(1),
        vec![
            (0, DecisionTree::Leaf(0)),
            (5, switch(name(2), vec![], Some(DecisionTree::Leaf(1)))),
            (9, switch(name(3), vec![(1, DecisionTree::Leaf(2))], None)),
        ],
        Some(switch(name(2), vec![], None)),
    );
    let expected = switch(
        number(10),
        vec![
            (0, DecisionTree::Leaf(0)),
            (5, switch(number(20), vec![], Some(DecisionTree::Leaf(1)))),
            (9, switch(name(3), vec![(1, DecisionTree::Leaf(2))], None)),
        ],
        Some(switch(number(20), vec![], None)),
    );
    assert_eq!(evaluate_decision_tree(tree, &env(), 0), Ok(expected));
}

#[test]
fn tree_binding_shadows_in_its_subtree_only() {
    // let 1 = (1).0 in switch 1 { 0 => switch 2 {} }
    let tree = binding(
        1,
        field(name(1), 0),
        switch(name(1), vec![(0, switch(name(2), vec![], None))], None),
    );
    let expected = binding(
        1,
        field(number(10), 0),
        switch(name(1), vec![(0, switch(number(20), vec![], None))], None),
    );
    assert_eq!(evaluate_decision_tree(tree, &env(), 0), Ok(expected));
}

#[test]
fn tree_binding_does_not_shadow_beside_its_subtree() {
    let tree = switch(
        name(2),
        vec![
            (0, binding(1, field(name(2), 1), switch(name(1), vec![], None))),
            (1, switch(name(1), vec![], None)),
        ],
        None,
    );
    let expected = switch(
        number(20),
        vec![
            (0, binding(1, field(number(20), 1), switch(name(1), vec![], None))),
            (1, switch(number(10), vec![], None)),
        ],
        None,
    );
    assert_eq!(evaluate_decision_tree(tree, &env(), 0), Ok(expected));
}

#[test]
fn tree_binding_expression_is_reduced_like_any_expression() {
    let identity = Atom::Lambda(Lambda {
        args: vec![var(5)],
        body: Box::new(Ast::Atom(name(5))),
        compile_time: true,
    });
    let applied = Ast::FunctionCall(FunctionCall {
        function: identity,
        args: vec![name(2)],
        compile_time: false,
    });
    let tree = binding(3, applied, DecisionTree::Leaf(1));
    let expected = binding(3, Ast::Atom(number(20)), DecisionTree::Leaf(1));
    assert_eq!(evaluate_decision_tree(tree.clone(), &env(), 1), Ok(expected));
    assert_eq!(evaluate_decision_tree(tree, &env(), 0), Err(EvalError::DepthExceeded));
}

#[test]
fn match_reduces_its_tree_and_its_branches() {
    let matching = Ast::Match(Match {
        decision_tree: binding(
            1,
            field(name(2), 0),
            switch(name(1), vec![(0, DecisionTree::Leaf(0))], Some(DecisionTree::Leaf(1))),
        ),
        branches: vec![Ast::Atom(name(2)), field(name(1), 4)],
    });
    let expected = Ast::Match(Match {
        decision_tree: binding(
            1,
            field(number(20), 0),
            switch(name(1), vec![(0, DecisionTree::Leaf(0))], Some(DecisionTree::Leaf(1))),
        ),
        branches: vec![Ast::Atom(number(20)), field(number(10), 4)],
    });
    assert_eq!(matching.evaluate(&env(), 0), Ok(expected));
}

#[test]
fn match_inside_an_inlined_closure_sees_the_arguments() {
    let body = Ast::Match(Match {
        decision_tree: switch(name(7), vec![(1, DecisionTree::Leaf(0))], None),
        branches: vec![Ast::Atom(name(7))],
    });
    let function =
        Atom::Lambda(Lambda { args: vec![var(7)], body: Box::new(body), compile_time: true });
    let applied =
        Ast::FunctionCall(FunctionCall { function, args: vec![number(1)], compile_time: false });
    let expected = Ast::Match(Match {
        decision_tree: switch(number(1), vec![(1, DecisionTree::Leaf(0))], None),
        branches: vec![Ast::Atom(number(1))],
    });
    assert_eq!(applied.evaluate(&Substitutions::new(), 1), Ok(expected));
}

#[test]
fn tree_reports_its_first_error() {
    let first = Effect { id: DefinitionId(1), typ: Type::Unit };
    let second = Effect { id: DefinitionId(2), typ: Type::Unit };
    let tree = switch(
        name(1),
        vec![(0, DecisionTree::Leaf(0)), (1, switch(Atom::Effect(first), vec![], None))],
        Some(switch(Atom::Effect(second), vec![], None)),
    );
    assert_eq!(evaluate_decision_tree(tree, &env(), 0), Err(EvalError::EffectNotRemoved(first)));
    let tree = binding(1, Ast::Atom(Atom::Effect(second)), switch(Atom::Effect(first), vec![], None));
    assert_eq!(evaluate_decision_tree(tree, &env(), 0), Err(EvalError::EffectNotRemoved(second)));
    let matching = Ast::Match(Match {
        decision_tree: DecisionTree::Leaf(0),
        branches: vec![
            Ast::Atom(number(0)),
            Ast::Atom(Atom::Effect(second)),
            Ast::Atom(Atom::Effect(first)),
        ],
    });
    assert_eq!(matching.evaluate(&env(), 0), Err(EvalError::EffectNotRemoved(second)));
}

#[test]
fn tree_copy_is_equal_to_the_tree() {
    let tree = binding(
        1,
        field(name(1), 0),
        switch(name(1), vec![(0, DecisionTree::Leaf(3))], Some(DecisionTree::Leaf(4))),
    );
    assert_eq!(tree.duplicate(), tree);
}
