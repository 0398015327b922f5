use mir_eval::error::EvalError;
use mir_eval::ir::{
    Assignment, Ast, Atom, BinaryOp, Builtin, DefinitionId, Effect, Extern, FunctionCall, Handle,
    If, IntegerKind, Lambda, Let, Literal, MemberAccess, Mir, Return, Tuple, Type, Variable,
};
use mir_eval::subst::Substitutions;

fn i32_type() -> Type {
    Type::Integer(IntegerKind::I32)
}

fn var(id: u64) -> Variable {
    Variable { definition_id: DefinitionId(id), typ: i32_type() }
}

fn name(id: u64) -> Atom {
    Atom::Variable(var(id))
}

fn number(value: u64) -> Atom {
    Atom::Literal(Literal::Integer(value, IntegerKind::I32))
}

fn lambda(params: Vec<Variable>, body: Ast, compile_time: bool) -> Atom {
    Atom::Lambda(Lambda { args: params, body: Box::new(body), compile_time })
}

fn call(function: Atom, args: Vec<Atom>, compile_time: bool) -> Ast {
    Ast::FunctionCall(FunctionCall { function, args, compile_time })
}

fn add_int(lhs: Atom, rhs: Atom) -> Ast {
    Ast::Builtin(Builtin::Binary(BinaryOp::AddInt, lhs, rhs))
}

fn tuple(fields: Vec<Atom>) -> Ast {
    Ast::Tuple(Tuple { fields })
}

fn external(symbol: &str) -> Atom {
    Atom::Extern(Extern { name: symbol.to_string(), typ: Type::Pointer })
}

fn evaluate(ast: Ast) -> Result<Ast, EvalError> {
    ast.evaluate(&Substitutions::new(), 64)
}

#[test]
fn compile_time_lambda_is_inlined_into_its_caller() {
    // f(x) = g(x), where g is the compile-time closure (y) => y + 1
    let g = lambda(vec![var(2)], add_int(name(2), number(1)), true);
    let f = Ast::Atom(lambda(vec![var(1)], call(g, vec![name(1)], false), false));
    let program = Mir { functions: vec![(DefinitionId(0), f)] };

    let reduced = program.evaluate_static_calls(16).unwrap();

    let expected = Ast::Atom(lambda(vec![var(1)], add_int(name(1), number(1)), false));
    assert_eq!(reduced, Mir { functions: vec![(DefinitionId(0), expected)] });
}

#[test]
fn effect_atom_is_a_fatal_error() {
    let effect = Effect { id: DefinitionId(7), typ: i32_type() };
    let body = add_int(number(1), Atom::Effect(effect));
    let program = Mir { functions: vec![(DefinitionId(0), body)] };
    assert_eq!(program.evaluate_static_calls(16), Err(EvalError::EffectNotRemoved(effect)));
}

#[test]
fn effect_deep_inside_a_closure_is_a_fatal_error() {
    let effect = Effect { id: DefinitionId(9), typ: Type::Unit };
    let inner = lambda(vec![var(3)], tuple(vec![name(3), Atom::Effect(effect)]), false);
    let outer = Ast::Return(Return { expression: lambda(vec![], Ast::Atom(inner), false) });
    assert_eq!(evaluate(outer), Err(EvalError::EffectNotRemoved(effect)));
}

#[test]
fn handle_expression_is_a_fatal_error() {
    let effect = Effect { id: DefinitionId(4), typ: Type::Unit };
    let handle = Ast::Handle(Handle {
        expression: Box::new(Ast::Atom(number(1))),
        effect,
        resume: var(5),
        branch_body: Box::new(Ast::Atom(number(2))),
    });
    let body = Ast::Let(Let {
        variable: DefinitionId(6),
        expr: Box::new(Ast::Atom(number(0))),
        body: Box::new(handle),
    });
    assert_eq!(evaluate(body), Err(EvalError::HandleNotRemoved(effect)));
}

#[test]
fn reduced_program_is_returned_unchanged() {
    let runtime = lambda(vec![var(1), var(2)], add_int(name(1), name(2)), false);
    let body = Ast::Let(Let {
        variable: DefinitionId(3),
        expr: Box::new(call(runtime.clone(), vec![number(1), number(2)], false)),
        body: Box::new(Ast::If(If {
            condition: name(3),
            then_branch: Box::new(call(external("puts"), vec![name(3)], true)),
            otherwise: Box::new(Ast::Assignment(Assignment { lhs: name(4), rhs: name(3) })),
        })),
    });
    let program = Mir {
        functions: vec![(DefinitionId(10), body.clone()), (DefinitionId(11), Ast::Atom(runtime))],
    };
    let expected = program.clone();
    assert_eq!(program.evaluate_static_calls(0), Ok(expected));
}

#[test]
fn evaluating_twice_gives_what_evaluating_once_gives() {
    let g = lambda(vec![var(2)], add_int(name(2), number(1)), true);
    let f = Ast::Atom(lambda(vec![var(1)], call(g, vec![name(1)], false), false));
    let once = Mir { functions: vec![(DefinitionId(0), f)] }.evaluate_static_calls(4).unwrap();
    let copy = once.duplicate();
    assert_eq!(once.evaluate_static_calls(0), Ok(copy));
}

#[test]
fn call_substitutes_each_argument_for_its_parameter() {
    // ((a, b) => (a, b, c, a))(1, z) at compile time
    let body = tuple(vec![name(1), name(2), name(3), name(1)]);
    let function = lambda(vec![var(1), var(2)], body, true);
    let reduced = evaluate(call(function, vec![number(1), name(26)], false));
    assert_eq!(reduced, Ok(tuple(vec![number(1), name(26), name(3), number(1)])));
}

#[test]
fn call_site_flag_inlines_a_runtime_lambda() {
    let function = lambda(vec![var(1)], add_int(name(1), name(1)), false);
    let reduced = evaluate(call(function, vec![number(21)], true));
    assert_eq!(reduced, Ok(add_int(number(21), number(21))));
}

#[test]
fn later_parameter_of_the_same_identity_wins() {
    let function = lambda(vec![var(1), var(1)], Ast::Atom(name(1)), true);
    let reduced = evaluate(call(function, vec![number(1), number(2)], false));
    assert_eq!(reduced, Ok(Ast::Atom(number(2))));
}

#[test]
fn argument_is_not_captured_by_a_parameter_of_the_same_identity() {
    // ((a, b) => a)(b, 7): the result is the caller's b, not the parameter b
    let function = lambda(vec![var(1), var(2)], Ast::Atom(name(1)), true);
    let reduced = evaluate(call(function, vec![name(2), number(7)], false));
    assert_eq!(reduced, Ok(Ast::Atom(name(2))));
}

#[test]
fn substituted_value_is_not_reduced_again() {
    // x is bound to the variable y, and y is bound too: x becomes y and stays y
    let env = Substitutions::new()
        .extend(DefinitionId(1), name(2))
        .extend(DefinitionId(2), number(5));
    assert_eq!(Ast::Atom(name(1)).evaluate(&env, 4), Ok(Ast::Atom(name(2))));
    assert_eq!(Ast::Atom(name(2)).evaluate(&env, 4), Ok(Ast::Atom(number(5))));
}

#[test]
fn unbound_variable_stays() {
    let env = Substitutions::new().extend(DefinitionId(1), number(5));
    assert_eq!(name(2).evaluate(&env, 0), Ok(name(2)));
    assert_eq!(var(2).evaluate(&env), name(2));
    assert_eq!(var(1).evaluate(&env), number(5));
}

#[test]
fn literal_and_extern_are_inert() {
    let env = Substitutions::new().extend(DefinitionId(1), number(5));
    assert_eq!(number(3).evaluate(&env, 0), Ok(number(3)));
    assert_eq!(external("malloc").evaluate(&env, 0), Ok(external("malloc")));
    assert_eq!(Atom::Literal(Literal::Char('c')).evaluate(&env, 0), Ok(Atom::Literal(Literal::Char('c'))));
    assert_eq!(Atom::Literal(Literal::Unit).evaluate(&env, 0), Ok(Atom::Literal(Literal::Unit)));
}

#[test]
fn nested_lambda_shadows_the_outer_parameter() {
    // ((x) => (x, (x) => x, x))(1): the inner x is the inner parameter
    let inner = lambda(vec![var(1)], Ast::Atom(name(1)), false);
    let body = tuple(vec![name(1), inner.clone(), name(1)]);
    let reduced = evaluate(call(lambda(vec![var(1)], body, true), vec![number(1)], false));
    assert_eq!(reduced, Ok(tuple(vec![number(1), inner, number(1)])));
}

#[test]
fn lambda_body_sees_bindings_it_does_not_shadow() {
    let env = Substitutions::new()
        .extend(DefinitionId(1), number(1))
        .extend(DefinitionId(2), number(2));
    let function = lambda(vec![var(1)], tuple(vec![name(1), name(2)]), false);
    let expected = lambda(vec![var(1)], tuple(vec![name(1), number(2)]), false);
    assert_eq!(function.evaluate(&env, 0), Ok(expected));
}

#[test]
fn lambda_keeps_its_flag_and_parameters() {
    let params = vec![
        Variable { definition_id: DefinitionId(1), typ: Type::Boolean },
        Variable { definition_id: DefinitionId(2), typ: Type::Char },
    ];
    let function = Lambda { args: params.clone(), body: Box::new(Ast::Atom(name(3))), compile_time: true };
    let env = Substitutions::new().extend(DefinitionId(3), number(9));
    let expected = Lambda { args: params, body: Box::new(Ast::Atom(number(9))), compile_time: true };
    assert_eq!(function.evaluate(&env, 0), Ok(Atom::Lambda(expected)));
}

#[test]
fn call_of_a_runtime_lambda_is_preserved() {
    let env = Substitutions::new().extend(DefinitionId(5), number(5));
    let function = lambda(vec![var(1)], add_int(name(1), name(5)), false);
    let reduced = call(function, vec![name(5), name(6)], false).evaluate(&env, 8);
    let expected = call(
        lambda(vec![var(1)], add_int(name(1), number(5)), false),
        vec![number(5), name(6)],
        false,
    );
    assert_eq!(reduced, Ok(expected));
}

#[test]
fn compile_time_call_of_an_extern_is_preserved() {
    let env = Substitutions::new().extend(DefinitionId(1), number(1));
    let reduced = call(external("exit"), vec![name(1)], true).evaluate(&env, 8);
    assert_eq!(reduced, Ok(call(external("exit"), vec![number(1)], true)));
}

#[test]
fn compile_time_call_of_an_unbound_variable_is_preserved() {
    assert_eq!(evaluate(call(name(1), vec![], true)), Ok(call(name(1), vec![], true)));
}

#[test]
fn variable_bound_to_a_compile_time_lambda_is_called_at_compile_time() {
    // ((f) => f(1))((y) => y + 1), both at compile time
    let increment = lambda(vec![var(2)], add_int(name(2), number(1)), true);
    let apply = lambda(vec![var(1)], call(name(1), vec![number(1)], false), true);
    let reduced = evaluate(call(apply, vec![increment], false));
    assert_eq!(reduced, Ok(add_int(number(1), number(1))));
}

#[test]
fn arity_mismatch_is_a_fatal_error() {
    let function = lambda(vec![var(1), var(2)], Ast::Atom(name(1)), true);
    let too_few = evaluate(call(function.clone(), vec![number(1)], false));
    assert_eq!(too_few, Err(EvalError::ArityMismatch { expected: 2, found: 1 }));
    let too_many = evaluate(call(function, vec![number(1), number(2), number(3)], false));
    assert_eq!(too_many, Err(EvalError::ArityMismatch { expected: 2, found: 3 }));
}

#[test]
fn arity_is_not_checked_for_a_preserved_call() {
    let function = lambda(vec![var(1), var(2)], Ast::Atom(name(1)), false);
    let ast = call(function, vec![number(1)], false);
    assert_eq!(evaluate(ast.clone()), Ok(ast));
}

#[test]
fn resolve_takes_the_reduced_callee_and_arguments() {
    let env = Substitutions::new().extend(DefinitionId(9), number(9));
    let function = lambda(vec![var(1)], tuple(vec![name(1), name(9)]), true);
    let inlined = FunctionCall::resolve(function.clone(), vec![number(1)], false, &env, 1);
    assert_eq!(inlined, Ok(tuple(vec![number(1), number(9)])));
    let out_of_depth = FunctionCall::resolve(function.clone(), vec![number(1)], false, &env, 0);
    assert_eq!(out_of_depth, Err(EvalError::DepthExceeded));
    let mismatch = FunctionCall::resolve(function, vec![], false, &env, 0);
    assert_eq!(mismatch, Err(EvalError::ArityMismatch { expected: 1, found: 0 }));
    let kept = FunctionCall::resolve(external("f"), vec![name(9)], true, &env, 0);
    assert_eq!(kept, Ok(call(external("f"), vec![name(9)], true)));
}

#[test]
fn endless_application_runs_out_of_depth() {
    // ((x) => x(x))((x) => x(x)) at compile time
    let omega = lambda(vec![var(1)], call(name(1), vec![name(1)], false), true);
    let ast = call(omega.clone(), vec![omega], false);
    assert_eq!(ast.clone().evaluate(&Substitutions::new(), 0), Err(EvalError::DepthExceeded));
    assert_eq!(ast.evaluate(&Substitutions::new(), 50), Err(EvalError::DepthExceeded));
}

#[test]
fn depth_counts_nested_applications() {
    // ((f) => f(1))((y) => y + 1) needs two levels
    let increment = lambda(vec![var(2)], add_int(name(2), number(1)), true);
    let apply = lambda(vec![var(1)], call(name(1), vec![number(1)], false), true);
    let ast = call(apply, vec![increment], false);
    let env = Substitutions::new();
    assert_eq!(ast.clone().evaluate(&env, 1), Err(EvalError::DepthExceeded));
    let enough = ast.clone().evaluate(&env, 2);
    assert_eq!(enough, Ok(add_int(number(1), number(1))));
    assert_eq!(ast.evaluate(&env, 1000), enough);
}

#[test]
fn applications_side_by_side_share_one_level() {
    let identity = lambda(vec![var(1)], Ast::Atom(name(1)), true);
    let ast = Ast::Let(Let {
        variable: DefinitionId(2),
        expr: Box::new(call(identity.clone(), vec![number(1)], false)),
        body: Box::new(call(identity, vec![number(2)], false)),
    });
    let expected = Ast::Let(Let {
        variable: DefinitionId(2),
        expr: Box::new(Ast::Atom(number(1))),
        body: Box::new(Ast::Atom(number(2))),
    });
    assert_eq!(ast.evaluate(&Substitutions::new(), 1), Ok(expected));
}

#[test]
fn let_does_not_bind_in_the_environment() {
    let env = Substitutions::new().extend(DefinitionId(1), number(10));
    let ast = Ast::Let(Let {
        variable: DefinitionId(1),
        expr: Box::new(Ast::Atom(name(1))),
        body: Box::new(Ast::Atom(name(1))),
    });
    let expected = Ast::Let(Let {
        variable: DefinitionId(1),
        expr: Box::new(Ast::Atom(number(10))),
        body: Box::new(Ast::Atom(number(10))),
    });
    assert_eq!(ast.evaluate(&env, 0), Ok(expected));
}

#[test]
fn every_child_of_a_node_is_reduced() {
    let env = Substitutions::new()
        .extend(DefinitionId(1), number(1))
        .extend(DefinitionId(2), number(2));
    let conditional = Ast::If(If {
        condition: name(1),
        then_branch: Box::new(Ast::Return(Return { expression: name(2) })),
        otherwise: Box::new(Ast::MemberAccess(MemberAccess { lhs: name(1), member_index: 3 })),
    });
    let expected = Ast::If(If {
        condition: number(1),
        then_branch: Box::new(Ast::Return(Return { expression: number(2) })),
        otherwise: Box::new(Ast::MemberAccess(MemberAccess { lhs: number(1), member_index: 3 })),
    });
    assert_eq!(conditional.evaluate(&env, 0), Ok(expected));
    let assignment = Ast::Assignment(Assignment { lhs: name(1), rhs: name(2) });
    let expected = Ast::Assignment(Assignment { lhs: number(1), rhs: number(2) });
    assert_eq!(assignment.evaluate(&env, 0), Ok(expected));
    assert_eq!(tuple(vec![name(2), name(3)]).evaluate(&env, 0), Ok(tuple(vec![number(2), name(3)])));
    assert_eq!(tuple(vec![]).evaluate(&env, 0), Ok(tuple(vec![])));
}

#[test]
fn first_error_from_the_left_is_reported() {
    let first = Effect { id: DefinitionId(1), typ: Type::Unit };
    let second = Effect { id: DefinitionId(2), typ: Type::Unit };
    let fields = tuple(vec![number(0), Atom::Effect(first), Atom::Effect(second)]);
    assert_eq!(evaluate(fields), Err(EvalError::EffectNotRemoved(first)));
    let mismatch = lambda(vec![var(1)], Ast::Atom(name(1)), true);
    let ast = call(mismatch.clone(), vec![Atom::Effect(second)], false);
    assert_eq!(evaluate(ast), Err(EvalError::EffectNotRemoved(second)));
    let ast = call(mismatch, vec![], false);
    assert_eq!(evaluate(ast), Err(EvalError::ArityMismatch { expected: 1, found: 0 }));
}

#[test]
fn program_keeps_identities_and_order() {
    let identity = lambda(vec![var(1)], Ast::Atom(name(1)), true);
    let program = Mir {
        functions: vec![
            (DefinitionId(30), call(identity.clone(), vec![number(3)], false)),
            (DefinitionId(10), Ast::Atom(name(1))),
            (DefinitionId(20), call(identity, vec![number(2)], false)),
        ],
    };
    let expected = Mir {
        functions: vec![
            (DefinitionId(30), Ast::Atom(number(3))),
            (DefinitionId(10), Ast::Atom(name(1))),
            (DefinitionId(20), Ast::Atom(number(2))),
        ],
    };
    assert_eq!(program.evaluate_static_calls(1), Ok(expected));
}

#[test]
fn program_without_functions_is_unchanged() {
    let program = Mir { functions: vec![] };
    assert_eq!(program.evaluate_static_calls(0), Ok(Mir { functions: vec![] }));
}

#[test]
fn program_stops_at_its_first_error() {
    let first = Effect { id: DefinitionId(1), typ: Type::Unit };
    let omega = lambda(vec![var(1)], call(name(1), vec![name(1)], false), true);
    let program = Mir {
        functions: vec![
            (DefinitionId(1), Ast::Atom(number(1))),
            (DefinitionId(2), Ast::Atom(Atom::Effect(first))),
            (DefinitionId(3), call(omega.clone(), vec![omega], false)),
        ],
    };
    assert_eq!(program.evaluate_static_calls(8), Err(EvalError::EffectNotRemoved(first)));
}

#[test]
fn functions_start_from_the_empty_environment() {
    // a binding made while the first function is reduced is gone in the second
    let bind_one = call(lambda(vec![var(1)], Ast::Atom(name(1)), true), vec![number(1)], false);
    let program = Mir {
        functions: vec![(DefinitionId(1), bind_one), (DefinitionId(2), Ast::Atom(name(1)))],
    };
    let expected = Mir {
        functions: vec![(DefinitionId(1), Ast::Atom(number(1))), (DefinitionId(2), Ast::Atom(name(1)))],
    };
    assert_eq!(program.evaluate_static_calls(1), Ok(expected));
}

#[test]
fn copies_are_equal_to_what_they_copy() {
    let function = lambda(vec![var(1)], call(external("f"), vec![name(1), number(2)], true), true);
    assert_eq!(function.clone(), function);
    assert_eq!(function.duplicate(), function);
    let ast = Ast::Let(Let {
        variable: DefinitionId(2),
        expr: Box::new(Ast::Atom(function)),
        body: Box::new(add_int(name(2), number(1))),
    });
    assert_eq!(ast.clone(), ast);
    assert_eq!(ast.duplicate(), ast);
}
