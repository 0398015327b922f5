//! What holds of evaluation on every program.

use crate::error::EvalError;
use crate::ir::{DefinitionId, Variable};
use crate::model::{AtomModel, BuiltinModel, distinct_identities, ExprModel};
use crate::reduced::{atoms_reduced, expr_reduced};
use crate::reduced_laws::law_evaluated_expr_is_reduced;
use crate::semantics::{
    atom_results, bind, binds, Env, eval_atom, eval_atoms, eval_builtin, eval_expr, eval_program,
    function_results, is_static_call, lemma_collect_error, lemma_collect_ok, lemma_collect_values,
    prune, resolve_call,
};
use crate::sequences::lemma_eval_atoms_pointwise;
use crate::substitution::substitute_expr;
use crate::substitution_laws::{
    lemma_eval_atoms_substitutes, lemma_eval_expr_substitutes, lemma_substitute_nothing_atoms,
    lemma_substitute_nothing_expr,
};
use vstd::prelude::*;

verus! {

/// Idempotence: a reduced expression evaluates to itself under the
/// environment that binds nothing, whatever the depth.
pub proof fn law_reduced_expr_is_unchanged(expr: ExprModel, depth: nat)
    requires
        expr_reduced(expr),
    ensures
        eval_expr(expr, Map::empty(), depth) == Ok::<ExprModel, EvalError>(expr),
{
    lemma_substitute_nothing_expr(expr);
    lemma_eval_expr_substitutes(expr, Map::empty(), depth);
}

/// Idempotence: a program whose functions are all reduced evaluates to
/// itself, whatever the depth.
pub proof fn law_reduced_program_is_unchanged(
    functions: Seq<(DefinitionId, ExprModel)>,
    depth: nat,
)
    requires
        forall|i: int| 0 <= i < functions.len() ==> expr_reduced((#[trigger] functions[i]).1),
    ensures
        eval_program(functions, depth) == Ok::<Seq<(DefinitionId, ExprModel)>, EvalError>(
            functions,
        ),
{
    let results = function_results(functions, depth);
    assert forall|i: int| 0 <= i < results.len() implies (#[trigger] results[i]) == Ok::<
        (DefinitionId, ExprModel),
        EvalError,
    >(functions[i]) by {
        law_reduced_expr_is_unchanged(functions[i].1, depth);
    }
    lemma_collect_values(results);
    assert(Seq::new(results.len(), |i: int| results[i]->Ok_0) =~= functions);
}

/// The pass run twice is the pass run once: what a program evaluates to
/// evaluates to itself, whatever the depth of the second run.
pub proof fn law_evaluation_is_idempotent(
    functions: Seq<(DefinitionId, ExprModel)>,
    depth: nat,
    again: nat,
)
    requires
        eval_program(functions, depth) is Ok,
    ensures
        eval_program(eval_program(functions, depth)->Ok_0, again) == eval_program(functions, depth),
{
    let results = function_results(functions, depth);
    let reduced = eval_program(functions, depth)->Ok_0;
    lemma_collect_ok(results);
    assert forall|i: int| 0 <= i < reduced.len() implies expr_reduced(
        (#[trigger] reduced[i]).1,
    ) by {
        assert(results[i] is Ok);
        assert(eval_expr(functions[i].1, Map::empty(), depth) is Ok);
        law_evaluated_expr_is_reduced(functions[i].1, Map::empty(), depth);
    }
    law_reduced_program_is_unchanged(reduced, again);
}

/// Substitution correctness: a call, applied at compile time, of a closure
/// whose body is reduced, with reduced arguments, evaluates to the body with
/// each parameter replaced by its argument, where that leaves nothing to
/// reduce. Only the parameters are replaced: see
/// [`crate::substitution_laws::law_bind_touches_parameters_only`].
pub proof fn law_static_call_substitutes(
    params: Seq<Variable>,
    body: ExprModel,
    lambda_compile_time: bool,
    args: Seq<AtomModel>,
    compile_time: bool,
    depth: nat,
)
    requires
        lambda_compile_time || compile_time,
        params.len() == args.len(),
        depth > 0,
        expr_reduced(body),
        atoms_reduced(args),
        expr_reduced(substitute_expr(body, bind(Map::empty(), params, args))),
    ensures
        eval_expr(
            ExprModel::Call {
                function: AtomModel::Lambda {
                    params,
                    body: Box::new(body),
                    compile_time: lambda_compile_time,
                },
                args,
                compile_time,
            },
            Map::empty(),
            depth,
        ) == Ok::<ExprModel, EvalError>(substitute_expr(body, bind(Map::empty(), params, args))),
{
    let empty = Map::<DefinitionId, AtomModel>::empty();
    let function = AtomModel::Lambda {
        params,
        body: Box::new(body),
        compile_time: lambda_compile_time,
    };
    let inlined = substitute_expr(body, bind(empty, params, args));
    assert(prune(empty, params) =~= empty);
    law_reduced_expr_is_unchanged(body, depth);
    assert(eval_atom(function, empty, depth) == Ok::<AtomModel, EvalError>(function));
    lemma_substitute_nothing_atoms(args);
    lemma_eval_atoms_substitutes(args, empty, depth);
    lemma_eval_expr_substitutes(body, bind(empty, params, args), (depth - 1) as nat);
    law_reduced_expr_is_unchanged(inlined, (depth - 1) as nat);
    assert(resolve_call(function, args, compile_time, empty, depth) == Ok::<ExprModel, EvalError>(
        inlined,
    ));
}

/// Shadowing: what a closure evaluates to does not depend on what the
/// environment binds to the closure's own parameters.
pub proof fn law_parameters_shadow_bindings(
    params: Seq<Variable>,
    body: ExprModel,
    compile_time: bool,
    env: Env,
    id: DefinitionId,
    value: AtomModel,
    depth: nat,
)
    requires
        binds(params, id),
    ensures
        eval_atom(
            AtomModel::Lambda { params, body: Box::new(body), compile_time },
            env.insert(id, value),
            depth,
        ) == eval_atom(
            AtomModel::Lambda { params, body: Box::new(body), compile_time },
            env.remove(id),
            depth,
        ),
{
    assert(prune(env.insert(id, value), params) =~= prune(env.remove(id), params));
}

/// Shadowing: a binding that a closure shadows is still seen by what stands
/// beside the closure. In a pair of a closure and a variable that is one of
/// its parameters, the variable becomes the bound value, and the closure is
/// evaluated as if the variable were not bound.
pub proof fn law_shadowed_binding_reaches_siblings(
    params: Seq<Variable>,
    body: ExprModel,
    compile_time: bool,
    variable: Variable,
    env: Env,
    value: AtomModel,
    depth: nat,
)
    requires
        binds(params, variable.definition_id),
    ensures
        eval_atoms(
            seq![
                AtomModel::Lambda { params, body: Box::new(body), compile_time },
                AtomModel::Variable(variable),
            ],
            env.insert(variable.definition_id, value),
            depth,
        ) == match eval_atom(
            AtomModel::Lambda { params, body: Box::new(body), compile_time },
            env.remove(variable.definition_id),
            depth,
        ) {
            Ok(lambda) => Ok::<Seq<AtomModel>, EvalError>(seq![lambda, value]),
            Err(error) => Err(error),
        },
{
    let lambda = AtomModel::Lambda { params, body: Box::new(body), compile_time };
    let inner = env.insert(variable.definition_id, value);
    let atoms = seq![lambda, AtomModel::Variable(variable)];
    law_parameters_shadow_bindings(
        params,
        body,
        compile_time,
        env,
        variable.definition_id,
        value,
        depth,
    );
    let results = atom_results(atoms, inner, depth);
    assert(results[0] == eval_atom(lambda, inner, depth));
    assert(results[1] == Ok::<AtomModel, EvalError>(value));
    match eval_atom(lambda, inner, depth) {
        Ok(reduced) => {
            lemma_eval_atoms_pointwise(atoms, inner, depth, seq![reduced, value]);
        },
        Err(error) => {
            lemma_collect_error(results, 0);
        },
    }
}

/// Preservation: a call whose reduced callee is no closure, or a closure
/// that neither it nor the call site marks for compile time, stays a call of
/// the reduced callee with the reduced arguments.
pub proof fn law_other_calls_are_preserved(
    function: AtomModel,
    args: Seq<AtomModel>,
    compile_time: bool,
    env: Env,
    depth: nat,
)
    requires
        eval_atom(function, env, depth) is Ok,
        !is_static_call(eval_atom(function, env, depth)->Ok_0, compile_time),
    ensures
        eval_expr(ExprModel::Call { function, args, compile_time }, env, depth) == match eval_atoms(
            args,
            env,
            depth,
        ) {
            Ok(reduced) => Ok::<ExprModel, EvalError>(
                ExprModel::Call {
                    function: eval_atom(function, env, depth)->Ok_0,
                    args: reduced,
                    compile_time,
                },
            ),
            Err(error) => Err(error),
        },
{
    let reduced = eval_atom(function, env, depth)->Ok_0;
    match eval_atoms(args, env, depth) {
        Ok(values) => {
            assert(resolve_call(reduced, values, compile_time, env, depth) == Ok::<
                ExprModel,
                EvalError,
            >(ExprModel::Call { function: reduced, args: values, compile_time }));
        },
        Err(_) => {},
    }
}

/// Arity: a call that is applied at compile time with a number of arguments
/// other than the number of parameters is an error that names both numbers.
pub proof fn law_arity_mismatch_is_an_error(
    function: AtomModel,
    args: Seq<AtomModel>,
    compile_time: bool,
    env: Env,
    depth: nat,
)
    requires
        eval_atom(function, env, depth) is Ok,
        is_static_call(eval_atom(function, env, depth)->Ok_0, compile_time),
        eval_atoms(args, env, depth) is Ok,
        eval_atom(function, env, depth)->Ok_0->params.len() != args.len(),
    ensures
        eval_expr(ExprModel::Call { function, args, compile_time }, env, depth) == Err::<
            ExprModel,
            EvalError,
        >(
            EvalError::ArityMismatch {
                expected: eval_atom(function, env, depth)->Ok_0->params.len() as usize,
                found: args.len() as usize,
            },
        ),
{
    lemma_collect_ok(atom_results(args, env, depth));
    let reduced = eval_atom(function, env, depth)->Ok_0;
    let values = eval_atoms(args, env, depth)->Ok_0;
    assert(values.len() == args.len());
    assert(resolve_call(reduced, values, compile_time, env, depth) == Err::<ExprModel, EvalError>(
        EvalError::ArityMismatch {
            expected: reduced->params.len() as usize,
            found: values.len() as usize,
        },
    ));
}

/// Primitive operations: evaluation reduces the operands, from left to
/// right, and leaves the operation and the type descriptor as they are.
pub proof fn law_builtin_keeps_operation(builtin: BuiltinModel, env: Env, depth: nat)
    ensures
        eval_builtin(builtin, env, depth) matches Ok(reduced) ==> reduced.operation()
            == builtin.operation() && reduced.type_descriptor() == builtin.type_descriptor(),
        eval_atoms(builtin.operands(), env, depth) == match eval_builtin(builtin, env, depth) {
            Ok(reduced) => Ok::<Seq<AtomModel>, EvalError>(reduced.operands()),
            Err(error) => Err(error),
        },
{
    let operands = builtin.operands();
    let results = atom_results(operands, env, depth);
    assert(forall|i: int|
        0 <= i < operands.len() ==> #[trigger] results[i] == eval_atom(operands[i], env, depth));
    match eval_builtin(builtin, env, depth) {
        Ok(reduced) => {
            lemma_eval_atoms_pointwise(operands, env, depth, reduced.operands());
        },
        Err(error) => {
            if results[0] is Err {
                lemma_collect_error(results, 0);
            } else {
                lemma_collect_error(results, 1);
            }
        },
    }
}

/// The functions of a program keep their places and their identities: the
/// result has a function for each function of the program, under the same
/// identity, and it is the evaluation of that function on its own.
pub proof fn law_evaluation_keeps_identities(
    functions: Seq<(DefinitionId, ExprModel)>,
    depth: nat,
)
    requires
        eval_program(functions, depth) is Ok,
    ensures
        eval_program(functions, depth)->Ok_0.len() == functions.len(),
        forall|i: int|
            0 <= i < functions.len() ==> (#[trigger] eval_program(functions, depth)->Ok_0[i]).0
                == functions[i].0 && eval_expr(functions[i].1, Map::empty(), depth) == Ok::<
                ExprModel,
                EvalError,
            >(eval_program(functions, depth)->Ok_0[i].1),
        distinct_identities(eval_program(functions, depth)->Ok_0) == distinct_identities(
            functions,
        ),
{
    let results = function_results(functions, depth);
    let reduced = eval_program(functions, depth)->Ok_0;
    lemma_collect_ok(results);
    assert forall|i: int| 0 <= i < functions.len() implies (#[trigger] reduced[i]).0
        == functions[i].0 && eval_expr(functions[i].1, Map::empty(), depth) == Ok::<
        ExprModel,
        EvalError,
    >(reduced[i].1) by {
        assert(results[i] is Ok);
    }
    if distinct_identities(functions) {
        assert forall|i: int, j: int| 0 <= i < j < reduced.len() implies (#[trigger] reduced[i]).0
            != (#[trigger] reduced[j]).0 by {
            assert(functions[i].0 != functions[j].0);
        }
    }
    if distinct_identities(reduced) {
        assert forall|i: int, j: int|
            0 <= i < j < functions.len() implies (#[trigger] functions[i]).0
            != (#[trigger] functions[j]).0 by {
            assert(reduced[i].0 != reduced[j].0);
        }
    }
}

} // verus!
