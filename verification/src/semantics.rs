//! What evaluation computes, as functions on the values of the nodes.

use crate::error::EvalError;
use crate::ir::{DefinitionId, Variable};
use crate::model::{AtomModel, BuiltinModel, ExprModel, TreeModel};
use vstd::prelude::*;

verus! {

/// The value of a substitution environment.
pub type Env = Map<DefinitionId, AtomModel>;

/// Whether one of `params` has the identity `id`.
pub open spec fn binds(params: Seq<Variable>, id: DefinitionId) -> bool {
    exists|i: int| 0 <= i < params.len() && #[trigger] params[i].definition_id == id
}

/// `env` without a binding for any of `params`.
pub open spec fn prune(env: Env, params: Seq<Variable>) -> Env {
    env.remove_keys(Set::new(|id: DefinitionId| binds(params, id)))
}

/// `env` with each of `params` bound to the argument at its position. Where
/// an identity occurs twice among `params`, the later position decides.
pub open spec fn bind(env: Env, params: Seq<Variable>, args: Seq<AtomModel>) -> Env
    recommends
        params.len() == args.len(),
    decreases params.len(),
{
    if params.len() == 0 || args.len() == 0 {
        env
    } else {
        bind(env, params.drop_last(), args.drop_last()).insert(
            params.last().definition_id,
            args.last(),
        )
    }
}

/// The values of a sequence of results, if all of them are values; else the
/// first error from the left.
pub open spec fn collect<T>(results: Seq<Result<T, EvalError>>) -> Result<Seq<T>, EvalError>
    decreases results.len(),
{
    if results.len() == 0 {
        Ok(Seq::empty())
    } else {
        match collect(results.drop_last()) {
            Ok(front) => match results.last() {
                Ok(last) => Ok(front.push(last)),
                Err(error) => Err(error),
            },
            Err(error) => Err(error),
        }
    }
}

/// Where every result is a value, `collect` gives the values in order.
pub proof fn lemma_collect_values<T>(results: Seq<Result<T, EvalError>>)
    requires
        forall|i: int| 0 <= i < results.len() ==> (#[trigger] results[i]) is Ok,
    ensures
        collect(results) == Ok::<Seq<T>, EvalError>(
            Seq::new(results.len(), |i: int| results[i]->Ok_0),
        ),
    decreases results.len(),
{
    if results.len() > 0 {
        let front = results.drop_last();
        lemma_collect_values(front);
        assert(Seq::new(front.len(), |i: int| front[i]->Ok_0).push(results.last()->Ok_0)
            =~= Seq::new(results.len(), |i: int| results[i]->Ok_0));
    } else {
        assert(Seq::<T>::empty() =~= Seq::new(results.len(), |i: int| results[i]->Ok_0));
    }
}

/// Where `collect` gives values, there is one for each result, and each
/// result is its value.
pub proof fn lemma_collect_ok<T>(results: Seq<Result<T, EvalError>>)
    requires
        collect(results) is Ok,
    ensures
        collect(results)->Ok_0.len() == results.len(),
        forall|i: int|
            0 <= i < results.len() ==> #[trigger] results[i] == Ok::<T, EvalError>(
                collect(results)->Ok_0[i],
            ),
    decreases results.len(),
{
    if results.len() > 0 {
        lemma_collect_ok(results.drop_last());
        assert forall|i: int| 0 <= i < results.len() implies #[trigger] results[i] == Ok::<
            T,
            EvalError,
        >(collect(results)->Ok_0[i]) by {
            if i < results.len() - 1 {
                assert(results.drop_last()[i] == results[i]);
            }
        }
    }
}

/// Where the result at `index` is an error and every result to its left is a
/// value, `collect` gives that error.
pub proof fn lemma_collect_error<T>(results: Seq<Result<T, EvalError>>, index: int)
    requires
        0 <= index < results.len(),
        results[index] is Err,
        forall|j: int| 0 <= j < index ==> (#[trigger] results[j]) is Ok,
    ensures
        collect(results) == Err::<Seq<T>, EvalError>(results[index]->Err_0),
    decreases results.len(),
{
    let front = results.drop_last();
    if index < results.len() - 1 {
        lemma_collect_error(front, index);
    } else {
        lemma_collect_values(front);
    }
}

/// Where `collect` gives an error, that error is one of the results, and
/// every result to its left is a value.
pub proof fn lemma_collect_first_error<T>(results: Seq<Result<T, EvalError>>) -> (index: int)
    requires
        collect(results) is Err,
    ensures
        0 <= index < results.len(),
        results[index] == Err::<T, EvalError>(collect(results)->Err_0),
        forall|j: int| 0 <= j < index ==> (#[trigger] results[j]) is Ok,
    decreases results.len(),
{
    assert(results.len() > 0);
    let front = results.drop_last();
    assert(forall|j: int| 0 <= j < front.len() ==> front[j] == results[j]);
    if collect(front) is Err {
        let index = lemma_collect_first_error(front);
        assert forall|j: int| 0 <= j < index implies (#[trigger] results[j]) is Ok by {
            assert(front[j] is Ok);
        }
        index
    } else {
        lemma_collect_ok(front);
        assert forall|j: int| 0 <= j < results.len() - 1 implies (#[trigger] results[j]) is Ok by {
            assert(front[j] is Ok);
        }
        results.len() - 1
    }
}

/// Where two sequences of results agree wherever the first holds no error of
/// the depth, and `collect` of the first gives no error of the depth,
/// `collect` gives the same for both.
pub proof fn lemma_collect_agrees<T>(
    results: Seq<Result<T, EvalError>>,
    others: Seq<Result<T, EvalError>>,
)
    requires
        results.len() == others.len(),
        forall|i: int|
            0 <= i < results.len() && (#[trigger] results[i]) != Err::<T, EvalError>(
                EvalError::DepthExceeded,
            ) ==> others[i] == results[i],
        collect(results) != Err::<Seq<T>, EvalError>(EvalError::DepthExceeded),
    ensures
        collect(others) == collect(results),
{
    if collect(results) is Ok {
        lemma_collect_ok(results);
        assert(others =~= results);
    } else {
        let index = lemma_collect_first_error(results);
        assert forall|j: int| 0 <= j < index implies (#[trigger] others[j]) is Ok by {
            assert(results[j] is Ok);
        }
        lemma_collect_error(others, index);
    }
}

/// Whether a call with this reduced callee and this flag of the call site is
/// applied at compile time.
pub open spec fn is_static_call(function: AtomModel, compile_time: bool) -> bool {
    function matches AtomModel::Lambda { compile_time: lambda_compile_time, .. } && (
    lambda_compile_time || compile_time)
}

/// The reduction of an atom under `env`.
///
/// A variable that `env` binds becomes the bound value, which is not reduced
/// again. A closure has its body reduced under `env` without the closure's own
/// parameters. An effect operation is an error.
pub open spec fn eval_atom(atom: AtomModel, env: Env, depth: nat) -> Result<AtomModel, EvalError>
    decreases depth, 1nat, atom, 0nat,
{
    match atom {
        AtomModel::Literal(_) => Ok(atom),
        AtomModel::Variable(variable) => if env.contains_key(variable.definition_id) {
            Ok(env[variable.definition_id])
        } else {
            Ok(atom)
        },
        AtomModel::Lambda { params, body, compile_time } => match eval_expr(
            *body,
            prune(env, params),
            depth,
        ) {
            Ok(body) => Ok(AtomModel::Lambda { params, body: Box::new(body), compile_time }),
            Err(error) => Err(error),
        },
        AtomModel::Extern { .. } => Ok(atom),
        AtomModel::Effect(effect) => Err(EvalError::EffectNotRemoved(effect)),
    }
}

/// The reduction of each atom of a sequence, each on its own.
pub open spec fn atom_results(atoms: Seq<AtomModel>, env: Env, depth: nat) -> Seq<
    Result<AtomModel, EvalError>,
>
    decreases depth, 1nat, atoms, 0nat,
{
    Seq::new(
        atoms.len(),
        |i: int|
            if 0 <= i < atoms.len() {
                eval_atom(atoms[i], env, depth)
            } else {
                arbitrary()
            },
    )
}

/// The reduction of a sequence of atoms. The first error, from the left, is
/// the error of the whole.
pub open spec fn eval_atoms(atoms: Seq<AtomModel>, env: Env, depth: nat) -> Result<
    Seq<AtomModel>,
    EvalError,
>
    decreases depth, 1nat, atoms, 1nat,
{
    collect(atom_results(atoms, env, depth))
}

/// The reduction of each expression of a sequence, each on its own.
pub open spec fn expr_results(exprs: Seq<ExprModel>, env: Env, depth: nat) -> Seq<
    Result<ExprModel, EvalError>,
>
    decreases depth, 1nat, exprs, 0nat,
{
    Seq::new(
        exprs.len(),
        |i: int|
            if 0 <= i < exprs.len() {
                eval_expr(exprs[i], env, depth)
            } else {
                arbitrary()
            },
    )
}

/// The reduction of a sequence of expressions. The first error, from the
/// left, is the error of the whole.
pub open spec fn eval_exprs(exprs: Seq<ExprModel>, env: Env, depth: nat) -> Result<
    Seq<ExprModel>,
    EvalError,
>
    decreases depth, 1nat, exprs, 1nat,
{
    collect(expr_results(exprs, env, depth))
}

/// The reduction of the subtree of each case of a switch, each on its own.
pub open spec fn case_results(cases: Seq<(u32, TreeModel)>, env: Env, depth: nat) -> Seq<
    Result<(u32, TreeModel), EvalError>,
>
    decreases depth, 1nat, cases, 0nat,
{
    Seq::new(
        cases.len(),
        |i: int|
            if 0 <= i < cases.len() {
                match eval_tree(cases[i].1, env, depth) {
                    Ok(tree) => Ok((cases[i].0, tree)),
                    Err(error) => Err(error),
                }
            } else {
                arbitrary()
            },
    )
}

/// The reduction of the cases of a switch. The first error, from the left,
/// is the error of the whole.
pub open spec fn eval_cases(cases: Seq<(u32, TreeModel)>, env: Env, depth: nat) -> Result<
    Seq<(u32, TreeModel)>,
    EvalError,
>
    decreases depth, 1nat, cases, 1nat,
{
    collect(case_results(cases, env, depth))
}

/// The reduction of a decision tree under `env`.
///
/// A leaf stays as it is. A binding has its expression reduced under `env`,
/// and its subtree under `env` without the variable that it binds: inside the
/// subtree that variable is the one bound here. A switch has its tag reduced,
/// then the subtree of each case, then the default subtree, all under `env`.
pub open spec fn eval_tree(tree: TreeModel, env: Env, depth: nat) -> Result<TreeModel, EvalError>
    decreases depth, 1nat, tree, 0nat,
{
    match tree {
        TreeModel::Leaf(_) => Ok(tree),
        TreeModel::Let { variable, expr, body } => match eval_expr(*expr, env, depth) {
            Ok(expr) => match eval_tree(*body, env.remove(variable), depth) {
                Ok(body) => Ok(
                    TreeModel::Let { variable, expr: Box::new(expr), body: Box::new(body) },
                ),
                Err(error) => Err(error),
            },
            Err(error) => Err(error),
        },
        TreeModel::Switch { scrutinee, cases, default } => match eval_atom(scrutinee, env, depth) {
            Ok(scrutinee) => match eval_cases(cases, env, depth) {
                Ok(cases) => match default {
                    Some(tree) => match eval_tree(*tree, env, depth) {
                        Ok(tree) => Ok(
                            TreeModel::Switch { scrutinee, cases, default: Some(Box::new(tree)) },
                        ),
                        Err(error) => Err(error),
                    },
                    None => Ok(TreeModel::Switch { scrutinee, cases, default: None }),
                },
                Err(error) => Err(error),
            },
            Err(error) => Err(error),
        },
    }
}

/// The reduction of the operands of a primitive operation, from left to
/// right. The operation and its type descriptor stay as they are.
pub open spec fn eval_builtin(builtin: BuiltinModel, env: Env, depth: nat) -> Result<
    BuiltinModel,
    EvalError,
>
    decreases depth, 1nat, builtin, 0nat,
{
    match builtin {
        BuiltinModel::Binary(op, lhs, rhs) => match eval_atom(lhs, env, depth) {
            Ok(lhs) => match eval_atom(rhs, env, depth) {
                Ok(rhs) => Ok(BuiltinModel::Binary(op, lhs, rhs)),
                Err(error) => Err(error),
            },
            Err(error) => Err(error),
        },
        BuiltinModel::Unary(op, operand) => match eval_atom(operand, env, depth) {
            Ok(operand) => Ok(BuiltinModel::Unary(op, operand)),
            Err(error) => Err(error),
        },
        BuiltinModel::Typed(op, operand, typ) => match eval_atom(operand, env, depth) {
            Ok(operand) => Ok(BuiltinModel::Typed(op, operand, typ)),
            Err(error) => Err(error),
        },
        BuiltinModel::Offset(base, count, typ) => match eval_atom(base, env, depth) {
            Ok(base) => match eval_atom(count, env, depth) {
                Ok(count) => Ok(BuiltinModel::Offset(base, count, typ)),
                Err(error) => Err(error),
            },
            Err(error) => Err(error),
        },
    }
}

/// What becomes of a call once its callee and its arguments are reduced.
///
/// Where the callee is a closure, and the closure or the call site is marked
/// for compile time, the call is replaced: the body is reduced with the
/// parameters bound to the arguments, and the result is reduced once more
/// under the environment of the caller. This takes one level of `depth`.
/// Any other call stays a call.
pub open spec fn resolve_call(
    function: AtomModel,
    args: Seq<AtomModel>,
    compile_time: bool,
    env: Env,
    depth: nat,
) -> Result<ExprModel, EvalError>
    decreases depth, 0nat, function, 0nat,
{
    match function {
        AtomModel::Lambda { params, body, compile_time: lambda_compile_time } => if
            lambda_compile_time || compile_time {
            if params.len() != args.len() {
                Err(
                    EvalError::ArityMismatch {
                        expected: params.len() as usize,
                        found: args.len() as usize,
                    },
                )
            } else if depth == 0 {
                Err(EvalError::DepthExceeded)
            } else {
                match eval_expr(*body, bind(env, params, args), (depth - 1) as nat) {
                    Ok(inlined) => eval_expr(inlined, env, (depth - 1) as nat),
                    Err(error) => Err(error),
                }
            }
        } else {
            Ok(ExprModel::Call { function, args, compile_time })
        },
        _ => Ok(ExprModel::Call { function, args, compile_time }),
    }
}

/// The reduction of an expression under `env`, with at most `depth` nested
/// applications at compile time.
///
/// Every child is reduced under `env`, from left to right, and the node is
/// built again from the results; a call is then given to [`resolve_call`]. An
/// effect handler is an error.
pub open spec fn eval_expr(expr: ExprModel, env: Env, depth: nat) -> Result<ExprModel, EvalError>
    decreases depth, 1nat, expr, 0nat,
{
    match expr {
        ExprModel::Atom(atom) => match eval_atom(atom, env, depth) {
            Ok(atom) => Ok(ExprModel::Atom(atom)),
            Err(error) => Err(error),
        },
        ExprModel::Call { function, args, compile_time } => match eval_atom(function, env, depth) {
            Ok(function) => match eval_atoms(args, env, depth) {
                Ok(args) => resolve_call(function, args, compile_time, env, depth),
                Err(error) => Err(error),
            },
            Err(error) => Err(error),
        },
        ExprModel::Let { variable, expr, body } => match eval_expr(*expr, env, depth) {
            Ok(expr) => match eval_expr(*body, env, depth) {
                Ok(body) => Ok(
                    ExprModel::Let { variable, expr: Box::new(expr), body: Box::new(body) },
                ),
                Err(error) => Err(error),
            },
            Err(error) => Err(error),
        },
        ExprModel::If { condition, then_branch, otherwise } => match eval_atom(
            condition,
            env,
            depth,
        ) {
            Ok(condition) => match eval_expr(*then_branch, env, depth) {
                Ok(then_branch) => match eval_expr(*otherwise, env, depth) {
                    Ok(otherwise) => Ok(
                        ExprModel::If {
                            condition,
                            then_branch: Box::new(then_branch),
                            otherwise: Box::new(otherwise),
                        },
                    ),
                    Err(error) => Err(error),
                },
                Err(error) => Err(error),
            },
            Err(error) => Err(error),
        },
        ExprModel::Match { tree, branches } => match eval_tree(tree, env, depth) {
            Ok(tree) => match eval_exprs(branches, env, depth) {
                Ok(branches) => Ok(ExprModel::Match { tree, branches }),
                Err(error) => Err(error),
            },
            Err(error) => Err(error),
        },
        ExprModel::Return(atom) => match eval_atom(atom, env, depth) {
            Ok(atom) => Ok(ExprModel::Return(atom)),
            Err(error) => Err(error),
        },
        ExprModel::Assignment { lhs, rhs } => match eval_atom(lhs, env, depth) {
            Ok(lhs) => match eval_atom(rhs, env, depth) {
                Ok(rhs) => Ok(ExprModel::Assignment { lhs, rhs }),
                Err(error) => Err(error),
            },
            Err(error) => Err(error),
        },
        ExprModel::MemberAccess { lhs, member_index } => match eval_atom(lhs, env, depth) {
            Ok(lhs) => Ok(ExprModel::MemberAccess { lhs, member_index }),
            Err(error) => Err(error),
        },
        ExprModel::Tuple(fields) => match eval_atoms(fields, env, depth) {
            Ok(fields) => Ok(ExprModel::Tuple(fields)),
            Err(error) => Err(error),
        },
        ExprModel::Builtin(builtin) => match eval_builtin(builtin, env, depth) {
            Ok(builtin) => Ok(ExprModel::Builtin(builtin)),
            Err(error) => Err(error),
        },
        ExprModel::Handle { effect, .. } => Err(EvalError::HandleNotRemoved(effect)),
    }
}

/// The reduction of each function of a program, each on its own and under
/// the empty environment. The identities stay as they are.
pub open spec fn function_results(functions: Seq<(DefinitionId, ExprModel)>, depth: nat) -> Seq<
    Result<(DefinitionId, ExprModel), EvalError>,
> {
    Seq::new(
        functions.len(),
        |i: int|
            match eval_expr(functions[i].1, Map::empty(), depth) {
                Ok(body) => Ok((functions[i].0, body)),
                Err(error) => Err(error),
            },
    )
}

/// The reduction of a program. The first error, from the left, is the error
/// of the whole.
pub open spec fn eval_program(functions: Seq<(DefinitionId, ExprModel)>, depth: nat) -> Result<
    Seq<(DefinitionId, ExprModel)>,
    EvalError,
> {
    collect(function_results(functions, depth))
}

} // verus!
