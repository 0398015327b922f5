//! What evaluation gives is reduced.

use crate::ir::Variable;
use crate::model::{AtomModel, BuiltinModel, ExprModel, TreeModel};
use crate::reduced::{
    atom_reduced, atoms_reduced, builtin_reduced, cases_reduced, env_reduced, expr_reduced,
    exprs_reduced, tree_reduced,
};
use crate::semantics::{
    atom_results, bind, case_results, eval_atom, eval_atoms, eval_builtin, eval_cases, eval_expr,
    eval_exprs, eval_tree, expr_results, is_static_call, lemma_collect_ok, prune, resolve_call,
    Env,
};
use vstd::prelude::*;

verus! {

/// Binding reduced arguments in an environment of reduced values gives an
/// environment of reduced values.
pub proof fn lemma_bind_keeps_reduced(env: Env, params: Seq<Variable>, args: Seq<AtomModel>)
    requires
        env_reduced(env),
        atoms_reduced(args),
    ensures
        env_reduced(bind(env, params, args)),
    decreases params.len(),
{
    if params.len() > 0 && args.len() > 0 {
        lemma_bind_keeps_reduced(env, params.drop_last(), args.drop_last());
        assert(atom_reduced(args[args.len() - 1]));
    }
}

/// Under an environment of reduced values, what an atom evaluates to is
/// reduced.
pub proof fn law_evaluated_atom_is_reduced(atom: AtomModel, env: Env, depth: nat)
    requires
        env_reduced(env),
        eval_atom(atom, env, depth) is Ok,
    ensures
        atom_reduced(eval_atom(atom, env, depth)->Ok_0),
    decreases depth, 1nat, atom,
{
    match atom {
        AtomModel::Lambda { params, body, .. } => {
            law_evaluated_expr_is_reduced(*body, prune(env, params), depth);
        },
        _ => {},
    }
}

/// Under an environment of reduced values, what the atoms of a sequence
/// evaluate to is reduced.
pub proof fn law_evaluated_atoms_are_reduced(atoms: Seq<AtomModel>, env: Env, depth: nat)
    requires
        env_reduced(env),
        eval_atoms(atoms, env, depth) is Ok,
    ensures
        atoms_reduced(eval_atoms(atoms, env, depth)->Ok_0),
    decreases depth, 1nat, atoms,
{
    let results = atom_results(atoms, env, depth);
    let values = eval_atoms(atoms, env, depth)->Ok_0;
    lemma_collect_ok(results);
    assert forall|i: int| 0 <= i < values.len() implies atom_reduced(#[trigger] values[i]) by {
        assert(results[i] == eval_atom(atoms[i], env, depth));
        law_evaluated_atom_is_reduced(atoms[i], env, depth);
    }
}

/// Under an environment of reduced values, what the expressions of a
/// sequence evaluate to is reduced.
pub proof fn law_evaluated_exprs_are_reduced(exprs: Seq<ExprModel>, env: Env, depth: nat)
    requires
        env_reduced(env),
        eval_exprs(exprs, env, depth) is Ok,
    ensures
        exprs_reduced(eval_exprs(exprs, env, depth)->Ok_0),
    decreases depth, 1nat, exprs,
{
    let results = expr_results(exprs, env, depth);
    let values = eval_exprs(exprs, env, depth)->Ok_0;
    lemma_collect_ok(results);
    assert forall|i: int| 0 <= i < values.len() implies expr_reduced(#[trigger] values[i]) by {
        assert(results[i] == eval_expr(exprs[i], env, depth));
        law_evaluated_expr_is_reduced(exprs[i], env, depth);
    }
}

/// Under an environment of reduced values, what the cases of a switch
/// evaluate to is reduced.
pub proof fn law_evaluated_cases_are_reduced(cases: Seq<(u32, TreeModel)>, env: Env, depth: nat)
    requires
        env_reduced(env),
        eval_cases(cases, env, depth) is Ok,
    ensures
        cases_reduced(eval_cases(cases, env, depth)->Ok_0),
    decreases depth, 1nat, cases,
{
    let results = case_results(cases, env, depth);
    let values = eval_cases(cases, env, depth)->Ok_0;
    lemma_collect_ok(results);
    assert forall|i: int| 0 <= i < values.len() implies tree_reduced((#[trigger] values[i]).1) by {
        assert(results[i] is Ok);
        assert(eval_tree(cases[i].1, env, depth) is Ok);
        law_evaluated_tree_is_reduced(cases[i].1, env, depth);
    }
}

/// Under an environment of reduced values, what a decision tree evaluates to
/// is reduced.
pub proof fn law_evaluated_tree_is_reduced(tree: TreeModel, env: Env, depth: nat)
    requires
        env_reduced(env),
        eval_tree(tree, env, depth) is Ok,
    ensures
        tree_reduced(eval_tree(tree, env, depth)->Ok_0),
    decreases depth, 1nat, tree,
{
    match tree {
        TreeModel::Leaf(_) => {},
        TreeModel::Let { variable, expr, body } => {
            law_evaluated_expr_is_reduced(*expr, env, depth);
            law_evaluated_tree_is_reduced(*body, env.remove(variable), depth);
        },
        TreeModel::Switch { scrutinee, cases, default } => {
            law_evaluated_atom_is_reduced(scrutinee, env, depth);
            law_evaluated_cases_are_reduced(cases, env, depth);
            match default {
                Some(tree) => {
                    law_evaluated_tree_is_reduced(*tree, env, depth);
                },
                None => {},
            }
        },
    }
}

/// Under an environment of reduced values, what a primitive operation
/// evaluates to is reduced.
pub proof fn law_evaluated_builtin_is_reduced(builtin: BuiltinModel, env: Env, depth: nat)
    requires
        env_reduced(env),
        eval_builtin(builtin, env, depth) is Ok,
    ensures
        builtin_reduced(eval_builtin(builtin, env, depth)->Ok_0),
    decreases depth, 1nat, builtin,
{
    match builtin {
        BuiltinModel::Binary(_, lhs, rhs) => {
            law_evaluated_atom_is_reduced(lhs, env, depth);
            law_evaluated_atom_is_reduced(rhs, env, depth);
        },
        BuiltinModel::Unary(_, operand) => {
            law_evaluated_atom_is_reduced(operand, env, depth);
        },
        BuiltinModel::Typed(_, operand, _) => {
            law_evaluated_atom_is_reduced(operand, env, depth);
        },
        BuiltinModel::Offset(base, count, _) => {
            law_evaluated_atom_is_reduced(base, env, depth);
            law_evaluated_atom_is_reduced(count, env, depth);
        },
    }
}

/// Under an environment of reduced values, what a call with a reduced callee
/// and reduced arguments becomes is reduced.
pub proof fn law_resolved_call_is_reduced(
    function: AtomModel,
    args: Seq<AtomModel>,
    compile_time: bool,
    env: Env,
    depth: nat,
)
    requires
        env_reduced(env),
        atom_reduced(function),
        atoms_reduced(args),
        resolve_call(function, args, compile_time, env, depth) is Ok,
    ensures
        expr_reduced(resolve_call(function, args, compile_time, env, depth)->Ok_0),
    decreases depth, 0nat, function,
{
    if is_static_call(function, compile_time) {
        let params = function->params;
        let body = *function->body;
        let inner = bind(env, params, args);
        lemma_bind_keeps_reduced(env, params, args);
        let inlined = eval_expr(body, inner, (depth - 1) as nat)->Ok_0;
        law_evaluated_expr_is_reduced(inlined, env, (depth - 1) as nat);
    }
}

/// The result of the pass: under an environment of reduced values, and so
/// under the environment that binds nothing, what an expression evaluates to
/// is reduced. No effect operation, no effect handler and no call that is
/// applied at compile time is left in it.
pub proof fn law_evaluated_expr_is_reduced(expr: ExprModel, env: Env, depth: nat)
    requires
        env_reduced(env),
        eval_expr(expr, env, depth) is Ok,
    ensures
        expr_reduced(eval_expr(expr, env, depth)->Ok_0),
    decreases depth, 1nat, expr,
{
    match expr {
        ExprModel::Atom(atom) => {
            law_evaluated_atom_is_reduced(atom, env, depth);
        },
        ExprModel::Call { function, args, compile_time } => {
            law_evaluated_atom_is_reduced(function, env, depth);
            law_evaluated_atoms_are_reduced(args, env, depth);
            law_resolved_call_is_reduced(
                eval_atom(function, env, depth)->Ok_0,
                eval_atoms(args, env, depth)->Ok_0,
                compile_time,
                env,
                depth,
            );
        },
        ExprModel::Let { expr, body, .. } => {
            law_evaluated_expr_is_reduced(*expr, env, depth);
            law_evaluated_expr_is_reduced(*body, env, depth);
        },
        ExprModel::If { condition, then_branch, otherwise } => {
            law_evaluated_atom_is_reduced(condition, env, depth);
            law_evaluated_expr_is_reduced(*then_branch, env, depth);
            law_evaluated_expr_is_reduced(*otherwise, env, depth);
        },
        ExprModel::Match { tree, branches } => {
            law_evaluated_tree_is_reduced(tree, env, depth);
            law_evaluated_exprs_are_reduced(branches, env, depth);
        },
        ExprModel::Return(atom) => {
            law_evaluated_atom_is_reduced(atom, env, depth);
        },
        ExprModel::Assignment { lhs, rhs } => {
            law_evaluated_atom_is_reduced(lhs, env, depth);
            law_evaluated_atom_is_reduced(rhs, env, depth);
        },
        ExprModel::MemberAccess { lhs, .. } => {
            law_evaluated_atom_is_reduced(lhs, env, depth);
        },
        ExprModel::Tuple(fields) => {
            law_evaluated_atoms_are_reduced(fields, env, depth);
        },
        ExprModel::Builtin(builtin) => {
            law_evaluated_builtin_is_reduced(builtin, env, depth);
        },
        ExprModel::Handle { .. } => {},
    }
}

} // verus!
