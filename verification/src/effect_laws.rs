//! Effect operations and effect handlers: a program that holds one does not
//! evaluate to a result.

use crate::ir::DefinitionId;
use crate::model::{AtomModel, BuiltinModel, ExprModel, TreeModel};
use crate::reduced::{
    atom_effect_free, atoms_effect_free, builtin_effect_free, cases_effect_free, expr_effect_free,
    exprs_effect_free, tree_effect_free,
};
use crate::semantics::{
    atom_results, case_results, collect, Env, eval_atom, eval_atoms, eval_builtin, eval_cases,
    eval_expr, eval_exprs, eval_program, eval_tree, expr_results, function_results,
    lemma_collect_ok, prune,
};
use vstd::prelude::*;

verus! {

/// An atom that holds an effect operation or an effect handler, at any
/// depth, does not evaluate to a result.
pub proof fn law_effect_in_atom_is_an_error(atom: AtomModel, env: Env, depth: nat)
    requires
        !atom_effect_free(atom),
    ensures
        eval_atom(atom, env, depth) is Err,
    decreases atom,
{
    match atom {
        AtomModel::Lambda { params, body, .. } => {
            law_effect_is_an_error(*body, prune(env, params), depth);
        },
        _ => {},
    }
}

/// A sequence with an atom that holds an effect operation or an effect
/// handler does not evaluate to a result.
pub proof fn law_effect_in_atoms_is_an_error(atoms: Seq<AtomModel>, env: Env, depth: nat)
    requires
        !atoms_effect_free(atoms),
    ensures
        eval_atoms(atoms, env, depth) is Err,
    decreases atoms,
{
    let i = choose|i: int| 0 <= i < atoms.len() && !atom_effect_free(#[trigger] atoms[i]);
    law_effect_in_atom_is_an_error(atoms[i], env, depth);
    let results = atom_results(atoms, env, depth);
    assert(results[i] is Err);
    if collect(results) is Ok {
        lemma_collect_ok(results);
    }
}

/// A sequence with an expression that holds an effect operation or an effect
/// handler does not evaluate to a result.
pub proof fn law_effect_in_exprs_is_an_error(exprs: Seq<ExprModel>, env: Env, depth: nat)
    requires
        !exprs_effect_free(exprs),
    ensures
        eval_exprs(exprs, env, depth) is Err,
    decreases exprs,
{
    let i = choose|i: int| 0 <= i < exprs.len() && !expr_effect_free(#[trigger] exprs[i]);
    law_effect_is_an_error(exprs[i], env, depth);
    let results = expr_results(exprs, env, depth);
    assert(results[i] is Err);
    if collect(results) is Ok {
        lemma_collect_ok(results);
    }
}

/// Cases with a subtree that holds an effect operation or an effect handler
/// do not evaluate to a result.
pub proof fn law_effect_in_cases_is_an_error(cases: Seq<(u32, TreeModel)>, env: Env, depth: nat)
    requires
        !cases_effect_free(cases),
    ensures
        eval_cases(cases, env, depth) is Err,
    decreases cases,
{
    let i = choose|i: int| 0 <= i < cases.len() && !tree_effect_free((#[trigger] cases[i]).1);
    law_effect_in_tree_is_an_error(cases[i].1, env, depth);
    let results = case_results(cases, env, depth);
    assert(results[i] is Err);
    if collect(results) is Ok {
        lemma_collect_ok(results);
    }
}

/// A decision tree that holds an effect operation or an effect handler does
/// not evaluate to a result.
pub proof fn law_effect_in_tree_is_an_error(tree: TreeModel, env: Env, depth: nat)
    requires
        !tree_effect_free(tree),
    ensures
        eval_tree(tree, env, depth) is Err,
    decreases tree,
{
    match tree {
        TreeModel::Leaf(_) => {},
        TreeModel::Let { variable, expr, body } => {
            if !expr_effect_free(*expr) {
                law_effect_is_an_error(*expr, env, depth);
            } else {
                law_effect_in_tree_is_an_error(*body, env.remove(variable), depth);
            }
        },
        TreeModel::Switch { scrutinee, cases, default } => {
            if !atom_effect_free(scrutinee) {
                law_effect_in_atom_is_an_error(scrutinee, env, depth);
            } else if !cases_effect_free(cases) {
                law_effect_in_cases_is_an_error(cases, env, depth);
            } else {
                law_effect_in_tree_is_an_error(*default->Some_0, env, depth);
            }
        },
    }
}

/// A primitive operation with an operand that holds an effect operation or
/// an effect handler does not evaluate to a result.
pub proof fn law_effect_in_builtin_is_an_error(builtin: BuiltinModel, env: Env, depth: nat)
    requires
        !builtin_effect_free(builtin),
    ensures
        eval_builtin(builtin, env, depth) is Err,
    decreases builtin,
{
    match builtin {
        BuiltinModel::Binary(_, lhs, rhs) => {
            if !atom_effect_free(lhs) {
                law_effect_in_atom_is_an_error(lhs, env, depth);
            } else {
                law_effect_in_atom_is_an_error(rhs, env, depth);
            }
        },
        BuiltinModel::Unary(_, operand) => {
            law_effect_in_atom_is_an_error(operand, env, depth);
        },
        BuiltinModel::Typed(_, operand, _) => {
            law_effect_in_atom_is_an_error(operand, env, depth);
        },
        BuiltinModel::Offset(base, count, _) => {
            if !atom_effect_free(base) {
                law_effect_in_atom_is_an_error(base, env, depth);
            } else {
                law_effect_in_atom_is_an_error(count, env, depth);
            }
        },
    }
}

/// An expression that holds an effect operation or an effect handler, at any
/// depth, does not evaluate to a result, whatever the environment and the
/// depth.
pub proof fn law_effect_is_an_error(expr: ExprModel, env: Env, depth: nat)
    requires
        !expr_effect_free(expr),
    ensures
        eval_expr(expr, env, depth) is Err,
    decreases expr,
{
    match expr {
        ExprModel::Atom(atom) => {
            law_effect_in_atom_is_an_error(atom, env, depth);
        },
        ExprModel::Call { function, args, .. } => {
            if !atom_effect_free(function) {
                law_effect_in_atom_is_an_error(function, env, depth);
            } else {
                law_effect_in_atoms_is_an_error(args, env, depth);
            }
        },
        ExprModel::Let { expr, body, .. } => {
            if !expr_effect_free(*expr) {
                law_effect_is_an_error(*expr, env, depth);
            } else {
                law_effect_is_an_error(*body, env, depth);
            }
        },
        ExprModel::If { condition, then_branch, otherwise } => {
            if !atom_effect_free(condition) {
                law_effect_in_atom_is_an_error(condition, env, depth);
            } else if !expr_effect_free(*then_branch) {
                law_effect_is_an_error(*then_branch, env, depth);
            } else {
                law_effect_is_an_error(*otherwise, env, depth);
            }
        },
        ExprModel::Match { tree, branches } => {
            if !tree_effect_free(tree) {
                law_effect_in_tree_is_an_error(tree, env, depth);
            } else {
                law_effect_in_exprs_is_an_error(branches, env, depth);
            }
        },
        ExprModel::Return(atom) => {
            law_effect_in_atom_is_an_error(atom, env, depth);
        },
        ExprModel::Assignment { lhs, rhs } => {
            if !atom_effect_free(lhs) {
                law_effect_in_atom_is_an_error(lhs, env, depth);
            } else {
                law_effect_in_atom_is_an_error(rhs, env, depth);
            }
        },
        ExprModel::MemberAccess { lhs, .. } => {
            law_effect_in_atom_is_an_error(lhs, env, depth);
        },
        ExprModel::Tuple(fields) => {
            law_effect_in_atoms_is_an_error(fields, env, depth);
        },
        ExprModel::Builtin(builtin) => {
            law_effect_in_builtin_is_an_error(builtin, env, depth);
        },
        ExprModel::Handle { .. } => {},
    }
}

/// A program with a function that holds an effect operation or an effect
/// handler does not evaluate to a result.
pub proof fn law_effect_in_program_is_an_error(
    functions: Seq<(DefinitionId, ExprModel)>,
    index: int,
    depth: nat,
)
    requires
        0 <= index < functions.len(),
        !expr_effect_free(functions[index].1),
    ensures
        eval_program(functions, depth) is Err,
{
    law_effect_is_an_error(functions[index].1, Map::empty(), depth);
    let results = function_results(functions, depth);
    assert(results[index] is Err);
    if collect(results) is Ok {
        lemma_collect_ok(results);
    }
}

} // verus!
