//! Evaluation and substitution: where substitution leaves nothing to reduce,
//! evaluation is substitution.

use crate::error::EvalError;
use crate::ir::{DefinitionId, Variable};
use crate::model::{AtomModel, BuiltinModel, ExprModel, TreeModel};
use crate::reduced::{
    atom_reduced, atoms_reduced, builtin_reduced, cases_reduced, expr_reduced, exprs_reduced,
    tree_reduced,
};
use crate::semantics::{
    bind, binds, Env, eval_atom, eval_atoms, eval_builtin, eval_cases, eval_expr, eval_exprs,
    eval_tree, prune, resolve_call,
};
use crate::sequences::{
    lemma_eval_atoms_pointwise, lemma_eval_cases_pointwise, lemma_eval_exprs_pointwise,
};
use crate::substitution::{
    substitute_atom, substitute_atoms, substitute_builtin, substitute_cases, substitute_expr,
    substitute_exprs, substitute_tree,
};
use vstd::prelude::*;

verus! {

/// Substitution under the environment that binds nothing changes nothing.
pub proof fn lemma_substitute_nothing_atom(atom: AtomModel)
    ensures
        substitute_atom(atom, Map::empty()) == atom,
    decreases atom,
{
    match atom {
        AtomModel::Lambda { params, body, compile_time } => {
            assert(prune(Map::empty(), params) =~= Map::empty());
            lemma_substitute_nothing_expr(*body);
        },
        _ => {},
    }
}

/// Substitution under the environment that binds nothing changes no atom of a
/// sequence.
pub proof fn lemma_substitute_nothing_atoms(atoms: Seq<AtomModel>)
    ensures
        substitute_atoms(atoms, Map::empty()) == atoms,
    decreases atoms,
{
    assert forall|i: int| 0 <= i < atoms.len() implies substitute_atom(
        #[trigger] atoms[i],
        Map::empty(),
    ) == atoms[i] by {
        lemma_substitute_nothing_atom(atoms[i]);
    }
    assert(substitute_atoms(atoms, Map::empty()) =~= atoms);
}

/// Substitution under the environment that binds nothing changes no
/// expression of a sequence.
pub proof fn lemma_substitute_nothing_exprs(exprs: Seq<ExprModel>)
    ensures
        substitute_exprs(exprs, Map::empty()) == exprs,
    decreases exprs,
{
    assert forall|i: int| 0 <= i < exprs.len() implies substitute_expr(
        #[trigger] exprs[i],
        Map::empty(),
    ) == exprs[i] by {
        lemma_substitute_nothing_expr(exprs[i]);
    }
    assert(substitute_exprs(exprs, Map::empty()) =~= exprs);
}

/// Substitution under the environment that binds nothing changes no case of
/// a switch.
pub proof fn lemma_substitute_nothing_cases(cases: Seq<(u32, TreeModel)>)
    ensures
        substitute_cases(cases, Map::empty()) == cases,
    decreases cases,
{
    assert forall|i: int| 0 <= i < cases.len() implies substitute_tree(
        (#[trigger] cases[i]).1,
        Map::empty(),
    ) == cases[i].1 by {
        lemma_substitute_nothing_tree(cases[i].1);
    }
    assert(substitute_cases(cases, Map::empty()) =~= cases);
}

/// Substitution under the environment that binds nothing changes no decision
/// tree.
pub proof fn lemma_substitute_nothing_tree(tree: TreeModel)
    ensures
        substitute_tree(tree, Map::empty()) == tree,
    decreases tree,
{
    match tree {
        TreeModel::Leaf(_) => {},
        TreeModel::Let { variable, expr, body } => {
            assert(Map::<DefinitionId, AtomModel>::empty().remove(variable) =~= Map::empty());
            lemma_substitute_nothing_expr(*expr);
            lemma_substitute_nothing_tree(*body);
        },
        TreeModel::Switch { scrutinee, cases, default } => {
            lemma_substitute_nothing_atom(scrutinee);
            lemma_substitute_nothing_cases(cases);
            match default {
                Some(tree) => {
                    lemma_substitute_nothing_tree(*tree);
                },
                None => {},
            }
        },
    }
}

/// Substitution under the environment that binds nothing changes no
/// primitive operation.
pub proof fn lemma_substitute_nothing_builtin(builtin: BuiltinModel)
    ensures
        substitute_builtin(builtin, Map::empty()) == builtin,
    decreases builtin,
{
    match builtin {
        BuiltinModel::Binary(_, lhs, rhs) => {
            lemma_substitute_nothing_atom(lhs);
            lemma_substitute_nothing_atom(rhs);
        },
        BuiltinModel::Unary(_, operand) => {
            lemma_substitute_nothing_atom(operand);
        },
        BuiltinModel::Typed(_, operand, _) => {
            lemma_substitute_nothing_atom(operand);
        },
        BuiltinModel::Offset(base, count, _) => {
            lemma_substitute_nothing_atom(base);
            lemma_substitute_nothing_atom(count);
        },
    }
}

/// Substitution under the environment that binds nothing changes no
/// expression.
pub proof fn lemma_substitute_nothing_expr(expr: ExprModel)
    ensures
        substitute_expr(expr, Map::empty()) == expr,
    decreases expr,
{
    match expr {
        ExprModel::Atom(atom) => {
            lemma_substitute_nothing_atom(atom);
        },
        ExprModel::Call { function, args, .. } => {
            lemma_substitute_nothing_atom(function);
            lemma_substitute_nothing_atoms(args);
        },
        ExprModel::Let { expr, body, .. } => {
            lemma_substitute_nothing_expr(*expr);
            lemma_substitute_nothing_expr(*body);
        },
        ExprModel::If { condition, then_branch, otherwise } => {
            lemma_substitute_nothing_atom(condition);
            lemma_substitute_nothing_expr(*then_branch);
            lemma_substitute_nothing_expr(*otherwise);
        },
        ExprModel::Match { tree, branches } => {
            lemma_substitute_nothing_tree(tree);
            lemma_substitute_nothing_exprs(branches);
        },
        ExprModel::Return(atom) => {
            lemma_substitute_nothing_atom(atom);
        },
        ExprModel::Assignment { lhs, rhs } => {
            lemma_substitute_nothing_atom(lhs);
            lemma_substitute_nothing_atom(rhs);
        },
        ExprModel::MemberAccess { lhs, .. } => {
            lemma_substitute_nothing_atom(lhs);
        },
        ExprModel::Tuple(fields) => {
            lemma_substitute_nothing_atoms(fields);
        },
        ExprModel::Builtin(builtin) => {
            lemma_substitute_nothing_builtin(builtin);
        },
        ExprModel::Handle { .. } => {},
    }
}

/// Where substitution in an atom leaves nothing to reduce, evaluation is
/// that substitution.
pub proof fn lemma_eval_atom_substitutes(atom: AtomModel, env: Env, depth: nat)
    requires
        atom_reduced(substitute_atom(atom, env)),
    ensures
        eval_atom(atom, env, depth) == Ok::<AtomModel, EvalError>(substitute_atom(atom, env)),
    decreases atom,
{
    match atom {
        AtomModel::Lambda { params, body, .. } => {
            lemma_eval_expr_substitutes(*body, prune(env, params), depth);
        },
        _ => {},
    }
}

/// Where substitution in the atoms of a sequence leaves nothing to reduce,
/// evaluation is that substitution.
pub proof fn lemma_eval_atoms_substitutes(atoms: Seq<AtomModel>, env: Env, depth: nat)
    requires
        atoms_reduced(substitute_atoms(atoms, env)),
    ensures
        eval_atoms(atoms, env, depth) == Ok::<Seq<AtomModel>, EvalError>(
            substitute_atoms(atoms, env),
        ),
    decreases atoms,
{
    let values = substitute_atoms(atoms, env);
    assert forall|i: int| 0 <= i < atoms.len() implies eval_atom(
        #[trigger] atoms[i],
        env,
        depth,
    ) == Ok::<AtomModel, EvalError>(values[i]) by {
        assert(atom_reduced(values[i]));
        lemma_eval_atom_substitutes(atoms[i], env, depth);
    }
    lemma_eval_atoms_pointwise(atoms, env, depth, values);
}

/// Where substitution in the expressions of a sequence leaves nothing to
/// reduce, evaluation is that substitution.
pub proof fn lemma_eval_exprs_substitutes(exprs: Seq<ExprModel>, env: Env, depth: nat)
    requires
        exprs_reduced(substitute_exprs(exprs, env)),
    ensures
        eval_exprs(exprs, env, depth) == Ok::<Seq<ExprModel>, EvalError>(
            substitute_exprs(exprs, env),
        ),
    decreases exprs,
{
    let values = substitute_exprs(exprs, env);
    assert forall|i: int| 0 <= i < exprs.len() implies eval_expr(
        #[trigger] exprs[i],
        env,
        depth,
    ) == Ok::<ExprModel, EvalError>(values[i]) by {
        assert(expr_reduced(values[i]));
        lemma_eval_expr_substitutes(exprs[i], env, depth);
    }
    lemma_eval_exprs_pointwise(exprs, env, depth, values);
}

/// Where substitution in the cases of a switch leaves nothing to reduce,
/// evaluation is that substitution.
pub proof fn lemma_eval_cases_substitutes(cases: Seq<(u32, TreeModel)>, env: Env, depth: nat)
    requires
        cases_reduced(substitute_cases(cases, env)),
    ensures
        eval_cases(cases, env, depth) == Ok::<Seq<(u32, TreeModel)>, EvalError>(
            substitute_cases(cases, env),
        ),
    decreases cases,
{
    let values = substitute_cases(cases, env);
    assert forall|i: int| 0 <= i < cases.len() implies values[i].0 == (#[trigger] cases[i]).0
        && eval_tree(cases[i].1, env, depth) == Ok::<TreeModel, EvalError>(values[i].1) by {
        assert(tree_reduced(values[i].1));
        lemma_eval_tree_substitutes(cases[i].1, env, depth);
    }
    lemma_eval_cases_pointwise(cases, env, depth, values);
}

/// Where substitution in a decision tree leaves nothing to reduce, evaluation
/// is that substitution.
pub proof fn lemma_eval_tree_substitutes(tree: TreeModel, env: Env, depth: nat)
    requires
        tree_reduced(substitute_tree(tree, env)),
    ensures
        eval_tree(tree, env, depth) == Ok::<TreeModel, EvalError>(substitute_tree(tree, env)),
    decreases tree,
{
    match tree {
        TreeModel::Leaf(_) => {},
        TreeModel::Let { variable, expr, body } => {
            lemma_eval_expr_substitutes(*expr, env, depth);
            lemma_eval_tree_substitutes(*body, env.remove(variable), depth);
        },
        TreeModel::Switch { scrutinee, cases, default } => {
            lemma_eval_atom_substitutes(scrutinee, env, depth);
            lemma_eval_cases_substitutes(cases, env, depth);
            match default {
                Some(tree) => {
                    lemma_eval_tree_substitutes(*tree, env, depth);
                },
                None => {},
            }
        },
    }
}

/// Where substitution in the operands of a primitive operation leaves nothing
/// to reduce, evaluation is that substitution.
pub proof fn lemma_eval_builtin_substitutes(builtin: BuiltinModel, env: Env, depth: nat)
    requires
        builtin_reduced(substitute_builtin(builtin, env)),
    ensures
        eval_builtin(builtin, env, depth) == Ok::<BuiltinModel, EvalError>(
            substitute_builtin(builtin, env),
        ),
    decreases builtin,
{
    match builtin {
        BuiltinModel::Binary(_, lhs, rhs) => {
            lemma_eval_atom_substitutes(lhs, env, depth);
            lemma_eval_atom_substitutes(rhs, env, depth);
        },
        BuiltinModel::Unary(_, operand) => {
            lemma_eval_atom_substitutes(operand, env, depth);
        },
        BuiltinModel::Typed(_, operand, _) => {
            lemma_eval_atom_substitutes(operand, env, depth);
        },
        BuiltinModel::Offset(base, count, _) => {
            lemma_eval_atom_substitutes(base, env, depth);
            lemma_eval_atom_substitutes(count, env, depth);
        },
    }
}

/// Where substitution in an expression leaves nothing to reduce, evaluation
/// is that substitution: the variables that the environment binds are
/// replaced by their values, and nothing else changes.
pub proof fn lemma_eval_expr_substitutes(expr: ExprModel, env: Env, depth: nat)
    requires
        expr_reduced(substitute_expr(expr, env)),
    ensures
        eval_expr(expr, env, depth) == Ok::<ExprModel, EvalError>(substitute_expr(expr, env)),
    decreases expr,
{
    match expr {
        ExprModel::Atom(atom) => {
            lemma_eval_atom_substitutes(atom, env, depth);
        },
        ExprModel::Call { function, args, compile_time } => {
            lemma_eval_atom_substitutes(function, env, depth);
            lemma_eval_atoms_substitutes(args, env, depth);
            assert(resolve_call(
                substitute_atom(function, env),
                substitute_atoms(args, env),
                compile_time,
                env,
                depth,
            ) == Ok::<ExprModel, EvalError>(substitute_expr(expr, env)));
        },
        ExprModel::Let { expr, body, .. } => {
            lemma_eval_expr_substitutes(*expr, env, depth);
            lemma_eval_expr_substitutes(*body, env, depth);
        },
        ExprModel::If { condition, then_branch, otherwise } => {
            lemma_eval_atom_substitutes(condition, env, depth);
            lemma_eval_expr_substitutes(*then_branch, env, depth);
            lemma_eval_expr_substitutes(*otherwise, env, depth);
        },
        ExprModel::Match { tree, branches } => {
            lemma_eval_tree_substitutes(tree, env, depth);
            lemma_eval_exprs_substitutes(branches, env, depth);
        },
        ExprModel::Return(atom) => {
            lemma_eval_atom_substitutes(atom, env, depth);
        },
        ExprModel::Assignment { lhs, rhs } => {
            lemma_eval_atom_substitutes(lhs, env, depth);
            lemma_eval_atom_substitutes(rhs, env, depth);
        },
        ExprModel::MemberAccess { lhs, .. } => {
            lemma_eval_atom_substitutes(lhs, env, depth);
        },
        ExprModel::Tuple(fields) => {
            lemma_eval_atoms_substitutes(fields, env, depth);
        },
        ExprModel::Builtin(builtin) => {
            lemma_eval_builtin_substitutes(builtin, env, depth);
        },
        ExprModel::Handle { .. } => {},
    }
}

/// What binding arguments to parameters changes in an environment: exactly
/// the parameters get a value, and every other identity keeps what it had.
pub proof fn law_bind_touches_parameters_only(
    env: Env,
    params: Seq<Variable>,
    args: Seq<AtomModel>,
)
    requires
        params.len() == args.len(),
    ensures
        forall|id: DefinitionId|
            #[trigger] bind(env, params, args).contains_key(id) <==> env.contains_key(id) || binds(
                params,
                id,
            ),
        forall|id: DefinitionId|
            env.contains_key(id) && !binds(params, id) ==> #[trigger] bind(env, params, args)[id]
                == env[id],
    decreases params.len(),
{
    if params.len() > 0 {
        let front = params.drop_last();
        let last = params.last().definition_id;
        let inner = bind(env, front, args.drop_last());
        law_bind_touches_parameters_only(env, front, args.drop_last());
        assert(bind(env, params, args) == inner.insert(last, args.last()));
        assert forall|id: DefinitionId| binds(params, id) <==> binds(front, id) || id == last by {
            if binds(front, id) {
                let i = choose|i: int| 0 <= i < front.len() && front[i].definition_id == id;
                assert(params[i].definition_id == id);
            }
            if id == last {
                assert(params[params.len() - 1].definition_id == id);
            }
            if binds(params, id) && id != last {
                let i = choose|i: int| 0 <= i < params.len() && params[i].definition_id == id;
                assert(front[i].definition_id == id);
            }
        }
        assert forall|id: DefinitionId| #[trigger]
            bind(env, params, args).contains_key(id) <==> env.contains_key(id) || binds(
                params,
                id,
            ) by {
            assert(inner.contains_key(id) <==> env.contains_key(id) || binds(front, id));
        }
        assert forall|id: DefinitionId|
            env.contains_key(id) && !binds(params, id) implies #[trigger] bind(
            env,
            params,
            args,
        )[id] == env[id] by {
            assert(inner[id] == env[id]);
        }
    } else {
        assert forall|id: DefinitionId| !binds(params, id) by {}
    }
}

} // verus!
