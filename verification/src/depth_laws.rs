//! The depth is a budget: it decides whether evaluation comes to an end, and
//! never what it gives.

use crate::error::EvalError;
use crate::model::{AtomModel, BuiltinModel, ExprModel, TreeModel};
use crate::semantics::{
    atom_results, bind, case_results, Env, eval_atom, eval_atoms, eval_builtin, eval_cases,
    eval_expr, eval_exprs, eval_tree, expr_results, is_static_call, lemma_collect_agrees, prune,
    resolve_call,
};
use vstd::prelude::*;

verus! {

/// The depth is a budget and nothing else: where an atom evaluates without
/// running out of depth, it evaluates to the same with any greater depth.
pub proof fn law_depth_only_limits_atom(atom: AtomModel, env: Env, depth: nat, deeper: nat)
    requires
        depth <= deeper,
        eval_atom(atom, env, depth) != Err::<AtomModel, EvalError>(EvalError::DepthExceeded),
    ensures
        eval_atom(atom, env, deeper) == eval_atom(atom, env, depth),
    decreases depth, 1nat, atom,
{
    match atom {
        AtomModel::Lambda { params, body, .. } => {
            law_depth_only_limits(*body, prune(env, params), depth, deeper);
        },
        _ => {},
    }
}

/// Where a sequence of atoms evaluates without running out of depth, it
/// evaluates to the same with any greater depth.
pub proof fn law_depth_only_limits_atoms(atoms: Seq<AtomModel>, env: Env, depth: nat, deeper: nat)
    requires
        depth <= deeper,
        eval_atoms(atoms, env, depth) != Err::<Seq<AtomModel>, EvalError>(
            EvalError::DepthExceeded,
        ),
    ensures
        eval_atoms(atoms, env, deeper) == eval_atoms(atoms, env, depth),
    decreases depth, 1nat, atoms,
{
    let results = atom_results(atoms, env, depth);
    let others = atom_results(atoms, env, deeper);
    assert forall|i: int|
        0 <= i < results.len() && (#[trigger] results[i]) != Err::<AtomModel, EvalError>(
            EvalError::DepthExceeded,
        ) implies others[i] == results[i] by {
        law_depth_only_limits_atom(atoms[i], env, depth, deeper);
    }
    lemma_collect_agrees(results, others);
}

/// Where a sequence of expressions evaluates without running out of depth,
/// it evaluates to the same with any greater depth.
pub proof fn law_depth_only_limits_exprs(exprs: Seq<ExprModel>, env: Env, depth: nat, deeper: nat)
    requires
        depth <= deeper,
        eval_exprs(exprs, env, depth) != Err::<Seq<ExprModel>, EvalError>(
            EvalError::DepthExceeded,
        ),
    ensures
        eval_exprs(exprs, env, deeper) == eval_exprs(exprs, env, depth),
    decreases depth, 1nat, exprs,
{
    let results = expr_results(exprs, env, depth);
    let others = expr_results(exprs, env, deeper);
    assert forall|i: int|
        0 <= i < results.len() && (#[trigger] results[i]) != Err::<ExprModel, EvalError>(
            EvalError::DepthExceeded,
        ) implies others[i] == results[i] by {
        law_depth_only_limits(exprs[i], env, depth, deeper);
    }
    lemma_collect_agrees(results, others);
}

/// Where the cases of a switch evaluate without running out of depth, they
/// evaluate to the same with any greater depth.
pub proof fn law_depth_only_limits_cases(
    cases: Seq<(u32, TreeModel)>,
    env: Env,
    depth: nat,
    deeper: nat,
)
    requires
        depth <= deeper,
        eval_cases(cases, env, depth) != Err::<Seq<(u32, TreeModel)>, EvalError>(
            EvalError::DepthExceeded,
        ),
    ensures
        eval_cases(cases, env, deeper) == eval_cases(cases, env, depth),
    decreases depth, 1nat, cases,
{
    let results = case_results(cases, env, depth);
    let others = case_results(cases, env, deeper);
    assert forall|i: int|
        0 <= i < results.len() && (#[trigger] results[i]) != Err::<(u32, TreeModel), EvalError>(
            EvalError::DepthExceeded,
        ) implies others[i] == results[i] by {
        law_depth_only_limits_tree(cases[i].1, env, depth, deeper);
    }
    lemma_collect_agrees(results, others);
}

/// Where a decision tree evaluates without running out of depth, it
/// evaluates to the same with any greater depth.
pub proof fn law_depth_only_limits_tree(tree: TreeModel, env: Env, depth: nat, deeper: nat)
    requires
        depth <= deeper,
        eval_tree(tree, env, depth) != Err::<TreeModel, EvalError>(EvalError::DepthExceeded),
    ensures
        eval_tree(tree, env, deeper) == eval_tree(tree, env, depth),
    decreases depth, 1nat, tree,
{
    match tree {
        TreeModel::Leaf(_) => {},
        TreeModel::Let { variable, expr, body } => {
            law_depth_only_limits(*expr, env, depth, deeper);
            if eval_expr(*expr, env, depth) is Ok {
                law_depth_only_limits_tree(*body, env.remove(variable), depth, deeper);
            }
        },
        TreeModel::Switch { scrutinee, cases, default } => {
            law_depth_only_limits_atom(scrutinee, env, depth, deeper);
            if eval_atom(scrutinee, env, depth) is Ok {
                law_depth_only_limits_cases(cases, env, depth, deeper);
                if eval_cases(cases, env, depth) is Ok {
                    match default {
                        Some(tree) => {
                            law_depth_only_limits_tree(*tree, env, depth, deeper);
                        },
                        None => {},
                    }
                }
            }
        },
    }
}

/// Where a primitive operation evaluates without running out of depth, it
/// evaluates to the same with any greater depth.
pub proof fn law_depth_only_limits_builtin(
    builtin: BuiltinModel,
    env: Env,
    depth: nat,
    deeper: nat,
)
    requires
        depth <= deeper,
        eval_builtin(builtin, env, depth) != Err::<BuiltinModel, EvalError>(
            EvalError::DepthExceeded,
        ),
    ensures
        eval_builtin(builtin, env, deeper) == eval_builtin(builtin, env, depth),
    decreases depth, 1nat, builtin,
{
    match builtin {
        BuiltinModel::Binary(_, lhs, rhs) => {
            law_depth_only_limits_atom(lhs, env, depth, deeper);
            if eval_atom(lhs, env, depth) is Ok {
                law_depth_only_limits_atom(rhs, env, depth, deeper);
            }
        },
        BuiltinModel::Unary(_, operand) => {
            law_depth_only_limits_atom(operand, env, depth, deeper);
        },
        BuiltinModel::Typed(_, operand, _) => {
            law_depth_only_limits_atom(operand, env, depth, deeper);
        },
        BuiltinModel::Offset(base, count, _) => {
            law_depth_only_limits_atom(base, env, depth, deeper);
            if eval_atom(base, env, depth) is Ok {
                law_depth_only_limits_atom(count, env, depth, deeper);
            }
        },
    }
}

/// Where a call with a reduced callee and reduced arguments is resolved
/// without running out of depth, it resolves to the same with any greater
/// depth.
pub proof fn law_depth_only_limits_call(
    function: AtomModel,
    args: Seq<AtomModel>,
    compile_time: bool,
    env: Env,
    depth: nat,
    deeper: nat,
)
    requires
        depth <= deeper,
        resolve_call(function, args, compile_time, env, depth) != Err::<ExprModel, EvalError>(
            EvalError::DepthExceeded,
        ),
    ensures
        resolve_call(function, args, compile_time, env, deeper) == resolve_call(
            function,
            args,
            compile_time,
            env,
            depth,
        ),
    decreases depth, 0nat, function,
{
    if is_static_call(function, compile_time) && function->params.len() == args.len() {
        let body = *function->body;
        let inner = bind(env, function->params, args);
        law_depth_only_limits(body, inner, (depth - 1) as nat, (deeper - 1) as nat);
        if eval_expr(body, inner, (depth - 1) as nat) is Ok {
            law_depth_only_limits(
                eval_expr(body, inner, (depth - 1) as nat)->Ok_0,
                env,
                (depth - 1) as nat,
                (deeper - 1) as nat,
            );
        }
    }
}

/// The depth is a budget and nothing else: where an expression evaluates
/// without running out of depth, to a result or to another error, it
/// evaluates to the same with any greater depth.
pub proof fn law_depth_only_limits(expr: ExprModel, env: Env, depth: nat, deeper: nat)
    requires
        depth <= deeper,
        eval_expr(expr, env, depth) != Err::<ExprModel, EvalError>(EvalError::DepthExceeded),
    ensures
        eval_expr(expr, env, deeper) == eval_expr(expr, env, depth),
    decreases depth, 1nat, expr,
{
    match expr {
        ExprModel::Atom(atom) => {
            law_depth_only_limits_atom(atom, env, depth, deeper);
        },
        ExprModel::Call { function, args, compile_time } => {
            law_depth_only_limits_atom(function, env, depth, deeper);
            if eval_atom(function, env, depth) is Ok {
                law_depth_only_limits_atoms(args, env, depth, deeper);
                if eval_atoms(args, env, depth) is Ok {
                    law_depth_only_limits_call(
                        eval_atom(function, env, depth)->Ok_0,
                        eval_atoms(args, env, depth)->Ok_0,
                        compile_time,
                        env,
                        depth,
                        deeper,
                    );
                }
            }
        },
        ExprModel::Let { expr, body, .. } => {
            law_depth_only_limits(*expr, env, depth, deeper);
            if eval_expr(*expr, env, depth) is Ok {
                law_depth_only_limits(*body, env, depth, deeper);
            }
        },
        ExprModel::If { condition, then_branch, otherwise } => {
            law_depth_only_limits_atom(condition, env, depth, deeper);
            if eval_atom(condition, env, depth) is Ok {
                law_depth_only_limits(*then_branch, env, depth, deeper);
                if eval_expr(*then_branch, env, depth) is Ok {
                    law_depth_only_limits(*otherwise, env, depth, deeper);
                }
            }
        },
        ExprModel::Match { tree, branches } => {
            law_depth_only_limits_tree(tree, env, depth, deeper);
            if eval_tree(tree, env, depth) is Ok {
                law_depth_only_limits_exprs(branches, env, depth, deeper);
            }
        },
        ExprModel::Return(atom) => {
            law_depth_only_limits_atom(atom, env, depth, deeper);
        },
        ExprModel::Assignment { lhs, rhs } => {
            law_depth_only_limits_atom(lhs, env, depth, deeper);
            if eval_atom(lhs, env, depth) is Ok {
                law_depth_only_limits_atom(rhs, env, depth, deeper);
            }
        },
        ExprModel::MemberAccess { lhs, .. } => {
            law_depth_only_limits_atom(lhs, env, depth, deeper);
        },
        ExprModel::Tuple(fields) => {
            law_depth_only_limits_atoms(fields, env, depth, deeper);
        },
        ExprModel::Builtin(builtin) => {
            law_depth_only_limits_builtin(builtin, env, depth, deeper);
        },
        ExprModel::Handle { .. } => {},
    }
}

} // verus!
