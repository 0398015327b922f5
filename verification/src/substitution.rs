//! Substitution: every free occurrence of a variable that an environment
//! binds is replaced by the bound value, and nothing else changes.

use crate::model::{AtomModel, BuiltinModel, ExprModel, TreeModel};
use crate::semantics::{prune, Env};
use vstd::prelude::*;

verus! {

/// `atom` with the variables that `env` binds replaced. Inside a closure the
/// parameters of the closure are bound, not free, so they stay.
pub open spec fn substitute_atom(atom: AtomModel, env: Env) -> AtomModel
    decreases atom,
{
    match atom {
        AtomModel::Variable(variable) => if env.contains_key(variable.definition_id) {
            env[variable.definition_id]
        } else {
            atom
        },
        AtomModel::Lambda { params, body, compile_time } => AtomModel::Lambda {
            params,
            body: Box::new(substitute_expr(*body, prune(env, params))),
            compile_time,
        },
        _ => atom,
    }
}

/// Each atom of a sequence after substitution.
pub open spec fn substitute_atoms(atoms: Seq<AtomModel>, env: Env) -> Seq<AtomModel>
    decreases atoms,
{
    Seq::new(
        atoms.len(),
        |i: int|
            if 0 <= i < atoms.len() {
                substitute_atom(atoms[i], env)
            } else {
                arbitrary()
            },
    )
}

/// Each expression of a sequence after substitution.
pub open spec fn substitute_exprs(exprs: Seq<ExprModel>, env: Env) -> Seq<ExprModel>
    decreases exprs,
{
    Seq::new(
        exprs.len(),
        |i: int|
            if 0 <= i < exprs.len() {
                substitute_expr(exprs[i], env)
            } else {
                arbitrary()
            },
    )
}

/// Each case of a switch after substitution in its subtree.
pub open spec fn substitute_cases(cases: Seq<(u32, TreeModel)>, env: Env) -> Seq<(u32, TreeModel)>
    decreases cases,
{
    Seq::new(
        cases.len(),
        |i: int|
            if 0 <= i < cases.len() {
                (cases[i].0, substitute_tree(cases[i].1, env))
            } else {
                arbitrary()
            },
    )
}

/// `tree` after substitution. In the subtree of a binding the bound
/// variable is not free, so it stays.
pub open spec fn substitute_tree(tree: TreeModel, env: Env) -> TreeModel
    decreases tree,
{
    match tree {
        TreeModel::Leaf(_) => tree,
        TreeModel::Let { variable, expr, body } => TreeModel::Let {
            variable,
            expr: Box::new(substitute_expr(*expr, env)),
            body: Box::new(substitute_tree(*body, env.remove(variable))),
        },
        TreeModel::Switch { scrutinee, cases, default } => TreeModel::Switch {
            scrutinee: substitute_atom(scrutinee, env),
            cases: substitute_cases(cases, env),
            default: match default {
                Some(tree) => Some(Box::new(substitute_tree(*tree, env))),
                None => None,
            },
        },
    }
}

/// `builtin` after substitution in its operands.
pub open spec fn substitute_builtin(builtin: BuiltinModel, env: Env) -> BuiltinModel
    decreases builtin,
{
    match builtin {
        BuiltinModel::Binary(op, lhs, rhs) => BuiltinModel::Binary(
            op,
            substitute_atom(lhs, env),
            substitute_atom(rhs, env),
        ),
        BuiltinModel::Unary(op, operand) => BuiltinModel::Unary(op, substitute_atom(operand, env)),
        BuiltinModel::Typed(op, operand, typ) => BuiltinModel::Typed(
            op,
            substitute_atom(operand, env),
            typ,
        ),
        BuiltinModel::Offset(base, count, typ) => BuiltinModel::Offset(
            substitute_atom(base, env),
            substitute_atom(count, env),
            typ,
        ),
    }
}

/// `expr` after substitution. A call stays a call; an effect handler stays
/// as it is.
pub open spec fn substitute_expr(expr: ExprModel, env: Env) -> ExprModel
    decreases expr,
{
    match expr {
        ExprModel::Atom(atom) => ExprModel::Atom(substitute_atom(atom, env)),
        ExprModel::Call { function, args, compile_time } => ExprModel::Call {
            function: substitute_atom(function, env),
            args: substitute_atoms(args, env),
            compile_time,
        },
        ExprModel::Let { variable, expr, body } => ExprModel::Let {
            variable,
            expr: Box::new(substitute_expr(*expr, env)),
            body: Box::new(substitute_expr(*body, env)),
        },
        ExprModel::If { condition, then_branch, otherwise } => ExprModel::If {
            condition: substitute_atom(condition, env),
            then_branch: Box::new(substitute_expr(*then_branch, env)),
            otherwise: Box::new(substitute_expr(*otherwise, env)),
        },
        ExprModel::Match { tree, branches } => ExprModel::Match {
            tree: substitute_tree(tree, env),
            branches: substitute_exprs(branches, env),
        },
        ExprModel::Return(atom) => ExprModel::Return(substitute_atom(atom, env)),
        ExprModel::Assignment { lhs, rhs } => ExprModel::Assignment {
            lhs: substitute_atom(lhs, env),
            rhs: substitute_atom(rhs, env),
        },
        ExprModel::MemberAccess { lhs, member_index } => ExprModel::MemberAccess {
            lhs: substitute_atom(lhs, env),
            member_index,
        },
        ExprModel::Tuple(fields) => ExprModel::Tuple(substitute_atoms(fields, env)),
        ExprModel::Builtin(builtin) => ExprModel::Builtin(substitute_builtin(builtin, env)),
        ExprModel::Handle { .. } => expr,
    }
}

} // verus!
