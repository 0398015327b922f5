//! Programs that evaluation has nothing left to do on: they hold no effect
//! operation, no effect handler and no call that is applied at compile time.

use crate::model::{AtomModel, BuiltinModel, ExprModel, TreeModel};
use crate::semantics::{is_static_call, Env};
use vstd::prelude::*;

verus! {

/// Whether an atom is reduced: it is no effect operation and, where it is a
/// closure, the body is reduced.
pub open spec fn atom_reduced(atom: AtomModel) -> bool
    decreases atom,
{
    match atom {
        AtomModel::Literal(_) => true,
        AtomModel::Variable(_) => true,
        AtomModel::Lambda { body, .. } => expr_reduced(*body),
        AtomModel::Extern { .. } => true,
        AtomModel::Effect(_) => false,
    }
}

/// Whether every atom of a sequence is reduced.
pub open spec fn atoms_reduced(atoms: Seq<AtomModel>) -> bool
    decreases atoms,
{
    forall|i: int| 0 <= i < atoms.len() ==> atom_reduced(#[trigger] atoms[i])
}

/// Whether every expression of a sequence is reduced.
pub open spec fn exprs_reduced(exprs: Seq<ExprModel>) -> bool
    decreases exprs,
{
    forall|i: int| 0 <= i < exprs.len() ==> expr_reduced(#[trigger] exprs[i])
}

/// Whether the subtree of every case is reduced.
pub open spec fn cases_reduced(cases: Seq<(u32, TreeModel)>) -> bool
    decreases cases,
{
    forall|i: int| 0 <= i < cases.len() ==> tree_reduced((#[trigger] cases[i]).1)
}

/// Whether every atom and expression in a decision tree is reduced.
pub open spec fn tree_reduced(tree: TreeModel) -> bool
    decreases tree,
{
    match tree {
        TreeModel::Leaf(_) => true,
        TreeModel::Let { expr, body, .. } => expr_reduced(*expr) && tree_reduced(*body),
        TreeModel::Switch { scrutinee, cases, default } => {
            &&& atom_reduced(scrutinee)
            &&& cases_reduced(cases)
            &&& match default {
                Some(tree) => tree_reduced(*tree),
                None => true,
            }
        },
    }
}

/// Whether every operand of a primitive operation is reduced.
pub open spec fn builtin_reduced(builtin: BuiltinModel) -> bool
    decreases builtin,
{
    match builtin {
        BuiltinModel::Binary(_, lhs, rhs) => atom_reduced(lhs) && atom_reduced(rhs),
        BuiltinModel::Unary(_, operand) => atom_reduced(operand),
        BuiltinModel::Typed(_, operand, _) => atom_reduced(operand),
        BuiltinModel::Offset(base, count, _) => atom_reduced(base) && atom_reduced(count),
    }
}

/// Whether an expression is reduced: every child is reduced, it is no effect
/// handler, and where it is a call, the call is not applied at compile time.
pub open spec fn expr_reduced(expr: ExprModel) -> bool
    decreases expr,
{
    match expr {
        ExprModel::Atom(atom) => atom_reduced(atom),
        ExprModel::Call { function, args, compile_time } => {
            &&& atom_reduced(function)
            &&& atoms_reduced(args)
            &&& !is_static_call(function, compile_time)
        },
        ExprModel::Let { expr, body, .. } => expr_reduced(*expr) && expr_reduced(*body),
        ExprModel::If { condition, then_branch, otherwise } => {
            &&& atom_reduced(condition)
            &&& expr_reduced(*then_branch)
            &&& expr_reduced(*otherwise)
        },
        ExprModel::Match { tree, branches } => tree_reduced(tree) && exprs_reduced(branches),
        ExprModel::Return(atom) => atom_reduced(atom),
        ExprModel::Assignment { lhs, rhs } => atom_reduced(lhs) && atom_reduced(rhs),
        ExprModel::MemberAccess { lhs, .. } => atom_reduced(lhs),
        ExprModel::Tuple(fields) => atoms_reduced(fields),
        ExprModel::Builtin(builtin) => builtin_reduced(builtin),
        ExprModel::Handle { .. } => false,
    }
}

/// Whether every value that an environment binds is reduced.
pub open spec fn env_reduced(env: Env) -> bool {
    forall|id| env.contains_key(id) ==> atom_reduced(#[trigger] env[id])
}

/// Whether an atom holds no effect operation and no effect handler.
pub open spec fn atom_effect_free(atom: AtomModel) -> bool
    decreases atom,
{
    match atom {
        AtomModel::Lambda { body, .. } => expr_effect_free(*body),
        AtomModel::Effect(_) => false,
        _ => true,
    }
}

/// Whether no atom of a sequence holds an effect operation or an effect
/// handler.
pub open spec fn atoms_effect_free(atoms: Seq<AtomModel>) -> bool
    decreases atoms,
{
    forall|i: int| 0 <= i < atoms.len() ==> atom_effect_free(#[trigger] atoms[i])
}

/// Whether no expression of a sequence holds an effect operation or an
/// effect handler.
pub open spec fn exprs_effect_free(exprs: Seq<ExprModel>) -> bool
    decreases exprs,
{
    forall|i: int| 0 <= i < exprs.len() ==> expr_effect_free(#[trigger] exprs[i])
}

/// Whether no case of a switch holds an effect operation or an effect
/// handler.
pub open spec fn cases_effect_free(cases: Seq<(u32, TreeModel)>) -> bool
    decreases cases,
{
    forall|i: int| 0 <= i < cases.len() ==> tree_effect_free((#[trigger] cases[i]).1)
}

/// Whether a decision tree holds no effect operation and no effect handler.
pub open spec fn tree_effect_free(tree: TreeModel) -> bool
    decreases tree,
{
    match tree {
        TreeModel::Leaf(_) => true,
        TreeModel::Let { expr, body, .. } => expr_effect_free(*expr) && tree_effect_free(*body),
        TreeModel::Switch { scrutinee, cases, default } => {
            &&& atom_effect_free(scrutinee)
            &&& cases_effect_free(cases)
            &&& match default {
                Some(tree) => tree_effect_free(*tree),
                None => true,
            }
        },
    }
}

/// Whether no operand of a primitive operation holds an effect operation or
/// an effect handler.
pub open spec fn builtin_effect_free(builtin: BuiltinModel) -> bool
    decreases builtin,
{
    match builtin {
        BuiltinModel::Binary(_, lhs, rhs) => atom_effect_free(lhs) && atom_effect_free(rhs),
        BuiltinModel::Unary(_, operand) => atom_effect_free(operand),
        BuiltinModel::Typed(_, operand, _) => atom_effect_free(operand),
        BuiltinModel::Offset(base, count, _) => atom_effect_free(base) && atom_effect_free(count),
    }
}

/// Whether an expression holds no effect operation and no effect handler,
/// at any depth.
pub open spec fn expr_effect_free(expr: ExprModel) -> bool
    decreases expr,
{
    match expr {
        ExprModel::Atom(atom) => atom_effect_free(atom),
        ExprModel::Call { function, args, .. } => atom_effect_free(function) && atoms_effect_free(
            args,
        ),
        ExprModel::Let { expr, body, .. } => expr_effect_free(*expr) && expr_effect_free(*body),
        ExprModel::If { condition, then_branch, otherwise } => {
            &&& atom_effect_free(condition)
            &&& expr_effect_free(*then_branch)
            &&& expr_effect_free(*otherwise)
        },
        ExprModel::Match { tree, branches } => tree_effect_free(tree) && exprs_effect_free(
            branches,
        ),
        ExprModel::Return(atom) => atom_effect_free(atom),
        ExprModel::Assignment { lhs, rhs } => atom_effect_free(lhs) && atom_effect_free(rhs),
        ExprModel::MemberAccess { lhs, .. } => atom_effect_free(lhs),
        ExprModel::Tuple(fields) => atoms_effect_free(fields),
        ExprModel::Builtin(builtin) => builtin_effect_free(builtin),
        ExprModel::Handle { .. } => false,
    }
}

} // verus!
