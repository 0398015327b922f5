//! Evaluation of a sequence, from the evaluation of each of its members.

use crate::error::EvalError;
use crate::model::{AtomModel, ExprModel, TreeModel};
use crate::semantics::{
    atom_results, case_results, Env, eval_atom, eval_atoms, eval_cases, eval_expr, eval_exprs,
    eval_tree, expr_results, lemma_collect_values,
};
use vstd::prelude::*;

verus! {

/// Where each atom of a sequence reduces to the atom at its position in
/// `values`, the sequence reduces to `values`.
pub proof fn lemma_eval_atoms_pointwise(
    atoms: Seq<AtomModel>,
    env: Env,
    depth: nat,
    values: Seq<AtomModel>,
)
    requires
        values.len() == atoms.len(),
        forall|i: int|
            0 <= i < atoms.len() ==> eval_atom(#[trigger] atoms[i], env, depth) == Ok::<
                AtomModel,
                EvalError,
            >(values[i]),
    ensures
        eval_atoms(atoms, env, depth) == Ok::<Seq<AtomModel>, EvalError>(values),
{
    let results = atom_results(atoms, env, depth);
    assert forall|i: int| 0 <= i < results.len() implies (#[trigger] results[i]) is Ok by {
        assert(results[i] == eval_atom(atoms[i], env, depth));
    }
    lemma_collect_values(results);
    assert(Seq::new(results.len(), |i: int| results[i]->Ok_0) =~= values) by {
        assert forall|i: int| 0 <= i < results.len() implies results[i]->Ok_0 == values[i] by {
            assert(results[i] == eval_atom(atoms[i], env, depth));
        }
    }
}

/// Where each expression of a sequence reduces to the expression at its
/// position in `values`, the sequence reduces to `values`.
pub proof fn lemma_eval_exprs_pointwise(
    exprs: Seq<ExprModel>,
    env: Env,
    depth: nat,
    values: Seq<ExprModel>,
)
    requires
        values.len() == exprs.len(),
        forall|i: int|
            0 <= i < exprs.len() ==> eval_expr(#[trigger] exprs[i], env, depth) == Ok::<
                ExprModel,
                EvalError,
            >(values[i]),
    ensures
        eval_exprs(exprs, env, depth) == Ok::<Seq<ExprModel>, EvalError>(values),
{
    let results = expr_results(exprs, env, depth);
    assert forall|i: int| 0 <= i < results.len() implies (#[trigger] results[i]) is Ok by {
        assert(results[i] == eval_expr(exprs[i], env, depth));
    }
    lemma_collect_values(results);
    assert(Seq::new(results.len(), |i: int| results[i]->Ok_0) =~= values) by {
        assert forall|i: int| 0 <= i < results.len() implies results[i]->Ok_0 == values[i] by {
            assert(results[i] == eval_expr(exprs[i], env, depth));
        }
    }
}

/// Where the subtree of each case reduces to the subtree at its position in
/// `values`, and the tags agree, the cases reduce to `values`.
pub proof fn lemma_eval_cases_pointwise(
    cases: Seq<(u32, TreeModel)>,
    env: Env,
    depth: nat,
    values: Seq<(u32, TreeModel)>,
)
    requires
        values.len() == cases.len(),
        forall|i: int|
            0 <= i < cases.len() ==> values[i].0 == (#[trigger] cases[i]).0 && eval_tree(
                cases[i].1,
                env,
                depth,
            ) == Ok::<TreeModel, EvalError>(values[i].1),
    ensures
        eval_cases(cases, env, depth) == Ok::<Seq<(u32, TreeModel)>, EvalError>(values),
{
    let results = case_results(cases, env, depth);
    assert forall|i: int| 0 <= i < results.len() implies (#[trigger] results[i]) is Ok by {
        assert(eval_tree(cases[i].1, env, depth) is Ok);
    }
    lemma_collect_values(results);
    assert(Seq::new(results.len(), |i: int| results[i]->Ok_0) =~= values) by {
        assert forall|i: int| 0 <= i < results.len() implies results[i]->Ok_0 == values[i] by {
            assert(eval_tree(cases[i].1, env, depth) is Ok);
        }
    }
}

} // verus!
