//! The evaluator: it walks a program and replaces every application that has
//! to run at compile time by the reduced body of the closure that is applied.

use crate::error::EvalError;
use crate::ir::{
    Assignment, Ast, Atom, Builtin, DecisionTree, DefinitionId, FunctionCall, If, Lambda, Let,
    Match, MemberAccess, Mir, Return, Tuple, Variable,
};
use crate::laws::law_evaluation_keeps_identities;
use crate::model::{
    atoms_model, cases_model, exprs_model, functions_model, AtomModel, ExprModel, TreeModel,
};
use crate::semantics::{
    atom_results, case_results, eval_atom, eval_atoms, eval_builtin, eval_cases, eval_expr,
    eval_exprs, eval_program, eval_tree, expr_results, function_results, lemma_collect_error,
    lemma_collect_values, resolve_call,
};
use crate::subst::Substitutions;
use vstd::prelude::*;

verus! {

/// The value of what an evaluation returned.
pub open spec fn outcome<T: View>(res: Result<T, EvalError>) -> Result<T::V, EvalError> {
    match res {
        Ok(node) => Ok(node@),
        Err(error) => Err(error),
    }
}

/// The values of the atoms that an evaluation returned.
pub open spec fn atoms_outcome(res: Result<Vec<Atom>, EvalError>) -> Result<
    Seq<AtomModel>,
    EvalError,
> {
    match res {
        Ok(atoms) => Ok(atoms_model(&atoms)),
        Err(error) => Err(error),
    }
}

/// The values of the expressions that an evaluation returned.
pub open spec fn exprs_outcome(res: Result<Vec<Ast>, EvalError>) -> Result<
    Seq<ExprModel>,
    EvalError,
> {
    match res {
        Ok(exprs) => Ok(exprs_model(&exprs)),
        Err(error) => Err(error),
    }
}

/// The values of the cases that an evaluation returned.
pub open spec fn cases_outcome(res: Result<Vec<(u32, DecisionTree)>, EvalError>) -> Result<
    Seq<(u32, TreeModel)>,
    EvalError,
> {
    match res {
        Ok(cases) => Ok(cases_model(&cases)),
        Err(error) => Err(error),
    }
}

/// Reduces each atom of a vector, from left to right, and stops at the first
/// error.
pub fn evaluate_atoms(atoms: Vec<Atom>, substitutions: &Substitutions, depth: usize) -> (res:
    Result<Vec<Atom>, EvalError>)
    ensures
        atoms_outcome(res) == eval_atoms(atoms_model(&atoms), substitutions@, depth as nat),
    decreases depth, 1nat, atoms,
{
    let ghost results = atom_results(atoms_model(&atoms), substitutions@, depth as nat);
    let mut out: Vec<Atom> = Vec::new();
    for atom in it: atoms.into_iter()
        invariant
            it.seq() == atoms@,
            out.len() == it.index(),
            results == atom_results(atoms_model(&atoms), substitutions@, depth as nat),
            forall|j: int| 0 <= j < out.len() ==> results[j] == Ok::<AtomModel, EvalError>(out[j]@),
    {
        match atom.evaluate(substitutions, depth) {
            Ok(atom) => {
                out.push(atom);
            },
            Err(error) => {
                proof {
                    lemma_collect_error(results, out.len() as int);
                }
                return Err(error);
            },
        }
    }
    proof {
        lemma_collect_values(results);
        assert(Seq::new(results.len(), |i: int| results[i]->Ok_0) =~= atoms_model(&out));
    }
    Ok(out)
}

/// Reduces each expression of a vector, from left to right, and stops at the
/// first error.
pub fn evaluate_exprs(exprs: Vec<Ast>, substitutions: &Substitutions, depth: usize) -> (res:
    Result<Vec<Ast>, EvalError>)
    ensures
        exprs_outcome(res) == eval_exprs(exprs_model(&exprs), substitutions@, depth as nat),
    decreases depth, 1nat, exprs,
{
    let ghost results = expr_results(exprs_model(&exprs), substitutions@, depth as nat);
    let mut out: Vec<Ast> = Vec::new();
    for expr in it: exprs.into_iter()
        invariant
            it.seq() == exprs@,
            out.len() == it.index(),
            results == expr_results(exprs_model(&exprs), substitutions@, depth as nat),
            forall|j: int| 0 <= j < out.len() ==> results[j] == Ok::<ExprModel, EvalError>(out[j]@),
    {
        match expr.evaluate(substitutions, depth) {
            Ok(expr) => {
                out.push(expr);
            },
            Err(error) => {
                proof {
                    lemma_collect_error(results, out.len() as int);
                }
                return Err(error);
            },
        }
    }
    proof {
        lemma_collect_values(results);
        assert(Seq::new(results.len(), |i: int| results[i]->Ok_0) =~= exprs_model(&out));
    }
    Ok(out)
}

/// Reduces the subtree of each case of a switch, from left to right, and
/// stops at the first error.
pub fn evaluate_cases(
    cases: Vec<(u32, DecisionTree)>,
    substitutions: &Substitutions,
    depth: usize,
) -> (res: Result<Vec<(u32, DecisionTree)>, EvalError>)
    ensures
        cases_outcome(res) == eval_cases(cases_model(&cases), substitutions@, depth as nat),
    decreases depth, 1nat, cases,
{
    let ghost results = case_results(cases_model(&cases), substitutions@, depth as nat);
    let mut out: Vec<(u32, DecisionTree)> = Vec::new();
    for case in it: cases.into_iter()
        invariant
            it.seq() == cases@,
            out.len() == it.index(),
            results == case_results(cases_model(&cases), substitutions@, depth as nat),
            forall|j: int|
                0 <= j < out.len() ==> results[j] == Ok::<(u32, TreeModel), EvalError>(
                    (out[j].0, out[j].1@),
                ),
    {
        let (value, tree) = case;
        match evaluate_decision_tree(tree, substitutions, depth) {
            Ok(tree) => {
                out.push((value, tree));
            },
            Err(error) => {
                proof {
                    lemma_collect_error(results, out.len() as int);
                }
                return Err(error);
            },
        }
    }
    proof {
        lemma_collect_values(results);
        assert(Seq::new(results.len(), |i: int| results[i]->Ok_0) =~= cases_model(&out));
    }
    Ok(out)
}

/// Reduces a decision tree: the atoms and expressions in it, under the
/// bindings that are in scope where they stand.
pub fn evaluate_decision_tree(
    tree: DecisionTree,
    substitutions: &Substitutions,
    depth: usize,
) -> (res: Result<DecisionTree, EvalError>)
    ensures
        outcome(res) == eval_tree(tree@, substitutions@, depth as nat),
    decreases depth, 1nat, tree,
{
    match tree {
        DecisionTree::Leaf(index) => Ok(DecisionTree::Leaf(index)),
        DecisionTree::Let { variable, expr, body } => {
            let expr = (*expr).evaluate(substitutions, depth)?;
            let inner = substitutions.remove(variable);
            let body = evaluate_decision_tree(*body, &inner, depth)?;
            Ok(DecisionTree::Let { variable, expr: Box::new(expr), body: Box::new(body) })
        },
        DecisionTree::Switch { int_to_switch_on, cases, else_case } => {
            let int_to_switch_on = int_to_switch_on.evaluate(substitutions, depth)?;
            let cases = evaluate_cases(cases, substitutions, depth)?;
            let else_case = match else_case {
                Some(tree) => Some(Box::new(evaluate_decision_tree(*tree, substitutions, depth)?)),
                None => None,
            };
            Ok(DecisionTree::Switch { int_to_switch_on, cases, else_case })
        },
    }
}

impl Variable {
    /// The value that `substitutions` binds to this variable; the variable
    /// itself where they bind none. The value is taken as it is.
    pub fn evaluate(self, substitutions: &Substitutions) -> (res: Atom)
        ensures
            res@ == if substitutions@.contains_key(self.definition_id) {
                substitutions@[self.definition_id]
            } else {
                AtomModel::Variable(self)
            },
    {
        match substitutions.lookup(self.definition_id) {
            Some(atom) => atom.duplicate(),
            None => Atom::Variable(self),
        }
    }
}

impl Lambda {
    /// Reduces the body of a closure. The parameters of the closure hide any
    /// binding of the same identity, so the body is reduced without those.
    pub fn evaluate(self, substitutions: &Substitutions, depth: usize) -> (res: Result<
        Atom,
        EvalError,
    >)
        ensures
            outcome(res) == eval_atom(self.model(), substitutions@, depth as nat),
        decreases depth, 1nat, self,
    {
        let Lambda { args, body, compile_time } = self;
        let inner = substitutions.without_params(&args);
        let body = (*body).evaluate(&inner, depth)?;
        Ok(Atom::Lambda(Lambda { args, body: Box::new(body), compile_time }))
    }
}

impl Atom {
    /// Reduces an atom under `substitutions`.
    pub fn evaluate(self, substitutions: &Substitutions, depth: usize) -> (res: Result<
        Atom,
        EvalError,
    >)
        ensures
            outcome(res) == eval_atom(self@, substitutions@, depth as nat),
        decreases depth, 1nat, self,
    {
        match self {
            Atom::Literal(literal) => Ok(Atom::Literal(literal)),
            Atom::Variable(variable) => Ok(variable.evaluate(substitutions)),
            Atom::Lambda(lambda) => lambda.evaluate(substitutions, depth),
            Atom::Extern(ext) => Ok(Atom::Extern(ext)),
            Atom::Effect(effect) => Err(EvalError::EffectNotRemoved(effect)),
        }
    }
}

impl FunctionCall {
    /// Decides what becomes of a call whose callee and arguments are reduced
    /// already: the reduced body of the callee, where the call is applied at
    /// compile time, and the same call otherwise.
    pub fn resolve(
        function: Atom,
        args: Vec<Atom>,
        compile_time: bool,
        substitutions: &Substitutions,
        depth: usize,
    ) -> (res: Result<Ast, EvalError>)
        ensures
            outcome(res) == resolve_call(
                function@,
                atoms_model(&args),
                compile_time,
                substitutions@,
                depth as nat,
            ),
        decreases depth, 0nat, function,
    {
        match function {
            Atom::Lambda(lambda) => {
                if lambda.compile_time || compile_time {
                    if lambda.args.len() != args.len() {
                        Err(
                            EvalError::ArityMismatch {
                                expected: lambda.args.len(),
                                found: args.len(),
                            },
                        )
                    } else if depth == 0 {
                        Err(EvalError::DepthExceeded)
                    } else {
                        let extended = substitutions.with_arguments(&lambda.args, args);
                        let inlined = (*lambda.body).evaluate(&extended, depth - 1)?;
                        inlined.evaluate(substitutions, depth - 1)
                    }
                } else {
                    Ok(
                        Ast::FunctionCall(
                            FunctionCall { function: Atom::Lambda(lambda), args, compile_time },
                        ),
                    )
                }
            },
            function => Ok(Ast::FunctionCall(FunctionCall { function, args, compile_time })),
        }
    }

    /// Reduces the callee and the arguments of a call, and then the call.
    pub fn evaluate(self, substitutions: &Substitutions, depth: usize) -> (res: Result<
        Ast,
        EvalError,
    >)
        ensures
            outcome(res) == eval_expr(self.model(), substitutions@, depth as nat),
        decreases depth, 1nat, self,
    {
        let FunctionCall { function, args, compile_time } = self;
        let function = function.evaluate(substitutions, depth)?;
        let args = evaluate_atoms(args, substitutions, depth)?;
        FunctionCall::resolve(function, args, compile_time, substitutions, depth)
    }
}

impl Let {
    /// Reduces the bound expression and the body, both under `substitutions`.
    pub fn evaluate(self, substitutions: &Substitutions, depth: usize) -> (res: Result<
        Ast,
        EvalError,
    >)
        ensures
            outcome(res) == eval_expr(self.model(), substitutions@, depth as nat),
        decreases depth, 1nat, self,
    {
        let Let { variable, expr, body } = self;
        let expr = (*expr).evaluate(substitutions, depth)?;
        let body = (*body).evaluate(substitutions, depth)?;
        Ok(Ast::Let(Let { variable, expr: Box::new(expr), body: Box::new(body) }))
    }
}

impl If {
    /// Reduces the condition and both branches.
    pub fn evaluate(self, substitutions: &Substitutions, depth: usize) -> (res: Result<
        Ast,
        EvalError,
    >)
        ensures
            outcome(res) == eval_expr(self.model(), substitutions@, depth as nat),
        decreases depth, 1nat, self,
    {
        let If { condition, then_branch, otherwise } = self;
        let condition = condition.evaluate(substitutions, depth)?;
        let then_branch = (*then_branch).evaluate(substitutions, depth)?;
        let otherwise = (*otherwise).evaluate(substitutions, depth)?;
        Ok(
            Ast::If(
                If {
                    condition,
                    then_branch: Box::new(then_branch),
                    otherwise: Box::new(otherwise),
                },
            ),
        )
    }
}

impl Match {
    /// Reduces the decision tree and every branch.
    pub fn evaluate(self, substitutions: &Substitutions, depth: usize) -> (res: Result<
        Ast,
        EvalError,
    >)
        ensures
            outcome(res) == eval_expr(self.model(), substitutions@, depth as nat),
        decreases depth, 1nat, self,
    {
        let Match { decision_tree, branches } = self;
        let decision_tree = evaluate_decision_tree(decision_tree, substitutions, depth)?;
        let branches = evaluate_exprs(branches, substitutions, depth)?;
        Ok(Ast::Match(Match { decision_tree, branches }))
    }
}

impl Return {
    /// Reduces the returned value.
    pub fn evaluate(self, substitutions: &Substitutions, depth: usize) -> (res: Result<
        Ast,
        EvalError,
    >)
        ensures
            outcome(res) == eval_expr(self.model(), substitutions@, depth as nat),
        decreases depth, 1nat, self,
    {
        let expression = self.expression.evaluate(substitutions, depth)?;
        Ok(Ast::Return(Return { expression }))
    }
}

impl Assignment {
    /// Reduces the target and the stored value.
    pub fn evaluate(self, substitutions: &Substitutions, depth: usize) -> (res: Result<
        Ast,
        EvalError,
    >)
        ensures
            outcome(res) == eval_expr(self.model(), substitutions@, depth as nat),
        decreases depth, 1nat, self,
    {
        let Assignment { lhs, rhs } = self;
        let lhs = lhs.evaluate(substitutions, depth)?;
        let rhs = rhs.evaluate(substitutions, depth)?;
        Ok(Ast::Assignment(Assignment { lhs, rhs }))
    }
}

impl MemberAccess {
    /// Reduces the value that a field is taken from.
    pub fn evaluate(self, substitutions: &Substitutions, depth: usize) -> (res: Result<
        Ast,
        EvalError,
    >)
        ensures
            outcome(res) == eval_expr(self.model(), substitutions@, depth as nat),
        decreases depth, 1nat, self,
    {
        let MemberAccess { lhs, member_index } = self;
        let lhs = lhs.evaluate(substitutions, depth)?;
        Ok(Ast::MemberAccess(MemberAccess { lhs, member_index }))
    }
}

impl Tuple {
    /// Reduces every field.
    pub fn evaluate(self, substitutions: &Substitutions, depth: usize) -> (res: Result<
        Ast,
        EvalError,
    >)
        ensures
            outcome(res) == eval_expr(self.model(), substitutions@, depth as nat),
        decreases depth, 1nat, self,
    {
        let fields = evaluate_atoms(self.fields, substitutions, depth)?;
        Ok(Ast::Tuple(Tuple { fields }))
    }
}

impl Builtin {
    /// Reduces the operands of a primitive operation. The operation is not
    /// run, and it keeps its type descriptor.
    pub fn evaluate(self, substitutions: &Substitutions, depth: usize) -> (res: Result<
        Builtin,
        EvalError,
    >)
        ensures
            outcome(res) == eval_builtin(self@, substitutions@, depth as nat),
        decreases depth, 1nat, self,
    {
        match self {
            Builtin::Binary(op, lhs, rhs) => {
                let lhs = lhs.evaluate(substitutions, depth)?;
                let rhs = rhs.evaluate(substitutions, depth)?;
                Ok(Builtin::Binary(op, lhs, rhs))
            },
            Builtin::Unary(op, operand) => {
                let operand = operand.evaluate(substitutions, depth)?;
                Ok(Builtin::Unary(op, operand))
            },
            Builtin::Typed(op, operand, typ) => {
                let operand = operand.evaluate(substitutions, depth)?;
                Ok(Builtin::Typed(op, operand, typ))
            },
            Builtin::Offset(base, count, typ) => {
                let base = base.evaluate(substitutions, depth)?;
                let count = count.evaluate(substitutions, depth)?;
                Ok(Builtin::Offset(base, count, typ))
            },
        }
    }
}

impl Ast {
    /// Reduces an expression under `substitutions`, with at most `depth`
    /// applications at compile time nested in one another.
    pub fn evaluate(self, substitutions: &Substitutions, depth: usize) -> (res: Result<
        Ast,
        EvalError,
    >)
        ensures
            outcome(res) == eval_expr(self@, substitutions@, depth as nat),
        decreases depth, 1nat, self,
    {
        match self {
            Ast::Atom(atom) => Ok(Ast::Atom(atom.evaluate(substitutions, depth)?)),
            Ast::FunctionCall(call) => call.evaluate(substitutions, depth),
            Ast::Let(binding) => binding.evaluate(substitutions, depth),
            Ast::If(conditional) => conditional.evaluate(substitutions, depth),
            Ast::Match(matching) => matching.evaluate(substitutions, depth),
            Ast::Return(ret) => ret.evaluate(substitutions, depth),
            Ast::Assignment(assignment) => assignment.evaluate(substitutions, depth),
            Ast::MemberAccess(access) => access.evaluate(substitutions, depth),
            Ast::Tuple(tuple) => tuple.evaluate(substitutions, depth),
            Ast::Builtin(builtin) => Ok(Ast::Builtin(builtin.evaluate(substitutions, depth)?)),
            Ast::Handle(handle) => Err(EvalError::HandleNotRemoved(handle.effect)),
        }
    }
}

impl Mir {
    /// Reduces every function of the program, each on its own and under the
    /// empty environment, from the first to the last, and stops at the first
    /// error. `depth` is the number of applications at compile time that may
    /// be nested in one another.
    pub fn evaluate_static_calls(self, depth: usize) -> (res: Result<Mir, EvalError>)
        ensures
            outcome(res) == eval_program(self@, depth as nat),
            res matches Ok(program) ==> program.well_formed() == self.well_formed(),
    {
        let ghost results = function_results(self@, depth as nat);
        let empty = Substitutions::new();
        let mut out: Vec<(DefinitionId, Ast)> = Vec::new();
        for function in it: self.functions.into_iter()
            invariant
                it.seq() == self.functions@,
                out.len() == it.index(),
                empty@ == Map::<DefinitionId, AtomModel>::empty(),
                results == function_results(self@, depth as nat),
                forall|j: int|
                    0 <= j < out.len() ==> results[j] == Ok::<
                        (DefinitionId, ExprModel),
                        EvalError,
                    >((out[j].0, out[j].1@)),
        {
            let (id, body) = function;
            match body.evaluate(&empty, depth) {
                Ok(body) => {
                    out.push((id, body));
                },
                Err(error) => {
                    proof {
                        lemma_collect_error(results, out.len() as int);
                    }
                    return Err(error);
                },
            }
        }
        proof {
            lemma_collect_values(results);
            assert(Seq::new(results.len(), |i: int| results[i]->Ok_0) =~= functions_model(&out));
            law_evaluation_keeps_identities(self@, depth as nat);
        }
        Ok(Mir { functions: out })
    }
}

} // verus!
