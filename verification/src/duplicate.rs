//! Deep copies of nodes. A copy has the value of the node it was made from.

use crate::ir::{
    Assignment, Ast, Atom, Builtin, DecisionTree, DefinitionId, Extern, FunctionCall, Handle, If,
    Lambda, Let, Match, MemberAccess, Mir, Return, Tuple, Variable,
};
use crate::model::{atoms_model, cases_model, exprs_model};
use vstd::prelude::*;

verus! {

/// Copies a parameter list.
pub fn duplicate_variables(variables: &Vec<Variable>) -> (res: Vec<Variable>)
    ensures
        res@ == variables@,
{
    let mut res: Vec<Variable> = Vec::new();
    let mut i: usize = 0;
    while i < variables.len()
        invariant
            i <= variables.len(),
            res@ == variables@.take(i as int),
        decreases variables.len() - i,
    {
        res.push(variables[i]);
        i += 1;
    }
    res
}

/// Copies each atom of a vector.
pub fn duplicate_atoms(atoms: &Vec<Atom>) -> (res: Vec<Atom>)
    ensures
        atoms_model(&res) == atoms_model(atoms),
    decreases atoms,
{
    let mut res: Vec<Atom> = Vec::new();
    let mut i: usize = 0;
    while i < atoms.len()
        invariant
            i <= atoms.len(),
            res.len() == i,
            forall|j: int| 0 <= j < i ==> res[j].model() == atoms[j].model(),
        decreases atoms.len() - i,
    {
        res.push(atoms[i].duplicate());
        i += 1;
    }
    assert(atoms_model(&res) =~= atoms_model(atoms));
    res
}

/// Copies each expression of a vector.
pub fn duplicate_exprs(exprs: &Vec<Ast>) -> (res: Vec<Ast>)
    ensures
        exprs_model(&res) == exprs_model(exprs),
    decreases exprs,
{
    let mut res: Vec<Ast> = Vec::new();
    let mut i: usize = 0;
    while i < exprs.len()
        invariant
            i <= exprs.len(),
            res.len() == i,
            forall|j: int| 0 <= j < i ==> res[j].model() == exprs[j].model(),
        decreases exprs.len() - i,
    {
        res.push(exprs[i].duplicate());
        i += 1;
    }
    assert(exprs_model(&res) =~= exprs_model(exprs));
    res
}

/// Copies each case of a switch.
pub fn duplicate_cases(cases: &Vec<(u32, DecisionTree)>) -> (res: Vec<(u32, DecisionTree)>)
    ensures
        cases_model(&res) == cases_model(cases),
    decreases cases,
{
    let mut res: Vec<(u32, DecisionTree)> = Vec::new();
    let mut i: usize = 0;
    while i < cases.len()
        invariant
            i <= cases.len(),
            res.len() == i,
            forall|j: int|
                0 <= j < i ==> res[j].0 == cases[j].0 && res[j].1.model() == cases[j].1.model(),
        decreases cases.len() - i,
    {
        res.push((cases[i].0, cases[i].1.duplicate()));
        i += 1;
    }
    assert(cases_model(&res) =~= cases_model(cases));
    res
}

impl Lambda {
    /// A deep copy of this node.
    pub fn duplicate(&self) -> (res: Lambda)
        ensures
            res.model() == self.model(),
        decreases self,
    {
        Lambda {
            args: duplicate_variables(&self.args),
            body: Box::new(self.body.duplicate()),
            compile_time: self.compile_time,
        }
    }
}

impl Extern {
    /// A deep copy of this node.
    pub fn duplicate(&self) -> (res: Extern)
        ensures
            res.model() == self.model(),
    {
        Extern { name: self.name.clone(), typ: self.typ }
    }
}

impl Atom {
    /// A deep copy of this node.
    pub fn duplicate(&self) -> (res: Atom)
        ensures
            res@ == self@,
        decreases self,
    {
        match self {
            Atom::Literal(literal) => Atom::Literal(*literal),
            Atom::Variable(variable) => Atom::Variable(*variable),
            Atom::Lambda(lambda) => Atom::Lambda(lambda.duplicate()),
            Atom::Extern(ext) => Atom::Extern(ext.duplicate()),
            Atom::Effect(effect) => Atom::Effect(*effect),
        }
    }
}

impl FunctionCall {
    /// A deep copy of this node.
    pub fn duplicate(&self) -> (res: FunctionCall)
        ensures
            res.model() == self.model(),
        decreases self,
    {
        FunctionCall {
            function: self.function.duplicate(),
            args: duplicate_atoms(&self.args),
            compile_time: self.compile_time,
        }
    }
}

impl Let {
    /// A deep copy of this node.
    pub fn duplicate(&self) -> (res: Let)
        ensures
            res.model() == self.model(),
        decreases self,
    {
        Let {
            variable: self.variable,
            expr: Box::new(self.expr.duplicate()),
            body: Box::new(self.body.duplicate()),
        }
    }
}

impl If {
    /// A deep copy of this node.
    pub fn duplicate(&self) -> (res: If)
        ensures
            res.model() == self.model(),
        decreases self,
    {
        If {
            condition: self.condition.duplicate(),
            then_branch: Box::new(self.then_branch.duplicate()),
            otherwise: Box::new(self.otherwise.duplicate()),
        }
    }
}

impl DecisionTree {
    /// A deep copy of this node.
    pub fn duplicate(&self) -> (res: DecisionTree)
        ensures
            res@ == self@,
        decreases self,
    {
        match self {
            DecisionTree::Leaf(index) => DecisionTree::Leaf(*index),
            DecisionTree::Let { variable, expr, body } => DecisionTree::Let {
                variable: *variable,
                expr: Box::new(expr.duplicate()),
                body: Box::new(body.duplicate()),
            },
            DecisionTree::Switch { int_to_switch_on, cases, else_case } => DecisionTree::Switch {
                int_to_switch_on: int_to_switch_on.duplicate(),
                cases: duplicate_cases(cases),
                else_case: match else_case {
                    Some(tree) => Some(Box::new(tree.duplicate())),
                    None => None,
                },
            },
        }
    }
}

impl Match {
    /// A deep copy of this node.
    pub fn duplicate(&self) -> (res: Match)
        ensures
            res.model() == self.model(),
        decreases self,
    {
        Match {
            decision_tree: self.decision_tree.duplicate(),
            branches: duplicate_exprs(&self.branches),
        }
    }
}

impl Return {
    /// A deep copy of this node.
    pub fn duplicate(&self) -> (res: Return)
        ensures
            res.model() == self.model(),
        decreases self,
    {
        Return { expression: self.expression.duplicate() }
    }
}

impl Assignment {
    /// A deep copy of this node.
    pub fn duplicate(&self) -> (res: Assignment)
        ensures
            res.model() == self.model(),
        decreases self,
    {
        Assignment { lhs: self.lhs.duplicate(), rhs: self.rhs.duplicate() }
    }
}

impl MemberAccess {
    /// A deep copy of this node.
    pub fn duplicate(&self) -> (res: MemberAccess)
        ensures
            res.model() == self.model(),
        decreases self,
    {
        MemberAccess { lhs: self.lhs.duplicate(), member_index: self.member_index }
    }
}

impl Tuple {
    /// A deep copy of this node.
    pub fn duplicate(&self) -> (res: Tuple)
        ensures
            res.model() == self.model(),
        decreases self,
    {
        Tuple { fields: duplicate_atoms(&self.fields) }
    }
}

impl Builtin {
    /// A deep copy of this node.
    pub fn duplicate(&self) -> (res: Builtin)
        ensures
            res@ == self@,
        decreases self,
    {
        match self {
            Builtin::Binary(op, lhs, rhs) => Builtin::Binary(*op, lhs.duplicate(), rhs.duplicate()),
            Builtin::Unary(op, operand) => Builtin::Unary(*op, operand.duplicate()),
            Builtin::Typed(op, operand, typ) => Builtin::Typed(*op, operand.duplicate(), *typ),
            Builtin::Offset(base, count, typ) => Builtin::Offset(
                base.duplicate(),
                count.duplicate(),
                *typ,
            ),
        }
    }
}

impl Handle {
    /// A deep copy of this node.
    pub fn duplicate(&self) -> (res: Handle)
        ensures
            res.model() == self.model(),
        decreases self,
    {
        Handle {
            expression: Box::new(self.expression.duplicate()),
            effect: self.effect,
            resume: self.resume,
            branch_body: Box::new(self.branch_body.duplicate()),
        }
    }
}

impl Ast {
    /// A deep copy of this node.
    pub fn duplicate(&self) -> (res: Ast)
        ensures
            res@ == self@,
        decreases self,
    {
        match self {
            Ast::Atom(atom) => Ast::Atom(atom.duplicate()),
            Ast::FunctionCall(call) => Ast::FunctionCall(call.duplicate()),
            Ast::Let(binding) => Ast::Let(binding.duplicate()),
            Ast::If(conditional) => Ast::If(conditional.duplicate()),
            Ast::Match(matching) => Ast::Match(matching.duplicate()),
            Ast::Return(ret) => Ast::Return(ret.duplicate()),
            Ast::Assignment(assignment) => Ast::Assignment(assignment.duplicate()),
            Ast::MemberAccess(access) => Ast::MemberAccess(access.duplicate()),
            Ast::Tuple(tuple) => Ast::Tuple(tuple.duplicate()),
            Ast::Builtin(builtin) => Ast::Builtin(builtin.duplicate()),
            Ast::Handle(handle) => Ast::Handle(handle.duplicate()),
        }
    }
}

impl Clone for Atom {
    /// A deep copy of this node.
    fn clone(&self) -> (res: Atom)
        ensures
            res@ == self@,
    {
        self.duplicate()
    }
}

impl Clone for Ast {
    /// A deep copy of this node.
    fn clone(&self) -> (res: Ast)
        ensures
            res@ == self@,
    {
        self.duplicate()
    }
}

impl Clone for Lambda {
    /// A deep copy of this node.
    fn clone(&self) -> (res: Lambda)
        ensures
            res.model() == self.model(),
    {
        self.duplicate()
    }
}

impl Clone for Extern {
    /// A deep copy of this node.
    fn clone(&self) -> (res: Extern)
        ensures
            res.model() == self.model(),
    {
        self.duplicate()
    }
}

impl Clone for FunctionCall {
    /// A deep copy of this node.
    fn clone(&self) -> (res: FunctionCall)
        ensures
            res.model() == self.model(),
    {
        self.duplicate()
    }
}

impl Clone for Let {
    /// A deep copy of this node.
    fn clone(&self) -> (res: Let)
        ensures
            res.model() == self.model(),
    {
        self.duplicate()
    }
}

impl Clone for If {
    /// A deep copy of this node.
    fn clone(&self) -> (res: If)
        ensures
            res.model() == self.model(),
    {
        self.duplicate()
    }
}

impl Clone for Match {
    /// A deep copy of this node.
    fn clone(&self) -> (res: Match)
        ensures
            res.model() == self.model(),
    {
        self.duplicate()
    }
}

impl Clone for Return {
    /// A deep copy of this node.
    fn clone(&self) -> (res: Return)
        ensures
            res.model() == self.model(),
    {
        self.duplicate()
    }
}

impl Clone for Assignment {
    /// A deep copy of this node.
    fn clone(&self) -> (res: Assignment)
        ensures
            res.model() == self.model(),
    {
        self.duplicate()
    }
}

impl Clone for MemberAccess {
    /// A deep copy of this node.
    fn clone(&self) -> (res: MemberAccess)
        ensures
            res.model() == self.model(),
    {
        self.duplicate()
    }
}

impl Clone for Tuple {
    /// A deep copy of this node.
    fn clone(&self) -> (res: Tuple)
        ensures
            res.model() == self.model(),
    {
        self.duplicate()
    }
}

impl Clone for Handle {
    /// A deep copy of this node.
    fn clone(&self) -> (res: Handle)
        ensures
            res.model() == self.model(),
    {
        self.duplicate()
    }
}

impl Clone for DecisionTree {
    /// A deep copy of this node.
    fn clone(&self) -> (res: DecisionTree)
        ensures
            res@ == self@,
    {
        self.duplicate()
    }
}

impl Clone for Builtin {
    /// A deep copy of this node.
    fn clone(&self) -> (res: Builtin)
        ensures
            res@ == self@,
    {
        self.duplicate()
    }
}

impl Mir {
    /// A deep copy of the program.
    pub fn duplicate(&self) -> (res: Mir)
        ensures
            res@ == self@,
    {
        let mut functions: Vec<(DefinitionId, Ast)> = Vec::new();
        let mut i: usize = 0;
        while i < self.functions.len()
            invariant
                i <= self.functions.len(),
                functions.len() == i,
                forall|j: int|
                    0 <= j < i ==> functions[j].0 == self.functions[j].0 && functions[j].1@
                        == self.functions[j].1@,
            decreases self.functions.len() - i,
        {
            functions.push((self.functions[i].0, self.functions[i].1.duplicate()));
            i += 1;
        }
        let res = Mir { functions };
        assert(res@ =~= self@);
        res
    }
}

impl Clone for Mir {
    /// A deep copy of this node.
    fn clone(&self) -> (res: Mir)
        ensures
            res@ == self@,
    {
        self.duplicate()
    }
}

} // verus!
