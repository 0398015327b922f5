//! The mathematical values of the nodes: the same trees, with sequences in
//! place of vectors. Contracts speak of these.

use crate::ir::{
    Assignment, Ast, Atom, BinaryOp, Builtin, DecisionTree, DefinitionId, Effect, Extern,
    FunctionCall, Handle, If, Lambda, Let, Literal, Match, MemberAccess, Mir, Return, Tuple, Type,
    TypedOp, UnaryOp, Variable,
};
use vstd::prelude::*;

verus! {

/// The value of an [`Atom`].
pub enum AtomModel {
    Literal(Literal),
    Variable(Variable),
    Lambda { params: Seq<Variable>, body: Box<ExprModel>, compile_time: bool },
    Extern { name: Seq<char>, typ: Type },
    Effect(Effect),
}

/// The value of a [`Builtin`].
pub enum BuiltinModel {
    Binary(BinaryOp, AtomModel, AtomModel),
    Unary(UnaryOp, AtomModel),
    Typed(TypedOp, AtomModel, Type),
    Offset(AtomModel, AtomModel, Type),
}

/// What a primitive operation is, apart from its operands and its type
/// descriptor.
pub enum Operation {
    Binary(BinaryOp),
    Unary(UnaryOp),
    Typed(TypedOp),
    Offset,
}

impl BuiltinModel {
    /// The operation that is applied.
    pub open spec fn operation(self) -> Operation {
        match self {
            BuiltinModel::Binary(op, _, _) => Operation::Binary(op),
            BuiltinModel::Unary(op, _) => Operation::Unary(op),
            BuiltinModel::Typed(op, _, _) => Operation::Typed(op),
            BuiltinModel::Offset(_, _, _) => Operation::Offset,
        }
    }

    /// The operands, from left to right.
    pub open spec fn operands(self) -> Seq<AtomModel> {
        match self {
            BuiltinModel::Binary(_, lhs, rhs) => seq![lhs, rhs],
            BuiltinModel::Unary(_, operand) => seq![operand],
            BuiltinModel::Typed(_, operand, _) => seq![operand],
            BuiltinModel::Offset(base, count, _) => seq![base, count],
        }
    }

    /// The type descriptor, where the operation has one.
    pub open spec fn type_descriptor(self) -> Option<Type> {
        match self {
            BuiltinModel::Binary(_, _, _) => None,
            BuiltinModel::Unary(_, _) => None,
            BuiltinModel::Typed(_, _, typ) => Some(typ),
            BuiltinModel::Offset(_, _, typ) => Some(typ),
        }
    }
}

/// The value of a [`DecisionTree`].
pub enum TreeModel {
    Leaf(usize),
    Let { variable: DefinitionId, expr: Box<ExprModel>, body: Box<TreeModel> },
    Switch { scrutinee: AtomModel, cases: Seq<(u32, TreeModel)>, default: Option<Box<TreeModel>> },
}

/// The value of an [`Ast`].
pub enum ExprModel {
    Atom(AtomModel),
    Call { function: AtomModel, args: Seq<AtomModel>, compile_time: bool },
    Let { variable: DefinitionId, expr: Box<ExprModel>, body: Box<ExprModel> },
    If { condition: AtomModel, then_branch: Box<ExprModel>, otherwise: Box<ExprModel> },
    Match { tree: TreeModel, branches: Seq<ExprModel> },
    Return(AtomModel),
    Assignment { lhs: AtomModel, rhs: AtomModel },
    MemberAccess { lhs: AtomModel, member_index: u32 },
    Tuple(Seq<AtomModel>),
    Builtin(BuiltinModel),
    Handle {
        expression: Box<ExprModel>,
        effect: Effect,
        resume: Variable,
        branch_body: Box<ExprModel>,
    },
}

/// The values of a vector of atoms, in order.
pub open spec fn atoms_model(atoms: &Vec<Atom>) -> Seq<AtomModel>
    decreases atoms,
{
    Seq::new(
        atoms.len() as nat,
        |i: int|
            if 0 <= i < atoms.len() {
                atoms[i].model()
            } else {
                arbitrary()
            },
    )
}

/// The values of a vector of expressions, in order.
pub open spec fn exprs_model(exprs: &Vec<Ast>) -> Seq<ExprModel>
    decreases exprs,
{
    Seq::new(
        exprs.len() as nat,
        |i: int|
            if 0 <= i < exprs.len() {
                exprs[i].model()
            } else {
                arbitrary()
            },
    )
}

/// The values of the cases of a switch, in order.
pub open spec fn cases_model(cases: &Vec<(u32, DecisionTree)>) -> Seq<(u32, TreeModel)>
    decreases cases,
{
    Seq::new(
        cases.len() as nat,
        |i: int|
            if 0 <= i < cases.len() {
                (cases[i].0, cases[i].1.model())
            } else {
                arbitrary()
            },
    )
}

/// The values of the functions of a program, in order.
pub open spec fn functions_model(functions: &Vec<(DefinitionId, Ast)>) -> Seq<
    (DefinitionId, ExprModel),
> {
    Seq::new(functions.len() as nat, |i: int| (functions[i].0, functions[i].1.model()))
}

impl Lambda {
    /// The value of this node.
    pub open spec fn model(&self) -> AtomModel
        decreases self,
    {
        AtomModel::Lambda {
            params: self.args@,
            body: Box::new(self.body.model()),
            compile_time: self.compile_time,
        }
    }
}

impl Extern {
    /// The value of this node.
    pub open spec fn model(&self) -> AtomModel {
        AtomModel::Extern { name: self.name@, typ: self.typ }
    }
}

impl Atom {
    /// The value of this node.
    pub open spec fn model(&self) -> AtomModel
        decreases self,
    {
        match self {
            Atom::Literal(literal) => AtomModel::Literal(*literal),
            Atom::Variable(variable) => AtomModel::Variable(*variable),
            Atom::Lambda(lambda) => lambda.model(),
            Atom::Extern(ext) => ext.model(),
            Atom::Effect(effect) => AtomModel::Effect(*effect),
        }
    }
}

impl FunctionCall {
    /// The value of this node.
    pub open spec fn model(&self) -> ExprModel
        decreases self,
    {
        ExprModel::Call {
            function: self.function.model(),
            args: atoms_model(&self.args),
            compile_time: self.compile_time,
        }
    }
}

impl Let {
    /// The value of this node.
    pub open spec fn model(&self) -> ExprModel
        decreases self,
    {
        ExprModel::Let {
            variable: self.variable,
            expr: Box::new(self.expr.model()),
            body: Box::new(self.body.model()),
        }
    }
}

impl If {
    /// The value of this node.
    pub open spec fn model(&self) -> ExprModel
        decreases self,
    {
        ExprModel::If {
            condition: self.condition.model(),
            then_branch: Box::new(self.then_branch.model()),
            otherwise: Box::new(self.otherwise.model()),
        }
    }
}

impl DecisionTree {
    /// The value of this node.
    pub open spec fn model(&self) -> TreeModel
        decreases self,
    {
        match self {
            DecisionTree::Leaf(index) => TreeModel::Leaf(*index),
            DecisionTree::Let { variable, expr, body } => TreeModel::Let {
                variable: *variable,
                expr: Box::new(expr.model()),
                body: Box::new(body.model()),
            },
            DecisionTree::Switch { int_to_switch_on, cases, else_case } => TreeModel::Switch {
                scrutinee: int_to_switch_on.model(),
                cases: cases_model(cases),
                default: match else_case {
                    Some(tree) => Some(Box::new(tree.model())),
                    None => None,
                },
            },
        }
    }
}

impl Match {
    /// The value of this node.
    pub open spec fn model(&self) -> ExprModel
        decreases self,
    {
        ExprModel::Match {
            tree: self.decision_tree.model(),
            branches: exprs_model(&self.branches),
        }
    }
}

impl Return {
    /// The value of this node.
    pub open spec fn model(&self) -> ExprModel
        decreases self,
    {
        ExprModel::Return(self.expression.model())
    }
}

impl Assignment {
    /// The value of this node.
    pub open spec fn model(&self) -> ExprModel
        decreases self,
    {
        ExprModel::Assignment { lhs: self.lhs.model(), rhs: self.rhs.model() }
    }
}

impl MemberAccess {
    /// The value of this node.
    pub open spec fn model(&self) -> ExprModel
        decreases self,
    {
        ExprModel::MemberAccess { lhs: self.lhs.model(), member_index: self.member_index }
    }
}

impl Tuple {
    /// The value of this node.
    pub open spec fn model(&self) -> ExprModel
        decreases self,
    {
        ExprModel::Tuple(atoms_model(&self.fields))
    }
}

impl Builtin {
    /// The value of this node.
    pub open spec fn model(&self) -> BuiltinModel
        decreases self,
    {
        match self {
            Builtin::Binary(op, lhs, rhs) => BuiltinModel::Binary(*op, lhs.model(), rhs.model()),
            Builtin::Unary(op, operand) => BuiltinModel::Unary(*op, operand.model()),
            Builtin::Typed(op, operand, typ) => BuiltinModel::Typed(*op, operand.model(), *typ),
            Builtin::Offset(base, count, typ) => BuiltinModel::Offset(
                base.model(),
                count.model(),
                *typ,
            ),
        }
    }
}

impl Handle {
    /// The value of this node.
    pub open spec fn model(&self) -> ExprModel
        decreases self,
    {
        ExprModel::Handle {
            expression: Box::new(self.expression.model()),
            effect: self.effect,
            resume: self.resume,
            branch_body: Box::new(self.branch_body.model()),
        }
    }
}

impl Ast {
    /// The value of this node.
    pub open spec fn model(&self) -> ExprModel
        decreases self,
    {
        match self {
            Ast::Atom(atom) => ExprModel::Atom(atom.model()),
            Ast::FunctionCall(call) => call.model(),
            Ast::Let(binding) => binding.model(),
            Ast::If(conditional) => conditional.model(),
            Ast::Match(matching) => matching.model(),
            Ast::Return(ret) => ret.model(),
            Ast::Assignment(assignment) => assignment.model(),
            Ast::MemberAccess(access) => access.model(),
            Ast::Tuple(tuple) => tuple.model(),
            Ast::Builtin(builtin) => ExprModel::Builtin(builtin.model()),
            Ast::Handle(handle) => handle.model(),
        }
    }
}

impl View for Atom {
    type V = AtomModel;

    open spec fn view(&self) -> AtomModel {
        self.model()
    }
}

impl View for Builtin {
    type V = BuiltinModel;

    open spec fn view(&self) -> BuiltinModel {
        self.model()
    }
}

impl View for DecisionTree {
    type V = TreeModel;

    open spec fn view(&self) -> TreeModel {
        self.model()
    }
}

impl View for Ast {
    type V = ExprModel;

    open spec fn view(&self) -> ExprModel {
        self.model()
    }
}

/// Whether no identity occurs twice among the functions of a program.
pub open spec fn distinct_identities(functions: Seq<(DefinitionId, ExprModel)>) -> bool {
    forall|i: int, j: int|
        0 <= i < j < functions.len() ==> (#[trigger] functions[i]).0 != (#[trigger] functions[j]).0
}

impl Mir {
    /// Whether the program is well formed: each function has an identity of
    /// its own.
    pub open spec fn well_formed(&self) -> bool {
        distinct_identities(functions_model(&self.functions))
    }
}

impl View for Mir {
    type V = Seq<(DefinitionId, ExprModel)>;

    open spec fn view(&self) -> Seq<(DefinitionId, ExprModel)> {
        functions_model(&self.functions)
    }
}

} // verus!
