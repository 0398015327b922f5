//! The node vocabulary of the intermediate representation.

use vstd::prelude::*;

verus! {

/// The identity of one variable binding. Two bindings are the same exactly
/// when their identities are equal.
#[derive(Clone, Copy, Debug, PartialEq, Eq, Hash)]
pub struct DefinitionId(pub u64);

/// Width and signedness of an integer type.
#[derive(Clone, Copy, Debug, PartialEq, Eq)]
pub enum IntegerKind {
    I8,
    I16,
    I32,
    I64,
    Isz,
    U8,
    U16,
    U32,
    U64,
    Usz,
}

/// Width of a floating-point type.
#[derive(Clone, Copy, Debug, PartialEq, Eq)]
pub enum FloatKind {
    F32,
    F64,
}

/// A type descriptor. The evaluator never inspects one: it only carries it
/// from a node to the node that replaces it.
#[derive(Clone, Copy, Debug, PartialEq, Eq)]
pub enum Type {
    Integer(IntegerKind),
    Float(FloatKind),
    Char,
    Boolean,
    Unit,
    Pointer,
}

/// A literal value. A floating-point literal is held as its bit pattern.
#[derive(Clone, Copy, Debug, PartialEq, Eq)]
pub enum Literal {
    Integer(u64, IntegerKind),
    Float(u64, FloatKind),
    Char(char),
    Bool(bool),
    Unit,
}

/// A reference to a variable, or a parameter of a closure.
#[derive(Clone, Copy, Debug, PartialEq, Eq)]
pub struct Variable {
    pub definition_id: DefinitionId,
    pub typ: Type,
}

/// A reference to a symbol that is defined outside the program.
#[derive(Debug, PartialEq, Eq)]
pub struct Extern {
    pub name: String,
    pub typ: Type,
}

/// An effect operation. None may be left when static calls are evaluated.
#[derive(Clone, Copy, Debug, PartialEq, Eq)]
pub struct Effect {
    pub id: DefinitionId,
    pub typ: Type,
}

/// A closure: its parameters in order, its body, and whether it has to be
/// applied at compile time.
#[derive(Debug, PartialEq, Eq)]
pub struct Lambda {
    pub args: Vec<Variable>,
    pub body: Box<Ast>,
    pub compile_time: bool,
}

/// A leaf-level value.
#[derive(Debug, PartialEq, Eq)]
pub enum Atom {
    Literal(Literal),
    Variable(Variable),
    Lambda(Lambda),
    Extern(Extern),
    Effect(Effect),
}

/// A function application.
#[derive(Debug, PartialEq, Eq)]
pub struct FunctionCall {
    pub function: Atom,
    pub args: Vec<Atom>,
    pub compile_time: bool,
}

/// A binding of `variable` to `expr` that is in scope in `body`.
#[derive(Debug, PartialEq, Eq)]
pub struct Let {
    pub variable: DefinitionId,
    pub expr: Box<Ast>,
    pub body: Box<Ast>,
}

/// A conditional.
#[derive(Debug, PartialEq, Eq)]
pub struct If {
    pub condition: Atom,
    pub then_branch: Box<Ast>,
    pub otherwise: Box<Ast>,
}

/// A compiled pattern match.
#[derive(Debug, PartialEq, Eq)]
pub enum DecisionTree {
    /// Selects the branch with this index.
    Leaf(usize),
    /// Binds `variable` to a part of the matched value, given by `expr`, in
    /// the subtree `body`.
    Let { variable: DefinitionId, expr: Box<Ast>, body: Box<DecisionTree> },
    /// Chooses a subtree by the value of an integer tag.
    Switch {
        int_to_switch_on: Atom,
        cases: Vec<(u32, DecisionTree)>,
        else_case: Option<Box<DecisionTree>>,
    },
}

/// A pattern match: the tree that selects a branch, and the branches.
#[derive(Debug, PartialEq, Eq)]
pub struct Match {
    pub decision_tree: DecisionTree,
    pub branches: Vec<Ast>,
}

/// An early return from the enclosing function.
#[derive(Debug, PartialEq, Eq)]
pub struct Return {
    pub expression: Atom,
}

/// A store of `rhs` through the reference `lhs`.
#[derive(Debug, PartialEq, Eq)]
pub struct Assignment {
    pub lhs: Atom,
    pub rhs: Atom,
}

/// A projection of one field out of a tuple.
#[derive(Debug, PartialEq, Eq)]
pub struct MemberAccess {
    pub lhs: Atom,
    pub member_index: u32,
}

/// A tuple of values.
#[derive(Debug, PartialEq, Eq)]
pub struct Tuple {
    pub fields: Vec<Atom>,
}

/// The primitive operations on two operands.
#[derive(Clone, Copy, Debug, PartialEq, Eq)]
pub enum BinaryOp {
    AddInt,
    AddFloat,
    SubInt,
    SubFloat,
    MulInt,
    MulFloat,
    DivSigned,
    DivUnsigned,
    DivFloat,
    ModSigned,
    ModUnsigned,
    ModFloat,
    LessSigned,
    LessUnsigned,
    LessFloat,
    EqInt,
    EqFloat,
    EqChar,
    EqBool,
    BitwiseAnd,
    BitwiseOr,
    BitwiseXor,
}

/// The primitive operations on one operand.
#[derive(Clone, Copy, Debug, PartialEq, Eq)]
pub enum UnaryOp {
    BitwiseNot,
    StackAlloc,
}

/// The primitive operations on one operand and a type descriptor.
#[derive(Clone, Copy, Debug, PartialEq, Eq)]
pub enum TypedOp {
    SignExtend,
    ZeroExtend,
    SignedToFloat,
    UnsignedToFloat,
    FloatToSigned,
    FloatToUnsigned,
    FloatPromote,
    FloatDemote,
    Truncate,
    Deref,
    Transmute,
}

/// An application of a primitive operation. The evaluator never runs one.
#[derive(Debug, PartialEq, Eq)]
pub enum Builtin {
    Binary(BinaryOp, Atom, Atom),
    Unary(UnaryOp, Atom),
    Typed(TypedOp, Atom, Type),
    /// Pointer arithmetic: a base, a count of elements and the element type.
    Offset(Atom, Atom, Type),
}

/// An effect handler. None may be left when static calls are evaluated.
#[derive(Debug, PartialEq, Eq)]
pub struct Handle {
    pub expression: Box<Ast>,
    pub effect: Effect,
    pub resume: Variable,
    pub branch_body: Box<Ast>,
}

/// A composite node.
#[derive(Debug, PartialEq, Eq)]
pub enum Ast {
    Atom(Atom),
    FunctionCall(FunctionCall),
    Let(Let),
    If(If),
    Match(Match),
    Return(Return),
    Assignment(Assignment),
    MemberAccess(MemberAccess),
    Tuple(Tuple),
    Builtin(Builtin),
    Handle(Handle),
}

/// A program: its functions, each with its identity.
#[derive(Debug, PartialEq, Eq)]
pub struct Mir {
    pub functions: Vec<(DefinitionId, Ast)>,
}

} // verus!
