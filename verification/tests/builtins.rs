use mir_eval::error::EvalError;
use mir_eval::ir::{
    Ast, Atom, BinaryOp, Builtin, DefinitionId, Effect, FloatKind, IntegerKind, Literal, Type,
    TypedOp, UnaryOp, Variable,
};
use mir_eval::subst::Substitutions;

fn name(id: u64) -> Atom {
    Atom::Variable(Variable { definition_id: DefinitionId(id), typ: Type::Integer(IntegerKind::I64) })
}

fn number(value: u64) -> Atom {
    Atom::Literal(Literal::Integer(value, IntegerKind::I64))
}

fn env() -> Substitutions {
    Substitutions::new().extend(DefinitionId(1), number(100)).extend(DefinitionId(2), number(200))
}

fn binary_ops() -> Vec<BinaryOp> {
    vec![
        BinaryOp::AddInt,
        BinaryOp::AddFloat,
        BinaryOp::SubInt,
        BinaryOp::SubFloat,
        BinaryOp::MulInt,
        BinaryOp::MulFloat,
        BinaryOp::DivSigned,
        BinaryOp::DivUnsigned,
        BinaryOp::DivFloat,
        BinaryOp::ModSigned,
        BinaryOp::ModUnsigned,
        BinaryOp::ModFloat,
        BinaryOp::LessSigned,
        BinaryOp::LessUnsigned,
        BinaryOp::LessFloat,
        BinaryOp::EqInt,
        BinaryOp::EqFloat,
        BinaryOp::EqChar,
        BinaryOp::EqBool,
        BinaryOp::BitwiseAnd,
        BinaryOp::BitwiseOr,
        BinaryOp::BitwiseXor,
    ]
}

fn typed_ops() -> Vec<TypedOp> {
    vec![
        TypedOp::SignExtend,
        TypedOp::ZeroExtend,
        TypedOp::SignedToFloat,
        TypedOp::UnsignedToFloat,
        TypedOp::FloatToSigned,
        TypedOp::FloatToUnsigned,
        TypedOp::FloatPromote,
        TypedOp::FloatDemote,
        TypedOp::Truncate,
        TypedOp::Deref,
        TypedOp::Transmute,
    ]
}

fn types() -> Vec<Type> {
    vec![
        Type::Integer(IntegerKind::I8),
        Type::Integer(IntegerKind::Usz),
        Type::Float(FloatKind::F32),
        Type::Float(FloatKind::F64),
        Type::Char,
        Type::Boolean,
        Type::Unit,
        Type::Pointer,
    ]
}

#[test]
fn every_binary_operation_keeps_its_tag() {
    let ops = binary_ops();
    assert_eq!(ops.len(), 22);
    for op in ops {
        let reduced = Builtin::Binary(op, name(1), name(2)).evaluate(&env(), 0);
        assert_eq!(reduced, Ok(Builtin::Binary(op, number(100), number(200))));
        let reduced = Builtin::Binary(op, name(3), number(4)).evaluate(&env(), 0);
        assert_eq!(reduced, Ok(Builtin::Binary(op, name(3), number(4))));
    }
}

#[test]
fn every_unary_operation_keeps_its_tag() {
    for op in vec![UnaryOp::BitwiseNot, UnaryOp::StackAlloc] {
        let reduced = Builtin::Unary(op, name(2)).evaluate(&env(), 0);
        assert_eq!(reduced, Ok(Builtin::Unary(op, number(200))));
    }
}

#[test]
fn every_typed_operation_keeps_its_tag_and_type() {
    let ops = typed_ops();
    assert_eq!(ops.len(), 11);
    for op in ops {
        for typ in types() {
            let reduced = Builtin::Typed(op, name(1), typ).evaluate(&env(), 0);
            assert_eq!(reduced, Ok(Builtin::Typed(op, number(100), typ)));
        }
    }
}

#[test]
fn offset_keeps_its_type() {
    for typ in types() {
        let reduced = Builtin::Offset(name(2), name(1), typ).evaluate(&env(), 0);
        assert_eq!(reduced, Ok(Builtin::Offset(number(200), number(100), typ)));
    }
}

#[test]
fn builtin_inside_an_expression_is_reduced_in_place() {
    let ast = Ast::Builtin(Builtin::Binary(BinaryOp::MulInt, name(1), name(1)));
    let expected = Ast::Builtin(Builtin::Binary(BinaryOp::MulInt, number(100), number(100)));
    assert_eq!(ast.evaluate(&env(), 0), Ok(expected));
}

#[test]
fn builtin_is_not_computed() {
    let sum = Builtin::Binary(BinaryOp::AddInt, number(1), number(2));
    assert_eq!(sum.evaluate(&env(), 8), Ok(Builtin::Binary(BinaryOp::AddInt, number(1), number(2))));
}

#[test]
fn builtin_reports_the_left_operand_first() {
    let left = Effect { id: DefinitionId(1), typ: Type::Unit };
    let right = Effect { id: DefinitionId(2), typ: Type::Unit };
    let both = Builtin::Binary(BinaryOp::EqInt, Atom::Effect(left), Atom::Effect(right));
    assert_eq!(both.evaluate(&env(), 0), Err(EvalError::EffectNotRemoved(left)));
    let second = Builtin::Offset(number(0), Atom::Effect(right), Type::Char);
    assert_eq!(second.evaluate(&env(), 0), Err(EvalError::EffectNotRemoved(right)));
    let only = Builtin::Typed(TypedOp::Deref, Atom::Effect(left), Type::Char);
    assert_eq!(only.evaluate(&env(), 0), Err(EvalError::EffectNotRemoved(left)));
    let only = Builtin::Unary(UnaryOp::BitwiseNot, Atom::Effect(right));
    assert_eq!(only.evaluate(&env(), 0), Err(EvalError::EffectNotRemoved(right)));
}
