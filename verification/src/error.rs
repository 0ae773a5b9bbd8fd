//! The ways in which a compilation ends without a result.

use vstd::prelude::*;
use crate::compiler::typecheck::{Type, TypeView};
use crate::grammar::ast::{Expression, ExpressionView};

verus! {

/// Every error ends the compilation: no stage recovers from one.
#[derive(Debug, PartialEq, Eq)]
pub enum CompilerError {
    /// The program has no entry block.
    NoMainBlock,
    /// A panic that the program's author wrote, with its message and position.
    ExplicitPanic(String, usize),
    /// A construct that is deliberately not lowered.
    CompilerStageNotImplemented(String),
    /// A declaration of a canonical name that is already declared.
    DuplicateFieldDeclaration(String),
    /// An assignment to a field path that was never declared.
    AssigningUndeclaredField(Vec<String>),
    /// A value of the second type cannot be assigned to a field of the first.
    TypeCheckFailed(Type, Type),
    /// A call names no callable.
    CallableNotFound(String),
    /// A call to the named callable, which expects the first count, passes the second.
    IncorrectCallParameterCount(String, usize, usize),
    /// The type environment holds no type for the field path.
    FieldTypeNotKnown(Vec<String>),
    /// The expression has no type.
    ExpressionTypeInferenceFailed(Expression),
    /// The expression breaks the named rule of the static type system.
    StaticTypeError(String, Expression),
    /// A constructor expression stands where no field receives it.
    ConstructorExpression(),
    /// A field of the given type cannot take the constructor's initialisers.
    FieldConstructorAssignment(Type, Vec<(String, Expression)>),
    /// The value declared for the named constant is no constant.
    NonConstantValue(String, Expression),
    /// A stage met input that an earlier stage never hands on.
    Internal(String),
}

/// What a `CompilerError` holds, as a mathematical value.
pub enum CompilerErrorView {
    NoMainBlock,
    ExplicitPanic(Seq<char>, usize),
    CompilerStageNotImplemented(Seq<char>),
    DuplicateFieldDeclaration(Seq<char>),
    AssigningUndeclaredField(Seq<Seq<char>>),
    TypeCheckFailed(TypeView, TypeView),
    CallableNotFound(Seq<char>),
    IncorrectCallParameterCount(Seq<char>, nat, nat),
    FieldTypeNotKnown(Seq<Seq<char>>),
    ExpressionTypeInferenceFailed(ExpressionView),
    StaticTypeError(Seq<char>, ExpressionView),
    ConstructorExpression,
    FieldConstructorAssignment(TypeView, Seq<(Seq<char>, ExpressionView)>),
    NonConstantValue(Seq<char>, ExpressionView),
    Internal(Seq<char>),
}

impl View for CompilerError {
    type V = CompilerErrorView;

    open spec fn view(&self) -> CompilerErrorView {
        match self {
            CompilerError::NoMainBlock => CompilerErrorView::NoMainBlock,
            CompilerError::ExplicitPanic(m, p) => CompilerErrorView::ExplicitPanic(m@, *p),
            CompilerError::CompilerStageNotImplemented(m) => CompilerErrorView::CompilerStageNotImplemented(m@),
            CompilerError::DuplicateFieldDeclaration(n) => CompilerErrorView::DuplicateFieldDeclaration(n@),
            CompilerError::AssigningUndeclaredField(p) => CompilerErrorView::AssigningUndeclaredField(p.deep_view()),
            CompilerError::TypeCheckFailed(a, b) => CompilerErrorView::TypeCheckFailed(a@, b@),
            CompilerError::CallableNotFound(n) => CompilerErrorView::CallableNotFound(n@),
            CompilerError::IncorrectCallParameterCount(n, e, a) => CompilerErrorView::IncorrectCallParameterCount(
                n@,
                *e as nat,
                *a as nat,
            ),
            CompilerError::FieldTypeNotKnown(p) => CompilerErrorView::FieldTypeNotKnown(p.deep_view()),
            CompilerError::ExpressionTypeInferenceFailed(e) => CompilerErrorView::ExpressionTypeInferenceFailed(e@),
            CompilerError::StaticTypeError(m, e) => CompilerErrorView::StaticTypeError(m@, e@),
            CompilerError::ConstructorExpression() => CompilerErrorView::ConstructorExpression,
            CompilerError::FieldConstructorAssignment(t, inits) => CompilerErrorView::FieldConstructorAssignment(t@, inits.deep_view()),
            CompilerError::NonConstantValue(n, e) => CompilerErrorView::NonConstantValue(n@, e@),
            CompilerError::Internal(m) => CompilerErrorView::Internal(m@),
        }
    }
}

impl DeepView for CompilerError {
    type V = CompilerErrorView;

    open spec fn deep_view(&self) -> CompilerErrorView {
        self@
    }
}

/// The view of a result: that of its value, or that of its error.
pub open spec fn result_view<T: DeepView>(r: Result<T, CompilerError>) -> Result<T::V, CompilerErrorView> {
    match r {
        Ok(v) => Ok(v.deep_view()),
        Err(e) => Err(e@),
    }
}

/// The view of a result without a value.
pub open spec fn unit_result_view(r: Result<(), CompilerError>) -> Result<(), CompilerErrorView> {
    match r {
        Ok(_) => Ok(()),
        Err(e) => Err(e@),
    }
}

/// The error for a construct that is deliberately not lowered, with its message.
pub fn not_implemented(text: &str) -> (r: CompilerError)
    ensures
        r@ == CompilerErrorView::CompilerStageNotImplemented(text@),
{
    CompilerError::CompilerStageNotImplemented(text.to_string())
}

} // verus!
