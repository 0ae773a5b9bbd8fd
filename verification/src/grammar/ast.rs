//! The syntax tree of the source language, with the mathematical view of
//! each node.

use vstd::prelude::*;
use crate::views::{clone_label, clone_strings, push_deep};

verus! {

/// A whole program: what one file defines, or several files merged.
#[derive(Debug, PartialEq, Eq)]
pub struct Program {
    pub imports: Vec<Import>,
    pub constants: Vec<Constant>,
    pub enums: Vec<EnumDefinition>,
    pub structs: Vec<StructDefinition>,
    pub ranges: Vec<RangeDefinition>,
    pub callables: Vec<CallableDefinition>,
    pub main: Option<Main>,
}

/// An import of another file, whose names may be put in a namespace.
#[derive(Debug, PartialEq, Eq)]
pub struct Import {
    pub path: String,
    pub namespace: Option<String>,
}

/// A constant of the program.
#[derive(Debug, PartialEq, Eq)]
pub struct Constant {
    pub field: FieldDefinition,
    pub value: Expression,
}

/// An enumeration over a base type.
#[derive(Debug, PartialEq, Eq)]
pub struct EnumDefinition {
    pub name: String,
    pub base: String,
    pub items: Vec<EnumItemDefinition>,
}

/// One item of an enumeration.
#[derive(Debug, PartialEq, Eq)]
pub struct EnumItemDefinition {
    pub name: String,
}

/// A struct: its name and its members in their order. It lays out fields
/// and never reaches the output itself.
#[derive(Debug, PartialEq, Eq)]
pub struct StructDefinition {
    pub name: String,
    pub fields: Vec<FieldDefinition>,
}

/// A range over a base type.
#[derive(Debug, PartialEq, Eq)]
pub struct RangeDefinition {
    pub name: String,
    pub base: String,
    pub expression: Expression,
}

/// The two kinds of callables.
#[derive(Debug, Clone, Copy, PartialEq, Eq)]
pub enum CallType {
    Proc,
    Macro,
}

/// A procedure or a macro.
#[derive(Debug, PartialEq, Eq)]
pub struct CallableDefinition {
    pub name: String,
    pub call_type: CallType,
    pub parameters: Vec<ParameterDefinition>,
    pub return_type: Option<String>,
    pub statements: Vec<InnerStatement>,
    pub attributes: Vec<Attribute>,
}

/// A parameter of a callable; `copy` marks one that is passed by value.
#[derive(Debug, Hash, PartialEq, Eq)]
pub struct ParameterDefinition {
    pub field: FieldDefinition,
    pub copy: bool,
}

/// The entry block.
#[derive(Debug, PartialEq, Eq)]
pub struct Main {
    pub statements: Vec<OuterStatement>,
}

/// A field: its plain name and the name of its type.
#[derive(Debug, Hash, PartialEq, Eq)]
pub struct FieldDefinition {
    pub name: String,
    pub typename: TypeName,
}

/// The name of a type as it is written.
#[derive(Debug, Hash, PartialEq, Eq)]
pub struct TypeName {
    pub typename: String,
}

/// An attribute of a callable.
#[derive(Debug, PartialEq, Eq)]
pub struct Attribute {
    pub name: String,
    pub parameters: Vec<Expression>,
}

/// A statement of the entry block: a plain statement, a label, or a
/// group of statements that must share one physical line.
#[derive(Debug, PartialEq, Eq)]
pub enum OuterStatement {
    Line(Vec<InnerStatement>, Option<String>),
    Inner(InnerStatement),
    Label(String),
}

/// A plain statement.
#[derive(Debug, PartialEq, Eq)]
pub enum InnerStatement {
    CompilePanic(String, usize),
    Emit(String),
    Call(String, Vec<Expression>),
    If(Expression, Vec<InnerStatement>, Vec<InnerStatement>),
    Assign(Vec<String>, Expression),
    DeclareAssign(FieldDefinition, Expression),
    DeclareConst(FieldDefinition, Expression),
    ExternalAssign(String, Expression),
    Return(Expression),
    Goto(String),
}

/// An expression.
#[derive(Debug, PartialEq, Eq)]
pub enum Expression {
    CompilePanic(String, usize),
    ConstNumber(String),
    ConstString(String),
    FieldAccess(Vec<String>),
    ExternalFieldAccess(String),
    Negate(Box<Expression>),
    Not(Box<Expression>),
    Call(String, Vec<Expression>),
    Is(Box<Expression>, String),
    Add(Box<Expression>, Box<Expression>),
    Subtract(Box<Expression>, Box<Expression>),
    Multiply(Box<Expression>, Box<Expression>),
    Divide(Box<Expression>, Box<Expression>),
    Modulus(Box<Expression>, Box<Expression>),
    Exponent(Box<Expression>, Box<Expression>),
    And(Box<Expression>, Box<Expression>),
    Or(Box<Expression>, Box<Expression>),
    Bracket(Box<Expression>),
    GreaterThan(Box<Expression>, Box<Expression>),
    LessThan(Box<Expression>, Box<Expression>),
    GreaterThanOrEq(Box<Expression>, Box<Expression>),
    LessThanOrEq(Box<Expression>, Box<Expression>),
    Equals(Box<Expression>, Box<Expression>),
    NotEquals(Box<Expression>, Box<Expression>),
    PostIncrement(String),
    PostDecrement(String),
    PreIncrement(String),
    PreDecrement(String),
    Constructor(TypeName, Vec<(String, Expression)>),
}

/// The operators with one operand.
#[derive(Debug, Clone, Copy, PartialEq, Eq)]
pub enum UnaryOp {
    Negate,
    Not,
    Bracket,
}

/// The operators with two operands.
#[derive(Debug, Clone, Copy, PartialEq, Eq)]
pub enum BinaryOp {
    Add,
    Subtract,
    Multiply,
    Divide,
    Modulus,
    Exponent,
    And,
    Or,
    GreaterThan,
    LessThan,
    GreaterThanOrEq,
    LessThanOrEq,
    Equals,
    NotEquals,
}

/// The four increments and decrements of a named field.
#[derive(Debug, Clone, Copy, PartialEq, Eq)]
pub enum StepOp {
    PostIncrement,
    PostDecrement,
    PreIncrement,
    PreDecrement,
}

/// An expression as a mathematical value: text is a sequence of characters,
/// lists are sequences, and the operators of one arity share a constructor.
pub enum ExpressionView {
    CompilePanic(Seq<char>, usize),
    ConstNumber(Seq<char>),
    ConstString(Seq<char>),
    FieldAccess(Seq<Seq<char>>),
    ExternalFieldAccess(Seq<char>),
    Unary(UnaryOp, Box<ExpressionView>),
    Binary(BinaryOp, Box<ExpressionView>, Box<ExpressionView>),
    Call(Seq<char>, Seq<ExpressionView>),
    Is(Box<ExpressionView>, Seq<char>),
    Step(StepOp, Seq<char>),
    Constructor(Seq<char>, Seq<(Seq<char>, ExpressionView)>),
}

/// What a `FieldDefinition` holds, as a mathematical value.
pub struct FieldDefinitionView {
    pub name: Seq<char>,
    pub typename: Seq<char>,
}

/// What a `InnerStatement` holds, as a mathematical value.
pub enum InnerStatementView {
    CompilePanic(Seq<char>, usize),
    Emit(Seq<char>),
    Call(Seq<char>, Seq<ExpressionView>),
    If(ExpressionView, Seq<InnerStatementView>, Seq<InnerStatementView>),
    Assign(Seq<Seq<char>>, ExpressionView),
    DeclareAssign(FieldDefinitionView, ExpressionView),
    DeclareConst(FieldDefinitionView, ExpressionView),
    ExternalAssign(Seq<char>, ExpressionView),
    Return(ExpressionView),
    Goto(Seq<char>),
}

/// What a `OuterStatement` holds, as a mathematical value.
pub enum OuterStatementView {
    Line(Seq<InnerStatementView>, Option<Seq<char>>),
    Inner(InnerStatementView),
    Label(Seq<char>),
}

/// What a `Import` holds, as a mathematical value.
pub struct ImportView {
    pub path: Seq<char>,
    pub namespace: Option<Seq<char>>,
}

/// What a `Constant` holds, as a mathematical value.
pub struct ConstantView {
    pub field: FieldDefinitionView,
    pub value: ExpressionView,
}

/// What a `EnumDefinition` holds, as a mathematical value.
pub struct EnumDefinitionView {
    pub name: Seq<char>,
    pub base: Seq<char>,
    pub items: Seq<Seq<char>>,
}

/// What a `StructDefinition` holds, as a mathematical value.
pub struct StructDefinitionView {
    pub name: Seq<char>,
    pub fields: Seq<FieldDefinitionView>,
}

/// What a `RangeDefinition` holds, as a mathematical value.
pub struct RangeDefinitionView {
    pub name: Seq<char>,
    pub base: Seq<char>,
    pub expression: ExpressionView,
}

/// What a `ParameterDefinition` holds, as a mathematical value.
pub struct ParameterDefinitionView {
    pub field: FieldDefinitionView,
    pub copy: bool,
}

/// What a `Attribute` holds, as a mathematical value.
pub struct AttributeView {
    pub name: Seq<char>,
    pub parameters: Seq<ExpressionView>,
}

/// What a `CallableDefinition` holds, as a mathematical value.
pub struct CallableDefinitionView {
    pub name: Seq<char>,
    pub call_type: CallType,
    pub parameters: Seq<ParameterDefinitionView>,
    pub return_type: Option<Seq<char>>,
    pub statements: Seq<InnerStatementView>,
    pub attributes: Seq<AttributeView>,
}

/// What a `Program` holds, as a mathematical value.
pub struct ProgramView {
    pub imports: Seq<ImportView>,
    pub constants: Seq<ConstantView>,
    pub enums: Seq<EnumDefinitionView>,
    pub structs: Seq<StructDefinitionView>,
    pub ranges: Seq<RangeDefinitionView>,
    pub callables: Seq<CallableDefinitionView>,
    pub main: Option<Seq<OuterStatementView>>,
}

/// What an expression holds.
pub open spec fn expression_view(e: Expression) -> ExpressionView
    decreases e, 0nat,
{
    match e {
        Expression::CompilePanic(m, p) => ExpressionView::CompilePanic(m@, p),
        Expression::ConstNumber(s) => ExpressionView::ConstNumber(s@),
        Expression::ConstString(s) => ExpressionView::ConstString(s@),
        Expression::FieldAccess(p) => ExpressionView::FieldAccess(p.deep_view()),
        Expression::ExternalFieldAccess(s) => ExpressionView::ExternalFieldAccess(s@),
        Expression::Negate(a) => ExpressionView::Unary(UnaryOp::Negate, Box::new(expression_view(*a))),
        Expression::Not(a) => ExpressionView::Unary(UnaryOp::Not, Box::new(expression_view(*a))),
        Expression::Bracket(a) => ExpressionView::Unary(UnaryOp::Bracket, Box::new(expression_view(*a))),
        Expression::Call(n, args) => ExpressionView::Call(n@, expressions_view(args@)),
        Expression::Is(a, t) => ExpressionView::Is(Box::new(expression_view(*a)), t@),
        Expression::Add(a, b) => ExpressionView::Binary(BinaryOp::Add, Box::new(expression_view(*a)), Box::new(expression_view(*b))),
        Expression::Subtract(a, b) => ExpressionView::Binary(BinaryOp::Subtract, Box::new(expression_view(*a)), Box::new(expression_view(*b))),
        Expression::Multiply(a, b) => ExpressionView::Binary(BinaryOp::Multiply, Box::new(expression_view(*a)), Box::new(expression_view(*b))),
        Expression::Divide(a, b) => ExpressionView::Binary(BinaryOp::Divide, Box::new(expression_view(*a)), Box::new(expression_view(*b))),
        Expression::Modulus(a, b) => ExpressionView::Binary(BinaryOp::Modulus, Box::new(expression_view(*a)), Box::new(expression_view(*b))),
        Expression::Exponent(a, b) => ExpressionView::Binary(BinaryOp::Exponent, Box::new(expression_view(*a)), Box::new(expression_view(*b))),
        Expression::And(a, b) => ExpressionView::Binary(BinaryOp::And, Box::new(expression_view(*a)), Box::new(expression_view(*b))),
        Expression::Or(a, b) => ExpressionView::Binary(BinaryOp::Or, Box::new(expression_view(*a)), Box::new(expression_view(*b))),
        Expression::GreaterThan(a, b) => ExpressionView::Binary(BinaryOp::GreaterThan, Box::new(expression_view(*a)), Box::new(expression_view(*b))),
        Expression::LessThan(a, b) => ExpressionView::Binary(BinaryOp::LessThan, Box::new(expression_view(*a)), Box::new(expression_view(*b))),
        Expression::GreaterThanOrEq(a, b) => ExpressionView::Binary(BinaryOp::GreaterThanOrEq, Box::new(expression_view(*a)), Box::new(expression_view(*b))),
        Expression::LessThanOrEq(a, b) => ExpressionView::Binary(BinaryOp::LessThanOrEq, Box::new(expression_view(*a)), Box::new(expression_view(*b))),
        Expression::Equals(a, b) => ExpressionView::Binary(BinaryOp::Equals, Box::new(expression_view(*a)), Box::new(expression_view(*b))),
        Expression::NotEquals(a, b) => ExpressionView::Binary(BinaryOp::NotEquals, Box::new(expression_view(*a)), Box::new(expression_view(*b))),
        Expression::PostIncrement(n) => ExpressionView::Step(StepOp::PostIncrement, n@),
        Expression::PostDecrement(n) => ExpressionView::Step(StepOp::PostDecrement, n@),
        Expression::PreIncrement(n) => ExpressionView::Step(StepOp::PreIncrement, n@),
        Expression::PreDecrement(n) => ExpressionView::Step(StepOp::PreDecrement, n@),
        Expression::Constructor(t, inits) => ExpressionView::Constructor(t.typename@, initialisers_view(inits@)),
    }
}

/// What each expression of a list holds.
pub open spec fn expressions_view(es: Seq<Expression>) -> Seq<ExpressionView>
    decreases es, 1nat,
{
    Seq::new(es.len(), |i: int| if 0 <= i < es.len() { expression_view(es[i]) } else { arbitrary() })
}

/// What each initialiser of a list holds.
pub open spec fn initialisers_view(es: Seq<(String, Expression)>) -> Seq<(Seq<char>, ExpressionView)>
    decreases es, 1nat,
{
    Seq::new(es.len(), |i: int| if 0 <= i < es.len() { (es[i].0@, expression_view(es[i].1)) } else { arbitrary() })
}

impl View for Expression {
    type V = ExpressionView;

    open spec fn view(&self) -> ExpressionView {
        expression_view(*self)
    }
}

impl DeepView for Expression {
    type V = ExpressionView;

    open spec fn deep_view(&self) -> ExpressionView {
        expression_view(*self)
    }
}

impl View for TypeName {
    type V = Seq<char>;

    open spec fn view(&self) -> Seq<char> {
        self.typename@
    }
}

impl DeepView for TypeName {
    type V = Seq<char>;

    open spec fn deep_view(&self) -> Seq<char> {
        self.typename@
    }
}

impl View for FieldDefinition {
    type V = FieldDefinitionView;

    open spec fn view(&self) -> FieldDefinitionView {
        FieldDefinitionView { name: self.name@, typename: self.typename@ }
    }
}

impl DeepView for FieldDefinition {
    type V = FieldDefinitionView;

    open spec fn deep_view(&self) -> FieldDefinitionView {
        self@
    }
}

/// What a statement holds.
pub open spec fn inner_statement_view(s: InnerStatement) -> InnerStatementView
    decreases s, 0nat,
{
    match s {
        InnerStatement::CompilePanic(m, p) => InnerStatementView::CompilePanic(m@, p),
        InnerStatement::Emit(c) => InnerStatementView::Emit(c@),
        InnerStatement::Call(n, args) => InnerStatementView::Call(n@, args.deep_view()),
        InnerStatement::If(c, pass, fail) => InnerStatementView::If(c@, inner_statements_view(pass@), inner_statements_view(fail@)),
        InnerStatement::Assign(p, v) => InnerStatementView::Assign(p.deep_view(), v@),
        InnerStatement::DeclareAssign(f, v) => InnerStatementView::DeclareAssign(f@, v@),
        InnerStatement::DeclareConst(f, v) => InnerStatementView::DeclareConst(f@, v@),
        InnerStatement::ExternalAssign(n, v) => InnerStatementView::ExternalAssign(n@, v@),
        InnerStatement::Return(v) => InnerStatementView::Return(v@),
        InnerStatement::Goto(l) => InnerStatementView::Goto(l@),
    }
}

/// What each statement of a list holds.
pub open spec fn inner_statements_view(ss: Seq<InnerStatement>) -> Seq<InnerStatementView>
    decreases ss, 1nat,
{
    Seq::new(ss.len(), |i: int| if 0 <= i < ss.len() { inner_statement_view(ss[i]) } else { arbitrary() })
}

impl View for InnerStatement {
    type V = InnerStatementView;

    open spec fn view(&self) -> InnerStatementView {
        inner_statement_view(*self)
    }
}

impl DeepView for InnerStatement {
    type V = InnerStatementView;

    open spec fn deep_view(&self) -> InnerStatementView {
        inner_statement_view(*self)
    }
}

impl View for OuterStatement {
    type V = OuterStatementView;

    open spec fn view(&self) -> OuterStatementView {
        match self {
            OuterStatement::Line(stmts, label) => OuterStatementView::Line(stmts.deep_view(), label.deep_view()),
            OuterStatement::Inner(s) => OuterStatementView::Inner(s@),
            OuterStatement::Label(l) => OuterStatementView::Label(l@),
        }
    }
}

impl DeepView for OuterStatement {
    type V = OuterStatementView;

    open spec fn deep_view(&self) -> OuterStatementView {
        self@
    }
}

impl View for Import {
    type V = ImportView;

    open spec fn view(&self) -> ImportView {
        ImportView { path: self.path@, namespace: self.namespace.deep_view() }
    }
}

impl DeepView for Import {
    type V = ImportView;

    open spec fn deep_view(&self) -> ImportView {
        self@
    }
}

impl View for Constant {
    type V = ConstantView;

    open spec fn view(&self) -> ConstantView {
        ConstantView { field: self.field@, value: self.value@ }
    }
}

impl DeepView for Constant {
    type V = ConstantView;

    open spec fn deep_view(&self) -> ConstantView {
        self@
    }
}

impl View for EnumItemDefinition {
    type V = Seq<char>;

    open spec fn view(&self) -> Seq<char> {
        self.name@
    }
}

impl DeepView for EnumItemDefinition {
    type V = Seq<char>;

    open spec fn deep_view(&self) -> Seq<char> {
        self.name@
    }
}

impl View for EnumDefinition {
    type V = EnumDefinitionView;

    open spec fn view(&self) -> EnumDefinitionView {
        EnumDefinitionView { name: self.name@, base: self.base@, items: self.items.deep_view() }
    }
}

impl DeepView for EnumDefinition {
    type V = EnumDefinitionView;

    open spec fn deep_view(&self) -> EnumDefinitionView {
        self@
    }
}

impl View for StructDefinition {
    type V = StructDefinitionView;

    open spec fn view(&self) -> StructDefinitionView {
        StructDefinitionView { name: self.name@, fields: self.fields.deep_view() }
    }
}

impl DeepView for StructDefinition {
    type V = StructDefinitionView;

    open spec fn deep_view(&self) -> StructDefinitionView {
        self@
    }
}

impl View for RangeDefinition {
    type V = RangeDefinitionView;

    open spec fn view(&self) -> RangeDefinitionView {
        RangeDefinitionView { name: self.name@, base: self.base@, expression: self.expression@ }
    }
}

impl DeepView for RangeDefinition {
    type V = RangeDefinitionView;

    open spec fn deep_view(&self) -> RangeDefinitionView {
        self@
    }
}

impl View for ParameterDefinition {
    type V = ParameterDefinitionView;

    open spec fn view(&self) -> ParameterDefinitionView {
        ParameterDefinitionView { field: self.field@, copy: self.copy }
    }
}

impl DeepView for ParameterDefinition {
    type V = ParameterDefinitionView;

    open spec fn deep_view(&self) -> ParameterDefinitionView {
        self@
    }
}

impl View for Attribute {
    type V = AttributeView;

    open spec fn view(&self) -> AttributeView {
        AttributeView { name: self.name@, parameters: self.parameters.deep_view() }
    }
}

impl DeepView for Attribute {
    type V = AttributeView;

    open spec fn deep_view(&self) -> AttributeView {
        self@
    }
}

impl View for CallableDefinition {
    type V = CallableDefinitionView;

    open spec fn view(&self) -> CallableDefinitionView {
        CallableDefinitionView {
            name: self.name@,
            call_type: self.call_type,
            parameters: self.parameters.deep_view(),
            return_type: self.return_type.deep_view(),
            statements: self.statements.deep_view(),
            attributes: self.attributes.deep_view(),
        }
    }
}

impl DeepView for CallableDefinition {
    type V = CallableDefinitionView;

    open spec fn deep_view(&self) -> CallableDefinitionView {
        self@
    }
}

impl View for Main {
    type V = Seq<OuterStatementView>;

    open spec fn view(&self) -> Seq<OuterStatementView> {
        self.statements.deep_view()
    }
}

impl DeepView for Main {
    type V = Seq<OuterStatementView>;

    open spec fn deep_view(&self) -> Seq<OuterStatementView> {
        self@
    }
}

impl View for Program {
    type V = ProgramView;

    open spec fn view(&self) -> ProgramView {
        ProgramView {
            imports: self.imports.deep_view(),
            constants: self.constants.deep_view(),
            enums: self.enums.deep_view(),
            structs: self.structs.deep_view(),
            ranges: self.ranges.deep_view(),
            callables: self.callables.deep_view(),
            main: self.main.deep_view(),
        }
    }
}

impl DeepView for Program {
    type V = ProgramView;

    open spec fn deep_view(&self) -> ProgramView {
        self@
    }
}

/// The view of a call lists the views of its arguments.
pub broadcast proof fn lemma_call_view(n: String, args: Vec<Expression>)
    ensures
        #[trigger] expression_view(Expression::Call(n, args)) == ExpressionView::Call(n@, args.deep_view()),
{
    assert(expressions_view(args@) =~= args.deep_view());
}

/// The view of a constructor lists the views of its initialisers.
pub broadcast proof fn lemma_constructor_view(t: TypeName, inits: Vec<(String, Expression)>)
    ensures
        #[trigger] expression_view(Expression::Constructor(t, inits)) == ExpressionView::Constructor(t@, inits.deep_view()),
{
    assert(initialisers_view(inits@) =~= inits.deep_view());
}

/// The view of a conditional lists the views of the statements of both branches.
pub broadcast proof fn lemma_if_view(c: Expression, pass: Vec<InnerStatement>, fail: Vec<InnerStatement>)
    ensures
        #[trigger] inner_statement_view(InnerStatement::If(c, pass, fail)) == InnerStatementView::If(c@, pass.deep_view(), fail.deep_view()),
{
    assert(inner_statements_view(pass@) =~= pass.deep_view());
    assert(inner_statements_view(fail@) =~= fail.deep_view());
}

pub broadcast group group_ast_views {
    lemma_call_view,
    lemma_constructor_view,
    lemma_if_view,
}

impl Expression {
    /// The operator and operand, where this is an operator with one operand.
    pub fn as_unary(&self) -> (r: Option<(UnaryOp, &Expression)>)
        ensures
            match r {
                Some((op, a)) => self@ == ExpressionView::Unary(op, Box::new(a@)) && decreases_to!(self => a),
                None => !(self@ is Unary),
            },
    {
        broadcast use group_ast_views;
        match self {
            Expression::Negate(a) => Some((UnaryOp::Negate, &**a)),
            Expression::Not(a) => Some((UnaryOp::Not, &**a)),
            Expression::Bracket(a) => Some((UnaryOp::Bracket, &**a)),
            _ => None,
        }
    }

    /// The operator and operands, where this is an operator with two operands.
    pub fn as_binary(&self) -> (r: Option<(BinaryOp, &Expression, &Expression)>)
        ensures
            match r {
                Some((op, a, b)) => self@ == ExpressionView::Binary(op, Box::new(a@), Box::new(b@))
                    && decreases_to!(self => a) && decreases_to!(self => b),
                None => !(self@ is Binary),
            },
    {
        broadcast use group_ast_views;
        match self {
            Expression::Add(a, b) => Some((BinaryOp::Add, &**a, &**b)),
            Expression::Subtract(a, b) => Some((BinaryOp::Subtract, &**a, &**b)),
            Expression::Multiply(a, b) => Some((BinaryOp::Multiply, &**a, &**b)),
            Expression::Divide(a, b) => Some((BinaryOp::Divide, &**a, &**b)),
            Expression::Modulus(a, b) => Some((BinaryOp::Modulus, &**a, &**b)),
            Expression::Exponent(a, b) => Some((BinaryOp::Exponent, &**a, &**b)),
            Expression::And(a, b) => Some((BinaryOp::And, &**a, &**b)),
            Expression::Or(a, b) => Some((BinaryOp::Or, &**a, &**b)),
            Expression::GreaterThan(a, b) => Some((BinaryOp::GreaterThan, &**a, &**b)),
            Expression::LessThan(a, b) => Some((BinaryOp::LessThan, &**a, &**b)),
            Expression::GreaterThanOrEq(a, b) => Some((BinaryOp::GreaterThanOrEq, &**a, &**b)),
            Expression::LessThanOrEq(a, b) => Some((BinaryOp::LessThanOrEq, &**a, &**b)),
            Expression::Equals(a, b) => Some((BinaryOp::Equals, &**a, &**b)),
            Expression::NotEquals(a, b) => Some((BinaryOp::NotEquals, &**a, &**b)),
            _ => None,
        }
    }

    /// The operator and the field's name, where this is an increment or a decrement.
    pub fn as_step(&self) -> (r: Option<(StepOp, &String)>)
        ensures
            match r {
                Some((op, n)) => self@ == ExpressionView::Step(op, n@),
                None => !(self@ is Step),
            },
    {
        broadcast use group_ast_views;
        match self {
            Expression::PostIncrement(n) => Some((StepOp::PostIncrement, n)),
            Expression::PostDecrement(n) => Some((StepOp::PostDecrement, n)),
            Expression::PreIncrement(n) => Some((StepOp::PreIncrement, n)),
            Expression::PreDecrement(n) => Some((StepOp::PreDecrement, n)),
            _ => None,
        }
    }

    /// The expression that applies `op` to `a`.
    pub fn unary(op: UnaryOp, a: Expression) -> (r: Expression)
        ensures
            r@ == ExpressionView::Unary(op, Box::new(a@)),
    {
        match op {
            UnaryOp::Negate => Expression::Negate(Box::new(a)),
            UnaryOp::Not => Expression::Not(Box::new(a)),
            UnaryOp::Bracket => Expression::Bracket(Box::new(a)),
        }
    }

    /// The expression that applies `op` to `a` and `b`.
    pub fn binary(op: BinaryOp, a: Expression, b: Expression) -> (r: Expression)
        ensures
            r@ == ExpressionView::Binary(op, Box::new(a@), Box::new(b@)),
    {
        match op {
            BinaryOp::Add => Expression::Add(Box::new(a), Box::new(b)),
            BinaryOp::Subtract => Expression::Subtract(Box::new(a), Box::new(b)),
            BinaryOp::Multiply => Expression::Multiply(Box::new(a), Box::new(b)),
            BinaryOp::Divide => Expression::Divide(Box::new(a), Box::new(b)),
            BinaryOp::Modulus => Expression::Modulus(Box::new(a), Box::new(b)),
            BinaryOp::Exponent => Expression::Exponent(Box::new(a), Box::new(b)),
            BinaryOp::And => Expression::And(Box::new(a), Box::new(b)),
            BinaryOp::Or => Expression::Or(Box::new(a), Box::new(b)),
            BinaryOp::GreaterThan => Expression::GreaterThan(Box::new(a), Box::new(b)),
            BinaryOp::LessThan => Expression::LessThan(Box::new(a), Box::new(b)),
            BinaryOp::GreaterThanOrEq => Expression::GreaterThanOrEq(Box::new(a), Box::new(b)),
            BinaryOp::LessThanOrEq => Expression::LessThanOrEq(Box::new(a), Box::new(b)),
            BinaryOp::Equals => Expression::Equals(Box::new(a), Box::new(b)),
            BinaryOp::NotEquals => Expression::NotEquals(Box::new(a), Box::new(b)),
        }
    }

    /// The expression that applies `op` to the field `name`.
    pub fn step(op: StepOp, name: String) -> (r: Expression)
        ensures
            r@ == ExpressionView::Step(op, name@),
    {
        match op {
            StepOp::PostIncrement => Expression::PostIncrement(name),
            StepOp::PostDecrement => Expression::PostDecrement(name),
            StepOp::PreIncrement => Expression::PreIncrement(name),
            StepOp::PreDecrement => Expression::PreDecrement(name),
        }
    }
}

/// A copy of `e`.
#[verifier::loop_isolation(false)]
pub fn clone_expression(e: &Expression) -> (r: Expression)
    ensures
        r@ == e@,
    decreases e,
{
    broadcast use group_ast_views;
    if let Some((op, a)) = e.as_unary() {
        return Expression::unary(op, clone_expression(a));
    }
    if let Some((op, a, b)) = e.as_binary() {
        return Expression::binary(op, clone_expression(a), clone_expression(b));
    }
    if let Some((op, n)) = e.as_step() {
        return Expression::step(op, n.clone());
    }
    match e {
        Expression::CompilePanic(m, p) => Expression::CompilePanic(m.clone(), *p),
        Expression::ConstNumber(s) => Expression::ConstNumber(s.clone()),
        Expression::ConstString(s) => Expression::ConstString(s.clone()),
        Expression::FieldAccess(p) => Expression::FieldAccess(clone_strings(p)),
        Expression::ExternalFieldAccess(s) => Expression::ExternalFieldAccess(s.clone()),
        Expression::Call(n, args) => {
            let mut q: Vec<Expression> = Vec::new();
            let mut i: usize = 0;
            while i < args.len()
                invariant
                    i <= args.len(),
                    q.deep_view() == args.deep_view().take(i as int),
                decreases args.len() - i,
            {
                let c = clone_expression(&args[i]);
                push_deep(&mut q, c);
                assert(args.deep_view().take(i + 1) =~= args.deep_view().take(i as int).push(args@[i as int]@));
                i += 1;
            }
            assert(args.deep_view().take(i as int) =~= args.deep_view());
            Expression::Call(n.clone(), q)
        },
        Expression::Is(a, t) => Expression::Is(Box::new(clone_expression(a)), t.clone()),
        Expression::Constructor(t, inits) => {
            let mut q: Vec<(String, Expression)> = Vec::new();
            let mut i: usize = 0;
            while i < inits.len()
                invariant
                    i <= inits.len(),
                    q.deep_view() == inits.deep_view().take(i as int),
                decreases inits.len() - i,
            {
                let c = (inits[i].0.clone(), clone_expression(&inits[i].1));
                push_deep(&mut q, c);
                assert(inits.deep_view().take(i + 1) =~= inits.deep_view().take(i as int).push(inits@[i as int].deep_view()));
                i += 1;
            }
            assert(inits.deep_view().take(i as int) =~= inits.deep_view());
            Expression::Constructor(t.clone(), q)
        },
        _ => {
            proof {
                assert(false);
            }
            Expression::ConstNumber(String::new())
        },
    }
}

/// A copy of a list of expressions.
pub fn clone_expressions(v: &Vec<Expression>) -> (r: Vec<Expression>)
    ensures
        r.deep_view() == v.deep_view(),
{
    let mut r: Vec<Expression> = Vec::new();
    let mut i: usize = 0;
    while i < v.len()
        invariant
            i <= v.len(),
            r.deep_view() == v.deep_view().take(i as int),
        decreases v.len() - i,
    {
        let c = clone_expression(&v[i]);
        push_deep(&mut r, c);
        assert(v.deep_view().take(i + 1) =~= v.deep_view().take(i as int).push(v@[i as int]@));
        i += 1;
    }
    assert(v.deep_view().take(i as int) =~= v.deep_view());
    r
}

/// A copy of `s`.
#[verifier::loop_isolation(false)]
pub fn clone_inner_statement(s: &InnerStatement) -> (r: InnerStatement)
    ensures
        r@ == s@,
    decreases s, 0nat,
{
    broadcast use group_ast_views;
    match s {
        InnerStatement::CompilePanic(m, p) => InnerStatement::CompilePanic(m.clone(), *p),
        InnerStatement::Emit(c) => InnerStatement::Emit(c.clone()),
        InnerStatement::Call(n, args) => InnerStatement::Call(n.clone(), clone_expressions(args)),
        InnerStatement::If(c, pass, fail) => InnerStatement::If(
            clone_expression(c),
            clone_inner_statements(pass),
            clone_inner_statements(fail),
        ),
        InnerStatement::Assign(p, v) => InnerStatement::Assign(clone_strings(p), clone_expression(v)),
        InnerStatement::DeclareAssign(f, v) => InnerStatement::DeclareAssign(f.clone(), clone_expression(v)),
        InnerStatement::DeclareConst(f, v) => InnerStatement::DeclareConst(f.clone(), clone_expression(v)),
        InnerStatement::ExternalAssign(n, v) => InnerStatement::ExternalAssign(n.clone(), clone_expression(v)),
        InnerStatement::Return(v) => InnerStatement::Return(clone_expression(v)),
        InnerStatement::Goto(l) => InnerStatement::Goto(l.clone()),
    }
}

/// A copy of a list of statements.
pub fn clone_inner_statements(v: &Vec<InnerStatement>) -> (r: Vec<InnerStatement>)
    ensures
        r.deep_view() == v.deep_view(),
    decreases v, 1nat,
{
    let mut r: Vec<InnerStatement> = Vec::new();
    let mut i: usize = 0;
    while i < v.len()
        invariant
            i <= v.len(),
            r.deep_view() == v.deep_view().take(i as int),
        decreases v.len() - i,
    {
        let c = clone_inner_statement(&v[i]);
        push_deep(&mut r, c);
        assert(v.deep_view().take(i + 1) =~= v.deep_view().take(i as int).push(v@[i as int]@));
        i += 1;
    }
    assert(v.deep_view().take(i as int) =~= v.deep_view());
    r
}

impl Clone for Expression {
    fn clone(&self) -> (r: Self)
        ensures
            r@ == self@,
    {
        clone_expression(self)
    }
}

impl Clone for InnerStatement {
    fn clone(&self) -> (r: Self)
        ensures
            r@ == self@,
    {
        clone_inner_statement(self)
    }
}

impl Clone for OuterStatement {
    fn clone(&self) -> (r: Self)
        ensures
            r@ == self@,
    {
        match self {
            OuterStatement::Line(stmts, label) => OuterStatement::Line(clone_inner_statements(stmts), clone_label(label)),
            OuterStatement::Inner(s) => OuterStatement::Inner(clone_inner_statement(s)),
            OuterStatement::Label(l) => OuterStatement::Label(l.clone()),
        }
    }
}

impl Clone for TypeName {
    fn clone(&self) -> (r: Self)
        ensures
            r@ == self@,
    {
        TypeName { typename: self.typename.clone() }
    }
}

impl Clone for FieldDefinition {
    fn clone(&self) -> (r: Self)
        ensures
            r@ == self@,
    {
        FieldDefinition { name: self.name.clone(), typename: self.typename.clone() }
    }
}

impl Clone for Import {
    fn clone(&self) -> (r: Self)
        ensures
            r@ == self@,
    {
        Import { path: self.path.clone(), namespace: clone_label(&self.namespace) }
    }
}

} // verus!
