//! The syntax tree of the target language, with the mathematical view of
//! each node.

use vstd::prelude::*;

verus! {

/// A program of the target: its lines in their order.
#[derive(Debug, PartialEq, Eq)]
pub struct Program {
    pub lines: Vec<Line>,
}

/// One line of the target, with its label, if any.
#[derive(Debug, PartialEq, Eq)]
pub struct Line {
    pub label: Option<String>,
    pub statements: StatementList,
}

/// Statements that run in their order.
#[derive(Debug, PartialEq, Eq)]
pub struct StatementList {
    pub statements: Vec<Statement>,
}

/// A statement of the target.
#[derive(Debug, PartialEq, Eq)]
pub enum Statement {
    Assignment(Identifier, Expression),
    CompoundAssignment(Identifier, Op, Expression),
    Empty(),
    ExpressionWrapper(Expression),
    Goto(Expression),
    GotoLabel(String),
    If(Expression, Box<StatementList>, Box<StatementList>),
}

/// An expression of the target.
#[derive(Debug, PartialEq, Eq)]
pub enum Expression {
    ConstantNumber(String),
    ConstantString(String),
    VariableAccess(Identifier),
    ACos(Box<Expression>),
    ASin(Box<Expression>),
    ATan(Box<Expression>),
    Sqrt(Box<Expression>),
    Cosine(Box<Expression>),
    Sine(Box<Expression>),
    Tangent(Box<Expression>),
    Brackets(Box<Expression>),
    Abs(Box<Expression>),
    Negate(Box<Expression>),
    Not(Box<Expression>),
    PostDecrement(Identifier),
    PostIncrement(Identifier),
    PreDecrement(Identifier),
    PreIncrement(Identifier),
    Add(Box<Expression>, Box<Expression>),
    And(Box<Expression>, Box<Expression>),
    Divide(Box<Expression>, Box<Expression>),
    EqualTo(Box<Expression>, Box<Expression>),
    Exponent(Box<Expression>, Box<Expression>),
    GreaterThan(Box<Expression>, Box<Expression>),
    GreaterThanEqualTo(Box<Expression>, Box<Expression>),
    LessThan(Box<Expression>, Box<Expression>),
    LessThanEqualTo(Box<Expression>, Box<Expression>),
    Modulo(Box<Expression>, Box<Expression>),
    Multiply(Box<Expression>, Box<Expression>),
    NotEqual(Box<Expression>, Box<Expression>),
    Or(Box<Expression>, Box<Expression>),
    Subtract(Box<Expression>, Box<Expression>),
}

/// The operators of a compound assignment.
#[derive(Debug, Clone, Copy, PartialEq, Eq)]
pub enum Op {
    Add,
    Subtract,
    Multiply,
    Divide,
    Modulo,
    Exponent,
}

/// A variable of the target; an external one is provided by the environment.
#[derive(Debug, PartialEq, Eq)]
pub struct Identifier {
    pub name: String,
    pub external: bool,
}

/// The target's operators with one operand.
#[derive(Debug, Clone, Copy, PartialEq, Eq)]
pub enum UnaryOp {
    ACos,
    ASin,
    ATan,
    Sqrt,
    Cosine,
    Sine,
    Tangent,
    Brackets,
    Abs,
    Negate,
    Not,
}

/// The target's operators with two operands.
#[derive(Debug, Clone, Copy, PartialEq, Eq)]
pub enum BinaryOp {
    Add,
    And,
    Divide,
    EqualTo,
    Exponent,
    GreaterThan,
    GreaterThanEqualTo,
    LessThan,
    LessThanEqualTo,
    Modulo,
    Multiply,
    NotEqual,
    Or,
    Subtract,
}

/// The target's increments and decrements of a variable.
#[derive(Debug, Clone, Copy, PartialEq, Eq)]
pub enum StepOp {
    PostDecrement,
    PostIncrement,
    PreDecrement,
    PreIncrement,
}

/// What a `Identifier` holds, as a mathematical value.
pub struct IdentifierView {
    pub name: Seq<char>,
    pub external: bool,
}

/// What a `Expression` holds, as a mathematical value.
pub enum ExpressionView {
    ConstantNumber(Seq<char>),
    ConstantString(Seq<char>),
    VariableAccess(IdentifierView),
    Unary(UnaryOp, Box<ExpressionView>),
    Step(StepOp, IdentifierView),
    Binary(BinaryOp, Box<ExpressionView>, Box<ExpressionView>),
}

/// What a `Statement` holds, as a mathematical value.
pub enum StatementView {
    Assignment(IdentifierView, ExpressionView),
    CompoundAssignment(IdentifierView, Op, ExpressionView),
    Empty,
    ExpressionWrapper(ExpressionView),
    Goto(ExpressionView),
    GotoLabel(Seq<char>),
    If(ExpressionView, Seq<StatementView>, Seq<StatementView>),
}

/// What a `Line` holds, as a mathematical value.
pub struct LineView {
    pub label: Option<Seq<char>>,
    pub statements: Seq<StatementView>,
}

impl View for Identifier {
    type V = IdentifierView;

    open spec fn view(&self) -> IdentifierView {
        IdentifierView { name: self.name@, external: self.external }
    }
}

impl DeepView for Identifier {
    type V = IdentifierView;

    open spec fn deep_view(&self) -> IdentifierView {
        self@
    }
}

/// What an expression holds.
pub open spec fn expression_view(e: Expression) -> ExpressionView
    decreases e,
{
    match e {
        Expression::ConstantNumber(s) => ExpressionView::ConstantNumber(s@),
        Expression::ConstantString(s) => ExpressionView::ConstantString(s@),
        Expression::VariableAccess(i) => ExpressionView::VariableAccess(i@),
        Expression::ACos(a) => ExpressionView::Unary(UnaryOp::ACos, Box::new(expression_view(*a))),
        Expression::ASin(a) => ExpressionView::Unary(UnaryOp::ASin, Box::new(expression_view(*a))),
        Expression::ATan(a) => ExpressionView::Unary(UnaryOp::ATan, Box::new(expression_view(*a))),
        Expression::Sqrt(a) => ExpressionView::Unary(UnaryOp::Sqrt, Box::new(expression_view(*a))),
        Expression::Cosine(a) => ExpressionView::Unary(UnaryOp::Cosine, Box::new(expression_view(*a))),
        Expression::Sine(a) => ExpressionView::Unary(UnaryOp::Sine, Box::new(expression_view(*a))),
        Expression::Tangent(a) => ExpressionView::Unary(UnaryOp::Tangent, Box::new(expression_view(*a))),
        Expression::Brackets(a) => ExpressionView::Unary(UnaryOp::Brackets, Box::new(expression_view(*a))),
        Expression::Abs(a) => ExpressionView::Unary(UnaryOp::Abs, Box::new(expression_view(*a))),
        Expression::Negate(a) => ExpressionView::Unary(UnaryOp::Negate, Box::new(expression_view(*a))),
        Expression::Not(a) => ExpressionView::Unary(UnaryOp::Not, Box::new(expression_view(*a))),
        Expression::PostDecrement(i) => ExpressionView::Step(StepOp::PostDecrement, i@),
        Expression::PostIncrement(i) => ExpressionView::Step(StepOp::PostIncrement, i@),
        Expression::PreDecrement(i) => ExpressionView::Step(StepOp::PreDecrement, i@),
        Expression::PreIncrement(i) => ExpressionView::Step(StepOp::PreIncrement, i@),
        Expression::Add(a, b) => ExpressionView::Binary(BinaryOp::Add, Box::new(expression_view(*a)), Box::new(expression_view(*b))),
        Expression::And(a, b) => ExpressionView::Binary(BinaryOp::And, Box::new(expression_view(*a)), Box::new(expression_view(*b))),
        Expression::Divide(a, b) => ExpressionView::Binary(BinaryOp::Divide, Box::new(expression_view(*a)), Box::new(expression_view(*b))),
        Expression::EqualTo(a, b) => ExpressionView::Binary(BinaryOp::EqualTo, Box::new(expression_view(*a)), Box::new(expression_view(*b))),
        Expression::Exponent(a, b) => ExpressionView::Binary(BinaryOp::Exponent, Box::new(expression_view(*a)), Box::new(expression_view(*b))),
        Expression::GreaterThan(a, b) => ExpressionView::Binary(BinaryOp::GreaterThan, Box::new(expression_view(*a)), Box::new(expression_view(*b))),
        Expression::GreaterThanEqualTo(a, b) => ExpressionView::Binary(BinaryOp::GreaterThanEqualTo, Box::new(expression_view(*a)), Box::new(expression_view(*b))),
        Expression::LessThan(a, b) => ExpressionView::Binary(BinaryOp::LessThan, Box::new(expression_view(*a)), Box::new(expression_view(*b))),
        Expression::LessThanEqualTo(a, b) => ExpressionView::Binary(BinaryOp::LessThanEqualTo, Box::new(expression_view(*a)), Box::new(expression_view(*b))),
        Expression::Modulo(a, b) => ExpressionView::Binary(BinaryOp::Modulo, Box::new(expression_view(*a)), Box::new(expression_view(*b))),
        Expression::Multiply(a, b) => ExpressionView::Binary(BinaryOp::Multiply, Box::new(expression_view(*a)), Box::new(expression_view(*b))),
        Expression::NotEqual(a, b) => ExpressionView::Binary(BinaryOp::NotEqual, Box::new(expression_view(*a)), Box::new(expression_view(*b))),
        Expression::Or(a, b) => ExpressionView::Binary(BinaryOp::Or, Box::new(expression_view(*a)), Box::new(expression_view(*b))),
        Expression::Subtract(a, b) => ExpressionView::Binary(BinaryOp::Subtract, Box::new(expression_view(*a)), Box::new(expression_view(*b))),
    }
}

impl View for Expression {
    type V = ExpressionView;

    open spec fn view(&self) -> ExpressionView {
        expression_view(*self)
    }
}

impl DeepView for Expression {
    type V = ExpressionView;

    open spec fn deep_view(&self) -> ExpressionView {
        expression_view(*self)
    }
}

/// What a statement holds.
pub open spec fn statement_view(s: Statement) -> StatementView
    decreases s, 0nat,
{
    match s {
        Statement::Assignment(i, e) => StatementView::Assignment(i@, e@),
        Statement::CompoundAssignment(i, op, e) => StatementView::CompoundAssignment(i@, op, e@),
        Statement::Empty() => StatementView::Empty,
        Statement::ExpressionWrapper(e) => StatementView::ExpressionWrapper(e@),
        Statement::Goto(e) => StatementView::Goto(e@),
        Statement::GotoLabel(l) => StatementView::GotoLabel(l@),
        Statement::If(c, pass, fail) => StatementView::If(c@, statements_view(pass.statements@), statements_view(fail.statements@)),
    }
}

/// What each statement of a list holds.
pub open spec fn statements_view(ss: Seq<Statement>) -> Seq<StatementView>
    decreases ss, 1nat,
{
    Seq::new(ss.len(), |i: int| if 0 <= i < ss.len() { statement_view(ss[i]) } else { arbitrary() })
}

impl View for Statement {
    type V = StatementView;

    open spec fn view(&self) -> StatementView {
        statement_view(*self)
    }
}

impl DeepView for Statement {
    type V = StatementView;

    open spec fn deep_view(&self) -> StatementView {
        statement_view(*self)
    }
}

impl View for StatementList {
    type V = Seq<StatementView>;

    open spec fn view(&self) -> Seq<StatementView> {
        self.statements.deep_view()
    }
}

impl DeepView for StatementList {
    type V = Seq<StatementView>;

    open spec fn deep_view(&self) -> Seq<StatementView> {
        self@
    }
}

impl View for Line {
    type V = LineView;

    open spec fn view(&self) -> LineView {
        LineView { label: self.label.deep_view(), statements: self.statements@ }
    }
}

impl DeepView for Line {
    type V = LineView;

    open spec fn deep_view(&self) -> LineView {
        self@
    }
}

impl View for Program {
    type V = Seq<LineView>;

    open spec fn view(&self) -> Seq<LineView> {
        self.lines.deep_view()
    }
}

impl DeepView for Program {
    type V = Seq<LineView>;

    open spec fn deep_view(&self) -> Seq<LineView> {
        self@
    }
}

/// The view of a conditional lists the views of the statements of both branches.
pub broadcast proof fn lemma_if_view(c: Expression, pass: Box<StatementList>, fail: Box<StatementList>)
    ensures
        #[trigger] statement_view(Statement::If(c, pass, fail)) == StatementView::If(c@, pass@, fail@),
{
    assert(statements_view(pass.statements@) =~= pass.statements.deep_view());
    assert(statements_view(fail.statements@) =~= fail.statements.deep_view());
}

impl Expression {
    /// The operator and operand, where this is an operator with one operand.
    pub fn as_unary(&self) -> (r: Option<(UnaryOp, &Expression)>)
        ensures
            match r {
                Some((op, a)) => self@ == ExpressionView::Unary(op, Box::new(a@)) && decreases_to!(self => a),
                None => !(self@ is Unary),
            },
    {
        match self {
            Expression::ACos(a) => Some((UnaryOp::ACos, &**a)),
            Expression::ASin(a) => Some((UnaryOp::ASin, &**a)),
            Expression::ATan(a) => Some((UnaryOp::ATan, &**a)),
            Expression::Sqrt(a) => Some((UnaryOp::Sqrt, &**a)),
            Expression::Cosine(a) => Some((UnaryOp::Cosine, &**a)),
            Expression::Sine(a) => Some((UnaryOp::Sine, &**a)),
            Expression::Tangent(a) => Some((UnaryOp::Tangent, &**a)),
            Expression::Brackets(a) => Some((UnaryOp::Brackets, &**a)),
            Expression::Abs(a) => Some((UnaryOp::Abs, &**a)),
            Expression::Negate(a) => Some((UnaryOp::Negate, &**a)),
            Expression::Not(a) => Some((UnaryOp::Not, &**a)),
            _ => None,
        }
    }

    /// The operator and operands, where this is an operator with two operands.
    pub fn as_binary(&self) -> (r: Option<(BinaryOp, &Expression, &Expression)>)
        ensures
            match r {
                Some((op, a, b)) => self@ == ExpressionView::Binary(op, Box::new(a@), Box::new(b@))
                    && decreases_to!(self => a) && decreases_to!(self => b),
                None => !(self@ is Binary),
            },
    {
        match self {
            Expression::Add(a, b) => Some((BinaryOp::Add, &**a, &**b)),
            Expression::And(a, b) => Some((BinaryOp::And, &**a, &**b)),
            Expression::Divide(a, b) => Some((BinaryOp::Divide, &**a, &**b)),
            Expression::EqualTo(a, b) => Some((BinaryOp::EqualTo, &**a, &**b)),
            Expression::Exponent(a, b) => Some((BinaryOp::Exponent, &**a, &**b)),
            Expression::GreaterThan(a, b) => Some((BinaryOp::GreaterThan, &**a, &**b)),
            Expression::GreaterThanEqualTo(a, b) => Some((BinaryOp::GreaterThanEqualTo, &**a, &**b)),
            Expression::LessThan(a, b) => Some((BinaryOp::LessThan, &**a, &**b)),
            Expression::LessThanEqualTo(a, b) => Some((BinaryOp::LessThanEqualTo, &**a, &**b)),
            Expression::Modulo(a, b) => Some((BinaryOp::Modulo, &**a, &**b)),
            Expression::Multiply(a, b) => Some((BinaryOp::Multiply, &**a, &**b)),
            Expression::NotEqual(a, b) => Some((BinaryOp::NotEqual, &**a, &**b)),
            Expression::Or(a, b) => Some((BinaryOp::Or, &**a, &**b)),
            Expression::Subtract(a, b) => Some((BinaryOp::Subtract, &**a, &**b)),
            _ => None,
        }
    }

    /// The expression that applies `op` to `a`.
    pub fn unary(op: UnaryOp, a: Expression) -> (r: Expression)
        ensures
            r@ == ExpressionView::Unary(op, Box::new(a@)),
    {
        match op {
            UnaryOp::ACos => Expression::ACos(Box::new(a)),
            UnaryOp::ASin => Expression::ASin(Box::new(a)),
            UnaryOp::ATan => Expression::ATan(Box::new(a)),
            UnaryOp::Sqrt => Expression::Sqrt(Box::new(a)),
            UnaryOp::Cosine => Expression::Cosine(Box::new(a)),
            UnaryOp::Sine => Expression::Sine(Box::new(a)),
            UnaryOp::Tangent => Expression::Tangent(Box::new(a)),
            UnaryOp::Brackets => Expression::Brackets(Box::new(a)),
            UnaryOp::Abs => Expression::Abs(Box::new(a)),
            UnaryOp::Negate => Expression::Negate(Box::new(a)),
            UnaryOp::Not => Expression::Not(Box::new(a)),
        }
    }

    /// The expression that applies `op` to `a` and `b`.
    pub fn binary(op: BinaryOp, a: Expression, b: Expression) -> (r: Expression)
        ensures
            r@ == ExpressionView::Binary(op, Box::new(a@), Box::new(b@)),
    {
        match op {
            BinaryOp::Add => Expression::Add(Box::new(a), Box::new(b)),
            BinaryOp::And => Expression::And(Box::new(a), Box::new(b)),
            BinaryOp::Divide => Expression::Divide(Box::new(a), Box::new(b)),
            BinaryOp::EqualTo => Expression::EqualTo(Box::new(a), Box::new(b)),
            BinaryOp::Exponent => Expression::Exponent(Box::new(a), Box::new(b)),
            BinaryOp::GreaterThan => Expression::GreaterThan(Box::new(a), Box::new(b)),
            BinaryOp::GreaterThanEqualTo => Expression::GreaterThanEqualTo(Box::new(a), Box::new(b)),
            BinaryOp::LessThan => Expression::LessThan(Box::new(a), Box::new(b)),
            BinaryOp::LessThanEqualTo => Expression::LessThanEqualTo(Box::new(a), Box::new(b)),
            BinaryOp::Modulo => Expression::Modulo(Box::new(a), Box::new(b)),
            BinaryOp::Multiply => Expression::Multiply(Box::new(a), Box::new(b)),
            BinaryOp::NotEqual => Expression::NotEqual(Box::new(a), Box::new(b)),
            BinaryOp::Or => Expression::Or(Box::new(a), Box::new(b)),
            BinaryOp::Subtract => Expression::Subtract(Box::new(a), Box::new(b)),
        }
    }

    /// The expression that applies `op` to the variable `i`.
    pub fn step(op: StepOp, i: Identifier) -> (r: Expression)
        ensures
            r@ == ExpressionView::Step(op, i@),
    {
        match op {
            StepOp::PostDecrement => Expression::PostDecrement(i),
            StepOp::PostIncrement => Expression::PostIncrement(i),
            StepOp::PreDecrement => Expression::PreDecrement(i),
            StepOp::PreIncrement => Expression::PreIncrement(i),
        }
    }
}

impl Statement {
    /// The conditional with the given condition and branches.
    pub fn conditional(c: Expression, pass: Vec<Statement>, fail: Vec<Statement>) -> (r: Statement)
        ensures
            r@ == StatementView::If(c@, pass.deep_view(), fail.deep_view()),
    {
        broadcast use lemma_if_view;
        Statement::If(c, Box::new(StatementList { statements: pass }), Box::new(StatementList { statements: fail }))
    }
}

} // verus!
