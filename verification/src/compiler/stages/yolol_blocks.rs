//! The last stage: blocks of source statements become blocks of target
//! statements, one for one and in the same order.

use vstd::prelude::*;
use yolol_number::prelude::{One, YololNumber, Zero};
use crate::compiler::environment::{ConstantTable, TypeEnvironment, TableView};
use crate::compiler::declarations::{
    declare_all, declare_in, declared_entries, lemma_declare_all, lemma_declare_all_split,
};
use crate::compiler::fields::{canonical_name, canonicalise_field_path};
use crate::compiler::stages::initial_blocks::{Block, BlockView, InitialStatementBlocks, InitialStatementBlocksView};
use crate::compiler::stages::statements::{
    block_statements, inner_of, program_statements, stray_marker, stray_marker_text,
};
use crate::compiler::typecheck::{
    check_assignment, infer_expr_type, infer_type, named_type, type_check_assignment, Type, TypeView,
};
use crate::error::{result_view, CompilerError, CompilerErrorView};
use crate::grammar::ast::{
    group_ast_views, BinaryOp, Expression, ExpressionView, InnerStatement, InnerStatementView, OuterStatement,
    OuterStatementView, StepOp, TypeName, UnaryOp,
};
use crate::views::{
    clone_label, clone_strings, empty_deep, enclose, lemma_prepend_done, lemma_prepend_empty, lemma_prepend_twice,
    lemma_skip_all, lemma_skip_step, prepend, push_deep, append_deep,
};
use crate::yolol;

verus! {

/// A block of target statements, with the label of the source block.
#[derive(Debug, PartialEq, Eq)]
pub enum YololBlock {
    /// Statements that run in the given order.
    Statements(Option<String>, Vec<yolol::ast::Statement>),
    /// Statements that must stand on one physical line of the output.
    Line(Option<String>, Vec<yolol::ast::Statement>),
}

/// The lowered program: its blocks, the type of every declared field and
/// the translated expression of every declared constant.
#[derive(Debug, PartialEq, Eq)]
pub struct YololStatementBlocks {
    pub blocks: Vec<YololBlock>,
    pub types: TypeEnvironment,
    pub consts: ConstantTable,
}

/// The two tables that the translation fills, handed from statement to
/// statement by value.
#[derive(Debug, PartialEq, Eq)]
pub struct LoweringTables {
    pub types: TypeEnvironment,
    pub consts: ConstantTable,
}

/// What a `YololBlock` holds, as a mathematical value.
pub enum YololBlockView {
    Statements(Option<Seq<char>>, Seq<yolol::ast::StatementView>),
    Line(Option<Seq<char>>, Seq<yolol::ast::StatementView>),
}

/// What a `YololStatementBlocks` holds, as a mathematical value.
pub struct YololStatementBlocksView {
    pub blocks: Seq<YololBlockView>,
    pub types: TableView<TypeView>,
    pub consts: TableView<yolol::ast::ExpressionView>,
}

/// What a `LoweringTables` holds, as a mathematical value.
pub struct LoweringTablesView {
    pub types: TableView<TypeView>,
    pub consts: TableView<yolol::ast::ExpressionView>,
}

impl View for YololBlock {
    type V = YololBlockView;

    open spec fn view(&self) -> YololBlockView {
        match self {
            YololBlock::Statements(label, stmts) => YololBlockView::Statements(label.deep_view(), stmts.deep_view()),
            YololBlock::Line(label, stmts) => YololBlockView::Line(label.deep_view(), stmts.deep_view()),
        }
    }
}

impl DeepView for YololBlock {
    type V = YololBlockView;

    open spec fn deep_view(&self) -> YololBlockView {
        self@
    }
}

impl View for YololStatementBlocks {
    type V = YololStatementBlocksView;

    open spec fn view(&self) -> YololStatementBlocksView {
        YololStatementBlocksView { blocks: self.blocks.deep_view(), types: self.types@, consts: self.consts@ }
    }
}

impl DeepView for YololStatementBlocks {
    type V = YololStatementBlocksView;

    open spec fn deep_view(&self) -> YololStatementBlocksView {
        self@
    }
}

impl View for LoweringTables {
    type V = LoweringTablesView;

    open spec fn view(&self) -> LoweringTablesView {
        LoweringTablesView { types: self.types@, consts: self.consts@ }
    }
}

impl DeepView for LoweringTables {
    type V = LoweringTablesView;

    open spec fn deep_view(&self) -> LoweringTablesView {
        self@
    }
}

/// The target's operator for a source operator with one operand.
pub open spec fn target_unary(op: UnaryOp) -> yolol::ast::UnaryOp {
    match op {
        UnaryOp::Negate => yolol::ast::UnaryOp::Negate,
        UnaryOp::Not => yolol::ast::UnaryOp::Not,
        UnaryOp::Bracket => yolol::ast::UnaryOp::Brackets,
    }
}

/// The target's operator for a source operator with two operands.
pub open spec fn target_binary(op: BinaryOp) -> yolol::ast::BinaryOp {
    match op {
        BinaryOp::Add => yolol::ast::BinaryOp::Add,
        BinaryOp::Subtract => yolol::ast::BinaryOp::Subtract,
        BinaryOp::Multiply => yolol::ast::BinaryOp::Multiply,
        BinaryOp::Divide => yolol::ast::BinaryOp::Divide,
        BinaryOp::Modulus => yolol::ast::BinaryOp::Modulo,
        BinaryOp::Exponent => yolol::ast::BinaryOp::Exponent,
        BinaryOp::And => yolol::ast::BinaryOp::And,
        BinaryOp::Or => yolol::ast::BinaryOp::Or,
        BinaryOp::GreaterThan => yolol::ast::BinaryOp::GreaterThan,
        BinaryOp::LessThan => yolol::ast::BinaryOp::LessThan,
        BinaryOp::GreaterThanOrEq => yolol::ast::BinaryOp::GreaterThanEqualTo,
        BinaryOp::LessThanOrEq => yolol::ast::BinaryOp::LessThanEqualTo,
        BinaryOp::Equals => yolol::ast::BinaryOp::EqualTo,
        BinaryOp::NotEquals => yolol::ast::BinaryOp::NotEqual,
    }
}

/// The target's operator for a source increment or decrement.
pub open spec fn target_step(op: StepOp) -> yolol::ast::StepOp {
    match op {
        StepOp::PostIncrement => yolol::ast::StepOp::PostIncrement,
        StepOp::PostDecrement => yolol::ast::StepOp::PostDecrement,
        StepOp::PreIncrement => yolol::ast::StepOp::PreIncrement,
        StepOp::PreDecrement => yolol::ast::StepOp::PreDecrement,
    }
}

/// The message for a call that reaches the translation.
pub open spec fn call_unsupported_text(name: Seq<char>) -> Seq<char> {
    "Find Call `"@ + name + "`"@
}

/// The message for target code that the program asks to emit as it stands.
pub open spec fn emit_unsupported_text(code: Seq<char>) -> Seq<char> {
    "Direct emit yolol code: `"@ + code + "`"@
}

/// The name of the variable through which a jump to `label` goes. The stage
/// that lays out the lines gives that variable the label's line.
pub open spec fn goto_variable(label: Seq<char>) -> Seq<char> {
    "goto_layout_label_"@ + label
}

/// A local variable of the target.
pub open spec fn local(name: Seq<char>) -> yolol::ast::IdentifierView {
    yolol::ast::IdentifierView { name, external: false }
}

/// A variable that the target's environment provides.
pub open spec fn external(name: Seq<char>) -> yolol::ast::IdentifierView {
    yolol::ast::IdentifierView { name, external: true }
}

/// The target expression for a source expression, where `env` types the
/// declared fields. A type test becomes the constant 1 or 0 that the static
/// compatibility check gives; a call, a constructor and an explicit panic
/// end the translation.
pub open spec fn lower_expression(e: ExpressionView, env: TableView<TypeView>) -> Result<
    yolol::ast::ExpressionView,
    CompilerErrorView,
>
    decreases e,
{
    match e {
        ExpressionView::CompilePanic(message, position) => Err(
            CompilerErrorView::ExplicitPanic(message, position),
        ),
        ExpressionView::ConstNumber(x) => Ok(yolol::ast::ExpressionView::ConstantNumber(x)),
        ExpressionView::ConstString(x) => Ok(yolol::ast::ExpressionView::ConstantString(x)),
        ExpressionView::FieldAccess(path) => Ok(yolol::ast::ExpressionView::VariableAccess(local(canonical_name(path)))),
        ExpressionView::ExternalFieldAccess(name) => Ok(yolol::ast::ExpressionView::VariableAccess(external(name))),
        ExpressionView::Unary(op, a) => match lower_expression(*a, env) {
            Ok(x) => Ok(yolol::ast::ExpressionView::Unary(target_unary(op), Box::new(x))),
            Err(err) => Err(err),
        },
        ExpressionView::Binary(op, a, b) => match lower_expression(*a, env) {
            Ok(x) => match lower_expression(*b, env) {
                Ok(y) => Ok(yolol::ast::ExpressionView::Binary(target_binary(op), Box::new(x), Box::new(y))),
                Err(err) => Err(err),
            },
            Err(err) => Err(err),
        },
        ExpressionView::Call(name, _) => Err(CompilerErrorView::CompilerStageNotImplemented(call_unsupported_text(name))),
        ExpressionView::Is(a, typename) => match infer_type(*a, env) {
            Ok(t) => Ok(
                yolol::ast::ExpressionView::ConstantNumber(
                    if check_assignment(named_type(typename), t) is Ok {
                        "1"@
                    } else {
                        "0"@
                    },
                ),
            ),
            Err(err) => Err(err),
        },
        ExpressionView::Step(op, name) => Ok(yolol::ast::ExpressionView::Step(target_step(op), local(name))),
        ExpressionView::Constructor(_, _) => Err(CompilerErrorView::ConstructorExpression),
    }
}

/// Whether a target expression is a constant: it is built from literals
/// and operators alone, and reads and changes no variable.
pub open spec fn is_constant(x: yolol::ast::ExpressionView) -> bool
    decreases x,
{
    match x {
        yolol::ast::ExpressionView::ConstantNumber(_) => true,
        yolol::ast::ExpressionView::ConstantString(_) => true,
        yolol::ast::ExpressionView::Unary(_, a) => is_constant(*a),
        yolol::ast::ExpressionView::Binary(_, a, b) => is_constant(*a) && is_constant(*b),
        yolol::ast::ExpressionView::VariableAccess(_) => false,
        yolol::ast::ExpressionView::Step(_, _) => false,
    }
}

/// The outcome of declaring the field `name` with the type name `typename`
/// and the initial value `value`: the new type environment and the
/// translated value. The name must be new and the value's type must fit.
pub open spec fn lower_declaration(
    name: Seq<char>,
    typename: Seq<char>,
    value: ExpressionView,
    env: TableView<TypeView>,
) -> Result<(TableView<TypeView>, yolol::ast::ExpressionView), CompilerErrorView> {
    if env.contains_key(name) {
        Err(CompilerErrorView::DuplicateFieldDeclaration(name))
    } else {
        match infer_type(value, env) {
            Err(err) => Err(err),
            Ok(t) => match check_assignment(TypeView::Other(typename), t) {
                Err(err) => Err(err),
                Ok(_) => match lower_expression(value, env.insert(name, named_type(typename))) {
                    Err(err) => Err(err),
                    Ok(x) => Ok((env.insert(name, named_type(typename)), x)),
                },
            },
        }
    }
}

/// The target statements for one source statement and the tables after it.
pub open spec fn lower_statement(s: InnerStatementView, tables: LoweringTablesView) -> Result<
    (Seq<yolol::ast::StatementView>, LoweringTablesView),
    CompilerErrorView,
>
    decreases s,
{
    match s {
        InnerStatementView::CompilePanic(message, position) => Err(
            CompilerErrorView::ExplicitPanic(message, position),
        ),
        InnerStatementView::Emit(code) => Err(CompilerErrorView::CompilerStageNotImplemented(emit_unsupported_text(code))),
        InnerStatementView::Call(name, _) => Err(
            CompilerErrorView::CompilerStageNotImplemented(call_unsupported_text(name)),
        ),
        InnerStatementView::If(condition, pass, fail) => match lower_expression(condition, tables.types) {
            Err(err) => Err(err),
            Ok(c) => match lower_statements(pass, tables) {
                Err(err) => Err(err),
                Ok((p, after_pass)) => match lower_statements(fail, after_pass) {
                    Err(err) => Err(err),
                    Ok((f, after_fail)) => Ok((seq![yolol::ast::StatementView::If(c, p, f)], after_fail)),
                },
            },
        },
        InnerStatementView::Assign(path, value) => if !tables.types.contains_key(canonical_name(path)) {
            Err(CompilerErrorView::AssigningUndeclaredField(path))
        } else {
            match infer_type(value, tables.types) {
                Err(err) => Err(err),
                Ok(t) => match check_assignment(tables.types[canonical_name(path)], t) {
                    Err(err) => Err(err),
                    Ok(_) => match lower_expression(value, tables.types) {
                        Err(err) => Err(err),
                        Ok(x) => Ok(
                            (seq![yolol::ast::StatementView::Assignment(local(canonical_name(path)), x)], tables),
                        ),
                    },
                },
            }
        },
        InnerStatementView::DeclareAssign(field, value) => match lower_declaration(
            field.name,
            field.typename,
            value,
            tables.types,
        ) {
            Err(err) => Err(err),
            Ok((types, x)) => Ok(
                (
                    seq![yolol::ast::StatementView::Assignment(local(field.name), x)],
                    LoweringTablesView { types, consts: tables.consts },
                ),
            ),
        },
        InnerStatementView::DeclareConst(field, value) => match lower_declaration(
            field.name,
            field.typename,
            value,
            tables.types,
        ) {
            Err(err) => Err(err),
            Ok((types, x)) => if is_constant(x) {
                Ok((Seq::empty(), LoweringTablesView { types, consts: tables.consts.insert(field.name, x) }))
            } else {
                Err(CompilerErrorView::NonConstantValue(field.name, value))
            },
        },
        InnerStatementView::ExternalAssign(name, value) => match lower_expression(value, tables.types) {
            Err(err) => Err(err),
            Ok(x) => Ok((seq![yolol::ast::StatementView::Assignment(external(name), x)], tables)),
        },
        InnerStatementView::Return(_) => Err(
            CompilerErrorView::CompilerStageNotImplemented("`return` statements are not implemented"@),
        ),
        InnerStatementView::Goto(label) => Ok(
            (
                seq![
                    yolol::ast::StatementView::Goto(yolol::ast::ExpressionView::VariableAccess(local(goto_variable(label)))),
                ],
                tables,
            ),
        ),
    }
}

/// The target statements for a run of source statements, in their order,
/// and the tables after the last. The first error ends the run.
pub open spec fn lower_statements(ss: Seq<InnerStatementView>, tables: LoweringTablesView) -> Result<
    (Seq<yolol::ast::StatementView>, LoweringTablesView),
    CompilerErrorView,
>
    decreases ss,
{
    if ss.len() == 0 {
        Ok((Seq::empty(), tables))
    } else {
        match lower_statement(ss[0], tables) {
            Err(err) => Err(err),
            Ok((produced, next)) => prepend(produced, lower_statements(ss.drop_first(), next)),
        }
    }
}

/// The target statements for the statements of a block. The first stage
/// leaves no label and no line group among them: one that is met is an
/// internal error.
pub open spec fn lower_outer_statements(ss: Seq<OuterStatementView>, tables: LoweringTablesView) -> Result<
    (Seq<yolol::ast::StatementView>, LoweringTablesView),
    CompilerErrorView,
>
    decreases ss.len(),
{
    if ss.len() == 0 {
        Ok((Seq::empty(), tables))
    } else {
        match ss[0] {
            OuterStatementView::Inner(s) => match lower_statement(s, tables) {
                Err(err) => Err(err),
                Ok((produced, next)) => prepend(produced, lower_outer_statements(ss.drop_first(), next)),
            },
            _ => Err(CompilerErrorView::Internal(stray_marker_text(ss[0]))),
        }
    }
}

/// The target block for a source block: same kind, same label.
pub open spec fn lower_block(b: BlockView, tables: LoweringTablesView) -> Result<
    (YololBlockView, LoweringTablesView),
    CompilerErrorView,
> {
    match b {
        BlockView::Statements(label, stmts) => match lower_outer_statements(stmts, tables) {
            Err(err) => Err(err),
            Ok((produced, next)) => Ok((YololBlockView::Statements(label, produced), next)),
        },
        BlockView::Line(label, stmts) => match lower_statements(stmts, tables) {
            Err(err) => Err(err),
            Ok((produced, next)) => Ok((YololBlockView::Line(label, produced), next)),
        },
    }
}

/// The target blocks for a sequence of source blocks, one for one.
pub open spec fn lower_blocks(bs: Seq<BlockView>, tables: LoweringTablesView) -> Result<
    (Seq<YololBlockView>, LoweringTablesView),
    CompilerErrorView,
>
    decreases bs.len(),
{
    if bs.len() == 0 {
        Ok((Seq::empty(), tables))
    } else {
        match lower_block(bs[0], tables) {
            Err(err) => Err(err),
            Ok((block, next)) => prepend(seq![block], lower_blocks(bs.drop_first(), next)),
        }
    }
}

/// The tables before the first statement.
pub open spec fn empty_tables() -> LoweringTablesView {
    LoweringTablesView { types: TableView::empty(), consts: TableView::empty() }
}

/// The outcome of the last stage on the blocks of a program.
pub open spec fn convert_blocks_spec(blocks: InitialStatementBlocksView) -> Result<
    YololStatementBlocksView,
    CompilerErrorView,
> {
    match lower_blocks(blocks.blocks, empty_tables()) {
        Err(err) => Err(err),
        Ok((produced, tables)) => Ok(
            YololStatementBlocksView { blocks: produced, types: tables.types, consts: tables.consts },
        ),
    }
}

/// Whether a target block is of the kind and bears the label of a source block.
pub open spec fn translates_shape(a: BlockView, b: YololBlockView) -> bool {
    match (a, b) {
        (BlockView::Statements(l, _), YololBlockView::Statements(m, _)) => l == m,
        (BlockView::Line(l, _), YololBlockView::Line(m, _)) => l == m,
        _ => false,
    }
}

/// The target has one block for each block of the source, in the same
/// order, of the same kind and with the same label.
pub proof fn lemma_blocks_translate_one_for_one(bs: Seq<BlockView>, tables: LoweringTablesView)
    requires
        lower_blocks(bs, tables) is Ok,
    ensures
        lower_blocks(bs, tables)->Ok_0.0.len() == bs.len(),
        forall|i: int| 0 <= i < bs.len() ==> translates_shape(#[trigger] bs[i], lower_blocks(bs, tables)->Ok_0.0[i]),
    decreases bs.len(),
{
    if bs.len() > 0 {
        let step = lower_block(bs[0], tables)->Ok_0;
        lemma_blocks_translate_one_for_one(bs.drop_first(), step.1);
        let rest = lower_blocks(bs.drop_first(), step.1)->Ok_0.0;
        let out = lower_blocks(bs, tables)->Ok_0.0;
        assert(out =~= seq![step.0] + rest);
        assert forall|i: int| 0 <= i < bs.len() implies translates_shape(#[trigger] bs[i], out[i]) by {
            if i > 0 {
                assert(bs.drop_first()[i - 1] == bs[i]);
                assert(out[i] == rest[i - 1]);
            }
        }
    }
}

/// Translating a statement changes the type environment as the
/// declarations of the statement do, and in no other way.
pub proof fn lemma_lowering_declares_in(s: InnerStatementView, tables: LoweringTablesView)
    requires
        lower_statement(s, tables) is Ok,
    ensures
        declare_in(s, tables.types) == Ok::<TableView<TypeView>, CompilerErrorView>(
            lower_statement(s, tables)->Ok_0.1.types,
        ),
    decreases s, 0nat,
{
    match s {
        InnerStatementView::If(condition, pass, fail) => {
            lemma_lowering_declares(pass, tables);
            lemma_lowering_declares(fail, lower_statements(pass, tables)->Ok_0.1);
        },
        _ => {},
    }
}

/// Translating a run of statements changes the type environment as the
/// declarations of the run do.
pub proof fn lemma_lowering_declares(ss: Seq<InnerStatementView>, tables: LoweringTablesView)
    requires
        lower_statements(ss, tables) is Ok,
    ensures
        declare_all(ss, tables.types) == Ok::<TableView<TypeView>, CompilerErrorView>(
            lower_statements(ss, tables)->Ok_0.1.types,
        ),
    decreases ss, 1nat,
{
    if ss.len() > 0 {
        lemma_lowering_declares_in(ss[0], tables);
        lemma_lowering_declares(ss.drop_first(), lower_statement(ss[0], tables)->Ok_0.1);
    }
}

/// Translating the statements of a block changes the type environment as
/// their declarations do.
pub proof fn lemma_outer_lowering_declares(ss: Seq<OuterStatementView>, tables: LoweringTablesView)
    requires
        lower_outer_statements(ss, tables) is Ok,
    ensures
        declare_all(inner_of(ss), tables.types) == Ok::<TableView<TypeView>, CompilerErrorView>(
            lower_outer_statements(ss, tables)->Ok_0.1.types,
        ),
    decreases ss.len(),
{
    if ss.len() > 0 {
        let s = ss[0]->Inner_0;
        lemma_lowering_declares_in(s, tables);
        lemma_outer_lowering_declares(ss.drop_first(), lower_statement(s, tables)->Ok_0.1);
        assert(inner_of(ss)[0] == s);
        assert(inner_of(ss).drop_first() =~= inner_of(ss.drop_first()));
    } else {
        assert(inner_of(ss).len() == 0);
    }
}

/// Translating blocks changes the type environment as the declarations
/// of all their statements do, block after block.
pub proof fn lemma_blocks_lowering_declares(bs: Seq<BlockView>, tables: LoweringTablesView)
    requires
        lower_blocks(bs, tables) is Ok,
    ensures
        declare_all(program_statements(bs), tables.types) == Ok::<TableView<TypeView>, CompilerErrorView>(
            lower_blocks(bs, tables)->Ok_0.1.types,
        ),
    decreases bs.len(),
{
    if bs.len() > 0 {
        match bs[0] {
            BlockView::Statements(label, stmts) => {
                lemma_outer_lowering_declares(stmts, tables);
            },
            BlockView::Line(label, stmts) => {
                lemma_lowering_declares(stmts, tables);
            },
        }
        let next = lower_block(bs[0], tables)->Ok_0.1;
        lemma_blocks_lowering_declares(bs.drop_first(), next);
        lemma_declare_all_split(block_statements(bs[0]), program_statements(bs.drop_first()), tables.types);
    }
}

/// After a run that succeeds, the type table holds exactly one entry for
/// each declaration of the program, in the order of the statements over
/// all blocks, each with the canonical form of its declared type; and no
/// name stands in it twice, so every declaration named a name that no
/// statement before it had declared.
pub proof fn lemma_type_table_after_lowering(blocks: InitialStatementBlocksView)
    requires
        convert_blocks_spec(blocks) is Ok,
    ensures
        convert_blocks_spec(blocks)->Ok_0.types.entries == declared_entries(
            program_statements(blocks.blocks),
            Seq::empty(),
        ),
        convert_blocks_spec(blocks)->Ok_0.types.names().no_duplicates(),
{
    lemma_blocks_lowering_declares(blocks.blocks, empty_tables());
    lemma_declare_all(program_statements(blocks.blocks), TableView::empty());
    assert(TableView::<TypeView>::empty().names() =~= Seq::<Seq<char>>::empty());
}

/// An assignment that is accepted writes to a field that is declared.
pub proof fn lemma_assignment_needs_declaration(
    path: Seq<Seq<char>>,
    value: ExpressionView,
    tables: LoweringTablesView,
)
    requires
        lower_statement(InnerStatementView::Assign(path, value), tables) is Ok,
    ensures
        tables.types.contains_key(canonical_name(path)),
{
}

/// A declaration of a name that is already declared is refused.
pub proof fn lemma_redeclaration_refused(
    field: crate::grammar::ast::FieldDefinitionView,
    value: ExpressionView,
    tables: LoweringTablesView,
)
    requires
        tables.types.contains_key(field.name),
    ensures
        lower_statement(InnerStatementView::DeclareAssign(field, value), tables) == Err::<
            (Seq<yolol::ast::StatementView>, LoweringTablesView),
            CompilerErrorView,
        >(CompilerErrorView::DuplicateFieldDeclaration(field.name)),
        lower_statement(InnerStatementView::DeclareConst(field, value), tables) == Err::<
            (Seq<yolol::ast::StatementView>, LoweringTablesView),
            CompilerErrorView,
        >(CompilerErrorView::DuplicateFieldDeclaration(field.name)),
{
}

/// Behind a declaration that is accepted, a second declaration of the same
/// name is a duplicate, whatever its type and value.
pub proof fn lemma_declared_twice(
    field: crate::grammar::ast::FieldDefinitionView,
    value: ExpressionView,
    again: crate::grammar::ast::FieldDefinitionView,
    second_value: ExpressionView,
    tables: LoweringTablesView,
)
    requires
        again.name == field.name,
        lower_statement(InnerStatementView::DeclareAssign(field, value), tables) is Ok,
    ensures
        lower_statement(
            InnerStatementView::DeclareAssign(again, second_value),
            lower_statement(InnerStatementView::DeclareAssign(field, value), tables)->Ok_0.1,
        ) == Err::<(Seq<yolol::ast::StatementView>, LoweringTablesView), CompilerErrorView>(
            CompilerErrorView::DuplicateFieldDeclaration(field.name),
        ),
{
}

/// An assignment to a field that was never declared is refused.
pub proof fn lemma_undeclared_assignment_refused(
    path: Seq<Seq<char>>,
    value: ExpressionView,
    tables: LoweringTablesView,
)
    requires
        !tables.types.contains_key(canonical_name(path)),
    ensures
        lower_statement(InnerStatementView::Assign(path, value), tables) == Err::<
            (Seq<yolol::ast::StatementView>, LoweringTablesView),
            CompilerErrorView,
        >(CompilerErrorView::AssigningUndeclaredField(path)),
{
}

/// The text of the target's number one: `YololNumber::one()` of
/// `yolol_number`, printed by its `Display`. One is the inner value 1000 at
/// three decimal places, which prints as the digit 1 with no fraction.
#[verifier::external_body]
fn truthy_number() -> (s: String)
    ensures
        s@ == "1"@,
{
    YololNumber::one().to_string()
}

/// The text of the target's number zero: `YololNumber::zero()` of
/// `yolol_number`, printed by its `Display`. Zero is the inner value 0,
/// which prints as the digit 0 with no sign and no fraction.
#[verifier::external_body]
fn falsy_number() -> (s: String)
    ensures
        s@ == "0"@,
{
    YololNumber::zero().to_string()
}

fn unary_operator(op: UnaryOp) -> (r: yolol::ast::UnaryOp)
    ensures
        r == target_unary(op),
{
    match op {
        UnaryOp::Negate => yolol::ast::UnaryOp::Negate,
        UnaryOp::Not => yolol::ast::UnaryOp::Not,
        UnaryOp::Bracket => yolol::ast::UnaryOp::Brackets,
    }
}

fn binary_operator(op: BinaryOp) -> (r: yolol::ast::BinaryOp)
    ensures
        r == target_binary(op),
{
    match op {
        BinaryOp::Add => yolol::ast::BinaryOp::Add,
        BinaryOp::Subtract => yolol::ast::BinaryOp::Subtract,
        BinaryOp::Multiply => yolol::ast::BinaryOp::Multiply,
        BinaryOp::Divide => yolol::ast::BinaryOp::Divide,
        BinaryOp::Modulus => yolol::ast::BinaryOp::Modulo,
        BinaryOp::Exponent => yolol::ast::BinaryOp::Exponent,
        BinaryOp::And => yolol::ast::BinaryOp::And,
        BinaryOp::Or => yolol::ast::BinaryOp::Or,
        BinaryOp::GreaterThan => yolol::ast::BinaryOp::GreaterThan,
        BinaryOp::LessThan => yolol::ast::BinaryOp::LessThan,
        BinaryOp::GreaterThanOrEq => yolol::ast::BinaryOp::GreaterThanEqualTo,
        BinaryOp::LessThanOrEq => yolol::ast::BinaryOp::LessThanEqualTo,
        BinaryOp::Equals => yolol::ast::BinaryOp::EqualTo,
        BinaryOp::NotEquals => yolol::ast::BinaryOp::NotEqual,
    }
}

fn step_operator(op: StepOp) -> (r: yolol::ast::StepOp)
    ensures
        r == target_step(op),
{
    match op {
        StepOp::PostIncrement => yolol::ast::StepOp::PostIncrement,
        StepOp::PostDecrement => yolol::ast::StepOp::PostDecrement,
        StepOp::PreIncrement => yolol::ast::StepOp::PreIncrement,
        StepOp::PreDecrement => yolol::ast::StepOp::PreDecrement,
    }
}

/// Whether a target expression is a constant.
pub fn constant(x: &yolol::ast::Expression) -> (b: bool)
    ensures
        b == is_constant(x@),
    decreases x,
{
    if let Some((_, a)) = x.as_unary() {
        return constant(a);
    }
    if let Some((_, a, b)) = x.as_binary() {
        return constant(a) && constant(b);
    }
    match x {
        yolol::ast::Expression::ConstantNumber(_) => true,
        yolol::ast::Expression::ConstantString(_) => true,
        _ => false,
    }
}

/// Translates one expression.
pub fn handle_expr(expr: &Expression, types: &TypeEnvironment) -> (r: Result<yolol::ast::Expression, CompilerError>)
    ensures
        result_view(r) == lower_expression(expr@, types@),
    decreases expr,
{
    broadcast use group_ast_views;
    if let Some((op, a)) = expr.as_unary() {
        return match handle_expr(a, types) {
            Ok(x) => Ok(yolol::ast::Expression::unary(unary_operator(op), x)),
            Err(e) => Err(e),
        };
    }
    if let Some((op, a, b)) = expr.as_binary() {
        let x = match handle_expr(a, types) {
            Ok(x) => x,
            Err(e) => { return Err(e); },
        };
        let y = match handle_expr(b, types) {
            Ok(y) => y,
            Err(e) => { return Err(e); },
        };
        return Ok(yolol::ast::Expression::binary(binary_operator(op), x, y));
    }
    if let Some((op, name)) = expr.as_step() {
        return Ok(
            yolol::ast::Expression::step(step_operator(op), yolol::ast::Identifier { name: name.clone(), external: false }),
        );
    }
    match expr {
        Expression::CompilePanic(msg, pos) => Err(CompilerError::ExplicitPanic(msg.clone(), *pos)),
        Expression::ConstNumber(x) => Ok(yolol::ast::Expression::ConstantNumber(x.clone())),
        Expression::ConstString(x) => Ok(yolol::ast::Expression::ConstantString(x.clone())),
        Expression::FieldAccess(x) => Ok(
            yolol::ast::Expression::VariableAccess(
                yolol::ast::Identifier { name: canonicalise_field_path(x), external: false },
            ),
        ),
        Expression::ExternalFieldAccess(x) => Ok(
            yolol::ast::Expression::VariableAccess(yolol::ast::Identifier { name: x.clone(), external: true }),
        ),
        Expression::Call(name, _) => Err(CompilerError::CompilerStageNotImplemented(enclose("Find Call `", name, "`"))),
        Expression::Is(a, typename) => {
            let to = (TypeName { typename: typename.clone() }).to_type();
            match infer_expr_type(a, types) {
                Err(e) => Err(e),
                Ok(from) => {
                    if type_check_assignment(&to, &from).is_ok() {
                        Ok(yolol::ast::Expression::ConstantNumber(truthy_number()))
                    } else {
                        Ok(yolol::ast::Expression::ConstantNumber(falsy_number()))
                    }
                },
            }
        },
        Expression::Constructor(_, _) => Err(CompilerError::ConstructorExpression()),
        _ => {
            proof {
                assert(false);
            }
            Err(CompilerError::ConstructorExpression())
        },
    }
}

/// Declares a field: checks that its name is new and that the value's type
/// fits, records its type and translates the value.
fn handle_declaration(field: &crate::grammar::ast::FieldDefinition, value: &Expression, types: TypeEnvironment) -> (r:
    Result<(TypeEnvironment, yolol::ast::Expression), CompilerError>)
    ensures
        result_view(r) == lower_declaration(field@.name, field@.typename, value@, types@),
{
    let mut types = types;
    if types.contains_key(&field.name) {
        return Err(CompilerError::DuplicateFieldDeclaration(field.name.clone()));
    }
    let from = match infer_expr_type(value, &types) {
        Ok(t) => t,
        Err(e) => { return Err(e); },
    };
    match type_check_assignment(&Type::Other(field.typename.clone()), &from) {
        Ok(_) => {},
        Err(e) => { return Err(e); },
    }
    types.insert(field.name.clone(), field.typename.to_type());
    match handle_expr(value, &types) {
        Ok(x) => Ok((types, x)),
        Err(e) => Err(e),
    }
}

/// Translates one statement.
pub fn handle_inner_stmt(inner: &InnerStatement, tables: LoweringTables) -> (r: Result<
    (Vec<yolol::ast::Statement>, LoweringTables),
    CompilerError,
>)
    ensures
        result_view(r) == lower_statement(inner@, tables@),
    decreases inner, 0nat,
{
    broadcast use group_ast_views;
    match inner {
        InnerStatement::CompilePanic(msg, pos) => Err(CompilerError::ExplicitPanic(msg.clone(), *pos)),
        InnerStatement::Emit(code) => Err(
            CompilerError::CompilerStageNotImplemented(enclose("Direct emit yolol code: `", code, "`")),
        ),
        InnerStatement::Call(name, _) => Err(CompilerError::CompilerStageNotImplemented(enclose("Find Call `", name, "`"))),
        InnerStatement::If(condition, pass, fail) => {
            let c = match handle_expr(condition, &tables.types) {
                Ok(c) => c,
                Err(e) => { return Err(e); },
            };
            let (p, after_pass) = match handle_inner_stmts(pass, tables) {
                Ok(x) => x,
                Err(e) => { return Err(e); },
            };
            let (f, after_fail) = match handle_inner_stmts(fail, after_pass) {
                Ok(x) => x,
                Err(e) => { return Err(e); },
            };
            let mut out: Vec<yolol::ast::Statement> = empty_deep();
            push_deep(&mut out, yolol::ast::Statement::conditional(c, p, f));
            assert(out.deep_view() =~= seq![out.deep_view()[0]]);
            Ok((out, after_fail))
        },
        InnerStatement::Assign(path, value) => {
            let name = canonicalise_field_path(path);
            match tables.types.get(&name) {
                None => { return Err(CompilerError::AssigningUndeclaredField(clone_strings(path))); },
                Some(t) => match infer_expr_type(value, &tables.types) {
                    Err(e) => { return Err(e); },
                    Ok(from) => match type_check_assignment(t, &from) {
                        Err(e) => { return Err(e); },
                        Ok(_) => {},
                    },
                },
            }
            let x = match handle_expr(value, &tables.types) {
                Ok(x) => x,
                Err(e) => { return Err(e); },
            };
            let mut out: Vec<yolol::ast::Statement> = empty_deep();
            push_deep(
                &mut out,
                yolol::ast::Statement::Assignment(yolol::ast::Identifier { name, external: false }, x),
            );
            assert(out.deep_view() =~= seq![out.deep_view()[0]]);
            Ok((out, tables))
        },
        InnerStatement::DeclareAssign(field, value) => {
            let LoweringTables { types, consts } = tables;
            let (types, x) = match handle_declaration(field, value, types) {
                Ok(r) => r,
                Err(e) => { return Err(e); },
            };
            let mut out: Vec<yolol::ast::Statement> = empty_deep();
            push_deep(
                &mut out,
                yolol::ast::Statement::Assignment(
                    yolol::ast::Identifier { name: field.name.clone(), external: false },
                    x,
                ),
            );
            assert(out.deep_view() =~= seq![out.deep_view()[0]]);
            Ok((out, LoweringTables { types, consts }))
        },
        InnerStatement::DeclareConst(field, value) => {
            let LoweringTables { types, consts } = tables;
            let (types, x) = match handle_declaration(field, value, types) {
                Ok(r) => r,
                Err(e) => { return Err(e); },
            };
            if !constant(&x) {
                return Err(CompilerError::NonConstantValue(field.name.clone(), value.clone()));
            }
            let mut consts = consts;
            consts.insert(field.name.clone(), x);
            Ok((empty_deep(), LoweringTables { types, consts }))
        },
        InnerStatement::ExternalAssign(field, value) => {
            let x = match handle_expr(value, &tables.types) {
                Ok(x) => x,
                Err(e) => { return Err(e); },
            };
            let mut out: Vec<yolol::ast::Statement> = empty_deep();
            push_deep(
                &mut out,
                yolol::ast::Statement::Assignment(yolol::ast::Identifier { name: field.clone(), external: true }, x),
            );
            assert(out.deep_view() =~= seq![out.deep_view()[0]]);
            Ok((out, tables))
        },
        InnerStatement::Return(_) => Err(
            CompilerError::CompilerStageNotImplemented("`return` statements are not implemented".to_string()),
        ),
        InnerStatement::Goto(name) => {
            let mut out: Vec<yolol::ast::Statement> = empty_deep();
            let target = yolol::ast::Identifier { name: enclose("goto_layout_label_", name, ""), external: false };
            proof {
                reveal_strlit("");
                assert("goto_layout_label_"@ + name@ + ""@ =~= goto_variable(name@));
            }
            push_deep(&mut out, yolol::ast::Statement::Goto(yolol::ast::Expression::VariableAccess(target)));
            assert(out.deep_view() =~= seq![out.deep_view()[0]]);
            Ok((out, tables))
        },
    }
}

/// Translates a run of statements in their order.
#[verifier::loop_isolation(false)]
pub fn handle_inner_stmts(stmts: &Vec<InnerStatement>, tables: LoweringTables) -> (r: Result<
    (Vec<yolol::ast::Statement>, LoweringTables),
    CompilerError,
>)
    ensures
        result_view(r) == lower_statements(stmts.deep_view(), tables@),
    decreases stmts, 1nat,
{
    let ghost all = stmts.deep_view();
    let ghost start = tables@;
    let mut out: Vec<yolol::ast::Statement> = empty_deep();
    let mut tables = tables;
    let mut i: usize = 0;
    proof {
        lemma_skip_all(all);
        lemma_prepend_empty(lower_statements(all, start));
    }
    while i < stmts.len()
        invariant
            i <= stmts.len(),
            lower_statements(all, start) == prepend(out.deep_view(), lower_statements(all.skip(i as int), tables@)),
        decreases stmts.len() - i,
    {
        proof {
            lemma_skip_step(all, i as int);
        }
        match handle_inner_stmt(&stmts[i], tables) {
            Err(e) => {
                return Err(e);
            },
            Ok((mut produced, next)) => {
                proof {
                    lemma_prepend_twice(
                        out.deep_view(),
                        produced.deep_view(),
                        lower_statements(all.skip(i + 1), next@),
                    );
                }
                append_deep(&mut out, &mut produced);
                tables = next;
            },
        }
        i += 1;
    }
    proof {
        lemma_skip_all(all);
        lemma_prepend_done::<yolol::ast::StatementView, LoweringTablesView, CompilerErrorView>(
            out.deep_view(),
            tables@,
        );
    }
    Ok((out, tables))
}

/// Translates the statements of a block in their order.
#[verifier::loop_isolation(false)]
pub fn handle_outer_stmts(stmts: &Vec<OuterStatement>, tables: LoweringTables) -> (r: Result<
    (Vec<yolol::ast::Statement>, LoweringTables),
    CompilerError,
>)
    ensures
        result_view(r) == lower_outer_statements(stmts.deep_view(), tables@),
{
    let ghost all = stmts.deep_view();
    let ghost start = tables@;
    let mut out: Vec<yolol::ast::Statement> = empty_deep();
    let mut tables = tables;
    let mut i: usize = 0;
    proof {
        lemma_skip_all(all);
        lemma_prepend_empty(lower_outer_statements(all, start));
    }
    while i < stmts.len()
        invariant
            i <= stmts.len(),
            lower_outer_statements(all, start) == prepend(
                out.deep_view(),
                lower_outer_statements(all.skip(i as int), tables@),
            ),
        decreases stmts.len() - i,
    {
        proof {
            lemma_skip_step(all, i as int);
        }
        match &stmts[i] {
            OuterStatement::Inner(inner) => match handle_inner_stmt(inner, tables) {
                Err(e) => {
                    return Err(e);
                },
                Ok((mut produced, next)) => {
                    proof {
                        lemma_prepend_twice(
                            out.deep_view(),
                            produced.deep_view(),
                            lower_outer_statements(all.skip(i + 1), next@),
                        );
                    }
                    append_deep(&mut out, &mut produced);
                    tables = next;
                },
            },
            other => {
                return Err(stray_marker(other));
            },
        }
        i += 1;
    }
    proof {
        lemma_skip_all(all);
        lemma_prepend_done::<yolol::ast::StatementView, LoweringTablesView, CompilerErrorView>(
            out.deep_view(),
            tables@,
        );
    }
    Ok((out, tables))
}

/// Translates one block.
pub fn handle_block(b: &Block, tables: LoweringTables) -> (r: Result<(YololBlock, LoweringTables), CompilerError>)
    ensures
        result_view(r) == lower_block(b@, tables@),
{
    match b {
        Block::Statements(label, stmts) => match handle_outer_stmts(stmts, tables) {
            Err(e) => Err(e),
            Ok((produced, next)) => Ok((YololBlock::Statements(clone_label(label), produced), next)),
        },
        Block::Line(label, stmts) => match handle_inner_stmts(stmts, tables) {
            Err(e) => Err(e),
            Ok((produced, next)) => Ok((YololBlock::Line(clone_label(label), produced), next)),
        },
    }
}

impl InitialStatementBlocks {
    /// Translates the blocks for the target, one block for each block and
    /// in the same order, and fills the type environment and the table of
    /// constants on the way.
    #[verifier::loop_isolation(false)]
    pub fn covert_yolol_blocks(self) -> (r: Result<YololStatementBlocks, CompilerError>)
        ensures
            result_view(r) == convert_blocks_spec(self@),
    {
        let ghost all = self.blocks.deep_view();
        let mut tables = LoweringTables { types: TypeEnvironment::new(), consts: ConstantTable::new() };
        let ghost start = tables@;
        let mut out: Vec<YololBlock> = empty_deep();
        let mut i: usize = 0;
        proof {
            lemma_skip_all(all);
            lemma_prepend_empty(lower_blocks(all, start));
        }
        while i < self.blocks.len()
            invariant
                i <= self.blocks.len(),
                lower_blocks(all, start) == prepend(out.deep_view(), lower_blocks(all.skip(i as int), tables@)),
            decreases self.blocks.len() - i,
        {
            proof {
                lemma_skip_step(all, i as int);
            }
            match handle_block(&self.blocks[i], tables) {
                Err(e) => {
                    return Err(e);
                },
                Ok((block, next)) => {
                    let ghost before = out.deep_view();
                    let ghost produced = seq![block@];
                    proof {
                        lemma_prepend_twice(before, produced, lower_blocks(all.skip(i + 1), next@));
                    }
                    push_deep(&mut out, block);
                    assert(out.deep_view() =~= before + produced);
                    tables = next;
                },
            }
            i += 1;
        }
        proof {
            lemma_skip_all(all);
            lemma_prepend_done::<YololBlockView, LoweringTablesView, CompilerErrorView>(out.deep_view(), tables@);
        }
        let LoweringTables { types, consts } = tables;
        Ok(YololStatementBlocks { blocks: out, types, consts })
    }
}

} // verus!
