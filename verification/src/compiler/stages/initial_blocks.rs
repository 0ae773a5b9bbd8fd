//! The first stage: the entry block's statements are split into blocks.

use vstd::prelude::*;
use crate::compiler::build_config::BuildConfig;
use crate::error::{CompilerError, CompilerErrorView};
use crate::grammar::ast::{
    CallableDefinition, CallableDefinitionView, InnerStatement, InnerStatementView, OuterStatement,
    OuterStatementView, Program, StructDefinition, StructDefinitionView,
};
use crate::views::{empty_deep, lemma_skip_all, lemma_skip_step, push_deep};

verus! {

/// A run of statements of the entry block, with the label that precedes it, if any.
#[derive(Debug, PartialEq, Eq)]
pub enum Block {
    /// Statements that run in the given order.
    Statements(Option<String>, Vec<OuterStatement>),
    /// Statements that must stand on one physical line of the output.
    Line(Option<String>, Vec<InnerStatement>),
}

/// The blocks of a program, with its callables and structs as the program
/// defines them. A name finds the last definition that bears it.
#[derive(Debug, PartialEq, Eq)]
pub struct InitialStatementBlocks {
    pub blocks: Vec<Block>,
    pub callables: Vec<CallableDefinition>,
    pub structs: Vec<StructDefinition>,
}

/// What a `Block` holds, as a mathematical value.
pub enum BlockView {
    Statements(Option<Seq<char>>, Seq<OuterStatementView>),
    Line(Option<Seq<char>>, Seq<InnerStatementView>),
}

/// What a `InitialStatementBlocks` holds, as a mathematical value.
pub struct InitialStatementBlocksView {
    pub blocks: Seq<BlockView>,
    pub callables: Seq<CallableDefinitionView>,
    pub structs: Seq<StructDefinitionView>,
}

impl View for Block {
    type V = BlockView;

    open spec fn view(&self) -> BlockView {
        match self {
            Block::Statements(label, stmts) => BlockView::Statements(label.deep_view(), stmts.deep_view()),
            Block::Line(label, stmts) => BlockView::Line(label.deep_view(), stmts.deep_view()),
        }
    }
}

impl DeepView for Block {
    type V = BlockView;

    open spec fn deep_view(&self) -> BlockView {
        self@
    }
}

impl View for InitialStatementBlocks {
    type V = InitialStatementBlocksView;

    open spec fn view(&self) -> InitialStatementBlocksView {
        InitialStatementBlocksView {
            blocks: self.blocks.deep_view(),
            callables: self.callables.deep_view(),
            structs: self.structs.deep_view(),
        }
    }
}

impl DeepView for InitialStatementBlocks {
    type V = InitialStatementBlocksView;

    open spec fn deep_view(&self) -> InitialStatementBlocksView {
        self@
    }
}

/// The blocks of the statements `stmts`, where `current` holds the
/// statements gathered since the last marker and `pending` the label that
/// the last marker set. A label closes the gathered statements as a block
/// under the pending label and becomes the pending label. A line group
/// closes them likewise, stands as a block of its own under its own label,
/// and leaves no label pending. The statements gathered at the end form a
/// last block without a label.
pub open spec fn extract_blocks(
    stmts: Seq<OuterStatementView>,
    pending: Option<Seq<char>>,
    current: Seq<OuterStatementView>,
) -> Seq<BlockView>
    decreases stmts.len(),
{
    if stmts.len() == 0 {
        seq![BlockView::Statements(None, current)]
    } else {
        match stmts[0] {
            OuterStatementView::Line(inner, label) => seq![
                BlockView::Statements(pending, current),
                BlockView::Line(label, inner),
            ] + extract_blocks(stmts.drop_first(), None, Seq::empty()),
            OuterStatementView::Label(name) => seq![BlockView::Statements(pending, current)] + extract_blocks(
                stmts.drop_first(),
                Some(name),
                Seq::empty(),
            ),
            OuterStatementView::Inner(_) => extract_blocks(stmts.drop_first(), pending, current.push(stmts[0])),
        }
    }
}

/// The blocks of an entry block's statements.
pub open spec fn main_blocks(stmts: Seq<OuterStatementView>) -> Seq<BlockView> {
    extract_blocks(stmts, None, Seq::empty())
}

/// The outcome of the first stage on a program.
pub open spec fn build_blocks_spec(program: crate::grammar::ast::ProgramView) -> Result<
    InitialStatementBlocksView,
    CompilerErrorView,
> {
    match program.main {
        Some(stmts) => Ok(
            InitialStatementBlocksView {
                blocks: main_blocks(stmts),
                callables: program.callables,
                structs: program.structs,
            },
        ),
        None => Err(CompilerErrorView::NoMainBlock),
    }
}

/// Statements that are no markers are gathered: they join the statements
/// gathered so far, under the label that is pending.
pub proof fn lemma_statements_are_gathered(
    run: Seq<OuterStatementView>,
    rest: Seq<OuterStatementView>,
    pending: Option<Seq<char>>,
    current: Seq<OuterStatementView>,
)
    requires
        forall|i: int| 0 <= i < run.len() ==> #[trigger] run[i] is Inner,
    ensures
        extract_blocks(run + rest, pending, current) == extract_blocks(rest, pending, current + run),
    decreases run.len(),
{
    if run.len() == 0 {
        assert(run + rest =~= rest);
        assert(current + run =~= current);
    } else {
        assert((run + rest)[0] == run[0]);
        assert((run + rest).drop_first() =~= run.drop_first() + rest);
        assert(forall|i: int| 0 <= i < run.drop_first().len() ==> #[trigger] run.drop_first()[i] == run[i + 1]);
        lemma_statements_are_gathered(run.drop_first(), rest, pending, current.push(run[0]));
        assert(current.push(run[0]) + run.drop_first() =~= current + run);
    }
}

/// A label attaches to the block that follows it, and an empty block
/// without a label precedes the first label. The statements behind the
/// last marker form the last block, which has no label.
pub proof fn lemma_labels_attach_to_following_block(
    first_label: Seq<char>,
    first_run: Seq<OuterStatementView>,
    second_label: Seq<char>,
    second_run: Seq<OuterStatementView>,
)
    requires
        forall|i: int| 0 <= i < first_run.len() ==> #[trigger] first_run[i] is Inner,
        forall|i: int| 0 <= i < second_run.len() ==> #[trigger] second_run[i] is Inner,
    ensures
        main_blocks(
            seq![OuterStatementView::Label(first_label)] + first_run + seq![OuterStatementView::Label(second_label)]
                + second_run,
        ) == seq![
            BlockView::Statements(None, Seq::empty()),
            BlockView::Statements(Some(first_label), first_run),
            BlockView::Statements(None, second_run),
        ],
{
    let tail = seq![OuterStatementView::Label(second_label)] + second_run;
    let all = seq![OuterStatementView::Label(first_label)] + first_run + seq![
        OuterStatementView::Label(second_label),
    ] + second_run;
    let none: Seq<OuterStatementView> = Seq::empty();
    assert(all[0] == OuterStatementView::Label(first_label));
    assert(all.drop_first() =~= first_run + tail);
    lemma_statements_are_gathered(first_run, tail, Some(first_label), none);
    assert(none + first_run =~= first_run);
    assert(tail[0] == OuterStatementView::Label(second_label));
    assert(tail.drop_first() =~= second_run + none);
    lemma_statements_are_gathered(second_run, none, Some(second_label), none);
    assert(none + second_run =~= second_run);
    assert(extract_blocks(none, Some(second_label), second_run) =~= seq![BlockView::Statements(None, second_run)]);
    assert(extract_blocks(tail, Some(first_label), first_run) =~= seq![
        BlockView::Statements(Some(first_label), first_run),
        BlockView::Statements(None, second_run),
    ]);
    assert(main_blocks(all) =~= seq![
        BlockView::Statements(None, Seq::empty()),
        BlockView::Statements(Some(first_label), first_run),
        BlockView::Statements(None, second_run),
    ]);
}

/// A line group stands as a block of its own between the statements before
/// it and those after it, and is never merged with either.
pub proof fn lemma_line_group_stands_alone(
    before: Seq<OuterStatementView>,
    line: Seq<crate::grammar::ast::InnerStatementView>,
    label: Option<Seq<char>>,
    after: Seq<OuterStatementView>,
)
    requires
        forall|i: int| 0 <= i < before.len() ==> #[trigger] before[i] is Inner,
        forall|i: int| 0 <= i < after.len() ==> #[trigger] after[i] is Inner,
    ensures
        main_blocks(before + seq![OuterStatementView::Line(line, label)] + after) == seq![
            BlockView::Statements(None, before),
            BlockView::Line(label, line),
            BlockView::Statements(None, after),
        ],
{
    let none: Seq<OuterStatementView> = Seq::empty();
    let tail = seq![OuterStatementView::Line(line, label)] + after;
    let all = before + seq![OuterStatementView::Line(line, label)] + after;
    assert(all =~= before + tail);
    lemma_statements_are_gathered(before, tail, None, none);
    assert(none + before =~= before);
    assert(tail[0] == OuterStatementView::Line(line, label));
    assert(tail.drop_first() =~= after + none);
    lemma_statements_are_gathered(after, none, None, none);
    assert(none + after =~= after);
    assert(extract_blocks(none, None, after) =~= seq![BlockView::Statements(None, after)]);
    assert(main_blocks(all) =~= seq![
        BlockView::Statements(None, before),
        BlockView::Line(label, line),
        BlockView::Statements(None, after),
    ]);
}

/// Splits the statements of an entry block into blocks.
pub fn extract_main(statements: Vec<OuterStatement>) -> (result: Vec<Block>)
    ensures
        result.deep_view() == main_blocks(statements.deep_view()),
{
    let ghost all = statements.deep_view();
    let ghost raw = statements@;
    let mut result: Vec<Block> = empty_deep();
    let mut current: Vec<OuterStatement> = empty_deep();
    let mut current_name: Option<String> = None;
    proof {
        lemma_skip_all(all);
    }
    for stmt in it: statements.into_iter()
        invariant
            it.seq() == raw,
            all.len() == raw.len(),
            forall|i: int| 0 <= i < raw.len() ==> all[i] == #[trigger] raw[i]@,
            main_blocks(all) == result.deep_view() + extract_blocks(
                all.skip(it.index() as int),
                current_name.deep_view(),
                current.deep_view(),
            ),
    {
        proof {
            lemma_skip_step(all, it.index() as int);
        }
        let ghost rest = extract_blocks(all.skip(it.index() + 1), None, Seq::empty());
        let ghost before = result.deep_view();
        let ghost head = all.skip(it.index() as int);
        assert(head[0] == stmt@) by {
            assert(all[it.index() as int] == raw[it.index() as int]@);
        }
        match stmt {
            OuterStatement::Line(inner, label) => {
                push_deep(&mut result, Block::Statements(current_name, current));
                push_deep(&mut result, Block::Line(label, inner));
                current = empty_deep();
                current_name = None;
                assert(result.deep_view() + rest =~= before + (seq![result.deep_view()[before.len() as int], result.deep_view()[before.len() as int + 1]] + rest));
            },
            OuterStatement::Label(name) => {
                push_deep(&mut result, Block::Statements(current_name, current));
                current_name = Some(name);
                current = empty_deep();
                let ghost rest2 = extract_blocks(all.skip(it.index() + 1), current_name.deep_view(), Seq::empty());
                assert(result.deep_view() + rest2 =~= before + (seq![result.deep_view()[before.len() as int]] + rest2));
            },
            stmt => {
                assert(stmt@ is Inner);
                push_deep(&mut current, stmt);
                assert(result.deep_view() == before);
            },
        }
    }
    proof {
        lemma_skip_all(all);
    }
    let ghost before = result.deep_view();
    push_deep(&mut result, Block::Statements(None, current));
    assert(result.deep_view() =~= before + seq![result.deep_view()[before.len() as int]]);
    result
}

impl Program {
    /// Splits the entry block into blocks and hands on the callables and the
    /// structs as they are. A program without an entry block is refused.
    pub fn build_blocks(self, config: &BuildConfig) -> (r: Result<InitialStatementBlocks, CompilerError>)
        ensures
            crate::error::result_view(r) == build_blocks_spec(self@),
    {
        match self.main {
            Some(main) => Ok(
                InitialStatementBlocks {
                    blocks: extract_main(main.statements),
                    callables: self.callables,
                    structs: self.structs,
                },
            ),
            None => Err(CompilerError::NoMainBlock),
        }
    }
}

} // verus!
