//! What the stages behind the first have in common: the statements of a
//! block are plain statements, and a marker among them is an internal error.

use vstd::prelude::*;
use crate::compiler::stages::initial_blocks::BlockView;
use crate::error::{CompilerError, CompilerErrorView};
use crate::grammar::ast::{InnerStatement, InnerStatementView, OuterStatement, OuterStatementView};
use crate::views::{empty_deep, enclose, push_deep};

verus! {

/// Each statement of the sequence as a statement of a block.
pub open spec fn as_outer(ss: Seq<InnerStatementView>) -> Seq<OuterStatementView> {
    Seq::new(ss.len(), |i: int| OuterStatementView::Inner(ss[i]))
}

/// The plain statements that the statements of a block wrap.
pub open spec fn inner_of(ss: Seq<OuterStatementView>) -> Seq<InnerStatementView> {
    Seq::new(ss.len(), |i: int| ss[i]->Inner_0)
}

/// The statements of a block.
pub open spec fn block_statements(b: BlockView) -> Seq<InnerStatementView> {
    match b {
        BlockView::Statements(_, stmts) => inner_of(stmts),
        BlockView::Line(_, stmts) => stmts,
    }
}

/// The statements of all blocks, in the order of the blocks.
pub open spec fn program_statements(bs: Seq<BlockView>) -> Seq<InnerStatementView>
    decreases bs.len(),
{
    if bs.len() == 0 {
        Seq::empty()
    } else {
        block_statements(bs[0]) + program_statements(bs.drop_first())
    }
}

/// The statements of blocks with one more block behind them end with the
/// statements of that block.
pub proof fn lemma_program_statements_push(bs: Seq<BlockView>, b: BlockView)
    ensures
        program_statements(bs.push(b)) == program_statements(bs) + block_statements(b),
    decreases bs.len(),
{
    if bs.len() == 0 {
        assert(bs.push(b).drop_first() =~= bs);
        assert(program_statements(bs.push(b)) =~= program_statements(bs) + block_statements(b));
    } else {
        assert(bs.push(b)[0] == bs[0]);
        assert(bs.push(b).drop_first() =~= bs.drop_first().push(b));
        lemma_program_statements_push(bs.drop_first(), b);
        assert(program_statements(bs.push(b)) =~= program_statements(bs) + block_statements(b));
    }
}

/// The message for a marker that stands among the statements of a block.
pub open spec fn stray_marker_text(s: OuterStatementView) -> Seq<char> {
    match s {
        OuterStatementView::Label(name) => "Encountered label `"@ + name + "` as an outer statement"@,
        _ => "Encountered a line group as an outer statement"@,
    }
}

/// The internal error for a marker that stands among the statements of a block.
pub(crate) fn stray_marker(stmt: &OuterStatement) -> (r: CompilerError)
    requires
        !(stmt@ is Inner),
    ensures
        r@ == CompilerErrorView::Internal(stray_marker_text(stmt@)),
{
    match stmt {
        OuterStatement::Label(name) => CompilerError::Internal(
            enclose("Encountered label `", name, "` as an outer statement"),
        ),
        _ => CompilerError::Internal("Encountered a line group as an outer statement".to_string()),
    }
}

/// Moves statements behind the statements of a block.
pub(crate) fn append_as_outer(out: &mut Vec<OuterStatement>, produced: Vec<InnerStatement>)
    ensures
        final(out).deep_view() == old(out).deep_view() + as_outer(produced.deep_view()),
{
    let ghost all = produced.deep_view();
    let ghost raw = produced@;
    assert(old(out).deep_view() + as_outer(all).take(0) =~= old(out).deep_view());
    for s in it: produced.into_iter()
        invariant
            it.seq() == raw,
            all.len() == raw.len(),
            forall|i: int| 0 <= i < raw.len() ==> all[i] == #[trigger] raw[i]@,
            out.deep_view() == old(out).deep_view() + as_outer(all).take(it.index() as int),
    {
        assert(all[it.index() as int] == raw[it.index() as int]@);
        assert(as_outer(all).take(it.index() + 1) =~= as_outer(all).take(it.index() as int).push(
            OuterStatementView::Inner(s@),
        ));
        push_deep(out, OuterStatement::Inner(s));
        assert(out.deep_view() =~= old(out).deep_view() + as_outer(all).take(it.index() + 1));
    }
    assert(as_outer(all).take(raw.len() as int) =~= as_outer(all));
}

/// The list of one statement.
pub(crate) fn single(s: InnerStatement) -> (r: Vec<InnerStatement>)
    ensures
        r.deep_view() == seq![s@],
{
    let mut r: Vec<InnerStatement> = empty_deep();
    push_deep(&mut r, s);
    assert(r.deep_view() =~= seq![s@]);
    r
}

} // verus!
