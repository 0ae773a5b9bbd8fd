//! The second stage: each call of a macro is replaced by the macro's body,
//! rewritten for that call.

use vstd::prelude::*;
use crate::compiler::build_config::BuildConfig;
use crate::compiler::environment::{TableView, TypeEnvironment};
use crate::compiler::declarations::{
    declare_all, declare_in, declared_entries, lemma_declare_all, lemma_declare_all_split,
};
use crate::compiler::fields::lemma_canonical_single;
use crate::compiler::hygiene::{
    lemma_local_names_apart, local_name, make_local_name, make_temporary_name, temporary_name,
};
use crate::compiler::stages::initial_blocks::{Block, BlockView, InitialStatementBlocks, InitialStatementBlocksView};
use crate::compiler::substitution::{
    find_binding, replace_in_statements, rewrite_statement, rewrite_statements, substitute_name,
};
use crate::compiler::stages::statements::{
    append_as_outer, as_outer, block_statements, inner_of, lemma_program_statements_push, program_statements,
    single, stray_marker, stray_marker_text,
};
use crate::compiler::typecheck::{
    check_assignment, declare, declare_field, infer_expr_type, infer_type, named_type, type_check_assignment,
    TypeView,
};
use crate::error::{not_implemented, result_view, CompilerError, CompilerErrorView};
use crate::grammar::ast::{
    clone_expression, clone_inner_statement, group_ast_views, CallType, CallableDefinition, CallableDefinitionView,
    Expression, ExpressionView, FieldDefinition, FieldDefinitionView, InnerStatement, InnerStatementView,
    OuterStatement, OuterStatementView, ParameterDefinition, ParameterDefinitionView,
};
use crate::views::{append_deep, clone_label, empty_deep, lemma_skip_all, lemma_skip_step, push_deep};

verus! {

/// What the stage hands from statement to statement: the type of every
/// field declared so far and the number of the next call site.
#[derive(Debug, PartialEq, Eq)]
pub struct InlineTables {
    pub types: TypeEnvironment,
    pub site: u64,
}

/// What a `InlineTables` holds, as a mathematical value.
pub struct InlineTablesView {
    pub types: TableView<TypeView>,
    pub site: u64,
}

impl View for InlineTables {
    type V = InlineTablesView;

    open spec fn view(&self) -> InlineTablesView {
        InlineTablesView { types: self.types@, site: self.site }
    }
}

impl DeepView for InlineTables {
    type V = InlineTablesView;

    open spec fn deep_view(&self) -> InlineTablesView {
        self@
    }
}

/// The callable that a name finds: the last definition that bears it.
pub open spec fn find_callable(callables: Seq<CallableDefinitionView>, name: Seq<char>) -> Option<
    CallableDefinitionView,
>
    decreases callables.len(),
{
    if callables.len() == 0 {
        None
    } else if callables.last().name == name {
        Some(callables.last())
    } else {
        find_callable(callables.drop_last(), name)
    }
}

/// Whether a call of `callable` with `count` arguments can be expanded:
/// only a macro without a return type and without attributes can, and only
/// with as many arguments as it has parameters.
pub open spec fn check_callable(callable: CallableDefinitionView, name: Seq<char>, count: nat) -> Result<
    (),
    CompilerErrorView,
> {
    if callable.return_type is Some {
        Err(CompilerErrorView::CompilerStageNotImplemented("return values from calls are not implemented"@))
    } else if callable.attributes.len() != 0 {
        Err(CompilerErrorView::CompilerStageNotImplemented("Call attributes are not implemented"@))
    } else if callable.call_type == CallType::Proc {
        Err(CompilerErrorView::CompilerStageNotImplemented("`proc` calls are not implemented"@))
    } else if callable.parameters.len() != count {
        Err(
CompilerErrorView::IncorrectCallParameterCount(name, callable.parameters.len(), count),
        )
    } else {
        Ok(())
    }
}

/// Whether an argument is written into the body as it stands: a field, an
/// external field or a literal is evaluated again wherever the parameter is
/// read, and needs no temporary.
pub open spec fn is_direct(arg: ExpressionView) -> bool {
    arg is FieldAccess || arg is ExternalFieldAccess || arg is ConstNumber || arg is ConstString
}

/// The binding of one parameter to one argument, with the declaration of
/// the temporary where one is needed. An external field is bound unchecked.
/// Every other argument must have a type that the parameter's type accepts;
/// one that is not direct is assigned to a temporary of its own type, once,
/// and the parameter is bound to that temporary.
pub open spec fn bind_argument(
    parameter: ParameterDefinitionView,
    arg: ExpressionView,
    index: nat,
    site: nat,
    env: TableView<TypeView>,
) -> Result<(Seq<InnerStatementView>, (Seq<char>, ExpressionView)), CompilerErrorView> {
    if arg is ExternalFieldAccess {
        Ok((Seq::empty(), (parameter.field.name, arg)))
    } else {
        match infer_type(arg, env) {
            Err(err) => Err(err),
            Ok(t) => match check_assignment(named_type(parameter.field.typename), t) {
                Err(err) => Err(err),
                Ok(_) => if is_direct(arg) {
                    Ok((Seq::empty(), (parameter.field.name, arg)))
                } else {
                    Ok(
                        (
                            seq![
                                InnerStatementView::DeclareAssign(
                                    FieldDefinitionView { name: temporary_name(site, index), typename: t.name() },
                                    arg,
                                ),
                            ],
                            (parameter.field.name, ExpressionView::FieldAccess(seq![temporary_name(site, index)])),
                        ),
                    )
                },
            },
        }
    }
}

/// The bindings of the parameters from `index` on, behind the temporaries
/// and bindings of the parameters before.
pub open spec fn bind_arguments(
    parameters: Seq<ParameterDefinitionView>,
    args: Seq<ExpressionView>,
    index: nat,
    site: nat,
    env: TableView<TypeView>,
    temporaries: Seq<InnerStatementView>,
    bindings: Seq<(Seq<char>, ExpressionView)>,
) -> Result<(Seq<InnerStatementView>, Seq<(Seq<char>, ExpressionView)>), CompilerErrorView>
    decreases args.len() - index,
{
    if index >= args.len() || index >= parameters.len() {
        Ok((temporaries, bindings))
    } else {
        match bind_argument(parameters[index as int], args[index as int], index, site, env) {
            Err(err) => Err(err),
            Ok((declared, binding)) => bind_arguments(
                parameters,
                args,
                index + 1,
                site,
                env,
                temporaries + declared,
                bindings.push(binding),
            ),
        }
    }
}

/// The names that a statement declares, behind those in `names`.
pub open spec fn collect_declared_in(s: InnerStatementView, names: Seq<Seq<char>>) -> Seq<Seq<char>>
    decreases s,
{
    match s {
        InnerStatementView::DeclareAssign(field, _) => names.push(field.name),
        InnerStatementView::DeclareConst(field, _) => names.push(field.name),
        InnerStatementView::If(_, pass, fail) => collect_declared(fail, collect_declared(pass, names)),
        _ => names,
    }
}

/// The names that statements declare, in their order, behind those in
/// `names`. The branches of a conditional count.
pub open spec fn collect_declared(ss: Seq<InnerStatementView>, names: Seq<Seq<char>>) -> Seq<Seq<char>>
    decreases ss,
{
    if ss.len() == 0 {
        names
    } else {
        collect_declared(ss.drop_first(), collect_declared_in(ss[0], names))
    }
}

/// The bindings that rename the names `names` for the call at `site`,
/// behind the bindings in `bindings`.
pub open spec fn local_bindings(names: Seq<Seq<char>>, site: nat, bindings: Seq<(Seq<char>, ExpressionView)>) -> Seq<
    (Seq<char>, ExpressionView),
>
    decreases names.len(),
{
    if names.len() == 0 {
        bindings
    } else {
        local_bindings(
            names.drop_first(),
            site,
            bindings.push((names[0], ExpressionView::FieldAccess(seq![local_name(site, names[0])]))),
        )
    }
}

/// Whether a statement is a call, or holds one in a branch.
pub open spec fn holds_call(s: InnerStatementView) -> bool
    decreases s,
{
    match s {
        InnerStatementView::Call(_, _) => true,
        InnerStatementView::If(_, pass, fail) => !call_free(pass) || !call_free(fail),
        _ => false,
    }
}

/// Whether no statement of the sequence is a call or holds one in a branch.
pub open spec fn call_free(ss: Seq<InnerStatementView>) -> bool
    decreases ss,
{
    forall|i: int| 0 <= i < ss.len() ==> !holds_call(#[trigger] ss[i])
}

/// The message for a macro whose body holds a call.
pub open spec fn nested_call_text() -> Seq<char> {
    "Calls inside a macro body are not implemented"@
}

/// The message for a program with more call sites than can be numbered.
pub open spec fn sites_exhausted_text() -> Seq<char> {
    "Call sites can no longer be numbered"@
}

/// The statements that replace the call of `name` with the arguments
/// `args`, and the tables after it: the declarations of the temporaries,
/// then the body of the macro, in which each parameter stands for what it
/// is bound to and each name that the body declares is renamed for this
/// call site. The names that the expansion declares are entered in the
/// type environment, and the next call site gets the next number. A macro
/// whose body holds a call is refused: what replaces a call holds no call.
pub open spec fn expand_call(
    name: Seq<char>,
    args: Seq<ExpressionView>,
    callables: Seq<CallableDefinitionView>,
    tables: InlineTablesView,
) -> Result<(Seq<InnerStatementView>, InlineTablesView), CompilerErrorView> {
    match find_callable(callables, name) {
        None => Err(CompilerErrorView::CallableNotFound(name)),
        Some(callable) => match check_callable(callable, name, args.len()) {
            Err(err) => Err(err),
            Ok(_) => if !call_free(callable.statements) {
                Err(CompilerErrorView::CompilerStageNotImplemented(nested_call_text()))
            } else if tables.site == u64::MAX {
                Err(CompilerErrorView::Internal(sites_exhausted_text()))
            } else {
                match bind_arguments(
                    callable.parameters,
                    args,
                    0,
                    tables.site as nat,
                    tables.types,
                    Seq::empty(),
                    Seq::empty(),
                ) {
                    Err(err) => Err(err),
                    Ok((temporaries, bindings)) => match rewrite_statements(
                        callable.statements,
                        local_bindings(
                            collect_declared(callable.statements, Seq::empty()),
                            tables.site as nat,
                            bindings,
                        ),
                        Seq::empty(),
                    ) {
                        Err(err) => Err(err),
                        Ok(body) => match declare_all(temporaries + body, tables.types) {
                            Err(err) => Err(err),
                            Ok(types) => Ok(
                                (temporaries + body, InlineTablesView { types, site: (tables.site + 1) as u64 }),
                            ),
                        },
                    },
                }
            },
        },
    }
}

/// The statements that stand for one statement after the stage, and the
/// tables after it. A call is expanded; a declaration enters its name in
/// the type environment; the branches of a conditional are treated in
/// their order; every other statement stays.
pub open spec fn inline_statement(
    s: InnerStatementView,
    callables: Seq<CallableDefinitionView>,
    tables: InlineTablesView,
) -> Result<(Seq<InnerStatementView>, InlineTablesView), CompilerErrorView>
    decreases s,
{
    match s {
        InnerStatementView::Call(name, args) => expand_call(name, args, callables, tables),
        InnerStatementView::DeclareAssign(field, _) => match declare_field(field, tables.types) {
            Err(err) => Err(err),
            Ok(types) => Ok((seq![s], InlineTablesView { types, site: tables.site })),
        },
        InnerStatementView::DeclareConst(field, _) => match declare_field(field, tables.types) {
            Err(err) => Err(err),
            Ok(types) => Ok((seq![s], InlineTablesView { types, site: tables.site })),
        },
        InnerStatementView::If(condition, pass, fail) => match inline_statements(
            pass,
            callables,
            tables,
            Seq::empty(),
        ) {
            Err(err) => Err(err),
            Ok((p, after_pass)) => match inline_statements(fail, callables, after_pass, Seq::empty()) {
                Err(err) => Err(err),
                Ok((f, after_fail)) => Ok((seq![InnerStatementView::If(condition, p, f)], after_fail)),
            },
        },
        _ => Ok((seq![s], tables)),
    }
}

/// The statements that stand for `ss` after the stage, behind those in
/// `done`, and the tables after the last.
pub open spec fn inline_statements(
    ss: Seq<InnerStatementView>,
    callables: Seq<CallableDefinitionView>,
    tables: InlineTablesView,
    done: Seq<InnerStatementView>,
) -> Result<(Seq<InnerStatementView>, InlineTablesView), CompilerErrorView>
    decreases ss,
{
    if ss.len() == 0 {
        Ok((done, tables))
    } else {
        match inline_statement(ss[0], callables, tables) {
            Err(err) => Err(err),
            Ok((produced, next)) => inline_statements(ss.drop_first(), callables, next, done + produced),
        }
    }
}

/// The statements of a block after the stage, behind those in `done`. A
/// label or a line group among them is an internal error.
pub open spec fn inline_outer_statements(
    ss: Seq<OuterStatementView>,
    callables: Seq<CallableDefinitionView>,
    tables: InlineTablesView,
    done: Seq<OuterStatementView>,
) -> Result<(Seq<OuterStatementView>, InlineTablesView), CompilerErrorView>
    decreases ss.len(),
{
    if ss.len() == 0 {
        Ok((done, tables))
    } else {
        match ss[0] {
            OuterStatementView::Inner(s) => match inline_statement(s, callables, tables) {
                Err(err) => Err(err),
                Ok((produced, next)) => inline_outer_statements(
                    ss.drop_first(),
                    callables,
                    next,
                    done + as_outer(produced),
                ),
            },
            _ => Err(CompilerErrorView::Internal(stray_marker_text(ss[0]))),
        }
    }
}

/// A block after the stage: same kind, same label.
pub open spec fn inline_block(b: BlockView, callables: Seq<CallableDefinitionView>, tables: InlineTablesView) -> Result<
    (BlockView, InlineTablesView),
    CompilerErrorView,
> {
    match b {
        BlockView::Statements(label, stmts) => match inline_outer_statements(stmts, callables, tables, Seq::empty()) {
            Err(err) => Err(err),
            Ok((produced, next)) => Ok((BlockView::Statements(label, produced), next)),
        },
        BlockView::Line(label, stmts) => match inline_statements(stmts, callables, tables, Seq::empty()) {
            Err(err) => Err(err),
            Ok((produced, next)) => Ok((BlockView::Line(label, produced), next)),
        },
    }
}

/// The blocks after the stage, one for one, behind those in `done`.
pub open spec fn inline_blocks(
    bs: Seq<BlockView>,
    callables: Seq<CallableDefinitionView>,
    tables: InlineTablesView,
    done: Seq<BlockView>,
) -> Result<(Seq<BlockView>, InlineTablesView), CompilerErrorView>
    decreases bs.len(),
{
    if bs.len() == 0 {
        Ok((done, tables))
    } else {
        match inline_block(bs[0], callables, tables) {
            Err(err) => Err(err),
            Ok((block, next)) => inline_blocks(bs.drop_first(), callables, next, done.push(block)),
        }
    }
}

/// The tables before the first statement.
pub open spec fn first_tables() -> InlineTablesView {
    InlineTablesView { types: TableView::empty(), site: 0 }
}

/// The outcome of the stage on the blocks of a program.
pub open spec fn inline_macros_spec(blocks: InitialStatementBlocksView) -> Result<
    InitialStatementBlocksView,
    CompilerErrorView,
> {
    match inline_blocks(blocks.blocks, blocks.callables, first_tables(), Seq::empty()) {
        Err(err) => Err(err),
        Ok((produced, _)) => Ok(
            InitialStatementBlocksView { blocks: produced, callables: blocks.callables, structs: blocks.structs },
        ),
    }
}

/// Rewriting makes no call: a statement that is no call and holds none
/// stays one under every binding.
pub proof fn lemma_rewritten_statement_holds_no_call(s: InnerStatementView, bindings: Seq<(Seq<char>, ExpressionView)>)
    requires
        !holds_call(s),
        rewrite_statement(s, bindings) is Ok,
    ensures
        !holds_call(rewrite_statement(s, bindings)->Ok_0),
    decreases s, 0nat,
{
    match s {
        InnerStatementView::If(condition, pass, fail) => {
            lemma_rewritten_statements_hold_no_call(pass, bindings, Seq::empty());
            lemma_rewritten_statements_hold_no_call(fail, bindings, Seq::empty());
        },
        _ => {},
    }
}

/// Rewriting makes no call in a run of statements.
pub proof fn lemma_rewritten_statements_hold_no_call(
    ss: Seq<InnerStatementView>,
    bindings: Seq<(Seq<char>, ExpressionView)>,
    done: Seq<InnerStatementView>,
)
    requires
        call_free(ss),
        call_free(done),
        rewrite_statements(ss, bindings, done) is Ok,
    ensures
        call_free(rewrite_statements(ss, bindings, done)->Ok_0),
    decreases ss, 1nat,
{
    if ss.len() > 0 {
        lemma_rewritten_statement_holds_no_call(ss[0], bindings);
        let x = rewrite_statement(ss[0], bindings)->Ok_0;
        assert forall|i: int| 0 <= i < ss.drop_first().len() implies !holds_call(#[trigger] ss.drop_first()[i]) by {
            assert(ss.drop_first()[i] == ss[i + 1]);
        }
        assert forall|i: int| 0 <= i < done.push(x).len() implies !holds_call(#[trigger] done.push(x)[i]) by {
            if i < done.len() {
                assert(done.push(x)[i] == done[i]);
            }
        }
        lemma_rewritten_statements_hold_no_call(ss.drop_first(), bindings, done.push(x));
    }
}

/// The temporaries of a call are declarations: none is a call.
pub proof fn lemma_temporaries_hold_no_call(
    parameters: Seq<ParameterDefinitionView>,
    args: Seq<ExpressionView>,
    index: nat,
    site: nat,
    env: TableView<TypeView>,
    temporaries: Seq<InnerStatementView>,
    bindings: Seq<(Seq<char>, ExpressionView)>,
)
    requires
        call_free(temporaries),
        bind_arguments(parameters, args, index, site, env, temporaries, bindings) is Ok,
    ensures
        call_free(bind_arguments(parameters, args, index, site, env, temporaries, bindings)->Ok_0.0),
    decreases args.len() - index,
{
    if !(index >= args.len() || index >= parameters.len()) {
        let step = bind_argument(parameters[index as int], args[index as int], index, site, env);
        let declared = step->Ok_0.0;
        assert forall|i: int| 0 <= i < (temporaries + declared).len() implies !holds_call(
            #[trigger] (temporaries + declared)[i],
        ) by {
            if i < temporaries.len() {
                assert((temporaries + declared)[i] == temporaries[i]);
            } else {
                assert((temporaries + declared)[i] == declared[i - temporaries.len()]);
            }
        }
        lemma_temporaries_hold_no_call(
            parameters,
            args,
            index + 1,
            site,
            env,
            temporaries + declared,
            bindings.push(step->Ok_0.1),
        );
    }
}

/// What replaces a call holds no call.
pub proof fn lemma_expansion_holds_no_call(
    name: Seq<char>,
    args: Seq<ExpressionView>,
    callables: Seq<CallableDefinitionView>,
    tables: InlineTablesView,
)
    requires
        expand_call(name, args, callables, tables) is Ok,
    ensures
        call_free(expand_call(name, args, callables, tables)->Ok_0.0),
{
    let callable = find_callable(callables, name)->Some_0;
    let none: Seq<InnerStatementView> = Seq::empty();
    let bound = bind_arguments(
        callable.parameters,
        args,
        0,
        tables.site as nat,
        tables.types,
        Seq::empty(),
        Seq::empty(),
    );
    lemma_temporaries_hold_no_call(
        callable.parameters,
        args,
        0,
        tables.site as nat,
        tables.types,
        Seq::empty(),
        Seq::empty(),
    );
    let temporaries = bound->Ok_0.0;
    let renaming = local_bindings(
        collect_declared(callable.statements, Seq::empty()),
        tables.site as nat,
        bound->Ok_0.1,
    );
    lemma_rewritten_statements_hold_no_call(callable.statements, renaming, none);
    let body = rewrite_statements(callable.statements, renaming, none)->Ok_0;
    assert forall|i: int| 0 <= i < (temporaries + body).len() implies !holds_call(
        #[trigger] (temporaries + body)[i],
    ) by {
        if i < temporaries.len() {
            assert((temporaries + body)[i] == temporaries[i]);
        } else {
            assert((temporaries + body)[i] == body[i - temporaries.len()]);
        }
    }
}

/// What stands for a statement after the stage holds no call.
pub proof fn lemma_inlined_statement_holds_no_call(
    s: InnerStatementView,
    callables: Seq<CallableDefinitionView>,
    tables: InlineTablesView,
)
    requires
        inline_statement(s, callables, tables) is Ok,
    ensures
        call_free(inline_statement(s, callables, tables)->Ok_0.0),
    decreases s, 0nat,
{
    match s {
        InnerStatementView::Call(name, args) => {
            lemma_expansion_holds_no_call(name, args, callables, tables);
        },
        InnerStatementView::If(condition, pass, fail) => {
            lemma_inlined_statements_hold_no_call(pass, callables, tables, Seq::empty());
            let after_pass = inline_statements(pass, callables, tables, Seq::empty())->Ok_0.1;
            lemma_inlined_statements_hold_no_call(fail, callables, after_pass, Seq::empty());
        },
        _ => {},
    }
}

/// What stands for a run of statements after the stage holds no call.
pub proof fn lemma_inlined_statements_hold_no_call(
    ss: Seq<InnerStatementView>,
    callables: Seq<CallableDefinitionView>,
    tables: InlineTablesView,
    done: Seq<InnerStatementView>,
)
    requires
        call_free(done),
        inline_statements(ss, callables, tables, done) is Ok,
    ensures
        call_free(inline_statements(ss, callables, tables, done)->Ok_0.0),
    decreases ss, 1nat,
{
    if ss.len() > 0 {
        lemma_inlined_statement_holds_no_call(ss[0], callables, tables);
        let step = inline_statement(ss[0], callables, tables)->Ok_0;
        assert forall|i: int| 0 <= i < (done + step.0).len() implies !holds_call(#[trigger] (done + step.0)[i]) by {
            if i < done.len() {
                assert((done + step.0)[i] == done[i]);
            } else {
                assert((done + step.0)[i] == step.0[i - done.len()]);
            }
        }
        lemma_inlined_statements_hold_no_call(ss.drop_first(), callables, step.1, done + step.0);
    }
}

/// Whether the statements of a block are plain statements without calls.
pub open spec fn plain_and_call_free(ss: Seq<OuterStatementView>) -> bool {
    forall|i: int| 0 <= i < ss.len() ==> (#[trigger] ss[i]) is Inner && !holds_call(ss[i]->Inner_0)
}

/// Whether a block holds no call, in no branch, and no marker.
pub open spec fn block_call_free(b: BlockView) -> bool {
    match b {
        BlockView::Statements(_, stmts) => plain_and_call_free(stmts),
        BlockView::Line(_, stmts) => call_free(stmts),
    }
}

/// What stands for the statements of a block after the stage holds no call.
pub proof fn lemma_inlined_outer_statements_hold_no_call(
    ss: Seq<OuterStatementView>,
    callables: Seq<CallableDefinitionView>,
    tables: InlineTablesView,
    done: Seq<OuterStatementView>,
)
    requires
        plain_and_call_free(done),
        inline_outer_statements(ss, callables, tables, done) is Ok,
    ensures
        plain_and_call_free(inline_outer_statements(ss, callables, tables, done)->Ok_0.0),
    decreases ss.len(),
{
    if ss.len() > 0 {
        let s = ss[0]->Inner_0;
        lemma_inlined_statement_holds_no_call(s, callables, tables);
        let step = inline_statement(s, callables, tables)->Ok_0;
        let next = done + as_outer(step.0);
        assert forall|i: int| 0 <= i < next.len() implies (#[trigger] next[i]) is Inner && !holds_call(
            next[i]->Inner_0,
        ) by {
            if i < done.len() {
                assert(next[i] == done[i]);
            } else {
                assert(next[i] == as_outer(step.0)[i - done.len()]);
                assert(!holds_call(step.0[i - done.len()]));
            }
        }
        lemma_inlined_outer_statements_hold_no_call(ss.drop_first(), callables, step.1, next);
    }
}

/// The blocks after the stage hold no call.
pub proof fn lemma_inlined_blocks_hold_no_call(
    bs: Seq<BlockView>,
    callables: Seq<CallableDefinitionView>,
    tables: InlineTablesView,
    done: Seq<BlockView>,
)
    requires
        forall|i: int| 0 <= i < done.len() ==> block_call_free(#[trigger] done[i]),
        inline_blocks(bs, callables, tables, done) is Ok,
    ensures
        forall|i: int|
            0 <= i < inline_blocks(bs, callables, tables, done)->Ok_0.0.len() ==> block_call_free(
                #[trigger] inline_blocks(bs, callables, tables, done)->Ok_0.0[i],
            ),
    decreases bs.len(),
{
    if bs.len() > 0 {
        match bs[0] {
            BlockView::Statements(label, stmts) => {
                lemma_inlined_outer_statements_hold_no_call(stmts, callables, tables, Seq::empty());
            },
            BlockView::Line(label, stmts) => {
                lemma_inlined_statements_hold_no_call(stmts, callables, tables, Seq::empty());
            },
        }
        let step = inline_block(bs[0], callables, tables)->Ok_0;
        assert forall|i: int| 0 <= i < done.push(step.0).len() implies block_call_free(
            #[trigger] done.push(step.0)[i],
        ) by {
            if i < done.len() {
                assert(done.push(step.0)[i] == done[i]);
            }
        }
        lemma_inlined_blocks_hold_no_call(bs.drop_first(), callables, step.1, done.push(step.0));
    }
}

/// A program that passes the stage is free of calls: no block and no
/// branch of a conditional holds a call statement, and the statements of
/// every block are plain statements.
pub proof fn lemma_no_call_is_left(blocks: InitialStatementBlocksView)
    requires
        inline_macros_spec(blocks) is Ok,
    ensures
        forall|i: int|
            0 <= i < inline_macros_spec(blocks)->Ok_0.blocks.len() ==> block_call_free(
                #[trigger] inline_macros_spec(blocks)->Ok_0.blocks[i],
            ),
{
    lemma_inlined_blocks_hold_no_call(blocks.blocks, blocks.callables, first_tables(), Seq::empty());
}

/// A call of a macro with a number of arguments other than the number of
/// its parameters is refused with both numbers, whatever the arguments are.
pub proof fn lemma_wrong_argument_count(
    name: Seq<char>,
    args: Seq<ExpressionView>,
    callables: Seq<CallableDefinitionView>,
    tables: InlineTablesView,
)
    requires
        find_callable(callables, name) is Some,
        find_callable(callables, name)->Some_0.call_type == CallType::Macro,
        find_callable(callables, name)->Some_0.return_type is None,
        find_callable(callables, name)->Some_0.attributes.len() == 0,
        find_callable(callables, name)->Some_0.parameters.len() != args.len(),
    ensures
        expand_call(name, args, callables, tables) == Err::<(Seq<InnerStatementView>, InlineTablesView), CompilerErrorView>(
            CompilerErrorView::IncorrectCallParameterCount(
                name,
                find_callable(callables, name)->Some_0.parameters.len(),
                args.len(),
            ),
        ),
{
}

/// What stands for a statement after the stage declares exactly the
/// names that the stage entered in the type environment for it, each of
/// them new.
pub proof fn lemma_inlined_declares_in(
    s: InnerStatementView,
    callables: Seq<CallableDefinitionView>,
    tables: InlineTablesView,
)
    requires
        inline_statement(s, callables, tables) is Ok,
    ensures
        declare_all(inline_statement(s, callables, tables)->Ok_0.0, tables.types) == Ok::<
            TableView<TypeView>,
            CompilerErrorView,
        >(inline_statement(s, callables, tables)->Ok_0.1.types),
    decreases s, 0nat,
{
    let produced = inline_statement(s, callables, tables)->Ok_0.0;
    let after = inline_statement(s, callables, tables)->Ok_0.1;
    match s {
        InnerStatementView::Call(name, args) => {
            assert(inline_statement(s, callables, tables) == expand_call(name, args, callables, tables));
            assert(declare_all(produced, tables.types) is Ok);
        },
        InnerStatementView::If(condition, pass, fail) => {
            let none: Seq<InnerStatementView> = Seq::empty();
            lemma_inlined_declares(pass, callables, tables, none, tables.types);
            let first = inline_statements(pass, callables, tables, none)->Ok_0;
            lemma_inlined_declares(fail, callables, first.1, none, first.1.types);
            let second = inline_statements(fail, callables, first.1, none)->Ok_0;
            assert(produced.len() == 1);
            assert(produced[0] == InnerStatementView::If(condition, first.0, second.0));
            assert(declare_in(produced[0], tables.types) == Ok::<TableView<TypeView>, CompilerErrorView>(
                second.1.types,
            ));
            assert(produced.drop_first().len() == 0);
            assert(declare_all(produced.drop_first(), second.1.types) == Ok::<
                TableView<TypeView>,
                CompilerErrorView,
            >(second.1.types));
        },
        _ => {
            assert(produced.len() == 1);
            assert(produced[0] == s);
            assert(declare_in(s, tables.types) == Ok::<TableView<TypeView>, CompilerErrorView>(after.types));
            assert(produced.drop_first().len() == 0);
            assert(declare_all(produced.drop_first(), after.types) == Ok::<TableView<TypeView>, CompilerErrorView>(
                after.types,
            ));
        },
    }
}

/// What stands for a run of statements after the stage declares exactly
/// the names that the stage entered in the type environment, each of them
/// new where it is declared.
pub proof fn lemma_inlined_declares(
    ss: Seq<InnerStatementView>,
    callables: Seq<CallableDefinitionView>,
    tables: InlineTablesView,
    done: Seq<InnerStatementView>,
    start: TableView<TypeView>,
)
    requires
        declare_all(done, start) == Ok::<TableView<TypeView>, CompilerErrorView>(tables.types),
        inline_statements(ss, callables, tables, done) is Ok,
    ensures
        declare_all(inline_statements(ss, callables, tables, done)->Ok_0.0, start) == Ok::<
            TableView<TypeView>,
            CompilerErrorView,
        >(inline_statements(ss, callables, tables, done)->Ok_0.1.types),
    decreases ss, 1nat,
{
    if ss.len() > 0 {
        lemma_inlined_declares_in(ss[0], callables, tables);
        let step = inline_statement(ss[0], callables, tables)->Ok_0;
        lemma_declare_all_split(done, step.0, start);
        lemma_inlined_declares(ss.drop_first(), callables, step.1, done + step.0, start);
    }
}

/// The same for the statements of a block.
pub proof fn lemma_inlined_outer_declares(
    ss: Seq<OuterStatementView>,
    callables: Seq<CallableDefinitionView>,
    tables: InlineTablesView,
    done: Seq<OuterStatementView>,
    start: TableView<TypeView>,
)
    requires
        declare_all(inner_of(done), start) == Ok::<TableView<TypeView>, CompilerErrorView>(tables.types),
        inline_outer_statements(ss, callables, tables, done) is Ok,
    ensures
        declare_all(inner_of(inline_outer_statements(ss, callables, tables, done)->Ok_0.0), start) == Ok::<
            TableView<TypeView>,
            CompilerErrorView,
        >(inline_outer_statements(ss, callables, tables, done)->Ok_0.1.types),
    decreases ss.len(),
{
    if ss.len() > 0 {
        let s = ss[0]->Inner_0;
        lemma_inlined_declares_in(s, callables, tables);
        let step = inline_statement(s, callables, tables)->Ok_0;
        lemma_declare_all_split(inner_of(done), step.0, start);
        assert(inner_of(done + as_outer(step.0)) =~= inner_of(done) + step.0);
        lemma_inlined_outer_declares(ss.drop_first(), callables, step.1, done + as_outer(step.0), start);
    }
}

/// The same for blocks: the statements of the blocks after the stage
/// declare exactly the names that the stage entered, block after block.
pub proof fn lemma_inlined_blocks_declare(
    bs: Seq<BlockView>,
    callables: Seq<CallableDefinitionView>,
    tables: InlineTablesView,
    done: Seq<BlockView>,
)
    requires
        declare_all(program_statements(done), TableView::empty()) == Ok::<TableView<TypeView>, CompilerErrorView>(
            tables.types,
        ),
        inline_blocks(bs, callables, tables, done) is Ok,
    ensures
        declare_all(program_statements(inline_blocks(bs, callables, tables, done)->Ok_0.0), TableView::empty())
            == Ok::<TableView<TypeView>, CompilerErrorView>(
            inline_blocks(bs, callables, tables, done)->Ok_0.1.types,
        ),
    decreases bs.len(),
{
    if bs.len() > 0 {
        let none: Seq<OuterStatementView> = Seq::empty();
        match bs[0] {
            BlockView::Statements(label, stmts) => {
                assert(inner_of(none).len() == 0);
                lemma_inlined_outer_declares(stmts, callables, tables, none, tables.types);
            },
            BlockView::Line(label, stmts) => {
                lemma_inlined_declares(stmts, callables, tables, Seq::empty(), tables.types);
            },
        }
        let step = inline_block(bs[0], callables, tables)->Ok_0;
        lemma_program_statements_push(done, step.0);
        lemma_declare_all_split(program_statements(done), block_statements(step.0), TableView::empty());
        lemma_inlined_blocks_declare(bs.drop_first(), callables, step.1, done.push(step.0));
    }
}

/// In a program that passes the stage no name is declared twice, in
/// whatever block or branch: every temporary and every renamed name of an
/// expansion differs from every name that another expansion or the
/// program itself declares. The declarations of the result are accepted
/// one after the other from an empty type environment, and the names they
/// enter are distinct.
pub proof fn lemma_no_name_is_declared_twice(blocks: InitialStatementBlocksView)
    requires
        inline_macros_spec(blocks) is Ok,
    ensures
        declare_all(program_statements(inline_macros_spec(blocks)->Ok_0.blocks), TableView::empty()) is Ok,
        declare_all(
            program_statements(inline_macros_spec(blocks)->Ok_0.blocks),
            TableView::empty(),
        )->Ok_0.entries == declared_entries(
            program_statements(inline_macros_spec(blocks)->Ok_0.blocks),
            Seq::empty(),
        ),
        declare_all(
            program_statements(inline_macros_spec(blocks)->Ok_0.blocks),
            TableView::empty(),
        )->Ok_0.names().no_duplicates(),
{
    let none: Seq<BlockView> = Seq::empty();
    assert(program_statements(none).len() == 0);
    lemma_inlined_blocks_declare(blocks.blocks, blocks.callables, first_tables(), none);
    lemma_declare_all(program_statements(inline_macros_spec(blocks)->Ok_0.blocks), TableView::empty());
    assert(TableView::<TypeView>::empty().names() =~= Seq::<Seq<char>>::empty());
}

/// A run of statements is treated piece by piece: what stands for two
/// runs, one behind the other, is what stands for the second behind what
/// stands for the first, and the first error ends both.
pub proof fn lemma_inline_statements_split(
    first: Seq<InnerStatementView>,
    second: Seq<InnerStatementView>,
    callables: Seq<CallableDefinitionView>,
    tables: InlineTablesView,
    done: Seq<InnerStatementView>,
)
    ensures
        inline_statements(first + second, callables, tables, done) == match inline_statements(
            first,
            callables,
            tables,
            done,
        ) {
            Err(err) => Err(err),
            Ok((out, next)) => inline_statements(second, callables, next, out),
        },
    decreases first.len(),
{
    if first.len() == 0 {
        assert(first + second =~= second);
    } else {
        assert((first + second)[0] == first[0]);
        assert((first + second).drop_first() =~= first.drop_first() + second);
        match inline_statement(first[0], callables, tables) {
            Err(err) => {},
            Ok((produced, next)) => {
                lemma_inline_statements_split(first.drop_first(), second, callables, next, done + produced);
            },
        }
    }
}

/// A call of a macro with the wrong number of arguments is refused with
/// both numbers wherever it stands in a run of statements, as long as no
/// statement before it is refused, whatever its arguments are and
/// whatever follows it.
pub proof fn lemma_wrong_argument_count_anywhere(
    before: Seq<InnerStatementView>,
    name: Seq<char>,
    args: Seq<ExpressionView>,
    after: Seq<InnerStatementView>,
    callables: Seq<CallableDefinitionView>,
    tables: InlineTablesView,
    done: Seq<InnerStatementView>,
)
    requires
        inline_statements(before, callables, tables, done) is Ok,
        find_callable(callables, name) is Some,
        find_callable(callables, name)->Some_0.call_type == CallType::Macro,
        find_callable(callables, name)->Some_0.return_type is None,
        find_callable(callables, name)->Some_0.attributes.len() == 0,
        find_callable(callables, name)->Some_0.parameters.len() != args.len(),
    ensures
        inline_statements(
            before + seq![InnerStatementView::Call(name, args)] + after,
            callables,
            tables,
            done,
        ) == Err::<(Seq<InnerStatementView>, InlineTablesView), CompilerErrorView>(
            CompilerErrorView::IncorrectCallParameterCount(
                name,
                find_callable(callables, name)->Some_0.parameters.len(),
                args.len(),
            ),
        ),
{
    let call = seq![InnerStatementView::Call(name, args)];
    let reached = inline_statements(before, callables, tables, done)->Ok_0;
    assert(before + call + after =~= before + (call + after));
    lemma_inline_statements_split(before, call + after, callables, tables, done);
    assert((call + after).len() > 0);
    assert((call + after)[0] == InnerStatementView::Call(name, args));
    lemma_wrong_argument_count(name, args, callables, reached.1);
    assert(inline_statement((call + after)[0], callables, reached.1) == expand_call(
        name,
        args,
        callables,
        reached.1,
    ));
    assert(inline_statements(call + after, callables, reached.1, reached.0) is Err);
}

/// Whether two blocks are of the same kind and bear the same label.
pub open spec fn same_shape(a: BlockView, b: BlockView) -> bool {
    match (a, b) {
        (BlockView::Statements(l, _), BlockView::Statements(m, _)) => l == m,
        (BlockView::Line(l, _), BlockView::Line(m, _)) => l == m,
        _ => false,
    }
}

/// The stage keeps the blocks: one block for each block, behind those
/// already treated, each of the kind and with the label of its block.
pub proof fn lemma_inline_blocks_keep_shape(
    bs: Seq<BlockView>,
    callables: Seq<CallableDefinitionView>,
    tables: InlineTablesView,
    done: Seq<BlockView>,
)
    requires
        inline_blocks(bs, callables, tables, done) is Ok,
    ensures
        ({
            let out = inline_blocks(bs, callables, tables, done)->Ok_0.0;
            &&& out.len() == done.len() + bs.len()
            &&& forall|i: int| 0 <= i < done.len() ==> out[i] == #[trigger] done[i]
            &&& forall|i: int| 0 <= i < bs.len() ==> same_shape(#[trigger] bs[i], out[done.len() + i])
        }),
    decreases bs.len(),
{
    if bs.len() > 0 {
        let step = inline_block(bs[0], callables, tables)->Ok_0;
        lemma_inline_blocks_keep_shape(bs.drop_first(), callables, step.1, done.push(step.0));
        let out = inline_blocks(bs, callables, tables, done)->Ok_0.0;
        assert forall|i: int| 0 <= i < done.len() implies out[i] == #[trigger] done[i] by {
            assert(done.push(step.0)[i] == done[i]);
        }
        assert forall|i: int| 0 <= i < bs.len() implies same_shape(#[trigger] bs[i], out[done.len() + i]) by {
            if i == 0 {
                assert(out[done.len() as int] == done.push(step.0)[done.len() as int]);
            } else {
                assert(bs.drop_first()[i - 1] == bs[i]);
            }
        }
    }
}

/// A program that passes the stage keeps its shape: as many blocks, each
/// of the kind and with the label it had, and the callables and structs
/// as they were.
pub proof fn lemma_inlining_keeps_shape(blocks: InitialStatementBlocksView)
    requires
        inline_macros_spec(blocks) is Ok,
    ensures
        inline_macros_spec(blocks)->Ok_0.blocks.len() == blocks.blocks.len(),
        forall|i: int|
            0 <= i < blocks.blocks.len() ==> same_shape(
                #[trigger] blocks.blocks[i],
                inline_macros_spec(blocks)->Ok_0.blocks[i],
            ),
        inline_macros_spec(blocks)->Ok_0.callables == blocks.callables,
        inline_macros_spec(blocks)->Ok_0.structs == blocks.structs,
{
    lemma_inline_blocks_keep_shape(blocks.blocks, blocks.callables, first_tables(), Seq::empty());
}

/// The statements of a block are treated piece by piece, as a run of
/// plain statements is.
pub proof fn lemma_inline_outer_statements_split(
    first: Seq<OuterStatementView>,
    second: Seq<OuterStatementView>,
    callables: Seq<CallableDefinitionView>,
    tables: InlineTablesView,
    done: Seq<OuterStatementView>,
)
    ensures
        inline_outer_statements(first + second, callables, tables, done) == match inline_outer_statements(
            first,
            callables,
            tables,
            done,
        ) {
            Err(err) => Err(err),
            Ok((out, next)) => inline_outer_statements(second, callables, next, out),
        },
    decreases first.len(),
{
    if first.len() == 0 {
        assert(first + second =~= second);
    } else {
        assert((first + second)[0] == first[0]);
        assert((first + second).drop_first() =~= first.drop_first() + second);
        match first[0] {
            OuterStatementView::Inner(s) => match inline_statement(s, callables, tables) {
                Err(err) => {},
                Ok((produced, next)) => {
                    lemma_inline_outer_statements_split(
                        first.drop_first(),
                        second,
                        callables,
                        next,
                        done + as_outer(produced),
                    );
                },
            },
            _ => {},
        }
    }
}

/// Blocks are treated one after the other: the first error ends the stage.
pub proof fn lemma_inline_blocks_split(
    first: Seq<BlockView>,
    second: Seq<BlockView>,
    callables: Seq<CallableDefinitionView>,
    tables: InlineTablesView,
    done: Seq<BlockView>,
)
    ensures
        inline_blocks(first + second, callables, tables, done) == match inline_blocks(
            first,
            callables,
            tables,
            done,
        ) {
            Err(err) => Err(err),
            Ok((out, next)) => inline_blocks(second, callables, next, out),
        },
    decreases first.len(),
{
    if first.len() == 0 {
        assert(first + second =~= second);
    } else {
        assert((first + second)[0] == first[0]);
        assert((first + second).drop_first() =~= first.drop_first() + second);
        match inline_block(first[0], callables, tables) {
            Err(err) => {},
            Ok((block, next)) => {
                lemma_inline_blocks_split(first.drop_first(), second, callables, next, done.push(block));
            },
        }
    }
}

/// Where a block is refused, the stage is refused with the same error,
/// as long as every block before it is accepted.
pub proof fn lemma_refused_block_ends_the_stage(blocks: InitialStatementBlocksView, index: int)
    requires
        0 <= index < blocks.blocks.len(),
        inline_blocks(blocks.blocks.take(index), blocks.callables, first_tables(), Seq::empty()) is Ok,
        inline_block(
            blocks.blocks[index],
            blocks.callables,
            inline_blocks(blocks.blocks.take(index), blocks.callables, first_tables(), Seq::empty())->Ok_0.1,
        ) is Err,
    ensures
        inline_macros_spec(blocks) is Err,
        inline_macros_spec(blocks)->Err_0 == inline_block(
            blocks.blocks[index],
            blocks.callables,
            inline_blocks(blocks.blocks.take(index), blocks.callables, first_tables(), Seq::empty())->Ok_0.1,
        )->Err_0,
{
    let rest = blocks.blocks.skip(index);
    let reached = inline_blocks(blocks.blocks.take(index), blocks.callables, first_tables(), Seq::empty())->Ok_0;
    assert(blocks.blocks =~= blocks.blocks.take(index) + rest);
    lemma_inline_blocks_split(blocks.blocks.take(index), rest, blocks.callables, first_tables(), Seq::empty());
    assert(rest.len() > 0);
    assert(rest[0] == blocks.blocks[index]);
    assert(inline_blocks(rest, blocks.callables, reached.1, reached.0) is Err);
}

/// A call of a macro with the wrong number of arguments, among the
/// statements of any block, ends the stage with the error that names the
/// callable and both numbers, as long as no block and no statement
/// before the call is refused.
pub proof fn lemma_wrong_argument_count_in_block(
    blocks: InitialStatementBlocksView,
    index: int,
    label: Option<Seq<char>>,
    before: Seq<OuterStatementView>,
    name: Seq<char>,
    args: Seq<ExpressionView>,
    after: Seq<OuterStatementView>,
)
    requires
        0 <= index < blocks.blocks.len(),
        blocks.blocks[index] == BlockView::Statements(
            label,
            before + seq![OuterStatementView::Inner(InnerStatementView::Call(name, args))] + after,
        ),
        inline_blocks(blocks.blocks.take(index), blocks.callables, first_tables(), Seq::empty()) is Ok,
        inline_outer_statements(
            before,
            blocks.callables,
            inline_blocks(blocks.blocks.take(index), blocks.callables, first_tables(), Seq::empty())->Ok_0.1,
            Seq::empty(),
        ) is Ok,
        find_callable(blocks.callables, name) is Some,
        find_callable(blocks.callables, name)->Some_0.call_type == CallType::Macro,
        find_callable(blocks.callables, name)->Some_0.return_type is None,
        find_callable(blocks.callables, name)->Some_0.attributes.len() == 0,
        find_callable(blocks.callables, name)->Some_0.parameters.len() != args.len(),
    ensures
        inline_macros_spec(blocks) == Err::<InitialStatementBlocksView, CompilerErrorView>(
            CompilerErrorView::IncorrectCallParameterCount(
                name,
                find_callable(blocks.callables, name)->Some_0.parameters.len(),
                args.len(),
            ),
        ),
{
    let tables = inline_blocks(blocks.blocks.take(index), blocks.callables, first_tables(), Seq::empty())->Ok_0.1;
    let call = seq![OuterStatementView::Inner(InnerStatementView::Call(name, args))];
    let none: Seq<OuterStatementView> = Seq::empty();
    let reached = inline_outer_statements(before, blocks.callables, tables, none)->Ok_0;
    assert(before + call + after =~= before + (call + after));
    lemma_inline_outer_statements_split(before, call + after, blocks.callables, tables, none);
    assert((call + after).len() > 0);
    assert((call + after)[0] == OuterStatementView::Inner(InnerStatementView::Call(name, args)));
    lemma_wrong_argument_count(name, args, blocks.callables, reached.1);
    assert(inline_statement(InnerStatementView::Call(name, args), blocks.callables, reached.1) == expand_call(
        name,
        args,
        blocks.callables,
        reached.1,
    ));
    assert(inline_outer_statements(call + after, blocks.callables, reached.1, reached.0) is Err);
    lemma_refused_block_ends_the_stage(blocks, index);
}

/// The same for a call among the statements of a line group.
pub proof fn lemma_wrong_argument_count_in_line(
    blocks: InitialStatementBlocksView,
    index: int,
    label: Option<Seq<char>>,
    before: Seq<InnerStatementView>,
    name: Seq<char>,
    args: Seq<ExpressionView>,
    after: Seq<InnerStatementView>,
)
    requires
        0 <= index < blocks.blocks.len(),
        blocks.blocks[index] == BlockView::Line(
            label,
            before + seq![InnerStatementView::Call(name, args)] + after,
        ),
        inline_blocks(blocks.blocks.take(index), blocks.callables, first_tables(), Seq::empty()) is Ok,
        inline_statements(
            before,
            blocks.callables,
            inline_blocks(blocks.blocks.take(index), blocks.callables, first_tables(), Seq::empty())->Ok_0.1,
            Seq::empty(),
        ) is Ok,
        find_callable(blocks.callables, name) is Some,
        find_callable(blocks.callables, name)->Some_0.call_type == CallType::Macro,
        find_callable(blocks.callables, name)->Some_0.return_type is None,
        find_callable(blocks.callables, name)->Some_0.attributes.len() == 0,
        find_callable(blocks.callables, name)->Some_0.parameters.len() != args.len(),
    ensures
        inline_macros_spec(blocks) == Err::<InitialStatementBlocksView, CompilerErrorView>(
            CompilerErrorView::IncorrectCallParameterCount(
                name,
                find_callable(blocks.callables, name)->Some_0.parameters.len(),
                args.len(),
            ),
        ),
{
    let tables = inline_blocks(blocks.blocks.take(index), blocks.callables, first_tables(), Seq::empty())->Ok_0.1;
    lemma_wrong_argument_count_anywhere(before, name, args, after, blocks.callables, tables, Seq::empty());
    lemma_refused_block_ends_the_stage(blocks, index);
}

/// Each expansion takes a call site number of its own: the next expansion
/// gets the next number.
pub proof fn lemma_expansion_advances_site(
    name: Seq<char>,
    args: Seq<ExpressionView>,
    callables: Seq<CallableDefinitionView>,
    tables: InlineTablesView,
)
    requires
        expand_call(name, args, callables, tables) is Ok,
    ensures
        expand_call(name, args, callables, tables)->Ok_0.1.site == tables.site + 1,
{
}

/// Every name that a macro's body declares is bound, for the call site,
/// to the name that the site gives it; every other name keeps what the
/// bindings of the parameters say.
pub proof fn lemma_declared_names_are_renamed(
    names: Seq<Seq<char>>,
    site: nat,
    bindings: Seq<(Seq<char>, ExpressionView)>,
    name: Seq<char>,
)
    ensures
        find_binding(local_bindings(names, site, bindings), name) == if names.contains(name) {
            Some(ExpressionView::FieldAccess(seq![local_name(site, name)]))
        } else {
            find_binding(bindings, name)
        },
    decreases names.len(),
{
    if names.len() > 0 {
        let first = (names[0], ExpressionView::FieldAccess(seq![local_name(site, names[0])]));
        let next = bindings.push(first);
        lemma_declared_names_are_renamed(names.drop_first(), site, next, name);
        assert(next.drop_last() =~= bindings);
        assert(next.last() == first);
        if names.drop_first().contains(name) {
            let i = choose|i: int| 0 <= i < names.drop_first().len() && names.drop_first()[i] == name;
            assert(names[i + 1] == name);
        }
        if names.contains(name) && names[0] != name {
            let i = choose|i: int| 0 <= i < names.len() && names[i] == name;
            assert(names.drop_first()[i - 1] == name);
        }
    }
}

/// Two expansions share no name that a body declares: what two different
/// call sites make of declared names is never the same name.
pub proof fn lemma_expansions_share_no_declared_name(
    first_names: Seq<Seq<char>>,
    first_site: nat,
    first_bindings: Seq<(Seq<char>, ExpressionView)>,
    first_name: Seq<char>,
    second_names: Seq<Seq<char>>,
    second_site: nat,
    second_bindings: Seq<(Seq<char>, ExpressionView)>,
    second_name: Seq<char>,
)
    requires
        first_site != second_site,
        first_names.contains(first_name),
        second_names.contains(second_name),
    ensures
        substitute_name(first_name, local_bindings(first_names, first_site, first_bindings)) == Ok::<
            Seq<char>,
            CompilerErrorView,
        >(local_name(first_site, first_name)),
        substitute_name(second_name, local_bindings(second_names, second_site, second_bindings)) == Ok::<
            Seq<char>,
            CompilerErrorView,
        >(local_name(second_site, second_name)),
        local_name(first_site, first_name) != local_name(second_site, second_name),
{
    lemma_declared_names_are_renamed(first_names, first_site, first_bindings, first_name);
    lemma_declared_names_are_renamed(second_names, second_site, second_bindings, second_name);
    lemma_canonical_single(local_name(first_site, first_name));
    lemma_canonical_single(local_name(second_site, second_name));
    lemma_local_names_apart(first_site, first_name, second_site, second_name);
}

/// The callable that `name` finds.
pub fn lookup_callable<'a>(callables: &'a Vec<CallableDefinition>, name: &String) -> (r: Option<
    &'a CallableDefinition,
>)
    ensures
        r.deep_view() == find_callable(callables.deep_view(), name@),
{
    let ghost all = callables.deep_view();
    let mut i: usize = callables.len();
    assert(all.take(i as int) =~= all);
    while i > 0
        invariant
            i <= callables.len(),
            all == callables.deep_view(),
            find_callable(all, name@) == find_callable(all.take(i as int), name@),
        decreases i,
    {
        i -= 1;
        assert(all.take(i + 1).drop_last() =~= all.take(i as int));
        assert(all.take(i + 1).last() == callables@[i as int]@);
        if callables[i].name == *name {
            return Some(&callables[i]);
        }
    }
    None
}

/// Whether a call of `callable` with `count` arguments can be expanded.
pub fn validate_callable(callable: &CallableDefinition, name: &String, count: usize) -> (r: Result<
    (),
    CompilerError,
>)
    ensures
        crate::error::unit_result_view(r) == check_callable(callable@, name@, count as nat),
{
    if callable.return_type.is_some() {
        return Err(not_implemented("return values from calls are not implemented"));
    }
    if callable.attributes.len() != 0 {
        return Err(not_implemented("Call attributes are not implemented"));
    }
    if let CallType::Proc = callable.call_type {
        return Err(not_implemented("`proc` calls are not implemented"));
    }
    if callable.parameters.len() != count {
        return Err(CompilerError::IncorrectCallParameterCount(name.clone(), callable.parameters.len(), count));
    }
    Ok(())
}

fn direct(arg: &Expression) -> (b: bool)
    ensures
        b == is_direct(arg@),
{
    broadcast use group_ast_views;
    match arg {
        Expression::FieldAccess(_) => true,
        Expression::ExternalFieldAccess(_) => true,
        Expression::ConstNumber(_) => true,
        Expression::ConstString(_) => true,
        _ => false,
    }
}

/// Binds one parameter to one argument.
pub fn bind_parameter(
    parameter: &ParameterDefinition,
    arg: &Expression,
    index: usize,
    site: u64,
    types: &TypeEnvironment,
) -> (r: Result<(Vec<InnerStatement>, (String, Expression)), CompilerError>)
    ensures
        result_view(r) == bind_argument(parameter@, arg@, index as nat, site as nat, types@),
{
    broadcast use group_ast_views;
    if let Expression::ExternalFieldAccess(_) = arg {
        return Ok((empty_deep(), (parameter.field.name.clone(), clone_expression(arg))));
    }
    let t = match infer_expr_type(arg, types) {
        Ok(t) => t,
        Err(err) => { return Err(err); },
    };
    match type_check_assignment(&parameter.field.typename.to_type(), &t) {
        Ok(_) => {},
        Err(err) => { return Err(err); },
    }
    if direct(arg) {
        Ok((empty_deep(), (parameter.field.name.clone(), clone_expression(arg))))
    } else {
        let name = make_temporary_name(site, index as u64);
        let mut declared: Vec<InnerStatement> = empty_deep();
        let mut path: Vec<String> = empty_deep();
        push_deep(&mut path, name.clone());
        assert(path.deep_view() =~= seq![name@]);
        push_deep(
            &mut declared,
            InnerStatement::DeclareAssign(FieldDefinition { name, typename: t.to_typename() }, clone_expression(arg)),
        );
        assert(declared.deep_view() =~= seq![declared.deep_view()[0]]);
        Ok((declared, (parameter.field.name.clone(), Expression::FieldAccess(path))))
    }
}

/// Binds every parameter to its argument, in their order.
pub fn bind_parameters(
    parameters: &Vec<ParameterDefinition>,
    args: &Vec<Expression>,
    site: u64,
    types: &TypeEnvironment,
) -> (r: Result<(Vec<InnerStatement>, Vec<(String, Expression)>), CompilerError>)
    ensures
        result_view(r) == bind_arguments(
            parameters.deep_view(),
            args.deep_view(),
            0,
            site as nat,
            types@,
            Seq::empty(),
            Seq::empty(),
        ),
{
    let mut temporaries: Vec<InnerStatement> = empty_deep();
    let mut bindings: Vec<(String, Expression)> = empty_deep();
    let mut i: usize = 0;
    while i < args.len() && i < parameters.len()
        invariant
            bind_arguments(
                parameters.deep_view(),
                args.deep_view(),
                0,
                site as nat,
                types@,
                Seq::empty(),
                Seq::empty(),
            ) == bind_arguments(
                parameters.deep_view(),
                args.deep_view(),
                i as nat,
                site as nat,
                types@,
                temporaries.deep_view(),
                bindings.deep_view(),
            ),
        decreases args.len() - i,
    {
        match bind_parameter(&parameters[i], &args[i], i, site, types) {
            Err(err) => {
                return Err(err);
            },
            Ok((mut declared, binding)) => {
                append_deep(&mut temporaries, &mut declared);
                push_deep(&mut bindings, binding);
            },
        }
        i += 1;
    }
    Ok((temporaries, bindings))
}

/// Gathers the names that a statement declares.
pub fn gather_declared_in(s: &InnerStatement, names: &mut Vec<String>)
    ensures
        final(names).deep_view() == collect_declared_in(s@, old(names).deep_view()),
    decreases s, 0nat,
{
    broadcast use group_ast_views;
    match s {
        InnerStatement::DeclareAssign(field, _) => {
            push_deep(names, field.name.clone());
        },
        InnerStatement::DeclareConst(field, _) => {
            push_deep(names, field.name.clone());
        },
        InnerStatement::If(_, pass, fail) => {
            gather_declared(pass, names);
            gather_declared(fail, names);
        },
        _ => {},
    }
}

/// Gathers the names that statements declare, in their order.
#[verifier::loop_isolation(false)]
pub fn gather_declared(ss: &Vec<InnerStatement>, names: &mut Vec<String>)
    ensures
        final(names).deep_view() == collect_declared(ss.deep_view(), old(names).deep_view()),
    decreases ss, 1nat,
{
    let ghost all = ss.deep_view();
    let mut i: usize = 0;
    proof {
        lemma_skip_all(all);
    }
    while i < ss.len()
        invariant
            i <= ss.len(),
            collect_declared(all, old(names).deep_view()) == collect_declared(all.skip(i as int), names.deep_view()),
        decreases ss.len() - i,
    {
        proof {
            lemma_skip_step(all, i as int);
        }
        gather_declared_in(&ss[i], names);
        i += 1;
    }
    proof {
        lemma_skip_all(all);
    }
}

/// Adds the bindings that rename `names` for the call at `site`.
pub fn bind_locals(names: &Vec<String>, site: u64, bindings: &mut Vec<(String, Expression)>)
    ensures
        final(bindings).deep_view() == local_bindings(names.deep_view(), site as nat, old(bindings).deep_view()),
{
    let ghost all = names.deep_view();
    let mut i: usize = 0;
    proof {
        lemma_skip_all(all);
    }
    while i < names.len()
        invariant
            i <= names.len(),
            all == names.deep_view(),
            local_bindings(all, site as nat, old(bindings).deep_view()) == local_bindings(
                all.skip(i as int),
                site as nat,
                bindings.deep_view(),
            ),
        decreases names.len() - i,
    {
        proof {
            lemma_skip_step(all, i as int);
        }
        let mut path: Vec<String> = empty_deep();
        let renamed = make_local_name(site, &names[i]);
        push_deep(&mut path, renamed);
        assert(path.deep_view() =~= seq![local_name(site as nat, names@[i as int]@)]);
        push_deep(bindings, (names[i].clone(), Expression::FieldAccess(path)));
        i += 1;
    }
    proof {
        lemma_skip_all(all);
    }
}

/// Enters the names that a statement declares in the type environment.
pub fn declare_statement(s: &InnerStatement, types: TypeEnvironment) -> (r: Result<TypeEnvironment, CompilerError>)
    ensures
        result_view(r) == declare_in(s@, types@),
    decreases s, 0nat,
{
    broadcast use group_ast_views;
    match s {
        InnerStatement::DeclareAssign(field, _) => declare(field, types),
        InnerStatement::DeclareConst(field, _) => declare(field, types),
        InnerStatement::If(_, pass, fail) => match declare_statements(pass, types) {
            Err(err) => Err(err),
            Ok(next) => declare_statements(fail, next),
        },
        _ => Ok(types),
    }
}

/// Enters the names that statements declare in the type environment, in their order.
#[verifier::loop_isolation(false)]
pub fn declare_statements(ss: &Vec<InnerStatement>, types: TypeEnvironment) -> (r: Result<
    TypeEnvironment,
    CompilerError,
>)
    ensures
        result_view(r) == declare_all(ss.deep_view(), types@),
    decreases ss, 1nat,
{
    let ghost all = ss.deep_view();
    let ghost start = types@;
    let mut types = types;
    let mut i: usize = 0;
    proof {
        lemma_skip_all(all);
    }
    while i < ss.len()
        invariant
            i <= ss.len(),
            declare_all(all, start) == declare_all(all.skip(i as int), types@),
        decreases ss.len() - i,
    {
        proof {
            lemma_skip_step(all, i as int);
        }
        match declare_statement(&ss[i], types) {
            Err(err) => {
                return Err(err);
            },
            Ok(next) => {
                types = next;
            },
        }
        i += 1;
    }
    proof {
        lemma_skip_all(all);
    }
    Ok(types)
}

/// Whether a statement is a call, or holds one in a branch.
pub fn is_or_holds_call(s: &InnerStatement) -> (b: bool)
    ensures
        b == holds_call(s@),
    decreases s, 0nat,
{
    broadcast use group_ast_views;
    match s {
        InnerStatement::Call(_, _) => true,
        InnerStatement::If(_, pass, fail) => !holds_no_call(pass) || !holds_no_call(fail),
        _ => false,
    }
}

/// Whether no statement of the list is a call or holds one in a branch.
#[verifier::loop_isolation(false)]
pub fn holds_no_call(ss: &Vec<InnerStatement>) -> (b: bool)
    ensures
        b == call_free(ss.deep_view()),
    decreases ss, 1nat,
{
    let mut i: usize = 0;
    while i < ss.len()
        invariant
            i <= ss.len(),
            forall|j: int| 0 <= j < i ==> !holds_call(#[trigger] ss.deep_view()[j]),
        decreases ss.len() - i,
    {
        if is_or_holds_call(&ss[i]) {
            assert(holds_call(ss.deep_view()[i as int]));
            return false;
        }
        i += 1;
    }
    true
}

/// Expands one call.
pub fn handle_call_stmt(
    name: &String,
    args: &Vec<Expression>,
    callables: &Vec<CallableDefinition>,
    tables: InlineTables,
) -> (r: Result<(Vec<InnerStatement>, InlineTables), CompilerError>)
    ensures
        result_view(r) == expand_call(name@, args.deep_view(), callables.deep_view(), tables@),
{
    let callable = match lookup_callable(callables, name) {
        Some(c) => c,
        None => {
            return Err(CompilerError::CallableNotFound(name.clone()));
        },
    };
    match validate_callable(callable, name, args.len()) {
        Ok(_) => {},
        Err(err) => {
            return Err(err);
        },
    }
    if !holds_no_call(&callable.statements) {
        return Err(not_implemented("Calls inside a macro body are not implemented"));
    }
    let InlineTables { types, site } = tables;
    if site == u64::MAX {
        return Err(CompilerError::Internal("Call sites can no longer be numbered".to_string()));
    }
    let (mut result, mut bindings) = match bind_parameters(&callable.parameters, args, site, &types) {
        Ok(r) => r,
        Err(err) => {
            return Err(err);
        },
    };
    let mut names: Vec<String> = empty_deep();
    gather_declared(&callable.statements, &mut names);
    bind_locals(&names, site, &mut bindings);
    let mut body = match replace_in_statements(&callable.statements, &bindings) {
        Ok(b) => b,
        Err(err) => {
            return Err(err);
        },
    };
    append_deep(&mut result, &mut body);
    match declare_statements(&result, types) {
        Err(err) => Err(err),
        Ok(types) => Ok((result, InlineTables { types, site: site + 1 })),
    }
}

/// Treats one statement.
pub fn handle_inner_stmt(inner: &InnerStatement, callables: &Vec<CallableDefinition>, tables: InlineTables) -> (r:
    Result<(Vec<InnerStatement>, InlineTables), CompilerError>)
    ensures
        result_view(r) == inline_statement(inner@, callables.deep_view(), tables@),
    decreases inner, 0nat,
{
    broadcast use group_ast_views;
    match inner {
        InnerStatement::Call(name, args) => handle_call_stmt(name, args, callables, tables),
        InnerStatement::DeclareAssign(field, _) => {
            let InlineTables { types, site } = tables;
            match declare(field, types) {
                Err(err) => Err(err),
                Ok(types) => Ok((single(clone_inner_statement(inner)), InlineTables { types, site })),
            }
        },
        InnerStatement::DeclareConst(field, _) => {
            let InlineTables { types, site } = tables;
            match declare(field, types) {
                Err(err) => Err(err),
                Ok(types) => Ok((single(clone_inner_statement(inner)), InlineTables { types, site })),
            }
        },
        InnerStatement::If(condition, pass, fail) => {
            let (p, after_pass) = match handle_inner_stmts(pass, callables, tables) {
                Ok(r) => r,
                Err(err) => {
                    return Err(err);
                },
            };
            let (f, after_fail) = match handle_inner_stmts(fail, callables, after_pass) {
                Ok(r) => r,
                Err(err) => {
                    return Err(err);
                },
            };
            Ok((single(InnerStatement::If(clone_expression(condition), p, f)), after_fail))
        },
        _ => Ok((single(clone_inner_statement(inner)), tables)),
    }
}

/// Treats a run of statements in their order.
#[verifier::loop_isolation(false)]
pub fn handle_inner_stmts(stmts: &Vec<InnerStatement>, callables: &Vec<CallableDefinition>, tables: InlineTables) -> (r:
    Result<(Vec<InnerStatement>, InlineTables), CompilerError>)
    ensures
        result_view(r) == inline_statements(stmts.deep_view(), callables.deep_view(), tables@, Seq::empty()),
    decreases stmts, 1nat,
{
    let ghost all = stmts.deep_view();
    let ghost start = tables@;
    let mut out: Vec<InnerStatement> = empty_deep();
    let mut tables = tables;
    let mut i: usize = 0;
    proof {
        lemma_skip_all(all);
    }
    while i < stmts.len()
        invariant
            i <= stmts.len(),
            inline_statements(all, callables.deep_view(), start, Seq::empty()) == inline_statements(
                all.skip(i as int),
                callables.deep_view(),
                tables@,
                out.deep_view(),
            ),
        decreases stmts.len() - i,
    {
        proof {
            lemma_skip_step(all, i as int);
        }
        match handle_inner_stmt(&stmts[i], callables, tables) {
            Err(err) => {
                return Err(err);
            },
            Ok((mut produced, next)) => {
                append_deep(&mut out, &mut produced);
                tables = next;
            },
        }
        i += 1;
    }
    proof {
        lemma_skip_all(all);
    }
    Ok((out, tables))
}

/// Treats the statements of a block in their order.
#[verifier::loop_isolation(false)]
pub fn handle_outer_stmts(stmts: &Vec<OuterStatement>, callables: &Vec<CallableDefinition>, tables: InlineTables) -> (r:
    Result<(Vec<OuterStatement>, InlineTables), CompilerError>)
    ensures
        result_view(r) == inline_outer_statements(stmts.deep_view(), callables.deep_view(), tables@, Seq::empty()),
{
    let ghost all = stmts.deep_view();
    let ghost start = tables@;
    let mut out: Vec<OuterStatement> = empty_deep();
    let mut tables = tables;
    let mut i: usize = 0;
    proof {
        lemma_skip_all(all);
    }
    while i < stmts.len()
        invariant
            i <= stmts.len(),
            inline_outer_statements(all, callables.deep_view(), start, Seq::empty()) == inline_outer_statements(
                all.skip(i as int),
                callables.deep_view(),
                tables@,
                out.deep_view(),
            ),
        decreases stmts.len() - i,
    {
        proof {
            lemma_skip_step(all, i as int);
        }
        match &stmts[i] {
            OuterStatement::Inner(inner) => match handle_inner_stmt(inner, callables, tables) {
                Err(err) => {
                    return Err(err);
                },
                Ok((produced, next)) => {
                    append_as_outer(&mut out, produced);
                    tables = next;
                },
            },
            other => {
                return Err(stray_marker(other));
            },
        }
        i += 1;
    }
    proof {
        lemma_skip_all(all);
    }
    Ok((out, tables))
}

/// Treats one block.
pub fn handle_block(b: &Block, callables: &Vec<CallableDefinition>, tables: InlineTables) -> (r: Result<
    (Block, InlineTables),
    CompilerError,
>)
    ensures
        result_view(r) == inline_block(b@, callables.deep_view(), tables@),
{
    match b {
        Block::Statements(label, stmts) => match handle_outer_stmts(stmts, callables, tables) {
            Err(err) => Err(err),
            Ok((produced, next)) => Ok((Block::Statements(clone_label(label), produced), next)),
        },
        Block::Line(label, stmts) => match handle_inner_stmts(stmts, callables, tables) {
            Err(err) => Err(err),
            Ok((produced, next)) => Ok((Block::Line(clone_label(label), produced), next)),
        },
    }
}

impl InitialStatementBlocks {
    /// Replaces every call of a macro, in the blocks and in the branches of
    /// their conditionals, by the body of the macro. Calls that cannot be
    /// expanded are refused, never expanded in part.
    #[verifier::loop_isolation(false)]
    pub fn inline_macros(self, config: &BuildConfig) -> (r: Result<InitialStatementBlocks, CompilerError>)
        ensures
            result_view(r) == inline_macros_spec(self@),
    {
        let ghost all = self.blocks.deep_view();
        let mut tables = InlineTables { types: TypeEnvironment::new(), site: 0 };
        let ghost start = tables@;
        let mut out: Vec<Block> = empty_deep();
        let mut i: usize = 0;
        proof {
            lemma_skip_all(all);
        }
        while i < self.blocks.len()
            invariant
                i <= self.blocks.len(),
                inline_blocks(all, self.callables.deep_view(), start, Seq::empty()) == inline_blocks(
                    all.skip(i as int),
                    self.callables.deep_view(),
                    tables@,
                    out.deep_view(),
                ),
            decreases self.blocks.len() - i,
        {
            proof {
                lemma_skip_step(all, i as int);
            }
            match handle_block(&self.blocks[i], &self.callables, tables) {
                Err(err) => {
                    return Err(err);
                },
                Ok((block, next)) => {
                    push_deep(&mut out, block);
                    tables = next;
                },
            }
            i += 1;
        }
        proof {
            lemma_skip_all(all);
        }
        Ok(InitialStatementBlocks { blocks: out, callables: self.callables, structs: self.structs })
    }
}

} // verus!
