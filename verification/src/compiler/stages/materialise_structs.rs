//! The third stage: a struct built by a constructor becomes one scalar
//! field per member.

use vstd::prelude::*;
use crate::compiler::build_config::BuildConfig;
use crate::compiler::environment::{TableView, TypeEnvironment};
use crate::compiler::fields::{canonical_name, canonicalise_field_path};
use crate::compiler::stages::initial_blocks::{Block, BlockView, InitialStatementBlocks, InitialStatementBlocksView};
use crate::compiler::stages::statements::{append_as_outer, as_outer, single, stray_marker, stray_marker_text};
use crate::compiler::typecheck::{
    check_assignment, declare, declare_field, infer_expr_type, infer_type, named_type, type_check_assignment, Type,
    TypeView,
};
use crate::error::{result_view, CompilerError, CompilerErrorView};
use crate::grammar::ast::{
    clone_expression, clone_inner_statement, group_ast_views, Expression, ExpressionView, FieldDefinition,
    FieldDefinitionView, InnerStatement, InnerStatementView, OuterStatement, OuterStatementView, StructDefinition,
    StructDefinitionView, TypeName,
};
use crate::views::{
    append_deep, clone_label, clone_strings, empty_deep, enclose, lemma_skip_all, lemma_skip_step, push_deep,
};

verus! {

/// The struct that a name finds: the last definition that bears it.
pub open spec fn find_struct(structs: Seq<StructDefinitionView>, name: Seq<char>) -> Option<StructDefinitionView>
    decreases structs.len(),
{
    if structs.len() == 0 {
        None
    } else if structs.last().name == name {
        Some(structs.last())
    } else {
        find_struct(structs.drop_last(), name)
    }
}

/// The value that a constructor gives the member `member`: that of the
/// first initialiser of that name.
pub open spec fn find_initialiser(inits: Seq<(Seq<char>, ExpressionView)>, member: Seq<char>) -> Option<
    ExpressionView,
>
    decreases inits.len(),
{
    if inits.len() == 0 {
        None
    } else if inits[0].0 == member {
        Some(inits[0].1)
    } else {
        find_initialiser(inits.drop_first(), member)
    }
}

/// Whether the struct has a member of the name `name`.
pub open spec fn has_member(fields: Seq<FieldDefinitionView>, name: Seq<char>) -> bool {
    exists|i: int| 0 <= i < fields.len() && #[trigger] fields[i].name == name
}

/// The first initialiser, in the order of the constructor, that names no
/// member of the struct.
pub open spec fn unknown_member(inits: Seq<(Seq<char>, ExpressionView)>, fields: Seq<FieldDefinitionView>) -> Option<
    Seq<char>,
>
    decreases inits.len(),
{
    if inits.len() == 0 {
        None
    } else if !has_member(fields, inits[0].0) {
        Some(inits[0].0)
    } else {
        unknown_member(inits.drop_first(), fields)
    }
}

/// The message for a constructor that leaves out the member `name`.
pub open spec fn missing_member_text(name: Seq<char>) -> Seq<char> {
    "Struct literal is missing member `"@ + name + "`"@
}

/// The message for a constructor that names `name`, which is no member.
pub open spec fn unknown_member_text(name: Seq<char>) -> Seq<char> {
    "Struct literal has unknown member `"@ + name + "`"@
}

/// The statement that gives the member `member` of the field at `parent`
/// the value `value`: a declaration of the member's canonical name where
/// the struct is declared, an assignment to the member's path where it is
/// assigned.
pub open spec fn member_statement(
    parent: Seq<Seq<char>>,
    member: FieldDefinitionView,
    value: ExpressionView,
    declares: bool,
) -> InnerStatementView {
    if declares {
        InnerStatementView::DeclareAssign(
            FieldDefinitionView { name: canonical_name(parent.push(member.name)), typename: member.typename },
            value,
        )
    } else {
        InnerStatementView::Assign(parent.push(member.name), value)
    }
}

/// One member's turn: its initialiser must be there and of a type that the
/// member accepts, and where the struct is declared the member's name must
/// be new.
pub open spec fn flatten_member(
    member: FieldDefinitionView,
    inits: Seq<(Seq<char>, ExpressionView)>,
    parent: Seq<Seq<char>>,
    declares: bool,
    env: TableView<TypeView>,
) -> Result<(InnerStatementView, TableView<TypeView>), CompilerErrorView> {
    match find_initialiser(inits, member.name) {
        None => Err(CompilerErrorView::CompilerStageNotImplemented(missing_member_text(member.name))),
        Some(value) => match infer_type(value, env) {
            Err(err) => Err(err),
            Ok(t) => match check_assignment(named_type(member.typename), t) {
                Err(err) => Err(err),
                Ok(_) => if declares {
                    match declare_field(
                        FieldDefinitionView { name: canonical_name(parent.push(member.name)), typename: member.typename },
                        env,
                    ) {
                        Err(err) => Err(err),
                        Ok(next) => Ok((member_statement(parent, member, value, declares), next)),
                    }
                } else {
                    Ok((member_statement(parent, member, value, declares), env))
                },
            },
        }
    }
}

/// The statements for the members `fields`, in the order of the struct's
/// definition, behind those in `done`.
pub open spec fn flatten_members(
    fields: Seq<FieldDefinitionView>,
    inits: Seq<(Seq<char>, ExpressionView)>,
    parent: Seq<Seq<char>>,
    declares: bool,
    env: TableView<TypeView>,
    done: Seq<InnerStatementView>,
) -> Result<(Seq<InnerStatementView>, TableView<TypeView>), CompilerErrorView>
    decreases fields.len(),
{
    if fields.len() == 0 {
        Ok((done, env))
    } else {
        match flatten_member(fields[0], inits, parent, declares, env) {
            Err(err) => Err(err),
            Ok((statement, next)) => flatten_members(
                fields.drop_first(),
                inits,
                parent,
                declares,
                next,
                done.push(statement),
            ),
        }
    }
}

/// The statements that replace a constructor for the field at `parent`,
/// whose type is `target`. The type must name a known struct and accept
/// the type that the constructor names; the constructor must name members
/// only, and all of them.
pub open spec fn flatten_constructor(
    target: TypeView,
    typename: Seq<char>,
    inits: Seq<(Seq<char>, ExpressionView)>,
    parent: Seq<Seq<char>>,
    declares: bool,
    structs: Seq<StructDefinitionView>,
    env: TableView<TypeView>,
) -> Result<(Seq<InnerStatementView>, TableView<TypeView>), CompilerErrorView> {
    match target.canonical() {
        TypeView::Other(name) => match find_struct(structs, name) {
            None => Err(CompilerErrorView::FieldConstructorAssignment(target, inits)),
            Some(definition) => match check_assignment(target, named_type(typename)) {
                Err(err) => Err(err),
                Ok(_) => match unknown_member(inits, definition.fields) {
                    Some(unknown) => Err(CompilerErrorView::CompilerStageNotImplemented(unknown_member_text(unknown))),
                    None => flatten_members(definition.fields, inits, parent, declares, env, Seq::empty()),
                },
            },
        },
        _ => Err(CompilerErrorView::FieldConstructorAssignment(target, inits)),
    }
}

/// The statements that stand for one statement after the stage, and the
/// type environment after it.
pub open spec fn flatten_statement(
    s: InnerStatementView,
    structs: Seq<StructDefinitionView>,
    env: TableView<TypeView>,
) -> Result<(Seq<InnerStatementView>, TableView<TypeView>), CompilerErrorView>
    decreases s,
{
    match s {
        InnerStatementView::DeclareAssign(field, ExpressionView::Constructor(typename, inits)) => match declare_field(
            field,
            env,
        ) {
            Err(err) => Err(err),
            Ok(next) => flatten_constructor(
                named_type(field.typename),
                typename,
                inits,
                seq![field.name],
                true,
                structs,
                next,
            ),
        },
        InnerStatementView::DeclareAssign(field, _) => match declare_field(field, env) {
            Err(err) => Err(err),
            Ok(next) => Ok((seq![s], next)),
        },
        InnerStatementView::DeclareConst(field, _) => match declare_field(field, env) {
            Err(err) => Err(err),
            Ok(next) => Ok((seq![s], next)),
        },
        InnerStatementView::Assign(path, ExpressionView::Constructor(typename, inits)) => if !env.contains_key(
            canonical_name(path),
        ) {
            Err(CompilerErrorView::FieldTypeNotKnown(path))
        } else {
            flatten_constructor(env[canonical_name(path)], typename, inits, path, false, structs, env)
        },
        InnerStatementView::If(condition, pass, fail) => match flatten_statements(pass, structs, env, Seq::empty()) {
            Err(err) => Err(err),
            Ok((p, after_pass)) => match flatten_statements(fail, structs, after_pass, Seq::empty()) {
                Err(err) => Err(err),
                Ok((f, after_fail)) => Ok((seq![InnerStatementView::If(condition, p, f)], after_fail)),
            },
        },
        _ => Ok((seq![s], env)),
    }
}

/// The statements that stand for `ss` after the stage, behind those in `done`.
pub open spec fn flatten_statements(
    ss: Seq<InnerStatementView>,
    structs: Seq<StructDefinitionView>,
    env: TableView<TypeView>,
    done: Seq<InnerStatementView>,
) -> Result<(Seq<InnerStatementView>, TableView<TypeView>), CompilerErrorView>
    decreases ss,
{
    if ss.len() == 0 {
        Ok((done, env))
    } else {
        match flatten_statement(ss[0], structs, env) {
            Err(err) => Err(err),
            Ok((produced, next)) => flatten_statements(ss.drop_first(), structs, next, done + produced),
        }
    }
}

/// The statements of a block after the stage, behind those in `done`.
pub open spec fn flatten_outer_statements(
    ss: Seq<OuterStatementView>,
    structs: Seq<StructDefinitionView>,
    env: TableView<TypeView>,
    done: Seq<OuterStatementView>,
) -> Result<(Seq<OuterStatementView>, TableView<TypeView>), CompilerErrorView>
    decreases ss.len(),
{
    if ss.len() == 0 {
        Ok((done, env))
    } else {
        match ss[0] {
            OuterStatementView::Inner(s) => match flatten_statement(s, structs, env) {
                Err(err) => Err(err),
                Ok((produced, next)) => flatten_outer_statements(
                    ss.drop_first(),
                    structs,
                    next,
                    done + as_outer(produced),
                ),
            },
            _ => Err(CompilerErrorView::Internal(stray_marker_text(ss[0]))),
        }
    }
}

/// A block after the stage: same kind, same label.
pub open spec fn flatten_block(b: BlockView, structs: Seq<StructDefinitionView>, env: TableView<TypeView>) -> Result<
    (BlockView, TableView<TypeView>),
    CompilerErrorView,
> {
    match b {
        BlockView::Statements(label, stmts) => match flatten_outer_statements(stmts, structs, env, Seq::empty()) {
            Err(err) => Err(err),
            Ok((produced, next)) => Ok((BlockView::Statements(label, produced), next)),
        },
        BlockView::Line(label, stmts) => match flatten_statements(stmts, structs, env, Seq::empty()) {
            Err(err) => Err(err),
            Ok((produced, next)) => Ok((BlockView::Line(label, produced), next)),
        },
    }
}

/// The blocks after the stage, one for one, behind those in `done`.
pub open spec fn flatten_blocks(
    bs: Seq<BlockView>,
    structs: Seq<StructDefinitionView>,
    env: TableView<TypeView>,
    done: Seq<BlockView>,
) -> Result<(Seq<BlockView>, TableView<TypeView>), CompilerErrorView>
    decreases bs.len(),
{
    if bs.len() == 0 {
        Ok((done, env))
    } else {
        match flatten_block(bs[0], structs, env) {
            Err(err) => Err(err),
            Ok((block, next)) => flatten_blocks(bs.drop_first(), structs, next, done.push(block)),
        }
    }
}

/// The outcome of the stage on the blocks of a program.
pub open spec fn materialise_structs_spec(blocks: InitialStatementBlocksView) -> Result<
    InitialStatementBlocksView,
    CompilerErrorView,
> {
    match flatten_blocks(blocks.blocks, blocks.structs, TableView::empty(), Seq::empty()) {
        Err(err) => Err(err),
        Ok((produced, _)) => Ok(
            InitialStatementBlocksView { blocks: produced, callables: blocks.callables, structs: blocks.structs },
        ),
    }
}

/// A constructor that is accepted gives exactly one statement per member
/// of the struct, in the order of the struct's definition, each with the
/// value that the constructor gives that member.
pub proof fn lemma_one_statement_per_member(
    fields: Seq<FieldDefinitionView>,
    inits: Seq<(Seq<char>, ExpressionView)>,
    parent: Seq<Seq<char>>,
    declares: bool,
    env: TableView<TypeView>,
    done: Seq<InnerStatementView>,
)
    requires
        flatten_members(fields, inits, parent, declares, env, done) is Ok,
    ensures
        ({
            let out = flatten_members(fields, inits, parent, declares, env, done)->Ok_0.0;
            &&& out.len() == done.len() + fields.len()
            &&& forall|i: int| 0 <= i < done.len() ==> out[i] == done[i]
            &&& forall|i: int|
                0 <= i < fields.len() ==> find_initialiser(inits, #[trigger] fields[i].name) is Some && out[done.len()
                    + i] == member_statement(
                    parent,
                    fields[i],
                    find_initialiser(inits, fields[i].name)->Some_0,
                    declares,
                )
        }),
    decreases fields.len(),
{
    if fields.len() > 0 {
        let step = flatten_member(fields[0], inits, parent, declares, env);
        let statement = step->Ok_0.0;
        let next = step->Ok_0.1;
        lemma_one_statement_per_member(fields.drop_first(), inits, parent, declares, next, done.push(statement));
        let out = flatten_members(fields, inits, parent, declares, env, done)->Ok_0.0;
        assert forall|i: int| 0 <= i < fields.len() implies find_initialiser(inits, #[trigger] fields[i].name) is Some
            && out[done.len() + i] == member_statement(
            parent,
            fields[i],
            find_initialiser(inits, fields[i].name)->Some_0,
            declares,
        ) by {
            if i == 0 {
                assert(out[done.len() as int] == done.push(statement)[done.len() as int]);
            } else {
                assert(fields.drop_first()[i - 1] == fields[i]);
            }
        }
    }
}

/// A constructor that leaves out a member of the struct is refused.
pub proof fn lemma_missing_member_refused(
    fields: Seq<FieldDefinitionView>,
    inits: Seq<(Seq<char>, ExpressionView)>,
    parent: Seq<Seq<char>>,
    declares: bool,
    env: TableView<TypeView>,
    done: Seq<InnerStatementView>,
    index: int,
)
    requires
        0 <= index < fields.len(),
        find_initialiser(inits, fields[index].name) is None,
    ensures
        flatten_members(fields, inits, parent, declares, env, done) is Err,
    decreases fields.len(),
{
    if index > 0 {
        let step = flatten_member(fields[0], inits, parent, declares, env);
        if step is Ok {
            assert(fields.drop_first()[index - 1] == fields[index]);
            lemma_missing_member_refused(
                fields.drop_first(),
                inits,
                parent,
                declares,
                step->Ok_0.1,
                done.push(step->Ok_0.0),
                index - 1,
            );
        }
    }
}

/// The struct that `name` finds.
pub fn lookup_struct<'a>(structs: &'a Vec<StructDefinition>, name: &String) -> (r: Option<&'a StructDefinition>)
    ensures
        r.deep_view() == find_struct(structs.deep_view(), name@),
{
    let ghost all = structs.deep_view();
    let mut i: usize = structs.len();
    assert(all.take(i as int) =~= all);
    while i > 0
        invariant
            i <= structs.len(),
            all == structs.deep_view(),
            find_struct(all, name@) == find_struct(all.take(i as int), name@),
        decreases i,
    {
        i -= 1;
        assert(all.take(i + 1).drop_last() =~= all.take(i as int));
        assert(all.take(i + 1).last() == structs@[i as int]@);
        if structs[i].name == *name {
            return Some(&structs[i]);
        }
    }
    None
}

/// The value that a constructor gives the member `member`.
pub fn lookup_initialiser<'a>(inits: &'a Vec<(String, Expression)>, member: &String) -> (r: Option<&'a Expression>)
    ensures
        r.deep_view() == find_initialiser(inits.deep_view(), member@),
{
    let ghost all = inits.deep_view();
    let mut i: usize = 0;
    proof {
        lemma_skip_all(all);
    }
    while i < inits.len()
        invariant
            i <= inits.len(),
            all == inits.deep_view(),
            find_initialiser(all, member@) == find_initialiser(all.skip(i as int), member@),
        decreases inits.len() - i,
    {
        proof {
            lemma_skip_step(all, i as int);
        }
        if inits[i].0 == *member {
            return Some(&inits[i].1);
        }
        i += 1;
    }
    proof {
        lemma_skip_all(all);
    }
    None
}

fn is_member(fields: &Vec<FieldDefinition>, name: &String) -> (b: bool)
    ensures
        b == has_member(fields.deep_view(), name@),
{
    let mut i: usize = 0;
    while i < fields.len()
        invariant
            i <= fields.len(),
            forall|j: int| 0 <= j < i ==> fields.deep_view()[j].name != name@,
        decreases fields.len() - i,
    {
        if fields[i].name == *name {
            assert(fields.deep_view()[i as int].name == name@);
            return true;
        }
        i += 1;
    }
    false
}

/// The first initialiser that names no member of the struct.
pub fn first_unknown_member<'a>(inits: &'a Vec<(String, Expression)>, fields: &Vec<FieldDefinition>) -> (r: Option<
    &'a String,
>)
    ensures
        r.deep_view() == unknown_member(inits.deep_view(), fields.deep_view()),
{
    let ghost all = inits.deep_view();
    let mut i: usize = 0;
    proof {
        lemma_skip_all(all);
    }
    while i < inits.len()
        invariant
            i <= inits.len(),
            all == inits.deep_view(),
            unknown_member(all, fields.deep_view()) == unknown_member(all.skip(i as int), fields.deep_view()),
        decreases inits.len() - i,
    {
        proof {
            lemma_skip_step(all, i as int);
        }
        if !is_member(fields, &inits[i].0) {
            return Some(&inits[i].0);
        }
        i += 1;
    }
    proof {
        lemma_skip_all(all);
    }
    None
}

fn clone_initialisers(inits: &Vec<(String, Expression)>) -> (r: Vec<(String, Expression)>)
    ensures
        r.deep_view() == inits.deep_view(),
{
    let mut r: Vec<(String, Expression)> = empty_deep();
    let mut i: usize = 0;
    assert(inits.deep_view().take(0) =~= Seq::empty());
    while i < inits.len()
        invariant
            i <= inits.len(),
            r.deep_view() == inits.deep_view().take(i as int),
        decreases inits.len() - i,
    {
        push_deep(&mut r, (inits[i].0.clone(), clone_expression(&inits[i].1)));
        assert(inits.deep_view().take(i + 1) =~= inits.deep_view().take(i as int).push(inits@[i as int].deep_view()));
        i += 1;
    }
    assert(inits.deep_view().take(i as int) =~= inits.deep_view());
    r
}

fn member_path(parent: &Vec<String>, member: &String) -> (r: Vec<String>)
    ensures
        r.deep_view() == parent.deep_view().push(member@),
{
    let mut r = clone_strings(parent);
    push_deep(&mut r, member.clone());
    r
}

/// One member's turn.
pub fn handle_member(
    member: &FieldDefinition,
    inits: &Vec<(String, Expression)>,
    parent: &Vec<String>,
    declares: bool,
    types: TypeEnvironment,
) -> (r: Result<(InnerStatement, TypeEnvironment), CompilerError>)
    ensures
        result_view(r) == flatten_member(member@, inits.deep_view(), parent.deep_view(), declares, types@),
{
    let value = match lookup_initialiser(inits, &member.name) {
        Some(v) => v,
        None => {
            return Err(
                CompilerError::CompilerStageNotImplemented(enclose("Struct literal is missing member `", &member.name, "`")),
            );
        },
    };
    let t = match infer_expr_type(value, &types) {
        Ok(t) => t,
        Err(err) => {
            return Err(err);
        },
    };
    match type_check_assignment(&member.typename.to_type(), &t) {
        Ok(_) => {},
        Err(err) => {
            return Err(err);
        },
    }
    let path = member_path(parent, &member.name);
    if declares {
        let field = FieldDefinition { name: canonicalise_field_path(&path), typename: member.typename.clone() };
        match declare(&field, types) {
            Err(err) => Err(err),
            Ok(next) => Ok((InnerStatement::DeclareAssign(field, clone_expression(value)), next)),
        }
    } else {
        Ok((InnerStatement::Assign(path, clone_expression(value)), types))
    }
}

/// Replaces a constructor by one statement per member.
#[verifier::loop_isolation(false)]
pub fn handle_constructor(
    target: &Type,
    typename: &TypeName,
    inits: &Vec<(String, Expression)>,
    parent: &Vec<String>,
    declares: bool,
    structs: &Vec<StructDefinition>,
    types: TypeEnvironment,
) -> (r: Result<(Vec<InnerStatement>, TypeEnvironment), CompilerError>)
    ensures
        result_view(r) == flatten_constructor(
            target@,
            typename@,
            inits.deep_view(),
            parent.deep_view(),
            declares,
            structs.deep_view(),
            types@,
        ),
{
    let canonical = target.canonicalise();
    let definition = match &canonical {
        Type::Other(name) => match lookup_struct(structs, &name.typename) {
            Some(d) => d,
            None => {
                return Err(CompilerError::FieldConstructorAssignment(target.clone(), clone_initialisers(inits)));
            },
        },
        _ => {
            return Err(CompilerError::FieldConstructorAssignment(target.clone(), clone_initialisers(inits)));
        },
    };
    match type_check_assignment(target, &typename.to_type()) {
        Ok(_) => {},
        Err(err) => {
            return Err(err);
        },
    }
    match first_unknown_member(inits, &definition.fields) {
        Some(unknown) => {
            return Err(
                CompilerError::CompilerStageNotImplemented(enclose("Struct literal has unknown member `", unknown, "`")),
            );
        },
        None => {},
    }
    let ghost all = definition.fields.deep_view();
    let ghost start = types@;
    let mut types = types;
    let mut out: Vec<InnerStatement> = empty_deep();
    let mut i: usize = 0;
    proof {
        lemma_skip_all(all);
    }
    while i < definition.fields.len()
        invariant
            i <= definition.fields.len(),
            all == definition.fields.deep_view(),
            flatten_members(all, inits.deep_view(), parent.deep_view(), declares, start, Seq::empty())
                == flatten_members(
                all.skip(i as int),
                inits.deep_view(),
                parent.deep_view(),
                declares,
                types@,
                out.deep_view(),
            ),
        decreases definition.fields.len() - i,
    {
        proof {
            lemma_skip_step(all, i as int);
        }
        match handle_member(&definition.fields[i], inits, parent, declares, types) {
            Err(err) => {
                return Err(err);
            },
            Ok((statement, next)) => {
                push_deep(&mut out, statement);
                types = next;
            },
        }
        i += 1;
    }
    proof {
        lemma_skip_all(all);
    }
    Ok((out, types))
}

fn single_name(s: &String) -> (r: Vec<String>)
    ensures
        r.deep_view() == seq![s@],
{
    let mut r: Vec<String> = empty_deep();
    push_deep(&mut r, s.clone());
    assert(r.deep_view() =~= seq![s@]);
    r
}

/// Treats one statement.
pub fn handle_inner_stmt(inner: &InnerStatement, structs: &Vec<StructDefinition>, types: TypeEnvironment) -> (r:
    Result<(Vec<InnerStatement>, TypeEnvironment), CompilerError>)
    ensures
        result_view(r) == flatten_statement(inner@, structs.deep_view(), types@),
    decreases inner, 0nat,
{
    broadcast use group_ast_views;
    match inner {
        InnerStatement::DeclareAssign(field, value) => {
            let next = match declare(field, types) {
                Ok(next) => next,
                Err(err) => {
                    return Err(err);
                },
            };
            match value {
                Expression::Constructor(typename, inits) => handle_constructor(
                    &field.typename.to_type(),
                    typename,
                    inits,
                    &single_name(&field.name),
                    true,
                    structs,
                    next,
                ),
                _ => Ok((single(clone_inner_statement(inner)), next)),
            }
        },
        InnerStatement::DeclareConst(field, _) => match declare(field, types) {
            Ok(next) => Ok((single(clone_inner_statement(inner)), next)),
            Err(err) => Err(err),
        },
        InnerStatement::Assign(path, Expression::Constructor(typename, inits)) => {
            let name = canonicalise_field_path(path);
            let target = match types.get(&name) {
                None => {
                    return Err(CompilerError::FieldTypeNotKnown(clone_strings(path)));
                },
                Some(t) => t.clone(),
            };
            handle_constructor(&target, typename, inits, path, false, structs, types)
        },
        InnerStatement::If(condition, pass, fail) => {
            let (p, after_pass) = match handle_inner_stmts(pass, structs, types) {
                Ok(r) => r,
                Err(err) => {
                    return Err(err);
                },
            };
            let (f, after_fail) = match handle_inner_stmts(fail, structs, after_pass) {
                Ok(r) => r,
                Err(err) => {
                    return Err(err);
                },
            };
            Ok((single(InnerStatement::If(clone_expression(condition), p, f)), after_fail))
        },
        _ => Ok((single(clone_inner_statement(inner)), types)),
    }
}

/// Treats a run of statements in their order.
#[verifier::loop_isolation(false)]
pub fn handle_inner_stmts(stmts: &Vec<InnerStatement>, structs: &Vec<StructDefinition>, types: TypeEnvironment) -> (r:
    Result<(Vec<InnerStatement>, TypeEnvironment), CompilerError>)
    ensures
        result_view(r) == flatten_statements(stmts.deep_view(), structs.deep_view(), types@, Seq::empty()),
    decreases stmts, 1nat,
{
    let ghost all = stmts.deep_view();
    let ghost start = types@;
    let mut out: Vec<InnerStatement> = empty_deep();
    let mut types = types;
    let mut i: usize = 0;
    proof {
        lemma_skip_all(all);
    }
    while i < stmts.len()
        invariant
            i <= stmts.len(),
            flatten_statements(all, structs.deep_view(), start, Seq::empty()) == flatten_statements(
                all.skip(i as int),
                structs.deep_view(),
                types@,
                out.deep_view(),
            ),
        decreases stmts.len() - i,
    {
        proof {
            lemma_skip_step(all, i as int);
        }
        match handle_inner_stmt(&stmts[i], structs, types) {
            Err(err) => {
                return Err(err);
            },
            Ok((mut produced, next)) => {
                append_deep(&mut out, &mut produced);
                types = next;
            },
        }
        i += 1;
    }
    proof {
        lemma_skip_all(all);
    }
    Ok((out, types))
}

/// Treats the statements of a block in their order.
#[verifier::loop_isolation(false)]
pub fn handle_outer_stmts(stmts: &Vec<OuterStatement>, structs: &Vec<StructDefinition>, types: TypeEnvironment) -> (r:
    Result<(Vec<OuterStatement>, TypeEnvironment), CompilerError>)
    ensures
        result_view(r) == flatten_outer_statements(stmts.deep_view(), structs.deep_view(), types@, Seq::empty()),
{
    let ghost all = stmts.deep_view();
    let ghost start = types@;
    let mut out: Vec<OuterStatement> = empty_deep();
    let mut types = types;
    let mut i: usize = 0;
    proof {
        lemma_skip_all(all);
    }
    while i < stmts.len()
        invariant
            i <= stmts.len(),
            flatten_outer_statements(all, structs.deep_view(), start, Seq::empty()) == flatten_outer_statements(
                all.skip(i as int),
                structs.deep_view(),
                types@,
                out.deep_view(),
            ),
        decreases stmts.len() - i,
    {
        proof {
            lemma_skip_step(all, i as int);
        }
        match &stmts[i] {
            OuterStatement::Inner(inner) => match handle_inner_stmt(inner, structs, types) {
                Err(err) => {
                    return Err(err);
                },
                Ok((produced, next)) => {
                    append_as_outer(&mut out, produced);
                    types = next;
                },
            },
            other => {
                return Err(stray_marker(other));
            },
        }
        i += 1;
    }
    proof {
        lemma_skip_all(all);
    }
    Ok((out, types))
}

/// Treats one block.
pub fn handle_block(b: &Block, structs: &Vec<StructDefinition>, types: TypeEnvironment) -> (r: Result<
    (Block, TypeEnvironment),
    CompilerError,
>)
    ensures
        result_view(r) == flatten_block(b@, structs.deep_view(), types@),
{
    match b {
        Block::Statements(label, stmts) => match handle_outer_stmts(stmts, structs, types) {
            Err(err) => Err(err),
            Ok((produced, next)) => Ok((Block::Statements(clone_label(label), produced), next)),
        },
        Block::Line(label, stmts) => match handle_inner_stmts(stmts, structs, types) {
            Err(err) => Err(err),
            Ok((produced, next)) => Ok((Block::Line(clone_label(label), produced), next)),
        },
    }
}

impl InitialStatementBlocks {
    /// Replaces every declaration and assignment whose value is a
    /// constructor by one scalar statement per member of the struct.
    #[verifier::loop_isolation(false)]
    pub fn materialise_structs(self, config: &BuildConfig) -> (r: Result<InitialStatementBlocks, CompilerError>)
        ensures
            result_view(r) == materialise_structs_spec(self@),
    {
        let ghost all = self.blocks.deep_view();
        let mut types = TypeEnvironment::new();
        let ghost start = types@;
        let mut out: Vec<Block> = empty_deep();
        let mut i: usize = 0;
        proof {
            lemma_skip_all(all);
        }
        while i < self.blocks.len()
            invariant
                i <= self.blocks.len(),
                flatten_blocks(all, self.structs.deep_view(), start, Seq::empty()) == flatten_blocks(
                    all.skip(i as int),
                    self.structs.deep_view(),
                    types@,
                    out.deep_view(),
                ),
            decreases self.blocks.len() - i,
        {
            proof {
                lemma_skip_step(all, i as int);
            }
            match handle_block(&self.blocks[i], &self.structs, types) {
                Err(err) => {
                    return Err(err);
                },
                Ok((block, next)) => {
                    push_deep(&mut out, block);
                    types = next;
                },
            }
            i += 1;
        }
        proof {
            lemma_skip_all(all);
        }
        Ok(InitialStatementBlocks { blocks: out, callables: self.callables, structs: self.structs })
    }
}

} // verus!
