//! What the declarations of a run of statements do to the type environment.

use vstd::prelude::*;
use crate::compiler::environment::{lemma_new_name_keeps_names_distinct, TableView};
use crate::compiler::typecheck::{declare_field, named_type, TypeView};
use crate::error::CompilerErrorView;
use crate::grammar::ast::InnerStatementView;

verus! {

/// The type environment after the declarations of a statement.
pub open spec fn declare_in(s: InnerStatementView, env: TableView<TypeView>) -> Result<
    TableView<TypeView>,
    CompilerErrorView,
>
    decreases s,
{
    match s {
        InnerStatementView::DeclareAssign(field, _) => declare_field(field, env),
        InnerStatementView::DeclareConst(field, _) => declare_field(field, env),
        InnerStatementView::If(_, pass, fail) => match declare_all(pass, env) {
            Err(err) => Err(err),
            Ok(next) => declare_all(fail, next),
        },
        _ => Ok(env),
    }
}

/// The type environment after the declarations of statements, in their order.
pub open spec fn declare_all(ss: Seq<InnerStatementView>, env: TableView<TypeView>) -> Result<
    TableView<TypeView>,
    CompilerErrorView,
>
    decreases ss,
{
    if ss.len() == 0 {
        Ok(env)
    } else {
        match declare_in(ss[0], env) {
            Err(err) => Err(err),
            Ok(next) => declare_all(ss.drop_first(), next),
        }
    }
}

/// The entries that the declarations of a statement make, behind those in
/// `entries`: one for each declared field, with its canonical type.
pub open spec fn declared_entries_in(s: InnerStatementView, entries: Seq<(Seq<char>, TypeView)>) -> Seq<
    (Seq<char>, TypeView),
>
    decreases s,
{
    match s {
        InnerStatementView::DeclareAssign(field, _) => entries.push((field.name, named_type(field.typename))),
        InnerStatementView::DeclareConst(field, _) => entries.push((field.name, named_type(field.typename))),
        InnerStatementView::If(_, pass, fail) => declared_entries(fail, declared_entries(pass, entries)),
        _ => entries,
    }
}

/// The entries that the declarations of statements make, in their order,
/// behind those in `entries`. The branches of a conditional count.
pub open spec fn declared_entries(ss: Seq<InnerStatementView>, entries: Seq<(Seq<char>, TypeView)>) -> Seq<
    (Seq<char>, TypeView),
>
    decreases ss,
{
    if ss.len() == 0 {
        entries
    } else {
        declared_entries(ss.drop_first(), declared_entries_in(ss[0], entries))
    }
}

/// Where the declarations of a statement are accepted, the type
/// environment holds afterwards what it held before and, behind that, one
/// entry for each declaration; and where its names were distinct before,
/// they are distinct afterwards: every declaration brought a new name.
pub proof fn lemma_declare_in(s: InnerStatementView, env: TableView<TypeView>)
    requires
        declare_in(s, env) is Ok,
    ensures
        declare_in(s, env)->Ok_0.entries == declared_entries_in(s, env.entries),
        env.names().no_duplicates() ==> declare_in(s, env)->Ok_0.names().no_duplicates(),
    decreases s, 0nat,
{
    match s {
        InnerStatementView::DeclareAssign(field, _) => {
            if env.names().no_duplicates() {
                lemma_new_name_keeps_names_distinct(env, field.name, named_type(field.typename));
            }
        },
        InnerStatementView::DeclareConst(field, _) => {
            if env.names().no_duplicates() {
                lemma_new_name_keeps_names_distinct(env, field.name, named_type(field.typename));
            }
        },
        InnerStatementView::If(_, pass, fail) => {
            lemma_declare_all(pass, env);
            lemma_declare_all(fail, declare_all(pass, env)->Ok_0);
        },
        _ => {},
    }
}

/// Where the declarations of a run of statements are accepted, the type
/// environment holds afterwards what it held before and, behind that, one
/// entry for each declaration, in the order of the statements, and no
/// name was declared twice.
pub proof fn lemma_declare_all(ss: Seq<InnerStatementView>, env: TableView<TypeView>)
    requires
        declare_all(ss, env) is Ok,
    ensures
        declare_all(ss, env)->Ok_0.entries == declared_entries(ss, env.entries),
        env.names().no_duplicates() ==> declare_all(ss, env)->Ok_0.names().no_duplicates(),
    decreases ss, 1nat,
{
    if ss.len() > 0 {
        lemma_declare_in(ss[0], env);
        lemma_declare_all(ss.drop_first(), declare_in(ss[0], env)->Ok_0);
    }
}

/// The declarations of two runs, one behind the other, are those of the
/// second behind those of the first, and the first refusal ends both.
pub proof fn lemma_declare_all_split(
    first: Seq<InnerStatementView>,
    second: Seq<InnerStatementView>,
    env: TableView<TypeView>,
)
    ensures
        declare_all(first + second, env) == match declare_all(first, env) {
            Err(err) => Err(err),
            Ok(next) => declare_all(second, next),
        },
    decreases first.len(),
{
    if first.len() == 0 {
        assert(first + second =~= second);
    } else {
        assert((first + second)[0] == first[0]);
        assert((first + second).drop_first() =~= first.drop_first() + second);
        match declare_in(first[0], env) {
            Err(err) => {},
            Ok(next) => {
                lemma_declare_all_split(first.drop_first(), second, next);
            },
        }
    }
}

} // verus!
