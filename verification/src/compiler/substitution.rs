//! Rewriting the body of a macro for one call: each name that is bound is
//! replaced by what it is bound to.

use vstd::prelude::*;
use crate::compiler::fields::{canonical_name, canonicalise_field_path};
use crate::error::{not_implemented, result_view, CompilerError, CompilerErrorView};
use crate::grammar::ast::{
    clone_expression, group_ast_views, Expression, ExpressionView, FieldDefinition, FieldDefinitionView,
    InnerStatement, InnerStatementView,
};
use crate::views::{clone_strings, empty_deep, lemma_skip_all, lemma_skip_step, push_deep};

verus! {

/// What a list of bindings binds `name` to: the last binding of that name counts.
pub open spec fn find_binding(bindings: Seq<(Seq<char>, ExpressionView)>, name: Seq<char>) -> Option<
    ExpressionView,
>
    decreases bindings.len(),
{
    if bindings.len() == 0 {
        None
    } else if bindings.last().0 == name {
        Some(bindings.last().1)
    } else {
        find_binding(bindings.drop_last(), name)
    }
}

/// What an assignment writes to.
#[derive(Debug, PartialEq, Eq)]
pub enum AssignTarget {
    Field(Vec<String>),
    External(String),
}

/// What a `AssignTarget` holds, as a mathematical value.
pub enum AssignTargetView {
    Field(Seq<Seq<char>>),
    External(Seq<char>),
}

impl View for AssignTarget {
    type V = AssignTargetView;

    open spec fn view(&self) -> AssignTargetView {
        match self {
            AssignTarget::Field(path) => AssignTargetView::Field(path.deep_view()),
            AssignTarget::External(name) => AssignTargetView::External(name@),
        }
    }
}

impl DeepView for AssignTarget {
    type V = AssignTargetView;

    open spec fn deep_view(&self) -> AssignTargetView {
        self@
    }
}

/// The message for a path that goes into an argument which is no field.
pub open spec fn member_of_value_text() -> Seq<char> {
    "Member access on a macro argument that is not a field"@
}

/// The message for an assignment to an argument which is no field.
pub open spec fn assign_to_value_text() -> Seq<char> {
    "Assignment to a macro argument that is not a field"@
}

/// The message for a step of an argument which is no local field.
pub open spec fn step_of_value_text() -> Seq<char> {
    "Increment or decrement of a macro argument that is not a field"@
}

/// The expression that reads the field path `path` under the bindings. A
/// path whose first segment is bound to a field path continues that path; a
/// single segment bound to anything else is replaced by it; a longer path
/// into anything else is refused.
pub open spec fn substitute_access(path: Seq<Seq<char>>, bindings: Seq<(Seq<char>, ExpressionView)>) -> Result<
    ExpressionView,
    CompilerErrorView,
> {
    if path.len() == 0 {
        Ok(ExpressionView::FieldAccess(path))
    } else {
        match find_binding(bindings, path[0]) {
            None => Ok(ExpressionView::FieldAccess(path)),
            Some(ExpressionView::FieldAccess(root)) => Ok(ExpressionView::FieldAccess(root + path.drop_first())),
            Some(bound) => if path.len() == 1 {
                Ok(bound)
            } else {
                Err(CompilerErrorView::CompilerStageNotImplemented(member_of_value_text()))
            },
        }
    }
}

/// What an assignment to the field path `path` writes to under the bindings.
pub open spec fn substitute_target(path: Seq<Seq<char>>, bindings: Seq<(Seq<char>, ExpressionView)>) -> Result<
    AssignTargetView,
    CompilerErrorView,
> {
    if path.len() == 0 {
        Ok(AssignTargetView::Field(path))
    } else {
        match find_binding(bindings, path[0]) {
            None => Ok(AssignTargetView::Field(path)),
            Some(ExpressionView::FieldAccess(root)) => Ok(AssignTargetView::Field(root + path.drop_first())),
            Some(ExpressionView::ExternalFieldAccess(name)) => if path.len() == 1 {
                Ok(AssignTargetView::External(name))
            } else {
                Err(CompilerErrorView::CompilerStageNotImplemented(assign_to_value_text()))
            },
            Some(_) => Err(CompilerErrorView::CompilerStageNotImplemented(assign_to_value_text())),
        }
    }
}

/// The name that stands for the plain name `name` under the bindings: the
/// canonical name of the field path that it is bound to.
pub open spec fn substitute_name(name: Seq<char>, bindings: Seq<(Seq<char>, ExpressionView)>) -> Result<
    Seq<char>,
    CompilerErrorView,
> {
    match find_binding(bindings, name) {
        None => Ok(name),
        Some(ExpressionView::FieldAccess(root)) => Ok(canonical_name(root)),
        Some(_) => Err(CompilerErrorView::CompilerStageNotImplemented(step_of_value_text())),
    }
}

/// The expression `e` under the bindings. The first refusal, in the order
/// in which the expression is written, is the outcome.
pub open spec fn rewrite_expression(e: ExpressionView, bindings: Seq<(Seq<char>, ExpressionView)>) -> Result<
    ExpressionView,
    CompilerErrorView,
>
    decreases e,
{
    match e {
        ExpressionView::FieldAccess(path) => substitute_access(path, bindings),
        ExpressionView::Unary(op, a) => match rewrite_expression(*a, bindings) {
            Ok(x) => Ok(ExpressionView::Unary(op, Box::new(x))),
            Err(err) => Err(err),
        },
        ExpressionView::Binary(op, a, b) => match rewrite_expression(*a, bindings) {
            Ok(x) => match rewrite_expression(*b, bindings) {
                Ok(y) => Ok(ExpressionView::Binary(op, Box::new(x), Box::new(y))),
                Err(err) => Err(err),
            },
            Err(err) => Err(err),
        },
        ExpressionView::Call(name, args) => match rewrite_expressions(args, bindings, Seq::empty()) {
            Ok(xs) => Ok(ExpressionView::Call(name, xs)),
            Err(err) => Err(err),
        },
        ExpressionView::Is(a, typename) => match rewrite_expression(*a, bindings) {
            Ok(x) => Ok(ExpressionView::Is(Box::new(x), typename)),
            Err(err) => Err(err),
        },
        ExpressionView::Step(op, name) => match substitute_name(name, bindings) {
            Ok(n) => Ok(ExpressionView::Step(op, n)),
            Err(err) => Err(err),
        },
        ExpressionView::Constructor(typename, inits) => match rewrite_initialisers(inits, bindings, Seq::empty()) {
            Ok(xs) => Ok(ExpressionView::Constructor(typename, xs)),
            Err(err) => Err(err),
        },
        _ => Ok(e),
    }
}

/// The expressions `es` under the bindings, behind those already rewritten.
pub open spec fn rewrite_expressions(
    es: Seq<ExpressionView>,
    bindings: Seq<(Seq<char>, ExpressionView)>,
    done: Seq<ExpressionView>,
) -> Result<Seq<ExpressionView>, CompilerErrorView>
    decreases es,
{
    if es.len() == 0 {
        Ok(done)
    } else {
        match rewrite_expression(es[0], bindings) {
            Ok(x) => rewrite_expressions(es.drop_first(), bindings, done.push(x)),
            Err(err) => Err(err),
        }
    }
}

/// The initialisers `inits` under the bindings, behind those already rewritten.
pub open spec fn rewrite_initialisers(
    inits: Seq<(Seq<char>, ExpressionView)>,
    bindings: Seq<(Seq<char>, ExpressionView)>,
    done: Seq<(Seq<char>, ExpressionView)>,
) -> Result<Seq<(Seq<char>, ExpressionView)>, CompilerErrorView>
    decreases inits,
{
    if inits.len() == 0 {
        Ok(done)
    } else {
        match rewrite_expression(inits[0].1, bindings) {
            Ok(x) => rewrite_initialisers(inits.drop_first(), bindings, done.push((inits[0].0, x))),
            Err(err) => Err(err),
        }
    }
}

/// The declaration of `field` with the value `value` under the bindings.
pub open spec fn rewrite_declaration(
    field: FieldDefinitionView,
    value: ExpressionView,
    bindings: Seq<(Seq<char>, ExpressionView)>,
) -> Result<(FieldDefinitionView, ExpressionView), CompilerErrorView> {
    match substitute_name(field.name, bindings) {
        Err(err) => Err(err),
        Ok(name) => match rewrite_expression(value, bindings) {
            Err(err) => Err(err),
            Ok(x) => Ok((FieldDefinitionView { name, typename: field.typename }, x)),
        },
    }
}

/// The statement `s` under the bindings.
pub open spec fn rewrite_statement(s: InnerStatementView, bindings: Seq<(Seq<char>, ExpressionView)>) -> Result<
    InnerStatementView,
    CompilerErrorView,
>
    decreases s,
{
    match s {
        InnerStatementView::Call(name, args) => match rewrite_expressions(args, bindings, Seq::empty()) {
            Ok(xs) => Ok(InnerStatementView::Call(name, xs)),
            Err(err) => Err(err),
        },
        InnerStatementView::If(condition, pass, fail) => match rewrite_expression(condition, bindings) {
            Err(err) => Err(err),
            Ok(c) => match rewrite_statements(pass, bindings, Seq::empty()) {
                Err(err) => Err(err),
                Ok(p) => match rewrite_statements(fail, bindings, Seq::empty()) {
                    Err(err) => Err(err),
                    Ok(f) => Ok(InnerStatementView::If(c, p, f)),
                },
            },
        },
        InnerStatementView::Assign(path, value) => match substitute_target(path, bindings) {
            Err(err) => Err(err),
            Ok(target) => match rewrite_expression(value, bindings) {
                Err(err) => Err(err),
                Ok(x) => match target {
                    AssignTargetView::Field(p) => Ok(InnerStatementView::Assign(p, x)),
                    AssignTargetView::External(n) => Ok(InnerStatementView::ExternalAssign(n, x)),
                },
            },
        },
        InnerStatementView::DeclareAssign(field, value) => match rewrite_declaration(field, value, bindings) {
            Err(err) => Err(err),
            Ok((f, x)) => Ok(InnerStatementView::DeclareAssign(f, x)),
        },
        InnerStatementView::DeclareConst(field, value) => match rewrite_declaration(field, value, bindings) {
            Err(err) => Err(err),
            Ok((f, x)) => Ok(InnerStatementView::DeclareConst(f, x)),
        },
        InnerStatementView::ExternalAssign(name, value) => match rewrite_expression(value, bindings) {
            Err(err) => Err(err),
            Ok(x) => Ok(InnerStatementView::ExternalAssign(name, x)),
        },
        InnerStatementView::Return(value) => match rewrite_expression(value, bindings) {
            Err(err) => Err(err),
            Ok(x) => Ok(InnerStatementView::Return(x)),
        },
        _ => Ok(s),
    }
}

/// The statements `ss` under the bindings, behind those already rewritten.
pub open spec fn rewrite_statements(
    ss: Seq<InnerStatementView>,
    bindings: Seq<(Seq<char>, ExpressionView)>,
    done: Seq<InnerStatementView>,
) -> Result<Seq<InnerStatementView>, CompilerErrorView>
    decreases ss,
{
    if ss.len() == 0 {
        Ok(done)
    } else {
        match rewrite_statement(ss[0], bindings) {
            Ok(x) => rewrite_statements(ss.drop_first(), bindings, done.push(x)),
            Err(err) => Err(err),
        }
    }
}

/// What the bindings bind `name` to.
pub fn lookup_binding<'a>(bindings: &'a Vec<(String, Expression)>, name: &String) -> (r: Option<&'a Expression>)
    ensures
        r.deep_view() == find_binding(bindings.deep_view(), name@),
{
    let ghost all = bindings.deep_view();
    let mut i: usize = bindings.len();
    assert(all.take(i as int) =~= all);
    while i > 0
        invariant
            i <= bindings.len(),
            all == bindings.deep_view(),
            find_binding(all, name@) == find_binding(all.take(i as int), name@),
        decreases i,
    {
        i -= 1;
        assert(all.take(i + 1).drop_last() =~= all.take(i as int));
        assert(all.take(i + 1).last() == bindings@[i as int].deep_view());
        if bindings[i].0 == *name {
            return Some(&bindings[i].1);
        }
    }
    None
}

/// The path `root` continued by all but the first segment of `path`.
fn continue_path(root: &Vec<String>, path: &Vec<String>) -> (r: Vec<String>)
    requires
        path@.len() > 0,
    ensures
        r.deep_view() == root.deep_view() + path.deep_view().drop_first(),
{
    let mut r = clone_strings(root);
    let ghost rest = path.deep_view().drop_first();
    let mut i: usize = 1;
    assert(rest.take(0) =~= Seq::empty());
    assert(root.deep_view() + Seq::<Seq<char>>::empty() =~= root.deep_view());
    while i < path.len()
        invariant
            1 <= i <= path.len(),
            rest == path.deep_view().drop_first(),
            r.deep_view() == root.deep_view() + rest.take(i - 1),
        decreases path.len() - i,
    {
        let s = path[i].clone();
        push_deep(&mut r, s);
        assert(rest.take(i as int) =~= rest.take(i - 1).push(path@[i as int]@));
        assert(r.deep_view() =~= root.deep_view() + rest.take(i as int));
        i += 1;
    }
    assert(rest.take(i - 1) =~= rest);
    r
}

/// The expression that reads the field path `path` under the bindings.
pub fn replace_access(path: &Vec<String>, bindings: &Vec<(String, Expression)>) -> (r: Result<
    Expression,
    CompilerError,
>)
    ensures
        result_view(r) == substitute_access(path.deep_view(), bindings.deep_view()),
{
    broadcast use group_ast_views;
    if path.len() == 0 {
        return Ok(Expression::FieldAccess(clone_strings(path)));
    }
    match lookup_binding(bindings, &path[0]) {
        None => Ok(Expression::FieldAccess(clone_strings(path))),
        Some(bound) => match bound {
            Expression::FieldAccess(root) => Ok(Expression::FieldAccess(continue_path(root, path))),
            _ => {
                if path.len() == 1 {
                    Ok(clone_expression(bound))
                } else {
                    Err(not_implemented("Member access on a macro argument that is not a field"))
                }
            },
        },
    }
}

/// What an assignment to the field path `path` writes to under the bindings.
pub fn replace_target(path: &Vec<String>, bindings: &Vec<(String, Expression)>) -> (r: Result<
    AssignTarget,
    CompilerError,
>)
    ensures
        result_view(r) == substitute_target(path.deep_view(), bindings.deep_view()),
{
    broadcast use group_ast_views;
    if path.len() == 0 {
        return Ok(AssignTarget::Field(clone_strings(path)));
    }
    match lookup_binding(bindings, &path[0]) {
        None => Ok(AssignTarget::Field(clone_strings(path))),
        Some(bound) => match bound {
            Expression::FieldAccess(root) => Ok(AssignTarget::Field(continue_path(root, path))),
            Expression::ExternalFieldAccess(name) => {
                if path.len() == 1 {
                    Ok(AssignTarget::External(name.clone()))
                } else {
                    Err(not_implemented("Assignment to a macro argument that is not a field"))
                }
            },
            _ => Err(not_implemented("Assignment to a macro argument that is not a field")),
        },
    }
}

/// The name that stands for the plain name `name` under the bindings.
pub fn replace_name(name: &String, bindings: &Vec<(String, Expression)>) -> (r: Result<String, CompilerError>)
    ensures
        result_view(r) == substitute_name(name@, bindings.deep_view()),
{
    broadcast use group_ast_views;
    match lookup_binding(bindings, name) {
        None => Ok(name.clone()),
        Some(bound) => match bound {
            Expression::FieldAccess(root) => Ok(canonicalise_field_path(root)),
            _ => Err(not_implemented("Increment or decrement of a macro argument that is not a field")),
        },
    }
}

/// The expression `e` under the bindings.
#[verifier::loop_isolation(false)]
pub fn replace_in_expression(e: &Expression, bindings: &Vec<(String, Expression)>) -> (r: Result<
    Expression,
    CompilerError,
>)
    ensures
        result_view(r) == rewrite_expression(e@, bindings.deep_view()),
    decreases e,
{
    broadcast use group_ast_views;
    if let Some((op, a)) = e.as_unary() {
        return match replace_in_expression(a, bindings) {
            Ok(x) => Ok(Expression::unary(op, x)),
            Err(err) => Err(err),
        };
    }
    if let Some((op, a, b)) = e.as_binary() {
        let x = match replace_in_expression(a, bindings) {
            Ok(x) => x,
            Err(err) => { return Err(err); },
        };
        let y = match replace_in_expression(b, bindings) {
            Ok(y) => y,
            Err(err) => { return Err(err); },
        };
        return Ok(Expression::binary(op, x, y));
    }
    if let Some((op, name)) = e.as_step() {
        return match replace_name(name, bindings) {
            Ok(n) => Ok(Expression::step(op, n)),
            Err(err) => Err(err),
        };
    }
    match e {
        Expression::FieldAccess(path) => replace_access(path, bindings),
        Expression::Call(name, args) => {
            let ghost all = args.deep_view();
            let mut out: Vec<Expression> = empty_deep();
            let mut i: usize = 0;
            proof {
                lemma_skip_all(all);
            }
            while i < args.len()
                invariant
                    i <= args.len(),
                    rewrite_expressions(all, bindings.deep_view(), Seq::empty()) == rewrite_expressions(
                        all.skip(i as int),
                        bindings.deep_view(),
                        out.deep_view(),
                    ),
                decreases args.len() - i,
            {
                proof {
                    lemma_skip_step(all, i as int);
                }
                match replace_in_expression(&args[i], bindings) {
                    Ok(x) => {
                        push_deep(&mut out, x);
                    },
                    Err(err) => {
                        return Err(err);
                    },
                }
                i += 1;
            }
            proof {
                lemma_skip_all(all);
            }
            Ok(Expression::Call(name.clone(), out))
        },
        Expression::Is(a, typename) => match replace_in_expression(a, bindings) {
            Ok(x) => Ok(Expression::Is(Box::new(x), typename.clone())),
            Err(err) => Err(err),
        },
        Expression::Constructor(typename, inits) => {
            let ghost all = inits.deep_view();
            let mut out: Vec<(String, Expression)> = empty_deep();
            let mut i: usize = 0;
            proof {
                lemma_skip_all(all);
            }
            while i < inits.len()
                invariant
                    i <= inits.len(),
                    rewrite_initialisers(all, bindings.deep_view(), Seq::empty()) == rewrite_initialisers(
                        all.skip(i as int),
                        bindings.deep_view(),
                        out.deep_view(),
                    ),
                decreases inits.len() - i,
            {
                proof {
                    lemma_skip_step(all, i as int);
                }
                match replace_in_expression(&inits[i].1, bindings) {
                    Ok(x) => {
                        push_deep(&mut out, (inits[i].0.clone(), x));
                    },
                    Err(err) => {
                        return Err(err);
                    },
                }
                i += 1;
            }
            proof {
                lemma_skip_all(all);
            }
            Ok(Expression::Constructor(typename.clone(), out))
        },
        _ => Ok(clone_expression(e)),
    }
}

/// The expressions `es` under the bindings.
pub fn replace_in_expressions(es: &Vec<Expression>, bindings: &Vec<(String, Expression)>) -> (r: Result<
    Vec<Expression>,
    CompilerError,
>)
    ensures
        result_view(r) == rewrite_expressions(es.deep_view(), bindings.deep_view(), Seq::empty()),
{
    let ghost all = es.deep_view();
    let mut out: Vec<Expression> = empty_deep();
    let mut i: usize = 0;
    proof {
        lemma_skip_all(all);
    }
    while i < es.len()
        invariant
            i <= es.len(),
            all == es.deep_view(),
            rewrite_expressions(all, bindings.deep_view(), Seq::empty()) == rewrite_expressions(
                all.skip(i as int),
                bindings.deep_view(),
                out.deep_view(),
            ),
        decreases es.len() - i,
    {
        proof {
            lemma_skip_step(all, i as int);
        }
        match replace_in_expression(&es[i], bindings) {
            Ok(x) => {
                push_deep(&mut out, x);
            },
            Err(err) => {
                return Err(err);
            },
        }
        i += 1;
    }
    proof {
        lemma_skip_all(all);
    }
    Ok(out)
}

fn replace_in_declaration(field: &FieldDefinition, value: &Expression, bindings: &Vec<(String, Expression)>) -> (r:
    Result<(FieldDefinition, Expression), CompilerError>)
    ensures
        result_view(r) == rewrite_declaration(field@, value@, bindings.deep_view()),
{
    let name = match replace_name(&field.name, bindings) {
        Ok(n) => n,
        Err(err) => { return Err(err); },
    };
    match replace_in_expression(value, bindings) {
        Ok(x) => Ok((FieldDefinition { name, typename: field.typename.clone() }, x)),
        Err(err) => Err(err),
    }
}

/// The statement `s` under the bindings.
pub fn replace_in_statement(s: &InnerStatement, bindings: &Vec<(String, Expression)>) -> (r: Result<
    InnerStatement,
    CompilerError,
>)
    ensures
        result_view(r) == rewrite_statement(s@, bindings.deep_view()),
    decreases s, 0nat,
{
    broadcast use group_ast_views;
    match s {
        InnerStatement::Call(name, args) => match replace_in_expressions(args, bindings) {
            Ok(xs) => Ok(InnerStatement::Call(name.clone(), xs)),
            Err(err) => Err(err),
        },
        InnerStatement::If(condition, pass, fail) => {
            let c = match replace_in_expression(condition, bindings) {
                Ok(c) => c,
                Err(err) => { return Err(err); },
            };
            let p = match replace_in_statements(pass, bindings) {
                Ok(p) => p,
                Err(err) => { return Err(err); },
            };
            let f = match replace_in_statements(fail, bindings) {
                Ok(f) => f,
                Err(err) => { return Err(err); },
            };
            Ok(InnerStatement::If(c, p, f))
        },
        InnerStatement::Assign(path, value) => {
            let target = match replace_target(path, bindings) {
                Ok(t) => t,
                Err(err) => { return Err(err); },
            };
            let x = match replace_in_expression(value, bindings) {
                Ok(x) => x,
                Err(err) => { return Err(err); },
            };
            match target {
                AssignTarget::Field(p) => Ok(InnerStatement::Assign(p, x)),
                AssignTarget::External(n) => Ok(InnerStatement::ExternalAssign(n, x)),
            }
        },
        InnerStatement::DeclareAssign(field, value) => match replace_in_declaration(field, value, bindings) {
            Ok((f, x)) => Ok(InnerStatement::DeclareAssign(f, x)),
            Err(err) => Err(err),
        },
        InnerStatement::DeclareConst(field, value) => match replace_in_declaration(field, value, bindings) {
            Ok((f, x)) => Ok(InnerStatement::DeclareConst(f, x)),
            Err(err) => Err(err),
        },
        InnerStatement::ExternalAssign(name, value) => match replace_in_expression(value, bindings) {
            Ok(x) => Ok(InnerStatement::ExternalAssign(name.clone(), x)),
            Err(err) => Err(err),
        },
        InnerStatement::Return(value) => match replace_in_expression(value, bindings) {
            Ok(x) => Ok(InnerStatement::Return(x)),
            Err(err) => Err(err),
        },
        InnerStatement::CompilePanic(m, p) => Ok(InnerStatement::CompilePanic(m.clone(), *p)),
        InnerStatement::Emit(c) => Ok(InnerStatement::Emit(c.clone())),
        InnerStatement::Goto(l) => Ok(InnerStatement::Goto(l.clone())),
    }
}

/// The statements `ss` under the bindings.
#[verifier::loop_isolation(false)]
pub fn replace_in_statements(ss: &Vec<InnerStatement>, bindings: &Vec<(String, Expression)>) -> (r: Result<
    Vec<InnerStatement>,
    CompilerError,
>)
    ensures
        result_view(r) == rewrite_statements(ss.deep_view(), bindings.deep_view(), Seq::empty()),
    decreases ss, 1nat,
{
    let ghost all = ss.deep_view();
    let mut out: Vec<InnerStatement> = empty_deep();
    let mut i: usize = 0;
    proof {
        lemma_skip_all(all);
    }
    while i < ss.len()
        invariant
            i <= ss.len(),
            rewrite_statements(all, bindings.deep_view(), Seq::empty()) == rewrite_statements(
                all.skip(i as int),
                bindings.deep_view(),
                out.deep_view(),
            ),
        decreases ss.len() - i,
    {
        proof {
            lemma_skip_step(all, i as int);
        }
        match replace_in_statement(&ss[i], bindings) {
            Ok(x) => {
                push_deep(&mut out, x);
            },
            Err(err) => {
                return Err(err);
            },
        }
        i += 1;
    }
    proof {
        lemma_skip_all(all);
    }
    Ok(out)
}

} // verus!
