//! The static type system: canonical types, assignment compatibility and
//! the inference of an expression's type.

use vstd::prelude::*;
use vstd::string::StringExecFns;
use crate::compiler::environment::{TableView, TypeEnvironment};
use crate::compiler::fields::{canonical_name, canonicalise_field_path};
use crate::error::{result_view, unit_result_view, CompilerError, CompilerErrorView};
use crate::grammar::ast::{
    group_ast_views, BinaryOp, Expression, ExpressionView, FieldDefinition, FieldDefinitionView, TypeName, UnaryOp,
};
use crate::views::{clone_strings, string_is};

verus! {

/// The type of a field or of an expression.
#[derive(Debug, PartialEq, Eq)]
pub enum Type {
    Any,
    Num,
    Str,
    Bool,
    Other(TypeName),
}

/// What a `Type` holds, as a mathematical value.
pub enum TypeView {
    Any,
    Num,
    Str,
    Bool,
    Other(Seq<char>),
}

impl View for Type {
    type V = TypeView;

    open spec fn view(&self) -> TypeView {
        match self {
            Type::Any => TypeView::Any,
            Type::Num => TypeView::Num,
            Type::Str => TypeView::Str,
            Type::Bool => TypeView::Bool,
            Type::Other(n) => TypeView::Other(n@),
        }
    }
}

impl DeepView for Type {
    type V = TypeView;

    open spec fn deep_view(&self) -> TypeView {
        self@
    }
}

/// The type that a type name stands for: one of the four built-in types
/// where the name is its keyword, and an opaque named type otherwise.
pub open spec fn named_type(name: Seq<char>) -> TypeView {
    if name == "number"@ {
        TypeView::Num
    } else if name == "string"@ {
        TypeView::Str
    } else if name == "bool"@ {
        TypeView::Bool
    } else if name == "any"@ {
        TypeView::Any
    } else {
        TypeView::Other(name)
    }
}

impl TypeView {
    /// The canonical form of a type: a named type whose name is a keyword
    /// is the built-in type of that keyword.
    pub open spec fn canonical(self) -> TypeView {
        match self {
            TypeView::Other(name) => named_type(name),
            t => t,
        }
    }

    /// The name under which a type is written.
    pub open spec fn name(self) -> Seq<char> {
        match self {
            TypeView::Any => "any"@,
            TypeView::Num => "number"@,
            TypeView::Bool => "bool"@,
            TypeView::Str => "string"@,
            TypeView::Other(name) => name,
        }
    }
}

/// Whether a value of the canonical type `from` may be assigned to a field
/// of the canonical type `to`.
pub open spec fn assignable(to: TypeView, from: TypeView) -> bool {
    match (to, from) {
        (TypeView::Any, _) => true,
        (TypeView::Bool, TypeView::Bool) => true,
        (TypeView::Num, TypeView::Num) => true,
        (TypeView::Num, TypeView::Bool) => true,
        (TypeView::Str, TypeView::Str) => true,
        (TypeView::Other(a), TypeView::Other(b)) => a == b,
        _ => false,
    }
}

/// The outcome of checking an assignment between two types, canonical or not.
pub open spec fn check_assignment(to: TypeView, from: TypeView) -> Result<(), CompilerErrorView> {
    if assignable(to.canonical(), from.canonical()) {
        Ok(())
    } else {
        Err(CompilerErrorView::TypeCheckFailed(to.canonical(), from.canonical()))
    }
}

impl Clone for Type {
    fn clone(&self) -> (r: Self)
        ensures
            r@ == self@,
    {
        match self {
            Type::Any => Type::Any,
            Type::Num => Type::Num,
            Type::Str => Type::Str,
            Type::Bool => Type::Bool,
            Type::Other(n) => Type::Other(n.clone()),
        }
    }
}

impl Type {
    /// The canonical type that the name stands for.
    pub fn to_typename(&self) -> (r: TypeName)
        ensures
            r@ == self@.name(),
    {
        match self {
            Type::Any => TypeName { typename: "any".to_string() },
            Type::Num => TypeName { typename: "number".to_string() },
            Type::Bool => TypeName { typename: "bool".to_string() },
            Type::Str => TypeName { typename: "string".to_string() },
            Type::Other(a) => a.clone(),
        }
    }

    /// The canonical form of the type.
    pub fn canonicalise(&self) -> (r: Type)
        ensures
            r@ == self@.canonical(),
    {
        if let Type::Other(a) = self {
            if string_is(&a.typename, "number") {
                Type::Num
            } else if string_is(&a.typename, "string") {
                Type::Str
            } else if string_is(&a.typename, "bool") {
                Type::Bool
            } else if string_is(&a.typename, "any") {
                Type::Any
            } else {
                self.clone()
            }
        } else {
            self.clone()
        }
    }
}

impl TypeName {
    /// The canonical type that the name stands for.
    pub fn to_type(&self) -> (r: Type)
        ensures
            r@ == named_type(self@),
    {
        let t = Type::Other(self.clone());
        t.canonicalise()
    }
}

/// Checks that a value of the type `assign_from` may be assigned to a
/// field of the type `assign_to`. The error names both canonical types.
pub fn type_check_assignment(assign_to: &Type, assign_from: &Type) -> (r: Result<(), CompilerError>)
    ensures
        unit_result_view(r) == check_assignment(assign_to@, assign_from@),
{
    let to = assign_to.canonicalise();
    let from = assign_from.canonicalise();
    let ok = match (&to, &from) {
        (Type::Any, _) => true,
        (Type::Bool, Type::Bool) => true,
        (Type::Num, Type::Num) => true,
        (Type::Num, Type::Bool) => true,
        (Type::Str, Type::Str) => true,
        (Type::Other(a), Type::Other(b)) => a.typename == b.typename,
        _ => false,
    };
    if ok {
        Ok(())
    } else {
        Err(CompilerError::TypeCheckFailed(to, from))
    }
}

/// The text in which std's derived `Debug` formatting prints an expression.
pub uninterp spec fn expression_debug_text(e: ExpressionView) -> Seq<char>;

/// Formats `e` with `{:?}`, the `Debug` formatting of std that `derive`
/// gives the syntax tree. The contract only names the text: it claims that
/// the text is a function of what the expression holds.
#[verifier::external_body]
fn debug_text(e: &Expression) -> (s: String)
    ensures
        s@ == expression_debug_text(e@),
{
    format!("{:?}", e)
}

/// The message of the error for an expression whose form has no inference
/// rule, given the text in which the expression prints.
pub open spec fn inference_unsupported_text(printed: Seq<char>) -> Seq<char> {
    "Cannot infer type for expression: `"@ + printed + "`"@
}

/// The error for an expression whose form has no inference rule, given the
/// text in which the expression prints.
pub fn inference_unsupported(printed: String) -> (r: CompilerError)
    ensures
        r@ == CompilerErrorView::CompilerStageNotImplemented(inference_unsupported_text(printed@)),
{
    let mut m = "Cannot infer type for expression: `".to_string();
    m.append(printed.as_str());
    m.append("`");
    CompilerError::CompilerStageNotImplemented(m)
}

/// The type of `l + r` and of `l - r`: text where either side is text, a
/// number where both sides are numbers or booleans, and none where either
/// side is opaque or dynamic.
pub open spec fn arithmetic_type(l: TypeView, r: TypeView) -> Option<TypeView> {
    match (l, r) {
        (TypeView::Other(_), _) => None,
        (_, TypeView::Other(_)) => None,
        (TypeView::Any, _) => None,
        (_, TypeView::Any) => None,
        (TypeView::Str, _) => Some(TypeView::Str),
        (_, TypeView::Str) => Some(TypeView::Str),
        _ => Some(TypeView::Num),
    }
}

/// Whether a multiplication or division of these operand types mixes text
/// into arithmetic: one side is text and the other a number, a boolean or text.
pub open spec fn scales_text(l: TypeView, r: TypeView) -> bool {
    match (l, r) {
        (TypeView::Num, TypeView::Str) => true,
        (TypeView::Bool, TypeView::Str) => true,
        (TypeView::Str, TypeView::Num) => true,
        (TypeView::Str, TypeView::Bool) => true,
        (TypeView::Str, TypeView::Str) => true,
        _ => false,
    }
}

/// The rule that a multiplication (`multiply`) or a division of these
/// operand types breaks, where `scales_text` holds of them.
pub open spec fn scaling_rule_text(multiply: bool, l: TypeView, r: TypeView) -> Seq<char> {
    match (multiply, l, r) {
        (true, TypeView::Num, TypeView::Str) => "Multiply number by string"@,
        (true, TypeView::Bool, TypeView::Str) => "Multiply bool by string"@,
        (true, TypeView::Str, TypeView::Num) => "Multiply string by number"@,
        (true, TypeView::Str, TypeView::Bool) => "Multiply string by bool"@,
        (true, _, _) => "Multiply string by string"@,
        (false, TypeView::Num, TypeView::Str) => "Divide number by string"@,
        (false, TypeView::Bool, TypeView::Str) => "Divide bool by string"@,
        (false, TypeView::Str, TypeView::Num) => "Divide string by number"@,
        (false, TypeView::Str, TypeView::Bool) => "Divide string by bool"@,
        (false, _, _) => "Divide string by string"@,
    }
}

/// The type of the expression `e`, an operator applied to operands of the
/// types `l` and `r`.
pub open spec fn binary_type(e: ExpressionView, op: BinaryOp, l: TypeView, r: TypeView) -> Result<
    TypeView,
    CompilerErrorView,
> {
    if (op == BinaryOp::Multiply || op == BinaryOp::Divide) && scales_text(l, r) {
        Err(CompilerErrorView::StaticTypeError(scaling_rule_text(op == BinaryOp::Multiply, l, r), e))
    } else {
        match arithmetic_type(l, r) {
            Some(t) => Ok(t),
            None => Err(CompilerErrorView::ExpressionTypeInferenceFailed(e)),
        }
    }
}

/// The type of the expression `e`, the negation of an operand of type `t`.
pub open spec fn negation_type(e: ExpressionView, t: TypeView) -> Result<TypeView, CompilerErrorView> {
    match t {
        TypeView::Num => Ok(TypeView::Num),
        TypeView::Bool => Ok(TypeView::Num),
        TypeView::Str => Err(CompilerErrorView::StaticTypeError("Negate a string"@, e)),
        _ => Err(CompilerErrorView::ExpressionTypeInferenceFailed(e)),
    }
}

/// The type of an expression where `env` gives the type of each declared
/// field by its canonical name, or the error that ends the inference.
pub open spec fn infer_type(e: ExpressionView, env: TableView<TypeView>) -> Result<
    TypeView,
    CompilerErrorView,
>
    decreases e,
{
    match e {
        ExpressionView::ConstNumber(_) => Ok(TypeView::Num),
        ExpressionView::ConstString(_) => Ok(TypeView::Str),
        ExpressionView::Is(_, _) => Ok(TypeView::Bool),
        ExpressionView::Unary(UnaryOp::Bracket, a) => infer_type(*a, env),
        ExpressionView::Unary(UnaryOp::Not, _) => Ok(TypeView::Bool),
        ExpressionView::Unary(UnaryOp::Negate, a) => match infer_type(*a, env) {
            Ok(t) => negation_type(e, t),
            Err(x) => Err(x),
        },
        ExpressionView::Binary(op, a, b) => match op {
            BinaryOp::Add | BinaryOp::Subtract | BinaryOp::Multiply | BinaryOp::Divide => match infer_type(*a, env) {
                Ok(l) => match infer_type(*b, env) {
                    Ok(r) => binary_type(e, op, l, r),
                    Err(x) => Err(x),
                },
                Err(x) => Err(x),
            },
            BinaryOp::Modulus | BinaryOp::Exponent => Err(
                CompilerErrorView::CompilerStageNotImplemented(inference_unsupported_text(expression_debug_text(e))),
            ),
            _ => Ok(TypeView::Bool),
        },
        ExpressionView::FieldAccess(path) => if env.contains_key(canonical_name(path)) {
            Ok(env[canonical_name(path)])
        } else {
            Err(CompilerErrorView::FieldTypeNotKnown(path))
        },
        _ => Err(CompilerErrorView::CompilerStageNotImplemented(inference_unsupported_text(expression_debug_text(e)))),
    }
}

fn scaling_rule(multiply: bool, l: &Type, r: &Type) -> (m: String)
    requires
        scales_text(l@, r@),
    ensures
        m@ == scaling_rule_text(multiply, l@, r@),
{
    let text = match (multiply, l, r) {
        (true, Type::Num, Type::Str) => "Multiply number by string",
        (true, Type::Bool, Type::Str) => "Multiply bool by string",
        (true, Type::Str, Type::Num) => "Multiply string by number",
        (true, Type::Str, Type::Bool) => "Multiply string by bool",
        (true, _, _) => "Multiply string by string",
        (false, Type::Num, Type::Str) => "Divide number by string",
        (false, Type::Bool, Type::Str) => "Divide bool by string",
        (false, Type::Str, Type::Num) => "Divide string by number",
        (false, Type::Str, Type::Bool) => "Divide string by bool",
        (false, _, _) => "Divide string by string",
    };
    text.to_string()
}

fn scales(l: &Type, r: &Type) -> (b: bool)
    ensures
        b == scales_text(l@, r@),
{
    match (l, r) {
        (Type::Num, Type::Str) => true,
        (Type::Bool, Type::Str) => true,
        (Type::Str, Type::Num) => true,
        (Type::Str, Type::Bool) => true,
        (Type::Str, Type::Str) => true,
        _ => false,
    }
}

fn arithmetic(l: &Type, r: &Type) -> (t: Option<Type>)
    ensures
        t.deep_view() == arithmetic_type(l@, r@),
{
    match (l, r) {
        (Type::Other(_), _) => None,
        (_, Type::Other(_)) => None,
        (Type::Any, _) => None,
        (_, Type::Any) => None,
        (Type::Str, _) => Some(Type::Str),
        (_, Type::Str) => Some(Type::Str),
        _ => Some(Type::Num),
    }
}

/// Infers the type of an expression from the types of the declared fields.
pub fn infer_expr_type(expr: &Expression, fields: &TypeEnvironment) -> (r: Result<Type, CompilerError>)
    ensures
        result_view(r) == infer_type(expr@, fields@),
    decreases expr,
{
    broadcast use group_ast_views;
    if let Some((op, a)) = expr.as_unary() {
        return match op {
            UnaryOp::Bracket => infer_expr_type(a, fields),
            UnaryOp::Not => Ok(Type::Bool),
            UnaryOp::Negate => match infer_expr_type(a, fields) {
                Err(e) => Err(e),
                Ok(t) => match t {
                    Type::Num => Ok(Type::Num),
                    Type::Bool => Ok(Type::Num),
                    Type::Str => Err(CompilerError::StaticTypeError("Negate a string".to_string(), expr.clone())),
                    _ => Err(CompilerError::ExpressionTypeInferenceFailed(expr.clone())),
                },
            },
        };
    }
    if let Some((op, a, b)) = expr.as_binary() {
        return match op {
            BinaryOp::Add | BinaryOp::Subtract | BinaryOp::Multiply | BinaryOp::Divide => {
                let l = match infer_expr_type(a, fields) {
                    Ok(l) => l,
                    Err(e) => { return Err(e); },
                };
                let r = match infer_expr_type(b, fields) {
                    Ok(r) => r,
                    Err(e) => { return Err(e); },
                };
                let scaling = matches!(op, BinaryOp::Multiply) || matches!(op, BinaryOp::Divide);
                if scaling && scales(&l, &r) {
                    Err(CompilerError::StaticTypeError(scaling_rule(matches!(op, BinaryOp::Multiply), &l, &r), expr.clone()))
                } else {
                    match arithmetic(&l, &r) {
                        Some(t) => Ok(t),
                        None => Err(CompilerError::ExpressionTypeInferenceFailed(expr.clone())),
                    }
                }
            },
            BinaryOp::Modulus | BinaryOp::Exponent => Err(inference_unsupported(debug_text(expr))),
            _ => Ok(Type::Bool),
        };
    }
    match expr {
        Expression::ConstNumber(_) => Ok(Type::Num),
        Expression::ConstString(_) => Ok(Type::Str),
        Expression::Is(_, _) => Ok(Type::Bool),
        Expression::FieldAccess(f) => {
            let canonical = canonicalise_field_path(f);
            match fields.get(&canonical) {
                Some(t) => Ok(t.clone()),
                None => Err(CompilerError::FieldTypeNotKnown(clone_strings(f))),
            }
        },
        _ => Err(inference_unsupported(debug_text(expr))),
    }
}

/// The type environment after the declaration of `field`, whose name must be new.
pub open spec fn declare_field(field: FieldDefinitionView, env: TableView<TypeView>) -> Result<
    TableView<TypeView>,
    CompilerErrorView,
> {
    if env.contains_key(field.name) {
        Err(CompilerErrorView::DuplicateFieldDeclaration(field.name))
    } else {
        Ok(env.insert(field.name, named_type(field.typename)))
    }
}

/// Enters the name of `field` in the type environment.
pub fn declare(field: &FieldDefinition, types: TypeEnvironment) -> (r: Result<TypeEnvironment, CompilerError>)
    ensures
        result_view(r) == declare_field(field@, types@),
{
    let mut types = types;
    if types.contains_key(&field.name) {
        return Err(CompilerError::DuplicateFieldDeclaration(field.name.clone()));
    }
    types.insert(field.name.clone(), field.typename.to_type());
    Ok(types)
}

/// A declaration of a name that is already declared is refused, and the
/// declaration of a new name makes a second declaration of it a duplicate.
pub proof fn lemma_duplicate_declaration(field: FieldDefinitionView, again: FieldDefinitionView, env: TableView<TypeView>)
    requires
        again.name == field.name,
    ensures
        env.contains_key(field.name) ==> declare_field(field, env) == Err::<TableView<TypeView>, CompilerErrorView>(
            CompilerErrorView::DuplicateFieldDeclaration(field.name),
        ),
        declare_field(field, env) is Ok ==> declare_field(again, declare_field(field, env)->Ok_0) == Err::<
            TableView<TypeView>,
            CompilerErrorView,
        >(CompilerErrorView::DuplicateFieldDeclaration(field.name)),
{
}

/// A field typed `any` takes a value of every type.
pub proof fn lemma_any_accepts_every_type(from: TypeView)
    ensures
        assignable(TypeView::Any, from),
        check_assignment(TypeView::Any, from) is Ok,
{
}

/// A value typed `any` is never narrowed: only a field typed `any` takes it.
pub proof fn lemma_any_is_never_narrowed(to: TypeView)
    requires
        to.canonical() != TypeView::Any,
    ensures
        !assignable(to.canonical(), TypeView::Any),
        check_assignment(to, TypeView::Any) is Err,
{
}

/// The whole table of assignment compatibility between canonical types: a
/// field takes a value of its own type, a number field takes a boolean, and
/// a field typed `any` takes everything; nothing else is accepted.
pub proof fn lemma_assignable_table(to: TypeView, from: TypeView)
    ensures
        assignable(to, from) <==> (to == TypeView::Any || to == from || (to == TypeView::Num && from
            == TypeView::Bool)),
{
}

/// Compatibility has a direction: a number field takes a boolean, a boolean
/// field takes no number.
pub proof fn lemma_assignable_is_directed()
    ensures
        assignable(TypeView::Num, TypeView::Bool),
        !assignable(TypeView::Bool, TypeView::Num),
{
}

/// Canonical forms are stable: canonicalising twice is canonicalising once.
pub proof fn lemma_canonical_idempotent(t: TypeView)
    ensures
        t.canonical().canonical() == t.canonical(),
{
    reveal_strlit("number");
    reveal_strlit("string");
    reveal_strlit("bool");
    reveal_strlit("any");
}

/// Where both operands of `+`, `*` or `/` have a type among number, boolean
/// and text, and one of them is text: the sum is text, and the product and
/// the quotient are static type errors.
pub proof fn lemma_text_operand(a: ExpressionView, b: ExpressionView, env: TableView<TypeView>)
    requires
        infer_type(a, env) is Ok,
        infer_type(b, env) is Ok,
        infer_type(a, env)->Ok_0 == TypeView::Str || infer_type(b, env)->Ok_0 == TypeView::Str,
        infer_type(a, env)->Ok_0 == TypeView::Str || infer_type(a, env)->Ok_0 == TypeView::Num || infer_type(
            a,
            env,
        )->Ok_0 == TypeView::Bool,
        infer_type(b, env)->Ok_0 == TypeView::Str || infer_type(b, env)->Ok_0 == TypeView::Num || infer_type(
            b,
            env,
        )->Ok_0 == TypeView::Bool,
    ensures
        infer_type(ExpressionView::Binary(BinaryOp::Add, Box::new(a), Box::new(b)), env) == Ok::<
            TypeView,
            CompilerErrorView,
        >(TypeView::Str),
        infer_type(ExpressionView::Binary(BinaryOp::Multiply, Box::new(a), Box::new(b)), env) matches Err(
            CompilerErrorView::StaticTypeError(_, _),
        ),
        infer_type(ExpressionView::Binary(BinaryOp::Divide, Box::new(a), Box::new(b)), env) matches Err(
            CompilerErrorView::StaticTypeError(_, _),
        ),
{
}

} // verus!
