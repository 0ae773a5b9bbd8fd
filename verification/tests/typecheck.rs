use ycompiler::compiler::environment::TypeEnvironment;
use ycompiler::compiler::fields::canonicalise_field_path;
use ycompiler::compiler::typecheck::{infer_expr_type, inference_unsupported, type_check_assignment, Type};
use ycompiler::error::CompilerError;
use ycompiler::grammar::ast::{Expression, TypeName};

fn named(name: &str) -> Type {
    Type::Other(TypeName { typename: name.to_string() })
}

fn num(text: &str) -> Expression {
    Expression::ConstNumber(text.to_string())
}

fn text(value: &str) -> Expression {
    Expression::ConstString(value.to_string())
}

fn field(path: &[&str]) -> Expression {
    Expression::FieldAccess(path.iter().map(|s| s.to_string()).collect())
}

fn boxed(e: Expression) -> Box<Expression> {
    Box::new(e)
}

fn environment(entries: &[(&str, Type)]) -> TypeEnvironment {
    let mut env = TypeEnvironment::new();
    for (name, ty) in entries {
        env.insert(name.to_string(), ty.clone());
    }
    env
}

#[test]
fn assignment_table_is_exact() {
    let types = vec![Type::Bool, Type::Num, Type::Str, Type::Any, named("Point")];
    let accepted = [
        [true, false, false, false, false],
        [true, true, false, false, false],
        [false, false, true, false, false],
        [true, true, true, true, true],
        [false, false, false, false, true],
    ];
    for (i, to) in types.iter().enumerate() {
        for (j, from) in types.iter().enumerate() {
            let outcome = type_check_assignment(to, from);
            if accepted[i][j] {
                assert_eq!(outcome, Ok(()), "{:?} <- {:?}", to, from);
            } else {
                assert_eq!(outcome, Err(CompilerError::TypeCheckFailed(to.clone(), from.clone())));
            }
        }
    }
}

#[test]
fn any_is_never_narrowed_and_accepts_everything() {
    for concrete in [Type::Bool, Type::Num, Type::Str, named("Point")] {
        assert!(type_check_assignment(&concrete, &Type::Any).is_err());
        assert!(type_check_assignment(&Type::Any, &concrete).is_ok());
    }
    assert!(type_check_assignment(&Type::Any, &Type::Any).is_ok());
}

#[test]
fn number_takes_bool_but_bool_takes_no_number() {
    assert!(type_check_assignment(&Type::Num, &Type::Bool).is_ok());
    assert_eq!(
        type_check_assignment(&Type::Bool, &Type::Num),
        Err(CompilerError::TypeCheckFailed(Type::Bool, Type::Num))
    );
}

#[test]
fn named_types_match_by_name_only() {
    assert!(type_check_assignment(&named("Point"), &named("Point")).is_ok());
    assert_eq!(
        type_check_assignment(&named("Point"), &named("Line")),
        Err(CompilerError::TypeCheckFailed(named("Point"), named("Line")))
    );
}

#[test]
fn assignment_check_canonicalises_both_sides() {
    assert!(type_check_assignment(&named("number"), &named("bool")).is_ok());
    assert_eq!(
        type_check_assignment(&named("string"), &named("number")),
        Err(CompilerError::TypeCheckFailed(Type::Str, Type::Num))
    );
    assert_eq!(
        type_check_assignment(&named("bool"), &named("any")),
        Err(CompilerError::TypeCheckFailed(Type::Bool, Type::Any))
    );
}

#[test]
fn canonicalise_maps_keywords_to_built_in_types() {
    assert_eq!(named("number").canonicalise(), Type::Num);
    assert_eq!(named("string").canonicalise(), Type::Str);
    assert_eq!(named("bool").canonicalise(), Type::Bool);
    assert_eq!(named("any").canonicalise(), Type::Any);
    assert_eq!(named("Number").canonicalise(), named("Number"));
    assert_eq!(named("").canonicalise(), named(""));
    assert_eq!(Type::Num.canonicalise(), Type::Num);
    assert_eq!(Type::Any.canonicalise(), Type::Any);
}

#[test]
fn to_typename_writes_the_keyword() {
    assert_eq!(Type::Any.to_typename().typename, "any");
    assert_eq!(Type::Num.to_typename().typename, "number");
    assert_eq!(Type::Bool.to_typename().typename, "bool");
    assert_eq!(Type::Str.to_typename().typename, "string");
    assert_eq!(named("Point").to_typename().typename, "Point");
}

#[test]
fn to_type_is_canonical() {
    assert_eq!(TypeName { typename: "number".to_string() }.to_type(), Type::Num);
    assert_eq!(TypeName { typename: "Point".to_string() }.to_type(), named("Point"));
}

#[test]
fn canonical_field_names_join_segments() {
    let path: Vec<String> = vec!["a".to_string(), "b".to_string(), "c".to_string()];
    assert_eq!(canonicalise_field_path(&path), "a_b_c");
    assert_eq!(canonicalise_field_path(&vec!["x".to_string()]), "x");
    assert_eq!(canonicalise_field_path(&Vec::new()), "");
    assert_eq!(canonicalise_field_path(&vec!["p".to_string(), "x".to_string()]), "p_x");
}

#[test]
fn literals_and_comparisons_infer() {
    let env = TypeEnvironment::new();
    assert_eq!(infer_expr_type(&num("1"), &env), Ok(Type::Num));
    assert_eq!(infer_expr_type(&text("a"), &env), Ok(Type::Str));
    assert_eq!(infer_expr_type(&Expression::Bracket(boxed(text("a"))), &env), Ok(Type::Str));
    assert_eq!(infer_expr_type(&Expression::Not(boxed(text("a"))), &env), Ok(Type::Bool));
    assert_eq!(infer_expr_type(&Expression::Is(boxed(field(&["nowhere"])), "number".to_string()), &env), Ok(Type::Bool));
    let a = || boxed(field(&["unknown"]));
    for e in [
        Expression::And(a(), a()),
        Expression::Or(a(), a()),
        Expression::GreaterThan(a(), a()),
        Expression::LessThan(a(), a()),
        Expression::GreaterThanOrEq(a(), a()),
        Expression::LessThanOrEq(a(), a()),
        Expression::Equals(a(), a()),
        Expression::NotEquals(a(), a()),
    ] {
        assert_eq!(infer_expr_type(&e, &env), Ok(Type::Bool));
    }
}

#[test]
fn field_access_looks_up_the_canonical_name() {
    let env = environment(&[("p_x", Type::Num), ("s", Type::Str)]);
    assert_eq!(infer_expr_type(&field(&["p", "x"]), &env), Ok(Type::Num));
    assert_eq!(infer_expr_type(&field(&["s"]), &env), Ok(Type::Str));
    assert_eq!(
        infer_expr_type(&field(&["p", "y"]), &env),
        Err(CompilerError::FieldTypeNotKnown(vec!["p".to_string(), "y".to_string()]))
    );
}

#[test]
fn later_entry_of_environment_wins() {
    let env = environment(&[("x", Type::Num), ("x", Type::Str)]);
    assert_eq!(infer_expr_type(&field(&["x"]), &env), Ok(Type::Str));
    assert_eq!(env.len(), 2);
    assert!(env.contains_key(&"x".to_string()));
    assert!(!env.contains_key(&"y".to_string()));
    assert_eq!(env.get(&"y".to_string()), None);
}

#[test]
fn negate_follows_the_operand() {
    let env = environment(&[("b", Type::Bool), ("p", named("Point")), ("a", Type::Any)]);
    assert_eq!(infer_expr_type(&Expression::Negate(boxed(num("1"))), &env), Ok(Type::Num));
    assert_eq!(infer_expr_type(&Expression::Negate(boxed(field(&["b"]))), &env), Ok(Type::Num));
    let negated_text = Expression::Negate(boxed(text("a")));
    assert_eq!(
        infer_expr_type(&negated_text, &env),
        Err(CompilerError::StaticTypeError("Negate a string".to_string(), negated_text.clone()))
    );
    let negated_struct = Expression::Negate(boxed(field(&["p"])));
    assert_eq!(
        infer_expr_type(&negated_struct, &env),
        Err(CompilerError::ExpressionTypeInferenceFailed(negated_struct.clone()))
    );
    let negated_any = Expression::Negate(boxed(field(&["a"])));
    assert_eq!(
        infer_expr_type(&negated_any, &env),
        Err(CompilerError::ExpressionTypeInferenceFailed(negated_any.clone()))
    );
}

#[test]
fn addition_with_text_is_text() {
    let env = environment(&[("b", Type::Bool)]);
    assert_eq!(infer_expr_type(&Expression::Add(boxed(num("1")), boxed(text("a"))), &env), Ok(Type::Str));
    assert_eq!(infer_expr_type(&Expression::Add(boxed(text("a")), boxed(num("1"))), &env), Ok(Type::Str));
    assert_eq!(infer_expr_type(&Expression::Add(boxed(text("a")), boxed(text("b"))), &env), Ok(Type::Str));
    assert_eq!(infer_expr_type(&Expression::Add(boxed(text("a")), boxed(field(&["b"]))), &env), Ok(Type::Str));
    assert_eq!(infer_expr_type(&Expression::Subtract(boxed(text("a")), boxed(num("1"))), &env), Ok(Type::Str));
    assert_eq!(infer_expr_type(&Expression::Add(boxed(num("1")), boxed(num("2"))), &env), Ok(Type::Num));
    assert_eq!(infer_expr_type(&Expression::Add(boxed(field(&["b"])), boxed(field(&["b"]))), &env), Ok(Type::Num));
    assert_eq!(infer_expr_type(&Expression::Subtract(boxed(num("1")), boxed(field(&["b"]))), &env), Ok(Type::Num));
}

#[test]
fn multiplication_and_division_refuse_text() {
    let env = environment(&[("b", Type::Bool)]);
    let cases: Vec<(Expression, &str)> = vec![
        (Expression::Multiply(boxed(num("1")), boxed(text("a"))), "Multiply number by string"),
        (Expression::Multiply(boxed(field(&["b"])), boxed(text("a"))), "Multiply bool by string"),
        (Expression::Multiply(boxed(text("a")), boxed(num("1"))), "Multiply string by number"),
        (Expression::Multiply(boxed(text("a")), boxed(field(&["b"]))), "Multiply string by bool"),
        (Expression::Multiply(boxed(text("a")), boxed(text("b"))), "Multiply string by string"),
        (Expression::Divide(boxed(num("1")), boxed(text("a"))), "Divide number by string"),
        (Expression::Divide(boxed(field(&["b"])), boxed(text("a"))), "Divide bool by string"),
        (Expression::Divide(boxed(text("a")), boxed(num("1"))), "Divide string by number"),
        (Expression::Divide(boxed(text("a")), boxed(field(&["b"]))), "Divide string by bool"),
        (Expression::Divide(boxed(text("a")), boxed(text("b"))), "Divide string by string"),
    ];
    for (e, rule) in cases {
        assert_eq!(
            infer_expr_type(&e, &env),
            Err(CompilerError::StaticTypeError(rule.to_string(), e.clone()))
        );
    }
    assert_eq!(infer_expr_type(&Expression::Multiply(boxed(num("2")), boxed(num("3"))), &env), Ok(Type::Num));
    assert_eq!(infer_expr_type(&Expression::Divide(boxed(num("2")), boxed(field(&["b"]))), &env), Ok(Type::Num));
}

#[test]
fn opaque_and_dynamic_operands_fail_inference() {
    let env = environment(&[("p", named("Point")), ("a", Type::Any)]);
    for e in [
        Expression::Add(boxed(field(&["p"])), boxed(num("1"))),
        Expression::Add(boxed(num("1")), boxed(field(&["a"]))),
        Expression::Subtract(boxed(field(&["a"])), boxed(field(&["a"]))),
        Expression::Multiply(boxed(text("s")), boxed(field(&["a"]))),
        Expression::Divide(boxed(field(&["p"])), boxed(text("s"))),
        Expression::Add(boxed(text("s")), boxed(field(&["a"]))),
    ] {
        assert_eq!(infer_expr_type(&e, &env), Err(CompilerError::ExpressionTypeInferenceFailed(e.clone())));
    }
}

#[test]
fn operand_errors_come_before_the_operator() {
    let env = TypeEnvironment::new();
    let e = Expression::Multiply(boxed(field(&["left"])), boxed(field(&["right"])));
    assert_eq!(infer_expr_type(&e, &env), Err(CompilerError::FieldTypeNotKnown(vec!["left".to_string()])));
    let e = Expression::Add(boxed(num("1")), boxed(field(&["right"])));
    assert_eq!(infer_expr_type(&e, &env), Err(CompilerError::FieldTypeNotKnown(vec!["right".to_string()])));
}

#[test]
fn forms_without_a_rule_are_not_implemented() {
    let env = TypeEnvironment::new();
    let e = Expression::Modulus(boxed(num("1")), boxed(num("2")));
    assert_eq!(
        infer_expr_type(&e, &env),
        Err(CompilerError::CompilerStageNotImplemented(
            "Cannot infer type for expression: `Modulus(ConstNumber(\"1\"), ConstNumber(\"2\"))`".to_string()
        ))
    );
    let e = Expression::ExternalFieldAccess("ext".to_string());
    assert_eq!(
        infer_expr_type(&e, &env),
        Err(CompilerError::CompilerStageNotImplemented(
            "Cannot infer type for expression: `ExternalFieldAccess(\"ext\")`".to_string()
        ))
    );
    let e = Expression::PostIncrement("i".to_string());
    assert_eq!(
        infer_expr_type(&e, &env),
        Err(CompilerError::CompilerStageNotImplemented(
            "Cannot infer type for expression: `PostIncrement(\"i\")`".to_string()
        ))
    );
    for e in [
        Expression::Exponent(boxed(num("1")), boxed(num("2"))),
        Expression::CompilePanic("stop".to_string(), 3),
        Expression::Call("f".to_string(), vec![]),
        Expression::Constructor(TypeName { typename: "Point".to_string() }, vec![]),
    ] {
        assert_eq!(
            infer_expr_type(&e, &env),
            Err(CompilerError::CompilerStageNotImplemented(format!(
                "Cannot infer type for expression: `{:?}`",
                e
            )))
        );
    }
}

#[test]
fn inference_unsupported_wraps_the_printed_expression() {
    assert_eq!(
        inference_unsupported("X(1)".to_string()),
        CompilerError::CompilerStageNotImplemented("Cannot infer type for expression: `X(1)`".to_string())
    );
    assert_eq!(
        inference_unsupported(String::new()),
        CompilerError::CompilerStageNotImplemented("Cannot infer type for expression: ``".to_string())
    );
}

#[test]
fn clones_hold_the_same() {
    let e = Expression::Constructor(
        TypeName { typename: "Point".to_string() },
        vec![
            ("x".to_string(), Expression::Add(boxed(num("1")), boxed(field(&["a", "b"])))),
            ("y".to_string(), Expression::Call("f".to_string(), vec![text("t"), Expression::PreDecrement("i".to_string())])),
        ],
    );
    assert_eq!(e.clone(), e);
    assert_eq!(named("Point").clone(), named("Point"));
}
