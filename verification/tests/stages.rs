use ycompiler::compiler::hygiene::{decimal_text, make_local_name, make_temporary_name};
use ycompiler::compiler::pipeline::compile;
use ycompiler::compiler::stages::initial_blocks::{Block, InitialStatementBlocks};
use ycompiler::compiler::stages::yolol_blocks::YololBlock;
use ycompiler::compiler::typecheck::Type;
use ycompiler::compiler::BuildConfig;
use ycompiler::error::CompilerError;
use ycompiler::grammar::ast::{
    Attribute, CallType, CallableDefinition, Expression, FieldDefinition, InnerStatement, Main, OuterStatement,
    ParameterDefinition, Program, StructDefinition, TypeName,
};
use ycompiler::yolol::ast as target;

fn config() -> BuildConfig {
    BuildConfig::from_matches(None, None, None)
}

fn s(text: &str) -> String {
    text.to_string()
}

fn n(text: &str) -> Expression {
    Expression::ConstNumber(s(text))
}

fn t(text: &str) -> Expression {
    Expression::ConstString(s(text))
}

fn f(path: &[&str]) -> Expression {
    Expression::FieldAccess(path.iter().map(|x| s(x)).collect())
}

fn b(e: Expression) -> Box<Expression> {
    Box::new(e)
}

fn fd(name: &str, typename: &str) -> FieldDefinition {
    FieldDefinition { name: s(name), typename: TypeName { typename: s(typename) } }
}

fn var(name: &str, typename: &str, value: Expression) -> InnerStatement {
    InnerStatement::DeclareAssign(fd(name, typename), value)
}

fn assign(path: &[&str], value: Expression) -> InnerStatement {
    InnerStatement::Assign(path.iter().map(|x| s(x)).collect(), value)
}

fn call(name: &str, args: Vec<Expression>) -> InnerStatement {
    InnerStatement::Call(s(name), args)
}

fn named(name: &str) -> Type {
    Type::Other(TypeName { typename: s(name) })
}

fn mac(name: &str, params: &[(&str, &str)], body: Vec<InnerStatement>) -> CallableDefinition {
    CallableDefinition {
        name: s(name),
        call_type: CallType::Macro,
        parameters: params.iter().map(|(p, ty)| ParameterDefinition { field: fd(p, ty), copy: false }).collect(),
        return_type: None,
        statements: body,
        attributes: vec![],
    }
}

fn point() -> StructDefinition {
    StructDefinition { name: s("Point"), fields: vec![fd("x", "number"), fd("y", "number")] }
}

fn blocks_of(stmts: Vec<InnerStatement>, callables: Vec<CallableDefinition>, structs: Vec<StructDefinition>) -> InitialStatementBlocks {
    InitialStatementBlocks {
        blocks: vec![Block::Statements(None, stmts.into_iter().map(OuterStatement::Inner).collect())],
        callables,
        structs,
    }
}

fn inner_of(blocks: &InitialStatementBlocks) -> Vec<InnerStatement> {
    let mut out = Vec::new();
    for block in &blocks.blocks {
        match block {
            Block::Statements(_, stmts) => {
                for stmt in stmts {
                    match stmt {
                        OuterStatement::Inner(i) => out.push(i.clone()),
                        other => panic!("marker in block: {:?}", other),
                    }
                }
            }
            Block::Line(_, stmts) => out.extend(stmts.iter().cloned()),
        }
    }
    out
}

fn inline(stmts: Vec<InnerStatement>, callables: Vec<CallableDefinition>) -> Result<Vec<InnerStatement>, CompilerError> {
    blocks_of(stmts, callables, vec![]).inline_macros(&config()).map(|x| inner_of(&x))
}

fn flatten(stmts: Vec<InnerStatement>, structs: Vec<StructDefinition>) -> Result<Vec<InnerStatement>, CompilerError> {
    blocks_of(stmts, vec![], structs).materialise_structs(&config()).map(|x| inner_of(&x))
}

fn emit(stmts: Vec<InnerStatement>) -> Result<Vec<target::Statement>, CompilerError> {
    let out = blocks_of(stmts, vec![], vec![]).covert_yolol_blocks()?;
    assert_eq!(out.blocks.len(), 1);
    match out.blocks.into_iter().next().unwrap() {
        YololBlock::Statements(None, stmts) => Ok(stmts),
        other => panic!("unexpected block {:?}", other),
    }
}

fn local(name: &str) -> target::Identifier {
    target::Identifier { name: s(name), external: false }
}

fn external(name: &str) -> target::Identifier {
    target::Identifier { name: s(name), external: true }
}

fn tn(text: &str) -> target::Expression {
    target::Expression::ConstantNumber(s(text))
}

fn not_implemented(text: &str) -> CompilerError {
    CompilerError::CompilerStageNotImplemented(s(text))
}

#[test]
fn decimal_names() {
    assert_eq!(decimal_text(0), "0");
    assert_eq!(decimal_text(9), "9");
    assert_eq!(decimal_text(10), "10");
    assert_eq!(decimal_text(12345), "12345");
    assert_eq!(decimal_text(u64::MAX), "18446744073709551615");
    assert_eq!(make_temporary_name(0, 0), "_a0_0");
    assert_eq!(make_temporary_name(12, 3), "_a12_3");
    assert_eq!(make_local_name(7, &s("total")), "_m7_total");
    assert_ne!(make_local_name(1, &s("1_x")), make_local_name(11, &s("_x")));
    assert_ne!(make_local_name(1, &s("x")), make_local_name(2, &s("x")));
}

#[test]
fn wrong_argument_count_names_both_counts() {
    let m = mac("m", &[("a", "number"), ("b", "number")], vec![]);
    assert_eq!(
        inline(vec![call("m", vec![n("1")])], vec![m]),
        Err(CompilerError::IncorrectCallParameterCount(s("m"), 2, 1))
    );
    let m = mac("m", &[("a", "number")], vec![]);
    assert_eq!(
        inline(vec![call("m", vec![t("text"), f(&["nowhere"]), n("3")])], vec![m]),
        Err(CompilerError::IncorrectCallParameterCount(s("m"), 1, 3))
    );
    let m = mac("m", &[], vec![]);
    assert_eq!(
        inline(vec![call("m", vec![Expression::CompilePanic(s("x"), 0)])], vec![m]),
        Err(CompilerError::IncorrectCallParameterCount(s("m"), 0, 1))
    );
}

#[test]
fn unsupported_callables_are_refused() {
    assert_eq!(inline(vec![call("nothing", vec![])], vec![]), Err(CompilerError::CallableNotFound(s("nothing"))));
    let mut p = mac("p", &[], vec![]);
    p.call_type = CallType::Proc;
    assert_eq!(inline(vec![call("p", vec![])], vec![p]), Err(not_implemented("`proc` calls are not implemented")));
    let mut r = mac("r", &[], vec![]);
    r.return_type = Some(s("number"));
    assert_eq!(
        inline(vec![call("r", vec![n("1")])], vec![r]),
        Err(not_implemented("return values from calls are not implemented"))
    );
    let mut a = mac("a", &[], vec![]);
    a.attributes = vec![Attribute { name: s("inline"), parameters: vec![] }];
    assert_eq!(inline(vec![call("a", vec![])], vec![a]), Err(not_implemented("Call attributes are not implemented")));
}

#[test]
fn last_definition_of_a_name_is_called() {
    let first = mac("m", &[], vec![InnerStatement::Goto(s("first"))]);
    let second = mac("m", &[], vec![InnerStatement::Goto(s("second"))]);
    assert_eq!(inline(vec![call("m", vec![])], vec![first, second]), Ok(vec![InnerStatement::Goto(s("second"))]));
}

#[test]
fn direct_arguments_are_substituted() {
    let m = mac(
        "set",
        &[("dst", "number"), ("src", "number"), ("out", "any")],
        vec![
            assign(&["dst"], Expression::Add(b(f(&["src"])), b(f(&["dst"])))),
            assign(&["out"], f(&["src"])),
        ],
    );
    let out = inline(
        vec![
            var("x", "number", n("0")),
            call("set", vec![f(&["x"]), n("5"), Expression::ExternalFieldAccess(s("screen"))]),
        ],
        vec![m],
    );
    assert_eq!(
        out,
        Ok(vec![
            var("x", "number", n("0")),
            assign(&["x"], Expression::Add(b(n("5")), b(f(&["x"])))),
            InnerStatement::ExternalAssign(s("screen"), n("5")),
        ])
    );
}

#[test]
fn other_arguments_get_a_temporary_evaluated_once() {
    let m = mac(
        "twice",
        &[("v", "number")],
        vec![InnerStatement::ExternalAssign(s("o"), Expression::Add(b(f(&["v"])), b(f(&["v"]))))],
    );
    let arg = Expression::Multiply(b(n("2")), b(n("3")));
    let out = inline(vec![call("twice", vec![arg.clone()])], vec![m]);
    assert_eq!(
        out,
        Ok(vec![
            var("_a0_0", "number", arg),
            InnerStatement::ExternalAssign(s("o"), Expression::Add(b(f(&["_a0_0"])), b(f(&["_a0_0"])))),
        ])
    );
}

#[test]
fn temporary_takes_the_type_of_the_argument() {
    let m = mac("show", &[("v", "any"), ("w", "string")], vec![]);
    let first = Expression::Bracket(b(n("1")));
    let second = Expression::Add(b(t("a")), b(n("1")));
    assert_eq!(
        inline(vec![call("show", vec![first.clone(), second.clone()])], vec![m]),
        Ok(vec![var("_a0_0", "number", first), var("_a0_1", "string", second)])
    );
}

#[test]
fn argument_types_are_checked_against_parameters() {
    let m = || mac("m", &[("v", "number")], vec![]);
    assert_eq!(
        inline(vec![call("m", vec![t("text")])], vec![m()]),
        Err(CompilerError::TypeCheckFailed(Type::Num, Type::Str))
    );
    assert_eq!(
        inline(vec![call("m", vec![f(&["unknown"])])], vec![m()]),
        Err(CompilerError::FieldTypeNotKnown(vec![s("unknown")]))
    );
    assert_eq!(
        inline(vec![var("flag", "bool", n("1")), call("m", vec![f(&["flag"])])], vec![m()]).map(|x| x.len()),
        Ok(1)
    );
    assert_eq!(inline(vec![call("m", vec![Expression::ExternalFieldAccess(s("e"))])], vec![m()]), Ok(vec![]));
    let p = mac("p", &[("v", "Point")], vec![]);
    assert_eq!(
        inline(vec![var("q", "Line", n("1")), call("p", vec![f(&["q"])])], vec![p]),
        Err(CompilerError::TypeCheckFailed(named("Point"), named("Line")))
    );
}

#[test]
fn two_expansions_share_no_local_name() {
    let m = mac(
        "count",
        &[("by", "number")],
        vec![
            var("i", "number", f(&["by"])),
            assign(&["i"], Expression::Add(b(f(&["i"])), b(n("1")))),
            InnerStatement::ExternalAssign(s("o"), Expression::PostIncrement(s("i"))),
        ],
    );
    let out = inline(vec![call("count", vec![n("1")]), call("count", vec![n("2")])], vec![m]).unwrap();
    let expansion = |site: &str, by: &str| {
        let name = format!("_m{}_i", site);
        vec![
            var(&name, "number", n(by)),
            assign(&[&name], Expression::Add(b(f(&[&name])), b(n("1")))),
            InnerStatement::ExternalAssign(s("o"), Expression::PostIncrement(name.clone())),
        ]
    };
    let mut expected = expansion("0", "1");
    expected.extend(expansion("1", "2"));
    assert_eq!(out, expected);
}

#[test]
fn locals_inside_branches_are_renamed() {
    let m = mac(
        "m",
        &[("c", "bool")],
        vec![InnerStatement::If(
            f(&["c"]),
            vec![var("p", "Point", n("1")), assign(&["p", "x"], n("2"))],
            vec![InnerStatement::DeclareConst(fd("k", "number"), f(&["p", "y"]))],
        )],
    );
    let out = inline(vec![var("flag", "bool", n("1")), call("m", vec![f(&["flag"])])], vec![m]).unwrap();
    assert_eq!(
        out[1],
        InnerStatement::If(
            f(&["flag"]),
            vec![var("_m0_p", "Point", n("1")), assign(&["_m0_p", "x"], n("2"))],
            vec![InnerStatement::DeclareConst(fd("_m0_k", "number"), f(&["_m0_p", "y"]))],
        )
    );
}

#[test]
fn calls_inside_branches_are_expanded() {
    let m = mac("m", &[], vec![InnerStatement::Goto(s("l"))]);
    let out = inline(
        vec![InnerStatement::If(n("1"), vec![call("m", vec![])], vec![call("m", vec![]), call("m", vec![])])],
        vec![m],
    );
    let g = || InnerStatement::Goto(s("l"));
    assert_eq!(out, Ok(vec![InnerStatement::If(n("1"), vec![g()], vec![g(), g()])]));
}

#[test]
fn members_of_bound_fields_continue_the_path() {
    let m = mac(
        "m",
        &[("p", "any"), ("q", "any")],
        vec![
            assign(&["p", "x"], f(&["q", "y", "z"])),
            InnerStatement::Return(Expression::PreDecrement(s("p"))),
        ],
    );
    let out = inline(
        vec![var("a_b", "any", n("1")), var("c", "any", n("1")), call("m", vec![f(&["a", "b"]), f(&["c"])])],
        vec![m],
    )
    .unwrap();
    assert_eq!(
        out[2..].to_vec(),
        vec![
            assign(&["a", "b", "x"], f(&["c", "y", "z"])),
            InnerStatement::Return(Expression::PreDecrement(s("a_b"))),
        ]
    );
}

#[test]
fn arguments_that_are_no_fields_cannot_be_written() {
    let write = mac("w", &[("p", "number")], vec![assign(&["p"], n("1"))]);
    assert_eq!(
        inline(vec![call("w", vec![n("5")])], vec![write]),
        Err(not_implemented("Assignment to a macro argument that is not a field"))
    );
    let member = mac("r", &[("p", "number")], vec![InnerStatement::Return(f(&["p", "x"]))]);
    assert_eq!(
        inline(vec![call("r", vec![n("5")])], vec![member]),
        Err(not_implemented("Member access on a macro argument that is not a field"))
    );
    let step = mac("s", &[("p", "number")], vec![InnerStatement::Return(Expression::PostDecrement(s("p")))]);
    assert_eq!(
        inline(vec![call("s", vec![n("5")])], vec![step]),
        Err(not_implemented("Increment or decrement of a macro argument that is not a field"))
    );
    let external = mac("e", &[("p", "number")], vec![assign(&["p", "x"], n("1"))]);
    assert_eq!(
        inline(vec![call("e", vec![Expression::ExternalFieldAccess(s("o"))])], vec![external]),
        Err(not_implemented("Assignment to a macro argument that is not a field"))
    );
}

#[test]
fn inline_stage_refuses_duplicates_and_markers() {
    assert_eq!(
        inline(vec![var("x", "number", n("1")), var("x", "number", n("2"))], vec![]),
        Err(CompilerError::DuplicateFieldDeclaration(s("x")))
    );
    assert_eq!(
        inline(vec![var("_m0_i", "number", n("1")), call("m", vec![])], vec![mac("m", &[], vec![var("i", "number", n("1"))])]),
        Err(CompilerError::DuplicateFieldDeclaration(s("_m0_i")))
    );
    let stray = InitialStatementBlocks {
        blocks: vec![Block::Statements(None, vec![OuterStatement::Label(s("L"))])],
        callables: vec![],
        structs: vec![],
    };
    assert_eq!(
        stray.inline_macros(&config()),
        Err(CompilerError::Internal(s("Encountered label `L` as an outer statement")))
    );
    let stray = InitialStatementBlocks {
        blocks: vec![Block::Statements(None, vec![OuterStatement::Line(vec![], None)])],
        callables: vec![],
        structs: vec![],
    };
    assert_eq!(
        stray.materialise_structs(&config()),
        Err(CompilerError::Internal(s("Encountered a line group as an outer statement")))
    );
}

#[test]
fn inline_keeps_block_shape() {
    let m = mac("m", &[], vec![InnerStatement::Goto(s("a")), InnerStatement::Goto(s("b"))]);
    let blocks = InitialStatementBlocks {
        blocks: vec![
            Block::Statements(Some(s("first")), vec![OuterStatement::Inner(call("m", vec![]))]),
            Block::Line(Some(s("second")), vec![call("m", vec![])]),
            Block::Statements(None, vec![]),
        ],
        callables: vec![m],
        structs: vec![point()],
    };
    let out = blocks.inline_macros(&config()).unwrap();
    let g = |l: &str| InnerStatement::Goto(s(l));
    assert_eq!(
        out.blocks,
        vec![
            Block::Statements(Some(s("first")), vec![OuterStatement::Inner(g("a")), OuterStatement::Inner(g("b"))]),
            Block::Line(Some(s("second")), vec![g("a"), g("b")]),
            Block::Statements(None, vec![]),
        ]
    );
    assert_eq!(out.callables.len(), 1);
    assert_eq!(out.structs, vec![point()]);
}

fn literal(name: &str, inits: &[(&str, Expression)]) -> Expression {
    Expression::Constructor(TypeName { typename: s(name) }, inits.iter().map(|(k, v)| (s(k), v.clone())).collect())
}

#[test]
fn struct_declaration_becomes_one_declaration_per_member() {
    let out = flatten(vec![var("p", "Point", literal("Point", &[("x", n("1")), ("y", n("2"))]))], vec![point()]);
    assert_eq!(out, Ok(vec![var("p_x", "number", n("1")), var("p_y", "number", n("2"))]));
}

#[test]
fn members_come_in_definition_order() {
    let out = flatten(vec![var("p", "Point", literal("Point", &[("y", n("2")), ("x", n("1"))]))], vec![point()]);
    assert_eq!(out, Ok(vec![var("p_x", "number", n("1")), var("p_y", "number", n("2"))]));
}

#[test]
fn struct_literal_must_name_every_member_and_no_other() {
    assert_eq!(
        flatten(vec![var("p", "Point", literal("Point", &[("x", n("1"))]))], vec![point()]),
        Err(not_implemented("Struct literal is missing member `y`"))
    );
    assert_eq!(
        flatten(vec![var("p", "Point", literal("Point", &[]))], vec![point()]),
        Err(not_implemented("Struct literal is missing member `x`"))
    );
    assert_eq!(
        flatten(
            vec![var("p", "Point", literal("Point", &[("x", n("1")), ("z", n("3")), ("y", n("2"))]))],
            vec![point()]
        ),
        Err(not_implemented("Struct literal has unknown member `z`"))
    );
}

#[test]
fn member_values_are_type_checked() {
    assert_eq!(
        flatten(vec![var("p", "Point", literal("Point", &[("x", n("1")), ("y", t("two"))]))], vec![point()]),
        Err(CompilerError::TypeCheckFailed(Type::Num, Type::Str))
    );
    assert_eq!(
        flatten(vec![var("p", "Point", literal("Point", &[("x", f(&["q"])), ("y", n("2"))]))], vec![point()]),
        Err(CompilerError::FieldTypeNotKnown(vec![s("q")]))
    );
    assert_eq!(
        flatten(
            vec![var("p", "Point", literal("Point", &[("x", n("1")), ("y", f(&["p", "x"]))]))],
            vec![point()]
        ),
        Ok(vec![var("p_x", "number", n("1")), var("p_y", "number", f(&["p", "x"]))])
    );
}

#[test]
fn constructor_needs_a_known_struct() {
    let inits = vec![(s("x"), n("1"))];
    assert_eq!(
        flatten(vec![var("p", "number", literal("Point", &[("x", n("1"))]))], vec![point()]),
        Err(CompilerError::FieldConstructorAssignment(Type::Num, inits.clone()))
    );
    assert_eq!(
        flatten(vec![var("p", "Shape", literal("Shape", &[("x", n("1"))]))], vec![point()]),
        Err(CompilerError::FieldConstructorAssignment(named("Shape"), inits.clone()))
    );
    let line = StructDefinition { name: s("Line"), fields: vec![fd("x", "number")] };
    assert_eq!(
        flatten(vec![var("p", "Line", literal("Point", &[("x", n("1"))]))], vec![point(), line]),
        Err(CompilerError::TypeCheckFailed(named("Line"), named("Point")))
    );
}

#[test]
fn struct_assignment_becomes_one_assignment_per_member() {
    let out = flatten(
        vec![
            var("p", "Point", literal("Point", &[("x", n("1")), ("y", n("2"))])),
            assign(&["p"], literal("Point", &[("y", n("4")), ("x", n("3"))])),
        ],
        vec![point()],
    );
    assert_eq!(
        out,
        Ok(vec![
            var("p_x", "number", n("1")),
            var("p_y", "number", n("2")),
            assign(&["p", "x"], n("3")),
            assign(&["p", "y"], n("4")),
        ])
    );
    assert_eq!(
        flatten(vec![assign(&["q", "r"], literal("Point", &[]))], vec![point()]),
        Err(CompilerError::FieldTypeNotKnown(vec![s("q"), s("r")]))
    );
    assert_eq!(
        flatten(vec![var("k", "number", n("1")), assign(&["k"], literal("Point", &[]))], vec![point()]),
        Err(CompilerError::FieldConstructorAssignment(Type::Num, vec![]))
    );
}

#[test]
fn flattening_keeps_other_statements_and_refuses_duplicates() {
    let plain = vec![var("a", "number", n("1")), assign(&["a"], n("2")), InnerStatement::Goto(s("l"))];
    assert_eq!(flatten(plain.clone(), vec![point()]), Ok(plain));
    assert_eq!(
        flatten(
            vec![var("p_y", "number", n("1")), var("p", "Point", literal("Point", &[("x", n("1")), ("y", n("2"))]))],
            vec![point()]
        ),
        Err(CompilerError::DuplicateFieldDeclaration(s("p_y")))
    );
    assert_eq!(
        flatten(vec![var("a", "number", n("1")), InnerStatement::DeclareConst(fd("a", "number"), n("2"))], vec![]),
        Err(CompilerError::DuplicateFieldDeclaration(s("a")))
    );
}

#[test]
fn declarations_and_assignments_are_translated() {
    let out = emit(vec![
        var("x", "number", n("1")),
        assign(&["x"], Expression::Add(b(f(&["x"])), b(n("2")))),
        InnerStatement::ExternalAssign(s("screen"), f(&["x"])),
    ]);
    assert_eq!(
        out,
        Ok(vec![
            target::Statement::Assignment(local("x"), tn("1")),
            target::Statement::Assignment(
                local("x"),
                target::Expression::Add(Box::new(target::Expression::VariableAccess(local("x"))), Box::new(tn("2")))
            ),
            target::Statement::Assignment(external("screen"), target::Expression::VariableAccess(local("x"))),
        ])
    );
}

#[test]
fn declaring_twice_and_assigning_undeclared_fail() {
    assert_eq!(
        emit(vec![var("x", "number", n("1")), var("x", "number", n("2"))]),
        Err(CompilerError::DuplicateFieldDeclaration(s("x")))
    );
    assert_eq!(
        emit(vec![var("x", "number", n("1")), InnerStatement::DeclareConst(fd("x", "string"), t("2"))]),
        Err(CompilerError::DuplicateFieldDeclaration(s("x")))
    );
    assert_eq!(emit(vec![assign(&["y"], n("1"))]), Err(CompilerError::AssigningUndeclaredField(vec![s("y")])));
    assert_eq!(
        emit(vec![var("p", "number", n("1")), assign(&["p", "x"], n("1"))]),
        Err(CompilerError::AssigningUndeclaredField(vec![s("p"), s("x")]))
    );
}

#[test]
fn assignments_are_type_checked() {
    assert_eq!(
        emit(vec![var("x", "number", t("text"))]),
        Err(CompilerError::TypeCheckFailed(Type::Num, Type::Str))
    );
    assert_eq!(
        emit(vec![var("x", "bool", n("1")), assign(&["x"], n("2"))]),
        Err(CompilerError::TypeCheckFailed(Type::Bool, Type::Num))
    );
    assert_eq!(emit(vec![var("x", "any", t("text")), assign(&["x"], n("2"))]).map(|v| v.len()), Ok(2));
    assert_eq!(
        emit(vec![var("x", "any", n("1")), var("y", "number", f(&["x"]))]),
        Err(CompilerError::TypeCheckFailed(Type::Num, Type::Any))
    );
}

#[test]
fn type_test_becomes_a_constant() {
    let is = |e: Expression, ty: &str| InnerStatement::ExternalAssign(s("o"), Expression::Is(b(e), s(ty)));
    let out = emit(vec![
        var("flag", "bool", Expression::Not(b(n("1")))),
        is(n("1"), "number"),
        is(t("a"), "number"),
        is(f(&["flag"]), "number"),
        is(n("1"), "bool"),
        is(t("a"), "any"),
    ])
    .unwrap();
    let constant = |text: &str| target::Statement::Assignment(external("o"), tn(text));
    assert_eq!(out[1..], [constant("1"), constant("0"), constant("1"), constant("0"), constant("1")]);
    assert_eq!(
        emit(vec![is(f(&["nowhere"]), "number")]),
        Err(CompilerError::FieldTypeNotKnown(vec![s("nowhere")]))
    );
}

#[test]
fn constants_go_to_the_table_and_emit_nothing() {
    let blocks = blocks_of(
        vec![InnerStatement::DeclareConst(fd("limit", "number"), Expression::Bracket(b(n("10")))), var("x", "number", f(&["limit"]))],
        vec![],
        vec![],
    );
    let out = blocks.covert_yolol_blocks().unwrap();
    assert_eq!(
        out.blocks,
        vec![YololBlock::Statements(
            None,
            vec![target::Statement::Assignment(local("x"), target::Expression::VariableAccess(local("limit")))]
        )]
    );
    assert_eq!(out.consts.len(), 1);
    assert_eq!(out.consts.get(&s("limit")), Some(&target::Expression::Brackets(Box::new(tn("10")))));
    assert_eq!(out.types.len(), 2);
    assert_eq!(out.types.get(&s("limit")), Some(&Type::Num));
    assert_eq!(out.types.get(&s("x")), Some(&Type::Num));
}

#[test]
fn goto_jumps_through_a_named_variable() {
    assert_eq!(
        emit(vec![InnerStatement::Goto(s("loop"))]),
        Ok(vec![target::Statement::Goto(target::Expression::VariableAccess(local("goto_layout_label_loop")))])
    );
}

#[test]
fn conditionals_translate_both_branches_in_order() {
    let out = emit(vec![InnerStatement::If(
        Expression::LessThan(b(Expression::ExternalFieldAccess(s("a"))), b(n("3"))),
        vec![var("x", "number", n("1"))],
        vec![assign(&["x"], n("2")), InnerStatement::Goto(s("end"))],
    )]);
    assert_eq!(
        out,
        Ok(vec![target::Statement::If(
            target::Expression::LessThan(Box::new(target::Expression::VariableAccess(external("a"))), Box::new(tn("3"))),
            Box::new(target::StatementList { statements: vec![target::Statement::Assignment(local("x"), tn("1"))] }),
            Box::new(target::StatementList {
                statements: vec![
                    target::Statement::Assignment(local("x"), tn("2")),
                    target::Statement::Goto(target::Expression::VariableAccess(local("goto_layout_label_end"))),
                ]
            }),
        )])
    );
}

#[test]
fn every_operator_keeps_its_meaning() {
    let x = || b(Expression::ExternalFieldAccess(s("x")));
    let tx = || Box::new(target::Expression::VariableAccess(external("x")));
    let cases: Vec<(Expression, target::Expression)> = vec![
        (Expression::Add(x(), x()), target::Expression::Add(tx(), tx())),
        (Expression::Subtract(x(), x()), target::Expression::Subtract(tx(), tx())),
        (Expression::Multiply(x(), x()), target::Expression::Multiply(tx(), tx())),
        (Expression::Divide(x(), x()), target::Expression::Divide(tx(), tx())),
        (Expression::Modulus(x(), x()), target::Expression::Modulo(tx(), tx())),
        (Expression::Exponent(x(), x()), target::Expression::Exponent(tx(), tx())),
        (Expression::And(x(), x()), target::Expression::And(tx(), tx())),
        (Expression::Or(x(), x()), target::Expression::Or(tx(), tx())),
        (Expression::GreaterThan(x(), x()), target::Expression::GreaterThan(tx(), tx())),
        (Expression::LessThan(x(), x()), target::Expression::LessThan(tx(), tx())),
        (Expression::GreaterThanOrEq(x(), x()), target::Expression::GreaterThanEqualTo(tx(), tx())),
        (Expression::LessThanOrEq(x(), x()), target::Expression::LessThanEqualTo(tx(), tx())),
        (Expression::Equals(x(), x()), target::Expression::EqualTo(tx(), tx())),
        (Expression::NotEquals(x(), x()), target::Expression::NotEqual(tx(), tx())),
        (Expression::Negate(x()), target::Expression::Negate(tx())),
        (Expression::Not(x()), target::Expression::Not(tx())),
        (Expression::Bracket(x()), target::Expression::Brackets(tx())),
        (Expression::PostIncrement(s("i")), target::Expression::PostIncrement(local("i"))),
        (Expression::PostDecrement(s("i")), target::Expression::PostDecrement(local("i"))),
        (Expression::PreIncrement(s("i")), target::Expression::PreIncrement(local("i"))),
        (Expression::PreDecrement(s("i")), target::Expression::PreDecrement(local("i"))),
        (t("text"), target::Expression::ConstantString(s("text"))),
        (f(&["p", "x"]), target::Expression::VariableAccess(local("p_x"))),
    ];
    for (source, expected) in cases {
        assert_eq!(
            emit(vec![InnerStatement::ExternalAssign(s("o"), source)]),
            Ok(vec![target::Statement::Assignment(external("o"), expected)])
        );
    }
}

#[test]
fn unsupported_statements_end_the_translation() {
    assert_eq!(emit(vec![InnerStatement::CompilePanic(s("stop"), 17)]), Err(CompilerError::ExplicitPanic(s("stop"), 17)));
    assert_eq!(
        emit(vec![InnerStatement::ExternalAssign(s("o"), Expression::Add(b(n("1")), b(Expression::CompilePanic(s("no"), 4))))]),
        Err(CompilerError::ExplicitPanic(s("no"), 4))
    );
    assert_eq!(emit(vec![InnerStatement::Emit(s("a=1"))]), Err(not_implemented("Direct emit yolol code: `a=1`")));
    assert_eq!(emit(vec![call("f", vec![])]), Err(not_implemented("Find Call `f`")));
    assert_eq!(
        emit(vec![InnerStatement::ExternalAssign(s("o"), Expression::Call(s("g"), vec![]))]),
        Err(not_implemented("Find Call `g`"))
    );
    assert_eq!(emit(vec![InnerStatement::Return(n("1"))]), Err(not_implemented("`return` statements are not implemented")));
    assert_eq!(
        emit(vec![InnerStatement::ExternalAssign(s("o"), literal("Point", &[]))]),
        Err(CompilerError::ConstructorExpression())
    );
    let stray = InitialStatementBlocks {
        blocks: vec![Block::Statements(None, vec![OuterStatement::Label(s("L"))])],
        callables: vec![],
        structs: vec![],
    };
    assert_eq!(
        stray.covert_yolol_blocks().map(|x| x.blocks),
        Err(CompilerError::Internal(s("Encountered label `L` as an outer statement")))
    );
}

#[test]
fn blocks_translate_one_for_one() {
    let blocks = InitialStatementBlocks {
        blocks: vec![
            Block::Statements(None, vec![]),
            Block::Statements(Some(s("a")), vec![OuterStatement::Inner(var("x", "number", n("1")))]),
            Block::Line(Some(s("b")), vec![assign(&["x"], n("2")), InnerStatement::Goto(s("a"))]),
            Block::Line(None, vec![]),
        ],
        callables: vec![],
        structs: vec![],
    };
    let out = blocks.covert_yolol_blocks().unwrap();
    assert_eq!(
        out.blocks,
        vec![
            YololBlock::Statements(None, vec![]),
            YololBlock::Statements(Some(s("a")), vec![target::Statement::Assignment(local("x"), tn("1"))]),
            YololBlock::Line(
                Some(s("b")),
                vec![
                    target::Statement::Assignment(local("x"), tn("2")),
                    target::Statement::Goto(target::Expression::VariableAccess(local("goto_layout_label_a"))),
                ]
            ),
            YololBlock::Line(None, vec![]),
        ]
    );
}

fn sample_program() -> Program {
    let add = mac(
        "add",
        &[("dst", "number"), ("amount", "number")],
        vec![
            var("sum", "number", Expression::Add(b(f(&["dst"])), b(f(&["amount"])))),
            assign(&["dst"], f(&["sum"])),
        ],
    );
    Program {
        imports: vec![],
        constants: vec![],
        enums: vec![],
        structs: vec![point()],
        ranges: vec![],
        callables: vec![add],
        main: Some(Main {
            statements: vec![
                OuterStatement::Inner(var("total", "number", n("0"))),
                OuterStatement::Label(s("again")),
                OuterStatement::Inner(call("add", vec![f(&["total"]), Expression::Multiply(b(n("2")), b(n("3")))])),
                OuterStatement::Inner(call("add", vec![f(&["total"]), n("1")])),
                OuterStatement::Inner(var("p", "Point", literal("Point", &[("y", f(&["total"])), ("x", n("1"))]))),
                OuterStatement::Line(
                    vec![InnerStatement::ExternalAssign(s("out"), f(&["p", "y"])), InnerStatement::Goto(s("again"))],
                    Some(s("show")),
                ),
            ],
        }),
    }
}

#[test]
fn whole_pipeline_lowers_a_program() {
    let out = compile(sample_program(), &config()).unwrap();
    let v = |name: &str| Box::new(target::Expression::VariableAccess(local(name)));
    assert_eq!(
        out.blocks,
        vec![
            YololBlock::Statements(None, vec![target::Statement::Assignment(local("total"), tn("0"))]),
            YololBlock::Statements(
                Some(s("again")),
                vec![
                    target::Statement::Assignment(
                        local("_a0_1"),
                        target::Expression::Multiply(Box::new(tn("2")), Box::new(tn("3")))
                    ),
                    target::Statement::Assignment(local("_m0_sum"), target::Expression::Add(v("total"), v("_a0_1"))),
                    target::Statement::Assignment(local("total"), *v("_m0_sum")),
                    target::Statement::Assignment(
                        local("_m1_sum"),
                        target::Expression::Add(v("total"), Box::new(tn("1")))
                    ),
                    target::Statement::Assignment(local("total"), *v("_m1_sum")),
                    target::Statement::Assignment(local("p_x"), tn("1")),
                    target::Statement::Assignment(local("p_y"), *v("total")),
                ]
            ),
            YololBlock::Line(
                Some(s("show")),
                vec![
                    target::Statement::Assignment(external("out"), *v("p_y")),
                    target::Statement::Goto(target::Expression::VariableAccess(local("goto_layout_label_again"))),
                ]
            ),
            YololBlock::Statements(None, vec![]),
        ]
    );
    assert_eq!(out.types.len(), 6);
    assert_eq!(out.consts.len(), 0);
}

#[test]
fn two_runs_give_the_same_output() {
    let first = compile(sample_program(), &config());
    let second = compile(sample_program(), &config());
    assert_eq!(format!("{:#?}", first), format!("{:#?}", second));
    assert_eq!(first, second);
}

#[test]
fn pipeline_stops_at_the_first_error() {
    let mut program = sample_program();
    program.main = None;
    assert_eq!(compile(program, &config()), Err(CompilerError::NoMainBlock));
    let mut program = sample_program();
    program.callables.clear();
    assert_eq!(compile(program, &config()), Err(CompilerError::CallableNotFound(s("add"))));
    let mut program = sample_program();
    program.structs.clear();
    assert_eq!(
        compile(program, &config()),
        Err(CompilerError::FieldConstructorAssignment(
            named("Point"),
            vec![(s("y"), f(&["total"])), (s("x"), n("1"))]
        ))
    );
}

#[test]
fn calls_inside_macro_bodies_are_refused() {
    let inner = mac("inner", &[], vec![]);
    let outer = mac("outer", &[], vec![call("inner", vec![])]);
    assert_eq!(
        inline(vec![call("outer", vec![])], vec![inner, outer]),
        Err(not_implemented("Calls inside a macro body are not implemented"))
    );
    let branch = mac(
        "branch",
        &[],
        vec![InnerStatement::If(n("1"), vec![], vec![InnerStatement::If(n("2"), vec![call("missing", vec![])], vec![])])],
    );
    assert_eq!(
        inline(vec![call("branch", vec![])], vec![branch]),
        Err(not_implemented("Calls inside a macro body are not implemented"))
    );
    let wrong = mac("wrong", &[("a", "number")], vec![call("wrong", vec![])]);
    assert_eq!(
        inline(vec![call("wrong", vec![])], vec![wrong]),
        Err(CompilerError::IncorrectCallParameterCount(s("wrong"), 1, 0))
    );
}

#[test]
fn no_call_is_left_after_inlining() {
    let m = mac("m", &[("v", "number")], vec![InnerStatement::If(f(&["v"]), vec![var("t", "number", f(&["v"]))], vec![])]);
    let out = inline(
        vec![
            call("m", vec![n("1")]),
            InnerStatement::If(n("1"), vec![call("m", vec![Expression::Negate(b(n("2")))])], vec![call("m", vec![n("3")])]),
        ],
        vec![m],
    )
    .unwrap();
    fn holds_call(stmts: &[InnerStatement]) -> bool {
        stmts.iter().any(|x| match x {
            InnerStatement::Call(_, _) => true,
            InnerStatement::If(_, p, q) => holds_call(p) || holds_call(q),
            _ => false,
        })
    }
    assert!(!holds_call(&out));
    assert_eq!(out.len(), 2);
}

#[test]
fn wrong_count_is_reported_behind_statements_that_succeed() {
    let m = mac("m", &[("a", "number")], vec![]);
    assert_eq!(
        inline(
            vec![var("x", "number", n("1")), call("m", vec![f(&["x"])]), call("m", vec![]), call("nothing", vec![])],
            vec![m]
        ),
        Err(CompilerError::IncorrectCallParameterCount(s("m"), 1, 0))
    );
}

#[test]
fn constants_must_be_constant() {
    let constant = |value: Expression| InnerStatement::DeclareConst(fd("k", "number"), value);
    assert_eq!(
        emit(vec![var("x", "number", n("1")), constant(f(&["x"]))]),
        Err(CompilerError::NonConstantValue(s("k"), f(&["x"])))
    );
    let sum = Expression::Add(b(n("1")), b(Expression::ExternalFieldAccess(s("e"))));
    assert_eq!(
        emit(vec![InnerStatement::DeclareConst(fd("k", "any"), Expression::Bracket(b(Expression::ExternalFieldAccess(s("e")))))]),
        Err(CompilerError::CompilerStageNotImplemented(s(
            "Cannot infer type for expression: `ExternalFieldAccess(\"e\")`"
        )))
    );
    assert_eq!(emit(vec![constant(sum.clone())]).is_err(), true);
    let product = Expression::Multiply(b(Expression::Negate(b(n("2")))), b(Expression::Bracket(b(n("3")))));
    assert_eq!(emit(vec![constant(product)]), Ok(vec![]));
    assert_eq!(
        emit(vec![InnerStatement::DeclareConst(fd("flag", "bool"), Expression::Is(b(n("1")), s("number")))]),
        Ok(vec![])
    );
    assert_eq!(
        emit(vec![
            InnerStatement::DeclareConst(fd("a", "number"), n("1")),
            InnerStatement::DeclareConst(fd("c", "number"), Expression::Add(b(f(&["a"])), b(n("1")))),
        ]),
        Err(CompilerError::NonConstantValue(s("c"), Expression::Add(b(f(&["a"])), b(n("1")))))
    );
}

#[test]
fn tables_keep_the_order_of_declarations() {
    let blocks = InitialStatementBlocks {
        blocks: vec![
            Block::Statements(None, vec![OuterStatement::Inner(var("zeta", "number", n("1")))]),
            Block::Line(
                None,
                vec![
                    InnerStatement::DeclareConst(fd("alpha", "string"), t("a")),
                    InnerStatement::If(n("1"), vec![var("mid", "bool", Expression::Not(b(n("1"))))], vec![var("end", "any", n("2"))]),
                    InnerStatement::DeclareConst(fd("beta", "number"), n("3")),
                ],
            ),
        ],
        callables: vec![],
        structs: vec![],
    };
    let out = blocks.covert_yolol_blocks().unwrap();
    assert_eq!(out.types.names(), vec![s("zeta"), s("alpha"), s("mid"), s("end"), s("beta")]);
    assert_eq!(out.consts.names(), vec![s("alpha"), s("beta")]);
    assert_eq!(out.types.get(&s("mid")), Some(&Type::Bool));
    assert_eq!(out.types.get(&s("end")), Some(&Type::Any));
}
