use ycompiler::grammar::ast::{
    CallType, CallableDefinition, Constant, EnumDefinition, EnumItemDefinition, Expression, FieldDefinition, Import,
    Main, OuterStatement, Program, RangeDefinition, StructDefinition, TypeName,
};
use ycompiler::grammar::parser::{split_types, TypeDefinition};

fn field_of(name: &str) -> FieldDefinition {
    FieldDefinition { name: name.to_string(), typename: TypeName { typename: "number".to_string() } }
}

fn one() -> Expression {
    Expression::ConstNumber("1".to_string())
}

fn enumeration(name: &str) -> EnumDefinition {
    EnumDefinition {
        name: name.to_string(),
        base: "number".to_string(),
        items: vec![EnumItemDefinition { name: "A".to_string() }],
    }
}

fn structure(name: &str) -> StructDefinition {
    StructDefinition { name: name.to_string(), fields: vec![field_of("x")] }
}

fn range(name: &str) -> RangeDefinition {
    RangeDefinition { name: name.to_string(), base: "number".to_string(), expression: one() }
}

fn callable(name: &str) -> CallableDefinition {
    CallableDefinition {
        name: name.to_string(),
        call_type: CallType::Proc,
        parameters: vec![],
        return_type: None,
        statements: vec![],
        attributes: vec![],
    }
}

fn program(tag: &str, main: Option<&str>) -> Program {
    Program {
        imports: vec![Import { path: format!("{}.y", tag), namespace: None }],
        constants: vec![Constant { field: field_of(&format!("{}_c", tag)), value: one() }],
        enums: vec![enumeration(&format!("{}_e", tag))],
        structs: vec![structure(&format!("{}_s", tag))],
        ranges: vec![range(&format!("{}_r", tag))],
        callables: vec![callable(&format!("{}_f", tag))],
        main: main.map(|l| Main { statements: vec![OuterStatement::Label(l.to_string())] }),
    }
}

#[test]
fn combine_appends_in_order() {
    let merged = program("a", None).combine(program("b", None), None);
    assert_eq!(merged.imports.iter().map(|i| i.path.as_str()).collect::<Vec<_>>(), vec!["a.y", "b.y"]);
    assert_eq!(merged.constants.iter().map(|c| c.field.name.as_str()).collect::<Vec<_>>(), vec!["a_c", "b_c"]);
    assert_eq!(merged.enums, vec![enumeration("a_e"), enumeration("b_e")]);
    assert_eq!(merged.structs, vec![structure("a_s"), structure("b_s")]);
    assert_eq!(merged.ranges, vec![range("a_r"), range("b_r")]);
    assert_eq!(merged.callables, vec![callable("a_f"), callable("b_f")]);
    assert_eq!(merged.main, None);
}

#[test]
fn combine_qualifies_imported_names() {
    let merged = program("a", None).combine(program("b", None), Some("lib".to_string()));
    assert_eq!(merged.constants[1], Constant { field: field_of("lib:b_c"), value: one() });
    assert_eq!(merged.enums, vec![enumeration("a_e"), enumeration("lib:b_e")]);
    assert_eq!(merged.structs, vec![structure("a_s"), structure("lib:b_s")]);
    assert_eq!(merged.ranges, vec![range("a_r"), range("lib:b_r")]);
    assert_eq!(merged.callables, vec![callable("a_f"), callable("lib:b_f")]);
    assert_eq!(merged.imports[1], Import { path: "b.y".to_string(), namespace: None });
}

#[test]
fn first_main_is_kept() {
    let label = |p: &Program| match &p.main {
        Some(m) => format!("{:?}", m.statements),
        None => "none".to_string(),
    };
    let own = program("a", Some("own")).combine(program("b", Some("other")), None);
    assert_eq!(label(&own), "[Label(\"own\")]");
    let imported = program("a", None).combine(program("b", Some("other")), Some("ns".to_string()));
    assert_eq!(label(&imported), "[Label(\"other\")]");
    let later = imported.combine(program("c", Some("late")), None);
    assert_eq!(label(&later), "[Label(\"other\")]");
}

#[test]
fn clear_imports_leaves_the_rest() {
    let cleared = program("a", Some("m")).clear_imports();
    let mut expected = program("a", Some("m"));
    expected.imports = vec![];
    assert_eq!(cleared, expected);
}

#[test]
fn apply_namespace_prefixes_every_definition() {
    let mut p = program("a", Some("m"));
    p.constants.push(Constant { field: field_of("second"), value: one() });
    p.apply_namespace("n");
    assert_eq!(p.constants.iter().map(|c| c.field.name.as_str()).collect::<Vec<_>>(), vec!["n:a_c", "n:second"]);
    assert_eq!(p.callables[0].name, "n:a_f");
    assert_eq!(p.imports[0].path, "a.y");
    assert!(p.main.is_some());
}

#[test]
fn split_types_sorts_by_kind_and_keeps_order() {
    let (enums, structs, ranges) = split_types(vec![
        TypeDefinition::Struct(structure("s1")),
        TypeDefinition::Enum(enumeration("e1")),
        TypeDefinition::Range(range("r1")),
        TypeDefinition::Struct(structure("s2")),
        TypeDefinition::Enum(enumeration("e2")),
    ]);
    assert_eq!(enums, vec![enumeration("e1"), enumeration("e2")]);
    assert_eq!(structs, vec![structure("s1"), structure("s2")]);
    assert_eq!(ranges, vec![range("r1")]);
    let (enums, structs, ranges) = split_types(vec![]);
    assert!(enums.is_empty() && structs.is_empty() && ranges.is_empty());
}

#[test]
fn imports_merge_in_their_order() {
    let merged = program("root", None).merge_imports(vec![
        (program("a", None), Some("x".to_string())),
        (program("b", Some("first")), None),
        (program("c", Some("second")), Some("y".to_string())),
    ]);
    assert_eq!(
        merged.callables.iter().map(|c| c.name.as_str()).collect::<Vec<_>>(),
        vec!["root_f", "x:a_f", "b_f", "y:c_f"]
    );
    assert!(merged.imports.is_empty());
    assert_eq!(merged.main, Some(Main { statements: vec![OuterStatement::Label("first".to_string())] }));
    let untouched = program("root", Some("own")).merge_imports(vec![]);
    assert_eq!(untouched, program("root", Some("own")));
    let own = program("root", Some("own")).merge_imports(vec![(program("b", Some("other")), None)]);
    assert_eq!(own.main, Some(Main { statements: vec![OuterStatement::Label("own".to_string())] }));
}
