use ycompiler::compiler::stages::initial_blocks::{extract_main, Block};
use ycompiler::compiler::BuildConfig;
use ycompiler::error::CompilerError;
use ycompiler::grammar::ast::{
    CallType, CallableDefinition, Expression, FieldDefinition, InnerStatement, Main, OuterStatement, Program,
    StructDefinition, TypeName,
};

fn statement(name: &str) -> OuterStatement {
    OuterStatement::Inner(InnerStatement::ExternalAssign(name.to_string(), Expression::ConstNumber("1".to_string())))
}

fn label(name: &str) -> OuterStatement {
    OuterStatement::Label(name.to_string())
}

fn empty_program(main: Option<Main>) -> Program {
    Program {
        imports: vec![],
        constants: vec![],
        enums: vec![],
        structs: vec![],
        ranges: vec![],
        callables: vec![],
        main,
    }
}

fn default_config() -> BuildConfig {
    BuildConfig::from_matches(None, None, None)
}

#[test]
fn labels_attach_to_the_block_that_follows() {
    let blocks = extract_main(vec![label("A"), statement("s1"), label("B"), statement("s2")]);
    assert_eq!(
        blocks,
        vec![
            Block::Statements(None, vec![]),
            Block::Statements(Some("A".to_string()), vec![statement("s1")]),
            Block::Statements(None, vec![statement("s2")]),
        ]
    );
}

#[test]
fn label_before_another_marker_keeps_its_statements() {
    let blocks = extract_main(vec![label("A"), statement("s1"), label("B"), statement("s2"), label("C")]);
    assert_eq!(
        blocks,
        vec![
            Block::Statements(None, vec![]),
            Block::Statements(Some("A".to_string()), vec![statement("s1")]),
            Block::Statements(Some("B".to_string()), vec![statement("s2")]),
            Block::Statements(None, vec![]),
        ]
    );
}

#[test]
fn adjacent_labels_give_empty_blocks() {
    let blocks = extract_main(vec![label("A"), label("B")]);
    assert_eq!(
        blocks,
        vec![
            Block::Statements(None, vec![]),
            Block::Statements(Some("A".to_string()), vec![]),
            Block::Statements(None, vec![]),
        ]
    );
}

#[test]
fn empty_main_is_one_empty_block() {
    assert_eq!(extract_main(vec![]), vec![Block::Statements(None, vec![])]);
}

#[test]
fn line_group_is_a_block_of_its_own() {
    let inner = vec![InnerStatement::Goto("top".to_string())];
    let blocks = extract_main(vec![
        statement("a"),
        OuterStatement::Line(inner.clone(), Some("L".to_string())),
        statement("b"),
        statement("c"),
    ]);
    assert_eq!(
        blocks,
        vec![
            Block::Statements(None, vec![statement("a")]),
            Block::Line(Some("L".to_string()), inner),
            Block::Statements(None, vec![statement("b"), statement("c")]),
        ]
    );
}

#[test]
fn line_group_clears_the_pending_label() {
    let blocks = extract_main(vec![
        label("A"),
        statement("a"),
        OuterStatement::Line(vec![], None),
        statement("b"),
        label("B"),
    ]);
    assert_eq!(
        blocks,
        vec![
            Block::Statements(None, vec![]),
            Block::Statements(Some("A".to_string()), vec![statement("a")]),
            Block::Line(None, vec![]),
            Block::Statements(None, vec![statement("b")]),
            Block::Statements(None, vec![]),
        ]
    );
}

#[test]
fn program_without_main_is_refused() {
    assert_eq!(empty_program(None).build_blocks(&default_config()), Err(CompilerError::NoMainBlock));
}

#[test]
fn tables_pass_through_unchanged() {
    let callable = |name: &str| CallableDefinition {
        name: name.to_string(),
        call_type: CallType::Macro,
        parameters: vec![],
        return_type: None,
        statements: vec![InnerStatement::Goto("x".to_string())],
        attributes: vec![],
    };
    let point = || StructDefinition {
        name: "Point".to_string(),
        fields: vec![FieldDefinition { name: "x".to_string(), typename: TypeName { typename: "number".to_string() } }],
    };
    let mut program = empty_program(Some(Main { statements: vec![statement("a")] }));
    program.callables = vec![callable("f"), callable("g")];
    program.structs = vec![point()];
    let blocks = program.build_blocks(&default_config()).unwrap();
    assert_eq!(blocks.blocks, vec![Block::Statements(None, vec![statement("a")])]);
    assert_eq!(blocks.callables, vec![callable("f"), callable("g")]);
    assert_eq!(blocks.structs, vec![point()]);
}

#[test]
fn build_config_defaults() {
    let config = default_config();
    assert_eq!(config.line_length(), 70);
    assert_eq!(config.line_count(), 20);
    assert!(config.configs().is_empty());
    let config = BuildConfig::from_matches(Some(vec!["debug".to_string()]), Some(40), Some(5));
    assert_eq!(config.line_length(), 40);
    assert_eq!(config.line_count(), 5);
    assert_eq!(config.configs(), &vec!["debug".to_string()]);
    let config = BuildConfig::from_matches(None, None, Some(0));
    assert_eq!(config.line_length(), 70);
    assert_eq!(config.line_count(), 0);
}
