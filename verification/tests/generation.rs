//! End-to-end checks of the generation pipeline on concrete schemas.

use astgen::error::GenError;
use astgen::pipeline::generate;
use astgen::registry::Registry;
use astgen::schema::parse_schema_line;

fn lines(ls: &[&str]) -> Vec<String> {
    ls.iter().map(|l| l.to_string()).collect()
}

#[test]
fn three_nodes_sum_type_in_schema_order() {
    let reg = Registry::standard();
    let input = lines(&[
        "Binary : left: Owned<Expr>, operator: Owned<Token>, right: Owned<Expr>",
        "Grouping : expression: Owned<Expr>",
        "Literal : value: Optional<Literal>",
    ]);
    let arts = generate(&reg, &input).unwrap();

    assert_eq!(arts.sum.name, "Expr");
    assert_eq!(arts.sum.variants.len(), 3);
    let names: Vec<&str> = arts.sum.variants.iter().map(|v| v.name.as_str()).collect();
    assert_eq!(names, ["Binary", "Grouping", "Literal"]);
    let payloads: Vec<&str> = arts.sum.variants.iter().map(|v| v.payload_ty.as_str()).collect();
    assert_eq!(payloads, ["BinaryExpr", "GroupingExpr", "LiteralExpr"]);
    let keys: Vec<&str> = arts.sum.variants.iter().map(|v| v.module_key.as_str()).collect();
    assert_eq!(keys, ["binary_expr", "grouping_expr", "literal_expr"]);
    assert_eq!(
        arts.sum.modules,
        ["binary_expr", "grouping_expr", "literal_expr"]
    );
}

#[test]
fn three_nodes_visitor_in_schema_order_not_reversed() {
    let reg = Registry::standard();
    let input = lines(&[
        "Binary : left: Owned<Expr>, operator: Owned<Token>, right: Owned<Expr>",
        "Grouping : expression: Owned<Expr>",
        "Literal : value: Optional<Literal>",
    ]);
    let arts = generate(&reg, &input).unwrap();

    assert_eq!(arts.visitor.name, "Visitor");
    assert_eq!(arts.visitor.methods.len(), 3);
    let names: Vec<&str> = arts.visitor.methods.iter().map(|m| m.name.as_str()).collect();
    assert_eq!(names, ["visit_binary_expr", "visit_grouping_expr", "visit_literal_expr"]);
    for (method, variant) in arts.visitor.methods.iter().zip(arts.sum.variants.iter()) {
        assert_eq!(method.param_ty, variant.payload_ty);
        assert_eq!(method.param_module, variant.module_key);
    }
}

#[test]
fn two_runs_over_identical_input_are_identical() {
    let reg = Registry::standard();
    let input = lines(&[
        "Binary : left: Owned<Expr>, operator: Owned<Token>, right: Owned<Expr>",
        "Grouping : expression: Owned<Expr>",
        "Literal : value: Optional<Literal>",
    ]);
    let first = generate(&reg, &input).unwrap();
    let second = generate(&reg, &input).unwrap();
    assert_eq!(first, second);
}

#[test]
fn full_interpreter_schema_generates_every_artifact() {
    let reg = Registry::standard();
    let input = lines(&[
        "Binary : left: Owned<Expr>, operator: Owned<Token>, right: Owned<Expr>",
        "Grouping : expression: Owned<Expr>",
        "Literal : value: Optional<Literal>",
        "Unary : operator: Owned<Token>, right: Owned<Expr>",
        "Assign : name: Owned<Token>, value: Owned<Expr>",
        "Call : callee: Owned<Expr>, paren: Owned<Token>, arguments: Sequence<Expr>",
        "Get : object: Owned<Expr>, name: Owned<Token>",
        "Logical : left: Owned<Expr>, operator: Owned<Token>, right: Owned<Expr>",
        "Set : object: Owned<Expr>, name: Owned<Token>, value: Owned<Expr>",
        "Super : keyword: Owned<Token>, method: Owned<Token>",
        "This : keyword: Owned<Token>",
        "Variable : name: Owned<Token>",
    ]);
    let arts = generate(&reg, &input).unwrap();

    assert_eq!(arts.nodes.len(), 12);
    assert_eq!(arts.sum.variants.len(), 12);
    assert_eq!(arts.visitor.methods.len(), 12);
    assert_eq!(arts.nodes[5].file_key, "call_expr");
    assert_eq!(arts.nodes[5].node_ty.ty_name, "CallExpr");
    assert_eq!(
        arts.nodes[5].node_ty.imports,
        ["use super::Expr;", "use crate::token::Token;"]
    );
    assert_eq!(arts.nodes[11].file_key, "variable_expr");
    assert_eq!(arts.visitor.methods[11].name, "visit_variable_expr");
}

#[test]
fn failed_run_hands_out_no_artifact() {
    let reg = Registry::standard();
    let input = lines(&[
        "Binary : left: Owned<Expr>, operator: Owned<Token>, right: Owned<Expr>",
        "Broken line without separator",
    ]);
    let r = generate(&reg, &input);
    assert_eq!(
        r,
        Err(GenError::MissingNodeSeparator { line: "Broken line without separator".to_string() })
    );
}

#[test]
fn first_bad_line_wins() {
    let reg = Registry::standard();
    let input = lines(&[
        "Binary : left",
        "Broken line without separator",
    ]);
    let r = generate(&reg, &input);
    assert_eq!(
        r,
        Err(GenError::MissingFieldSeparator {
            line: "Binary : left".to_string(),
            field: "left".to_string(),
        })
    );
}

#[test]
fn by_value_self_reference_aborts_the_run() {
    let reg = Registry::standard();
    let input = lines(&[
        "Grouping : expression: Owned<Expr>",
        "Bad : child: Expr",
    ]);
    let r = generate(&reg, &input);
    assert_eq!(
        r,
        Err(GenError::ValueSelfReference { node: "Bad".to_string(), field: "child".to_string() })
    );
}

#[test]
fn optional_wrapper_does_not_count_as_indirection() {
    let reg = Registry::standard();
    let input = lines(&["Maybe : inner: Optional<Expr>"]);
    let r = generate(&reg, &input);
    assert_eq!(
        r,
        Err(GenError::ValueSelfReference { node: "Maybe".to_string(), field: "inner".to_string() })
    );
}

#[test]
fn node_line_parses_name_and_fields_in_order() {
    let node = parse_schema_line("Unary : operator: Owned<Token>, right: Owned<Expr>").unwrap();
    assert_eq!(node.name, "Unary");
    assert_eq!(node.fields.len(), 2);
    assert_eq!(node.fields[0].name, "operator");
    assert_eq!(node.fields[0].type_expr, "Owned<Token>");
    assert_eq!(node.fields[1].name, "right");
    assert_eq!(node.fields[1].type_expr, "Owned<Expr>");
}

#[test]
fn error_messages_name_the_line_and_the_separator() {
    let missing_node = GenError::MissingNodeSeparator { line: "Broken".to_string() };
    assert_eq!(
        missing_node.message(),
        "schema line 'Broken' lacks the node separator ' : '"
    );
    let missing_field = GenError::MissingFieldSeparator {
        line: "Binary : left".to_string(),
        field: "left".to_string(),
    };
    assert_eq!(
        missing_field.message(),
        "schema field 'left' in line 'Binary : left' lacks the field separator ': '"
    );
    let value_ref = GenError::ValueSelfReference {
        node: "Bad".to_string(),
        field: "child".to_string(),
    };
    assert_eq!(
        value_ref.message(),
        "field 'child' of node 'Bad' embeds the sum type by value; wrap it in an owned indirection"
    );
}

#[test]
fn line_splits_at_the_first_node_separator() {
    let node = parse_schema_line("Odd : a: First : Second").unwrap();
    assert_eq!(node.name, "Odd");
    assert_eq!(node.fields.len(), 1);
    assert_eq!(node.fields[0].name, "a");
    assert_eq!(node.fields[0].type_expr, "First : Second");
}

#[test]
fn nested_wrappers_keep_the_self_reference_indirect() {
    let reg = Registry::standard();
    let input = lines(&["Nested : inner: Optional<Owned<Expr>>"]);
    let arts = generate(&reg, &input).unwrap();
    assert_eq!(arts.nodes[0].node_ty.ty_name, "NestedExpr");
    assert_eq!(arts.nodes[0].node_ty.imports, ["use super::Expr;"]);
}

#[test]
fn empty_schema_generates_empty_artifacts() {
    let reg = Registry::standard();
    let arts = generate(&reg, &Vec::new()).unwrap();
    assert!(arts.nodes.is_empty());
    assert!(arts.sum.variants.is_empty());
    assert!(arts.visitor.methods.is_empty());
    assert_eq!(arts.sum.name, "Expr");
}
