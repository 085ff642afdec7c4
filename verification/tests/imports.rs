//! Checks of import resolution: whole-identifier detection, deduplication,
//! and the fixed emission order.

use astgen::nodes::{file_key, synthesize_node, ty_name};
use astgen::registry::{ImportRule, Registry};
use astgen::schema::parse_schema_line;
use astgen::text::mentions_exec;

fn rule(symbol: &str, declaration: &str) -> ImportRule {
    ImportRule { symbol: symbol.to_string(), declaration: declaration.to_string() }
}

#[test]
fn binary_node_imports_sum_type_and_token_only() {
    let reg = Registry::standard();
    let node = parse_schema_line(
        "Binary : left: Owned<Expr>, operator: Owned<Token>, right: Owned<Expr>",
    )
    .unwrap();
    let generated = synthesize_node(&reg, &node).unwrap();
    assert_eq!(generated.ty_name, "BinaryExpr");
    assert_eq!(generated.fields.len(), 3);
    assert_eq!(generated.fields[0].name, "left");
    assert_eq!(generated.fields[1].name, "operator");
    assert_eq!(generated.fields[2].name, "right");
    assert_eq!(generated.imports, ["use super::Expr;", "use crate::token::Token;"]);
}

#[test]
fn grouping_node_imports_sum_type_only() {
    let reg = Registry::standard();
    let node = parse_schema_line("Grouping : expression: Owned<Expr>").unwrap();
    let generated = synthesize_node(&reg, &node).unwrap();
    assert_eq!(generated.ty_name, "GroupingExpr");
    assert_eq!(generated.fields.len(), 1);
    assert_eq!(generated.fields[0].name, "expression");
    assert_eq!(generated.fields[0].type_expr, "Owned<Expr>");
    assert_eq!(generated.imports, ["use super::Expr;"]);
}

#[test]
fn literal_node_imports_literal_value_type_without_collision() {
    let reg = Registry::standard();
    let node = parse_schema_line("Literal : value: Optional<Literal>").unwrap();
    let generated = synthesize_node(&reg, &node).unwrap();
    assert_eq!(generated.ty_name, "LiteralExpr");
    assert_eq!(generated.fields.len(), 1);
    assert_eq!(generated.fields[0].name, "value");
    assert_eq!(generated.imports, ["use crate::literal::Literal;"]);
}

#[test]
fn no_registered_reference_means_no_import() {
    let reg = Registry::standard();
    let node = parse_schema_line("Plain : flag: Truth, count: Tally").unwrap();
    let generated = synthesize_node(&reg, &node).unwrap();
    assert_eq!(generated.imports, Vec::<String>::new());
}

#[test]
fn repeated_references_still_give_one_import() {
    let reg = Registry::standard();
    let node = parse_schema_line(
        "Ternary : first: Owned<Expr>, second: Owned<Expr>, third: Owned<Expr>",
    )
    .unwrap();
    let generated = synthesize_node(&reg, &node).unwrap();
    assert_eq!(generated.imports, ["use super::Expr;"]);
}

#[test]
fn detection_matches_whole_identifiers_not_substrings() {
    assert!(mentions_exec("Owned<Expr>", "Expr"));
    assert!(mentions_exec("Expr", "Expr"));
    assert!(!mentions_exec("Owned<Expression>", "Expr"));
    assert!(!mentions_exec("Tokenizer", "Token"));
    assert!(!mentions_exec("LiteralValue", "Literal"));
    assert!(mentions_exec("Optional<Literal>", "Literal"));

    let reg = Registry::standard();
    let node = parse_schema_line("Shadow : inner: Owned<Expression>").unwrap();
    let generated = synthesize_node(&reg, &node).unwrap();
    assert_eq!(generated.imports, Vec::<String>::new());
}

#[test]
fn naming_derivation() {
    assert_eq!(ty_name("Binary"), "BinaryExpr");
    assert_eq!(file_key("Binary"), "binary_expr");
    assert_eq!(file_key("Grouping"), "grouping_expr");
    assert_eq!(file_key("This"), "this_expr");
}

#[test]
fn registry_refuses_duplicate_or_empty_symbols() {
    let distinct = vec![rule("Alpha", "use a::Alpha;"), rule("Beta", "use b::Beta;")];
    assert!(Registry::new(distinct).is_some());

    let duplicated = vec![rule("Alpha", "use a::Alpha;"), rule("Alpha", "use b::Alpha;")];
    assert!(Registry::new(duplicated).is_none());

    let empty = vec![rule("", "use a::Alpha;")];
    assert!(Registry::new(empty).is_none());
}

#[test]
fn extended_registry_resolves_new_symbols() {
    let reg = Registry::new(vec![
        rule("Expr", "use super::Expr;"),
        rule("Span", "use crate::span::Span;"),
    ])
    .unwrap();
    let node = parse_schema_line("Spanned : at: Owned<Span>, inner: Owned<Expr>").unwrap();
    let generated = synthesize_node(&reg, &node).unwrap();
    assert_eq!(generated.imports, ["use super::Expr;", "use crate::span::Span;"]);
}
