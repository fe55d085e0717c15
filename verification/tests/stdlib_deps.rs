//! Detection of builtins whose generated code needs an outside crate.

use rsc_lsp::ast::{Block, ClassMember, ElseClause, ExprKind, ForInit, IfStmt, Item, Module, Stmt};
use rsc_lsp::stdlib_deps::{module_needs_rand, module_needs_regex, module_needs_serde_json};

fn ident_expr(name: &str) -> ExprKind {
    ExprKind::Ident(name.to_owned())
}

fn method_call(object: &str, method: &str) -> ExprKind {
    ExprKind::MethodCall {
        object: Box::new(ident_expr(object)),
        method: method.to_owned(),
        args: vec![ident_expr("x")],
    }
}

fn make_method_call(object: &str, method: &str) -> Stmt {
    Stmt::Expr(method_call(object, method))
}

fn make_module_with_stmts(stmts: Vec<Stmt>) -> Module {
    Module { items: vec![Item::Function { name: "main".to_owned(), body: Block { stmts } }] }
}

fn make_new_expr_stmt(class_name: &str) -> Stmt {
    Stmt::VarDecl {
        name: "re".to_owned(),
        type_ann: None,
        init: ExprKind::New {
            class_name: class_name.to_owned(),
            args: vec![ExprKind::StringLit("\\d+".to_owned())],
        },
    }
}

#[test]
fn test_module_needs_serde_json_for_json_stringify() {
    let module = make_module_with_stmts(vec![make_method_call("JSON", "stringify")]);
    assert!(module_needs_serde_json(&module));
}

#[test]
fn test_module_needs_serde_json_for_json_parse() {
    let module = make_module_with_stmts(vec![make_method_call("JSON", "parse")]);
    assert!(module_needs_serde_json(&module));
}

#[test]
fn test_module_does_not_need_serde_json_for_console_log() {
    let module = make_module_with_stmts(vec![make_method_call("console", "log")]);
    assert!(!module_needs_serde_json(&module));
}

#[test]
fn test_module_needs_rand_for_math_random() {
    let module = make_module_with_stmts(vec![make_method_call("Math", "random")]);
    assert!(module_needs_rand(&module));
}

#[test]
fn test_module_does_not_need_rand_for_math_floor() {
    let module = make_module_with_stmts(vec![make_method_call("Math", "floor")]);
    assert!(!module_needs_rand(&module));
}

#[test]
fn test_module_needs_regex_for_new_regexp() {
    let module = make_module_with_stmts(vec![make_new_expr_stmt("RegExp")]);
    assert!(module_needs_regex(&module));
}

#[test]
fn test_module_does_not_need_regex_for_new_map() {
    let module = make_module_with_stmts(vec![make_new_expr_stmt("Map")]);
    assert!(!module_needs_regex(&module));
}

#[test]
fn uses_deep_in_statements_and_class_methods_are_found() {
    let nested = Stmt::If(IfStmt {
        condition: ident_expr("c"),
        then_block: Block { stmts: vec![] },
        else_clause: Some(ElseClause::ElseIf(Box::new(IfStmt {
            condition: ident_expr("d"),
            then_block: Block {
                stmts: vec![Stmt::ForClassic {
                    setup: Some(ForInit::Expr(ident_expr("i"))),
                    test: None,
                    update: Some(ExprKind::Await(Box::new(ExprKind::Paren(Box::new(method_call(
                        "JSON", "parse",
                    )))))),
                    body: Block { stmts: vec![] },
                }],
            },
            else_clause: None,
        }))),
    });
    let module = Module {
        items: vec![
            Item::Other,
            Item::Class {
                name: "A".to_owned(),
                members: vec![
                    ClassMember::Other,
                    ClassMember::Method { name: "m".to_owned(), body: Block { stmts: vec![nested] } },
                ],
                derives: vec![],
            },
        ],
    };
    assert!(module_needs_serde_json(&module));
    assert!(!module_needs_rand(&module));
    assert!(!module_needs_regex(&module));
}

#[test]
fn regexp_is_found_only_where_the_scan_reads() {
    let in_args = make_module_with_stmts(vec![Stmt::Return(Some(ExprKind::Call {
        callee: "f".to_owned(),
        args: vec![ExprKind::New { class_name: "RegExp".to_owned(), args: vec![] }],
    }))]);
    assert!(module_needs_regex(&in_args));
    let in_value = make_module_with_stmts(vec![Stmt::Expr(ExprKind::Assign {
        target: "r".to_owned(),
        value: Box::new(method_call("Math", "random")),
    })]);
    assert!(module_needs_rand(&in_value));
    let json_new = make_module_with_stmts(vec![Stmt::Expr(ExprKind::New {
        class_name: "X".to_owned(),
        args: vec![method_call("JSON", "parse")],
    })]);
    assert!(!module_needs_serde_json(&json_new));
}
