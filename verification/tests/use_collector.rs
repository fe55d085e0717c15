use rsc_lsp::rust_ir::{
    RustBinaryOp, RustBlock, RustClosureBody, RustElse, RustExpr, RustField, RustFnDecl, RustIfStmt,
    RustItem, RustMatchArm, RustMethod, RustParam, RustStmt, RustTraitMethod, RustType, RustUseDecl,
    RustVariant,
};
use rsc_lsp::use_collector::{
    collect_use_declarations, collection_use_decls, scan_block_for_collections,
    scan_expr_for_collections, scan_item_for_collections, scan_stmt_for_collections,
    scan_type_for_collections,
};

fn named(n: &str) -> RustType {
    RustType::Named(n.to_owned())
}

fn generic(base: &str, args: Vec<RustType>) -> RustType {
    RustType::Generic(Box::new(named(base)), args)
}

#[test]
fn scan_finds_hashmap_in_generic_base() {
    let ty = generic("HashMap", vec![RustType::String, RustType::I32]);
    let mut m = false;
    let mut s = false;
    scan_type_for_collections(&ty, &mut m, &mut s);
    assert!(m);
    assert!(!s);
}

#[test]
fn scan_finds_hashset_nested_in_option_and_args() {
    let ty = RustType::Option(Box::new(generic("Vec", vec![generic("HashSet", vec![RustType::I64])])));
    let mut m = false;
    let mut s = false;
    scan_type_for_collections(&ty, &mut m, &mut s);
    assert!(!m);
    assert!(s);
}

#[test]
fn scan_finds_both_in_result() {
    let ty = RustType::Result(Box::new(named("HashMap")), Box::new(named("HashSet")));
    let mut m = false;
    let mut s = false;
    scan_type_for_collections(&ty, &mut m, &mut s);
    assert!(m);
    assert!(s);
}

#[test]
fn scan_keeps_flags_already_set() {
    let mut m = true;
    let mut s = false;
    scan_type_for_collections(&RustType::I32, &mut m, &mut s);
    assert!(m);
    assert!(!s);
}

#[test]
fn scan_ignores_type_params_with_collection_names() {
    let mut m = false;
    let mut s = false;
    scan_type_for_collections(&RustType::TypeParam("HashMap".to_owned()), &mut m, &mut s);
    assert!(!m);
    assert!(!s);
}

fn decl(path: &str) -> RustUseDecl {
    RustUseDecl { path: path.to_owned(), public: false }
}

fn static_call(owner: &str) -> RustExpr {
    RustExpr::StaticCall { owner: owner.to_owned(), method: "new".to_owned(), args: vec![] }
}

fn block(stmts: Vec<RustStmt>) -> RustBlock {
    RustBlock { stmts, expr: None }
}

fn scan_expr(e: &RustExpr) -> (bool, bool) {
    let mut m = false;
    let mut s = false;
    scan_expr_for_collections(e, &mut m, &mut s);
    (m, s)
}

fn scan_stmt(st: &RustStmt) -> (bool, bool) {
    let mut m = false;
    let mut s = false;
    scan_stmt_for_collections(st, &mut m, &mut s);
    (m, s)
}

fn scan_item(it: &RustItem) -> (bool, bool) {
    let mut m = false;
    let mut s = false;
    scan_item_for_collections(it, &mut m, &mut s);
    (m, s)
}

#[test]
fn use_decls_in_fixed_order() {
    assert_eq!(
        collection_use_decls(true, true),
        vec![decl("std::collections::HashMap"), decl("std::collections::HashSet")]
    );
    assert_eq!(collection_use_decls(false, true), vec![decl("std::collections::HashSet")]);
    assert!(collection_use_decls(false, false).is_empty());
}

#[test]
fn static_call_owner_is_found() {
    assert_eq!(scan_expr(&static_call("HashMap")), (true, false));
    assert_eq!(scan_expr(&static_call("HashSet")), (false, true));
    assert_eq!(scan_expr(&static_call("Vec")), (false, false));
}

#[test]
fn static_call_nested_in_expressions_is_found() {
    let e = RustExpr::Binary {
        op: RustBinaryOp::Add,
        left: Box::new(RustExpr::IntLit(1)),
        right: Box::new(RustExpr::MethodCall {
            receiver: Box::new(RustExpr::Ident("x".to_owned())),
            method: "extend".to_owned(),
            args: vec![RustExpr::VecLit(vec![RustExpr::Paren(Box::new(static_call("HashSet")))])],
        }),
    };
    assert_eq!(scan_expr(&e), (false, true));
    let lit = RustExpr::StructLit {
        name: "Cache".to_owned(),
        fields: vec![("items".to_owned(), static_call("HashMap"))],
    };
    assert_eq!(scan_expr(&lit), (true, false));
}

#[test]
fn closures_and_option_maps_are_scanned() {
    let closure = RustExpr::Closure {
        params: vec!["x".to_owned()],
        body: RustClosureBody::Block(RustBlock { stmts: vec![], expr: Some(Box::new(static_call("HashMap"))) }),
    };
    assert_eq!(scan_expr(&closure), (true, false));
    let map = RustExpr::OptionMap {
        expr: Box::new(RustExpr::Ident("o".to_owned())),
        binding: "v".to_owned(),
        closure_body: Box::new(static_call("HashSet")),
    };
    assert_eq!(scan_expr(&map), (false, true));
    let call = RustExpr::ClosureCall { block: block(vec![RustStmt::Semi(static_call("HashMap"))]) };
    assert_eq!(scan_expr(&call), (true, false));
}

#[test]
fn let_type_and_initializer_are_scanned() {
    let st = RustStmt::Let {
        name: "m".to_owned(),
        mutable: true,
        ty: Some(generic("HashMap", vec![RustType::String, RustType::I32])),
        init: static_call("HashSet"),
    };
    assert_eq!(scan_stmt(&st), (true, true));
}

#[test]
fn else_if_condition_and_first_block_are_scanned() {
    let nested = RustIfStmt {
        condition: RustExpr::BoolLit(true),
        then_block: block(vec![RustStmt::Expr(static_call("HashSet"))]),
        else_clause: Some(RustElse::Block(block(vec![RustStmt::Expr(static_call("HashMap"))]))),
    };
    let st = RustStmt::If(RustIfStmt {
        condition: RustExpr::BoolLit(false),
        then_block: block(vec![]),
        else_clause: Some(RustElse::ElseIf(Box::new(nested))),
    });
    assert_eq!(scan_stmt(&st), (false, true));
}

#[test]
fn match_arms_and_loops_are_scanned() {
    let st = RustStmt::Match {
        scrutinee: RustExpr::Ident("x".to_owned()),
        arms: vec![
            RustMatchArm { pattern: "_".to_owned(), body: block(vec![]) },
            RustMatchArm { pattern: "1".to_owned(), body: block(vec![RustStmt::Semi(static_call("HashMap"))]) },
        ],
    };
    assert_eq!(scan_stmt(&st), (true, false));
    let w = RustStmt::ForIn {
        variable: "i".to_owned(),
        iterable: RustExpr::Ident("v".to_owned()),
        body: block(vec![RustStmt::Return(Some(static_call("HashSet")))]),
    };
    assert_eq!(scan_stmt(&w), (false, true));
    assert_eq!(scan_stmt(&RustStmt::Break(None)), (false, false));
}

#[test]
fn block_tail_expression_is_scanned() {
    let b = RustBlock { stmts: vec![], expr: Some(Box::new(static_call("HashSet"))) };
    let mut m = false;
    let mut s = false;
    scan_block_for_collections(&b, &mut m, &mut s);
    assert_eq!((m, s), (false, true));
}

#[test]
fn items_are_scanned_by_kind() {
    let f = RustItem::Function(RustFnDecl {
        name: "f".to_owned(),
        params: vec![RustParam { name: "s".to_owned(), ty: generic("HashSet", vec![RustType::I32]) }],
        return_type: None,
        body: block(vec![]),
    });
    assert_eq!(scan_item(&f), (false, true));
    let st = RustItem::Struct {
        public: false,
        name: "S".to_owned(),
        fields: vec![RustField { name: "m".to_owned(), ty: named("HashMap") }],
    };
    assert_eq!(scan_item(&st), (true, false));
    let en = RustItem::Enum {
        name: "E".to_owned(),
        variants: vec![RustVariant {
            name: "A".to_owned(),
            fields: vec![RustField { name: "0".to_owned(), ty: named("HashSet") }],
        }],
    };
    assert_eq!(scan_item(&en), (false, true));
    let tr = RustItem::Trait {
        name: "T".to_owned(),
        signatures: vec![RustTraitMethod {
            name: "get".to_owned(),
            params: vec![],
            return_type: Some(named("HashMap")),
        }],
    };
    assert_eq!(scan_item(&tr), (true, false));
    let im = RustItem::Impl {
        self_type: "S".to_owned(),
        methods: vec![RustMethod {
            name: "new".to_owned(),
            self_param: None,
            params: vec![],
            return_type: None,
            body: block(vec![RustStmt::Expr(static_call("HashMap"))]),
        }],
    };
    assert_eq!(scan_item(&im), (true, false));
}

#[test]
fn collect_use_declarations_over_items() {
    let items = vec![
        RustItem::Struct { public: false, name: "P".to_owned(), fields: vec![RustField { name: "x".to_owned(), ty: RustType::I32 }] },
        RustItem::Function(RustFnDecl {
            name: "main".to_owned(),
            params: vec![],
            return_type: None,
            body: block(vec![
                RustStmt::Let { name: "s".to_owned(), mutable: false, ty: None, init: static_call("HashSet") },
                RustStmt::Let { name: "m".to_owned(), mutable: false, ty: None, init: static_call("HashMap") },
            ]),
        }),
    ];
    assert_eq!(
        collect_use_declarations(&items),
        vec![decl("std::collections::HashMap"), decl("std::collections::HashSet")]
    );
    assert!(collect_use_declarations(&items[..1]).is_empty());
}
