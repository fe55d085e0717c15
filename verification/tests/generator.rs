//! Generator bodies as state machines.

use rsc_lsp::ast::{BinaryOp, Block, ExprKind, Stmt, UnaryOp};
use rsc_lsp::generator::{
    analyze_generator_body, analyze_sequential_pattern, analyze_while_yield_pattern,
    build_state_machine_body, collect_generator_locals, collect_locals_from_stmts, emit_expr_to_string,
    emit_stmt_to_string, infer_generator_local_type, push_post_yield_state,
};
use rsc_lsp::ast::ElseClause;
use rsc_lsp::ast::IfStmt;
use rsc_lsp::lower::TypeAnnotation;
use rsc_lsp::generator::generator_items;
use rsc_lsp::rust_ir::{copy_type, RustExpr, RustField, RustItem, RustParam, RustSelfParam, RustType};
use rsc_lsp::lower::GeneratorState;

const NL: &str = "\n                        ";
const NL_CLOSE: &str = "\n                    ";

fn ident(n: &str) -> ExprKind {
    ExprKind::Ident(n.to_owned())
}

fn bin(op: BinaryOp, l: ExprKind, r: ExprKind) -> ExprKind {
    ExprKind::Binary(op, Box::new(l), Box::new(r))
}

fn yield_of(e: ExprKind) -> Stmt {
    Stmt::Expr(ExprKind::Yield(Box::new(e)))
}

fn assign(target: &str, value: ExprKind) -> Stmt {
    Stmt::Expr(ExprKind::Assign { target: target.to_owned(), value: Box::new(value) })
}

fn shown(states: &[GeneratorState]) -> Vec<(u32, String)> {
    states.iter().map(|s| (s.index, s.code.clone())).collect()
}

#[test]
fn expressions_are_emitted_on_self() {
    assert_eq!(emit_expr_to_string(&ident("x")), "self.x");
    assert_eq!(emit_expr_to_string(&ExprKind::IntLit(-42)), "-42");
    assert_eq!(emit_expr_to_string(&ExprKind::IntLit(i64::MIN)), "-9223372036854775808");
    assert_eq!(emit_expr_to_string(&ExprKind::FloatLit(format!("{:?}", 1.0f64))), "1.0");
    assert_eq!(emit_expr_to_string(&ExprKind::BoolLit(false)), "false");
    assert_eq!(emit_expr_to_string(&ExprKind::StringLit("hi".to_owned())), "\"hi\".to_string()");
    assert_eq!(emit_expr_to_string(&bin(BinaryOp::Le, ident("a"), ExprKind::IntLit(3))), "self.a <= 3");
    assert_eq!(emit_expr_to_string(&bin(BinaryOp::BitAnd, ident("a"), ident("b"))), "self.a + self.b");
    assert_eq!(
        emit_expr_to_string(&ExprKind::Unary(UnaryOp::BitNot, Box::new(ident("f")))),
        "!self.f"
    );
    let call = ExprKind::Call {
        callee: "max".to_owned(),
        args: vec![ident("a"), ExprKind::Paren(Box::new(ExprKind::IntLit(2)))],
    };
    assert_eq!(emit_expr_to_string(&call), "max(self.a, (2))");
    assert_eq!(emit_expr_to_string(&ExprKind::NullLit), "/* unsupported expr */");
}

#[test]
fn statements_are_emitted_with_compound_assignments() {
    assert_eq!(emit_stmt_to_string(&assign("i", bin(BinaryOp::Add, ident("i"), ExprKind::IntLit(1)))), "self.i += 1;");
    assert_eq!(emit_stmt_to_string(&assign("i", bin(BinaryOp::Lt, ident("i"), ExprKind::IntLit(1)))), "self.i = self.i < 1;");
    assert_eq!(emit_stmt_to_string(&assign("i", bin(BinaryOp::Mul, ident("j"), ExprKind::IntLit(2)))), "self.i = self.j * 2;");
    assert_eq!(
        emit_stmt_to_string(&Stmt::VarDecl { name: "n".to_owned(), type_ann: None, init: ExprKind::IntLit(0) }),
        "self.n = 0;"
    );
    assert_eq!(emit_stmt_to_string(&Stmt::Return(None)), "return None;");
    assert_eq!(emit_stmt_to_string(&Stmt::Return(Some(ident("n")))), "return Some(self.n);");
    assert_eq!(emit_stmt_to_string(&Stmt::Expr(ident("n"))), "self.n;");
    assert_eq!(emit_stmt_to_string(&Stmt::Other), "/* unsupported stmt */");
}

#[test]
fn straight_line_code_splits_at_each_yield() {
    let stmts = vec![
        Stmt::VarDecl { name: "x".to_owned(), type_ann: None, init: ExprKind::IntLit(1) },
        yield_of(ident("x")),
        assign("x", bin(BinaryOp::Add, ident("x"), ExprKind::IntLit(1))),
        yield_of(ExprKind::IntLit(5)),
    ];
    let states = analyze_sequential_pattern(&stmts);
    assert_eq!(
        shown(&states),
        vec![
            (0, format!("self.x = 1;{NL}self._state = 1;{NL}return Some(self.x);")),
            (1, format!("self.x += 1;{NL}self._state = 2;{NL}return Some(5);")),
            (2, "return None;".to_owned()),
        ]
    );
    let tail = vec![yield_of(ExprKind::IntLit(1)), Stmt::Return(None)];
    assert_eq!(
        shown(&analyze_sequential_pattern(&tail)),
        vec![
            (0, format!("self._state = 1;{NL}return Some(1);")),
            (1, format!("return None;{NL}return None;")),
        ]
    );
}

fn counting_loop(with_init: bool) -> Vec<Stmt> {
    let mut stmts = vec![];
    if with_init {
        stmts.push(Stmt::VarDecl { name: "i".to_owned(), type_ann: None, init: ExprKind::IntLit(0) });
    }
    stmts.push(Stmt::While {
        condition: bin(BinaryOp::Lt, ident("i"), ExprKind::IntLit(3)),
        body: Block {
            stmts: vec![
                Stmt::VarDecl { name: "t".to_owned(), type_ann: None, init: ident("i") },
                yield_of(ident("t")),
                assign("i", bin(BinaryOp::Add, ident("i"), ExprKind::IntLit(1))),
            ],
        },
    });
    stmts.push(Stmt::Return(None));
    stmts
}

#[test]
fn a_yielding_loop_becomes_condition_and_continuation_states() {
    let states = analyze_while_yield_pattern(&counting_loop(true));
    let check = |next: u32| {
        format!(
            "if self.i < 3 {{{NL}self.t = self.i;{NL}self._state = {next};{NL}return Some(self.t);{NL_CLOSE}}} else {{{NL}return None;{NL_CLOSE}}}"
        )
    };
    assert_eq!(
        shown(&states),
        vec![
            (0, format!("self.i = 0;{NL}self._state = 1;{NL}continue;")),
            (1, check(2)),
            (2, format!("self.i += 1;{NL}self._state = 1;{NL}continue;")),
        ]
    );
    let states = analyze_while_yield_pattern(&counting_loop(false));
    assert_eq!(
        shown(&states),
        vec![(0, check(1)), (1, format!("self.i += 1;{NL}self._state = 0;{NL}continue;"))]
    );
}

#[test]
fn the_body_picks_its_pattern() {
    assert_eq!(analyze_generator_body(&counting_loop(true)).len(), 3);
    let straight = vec![yield_of(ExprKind::IntLit(7))];
    assert_eq!(shown(&analyze_generator_body(&straight)), shown(&analyze_sequential_pattern(&straight)));
    assert_eq!(shown(&analyze_while_yield_pattern(&[])), vec![(0, "return None;".to_owned())]);
}

#[test]
fn post_yield_states_go_back_to_the_loop() {
    let mut states = Vec::new();
    let body = vec![Stmt::Other, assign("k", ExprKind::IntLit(3))];
    push_post_yield_state(&mut states, 4, 3, &body, 1);
    push_post_yield_state(&mut states, 5, 0, &body, 2);
    assert_eq!(
        shown(&states),
        vec![
            (4, format!("self.k = 3;{NL}self._state = 3;{NL}continue;")),
            (5, format!("self._state = 0;{NL}continue;")),
        ]
    );
}

#[test]
fn the_state_machine_wraps_the_states() {
    let body = Block { stmts: vec![yield_of(ExprKind::IntLit(1))] };
    let expected = format!(
        "loop {{\n                match self._state {{{NL_CLOSE}0 => {{{NL}self._state = 1;{NL}return Some(1);{NL_CLOSE}}}{NL_CLOSE}1 => {{{NL}return None;{NL_CLOSE}}}{NL_CLOSE}_ => return None,\n                }}\n            }}"
    );
    assert_eq!(build_state_machine_body(&body), expected);
}

fn decl(name: &str, ann: Option<TypeAnnotation>, init: ExprKind) -> Stmt {
    Stmt::VarDecl { name: name.to_owned(), type_ann: ann, init }
}

fn entries(v: Vec<(&str, RustType)>) -> Vec<(String, RustType)> {
    v.into_iter().map(|(n, t)| (n.to_owned(), t)).collect()
}

#[test]
fn local_type_from_parameter_then_local() {
    let params = entries(vec![("n", RustType::I64)]);
    let locals = entries(vec![("s", RustType::String), ("n", RustType::Bool)]);
    assert_eq!(infer_generator_local_type(&ident("n"), &params, &locals), RustType::I64);
    assert_eq!(infer_generator_local_type(&ident("s"), &params, &locals), RustType::String);
    assert_eq!(infer_generator_local_type(&ident("zz"), &params, &locals), RustType::I32);
}

#[test]
fn local_type_from_literals() {
    let none = Vec::new();
    assert_eq!(infer_generator_local_type(&ExprKind::FloatLit("1.5".to_owned()), &none, &none), RustType::F64);
    assert_eq!(infer_generator_local_type(&ExprKind::BoolLit(true), &none, &none), RustType::Bool);
    assert_eq!(infer_generator_local_type(&ExprKind::StringLit("a".to_owned()), &none, &none), RustType::String);
    assert_eq!(infer_generator_local_type(&ExprKind::IntLit(3), &none, &none), RustType::I32);
}

#[test]
fn generator_locals_skip_params_and_repeats() {
    let params = entries(vec![("limit", RustType::I64)]);
    let body = Block {
        stmts: vec![
            decl("i", None, ExprKind::IntLit(0)),
            decl("limit", None, ExprKind::IntLit(5)),
            Stmt::While {
                condition: ExprKind::BoolLit(true),
                body: Block {
                    stmts: vec![
                        decl("cap", None, ident("limit")),
                        decl("i", None, ExprKind::BoolLit(true)),
                        decl("name", Some(TypeAnnotation::Named("string".to_owned())), ident("x")),
                    ],
                },
            },
        ],
    };
    let locals = collect_generator_locals(&body, &params);
    assert_eq!(
        locals,
        entries(vec![("i", RustType::I32), ("cap", RustType::I64), ("name", RustType::String)])
    );
}

#[test]
fn generator_locals_in_if_and_else_blocks_only() {
    let nested = IfStmt {
        condition: ExprKind::BoolLit(true),
        then_block: Block { stmts: vec![decl("hidden", None, ExprKind::IntLit(1))] },
        else_clause: None,
    };
    let st = Stmt::If(IfStmt {
        condition: ExprKind::BoolLit(true),
        then_block: Block { stmts: vec![decl("a", Some(TypeAnnotation::Named("bool".to_owned())), ExprKind::IntLit(0))] },
        else_clause: Some(ElseClause::ElseIf(Box::new(nested))),
    });
    let mut locals = Vec::new();
    collect_locals_from_stmts(&vec![st], &Vec::new(), &mut locals);
    assert_eq!(locals, entries(vec![("a", RustType::Bool)]));
    let st = Stmt::If(IfStmt {
        condition: ExprKind::BoolLit(true),
        then_block: Block { stmts: vec![] },
        else_clause: Some(ElseClause::Block(Block { stmts: vec![decl("b", None, ident("a"))] })),
    });
    collect_locals_from_stmts(&vec![st], &Vec::new(), &mut locals);
    assert_eq!(locals, entries(vec![("a", RustType::Bool), ("b", RustType::Bool)]));
}

#[test]
fn copied_type_is_equal() {
    let t = RustType::Generic(
        Box::new(RustType::Named("HashMap".to_owned())),
        vec![RustType::String, RustType::Option(Box::new(RustType::I32))],
    );
    assert_eq!(copy_type(&t), t);
}

#[test]
fn generator_items_struct_new_and_iterator() {
    let body = Block {
        stmts: vec![
            decl("i", None, ExprKind::IntLit(0)),
            Stmt::While {
                condition: bin(BinaryOp::Lt, ident("i"), ident("n")),
                body: Block {
                    stmts: vec![
                        Stmt::Expr(ExprKind::Yield(Box::new(ident("i")))),
                        Stmt::Expr(ExprKind::Assign {
                            target: "i".to_owned(),
                            value: Box::new(bin(BinaryOp::Add, ident("i"), ExprKind::IntLit(1))),
                        }),
                    ],
                },
            },
        ],
    };
    let params = entries(vec![("n", RustType::I64)]);
    let items = generator_items("count", true, &params, RustType::I32, &body);
    assert_eq!(items.len(), 3);
    assert_eq!(
        items[0],
        RustItem::Struct {
            public: true,
            name: "CountIter".to_owned(),
            fields: vec![
                RustField { name: "n".to_owned(), ty: RustType::I64 },
                RustField { name: "i".to_owned(), ty: RustType::I32 },
                RustField { name: "_state".to_owned(), ty: RustType::U32 },
            ],
        }
    );
    match &items[1] {
        RustItem::Impl { self_type, methods } => {
            assert_eq!(self_type, "CountIter");
            assert_eq!(methods.len(), 1);
            assert_eq!(methods[0].name, "new");
            assert_eq!(methods[0].self_param, None);
            assert_eq!(methods[0].params, vec![RustParam { name: "n".to_owned(), ty: RustType::I64 }]);
            assert_eq!(methods[0].return_type, Some(RustType::Named("Self".to_owned())));
            assert_eq!(
                methods[0].body.expr,
                Some(Box::new(RustExpr::Raw("Self { n, i: 0, _state: 0 }".to_owned())))
            );
        }
        other => panic!("expected impl, got {other:?}"),
    }
    match &items[2] {
        RustItem::TraitImpl { trait_name, self_type, associated_types, methods } => {
            assert_eq!(trait_name, "Iterator");
            assert_eq!(self_type, "CountIter");
            assert_eq!(associated_types, &vec![("Item".to_owned(), RustType::I32)]);
            assert_eq!(methods[0].name, "next");
            assert_eq!(methods[0].self_param, Some(RustSelfParam::RefMut));
            assert_eq!(methods[0].return_type, Some(RustType::Option(Box::new(RustType::I32))));
            assert_eq!(
                methods[0].body.expr,
                Some(Box::new(RustExpr::Raw(build_state_machine_body(&body))))
            );
        }
        other => panic!("expected trait impl, got {other:?}"),
    }
}
