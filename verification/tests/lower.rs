//! Type resolution and the helpers of the lowering pass.

use rsc_lsp::ast::{
    BinaryOp, Block, ElseClause, ExprKind, IfStmt, Item, Module, Stmt, TypeKind, TypeParam, UnaryOp,
};
use rsc_lsp::lower::{
    block_always_diverges, body_contains_yield, capitalize_first, detect_null_check, collect_generic_param_names,
    collect_serde_derive_names, default_value_for_type, detect_compound_assign,
    element_type_is_copy, extract_named_type, extract_string_literal_fields,
    format_state_machine, generator_struct_name, has_while_with_yield, identify_utility_type,
    infer_literal_type, is_default_literal_type, lower_binary_op, lower_decorator,
    lower_decorators, lower_type_params, lower_unary_op, merge_derives,
    module_needs_serde_derives, resolve_type, resolve_type_annotation, stmt_contains_yield,
    Decorator, GeneratorState, TypeAnnotation,
};
use rsc_lsp::lower::{utility_fields, FieldType};
use rsc_lsp::position_map::rs_path_segments;
use rsc_lsp::rust_ir::{RustBinaryOp, RustCompoundAssignOp, RustType, RustUnaryOp};

#[test]
fn test_resolve_type_all_known_types() {
    assert_eq!(resolve_type("i32"), Some(RustType::I32));
    assert_eq!(resolve_type("i64"), Some(RustType::I64));
    assert_eq!(resolve_type("f64"), Some(RustType::F64));
    assert_eq!(resolve_type("bool"), Some(RustType::Bool));
    assert_eq!(resolve_type("string"), Some(RustType::String));
    assert_eq!(resolve_type("void"), Some(RustType::Unit));
}

#[test]
fn test_resolve_type_unknown_returns_none() {
    assert_eq!(resolve_type("Foo"), None);
    assert_eq!(resolve_type("Bar"), None);
    assert_eq!(resolve_type(""), None);
}

#[test]
fn test_infer_literal_type_int_lit() {
    assert_eq!(infer_literal_type(&ExprKind::IntLit(42)), Some(RustType::I64));
}

#[test]
fn test_infer_literal_type_float_lit() {
    assert_eq!(infer_literal_type(&ExprKind::FloatLit("3.14".to_owned())), Some(RustType::F64));
}

#[test]
fn test_infer_literal_type_string_lit() {
    assert_eq!(
        infer_literal_type(&ExprKind::StringLit("hello".to_owned())),
        Some(RustType::String)
    );
}

#[test]
fn test_infer_literal_type_bool_lit() {
    assert_eq!(infer_literal_type(&ExprKind::BoolLit(true)), Some(RustType::Bool));
}

#[test]
fn test_infer_literal_type_non_literal_returns_none() {
    assert_eq!(infer_literal_type(&ExprKind::Ident("x".to_owned())), None);
}

#[test]
fn test_resolve_type_annotation_known_type() {
    let ann = TypeAnnotation::Named("i32".to_owned());
    let mut diags = Vec::new();
    let ty = resolve_type_annotation(&ann, &mut diags);
    assert_eq!(ty, RustType::I32);
    assert!(diags.is_empty());
}

#[test]
fn test_resolve_type_annotation_void() {
    let ann = TypeAnnotation::Void;
    let mut diags = Vec::new();
    let ty = resolve_type_annotation(&ann, &mut diags);
    assert_eq!(ty, RustType::Unit);
    assert!(diags.is_empty());
}

#[test]
fn test_resolve_type_annotation_unknown_emits_diagnostic_defaults_i64() {
    let ann = TypeAnnotation::Named("Foo".to_owned());
    let mut diags = Vec::new();
    let ty = resolve_type_annotation(&ann, &mut diags);
    assert_eq!(ty, RustType::I64);
    assert_eq!(diags.len(), 1);
    assert!(diags[0].message.contains("unknown type"));
    assert!(diags[0].message.contains("Foo"));
}

#[test]
fn unknown_type_diagnostic_message_is_exact() {
    let mut diags = Vec::new();
    resolve_type_annotation(&TypeAnnotation::Named("Foo".to_owned()), &mut diags);
    assert_eq!(diags[0].message, "unknown type `Foo`");
}

#[test]
fn capitalize_first_uppercases_only_the_first_character() {
    assert_eq!(capitalize_first("range"), "Range");
    assert_eq!(capitalize_first("hello world"), "Hello world");
    assert_eq!(capitalize_first(""), "");
    assert_eq!(capitalize_first("Already"), "Already");
}

#[test]
fn capitalize_first_uses_the_full_uppercase_mapping() {
    assert_eq!(capitalize_first("\u{df}x"), "SSx");
    assert_eq!(capitalize_first("\u{e9}t\u{e9}"), "\u{c9}t\u{e9}");
}

#[test]
fn generator_struct_name_appends_iter() {
    assert_eq!(generator_struct_name("range"), "RangeIter");
    assert_eq!(generator_struct_name("fibonacci"), "FibonacciIter");
    assert_eq!(generator_struct_name(""), "Iter");
}

#[test]
fn format_state_machine_lays_out_arms_in_order() {
    let states = vec![
        GeneratorState { index: 0, code: "a".to_owned() },
        GeneratorState { index: 12, code: "b".to_owned() },
    ];
    let expected = "loop {\n                match self._state {\n                    0 => {\n                        a\n                    }\n                    12 => {\n                        b\n                    }\n                    _ => return None,\n                }\n            }";
    assert_eq!(format_state_machine(&states), expected);
}

#[test]
fn format_state_machine_without_states() {
    let expected = "loop {\n                match self._state {\n                    _ => return None,\n                }\n            }";
    assert_eq!(format_state_machine(&[]), expected);
}

#[test]
fn default_values_by_type() {
    assert_eq!(default_value_for_type(&RustType::I32), "0");
    assert_eq!(default_value_for_type(&RustType::U64), "0");
    assert_eq!(default_value_for_type(&RustType::F32), "0.0");
    assert_eq!(default_value_for_type(&RustType::Bool), "false");
    assert_eq!(default_value_for_type(&RustType::String), "String::new()");
    assert_eq!(default_value_for_type(&RustType::Unit), "()");
    assert_eq!(default_value_for_type(&RustType::Named("User".to_owned())), "Default::default()");
}

#[test]
fn element_type_is_copy_for_scalar_elements() {
    let vec_i32 = RustType::Generic(Box::new(RustType::Named("Vec".to_owned())), vec![RustType::I32]);
    let vec_string =
        RustType::Generic(Box::new(RustType::Named("Vec".to_owned())), vec![RustType::String]);
    let empty = RustType::Generic(Box::new(RustType::Named("Vec".to_owned())), vec![]);
    assert!(element_type_is_copy(&vec_i32));
    assert!(!element_type_is_copy(&vec_string));
    assert!(!element_type_is_copy(&empty));
    assert!(!element_type_is_copy(&RustType::I32));
}

#[test]
fn extract_named_type_sees_through_wrappers() {
    let user = RustType::Named("User".to_owned());
    assert_eq!(extract_named_type(&user), Some("User".to_owned()));
    let vec_user = RustType::Generic(
        Box::new(RustType::Named("Vec".to_owned())),
        vec![RustType::Named("User".to_owned())],
    );
    assert_eq!(extract_named_type(&vec_user), Some("User".to_owned()));
    let map = RustType::Generic(
        Box::new(RustType::Named("HashMap".to_owned())),
        vec![RustType::String, RustType::I32],
    );
    assert_eq!(extract_named_type(&map), Some("HashMap".to_owned()));
    let opt = RustType::Option(Box::new(RustType::Named("Post".to_owned())));
    assert_eq!(extract_named_type(&opt), Some("Post".to_owned()));
    let res = RustType::Result(Box::new(RustType::Named("Ok".to_owned())), Box::new(RustType::String));
    assert_eq!(extract_named_type(&res), Some("Ok".to_owned()));
    assert_eq!(extract_named_type(&RustType::I32), None);
}

#[test]
fn decorators_lower_to_attributes() {
    let d = Decorator { name: "tokio_test".to_owned(), args: None };
    let a = lower_decorator(&d);
    assert_eq!(a.path, "tokio::test");
    assert_eq!(a.args, None);
    let d = Decorator { name: "serde".to_owned(), args: Some("rename_all = \"camelCase\"".to_owned()) };
    let a = lower_decorator(&d);
    assert_eq!(a.path, "serde");
    assert_eq!(a.args, Some("rename_all = \"camelCase\"".to_owned()));
}

#[test]
fn derive_decorators_split_into_names() {
    let decorators = vec![
        Decorator { name: "derive".to_owned(), args: Some(" Serialize, ,Deserialize ".to_owned()) },
        Decorator { name: "inline".to_owned(), args: None },
        Decorator { name: "derive".to_owned(), args: None },
        Decorator { name: "derive".to_owned(), args: Some("Hash".to_owned()) },
    ];
    let (attrs, derives) = lower_decorators(&decorators);
    assert_eq!(attrs.len(), 1);
    assert_eq!(attrs[0].path, "inline");
    assert_eq!(derives, vec!["Serialize".to_owned(), "Deserialize".to_owned(), "Hash".to_owned()]);
}

#[test]
fn merge_derives_appends_new_names_once() {
    let auto = vec!["Debug".to_owned(), "Clone".to_owned()];
    let explicit = vec!["Clone".to_owned(), "Serialize".to_owned(), "Serialize".to_owned()];
    assert_eq!(
        merge_derives(auto, &explicit),
        vec!["Debug".to_owned(), "Clone".to_owned(), "Serialize".to_owned()]
    );
    assert_eq!(merge_derives(vec![], &[]), Vec::<String>::new());
}

#[test]
fn operators_lower_one_for_one() {
    assert_eq!(lower_binary_op(BinaryOp::Mod), RustBinaryOp::Rem);
    assert_eq!(lower_binary_op(BinaryOp::Shr), RustBinaryOp::Shr);
    assert_eq!(lower_binary_op(BinaryOp::And), RustBinaryOp::And);
    assert_eq!(lower_unary_op(UnaryOp::BitNot), RustUnaryOp::BitNot);
    assert_eq!(lower_unary_op(UnaryOp::Neg), RustUnaryOp::Neg);
}

#[test]
fn compound_assignment_is_detected() {
    let value = ExprKind::Binary(
        BinaryOp::Add,
        Box::new(ExprKind::Ident("x".to_owned())),
        Box::new(ExprKind::IntLit(1)),
    );
    match detect_compound_assign("x", &value) {
        Some((op, rhs)) => {
            assert_eq!(op, RustCompoundAssignOp::AddAssign);
            assert!(matches!(rhs, ExprKind::IntLit(1)));
        },
        None => panic!("expected a compound assignment"),
    }
    assert!(detect_compound_assign("y", &value).is_none());
    let cmp = ExprKind::Binary(
        BinaryOp::Lt,
        Box::new(ExprKind::Ident("x".to_owned())),
        Box::new(ExprKind::IntLit(1)),
    );
    assert!(detect_compound_assign("x", &cmp).is_none());
    assert!(detect_compound_assign("x", &ExprKind::Other).is_none());
}

#[test]
fn default_literal_types() {
    assert!(is_default_literal_type(&ExprKind::IntLit(3), &RustType::I64));
    assert!(!is_default_literal_type(&ExprKind::IntLit(3), &RustType::I32));
    assert!(is_default_literal_type(&ExprKind::TemplateLit("a".to_owned()), &RustType::String));
    assert!(is_default_literal_type(&ExprKind::NullLit, &RustType::Option(Box::new(RustType::I32))));
    assert!(!is_default_literal_type(&ExprKind::Ident("x".to_owned()), &RustType::I64));
}

#[test]
fn type_params_lower_with_their_bounds() {
    let params = vec![
        TypeParam { name: "T".to_owned(), constraint: None },
        TypeParam { name: "K".to_owned(), constraint: Some(TypeKind::Named("Eq".to_owned())) },
        TypeParam {
            name: "V".to_owned(),
            constraint: Some(TypeKind::Intersection(vec![
                TypeKind::Named("Clone".to_owned()),
                TypeKind::Other,
                TypeKind::Named("Debug".to_owned()),
            ])),
        },
        TypeParam {
            name: "W".to_owned(),
            constraint: Some(TypeKind::Generic("Into".to_owned(), vec![TypeKind::Named("String".to_owned())])),
        },
        TypeParam { name: "U".to_owned(), constraint: Some(TypeKind::Union(vec![])) },
    ];
    let lowered = lower_type_params(Some(&params));
    let shown: Vec<(String, Vec<String>)> = lowered.into_iter().map(|p| (p.name, p.bounds)).collect();
    assert_eq!(
        shown,
        vec![
            ("T".to_owned(), vec![]),
            ("K".to_owned(), vec!["Eq".to_owned()]),
            ("V".to_owned(), vec!["Clone".to_owned(), "Debug".to_owned()]),
            ("W".to_owned(), vec!["Into".to_owned()]),
            ("U".to_owned(), vec![]),
        ]
    );
    assert!(lower_type_params(None).is_empty());
    assert_eq!(
        collect_generic_param_names(Some(&params)),
        vec!["T".to_owned(), "K".to_owned(), "V".to_owned(), "W".to_owned(), "U".to_owned()]
    );
    assert!(collect_generic_param_names(None).is_empty());
}

#[test]
fn utility_types_are_recognised_by_name() {
    let pick = TypeKind::Generic("Pick".to_owned(), vec![]);
    assert_eq!(identify_utility_type(&pick), Some("Pick"));
    let vec_t = TypeKind::Generic("Vec".to_owned(), vec![]);
    assert_eq!(identify_utility_type(&vec_t), None);
    assert_eq!(identify_utility_type(&TypeKind::Named("Partial".to_owned())), None);
}

#[test]
fn string_literal_fields_of_key_lists() {
    let one = TypeKind::StringLiteral("name".to_owned());
    assert_eq!(extract_string_literal_fields(&one), vec!["name".to_owned()]);
    let many = TypeKind::Union(vec![
        TypeKind::StringLiteral("name".to_owned()),
        TypeKind::Named("X".to_owned()),
        TypeKind::StringLiteral("age".to_owned()),
    ]);
    assert_eq!(extract_string_literal_fields(&many), vec!["name".to_owned(), "age".to_owned()]);
    assert!(extract_string_literal_fields(&TypeKind::Other).is_empty());
}

fn yield_stmt() -> Stmt {
    Stmt::Expr(ExprKind::Yield(Box::new(ExprKind::Ident("i".to_owned()))))
}

#[test]
fn yields_are_found_where_the_generator_analysis_looks() {
    let body = Block { stmts: vec![Stmt::Other, yield_stmt()] };
    assert!(body_contains_yield(&body));
    let loop_with_yield = Stmt::While { condition: ExprKind::BoolLit(true), body };
    assert!(stmt_contains_yield(&loop_with_yield));
    assert!(has_while_with_yield(&[Stmt::Other, loop_with_yield]));
    let deep_else_if = Stmt::If(IfStmt {
        condition: ExprKind::BoolLit(true),
        then_block: Block { stmts: vec![] },
        else_clause: Some(ElseClause::ElseIf(Box::new(IfStmt {
            condition: ExprKind::BoolLit(false),
            then_block: Block { stmts: vec![] },
            else_clause: Some(ElseClause::Block(Block { stmts: vec![yield_stmt()] })),
        }))),
    });
    assert!(!stmt_contains_yield(&deep_else_if));
    let do_while = Stmt::DoWhile { body: Block { stmts: vec![yield_stmt()] }, condition: ExprKind::Other };
    assert!(stmt_contains_yield(&do_while));
    assert!(!has_while_with_yield(&[do_while]));
    assert!(!stmt_contains_yield(&Stmt::Return(Some(ExprKind::Yield(Box::new(ExprKind::Other))))));
}

#[test]
fn serde_derives_are_collected_once_and_sorted() {
    let module = Module {
        items: vec![
            Item::TypeDef { name: "A".to_owned(), derives: vec!["Serialize".to_owned()] },
            Item::EnumDef { name: "B".to_owned(), derives: vec!["Hash".to_owned(), "Serialize".to_owned()] },
            Item::Class { name: "C".to_owned(), members: vec![], derives: vec!["Deserialize".to_owned()] },
        ],
    };
    assert!(module_needs_serde_derives(&module));
    assert_eq!(collect_serde_derive_names(&module), vec!["Deserialize".to_owned(), "Serialize".to_owned()]);
    let plain = Module { items: vec![Item::TypeDef { name: "A".to_owned(), derives: vec!["Debug".to_owned()] }] };
    assert!(!module_needs_serde_derives(&plain));
    assert!(collect_serde_derive_names(&plain).is_empty());
}

fn null() -> ExprKind {
    ExprKind::NullLit
}

fn var(n: &str) -> ExprKind {
    ExprKind::Ident(n.to_owned())
}

#[test]
fn null_check_not_null_either_side() {
    let c = ExprKind::Binary(BinaryOp::Ne, Box::new(var("x")), Box::new(null()));
    assert_eq!(detect_null_check(&c), Some(("x".to_owned(), true)));
    let c = ExprKind::Binary(BinaryOp::Ne, Box::new(null()), Box::new(var("y")));
    assert_eq!(detect_null_check(&c), Some(("y".to_owned(), true)));
}

#[test]
fn null_check_is_null() {
    let c = ExprKind::Binary(BinaryOp::Eq, Box::new(var("x")), Box::new(null()));
    assert_eq!(detect_null_check(&c), Some(("x".to_owned(), false)));
}

#[test]
fn null_check_other_shapes() {
    let lt = ExprKind::Binary(BinaryOp::Lt, Box::new(var("x")), Box::new(null()));
    assert_eq!(detect_null_check(&lt), None);
    let two = ExprKind::Binary(BinaryOp::Eq, Box::new(var("x")), Box::new(var("y")));
    assert_eq!(detect_null_check(&two), None);
    assert_eq!(detect_null_check(&var("x")), None);
}

#[test]
fn block_diverges_on_last_statement() {
    assert!(block_always_diverges(&Block { stmts: vec![Stmt::Return(None)] }));
    assert!(block_always_diverges(&Block { stmts: vec![Stmt::Expr(var("a")), Stmt::Break] }));
    assert!(block_always_diverges(&Block { stmts: vec![Stmt::Continue] }));
    assert!(block_always_diverges(&Block {
        stmts: vec![Stmt::Expr(ExprKind::Throw(Box::new(ExprKind::StringLit("e".to_owned()))))]
    }));
}

#[test]
fn block_does_not_diverge() {
    assert!(!block_always_diverges(&Block { stmts: vec![] }));
    assert!(!block_always_diverges(&Block { stmts: vec![Stmt::Return(None), Stmt::Expr(var("a"))] }));
}

#[test]
fn test_identify_utility_type_recognizes_all_six() {
    let make_generic = |name: &str| TypeKind::Generic(name.to_owned(), vec![]);
    assert_eq!(identify_utility_type(&make_generic("Partial")), Some("Partial"));
    assert_eq!(identify_utility_type(&make_generic("Required")), Some("Required"));
    assert_eq!(identify_utility_type(&make_generic("Readonly")), Some("Readonly"));
    assert_eq!(identify_utility_type(&make_generic("Record")), Some("Record"));
    assert_eq!(identify_utility_type(&make_generic("Pick")), Some("Pick"));
    assert_eq!(identify_utility_type(&make_generic("Omit")), Some("Omit"));
    assert_eq!(identify_utility_type(&make_generic("NotAUtilityType")), None);
}

#[test]
fn test_extract_string_literal_fields_single() {
    let ann = TypeKind::StringLiteral("name".to_owned());
    assert_eq!(extract_string_literal_fields(&ann), vec!["name"]);
}

#[test]
fn test_extract_string_literal_fields_union() {
    let ann = TypeKind::Union(vec![
        TypeKind::StringLiteral("name".to_owned()),
        TypeKind::StringLiteral("age".to_owned()),
    ]);
    assert_eq!(extract_string_literal_fields(&ann), vec!["name", "age"]);
}

fn user_fields() -> Vec<(String, FieldType)> {
    vec![
        ("name".to_owned(), FieldType::Other("string".to_owned())),
        ("age".to_owned(), FieldType::Option(Box::new(FieldType::Other("u32".to_owned())))),
    ]
}

#[test]
fn utility_partial_and_required() {
    let fs = user_fields();
    let (r, d) = utility_fields("Partial", Some("User"), Some(&fs), &vec![]);
    assert!(d.is_empty());
    assert_eq!(
        r,
        Some(vec![
            ("name".to_owned(), FieldType::Option(Box::new(FieldType::Other("string".to_owned())))),
            (
                "age".to_owned(),
                FieldType::Option(Box::new(FieldType::Option(Box::new(FieldType::Other("u32".to_owned())))))
            ),
        ])
    );
    let (r, d) = utility_fields("Required", Some("User"), Some(&fs), &vec![]);
    assert!(d.is_empty());
    assert_eq!(
        r,
        Some(vec![
            ("name".to_owned(), FieldType::Other("string".to_owned())),
            ("age".to_owned(), FieldType::Other("u32".to_owned())),
        ])
    );
    let (r, _) = utility_fields("Readonly", Some("User"), Some(&fs), &vec![]);
    assert_eq!(r, Some(user_fields()));
}

#[test]
fn utility_pick_and_omit_with_diagnostics() {
    let fs = user_fields();
    let keys = vec!["age".to_owned(), "email".to_owned()];
    let (r, d) = utility_fields("Pick", Some("User"), Some(&fs), &keys);
    assert_eq!(
        r,
        Some(vec![("age".to_owned(), FieldType::Option(Box::new(FieldType::Other("u32".to_owned()))))])
    );
    assert_eq!(d.len(), 1);
    assert_eq!(d[0].message, "unknown field `email` in `Pick<User, \"email\">`");
    let (r, d) = utility_fields("Omit", Some("User"), Some(&fs), &vec!["age".to_owned()]);
    assert_eq!(r, Some(vec![("name".to_owned(), FieldType::Other("string".to_owned()))]));
    assert!(d.is_empty());
    let (r, d) = utility_fields("Omit", Some("User"), Some(&fs), &vec![]);
    assert_eq!(r, Some(user_fields()));
    assert_eq!(d[0].message, "`Omit<User, ...>` requires string literal field names");
}

#[test]
fn utility_unknown_source_and_missing_argument() {
    let (r, d) = utility_fields("Partial", Some("Ghost"), None, &vec![]);
    assert_eq!(r, None);
    assert_eq!(d[0].message, "unknown type `Ghost` in `Partial<Ghost>`");
    let (r, d) = utility_fields("Pick", None, None, &vec![]);
    assert_eq!(r, None);
    assert_eq!(d[0].message, "utility type `Pick` requires a type argument");
    let (r, d) = utility_fields("Record", None, None, &vec![]);
    assert_eq!(r, Some(vec![]));
    assert!(d.is_empty());
}

#[test]
fn rs_path_segments_of_a_stem() {
    assert_eq!(
        rs_path_segments("main"),
        (".rsc-build".to_owned(), "src".to_owned(), "main.rs".to_owned())
    );
}

#[test]
fn pick_and_omit_partition_the_fields() {
    let fs = user_fields();
    let keys = vec!["age".to_owned()];
    let (pick, _) = utility_fields("Pick", Some("User"), Some(&fs), &keys);
    let (omit, _) = utility_fields("Omit", Some("User"), Some(&fs), &keys);
    let (pick, omit) = (pick.unwrap(), omit.unwrap());
    assert_eq!(pick.len() + omit.len(), fs.len());
    for f in &fs {
        assert!(pick.contains(f) != omit.contains(f));
    }
}
