//! Rendering rustdoc items in RustScript syntax.

use rsc_lsp::rustdoc::{
    RustdocEnum, RustdocField, RustdocFunction, RustdocGenericParam, RustdocItem, RustdocItemKind,
    RustdocStruct, RustdocTrait, RustdocType, RustdocVariant, RustdocVariantKind,
};
use rsc_lsp::rustdoc_translator::{
    translate_enum, translate_function, translate_generic_params, translate_item_to_hover,
    translate_struct, translate_trait, translate_type,
};

// ----- Type translation tests -----

#[test]
fn test_translate_type_string_resolved_path() {
    let ty = RustdocType::ResolvedPath {
        name: "String".to_owned(),
        args: vec![],
    };
    assert_eq!(translate_type(&ty), "string");
}

#[test]
fn test_translate_type_str_primitive() {
    let ty = RustdocType::Primitive("str".to_owned());
    assert_eq!(translate_type(&ty), "string");
}

#[test]
fn test_translate_type_bool_primitive() {
    let ty = RustdocType::Primitive("bool".to_owned());
    assert_eq!(translate_type(&ty), "boolean");
}

#[test]
fn test_translate_type_unit_tuple() {
    let ty = RustdocType::Tuple(vec![]);
    assert_eq!(translate_type(&ty), "void");
}

#[test]
fn test_translate_type_vec_to_array() {
    let ty = RustdocType::ResolvedPath {
        name: "Vec".to_owned(),
        args: vec![RustdocType::Primitive("i32".to_owned())],
    };
    assert_eq!(translate_type(&ty), "Array<i32>");
}

#[test]
fn test_translate_type_hashmap_to_map() {
    let ty = RustdocType::ResolvedPath {
        name: "HashMap".to_owned(),
        args: vec![
            RustdocType::ResolvedPath {
                name: "String".to_owned(),
                args: vec![],
            },
            RustdocType::Primitive("i32".to_owned()),
        ],
    };
    assert_eq!(translate_type(&ty), "Map<string, i32>");
}

#[test]
fn test_translate_type_hashset_to_set() {
    let ty = RustdocType::ResolvedPath {
        name: "HashSet".to_owned(),
        args: vec![RustdocType::ResolvedPath {
            name: "String".to_owned(),
            args: vec![],
        }],
    };
    assert_eq!(translate_type(&ty), "Set<string>");
}

#[test]
fn test_translate_type_option_to_nullable() {
    let ty = RustdocType::ResolvedPath {
        name: "Option".to_owned(),
        args: vec![RustdocType::ResolvedPath {
            name: "String".to_owned(),
            args: vec![],
        }],
    };
    assert_eq!(translate_type(&ty), "string | null");
}

#[test]
fn test_translate_type_result_to_throws() {
    let ty = RustdocType::ResolvedPath {
        name: "Result".to_owned(),
        args: vec![
            RustdocType::Primitive("i32".to_owned()),
            RustdocType::ResolvedPath {
                name: "String".to_owned(),
                args: vec![],
            },
        ],
    };
    assert_eq!(translate_type(&ty), "i32 throws string");
}

#[test]
fn test_translate_type_box_unwrapped() {
    let ty = RustdocType::ResolvedPath {
        name: "Box".to_owned(),
        args: vec![RustdocType::ImplTrait(vec!["Display".to_owned()])],
    };
    assert_eq!(translate_type(&ty), "Display");
}

#[test]
fn test_translate_type_arc_mutex_to_shared() {
    let ty = RustdocType::ResolvedPath {
        name: "Arc".to_owned(),
        args: vec![RustdocType::ResolvedPath {
            name: "Mutex".to_owned(),
            args: vec![RustdocType::Primitive("i32".to_owned())],
        }],
    };
    assert_eq!(translate_type(&ty), "shared<i32>");
}

#[test]
fn test_translate_type_borrow_hidden() {
    let ty = RustdocType::BorrowedRef {
        is_mutable: false,
        ty: Box::new(RustdocType::Primitive("str".to_owned())),
    };
    assert_eq!(translate_type(&ty), "string");
}

#[test]
fn test_translate_type_mut_borrow_hidden() {
    let ty = RustdocType::BorrowedRef {
        is_mutable: true,
        ty: Box::new(RustdocType::ResolvedPath {
            name: "Vec".to_owned(),
            args: vec![RustdocType::Primitive("i32".to_owned())],
        }),
    };
    assert_eq!(translate_type(&ty), "Array<i32>");
}

#[test]
fn test_translate_type_self_to_this() {
    let ty = RustdocType::Generic("Self".to_owned());
    assert_eq!(translate_type(&ty), "this");
}

#[test]
fn test_translate_type_generic_passthrough() {
    let ty = RustdocType::Generic("T".to_owned());
    assert_eq!(translate_type(&ty), "T");
}

#[test]
fn test_translate_type_fn_pointer() {
    let ty = RustdocType::FnPointer {
        params: vec![RustdocType::Primitive("i32".to_owned())],
        return_type: Box::new(RustdocType::Primitive("bool".to_owned())),
    };
    assert_eq!(translate_type(&ty), "(i32) => boolean");
}

#[test]
fn test_translate_type_slice_to_array() {
    let ty = RustdocType::Slice(Box::new(RustdocType::Primitive("u8".to_owned())));
    assert_eq!(translate_type(&ty), "Array<u8>");
}

#[test]
fn test_translate_type_tuple_to_tuple() {
    let ty = RustdocType::Tuple(vec![
        RustdocType::Primitive("i32".to_owned()),
        RustdocType::Primitive("bool".to_owned()),
    ]);
    assert_eq!(translate_type(&ty), "[i32, boolean]");
}

#[test]
fn test_translate_type_impl_trait() {
    let ty = RustdocType::ImplTrait(vec!["Display".to_owned(), "Clone".to_owned()]);
    assert_eq!(translate_type(&ty), "Display & Clone");
}

#[test]
fn test_translate_type_cow_unwrapped() {
    let ty = RustdocType::ResolvedPath {
        name: "Cow".to_owned(),
        args: vec![
            RustdocType::Generic("'a".to_owned()),
            RustdocType::Primitive("str".to_owned()),
        ],
    };
    assert_eq!(translate_type(&ty), "string");
}

#[test]
fn test_translate_type_rc_unwrapped() {
    let ty = RustdocType::ResolvedPath {
        name: "Rc".to_owned(),
        args: vec![RustdocType::ResolvedPath {
            name: "String".to_owned(),
            args: vec![],
        }],
    };
    assert_eq!(translate_type(&ty), "string");
}

#[test]
fn test_translate_type_user_defined_generic() {
    let ty = RustdocType::ResolvedPath {
        name: "Response".to_owned(),
        args: vec![RustdocType::Generic("T".to_owned())],
    };
    assert_eq!(translate_type(&ty), "Response<T>");
}

#[test]
fn test_translate_type_user_defined_no_args() {
    let ty = RustdocType::ResolvedPath {
        name: "Router".to_owned(),
        args: vec![],
    };
    assert_eq!(translate_type(&ty), "Router");
}

// ----- Function translation tests -----

#[test]
fn test_translate_function_simple() {
    let func = RustdocFunction {
        generics: vec![],
        params: vec![(
            "name".to_owned(),
            RustdocType::ResolvedPath {
                name: "String".to_owned(),
                args: vec![],
            },
        )],
        return_type: Some(RustdocType::ResolvedPath {
            name: "String".to_owned(),
            args: vec![],
        }),
        is_async: false,
        is_unsafe: false,
        has_self: false,
        parent_type: None,
    };
    assert_eq!(
        translate_function("greet", &func),
        "function greet(name: string): string"
    );
}

#[test]
fn test_translate_function_async() {
    let func = RustdocFunction {
        generics: vec![],
        params: vec![],
        return_type: None,
        is_async: true,
        is_unsafe: false,
        has_self: false,
        parent_type: None,
    };
    assert_eq!(
        translate_function("serve", &func),
        "async function serve(): void"
    );
}

#[test]
fn test_translate_function_with_generics() {
    let func = RustdocFunction {
        generics: vec![
            RustdocGenericParam {
                name: "H".to_owned(),
                bounds: vec!["Handler".to_owned()],
            },
            RustdocGenericParam {
                name: "T".to_owned(),
                bounds: vec![],
            },
        ],
        params: vec![("handler".to_owned(), RustdocType::Generic("H".to_owned()))],
        return_type: Some(RustdocType::ResolvedPath {
            name: "MethodRouter".to_owned(),
            args: vec![],
        }),
        is_async: false,
        is_unsafe: false,
        has_self: false,
        parent_type: None,
    };
    assert_eq!(
        translate_function("get", &func),
        "function get<H extends Handler, T>(handler: H): MethodRouter"
    );
}

#[test]
fn test_translate_function_method_with_parent() {
    let func = RustdocFunction {
        generics: vec![],
        params: vec![
            (
                "path".to_owned(),
                RustdocType::BorrowedRef {
                    is_mutable: false,
                    ty: Box::new(RustdocType::Primitive("str".to_owned())),
                },
            ),
            (
                "handler".to_owned(),
                RustdocType::ResolvedPath {
                    name: "MethodRouter".to_owned(),
                    args: vec![],
                },
            ),
        ],
        return_type: Some(RustdocType::Generic("Self".to_owned())),
        is_async: false,
        is_unsafe: false,
        has_self: true,
        parent_type: Some("Router".to_owned()),
    };
    assert_eq!(
        translate_function("route", &func),
        "function Router.route(path: string, handler: MethodRouter): this"
    );
}

// ----- Struct translation tests -----

#[test]
fn test_translate_struct_empty() {
    let s = RustdocStruct {
        generics: vec![],
        fields: vec![],
        is_tuple: false,
        method_ids: vec![],
    };
    assert_eq!(translate_struct("Router", &s), "class Router");
}

#[test]
fn test_translate_struct_with_fields() {
    let s = RustdocStruct {
        generics: vec![],
        fields: vec![
            RustdocField {
                name: "name".to_owned(),
                ty: RustdocType::ResolvedPath {
                    name: "String".to_owned(),
                    args: vec![],
                },
            },
            RustdocField {
                name: "age".to_owned(),
                ty: RustdocType::Primitive("u32".to_owned()),
            },
        ],
        is_tuple: false,
        method_ids: vec![],
    };
    assert_eq!(
        translate_struct("User", &s),
        "class User {\n  name: string\n  age: u32\n}"
    );
}

#[test]
fn test_translate_struct_with_generics() {
    let s = RustdocStruct {
        generics: vec![RustdocGenericParam {
            name: "T".to_owned(),
            bounds: vec![],
        }],
        fields: vec![],
        is_tuple: false,
        method_ids: vec![],
    };
    assert_eq!(translate_struct("Wrapper", &s), "class Wrapper<T>");
}

// ----- Trait translation tests -----

#[test]
fn test_translate_trait_simple() {
    let t = RustdocTrait {
        generics: vec![],
        method_ids: vec!["0:1".to_owned(), "0:2".to_owned()],
    };
    assert_eq!(
        translate_trait("Handler", &t),
        "interface Handler // 2 methods"
    );
}

#[test]
fn test_translate_trait_with_generics() {
    let t = RustdocTrait {
        generics: vec![RustdocGenericParam {
            name: "T".to_owned(),
            bounds: vec!["Send".to_owned()],
        }],
        method_ids: vec![],
    };
    assert_eq!(
        translate_trait("Handler", &t),
        "interface Handler<T extends Send>"
    );
}

// ----- Enum translation tests -----

#[test]
fn test_translate_enum_all_plain_variants() {
    let e = RustdocEnum {
        generics: vec![],
        variants: vec![
            RustdocVariant {
                name: "Get".to_owned(),
                kind: RustdocVariantKind::Plain,
            },
            RustdocVariant {
                name: "Post".to_owned(),
                kind: RustdocVariantKind::Plain,
            },
            RustdocVariant {
                name: "Put".to_owned(),
                kind: RustdocVariantKind::Plain,
            },
            RustdocVariant {
                name: "Delete".to_owned(),
                kind: RustdocVariantKind::Plain,
            },
        ],
    };
    assert_eq!(
        translate_enum("Method", &e),
        "type Method = \"Get\" | \"Post\" | \"Put\" | \"Delete\""
    );
}

#[test]
fn test_translate_enum_with_data() {
    let e = RustdocEnum {
        generics: vec![],
        variants: vec![
            RustdocVariant {
                name: "Ok".to_owned(),
                kind: RustdocVariantKind::Tuple(vec![RustdocType::Generic("T".to_owned())]),
            },
            RustdocVariant {
                name: "Err".to_owned(),
                kind: RustdocVariantKind::Tuple(vec![RustdocType::Generic("E".to_owned())]),
            },
        ],
    };
    assert_eq!(
        translate_enum("Result", &e),
        "enum Result {\n  Ok(T)\n  Err(E)\n}"
    );
}

// ----- Full item hover tests -----

#[test]
fn test_translate_item_to_hover_with_docs() {
    let item = RustdocItem {
        id: "0:1".to_owned(),
        name: "greet".to_owned(),
        docs: Some("Greets a user.".to_owned()),
        kind: RustdocItemKind::Function(RustdocFunction {
            generics: vec![],
            params: vec![(
                "name".to_owned(),
                RustdocType::ResolvedPath {
                    name: "String".to_owned(),
                    args: vec![],
                },
            )],
            return_type: Some(RustdocType::ResolvedPath {
                name: "String".to_owned(),
                args: vec![],
            }),
            is_async: false,
            is_unsafe: false,
            has_self: false,
            parent_type: None,
        }),
    };
    let hover = translate_item_to_hover(&item);
    assert!(hover.contains("Greets a user."));
    assert!(hover.contains("```rustscript"));
    assert!(hover.contains("function greet(name: string): string"));
}

#[test]
fn test_translate_item_to_hover_without_docs() {
    let item = RustdocItem {
        id: "0:1".to_owned(),
        name: "Router".to_owned(),
        docs: None,
        kind: RustdocItemKind::Struct(RustdocStruct {
            generics: vec![],
            fields: vec![],
            is_tuple: false,
            method_ids: vec![],
        }),
    };
    let hover = translate_item_to_hover(&item);
    assert!(hover.starts_with("```rustscript\nclass Router\n```"));
    assert!(!hover.contains("---"));
}

#[test]
fn test_translate_type_nested_option_vec() {
    // Option<Vec<String>> -> Array<string> | null
    let ty = RustdocType::ResolvedPath {
        name: "Option".to_owned(),
        args: vec![RustdocType::ResolvedPath {
            name: "Vec".to_owned(),
            args: vec![RustdocType::ResolvedPath {
                name: "String".to_owned(),
                args: vec![],
            }],
        }],
    };
    assert_eq!(translate_type(&ty), "Array<string> | null");
}

#[test]
fn test_translate_type_result_option() {
    let ty = RustdocType::ResolvedPath {
        name: "Result".to_owned(),
        args: vec![
            RustdocType::ResolvedPath {
                name: "Option".to_owned(),
                args: vec![RustdocType::Primitive("i32".to_owned())],
            },
            RustdocType::ResolvedPath {
                name: "String".to_owned(),
                args: vec![],
            },
        ],
    };
    assert_eq!(translate_type(&ty), "i32 | null throws string");
}

#[test]
fn test_translate_type_btreemap() {
    let ty = RustdocType::ResolvedPath {
        name: "BTreeMap".to_owned(),
        args: vec![
            RustdocType::ResolvedPath {
                name: "String".to_owned(),
                args: vec![],
            },
            RustdocType::Primitive("i32".to_owned()),
        ],
    };
    assert_eq!(translate_type(&ty), "Map<string, i32>");
}

#[test]
fn test_translate_type_btreeset() {
    let ty = RustdocType::ResolvedPath {
        name: "BTreeSet".to_owned(),
        args: vec![RustdocType::Primitive("i32".to_owned())],
    };
    assert_eq!(translate_type(&ty), "Set<i32>");
}

#[test]
fn test_translate_type_char_to_string() {
    let ty = RustdocType::Primitive("char".to_owned());
    assert_eq!(translate_type(&ty), "string");
}

#[test]
fn test_translate_type_never() {
    let ty = RustdocType::Primitive("never".to_owned());
    assert_eq!(translate_type(&ty), "never");
}

#[test]
fn test_translate_type_infer() {
    let ty = RustdocType::Infer;
    assert_eq!(translate_type(&ty), "(inferred)");
}

#[test]
fn test_translate_generic_params_single() {
    let params = vec![RustdocGenericParam {
        name: "T".to_owned(),
        bounds: vec![],
    }];
    assert_eq!(translate_generic_params(&params), "<T>");
}

#[test]
fn test_translate_generic_params_with_bounds() {
    let params = vec![RustdocGenericParam {
        name: "T".to_owned(),
        bounds: vec!["Display".to_owned(), "Clone".to_owned()],
    }];
    assert_eq!(
        translate_generic_params(&params),
        "<T extends Display & Clone>"
    );
}

#[test]
fn test_translate_generic_params_multiple() {
    let params = vec![
        RustdocGenericParam {
            name: "K".to_owned(),
            bounds: vec!["Eq".to_owned()],
        },
        RustdocGenericParam {
            name: "V".to_owned(),
            bounds: vec![],
        },
    ];
    assert_eq!(translate_generic_params(&params), "<K extends Eq, V>");
}
