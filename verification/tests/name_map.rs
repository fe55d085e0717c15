//! Method and type names as RustScript shows them.

use rsc_lsp::name_map::{
    rust_type_to_rts_display, translate_completion_label, translate_method_name,
    translate_type_name, translate_type_string,
};
use rsc_lsp::rust_ir::RustType;
#[test]
fn test_name_map_to_uppercase_maps_to_to_upper_case() {
    assert_eq!(translate_method_name("to_uppercase"), "toUpperCase");
}

#[test]
fn test_name_map_to_lowercase_maps_to_to_lower_case() {
    assert_eq!(translate_method_name("to_lowercase"), "toLowerCase");
}

#[test]
fn test_name_map_starts_with_maps_to_starts_with() {
    assert_eq!(translate_method_name("starts_with"), "startsWith");
}

#[test]
fn test_name_map_ends_with_maps_to_ends_with() {
    assert_eq!(translate_method_name("ends_with"), "endsWith");
}

#[test]
fn test_name_map_contains_maps_to_includes() {
    assert_eq!(translate_method_name("contains"), "includes");
}

#[test]
fn test_name_map_len_maps_to_length() {
    assert_eq!(translate_method_name("len"), "length");
}

#[test]
fn test_name_map_unknown_method_passes_through() {
    assert_eq!(translate_method_name("custom_method"), "custom_method");
}
#[test]
fn test_name_map_vec_string_maps_to_array_string() {
    assert_eq!(translate_type_string("Vec<String>"), "Array<string>");
}

#[test]
fn test_name_map_hashmap_maps_to_map() {
    assert_eq!(translate_type_name("HashMap"), "Map");
}

#[test]
fn test_name_map_hashset_maps_to_set() {
    assert_eq!(translate_type_name("HashSet"), "Set");
}

#[test]
fn test_name_map_string_maps_to_string() {
    assert_eq!(translate_type_name("String"), "string");
}

#[test]
fn test_name_map_bool_maps_to_boolean() {
    assert_eq!(translate_type_name("bool"), "boolean");
}

#[test]
fn test_name_map_nested_generics() {
    assert_eq!(
        translate_type_string("HashMap<String, Vec<i32>>"),
        "Map<string, Array<number>>"
    );
}

#[test]
fn test_name_map_plain_type_no_generics() {
    assert_eq!(translate_type_string("i32"), "number");
}

#[test]
fn test_name_map_unknown_type_passes_through() {
    assert_eq!(translate_type_string("MyStruct"), "MyStruct");
}

// Correctness scenario 2: Name translation in completion
#[test]
fn test_name_map_correctness_completion_label_to_uppercase() {
    let translated = translate_completion_label("to_uppercase");
    assert_eq!(translated, "toUpperCase");
}

#[test]
fn test_name_map_correctness_completion_label_vec_type() {
    let translated = translate_completion_label("Vec<String>");
    assert_eq!(translated, "Array<string>");
}

#[test]
fn test_name_map_correctness_completion_label_passthrough() {
    let translated = translate_completion_label("my_field");
    assert_eq!(translated, "my_field");
}

// -----------------------------------------------------------------------
// String-based translation: Option, Result, fn, Arc<Mutex>
// -----------------------------------------------------------------------

#[test]
fn test_translate_type_string_option_to_union_null() {
    assert_eq!(translate_type_string("Option<String>"), "string | null");
}

#[test]
fn test_translate_type_string_option_nested() {
    assert_eq!(
        translate_type_string("Option<Vec<String>>"),
        "Array<string> | null"
    );
}

#[test]
fn test_translate_type_string_result_to_throws() {
    assert_eq!(
        translate_type_string("Result<i32, String>"),
        "number throws string"
    );
}

#[test]
fn test_translate_type_string_fn_to_arrow() {
    assert_eq!(translate_type_string("fn() -> String"), "() => string");
}

#[test]
fn test_translate_type_string_fn_with_params() {
    assert_eq!(
        translate_type_string("fn(i32, String) -> bool"),
        "(number, string) => boolean"
    );
}

#[test]
fn test_translate_type_string_impl_fn_to_arrow() {
    assert_eq!(
        translate_type_string("impl Fn(i32) -> i32"),
        "(number) => number"
    );
}

#[test]
fn test_translate_type_string_arc_mutex_to_shared() {
    assert_eq!(translate_type_string("Arc<Mutex<i32>>"), "shared<number>");
}

#[test]
fn test_translate_type_string_unit_to_void() {
    assert_eq!(translate_type_string("()"), "void");
}

// -----------------------------------------------------------------------
// rust_type_to_rts_display tests — RustType -> RustScript display syntax
// -----------------------------------------------------------------------

#[test]
fn test_rts_display_string() {
    assert_eq!(rust_type_to_rts_display(&RustType::String), "string");
}

#[test]
fn test_rts_display_bool() {
    assert_eq!(rust_type_to_rts_display(&RustType::Bool), "boolean");
}

#[test]
fn test_rts_display_unit() {
    assert_eq!(rust_type_to_rts_display(&RustType::Unit), "void");
}

#[test]
fn test_rts_display_i32() {
    assert_eq!(rust_type_to_rts_display(&RustType::I32), "i32");
}

#[test]
fn test_rts_display_f64() {
    assert_eq!(rust_type_to_rts_display(&RustType::F64), "f64");
}

#[test]
fn test_rts_display_named_type() {
    assert_eq!(
        rust_type_to_rts_display(&RustType::Named("User".to_owned())),
        "User"
    );
}

#[test]
fn test_rts_display_type_param() {
    assert_eq!(
        rust_type_to_rts_display(&RustType::TypeParam("T".to_owned())),
        "T"
    );
}

#[test]
fn test_rts_display_vec_string_to_array_string() {
    let ty = RustType::Generic(
        Box::new(RustType::Named("Vec".to_owned())),
        vec![RustType::String],
    );
    assert_eq!(rust_type_to_rts_display(&ty), "Array<string>");
}

#[test]
fn test_rts_display_hashmap_to_map() {
    let ty = RustType::Generic(
        Box::new(RustType::Named("HashMap".to_owned())),
        vec![RustType::String, RustType::I32],
    );
    assert_eq!(rust_type_to_rts_display(&ty), "Map<string, i32>");
}

#[test]
fn test_rts_display_hashset_to_set() {
    let ty = RustType::Generic(
        Box::new(RustType::Named("HashSet".to_owned())),
        vec![RustType::String],
    );
    assert_eq!(rust_type_to_rts_display(&ty), "Set<string>");
}

#[test]
fn test_rts_display_option_to_union_null() {
    let ty = RustType::Option(Box::new(RustType::String));
    assert_eq!(rust_type_to_rts_display(&ty), "string | null");
}

#[test]
fn test_rts_display_result_to_throws() {
    let ty = RustType::Result(Box::new(RustType::I32), Box::new(RustType::String));
    assert_eq!(rust_type_to_rts_display(&ty), "i32 throws string");
}

#[test]
fn test_rts_display_impl_fn_to_arrow() {
    let ty = RustType::ImplFn(vec![RustType::I32], Box::new(RustType::I32));
    assert_eq!(rust_type_to_rts_display(&ty), "(i32) => i32");
}

#[test]
fn test_rts_display_impl_fn_multi_params() {
    let ty = RustType::ImplFn(
        vec![RustType::String, RustType::I32],
        Box::new(RustType::Bool),
    );
    assert_eq!(rust_type_to_rts_display(&ty), "(string, i32) => boolean");
}

#[test]
fn test_rts_display_arc_mutex_to_shared() {
    let ty = RustType::ArcMutex(Box::new(RustType::I32));
    assert_eq!(rust_type_to_rts_display(&ty), "shared<i32>");
}

#[test]
fn test_rts_display_nested_option_vec() {
    // Option<Vec<String>> -> Array<string> | null
    let ty = RustType::Option(Box::new(RustType::Generic(
        Box::new(RustType::Named("Vec".to_owned())),
        vec![RustType::String],
    )));
    assert_eq!(rust_type_to_rts_display(&ty), "Array<string> | null");
}

#[test]
fn test_rts_display_nested_hashmap_vec() {
    // HashMap<String, Vec<i32>> -> Map<string, Array<i32>>
    let ty = RustType::Generic(
        Box::new(RustType::Named("HashMap".to_owned())),
        vec![
            RustType::String,
            RustType::Generic(
                Box::new(RustType::Named("Vec".to_owned())),
                vec![RustType::I32],
            ),
        ],
    );
    assert_eq!(rust_type_to_rts_display(&ty), "Map<string, Array<i32>>");
}

#[test]
fn test_rts_display_self_type() {
    assert_eq!(rust_type_to_rts_display(&RustType::SelfType), "this");
}

#[test]
fn test_rts_display_infer() {
    assert_eq!(rust_type_to_rts_display(&RustType::Infer), "(inferred)");
}

#[test]
fn test_rts_display_user_generic() {
    // Generic(Named("Response"), [Named("Data")]) -> Response<Data>
    let ty = RustType::Generic(
        Box::new(RustType::Named("Response".to_owned())),
        vec![RustType::Named("Data".to_owned())],
    );
    assert_eq!(rust_type_to_rts_display(&ty), "Response<Data>");
}

#[test]
fn test_rts_display_all_numerics() {
    assert_eq!(rust_type_to_rts_display(&RustType::I8), "i8");
    assert_eq!(rust_type_to_rts_display(&RustType::I16), "i16");
    assert_eq!(rust_type_to_rts_display(&RustType::I64), "i64");
    assert_eq!(rust_type_to_rts_display(&RustType::U8), "u8");
    assert_eq!(rust_type_to_rts_display(&RustType::U16), "u16");
    assert_eq!(rust_type_to_rts_display(&RustType::U32), "u32");
    assert_eq!(rust_type_to_rts_display(&RustType::U64), "u64");
    assert_eq!(rust_type_to_rts_display(&RustType::F32), "f32");
}

#[test]
fn test_rts_display_tuple_type() {
    let ty = RustType::Tuple(vec![RustType::String, RustType::I32]);
    assert_eq!(rust_type_to_rts_display(&ty), "[string, i32]");
}

#[test]
fn test_rts_display_tuple_type_three_elements() {
    let ty = RustType::Tuple(vec![RustType::String, RustType::I32, RustType::Bool]);
    assert_eq!(rust_type_to_rts_display(&ty), "[string, i32, boolean]");
}

#[test]
fn test_rts_display_generated_union_two_types() {
    let ty = RustType::GeneratedUnion {
        name: "I32OrString".to_owned(),
        variants: vec![
            ("String".to_owned(), RustType::String),
            ("I32".to_owned(), RustType::I32),
        ],
    };
    assert_eq!(rust_type_to_rts_display(&ty), "string | i32");
}

#[test]
fn test_rts_display_generated_union_three_types() {
    let ty = RustType::GeneratedUnion {
        name: "BoolOrI32OrString".to_owned(),
        variants: vec![
            ("String".to_owned(), RustType::String),
            ("I32".to_owned(), RustType::I32),
            ("Bool".to_owned(), RustType::Bool),
        ],
    };
    assert_eq!(rust_type_to_rts_display(&ty), "string | i32 | boolean");
}

#[test]
fn function_type_nested_in_generic_arguments() {
    assert_eq!(
        translate_type_string("HashMap<String, fn(i32, i32) -> i32>"),
        "Map<string, (number, number) => number>"
    );
    assert_eq!(
        translate_type_string("Vec<impl Fn(String) -> bool>"),
        "Array<(string) => boolean>"
    );
}

#[test]
fn function_type_as_function_parameter() {
    assert_eq!(
        translate_type_string("fn(fn(i32) -> i32, i32) -> i32"),
        "((number) => number, number) => number"
    );
}
