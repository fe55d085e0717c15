//! The smaller rendering helpers: paths, variants, fields, bounds, base names.

use rsc_lsp::name_map::{rust_type_base_to_rts, split_generic_args, translate_generic_args};
use rsc_lsp::rust_ir::RustType;
use rsc_lsp::rustdoc::{RustdocField, RustdocType, RustdocVariant, RustdocVariantKind};
use rsc_lsp::rustdoc_translator::{
    translate_bound, translate_field, translate_primitive, translate_resolved_path,
    translate_variant,
};

fn chars(s: &str) -> Vec<char> {
    s.chars().collect()
}

fn text(v: &[char]) -> String {
    v.iter().collect()
}

#[test]
fn resolved_paths_map_containers() {
    assert_eq!(translate_resolved_path("Vec", &vec![RustdocType::Primitive("u8".to_owned())]), "Array<u8>");
    assert_eq!(translate_resolved_path("Router", &vec![]), "Router");
    assert_eq!(
        translate_resolved_path("Option", &vec![RustdocType::Primitive("bool".to_owned())]),
        "boolean | null"
    );
}

#[test]
fn variants_render_by_kind() {
    let plain = RustdocVariant { name: "A".to_owned(), kind: RustdocVariantKind::Plain };
    assert_eq!(translate_variant(&plain), "  A");
    let tuple = RustdocVariant {
        name: "B".to_owned(),
        kind: RustdocVariantKind::Tuple(vec![
            RustdocType::Primitive("i32".to_owned()),
            RustdocType::Primitive("str".to_owned()),
        ]),
    };
    assert_eq!(translate_variant(&tuple), "  B(i32, string)");
}

#[test]
fn fields_render_as_name_and_type() {
    let f = RustdocField { name: "age".to_owned(), ty: RustdocType::Primitive("u32".to_owned()) };
    assert_eq!(translate_field(&f), "age: u32");
}

#[test]
fn bounds_and_primitives() {
    assert_eq!(translate_primitive("str"), "string");
    assert_eq!(translate_primitive("bool"), "boolean");
    assert_eq!(translate_primitive("i64"), "i64");
    assert_eq!(translate_bound("Display"), "Display");
}

#[test]
fn generic_base_names() {
    assert_eq!(rust_type_base_to_rts(&RustType::Named("Vec".to_owned())), "Array");
    assert_eq!(rust_type_base_to_rts(&RustType::Named("HashMap".to_owned())), "Map");
    assert_eq!(rust_type_base_to_rts(&RustType::Named("HashSet".to_owned())), "Set");
    assert_eq!(rust_type_base_to_rts(&RustType::Named("Response".to_owned())), "Response");
}

#[test]
fn generic_arguments_split_at_top_level_commas() {
    let parts: Vec<String> = split_generic_args(&chars("String, Vec<i32>, HashMap<K, V>"))
        .iter()
        .map(|p| text(p))
        .collect();
    assert_eq!(parts, vec!["String", "Vec<i32>", "HashMap<K, V>"]);
    assert_eq!(text(&translate_generic_args(&chars("String, Vec<i32>"))), "string, Array<number>");
}
