//! Completion answers along each path the resolver takes.

use rsc_lsp::completions::{
    extract_last_identifier, import_completions, resolve_completions, resolve_signature_help,
    signature_help_for_function, struct_member_completions, CachedCompileInfo, CompletionContext,
    CompletionItemKind, CompletionResponse, SignatureHelpContext,
};
use rsc_lsp::rustdoc::{
    RustdocCache, RustdocCrate, RustdocEnum, RustdocItem, RustdocItemKind, RustdocTrait,
};

fn labels(r: &Option<CompletionResponse>) -> Vec<String> {
    match r {
        Some(CompletionResponse::Array(items)) => items.iter().map(|i| i.label.clone()).collect(),
        None => vec![],
    }
}

fn trait_item(id: &str, name: &str, docs: Option<&str>) -> RustdocItem {
    RustdocItem {
        id: id.to_owned(),
        name: name.to_owned(),
        docs: docs.map(|d| d.to_owned()),
        kind: RustdocItemKind::Trait(RustdocTrait { generics: vec![], method_ids: vec![] }),
    }
}

fn sample_cache() -> RustdocCache {
    let mut krate = RustdocCrate::new();
    krate.add_name("zeta".to_owned(), "1".to_owned());
    krate.insert_item("1".to_owned(), trait_item("1", "zeta", None));
    krate.add_name("Alpha".to_owned(), "2".to_owned());
    krate.add_name("Alpha".to_owned(), "9".to_owned());
    krate.insert_item(
        "2".to_owned(),
        RustdocItem {
            id: "2".to_owned(),
            name: "Alpha".to_owned(),
            docs: Some("x".repeat(100)),
            kind: RustdocItemKind::Enum(RustdocEnum { generics: vec![], variants: vec![] }),
        },
    );
    krate.add_name("beta".to_owned(), "missing".to_owned());
    let mut cache = RustdocCache::new();
    cache.insert("lib".to_owned(), krate);
    cache
}

#[test]
fn import_completions_are_sorted_and_cut() {
    let cache = sample_cache();
    let items = import_completions("lib", &cache).unwrap();
    let names: Vec<&str> = items.iter().map(|i| i.label.as_str()).collect();
    assert_eq!(names, vec!["Alpha", "zeta"]);
    assert_eq!(items[0].kind, Some(CompletionItemKind::Enum));
    assert_eq!(items[1].kind, Some(CompletionItemKind::Interface));
    let expected = format!("{}...", "x".repeat(77));
    assert_eq!(items[0].detail.as_deref(), Some(expected.as_str()));
    assert_eq!(items[1].detail, None);
}

#[test]
fn import_docs_of_eighty_bytes_stay_whole() {
    let mut krate = RustdocCrate::new();
    krate.add_name("a".to_owned(), "1".to_owned());
    krate.insert_item("1".to_owned(), trait_item("1", "a", Some(&"y".repeat(80))));
    let mut cache = RustdocCache::new();
    cache.insert("c".to_owned(), krate);
    let items = import_completions("c", &cache).unwrap();
    assert_eq!(items[0].detail, Some("y".repeat(80)));
}

#[test]
fn import_completions_of_a_crate_without_items_are_none() {
    let mut cache = RustdocCache::new();
    cache.insert("empty".to_owned(), RustdocCrate::new());
    assert!(import_completions("empty", &cache).is_none());
}

#[test]
fn resolve_offers_imports_inside_an_import_statement() {
    let cache = sample_cache();
    let source = "import { A } from \"lib\";\nconst x = 1;";
    let ctx = CompletionContext { source, line: 0, character: 9, cache: None, rustdoc: Some(&cache) };
    assert_eq!(labels(&resolve_completions(&ctx)), vec!["Alpha", "zeta"]);
}

#[test]
fn resolve_skips_relative_imports() {
    let cache = sample_cache();
    let source = "import { A } from \"./lib\";";
    let ctx = CompletionContext { source, line: 0, character: 9, cache: None, rustdoc: Some(&cache) };
    let result = resolve_completions(&ctx);
    assert!(labels(&result).contains(&"function".to_owned()));
}

#[test]
fn resolve_past_the_last_line_is_none() {
    let ctx = CompletionContext { source: "a\n", line: 1, character: 0, cache: None, rustdoc: None };
    assert!(resolve_completions(&ctx).is_none());
}

#[test]
fn resolve_after_an_unknown_receiver_is_none() {
    let ctx = CompletionContext { source: "foo.", line: 0, character: 4, cache: None, rustdoc: None };
    assert!(resolve_completions(&ctx).is_none());
    let ctx = CompletionContext { source: "(1).", line: 0, character: 4, cache: None, rustdoc: None };
    assert!(resolve_completions(&ctx).is_none());
}

#[test]
fn resolve_reads_the_receiver_before_the_cursor() {
    let source = "let a = 1;\r\n  console.lo";
    let ctx = CompletionContext { source, line: 1, character: 10, cache: None, rustdoc: None };
    let got = labels(&resolve_completions(&ctx));
    assert_eq!(got, vec!["log", "error", "warn", "debug"]);
    let ctx = CompletionContext { source, line: 1, character: 99, cache: None, rustdoc: None };
    assert_eq!(labels(&resolve_completions(&ctx)), got);
}

#[test]
fn resolve_uses_struct_members_from_the_cache() {
    let mut cache = CachedCompileInfo::new();
    cache.insert_variable_type("p".to_owned(), "Point".to_owned());
    cache.insert_variable_type("Point".to_owned(), "type Point = { x: f64, y: f64 }".to_owned());
    cache.insert_function_signature("Point.norm".to_owned(), "function norm(): f64".to_owned());
    let ctx = CompletionContext { source: "p.", line: 0, character: 2, cache: Some(&cache), rustdoc: None };
    assert_eq!(labels(&resolve_completions(&ctx)), vec!["x", "y", "norm"]);
    let items = struct_member_completions("p", &cache).unwrap();
    assert_eq!(items[0].kind, Some(CompletionItemKind::Field));
    assert_eq!(items[0].detail.as_deref(), Some("f64"));
    assert_eq!(items[2].kind, Some(CompletionItemKind::Method));
    assert_eq!(items[2].detail.as_deref(), Some("function norm(): f64"));
}

#[test]
fn later_cache_entries_replace_earlier_ones() {
    let mut cache = CachedCompileInfo::new();
    cache.insert_variable_type("v".to_owned(), "string".to_owned());
    cache.insert_variable_type("v".to_owned(), "Set<i32>".to_owned());
    assert_eq!(cache.variable_type("v").map(|s| s.as_str()), Some("Set<i32>"));
    let ctx = CompletionContext { source: "v.", line: 0, character: 2, cache: Some(&cache), rustdoc: None };
    assert_eq!(labels(&resolve_completions(&ctx)), vec!["add", "has", "delete", "clear", "values"]);
}

#[test]
fn signature_help_counts_top_level_commas() {
    let mut cache = CachedCompileInfo::new();
    cache.insert_function_signature("f".to_owned(), "function f(a: i32, b: i32, c: i32): void".to_owned());
    let source = "f(g(1, 2), h(3), ";
    let ctx = SignatureHelpContext { source, line: 0, character: source.len() as u32, cache: Some(&cache) };
    let help = resolve_signature_help(&ctx).unwrap();
    assert_eq!(help.active_parameter, Some(2));
    let bracketed = "f([3, 4], ";
    let ctx = SignatureHelpContext { source: bracketed, line: 0, character: 10, cache: Some(&cache) };
    assert_eq!(resolve_signature_help(&ctx).unwrap().active_parameter, Some(2));
    assert_eq!(help.active_signature, Some(0));
    let params: Vec<&str> = help.signatures[0]
        .parameters
        .as_ref()
        .unwrap()
        .iter()
        .map(|p| p.label.as_str())
        .collect();
    assert_eq!(params, vec!["a: i32", "b: i32", "c: i32"]);
}

#[test]
fn signature_help_inside_a_closed_call_is_none() {
    let mut cache = CachedCompileInfo::new();
    cache.insert_function_signature("f".to_owned(), "function f(a: i32): void".to_owned());
    let ctx = SignatureHelpContext { source: "f(1) ", line: 0, character: 5, cache: Some(&cache) };
    assert!(resolve_signature_help(&ctx).is_none());
    let ctx = SignatureHelpContext { source: "(1, ", line: 0, character: 4, cache: Some(&cache) };
    assert!(resolve_signature_help(&ctx).is_none());
}

#[test]
fn signature_without_parentheses_gives_no_help() {
    let mut cache = CachedCompileInfo::new();
    cache.insert_function_signature("k".to_owned(), "const k".to_owned());
    assert!(signature_help_for_function("k", 0, &cache).is_none());
}

#[test]
fn last_identifier_edge_cases() {
    assert_eq!(extract_last_identifier("a.b_c9 \t"), "b_c9");
    assert_eq!(extract_last_identifier("x + "), "");
    assert_eq!(extract_last_identifier("\u{e9}t\u{e9}x"), "x");
}
