//! Completion and signature help.

use rsc_lsp::completions::{
    builtin_object_completions, extract_last_identifier, import_completions, keyword_completions,
    resolve_completions, resolve_signature_help, signature_help_for_function,
    struct_member_completions, type_member_completions, CachedCompileInfo, CompletionContext,
    CompletionItemKind, CompletionResponse, InsertTextFormat, SignatureHelpContext,
};
use rsc_lsp::rustdoc::{
    RustdocCache, RustdocCrate, RustdocFunction, RustdocItem, RustdocItemKind, RustdocStruct,
};

// -----------------------------------------------------------------------
// Keyword completions
// -----------------------------------------------------------------------

#[test]
fn test_keyword_completions_returns_all_keywords() {
    let items = keyword_completions();
    assert_eq!(items.len(), 19);

    // Check that all expected keywords are present.
    let labels: Vec<&str> = items.iter().map(|i| i.label.as_str()).collect();
    assert!(labels.contains(&"function"));
    assert!(labels.contains(&"const"));
    assert!(labels.contains(&"let"));
    assert!(labels.contains(&"if"));
    assert!(labels.contains(&"else"));
    assert!(labels.contains(&"while"));
    assert!(labels.contains(&"for"));
    assert!(labels.contains(&"class"));
    assert!(labels.contains(&"interface"));
    assert!(labels.contains(&"type"));
    assert!(labels.contains(&"import"));
    assert!(labels.contains(&"export"));
    assert!(labels.contains(&"async"));
    assert!(labels.contains(&"try"));
    assert!(labels.contains(&"switch"));
    assert!(labels.contains(&"test"));
    assert!(labels.contains(&"describe"));
    assert!(labels.contains(&"return"));
    assert!(labels.contains(&"throw"));
}

#[test]
fn test_keyword_completions_have_snippet_format() {
    let items = keyword_completions();
    for item in &items {
        assert_eq!(
            item.kind,
            Some(CompletionItemKind::Keyword),
            "keyword {} should have KEYWORD kind",
            item.label
        );
        assert_eq!(
            item.insert_text_format,
            Some(InsertTextFormat::Snippet),
            "keyword {} should have SNIPPET format",
            item.label
        );
        assert!(
            item.insert_text.is_some(),
            "keyword {} should have insert text",
            item.label
        );
    }
}

#[test]
fn test_keyword_function_snippet_contains_placeholders() {
    let items = keyword_completions();
    let func = items.iter().find(|i| i.label == "function");
    assert!(func.is_some());
    let snippet = func.as_ref().and_then(|f| f.insert_text.as_deref());
    assert!(snippet.is_some());
    let text = snippet.unwrap_or_default();
    assert!(text.contains("${1:name}"), "should have name placeholder");
    assert!(
        text.contains("${2:params}"),
        "should have params placeholder"
    );
}

// -----------------------------------------------------------------------
// Builtin object completions
// -----------------------------------------------------------------------

#[test]
fn test_builtin_math_completions() {
    let items = builtin_object_completions("Math");
    assert!(items.is_some(), "Math should have completions");
    let items = items.unwrap_or_default();
    let labels: Vec<&str> = items.iter().map(|i| i.label.as_str()).collect();
    assert!(labels.contains(&"floor"));
    assert!(labels.contains(&"ceil"));
    assert!(labels.contains(&"round"));
    assert!(labels.contains(&"abs"));
    assert!(labels.contains(&"sqrt"));
    assert!(labels.contains(&"min"));
    assert!(labels.contains(&"max"));
    assert!(labels.contains(&"random"));
    assert!(labels.contains(&"PI"));
    assert!(labels.contains(&"E"));
}

#[test]
fn test_builtin_console_completions() {
    let items = builtin_object_completions("console");
    assert!(items.is_some(), "console should have completions");
    let items = items.unwrap_or_default();
    let labels: Vec<&str> = items.iter().map(|i| i.label.as_str()).collect();
    assert!(labels.contains(&"log"));
    assert!(labels.contains(&"error"));
    assert!(labels.contains(&"warn"));
    assert!(labels.contains(&"debug"));
}

#[test]
fn test_builtin_json_completions() {
    let items = builtin_object_completions("JSON");
    assert!(items.is_some(), "JSON should have completions");
    let items = items.unwrap_or_default();
    let labels: Vec<&str> = items.iter().map(|i| i.label.as_str()).collect();
    assert!(labels.contains(&"parse"));
    assert!(labels.contains(&"stringify"));
}

#[test]
fn test_builtin_number_completions() {
    let items = builtin_object_completions("Number");
    assert!(items.is_some(), "Number should have completions");
    let items = items.unwrap_or_default();
    let labels: Vec<&str> = items.iter().map(|i| i.label.as_str()).collect();
    assert!(labels.contains(&"parseInt"));
    assert!(labels.contains(&"parseFloat"));
    assert!(labels.contains(&"isNaN"));
    assert!(labels.contains(&"isFinite"));
    assert!(labels.contains(&"isInteger"));
}

#[test]
fn test_builtin_object_completions() {
    let items = builtin_object_completions("Object");
    assert!(items.is_some(), "Object should have completions");
    let items = items.unwrap_or_default();
    let labels: Vec<&str> = items.iter().map(|i| i.label.as_str()).collect();
    assert!(labels.contains(&"keys"));
    assert!(labels.contains(&"values"));
    assert!(labels.contains(&"entries"));
}

#[test]
fn test_builtin_unknown_object_returns_none() {
    assert!(builtin_object_completions("Unknown").is_none());
}

#[test]
fn test_builtin_completions_have_documentation() {
    let items = builtin_object_completions("Math").unwrap_or_default();
    for item in &items {
        assert!(
            item.documentation.is_some(),
            "builtin member {} should have docs",
            item.label
        );
    }
}

// -----------------------------------------------------------------------
// Type-aware member completions
// -----------------------------------------------------------------------

#[test]
fn test_type_member_completions_string() {
    let items = type_member_completions("string");
    assert!(items.is_some(), "string should have member completions");
    let items = items.unwrap_or_default();
    let labels: Vec<&str> = items.iter().map(|i| i.label.as_str()).collect();
    assert!(labels.contains(&"toUpperCase"));
    assert!(labels.contains(&"toLowerCase"));
    assert!(labels.contains(&"trim"));
    assert!(labels.contains(&"split"));
    assert!(labels.contains(&"startsWith"));
    assert!(labels.contains(&"length"));
}

#[test]
fn test_type_member_completions_string_capital() {
    let items = type_member_completions("String");
    assert!(items.is_some(), "String should also match");
}

#[test]
fn test_type_member_completions_array() {
    let items = type_member_completions("Array<i32>");
    assert!(items.is_some(), "Array should have member completions");
    let items = items.unwrap_or_default();
    let labels: Vec<&str> = items.iter().map(|i| i.label.as_str()).collect();
    assert!(labels.contains(&"map"));
    assert!(labels.contains(&"filter"));
    assert!(labels.contains(&"reduce"));
    assert!(labels.contains(&"push"));
    assert!(labels.contains(&"pop"));
    assert!(labels.contains(&"length"));
}

#[test]
fn test_type_member_completions_vec() {
    let items = type_member_completions("Vec<String>");
    assert!(
        items.is_some(),
        "Vec should also match as array completions"
    );
}

#[test]
fn test_type_member_completions_map() {
    let items = type_member_completions("Map<string, i32>");
    assert!(items.is_some(), "Map should have member completions");
    let items = items.unwrap_or_default();
    let labels: Vec<&str> = items.iter().map(|i| i.label.as_str()).collect();
    assert!(labels.contains(&"get"));
    assert!(labels.contains(&"set"));
    assert!(labels.contains(&"has"));
    assert!(labels.contains(&"delete"));
    assert!(labels.contains(&"keys"));
    assert!(labels.contains(&"values"));
}

#[test]
fn test_type_member_completions_set() {
    let items = type_member_completions("Set<string>");
    assert!(items.is_some(), "Set should have member completions");
    let items = items.unwrap_or_default();
    let labels: Vec<&str> = items.iter().map(|i| i.label.as_str()).collect();
    assert!(labels.contains(&"add"));
    assert!(labels.contains(&"has"));
    assert!(labels.contains(&"delete"));
    assert!(labels.contains(&"clear"));
}

#[test]
fn test_type_member_completions_unknown_returns_none() {
    assert!(type_member_completions("CustomType").is_none());
}

#[test]
fn test_struct_member_completions_from_cache() {
    let mut cache = CachedCompileInfo::new();
    cache.insert_variable_type("user".to_owned(), "User".to_owned());
    cache.insert_variable_type("User".to_owned(),
        "type User = { name: string, age: i64 }".to_owned(),);

    let items = struct_member_completions("user", &cache);
    assert!(items.is_some(), "should return struct field completions");
    let items = items.unwrap_or_default();
    let labels: Vec<&str> = items.iter().map(|i| i.label.as_str()).collect();
    assert!(labels.contains(&"name"), "should contain field 'name'");
    assert!(labels.contains(&"age"), "should contain field 'age'");
}

// -----------------------------------------------------------------------
// Signature help
// -----------------------------------------------------------------------

#[test]
fn test_signature_help_for_known_function() {
    let mut cache = CachedCompileInfo::new();
    cache.insert_function_signature("greet".to_owned(),
        "function greet(name: string, count: i32): void".to_owned(),);

    let help = signature_help_for_function("greet", 0, &cache);
    assert!(help.is_some(), "should return signature help");
    let help = help.unwrap();
    assert_eq!(help.signatures.len(), 1);
    assert_eq!(help.active_parameter, Some(0));

    let sig = &help.signatures[0];
    assert!(sig.label.contains("greet"));
    assert!(sig.parameters.is_some());
    let empty = Vec::new();
    let params = sig.parameters.as_ref().unwrap_or(&empty);
    assert_eq!(params.len(), 2);
}

#[test]
fn test_signature_help_for_unknown_function() {
    let cache = CachedCompileInfo::new();
    assert!(signature_help_for_function("unknown", 0, &cache).is_none());
}

#[test]
fn test_signature_help_active_param() {
    let mut cache = CachedCompileInfo::new();
    cache.insert_function_signature("add".to_owned(),
        "function add(a: i32, b: i32): i32".to_owned(),);

    let help = signature_help_for_function("add", 1, &cache);
    assert!(help.is_some());
    assert_eq!(help.unwrap().active_parameter, Some(1));
}

#[test]
fn test_signature_help_no_params() {
    let mut cache = CachedCompileInfo::new();
    cache.insert_function_signature("init".to_owned(), "function init(): void".to_owned());

    let help = signature_help_for_function("init", 0, &cache);
    assert!(help.is_some());
    let help = help.unwrap();
    let sig = &help.signatures[0];
    let empty = Vec::new();
    let params = sig.parameters.as_ref().unwrap_or(&empty);
    assert!(
        params.is_empty(),
        "zero-param function should have no parameters"
    );
}

// -----------------------------------------------------------------------
// Import completions
// -----------------------------------------------------------------------

#[test]
fn test_import_completions_from_rustdoc_cache() {
    let mut crate_data = RustdocCrate::new();

    let item = RustdocItem {
        id: "0:1".to_owned(),
        name: "Router".to_owned(),
        docs: Some("An HTTP router.".to_owned()),
        kind: RustdocItemKind::Struct(RustdocStruct {
            generics: vec![],
            fields: vec![],
            is_tuple: false,
            method_ids: vec![],
        }),
    };

    crate_data.add_name("Router".to_owned(), "0:1".to_owned());
    crate_data.insert_item("0:1".to_owned(), item);

    let func_item = RustdocItem {
        id: "0:2".to_owned(),
        name: "get".to_owned(),
        docs: Some("Create a GET route.".to_owned()),
        kind: RustdocItemKind::Function(RustdocFunction {
            generics: vec![],
            params: vec![],
            return_type: None,
            is_async: false,
            is_unsafe: false,
            has_self: false,
            parent_type: None,
        }),
    };

    crate_data.add_name("get".to_owned(), "0:2".to_owned());
    crate_data.insert_item("0:2".to_owned(), func_item);

    let mut rustdoc = RustdocCache::new();
    rustdoc.insert("axum".to_owned(), crate_data);

    let items = import_completions("axum", &rustdoc);
    assert!(items.is_some(), "should return import completions");
    let items = items.unwrap_or_default();
    let labels: Vec<&str> = items.iter().map(|i| i.label.as_str()).collect();
    assert!(labels.contains(&"Router"));
    assert!(labels.contains(&"get"));
}

#[test]
fn test_import_completions_unknown_crate_returns_none() {
    let rustdoc = RustdocCache::new();
    assert!(import_completions("nonexistent", &rustdoc).is_none());
}

// -----------------------------------------------------------------------
// Resolve completions (integration)
// -----------------------------------------------------------------------

#[test]
fn test_resolve_completions_keyword_context() {
    let source = "fu";
    let ctx = CompletionContext {
        source,
        line: 0,
        character: 2,
        cache: None,
        rustdoc: None,
    };

    let result = resolve_completions(&ctx);
    assert!(result.is_some(), "should return keyword completions");
    if let Some(CompletionResponse::Array(items)) = result {
        assert!(!items.is_empty());
        // Keywords should be in the list.
        let labels: Vec<&str> = items.iter().map(|i| i.label.as_str()).collect();
        assert!(labels.contains(&"function"));
    }
}

#[test]
fn test_resolve_completions_dot_builtin() {
    let source = "Math.";
    let ctx = CompletionContext {
        source,
        line: 0,
        character: 5,
        cache: None,
        rustdoc: None,
    };

    let result = resolve_completions(&ctx);
    assert!(result.is_some(), "should return Math member completions");
    if let Some(CompletionResponse::Array(items)) = result {
        let labels: Vec<&str> = items.iter().map(|i| i.label.as_str()).collect();
        assert!(labels.contains(&"floor"));
        assert!(labels.contains(&"PI"));
    }
}

#[test]
fn test_resolve_completions_dot_type_aware() {
    let mut cache = CachedCompileInfo::new();
    cache.insert_variable_type("name".to_owned(), "string".to_owned());

    let source = "name.";
    let ctx = CompletionContext {
        source,
        line: 0,
        character: 5,
        cache: Some(&cache),
        rustdoc: None,
    };

    let result = resolve_completions(&ctx);
    assert!(result.is_some(), "should return string member completions");
    if let Some(CompletionResponse::Array(items)) = result {
        let labels: Vec<&str> = items.iter().map(|i| i.label.as_str()).collect();
        assert!(labels.contains(&"toUpperCase"));
        assert!(labels.contains(&"trim"));
    }
}

// -----------------------------------------------------------------------
// Signature help resolution
// -----------------------------------------------------------------------

#[test]
fn test_resolve_signature_help_basic() {
    let mut cache = CachedCompileInfo::new();
    cache.insert_function_signature("greet".to_owned(),
        "function greet(name: string): void".to_owned(),);

    let source = "greet(";
    let ctx = SignatureHelpContext {
        source,
        line: 0,
        character: 6,
        cache: Some(&cache),
    };

    let result = resolve_signature_help(&ctx);
    assert!(result.is_some(), "should return signature help");
    let help = result.unwrap();
    assert_eq!(help.signatures.len(), 1);
    assert!(help.signatures[0].label.contains("greet"));
}

#[test]
fn test_resolve_signature_help_active_param_from_commas() {
    let mut cache = CachedCompileInfo::new();
    cache.insert_function_signature("add".to_owned(),
        "function add(a: i32, b: i32): i32".to_owned(),);

    let source = "add(1, ";
    let ctx = SignatureHelpContext {
        source,
        line: 0,
        character: 7,
        cache: Some(&cache),
    };

    let result = resolve_signature_help(&ctx);
    assert!(result.is_some());
    assert_eq!(
        result.unwrap().active_parameter,
        Some(1),
        "second param should be active after one comma"
    );
}

#[test]
fn test_resolve_signature_help_no_cache_returns_none() {
    let source = "foo(";
    let ctx = SignatureHelpContext {
        source,
        line: 0,
        character: 4,
        cache: None,
    };

    assert!(resolve_signature_help(&ctx).is_none());
}

// -----------------------------------------------------------------------
// Helper: extract_last_identifier
// -----------------------------------------------------------------------

#[test]
fn test_extract_last_identifier_simple() {
    assert_eq!(extract_last_identifier("someVar"), "someVar");
}

#[test]
fn test_extract_last_identifier_with_whitespace() {
    assert_eq!(extract_last_identifier("  foo  "), "foo");
}

#[test]
fn test_extract_last_identifier_empty() {
    assert_eq!(extract_last_identifier(""), "");
}

#[test]
fn test_extract_last_identifier_after_equals() {
    assert_eq!(extract_last_identifier("const x = myVar"), "myVar");
}
