//! Hover texts of builtin identifiers, methods and keywords.

use rsc_lsp::builtin_hover::{classify_receiver, lookup_identifier, lookup_keyword, lookup_method};

#[test]
fn test_builtin_hover_console_identifier() {
    let hover = lookup_identifier("console");
    assert!(hover.is_some(), "console should have hover info");
    assert!(
        hover.unwrap().contains("console"),
        "should describe console"
    );
}

#[test]
fn test_builtin_hover_null_identifier() {
    let hover = lookup_identifier("null");
    assert!(hover.is_some(), "null should have hover info");
    assert!(hover.unwrap().contains("None"), "should mention Rust None");
}

#[test]
fn test_builtin_hover_true_literal() {
    let hover = lookup_identifier("true");
    assert!(hover.is_some());
    assert!(hover.unwrap().contains("boolean"));
}

#[test]
fn test_builtin_hover_false_literal() {
    let hover = lookup_identifier("false");
    assert!(hover.is_some());
    assert!(hover.unwrap().contains("boolean"));
}

#[test]
fn test_builtin_hover_console_log_method() {
    let hover = lookup_method("console", "log");
    assert!(hover.is_some(), "console.log should have hover info");
    let text = hover.unwrap();
    assert!(text.contains("println!"), "should mention println!: {text}");
}

#[test]
fn test_builtin_hover_string_to_upper_case() {
    let hover = lookup_method("string", "toUpperCase");
    assert!(hover.is_some());
    assert!(hover.unwrap().contains("to_uppercase"));
}

#[test]
fn test_builtin_hover_array_map() {
    let hover = lookup_method("array", "map");
    assert!(hover.is_some());
    let text = hover.unwrap();
    assert!(text.contains(".iter().map"), "should show Rust equivalent");
}

#[test]
fn test_builtin_hover_array_filter() {
    let hover = lookup_method("array", "filter");
    assert!(hover.is_some());
    assert!(hover.unwrap().contains(".filter"));
}

#[test]
fn test_builtin_hover_keyword_async() {
    let hover = lookup_keyword("async");
    assert!(hover.is_some());
    assert!(hover.unwrap().contains("async fn"));
}

#[test]
fn test_builtin_hover_keyword_await() {
    let hover = lookup_keyword("await");
    assert!(hover.is_some());
    assert!(hover.unwrap().contains(".await"));
}

#[test]
fn test_builtin_hover_keyword_throws() {
    let hover = lookup_keyword("throws");
    assert!(hover.is_some());
    assert!(hover.unwrap().contains("Result"));
}

#[test]
fn test_builtin_hover_keyword_shared() {
    let hover = lookup_keyword("shared");
    assert!(hover.is_some());
    assert!(hover.unwrap().contains("Arc<Mutex<T>>"));
}

#[test]
fn test_builtin_hover_keyword_const() {
    let hover = lookup_keyword("const");
    assert!(hover.is_some());
    assert!(hover.unwrap().contains("let"));
}

#[test]
fn test_builtin_hover_keyword_let() {
    let hover = lookup_keyword("let");
    assert!(hover.is_some());
    assert!(hover.unwrap().contains("let mut"));
}

#[test]
fn test_builtin_hover_unknown_identifier_returns_none() {
    assert!(lookup_identifier("foobar").is_none());
}

#[test]
fn test_builtin_hover_unknown_method_returns_none() {
    assert!(lookup_method("console", "foobar").is_none());
}

#[test]
fn test_builtin_hover_classify_receiver_console() {
    assert_eq!(classify_receiver("console"), Some("console"));
}

#[test]
fn test_builtin_hover_classify_receiver_unknown() {
    assert!(classify_receiver("myVar").is_none());
}

#[test]
fn test_builtin_hover_spawn() {
    let hover = lookup_method("spawn", "spawn");
    // spawn is in BUILTIN_METHODS as just "spawn", not a method
    // Check identifier instead:
    assert!(lookup_identifier("spawn").is_none());
    // It's actually in the BUILTIN_METHODS map — but we'd look it up differently.
    // The spawn function is a top-level call, not a method. Let's verify:
    assert!(hover.is_none());
}

#[test]
fn test_builtin_hover_this_identifier() {
    let hover = lookup_identifier("this");
    assert!(hover.is_some(), "this should have hover info");
    assert!(hover.unwrap().contains("self"));
}
