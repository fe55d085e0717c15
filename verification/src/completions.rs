//! Completion and signature help logic.
//!
//! Keyword completions with snippets, builtin object member completions
//! (`Math.`, `console.`), type-aware member completions for variables whose
//! types are known from the compile cache, import completions from the
//! rustdoc cache, and signature help for function calls.

use vstd::prelude::*;

use crate::text::{
    byte_len, byte_prefix, chars_lt, chars_of, chars_within_bytes, eq_str, find, find_char,
    find_chars, find_str, find_sub, has_prefix, has_suffix, label_lt, last_ident_range,
    last_identifier, lemma_chars_within, lemma_label_lt_total, lemma_label_lt_trans, line_at,
    lines_of, on_boundary, push_all, push_str, rfind, rfind_char, slice_of, split_sep, split_str,
    starts_with_chars, starts_with_str, string_of, trim, trim_chars, views
};
use vstd::string::StrSliceExecFns;

use crate::assoc::{insert_keyed, insert_pair, key_position, keyed, keys_unique, lookup};
use crate::rustdoc::{RustdocCache, RustdocCrate, RustdocItemKind};

verus! {

// ---------------------------------------------------------------------------
// Completion items
// ---------------------------------------------------------------------------

/// The kind of a completion item.
#[derive(Debug, Clone, Copy, PartialEq, Eq)]
pub enum CompletionItemKind {
    Keyword,
    Method,
    Property,
    Constant,
    Field,
    Function,
    Struct,
    Interface,
    Enum,
}

/// How the insert text of a completion item is interpreted.
#[derive(Debug, Clone, Copy, PartialEq, Eq)]
pub enum InsertTextFormat {
    /// Plain text.
    PlainText,
    /// A snippet with `${n:placeholder}` tab stops.
    Snippet,
}

/// A completion suggestion.
#[derive(Debug)]
pub struct CompletionItem {
    /// The label shown in the completion list.
    pub label: String,
    /// The kind of item.
    pub kind: Option<CompletionItemKind>,
    /// Brief detail shown beside the label.
    pub detail: Option<String>,
    /// Markdown documentation.
    pub documentation: Option<String>,
    /// Text inserted on accept, when it differs from the label.
    pub insert_text: Option<String>,
    /// How `insert_text` is interpreted.
    pub insert_text_format: Option<InsertTextFormat>,
}

/// The contents of a completion item.
pub struct ItemView {
    pub label: Seq<char>,
    pub kind: Option<CompletionItemKind>,
    pub detail: Option<Seq<char>>,
    pub documentation: Option<Seq<char>>,
    pub insert_text: Option<Seq<char>>,
    pub insert_text_format: Option<InsertTextFormat>,
}

/// The view of an optional string.
pub open spec fn opt_view(o: Option<String>) -> Option<Seq<char>> {
    match o {
        Some(s) => Some(s@),
        None => None,
    }
}

impl View for CompletionItem {
    type V = ItemView;

    open spec fn view(&self) -> ItemView {
        ItemView {
            label: self.label@,
            kind: self.kind,
            detail: opt_view(self.detail),
            documentation: opt_view(self.documentation),
            insert_text: opt_view(self.insert_text),
            insert_text_format: self.insert_text_format,
        }
    }
}

/// The views of a list of completion items.
pub open spec fn item_views(v: Seq<CompletionItem>) -> Seq<ItemView> {
    v.map_values(|i: CompletionItem| i@)
}

/// A keyword item with a snippet.
pub open spec fn keyword_item(label: Seq<char>, snippet: Seq<char>, detail: Seq<char>) -> ItemView {
    ItemView {
        label,
        kind: Some(CompletionItemKind::Keyword),
        detail: Some(detail),
        documentation: None,
        insert_text: Some(snippet),
        insert_text_format: Some(InsertTextFormat::Snippet),
    }
}

/// A builtin member item with its signature and markdown documentation.
pub open spec fn member_item(
    label: Seq<char>,
    detail: Seq<char>,
    doc: Seq<char>,
    kind: CompletionItemKind,
) -> ItemView {
    ItemView {
        label,
        kind: Some(kind),
        detail: Some(detail),
        documentation: Some(doc),
        insert_text: None,
        insert_text_format: None,
    }
}

/// An item with a label, a kind and a detail only.
pub open spec fn plain_item(label: Seq<char>, kind: CompletionItemKind, detail: Option<Seq<char>>) -> ItemView {
    ItemView {
        label,
        kind: Some(kind),
        detail,
        documentation: None,
        insert_text: None,
        insert_text_format: None,
    }
}

fn keyword(label: &str, snippet: &str, detail: &str) -> (r: CompletionItem)
    ensures
        r@ == keyword_item(label@, snippet@, detail@),
{
    CompletionItem {
        label: label.to_owned(),
        kind: Some(CompletionItemKind::Keyword),
        detail: Some(detail.to_owned()),
        documentation: None,
        insert_text: Some(snippet.to_owned()),
        insert_text_format: Some(InsertTextFormat::Snippet),
    }
}

fn member(label: &str, detail: &str, doc: &str, kind: CompletionItemKind) -> (r: CompletionItem)
    ensures
        r@ == member_item(label@, detail@, doc@, kind),
{
    CompletionItem {
        label: label.to_owned(),
        kind: Some(kind),
        detail: Some(detail.to_owned()),
        documentation: Some(doc.to_owned()),
        insert_text: None,
        insert_text_format: None,
    }
}

fn push_item(v: &mut Vec<CompletionItem>, item: CompletionItem)
    ensures
        item_views(final(v)@) == item_views(old(v)@).push(item@),
{
    let ghost before = item_views(v@);
    v.push(item);
    assert(item_views(v@) =~= before.push(item@));
}

/// All keyword snippet templates, in order.
pub open spec fn keyword_items() -> Seq<ItemView> {
    seq![
        keyword_item("function"@, "function ${1:name}(${2:params}): ${3:void} {\n\t$0\n}"@, "Function declaration"@),
        keyword_item("const"@, "const ${1:name} = $0;"@, "Immutable variable"@),
        keyword_item("let"@, "let ${1:name} = $0;"@, "Mutable variable"@),
        keyword_item("if"@, "if (${1:condition}) {\n\t$0\n}"@, "If statement"@),
        keyword_item("else"@, "else {\n\t$0\n}"@, "Else clause"@),
        keyword_item("while"@, "while (${1:condition}) {\n\t$0\n}"@, "While loop"@),
        keyword_item("for"@, "for (const ${1:item} of ${2:items}) {\n\t$0\n}"@, "For-of loop"@),
        keyword_item("class"@, "class ${1:Name} {\n\tconstructor(${2:params}) {\n\t\t$0\n\t}\n}"@, "Class declaration"@),
        keyword_item("interface"@, "interface ${1:Name} {\n\t$0\n}"@, "Interface declaration"@),
        keyword_item("type"@, "type ${1:Name} = {\n\t$0\n}"@, "Type alias"@),
        keyword_item("import"@, "import { $1 } from \"${2:module}\";"@, "Import declaration"@),
        keyword_item("export"@, "export $0"@, "Export declaration"@),
        keyword_item("async"@, "async function ${1:name}(${2:params}) {\n\t$0\n}"@, "Async function declaration"@),
        keyword_item("try"@, "try {\n\t$0\n} catch (${1:err}: ${2:string}) {\n\t\n}"@, "Try-catch block"@),
        keyword_item("switch"@, "switch (${1:expr}) {\n\tcase \"${2:value}\":\n\t\t$0\n}"@, "Switch statement"@),
        keyword_item("test"@, "test(\"${1:description}\", () => {\n\t$0\n});"@, "Test case"@),
        keyword_item("describe"@, "describe(\"${1:suite}\", () => {\n\t$0\n});"@, "Test suite"@),
        keyword_item("return"@, "return $0;"@, "Return statement"@),
        keyword_item("throw"@, "throw $0;"@, "Throw expression"@),
    ]
}

/// Build the full list of keyword completion items.
pub fn keyword_completions() -> (r: Vec<CompletionItem>)
    ensures
        item_views(r@) == keyword_items(),
{
    let mut v: Vec<CompletionItem> = Vec::new();
    push_item(&mut v, keyword("function", "function ${1:name}(${2:params}): ${3:void} {\n\t$0\n}", "Function declaration"));
    push_item(&mut v, keyword("const", "const ${1:name} = $0;", "Immutable variable"));
    push_item(&mut v, keyword("let", "let ${1:name} = $0;", "Mutable variable"));
    push_item(&mut v, keyword("if", "if (${1:condition}) {\n\t$0\n}", "If statement"));
    push_item(&mut v, keyword("else", "else {\n\t$0\n}", "Else clause"));
    push_item(&mut v, keyword("while", "while (${1:condition}) {\n\t$0\n}", "While loop"));
    push_item(&mut v, keyword("for", "for (const ${1:item} of ${2:items}) {\n\t$0\n}", "For-of loop"));
    push_item(&mut v, keyword("class", "class ${1:Name} {\n\tconstructor(${2:params}) {\n\t\t$0\n\t}\n}", "Class declaration"));
    push_item(&mut v, keyword("interface", "interface ${1:Name} {\n\t$0\n}", "Interface declaration"));
    push_item(&mut v, keyword("type", "type ${1:Name} = {\n\t$0\n}", "Type alias"));
    push_item(&mut v, keyword("import", "import { $1 } from \"${2:module}\";", "Import declaration"));
    push_item(&mut v, keyword("export", "export $0", "Export declaration"));
    push_item(&mut v, keyword("async", "async function ${1:name}(${2:params}) {\n\t$0\n}", "Async function declaration"));
    push_item(&mut v, keyword("try", "try {\n\t$0\n} catch (${1:err}: ${2:string}) {\n\t\n}", "Try-catch block"));
    push_item(&mut v, keyword("switch", "switch (${1:expr}) {\n\tcase \"${2:value}\":\n\t\t$0\n}", "Switch statement"));
    push_item(&mut v, keyword("test", "test(\"${1:description}\", () => {\n\t$0\n});", "Test case"));
    push_item(&mut v, keyword("describe", "describe(\"${1:suite}\", () => {\n\t$0\n});", "Test suite"));
    push_item(&mut v, keyword("return", "return $0;", "Return statement"));
    push_item(&mut v, keyword("throw", "throw $0;", "Throw expression"));
    assert(item_views(v@) =~= keyword_items());
    v
}

/// The members of `Math`, in order.
pub open spec fn math_members() -> Seq<ItemView> {
    seq![
        member_item("floor"@, "(x: number): number"@, "Rounds down to the nearest integer."@, CompletionItemKind::Method),
        member_item("ceil"@, "(x: number): number"@, "Rounds up to the nearest integer."@, CompletionItemKind::Method),
        member_item("round"@, "(x: number): number"@, "Rounds to the nearest integer."@, CompletionItemKind::Method),
        member_item("abs"@, "(x: number): number"@, "Returns the absolute value."@, CompletionItemKind::Method),
        member_item("sqrt"@, "(x: number): number"@, "Returns the square root."@, CompletionItemKind::Method),
        member_item("min"@, "(a: number, b: number): number"@, "Returns the smaller of two values."@, CompletionItemKind::Method),
        member_item("max"@, "(a: number, b: number): number"@, "Returns the larger of two values."@, CompletionItemKind::Method),
        member_item("random"@, "(): number"@, "Returns a random f64 in [0, 1)."@, CompletionItemKind::Method),
        member_item("sin"@, "(x: number): number"@, "Returns the sine."@, CompletionItemKind::Method),
        member_item("cos"@, "(x: number): number"@, "Returns the cosine."@, CompletionItemKind::Method),
        member_item("tan"@, "(x: number): number"@, "Returns the tangent."@, CompletionItemKind::Method),
        member_item("log"@, "(x: number): number"@, "Returns the natural logarithm."@, CompletionItemKind::Method),
        member_item("pow"@, "(base: number, exp: number): number"@, "Returns base raised to the power of exp."@, CompletionItemKind::Method),
        member_item("PI"@, "number"@, "The ratio of a circle's circumference to its diameter (~3.14159)."@, CompletionItemKind::Constant),
        member_item("E"@, "number"@, "Euler's number (~2.71828)."@, CompletionItemKind::Constant),
    ]
}

fn math_members_items() -> (r: Vec<CompletionItem>)
    ensures
        item_views(r@) == math_members(),
{
    let mut v: Vec<CompletionItem> = Vec::new();
    push_item(&mut v, member("floor", "(x: number): number", "Rounds down to the nearest integer.", CompletionItemKind::Method));
    push_item(&mut v, member("ceil", "(x: number): number", "Rounds up to the nearest integer.", CompletionItemKind::Method));
    push_item(&mut v, member("round", "(x: number): number", "Rounds to the nearest integer.", CompletionItemKind::Method));
    push_item(&mut v, member("abs", "(x: number): number", "Returns the absolute value.", CompletionItemKind::Method));
    push_item(&mut v, member("sqrt", "(x: number): number", "Returns the square root.", CompletionItemKind::Method));
    push_item(&mut v, member("min", "(a: number, b: number): number", "Returns the smaller of two values.", CompletionItemKind::Method));
    push_item(&mut v, member("max", "(a: number, b: number): number", "Returns the larger of two values.", CompletionItemKind::Method));
    push_item(&mut v, member("random", "(): number", "Returns a random f64 in [0, 1).", CompletionItemKind::Method));
    push_item(&mut v, member("sin", "(x: number): number", "Returns the sine.", CompletionItemKind::Method));
    push_item(&mut v, member("cos", "(x: number): number", "Returns the cosine.", CompletionItemKind::Method));
    push_item(&mut v, member("tan", "(x: number): number", "Returns the tangent.", CompletionItemKind::Method));
    push_item(&mut v, member("log", "(x: number): number", "Returns the natural logarithm.", CompletionItemKind::Method));
    push_item(&mut v, member("pow", "(base: number, exp: number): number", "Returns base raised to the power of exp.", CompletionItemKind::Method));
    push_item(&mut v, member("PI", "number", "The ratio of a circle's circumference to its diameter (~3.14159).", CompletionItemKind::Constant));
    push_item(&mut v, member("E", "number", "Euler's number (~2.71828).", CompletionItemKind::Constant));
    assert(item_views(v@) =~= math_members());
    v
}

/// The members of `console`, in order.
pub open spec fn console_members() -> Seq<ItemView> {
    seq![
        member_item("log"@, "(...args): void"@, "Prints arguments to stdout."@, CompletionItemKind::Method),
        member_item("error"@, "(...args): void"@, "Prints arguments to stderr."@, CompletionItemKind::Method),
        member_item("warn"@, "(...args): void"@, "Prints a warning to stderr."@, CompletionItemKind::Method),
        member_item("debug"@, "(...args): void"@, "Prints debug output to stderr."@, CompletionItemKind::Method),
    ]
}

fn console_members_items() -> (r: Vec<CompletionItem>)
    ensures
        item_views(r@) == console_members(),
{
    let mut v: Vec<CompletionItem> = Vec::new();
    push_item(&mut v, member("log", "(...args): void", "Prints arguments to stdout.", CompletionItemKind::Method));
    push_item(&mut v, member("error", "(...args): void", "Prints arguments to stderr.", CompletionItemKind::Method));
    push_item(&mut v, member("warn", "(...args): void", "Prints a warning to stderr.", CompletionItemKind::Method));
    push_item(&mut v, member("debug", "(...args): void", "Prints debug output to stderr.", CompletionItemKind::Method));
    assert(item_views(v@) =~= console_members());
    v
}

/// The members of `JSON`, in order.
pub open spec fn json_members() -> Seq<ItemView> {
    seq![
        member_item("parse"@, "(str: string): any"@, "Deserializes a JSON string to a value."@, CompletionItemKind::Method),
        member_item("stringify"@, "(obj: any): string"@, "Serializes a value to a JSON string."@, CompletionItemKind::Method),
    ]
}

fn json_members_items() -> (r: Vec<CompletionItem>)
    ensures
        item_views(r@) == json_members(),
{
    let mut v: Vec<CompletionItem> = Vec::new();
    push_item(&mut v, member("parse", "(str: string): any", "Deserializes a JSON string to a value.", CompletionItemKind::Method));
    push_item(&mut v, member("stringify", "(obj: any): string", "Serializes a value to a JSON string.", CompletionItemKind::Method));
    assert(item_views(v@) =~= json_members());
    v
}

/// The members of `Number`, in order.
pub open spec fn number_members() -> Seq<ItemView> {
    seq![
        member_item("parseInt"@, "(str: string): number"@, "Parses a string as an integer."@, CompletionItemKind::Method),
        member_item("parseFloat"@, "(str: string): number"@, "Parses a string as a float."@, CompletionItemKind::Method),
        member_item("isNaN"@, "(x: number): boolean"@, "Checks if the value is NaN."@, CompletionItemKind::Method),
        member_item("isFinite"@, "(x: number): boolean"@, "Checks if the value is finite."@, CompletionItemKind::Method),
        member_item("isInteger"@, "(x: number): boolean"@, "Checks if the value is an integer."@, CompletionItemKind::Method),
    ]
}

fn number_members_items() -> (r: Vec<CompletionItem>)
    ensures
        item_views(r@) == number_members(),
{
    let mut v: Vec<CompletionItem> = Vec::new();
    push_item(&mut v, member("parseInt", "(str: string): number", "Parses a string as an integer.", CompletionItemKind::Method));
    push_item(&mut v, member("parseFloat", "(str: string): number", "Parses a string as a float.", CompletionItemKind::Method));
    push_item(&mut v, member("isNaN", "(x: number): boolean", "Checks if the value is NaN.", CompletionItemKind::Method));
    push_item(&mut v, member("isFinite", "(x: number): boolean", "Checks if the value is finite.", CompletionItemKind::Method));
    push_item(&mut v, member("isInteger", "(x: number): boolean", "Checks if the value is an integer.", CompletionItemKind::Method));
    assert(item_views(v@) =~= number_members());
    v
}

/// The members of `Object`, in order.
pub open spec fn object_members() -> Seq<ItemView> {
    seq![
        member_item("keys"@, "(map: Map<K, V>): Array<K>"@, "Returns the keys of a map as an array."@, CompletionItemKind::Method),
        member_item("values"@, "(map: Map<K, V>): Array<V>"@, "Returns the values of a map as an array."@, CompletionItemKind::Method),
        member_item("entries"@, "(map: Map<K, V>): Array<[K, V]>"@, "Returns the entries of a map as key-value pairs."@, CompletionItemKind::Method),
    ]
}

fn object_members_items() -> (r: Vec<CompletionItem>)
    ensures
        item_views(r@) == object_members(),
{
    let mut v: Vec<CompletionItem> = Vec::new();
    push_item(&mut v, member("keys", "(map: Map<K, V>): Array<K>", "Returns the keys of a map as an array.", CompletionItemKind::Method));
    push_item(&mut v, member("values", "(map: Map<K, V>): Array<V>", "Returns the values of a map as an array.", CompletionItemKind::Method));
    push_item(&mut v, member("entries", "(map: Map<K, V>): Array<[K, V]>", "Returns the entries of a map as key-value pairs.", CompletionItemKind::Method));
    assert(item_views(v@) =~= object_members());
    v
}

/// The members offered on strings, in order.
pub open spec fn string_members() -> Seq<ItemView> {
    seq![
        member_item("toUpperCase"@, "(): string"@, "Converts the string to uppercase."@, CompletionItemKind::Method),
        member_item("toLowerCase"@, "(): string"@, "Converts the string to lowercase."@, CompletionItemKind::Method),
        member_item("trim"@, "(): string"@, "Removes leading and trailing whitespace."@, CompletionItemKind::Method),
        member_item("trimStart"@, "(): string"@, "Removes leading whitespace."@, CompletionItemKind::Method),
        member_item("trimEnd"@, "(): string"@, "Removes trailing whitespace."@, CompletionItemKind::Method),
        member_item("startsWith"@, "(prefix: string): boolean"@, "Checks if the string starts with the given prefix."@, CompletionItemKind::Method),
        member_item("endsWith"@, "(suffix: string): boolean"@, "Checks if the string ends with the given suffix."@, CompletionItemKind::Method),
        member_item("includes"@, "(search: string): boolean"@, "Checks if the string contains the given substring."@, CompletionItemKind::Method),
        member_item("split"@, "(separator: string): Array<string>"@, "Splits the string by the separator."@, CompletionItemKind::Method),
        member_item("replace"@, "(search: string, replacement: string): string"@, "Replaces the first occurrence of a substring."@, CompletionItemKind::Method),
        member_item("replaceAll"@, "(search: string, replacement: string): string"@, "Replaces all occurrences of a substring."@, CompletionItemKind::Method),
        member_item("charAt"@, "(index: i32): string"@, "Returns the character at the given index."@, CompletionItemKind::Method),
        member_item("indexOf"@, "(search: string): i32"@, "Returns the index of the first occurrence, or -1."@, CompletionItemKind::Method),
        member_item("lastIndexOf"@, "(search: string): i32"@, "Returns the index of the last occurrence, or -1."@, CompletionItemKind::Method),
        member_item("slice"@, "(start: i32, end?: i32): string"@, "Extracts a section of the string."@, CompletionItemKind::Method),
        member_item("substring"@, "(start: i32, end?: i32): string"@, "Extracts characters between two indices."@, CompletionItemKind::Method),
        member_item("repeat"@, "(count: i32): string"@, "Repeats the string the given number of times."@, CompletionItemKind::Method),
        member_item("padStart"@, "(length: i32, fill?: string): string"@, "Pads the string from the start."@, CompletionItemKind::Method),
        member_item("padEnd"@, "(length: i32, fill?: string): string"@, "Pads the string from the end."@, CompletionItemKind::Method),
        member_item("concat"@, "(other: string): string"@, "Concatenates two strings."@, CompletionItemKind::Method),
        member_item("length"@, "number"@, "The number of characters in the string."@, CompletionItemKind::Property),
    ]
}

fn string_members_items() -> (r: Vec<CompletionItem>)
    ensures
        item_views(r@) == string_members(),
{
    let mut v: Vec<CompletionItem> = Vec::new();
    push_item(&mut v, member("toUpperCase", "(): string", "Converts the string to uppercase.", CompletionItemKind::Method));
    push_item(&mut v, member("toLowerCase", "(): string", "Converts the string to lowercase.", CompletionItemKind::Method));
    push_item(&mut v, member("trim", "(): string", "Removes leading and trailing whitespace.", CompletionItemKind::Method));
    push_item(&mut v, member("trimStart", "(): string", "Removes leading whitespace.", CompletionItemKind::Method));
    push_item(&mut v, member("trimEnd", "(): string", "Removes trailing whitespace.", CompletionItemKind::Method));
    push_item(&mut v, member("startsWith", "(prefix: string): boolean", "Checks if the string starts with the given prefix.", CompletionItemKind::Method));
    push_item(&mut v, member("endsWith", "(suffix: string): boolean", "Checks if the string ends with the given suffix.", CompletionItemKind::Method));
    push_item(&mut v, member("includes", "(search: string): boolean", "Checks if the string contains the given substring.", CompletionItemKind::Method));
    push_item(&mut v, member("split", "(separator: string): Array<string>", "Splits the string by the separator.", CompletionItemKind::Method));
    push_item(&mut v, member("replace", "(search: string, replacement: string): string", "Replaces the first occurrence of a substring.", CompletionItemKind::Method));
    push_item(&mut v, member("replaceAll", "(search: string, replacement: string): string", "Replaces all occurrences of a substring.", CompletionItemKind::Method));
    push_item(&mut v, member("charAt", "(index: i32): string", "Returns the character at the given index.", CompletionItemKind::Method));
    push_item(&mut v, member("indexOf", "(search: string): i32", "Returns the index of the first occurrence, or -1.", CompletionItemKind::Method));
    push_item(&mut v, member("lastIndexOf", "(search: string): i32", "Returns the index of the last occurrence, or -1.", CompletionItemKind::Method));
    push_item(&mut v, member("slice", "(start: i32, end?: i32): string", "Extracts a section of the string.", CompletionItemKind::Method));
    push_item(&mut v, member("substring", "(start: i32, end?: i32): string", "Extracts characters between two indices.", CompletionItemKind::Method));
    push_item(&mut v, member("repeat", "(count: i32): string", "Repeats the string the given number of times.", CompletionItemKind::Method));
    push_item(&mut v, member("padStart", "(length: i32, fill?: string): string", "Pads the string from the start.", CompletionItemKind::Method));
    push_item(&mut v, member("padEnd", "(length: i32, fill?: string): string", "Pads the string from the end.", CompletionItemKind::Method));
    push_item(&mut v, member("concat", "(other: string): string", "Concatenates two strings.", CompletionItemKind::Method));
    push_item(&mut v, member("length", "number", "The number of characters in the string.", CompletionItemKind::Property));
    assert(item_views(v@) =~= string_members());
    v
}

/// The members offered on arrays, in order.
pub open spec fn array_members() -> Seq<ItemView> {
    seq![
        member_item("map"@, "(fn: (T) => U): Array<U>"@, "Transforms each element using the given function."@, CompletionItemKind::Method),
        member_item("filter"@, "(fn: (T) => boolean): Array<T>"@, "Keeps elements where the predicate returns true."@, CompletionItemKind::Method),
        member_item("reduce"@, "(fn: (acc: U, item: T) => U, initial: U): U"@, "Reduces the array to a single value."@, CompletionItemKind::Method),
        member_item("forEach"@, "(fn: (T) => void): void"@, "Executes a function for each element."@, CompletionItemKind::Method),
        member_item("find"@, "(fn: (T) => boolean): T | null"@, "Returns the first element matching the predicate."@, CompletionItemKind::Method),
        member_item("findIndex"@, "(fn: (T) => boolean): i32"@, "Returns the index of the first matching element, or -1."@, CompletionItemKind::Method),
        member_item("some"@, "(fn: (T) => boolean): boolean"@, "Returns true if any element matches."@, CompletionItemKind::Method),
        member_item("every"@, "(fn: (T) => boolean): boolean"@, "Returns true if all elements match."@, CompletionItemKind::Method),
        member_item("push"@, "(value: T): void"@, "Appends an element to the end."@, CompletionItemKind::Method),
        member_item("pop"@, "(): T | null"@, "Removes and returns the last element."@, CompletionItemKind::Method),
        member_item("shift"@, "(): T | null"@, "Removes and returns the first element."@, CompletionItemKind::Method),
        member_item("unshift"@, "(value: T): void"@, "Inserts an element at the beginning."@, CompletionItemKind::Method),
        member_item("join"@, "(separator: string): string"@, "Joins array elements into a string."@, CompletionItemKind::Method),
        member_item("flat"@, "(): Array<T>"@, "Flattens one level of nesting."@, CompletionItemKind::Method),
        member_item("flatMap"@, "(fn: (T) => Array<U>): Array<U>"@, "Maps then flattens one level."@, CompletionItemKind::Method),
        member_item("reverse"@, "(): void"@, "Reverses the array in place."@, CompletionItemKind::Method),
        member_item("sort"@, "(): void"@, "Sorts the array in place."@, CompletionItemKind::Method),
        member_item("fill"@, "(value: T): void"@, "Fills the array with the given value."@, CompletionItemKind::Method),
        member_item("length"@, "number"@, "The number of elements in the array."@, CompletionItemKind::Property),
    ]
}

fn array_members_items() -> (r: Vec<CompletionItem>)
    ensures
        item_views(r@) == array_members(),
{
    let mut v: Vec<CompletionItem> = Vec::new();
    push_item(&mut v, member("map", "(fn: (T) => U): Array<U>", "Transforms each element using the given function.", CompletionItemKind::Method));
    push_item(&mut v, member("filter", "(fn: (T) => boolean): Array<T>", "Keeps elements where the predicate returns true.", CompletionItemKind::Method));
    push_item(&mut v, member("reduce", "(fn: (acc: U, item: T) => U, initial: U): U", "Reduces the array to a single value.", CompletionItemKind::Method));
    push_item(&mut v, member("forEach", "(fn: (T) => void): void", "Executes a function for each element.", CompletionItemKind::Method));
    push_item(&mut v, member("find", "(fn: (T) => boolean): T | null", "Returns the first element matching the predicate.", CompletionItemKind::Method));
    push_item(&mut v, member("findIndex", "(fn: (T) => boolean): i32", "Returns the index of the first matching element, or -1.", CompletionItemKind::Method));
    push_item(&mut v, member("some", "(fn: (T) => boolean): boolean", "Returns true if any element matches.", CompletionItemKind::Method));
    push_item(&mut v, member("every", "(fn: (T) => boolean): boolean", "Returns true if all elements match.", CompletionItemKind::Method));
    push_item(&mut v, member("push", "(value: T): void", "Appends an element to the end.", CompletionItemKind::Method));
    push_item(&mut v, member("pop", "(): T | null", "Removes and returns the last element.", CompletionItemKind::Method));
    push_item(&mut v, member("shift", "(): T | null", "Removes and returns the first element.", CompletionItemKind::Method));
    push_item(&mut v, member("unshift", "(value: T): void", "Inserts an element at the beginning.", CompletionItemKind::Method));
    push_item(&mut v, member("join", "(separator: string): string", "Joins array elements into a string.", CompletionItemKind::Method));
    push_item(&mut v, member("flat", "(): Array<T>", "Flattens one level of nesting.", CompletionItemKind::Method));
    push_item(&mut v, member("flatMap", "(fn: (T) => Array<U>): Array<U>", "Maps then flattens one level.", CompletionItemKind::Method));
    push_item(&mut v, member("reverse", "(): void", "Reverses the array in place.", CompletionItemKind::Method));
    push_item(&mut v, member("sort", "(): void", "Sorts the array in place.", CompletionItemKind::Method));
    push_item(&mut v, member("fill", "(value: T): void", "Fills the array with the given value.", CompletionItemKind::Method));
    push_item(&mut v, member("length", "number", "The number of elements in the array.", CompletionItemKind::Property));
    assert(item_views(v@) =~= array_members());
    v
}

/// The members offered on maps, in order.
pub open spec fn map_members() -> Seq<ItemView> {
    seq![
        member_item("get"@, "(key: K): V | null"@, "Returns the value for the given key, or null."@, CompletionItemKind::Method),
        member_item("set"@, "(key: K, value: V): void"@, "Sets a key-value pair."@, CompletionItemKind::Method),
        member_item("has"@, "(key: K): boolean"@, "Checks if the map contains the key."@, CompletionItemKind::Method),
        member_item("delete"@, "(key: K): boolean"@, "Removes the entry for the given key."@, CompletionItemKind::Method),
        member_item("keys"@, "(): Array<K>"@, "Returns the keys as an array."@, CompletionItemKind::Method),
        member_item("values"@, "(): Array<V>"@, "Returns the values as an array."@, CompletionItemKind::Method),
        member_item("entries"@, "(): Array<[K, V]>"@, "Returns entries as key-value pairs."@, CompletionItemKind::Method),
        member_item("clear"@, "(): void"@, "Removes all entries."@, CompletionItemKind::Method),
    ]
}

fn map_members_items() -> (r: Vec<CompletionItem>)
    ensures
        item_views(r@) == map_members(),
{
    let mut v: Vec<CompletionItem> = Vec::new();
    push_item(&mut v, member("get", "(key: K): V | null", "Returns the value for the given key, or null.", CompletionItemKind::Method));
    push_item(&mut v, member("set", "(key: K, value: V): void", "Sets a key-value pair.", CompletionItemKind::Method));
    push_item(&mut v, member("has", "(key: K): boolean", "Checks if the map contains the key.", CompletionItemKind::Method));
    push_item(&mut v, member("delete", "(key: K): boolean", "Removes the entry for the given key.", CompletionItemKind::Method));
    push_item(&mut v, member("keys", "(): Array<K>", "Returns the keys as an array.", CompletionItemKind::Method));
    push_item(&mut v, member("values", "(): Array<V>", "Returns the values as an array.", CompletionItemKind::Method));
    push_item(&mut v, member("entries", "(): Array<[K, V]>", "Returns entries as key-value pairs.", CompletionItemKind::Method));
    push_item(&mut v, member("clear", "(): void", "Removes all entries.", CompletionItemKind::Method));
    assert(item_views(v@) =~= map_members());
    v
}

/// The members offered on sets, in order.
pub open spec fn set_members() -> Seq<ItemView> {
    seq![
        member_item("add"@, "(value: T): void"@, "Adds a value to the set."@, CompletionItemKind::Method),
        member_item("has"@, "(value: T): boolean"@, "Checks if the set contains the value."@, CompletionItemKind::Method),
        member_item("delete"@, "(value: T): boolean"@, "Removes the value from the set."@, CompletionItemKind::Method),
        member_item("clear"@, "(): void"@, "Removes all values."@, CompletionItemKind::Method),
        member_item("values"@, "(): Array<T>"@, "Returns all values as an array."@, CompletionItemKind::Method),
    ]
}

fn set_members_items() -> (r: Vec<CompletionItem>)
    ensures
        item_views(r@) == set_members(),
{
    let mut v: Vec<CompletionItem> = Vec::new();
    push_item(&mut v, member("add", "(value: T): void", "Adds a value to the set.", CompletionItemKind::Method));
    push_item(&mut v, member("has", "(value: T): boolean", "Checks if the set contains the value.", CompletionItemKind::Method));
    push_item(&mut v, member("delete", "(value: T): boolean", "Removes the value from the set.", CompletionItemKind::Method));
    push_item(&mut v, member("clear", "(): void", "Removes all values.", CompletionItemKind::Method));
    push_item(&mut v, member("values", "(): Array<T>", "Returns all values as an array.", CompletionItemKind::Method));
    assert(item_views(v@) =~= set_members());
    v
}

// ---------------------------------------------------------------------------
// Builtin object and type-aware member completions
// ---------------------------------------------------------------------------

/// The views of an optional list of items.
pub open spec fn opt_items(r: Option<Vec<CompletionItem>>) -> Option<Seq<ItemView>> {
    match r {
        Some(v) => Some(item_views(v@)),
        None => None,
    }
}

/// The members offered after `name.` for a builtin object `name`.
pub open spec fn builtin_object_members(name: Seq<char>) -> Option<Seq<ItemView>> {
    if name == "Math"@ {
        Some(math_members())
    } else if name == "console"@ {
        Some(console_members())
    } else if name == "JSON"@ {
        Some(json_members())
    } else if name == "Number"@ {
        Some(number_members())
    } else if name == "Object"@ {
        Some(object_members())
    } else {
        None
    }
}

/// Return completions for a builtin object's members (`Math`, `console`,
/// `JSON`, `Number`, `Object`); `None` for any other name.
pub fn builtin_object_completions(object_name: &str) -> (r: Option<Vec<CompletionItem>>)
    ensures
        opt_items(r) == builtin_object_members(object_name@),
{
    let name = chars_of(object_name);
    if eq_str(&name, "Math") {
        Some(math_members_items())
    } else if eq_str(&name, "console") {
        Some(console_members_items())
    } else if eq_str(&name, "JSON") {
        Some(json_members_items())
    } else if eq_str(&name, "Number") {
        Some(number_members_items())
    } else if eq_str(&name, "Object") {
        Some(object_members_items())
    } else {
        None
    }
}

/// The members offered for a value of type `t`, by its category.
pub open spec fn type_members(t: Seq<char>) -> Option<Seq<ItemView>> {
    if t == "String"@ || t == "string"@ {
        Some(string_members())
    } else if has_prefix(t, "Vec<"@) || has_prefix(t, "Array<"@) {
        Some(array_members())
    } else if has_prefix(t, "HashMap<"@) || has_prefix(t, "Map<"@) {
        Some(map_members())
    } else if has_prefix(t, "HashSet<"@) || has_prefix(t, "Set<"@) {
        Some(set_members())
    } else {
        None
    }
}

/// Member completions for a type string such as `"string"`, `"Array<i32>"`
/// or `"Map<K, V>"`; `None` when the type is no builtin category.
pub fn type_member_completions(type_str: &str) -> (r: Option<Vec<CompletionItem>>)
    ensures
        opt_items(r) == type_members(type_str@),
{
    let t = chars_of(type_str);
    if eq_str(&t, "String") || eq_str(&t, "string") {
        Some(string_members_items())
    } else if starts_with_str(&t, "Vec<") || starts_with_str(&t, "Array<") {
        Some(array_members_items())
    } else if starts_with_str(&t, "HashMap<") || starts_with_str(&t, "Map<") {
        Some(map_members_items())
    } else if starts_with_str(&t, "HashSet<") || starts_with_str(&t, "Set<") {
        Some(set_members_items())
    } else {
        None
    }
}

// ---------------------------------------------------------------------------
// Compile cache
// ---------------------------------------------------------------------------

/// Type and signature information from the last compile of a document.
pub struct CachedCompileInfo {
    variable_types: Vec<(String, String)>,
    function_signatures: Vec<(String, String)>,
}

impl CachedCompileInfo {
    /// Variable (and type) names with their type strings.
    pub closed spec fn variable_types(&self) -> Seq<(Seq<char>, String)> {
        keyed(self.variable_types@)
    }

    /// Function names (`f` or `Class.method`) with their signature strings.
    pub closed spec fn function_signatures(&self) -> Seq<(Seq<char>, String)> {
        keyed(self.function_signatures@)
    }

    /// No variable and no function is recorded twice.
    #[verifier::type_invariant]
    spec fn keys_distinct(&self) -> bool {
        keys_unique(self.variable_types()) && keys_unique(self.function_signatures())
    }

    /// An empty cache.
    pub fn new() -> (r: Self)
        ensures
            r.variable_types() == Seq::<(Seq<char>, String)>::empty(),
            r.function_signatures() == Seq::<(Seq<char>, String)>::empty(),
    {
        let r = CachedCompileInfo { variable_types: Vec::new(), function_signatures: Vec::new() };
        assert(r.variable_types() =~= Seq::<(Seq<char>, String)>::empty());
        assert(r.function_signatures() =~= Seq::<(Seq<char>, String)>::empty());
        r
    }

    /// Records the type of a variable, replacing an earlier one.
    pub fn insert_variable_type(&mut self, name: String, ty: String)
        ensures
            final(self).variable_types() == insert_pair(old(self).variable_types(), name@, ty),
            final(self).function_signatures() == old(self).function_signatures(),
    {
        proof {
            use_type_invariant(&*self);
        }
        let mut entries: Vec<(String, String)> = Vec::new();
        std::mem::swap(&mut entries, &mut self.variable_types);
        insert_keyed(&mut entries, name, ty);
        self.variable_types = entries;
    }

    /// Records the signature of a function, replacing an earlier one.
    pub fn insert_function_signature(&mut self, name: String, signature: String)
        ensures
            final(self).function_signatures() == insert_pair(old(self).function_signatures(), name@, signature),
            final(self).variable_types() == old(self).variable_types(),
    {
        proof {
            use_type_invariant(&*self);
        }
        let mut entries: Vec<(String, String)> = Vec::new();
        std::mem::swap(&mut entries, &mut self.function_signatures);
        insert_keyed(&mut entries, name, signature);
        self.function_signatures = entries;
    }

    /// The type recorded for `name`.
    pub fn variable_type(&self, name: &str) -> (r: Option<&String>)
        ensures
            r matches Some(t) ==> lookup(self.variable_types(), name@) == Some(*t),
            r is None ==> lookup(self.variable_types(), name@) is None,
    {
        let key = name.to_owned();
        match key_position(&self.variable_types, &key) {
            Some(i) => Some(&self.variable_types[i].1),
            None => None,
        }
    }

    /// The signature recorded for `name`.
    pub fn function_signature(&self, name: &str) -> (r: Option<&String>)
        ensures
            r matches Some(t) ==> lookup(self.function_signatures(), name@) == Some(*t),
            r is None ==> lookup(self.function_signatures(), name@) is None,
    {
        let key = name.to_owned();
        match key_position(&self.function_signatures, &key) {
            Some(i) => Some(&self.function_signatures[i].1),
            None => None,
        }
    }
}

// ---------------------------------------------------------------------------
// Struct and class member completions
// ---------------------------------------------------------------------------

/// The text that a struct definition of `t` contains: `type T =`.
pub open spec fn struct_def_marker(t: Seq<char>) -> Seq<char> {
    "type "@ + t + " ="@
}

/// The first entry value, from index `i` on, that defines the struct `t`.
pub open spec fn struct_def_from(vt: Seq<(Seq<char>, String)>, t: Seq<char>, i: int) -> Option<Seq<char>>
    decreases vt.len() - i,
{
    if i < 0 || i >= vt.len() {
        None
    } else if has_prefix(vt[i].1@, "type "@) && find_sub(vt[i].1@, struct_def_marker(t)) is Some {
        Some(vt[i].1@)
    } else {
        struct_def_from(vt, t, i + 1)
    }
}

/// A field item for `name: ty`, if the piece has that shape.
pub open spec fn field_piece(piece: Seq<char>) -> Seq<ItemView> {
    match find_sub(piece, ": "@) {
        Some(k) => seq![plain_item(piece.take(k), CompletionItemKind::Field, Some(piece.skip(k + 2)))],
        None => Seq::empty(),
    }
}

/// Field items of a list of `name: ty` pieces, in order.
pub open spec fn field_pieces(ps: Seq<Seq<char>>) -> Seq<ItemView>
    decreases ps.len(),
{
    if ps.len() == 0 {
        Seq::empty()
    } else {
        field_pieces(ps.drop_last()) + field_piece(ps.last())
    }
}

/// The opening of a struct definition of `t`: `type T = { `.
pub open spec fn struct_def_open(t: Seq<char>) -> Seq<char> {
    "type "@ + t + " = { "@
}

/// The field items of the definition `def` of struct `t`
/// (`type T = { a: A, b: B }`).
pub open spec fn struct_fields(def: Seq<char>, t: Seq<char>) -> Seq<ItemView> {
    let open = struct_def_open(t);
    if has_prefix(def, open) && has_suffix(def.skip(open.len() as int), " }"@) {
        field_pieces(split_sep(def.subrange(open.len() as int, def.len() - 2), ", "@))
    } else {
        Seq::empty()
    }
}

/// Method items of `t` among the signatures: keys `T.method`.
pub open spec fn method_items(fs: Seq<(Seq<char>, String)>, t: Seq<char>) -> Seq<ItemView>
    decreases fs.len(),
{
    if fs.len() == 0 {
        Seq::empty()
    } else {
        let e = fs.last();
        let rest = method_items(fs.drop_last(), t);
        let dotted = t.push('.');
        if has_prefix(e.0, dotted) {
            rest.push(plain_item(e.0.skip(dotted.len() as int), CompletionItemKind::Method, Some(e.1@)))
        } else {
            rest
        }
    }
}

/// Field and method items for the variable `name`, from the compile cache.
pub open spec fn struct_members(
    vt: Seq<(Seq<char>, String)>,
    fs: Seq<(Seq<char>, String)>,
    name: Seq<char>,
) -> Option<Seq<ItemView>> {
    match lookup(vt, name) {
        None => None,
        Some(t) => {
            let fields = match struct_def_from(vt, t@, 0) {
                Some(def) => struct_fields(def, t@),
                None => Seq::empty(),
            };
            let items = fields + method_items(fs, t@);
            if items.len() == 0 {
                None
            } else {
                Some(items)
            }
        },
    }
}

/// First index from `i` of an entry whose value defines struct `t`.
fn struct_def_position(entries: &Vec<(String, String)>, t: &[char]) -> (r: Option<usize>)
    ensures
        r matches Some(i) ==> i < entries@.len()
            && struct_def_from(keyed(entries@), t@, 0) == Some(keyed(entries@)[i as int].1@),
        r is None ==> struct_def_from(keyed(entries@), t@, 0) is None,
{
    let ghost s = keyed(entries@);
    let mut marker: Vec<char> = Vec::new();
    push_str(&mut marker, "type ");
    push_all(&mut marker, t);
    push_str(&mut marker, " =");
    let mut i: usize = 0;
    while i < entries.len()
        invariant
            i <= entries.len(),
            s == keyed(entries@),
            marker@ == struct_def_marker(t@),
            struct_def_from(s, t@, i as int) == struct_def_from(s, t@, 0),
        decreases entries.len() - i,
    {
        let v = chars_of(entries[i].1.as_str());
        assert(s[i as int].1@ == v@);
        if starts_with_str(&v, "type ") && find_chars(&v, &marker).is_some() {
            return Some(i);
        }
        i = i + 1;
    }
    None
}

fn field_items_into(items: &mut Vec<CompletionItem>, pieces: &Vec<Vec<char>>)
    ensures
        item_views(final(items)@) == item_views(old(items)@) + field_pieces(views(pieces@)),
{
    let ghost start = item_views(items@);
    let mut i: usize = 0;
    while i < pieces.len()
        invariant
            i <= pieces.len(),
            item_views(items@) == start + field_pieces(views(pieces@).take(i as int)),
        decreases pieces.len() - i,
    {
        let piece = &pieces[i];
        let ghost ps = views(pieces@).take(i as int + 1);
        assert(ps.drop_last() =~= views(pieces@).take(i as int));
        assert(ps.last() == piece@);
        proof {
            reveal_strlit(": ");
        }
        match find_str(piece, ": ") {
            Some(k) => {
                assert(": "@.len() == 2);
                let plen = piece.len();
                assert(k + 2 <= plen);
                let name = slice_of(piece, 0, k);
                let ty = slice_of(piece, k + 2, plen);
                let item = CompletionItem {
                    label: string_of(&name),
                    kind: Some(CompletionItemKind::Field),
                    detail: Some(string_of(&ty)),
                    documentation: None,
                    insert_text: None,
                    insert_text_format: None,
                };
                assert(item@ == plain_item(piece@.take(k as int), CompletionItemKind::Field, Some(piece@.skip(k + 2))));
                push_item(items, item);
                assert(item_views(items@) =~= start + field_pieces(ps));
            },
            None => {
                assert(item_views(items@) =~= start + field_pieces(ps));
            },
        }
        i = i + 1;
    }
    assert(views(pieces@).take(pieces@.len() as int) =~= views(pieces@));
}

/// Return struct/class field and method completions from the compile cache.
///
/// Fields come from a definition `type T = { field: T, ... }` stored among
/// the variable types for the variable's type `T`; methods from signatures
/// stored under `T.method`. `None` when the variable is unknown or nothing
/// is found.
pub fn struct_member_completions(variable_name: &str, cache: &CachedCompileInfo) -> (r: Option<Vec<CompletionItem>>)
    ensures
        opt_items(r) == struct_members(cache.variable_types(), cache.function_signatures(), variable_name@),
{
    let type_string = match cache.variable_type(variable_name) {
        Some(t) => t,
        None => return None,
    };
    let t = chars_of(type_string.as_str());
    let ghost vt = cache.variable_types();
    let ghost fs = cache.function_signatures();
    let mut items: Vec<CompletionItem> = Vec::new();
    let ghost fields: Seq<ItemView> = Seq::empty();
    match struct_def_position(&cache.variable_types, &t) {
        Some(i) => {
            let def = chars_of(cache.variable_types[i].1.as_str());
            assert(vt[i as int].1@ == def@);
            let mut open: Vec<char> = Vec::new();
            push_str(&mut open, "type ");
            push_all(&mut open, &t);
            push_str(&mut open, " = { ");
            assert(open@ == struct_def_open(t@));
            if starts_with_chars(&def, &open) {
                let rest = slice_of(&def, open.len(), def.len());
                assert(rest@ == def@.skip(open@.len() as int));
                if crate::text::ends_with_str(&rest, " }") {
                    proof {
                        reveal_strlit(" }");
                    }
                    let body = slice_of(&def, open.len(), def.len() - 2);
                    proof {
                        reveal_strlit(", ");
                    }
                    let pieces = split_str(&body, ", ");
                    field_items_into(&mut items, &pieces);
                }
            }
            proof {
                fields = struct_fields(def@, t@);
            }
        },
        None => {},
    }
    assert(item_views(items@) =~= fields);
    let mut dotted = t.clone();
    dotted.push('.');
    let mut j: usize = 0;
    while j < cache.function_signatures.len()
        invariant
            j <= cache.function_signatures.len(),
            fs == keyed(cache.function_signatures@),
            dotted@ == t@.push('.'),
            item_views(items@) == fields + method_items(fs.take(j as int), t@),
        decreases cache.function_signatures.len() - j,
    {
        let key = chars_of(cache.function_signatures[j].0.as_str());
        let ghost e = fs[j as int];
        assert(e.0 == key@);
        assert(e.1 == cache.function_signatures[j as int].1);
        assert(fs.take(j as int + 1).drop_last() =~= fs.take(j as int));
        assert(fs.take(j as int + 1).last() == e);
        if starts_with_chars(&key, &dotted) {
            let method = slice_of(&key, dotted.len(), key.len());
            let item = CompletionItem {
                label: string_of(&method),
                kind: Some(CompletionItemKind::Method),
                detail: Some(cache.function_signatures[j].1.clone()),
                documentation: None,
                insert_text: None,
                insert_text_format: None,
            };
            push_item(&mut items, item);
        }
        assert(item_views(items@) =~= fields + method_items(fs.take(j as int + 1), t@));
        j = j + 1;
    }
    assert(fs.take(fs.len() as int) =~= fs);
    if items.len() == 0 {
        None
    } else {
        Some(items)
    }
}


// ---------------------------------------------------------------------------
// Signature help
// ---------------------------------------------------------------------------

/// A parameter of a signature.
#[derive(Debug)]
pub struct ParameterInformation {
    /// The parameter's text, such as `name: string`.
    pub label: String,
    /// Markdown documentation.
    pub documentation: Option<String>,
}

/// One signature of a callable.
#[derive(Debug)]
pub struct SignatureInformation {
    /// The whole signature text.
    pub label: String,
    /// Markdown documentation.
    pub documentation: Option<String>,
    /// The parameters, in order.
    pub parameters: Option<Vec<ParameterInformation>>,
    /// Index of the parameter being typed.
    pub active_parameter: Option<u32>,
}

/// Signature help for a call at the cursor.
#[derive(Debug)]
pub struct SignatureHelp {
    /// The candidate signatures.
    pub signatures: Vec<SignatureInformation>,
    /// Index of the signature shown.
    pub active_signature: Option<u32>,
    /// Index of the parameter being typed.
    pub active_parameter: Option<u32>,
}

/// The contents of a parameter.
pub struct ParamView {
    pub label: Seq<char>,
    pub documentation: Option<Seq<char>>,
}

/// The contents of a signature.
pub struct SigView {
    pub label: Seq<char>,
    pub documentation: Option<Seq<char>>,
    pub parameters: Option<Seq<ParamView>>,
    pub active_parameter: Option<u32>,
}

/// The contents of a signature help.
pub struct HelpView {
    pub signatures: Seq<SigView>,
    pub active_signature: Option<u32>,
    pub active_parameter: Option<u32>,
}

impl View for ParameterInformation {
    type V = ParamView;

    open spec fn view(&self) -> ParamView {
        ParamView { label: self.label@, documentation: opt_view(self.documentation) }
    }
}

/// The views of a list of parameters.
pub open spec fn param_views(v: Seq<ParameterInformation>) -> Seq<ParamView> {
    v.map_values(|p: ParameterInformation| p@)
}

impl View for SignatureInformation {
    type V = SigView;

    open spec fn view(&self) -> SigView {
        SigView {
            label: self.label@,
            documentation: opt_view(self.documentation),
            parameters: match self.parameters {
                Some(ps) => Some(param_views(ps@)),
                None => None,
            },
            active_parameter: self.active_parameter,
        }
    }
}

impl View for SignatureHelp {
    type V = HelpView;

    open spec fn view(&self) -> HelpView {
        HelpView {
            signatures: self.signatures@.map_values(|s: SignatureInformation| s@),
            active_signature: self.active_signature,
            active_parameter: self.active_parameter,
        }
    }
}

/// A plain parameter with the given text.
pub open spec fn param_of(label: Seq<char>) -> ParamView {
    ParamView { label, documentation: None }
}

/// The parameter texts of a signature `name(p1: T1, p2: T2): R`: the text
/// between the first `(` and the last `)`, split at `", "`; none when that
/// text is empty. `None` when the signature lacks either parenthesis.
pub open spec fn signature_params(sig: Seq<char>) -> Option<Seq<Seq<char>>> {
    match (find_char(sig, '('), rfind_char(sig, ')')) {
        (Some(o), Some(c)) => {
            let inner = sig.subrange(o + 1, c);
            if inner.len() == 0 {
                Some(Seq::empty())
            } else {
                Some(split_sep(inner, ", "@))
            }
        },
        _ => None,
    }
}

/// The first `(` of `sig` comes before its last `)`, where it has both.
pub open spec fn parens_ordered(sig: Seq<char>) -> bool {
    match (find_char(sig, '('), rfind_char(sig, ')')) {
        (Some(o), Some(c)) => o < c,
        _ => true,
    }
}

/// Signature help showing the signature `sig` with `params` and `active`.
pub open spec fn help_of(sig: Seq<char>, params: Seq<Seq<char>>, active: u32) -> HelpView {
    HelpView {
        signatures: seq![
            SigView {
                label: sig,
                documentation: None,
                parameters: Some(params.map_values(|p: Seq<char>| param_of(p))),
                active_parameter: Some(active),
            },
        ],
        active_signature: Some(0),
        active_parameter: Some(active),
    }
}

/// Signature help for `name` from the recorded signatures.
pub open spec fn signature_help_spec(fs: Seq<(Seq<char>, String)>, name: Seq<char>, active: u32) -> Option<HelpView> {
    match lookup(fs, name) {
        None => None,
        Some(sig) => match signature_params(sig@) {
            None => None,
            Some(params) => Some(help_of(sig@, params, active)),
        },
    }
}

/// The signature recorded for `name` can be sliced between its parentheses.
pub open spec fn signature_sliceable(fs: Seq<(Seq<char>, String)>, name: Seq<char>) -> bool {
    match lookup(fs, name) {
        Some(sig) => parens_ordered(sig@),
        None => true,
    }
}

/// The view of an optional signature help.
pub open spec fn opt_help(r: Option<SignatureHelp>) -> Option<HelpView> {
    match r {
        Some(h) => Some(h@),
        None => None,
    }
}

/// Build a signature help for a call of `function_name`, whose signature
/// `function name(p1: T1, p2: T2): R` is looked up in the compile cache.
pub fn signature_help_for_function(function_name: &str, active_param: u32, cache: &CachedCompileInfo) -> (r: Option<SignatureHelp>)
    requires
        signature_sliceable(cache.function_signatures(), function_name@),
    ensures
        opt_help(r) == signature_help_spec(cache.function_signatures(), function_name@, active_param),
{
    let sig_string = match cache.function_signature(function_name) {
        Some(s) => s,
        None => return None,
    };
    let sig = chars_of(sig_string.as_str());
    let open = match find(&sig, '(') {
        Some(o) => o,
        None => return None,
    };
    let close = match rfind(&sig, ')') {
        Some(c) => c,
        None => return None,
    };
    proof {
        crate::text::lemma_rfind_before_bounds(sig@, ')', sig@.len() as int);
    }
    let inner = slice_of(&sig, open + 1, close);
    let ghost pieces: Seq<Seq<char>> = if inner@.len() == 0 {
        Seq::empty()
    } else {
        split_sep(inner@, ", "@)
    };
    let mut params: Vec<ParameterInformation> = Vec::new();
    if inner.len() > 0 {
        proof {
            reveal_strlit(", ");
        }
        let parts = split_str(&inner, ", ");
        let mut i: usize = 0;
        while i < parts.len()
            invariant
                i <= parts.len(),
                views(parts@) == pieces,
                param_views(params@) == pieces.take(i as int).map_values(|p: Seq<char>| param_of(p)),
            decreases parts.len() - i,
        {
            let ghost before = param_views(params@);
            assert(views(parts@)[i as int] == parts@[i as int]@);
            let p = ParameterInformation { label: string_of(&parts[i]), documentation: None };
            assert(p@ == param_of(pieces[i as int]));
            params.push(p);
            assert(param_views(params@) =~= before.push(param_of(pieces[i as int])));
            assert(pieces.take(i as int + 1).map_values(|p: Seq<char>| param_of(p))
                =~= pieces.take(i as int).map_values(|p: Seq<char>| param_of(p)).push(param_of(pieces[i as int])));
            i = i + 1;
        }
        assert(pieces.take(parts@.len() as int) =~= pieces);
    } else {
        assert(param_views(params@) =~= pieces.map_values(|p: Seq<char>| param_of(p)));
    }
    let info = SignatureInformation {
        label: sig_string.clone(),
        documentation: None,
        parameters: Some(params),
        active_parameter: Some(active_param),
    };
    let mut signatures: Vec<SignatureInformation> = Vec::new();
    signatures.push(info);
    let help = SignatureHelp { signatures, active_signature: Some(0), active_parameter: Some(active_param) };
    assert(help@.signatures =~= help_of(sig@, pieces, active_param).signatures);
    Some(help)
}

// ---------------------------------------------------------------------------
// Receivers
// ---------------------------------------------------------------------------

/// Extract the last identifier from a string (the receiver before a dot).
///
/// Trailing ASCII whitespace is skipped; the identifier is the run of ASCII
/// letters, digits and underscores before it, possibly empty.
pub fn extract_last_identifier(text: &str) -> (r: &str)
    ensures
        r@ == last_identifier(text@),
{
    let v = chars_of(text);
    let (start, end) = last_ident_range(&v);
    text.substring_char(start, end)
}


// ---------------------------------------------------------------------------
// Import completions
// ---------------------------------------------------------------------------

/// The completion kind of a rustdoc item.
pub open spec fn import_kind(k: RustdocItemKind) -> CompletionItemKind {
    match k {
        RustdocItemKind::Function(_) => CompletionItemKind::Function,
        RustdocItemKind::Struct(_) => CompletionItemKind::Struct,
        RustdocItemKind::Trait(_) => CompletionItemKind::Interface,
        RustdocItemKind::Enum(_) => CompletionItemKind::Enum,
    }
}

/// The detail shown for item docs: docs over 80 bytes are cut to their
/// first 77 bytes followed by `...`.
pub open spec fn doc_detail(d: Seq<char>) -> Seq<char> {
    if byte_len(d) > 80 {
        byte_prefix(d, 77) + "..."@
    } else {
        d
    }
}

/// Docs that can be cut: short enough, or with a character boundary at
/// byte 77.
pub open spec fn doc_cuttable(d: Seq<char>) -> bool {
    byte_len(d) > 80 ==> on_boundary(d, 77)
}

/// The completion item for the name `name` filed with the ids `ids`: the
/// first id's item, if it is present.
pub open spec fn import_entry(items: Seq<(Seq<char>, crate::rustdoc::RustdocItem)>, name: Seq<char>, ids: Seq<Seq<char>>) -> Option<ItemView> {
    if ids.len() == 0 {
        None
    } else {
        match lookup(items, ids[0]) {
            None => None,
            Some(it) => Some(plain_item(
                name,
                import_kind(it.kind),
                match it.docs {
                    Some(d) => Some(doc_detail(d@)),
                    None => None,
                },
            )),
        }
    }
}

/// The completion items of the names of a crate, in the order of its index.
pub open spec fn import_candidates(
    names: Seq<(Seq<char>, Seq<Seq<char>>)>,
    items: Seq<(Seq<char>, crate::rustdoc::RustdocItem)>,
) -> Seq<ItemView>
    decreases names.len(),
{
    if names.len() == 0 {
        Seq::empty()
    } else {
        let rest = import_candidates(names.drop_last(), items);
        match import_entry(items, names.last().0, names.last().1) {
            Some(v) => rest.push(v),
            None => rest,
        }
    }
}

/// Every item that import completion reaches has docs that can be cut.
pub open spec fn import_docs_cuttable(c: RustdocCrate) -> bool {
    forall|i: int|
        0 <= i < c.name_index().len() && c.name_index()[i].1.len() > 0 ==> match lookup(
            c.items(),
            #[trigger] c.name_index()[i].1[0],
        ) {
            Some(it) => match it.docs {
                Some(d) => doc_cuttable(d@),
                None => true,
            },
            None => true,
        }
}

/// Labels strictly ascend along `v`.
pub open spec fn sorted_by_label(v: Seq<ItemView>) -> bool {
    forall|i: int, j: int| 0 <= i < j < v.len() ==> label_lt(#[trigger] v[i].label, #[trigger] v[j].label)
}

/// Import completion can run for `crate_name` in `rustdoc`.
pub open spec fn import_ready(rustdoc: RustdocCache, crate_name: Seq<char>) -> bool {
    match lookup(rustdoc.crates(), crate_name) {
        Some(c) => import_docs_cuttable(c),
        None => true,
    }
}

/// What `import_completions` returns: `None` for an unknown crate or one
/// that offers nothing; otherwise the crate's items with labels in strictly
/// ascending order.
pub open spec fn import_result(rustdoc: RustdocCache, crate_name: Seq<char>, r: Option<Seq<ItemView>>) -> bool {
    match lookup(rustdoc.crates(), crate_name) {
        None => r is None,
        Some(c) => {
            let cands = import_candidates(c.name_index(), c.items());
            match r {
                None => cands.len() == 0,
                Some(v) => cands.len() > 0 && sorted_by_label(v) && v.to_multiset() == cands.to_multiset(),
            }
        },
    }
}

fn doc_detail_of(d: &String) -> (r: String)
    requires
        doc_cuttable(d@),
    ensures
        r@ == doc_detail(d@),
{
    let v = chars_of(d.as_str());
    let (k80, _) = chars_within_bytes(&v, 80);
    proof {
        lemma_chars_within(v@, 80);
        lemma_chars_within(v@, 77);
    }
    if k80 < v.len() {
        let (k77, _) = chars_within_bytes(&v, 77);
        let mut out = slice_of(&v, 0, k77);
        push_str(&mut out, "...");
        string_of(&out)
    } else {
        d.clone()
    }
}

/// Index of the first item whose label sorts after `key`.
fn insertion_point(v: &Vec<CompletionItem>, key: &[char]) -> (r: usize)
    ensures
        r <= v@.len(),
        forall|k: int| 0 <= k < r ==> !label_lt(key@, #[trigger] item_views(v@)[k].label),
        r < v@.len() ==> label_lt(key@, item_views(v@)[r as int].label),
{
    let mut p: usize = 0;
    while p < v.len()
        invariant
            p <= v.len(),
            forall|k: int| 0 <= k < p ==> !label_lt(key@, #[trigger] item_views(v@)[k].label),
        decreases v.len() - p,
    {
        let label = chars_of(v[p].label.as_str());
        assert(item_views(v@)[p as int].label == label@);
        if chars_lt(key, &label) {
            return p;
        }
        p = p + 1;
    }
    p
}

/// Inserts `item`, whose label is new, between the items whose labels sort
/// before and after its own.
fn insert_sorted(v: &mut Vec<CompletionItem>, item: CompletionItem)
    requires
        sorted_by_label(item_views(old(v)@)),
        forall|k: int| 0 <= k < old(v)@.len() ==> #[trigger] item_views(old(v)@)[k].label != item@.label,
    ensures
        sorted_by_label(item_views(final(v)@)),
        item_views(final(v)@).to_multiset() == item_views(old(v)@).to_multiset().insert(item@),
        exists|p: int| 0 <= p <= old(v)@.len() && item_views(final(v)@) == item_views(old(v)@).insert(p, item@),
{
    let ghost u = item_views(v@);
    let ghost x = item@;
    let key = chars_of(item.label.as_str());
    let p = insertion_point(v, &key);
    v.insert(p, item);
    let ghost w = item_views(v@);
    assert(w =~= u.insert(p as int, x));
    proof {
        vstd::seq_lib::to_multiset_insert(u, p as int, x);
        assert forall|i: int, j: int| 0 <= i < j < w.len() implies label_lt(#[trigger] w[i].label, #[trigger] w[j].label) by {
            if i < p && j < p {
                assert(w[i] == u[i] && w[j] == u[j]);
            } else if i < p && j == p {
                assert(w[i] == u[i]);
                assert(u[i].label != x.label);
                lemma_label_lt_total(u[i].label, x.label);
            } else if i < p {
                assert(w[i] == u[i] && w[j] == u[j - 1]);
            } else if i == p {
                assert(w[j] == u[j - 1]);
                if j - 1 > p {
                    lemma_label_lt_trans(x.label, u[p as int].label, u[j - 1].label);
                }
            } else {
                assert(w[i] == u[i - 1] && w[j] == u[j - 1]);
            }
        }
    }
}

/// Return completions for the items a crate exports, from the rustdoc
/// cache, sorted by label (used inside `import { | } from "crate"`).
pub fn import_completions(crate_name: &str, rustdoc: &RustdocCache) -> (r: Option<Vec<CompletionItem>>)
    requires
        import_ready(*rustdoc, crate_name@),
    ensures
        import_result(*rustdoc, crate_name@, opt_items(r)),
{
    let c = match rustdoc.get_crate(crate_name) {
        Some(c) => c,
        None => return None,
    };
    let names = c.name_entries();
    let ghost nv = c.name_index();
    assert(crate::assoc::keys_unique(nv));
    let ghost iv = c.items();
    let mut items: Vec<CompletionItem> = Vec::new();
    let mut i: usize = 0;
    proof {
        broadcast use vstd::seq_lib::group_to_multiset_ensures;
        assert(item_views(items@) =~= Seq::<ItemView>::empty());
        assert(nv.take(0) =~= Seq::<(Seq<char>, Seq<Seq<char>>)>::empty());
        assert(item_views(items@).to_multiset().len() == 0);
        assert(import_candidates(nv.take(0), iv).to_multiset().len() == 0);
        assert(item_views(items@).to_multiset() =~= import_candidates(nv.take(0), iv).to_multiset());
    }
    while i < names.len()
        invariant
            i <= names.len(),
            nv == crate::rustdoc::names_view(names@),
            nv == c.name_index(),
            iv == c.items(),
            import_docs_cuttable(*c),
            crate::assoc::keys_unique(nv),
            sorted_by_label(item_views(items@)),
            forall|k: int| 0 <= k < items@.len() ==> exists|m: int|
                0 <= m < i && #[trigger] nv[m].0 == #[trigger] item_views(items@)[k].label,
            item_views(items@).to_multiset() == import_candidates(nv.take(i as int), iv).to_multiset(),
        decreases names.len() - i,
    {
        let ghost pre = nv.take(i as int + 1);
        assert(pre.drop_last() =~= nv.take(i as int));
        assert(pre.last() == nv[i as int]);
        let ids = &names[i].1;
        let ghost e = nv[i as int];
        assert(e.1 == ids@.map_values(|t: String| t@));
        if ids.len() > 0 {
            assert(e.1[0] == ids@[0]@);
            match c.item(&ids[0]) {
                Some(it) => {
                    let kind = match &it.kind {
                        RustdocItemKind::Function(_) => CompletionItemKind::Function,
                        RustdocItemKind::Struct(_) => CompletionItemKind::Struct,
                        RustdocItemKind::Trait(_) => CompletionItemKind::Interface,
                        RustdocItemKind::Enum(_) => CompletionItemKind::Enum,
                    };
                    let detail = match &it.docs {
                        Some(d) => Some(doc_detail_of(d)),
                        None => None,
                    };
                    let item = CompletionItem {
                        label: names[i].0.clone(),
                        kind: Some(kind),
                        detail,
                        documentation: None,
                        insert_text: None,
                        insert_text_format: None,
                    };
                    assert(Some(item@) == import_entry(iv, e.0, e.1));
                    let ghost before = item_views(items@);
                    assert forall|k: int| 0 <= k < before.len() implies #[trigger] before[k].label != item@.label by {
                        let m = choose|m: int| 0 <= m < i && #[trigger] nv[m].0 == item_views(items@)[k].label;
                        assert(nv[m].0 != nv[i as int].0);
                    }
                    insert_sorted(&mut items, item);
                    proof {
                        vstd::seq_lib::to_multiset_build(import_candidates(nv.take(i as int), iv), item@);
                        let after = item_views(items@);
                        let p = choose|p: int| 0 <= p <= before.len() && after == before.insert(p, item@);
                        assert forall|k: int| 0 <= k < after.len() implies exists|m: int|
                            0 <= m < i + 1 && #[trigger] nv[m].0 == #[trigger] after[k].label by {
                            if k < p {
                                assert(after[k] == before[k]);
                                let m = choose|m: int| 0 <= m < i && #[trigger] nv[m].0 == before[k].label;
                                assert(nv[m].0 == after[k].label);
                            } else if k == p {
                                assert(nv[i as int].0 == after[k].label);
                            } else {
                                assert(after[k] == before[k - 1]);
                                let m = choose|m: int| 0 <= m < i && #[trigger] nv[m].0 == before[k - 1].label;
                                assert(nv[m].0 == after[k].label);
                            }
                        }
                    }
                },
                None => {},
            }
        }
        i = i + 1;
    }
    assert(nv.take(names@.len() as int) =~= nv);
    if items.len() == 0 {
        proof {
            broadcast use vstd::seq_lib::group_to_multiset_ensures;
            assert(item_views(items@) =~= Seq::<ItemView>::empty());
            let cands = import_candidates(nv, iv);
            if cands.len() > 0 {
                assert(cands.to_multiset().count(cands[0]) > 0);
            }
        }
        None
    } else {
        proof {
            broadcast use vstd::seq_lib::group_to_multiset_ensures;
            let w = item_views(items@);
            assert(w.to_multiset().count(w[0]) > 0);
        }
        Some(items)
    }
}


// ---------------------------------------------------------------------------
// High-level completion resolution
// ---------------------------------------------------------------------------

/// A completion answer.
#[derive(Debug)]
pub enum CompletionResponse {
    /// A complete list of items.
    Array(Vec<CompletionItem>),
}

/// The items of an optional answer.
pub open spec fn opt_response(r: Option<CompletionResponse>) -> Option<Seq<ItemView>> {
    match r {
        Some(CompletionResponse::Array(v)) => Some(item_views(v@)),
        None => None,
    }
}

/// The value behind an optional reference.
pub open spec fn deref_opt<T>(o: Option<&T>) -> Option<T> {
    match o {
        Some(x) => Some(*x),
        None => None,
    }
}

/// Context needed to resolve completions.
pub struct CompletionContext<'a> {
    /// The full source text of the document.
    pub source: &'a str,
    /// Cursor line (0-based).
    pub line: u32,
    /// Cursor character (0-based), taken as a byte offset into the line.
    pub character: u32,
    /// Compile cache for the document, if available.
    pub cache: Option<&'a CachedCompileInfo>,
    /// Rustdoc cache for import completions.
    pub rustdoc: Option<&'a RustdocCache>,
}

/// The text of line `line` of `source` before the cursor: its first
/// `character` bytes, or all of it when it is shorter. `None` past the last line.
pub open spec fn cursor_prefix(source: Seq<char>, line: u32, character: u32) -> Option<Seq<char>> {
    let ls = lines_of(source);
    if line >= ls.len() {
        None
    } else {
        Some(byte_prefix(ls[line as int], character as int))
    }
}

/// The cursor does not fall inside the encoding of a character.
pub open spec fn cursor_ok(source: Seq<char>, line: u32, character: u32) -> bool {
    let ls = lines_of(source);
    line < ls.len() ==> on_boundary(ls[line as int], character as int)
}

/// The crate named by an import line `import { .. } from "crate"`, when it
/// is not a relative path.
pub open spec fn import_crate_of(line: Seq<char>) -> Option<Seq<char>> {
    let t = trim(line);
    if !has_prefix(t, "import"@) {
        None
    } else {
        match find_sub(t, "from \""@) {
            None => None,
            Some(fi) => {
                let after = t.skip(fi + 6);
                match find_char(after, '"') {
                    None => None,
                    Some(q) => {
                        let name = after.take(q);
                        if has_prefix(name, "."@) || has_prefix(name, "/"@) {
                            None
                        } else {
                            Some(name)
                        }
                    },
                }
            },
        }
    }
}

/// The crate of the first import line at or after line `i`.
pub open spec fn first_import_crate(ls: Seq<Seq<char>>, i: int) -> Option<Seq<char>>
    decreases ls.len() - i,
{
    if i < 0 || i >= ls.len() {
        None
    } else {
        match import_crate_of(ls[i]) {
            Some(n) => Some(n),
            None => first_import_crate(ls, i + 1),
        }
    }
}

/// The crate whose exports an import completion would offer: the cursor is
/// in an `import` statement and an import line names a crate.
pub open spec fn import_target(prefix: Seq<char>, source: Seq<char>) -> Option<Seq<char>> {
    if has_prefix(trim(prefix), "import"@) {
        first_import_crate(lines_of(source), 0)
    } else {
        None
    }
}

/// Import completion can run wherever it is tried.
pub open spec fn import_target_ready(prefix: Seq<char>, source: Seq<char>, rustdoc: Option<RustdocCache>) -> bool {
    match (rustdoc, import_target(prefix, source)) {
        (Some(rd), Some(cn)) => import_ready(rd, cn),
        _ => true,
    }
}

/// Import completion gives items.
pub open spec fn import_applies(prefix: Seq<char>, source: Seq<char>, rustdoc: Option<RustdocCache>) -> bool {
    match (rustdoc, import_target(prefix, source)) {
        (Some(rd), Some(cn)) => match lookup(rd.crates(), cn) {
            Some(c) => import_candidates(c.name_index(), c.items()).len() > 0,
            None => false,
        },
        _ => false,
    }
}

/// Completions after a dot (`receiver.`), or keywords outside a dot context.
pub open spec fn dot_or_keyword_items(prefix: Seq<char>, cache: Option<CachedCompileInfo>) -> Option<Seq<ItemView>> {
    match rfind_char(prefix, '.') {
        None => Some(keyword_items()),
        Some(d) => {
            let recv = last_identifier(trim(prefix.take(d)));
            if recv.len() == 0 {
                None
            } else {
                match builtin_object_members(recv) {
                    Some(v) => Some(v),
                    None => match cache {
                        None => None,
                        Some(c) => match lookup(c.variable_types(), recv) {
                            None => None,
                            Some(t) => match type_members(t@) {
                                Some(v) => Some(v),
                                None => struct_members(c.variable_types(), c.function_signatures(), recv),
                            },
                        },
                    },
                }
            }
        },
    }
}

/// What `resolve_completions` answers.
pub open spec fn completion_answer(ctx: CompletionContext, r: Option<Seq<ItemView>>) -> bool {
    match cursor_prefix(ctx.source@, ctx.line, ctx.character) {
        None => r is None,
        Some(prefix) => {
            let rustdoc = deref_opt(ctx.rustdoc);
            if import_applies(prefix, ctx.source@, rustdoc) {
                r is Some && import_result(rustdoc->0, import_target(prefix, ctx.source@)->0, r)
            } else {
                r == dot_or_keyword_items(prefix, deref_opt(ctx.cache))
            }
        },
    }
}

/// Import completion can run for the cursor of `ctx`.
pub open spec fn completion_ready(ctx: CompletionContext) -> bool {
    &&& cursor_ok(ctx.source@, ctx.line, ctx.character)
    &&& match cursor_prefix(ctx.source@, ctx.line, ctx.character) {
        Some(prefix) => import_target_ready(prefix, ctx.source@, deref_opt(ctx.rustdoc)),
        None => true,
    }
}

/// The crate named by an import line, as `import_crate_of` reads it.
fn import_crate_in(line: &[char]) -> (r: Option<Vec<char>>)
    ensures
        opt_chars(r) == import_crate_of(line@),
{
    let t = trim_chars(line);
    if !starts_with_str(&t, "import") {
        return None;
    }
    proof {
        reveal_strlit("from \"");
    }
    let fi = match find_str(&t, "from \"") {
        Some(fi) => fi,
        None => return None,
    };
    let tl = t.len();
    assert("from \""@.len() == 6);
    assert(fi + 6 <= tl);
    let after = slice_of(&t, fi + 6, tl);
    let q = match find(&after, '"') {
        Some(q) => q,
        None => return None,
    };
    proof {
        crate::text::lemma_find_from_bounds(after@, '"', 0);
    }
    let name = slice_of(&after, 0, q);
    if starts_with_str(&name, ".") || starts_with_str(&name, "/") {
        None
    } else {
        Some(name)
    }
}

/// The crate named by the first import line of `src`.
fn find_import_crate(src: &[char]) -> (r: Option<Vec<char>>)
    ensures
        opt_chars(r) == first_import_crate(lines_of(src@), 0),
{
    let lines = crate::text::lines_vec(src);
    let ghost ls = lines_of(src@);
    let mut i: usize = 0;
    while i < lines.len()
        invariant
            i <= lines.len(),
            views(lines@) == ls,
            ls == lines_of(src@),
            first_import_crate(ls, i as int) == first_import_crate(ls, 0),
        decreases lines.len() - i,
    {
        assert(ls[i as int] == lines@[i as int]@);
        match import_crate_in(&lines[i]) {
            Some(n) => {
                return Some(n);
            },
            None => {},
        }
        i = i + 1;
    }
    None
}

/// The characters of an optional vector.
pub open spec fn opt_chars(o: Option<Vec<char>>) -> Option<Seq<char>> {
    match o {
        Some(v) => Some(v@),
        None => None,
    }
}

/// Import completions when the cursor is in an `import { | } from "crate"`
/// statement.
fn try_import_completions(prefix: &[char], src: &[char], rustdoc: Option<&RustdocCache>) -> (r: Option<Vec<CompletionItem>>)
    requires
        import_target_ready(prefix@, src@, deref_opt(rustdoc)),
    ensures
        import_applies(prefix@, src@, deref_opt(rustdoc)) ==> r is Some
            && import_result(*rustdoc->0, import_target(prefix@, src@)->0, opt_items(r)),
        !import_applies(prefix@, src@, deref_opt(rustdoc)) ==> r is None,
{
    let rd = match rustdoc {
        Some(rd) => rd,
        None => return None,
    };
    let trimmed = trim_chars(prefix);
    if !starts_with_str(&trimmed, "import") {
        return None;
    }
    let name = match find_import_crate(src) {
        Some(n) => n,
        None => return None,
    };
    let name_string = string_of(&name);
    import_completions(name_string.as_str(), rd)
}

/// Attempt to resolve native completions.
///
/// Import completions come first, then dot-triggered completions (builtin
/// objects, then members known from the compile cache); outside a dot
/// context the keyword completions. `None` past the last line, or after a
/// dot that nothing completes.
pub fn resolve_completions(ctx: &CompletionContext) -> (r: Option<CompletionResponse>)
    requires
        completion_ready(*ctx),
    ensures
        completion_answer(*ctx, opt_response(r)),
{
    let src = chars_of(ctx.source);
    let cur = match line_at(&src, ctx.line as usize) {
        Some(l) => l,
        None => return None,
    };
    let (k, _) = chars_within_bytes(&cur, ctx.character as usize);
    let prefix = slice_of(&cur, 0, k);
    assert(prefix@ == byte_prefix(cur@, ctx.character as int));
    match try_import_completions(&prefix, &src, ctx.rustdoc) {
        Some(items) => {
            return Some(CompletionResponse::Array(items));
        },
        None => {},
    }
    match rfind(&prefix, '.') {
        None => Some(CompletionResponse::Array(keyword_completions())),
        Some(d) => {
            proof {
                crate::text::lemma_rfind_before_bounds(prefix@, '.', prefix@.len() as int);
            }
            let before = slice_of(&prefix, 0, d);
            let trimmed = trim_chars(&before);
            let (a, b) = last_ident_range(&trimmed);
            let recv = slice_of(&trimmed, a, b);
            if recv.len() == 0 {
                return None;
            }
            let recv_string = string_of(&recv);
            let receiver = recv_string.as_str();
            match builtin_object_completions(receiver) {
                Some(items) => {
                    return Some(CompletionResponse::Array(items));
                },
                None => {},
            }
            let cache = match ctx.cache {
                Some(c) => c,
                None => return None,
            };
            let type_string = match cache.variable_type(receiver) {
                Some(t) => t,
                None => return None,
            };
            match type_member_completions(type_string.as_str()) {
                Some(items) => {
                    return Some(CompletionResponse::Array(items));
                },
                None => {},
            }
            match struct_member_completions(receiver, cache) {
                Some(items) => Some(CompletionResponse::Array(items)),
                None => None,
            }
        },
    }
}

/// Outside a dot context, where no import completion applies, the answer is
/// the full keyword list; after a dot, a builtin object's members come
/// before anything the compile cache knows.
pub proof fn lemma_completion_fallbacks(ctx: CompletionContext, r: Option<Seq<ItemView>>, prefix: Seq<char>)
    requires
        completion_answer(ctx, r),
        cursor_prefix(ctx.source@, ctx.line, ctx.character) == Some(prefix),
        !import_applies(prefix, ctx.source@, deref_opt(ctx.rustdoc)),
    ensures
        rfind_char(prefix, '.') is None ==> r == Some(keyword_items()),
        rfind_char(prefix, '.') matches Some(d) ==> ({
            let recv = last_identifier(trim(prefix.take(d)));
            recv.len() > 0 && builtin_object_members(recv) is Some ==> r == builtin_object_members(recv)
        }),
{
}

// ---------------------------------------------------------------------------
// Signature help resolution
// ---------------------------------------------------------------------------

/// Context for resolving signature help.
pub struct SignatureHelpContext<'a> {
    /// The full source text of the document.
    pub source: &'a str,
    /// Cursor line (0-based).
    pub line: u32,
    /// Cursor character (0-based), taken as a byte offset into the line.
    pub character: u32,
    /// Compile cache for the document.
    pub cache: Option<&'a CachedCompileInfo>,
}

/// Walking back from index `j` of `s` with `depth` closing parentheses
/// open and `commas` top-level commas seen: the index of the nearest
/// unmatched `(` and the commas between it and the cursor.
pub open spec fn paren_scan(s: Seq<char>, j: int, depth: int, commas: int) -> Option<(int, int)>
    decreases j,
{
    if j <= 0 || j > s.len() {
        None
    } else if s[j - 1] == ')' {
        paren_scan(s, j - 1, depth + 1, commas)
    } else if s[j - 1] == '(' {
        if depth == 0 {
            Some((j - 1, commas))
        } else {
            paren_scan(s, j - 1, depth - 1, commas)
        }
    } else if s[j - 1] == ',' && depth == 0 {
        paren_scan(s, j - 1, depth, commas + 1)
    } else {
        paren_scan(s, j - 1, depth, commas)
    }
}

/// The function called at the cursor, with the index of the argument typed.
pub open spec fn call_at_cursor(source: Seq<char>, line: u32, character: u32) -> Option<(Seq<char>, int)> {
    match cursor_prefix(source, line, character) {
        None => None,
        Some(p) => match paren_scan(p, p.len() as int, 0, 0) {
            None => None,
            Some((pos, commas)) => {
                let f = last_identifier(p.take(pos));
                if f.len() == 0 {
                    None
                } else {
                    Some((f, commas))
                }
            },
        },
    }
}

/// What `resolve_signature_help` answers.
pub open spec fn signature_answer(ctx: SignatureHelpContext) -> Option<HelpView> {
    match ctx.cache {
        None => None,
        Some(c) => match call_at_cursor(ctx.source@, ctx.line, ctx.character) {
            None => None,
            Some((f, commas)) => signature_help_spec(c.function_signatures(), f, commas as u32),
        },
    }
}

/// Signature help can run for the cursor of `ctx`.
pub open spec fn signature_ready(ctx: SignatureHelpContext) -> bool {
    &&& cursor_ok(ctx.source@, ctx.line, ctx.character)
    &&& ctx.source@.len() <= 0x7fff_ffff
    &&& match (ctx.cache, call_at_cursor(ctx.source@, ctx.line, ctx.character)) {
        (Some(c), Some((f, _))) => signature_sliceable(c.function_signatures(), f),
        _ => true,
    }
}

proof fn lemma_paren_scan_bounds(s: Seq<char>, j: int, depth: int, commas: int)
    requires
        0 <= j <= s.len(),
        0 <= depth,
        0 <= commas,
    ensures
        paren_scan(s, j, depth, commas) matches Some((pos, n)) ==> 0 <= pos < j && commas <= n <= commas + j,
    decreases j,
{
    if j > 0 {
        if s[j - 1] == ')' {
            lemma_paren_scan_bounds(s, j - 1, depth + 1, commas);
        } else if s[j - 1] == '(' {
            if depth != 0 {
                lemma_paren_scan_bounds(s, j - 1, depth - 1, commas);
            }
        } else if s[j - 1] == ',' && depth == 0 {
            lemma_paren_scan_bounds(s, j - 1, depth, commas + 1);
        } else {
            lemma_paren_scan_bounds(s, j - 1, depth, commas);
        }
    }
}

/// Attempt to resolve signature help for the cursor: find the nearest
/// unmatched `(` before it, take the function name before that, and count
/// the top-level commas after it for the active parameter.
pub fn resolve_signature_help(ctx: &SignatureHelpContext) -> (r: Option<SignatureHelp>)
    requires
        signature_ready(*ctx),
    ensures
        opt_help(r) == signature_answer(*ctx),
{
    let cache = match ctx.cache {
        Some(c) => c,
        None => return None,
    };
    let src = chars_of(ctx.source);
    let cur = match line_at(&src, ctx.line as usize) {
        Some(l) => l,
        None => return None,
    };
    let (k, _) = chars_within_bytes(&cur, ctx.character as usize);
    let prefix = slice_of(&cur, 0, k);
    assert(prefix@ == byte_prefix(cur@, ctx.character as int));
    proof {
        crate::text::lemma_line_len(src@, ctx.line as int);
    }
    let mut depth: i32 = 0;
    let mut comma_count: u32 = 0;
    let mut j: usize = prefix.len();
    let mut paren_pos: Option<usize> = None;
    while j > 0
        invariant_except_break
            j <= prefix@.len(),
            prefix@.len() <= 0x7fff_ffff,
            0 <= depth <= prefix@.len() - j,
            comma_count <= prefix@.len() - j,
            paren_pos is None,
            paren_scan(prefix@, j as int, depth as int, comma_count as int)
                == paren_scan(prefix@, prefix@.len() as int, 0, 0),
        ensures
            match paren_pos {
                Some(p) => paren_scan(prefix@, prefix@.len() as int, 0, 0) == Some((p as int, comma_count as int))
                    && p < prefix@.len(),
                None => paren_scan(prefix@, prefix@.len() as int, 0, 0) is None,
            },
        decreases j,
    {
        let c = prefix[j - 1];
        if c == ')' {
            depth = depth + 1;
        } else if c == '(' {
            if depth == 0 {
                paren_pos = Some(j - 1);
                break;
            }
            depth = depth - 1;
        } else if c == ',' && depth == 0 {
            comma_count = comma_count + 1;
        }
        j = j - 1;
    }
    let pos = match paren_pos {
        Some(p) => p,
        None => return None,
    };
    let before = slice_of(&prefix, 0, pos);
    let (a, b) = last_ident_range(&before);
    if a == b {
        return None;
    }
    let name = slice_of(&before, a, b);
    let name_string = string_of(&name);
    signature_help_for_function(name_string.as_str(), comma_count, cache)
}

/// The keyword completions: exactly these keywords, in this order, each with
/// this detail and this snippet.
pub proof fn lemma_keyword_item_labels()
    ensures
        keyword_items().map_values(|i: ItemView| i.label) == seq!["function"@, "const"@, "let"@, "if"@, "else"@, "while"@, "for"@, "class"@, "interface"@, "type"@, "import"@, "export"@, "async"@, "try"@, "switch"@, "test"@, "describe"@, "return"@, "throw"@],
        keyword_items().map_values(|i: ItemView| i.detail) == seq![Some("Function declaration"@), Some("Immutable variable"@), Some("Mutable variable"@), Some("If statement"@), Some("Else clause"@), Some("While loop"@), Some("For-of loop"@), Some("Class declaration"@), Some("Interface declaration"@), Some("Type alias"@), Some("Import declaration"@), Some("Export declaration"@), Some("Async function declaration"@), Some("Try-catch block"@), Some("Switch statement"@), Some("Test case"@), Some("Test suite"@), Some("Return statement"@), Some("Throw expression"@)],
        keyword_items().map_values(|i: ItemView| i.insert_text) == seq![Some("function ${1:name}(${2:params}): ${3:void} {\n\t$0\n}"@), Some("const ${1:name} = $0;"@), Some("let ${1:name} = $0;"@), Some("if (${1:condition}) {\n\t$0\n}"@), Some("else {\n\t$0\n}"@), Some("while (${1:condition}) {\n\t$0\n}"@), Some("for (const ${1:item} of ${2:items}) {\n\t$0\n}"@), Some("class ${1:Name} {\n\tconstructor(${2:params}) {\n\t\t$0\n\t}\n}"@), Some("interface ${1:Name} {\n\t$0\n}"@), Some("type ${1:Name} = {\n\t$0\n}"@), Some("import { $1 } from \"${2:module}\";"@), Some("export $0"@), Some("async function ${1:name}(${2:params}) {\n\t$0\n}"@), Some("try {\n\t$0\n} catch (${1:err}: ${2:string}) {\n\t\n}"@), Some("switch (${1:expr}) {\n\tcase \"${2:value}\":\n\t\t$0\n}"@), Some("test(\"${1:description}\", () => {\n\t$0\n});"@), Some("describe(\"${1:suite}\", () => {\n\t$0\n});"@), Some("return $0;"@), Some("throw $0;"@)],
{
    reveal_strlit("Async function declaration");
    reveal_strlit("Class declaration");
    reveal_strlit("Else clause");
    reveal_strlit("Export declaration");
    reveal_strlit("For-of loop");
    reveal_strlit("Function declaration");
    reveal_strlit("If statement");
    reveal_strlit("Immutable variable");
    reveal_strlit("Import declaration");
    reveal_strlit("Interface declaration");
    reveal_strlit("Mutable variable");
    reveal_strlit("Return statement");
    reveal_strlit("Switch statement");
    reveal_strlit("Test case");
    reveal_strlit("Test suite");
    reveal_strlit("Throw expression");
    reveal_strlit("Try-catch block");
    reveal_strlit("Type alias");
    reveal_strlit("While loop");
    reveal_strlit("async");
    reveal_strlit("async function ${1:name}(${2:params}) {\n\t$0\n}");
    reveal_strlit("class");
    reveal_strlit("class ${1:Name} {\n\tconstructor(${2:params}) {\n\t\t$0\n\t}\n}");
    reveal_strlit("const");
    reveal_strlit("const ${1:name} = $0;");
    reveal_strlit("describe");
    reveal_strlit("describe(\"${1:suite}\", () => {\n\t$0\n});");
    reveal_strlit("else");
    reveal_strlit("else {\n\t$0\n}");
    reveal_strlit("export");
    reveal_strlit("export $0");
    reveal_strlit("for");
    reveal_strlit("for (const ${1:item} of ${2:items}) {\n\t$0\n}");
    reveal_strlit("function");
    reveal_strlit("function ${1:name}(${2:params}): ${3:void} {\n\t$0\n}");
    reveal_strlit("if");
    reveal_strlit("if (${1:condition}) {\n\t$0\n}");
    reveal_strlit("import");
    reveal_strlit("import { $1 } from \"${2:module}\";");
    reveal_strlit("interface");
    reveal_strlit("interface ${1:Name} {\n\t$0\n}");
    reveal_strlit("let");
    reveal_strlit("let ${1:name} = $0;");
    reveal_strlit("return");
    reveal_strlit("return $0;");
    reveal_strlit("switch");
    reveal_strlit("switch (${1:expr}) {\n\tcase \"${2:value}\":\n\t\t$0\n}");
    reveal_strlit("test");
    reveal_strlit("test(\"${1:description}\", () => {\n\t$0\n});");
    reveal_strlit("throw");
    reveal_strlit("throw $0;");
    reveal_strlit("try");
    reveal_strlit("try {\n\t$0\n} catch (${1:err}: ${2:string}) {\n\t\n}");
    reveal_strlit("type");
    reveal_strlit("type ${1:Name} = {\n\t$0\n}");
    reveal_strlit("while");
    reveal_strlit("while (${1:condition}) {\n\t$0\n}");
    assert(keyword_items().map_values(|i: ItemView| i.label) =~= seq!["function"@, "const"@, "let"@, "if"@, "else"@, "while"@, "for"@, "class"@, "interface"@, "type"@, "import"@, "export"@, "async"@, "try"@, "switch"@, "test"@, "describe"@, "return"@, "throw"@]);
    assert(keyword_items().map_values(|i: ItemView| i.detail) =~= seq![Some("Function declaration"@), Some("Immutable variable"@), Some("Mutable variable"@), Some("If statement"@), Some("Else clause"@), Some("While loop"@), Some("For-of loop"@), Some("Class declaration"@), Some("Interface declaration"@), Some("Type alias"@), Some("Import declaration"@), Some("Export declaration"@), Some("Async function declaration"@), Some("Try-catch block"@), Some("Switch statement"@), Some("Test case"@), Some("Test suite"@), Some("Return statement"@), Some("Throw expression"@)]);
    assert(keyword_items().map_values(|i: ItemView| i.insert_text) =~= seq![Some("function ${1:name}(${2:params}): ${3:void} {\n\t$0\n}"@), Some("const ${1:name} = $0;"@), Some("let ${1:name} = $0;"@), Some("if (${1:condition}) {\n\t$0\n}"@), Some("else {\n\t$0\n}"@), Some("while (${1:condition}) {\n\t$0\n}"@), Some("for (const ${1:item} of ${2:items}) {\n\t$0\n}"@), Some("class ${1:Name} {\n\tconstructor(${2:params}) {\n\t\t$0\n\t}\n}"@), Some("interface ${1:Name} {\n\t$0\n}"@), Some("type ${1:Name} = {\n\t$0\n}"@), Some("import { $1 } from \"${2:module}\";"@), Some("export $0"@), Some("async function ${1:name}(${2:params}) {\n\t$0\n}"@), Some("try {\n\t$0\n} catch (${1:err}: ${2:string}) {\n\t\n}"@), Some("switch (${1:expr}) {\n\tcase \"${2:value}\":\n\t\t$0\n}"@), Some("test(\"${1:description}\", () => {\n\t$0\n});"@), Some("describe(\"${1:suite}\", () => {\n\t$0\n});"@), Some("return $0;"@), Some("throw $0;"@)]);
}

/// The `Math.` members offered: exactly these labels, in this order, each with
/// this signature as its detail, this documentation and this kind.
pub proof fn lemma_math_member_labels()
    ensures
        math_members().map_values(|i: ItemView| i.label) == seq!["floor"@, "ceil"@, "round"@, "abs"@, "sqrt"@, "min"@, "max"@, "random"@, "sin"@, "cos"@, "tan"@, "log"@, "pow"@, "PI"@, "E"@],
        math_members().map_values(|i: ItemView| i.detail) == seq![Some("(x: number): number"@), Some("(x: number): number"@), Some("(x: number): number"@), Some("(x: number): number"@), Some("(x: number): number"@), Some("(a: number, b: number): number"@), Some("(a: number, b: number): number"@), Some("(): number"@), Some("(x: number): number"@), Some("(x: number): number"@), Some("(x: number): number"@), Some("(x: number): number"@), Some("(base: number, exp: number): number"@), Some("number"@), Some("number"@)],
        math_members().map_values(|i: ItemView| i.documentation) == seq![Some("Rounds down to the nearest integer."@), Some("Rounds up to the nearest integer."@), Some("Rounds to the nearest integer."@), Some("Returns the absolute value."@), Some("Returns the square root."@), Some("Returns the smaller of two values."@), Some("Returns the larger of two values."@), Some("Returns a random f64 in [0, 1)."@), Some("Returns the sine."@), Some("Returns the cosine."@), Some("Returns the tangent."@), Some("Returns the natural logarithm."@), Some("Returns base raised to the power of exp."@), Some("The ratio of a circle's circumference to its diameter (~3.14159)."@), Some("Euler's number (~2.71828)."@)],
        math_members().map_values(|i: ItemView| i.kind) == seq![Some(CompletionItemKind::Method), Some(CompletionItemKind::Method), Some(CompletionItemKind::Method), Some(CompletionItemKind::Method), Some(CompletionItemKind::Method), Some(CompletionItemKind::Method), Some(CompletionItemKind::Method), Some(CompletionItemKind::Method), Some(CompletionItemKind::Method), Some(CompletionItemKind::Method), Some(CompletionItemKind::Method), Some(CompletionItemKind::Method), Some(CompletionItemKind::Method), Some(CompletionItemKind::Constant), Some(CompletionItemKind::Constant)],
{
    reveal_strlit("(): number");
    reveal_strlit("(a: number, b: number): number");
    reveal_strlit("(base: number, exp: number): number");
    reveal_strlit("(x: number): number");
    reveal_strlit("E");
    reveal_strlit("Euler's number (~2.71828).");
    reveal_strlit("PI");
    reveal_strlit("Returns a random f64 in [0, 1).");
    reveal_strlit("Returns base raised to the power of exp.");
    reveal_strlit("Returns the absolute value.");
    reveal_strlit("Returns the cosine.");
    reveal_strlit("Returns the larger of two values.");
    reveal_strlit("Returns the natural logarithm.");
    reveal_strlit("Returns the sine.");
    reveal_strlit("Returns the smaller of two values.");
    reveal_strlit("Returns the square root.");
    reveal_strlit("Returns the tangent.");
    reveal_strlit("Rounds down to the nearest integer.");
    reveal_strlit("Rounds to the nearest integer.");
    reveal_strlit("Rounds up to the nearest integer.");
    reveal_strlit("The ratio of a circle's circumference to its diameter (~3.14159).");
    reveal_strlit("abs");
    reveal_strlit("ceil");
    reveal_strlit("cos");
    reveal_strlit("floor");
    reveal_strlit("log");
    reveal_strlit("max");
    reveal_strlit("min");
    reveal_strlit("number");
    reveal_strlit("pow");
    reveal_strlit("random");
    reveal_strlit("round");
    reveal_strlit("sin");
    reveal_strlit("sqrt");
    reveal_strlit("tan");
    assert(math_members().map_values(|i: ItemView| i.label) =~= seq!["floor"@, "ceil"@, "round"@, "abs"@, "sqrt"@, "min"@, "max"@, "random"@, "sin"@, "cos"@, "tan"@, "log"@, "pow"@, "PI"@, "E"@]);
    assert(math_members().map_values(|i: ItemView| i.detail) =~= seq![Some("(x: number): number"@), Some("(x: number): number"@), Some("(x: number): number"@), Some("(x: number): number"@), Some("(x: number): number"@), Some("(a: number, b: number): number"@), Some("(a: number, b: number): number"@), Some("(): number"@), Some("(x: number): number"@), Some("(x: number): number"@), Some("(x: number): number"@), Some("(x: number): number"@), Some("(base: number, exp: number): number"@), Some("number"@), Some("number"@)]);
    assert(math_members().map_values(|i: ItemView| i.documentation) =~= seq![Some("Rounds down to the nearest integer."@), Some("Rounds up to the nearest integer."@), Some("Rounds to the nearest integer."@), Some("Returns the absolute value."@), Some("Returns the square root."@), Some("Returns the smaller of two values."@), Some("Returns the larger of two values."@), Some("Returns a random f64 in [0, 1)."@), Some("Returns the sine."@), Some("Returns the cosine."@), Some("Returns the tangent."@), Some("Returns the natural logarithm."@), Some("Returns base raised to the power of exp."@), Some("The ratio of a circle's circumference to its diameter (~3.14159)."@), Some("Euler's number (~2.71828)."@)]);
    assert(math_members().map_values(|i: ItemView| i.kind) =~= seq![Some(CompletionItemKind::Method), Some(CompletionItemKind::Method), Some(CompletionItemKind::Method), Some(CompletionItemKind::Method), Some(CompletionItemKind::Method), Some(CompletionItemKind::Method), Some(CompletionItemKind::Method), Some(CompletionItemKind::Method), Some(CompletionItemKind::Method), Some(CompletionItemKind::Method), Some(CompletionItemKind::Method), Some(CompletionItemKind::Method), Some(CompletionItemKind::Method), Some(CompletionItemKind::Constant), Some(CompletionItemKind::Constant)]);
}

/// The `console.` members offered: exactly these labels, in this order, each with
/// this signature as its detail, this documentation and this kind.
pub proof fn lemma_console_member_labels()
    ensures
        console_members().map_values(|i: ItemView| i.label) == seq!["log"@, "error"@, "warn"@, "debug"@],
        console_members().map_values(|i: ItemView| i.detail) == seq![Some("(...args): void"@), Some("(...args): void"@), Some("(...args): void"@), Some("(...args): void"@)],
        console_members().map_values(|i: ItemView| i.documentation) == seq![Some("Prints arguments to stdout."@), Some("Prints arguments to stderr."@), Some("Prints a warning to stderr."@), Some("Prints debug output to stderr."@)],
        console_members().map_values(|i: ItemView| i.kind) == seq![Some(CompletionItemKind::Method), Some(CompletionItemKind::Method), Some(CompletionItemKind::Method), Some(CompletionItemKind::Method)],
{
    reveal_strlit("(...args): void");
    reveal_strlit("Prints a warning to stderr.");
    reveal_strlit("Prints arguments to stderr.");
    reveal_strlit("Prints arguments to stdout.");
    reveal_strlit("Prints debug output to stderr.");
    reveal_strlit("debug");
    reveal_strlit("error");
    reveal_strlit("log");
    reveal_strlit("warn");
    assert(console_members().map_values(|i: ItemView| i.label) =~= seq!["log"@, "error"@, "warn"@, "debug"@]);
    assert(console_members().map_values(|i: ItemView| i.detail) =~= seq![Some("(...args): void"@), Some("(...args): void"@), Some("(...args): void"@), Some("(...args): void"@)]);
    assert(console_members().map_values(|i: ItemView| i.documentation) =~= seq![Some("Prints arguments to stdout."@), Some("Prints arguments to stderr."@), Some("Prints a warning to stderr."@), Some("Prints debug output to stderr."@)]);
    assert(console_members().map_values(|i: ItemView| i.kind) =~= seq![Some(CompletionItemKind::Method), Some(CompletionItemKind::Method), Some(CompletionItemKind::Method), Some(CompletionItemKind::Method)]);
}

/// The `JSON.` members offered: exactly these labels, in this order, each with
/// this signature as its detail, this documentation and this kind.
pub proof fn lemma_json_member_labels()
    ensures
        json_members().map_values(|i: ItemView| i.label) == seq!["parse"@, "stringify"@],
        json_members().map_values(|i: ItemView| i.detail) == seq![Some("(str: string): any"@), Some("(obj: any): string"@)],
        json_members().map_values(|i: ItemView| i.documentation) == seq![Some("Deserializes a JSON string to a value."@), Some("Serializes a value to a JSON string."@)],
        json_members().map_values(|i: ItemView| i.kind) == seq![Some(CompletionItemKind::Method), Some(CompletionItemKind::Method)],
{
    reveal_strlit("(obj: any): string");
    reveal_strlit("(str: string): any");
    reveal_strlit("Deserializes a JSON string to a value.");
    reveal_strlit("Serializes a value to a JSON string.");
    reveal_strlit("parse");
    reveal_strlit("stringify");
    assert(json_members().map_values(|i: ItemView| i.label) =~= seq!["parse"@, "stringify"@]);
    assert(json_members().map_values(|i: ItemView| i.detail) =~= seq![Some("(str: string): any"@), Some("(obj: any): string"@)]);
    assert(json_members().map_values(|i: ItemView| i.documentation) =~= seq![Some("Deserializes a JSON string to a value."@), Some("Serializes a value to a JSON string."@)]);
    assert(json_members().map_values(|i: ItemView| i.kind) =~= seq![Some(CompletionItemKind::Method), Some(CompletionItemKind::Method)]);
}

/// The `Number.` members offered: exactly these labels, in this order, each with
/// this signature as its detail, this documentation and this kind.
pub proof fn lemma_number_member_labels()
    ensures
        number_members().map_values(|i: ItemView| i.label) == seq!["parseInt"@, "parseFloat"@, "isNaN"@, "isFinite"@, "isInteger"@],
        number_members().map_values(|i: ItemView| i.detail) == seq![Some("(str: string): number"@), Some("(str: string): number"@), Some("(x: number): boolean"@), Some("(x: number): boolean"@), Some("(x: number): boolean"@)],
        number_members().map_values(|i: ItemView| i.documentation) == seq![Some("Parses a string as an integer."@), Some("Parses a string as a float."@), Some("Checks if the value is NaN."@), Some("Checks if the value is finite."@), Some("Checks if the value is an integer."@)],
        number_members().map_values(|i: ItemView| i.kind) == seq![Some(CompletionItemKind::Method), Some(CompletionItemKind::Method), Some(CompletionItemKind::Method), Some(CompletionItemKind::Method), Some(CompletionItemKind::Method)],
{
    reveal_strlit("(str: string): number");
    reveal_strlit("(x: number): boolean");
    reveal_strlit("Checks if the value is NaN.");
    reveal_strlit("Checks if the value is an integer.");
    reveal_strlit("Checks if the value is finite.");
    reveal_strlit("Parses a string as a float.");
    reveal_strlit("Parses a string as an integer.");
    reveal_strlit("isFinite");
    reveal_strlit("isInteger");
    reveal_strlit("isNaN");
    reveal_strlit("parseFloat");
    reveal_strlit("parseInt");
    assert(number_members().map_values(|i: ItemView| i.label) =~= seq!["parseInt"@, "parseFloat"@, "isNaN"@, "isFinite"@, "isInteger"@]);
    assert(number_members().map_values(|i: ItemView| i.detail) =~= seq![Some("(str: string): number"@), Some("(str: string): number"@), Some("(x: number): boolean"@), Some("(x: number): boolean"@), Some("(x: number): boolean"@)]);
    assert(number_members().map_values(|i: ItemView| i.documentation) =~= seq![Some("Parses a string as an integer."@), Some("Parses a string as a float."@), Some("Checks if the value is NaN."@), Some("Checks if the value is finite."@), Some("Checks if the value is an integer."@)]);
    assert(number_members().map_values(|i: ItemView| i.kind) =~= seq![Some(CompletionItemKind::Method), Some(CompletionItemKind::Method), Some(CompletionItemKind::Method), Some(CompletionItemKind::Method), Some(CompletionItemKind::Method)]);
}

/// The `Object.` members offered: exactly these labels, in this order, each with
/// this signature as its detail, this documentation and this kind.
pub proof fn lemma_object_member_labels()
    ensures
        object_members().map_values(|i: ItemView| i.label) == seq!["keys"@, "values"@, "entries"@],
        object_members().map_values(|i: ItemView| i.detail) == seq![Some("(map: Map<K, V>): Array<K>"@), Some("(map: Map<K, V>): Array<V>"@), Some("(map: Map<K, V>): Array<[K, V]>"@)],
        object_members().map_values(|i: ItemView| i.documentation) == seq![Some("Returns the keys of a map as an array."@), Some("Returns the values of a map as an array."@), Some("Returns the entries of a map as key-value pairs."@)],
        object_members().map_values(|i: ItemView| i.kind) == seq![Some(CompletionItemKind::Method), Some(CompletionItemKind::Method), Some(CompletionItemKind::Method)],
{
    reveal_strlit("(map: Map<K, V>): Array<K>");
    reveal_strlit("(map: Map<K, V>): Array<V>");
    reveal_strlit("(map: Map<K, V>): Array<[K, V]>");
    reveal_strlit("Returns the entries of a map as key-value pairs.");
    reveal_strlit("Returns the keys of a map as an array.");
    reveal_strlit("Returns the values of a map as an array.");
    reveal_strlit("entries");
    reveal_strlit("keys");
    reveal_strlit("values");
    assert(object_members().map_values(|i: ItemView| i.label) =~= seq!["keys"@, "values"@, "entries"@]);
    assert(object_members().map_values(|i: ItemView| i.detail) =~= seq![Some("(map: Map<K, V>): Array<K>"@), Some("(map: Map<K, V>): Array<V>"@), Some("(map: Map<K, V>): Array<[K, V]>"@)]);
    assert(object_members().map_values(|i: ItemView| i.documentation) =~= seq![Some("Returns the keys of a map as an array."@), Some("Returns the values of a map as an array."@), Some("Returns the entries of a map as key-value pairs."@)]);
    assert(object_members().map_values(|i: ItemView| i.kind) =~= seq![Some(CompletionItemKind::Method), Some(CompletionItemKind::Method), Some(CompletionItemKind::Method)]);
}

/// The string members offered: exactly these labels, in this order, each with
/// this signature as its detail, this documentation and this kind.
pub proof fn lemma_string_member_labels()
    ensures
        string_members().map_values(|i: ItemView| i.label) == seq!["toUpperCase"@, "toLowerCase"@, "trim"@, "trimStart"@, "trimEnd"@, "startsWith"@, "endsWith"@, "includes"@, "split"@, "replace"@, "replaceAll"@, "charAt"@, "indexOf"@, "lastIndexOf"@, "slice"@, "substring"@, "repeat"@, "padStart"@, "padEnd"@, "concat"@, "length"@],
        string_members().map_values(|i: ItemView| i.detail) == seq![Some("(): string"@), Some("(): string"@), Some("(): string"@), Some("(): string"@), Some("(): string"@), Some("(prefix: string): boolean"@), Some("(suffix: string): boolean"@), Some("(search: string): boolean"@), Some("(separator: string): Array<string>"@), Some("(search: string, replacement: string): string"@), Some("(search: string, replacement: string): string"@), Some("(index: i32): string"@), Some("(search: string): i32"@), Some("(search: string): i32"@), Some("(start: i32, end?: i32): string"@), Some("(start: i32, end?: i32): string"@), Some("(count: i32): string"@), Some("(length: i32, fill?: string): string"@), Some("(length: i32, fill?: string): string"@), Some("(other: string): string"@), Some("number"@)],
        string_members().map_values(|i: ItemView| i.documentation) == seq![Some("Converts the string to uppercase."@), Some("Converts the string to lowercase."@), Some("Removes leading and trailing whitespace."@), Some("Removes leading whitespace."@), Some("Removes trailing whitespace."@), Some("Checks if the string starts with the given prefix."@), Some("Checks if the string ends with the given suffix."@), Some("Checks if the string contains the given substring."@), Some("Splits the string by the separator."@), Some("Replaces the first occurrence of a substring."@), Some("Replaces all occurrences of a substring."@), Some("Returns the character at the given index."@), Some("Returns the index of the first occurrence, or -1."@), Some("Returns the index of the last occurrence, or -1."@), Some("Extracts a section of the string."@), Some("Extracts characters between two indices."@), Some("Repeats the string the given number of times."@), Some("Pads the string from the start."@), Some("Pads the string from the end."@), Some("Concatenates two strings."@), Some("The number of characters in the string."@)],
        string_members().map_values(|i: ItemView| i.kind) == seq![Some(CompletionItemKind::Method), Some(CompletionItemKind::Method), Some(CompletionItemKind::Method), Some(CompletionItemKind::Method), Some(CompletionItemKind::Method), Some(CompletionItemKind::Method), Some(CompletionItemKind::Method), Some(CompletionItemKind::Method), Some(CompletionItemKind::Method), Some(CompletionItemKind::Method), Some(CompletionItemKind::Method), Some(CompletionItemKind::Method), Some(CompletionItemKind::Method), Some(CompletionItemKind::Method), Some(CompletionItemKind::Method), Some(CompletionItemKind::Method), Some(CompletionItemKind::Method), Some(CompletionItemKind::Method), Some(CompletionItemKind::Method), Some(CompletionItemKind::Method), Some(CompletionItemKind::Property)],
{
    reveal_strlit("(): string");
    reveal_strlit("(count: i32): string");
    reveal_strlit("(index: i32): string");
    reveal_strlit("(length: i32, fill?: string): string");
    reveal_strlit("(other: string): string");
    reveal_strlit("(prefix: string): boolean");
    reveal_strlit("(search: string): boolean");
    reveal_strlit("(search: string): i32");
    reveal_strlit("(search: string, replacement: string): string");
    reveal_strlit("(separator: string): Array<string>");
    reveal_strlit("(start: i32, end?: i32): string");
    reveal_strlit("(suffix: string): boolean");
    reveal_strlit("Checks if the string contains the given substring.");
    reveal_strlit("Checks if the string ends with the given suffix.");
    reveal_strlit("Checks if the string starts with the given prefix.");
    reveal_strlit("Concatenates two strings.");
    reveal_strlit("Converts the string to lowercase.");
    reveal_strlit("Converts the string to uppercase.");
    reveal_strlit("Extracts a section of the string.");
    reveal_strlit("Extracts characters between two indices.");
    reveal_strlit("Pads the string from the end.");
    reveal_strlit("Pads the string from the start.");
    reveal_strlit("Removes leading and trailing whitespace.");
    reveal_strlit("Removes leading whitespace.");
    reveal_strlit("Removes trailing whitespace.");
    reveal_strlit("Repeats the string the given number of times.");
    reveal_strlit("Replaces all occurrences of a substring.");
    reveal_strlit("Replaces the first occurrence of a substring.");
    reveal_strlit("Returns the character at the given index.");
    reveal_strlit("Returns the index of the first occurrence, or -1.");
    reveal_strlit("Returns the index of the last occurrence, or -1.");
    reveal_strlit("Splits the string by the separator.");
    reveal_strlit("The number of characters in the string.");
    reveal_strlit("charAt");
    reveal_strlit("concat");
    reveal_strlit("endsWith");
    reveal_strlit("includes");
    reveal_strlit("indexOf");
    reveal_strlit("lastIndexOf");
    reveal_strlit("length");
    reveal_strlit("number");
    reveal_strlit("padEnd");
    reveal_strlit("padStart");
    reveal_strlit("repeat");
    reveal_strlit("replace");
    reveal_strlit("replaceAll");
    reveal_strlit("slice");
    reveal_strlit("split");
    reveal_strlit("startsWith");
    reveal_strlit("substring");
    reveal_strlit("toLowerCase");
    reveal_strlit("toUpperCase");
    reveal_strlit("trim");
    reveal_strlit("trimEnd");
    reveal_strlit("trimStart");
    assert(string_members().map_values(|i: ItemView| i.label) =~= seq!["toUpperCase"@, "toLowerCase"@, "trim"@, "trimStart"@, "trimEnd"@, "startsWith"@, "endsWith"@, "includes"@, "split"@, "replace"@, "replaceAll"@, "charAt"@, "indexOf"@, "lastIndexOf"@, "slice"@, "substring"@, "repeat"@, "padStart"@, "padEnd"@, "concat"@, "length"@]);
    assert(string_members().map_values(|i: ItemView| i.detail) =~= seq![Some("(): string"@), Some("(): string"@), Some("(): string"@), Some("(): string"@), Some("(): string"@), Some("(prefix: string): boolean"@), Some("(suffix: string): boolean"@), Some("(search: string): boolean"@), Some("(separator: string): Array<string>"@), Some("(search: string, replacement: string): string"@), Some("(search: string, replacement: string): string"@), Some("(index: i32): string"@), Some("(search: string): i32"@), Some("(search: string): i32"@), Some("(start: i32, end?: i32): string"@), Some("(start: i32, end?: i32): string"@), Some("(count: i32): string"@), Some("(length: i32, fill?: string): string"@), Some("(length: i32, fill?: string): string"@), Some("(other: string): string"@), Some("number"@)]);
    assert(string_members().map_values(|i: ItemView| i.documentation) =~= seq![Some("Converts the string to uppercase."@), Some("Converts the string to lowercase."@), Some("Removes leading and trailing whitespace."@), Some("Removes leading whitespace."@), Some("Removes trailing whitespace."@), Some("Checks if the string starts with the given prefix."@), Some("Checks if the string ends with the given suffix."@), Some("Checks if the string contains the given substring."@), Some("Splits the string by the separator."@), Some("Replaces the first occurrence of a substring."@), Some("Replaces all occurrences of a substring."@), Some("Returns the character at the given index."@), Some("Returns the index of the first occurrence, or -1."@), Some("Returns the index of the last occurrence, or -1."@), Some("Extracts a section of the string."@), Some("Extracts characters between two indices."@), Some("Repeats the string the given number of times."@), Some("Pads the string from the start."@), Some("Pads the string from the end."@), Some("Concatenates two strings."@), Some("The number of characters in the string."@)]);
    assert(string_members().map_values(|i: ItemView| i.kind) =~= seq![Some(CompletionItemKind::Method), Some(CompletionItemKind::Method), Some(CompletionItemKind::Method), Some(CompletionItemKind::Method), Some(CompletionItemKind::Method), Some(CompletionItemKind::Method), Some(CompletionItemKind::Method), Some(CompletionItemKind::Method), Some(CompletionItemKind::Method), Some(CompletionItemKind::Method), Some(CompletionItemKind::Method), Some(CompletionItemKind::Method), Some(CompletionItemKind::Method), Some(CompletionItemKind::Method), Some(CompletionItemKind::Method), Some(CompletionItemKind::Method), Some(CompletionItemKind::Method), Some(CompletionItemKind::Method), Some(CompletionItemKind::Method), Some(CompletionItemKind::Method), Some(CompletionItemKind::Property)]);
}

/// The array members offered: exactly these labels, in this order, each with
/// this signature as its detail, this documentation and this kind.
pub proof fn lemma_array_member_labels()
    ensures
        array_members().map_values(|i: ItemView| i.label) == seq!["map"@, "filter"@, "reduce"@, "forEach"@, "find"@, "findIndex"@, "some"@, "every"@, "push"@, "pop"@, "shift"@, "unshift"@, "join"@, "flat"@, "flatMap"@, "reverse"@, "sort"@, "fill"@, "length"@],
        array_members().map_values(|i: ItemView| i.detail) == seq![Some("(fn: (T) => U): Array<U>"@), Some("(fn: (T) => boolean): Array<T>"@), Some("(fn: (acc: U, item: T) => U, initial: U): U"@), Some("(fn: (T) => void): void"@), Some("(fn: (T) => boolean): T | null"@), Some("(fn: (T) => boolean): i32"@), Some("(fn: (T) => boolean): boolean"@), Some("(fn: (T) => boolean): boolean"@), Some("(value: T): void"@), Some("(): T | null"@), Some("(): T | null"@), Some("(value: T): void"@), Some("(separator: string): string"@), Some("(): Array<T>"@), Some("(fn: (T) => Array<U>): Array<U>"@), Some("(): void"@), Some("(): void"@), Some("(value: T): void"@), Some("number"@)],
        array_members().map_values(|i: ItemView| i.documentation) == seq![Some("Transforms each element using the given function."@), Some("Keeps elements where the predicate returns true."@), Some("Reduces the array to a single value."@), Some("Executes a function for each element."@), Some("Returns the first element matching the predicate."@), Some("Returns the index of the first matching element, or -1."@), Some("Returns true if any element matches."@), Some("Returns true if all elements match."@), Some("Appends an element to the end."@), Some("Removes and returns the last element."@), Some("Removes and returns the first element."@), Some("Inserts an element at the beginning."@), Some("Joins array elements into a string."@), Some("Flattens one level of nesting."@), Some("Maps then flattens one level."@), Some("Reverses the array in place."@), Some("Sorts the array in place."@), Some("Fills the array with the given value."@), Some("The number of elements in the array."@)],
        array_members().map_values(|i: ItemView| i.kind) == seq![Some(CompletionItemKind::Method), Some(CompletionItemKind::Method), Some(CompletionItemKind::Method), Some(CompletionItemKind::Method), Some(CompletionItemKind::Method), Some(CompletionItemKind::Method), Some(CompletionItemKind::Method), Some(CompletionItemKind::Method), Some(CompletionItemKind::Method), Some(CompletionItemKind::Method), Some(CompletionItemKind::Method), Some(CompletionItemKind::Method), Some(CompletionItemKind::Method), Some(CompletionItemKind::Method), Some(CompletionItemKind::Method), Some(CompletionItemKind::Method), Some(CompletionItemKind::Method), Some(CompletionItemKind::Method), Some(CompletionItemKind::Property)],
{
    reveal_strlit("(): Array<T>");
    reveal_strlit("(): T | null");
    reveal_strlit("(): void");
    reveal_strlit("(fn: (T) => Array<U>): Array<U>");
    reveal_strlit("(fn: (T) => U): Array<U>");
    reveal_strlit("(fn: (T) => boolean): Array<T>");
    reveal_strlit("(fn: (T) => boolean): T | null");
    reveal_strlit("(fn: (T) => boolean): boolean");
    reveal_strlit("(fn: (T) => boolean): i32");
    reveal_strlit("(fn: (T) => void): void");
    reveal_strlit("(fn: (acc: U, item: T) => U, initial: U): U");
    reveal_strlit("(separator: string): string");
    reveal_strlit("(value: T): void");
    reveal_strlit("Appends an element to the end.");
    reveal_strlit("Executes a function for each element.");
    reveal_strlit("Fills the array with the given value.");
    reveal_strlit("Flattens one level of nesting.");
    reveal_strlit("Inserts an element at the beginning.");
    reveal_strlit("Joins array elements into a string.");
    reveal_strlit("Keeps elements where the predicate returns true.");
    reveal_strlit("Maps then flattens one level.");
    reveal_strlit("Reduces the array to a single value.");
    reveal_strlit("Removes and returns the first element.");
    reveal_strlit("Removes and returns the last element.");
    reveal_strlit("Returns the first element matching the predicate.");
    reveal_strlit("Returns the index of the first matching element, or -1.");
    reveal_strlit("Returns true if all elements match.");
    reveal_strlit("Returns true if any element matches.");
    reveal_strlit("Reverses the array in place.");
    reveal_strlit("Sorts the array in place.");
    reveal_strlit("The number of elements in the array.");
    reveal_strlit("Transforms each element using the given function.");
    reveal_strlit("every");
    reveal_strlit("fill");
    reveal_strlit("filter");
    reveal_strlit("find");
    reveal_strlit("findIndex");
    reveal_strlit("flat");
    reveal_strlit("flatMap");
    reveal_strlit("forEach");
    reveal_strlit("join");
    reveal_strlit("length");
    reveal_strlit("map");
    reveal_strlit("number");
    reveal_strlit("pop");
    reveal_strlit("push");
    reveal_strlit("reduce");
    reveal_strlit("reverse");
    reveal_strlit("shift");
    reveal_strlit("some");
    reveal_strlit("sort");
    reveal_strlit("unshift");
    assert(array_members().map_values(|i: ItemView| i.label) =~= seq!["map"@, "filter"@, "reduce"@, "forEach"@, "find"@, "findIndex"@, "some"@, "every"@, "push"@, "pop"@, "shift"@, "unshift"@, "join"@, "flat"@, "flatMap"@, "reverse"@, "sort"@, "fill"@, "length"@]);
    assert(array_members().map_values(|i: ItemView| i.detail) =~= seq![Some("(fn: (T) => U): Array<U>"@), Some("(fn: (T) => boolean): Array<T>"@), Some("(fn: (acc: U, item: T) => U, initial: U): U"@), Some("(fn: (T) => void): void"@), Some("(fn: (T) => boolean): T | null"@), Some("(fn: (T) => boolean): i32"@), Some("(fn: (T) => boolean): boolean"@), Some("(fn: (T) => boolean): boolean"@), Some("(value: T): void"@), Some("(): T | null"@), Some("(): T | null"@), Some("(value: T): void"@), Some("(separator: string): string"@), Some("(): Array<T>"@), Some("(fn: (T) => Array<U>): Array<U>"@), Some("(): void"@), Some("(): void"@), Some("(value: T): void"@), Some("number"@)]);
    assert(array_members().map_values(|i: ItemView| i.documentation) =~= seq![Some("Transforms each element using the given function."@), Some("Keeps elements where the predicate returns true."@), Some("Reduces the array to a single value."@), Some("Executes a function for each element."@), Some("Returns the first element matching the predicate."@), Some("Returns the index of the first matching element, or -1."@), Some("Returns true if any element matches."@), Some("Returns true if all elements match."@), Some("Appends an element to the end."@), Some("Removes and returns the last element."@), Some("Removes and returns the first element."@), Some("Inserts an element at the beginning."@), Some("Joins array elements into a string."@), Some("Flattens one level of nesting."@), Some("Maps then flattens one level."@), Some("Reverses the array in place."@), Some("Sorts the array in place."@), Some("Fills the array with the given value."@), Some("The number of elements in the array."@)]);
    assert(array_members().map_values(|i: ItemView| i.kind) =~= seq![Some(CompletionItemKind::Method), Some(CompletionItemKind::Method), Some(CompletionItemKind::Method), Some(CompletionItemKind::Method), Some(CompletionItemKind::Method), Some(CompletionItemKind::Method), Some(CompletionItemKind::Method), Some(CompletionItemKind::Method), Some(CompletionItemKind::Method), Some(CompletionItemKind::Method), Some(CompletionItemKind::Method), Some(CompletionItemKind::Method), Some(CompletionItemKind::Method), Some(CompletionItemKind::Method), Some(CompletionItemKind::Method), Some(CompletionItemKind::Method), Some(CompletionItemKind::Method), Some(CompletionItemKind::Method), Some(CompletionItemKind::Property)]);
}

/// The map members offered: exactly these labels, in this order, each with
/// this signature as its detail, this documentation and this kind.
pub proof fn lemma_map_member_labels()
    ensures
        map_members().map_values(|i: ItemView| i.label) == seq!["get"@, "set"@, "has"@, "delete"@, "keys"@, "values"@, "entries"@, "clear"@],
        map_members().map_values(|i: ItemView| i.detail) == seq![Some("(key: K): V | null"@), Some("(key: K, value: V): void"@), Some("(key: K): boolean"@), Some("(key: K): boolean"@), Some("(): Array<K>"@), Some("(): Array<V>"@), Some("(): Array<[K, V]>"@), Some("(): void"@)],
        map_members().map_values(|i: ItemView| i.documentation) == seq![Some("Returns the value for the given key, or null."@), Some("Sets a key-value pair."@), Some("Checks if the map contains the key."@), Some("Removes the entry for the given key."@), Some("Returns the keys as an array."@), Some("Returns the values as an array."@), Some("Returns entries as key-value pairs."@), Some("Removes all entries."@)],
        map_members().map_values(|i: ItemView| i.kind) == seq![Some(CompletionItemKind::Method), Some(CompletionItemKind::Method), Some(CompletionItemKind::Method), Some(CompletionItemKind::Method), Some(CompletionItemKind::Method), Some(CompletionItemKind::Method), Some(CompletionItemKind::Method), Some(CompletionItemKind::Method)],
{
    reveal_strlit("(): Array<K>");
    reveal_strlit("(): Array<V>");
    reveal_strlit("(): Array<[K, V]>");
    reveal_strlit("(): void");
    reveal_strlit("(key: K): V | null");
    reveal_strlit("(key: K): boolean");
    reveal_strlit("(key: K, value: V): void");
    reveal_strlit("Checks if the map contains the key.");
    reveal_strlit("Removes all entries.");
    reveal_strlit("Removes the entry for the given key.");
    reveal_strlit("Returns entries as key-value pairs.");
    reveal_strlit("Returns the keys as an array.");
    reveal_strlit("Returns the value for the given key, or null.");
    reveal_strlit("Returns the values as an array.");
    reveal_strlit("Sets a key-value pair.");
    reveal_strlit("clear");
    reveal_strlit("delete");
    reveal_strlit("entries");
    reveal_strlit("get");
    reveal_strlit("has");
    reveal_strlit("keys");
    reveal_strlit("set");
    reveal_strlit("values");
    assert(map_members().map_values(|i: ItemView| i.label) =~= seq!["get"@, "set"@, "has"@, "delete"@, "keys"@, "values"@, "entries"@, "clear"@]);
    assert(map_members().map_values(|i: ItemView| i.detail) =~= seq![Some("(key: K): V | null"@), Some("(key: K, value: V): void"@), Some("(key: K): boolean"@), Some("(key: K): boolean"@), Some("(): Array<K>"@), Some("(): Array<V>"@), Some("(): Array<[K, V]>"@), Some("(): void"@)]);
    assert(map_members().map_values(|i: ItemView| i.documentation) =~= seq![Some("Returns the value for the given key, or null."@), Some("Sets a key-value pair."@), Some("Checks if the map contains the key."@), Some("Removes the entry for the given key."@), Some("Returns the keys as an array."@), Some("Returns the values as an array."@), Some("Returns entries as key-value pairs."@), Some("Removes all entries."@)]);
    assert(map_members().map_values(|i: ItemView| i.kind) =~= seq![Some(CompletionItemKind::Method), Some(CompletionItemKind::Method), Some(CompletionItemKind::Method), Some(CompletionItemKind::Method), Some(CompletionItemKind::Method), Some(CompletionItemKind::Method), Some(CompletionItemKind::Method), Some(CompletionItemKind::Method)]);
}

/// The set members offered: exactly these labels, in this order, each with
/// this signature as its detail, this documentation and this kind.
pub proof fn lemma_set_member_labels()
    ensures
        set_members().map_values(|i: ItemView| i.label) == seq!["add"@, "has"@, "delete"@, "clear"@, "values"@],
        set_members().map_values(|i: ItemView| i.detail) == seq![Some("(value: T): void"@), Some("(value: T): boolean"@), Some("(value: T): boolean"@), Some("(): void"@), Some("(): Array<T>"@)],
        set_members().map_values(|i: ItemView| i.documentation) == seq![Some("Adds a value to the set."@), Some("Checks if the set contains the value."@), Some("Removes the value from the set."@), Some("Removes all values."@), Some("Returns all values as an array."@)],
        set_members().map_values(|i: ItemView| i.kind) == seq![Some(CompletionItemKind::Method), Some(CompletionItemKind::Method), Some(CompletionItemKind::Method), Some(CompletionItemKind::Method), Some(CompletionItemKind::Method)],
{
    reveal_strlit("(): Array<T>");
    reveal_strlit("(): void");
    reveal_strlit("(value: T): boolean");
    reveal_strlit("(value: T): void");
    reveal_strlit("Adds a value to the set.");
    reveal_strlit("Checks if the set contains the value.");
    reveal_strlit("Removes all values.");
    reveal_strlit("Removes the value from the set.");
    reveal_strlit("Returns all values as an array.");
    reveal_strlit("add");
    reveal_strlit("clear");
    reveal_strlit("delete");
    reveal_strlit("has");
    reveal_strlit("values");
    assert(set_members().map_values(|i: ItemView| i.label) =~= seq!["add"@, "has"@, "delete"@, "clear"@, "values"@]);
    assert(set_members().map_values(|i: ItemView| i.detail) =~= seq![Some("(value: T): void"@), Some("(value: T): boolean"@), Some("(value: T): boolean"@), Some("(): void"@), Some("(): Array<T>"@)]);
    assert(set_members().map_values(|i: ItemView| i.documentation) =~= seq![Some("Adds a value to the set."@), Some("Checks if the set contains the value."@), Some("Removes the value from the set."@), Some("Removes all values."@), Some("Returns all values as an array."@)]);
    assert(set_members().map_values(|i: ItemView| i.kind) =~= seq![Some(CompletionItemKind::Method), Some(CompletionItemKind::Method), Some(CompletionItemKind::Method), Some(CompletionItemKind::Method), Some(CompletionItemKind::Method)]);
}
/// Which members a builtin object offers: `Math`, `console`, `JSON`,
/// `Number` and `Object` their own tables, any other name none.
pub proof fn lemma_builtin_object_dispatch(name: Seq<char>)
    ensures
        name == "Math"@ ==> builtin_object_members(name) == Some(math_members()),
        name == "console"@ ==> builtin_object_members(name) == Some(console_members()),
        name == "JSON"@ ==> builtin_object_members(name) == Some(json_members()),
        name == "Number"@ ==> builtin_object_members(name) == Some(number_members()),
        name == "Object"@ ==> builtin_object_members(name) == Some(object_members()),
        name != "Math"@ && name != "console"@ && name != "JSON"@ && name != "Number"@ && name != "Object"@
            ==> builtin_object_members(name) is None,
{
    reveal_strlit("Math");
    reveal_strlit("console");
    reveal_strlit("JSON");
    reveal_strlit("Number");
    reveal_strlit("Object");
    assert("Math"@.len() == 4);
    assert("console"@.len() == 7);
    assert("JSON"@.len() == 4);
    assert("Number"@.len() == 6);
    assert("Object"@.len() == 6);
    assert("Math"@[0] != "JSON"@[0]);
    assert("Number"@[0] != "Object"@[0]);
}

/// Which members a type offers: `String` and `string` the string members,
/// `Vec<..>` and `Array<..>` the array members, `HashMap<..>` and `Map<..>`
/// the map members, `HashSet<..>` and `Set<..>` the set members.
pub proof fn lemma_type_member_dispatch(t: Seq<char>)
    ensures
        t == "String"@ || t == "string"@ ==> type_members(t) == Some(string_members()),
        has_prefix(t, "Vec<"@) || has_prefix(t, "Array<"@) ==> type_members(t) == Some(array_members()),
        has_prefix(t, "HashMap<"@) || has_prefix(t, "Map<"@) ==> type_members(t) == Some(map_members()),
        has_prefix(t, "HashSet<"@) || has_prefix(t, "Set<"@) ==> type_members(t) == Some(set_members()),
{
    reveal_strlit("String");
    reveal_strlit("string");
    reveal_strlit("Vec<");
    reveal_strlit("Array<");
    reveal_strlit("HashMap<");
    reveal_strlit("Map<");
    reveal_strlit("HashSet<");
    reveal_strlit("Set<");
    if has_prefix(t, "Vec<"@) {
        assert(t.take(4)[0] == t[0]);
        assert(t != "String"@);
    }
    if has_prefix(t, "Vec<"@) {
        assert(t.take(4)[0] == t[0]);
        assert(t != "string"@);
    }
    if has_prefix(t, "Array<"@) {
        assert(t.take(6)[0] == t[0]);
        assert(t != "String"@);
    }
    if has_prefix(t, "Array<"@) {
        assert(t.take(6)[0] == t[0]);
        assert(t != "string"@);
    }
    if has_prefix(t, "HashMap<"@) {
        assert(t.take(8)[0] == t[0]);
        assert(t != "String"@);
    }
    if has_prefix(t, "HashMap<"@) {
        assert(t.take(8)[0] == t[0]);
        assert(t != "string"@);
    }
    if has_prefix(t, "HashMap<"@) {
        assert(t.take(8)[0] == t[0]);
        if has_prefix(t, "Vec<"@) {
            assert(t.take(4)[0] == t[0]);
        }
        assert(!has_prefix(t, "Vec<"@));
    }
    if has_prefix(t, "HashMap<"@) {
        assert(t.take(8)[0] == t[0]);
        if has_prefix(t, "Array<"@) {
            assert(t.take(6)[0] == t[0]);
        }
        assert(!has_prefix(t, "Array<"@));
    }
    if has_prefix(t, "Map<"@) {
        assert(t.take(4)[0] == t[0]);
        assert(t != "String"@);
    }
    if has_prefix(t, "Map<"@) {
        assert(t.take(4)[0] == t[0]);
        assert(t != "string"@);
    }
    if has_prefix(t, "Map<"@) {
        assert(t.take(4)[0] == t[0]);
        if has_prefix(t, "Vec<"@) {
            assert(t.take(4)[0] == t[0]);
        }
        assert(!has_prefix(t, "Vec<"@));
    }
    if has_prefix(t, "Map<"@) {
        assert(t.take(4)[0] == t[0]);
        if has_prefix(t, "Array<"@) {
            assert(t.take(6)[0] == t[0]);
        }
        assert(!has_prefix(t, "Array<"@));
    }
    if has_prefix(t, "HashSet<"@) {
        assert(t.take(8)[0] == t[0]);
        assert(t != "String"@);
    }
    if has_prefix(t, "HashSet<"@) {
        assert(t.take(8)[0] == t[0]);
        assert(t != "string"@);
    }
    if has_prefix(t, "HashSet<"@) {
        assert(t.take(8)[0] == t[0]);
        if has_prefix(t, "Vec<"@) {
            assert(t.take(4)[0] == t[0]);
        }
        assert(!has_prefix(t, "Vec<"@));
    }
    if has_prefix(t, "HashSet<"@) {
        assert(t.take(8)[0] == t[0]);
        if has_prefix(t, "Array<"@) {
            assert(t.take(6)[0] == t[0]);
        }
        assert(!has_prefix(t, "Array<"@));
    }
    if has_prefix(t, "HashSet<"@) {
        assert(t.take(8)[4] == t[4]);
        if has_prefix(t, "HashMap<"@) {
            assert(t.take(8)[4] == t[4]);
        }
        assert(!has_prefix(t, "HashMap<"@));
    }
    if has_prefix(t, "HashSet<"@) {
        assert(t.take(8)[0] == t[0]);
        if has_prefix(t, "Map<"@) {
            assert(t.take(4)[0] == t[0]);
        }
        assert(!has_prefix(t, "Map<"@));
    }
    if has_prefix(t, "Set<"@) {
        assert(t.take(4)[1] == t[1]);
        assert(t != "String"@);
    }
    if has_prefix(t, "Set<"@) {
        assert(t.take(4)[0] == t[0]);
        assert(t != "string"@);
    }
    if has_prefix(t, "Set<"@) {
        assert(t.take(4)[0] == t[0]);
        if has_prefix(t, "Vec<"@) {
            assert(t.take(4)[0] == t[0]);
        }
        assert(!has_prefix(t, "Vec<"@));
    }
    if has_prefix(t, "Set<"@) {
        assert(t.take(4)[0] == t[0]);
        if has_prefix(t, "Array<"@) {
            assert(t.take(6)[0] == t[0]);
        }
        assert(!has_prefix(t, "Array<"@));
    }
    if has_prefix(t, "Set<"@) {
        assert(t.take(4)[0] == t[0]);
        if has_prefix(t, "HashMap<"@) {
            assert(t.take(8)[0] == t[0]);
        }
        assert(!has_prefix(t, "HashMap<"@));
    }
    if has_prefix(t, "Set<"@) {
        assert(t.take(4)[0] == t[0]);
        if has_prefix(t, "Map<"@) {
            assert(t.take(4)[0] == t[0]);
        }
        assert(!has_prefix(t, "Map<"@));
    }
}
} // verus!
