//! Hover descriptions for RustScript builtins, keywords and literals.
//!
//! These entries do not come from user code; they are matched by name
//! (identifiers, keywords) or by `receiver.method` key (methods).

use vstd::prelude::*;

use crate::text::{chars_of, eq_str, has_prefix, push_str};

verus! {

/// Hover description for a builtin identifier or method.
#[derive(Debug, Clone, Copy)]
pub struct BuiltinHover {
    /// Markdown content to display on hover.
    pub markdown: &'static str,
}

/// Hover text for `console`.
pub const IDENT_CONSOLE: &'static str = "```rustscript\nobject console\n```\n\nThe console object --- provides output methods.\n\n- `console.log(...args)` --- `println!(\"{}\", ...)`\n- `console.error(...args)` --- `eprintln!(\"{}\", ...)`";

/// Hover text for `null`.
pub const IDENT_NULL: &'static str = "```rustscript\nnull\n```\n\nThe null literal --- represents absence of a value.\n\n**Rust:** `None`\n\nIn RustScript, `T | null` lowers to `Option<T>`.";

/// Hover text for `true`.
pub const IDENT_TRUE: &'static str = "```rustscript\ntrue: boolean\n```\n\nBoolean literal.\n\n**Rust:** `true`";

/// Hover text for `false`.
pub const IDENT_FALSE: &'static str = "```rustscript\nfalse: boolean\n```\n\nBoolean literal.\n\n**Rust:** `false`";

/// Hover text for `this`.
pub const IDENT_THIS: &'static str = "```rustscript\nthis\n```\n\nReference to the current class instance.\n\n**Rust:** `self`";

/// Hover text for `console.log`.
pub const METHOD_CONSOLE_LOG: &'static str = "```rustscript\nconsole.log(...args): void\n```\n\nPrints arguments to stdout.\n\n**Rust:** `println!(\"{}\", ...)`";

/// Hover text for `console.error`.
pub const METHOD_CONSOLE_ERROR: &'static str = "```rustscript\nconsole.error(...args): void\n```\n\nPrints arguments to stderr.\n\n**Rust:** `eprintln!(\"{}\", ...)`";

/// Hover text for `string.toUpperCase`.
pub const METHOD_STRING_TOUPPERCASE: &'static str = "```rustscript\nstring.toUpperCase(): string\n```\n\nConverts the string to uppercase.\n\n**Rust:** `.to_uppercase()`";

/// Hover text for `string.toLowerCase`.
pub const METHOD_STRING_TOLOWERCASE: &'static str = "```rustscript\nstring.toLowerCase(): string\n```\n\nConverts the string to lowercase.\n\n**Rust:** `.to_lowercase()`";

/// Hover text for `string.trim`.
pub const METHOD_STRING_TRIM: &'static str = "```rustscript\nstring.trim(): string\n```\n\nRemoves leading and trailing whitespace.\n\n**Rust:** `.trim().to_owned()`";

/// Hover text for `string.includes`.
pub const METHOD_STRING_INCLUDES: &'static str = "```rustscript\nstring.includes(search: string): boolean\n```\n\nChecks if the string contains the given substring.\n\n**Rust:** `.contains(search)`";

/// Hover text for `string.startsWith`.
pub const METHOD_STRING_STARTSWITH: &'static str = "```rustscript\nstring.startsWith(prefix: string): boolean\n```\n\nChecks if the string starts with the given prefix.\n\n**Rust:** `.starts_with(prefix)`";

/// Hover text for `string.endsWith`.
pub const METHOD_STRING_ENDSWITH: &'static str = "```rustscript\nstring.endsWith(suffix: string): boolean\n```\n\nChecks if the string ends with the given suffix.\n\n**Rust:** `.ends_with(suffix)`";

/// Hover text for `string.split`.
pub const METHOD_STRING_SPLIT: &'static str = "```rustscript\nstring.split(separator: string): Array<string>\n```\n\nSplits the string by the separator.\n\n**Rust:** `.split(sep).map(|s| s.to_owned()).collect::<Vec<String>>()`";

/// Hover text for `string.length`.
pub const METHOD_STRING_LENGTH: &'static str = "```rustscript\nstring.length: number\n```\n\nThe number of characters in the string.\n\n**Rust:** `.len()`";

/// Hover text for `string.toString`.
pub const METHOD_STRING_TOSTRING: &'static str = "```rustscript\nstring.toString(): string\n```\n\nReturns the string itself.\n\n**Rust:** `.to_string()`";

/// Hover text for `string.chars`.
pub const METHOD_STRING_CHARS: &'static str = "```rustscript\nstring.chars(): Array<string>\n```\n\nReturns the characters of the string.\n\n**Rust:** `.chars()`";

/// Hover text for `array.push`.
pub const METHOD_ARRAY_PUSH: &'static str = "```rustscript\nArray<T>.push(value: T): void\n```\n\nAppends an element to the end of the array.\n\n**Rust:** `.push(value)`";

/// Hover text for `array.pop`.
pub const METHOD_ARRAY_POP: &'static str = "```rustscript\nArray<T>.pop(): T | null\n```\n\nRemoves and returns the last element.\n\n**Rust:** `.pop()`";

/// Hover text for `array.map`.
pub const METHOD_ARRAY_MAP: &'static str = "```rustscript\nArray<T>.map(fn: (T) => U): Array<U>\n```\n\nTransforms each element using the given function.\n\n**Rust:** `.iter().map(fn).collect()`";

/// Hover text for `array.filter`.
pub const METHOD_ARRAY_FILTER: &'static str = "```rustscript\nArray<T>.filter(fn: (T) => boolean): Array<T>\n```\n\nKeeps elements where the predicate returns true.\n\n**Rust:** `.iter().filter(fn).cloned().collect()`";

/// Hover text for `array.forEach`.
pub const METHOD_ARRAY_FOREACH: &'static str = "```rustscript\nArray<T>.forEach(fn: (T) => void): void\n```\n\nExecutes a function for each element.\n\n**Rust:** `.iter().for_each(fn)` or `for item in &arr { ... }`";

/// Hover text for `array.length`.
pub const METHOD_ARRAY_LENGTH: &'static str = "```rustscript\nArray<T>.length: number\n```\n\nThe number of elements in the array.\n\n**Rust:** `.len()`";

/// Hover text for `array.isEmpty`.
pub const METHOD_ARRAY_ISEMPTY: &'static str = "```rustscript\nArray<T>.isEmpty(): boolean\n```\n\nChecks if the array has no elements.\n\n**Rust:** `.is_empty()`";

/// Hover text for `array.join`.
pub const METHOD_ARRAY_JOIN: &'static str = "```rustscript\nArray<T>.join(separator: string): string\n```\n\nJoins array elements into a single string.\n\n**Rust:** `.join(separator)`";

/// Hover text for `Promise.all`.
pub const METHOD_PROMISE_ALL: &'static str = "```rustscript\nPromise.all(promises: Array<Promise<T>>): Promise<Array<T>>\n```\n\nWaits for all promises to resolve.\n\n**Rust:** `futures::future::join_all(futures)`";

/// Hover text for `spawn`.
pub const METHOD_SPAWN: &'static str = "```rustscript\nspawn(fn: () => void): void\n```\n\nSpawns a concurrent task.\n\n**Rust:** `tokio::spawn(async { ... })`";

/// Hover text for `async`.
pub const KEYWORD_ASYNC: &'static str = "```\nasync\n```\n\nMarks a function as asynchronous. Async functions return a `Promise<T>`.\n\n**Rust:** `async fn`";

/// Hover text for `await`.
pub const KEYWORD_AWAIT: &'static str = "```\nawait\n```\n\nWaits for a `Promise<T>` to resolve, yielding the inner value.\n\n**Rust:** `.await`";

/// Hover text for `throws`.
pub const KEYWORD_THROWS: &'static str = "```\nthrows ErrorType\n```\n\nDeclares that a function can return an error. The return type becomes `Result<T, E>`.\n\n**Rust:** `-> Result<T, E>`";

/// Hover text for `shared`.
pub const KEYWORD_SHARED: &'static str = "```\nshared<T>\n```\n\nWraps a value in thread-safe shared ownership.\n\n**Rust:** `Arc<Mutex<T>>`\n\nAccess via `.lock().unwrap()` is inserted automatically.";

/// Hover text for `const`.
pub const KEYWORD_CONST: &'static str = "```\nconst\n```\n\nDeclares an immutable variable binding.\n\n**Rust:** `let`";

/// Hover text for `let`.
pub const KEYWORD_LET: &'static str = "```\nlet\n```\n\nDeclares a mutable variable binding.\n\n**Rust:** `let mut`";

/// Builtin identifiers and their hover text.
pub open spec fn identifier_hover(key: Seq<char>) -> Option<Seq<char>> {
    if key == "console"@ {
        Some(IDENT_CONSOLE@)
    } else if key == "null"@ {
        Some(IDENT_NULL@)
    } else if key == "true"@ {
        Some(IDENT_TRUE@)
    } else if key == "false"@ {
        Some(IDENT_FALSE@)
    } else if key == "this"@ {
        Some(IDENT_THIS@)
    } else {
        None
    }
}

/// Builtin methods, keyed `receiver.method`, and their hover text.
pub open spec fn method_hover(key: Seq<char>) -> Option<Seq<char>> {
    if key == "console.log"@ {
        Some(METHOD_CONSOLE_LOG@)
    } else if key == "console.error"@ {
        Some(METHOD_CONSOLE_ERROR@)
    } else if key == "string.toUpperCase"@ {
        Some(METHOD_STRING_TOUPPERCASE@)
    } else if key == "string.toLowerCase"@ {
        Some(METHOD_STRING_TOLOWERCASE@)
    } else if key == "string.trim"@ {
        Some(METHOD_STRING_TRIM@)
    } else if key == "string.includes"@ {
        Some(METHOD_STRING_INCLUDES@)
    } else if key == "string.startsWith"@ {
        Some(METHOD_STRING_STARTSWITH@)
    } else if key == "string.endsWith"@ {
        Some(METHOD_STRING_ENDSWITH@)
    } else if key == "string.split"@ {
        Some(METHOD_STRING_SPLIT@)
    } else if key == "string.length"@ {
        Some(METHOD_STRING_LENGTH@)
    } else if key == "string.toString"@ {
        Some(METHOD_STRING_TOSTRING@)
    } else if key == "string.chars"@ {
        Some(METHOD_STRING_CHARS@)
    } else if key == "array.push"@ {
        Some(METHOD_ARRAY_PUSH@)
    } else if key == "array.pop"@ {
        Some(METHOD_ARRAY_POP@)
    } else if key == "array.map"@ {
        Some(METHOD_ARRAY_MAP@)
    } else if key == "array.filter"@ {
        Some(METHOD_ARRAY_FILTER@)
    } else if key == "array.forEach"@ {
        Some(METHOD_ARRAY_FOREACH@)
    } else if key == "array.length"@ {
        Some(METHOD_ARRAY_LENGTH@)
    } else if key == "array.isEmpty"@ {
        Some(METHOD_ARRAY_ISEMPTY@)
    } else if key == "array.join"@ {
        Some(METHOD_ARRAY_JOIN@)
    } else if key == "Promise.all"@ {
        Some(METHOD_PROMISE_ALL@)
    } else if key == "spawn"@ {
        Some(METHOD_SPAWN@)
    } else {
        None
    }
}

/// Keywords and their hover text.
pub open spec fn keyword_hover(key: Seq<char>) -> Option<Seq<char>> {
    if key == "async"@ {
        Some(KEYWORD_ASYNC@)
    } else if key == "await"@ {
        Some(KEYWORD_AWAIT@)
    } else if key == "throws"@ {
        Some(KEYWORD_THROWS@)
    } else if key == "shared"@ {
        Some(KEYWORD_SHARED@)
    } else if key == "const"@ {
        Some(KEYWORD_CONST@)
    } else if key == "let"@ {
        Some(KEYWORD_LET@)
    } else {
        None
    }
}

/// The view of an optional string slice.
pub open spec fn opt_view(o: Option<&str>) -> Option<Seq<char>> {
    match o {
        Some(s) => Some(s@),
        None => None,
    }
}

/// The lookup key of a method: `receiver.method`.
pub open spec fn method_key(receiver: Seq<char>, method: Seq<char>) -> Seq<char> {
    receiver + seq!['.'] + method
}

fn find_identifier_hover(key: &[char]) -> (r: Option<&'static str>)
    ensures
        opt_view(r) == identifier_hover(key@),
{
    if eq_str(key, "console") {
        return Some(IDENT_CONSOLE);
    }
    if eq_str(key, "null") {
        return Some(IDENT_NULL);
    }
    if eq_str(key, "true") {
        return Some(IDENT_TRUE);
    }
    if eq_str(key, "false") {
        return Some(IDENT_FALSE);
    }
    if eq_str(key, "this") {
        return Some(IDENT_THIS);
    }
    None
}

fn find_method_hover(key: &[char]) -> (r: Option<&'static str>)
    ensures
        opt_view(r) == method_hover(key@),
{
    if eq_str(key, "console.log") {
        return Some(METHOD_CONSOLE_LOG);
    }
    if eq_str(key, "console.error") {
        return Some(METHOD_CONSOLE_ERROR);
    }
    if eq_str(key, "string.toUpperCase") {
        return Some(METHOD_STRING_TOUPPERCASE);
    }
    if eq_str(key, "string.toLowerCase") {
        return Some(METHOD_STRING_TOLOWERCASE);
    }
    if eq_str(key, "string.trim") {
        return Some(METHOD_STRING_TRIM);
    }
    if eq_str(key, "string.includes") {
        return Some(METHOD_STRING_INCLUDES);
    }
    if eq_str(key, "string.startsWith") {
        return Some(METHOD_STRING_STARTSWITH);
    }
    if eq_str(key, "string.endsWith") {
        return Some(METHOD_STRING_ENDSWITH);
    }
    if eq_str(key, "string.split") {
        return Some(METHOD_STRING_SPLIT);
    }
    if eq_str(key, "string.length") {
        return Some(METHOD_STRING_LENGTH);
    }
    if eq_str(key, "string.toString") {
        return Some(METHOD_STRING_TOSTRING);
    }
    if eq_str(key, "string.chars") {
        return Some(METHOD_STRING_CHARS);
    }
    if eq_str(key, "array.push") {
        return Some(METHOD_ARRAY_PUSH);
    }
    if eq_str(key, "array.pop") {
        return Some(METHOD_ARRAY_POP);
    }
    if eq_str(key, "array.map") {
        return Some(METHOD_ARRAY_MAP);
    }
    if eq_str(key, "array.filter") {
        return Some(METHOD_ARRAY_FILTER);
    }
    if eq_str(key, "array.forEach") {
        return Some(METHOD_ARRAY_FOREACH);
    }
    if eq_str(key, "array.length") {
        return Some(METHOD_ARRAY_LENGTH);
    }
    if eq_str(key, "array.isEmpty") {
        return Some(METHOD_ARRAY_ISEMPTY);
    }
    if eq_str(key, "array.join") {
        return Some(METHOD_ARRAY_JOIN);
    }
    if eq_str(key, "Promise.all") {
        return Some(METHOD_PROMISE_ALL);
    }
    if eq_str(key, "spawn") {
        return Some(METHOD_SPAWN);
    }
    None
}

fn find_keyword_hover(key: &[char]) -> (r: Option<&'static str>)
    ensures
        opt_view(r) == keyword_hover(key@),
{
    if eq_str(key, "async") {
        return Some(KEYWORD_ASYNC);
    }
    if eq_str(key, "await") {
        return Some(KEYWORD_AWAIT);
    }
    if eq_str(key, "throws") {
        return Some(KEYWORD_THROWS);
    }
    if eq_str(key, "shared") {
        return Some(KEYWORD_SHARED);
    }
    if eq_str(key, "const") {
        return Some(KEYWORD_CONST);
    }
    if eq_str(key, "let") {
        return Some(KEYWORD_LET);
    }
    None
}

/// Look up hover information for a builtin identifier.
///
/// Returns the hover markdown if the identifier matches a known builtin
/// (e.g., `console`, `null`, `true`, `false`).
pub fn lookup_identifier(name: &str) -> (r: Option<&'static str>)
    ensures
        opt_view(r) == identifier_hover(name@),
{
    let key = chars_of(name);
    find_identifier_hover(&key)
}

/// Look up hover information for a method call.
///
/// The `receiver` is the type or object name (e.g., `"console"`, `"string"`, `"array"`),
/// and `method` is the method name (e.g., `"log"`, `"toUpperCase"`, `"map"`).
pub fn lookup_method(receiver: &str, method: &str) -> (r: Option<&'static str>)
    ensures
        opt_view(r) == method_hover(method_key(receiver@, method@)),
{
    let mut key = chars_of(receiver);
    key.push('.');
    push_str(&mut key, method);
    assert(key@ == method_key(receiver@, method@));
    find_method_hover(&key)
}

/// Look up hover information for a keyword.
///
/// Returns the hover markdown if the name matches a known keyword
/// (e.g., `"async"`, `"await"`, `"throws"`, `"shared"`).
pub fn lookup_keyword(name: &str) -> (r: Option<&'static str>)
    ensures
        opt_view(r) == keyword_hover(name@),
{
    let key = chars_of(name);
    find_keyword_hover(&key)
}

/// Classify a receiver expression name as a builtin type for method lookup.
///
/// Only `console` is known by name; for arbitrary variable names the caller
/// should use the compile result instead.
pub fn classify_receiver(name: &str) -> (r: Option<&'static str>)
    ensures
        opt_view(r) == (if name@ == "console"@ { Some("console"@) } else { None::<Seq<char>> }),
{
    let key = chars_of(name);
    if eq_str(&key, "console") {
        Some("console")
    } else {
        None
    }
}

/// The `spawn` entry is keyed without a receiver, so no `receiver.method`
/// lookup ever reaches it: every method key contains a `.` and `spawn` does not.
pub proof fn lemma_spawn_key_unreachable(receiver: Seq<char>, method: Seq<char>)
    ensures
        method_key(receiver, method) != "spawn"@,
{
    reveal_strlit("spawn");
    let k = method_key(receiver, method);
    assert(k[receiver.len() as int] == '.');
    let spawn = "spawn"@;
    assert(spawn =~= seq!['s', 'p', 'a', 'w', 'n']);
    if k == spawn {
        let i = receiver.len() as int;
        assert(0 <= i < 5);
        assert(spawn[i] == '.');
    }
}

/// The heading a method's hover text names its receiver by: `Array<T>` for
/// arrays, the receiver itself otherwise.
pub open spec fn receiver_heading(receiver: Seq<char>) -> Seq<char> {
    if receiver == "array"@ {
        "Array<T>"@
    } else {
        receiver
    }
}

/// A method key equal to `key`, whose only `.` is at `d`, splits there.
proof fn lemma_key_parts(r: Seq<char>, m: Seq<char>, key: Seq<char>, d: int)
    requires
        method_key(r, m) == key,
        0 <= d < key.len(),
        key[d] == '.',
        forall|i: int| 0 <= i < key.len() && i != d ==> key[i] != '.',
    ensures
        r == key.take(d),
        m == key.skip(d + 1),
{
    let k = method_key(r, m);
    assert(k[r.len() as int] == '.');
    assert(k.len() == r.len() + 1 + m.len());
    assert(key[r.len() as int] == '.');
    assert(r =~= k.take(d));
    assert(m =~= k.skip(d + 1));
}

/// The hover text found for `receiver.method` documents that very method:
/// it opens with a `rustscript` code block headed by the receiver (`Array<T>`
/// for arrays) and the method's name.
pub proof fn lemma_method_hover_documents_method(receiver: Seq<char>, method: Seq<char>)
    ensures
        method_hover(method_key(receiver, method)) matches Some(t) ==> has_prefix(
            t,
            "```rustscript\n"@ + receiver_heading(receiver) + "."@ + method,
        ),
{
    reveal_strlit("array");
    reveal_strlit("Array<T>");
    reveal_strlit("```rustscript\n");
    reveal_strlit(".");
    lemma_spawn_key_unreachable(receiver, method);
    let k = method_key(receiver, method);
    if k == "console.log"@ {
        reveal_strlit("console.log");
        reveal_strlit("console");
        reveal_strlit("log");
        reveal_strlit("```rustscript\nconsole.log(...args): void\n```\n\nPrints arguments to stdout.\n\n**Rust:** `println!(\"{}\", ...)`");
        assert(forall|i: int| 0 <= i < 11 && i != 7 ==> "console.log"@[i] != '.');
        lemma_key_parts(receiver, method, "console.log"@, 7);
        assert(receiver =~= "console"@);
        assert(method =~= "log"@);
        assert(METHOD_CONSOLE_LOG@.take(25) =~= "```rustscript\n"@ + receiver_heading(receiver) + "."@ + method);
    } else if k == "console.error"@ {
        reveal_strlit("console.error");
        reveal_strlit("console");
        reveal_strlit("error");
        reveal_strlit("```rustscript\nconsole.error(...args): void\n```\n\nPrints arguments to stderr.\n\n**Rust:** `eprintln!(\"{}\", ...)`");
        assert(forall|i: int| 0 <= i < 13 && i != 7 ==> "console.error"@[i] != '.');
        lemma_key_parts(receiver, method, "console.error"@, 7);
        assert(receiver =~= "console"@);
        assert(method =~= "error"@);
        assert(METHOD_CONSOLE_ERROR@.take(27) =~= "```rustscript\n"@ + receiver_heading(receiver) + "."@ + method);
    } else if k == "string.toUpperCase"@ {
        reveal_strlit("string.toUpperCase");
        reveal_strlit("string");
        reveal_strlit("toUpperCase");
        reveal_strlit("```rustscript\nstring.toUpperCase(): string\n```\n\nConverts the string to uppercase.\n\n**Rust:** `.to_uppercase()`");
        assert(forall|i: int| 0 <= i < 18 && i != 6 ==> "string.toUpperCase"@[i] != '.');
        lemma_key_parts(receiver, method, "string.toUpperCase"@, 6);
        assert(receiver =~= "string"@);
        assert(method =~= "toUpperCase"@);
        assert(METHOD_STRING_TOUPPERCASE@.take(32) =~= "```rustscript\n"@ + receiver_heading(receiver) + "."@ + method);
    } else if k == "string.toLowerCase"@ {
        reveal_strlit("string.toLowerCase");
        reveal_strlit("string");
        reveal_strlit("toLowerCase");
        reveal_strlit("```rustscript\nstring.toLowerCase(): string\n```\n\nConverts the string to lowercase.\n\n**Rust:** `.to_lowercase()`");
        assert(forall|i: int| 0 <= i < 18 && i != 6 ==> "string.toLowerCase"@[i] != '.');
        lemma_key_parts(receiver, method, "string.toLowerCase"@, 6);
        assert(receiver =~= "string"@);
        assert(method =~= "toLowerCase"@);
        assert(METHOD_STRING_TOLOWERCASE@.take(32) =~= "```rustscript\n"@ + receiver_heading(receiver) + "."@ + method);
    } else if k == "string.trim"@ {
        reveal_strlit("string.trim");
        reveal_strlit("string");
        reveal_strlit("trim");
        reveal_strlit("```rustscript\nstring.trim(): string\n```\n\nRemoves leading and trailing whitespace.\n\n**Rust:** `.trim().to_owned()`");
        assert(forall|i: int| 0 <= i < 11 && i != 6 ==> "string.trim"@[i] != '.');
        lemma_key_parts(receiver, method, "string.trim"@, 6);
        assert(receiver =~= "string"@);
        assert(method =~= "trim"@);
        assert(METHOD_STRING_TRIM@.take(25) =~= "```rustscript\n"@ + receiver_heading(receiver) + "."@ + method);
    } else if k == "string.includes"@ {
        reveal_strlit("string.includes");
        reveal_strlit("string");
        reveal_strlit("includes");
        reveal_strlit("```rustscript\nstring.includes(search: string): boolean\n```\n\nChecks if the string contains the given substring.\n\n**Rust:** `.contains(search)`");
        assert(forall|i: int| 0 <= i < 15 && i != 6 ==> "string.includes"@[i] != '.');
        lemma_key_parts(receiver, method, "string.includes"@, 6);
        assert(receiver =~= "string"@);
        assert(method =~= "includes"@);
        assert(METHOD_STRING_INCLUDES@.take(29) =~= "```rustscript\n"@ + receiver_heading(receiver) + "."@ + method);
    } else if k == "string.startsWith"@ {
        reveal_strlit("string.startsWith");
        reveal_strlit("string");
        reveal_strlit("startsWith");
        reveal_strlit("```rustscript\nstring.startsWith(prefix: string): boolean\n```\n\nChecks if the string starts with the given prefix.\n\n**Rust:** `.starts_with(prefix)`");
        assert(forall|i: int| 0 <= i < 17 && i != 6 ==> "string.startsWith"@[i] != '.');
        lemma_key_parts(receiver, method, "string.startsWith"@, 6);
        assert(receiver =~= "string"@);
        assert(method =~= "startsWith"@);
        assert(METHOD_STRING_STARTSWITH@.take(31) =~= "```rustscript\n"@ + receiver_heading(receiver) + "."@ + method);
    } else if k == "string.endsWith"@ {
        reveal_strlit("string.endsWith");
        reveal_strlit("string");
        reveal_strlit("endsWith");
        reveal_strlit("```rustscript\nstring.endsWith(suffix: string): boolean\n```\n\nChecks if the string ends with the given suffix.\n\n**Rust:** `.ends_with(suffix)`");
        assert(forall|i: int| 0 <= i < 15 && i != 6 ==> "string.endsWith"@[i] != '.');
        lemma_key_parts(receiver, method, "string.endsWith"@, 6);
        assert(receiver =~= "string"@);
        assert(method =~= "endsWith"@);
        assert(METHOD_STRING_ENDSWITH@.take(29) =~= "```rustscript\n"@ + receiver_heading(receiver) + "."@ + method);
    } else if k == "string.split"@ {
        reveal_strlit("string.split");
        reveal_strlit("string");
        reveal_strlit("split");
        reveal_strlit("```rustscript\nstring.split(separator: string): Array<string>\n```\n\nSplits the string by the separator.\n\n**Rust:** `.split(sep).map(|s| s.to_owned()).collect::<Vec<String>>()`");
        assert(forall|i: int| 0 <= i < 12 && i != 6 ==> "string.split"@[i] != '.');
        lemma_key_parts(receiver, method, "string.split"@, 6);
        assert(receiver =~= "string"@);
        assert(method =~= "split"@);
        assert(METHOD_STRING_SPLIT@.take(26) =~= "```rustscript\n"@ + receiver_heading(receiver) + "."@ + method);
    } else if k == "string.length"@ {
        reveal_strlit("string.length");
        reveal_strlit("string");
        reveal_strlit("length");
        reveal_strlit("```rustscript\nstring.length: number\n```\n\nThe number of characters in the string.\n\n**Rust:** `.len()`");
        assert(forall|i: int| 0 <= i < 13 && i != 6 ==> "string.length"@[i] != '.');
        lemma_key_parts(receiver, method, "string.length"@, 6);
        assert(receiver =~= "string"@);
        assert(method =~= "length"@);
        assert(METHOD_STRING_LENGTH@.take(27) =~= "```rustscript\n"@ + receiver_heading(receiver) + "."@ + method);
    } else if k == "string.toString"@ {
        reveal_strlit("string.toString");
        reveal_strlit("string");
        reveal_strlit("toString");
        reveal_strlit("```rustscript\nstring.toString(): string\n```\n\nReturns the string itself.\n\n**Rust:** `.to_string()`");
        assert(forall|i: int| 0 <= i < 15 && i != 6 ==> "string.toString"@[i] != '.');
        lemma_key_parts(receiver, method, "string.toString"@, 6);
        assert(receiver =~= "string"@);
        assert(method =~= "toString"@);
        assert(METHOD_STRING_TOSTRING@.take(29) =~= "```rustscript\n"@ + receiver_heading(receiver) + "."@ + method);
    } else if k == "string.chars"@ {
        reveal_strlit("string.chars");
        reveal_strlit("string");
        reveal_strlit("chars");
        reveal_strlit("```rustscript\nstring.chars(): Array<string>\n```\n\nReturns the characters of the string.\n\n**Rust:** `.chars()`");
        assert(forall|i: int| 0 <= i < 12 && i != 6 ==> "string.chars"@[i] != '.');
        lemma_key_parts(receiver, method, "string.chars"@, 6);
        assert(receiver =~= "string"@);
        assert(method =~= "chars"@);
        assert(METHOD_STRING_CHARS@.take(26) =~= "```rustscript\n"@ + receiver_heading(receiver) + "."@ + method);
    } else if k == "array.push"@ {
        reveal_strlit("array.push");
        reveal_strlit("array");
        reveal_strlit("push");
        reveal_strlit("```rustscript\nArray<T>.push(value: T): void\n```\n\nAppends an element to the end of the array.\n\n**Rust:** `.push(value)`");
        assert(forall|i: int| 0 <= i < 10 && i != 5 ==> "array.push"@[i] != '.');
        lemma_key_parts(receiver, method, "array.push"@, 5);
        assert(receiver =~= "array"@);
        assert(method =~= "push"@);
        assert(METHOD_ARRAY_PUSH@.take(27) =~= "```rustscript\n"@ + receiver_heading(receiver) + "."@ + method);
    } else if k == "array.pop"@ {
        reveal_strlit("array.pop");
        reveal_strlit("array");
        reveal_strlit("pop");
        reveal_strlit("```rustscript\nArray<T>.pop(): T | null\n```\n\nRemoves and returns the last element.\n\n**Rust:** `.pop()`");
        assert(forall|i: int| 0 <= i < 9 && i != 5 ==> "array.pop"@[i] != '.');
        lemma_key_parts(receiver, method, "array.pop"@, 5);
        assert(receiver =~= "array"@);
        assert(method =~= "pop"@);
        assert(METHOD_ARRAY_POP@.take(26) =~= "```rustscript\n"@ + receiver_heading(receiver) + "."@ + method);
    } else if k == "array.map"@ {
        reveal_strlit("array.map");
        reveal_strlit("array");
        reveal_strlit("map");
        reveal_strlit("```rustscript\nArray<T>.map(fn: (T) => U): Array<U>\n```\n\nTransforms each element using the given function.\n\n**Rust:** `.iter().map(fn).collect()`");
        assert(forall|i: int| 0 <= i < 9 && i != 5 ==> "array.map"@[i] != '.');
        lemma_key_parts(receiver, method, "array.map"@, 5);
        assert(receiver =~= "array"@);
        assert(method =~= "map"@);
        assert(METHOD_ARRAY_MAP@.take(26) =~= "```rustscript\n"@ + receiver_heading(receiver) + "."@ + method);
    } else if k == "array.filter"@ {
        reveal_strlit("array.filter");
        reveal_strlit("array");
        reveal_strlit("filter");
        reveal_strlit("```rustscript\nArray<T>.filter(fn: (T) => boolean): Array<T>\n```\n\nKeeps elements where the predicate returns true.\n\n**Rust:** `.iter().filter(fn).cloned().collect()`");
        assert(forall|i: int| 0 <= i < 12 && i != 5 ==> "array.filter"@[i] != '.');
        lemma_key_parts(receiver, method, "array.filter"@, 5);
        assert(receiver =~= "array"@);
        assert(method =~= "filter"@);
        assert(METHOD_ARRAY_FILTER@.take(29) =~= "```rustscript\n"@ + receiver_heading(receiver) + "."@ + method);
    } else if k == "array.forEach"@ {
        reveal_strlit("array.forEach");
        reveal_strlit("array");
        reveal_strlit("forEach");
        reveal_strlit("```rustscript\nArray<T>.forEach(fn: (T) => void): void\n```\n\nExecutes a function for each element.\n\n**Rust:** `.iter().for_each(fn)` or `for item in &arr { ... }`");
        assert(forall|i: int| 0 <= i < 13 && i != 5 ==> "array.forEach"@[i] != '.');
        lemma_key_parts(receiver, method, "array.forEach"@, 5);
        assert(receiver =~= "array"@);
        assert(method =~= "forEach"@);
        assert(METHOD_ARRAY_FOREACH@.take(30) =~= "```rustscript\n"@ + receiver_heading(receiver) + "."@ + method);
    } else if k == "array.length"@ {
        reveal_strlit("array.length");
        reveal_strlit("array");
        reveal_strlit("length");
        reveal_strlit("```rustscript\nArray<T>.length: number\n```\n\nThe number of elements in the array.\n\n**Rust:** `.len()`");
        assert(forall|i: int| 0 <= i < 12 && i != 5 ==> "array.length"@[i] != '.');
        lemma_key_parts(receiver, method, "array.length"@, 5);
        assert(receiver =~= "array"@);
        assert(method =~= "length"@);
        assert(METHOD_ARRAY_LENGTH@.take(29) =~= "```rustscript\n"@ + receiver_heading(receiver) + "."@ + method);
    } else if k == "array.isEmpty"@ {
        reveal_strlit("array.isEmpty");
        reveal_strlit("array");
        reveal_strlit("isEmpty");
        reveal_strlit("```rustscript\nArray<T>.isEmpty(): boolean\n```\n\nChecks if the array has no elements.\n\n**Rust:** `.is_empty()`");
        assert(forall|i: int| 0 <= i < 13 && i != 5 ==> "array.isEmpty"@[i] != '.');
        lemma_key_parts(receiver, method, "array.isEmpty"@, 5);
        assert(receiver =~= "array"@);
        assert(method =~= "isEmpty"@);
        assert(METHOD_ARRAY_ISEMPTY@.take(30) =~= "```rustscript\n"@ + receiver_heading(receiver) + "."@ + method);
    } else if k == "array.join"@ {
        reveal_strlit("array.join");
        reveal_strlit("array");
        reveal_strlit("join");
        reveal_strlit("```rustscript\nArray<T>.join(separator: string): string\n```\n\nJoins array elements into a single string.\n\n**Rust:** `.join(separator)`");
        assert(forall|i: int| 0 <= i < 10 && i != 5 ==> "array.join"@[i] != '.');
        lemma_key_parts(receiver, method, "array.join"@, 5);
        assert(receiver =~= "array"@);
        assert(method =~= "join"@);
        assert(METHOD_ARRAY_JOIN@.take(27) =~= "```rustscript\n"@ + receiver_heading(receiver) + "."@ + method);
    } else if k == "Promise.all"@ {
        reveal_strlit("Promise.all");
        reveal_strlit("Promise");
        reveal_strlit("all");
        reveal_strlit("```rustscript\nPromise.all(promises: Array<Promise<T>>): Promise<Array<T>>\n```\n\nWaits for all promises to resolve.\n\n**Rust:** `futures::future::join_all(futures)`");
        assert(forall|i: int| 0 <= i < 11 && i != 7 ==> "Promise.all"@[i] != '.');
        lemma_key_parts(receiver, method, "Promise.all"@, 7);
        assert(receiver =~= "Promise"@);
        assert(method =~= "all"@);
        assert(METHOD_PROMISE_ALL@.take(25) =~= "```rustscript\n"@ + receiver_heading(receiver) + "."@ + method);
    }
}


/// The hover text of a builtin identifier names it in its heading
/// (`object console` for the console).
pub proof fn lemma_identifier_hover_names_it(name: Seq<char>)
    ensures
        identifier_hover(name) matches Some(t) ==> has_prefix(
            t,
            "```rustscript\n"@ + (if name == "console"@ { "object "@ } else { Seq::<char>::empty() }) + name,
        ),
{
    reveal_strlit("```rustscript\n");
    reveal_strlit("object ");
    if name == "console"@ {
        reveal_strlit("console");
        reveal_strlit("```rustscript\nobject console\n```\n\nThe console object --- provides output methods.\n\n- `console.log(...args)` --- `println!(\"{}\", ...)`\n- `console.error(...args)` --- `eprintln!(\"{}\", ...)`");
        assert(IDENT_CONSOLE@.take(28) =~= "```rustscript\n"@ + (if name == "console"@ { "object "@ } else { Seq::<char>::empty() }) + name);
    } else if name == "null"@ {
        reveal_strlit("null");
        reveal_strlit("```rustscript\nnull\n```\n\nThe null literal --- represents absence of a value.\n\n**Rust:** `None`\n\nIn RustScript, `T | null` lowers to `Option<T>`.");
        assert(IDENT_NULL@.take(18) =~= "```rustscript\n"@ + (if name == "console"@ { "object "@ } else { Seq::<char>::empty() }) + name);
    } else if name == "true"@ {
        reveal_strlit("true");
        reveal_strlit("```rustscript\ntrue: boolean\n```\n\nBoolean literal.\n\n**Rust:** `true`");
        assert(IDENT_TRUE@.take(18) =~= "```rustscript\n"@ + (if name == "console"@ { "object "@ } else { Seq::<char>::empty() }) + name);
    } else if name == "false"@ {
        reveal_strlit("false");
        reveal_strlit("```rustscript\nfalse: boolean\n```\n\nBoolean literal.\n\n**Rust:** `false`");
        assert(IDENT_FALSE@.take(19) =~= "```rustscript\n"@ + (if name == "console"@ { "object "@ } else { Seq::<char>::empty() }) + name);
    } else if name == "this"@ {
        reveal_strlit("this");
        reveal_strlit("```rustscript\nthis\n```\n\nReference to the current class instance.\n\n**Rust:** `self`");
        assert(IDENT_THIS@.take(18) =~= "```rustscript\n"@ + (if name == "console"@ { "object "@ } else { Seq::<char>::empty() }) + name);
    }
}


/// The hover text of a keyword names it in its heading.
pub proof fn lemma_keyword_hover_names_it(name: Seq<char>)
    ensures
        keyword_hover(name) matches Some(t) ==> has_prefix(t, "```\n"@ + name),
{
    reveal_strlit("```\n");
    if name == "async"@ {
        reveal_strlit("async");
        reveal_strlit("```\nasync\n```\n\nMarks a function as asynchronous. Async functions return a `Promise<T>`.\n\n**Rust:** `async fn`");
        assert(KEYWORD_ASYNC@.take(9) =~= "```\n"@ + name);
    } else if name == "await"@ {
        reveal_strlit("await");
        reveal_strlit("```\nawait\n```\n\nWaits for a `Promise<T>` to resolve, yielding the inner value.\n\n**Rust:** `.await`");
        assert(KEYWORD_AWAIT@.take(9) =~= "```\n"@ + name);
    } else if name == "throws"@ {
        reveal_strlit("throws");
        reveal_strlit("```\nthrows ErrorType\n```\n\nDeclares that a function can return an error. The return type becomes `Result<T, E>`.\n\n**Rust:** `-> Result<T, E>`");
        assert(KEYWORD_THROWS@.take(10) =~= "```\n"@ + name);
    } else if name == "shared"@ {
        reveal_strlit("shared");
        reveal_strlit("```\nshared<T>\n```\n\nWraps a value in thread-safe shared ownership.\n\n**Rust:** `Arc<Mutex<T>>`\n\nAccess via `.lock().unwrap()` is inserted automatically.");
        assert(KEYWORD_SHARED@.take(10) =~= "```\n"@ + name);
    } else if name == "const"@ {
        reveal_strlit("const");
        reveal_strlit("```\nconst\n```\n\nDeclares an immutable variable binding.\n\n**Rust:** `let`");
        assert(KEYWORD_CONST@.take(9) =~= "```\n"@ + name);
    } else if name == "let"@ {
        reveal_strlit("let");
        reveal_strlit("```\nlet\n```\n\nDeclares a mutable variable binding.\n\n**Rust:** `let mut`");
        assert(KEYWORD_LET@.take(7) =~= "```\n"@ + name);
    }
}

/// The hover texts of the builtin identifiers, entry by entry; no other
/// identifier has one.
pub proof fn lemma_identifier_hover_texts(key: Seq<char>)
    ensures
        identifier_hover("console"@) == Some("```rustscript\nobject console\n```\n\nThe console object --- provides output methods.\n\n- `console.log(...args)` --- `println!(\"{}\", ...)`\n- `console.error(...args)` --- `eprintln!(\"{}\", ...)`"@),
        identifier_hover("null"@) == Some("```rustscript\nnull\n```\n\nThe null literal --- represents absence of a value.\n\n**Rust:** `None`\n\nIn RustScript, `T | null` lowers to `Option<T>`."@),
        identifier_hover("true"@) == Some("```rustscript\ntrue: boolean\n```\n\nBoolean literal.\n\n**Rust:** `true`"@),
        identifier_hover("false"@) == Some("```rustscript\nfalse: boolean\n```\n\nBoolean literal.\n\n**Rust:** `false`"@),
        identifier_hover("this"@) == Some("```rustscript\nthis\n```\n\nReference to the current class instance.\n\n**Rust:** `self`"@),
        key != "console"@ && key != "null"@ && key != "true"@ && key != "false"@ && key != "this"@ ==> identifier_hover(key) is None,
{
    reveal_strlit("```rustscript\nfalse: boolean\n```\n\nBoolean literal.\n\n**Rust:** `false`");
    reveal_strlit("```rustscript\nnull\n```\n\nThe null literal --- represents absence of a value.\n\n**Rust:** `None`\n\nIn RustScript, `T | null` lowers to `Option<T>`.");
    reveal_strlit("```rustscript\nobject console\n```\n\nThe console object --- provides output methods.\n\n- `console.log(...args)` --- `println!(\"{}\", ...)`\n- `console.error(...args)` --- `eprintln!(\"{}\", ...)`");
    reveal_strlit("```rustscript\nthis\n```\n\nReference to the current class instance.\n\n**Rust:** `self`");
    reveal_strlit("```rustscript\ntrue: boolean\n```\n\nBoolean literal.\n\n**Rust:** `true`");
    reveal_strlit("console");
    reveal_strlit("false");
    reveal_strlit("null");
    reveal_strlit("this");
    reveal_strlit("true");
    assert("console"@.len() == 7);
    assert("null"@.len() == 4);
    assert("true"@.len() == 4);
    assert("false"@.len() == 5);
    assert("this"@.len() == 4);
    assert("null"@[0] != "true"@[0]);
    assert("null"@[0] != "this"@[0]);
    assert("true"@[1] != "this"@[1]);
}

/// The hover texts of the builtin methods, entry by entry (keyed
/// `receiver.method`); no other key has one.
pub proof fn lemma_method_hover_texts(key: Seq<char>)
    ensures
        method_hover("console.log"@) == Some("```rustscript\nconsole.log(...args): void\n```\n\nPrints arguments to stdout.\n\n**Rust:** `println!(\"{}\", ...)`"@),
        method_hover("console.error"@) == Some("```rustscript\nconsole.error(...args): void\n```\n\nPrints arguments to stderr.\n\n**Rust:** `eprintln!(\"{}\", ...)`"@),
        method_hover("string.toUpperCase"@) == Some("```rustscript\nstring.toUpperCase(): string\n```\n\nConverts the string to uppercase.\n\n**Rust:** `.to_uppercase()`"@),
        method_hover("string.toLowerCase"@) == Some("```rustscript\nstring.toLowerCase(): string\n```\n\nConverts the string to lowercase.\n\n**Rust:** `.to_lowercase()`"@),
        method_hover("string.trim"@) == Some("```rustscript\nstring.trim(): string\n```\n\nRemoves leading and trailing whitespace.\n\n**Rust:** `.trim().to_owned()`"@),
        method_hover("string.includes"@) == Some("```rustscript\nstring.includes(search: string): boolean\n```\n\nChecks if the string contains the given substring.\n\n**Rust:** `.contains(search)`"@),
        method_hover("string.startsWith"@) == Some("```rustscript\nstring.startsWith(prefix: string): boolean\n```\n\nChecks if the string starts with the given prefix.\n\n**Rust:** `.starts_with(prefix)`"@),
        method_hover("string.endsWith"@) == Some("```rustscript\nstring.endsWith(suffix: string): boolean\n```\n\nChecks if the string ends with the given suffix.\n\n**Rust:** `.ends_with(suffix)`"@),
        method_hover("string.split"@) == Some("```rustscript\nstring.split(separator: string): Array<string>\n```\n\nSplits the string by the separator.\n\n**Rust:** `.split(sep).map(|s| s.to_owned()).collect::<Vec<String>>()`"@),
        method_hover("string.length"@) == Some("```rustscript\nstring.length: number\n```\n\nThe number of characters in the string.\n\n**Rust:** `.len()`"@),
        method_hover("string.toString"@) == Some("```rustscript\nstring.toString(): string\n```\n\nReturns the string itself.\n\n**Rust:** `.to_string()`"@),
        method_hover("string.chars"@) == Some("```rustscript\nstring.chars(): Array<string>\n```\n\nReturns the characters of the string.\n\n**Rust:** `.chars()`"@),
        method_hover("array.push"@) == Some("```rustscript\nArray<T>.push(value: T): void\n```\n\nAppends an element to the end of the array.\n\n**Rust:** `.push(value)`"@),
        method_hover("array.pop"@) == Some("```rustscript\nArray<T>.pop(): T | null\n```\n\nRemoves and returns the last element.\n\n**Rust:** `.pop()`"@),
        method_hover("array.map"@) == Some("```rustscript\nArray<T>.map(fn: (T) => U): Array<U>\n```\n\nTransforms each element using the given function.\n\n**Rust:** `.iter().map(fn).collect()`"@),
        method_hover("array.filter"@) == Some("```rustscript\nArray<T>.filter(fn: (T) => boolean): Array<T>\n```\n\nKeeps elements where the predicate returns true.\n\n**Rust:** `.iter().filter(fn).cloned().collect()`"@),
        method_hover("array.forEach"@) == Some("```rustscript\nArray<T>.forEach(fn: (T) => void): void\n```\n\nExecutes a function for each element.\n\n**Rust:** `.iter().for_each(fn)` or `for item in &arr { ... }`"@),
        method_hover("array.length"@) == Some("```rustscript\nArray<T>.length: number\n```\n\nThe number of elements in the array.\n\n**Rust:** `.len()`"@),
        method_hover("array.isEmpty"@) == Some("```rustscript\nArray<T>.isEmpty(): boolean\n```\n\nChecks if the array has no elements.\n\n**Rust:** `.is_empty()`"@),
        method_hover("array.join"@) == Some("```rustscript\nArray<T>.join(separator: string): string\n```\n\nJoins array elements into a single string.\n\n**Rust:** `.join(separator)`"@),
        method_hover("Promise.all"@) == Some("```rustscript\nPromise.all(promises: Array<Promise<T>>): Promise<Array<T>>\n```\n\nWaits for all promises to resolve.\n\n**Rust:** `futures::future::join_all(futures)`"@),
        method_hover("spawn"@) == Some("```rustscript\nspawn(fn: () => void): void\n```\n\nSpawns a concurrent task.\n\n**Rust:** `tokio::spawn(async { ... })`"@),
        key != "console.log"@ && key != "console.error"@ && key != "string.toUpperCase"@ && key != "string.toLowerCase"@ && key != "string.trim"@ && key != "string.includes"@ && key != "string.startsWith"@ && key != "string.endsWith"@ && key != "string.split"@ && key != "string.length"@ && key != "string.toString"@ && key != "string.chars"@ && key != "array.push"@ && key != "array.pop"@ && key != "array.map"@ && key != "array.filter"@ && key != "array.forEach"@ && key != "array.length"@ && key != "array.isEmpty"@ && key != "array.join"@ && key != "Promise.all"@ && key != "spawn"@ ==> method_hover(key) is None,
{
    reveal_strlit("Promise.all");
    reveal_strlit("```rustscript\nArray<T>.filter(fn: (T) => boolean): Array<T>\n```\n\nKeeps elements where the predicate returns true.\n\n**Rust:** `.iter().filter(fn).cloned().collect()`");
    reveal_strlit("```rustscript\nArray<T>.forEach(fn: (T) => void): void\n```\n\nExecutes a function for each element.\n\n**Rust:** `.iter().for_each(fn)` or `for item in &arr { ... }`");
    reveal_strlit("```rustscript\nArray<T>.isEmpty(): boolean\n```\n\nChecks if the array has no elements.\n\n**Rust:** `.is_empty()`");
    reveal_strlit("```rustscript\nArray<T>.join(separator: string): string\n```\n\nJoins array elements into a single string.\n\n**Rust:** `.join(separator)`");
    reveal_strlit("```rustscript\nArray<T>.length: number\n```\n\nThe number of elements in the array.\n\n**Rust:** `.len()`");
    reveal_strlit("```rustscript\nArray<T>.map(fn: (T) => U): Array<U>\n```\n\nTransforms each element using the given function.\n\n**Rust:** `.iter().map(fn).collect()`");
    reveal_strlit("```rustscript\nArray<T>.pop(): T | null\n```\n\nRemoves and returns the last element.\n\n**Rust:** `.pop()`");
    reveal_strlit("```rustscript\nArray<T>.push(value: T): void\n```\n\nAppends an element to the end of the array.\n\n**Rust:** `.push(value)`");
    reveal_strlit("```rustscript\nPromise.all(promises: Array<Promise<T>>): Promise<Array<T>>\n```\n\nWaits for all promises to resolve.\n\n**Rust:** `futures::future::join_all(futures)`");
    reveal_strlit("```rustscript\nconsole.error(...args): void\n```\n\nPrints arguments to stderr.\n\n**Rust:** `eprintln!(\"{}\", ...)`");
    reveal_strlit("```rustscript\nconsole.log(...args): void\n```\n\nPrints arguments to stdout.\n\n**Rust:** `println!(\"{}\", ...)`");
    reveal_strlit("```rustscript\nspawn(fn: () => void): void\n```\n\nSpawns a concurrent task.\n\n**Rust:** `tokio::spawn(async { ... })`");
    reveal_strlit("```rustscript\nstring.chars(): Array<string>\n```\n\nReturns the characters of the string.\n\n**Rust:** `.chars()`");
    reveal_strlit("```rustscript\nstring.endsWith(suffix: string): boolean\n```\n\nChecks if the string ends with the given suffix.\n\n**Rust:** `.ends_with(suffix)`");
    reveal_strlit("```rustscript\nstring.includes(search: string): boolean\n```\n\nChecks if the string contains the given substring.\n\n**Rust:** `.contains(search)`");
    reveal_strlit("```rustscript\nstring.length: number\n```\n\nThe number of characters in the string.\n\n**Rust:** `.len()`");
    reveal_strlit("```rustscript\nstring.split(separator: string): Array<string>\n```\n\nSplits the string by the separator.\n\n**Rust:** `.split(sep).map(|s| s.to_owned()).collect::<Vec<String>>()`");
    reveal_strlit("```rustscript\nstring.startsWith(prefix: string): boolean\n```\n\nChecks if the string starts with the given prefix.\n\n**Rust:** `.starts_with(prefix)`");
    reveal_strlit("```rustscript\nstring.toLowerCase(): string\n```\n\nConverts the string to lowercase.\n\n**Rust:** `.to_lowercase()`");
    reveal_strlit("```rustscript\nstring.toString(): string\n```\n\nReturns the string itself.\n\n**Rust:** `.to_string()`");
    reveal_strlit("```rustscript\nstring.toUpperCase(): string\n```\n\nConverts the string to uppercase.\n\n**Rust:** `.to_uppercase()`");
    reveal_strlit("```rustscript\nstring.trim(): string\n```\n\nRemoves leading and trailing whitespace.\n\n**Rust:** `.trim().to_owned()`");
    reveal_strlit("array.filter");
    reveal_strlit("array.forEach");
    reveal_strlit("array.isEmpty");
    reveal_strlit("array.join");
    reveal_strlit("array.length");
    reveal_strlit("array.map");
    reveal_strlit("array.pop");
    reveal_strlit("array.push");
    reveal_strlit("console.error");
    reveal_strlit("console.log");
    reveal_strlit("spawn");
    reveal_strlit("string.chars");
    reveal_strlit("string.endsWith");
    reveal_strlit("string.includes");
    reveal_strlit("string.length");
    reveal_strlit("string.split");
    reveal_strlit("string.startsWith");
    reveal_strlit("string.toLowerCase");
    reveal_strlit("string.toString");
    reveal_strlit("string.toUpperCase");
    reveal_strlit("string.trim");
    assert("console.log"@.len() == 11);
    assert("console.error"@.len() == 13);
    assert("string.toUpperCase"@.len() == 18);
    assert("string.toLowerCase"@.len() == 18);
    assert("string.trim"@.len() == 11);
    assert("string.includes"@.len() == 15);
    assert("string.startsWith"@.len() == 17);
    assert("string.endsWith"@.len() == 15);
    assert("string.split"@.len() == 12);
    assert("string.length"@.len() == 13);
    assert("string.toString"@.len() == 15);
    assert("string.chars"@.len() == 12);
    assert("array.push"@.len() == 10);
    assert("array.pop"@.len() == 9);
    assert("array.map"@.len() == 9);
    assert("array.filter"@.len() == 12);
    assert("array.forEach"@.len() == 13);
    assert("array.length"@.len() == 12);
    assert("array.isEmpty"@.len() == 13);
    assert("array.join"@.len() == 10);
    assert("Promise.all"@.len() == 11);
    assert("spawn"@.len() == 5);
    assert("console.log"@[0] != "string.trim"@[0]);
    assert("console.log"@[0] != "Promise.all"@[0]);
    assert("console.error"@[0] != "string.length"@[0]);
    assert("console.error"@[0] != "array.forEach"@[0]);
    assert("console.error"@[0] != "array.isEmpty"@[0]);
    assert("string.toUpperCase"@[9] != "string.toLowerCase"@[9]);
    assert("string.trim"@[0] != "Promise.all"@[0]);
    assert("string.includes"@[7] != "string.endsWith"@[7]);
    assert("string.includes"@[7] != "string.toString"@[7]);
    assert("string.endsWith"@[7] != "string.toString"@[7]);
    assert("string.split"@[7] != "string.chars"@[7]);
    assert("string.split"@[0] != "array.filter"@[0]);
    assert("string.split"@[0] != "array.length"@[0]);
    assert("string.length"@[0] != "array.forEach"@[0]);
    assert("string.length"@[0] != "array.isEmpty"@[0]);
    assert("string.chars"@[0] != "array.filter"@[0]);
    assert("string.chars"@[0] != "array.length"@[0]);
    assert("array.push"@[6] != "array.join"@[6]);
    assert("array.pop"@[6] != "array.map"@[6]);
    assert("array.filter"@[6] != "array.length"@[6]);
    assert("array.forEach"@[6] != "array.isEmpty"@[6]);
}

/// The hover texts of the keywords, entry by entry; no other word has one.
pub proof fn lemma_keyword_hover_texts(key: Seq<char>)
    ensures
        keyword_hover("async"@) == Some("```\nasync\n```\n\nMarks a function as asynchronous. Async functions return a `Promise<T>`.\n\n**Rust:** `async fn`"@),
        keyword_hover("await"@) == Some("```\nawait\n```\n\nWaits for a `Promise<T>` to resolve, yielding the inner value.\n\n**Rust:** `.await`"@),
        keyword_hover("throws"@) == Some("```\nthrows ErrorType\n```\n\nDeclares that a function can return an error. The return type becomes `Result<T, E>`.\n\n**Rust:** `-> Result<T, E>`"@),
        keyword_hover("shared"@) == Some("```\nshared<T>\n```\n\nWraps a value in thread-safe shared ownership.\n\n**Rust:** `Arc<Mutex<T>>`\n\nAccess via `.lock().unwrap()` is inserted automatically."@),
        keyword_hover("const"@) == Some("```\nconst\n```\n\nDeclares an immutable variable binding.\n\n**Rust:** `let`"@),
        keyword_hover("let"@) == Some("```\nlet\n```\n\nDeclares a mutable variable binding.\n\n**Rust:** `let mut`"@),
        key != "async"@ && key != "await"@ && key != "throws"@ && key != "shared"@ && key != "const"@ && key != "let"@ ==> keyword_hover(key) is None,
{
    reveal_strlit("```\nasync\n```\n\nMarks a function as asynchronous. Async functions return a `Promise<T>`.\n\n**Rust:** `async fn`");
    reveal_strlit("```\nawait\n```\n\nWaits for a `Promise<T>` to resolve, yielding the inner value.\n\n**Rust:** `.await`");
    reveal_strlit("```\nconst\n```\n\nDeclares an immutable variable binding.\n\n**Rust:** `let`");
    reveal_strlit("```\nlet\n```\n\nDeclares a mutable variable binding.\n\n**Rust:** `let mut`");
    reveal_strlit("```\nshared<T>\n```\n\nWraps a value in thread-safe shared ownership.\n\n**Rust:** `Arc<Mutex<T>>`\n\nAccess via `.lock().unwrap()` is inserted automatically.");
    reveal_strlit("```\nthrows ErrorType\n```\n\nDeclares that a function can return an error. The return type becomes `Result<T, E>`.\n\n**Rust:** `-> Result<T, E>`");
    reveal_strlit("async");
    reveal_strlit("await");
    reveal_strlit("const");
    reveal_strlit("let");
    reveal_strlit("shared");
    reveal_strlit("throws");
    assert("async"@.len() == 5);
    assert("await"@.len() == 5);
    assert("throws"@.len() == 6);
    assert("shared"@.len() == 6);
    assert("const"@.len() == 5);
    assert("let"@.len() == 3);
    assert("async"@[1] != "await"@[1]);
    assert("async"@[0] != "const"@[0]);
    assert("await"@[0] != "const"@[0]);
    assert("throws"@[0] != "shared"@[0]);
}
} // verus!
