//! Reverse name mapping from Rust identifiers to RustScript identifiers.
//!
//! When rust-analyzer reports completions or types with Rust names
//! (`to_uppercase`, `Vec<T>`), this module translates them back to the
//! RustScript equivalents (`toUpperCase`, `Array<T>`).
//!
//! The translation of type strings is specified by [`type_text`], a recursive
//! function on character sequences; [`translate_type_string`] computes it.

use vstd::prelude::*;

use crate::rust_ir::RustType;
use crate::text::{
    chars_of, ends_with_str, eq_str, find, find_char, has_prefix, has_suffix, join, join_chars,
    lemma_find_from_bounds, lemma_trim_len, push_all, push_str, slice_of, starts_with_str,
    string_of, trim, trim_chars, views,
};

verus! {

// ---------------------------------------------------------------------------
// Name tables
// ---------------------------------------------------------------------------

/// Rust method and field names that have a RustScript counterpart.
pub open spec fn method_name_map(s: Seq<char>) -> Option<Seq<char>> {
    if s == "to_uppercase"@ { Some("toUpperCase"@) }
    else if s == "to_lowercase"@ { Some("toLowerCase"@) }
    else if s == "starts_with"@ { Some("startsWith"@) }
    else if s == "ends_with"@ { Some("endsWith"@) }
    else if s == "contains"@ { Some("includes"@) }
    else if s == "len"@ { Some("length"@) }
    else if s == "push"@ { Some("push"@) }
    else if s == "pop"@ { Some("pop"@) }
    else if s == "is_empty"@ { Some("isEmpty"@) }
    else if s == "trim"@ { Some("trim"@) }
    else if s == "split"@ { Some("split"@) }
    else if s == "join"@ { Some("join"@) }
    else if s == "chars"@ { Some("chars"@) }
    else if s == "to_string"@ { Some("toString"@) }
    else { None }
}

/// Rust type names that have a RustScript counterpart.
pub open spec fn type_name_map(s: Seq<char>) -> Option<Seq<char>> {
    if s == "Vec"@ { Some("Array"@) }
    else if s == "HashMap"@ { Some("Map"@) }
    else if s == "HashSet"@ { Some("Set"@) }
    else if s == "String"@ { Some("string"@) }
    else if s == "bool"@ { Some("boolean"@) }
    else if s == "i32"@ { Some("number"@) }
    else if s == "f64"@ { Some("number"@) }
    else if s == "()"@ { Some("void"@) }
    else { None }
}

/// A method name after translation: its counterpart, or itself.
pub open spec fn method_name_text(s: Seq<char>) -> Seq<char> {
    match method_name_map(s) {
        Some(t) => t,
        None => s,
    }
}

/// A type name after translation: its counterpart, or itself.
pub open spec fn type_name_text(s: Seq<char>) -> Seq<char> {
    match type_name_map(s) {
        Some(t) => t,
        None => s,
    }
}

// ---------------------------------------------------------------------------
// Type-string translation: specification
// ---------------------------------------------------------------------------

/// Whether `c` opens a nesting level: `<`, and `(` when `parens` holds.
pub open spec fn opens(c: char, parens: bool) -> bool {
    c == '<' || (parens && c == '(')
}

/// Whether `s[i]` closes a nesting level: a `>` that is not the tip of an
/// arrow `->`, and `)` when `parens` holds.
pub open spec fn closes(s: Seq<char>, i: int, parens: bool) -> bool {
    (s[i] == '>' && !(i > 0 && s[i - 1] == '-')) || (parens && s[i] == ')')
}

/// The trimmed pieces of `s` between top-level commas, scanning from `i` with
/// nesting `depth`; the current piece began at `start`. A trailing piece that
/// trims to nothing is dropped; earlier empty pieces are kept.
pub open spec fn split_from(s: Seq<char>, parens: bool, i: int, depth: int, start: int) -> Seq<Seq<char>>
    decreases s.len() - i,
{
    if !(0 <= start <= i <= s.len()) {
        Seq::empty()
    } else if i == s.len() {
        let cur = trim(s.subrange(start, i));
        if cur.len() > 0 { seq![cur] } else { Seq::empty() }
    } else if opens(s[i], parens) {
        split_from(s, parens, i + 1, depth + 1, start)
    } else if closes(s, i, parens) {
        split_from(s, parens, i + 1, depth - 1, start)
    } else if s[i] == ',' && depth == 0 {
        seq![trim(s.subrange(start, i))] + split_from(s, parens, i + 1, depth, i + 1)
    } else {
        split_from(s, parens, i + 1, depth, start)
    }
}

/// Top-level comma-separated arguments of `s` (`<`, `>`, `(`, `)` nest; the
/// `>` of an arrow `->` closes nothing).
pub open spec fn split_args(s: Seq<char>) -> Seq<Seq<char>> {
    split_from(s, true, 0, 0, 0)
}

/// The pieces of [`split_from`], each translated by [`type_text`].
pub open spec fn translated_from(s: Seq<char>, parens: bool, i: int, depth: int, start: int) -> Seq<Seq<char>>
    decreases s.len(), 1int, s.len() - i,
{
    if !(0 <= start <= i <= s.len()) {
        Seq::empty()
    } else if i == s.len() {
        let cur = trim(s.subrange(start, i));
        proof {
            lemma_trim_len(s.subrange(start, i));
        }
        if cur.len() > 0 { seq![type_text(cur)] } else { Seq::empty() }
    } else if opens(s[i], parens) {
        translated_from(s, parens, i + 1, depth + 1, start)
    } else if closes(s, i, parens) {
        translated_from(s, parens, i + 1, depth - 1, start)
    } else if s[i] == ',' && depth == 0 {
        proof {
            lemma_trim_len(s.subrange(start, i));
        }
        seq![type_text(trim(s.subrange(start, i)))] + translated_from(s, parens, i + 1, depth, i + 1)
    } else {
        translated_from(s, parens, i + 1, depth, start)
    }
}

/// Index of the `)` that closes an already opened `(`, scanning from `i`.
pub open spec fn close_paren_from(s: Seq<char>, i: int, depth: int) -> Option<int>
    decreases s.len() - i,
{
    if i < 0 || i >= s.len() {
        None
    } else if s[i] == '(' {
        close_paren_from(s, i + 1, depth + 1)
    } else if s[i] == ')' {
        if depth - 1 == 0 { Some(i) } else { close_paren_from(s, i + 1, depth - 1) }
    } else {
        close_paren_from(s, i + 1, depth)
    }
}

/// The inner type of `Mutex<T>` (after trimming), if `s` has that shape.
pub open spec fn mutex_inner(s: Seq<char>) -> Option<Seq<char>> {
    let t = trim(s);
    if has_prefix(t, "Mutex<"@) {
        let r = t.skip("Mutex<"@.len() as int);
        if has_suffix(r, ">"@) { Some(r.drop_last()) } else { None }
    } else {
        None
    }
}

/// The generic arguments after the first `<`, without one trailing `>`.
pub open spec fn generic_inner(t: Seq<char>, b: int) -> Seq<char> {
    let rest = t.skip(b + 1);
    if has_suffix(rest, ">"@) { rest.drop_last() } else { rest }
}

/// RustScript rendering of a Rust type string.
///
/// - `fn(A, B) -> R` and `impl Fn(A, B) -> R` become `(A, B) => R`;
/// - `Option<T>` becomes `T | null`;
/// - `Result<T, E>` (two arguments) becomes `T throws E`;
/// - `Arc<Mutex<T>>` becomes `shared<T>`;
/// - other generics `N<A, ...>` translate `N` and each argument;
/// - plain names are translated by the type-name table.
pub open spec fn type_text(s: Seq<char>) -> Seq<char>
    decreases s.len(), 0int, 0int,
{
    let t = trim(s);
    proof {
        lemma_trim_len(s);
        reveal_strlit("fn(");
        reveal_strlit("impl Fn(");
        reveal_strlit("Mutex<");
        reveal_strlit(">");
    }
    if has_prefix(t, "fn("@) {
        fn_type_text(t.skip("fn("@.len() as int))
    } else if has_prefix(t, "impl Fn("@) {
        fn_type_text(t.skip("impl Fn("@.len() as int))
    } else {
        match find_char(t, '<') {
            Some(b) => {
                proof {
                    lemma_find_from_bounds(t, '<', 0);
                }
                let name = t.take(b);
                let inner = generic_inner(t, b);
                if name == "Option"@ {
                    type_text(inner) + " | null"@
                } else if name == "Result"@ && split_args(inner).len() == 2 {
                    proof {
                        lemma_split_piece_len(inner, true, 0, 0, 0);
                    }
                    type_text(split_args(inner)[0]) + " throws "@ + type_text(split_args(inner)[1])
                } else if name == "Arc"@ && mutex_inner(inner) is Some {
                    proof {
                        lemma_trim_len(inner);
                    }
                    "shared<"@ + type_text(mutex_inner(inner)->0) + ">"@
                } else {
                    type_name_text(name) + "<"@ + join(translated_from(inner, true, 0, 0, 0), ", "@)
                        + ">"@
                }
            },
            None => type_name_text(t),
        }
    }
}

/// RustScript rendering of the remainder of a function type after `fn(`.
pub open spec fn fn_type_text(rest: Seq<char>) -> Seq<char>
    decreases rest.len(), 0int, 0int,
{
    match close_paren_from(rest, 0, 1) {
        Some(pos) => {
            proof {
                lemma_close_paren_bounds(rest, 0, 1);
                reveal_strlit("->");
            }
            let params = rest.take(pos);
            let after = trim(rest.skip(pos + 1));
            proof {
                lemma_trim_len(rest.skip(pos + 1));
            }
            let tparams = if trim(params).len() == 0 {
                Seq::empty()
            } else {
                join(translated_from(params, true, 0, 0, 0), ", "@)
            };
            let ret = if has_prefix(after, "->"@) {
                proof {
                    lemma_trim_len(after.skip(2));
                }
                type_text(trim(after.skip("->"@.len() as int)))
            } else {
                "void"@
            };
            "("@ + tparams + ") => "@ + ret
        },
        None => "fn("@ + rest,
    }
}

/// RustScript rendering of a completion label: a method name, a generic
/// type, a plain type name, or the label itself.
pub open spec fn completion_label_text(label: Seq<char>) -> Seq<char> {
    match method_name_map(label) {
        Some(m) => m,
        None => if find_char(label, '<') is Some { type_text(label) } else { type_name_text(label) },
    }
}

// ---------------------------------------------------------------------------
// Lemmas
// ---------------------------------------------------------------------------

/// Every piece of a split is no longer than the whole.
pub proof fn lemma_split_piece_len(s: Seq<char>, parens: bool, i: int, depth: int, start: int)
    ensures
        forall|k: int|
            0 <= k < split_from(s, parens, i, depth, start).len() ==> #[trigger] split_from(
                s,
                parens,
                i,
                depth,
                start,
            )[k].len() <= s.len(),
    decreases s.len() - i,
{
    let all = split_from(s, parens, i, depth, start);
    if !(0 <= start <= i <= s.len()) {
    } else if i == s.len() {
        lemma_trim_len(s.subrange(start, i));
        assert forall|k: int| 0 <= k < all.len() implies #[trigger] all[k].len() <= s.len() by {
            assert(all[k] == trim(s.subrange(start, i)));
        }
    } else if s[i] == ',' && depth == 0 && !opens(s[i], parens) && !closes(s, i, parens) {
        lemma_trim_len(s.subrange(start, i));
        lemma_split_piece_len(s, parens, i + 1, depth, i + 1);
        let rest = split_from(s, parens, i + 1, depth, i + 1);
        assert(all == seq![trim(s.subrange(start, i))] + rest);
        assert forall|k: int| 0 <= k < all.len() implies #[trigger] all[k].len() <= s.len() by {
            if k > 0 {
                assert(all[k] == rest[k - 1]);
            }
        }
    } else {
        let nd = if opens(s[i], parens) { depth + 1 } else if closes(s, i, parens) { depth - 1 } else { depth };
        assert(all == split_from(s, parens, i + 1, nd, start));
        lemma_split_piece_len(s, parens, i + 1, nd, start);
    }
}

/// The translated pieces are the pieces, each translated.
pub proof fn lemma_translated_is_mapped(s: Seq<char>, parens: bool, i: int, depth: int, start: int)
    ensures
        translated_from(s, parens, i, depth, start) == split_from(s, parens, i, depth, start).map_values(
            |p: Seq<char>| type_text(p),
        ),
    decreases s.len() - i,
{
    let l = translated_from(s, parens, i, depth, start);
    let r = split_from(s, parens, i, depth, start).map_values(|p: Seq<char>| type_text(p));
    if !(0 <= start <= i <= s.len()) {
        assert(l =~= r);
    } else if i == s.len() {
        assert(l =~= r);
    } else if opens(s[i], parens) {
        lemma_translated_is_mapped(s, parens, i + 1, depth + 1, start);
    } else if closes(s, i, parens) {
        lemma_translated_is_mapped(s, parens, i + 1, depth - 1, start);
    } else if s[i] == ',' && depth == 0 {
        lemma_translated_is_mapped(s, parens, i + 1, depth, i + 1);
        assert(l =~= r);
    } else {
        lemma_translated_is_mapped(s, parens, i + 1, depth, start);
    }
}

pub proof fn lemma_close_paren_bounds(s: Seq<char>, i: int, depth: int)
    requires
        0 <= i,
    ensures
        close_paren_from(s, i, depth) matches Some(k) ==> i <= k < s.len(),
    decreases s.len() - i,
{
    if 0 <= i < s.len() {
        if s[i] == '(' {
            lemma_close_paren_bounds(s, i + 1, depth + 1);
        } else if s[i] == ')' {
            if depth - 1 != 0 {
                lemma_close_paren_bounds(s, i + 1, depth - 1);
            }
        } else {
            lemma_close_paren_bounds(s, i + 1, depth);
        }
    }
}

// ---------------------------------------------------------------------------
// Executable translation
// ---------------------------------------------------------------------------

fn method_name_lookup(s: &[char]) -> (r: Option<&'static str>)
    ensures
        match r {
            Some(t) => method_name_map(s@) == Some(t@),
            None => method_name_map(s@) is None,
        },
{
    if eq_str(s, "to_uppercase") { Some("toUpperCase") }
    else if eq_str(s, "to_lowercase") { Some("toLowerCase") }
    else if eq_str(s, "starts_with") { Some("startsWith") }
    else if eq_str(s, "ends_with") { Some("endsWith") }
    else if eq_str(s, "contains") { Some("includes") }
    else if eq_str(s, "len") { Some("length") }
    else if eq_str(s, "push") { Some("push") }
    else if eq_str(s, "pop") { Some("pop") }
    else if eq_str(s, "is_empty") { Some("isEmpty") }
    else if eq_str(s, "trim") { Some("trim") }
    else if eq_str(s, "split") { Some("split") }
    else if eq_str(s, "join") { Some("join") }
    else if eq_str(s, "chars") { Some("chars") }
    else if eq_str(s, "to_string") { Some("toString") }
    else { None }
}

fn type_name_lookup(s: &[char]) -> (r: Option<&'static str>)
    ensures
        match r {
            Some(t) => type_name_map(s@) == Some(t@),
            None => type_name_map(s@) is None,
        },
{
    if eq_str(s, "Vec") { Some("Array") }
    else if eq_str(s, "HashMap") { Some("Map") }
    else if eq_str(s, "HashSet") { Some("Set") }
    else if eq_str(s, "String") { Some("string") }
    else if eq_str(s, "bool") { Some("boolean") }
    else if eq_str(s, "i32") { Some("number") }
    else if eq_str(s, "f64") { Some("number") }
    else if eq_str(s, "()") { Some("void") }
    else { None }
}

/// Translate a Rust method name to its RustScript equivalent.
///
/// Returns the RustScript name if a mapping exists, or the original name if not.
pub fn translate_method_name(rust_name: &str) -> (r: &str)
    ensures
        r@ == method_name_text(rust_name@),
{
    let s = chars_of(rust_name);
    match method_name_lookup(&s) {
        Some(t) => t,
        None => rust_name,
    }
}

/// Translate a Rust type name to its RustScript equivalent.
///
/// Returns the RustScript name if a mapping exists, or the original name if not.
pub fn translate_type_name(rust_name: &str) -> (r: &str)
    ensures
        r@ == type_name_text(rust_name@),
{
    let s = chars_of(rust_name);
    match type_name_lookup(&s) {
        Some(t) => t,
        None => rust_name,
    }
}

fn type_name_chars(s: &[char]) -> (r: Vec<char>)
    ensures
        r@ == type_name_text(s@),
{
    match type_name_lookup(s) {
        Some(t) => chars_of(t),
        None => slice_of(s, 0, s.len()),
    }
}

/// Split comma-separated generic arguments respecting nesting depth.
pub fn split_generic_args(args: &[char]) -> (r: Vec<Vec<char>>)
    ensures
        views(r@) == split_args(args@),
{
    let mut result: Vec<Vec<char>> = Vec::new();
    let mut depth: i128 = 0;
    let mut start: usize = 0;
    let mut i: usize = 0;
    while i < args.len()
        invariant
            0 <= start <= i <= args.len(),
            -(i as int) <= depth <= i as int,
            views(result@) + split_from(args@, true, i as int, depth as int, start as int) == split_args(
                args@,
            ),
        decreases args.len() - i,
    {
        let c = args[i];
        let arrow_tip = c == '>' && i > 0 && args[i - 1] == '-';
        if c == '<' || c == '(' {
            depth = depth + 1;
        } else if (c == '>' && !arrow_tip) || c == ')' {
            depth = depth - 1;
        } else if c == ',' && depth == 0 {
            let piece = slice_of(args, start, i);
            let t = trim_chars(&piece);
            let ghost before = views(result@);
            result.push(t);
            assert(views(result@) == before.push(t@));
            assert(views(result@) + split_from(args@, true, i + 1, depth as int, i + 1) == before + (
            seq![t@] + split_from(args@, true, i + 1, depth as int, i + 1)));
            start = i + 1;
        }
        i = i + 1;
    }
    let piece = slice_of(args, start, args.len());
    let t = trim_chars(&piece);
    if t.len() > 0 {
        let ghost before = views(result@);
        result.push(t);
        assert(views(result@) == before.push(t@));
    } else {
        assert(views(result@) + Seq::<Seq<char>>::empty() == views(result@));
    }
    result
}

/// Translate comma-separated generic arguments, handling nested generics and
/// nested function types (`(` nests; the `>` of `->` closes nothing).
pub fn translate_generic_args(args: &[char]) -> (r: Vec<char>)
    ensures
        r@ == join(translated_from(args@, true, 0, 0, 0), ", "@),
    decreases args@.len(), 1int, 0int,
{
    let mut result: Vec<Vec<char>> = Vec::new();
    let mut depth: i128 = 0;
    let mut start: usize = 0;
    let mut i: usize = 0;
    while i < args.len()
        invariant
            0 <= start <= i <= args.len(),
            -(i as int) <= depth <= i as int,
            views(result@) + translated_from(args@, true, i as int, depth as int, start as int)
                == translated_from(args@, true, 0, 0, 0),
        decreases args.len() - i,
    {
        let c = args[i];
        let arrow_tip = c == '>' && i > 0 && args[i - 1] == '-';
        if c == '<' || c == '(' {
            depth = depth + 1;
        } else if (c == '>' && !arrow_tip) || c == ')' {
            depth = depth - 1;
        } else if c == ',' && depth == 0 {
            let piece = slice_of(args, start, i);
            let t = trim_chars(&piece);
            proof {
                lemma_trim_len(piece@);
            }
            let tr = type_text_chars(&t);
            let ghost before = views(result@);
            result.push(tr);
            assert(views(result@) == before.push(tr@));
            assert(views(result@) + translated_from(args@, true, i + 1, depth as int, i + 1) == before
                + (seq![tr@] + translated_from(args@, true, i + 1, depth as int, i + 1)));
            start = i + 1;
        }
        i = i + 1;
    }
    let piece = slice_of(args, start, args.len());
    let t = trim_chars(&piece);
    proof {
        lemma_trim_len(piece@);
    }
    if t.len() > 0 {
        let tr = type_text_chars(&t);
        let ghost before = views(result@);
        assert(translated_from(args@, true, i as int, depth as int, start as int) == seq![tr@]);
        result.push(tr);
        assert(views(result@) == before.push(tr@));
        assert(views(result@) == translated_from(args@, true, 0, 0, 0));
    } else {
        assert(translated_from(args@, true, i as int, depth as int, start as int) =~= Seq::<Seq<char>>::empty());
        assert(views(result@) + Seq::<Seq<char>>::empty() == views(result@));
    }
    join_chars(&result, ", ")
}

/// Translate a Rust `fn(...) -> T` string after its `fn(` or `impl Fn(` prefix.
///
/// Expects input like `A, B) -> T`.
pub fn translate_fn_type_string(rest: &[char]) -> (r: Vec<char>)
    ensures
        r@ == fn_type_text(rest@),
    decreases rest@.len(), 0int, 0int,
{
    let mut depth: i128 = 1;
    let mut split_pos: Option<usize> = None;
    let mut i: usize = 0;
    while i < rest.len()
        invariant_except_break
            i <= rest.len(),
            1 <= depth <= i + 1,
            split_pos is None,
            close_paren_from(rest@, i as int, depth as int) == close_paren_from(rest@, 0, 1),
        ensures
            split_pos matches Some(p) ==> close_paren_from(rest@, 0, 1) == Some(p as int),
            split_pos is None ==> close_paren_from(rest@, 0, 1) is None,
        decreases rest.len() - i,
    {
        let c = rest[i];
        if c == '(' {
            depth = depth + 1;
        } else if c == ')' {
            depth = depth - 1;
            if depth == 0 {
                split_pos = Some(i);
                break;
            }
        }
        i = i + 1;
    }
    proof {
        lemma_close_paren_bounds(rest@, 0, 1);
        reveal_strlit("->");
        reveal_strlit("fn(");
    }
    match split_pos {
        Some(pos) => {
            assert(pos < rest.len());
            let params = slice_of(rest, 0, pos);
            let after_raw = slice_of(rest, pos + 1, rest.len());
            assert(params@ == rest@.take(pos as int));
            assert(after_raw@ == rest@.skip(pos + 1));
            let after = trim_chars(&after_raw);
            proof {
                lemma_trim_len(after_raw@);
            }
            let trimmed_params = trim_chars(&params);
            let mut out: Vec<char> = Vec::new();
            out.push('(');
            if trimmed_params.len() > 0 {
                let parts = split_generic_args(&params);
                proof {
                    lemma_split_piece_len(params@, true, 0, 0, 0);
                    lemma_translated_is_mapped(params@, true, 0, 0, 0);
                }
                assert forall|j: int| 0 <= j < parts@.len() implies #[trigger] parts@[j]@.len()
                    <= params@.len() by {
                    assert(parts@[j]@ == split_args(params@)[j]);
                }
                let mut translated: Vec<Vec<char>> = Vec::new();
                let mut k: usize = 0;
                while k < parts.len()
                    invariant
                        k <= parts.len(),
                        views(parts@) == split_args(params@),
                        params@.len() < rest@.len(),
                        forall|j: int| 0 <= j < parts@.len() ==> #[trigger] parts@[j]@.len() <= params@.len(),
                        views(translated@) == views(parts@).take(k as int).map_values(
                            |p: Seq<char>| type_text(p),
                        ),
                    decreases parts.len() - k,
                {
                    assert(parts@[k as int]@ == views(parts@)[k as int]);
                    let tr = type_text_chars(&parts[k]);
                    let ghost before = views(translated@);
                    translated.push(tr);
                    assert(views(translated@) == before.push(tr@));
                    k = k + 1;
                    assert(views(translated@) =~= views(parts@).take(k as int).map_values(
                        |p: Seq<char>| type_text(p),
                    ));
                }
                assert(views(parts@).take(parts.len() as int) == views(parts@));
                assert(views(translated@) == translated_from(params@, true, 0, 0, 0));
                let joined = join_chars(&translated, ", ");
                push_all(&mut out, &joined);
            }
            let ghost tparams = out@.skip(1);
            proof { reveal_strlit("("); }
            assert(out@ == "("@ + tparams);
            assert(tparams == (if trim(params@).len() == 0 {
                Seq::<char>::empty()
            } else {
                join(translated_from(params@, true, 0, 0, 0), ", "@)
            }));
            push_str(&mut out, ") => ");
            if starts_with_str(&after, "->") {
                let ret_raw = slice_of(&after, 2, after.len());
                assert(ret_raw@ == after@.skip("->"@.len() as int));
                let ret = trim_chars(&ret_raw);
                proof {
                    lemma_trim_len(ret_raw@);
                }
                let tr = type_text_chars(&ret);
                push_all(&mut out, &tr);
                proof { reveal_strlit(") => "); }
                assert(out@ == "("@ + tparams + ") => "@ + tr@);
            } else {
                push_str(&mut out, "void");
                proof { reveal_strlit(") => "); }
                assert(out@ == "("@ + tparams + ") => "@ + "void"@);
            }
            out
        },
        None => {
            let mut out = chars_of("fn(");
            push_all(&mut out, rest);
            out
        },
    }
}

/// `Mutex<T>` inner type, if the trimmed text has that shape.
fn mutex_inner_chars(s: &[char]) -> (r: Option<Vec<char>>)
    ensures
        match r {
            Some(v) => mutex_inner(s@) == Some(v@),
            None => mutex_inner(s@) is None,
        },
{
    proof {
        reveal_strlit("Mutex<");
        reveal_strlit(">");
    }
    let t = trim_chars(s);
    if starts_with_str(&t, "Mutex<") {
        let r = slice_of(&t, 6, t.len());
        if ends_with_str(&r, ">") {
            Some(slice_of(&r, 0, r.len() - 1))
        } else {
            None
        }
    } else {
        None
    }
}

/// Character-level core of [`translate_type_string`].
fn type_text_chars(s: &[char]) -> (r: Vec<char>)
    ensures
        r@ == type_text(s@),
    decreases s@.len(), 0int, 0int,
{
    proof {
        lemma_trim_len(s@);
        reveal_strlit("fn(");
        reveal_strlit("impl Fn(");
        reveal_strlit(">");
    }
    let t = trim_chars(s);
    if starts_with_str(&t, "fn(") {
        let rest = slice_of(&t, 3, t.len());
        return translate_fn_type_string(&rest);
    }
    if starts_with_str(&t, "impl Fn(") {
        let rest = slice_of(&t, 8, t.len());
        return translate_fn_type_string(&rest);
    }
    match find(&t, '<') {
        Some(b) => {
            proof {
                lemma_find_from_bounds(t@, '<', 0);
            }
            assert(b < t.len());
            let name = slice_of(&t, 0, b);
            let rest = slice_of(&t, b + 1, t.len());
            let inner = if ends_with_str(&rest, ">") {
                slice_of(&rest, 0, rest.len() - 1)
            } else {
                rest
            };
            assert(inner@ == generic_inner(t@, b as int));
            if eq_str(&name, "Option") {
                let mut out = type_text_chars(&inner);
                push_str(&mut out, " | null");
                return out;
            }
            if eq_str(&name, "Result") {
                let args = split_generic_args(&inner);
                if args.len() == 2 {
                    proof {
                        lemma_split_piece_len(inner@, true, 0, 0, 0);
                        assert(views(args@)[0] == args@[0]@);
                        assert(views(args@)[1] == args@[1]@);
                    }
                    let mut out = type_text_chars(&args[0]);
                    push_str(&mut out, " throws ");
                    let err = type_text_chars(&args[1]);
                    push_all(&mut out, &err);
                    return out;
                }
            }
            if eq_str(&name, "Arc") {
                proof {
                    lemma_trim_len(inner@);
                }
                match mutex_inner_chars(&inner) {
                    Some(m) => {
                        let mut out = chars_of("shared<");
                        let tr = type_text_chars(&m);
                        push_all(&mut out, &tr);
                        out.push('>');
                        proof {
                            reveal_strlit(">");
                        }
                        assert(out@ == "shared<"@ + tr@ + ">"@);
                        return out;
                    },
                    None => {},
                }
            }
            let mut out = type_name_chars(&name);
            out.push('<');
            let args = translate_generic_args(&inner);
            push_all(&mut out, &args);
            out.push('>');
            proof {
                reveal_strlit("<");
            }
            assert(out@ == type_name_text(name@) + "<"@ + args@ + ">"@);
            out
        },
        None => type_name_chars(&t),
    }
}

/// Translate a Rust type string to RustScript syntax.
///
/// Handles generic types like `Vec<String>` -> `Array<string>` and
/// nested generics like `HashMap<String, Vec<i32>>` -> `Map<string, Array<number>>`.
/// Also handles `Option<T>` -> `T | null`, `Result<T, E>` -> `T throws E`,
/// `fn(A) -> B` / `impl Fn(A) -> B` -> `(A) => B`, and
/// `Arc<Mutex<T>>` -> `shared<T>`.
pub fn translate_type_string(rust_type: &str) -> (r: String)
    ensures
        r@ == type_text(rust_type@),
{
    let s = chars_of(rust_type);
    let r = type_text_chars(&s);
    string_of(&r)
}

/// Translate a completion label that may be a method or type name.
///
/// Checks method names first, then type names. Returns the translated label.
pub fn translate_completion_label(label: &str) -> (r: String)
    ensures
        r@ == completion_label_text(label@),
{
    let s = chars_of(label);
    if let Some(m) = method_name_lookup(&s) {
        return m.to_owned();
    }
    if find(&s, '<').is_some() {
        return translate_type_string(label);
    }
    let t = type_name_chars(&s);
    string_of(&t)
}

// ---------------------------------------------------------------------------
// Display of IR types
// ---------------------------------------------------------------------------

/// RustScript display syntax of an IR type.
///
/// | IR | display |
/// |----|---------|
/// | `String` / `Bool` / `Unit` | `string` / `boolean` / `void` |
/// | `Option(T)` | `T \| null` |
/// | `Result(T, E)` | `T throws E` |
/// | `ImplFn([A, B], R)` | `(A, B) => R` |
/// | `ArcMutex(T)` | `shared<T>` |
/// | `Generic(Named("Vec"), [T])` | `Array<T>` |
pub open spec fn rts_display(t: RustType) -> Seq<char>
    decreases t, 0int,
{
    match t {
        RustType::I8 => "i8"@,
        RustType::I16 => "i16"@,
        RustType::I32 => "i32"@,
        RustType::I64 => "i64"@,
        RustType::U8 => "u8"@,
        RustType::U16 => "u16"@,
        RustType::U32 => "u32"@,
        RustType::U64 => "u64"@,
        RustType::F32 => "f32"@,
        RustType::F64 => "f64"@,
        RustType::Bool => "boolean"@,
        RustType::String => "string"@,
        RustType::Unit => "void"@,
        RustType::Never => "never"@,
        RustType::Named(name) => name@,
        RustType::TypeParam(name) => name@,
        RustType::Generic(base, args) => base_display(*base) + "<"@ + join(display_list(args@), ", "@)
            + ">"@,
        RustType::Option(inner) => rts_display(*inner) + " | null"@,
        RustType::Result(ok, err) => rts_display(*ok) + " throws "@ + rts_display(*err),
        RustType::ImplFn(params, ret) => "("@ + join(display_list(params@), ", "@) + ") => "@
            + rts_display(*ret),
        RustType::SelfType => "this"@,
        RustType::Infer => "(inferred)"@,
        RustType::ArcMutex(inner) => "shared<"@ + rts_display(*inner) + ">"@,
        RustType::Tuple(types) => "["@ + join(display_list(types@), ", "@) + "]"@,
        RustType::GeneratedUnion { name, variants } => join(display_variants(variants@), " | "@),
        RustType::DynRef(name) => name@,
        RustType::BoxDynAny => "unknown"@,
        RustType::Reference(inner) => "&"@ + rts_display(*inner),
        RustType::Slice(inner) => "["@ + rts_display(*inner) + "]"@,
        RustType::StrRef => "&str"@,
    }
}

/// Display of a generic base: `Vec`, `HashMap`, `HashSet` become
/// `Array`, `Map`, `Set`; other types display as usual.
pub open spec fn base_display(b: RustType) -> Seq<char>
    decreases b, 1int,
{
    match b {
        RustType::Named(name) => if name@ == "Vec"@ {
            "Array"@
        } else if name@ == "HashMap"@ {
            "Map"@
        } else if name@ == "HashSet"@ {
            "Set"@
        } else {
            name@
        },
        _ => rts_display(b),
    }
}

/// The displays of a list of types.
pub open spec fn display_list(ts: Seq<RustType>) -> Seq<Seq<char>>
    decreases ts, 0int,
{
    if ts.len() == 0 {
        Seq::empty()
    } else {
        display_list(ts.drop_last()).push(rts_display(ts.last()))
    }
}

/// The displays of the types of a union's variants.
pub open spec fn display_variants(vs: Seq<(String, RustType)>) -> Seq<Seq<char>>
    decreases vs, 0int,
{
    if vs.len() == 0 {
        Seq::empty()
    } else {
        display_variants(vs.drop_last()).push(rts_display(vs.last().1))
    }
}

fn lit(s: &str) -> (r: Vec<char>)
    ensures
        r@ == s@,
{
    chars_of(s)
}

/// The displays of a list of types.
fn display_list_chars(ts: &Vec<RustType>) -> (r: Vec<Vec<char>>)
    ensures
        views(r@) == display_list(ts@),
    decreases ts, 0int,
{
    let mut r: Vec<Vec<char>> = Vec::new();
    let mut k: usize = 0;
    while k < ts.len()
        invariant
            k <= ts.len(),
            views(r@) == display_list(ts@.take(k as int)),
        decreases ts.len() - k,
    {
        proof {
            assert(decreases_to!(ts => ts@));
            assert(decreases_to!(ts@ => ts@[k as int]));
        }
        let d = display_chars(&ts[k]);
        let ghost before = views(r@);
        r.push(d);
        assert(views(r@) == before.push(d@));
        assert(ts@.take(k + 1).drop_last() == ts@.take(k as int));
        k = k + 1;
    }
    assert(ts@.take(ts.len() as int) == ts@);
    r
}

/// The displays of the types of a union's variants.
fn display_variants_chars(vs: &Vec<(String, RustType)>) -> (r: Vec<Vec<char>>)
    ensures
        views(r@) == display_variants(vs@),
    decreases vs, 0int,
{
    let mut r: Vec<Vec<char>> = Vec::new();
    let mut k: usize = 0;
    while k < vs.len()
        invariant
            k <= vs.len(),
            views(r@) == display_variants(vs@.take(k as int)),
        decreases vs.len() - k,
    {
        proof {
            assert(decreases_to!(vs => vs@));
            assert(decreases_to!(vs@ => vs@[k as int]));
            assert(decreases_to!(vs@[k as int] => vs@[k as int].1));
        }
        let d = display_chars(&vs[k].1);
        let ghost before = views(r@);
        r.push(d);
        assert(views(r@) == before.push(d@));
        assert(vs@.take(k + 1).drop_last() == vs@.take(k as int));
        k = k + 1;
    }
    assert(vs@.take(vs.len() as int) == vs@);
    r
}

fn base_display_chars(b: &RustType) -> (r: Vec<char>)
    ensures
        r@ == base_display(*b),
    decreases b, 1int,
{
    match b {
        RustType::Named(name) => {
            let n = chars_of(name.as_str());
            if eq_str(&n, "Vec") {
                lit("Array")
            } else if eq_str(&n, "HashMap") {
                lit("Map")
            } else if eq_str(&n, "HashSet") {
                lit("Set")
            } else {
                n
            }
        },
        _ => display_chars(b),
    }
}

fn display_chars(ty: &RustType) -> (r: Vec<char>)
    ensures
        r@ == rts_display(*ty),
    decreases ty, 0int,
{
    match ty {
        RustType::I8 => lit("i8"),
        RustType::I16 => lit("i16"),
        RustType::I32 => lit("i32"),
        RustType::I64 => lit("i64"),
        RustType::U8 => lit("u8"),
        RustType::U16 => lit("u16"),
        RustType::U32 => lit("u32"),
        RustType::U64 => lit("u64"),
        RustType::F32 => lit("f32"),
        RustType::F64 => lit("f64"),
        RustType::Bool => lit("boolean"),
        RustType::String => lit("string"),
        RustType::Unit => lit("void"),
        RustType::Never => lit("never"),
        RustType::Named(name) => chars_of(name.as_str()),
        RustType::TypeParam(name) => chars_of(name.as_str()),
        RustType::Generic(base, args) => {
            let mut out = base_display_chars(base);
            push_str(&mut out, "<");
            let parts = display_list_chars(args);
            let joined = join_chars(&parts, ", ");
            push_all(&mut out, &joined);
            push_str(&mut out, ">");
            out
        },
        RustType::Option(inner) => {
            let mut out = display_chars(inner);
            push_str(&mut out, " | null");
            out
        },
        RustType::Result(ok, err) => {
            let mut out = display_chars(ok);
            push_str(&mut out, " throws ");
            let e = display_chars(err);
            push_all(&mut out, &e);
            out
        },
        RustType::ImplFn(params, ret) => {
            let mut out = lit("(");
            let parts = display_list_chars(params);
            let joined = join_chars(&parts, ", ");
            push_all(&mut out, &joined);
            push_str(&mut out, ") => ");
            let r = display_chars(ret);
            push_all(&mut out, &r);
            out
        },
        RustType::SelfType => lit("this"),
        RustType::Infer => lit("(inferred)"),
        RustType::ArcMutex(inner) => {
            let mut out = lit("shared<");
            let i = display_chars(inner);
            push_all(&mut out, &i);
            push_str(&mut out, ">");
            out
        },
        RustType::Tuple(types) => {
            let mut out = lit("[");
            let parts = display_list_chars(types);
            let joined = join_chars(&parts, ", ");
            push_all(&mut out, &joined);
            push_str(&mut out, "]");
            out
        },
        RustType::GeneratedUnion { name, variants } => {
            let parts = display_variants_chars(variants);
            join_chars(&parts, " | ")
        },
        RustType::DynRef(name) => chars_of(name.as_str()),
        RustType::BoxDynAny => lit("unknown"),
        RustType::Reference(inner) => {
            let mut out = lit("&");
            let i = display_chars(inner);
            push_all(&mut out, &i);
            out
        },
        RustType::Slice(inner) => {
            let mut out = lit("[");
            let i = display_chars(inner);
            push_all(&mut out, &i);
            push_str(&mut out, "]");
            out
        },
        RustType::StrRef => lit("&str"),
    }
}

/// Convert an IR [`RustType`] to RustScript display syntax.
///
/// This is the translation layer that keeps Rust types out of the editor:
/// hover output, diagnostics and completion details use it.
pub fn rust_type_to_rts_display(ty: &RustType) -> (r: String)
    ensures
        r@ == rts_display(*ty),
{
    let v = display_chars(ty);
    string_of(&v)
}

/// Translate an IR type used as a generic base name to its RustScript equivalent.
///
/// Maps `Vec` -> `Array`, `HashMap` -> `Map`, `HashSet` -> `Set`.
/// Other types pass through their normal display.
pub fn rust_type_base_to_rts(base: &RustType) -> (r: String)
    ensures
        r@ == base_display(*base),
{
    let v = base_display_chars(base);
    string_of(&v)
}

/// The type-name table, entry by entry: `Vec`, `HashMap`, `HashSet`, `String`,
/// `bool`, `i32`, `f64` and `()` become `Array`, `Map`, `Set`, `string`,
/// `boolean`, `number`, `number` and `void`; every other name stays as it is.
pub proof fn lemma_type_name_table()
    ensures
        type_name_text("Vec"@) == "Array"@,
        type_name_text("HashMap"@) == "Map"@,
        type_name_text("HashSet"@) == "Set"@,
        type_name_text("String"@) == "string"@,
        type_name_text("bool"@) == "boolean"@,
        type_name_text("i32"@) == "number"@,
        type_name_text("f64"@) == "number"@,
        type_name_text("()"@) == "void"@,
        forall|n: Seq<char>| n != "Vec"@ && n != "HashMap"@ && n != "HashSet"@ && n != "String"@ && n != "bool"@ && n != "i32"@ && n != "f64"@ && n != "()"@ ==> #[trigger] type_name_text(n) == n,
{
    reveal_strlit("()");
    reveal_strlit("Array");
    reveal_strlit("HashMap");
    reveal_strlit("HashSet");
    reveal_strlit("Map");
    reveal_strlit("Set");
    reveal_strlit("String");
    reveal_strlit("Vec");
    reveal_strlit("bool");
    reveal_strlit("boolean");
    reveal_strlit("f64");
    reveal_strlit("i32");
    reveal_strlit("number");
    reveal_strlit("string");
    reveal_strlit("void");
    assert("Vec"@.len() == 3);
    assert("HashMap"@.len() == 7);
    assert("HashSet"@.len() == 7);
    assert("String"@.len() == 6);
    assert("bool"@.len() == 4);
    assert("i32"@.len() == 3);
    assert("f64"@.len() == 3);
    assert("()"@.len() == 2);
    assert("Vec"@[0] != "i32"@[0]);
    assert("Vec"@[0] != "f64"@[0]);
    assert("HashMap"@[4] != "HashSet"@[4]);
    assert("i32"@[0] != "f64"@[0]);
}

/// The method-name table, entry by entry (snake case to the RustScript
/// names, `contains` to `includes`, `len` to `length`); every other name
/// stays as it is.
pub proof fn lemma_method_name_table()
    ensures
        method_name_text("to_uppercase"@) == "toUpperCase"@,
        method_name_text("to_lowercase"@) == "toLowerCase"@,
        method_name_text("starts_with"@) == "startsWith"@,
        method_name_text("ends_with"@) == "endsWith"@,
        method_name_text("contains"@) == "includes"@,
        method_name_text("len"@) == "length"@,
        method_name_text("push"@) == "push"@,
        method_name_text("pop"@) == "pop"@,
        method_name_text("is_empty"@) == "isEmpty"@,
        method_name_text("trim"@) == "trim"@,
        method_name_text("split"@) == "split"@,
        method_name_text("join"@) == "join"@,
        method_name_text("chars"@) == "chars"@,
        method_name_text("to_string"@) == "toString"@,
        forall|n: Seq<char>| n != "to_uppercase"@ && n != "to_lowercase"@ && n != "starts_with"@ && n != "ends_with"@ && n != "contains"@ && n != "len"@ && n != "push"@ && n != "pop"@ && n != "is_empty"@ && n != "trim"@ && n != "split"@ && n != "join"@ && n != "chars"@ && n != "to_string"@ ==> #[trigger] method_name_text(n) == n,
{
    reveal_strlit("chars");
    reveal_strlit("contains");
    reveal_strlit("endsWith");
    reveal_strlit("ends_with");
    reveal_strlit("includes");
    reveal_strlit("isEmpty");
    reveal_strlit("is_empty");
    reveal_strlit("join");
    reveal_strlit("len");
    reveal_strlit("length");
    reveal_strlit("pop");
    reveal_strlit("push");
    reveal_strlit("split");
    reveal_strlit("startsWith");
    reveal_strlit("starts_with");
    reveal_strlit("toLowerCase");
    reveal_strlit("toString");
    reveal_strlit("toUpperCase");
    reveal_strlit("to_lowercase");
    reveal_strlit("to_string");
    reveal_strlit("to_uppercase");
    reveal_strlit("trim");
    assert("to_uppercase"@.len() == 12);
    assert("to_lowercase"@.len() == 12);
    assert("starts_with"@.len() == 11);
    assert("ends_with"@.len() == 9);
    assert("contains"@.len() == 8);
    assert("len"@.len() == 3);
    assert("push"@.len() == 4);
    assert("pop"@.len() == 3);
    assert("is_empty"@.len() == 8);
    assert("trim"@.len() == 4);
    assert("split"@.len() == 5);
    assert("join"@.len() == 4);
    assert("chars"@.len() == 5);
    assert("to_string"@.len() == 9);
    assert("to_uppercase"@[3] != "to_lowercase"@[3]);
    assert("ends_with"@[0] != "to_string"@[0]);
    assert("contains"@[0] != "is_empty"@[0]);
    assert("len"@[0] != "pop"@[0]);
    assert("push"@[0] != "trim"@[0]);
    assert("push"@[0] != "join"@[0]);
    assert("trim"@[0] != "join"@[0]);
    assert("split"@[0] != "chars"@[0]);
}

/// The RustScript display of the scalar IR types, one by one.
pub proof fn lemma_scalar_display_table()
    ensures
        rts_display(RustType::I8) == "i8"@,
        rts_display(RustType::I16) == "i16"@,
        rts_display(RustType::I32) == "i32"@,
        rts_display(RustType::I64) == "i64"@,
        rts_display(RustType::U8) == "u8"@,
        rts_display(RustType::U16) == "u16"@,
        rts_display(RustType::U32) == "u32"@,
        rts_display(RustType::U64) == "u64"@,
        rts_display(RustType::F32) == "f32"@,
        rts_display(RustType::F64) == "f64"@,
        rts_display(RustType::Bool) == "boolean"@,
        rts_display(RustType::String) == "string"@,
        rts_display(RustType::Unit) == "void"@,
        rts_display(RustType::Never) == "never"@,
        rts_display(RustType::SelfType) == "this"@,
        rts_display(RustType::Infer) == "(inferred)"@,
        rts_display(RustType::BoxDynAny) == "unknown"@,
        rts_display(RustType::StrRef) == "&str"@,
{
}

/// The RustScript display of the wrapper IR types: `T | null`, `T throws E`,
/// `shared<T>`, and the generic bases `Vec`, `HashMap`, `HashSet` as `Array`,
/// `Map`, `Set`.
pub proof fn lemma_wrapper_display(t: RustType, e: RustType, n: String)
    ensures
        rts_display(RustType::Option(Box::new(t))) == rts_display(t) + " | null"@,
        rts_display(RustType::Result(Box::new(t), Box::new(e))) == rts_display(t) + " throws "@ + rts_display(e),
        rts_display(RustType::ArcMutex(Box::new(t))) == "shared<"@ + rts_display(t) + ">"@,
        n@ == "Vec"@ ==> base_display(RustType::Named(n)) == "Array"@,
        n@ == "HashMap"@ ==> base_display(RustType::Named(n)) == "Map"@,
        n@ == "HashSet"@ ==> base_display(RustType::Named(n)) == "Set"@,
        n@ != "Vec"@ && n@ != "HashMap"@ && n@ != "HashSet"@ ==> base_display(RustType::Named(n)) == n@,
{
    reveal_strlit("Vec");
    reveal_strlit("HashMap");
    reveal_strlit("HashSet");
    assert("Vec"@.len() == 3 && "HashMap"@.len() == 7 && "HashSet"@.len() == 7);
    assert("HashMap"@[4] != "HashSet"@[4]);
}

} // verus!
