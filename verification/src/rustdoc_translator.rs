//! Translates rustdoc items to RustScript display syntax.
//!
//! Rust function signatures, structs, traits and enums from rustdoc JSON are
//! rendered in RustScript syntax for hover display, with the type mapping of
//! the name map extended to full rustdoc type representations.

use vstd::prelude::*;

use crate::rustdoc::{
    RustdocEnum, RustdocField, RustdocFunction, RustdocGenericParam, RustdocItem, RustdocItemKind,
    RustdocStruct, RustdocTrait, RustdocType, RustdocVariant, RustdocVariantKind,
};
use crate::text::{
    chars_of, decimal, decimal_chars, eq_str, join, join_chars, push_all, push_str, slice_of,
    string_of, views,
};

verus! {

// ---------------------------------------------------------------------------
// Specification
// ---------------------------------------------------------------------------

/// A trait bound name after the known Rust-to-RustScript renamings.
pub open spec fn bound_text(b: Seq<char>) -> Seq<char> {
    if b == "Iterator"@ || b == "IntoIterator"@ {
        "Iterable"@
    } else if b == "Fn"@ || b == "FnMut"@ || b == "FnOnce"@ {
        "Function"@
    } else {
        b
    }
}

/// A primitive type name in RustScript syntax.
pub open spec fn primitive_text(n: Seq<char>) -> Seq<char> {
    if n == "str"@ || n == "String"@ || n == "char"@ {
        "string"@
    } else if n == "bool"@ {
        "boolean"@
    } else if n == "()"@ {
        "void"@
    } else if n == "never"@ || n == "!"@ {
        "never"@
    } else {
        n
    }
}

/// The bound texts of a list of bounds.
pub open spec fn bound_texts(bs: Seq<String>) -> Seq<Seq<char>>
    decreases bs.len(),
{
    if bs.len() == 0 {
        Seq::empty()
    } else {
        bound_texts(bs.drop_last()).push(bound_text(bs.last()@))
    }
}

/// RustScript rendering of a rustdoc type.
///
/// `String`/`&str` become `string`, `Vec<T>` becomes `Array<T>`, maps and
/// sets become `Map`/`Set`, `Option<T>` becomes `T | null`, `Result<T, E>`
/// becomes `T throws E`, `Box`/`Rc`/`Pin`/`Cow` and borrows are transparent,
/// `Arc<Mutex<T>>` becomes `shared<T>` and `Self` becomes `this`.
pub open spec fn doc_type_text(t: RustdocType) -> Seq<char>
    decreases t, 0int,
{
    match t {
        RustdocType::Primitive(name) => primitive_text(name@),
        RustdocType::Generic(name) => if name@ == "Self"@ { "this"@ } else { name@ },
        RustdocType::ResolvedPath { name, args } => path_text(name@, args@),
        RustdocType::BorrowedRef { is_mutable, ty } => doc_type_text(*ty),
        RustdocType::Tuple(types) => if types@.len() == 0 {
            "void"@
        } else {
            "["@ + join(doc_type_list(types@), ", "@) + "]"@
        },
        RustdocType::Slice(inner) => "Array<"@ + doc_type_text(*inner) + ">"@,
        RustdocType::Array { ty, len } => "Array<"@ + doc_type_text(*ty) + "> /* len: "@ + len@ + " */"@,
        RustdocType::RawPointer { is_mutable, ty } => "/* ptr */ "@ + doc_type_text(*ty),
        RustdocType::ImplTrait(bounds) => if bounds@.len() == 0 {
            "unknown"@
        } else {
            join(bound_texts(bounds@), " & "@)
        },
        RustdocType::FnPointer { params, return_type } => "("@ + join(doc_type_list(params@), ", "@)
            + ") => "@ + doc_type_text(*return_type),
        RustdocType::QualifiedPath { name } => name@,
        RustdocType::Infer => "(inferred)"@,
        RustdocType::Unknown(s) => s@,
    }
}

/// The rendering of the argument at `i`, or `default` when there is none.
pub open spec fn arg_or(args: Seq<RustdocType>, i: int, default: Seq<char>) -> Seq<char>
    decreases args, 0int,
{
    if 0 <= i < args.len() {
        doc_type_text(args[i])
    } else {
        default
    }
}

/// RustScript rendering of a resolved path with its arguments.
pub open spec fn path_text(name: Seq<char>, args: Seq<RustdocType>) -> Seq<char>
    decreases args, 1int,
{
    if name == "String"@ {
        "string"@
    } else if name == "Vec"@ {
        if args.len() == 0 { "Array<unknown>"@ } else { "Array<"@ + doc_type_text(args[0]) + ">"@ }
    } else if name == "HashMap"@ || name == "BTreeMap"@ {
        "Map<"@ + arg_or(args, 0, "unknown"@) + ", "@ + arg_or(args, 1, "unknown"@) + ">"@
    } else if name == "HashSet"@ || name == "BTreeSet"@ {
        "Set<"@ + arg_or(args, 0, "unknown"@) + ">"@
    } else if name == "Option"@ {
        arg_or(args, 0, "unknown"@) + " | null"@
    } else if name == "Result"@ {
        arg_or(args, 0, "unknown"@) + " throws "@ + arg_or(args, 1, "Error"@)
    } else if name == "Box"@ || name == "Rc"@ || name == "Pin"@ {
        arg_or(args, 0, "unknown"@)
    } else if name == "Arc"@ {
        if args.len() > 0 {
            match args[0] {
                RustdocType::ResolvedPath { name: n, args: a } => if n@ == "Mutex"@ {
                    "shared<"@ + arg_or(a@, 0, "unknown"@) + ">"@
                } else {
                    arg_or(args, 0, "unknown"@)
                },
                _ => arg_or(args, 0, "unknown"@),
            }
        } else {
            arg_or(args, 0, "unknown"@)
        }
    } else if name == "Cow"@ {
        arg_or(args, args.len() - 1, "unknown"@)
    } else if name == "Self"@ {
        "this"@
    } else if args.len() == 0 {
        name
    } else {
        name + "<"@ + join(doc_type_list(args), ", "@) + ">"@
    }
}

/// The renderings of a list of types.
pub open spec fn doc_type_list(ts: Seq<RustdocType>) -> Seq<Seq<char>>
    decreases ts, 0int,
{
    if ts.len() == 0 {
        Seq::empty()
    } else {
        doc_type_list(ts.drop_last()).push(doc_type_text(ts.last()))
    }
}

/// `name extends B1 & B2`, or just `name` without bounds.
pub open spec fn generic_param_text(p: RustdocGenericParam) -> Seq<char> {
    if p.bounds@.len() == 0 {
        p.name@
    } else {
        p.name@ + " extends "@ + join(bound_texts(p.bounds@), " & "@)
    }
}

/// The texts of a list of generic parameters.
pub open spec fn generic_param_texts(ps: Seq<RustdocGenericParam>) -> Seq<Seq<char>>
    decreases ps.len(),
{
    if ps.len() == 0 {
        Seq::empty()
    } else {
        generic_param_texts(ps.drop_last()).push(generic_param_text(ps.last()))
    }
}

/// `<P1, P2 extends B>`.
pub open spec fn generic_params_text(ps: Seq<RustdocGenericParam>) -> Seq<char> {
    "<"@ + join(generic_param_texts(ps), ", "@) + ">"@
}

/// The generic parameter list, or nothing when there are none.
pub open spec fn generics_suffix(ps: Seq<RustdocGenericParam>) -> Seq<char> {
    if ps.len() == 0 { Seq::empty() } else { generic_params_text(ps) }
}

/// `name: type`.
pub open spec fn field_text(f: RustdocField) -> Seq<char> {
    f.name@ + ": "@ + doc_type_text(f.ty)
}

/// The texts of a list of fields, each behind `prefix`.
pub open spec fn field_texts(fs: Seq<RustdocField>, prefix: Seq<char>) -> Seq<Seq<char>>
    decreases fs.len(),
{
    if fs.len() == 0 {
        Seq::empty()
    } else {
        field_texts(fs.drop_last(), prefix).push(prefix + field_text(fs.last()))
    }
}

/// The texts `name: type` of a parameter list.
pub open spec fn param_texts(ps: Seq<(String, RustdocType)>) -> Seq<Seq<char>>
    decreases ps.len(),
{
    if ps.len() == 0 {
        Seq::empty()
    } else {
        param_texts(ps.drop_last()).push(ps.last().0@ + ": "@ + doc_type_text(ps.last().1))
    }
}

/// RustScript signature of a function:
/// `[async ]function [Parent.]name[<generics>](params): ret`.
pub open spec fn function_text(name: Seq<char>, f: RustdocFunction) -> Seq<char> {
    (if f.is_async { "async "@ } else { Seq::empty() }) + "function "@ + (match f.parent_type {
        Some(p) => p@ + "."@,
        None => Seq::empty(),
    }) + name + generics_suffix(f.generics@) + "("@ + join(param_texts(f.params@), ", "@) + ")"@
        + ": "@ + (match f.return_type {
        Some(t) => doc_type_text(t),
        None => "void"@,
    })
}

/// RustScript rendering of a struct as a class.
pub open spec fn struct_text(name: Seq<char>, s: RustdocStruct) -> Seq<char> {
    let g = generics_suffix(s.generics@);
    if s.fields@.len() == 0 {
        "class "@ + name + g
    } else {
        "class "@ + name + g + " {\n"@ + join(field_texts(s.fields@, "  "@), "\n"@) + "\n}"@
    }
}

/// RustScript rendering of a trait as an interface, with its method count.
pub open spec fn trait_text(name: Seq<char>, t: RustdocTrait) -> Seq<char> {
    "interface "@ + name + generics_suffix(t.generics@) + if t.method_ids@.len() == 0 {
        Seq::empty()
    } else {
        " // "@ + decimal(t.method_ids@.len()) + " methods"@
    }
}

/// One variant line of an enum rendering.
pub open spec fn variant_text(v: RustdocVariant) -> Seq<char> {
    match v.kind {
        RustdocVariantKind::Plain => "  "@ + v.name@,
        RustdocVariantKind::Tuple(types) => "  "@ + v.name@ + "("@ + join(doc_type_list(types@), ", "@)
            + ")"@,
        RustdocVariantKind::Struct(fields) => "  "@ + v.name@ + " { "@ + join(
            field_texts(fields@, Seq::empty()),
            ", "@,
        ) + " }"@,
    }
}

/// The variant lines of an enum.
pub open spec fn variant_texts(vs: Seq<RustdocVariant>) -> Seq<Seq<char>>
    decreases vs.len(),
{
    if vs.len() == 0 {
        Seq::empty()
    } else {
        variant_texts(vs.drop_last()).push(variant_text(vs.last()))
    }
}

/// The quoted names of the variants.
pub open spec fn quoted_names(vs: Seq<RustdocVariant>) -> Seq<Seq<char>>
    decreases vs.len(),
{
    if vs.len() == 0 {
        Seq::empty()
    } else {
        quoted_names(vs.drop_last()).push("\""@ + vs.last().name@ + "\""@)
    }
}

/// Whether every variant carries no data.
pub open spec fn all_plain(vs: Seq<RustdocVariant>) -> bool {
    forall|i: int| 0 <= i < vs.len() ==> #[trigger] vs[i].kind is Plain
}

/// RustScript rendering of an enum: a string-literal union when every
/// variant is plain (and there is one), an `enum` block otherwise.
pub open spec fn enum_text(name: Seq<char>, e: RustdocEnum) -> Seq<char> {
    let g = generics_suffix(e.generics@);
    if all_plain(e.variants@) && e.variants@.len() > 0 {
        "type "@ + name + g + " = "@ + join(quoted_names(e.variants@), " | "@)
    } else {
        "enum "@ + name + g + " {\n"@ + join(variant_texts(e.variants@), "\n"@) + "\n}"@
    }
}

/// The RustScript code of an item.
pub open spec fn item_code(item: RustdocItem) -> Seq<char> {
    match item.kind {
        RustdocItemKind::Function(f) => function_text(item.name@, f),
        RustdocItemKind::Struct(s) => struct_text(item.name@, s),
        RustdocItemKind::Trait(t) => trait_text(item.name@, t),
        RustdocItemKind::Enum(e) => enum_text(item.name@, e),
    }
}

/// Hover markdown of an item: its docs (when non-empty), a rule, and a
/// `rustscript` code block.
pub open spec fn item_hover_text(item: RustdocItem) -> Seq<char> {
    let block = "```rustscript\n"@ + item_code(item) + "\n```"@;
    match item.docs {
        Some(d) => if d@.len() > 0 { d@ + "\n\n---\n\n"@ + block } else { block },
        None => block,
    }
}

// ---------------------------------------------------------------------------
// Executable rendering
// ---------------------------------------------------------------------------

fn lit(s: &str) -> (r: Vec<char>)
    ensures
        r@ == s@,
{
    chars_of(s)
}

/// Translate a trait bound name, applying known mappings.
pub fn translate_bound(bound: &str) -> (r: String)
    ensures
        r@ == bound_text(bound@),
{
    let b = chars_of(bound);
    if eq_str(&b, "Iterator") || eq_str(&b, "IntoIterator") {
        "Iterable".to_owned()
    } else if eq_str(&b, "Fn") || eq_str(&b, "FnMut") || eq_str(&b, "FnOnce") {
        "Function".to_owned()
    } else {
        bound.to_owned()
    }
}

/// Translate a primitive Rust type name to RustScript syntax.
pub fn translate_primitive(name: &str) -> (r: String)
    ensures
        r@ == primitive_text(name@),
{
    let n = chars_of(name);
    if eq_str(&n, "str") || eq_str(&n, "String") || eq_str(&n, "char") {
        "string".to_owned()
    } else if eq_str(&n, "bool") {
        "boolean".to_owned()
    } else if eq_str(&n, "()") {
        "void".to_owned()
    } else if eq_str(&n, "never") || eq_str(&n, "!") {
        "never".to_owned()
    } else {
        name.to_owned()
    }
}

fn bound_texts_chars(bs: &Vec<String>) -> (r: Vec<Vec<char>>)
    ensures
        views(r@) == bound_texts(bs@),
{
    let mut r: Vec<Vec<char>> = Vec::new();
    let mut k: usize = 0;
    while k < bs.len()
        invariant
            k <= bs.len(),
            views(r@) == bound_texts(bs@.take(k as int)),
        decreases bs.len() - k,
    {
        let t = translate_bound(bs[k].as_str());
        let tv = chars_of(t.as_str());
        let ghost before = views(r@);
        r.push(tv);
        assert(views(r@) == before.push(tv@));
        assert(bs@.take(k + 1).drop_last() == bs@.take(k as int));
        k = k + 1;
    }
    assert(bs@.take(bs.len() as int) == bs@);
    r
}

fn doc_type_list_chars(ts: &Vec<RustdocType>) -> (r: Vec<Vec<char>>)
    ensures
        views(r@) == doc_type_list(ts@),
    decreases ts, 0int,
{
    let mut r: Vec<Vec<char>> = Vec::new();
    let mut k: usize = 0;
    while k < ts.len()
        invariant
            k <= ts.len(),
            views(r@) == doc_type_list(ts@.take(k as int)),
        decreases ts.len() - k,
    {
        proof {
            assert(decreases_to!(ts => ts@));
            assert(decreases_to!(ts@ => ts@[k as int]));
        }
        let d = doc_type_chars(&ts[k]);
        let ghost before = views(r@);
        r.push(d);
        assert(views(r@) == before.push(d@));
        assert(ts@.take(k + 1).drop_last() == ts@.take(k as int));
        k = k + 1;
    }
    assert(ts@.take(ts.len() as int) == ts@);
    r
}

fn arg_or_chars(args: &Vec<RustdocType>, i: usize, default: &str) -> (r: Vec<char>)
    ensures
        r@ == arg_or(args@, i as int, default@),
    decreases args, 0int,
{
    if i < args.len() {
        proof {
            assert(decreases_to!(args => args@));
            assert(decreases_to!(args@ => args@[i as int]));
        }
        doc_type_chars(&args[i])
    } else {
        lit(default)
    }
}

fn path_chars(name: &[char], args: &Vec<RustdocType>) -> (r: Vec<char>)
    ensures
        r@ == path_text(name@, args@),
    decreases args, 1int,
{
    if eq_str(name, "String") {
        return lit("string");
    }
    if eq_str(name, "Vec") {
        if args.len() == 0 {
            return lit("Array<unknown>");
        }
        let mut out = lit("Array<");
        let a = arg_or_chars(args, 0, "unknown");
        push_all(&mut out, &a);
        push_str(&mut out, ">");
        return out;
    }
    if eq_str(name, "HashMap") || eq_str(name, "BTreeMap") {
        let mut out = lit("Map<");
        let k = arg_or_chars(args, 0, "unknown");
        push_all(&mut out, &k);
        push_str(&mut out, ", ");
        let v = arg_or_chars(args, 1, "unknown");
        push_all(&mut out, &v);
        push_str(&mut out, ">");
        return out;
    }
    if eq_str(name, "HashSet") || eq_str(name, "BTreeSet") {
        let mut out = lit("Set<");
        let a = arg_or_chars(args, 0, "unknown");
        push_all(&mut out, &a);
        push_str(&mut out, ">");
        return out;
    }
    if eq_str(name, "Option") {
        let mut out = arg_or_chars(args, 0, "unknown");
        push_str(&mut out, " | null");
        return out;
    }
    if eq_str(name, "Result") {
        let mut out = arg_or_chars(args, 0, "unknown");
        push_str(&mut out, " throws ");
        let e = arg_or_chars(args, 1, "Error");
        push_all(&mut out, &e);
        return out;
    }
    if eq_str(name, "Box") || eq_str(name, "Rc") || eq_str(name, "Pin") {
        return arg_or_chars(args, 0, "unknown");
    }
    if eq_str(name, "Arc") {
        if args.len() > 0 {
            match &args[0] {
                RustdocType::ResolvedPath { name: inner_name, args: inner_args } => {
                    let n = chars_of(inner_name.as_str());
                    if eq_str(&n, "Mutex") {
                        proof {
                            assert(decreases_to!(args => args@));
                            assert(decreases_to!(args@ => args@[0]));
                        }
                        let mut out = lit("shared<");
                        let t = arg_or_chars(inner_args, 0, "unknown");
                        push_all(&mut out, &t);
                        push_str(&mut out, ">");
                        return out;
                    }
                },
                _ => {},
            }
        }
        return arg_or_chars(args, 0, "unknown");
    }
    if eq_str(name, "Cow") {
        if args.len() == 0 {
            return lit("unknown");
        }
        return arg_or_chars(args, args.len() - 1, "unknown");
    }
    if eq_str(name, "Self") {
        return lit("this");
    }
    if args.len() == 0 {
        return slice_of(name, 0, name.len());
    }
    let mut out = slice_of(name, 0, name.len());
    push_str(&mut out, "<");
    let parts = doc_type_list_chars(args);
    let joined = join_chars(&parts, ", ");
    push_all(&mut out, &joined);
    push_str(&mut out, ">");
    out
}

fn doc_type_chars(ty: &RustdocType) -> (r: Vec<char>)
    ensures
        r@ == doc_type_text(*ty),
    decreases ty, 0int,
{
    match ty {
        RustdocType::Primitive(name) => {
            let t = translate_primitive(name.as_str());
            chars_of(t.as_str())
        },
        RustdocType::Generic(name) => {
            let n = chars_of(name.as_str());
            if eq_str(&n, "Self") {
                lit("this")
            } else {
                n
            }
        },
        RustdocType::ResolvedPath { name, args } => {
            let n = chars_of(name.as_str());
            path_chars(&n, args)
        },
        RustdocType::BorrowedRef { is_mutable: _, ty: inner } => doc_type_chars(inner),
        RustdocType::Tuple(types) => {
            if types.len() == 0 {
                lit("void")
            } else {
                let mut out = lit("[");
                let parts = doc_type_list_chars(types);
                let joined = join_chars(&parts, ", ");
                push_all(&mut out, &joined);
                push_str(&mut out, "]");
                out
            }
        },
        RustdocType::Slice(inner) => {
            let mut out = lit("Array<");
            let t = doc_type_chars(inner);
            push_all(&mut out, &t);
            push_str(&mut out, ">");
            out
        },
        RustdocType::Array { ty: inner, len } => {
            let mut out = lit("Array<");
            let t = doc_type_chars(inner);
            push_all(&mut out, &t);
            push_str(&mut out, "> /* len: ");
            push_str(&mut out, len.as_str());
            push_str(&mut out, " */");
            out
        },
        RustdocType::RawPointer { is_mutable: _, ty: inner } => {
            let mut out = lit("/* ptr */ ");
            let t = doc_type_chars(inner);
            push_all(&mut out, &t);
            out
        },
        RustdocType::ImplTrait(bounds) => {
            if bounds.len() == 0 {
                lit("unknown")
            } else {
                let parts = bound_texts_chars(bounds);
                join_chars(&parts, " & ")
            }
        },
        RustdocType::FnPointer { params, return_type } => {
            let mut out = lit("(");
            let parts = doc_type_list_chars(params);
            let joined = join_chars(&parts, ", ");
            push_all(&mut out, &joined);
            push_str(&mut out, ") => ");
            let r = doc_type_chars(return_type);
            push_all(&mut out, &r);
            out
        },
        RustdocType::QualifiedPath { name } => chars_of(name.as_str()),
        RustdocType::Infer => lit("(inferred)"),
        RustdocType::Unknown(s) => chars_of(s.as_str()),
    }
}

/// Translate a rustdoc type to RustScript display syntax.
///
/// This is the core type translation function. It applies the mapping rules:
/// - `String` / `&str` -> `string`
/// - `Vec<T>` -> `Array<T>`
/// - `HashMap<K,V>` -> `Map<K,V>`
/// - `HashSet<T>` -> `Set<T>`
/// - `Option<T>` -> `T | null`
/// - `Result<T, E>` -> `T throws E`
/// - `Box<dyn Trait>` -> `Trait`
/// - `Arc<Mutex<T>>` -> `shared<T>`
/// - `&T` / `&mut T` -> `T` (borrows hidden)
/// - `Self` -> `this`
pub fn translate_type(ty: &RustdocType) -> (r: String)
    ensures
        r@ == doc_type_text(*ty),
{
    let v = doc_type_chars(ty);
    string_of(&v)
}

/// Translate a resolved path type, handling known container types.
pub fn translate_resolved_path(name: &str, args: &Vec<RustdocType>) -> (r: String)
    ensures
        r@ == path_text(name@, args@),
{
    let n = chars_of(name);
    let v = path_chars(&n, args);
    string_of(&v)
}

fn generic_params_chars(params: &Vec<RustdocGenericParam>) -> (r: Vec<char>)
    ensures
        r@ == generic_params_text(params@),
{
    let mut parts: Vec<Vec<char>> = Vec::new();
    let mut k: usize = 0;
    while k < params.len()
        invariant
            k <= params.len(),
            views(parts@) == generic_param_texts(params@.take(k as int)),
        decreases params.len() - k,
    {
        let p = &params[k];
        let mut t = chars_of(p.name.as_str());
        if p.bounds.len() > 0 {
            push_str(&mut t, " extends ");
            let bs = bound_texts_chars(&p.bounds);
            let joined = join_chars(&bs, " & ");
            push_all(&mut t, &joined);
        }
        let ghost before = views(parts@);
        parts.push(t);
        assert(views(parts@) == before.push(t@));
        assert(params@.take(k + 1).drop_last() == params@.take(k as int));
        k = k + 1;
    }
    assert(params@.take(params.len() as int) == params@);
    let mut out = lit("<");
    let joined = join_chars(&parts, ", ");
    push_all(&mut out, &joined);
    push_str(&mut out, ">");
    out
}

/// Translate generic parameters to RustScript syntax.
///
/// Converts `<T: Display + Clone>` to `<T extends Display & Clone>`.
pub fn translate_generic_params(params: &Vec<RustdocGenericParam>) -> (r: String)
    ensures
        r@ == generic_params_text(params@),
{
    let v = generic_params_chars(params);
    string_of(&v)
}

fn generics_suffix_chars(params: &Vec<RustdocGenericParam>) -> (r: Vec<char>)
    ensures
        r@ == generics_suffix(params@),
{
    if params.len() == 0 {
        Vec::new()
    } else {
        generic_params_chars(params)
    }
}

fn field_texts_chars(fs: &Vec<RustdocField>, prefix: &str) -> (r: Vec<Vec<char>>)
    ensures
        views(r@) == field_texts(fs@, prefix@),
{
    let mut r: Vec<Vec<char>> = Vec::new();
    let mut k: usize = 0;
    while k < fs.len()
        invariant
            k <= fs.len(),
            views(r@) == field_texts(fs@.take(k as int), prefix@),
        decreases fs.len() - k,
    {
        let f = &fs[k];
        let mut t = lit(prefix);
        push_str(&mut t, f.name.as_str());
        push_str(&mut t, ": ");
        let ty = doc_type_chars(&f.ty);
        push_all(&mut t, &ty);
        assert(t@ == prefix@ + field_text(fs@[k as int]));
        let ghost before = views(r@);
        r.push(t);
        assert(views(r@) == before.push(t@));
        assert(fs@.take(k + 1).drop_last() == fs@.take(k as int));
        k = k + 1;
    }
    assert(fs@.take(fs.len() as int) == fs@);
    r
}

/// Translate a function signature to RustScript syntax.
///
/// Produces output like `function get<H extends Handler, T>(handler: H): MethodRouter`
/// or `async function serve(): void`.
pub fn translate_function(name: &str, func: &RustdocFunction) -> (r: String)
    ensures
        r@ == function_text(name@, *func),
{
    let mut out: Vec<char> = Vec::new();
    if func.is_async {
        push_str(&mut out, "async ");
    }
    push_str(&mut out, "function ");
    match &func.parent_type {
        Some(p) => {
            push_str(&mut out, p.as_str());
            push_str(&mut out, ".");
        },
        None => {},
    }
    push_str(&mut out, name);
    let g = generics_suffix_chars(&func.generics);
    push_all(&mut out, &g);
    let mut parts: Vec<Vec<char>> = Vec::new();
    let mut k: usize = 0;
    while k < func.params.len()
        invariant
            k <= func.params.len(),
            views(parts@) == param_texts(func.params@.take(k as int)),
        decreases func.params.len() - k,
    {
        let (pname, pty) = &func.params[k];
        let mut t = chars_of(pname.as_str());
        push_str(&mut t, ": ");
        let ty = doc_type_chars(pty);
        push_all(&mut t, &ty);
        let ghost before = views(parts@);
        parts.push(t);
        assert(views(parts@) == before.push(t@));
        assert(func.params@.take(k + 1).drop_last() == func.params@.take(k as int));
        k = k + 1;
    }
    assert(func.params@.take(func.params.len() as int) == func.params@);
    push_str(&mut out, "(");
    let joined = join_chars(&parts, ", ");
    push_all(&mut out, &joined);
    push_str(&mut out, ")");
    push_str(&mut out, ": ");
    match &func.return_type {
        Some(t) => {
            let rt = doc_type_chars(t);
            push_all(&mut out, &rt);
        },
        None => push_str(&mut out, "void"),
    }
    string_of(&out)
}

/// Translate a struct to RustScript syntax.
///
/// Produces output like `class Router` or
/// `class User {\n  name: string\n  age: u32\n}`.
pub fn translate_struct(name: &str, s: &RustdocStruct) -> (r: String)
    ensures
        r@ == struct_text(name@, *s),
{
    let g = generics_suffix_chars(&s.generics);
    let mut out = lit("class ");
    push_str(&mut out, name);
    push_all(&mut out, &g);
    if s.fields.len() > 0 {
        push_str(&mut out, " {\n");
        let lines = field_texts_chars(&s.fields, "  ");
        let joined = join_chars(&lines, "\n");
        push_all(&mut out, &joined);
        push_str(&mut out, "\n}");
    }
    string_of(&out)
}

/// Translate a trait to RustScript syntax.
///
/// Produces output like `interface Handler<T> // 2 methods`.
pub fn translate_trait(name: &str, t: &RustdocTrait) -> (r: String)
    ensures
        r@ == trait_text(name@, *t),
{
    let g = generics_suffix_chars(&t.generics);
    let mut out = lit("interface ");
    push_str(&mut out, name);
    push_all(&mut out, &g);
    if t.method_ids.len() > 0 {
        push_str(&mut out, " // ");
        let n = decimal_chars(t.method_ids.len() as u128);
        push_all(&mut out, &n);
        push_str(&mut out, " methods");
    }
    string_of(&out)
}

/// Translate an enum variant to display syntax.
pub fn translate_variant(variant: &RustdocVariant) -> (r: String)
    ensures
        r@ == variant_text(*variant),
{
    let v = variant_chars(variant);
    string_of(&v)
}

fn variant_chars(variant: &RustdocVariant) -> (r: Vec<char>)
    ensures
        r@ == variant_text(*variant),
{
    let mut out = lit("  ");
    push_str(&mut out, variant.name.as_str());
    match &variant.kind {
        RustdocVariantKind::Plain => {},
        RustdocVariantKind::Tuple(types) => {
            push_str(&mut out, "(");
            let parts = doc_type_list_chars(types);
            let joined = join_chars(&parts, ", ");
            push_all(&mut out, &joined);
            push_str(&mut out, ")");
        },
        RustdocVariantKind::Struct(fields) => {
            push_str(&mut out, " { ");
            let parts = field_texts_chars(fields, "");
            proof {
                reveal_strlit("");
                assert(""@ =~= Seq::<char>::empty());
            }
            let joined = join_chars(&parts, ", ");
            push_all(&mut out, &joined);
            push_str(&mut out, " }");
        },
    }
    out
}

/// Translate an enum to RustScript syntax.
///
/// For simple enums (all unit variants), produces a string union:
/// `type Method = "Get" | "Post" | "Put" | "Delete"`.
/// Otherwise produces an `enum` block with one line per variant.
pub fn translate_enum(name: &str, e: &RustdocEnum) -> (r: String)
    ensures
        r@ == enum_text(name@, *e),
{
    let g = generics_suffix_chars(&e.generics);
    let mut plain = true;
    let mut k: usize = 0;
    while k < e.variants.len()
        invariant
            k <= e.variants.len(),
            plain == (forall|i: int| 0 <= i < k ==> #[trigger] e.variants@[i].kind is Plain),
        decreases e.variants.len() - k,
    {
        match &e.variants[k].kind {
            RustdocVariantKind::Plain => {},
            _ => {
                plain = false;
            },
        }
        k = k + 1;
    }
    if plain && e.variants.len() > 0 {
        let mut out = lit("type ");
        push_str(&mut out, name);
        push_all(&mut out, &g);
        push_str(&mut out, " = ");
        let mut parts: Vec<Vec<char>> = Vec::new();
        let mut j: usize = 0;
        while j < e.variants.len()
            invariant
                j <= e.variants.len(),
                views(parts@) == quoted_names(e.variants@.take(j as int)),
            decreases e.variants.len() - j,
        {
            let mut t = lit("\"");
            push_str(&mut t, e.variants[j].name.as_str());
            push_str(&mut t, "\"");
            let ghost before = views(parts@);
            parts.push(t);
            assert(views(parts@) == before.push(t@));
            assert(e.variants@.take(j + 1).drop_last() == e.variants@.take(j as int));
            j = j + 1;
        }
        assert(e.variants@.take(e.variants.len() as int) == e.variants@);
        let joined = join_chars(&parts, " | ");
        push_all(&mut out, &joined);
        string_of(&out)
    } else {
        let mut out = lit("enum ");
        push_str(&mut out, name);
        push_all(&mut out, &g);
        push_str(&mut out, " {\n");
        let mut parts: Vec<Vec<char>> = Vec::new();
        let mut j: usize = 0;
        while j < e.variants.len()
            invariant
                j <= e.variants.len(),
                views(parts@) == variant_texts(e.variants@.take(j as int)),
            decreases e.variants.len() - j,
        {
            let t = variant_chars(&e.variants[j]);
            let ghost before = views(parts@);
            parts.push(t);
            assert(views(parts@) == before.push(t@));
            assert(e.variants@.take(j + 1).drop_last() == e.variants@.take(j as int));
            j = j + 1;
        }
        assert(e.variants@.take(e.variants.len() as int) == e.variants@);
        let joined = join_chars(&parts, "\n");
        push_all(&mut out, &joined);
        push_str(&mut out, "\n}");
        string_of(&out)
    }
}

/// Translate a rustdoc item to a RustScript hover display string.
///
/// Returns a markdown string suitable for LSP hover content, including
/// a RustScript code block and optional documentation.
pub fn translate_item_to_hover(item: &RustdocItem) -> (r: String)
    ensures
        r@ == item_hover_text(*item),
{
    let code = match &item.kind {
        RustdocItemKind::Function(func) => translate_function(item.name.as_str(), func),
        RustdocItemKind::Struct(s) => translate_struct(item.name.as_str(), s),
        RustdocItemKind::Trait(t) => translate_trait(item.name.as_str(), t),
        RustdocItemKind::Enum(e) => translate_enum(item.name.as_str(), e),
    };
    let mut block = lit("```rustscript\n");
    push_str(&mut block, code.as_str());
    push_str(&mut block, "\n```");
    match &item.docs {
        Some(docs) => {
            let d = chars_of(docs.as_str());
            if d.len() > 0 {
                let mut out = d;
                push_str(&mut out, "\n\n---\n\n");
                push_all(&mut out, &block);
                return string_of(&out);
            }
        },
        None => {},
    }
    string_of(&block)
}

/// Translate a struct field for display.
pub fn translate_field(field: &RustdocField) -> (r: String)
    ensures
        r@ == field_text(*field),
{
    let mut out = chars_of(field.name.as_str());
    push_str(&mut out, ": ");
    let t = doc_type_chars(&field.ty);
    push_all(&mut out, &t);
    string_of(&out)
}

/// Trait bounds in RustScript: `Iterator` and `IntoIterator` read `Iterable`,
/// `Fn`, `FnMut` and `FnOnce` read `Function`, every other bound as it is.
pub proof fn lemma_bound_names()
    ensures
        bound_text("Iterator"@) == "Iterable"@,
        bound_text("IntoIterator"@) == "Iterable"@,
        bound_text("Fn"@) == "Function"@,
        bound_text("FnMut"@) == "Function"@,
        bound_text("FnOnce"@) == "Function"@,
        forall|n: Seq<char>| n != "Iterator"@ && n != "IntoIterator"@ && n != "Fn"@ && n != "FnMut"@ && n != "FnOnce"@ ==> #[trigger] bound_text(n) == n,
{
    reveal_strlit("Fn");
    reveal_strlit("FnMut");
    reveal_strlit("FnOnce");
    reveal_strlit("Function");
    reveal_strlit("IntoIterator");
    reveal_strlit("Iterable");
    reveal_strlit("Iterator");
    assert("Iterator"@.len() == 8);
    assert("IntoIterator"@.len() == 12);
    assert("Fn"@.len() == 2);
    assert("FnMut"@.len() == 5);
    assert("FnOnce"@.len() == 6);
}

/// Primitive types in RustScript: `str`, `String` and `char` read `string`,
/// `bool` reads `boolean`, `()` reads `void`, `never` and `!` read `never`,
/// every other primitive as it is.
pub proof fn lemma_primitive_names()
    ensures
        primitive_text("str"@) == "string"@,
        primitive_text("String"@) == "string"@,
        primitive_text("char"@) == "string"@,
        primitive_text("bool"@) == "boolean"@,
        primitive_text("()"@) == "void"@,
        primitive_text("never"@) == "never"@,
        primitive_text("!"@) == "never"@,
        forall|n: Seq<char>| n != "str"@ && n != "String"@ && n != "char"@ && n != "bool"@ && n != "()"@ && n != "never"@ && n != "!"@ ==> #[trigger] primitive_text(n) == n,
{
    reveal_strlit("!");
    reveal_strlit("()");
    reveal_strlit("String");
    reveal_strlit("bool");
    reveal_strlit("boolean");
    reveal_strlit("char");
    reveal_strlit("never");
    reveal_strlit("str");
    reveal_strlit("string");
    reveal_strlit("void");
    assert("str"@.len() == 3);
    assert("String"@.len() == 6);
    assert("char"@.len() == 4);
    assert("bool"@.len() == 4);
    assert("()"@.len() == 2);
    assert("never"@.len() == 5);
    assert("!"@.len() == 1);
    assert("char"@[0] != "bool"@[0]);
}

/// The known containers in RustScript: `String` reads `string`, `Vec<T>`
/// `Array<T>`, `HashMap`/`BTreeMap<K, V>` `Map<K, V>`, `HashSet`/`BTreeSet<T>`
/// `Set<T>`, `Option<T>` `T | null`, `Result<T, E>` `T throws E`,
/// `Box`/`Rc`/`Pin<T>` just `T`, and `Self` reads `this`.
pub proof fn lemma_container_paths(t: RustdocType, e: RustdocType, args: Seq<RustdocType>)
    ensures
        path_text("String"@, args) == "string"@,
        path_text("Vec"@, seq![t]) == "Array<"@ + doc_type_text(t) + ">"@,
        path_text("HashMap"@, seq![t, e]) == "Map<"@ + doc_type_text(t) + ", "@ + doc_type_text(e) + ">"@,
        path_text("BTreeMap"@, seq![t, e]) == "Map<"@ + doc_type_text(t) + ", "@ + doc_type_text(e) + ">"@,
        path_text("HashSet"@, seq![t]) == "Set<"@ + doc_type_text(t) + ">"@,
        path_text("BTreeSet"@, seq![t]) == "Set<"@ + doc_type_text(t) + ">"@,
        path_text("Option"@, seq![t]) == doc_type_text(t) + " | null"@,
        path_text("Result"@, seq![t, e]) == doc_type_text(t) + " throws "@ + doc_type_text(e),
        path_text("Box"@, seq![t]) == doc_type_text(t),
        path_text("Rc"@, seq![t]) == doc_type_text(t),
        path_text("Pin"@, seq![t]) == doc_type_text(t),
        path_text("Self"@, args) == "this"@,
{
    reveal_strlit("String");
    reveal_strlit("Vec");
    reveal_strlit("HashMap");
    reveal_strlit("BTreeMap");
    reveal_strlit("HashSet");
    reveal_strlit("BTreeSet");
    reveal_strlit("Option");
    reveal_strlit("Result");
    reveal_strlit("Box");
    reveal_strlit("Rc");
    reveal_strlit("Pin");
    reveal_strlit("Arc");
    reveal_strlit("Cow");
    reveal_strlit("Self");
    assert("String"@.len() == 6);
    assert("Vec"@.len() == 3);
    assert("HashMap"@.len() == 7);
    assert("BTreeMap"@.len() == 8);
    assert("HashSet"@.len() == 7);
    assert("BTreeSet"@.len() == 8);
    assert("Option"@.len() == 6);
    assert("Result"@.len() == 6);
    assert("Box"@.len() == 3);
    assert("Rc"@.len() == 2);
    assert("Pin"@.len() == 3);
    assert("Arc"@.len() == 3);
    assert("Cow"@.len() == 3);
    assert("Self"@.len() == 4);
    assert("String"@[0] != "Option"@[0]);
    assert("String"@[0] != "Result"@[0]);
    assert("Vec"@[0] != "Box"@[0]);
    assert("Vec"@[0] != "Pin"@[0]);
    assert("Vec"@[0] != "Arc"@[0]);
    assert("Vec"@[0] != "Cow"@[0]);
    assert("HashMap"@[4] != "HashSet"@[4]);
    assert("BTreeMap"@[5] != "BTreeSet"@[5]);
    assert("Option"@[0] != "Result"@[0]);
    assert("Box"@[0] != "Pin"@[0]);
    assert("Box"@[0] != "Arc"@[0]);
    assert("Box"@[0] != "Cow"@[0]);
    assert("Pin"@[0] != "Arc"@[0]);
    assert("Pin"@[0] != "Cow"@[0]);
    assert("Arc"@[0] != "Cow"@[0]);
}

} // verus!
