//! Self-contained helpers of the lowering pass: naming of generated items,
//! generator state-machine text, decorator lowering, type-name resolution
//! and queries on IR types.

use vstd::prelude::*;

use crate::ast::{
    BinaryOp, Block, ElseClause, ExprKind, Item, Module, Stmt, TypeKind, TypeParam, UnaryOp,
};
use crate::rust_ir::{RustBinaryOp, RustCompoundAssignOp, RustType, RustUnaryOp};
use crate::text::{
    chars_of, decimal, decimal_chars, eq_str, push_all, push_str, slice_of, string_of, trim,
    trim_chars, views,
};

verus! {

// ---------------------------------------------------------------------------
// Trusted std call
// ---------------------------------------------------------------------------

/// The characters of the Unicode uppercase mapping of `c` (one to three of them).
pub uninterp spec fn uppercase_of(c: char) -> Seq<char>;

/// `char::to_uppercase` of std, collected: the characters of the Unicode
/// uppercase mapping of `c`. Which characters they are is left to the name
/// [`uppercase_of`]; the mapping depends on `c` alone.
#[verifier::external_body]
fn char_to_uppercase(c: char) -> (r: Vec<char>)
    ensures
        r@ == uppercase_of(c),
{
    c.to_uppercase().collect()
}

// ---------------------------------------------------------------------------
// Capitalization
// ---------------------------------------------------------------------------

/// `s` with its first character replaced by its uppercase mapping.
pub open spec fn capitalized(s: Seq<char>) -> Seq<char> {
    if s.len() == 0 {
        Seq::empty()
    } else {
        uppercase_of(s[0]) + s.drop_first()
    }
}

/// Capitalize the first letter of a string.
///
/// Used to derive Rust enum variant names from RustScript string literals.
pub fn capitalize_first(s: &str) -> (r: String)
    ensures
        r@ == capitalized(s@),
{
    let v = chars_of(s);
    if v.len() == 0 {
        return String::new();
    }
    let mut out = char_to_uppercase(v[0]);
    let rest = slice_of(&v, 1, v.len());
    push_all(&mut out, &rest);
    assert(rest@ == v@.drop_first());
    string_of(&out)
}

/// Generate the struct name for a generator function.
///
/// Capitalizes the first letter and appends `Iter`:
/// `range` -> `RangeIter`, `fibonacci` -> `FibonacciIter`.
pub fn generator_struct_name(fn_name: &str) -> (r: String)
    ensures
        r@ == capitalized(fn_name@) + "Iter"@,
{
    let v = chars_of(fn_name);
    let mut out: Vec<char> = Vec::new();
    if v.len() > 0 {
        out = char_to_uppercase(v[0]);
        let rest = slice_of(&v, 1, v.len());
        push_all(&mut out, &rest);
        assert(rest@ == v@.drop_first());
    }
    push_str(&mut out, "Iter");
    string_of(&out)
}

// ---------------------------------------------------------------------------
// Generator state machines
// ---------------------------------------------------------------------------

/// A state in the generator state machine.
pub struct GeneratorState {
    /// The state number.
    pub index: u32,
    /// The Rust code for this state's body.
    pub code: String,
}

/// The `match` arm of one state.
pub open spec fn state_arm(s: GeneratorState) -> Seq<char> {
    "\n                    "@ + decimal(s.index as nat) + " => {\n                        "@ + s.code@
        + "\n                    }"@
}

/// The arms of the given states, in order.
pub open spec fn state_arms(states: Seq<GeneratorState>) -> Seq<char>
    decreases states.len(),
{
    if states.len() == 0 {
        Seq::empty()
    } else {
        state_arms(states.drop_last()) + state_arm(states.last())
    }
}

/// The `loop { match self._state { ... } }` body for the given states.
pub open spec fn state_machine_text(states: Seq<GeneratorState>) -> Seq<char> {
    "loop {\n                match self._state {"@ + state_arms(states)
        + "\n                    _ => return None,\n                }\n            }"@
}

/// Format a list of states into a loop/match state machine body.
pub fn format_state_machine(states: &[GeneratorState]) -> (r: String)
    ensures
        r@ == state_machine_text(states@),
{
    let mut arms: Vec<char> = Vec::new();
    let mut k: usize = 0;
    while k < states.len()
        invariant
            k <= states.len(),
            arms@ == state_arms(states@.take(k as int)),
        decreases states.len() - k,
    {
        let st = &states[k];
        push_str(&mut arms, "\n                    ");
        let idx = decimal_chars(st.index as u128);
        push_all(&mut arms, &idx);
        push_str(&mut arms, " => {\n                        ");
        push_str(&mut arms, st.code.as_str());
        push_str(&mut arms, "\n                    }");
        assert(states@.take(k + 1).drop_last() == states@.take(k as int));
        k = k + 1;
    }
    assert(states@.take(states.len() as int) == states@);
    let mut out = chars_of("loop {\n                match self._state {");
    push_all(&mut out, &arms);
    push_str(&mut out, "\n                    _ => return None,\n                }\n            }");
    string_of(&out)
}

// ---------------------------------------------------------------------------
// Queries on IR types
// ---------------------------------------------------------------------------

/// The default value literal written for a field of the given type.
pub open spec fn default_value_text(ty: RustType) -> Seq<char> {
    match ty {
        RustType::I8 | RustType::I16 | RustType::I32 | RustType::I64 | RustType::U8
        | RustType::U16 | RustType::U32 | RustType::U64 => "0"@,
        RustType::F32 | RustType::F64 => "0.0"@,
        RustType::Bool => "false"@,
        RustType::String => "String::new()"@,
        RustType::Unit => "()"@,
        _ => "Default::default()"@,
    }
}

/// Get a default value literal for a given type (used in generator `new()` constructors).
pub fn default_value_for_type(ty: &RustType) -> (r: String)
    ensures
        r@ == default_value_text(*ty),
{
    match ty {
        RustType::I8 | RustType::I16 | RustType::I32 | RustType::I64 | RustType::U8
        | RustType::U16 | RustType::U32 | RustType::U64 => "0".to_owned(),
        RustType::F32 | RustType::F64 => "0.0".to_owned(),
        RustType::Bool => "false".to_owned(),
        RustType::String => "String::new()".to_owned(),
        RustType::Unit => "()".to_owned(),
        _ => "Default::default()".to_owned(),
    }
}

/// Whether the type is a primitive number or `bool`.
pub open spec fn is_copy_scalar(ty: RustType) -> bool {
    match ty {
        RustType::I8 | RustType::I16 | RustType::I32 | RustType::I64 | RustType::U8
        | RustType::U16 | RustType::U32 | RustType::U64 | RustType::F32 | RustType::F64
        | RustType::Bool => true,
        _ => false,
    }
}

/// Whether a collection type's first type argument is a `Copy` scalar.
pub open spec fn element_is_copy(ty: RustType) -> bool {
    match ty {
        RustType::Generic(_, args) => args@.len() > 0 && is_copy_scalar(args@[0]),
        _ => false,
    }
}

/// Check whether a collection type's element type is `Copy`.
///
/// For `Vec<i32>` (represented as `Generic(Named("Vec"), [I32])`), returns true.
/// For `Vec<String>` or non-collection types, returns false.
pub fn element_type_is_copy(ty: &RustType) -> (r: bool)
    ensures
        r == element_is_copy(*ty),
{
    match ty {
        RustType::Generic(_, args) => {
            if args.len() == 0 {
                return false;
            }
            match &args[0] {
                RustType::I8 | RustType::I16 | RustType::I32 | RustType::I64 | RustType::U8
                | RustType::U16 | RustType::U32 | RustType::U64 | RustType::F32 | RustType::F64
                | RustType::Bool => true,
                _ => false,
            }
        },
        _ => false,
    }
}

/// The base type name of a type: the name of `Named` and of a generic base,
/// the element name of a one-argument `Vec` or `HashSet`, and the name of the
/// inner type of `Option` and of the `Ok` type of `Result`.
pub open spec fn named_type(ty: RustType) -> Option<Seq<char>>
    decreases ty,
{
    match ty {
        RustType::Named(name) => Some(name@),
        RustType::Generic(base, args) => match *base {
            RustType::Named(name) => if (name@ == "Vec"@ || name@ == "HashSet"@) && args@.len() == 1 {
                named_type(args@[0])
            } else {
                Some(name@)
            },
            _ => None,
        },
        RustType::Option(inner) => named_type(*inner),
        RustType::Result(ok, _) => named_type(*ok),
        _ => None,
    }
}

/// Extract the base type name from an IR type.
///
/// Returns the name for `Named("Foo")` and `Generic(Named("Foo"), _)`;
/// collections `Vec<T>` and `HashSet<T>` give the name of `T`.
pub fn extract_named_type(ty: &RustType) -> (r: Option<String>)
    ensures
        match r {
            Some(s) => named_type(*ty) == Some(s@),
            None => named_type(*ty) is None,
        },
    decreases ty,
{
    match ty {
        RustType::Named(name) => Some(name.clone()),
        RustType::Generic(base, args) => {
            match &**base {
                RustType::Named(name) => {
                    let n = chars_of(name.as_str());
                    if (eq_str(&n, "Vec") || eq_str(&n, "HashSet")) && args.len() == 1 {
                        proof {
                            assert(decreases_to!(args => args@));
                            assert(decreases_to!(args@ => args@[0]));
                        }
                        return extract_named_type(&args[0]);
                    }
                    Some(name.clone())
                },
                _ => None,
            }
        },
        RustType::Option(inner) => extract_named_type(inner),
        RustType::Result(ok, _) => extract_named_type(ok),
        _ => None,
    }
}

// ---------------------------------------------------------------------------
// Type-name resolution
// ---------------------------------------------------------------------------

/// The builtin RustScript type names and their IR types.
pub open spec fn resolved_type(name: Seq<char>) -> Option<RustType> {
    if name == "i32"@ {
        Some(RustType::I32)
    } else if name == "i64"@ {
        Some(RustType::I64)
    } else if name == "f64"@ {
        Some(RustType::F64)
    } else if name == "bool"@ {
        Some(RustType::Bool)
    } else if name == "string"@ {
        Some(RustType::String)
    } else if name == "void"@ {
        Some(RustType::Unit)
    } else {
        None
    }
}

/// Resolve a RustScript type name to a Rust type.
///
/// Returns `None` for unknown type names.
pub fn resolve_type(name: &str) -> (r: Option<RustType>)
    ensures
        r == resolved_type(name@),
{
    let n = chars_of(name);
    if eq_str(&n, "i32") {
        Some(RustType::I32)
    } else if eq_str(&n, "i64") {
        Some(RustType::I64)
    } else if eq_str(&n, "f64") {
        Some(RustType::F64)
    } else if eq_str(&n, "bool") {
        Some(RustType::Bool)
    } else if eq_str(&n, "string") {
        Some(RustType::String)
    } else if eq_str(&n, "void") {
        Some(RustType::Unit)
    } else {
        None
    }
}

/// The Rust operator of a RustScript binary operator other than `**` and `in`.
pub open spec fn rust_binary_op(op: BinaryOp) -> RustBinaryOp {
    match op {
        BinaryOp::Add => RustBinaryOp::Add,
        BinaryOp::Sub => RustBinaryOp::Sub,
        BinaryOp::Mul => RustBinaryOp::Mul,
        BinaryOp::Div => RustBinaryOp::Div,
        BinaryOp::Mod => RustBinaryOp::Rem,
        BinaryOp::Eq => RustBinaryOp::Eq,
        BinaryOp::Ne => RustBinaryOp::Ne,
        BinaryOp::Lt => RustBinaryOp::Lt,
        BinaryOp::Gt => RustBinaryOp::Gt,
        BinaryOp::Le => RustBinaryOp::Le,
        BinaryOp::Ge => RustBinaryOp::Ge,
        BinaryOp::And => RustBinaryOp::And,
        BinaryOp::Or => RustBinaryOp::Or,
        BinaryOp::BitAnd => RustBinaryOp::BitAnd,
        BinaryOp::BitOr => RustBinaryOp::BitOr,
        BinaryOp::BitXor => RustBinaryOp::BitXor,
        BinaryOp::Shl => RustBinaryOp::Shl,
        _ => RustBinaryOp::Shr,
    }
}

/// Map a RustScript binary operator to a Rust binary operator. `**` and
/// `in` are lowered elsewhere and are not taken here.
pub fn lower_binary_op(op: BinaryOp) -> (r: RustBinaryOp)
    requires
        op != BinaryOp::Pow,
        op != BinaryOp::In,
    ensures
        r == rust_binary_op(op),
{
    match op {
        BinaryOp::Add => RustBinaryOp::Add,
        BinaryOp::Sub => RustBinaryOp::Sub,
        BinaryOp::Mul => RustBinaryOp::Mul,
        BinaryOp::Div => RustBinaryOp::Div,
        BinaryOp::Mod => RustBinaryOp::Rem,
        BinaryOp::Eq => RustBinaryOp::Eq,
        BinaryOp::Ne => RustBinaryOp::Ne,
        BinaryOp::Lt => RustBinaryOp::Lt,
        BinaryOp::Gt => RustBinaryOp::Gt,
        BinaryOp::Le => RustBinaryOp::Le,
        BinaryOp::Ge => RustBinaryOp::Ge,
        BinaryOp::And => RustBinaryOp::And,
        BinaryOp::Or => RustBinaryOp::Or,
        BinaryOp::BitAnd => RustBinaryOp::BitAnd,
        BinaryOp::BitOr => RustBinaryOp::BitOr,
        BinaryOp::BitXor => RustBinaryOp::BitXor,
        BinaryOp::Shl => RustBinaryOp::Shl,
        _ => RustBinaryOp::Shr,
    }
}

/// The Rust operator of a RustScript unary operator.
pub open spec fn rust_unary_op(op: UnaryOp) -> RustUnaryOp {
    match op {
        UnaryOp::Neg => RustUnaryOp::Neg,
        UnaryOp::Not => RustUnaryOp::Not,
        UnaryOp::BitNot => RustUnaryOp::BitNot,
    }
}

/// Map a RustScript unary operator to a Rust unary operator.
pub fn lower_unary_op(op: UnaryOp) -> (r: RustUnaryOp)
    ensures
        r == rust_unary_op(op),
{
    match op {
        UnaryOp::Neg => RustUnaryOp::Neg,
        UnaryOp::Not => RustUnaryOp::Not,
        UnaryOp::BitNot => RustUnaryOp::BitNot,
    }
}

/// The compound assignment an arithmetic operator gives.
pub open spec fn compound_op(op: BinaryOp) -> Option<RustCompoundAssignOp> {
    match op {
        BinaryOp::Add => Some(RustCompoundAssignOp::AddAssign),
        BinaryOp::Sub => Some(RustCompoundAssignOp::SubAssign),
        BinaryOp::Mul => Some(RustCompoundAssignOp::MulAssign),
        BinaryOp::Div => Some(RustCompoundAssignOp::DivAssign),
        BinaryOp::Mod => Some(RustCompoundAssignOp::RemAssign),
        _ => None,
    }
}

/// Detect the compound assignment pattern `x = x op rhs`: for a value
/// `Binary(op, Ident(target), rhs)` with an arithmetic `op`, the compound
/// operator and `rhs`.
pub fn detect_compound_assign<'a>(target: &str, value: &'a ExprKind) -> (r: Option<(RustCompoundAssignOp, &'a ExprKind)>)
    ensures
        match *value {
            ExprKind::Binary(op, left, right) => match *left {
                ExprKind::Ident(name) if name@ == target@ && compound_op(op) is Some =>
                    r matches Some((c, rhs)) && c == compound_op(op)->0 && *rhs == *right,
                _ => r is None,
            },
            _ => r is None,
        },
{
    match value {
        ExprKind::Binary(op, left, right) => match &**left {
            ExprKind::Ident(name) => {
                let n = chars_of(name.as_str());
                if !eq_str(&n, target) {
                    return None;
                }
                let c = match op {
                    BinaryOp::Add => RustCompoundAssignOp::AddAssign,
                    BinaryOp::Sub => RustCompoundAssignOp::SubAssign,
                    BinaryOp::Mul => RustCompoundAssignOp::MulAssign,
                    BinaryOp::Div => RustCompoundAssignOp::DivAssign,
                    BinaryOp::Mod => RustCompoundAssignOp::RemAssign,
                    _ => return None,
                };
                Some((c, &**right))
            },
            _ => None,
        },
        _ => None,
    }
}

/// The literal's type is the one it would be given with no annotation:
/// `i64`, `f64`, `bool`, `String`, or an `Option` for `null`.
pub open spec fn default_literal_type(e: ExprKind, ty: RustType) -> bool {
    match e {
        ExprKind::IntLit(_) => ty == RustType::I64,
        ExprKind::FloatLit(_) => ty == RustType::F64,
        ExprKind::BoolLit(_) => ty == RustType::Bool,
        ExprKind::StringLit(_) | ExprKind::TemplateLit(_) => ty == RustType::String,
        ExprKind::NullLit => ty is Option,
        _ => false,
    }
}

/// Whether `ty` is the type the literal `expr` gets by default, so that an
/// annotation saying so adds nothing.
pub fn is_default_literal_type(expr: &ExprKind, ty: &RustType) -> (r: bool)
    ensures
        r == default_literal_type(*expr, *ty),
{
    match expr {
        ExprKind::IntLit(_) => match ty {
            RustType::I64 => true,
            _ => false,
        },
        ExprKind::FloatLit(_) => match ty {
            RustType::F64 => true,
            _ => false,
        },
        ExprKind::BoolLit(_) => match ty {
            RustType::Bool => true,
            _ => false,
        },
        ExprKind::StringLit(_) | ExprKind::TemplateLit(_) => match ty {
            RustType::String => true,
            _ => false,
        },
        ExprKind::NullLit => match ty {
            RustType::Option(_) => true,
            _ => false,
        },
        _ => false,
    }
}

/// The type of a literal: `i64`, `f64`, `String` or `bool`; `None` for
/// anything that is no literal.
pub open spec fn literal_type(e: ExprKind) -> Option<RustType> {
    match e {
        ExprKind::IntLit(_) => Some(RustType::I64),
        ExprKind::FloatLit(_) => Some(RustType::F64),
        ExprKind::StringLit(_) => Some(RustType::String),
        ExprKind::BoolLit(_) => Some(RustType::Bool),
        _ => None,
    }
}

/// Infer the type of a literal expression; `None` for non-literal expressions.
pub fn infer_literal_type(expr: &ExprKind) -> (r: Option<RustType>)
    ensures
        r == literal_type(*expr),
{
    match expr {
        ExprKind::IntLit(_) => Some(RustType::I64),
        ExprKind::FloatLit(_) => Some(RustType::F64),
        ExprKind::StringLit(_) => Some(RustType::String),
        ExprKind::BoolLit(_) => Some(RustType::Bool),
        _ => None,
    }
}

/// A compiler diagnostic produced while lowering.
pub struct Diagnostic {
    /// The message shown to the user.
    pub message: String,
}

/// A type annotation as the lowering pass reads it.
#[derive(Debug)]
pub enum TypeAnnotation {
    /// `void`.
    Void,
    /// A named type.
    Named(String),
}

/// The message of the diagnostic for an unknown type name.
pub open spec fn unknown_type_message(name: Seq<char>) -> Seq<char> {
    "unknown type `"@ + name + "`"@
}

/// Resolve a type annotation to a Rust type, emitting a diagnostic for unknown types.
///
/// Unknown type names produce a diagnostic and default to `i64`.
pub fn resolve_type_annotation(ann: &TypeAnnotation, diagnostics: &mut Vec<Diagnostic>) -> (r: RustType)
    ensures
        match *ann {
            TypeAnnotation::Void => r == RustType::Unit && final(diagnostics)@ == old(diagnostics)@,
            TypeAnnotation::Named(name) => match resolved_type(name@) {
                Some(t) => r == t && final(diagnostics)@ == old(diagnostics)@,
                None => r == RustType::I64 && final(diagnostics)@.len() == old(diagnostics)@.len() + 1
                    && final(diagnostics)@.drop_last() == old(diagnostics)@
                    && final(diagnostics)@.last().message@ == unknown_type_message(name@),
            },
        },
{
    match ann {
        TypeAnnotation::Void => RustType::Unit,
        TypeAnnotation::Named(name) => match resolve_type(name.as_str()) {
            Some(t) => t,
            None => {
                let mut msg = chars_of("unknown type `");
                push_str(&mut msg, name.as_str());
                push_str(&mut msg, "`");
                diagnostics.push(Diagnostic { message: string_of(&msg) });
                assert(final(diagnostics)@.drop_last() == old(diagnostics)@);
                RustType::I64
            },
        },
    }
}

// ---------------------------------------------------------------------------
// Decorators and derives
// ---------------------------------------------------------------------------

/// A decorator `@name(args)` on a RustScript item.
pub struct Decorator {
    /// The decorator name.
    pub name: String,
    /// The raw argument text between the parentheses, if any.
    pub args: Option<String>,
}

/// A Rust attribute `#[path(args)]`.
pub struct RustAttribute {
    /// The attribute path.
    pub path: String,
    /// The raw argument text, if any.
    pub args: Option<String>,
}

/// The attribute path a decorator name lowers to.
pub open spec fn attribute_path(name: Seq<char>) -> Seq<char> {
    if name == "tokio_test"@ { "tokio::test"@ } else { name }
}

/// The view of an optional string.
pub open spec fn opt_string_view(o: Option<String>) -> Option<Seq<char>> {
    match o {
        Some(s) => Some(s@),
        None => None,
    }
}

/// Convert a RustScript decorator to a Rust attribute.
///
/// Handles the special mapping `@tokio_test` -> `#[tokio::test]`.
/// All other decorators map directly: `@name(args)` -> `#[name(args)]`.
pub fn lower_decorator(decorator: &Decorator) -> (r: RustAttribute)
    ensures
        r.path@ == attribute_path(decorator.name@),
        opt_string_view(r.args) == opt_string_view(decorator.args),
{
    let n = chars_of(decorator.name.as_str());
    let path = if eq_str(&n, "tokio_test") {
        "tokio::test".to_owned()
    } else {
        decorator.name.clone()
    };
    let args = match &decorator.args {
        Some(a) => Some(a.clone()),
        None => None,
    };
    RustAttribute { path, args }
}

/// The pieces of `s` between commas, scanning from `i`; the current piece
/// began at `start`.
pub open spec fn comma_pieces_from(s: Seq<char>, i: int, start: int) -> Seq<Seq<char>>
    decreases s.len() - i,
{
    if !(0 <= start <= i <= s.len()) {
        Seq::empty()
    } else if i == s.len() {
        seq![s.subrange(start, i)]
    } else if s[i] == ',' {
        seq![s.subrange(start, i)] + comma_pieces_from(s, i + 1, i + 1)
    } else {
        comma_pieces_from(s, i + 1, start)
    }
}

/// The trimmed, non-empty names among comma-separated pieces.
pub open spec fn derive_names(pieces: Seq<Seq<char>>) -> Seq<Seq<char>>
    decreases pieces.len(),
{
    if pieces.len() == 0 {
        Seq::empty()
    } else {
        let t = trim(pieces[0]);
        if t.len() > 0 {
            seq![t] + derive_names(pieces.drop_first())
        } else {
            derive_names(pieces.drop_first())
        }
    }
}

/// The derive names a decorator contributes: those of a `@derive(...)`
/// decorator's argument, none for other decorators.
pub open spec fn decorator_derives(d: Decorator) -> Seq<Seq<char>> {
    if d.name@ == "derive"@ {
        match d.args {
            Some(a) => derive_names(comma_pieces_from(a@, 0, 0)),
            None => Seq::empty(),
        }
    } else {
        Seq::empty()
    }
}

/// The derive names of all decorators, in order.
pub open spec fn all_decorator_derives(ds: Seq<Decorator>) -> Seq<Seq<char>>
    decreases ds.len(),
{
    if ds.len() == 0 {
        Seq::empty()
    } else {
        all_decorator_derives(ds.drop_last()) + decorator_derives(ds.last())
    }
}

/// The non-derive decorators, in order.
pub open spec fn attribute_decorators(ds: Seq<Decorator>) -> Seq<Decorator>
    decreases ds.len(),
{
    if ds.len() == 0 {
        Seq::empty()
    } else if ds.last().name@ == "derive"@ {
        attribute_decorators(ds.drop_last())
    } else {
        attribute_decorators(ds.drop_last()).push(ds.last())
    }
}

/// Whether the attribute is the lowering of the decorator.
pub open spec fn lowers_to(d: Decorator, a: RustAttribute) -> bool {
    a.path@ == attribute_path(d.name@) && opt_string_view(a.args) == opt_string_view(d.args)
}

/// The views of a sequence of strings.
pub open spec fn string_views(v: Seq<String>) -> Seq<Seq<char>> {
    v.map_values(|s: String| s@)
}

proof fn lemma_derive_names_append(a: Seq<Seq<char>>, b: Seq<Seq<char>>)
    ensures
        derive_names(a + b) == derive_names(a) + derive_names(b),
    decreases a.len(),
{
    if a.len() == 0 {
        assert(a + b == b);
    } else {
        assert((a + b).drop_first() == a.drop_first() + b);
        lemma_derive_names_append(a.drop_first(), b);
    }
}

proof fn lemma_derive_names_single(p: Seq<char>)
    ensures
        derive_names(seq![p]) == (if trim(p).len() > 0 { seq![trim(p)] } else { Seq::<Seq<char>>::empty() }),
{
    assert(seq![p].drop_first() =~= Seq::<Seq<char>>::empty());
    assert(seq![p][0] == p);
    assert(derive_names(Seq::<Seq<char>>::empty()) == Seq::<Seq<char>>::empty());
}

/// Split a `@derive(...)` argument into its trimmed, non-empty names.
fn split_derive_args(args: &str) -> (r: Vec<String>)
    ensures
        string_views(r@) == derive_names(comma_pieces_from(args@, 0, 0)),
{
    let v = chars_of(args);
    let mut out: Vec<String> = Vec::new();
    let mut start: usize = 0;
    let mut i: usize = 0;
    while i < v.len()
        invariant
            0 <= start <= i <= v.len(),
            string_views(out@) + derive_names(comma_pieces_from(v@, i as int, start as int))
                == derive_names(comma_pieces_from(v@, 0, 0)),
        decreases v.len() - i,
    {
        if v[i] == ',' {
            let piece = slice_of(&v, start, i);
            let t = trim_chars(&piece);
            let ghost rest = comma_pieces_from(v@, i + 1, i + 1);
            assert(comma_pieces_from(v@, i as int, start as int) == seq![piece@] + rest);
            proof {
                lemma_derive_names_append(seq![piece@], rest);
                lemma_derive_names_single(piece@);
            }
            if t.len() > 0 {
                let ghost before = string_views(out@);
                out.push(string_of(&t));
                assert(string_views(out@) == before.push(t@));
                assert(derive_names(seq![piece@]) == seq![t@]);
            } else {
                assert(derive_names(seq![piece@]) =~= Seq::<Seq<char>>::empty());
            }
            start = i + 1;
        }
        i = i + 1;
    }
    let piece = slice_of(&v, start, v.len());
    let t = trim_chars(&piece);
    assert(comma_pieces_from(v@, i as int, start as int) == seq![piece@]);
    proof {
        lemma_derive_names_single(piece@);
    }
    if t.len() > 0 {
        let ghost before = string_views(out@);
        out.push(string_of(&t));
        assert(string_views(out@) == before.push(t@));
    }
    out
}

/// Lower a list of decorators to Rust attributes, splitting out `@derive(...)` decorators.
///
/// Returns `(attributes, extra_derives)` where:
/// - `attributes` are non-derive attributes to add to the IR item
/// - `extra_derives` are derive macro names extracted from `@derive(...)` decorators
pub fn lower_decorators(decorators: &[Decorator]) -> (r: (Vec<RustAttribute>, Vec<String>))
    ensures
        r.0@.len() == attribute_decorators(decorators@).len(),
        forall|k: int|
            0 <= k < r.0@.len() ==> lowers_to(attribute_decorators(decorators@)[k], #[trigger] r.0@[k]),
        string_views(r.1@) == all_decorator_derives(decorators@),
{
    let mut attributes: Vec<RustAttribute> = Vec::new();
    let mut extra_derives: Vec<String> = Vec::new();
    let mut k: usize = 0;
    while k < decorators.len()
        invariant
            k <= decorators.len(),
            attributes@.len() == attribute_decorators(decorators@.take(k as int)).len(),
            forall|j: int|
                0 <= j < attributes@.len() ==> lowers_to(
                    attribute_decorators(decorators@.take(k as int))[j],
                    #[trigger] attributes@[j],
                ),
            string_views(extra_derives@) == all_decorator_derives(decorators@.take(k as int)),
        decreases decorators.len() - k,
    {
        let d = &decorators[k];
        assert(decorators@.take(k + 1).drop_last() == decorators@.take(k as int));
        assert(decorators@.take(k + 1).last() == decorators@[k as int]);
        let n = chars_of(d.name.as_str());
        if eq_str(&n, "derive") {
            match &d.args {
                Some(a) => {
                    let names = split_derive_args(a.as_str());
                    let ghost before = string_views(extra_derives@);
                    let mut j: usize = 0;
                    while j < names.len()
                        invariant
                            j <= names.len(),
                            string_views(extra_derives@) == before + string_views(names@).take(j as int),
                        decreases names.len() - j,
                    {
                        let nm = names[j].clone();
                        assert(nm@ == string_views(names@)[j as int]);
                        let ghost prev = string_views(extra_derives@);
                        extra_derives.push(nm);
                        assert(string_views(extra_derives@) == prev.push(nm@));
                        j = j + 1;
                        assert(string_views(names@).take(j as int) == string_views(names@).take(j - 1).push(names@[j - 1]@));
                    }
                    assert(string_views(names@).take(names.len() as int) == string_views(names@));
                },
                None => {
                    assert(all_decorator_derives(decorators@.take(k + 1)) == all_decorator_derives(decorators@.take(k as int)) + Seq::<Seq<char>>::empty());
                },
            }
        } else {
            let a = lower_decorator(d);
            attributes.push(a);
            assert(all_decorator_derives(decorators@.take(k + 1)) == all_decorator_derives(decorators@.take(k as int)) + Seq::<Seq<char>>::empty());
        }
        k = k + 1;
    }
    assert(decorators@.take(decorators.len() as int) == decorators@);
    (attributes, extra_derives)
}

/// `auto` extended by the names of `explicit` not already present, in order.
pub open spec fn merged_derives(auto: Seq<Seq<char>>, explicit: Seq<Seq<char>>) -> Seq<Seq<char>>
    decreases explicit.len(),
{
    if explicit.len() == 0 {
        auto
    } else {
        let m = merged_derives(auto, explicit.drop_last());
        if m.contains(explicit.last()) { m } else { m.push(explicit.last()) }
    }
}

/// Whether `v` holds a string equal to `s`.
fn contains_string(v: &Vec<String>, s: &str) -> (r: bool)
    ensures
        r == string_views(v@).contains(s@),
{
    let target = chars_of(s);
    let mut k: usize = 0;
    while k < v.len()
        invariant
            k <= v.len(),
            target@ == s@,
            forall|j: int| 0 <= j < k ==> v@[j]@ != s@,
        decreases v.len() - k,
    {
        let item: &String = &v[k];
        assert(*item == v@[k as int]);
        let c = chars_of(item.as_str());
        assert(c@ == v@[k as int]@);
        if crate::text::chars_eq(&c, &target) {
            assert(string_views(v@)[k as int] == s@);
            return true;
        }
        k = k + 1;
    }
    assert forall|j: int| 0 <= j < string_views(v@).len() implies string_views(v@)[j] != s@ by {
        assert(string_views(v@)[j] == v@[j]@);
    }
    false
}

/// Merging keeps the inferred derives first and in their order, takes in
/// every explicit one, adds nothing else, and lists no name twice when the
/// inferred ones listed none twice.
pub proof fn lemma_merge_derives_laws(auto: Seq<Seq<char>>, explicit: Seq<Seq<char>>)
    ensures
        merged_derives(auto, explicit).len() >= auto.len(),
        merged_derives(auto, explicit).take(auto.len() as int) == auto,
        forall|i: int| 0 <= i < explicit.len() ==> merged_derives(auto, explicit).contains(#[trigger] explicit[i]),
        forall|x: Seq<char>| #[trigger] merged_derives(auto, explicit).contains(x) ==> auto.contains(x) || explicit.contains(x),
        auto.no_duplicates() ==> merged_derives(auto, explicit).no_duplicates(),
    decreases explicit.len(),
{
    if explicit.len() > 0 {
        let rest = explicit.drop_last();
        let e = explicit.last();
        lemma_merge_derives_laws(auto, rest);
        let m = merged_derives(auto, rest);
        let r = merged_derives(auto, explicit);
        if m.contains(e) {
            assert(r == m);
        } else {
            assert(r == m.push(e));
            assert(r.take(auto.len() as int) =~= m.take(auto.len() as int));
        }
        assert forall|i: int| 0 <= i < explicit.len() implies r.contains(#[trigger] explicit[i]) by {
            if i < explicit.len() - 1 {
                assert(explicit[i] == rest[i]);
                assert(m.contains(rest[i]));
                let j = choose|j: int| 0 <= j < m.len() && m[j] == rest[i];
                assert(r[j] == rest[i]);
            } else {
                if !m.contains(e) {
                    assert(r[r.len() - 1] == e);
                }
            }
        }
        assert forall|x: Seq<char>| #[trigger] r.contains(x) implies auto.contains(x) || explicit.contains(x) by {
            let j = choose|j: int| 0 <= j < r.len() && r[j] == x;
            if j < m.len() {
                assert(m[j] == x);
                assert(m.contains(x));
                if rest.contains(x) {
                    let k = choose|k: int| 0 <= k < rest.len() && rest[k] == x;
                    assert(explicit[k] == x);
                }
            } else {
                assert(explicit[explicit.len() - 1] == x);
            }
        }
    } else {
        assert(auto.take(auto.len() as int) =~= auto);
    }
}

/// Merge auto-inferred derives with explicit user-specified derives.
///
/// Deduplicates entries (if a derive appears in both auto and explicit, it
/// appears only once). Explicit derives are appended after auto-inferred ones.
pub fn merge_derives(auto_derives: Vec<String>, explicit: &[String]) -> (r: Vec<String>)
    ensures
        string_views(r@) == merged_derives(string_views(auto_derives@), string_views(explicit@)),
{
    let mut out = auto_derives;
    let ghost auto = string_views(out@);
    let mut k: usize = 0;
    while k < explicit.len()
        invariant
            k <= explicit.len(),
            string_views(out@) == merged_derives(auto, string_views(explicit@).take(k as int)),
        decreases explicit.len() - k,
    {
        let ghost ex = string_views(explicit@);
        assert(ex.take(k + 1).drop_last() == ex.take(k as int));
        assert(ex.take(k + 1).last() == explicit@[k as int]@);
        if !contains_string(&out, explicit[k].as_str()) {
            let ghost before = string_views(out@);
            out.push(explicit[k].clone());
            assert(string_views(out@) == before.push(explicit@[k as int]@));
        }
        k = k + 1;
    }
    assert(string_views(explicit@).take(explicit.len() as int) == string_views(explicit@));
    out
}

// ---------------------------------------------------------------------------
// Type parameters and utility types
// ---------------------------------------------------------------------------

/// A type parameter of generated Rust with its trait bounds.
#[derive(Debug)]
pub struct RustTypeParam {
    /// The parameter name.
    pub name: String,
    /// The trait bounds.
    pub bounds: Vec<String>,
}

/// The named members of an intersection, in order.
pub open spec fn named_members(ms: Seq<TypeKind>) -> Seq<Seq<char>>
    decreases ms.len(),
{
    if ms.len() == 0 {
        Seq::empty()
    } else {
        let rest = named_members(ms.drop_last());
        match ms.last() {
            TypeKind::Named(n) => rest.push(n@),
            _ => rest,
        }
    }
}

/// The trait bounds a constraint gives: its name for a named or generic
/// type, the named members of an intersection, none otherwise.
pub open spec fn constraint_bounds(c: TypeKind) -> Seq<Seq<char>> {
    match c {
        TypeKind::Named(n) => seq![n@],
        TypeKind::Generic(n, _) => seq![n@],
        TypeKind::Intersection(ms) => named_members(ms@),
        _ => Seq::empty(),
    }
}

/// The bounds of an optional constraint.
pub open spec fn param_bounds(c: Option<TypeKind>) -> Seq<Seq<char>> {
    match c {
        Some(k) => constraint_bounds(k),
        None => Seq::empty(),
    }
}

fn bounds_of(c: &Option<TypeKind>) -> (r: Vec<String>)
    ensures
        string_views(r@) == param_bounds(*c),
{
    let mut out: Vec<String> = Vec::new();
    match c {
        None => {},
        Some(TypeKind::Named(n)) => {
            out.push(n.clone());
        },
        Some(TypeKind::Generic(n, _)) => {
            out.push(n.clone());
        },
        Some(TypeKind::Intersection(ms)) => {
            let mut i: usize = 0;
            while i < ms.len()
                invariant
                    i <= ms.len(),
                    string_views(out@) == named_members(ms@.take(i as int)),
                decreases ms.len() - i,
            {
                assert(ms@.take(i as int + 1).drop_last() =~= ms@.take(i as int));
                assert(ms@.take(i as int + 1).last() == ms@[i as int]);
                let ghost before = string_views(out@);
                match &ms[i] {
                    TypeKind::Named(n) => {
                        out.push(n.clone());
                        assert(string_views(out@) =~= before.push(n@));
                    },
                    _ => {},
                }
                i = i + 1;
            }
            assert(ms@.take(ms@.len() as int) =~= ms@);
        },
        Some(_) => {},
    }
    assert(string_views(out@) =~= param_bounds(*c));
    out
}

/// Lower type parameters to Rust type parameters: `T extends Bound`
/// becomes `T` bounded by `Bound`, an intersection bound by each named
/// member; no parameters without a list.
pub fn lower_type_params(type_params: Option<&Vec<TypeParam>>) -> (r: Vec<RustTypeParam>)
    ensures
        match type_params {
            None => r@.len() == 0,
            Some(ps) => r@.len() == ps@.len() && forall|k: int| 0 <= k < ps@.len() ==>
                (#[trigger] r@[k]).name@ == ps@[k].name@ && string_views(r@[k].bounds@) == param_bounds(ps@[k].constraint),
        },
{
    let mut out: Vec<RustTypeParam> = Vec::new();
    match type_params {
        None => {},
        Some(ps) => {
            let mut i: usize = 0;
            while i < ps.len()
                invariant
                    i <= ps.len(),
                    out@.len() == i,
                    forall|k: int| 0 <= k < i ==>
                        (#[trigger] out@[k]).name@ == ps@[k].name@ && string_views(out@[k].bounds@) == param_bounds(ps@[k].constraint),
                decreases ps.len() - i,
            {
                let p = &ps[i];
                let bounds = bounds_of(&p.constraint);
                out.push(RustTypeParam { name: p.name.clone(), bounds });
                i = i + 1;
            }
        },
    }
    out
}

/// Collect the names of type parameters, in order; none without a list.
pub fn collect_generic_param_names(type_params: Option<&Vec<TypeParam>>) -> (r: Vec<String>)
    ensures
        match type_params {
            None => r@.len() == 0,
            Some(ps) => string_views(r@) == ps@.map_values(|p: TypeParam| p.name@),
        },
{
    let mut out: Vec<String> = Vec::new();
    match type_params {
        None => {},
        Some(ps) => {
            let mut i: usize = 0;
            while i < ps.len()
                invariant
                    i <= ps.len(),
                    string_views(out@) == ps@.take(i as int).map_values(|p: TypeParam| p.name@),
                decreases ps.len() - i,
            {
                let ghost before = string_views(out@);
                out.push(ps[i].name.clone());
                assert(string_views(out@) =~= before.push(ps@[i as int].name@));
                assert(ps@.take(i as int + 1).map_values(|p: TypeParam| p.name@)
                    =~= ps@.take(i as int).map_values(|p: TypeParam| p.name@).push(ps@[i as int].name@));
                i = i + 1;
            }
            assert(ps@.take(ps@.len() as int) =~= ps@);
        },
    }
    out
}

/// The TypeScript utility types that lowering expands.
pub open spec fn is_utility_name(n: Seq<char>) -> bool {
    n == "Partial"@ || n == "Required"@ || n == "Readonly"@ || n == "Record"@ || n == "Pick"@
        || n == "Omit"@ || n == "ReturnType"@ || n == "Parameters"@
}

/// The utility type an annotation applies: the name of a generic type
/// that is one of the utility types.
pub open spec fn utility_type_of(ann: TypeKind) -> Option<Seq<char>> {
    match ann {
        TypeKind::Generic(n, _) => if is_utility_name(n@) { Some(n@) } else { None },
        _ => None,
    }
}

/// Identify a utility type (`Partial<T>`, `Pick<T, K>`, ...) by its name.
pub fn identify_utility_type(ann: &TypeKind) -> (r: Option<&str>)
    ensures
        match r {
            Some(n) => utility_type_of(*ann) == Some(n@),
            None => utility_type_of(*ann) is None,
        },
{
    match ann {
        TypeKind::Generic(name, _) => {
            let n = chars_of(name.as_str());
            if eq_str(&n, "Partial") || eq_str(&n, "Required") || eq_str(&n, "Readonly")
                || eq_str(&n, "Record") || eq_str(&n, "Pick") || eq_str(&n, "Omit")
                || eq_str(&n, "ReturnType") || eq_str(&n, "Parameters") {
                Some(name.as_str())
            } else {
                None
            }
        },
        _ => None,
    }
}

/// The string literals among the members of a union, in order.
pub open spec fn literal_members(ms: Seq<TypeKind>) -> Seq<Seq<char>>
    decreases ms.len(),
{
    if ms.len() == 0 {
        Seq::empty()
    } else {
        let rest = literal_members(ms.drop_last());
        match ms.last() {
            TypeKind::StringLiteral(v) => rest.push(v@),
            _ => rest,
        }
    }
}

/// The field names a key annotation lists: a string literal, or the string
/// literals of a union.
pub open spec fn literal_fields(ann: TypeKind) -> Seq<Seq<char>> {
    match ann {
        TypeKind::StringLiteral(v) => seq![v@],
        TypeKind::Union(ms) => literal_members(ms@),
        _ => Seq::empty(),
    }
}

/// Extract the string literal field names of a key annotation such as
/// `"name" | "age"`.
pub fn extract_string_literal_fields(ann: &TypeKind) -> (r: Vec<String>)
    ensures
        string_views(r@) == literal_fields(*ann),
{
    let mut out: Vec<String> = Vec::new();
    match ann {
        TypeKind::StringLiteral(v) => {
            out.push(v.clone());
        },
        TypeKind::Union(ms) => {
            let mut i: usize = 0;
            while i < ms.len()
                invariant
                    i <= ms.len(),
                    string_views(out@) == literal_members(ms@.take(i as int)),
                decreases ms.len() - i,
            {
                assert(ms@.take(i as int + 1).drop_last() =~= ms@.take(i as int));
                assert(ms@.take(i as int + 1).last() == ms@[i as int]);
                let ghost before = string_views(out@);
                match &ms[i] {
                    TypeKind::StringLiteral(v) => {
                        out.push(v.clone());
                        assert(string_views(out@) =~= before.push(v@));
                    },
                    _ => {},
                }
                i = i + 1;
            }
            assert(ms@.take(ms@.len() as int) =~= ms@);
        },
        _ => {},
    }
    assert(string_views(out@) =~= literal_fields(*ann));
    out
}

// ---------------------------------------------------------------------------
// Generator shape
// ---------------------------------------------------------------------------

/// The statement holds a `yield` where the generator analysis looks: as an
/// expression statement, or in the blocks of an `if` (an `else if` only in
/// its first block), a `while` or a `do`-`while`.
pub open spec fn stmt_yields(s: Stmt) -> bool
    decreases s, 0int,
{
    match s {
        Stmt::Expr(e) => e is Yield,
        Stmt::If(i) => block_yields(i.then_block) || match i.else_clause {
            Some(ElseClause::Block(b)) => block_yields(b),
            Some(ElseClause::ElseIf(e)) => block_yields(e.then_block),
            None => false,
        },
        Stmt::While { condition, body } => block_yields(body),
        Stmt::DoWhile { body, condition } => block_yields(body),
        _ => false,
    }
}

/// Some statement of the block holds a `yield`.
pub open spec fn block_yields(b: Block) -> bool
    decreases b, 1int,
{
    any_stmt_yields(b.stmts@)
}

/// Some statement of the list holds a `yield`.
pub open spec fn any_stmt_yields(ss: Seq<Stmt>) -> bool
    decreases ss, 0int,
{
    if ss.len() == 0 {
        false
    } else {
        any_stmt_yields(ss.drop_last()) || stmt_yields(ss.last())
    }
}

proof fn lemma_any_stmt_yields_at(ss: Seq<Stmt>, k: int)
    requires
        0 <= k < ss.len(),
        stmt_yields(ss[k]),
    ensures
        any_stmt_yields(ss),
    decreases ss.len(),
{
    if k < ss.len() - 1 {
        lemma_any_stmt_yields_at(ss.drop_last(), k);
    }
}

/// Whether an expression is a `yield`.
pub fn expr_contains_yield(expr: &ExprKind) -> (r: bool)
    ensures
        r == (*expr is Yield),
{
    match expr {
        ExprKind::Yield(_) => true,
        _ => false,
    }
}

/// Whether a statement holds a `yield` (see `stmt_yields`).
pub fn stmt_contains_yield(stmt: &Stmt) -> (r: bool)
    ensures
        r == stmt_yields(*stmt),
    decreases stmt, 0int,
{
    match stmt {
        Stmt::Expr(e) => expr_contains_yield(e),
        Stmt::If(i) => {
            if body_contains_yield(&i.then_block) {
                return true;
            }
            match &i.else_clause {
                Some(ElseClause::Block(b)) => body_contains_yield(b),
                Some(ElseClause::ElseIf(e)) => {
                    proof {
                        assert(decreases_to!(*stmt => i.else_clause));
                    }
                    body_contains_yield(&e.then_block)
                },
                None => false,
            }
        },
        Stmt::While { condition, body } => body_contains_yield(body),
        Stmt::DoWhile { body, condition } => body_contains_yield(body),
        _ => false,
    }
}

/// Whether a block holds a `yield` in one of its statements.
pub fn body_contains_yield(body: &Block) -> (r: bool)
    ensures
        r == block_yields(*body),
    decreases body, 1int,
{
    let ss = &body.stmts;
    let mut k: usize = 0;
    while k < ss.len()
        invariant
            k <= ss.len(),
            ss == &body.stmts,
            !any_stmt_yields(ss@.take(k as int)),
        decreases ss.len() - k,
    {
        proof {
            assert(decreases_to!(body => body.stmts));
            assert(decreases_to!(body.stmts => body.stmts@));
            assert(decreases_to!(body.stmts@ => body.stmts@[k as int]));
            assert(ss@.take(k + 1).drop_last() =~= ss@.take(k as int));
        }
        if stmt_contains_yield(&ss[k]) {
            proof {
                lemma_any_stmt_yields_at(ss@, k as int);
            }
            return true;
        }
        k = k + 1;
    }
    assert(ss@.take(ss.len() as int) =~= ss@);
    false
}

/// Some statement of the list is a `while` loop whose body holds a `yield`.
pub open spec fn while_with_yield(stmts: Seq<Stmt>) -> bool {
    exists|k: int| 0 <= k < stmts.len() && match #[trigger] stmts[k] {
        Stmt::While { condition, body } => block_yields(body),
        _ => false,
    }
}

/// Whether some statement is a `while` loop whose body holds a `yield`.
pub fn has_while_with_yield(stmts: &[Stmt]) -> (r: bool)
    ensures
        r == while_with_yield(stmts@),
{
    let mut k: usize = 0;
    while k < stmts.len()
        invariant
            k <= stmts.len(),
            forall|j: int| 0 <= j < k ==> !match #[trigger] stmts@[j] {
                Stmt::While { condition, body } => block_yields(body),
                _ => false,
            },
        decreases stmts.len() - k,
    {
        match &stmts[k] {
            Stmt::While { condition, body } => {
                if body_contains_yield(body) {
                    return true;
                }
            },
            _ => {},
        }
        k = k + 1;
    }
    false
}

// ---------------------------------------------------------------------------
// Serde derives
// ---------------------------------------------------------------------------

/// The explicit derives of an item (type definitions, enums and classes).
pub open spec fn item_derives(it: Item) -> Seq<Seq<char>> {
    match it {
        Item::Class { name, members, derives } => string_views(derives@),
        Item::TypeDef { name, derives } => string_views(derives@),
        Item::EnumDef { name, derives } => string_views(derives@),
        _ => Seq::empty(),
    }
}

/// Some item of the module derives `d`.
pub open spec fn module_derives(m: Module, d: Seq<char>) -> bool {
    exists|k: int| 0 <= k < m.items@.len() && #[trigger] item_derives(m.items@[k]).contains(d)
}

fn derives_of(it: &Item) -> (r: Option<&Vec<String>>)
    ensures
        match r {
            Some(v) => string_views(v@) == item_derives(*it),
            None => item_derives(*it) == Seq::<Seq<char>>::empty(),
        },
{
    match it {
        Item::Class { name, members, derives } => Some(derives),
        Item::TypeDef { name, derives } => Some(derives),
        Item::EnumDef { name, derives } => Some(derives),
        _ => None,
    }
}

/// Whether some item of the module derives `name`.
fn module_has_derive(module: &Module, name: &str) -> (r: bool)
    ensures
        r == module_derives(*module, name@),
{
    let mut k: usize = 0;
    while k < module.items.len()
        invariant
            k <= module.items.len(),
            forall|j: int| 0 <= j < k ==> !(#[trigger] item_derives(module.items@[j])).contains(name@),
        decreases module.items.len() - k,
    {
        match derives_of(&module.items[k]) {
            Some(ds) => {
                let mut i: usize = 0;
                while i < ds.len()
                    invariant
                        i <= ds.len(),
                        k < module.items@.len(),
                        string_views(ds@) == item_derives(module.items@[k as int]),
                        forall|j: int| 0 <= j < i ==> ds@[j]@ != name@,
                    decreases ds.len() - i,
                {
                    let d = chars_of(ds[i].as_str());
                    if eq_str(&d, name) {
                        assert(item_derives(module.items@[k as int])[i as int] == name@);
                        assert(item_derives(module.items@[k as int]).contains(name@));
                        return true;
                    }
                    i = i + 1;
                }
                assert forall|j: int| 0 <= j < item_derives(module.items@[k as int]).len() implies
                    item_derives(module.items@[k as int])[j] != name@ by {
                    assert(item_derives(module.items@[k as int])[j] == ds@[j]@);
                }
            },
            None => {},
        }
        k = k + 1;
    }
    false
}

/// Whether some type, enum or class of the module derives `Serialize` or
/// `Deserialize`, which needs the serde crate.
pub fn module_needs_serde_derives(module: &Module) -> (r: bool)
    ensures
        r == (module_derives(*module, "Serialize"@) || module_derives(*module, "Deserialize"@)),
{
    module_has_derive(module, "Serialize") || module_has_derive(module, "Deserialize")
}

/// The serde derive names the module uses, each once, in sorted order:
/// `Deserialize` before `Serialize`.
pub open spec fn serde_derive_names(m: Module) -> Seq<Seq<char>> {
    (if module_derives(m, "Deserialize"@) { seq!["Deserialize"@] } else { Seq::empty() })
        + (if module_derives(m, "Serialize"@) { seq!["Serialize"@] } else { Seq::empty() })
}

/// Collect the serde derive names (`Serialize`, `Deserialize`) used in the
/// module, each once, sorted.
pub fn collect_serde_derive_names(module: &Module) -> (r: Vec<String>)
    ensures
        string_views(r@) == serde_derive_names(*module),
{
    let mut names: Vec<String> = Vec::new();
    if module_has_derive(module, "Deserialize") {
        names.push("Deserialize".to_owned());
    }
    if module_has_derive(module, "Serialize") {
        names.push("Serialize".to_owned());
    }
    assert(string_views(names@) =~= serde_derive_names(*module));
    names
}

// ---------------------------------------------------------------------------
// Control flow shapes
// ---------------------------------------------------------------------------

/// The statement leaves the enclosing block: `return`, `break`, `continue`
/// or a `throw` expression.
pub open spec fn stmt_diverges(s: Stmt) -> bool {
    match s {
        Stmt::Return(_) => true,
        Stmt::Break => true,
        Stmt::Continue => true,
        Stmt::Expr(e) => e is Throw,
        _ => false,
    }
}

/// Whether a block always diverges: its last statement returns, throws,
/// breaks or continues.
pub fn block_always_diverges(block: &Block) -> (r: bool)
    ensures
        r == (block.stmts@.len() > 0 && stmt_diverges(block.stmts@.last())),
{
    let n = block.stmts.len();
    if n == 0 {
        return false;
    }
    match &block.stmts[n - 1] {
        Stmt::Return(_) => true,
        Stmt::Break => true,
        Stmt::Continue => true,
        Stmt::Expr(ExprKind::Throw(_)) => true,
        _ => false,
    }
}

/// The variable that a condition compares with `null`, and whether the
/// comparison is `!==` (`true`) or `===` (`false`); the identifier may
/// stand on either side.
pub open spec fn null_check(c: ExprKind) -> Option<(Seq<char>, bool)> {
    match c {
        ExprKind::Binary(op, left, right) => {
            let var: Option<Seq<char>> = match (*left, *right) {
                (ExprKind::Ident(x), ExprKind::NullLit) => Some(x@),
                (ExprKind::NullLit, ExprKind::Ident(x)) => Some(x@),
                _ => None,
            };
            match var {
                Some(x) => if op == BinaryOp::Ne {
                    Some((x, true))
                } else if op == BinaryOp::Eq {
                    Some((x, false))
                } else {
                    None
                },
                None => None,
            }
        },
        _ => None,
    }
}

/// Detect a null check `x !== null` or `x === null` in an `if` condition.
pub fn detect_null_check(condition: &ExprKind) -> (r: Option<(String, bool)>)
    ensures
        match r {
            Some((name, not_null)) => null_check(*condition) == Some((name@, not_null)),
            None => null_check(*condition) is None,
        },
{
    match condition {
        ExprKind::Binary(op, left, right) => {
            let var: Option<String> = match (&**left, &**right) {
                (ExprKind::Ident(x), ExprKind::NullLit) => Some(x.clone()),
                (ExprKind::NullLit, ExprKind::Ident(x)) => Some(x.clone()),
                _ => None,
            };
            match var {
                Some(x) => match op {
                    BinaryOp::Ne => Some((x, true)),
                    BinaryOp::Eq => Some((x, false)),
                    _ => None,
                },
                None => None,
            }
        },
        _ => None,
    }
}

// ---------------------------------------------------------------------------
// Utility type fields
// ---------------------------------------------------------------------------

/// The type of a struct field as the utility types read it: an optional
/// type, or any other type, by its text.
#[derive(Debug, PartialEq, Eq)]
pub enum FieldType {
    /// `T | null`.
    Option(Box<FieldType>),
    /// Any other type.
    Other(String),
}

/// A copy of a field type.
pub fn copy_field_type(t: &FieldType) -> (r: FieldType)
    ensures
        r == *t,
    decreases t,
{
    match t {
        FieldType::Option(inner) => FieldType::Option(Box::new(copy_field_type(inner))),
        FieldType::Other(n) => FieldType::Other(n.clone()),
    }
}

/// Fields by name.
pub open spec fn named_fields(v: Seq<(String, FieldType)>) -> Seq<(Seq<char>, FieldType)> {
    v.map_values(|p: (String, FieldType)| (p.0@, p.1))
}

/// The messages of a list of diagnostics.
pub open spec fn messages(v: Seq<Diagnostic>) -> Seq<Seq<char>> {
    v.map_values(|d: Diagnostic| d.message@)
}

/// `Partial`: every field type wrapped in `Option`.
pub open spec fn partial_fields(fs: Seq<(Seq<char>, FieldType)>) -> Seq<(Seq<char>, FieldType)> {
    fs.map_values(|f: (Seq<char>, FieldType)| (f.0, FieldType::Option(Box::new(f.1))))
}

/// One outer `Option` taken off a field type.
pub open spec fn unwrap_option(t: FieldType) -> FieldType {
    match t {
        FieldType::Option(inner) => *inner,
        _ => t,
    }
}

/// `Required`: one outer `Option` taken off every field type.
pub open spec fn required_fields(fs: Seq<(Seq<char>, FieldType)>) -> Seq<(Seq<char>, FieldType)> {
    fs.map_values(|f: (Seq<char>, FieldType)| (f.0, unwrap_option(f.1)))
}

/// The fields whose names are among `keys` (`keep`), or are not (`!keep`),
/// in their order.
pub open spec fn fields_by_keys(fs: Seq<(Seq<char>, FieldType)>, keys: Seq<Seq<char>>, keep: bool) -> Seq<(Seq<char>, FieldType)>
    decreases fs.len(),
{
    if fs.len() == 0 {
        Seq::empty()
    } else {
        let rest = fields_by_keys(fs.drop_last(), keys, keep);
        if keys.contains(fs.last().0) == keep {
            rest.push(fs.last())
        } else {
            rest
        }
    }
}

/// Some field is named `k`.
pub open spec fn has_field(fs: Seq<(Seq<char>, FieldType)>, k: Seq<char>) -> bool {
    exists|i: int| 0 <= i < fs.len() && #[trigger] fs[i].0 == k
}

/// One "unknown field" message for each key that names no field, in order.
pub open spec fn unknown_key_messages(
    u: Seq<char>,
    source: Seq<char>,
    fs: Seq<(Seq<char>, FieldType)>,
    keys: Seq<Seq<char>>,
) -> Seq<Seq<char>>
    decreases keys.len(),
{
    if keys.len() == 0 {
        Seq::empty()
    } else {
        let rest = unknown_key_messages(u, source, fs, keys.drop_last());
        let k = keys.last();
        if has_field(fs, k) {
            rest
        } else {
            rest.push("unknown field `"@ + k + "` in `"@ + u + "<"@ + source + ", \""@ + k + "\">`"@)
        }
    }
}

/// The messages about the keys of `Pick` and `Omit`: a missing key list,
/// then each unknown key.
pub open spec fn key_messages(
    u: Seq<char>,
    source: Seq<char>,
    fs: Seq<(Seq<char>, FieldType)>,
    keys: Seq<Seq<char>>,
) -> Seq<Seq<char>> {
    (if keys.len() == 0 {
        seq!["`"@ + u + "<"@ + source + ", ...>` requires string literal field names"@]
    } else {
        Seq::empty()
    }) + unknown_key_messages(u, source, fs, keys)
}

/// What a utility type `u` registers, and the messages it emits, given the
/// name of its first argument, that type's fields if they are known, and the
/// string literal keys of its second argument.
pub open spec fn utility_result(
    u: Seq<char>,
    source_name: Option<Seq<char>>,
    source: Option<Seq<(Seq<char>, FieldType)>>,
    keys: Seq<Seq<char>>,
) -> (Option<Seq<(Seq<char>, FieldType)>>, Seq<Seq<char>>) {
    if u == "Record"@ || u == "ReturnType"@ || u == "Parameters"@ {
        (Some(Seq::empty()), Seq::empty())
    } else {
        match source_name {
            None => (None, seq!["utility type `"@ + u + "` requires a type argument"@]),
            Some(sn) => match source {
                None => (None, seq!["unknown type `"@ + sn + "` in `"@ + u + "<"@ + sn + ">`"@]),
                Some(fs) => if u == "Partial"@ {
                    (Some(partial_fields(fs)), Seq::empty())
                } else if u == "Required"@ {
                    (Some(required_fields(fs)), Seq::empty())
                } else if u == "Pick"@ {
                    (Some(fields_by_keys(fs, keys, true)), key_messages(u, sn, fs, keys))
                } else if u == "Omit"@ {
                    (Some(fields_by_keys(fs, keys, false)), key_messages(u, sn, fs, keys))
                } else {
                    (Some(fs), Seq::empty())
                },
            },
        }
    }
}

/// The fields kept for `keep` all have (or all lack) a name among the keys,
/// and the two selections together hold exactly the fields.
proof fn lemma_fields_by_keys_split(fs: Seq<(Seq<char>, FieldType)>, keys: Seq<Seq<char>>)
    ensures
        forall|i: int| 0 <= i < fields_by_keys(fs, keys, true).len()
            ==> keys.contains(#[trigger] fields_by_keys(fs, keys, true)[i].0),
        forall|i: int| 0 <= i < fields_by_keys(fs, keys, false).len()
            ==> !keys.contains(#[trigger] fields_by_keys(fs, keys, false)[i].0),
        fields_by_keys(fs, keys, true).to_multiset().add(fields_by_keys(fs, keys, false).to_multiset())
            == fs.to_multiset(),
    decreases fs.len(),
{
    broadcast use vstd::seq_lib::group_to_multiset_ensures;
    if fs.len() == 0 {
        assert(fields_by_keys(fs, keys, true).to_multiset() =~= vstd::multiset::Multiset::empty());
        assert(fields_by_keys(fs, keys, false).to_multiset() =~= vstd::multiset::Multiset::empty());
        assert(fs.to_multiset() =~= vstd::multiset::Multiset::empty());
        assert(fields_by_keys(fs, keys, true).to_multiset().add(fields_by_keys(fs, keys, false).to_multiset())
            =~= fs.to_multiset());
    } else {
        let init = fs.drop_last();
        lemma_fields_by_keys_split(init, keys);
        assert(fs =~= init.push(fs.last()));
        let p0 = fields_by_keys(init, keys, true);
        let o0 = fields_by_keys(init, keys, false);
        assert(fs.to_multiset() =~= init.to_multiset().insert(fs.last()));
        if keys.contains(fs.last().0) {
            assert(fields_by_keys(fs, keys, true).to_multiset() =~= p0.to_multiset().insert(fs.last()));
            assert(fields_by_keys(fs, keys, true).to_multiset().add(fields_by_keys(fs, keys, false).to_multiset())
                =~= fs.to_multiset());
        } else {
            assert(fields_by_keys(fs, keys, false).to_multiset() =~= o0.to_multiset().insert(fs.last()));
            assert(fields_by_keys(fs, keys, true).to_multiset().add(fields_by_keys(fs, keys, false).to_multiset())
                =~= fs.to_multiset());
        }
    }
}

/// `Pick` and `Omit` of a known type with the same keys partition its
/// fields: `Pick` keeps the fields named by a key and `Omit` the others,
/// each in the type's order, and together they hold each field once.
pub proof fn lemma_pick_omit_partition(
    source_name: Seq<char>,
    fs: Seq<(Seq<char>, FieldType)>,
    keys: Seq<Seq<char>>,
)
    ensures
        ({
            let pick = utility_result("Pick"@, Some(source_name), Some(fs), keys).0;
            let omit = utility_result("Omit"@, Some(source_name), Some(fs), keys).0;
            &&& pick == Some(fields_by_keys(fs, keys, true))
            &&& omit == Some(fields_by_keys(fs, keys, false))
            &&& forall|i: int| 0 <= i < pick->0.len() ==> keys.contains(#[trigger] pick->0[i].0)
            &&& forall|i: int| 0 <= i < omit->0.len() ==> !keys.contains(#[trigger] omit->0[i].0)
            &&& pick->0.to_multiset().add(omit->0.to_multiset()) == fs.to_multiset()
        }),
{
    reveal_strlit("Pick");
    reveal_strlit("Omit");
    reveal_strlit("Record");
    reveal_strlit("ReturnType");
    reveal_strlit("Parameters");
    reveal_strlit("Partial");
    reveal_strlit("Required");
    assert("Pick"@.len() == 4 && "Omit"@.len() == 4 && "Record"@.len() == 6);
    assert("ReturnType"@.len() == 10 && "Parameters"@.len() == 10);
    assert("Partial"@.len() == 7 && "Required"@.len() == 8);
    assert("Pick"@[0] != "Omit"@[0]);
    lemma_fields_by_keys_split(fs, keys);
}

/// Whether some field is named `k`.
fn field_named(fs: &Vec<(String, FieldType)>, k: &String) -> (r: bool)
    ensures
        r == has_field(named_fields(fs@), k@),
{
    let mut i: usize = 0;
    while i < fs.len()
        invariant
            i <= fs.len(),
            forall|j: int| 0 <= j < i ==> fs@[j].0@ != k@,
        decreases fs.len() - i,
    {
        if fs[i].0 == *k {
            assert(named_fields(fs@)[i as int].0 == k@);
            return true;
        }
        i = i + 1;
    }
    assert forall|j: int| 0 <= j < named_fields(fs@).len() implies #[trigger] named_fields(fs@)[j].0 != k@ by {
        assert(named_fields(fs@)[j].0 == fs@[j].0@);
    }
    false
}

/// A diagnostic with the given message.
fn diagnostic(message: Vec<char>) -> (r: Diagnostic)
    ensures
        r.message@ == message@,
{
    Diagnostic { message: string_of(&message) }
}

/// The `Pick` (`keep`) or `Omit` (`!keep`) fields and the key messages.
fn keyed_utility_fields(
    u: &str,
    source_name: &str,
    fs: &Vec<(String, FieldType)>,
    keys: &Vec<String>,
    keep: bool,
) -> (r: (Vec<(String, FieldType)>, Vec<Diagnostic>))
    ensures
        named_fields(r.0@) == fields_by_keys(named_fields(fs@), string_views(keys@), keep),
        messages(r.1@) == key_messages(u@, source_name@, named_fields(fs@), string_views(keys@)),
{
    let ghost nf = named_fields(fs@);
    let ghost ks = string_views(keys@);
    let mut diags: Vec<Diagnostic> = Vec::new();
    if keys.len() == 0 {
        let mut m = chars_of("`");
        push_str(&mut m, u);
        push_str(&mut m, "<");
        push_str(&mut m, source_name);
        push_str(&mut m, ", ...>` requires string literal field names");
        diags.push(diagnostic(m));
    }
    let ghost head = messages(diags@);
    assert(head == (if ks.len() == 0 {
        seq!["`"@ + u@ + "<"@ + source_name@ + ", ...>` requires string literal field names"@]
    } else {
        Seq::<Seq<char>>::empty()
    }));
    let mut k: usize = 0;
    while k < keys.len()
        invariant
            k <= keys.len(),
            ks == string_views(keys@),
            nf == named_fields(fs@),
            messages(diags@) == head + unknown_key_messages(u@, source_name@, nf, ks.take(k as int)),
        decreases keys.len() - k,
    {
        assert(ks.take(k + 1).drop_last() =~= ks.take(k as int));
        assert(ks.take(k + 1).last() == keys@[k as int]@);
        if !field_named(fs, &keys[k]) {
            let mut m = chars_of("unknown field `");
            push_str(&mut m, keys[k].as_str());
            push_str(&mut m, "` in `");
            push_str(&mut m, u);
            push_str(&mut m, "<");
            push_str(&mut m, source_name);
            push_str(&mut m, ", \"");
            push_str(&mut m, keys[k].as_str());
            push_str(&mut m, "\">`");
            let ghost before = messages(diags@);
            let d = diagnostic(m);
            diags.push(d);
            assert(messages(diags@) =~= before.push(d.message@));
        }
        k = k + 1;
    }
    assert(ks.take(ks.len() as int) =~= ks);
    let mut out: Vec<(String, FieldType)> = Vec::new();
    let mut i: usize = 0;
    while i < fs.len()
        invariant
            i <= fs.len(),
            ks == string_views(keys@),
            nf == named_fields(fs@),
            named_fields(out@) == fields_by_keys(nf.take(i as int), ks, keep),
        decreases fs.len() - i,
    {
        assert(nf.take(i + 1).drop_last() =~= nf.take(i as int));
        assert(nf.take(i + 1).last() == (fs@[i as int].0@, fs@[i as int].1));
        if contains_string(keys, fs[i].0.as_str()) == keep {
            let e = (fs[i].0.clone(), copy_field_type(&fs[i].1));
            let ghost before = named_fields(out@);
            out.push(e);
            assert(named_fields(out@) =~= before.push((e.0@, e.1)));
        }
        i = i + 1;
    }
    assert(nf.take(nf.len() as int) =~= nf);
    (out, diags)
}

/// The fields that a utility type application registers, if any, and the
/// diagnostics it emits (see `utility_result`): `utility` is the utility's
/// name, `source_name` the name of its first argument where that is a named
/// type, `source` that type's fields where they are known, and `keys` the
/// string literal keys of its second argument.
pub fn utility_fields(
    utility: &str,
    source_name: Option<&str>,
    source: Option<&Vec<(String, FieldType)>>,
    keys: &Vec<String>,
) -> (r: (Option<Vec<(String, FieldType)>>, Vec<Diagnostic>))
    ensures
        ({
            let want = utility_result(
                utility@,
                match source_name {
                    Some(n) => Some(n@),
                    None => None,
                },
                match source {
                    Some(fs) => Some(named_fields(fs@)),
                    None => None,
                },
                string_views(keys@),
            );
            &&& messages(r.1@) == want.1
            &&& match r.0 {
                Some(v) => want.0 == Some(named_fields(v@)),
                None => want.0 is None,
            }
        }),
{
    let u = chars_of(utility);
    let mut diags: Vec<Diagnostic> = Vec::new();
    if eq_str(&u, "Record") || eq_str(&u, "ReturnType") || eq_str(&u, "Parameters") {
        let empty: Vec<(String, FieldType)> = Vec::new();
        assert(named_fields(empty@) =~= Seq::empty());
        assert(messages(diags@) =~= Seq::empty());
        return (Some(empty), diags);
    }
    let sn = match source_name {
        Some(n) => n,
        None => {
            let mut m = chars_of("utility type `");
            push_str(&mut m, utility);
            push_str(&mut m, "` requires a type argument");
            diags.push(diagnostic(m));
            assert(messages(diags@) =~= seq!["utility type `"@ + utility@ + "` requires a type argument"@]);
            return (None, diags);
        },
    };
    let fs = match source {
        Some(fs) => fs,
        None => {
            let mut m = chars_of("unknown type `");
            push_str(&mut m, sn);
            push_str(&mut m, "` in `");
            push_str(&mut m, utility);
            push_str(&mut m, "<");
            push_str(&mut m, sn);
            push_str(&mut m, ">`");
            diags.push(diagnostic(m));
            assert(messages(diags@) =~= seq!["unknown type `"@ + sn@ + "` in `"@ + utility@ + "<"@ + sn@ + ">`"@]);
            return (None, diags);
        },
    };
    let ghost nf = named_fields(fs@);
    assert(messages(diags@) =~= Seq::empty());
    if eq_str(&u, "Partial") || eq_str(&u, "Required") {
        let partial = eq_str(&u, "Partial");
        let mut out: Vec<(String, FieldType)> = Vec::new();
        let mut i: usize = 0;
        while i < fs.len()
            invariant
                i <= fs.len(),
                nf == named_fields(fs@),
                partial == (utility@ == "Partial"@),
                partial ==> named_fields(out@) == partial_fields(nf.take(i as int)),
                !partial ==> named_fields(out@) == required_fields(nf.take(i as int)),
            decreases fs.len() - i,
        {
            let t = if partial {
                FieldType::Option(Box::new(copy_field_type(&fs[i].1)))
            } else {
                match &fs[i].1 {
                    FieldType::Option(inner) => copy_field_type(inner),
                    other => copy_field_type(other),
                }
            };
            let e = (fs[i].0.clone(), t);
            let ghost before = named_fields(out@);
            out.push(e);
            proof {
                assert(named_fields(out@) =~= before.push((e.0@, e.1)));
                assert(nf.take(i + 1) =~= nf.take(i as int).push(nf[i as int]));
                if partial {
                    assert(partial_fields(nf.take(i + 1)) =~= partial_fields(nf.take(i as int)).push(
                        (nf[i as int].0, FieldType::Option(Box::new(nf[i as int].1)))));
                } else {
                    assert(required_fields(nf.take(i + 1)) =~= required_fields(nf.take(i as int)).push(
                        (nf[i as int].0, unwrap_option(nf[i as int].1))));
                }
            }
            i = i + 1;
        }
        assert(nf.take(nf.len() as int) =~= nf);
        return (Some(out), diags);
    }
    if eq_str(&u, "Pick") {
        let (out, d) = keyed_utility_fields(utility, sn, fs, keys, true);
        return (Some(out), d);
    }
    if eq_str(&u, "Omit") {
        let (out, d) = keyed_utility_fields(utility, sn, fs, keys, false);
        return (Some(out), d);
    }
    let mut out: Vec<(String, FieldType)> = Vec::new();
    let mut i: usize = 0;
    while i < fs.len()
        invariant
            i <= fs.len(),
            nf == named_fields(fs@),
            named_fields(out@) == nf.take(i as int),
        decreases fs.len() - i,
    {
        let e = (fs[i].0.clone(), copy_field_type(&fs[i].1));
        let ghost before = named_fields(out@);
        out.push(e);
        assert(named_fields(out@) =~= before.push((e.0@, e.1)));
        assert(nf.take(i + 1) =~= nf.take(i as int).push(nf[i as int]));
        i = i + 1;
    }
    assert(nf.take(nf.len() as int) =~= nf);
    (Some(out), diags)
}

/// Operator lowering keeps each operator's meaning: every supported
/// RustScript operator becomes the Rust operator of the same name (`%`,
/// `Mod`, becomes Rust's remainder `Rem`), so no two operators merge.
pub proof fn lemma_binary_op_keeps_meaning()
    ensures
        rust_binary_op(BinaryOp::Add) == RustBinaryOp::Add,
        rust_binary_op(BinaryOp::Sub) == RustBinaryOp::Sub,
        rust_binary_op(BinaryOp::Mul) == RustBinaryOp::Mul,
        rust_binary_op(BinaryOp::Div) == RustBinaryOp::Div,
        rust_binary_op(BinaryOp::Eq) == RustBinaryOp::Eq,
        rust_binary_op(BinaryOp::Ne) == RustBinaryOp::Ne,
        rust_binary_op(BinaryOp::Lt) == RustBinaryOp::Lt,
        rust_binary_op(BinaryOp::Gt) == RustBinaryOp::Gt,
        rust_binary_op(BinaryOp::Le) == RustBinaryOp::Le,
        rust_binary_op(BinaryOp::Ge) == RustBinaryOp::Ge,
        rust_binary_op(BinaryOp::And) == RustBinaryOp::And,
        rust_binary_op(BinaryOp::Or) == RustBinaryOp::Or,
        rust_binary_op(BinaryOp::BitAnd) == RustBinaryOp::BitAnd,
        rust_binary_op(BinaryOp::BitOr) == RustBinaryOp::BitOr,
        rust_binary_op(BinaryOp::BitXor) == RustBinaryOp::BitXor,
        rust_binary_op(BinaryOp::Shl) == RustBinaryOp::Shl,
        rust_binary_op(BinaryOp::Shr) == RustBinaryOp::Shr,
        rust_binary_op(BinaryOp::Mod) == RustBinaryOp::Rem,
        forall|a: BinaryOp, b: BinaryOp|
            a != BinaryOp::Pow && a != BinaryOp::In && b != BinaryOp::Pow && b != BinaryOp::In && a != b
                ==> #[trigger] rust_binary_op(a) != #[trigger] rust_binary_op(b),
{
}

/// Unary lowering keeps each operator: negation, logical not and bitwise
/// not become Rust's `Neg`, `Not` and `BitNot`.
pub proof fn lemma_unary_op_keeps_meaning()
    ensures
        rust_unary_op(UnaryOp::Neg) == RustUnaryOp::Neg,
        rust_unary_op(UnaryOp::Not) == RustUnaryOp::Not,
        rust_unary_op(UnaryOp::BitNot) == RustUnaryOp::BitNot,
{
}

/// Compound assignment keeps the operator: `+`, `-`, `*`, `/`, `%` give
/// `+=`, `-=`, `*=`, `/=`, `%=`, and no other operator gives one.
pub proof fn lemma_compound_op_keeps_meaning()
    ensures
        compound_op(BinaryOp::Add) == Some(RustCompoundAssignOp::AddAssign),
        compound_op(BinaryOp::Sub) == Some(RustCompoundAssignOp::SubAssign),
        compound_op(BinaryOp::Mul) == Some(RustCompoundAssignOp::MulAssign),
        compound_op(BinaryOp::Div) == Some(RustCompoundAssignOp::DivAssign),
        compound_op(BinaryOp::Mod) == Some(RustCompoundAssignOp::RemAssign),
        forall|op: BinaryOp|
            op != BinaryOp::Add && op != BinaryOp::Sub && op != BinaryOp::Mul && op != BinaryOp::Div
                && op != BinaryOp::Mod ==> #[trigger] compound_op(op) is None,
{
}

/// The builtin type names: `i32`, `i64`, `f64`, `bool`, `string` and
/// `void` resolve to `i32`, `i64`, `f64`, `bool`, `String` and `()`, and no
/// other name resolves.
pub proof fn lemma_resolved_type_names(name: Seq<char>)
    ensures
        resolved_type("i32"@) == Some(RustType::I32),
        resolved_type("i64"@) == Some(RustType::I64),
        resolved_type("f64"@) == Some(RustType::F64),
        resolved_type("bool"@) == Some(RustType::Bool),
        resolved_type("string"@) == Some(RustType::String),
        resolved_type("void"@) == Some(RustType::Unit),
        name != "i32"@ && name != "i64"@ && name != "f64"@ && name != "bool"@ && name != "string"@
            && name != "void"@ ==> resolved_type(name) is None,
{
    reveal_strlit("i32");
    reveal_strlit("i64");
    reveal_strlit("f64");
    reveal_strlit("bool");
    reveal_strlit("string");
    reveal_strlit("void");
    assert("i32"@.len() == 3);
    assert("i64"@.len() == 3);
    assert("f64"@.len() == 3);
    assert("bool"@.len() == 4);
    assert("string"@.len() == 6);
    assert("void"@.len() == 4);
    assert("i32"@[1] != "i64"@[1]);
    assert("i32"@[0] != "f64"@[0]);
    assert("i64"@[0] != "f64"@[0]);
    assert("bool"@[0] != "void"@[0]);
}

/// Literal types: integers are `i64`, floats `f64`, strings `String`,
/// booleans `bool`; no other expression has a literal type.
pub proof fn lemma_literal_types(e: ExprKind)
    ensures
        e is IntLit ==> literal_type(e) == Some(RustType::I64),
        e is FloatLit ==> literal_type(e) == Some(RustType::F64),
        e is StringLit ==> literal_type(e) == Some(RustType::String),
        e is BoolLit ==> literal_type(e) == Some(RustType::Bool),
        !(e is IntLit || e is FloatLit || e is StringLit || e is BoolLit) ==> literal_type(e) is None,
{
}

/// The utility types: a generic `Partial`, `Required`, `Readonly`,
/// `Record`, `Pick`, `Omit`, `ReturnType` or `Parameters` is recognised by
/// its name; any other generic, and any other annotation, is not.
pub proof fn lemma_utility_type_names(n: String, args: Vec<TypeKind>, other: TypeKind)
    ensures
        n@ == "Partial"@ ==> utility_type_of(TypeKind::Generic(n, args)) == Some("Partial"@),
        n@ == "Required"@ ==> utility_type_of(TypeKind::Generic(n, args)) == Some("Required"@),
        n@ == "Readonly"@ ==> utility_type_of(TypeKind::Generic(n, args)) == Some("Readonly"@),
        n@ == "Record"@ ==> utility_type_of(TypeKind::Generic(n, args)) == Some("Record"@),
        n@ == "Pick"@ ==> utility_type_of(TypeKind::Generic(n, args)) == Some("Pick"@),
        n@ == "Omit"@ ==> utility_type_of(TypeKind::Generic(n, args)) == Some("Omit"@),
        n@ == "ReturnType"@ ==> utility_type_of(TypeKind::Generic(n, args)) == Some("ReturnType"@),
        n@ == "Parameters"@ ==> utility_type_of(TypeKind::Generic(n, args)) == Some("Parameters"@),
        n@ != "Partial"@ && n@ != "Required"@ && n@ != "Readonly"@ && n@ != "Record"@ && n@ != "Pick"@ && n@ != "Omit"@ && n@ != "ReturnType"@ && n@ != "Parameters"@ ==> utility_type_of(TypeKind::Generic(n, args)) is None,
        !(other is Generic) ==> utility_type_of(other) is None,
{
}

/// The default values a generator's `new` gives its locals: `0` for the
/// integer types, `0.0` for the float types, `false`, `String::new()` and
/// `()` for `bool`, `String` and `()`, and `Default::default()` otherwise.
pub proof fn lemma_default_values(t: RustType)
    ensures
        t is I8 || t is I16 || t is I32 || t is I64 || t is U8 || t is U16 || t is U32 || t is U64
            ==> default_value_text(t) == "0"@,
        t is F32 || t is F64 ==> default_value_text(t) == "0.0"@,
        t is Bool ==> default_value_text(t) == "false"@,
        t is String ==> default_value_text(t) == "String::new()"@,
        t is Unit ==> default_value_text(t) == "()"@,
        !(t is I8 || t is I16 || t is I32 || t is I64 || t is U8 || t is U16 || t is U32 || t is U64
            || t is F32 || t is F64 || t is Bool || t is String || t is Unit)
            ==> default_value_text(t) == "Default::default()"@,
{
}

} // verus!
