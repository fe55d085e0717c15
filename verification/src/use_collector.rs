//! Which `use std::collections::..` declarations generated types need.

use vstd::prelude::*;

use crate::rust_ir::{
    RustBlock, RustClosureBody, RustElse, RustExpr, RustField, RustItem, RustMatchArm, RustMethod,
    RustParam, RustStmt, RustTraitMethod, RustType, RustUseDecl, RustVariant,
};
use crate::text::{chars_of, eq_str, string_of};

verus! {

/// The type names `name` somewhere in its named parts, generic bases and
/// arguments, `Option` and `Result` payloads.
pub open spec fn type_mentions(ty: RustType, name: Seq<char>) -> bool
    decreases ty, 0int,
{
    match ty {
        RustType::Named(n) => n@ == name,
        RustType::Generic(base, args) => type_mentions(*base, name) || any_type_mentions(args@, name),
        RustType::Option(inner) => type_mentions(*inner, name),
        RustType::Result(ok, err) => type_mentions(*ok, name) || type_mentions(*err, name),
        _ => false,
    }
}

/// Some type of the list mentions `name`.
pub open spec fn any_type_mentions(ts: Seq<RustType>, name: Seq<char>) -> bool
    decreases ts, 0int,
{
    if ts.len() == 0 {
        false
    } else {
        any_type_mentions(ts.drop_last(), name) || type_mentions(ts.last(), name)
    }
}

/// Scan a type for `HashMap` and `HashSet`, setting the flag of each one
/// that it mentions and leaving the flags already set.
pub fn scan_type_for_collections(ty: &RustType, needs_hashmap: &mut bool, needs_hashset: &mut bool)
    ensures
        *final(needs_hashmap) == (*old(needs_hashmap) || type_mentions(*ty, "HashMap"@)),
        *final(needs_hashset) == (*old(needs_hashset) || type_mentions(*ty, "HashSet"@)),
    decreases ty, 0int,
{
    match ty {
        RustType::Named(name) => {
            let n = chars_of(name.as_str());
            if eq_str(&n, "HashMap") {
                *needs_hashmap = true;
            } else if eq_str(&n, "HashSet") {
                *needs_hashset = true;
            }
            proof {
                reveal_strlit("HashMap");
                reveal_strlit("HashSet");
                assert("HashMap"@[4] != "HashSet"@[4]);
            }
        },
        RustType::Generic(base, args) => {
            scan_type_for_collections(base, needs_hashmap, needs_hashset);
            let mut k: usize = 0;
            #[verifier::loop_isolation(false)]
            while k < args.len()
                invariant
                    k <= args.len(),
                    *needs_hashmap == (*old(needs_hashmap) || type_mentions(**base, "HashMap"@)
                        || any_type_mentions(args@.take(k as int), "HashMap"@)),
                    *needs_hashset == (*old(needs_hashset) || type_mentions(**base, "HashSet"@)
                        || any_type_mentions(args@.take(k as int), "HashSet"@)),
                decreases args.len() - k,
            {
                proof {
                    assert(decreases_to!(*args => args@));
                    assert(decreases_to!(args@ => args@[k as int]));
                    assert(args@.take(k + 1).drop_last() =~= args@.take(k as int));
                }
                scan_type_for_collections(&args[k], needs_hashmap, needs_hashset);
                k = k + 1;
            }
            assert(args@.take(args@.len() as int) =~= args@);
        },
        RustType::Option(inner) => {
            scan_type_for_collections(inner, needs_hashmap, needs_hashset);
        },
        RustType::Result(ok, err) => {
            scan_type_for_collections(ok, needs_hashmap, needs_hashset);
            scan_type_for_collections(err, needs_hashmap, needs_hashset);
        },
        _ => {},
    }
}

/// The `use` paths that the two flags ask for: the `HashMap` path first,
/// then the `HashSet` path, each only where its flag is set.
pub open spec fn use_paths(needs_hashmap: bool, needs_hashset: bool) -> Seq<Seq<char>> {
    let m: Seq<Seq<char>> = if needs_hashmap {
        seq!["std::collections::HashMap"@]
    } else {
        Seq::empty()
    };
    if needs_hashset {
        m.push("std::collections::HashSet"@)
    } else {
        m
    }
}

/// The `use std::collections::..` declarations that the flags ask for, all
/// private.
pub fn collection_use_decls(needs_hashmap: bool, needs_hashset: bool) -> (r: Vec<RustUseDecl>)
    ensures
        r@.map_values(|d: RustUseDecl| d.path@) == use_paths(needs_hashmap, needs_hashset),
        forall|i: int| 0 <= i < r@.len() ==> !(#[trigger] r@[i]).public,
{
    let mut uses: Vec<RustUseDecl> = Vec::new();
    if needs_hashmap {
        let p = chars_of("std::collections::HashMap");
        uses.push(RustUseDecl { path: string_of(&p), public: false });
    }
    if needs_hashset {
        let p = chars_of("std::collections::HashSet");
        uses.push(RustUseDecl { path: string_of(&p), public: false });
    }
    assert(uses@.map_values(|d: RustUseDecl| d.path@) =~= use_paths(needs_hashmap, needs_hashset));
    uses
}

// ---------------------------------------------------------------------------
// What an expression, a statement and a block mention
// ---------------------------------------------------------------------------

/// The expression calls an associated function of the type `name`
/// (`name::f(..)`) somewhere in it, closures and blocks included.
pub open spec fn expr_mentions(e: RustExpr, name: Seq<char>) -> bool
    decreases e, 0int,
{
    match e {
        RustExpr::StaticCall { owner, method, args } => owner@ == name || exprs_mention(args@, name),
        RustExpr::VecLit(elems) => exprs_mention(elems@, name),
        RustExpr::Index { object, index } => expr_mentions(*object, name) || expr_mentions(*index, name),
        RustExpr::Binary { op, left, right } => expr_mentions(*left, name) || expr_mentions(*right, name),
        RustExpr::Unary { unary_op, operand } => expr_mentions(*operand, name),
        RustExpr::Call { func, args } => exprs_mention(args@, name),
        RustExpr::Macro { name: m, args } => exprs_mention(args@, name),
        RustExpr::MethodCall { receiver, method, args } => expr_mentions(*receiver, name)
            || exprs_mention(args@, name),
        RustExpr::Paren(inner) => expr_mentions(*inner, name),
        RustExpr::Clone(inner) => expr_mentions(*inner, name),
        RustExpr::ToString(inner) => expr_mentions(*inner, name),
        RustExpr::SomeExpr(inner) => expr_mentions(*inner, name),
        RustExpr::QuestionMark(inner) => expr_mentions(*inner, name),
        RustExpr::OkExpr(inner) => expr_mentions(*inner, name),
        RustExpr::ErrExpr(inner) => expr_mentions(*inner, name),
        RustExpr::Assign { target, value } => expr_mentions(*value, name),
        RustExpr::CompoundAssign { target, assign_op, value } => expr_mentions(*value, name),
        RustExpr::SelfFieldAssign { field, value } => expr_mentions(*value, name),
        RustExpr::StructLit { name: n, fields } => inits_mention(fields@, name),
        RustExpr::SelfStructLit { fields } => inits_mention(fields@, name),
        RustExpr::FieldAccess { object, field } => expr_mentions(*object, name),
        RustExpr::UnwrapOr { expr, default } => expr_mentions(*expr, name) || expr_mentions(*default, name),
        RustExpr::OptionMap { expr, binding, closure_body } => expr_mentions(*expr, name)
            || expr_mentions(*closure_body, name),
        RustExpr::ClosureCall { block } => block_mentions(block, name),
        RustExpr::Closure { params, body } => match body {
            RustClosureBody::Expr(x) => expr_mentions(*x, name),
            RustClosureBody::Block(b) => block_mentions(b, name),
        },
        _ => false,
    }
}

/// Some expression of the list mentions `name` (see `expr_mentions`).
pub open spec fn exprs_mention(es: Seq<RustExpr>, name: Seq<char>) -> bool
    decreases es, 0int,
{
    if es.len() == 0 {
        false
    } else {
        exprs_mention(es.drop_last(), name) || expr_mentions(es.last(), name)
    }
}

/// Some field value of a struct literal mentions `name`.
pub open spec fn inits_mention(fs: Seq<(String, RustExpr)>, name: Seq<char>) -> bool
    decreases fs, 0int,
{
    if fs.len() == 0 {
        false
    } else {
        inits_mention(fs.drop_last(), name) || expr_mentions(fs.last().1, name)
    }
}

/// A statement or the tail expression of the block mentions `name`.
pub open spec fn block_mentions(b: RustBlock, name: Seq<char>) -> bool
    decreases b, 0int,
{
    stmts_mention(b.stmts@, name) || match b.expr {
        Some(x) => expr_mentions(*x, name),
        None => false,
    }
}

/// Some statement of the list mentions `name`.
pub open spec fn stmts_mention(ss: Seq<RustStmt>, name: Seq<char>) -> bool
    decreases ss, 0int,
{
    if ss.len() == 0 {
        false
    } else {
        stmts_mention(ss.drop_last(), name) || stmt_mentions(ss.last(), name)
    }
}

/// Some arm of the list mentions `name` in its body.
pub open spec fn arms_mention(arms: Seq<RustMatchArm>, name: Seq<char>) -> bool
    decreases arms, 0int,
{
    if arms.len() == 0 {
        false
    } else {
        arms_mention(arms.drop_last(), name) || block_mentions(arms.last().body, name)
    }
}

/// The statement mentions `name`: as the type of a `let`, or in one of its
/// expressions and blocks. Of an `else if`, the condition and the first
/// block are looked at.
pub open spec fn stmt_mentions(s: RustStmt, name: Seq<char>) -> bool
    decreases s, 0int,
{
    match s {
        RustStmt::Let { name: n, mutable, ty, init } => (match ty {
            Some(t) => type_mentions(t, name),
            None => false,
        }) || expr_mentions(init, name),
        RustStmt::Expr(x) => expr_mentions(x, name),
        RustStmt::Semi(x) => expr_mentions(x, name),
        RustStmt::Return(v) => match v {
            Some(x) => expr_mentions(x, name),
            None => false,
        },
        RustStmt::If(i) => expr_mentions(i.condition, name) || block_mentions(i.then_block, name)
            || match i.else_clause {
            Some(RustElse::Block(b)) => block_mentions(b, name),
            Some(RustElse::ElseIf(nested)) => expr_mentions(nested.condition, name)
                || block_mentions(nested.then_block, name),
            None => false,
        },
        RustStmt::While { condition, body } => expr_mentions(condition, name) || block_mentions(body, name),
        RustStmt::Destructure { names, init } => expr_mentions(init, name),
        RustStmt::Match { scrutinee, arms } => expr_mentions(scrutinee, name) || arms_mention(arms@, name),
        RustStmt::IfLet { pattern, expr, then_block, else_branch } => expr_mentions(expr, name)
            || block_mentions(then_block, name) || match else_branch {
            Some(b) => block_mentions(b, name),
            None => false,
        },
        RustStmt::MatchResult { expr, ok_binding, ok_block, err_binding, err_block } =>
            expr_mentions(expr, name) || block_mentions(ok_block, name) || block_mentions(err_block, name),
        RustStmt::ForIn { variable, iterable, body } => expr_mentions(iterable, name)
            || block_mentions(body, name),
        RustStmt::LetElse { pattern, expr, else_block } => expr_mentions(expr, name)
            || block_mentions(else_block, name),
        RustStmt::Break(_) => false,
        RustStmt::Continue(_) => false,
    }
}

// ---------------------------------------------------------------------------
// Scans
// ---------------------------------------------------------------------------

/// Scan an expression for calls on `HashMap` and `HashSet`, setting the flag
/// of each one that it mentions and leaving the flags already set.
pub fn scan_expr_for_collections(expr: &RustExpr, needs_hashmap: &mut bool, needs_hashset: &mut bool)
    ensures
        *final(needs_hashmap) == (*old(needs_hashmap) || expr_mentions(*expr, "HashMap"@)),
        *final(needs_hashset) == (*old(needs_hashset) || expr_mentions(*expr, "HashSet"@)),
    decreases expr, 0int,
{
    match expr {
        RustExpr::StaticCall { owner, method, args } => {
            let n = chars_of(owner.as_str());
            if eq_str(&n, "HashMap") {
                *needs_hashmap = true;
            } else if eq_str(&n, "HashSet") {
                *needs_hashset = true;
            }
            proof {
                reveal_strlit("HashMap");
                reveal_strlit("HashSet");
                assert("HashMap"@[4] != "HashSet"@[4]);
            }
            scan_exprs_for_collections(args, needs_hashmap, needs_hashset);
        },
        RustExpr::VecLit(elems) => scan_exprs_for_collections(elems, needs_hashmap, needs_hashset),
        RustExpr::Index { object, index } => {
            scan_expr_for_collections(object, needs_hashmap, needs_hashset);
            scan_expr_for_collections(index, needs_hashmap, needs_hashset);
        },
        RustExpr::Binary { op, left, right } => {
            scan_expr_for_collections(left, needs_hashmap, needs_hashset);
            scan_expr_for_collections(right, needs_hashmap, needs_hashset);
        },
        RustExpr::Unary { unary_op, operand } => scan_expr_for_collections(operand, needs_hashmap, needs_hashset),
        RustExpr::Call { func, args } => scan_exprs_for_collections(args, needs_hashmap, needs_hashset),
        RustExpr::Macro { name, args } => scan_exprs_for_collections(args, needs_hashmap, needs_hashset),
        RustExpr::MethodCall { receiver, method, args } => {
            scan_expr_for_collections(receiver, needs_hashmap, needs_hashset);
            scan_exprs_for_collections(args, needs_hashmap, needs_hashset);
        },
        RustExpr::Paren(inner) => scan_expr_for_collections(inner, needs_hashmap, needs_hashset),
        RustExpr::Clone(inner) => scan_expr_for_collections(inner, needs_hashmap, needs_hashset),
        RustExpr::ToString(inner) => scan_expr_for_collections(inner, needs_hashmap, needs_hashset),
        RustExpr::SomeExpr(inner) => scan_expr_for_collections(inner, needs_hashmap, needs_hashset),
        RustExpr::QuestionMark(inner) => scan_expr_for_collections(inner, needs_hashmap, needs_hashset),
        RustExpr::OkExpr(inner) => scan_expr_for_collections(inner, needs_hashmap, needs_hashset),
        RustExpr::ErrExpr(inner) => scan_expr_for_collections(inner, needs_hashmap, needs_hashset),
        RustExpr::Assign { target, value } => scan_expr_for_collections(value, needs_hashmap, needs_hashset),
        RustExpr::CompoundAssign { target, assign_op, value } => {
            scan_expr_for_collections(value, needs_hashmap, needs_hashset)
        },
        RustExpr::SelfFieldAssign { field, value } => {
            scan_expr_for_collections(value, needs_hashmap, needs_hashset)
        },
        RustExpr::StructLit { name, fields } => scan_inits_for_collections(fields, needs_hashmap, needs_hashset),
        RustExpr::SelfStructLit { fields } => scan_inits_for_collections(fields, needs_hashmap, needs_hashset),
        RustExpr::FieldAccess { object, field } => scan_expr_for_collections(object, needs_hashmap, needs_hashset),
        RustExpr::UnwrapOr { expr: x, default } => {
            scan_expr_for_collections(x, needs_hashmap, needs_hashset);
            scan_expr_for_collections(default, needs_hashmap, needs_hashset);
        },
        RustExpr::OptionMap { expr: x, binding, closure_body } => {
            scan_expr_for_collections(x, needs_hashmap, needs_hashset);
            scan_expr_for_collections(closure_body, needs_hashmap, needs_hashset);
        },
        RustExpr::ClosureCall { block } => scan_block_for_collections(block, needs_hashmap, needs_hashset),
        RustExpr::Closure { params, body } => match body {
            RustClosureBody::Expr(x) => scan_expr_for_collections(x, needs_hashmap, needs_hashset),
            RustClosureBody::Block(b) => scan_block_for_collections(b, needs_hashmap, needs_hashset),
        },
        _ => {},
    }
}

/// Scan each expression of the list (see `scan_expr_for_collections`).
pub fn scan_exprs_for_collections(es: &Vec<RustExpr>, needs_hashmap: &mut bool, needs_hashset: &mut bool)
    ensures
        *final(needs_hashmap) == (*old(needs_hashmap) || exprs_mention(es@, "HashMap"@)),
        *final(needs_hashset) == (*old(needs_hashset) || exprs_mention(es@, "HashSet"@)),
    decreases es, 0int,
{
    let mut k: usize = 0;
    #[verifier::loop_isolation(false)]
    while k < es.len()
        invariant
            k <= es.len(),
            *needs_hashmap == (*old(needs_hashmap) || exprs_mention(es@.take(k as int), "HashMap"@)),
            *needs_hashset == (*old(needs_hashset) || exprs_mention(es@.take(k as int), "HashSet"@)),
        decreases es.len() - k,
    {
        proof {
            assert(decreases_to!(es => es@));
            assert(decreases_to!(es@ => es@[k as int]));
            assert(es@.take(k + 1).drop_last() =~= es@.take(k as int));
        }
        scan_expr_for_collections(&es[k], needs_hashmap, needs_hashset);
        k = k + 1;
    }
    assert(es@.take(es@.len() as int) =~= es@);
}

/// Scan each field value of a struct literal.
pub fn scan_inits_for_collections(
    fs: &Vec<(String, RustExpr)>,
    needs_hashmap: &mut bool,
    needs_hashset: &mut bool,
)
    ensures
        *final(needs_hashmap) == (*old(needs_hashmap) || inits_mention(fs@, "HashMap"@)),
        *final(needs_hashset) == (*old(needs_hashset) || inits_mention(fs@, "HashSet"@)),
    decreases fs, 0int,
{
    let mut k: usize = 0;
    #[verifier::loop_isolation(false)]
    while k < fs.len()
        invariant
            k <= fs.len(),
            *needs_hashmap == (*old(needs_hashmap) || inits_mention(fs@.take(k as int), "HashMap"@)),
            *needs_hashset == (*old(needs_hashset) || inits_mention(fs@.take(k as int), "HashSet"@)),
        decreases fs.len() - k,
    {
        proof {
            assert(decreases_to!(fs => fs@));
            assert(decreases_to!(fs@ => fs@[k as int]));
            assert(decreases_to!(fs@[k as int] => fs@[k as int].1));
            assert(fs@.take(k + 1).drop_last() =~= fs@.take(k as int));
        }
        scan_expr_for_collections(&fs[k].1, needs_hashmap, needs_hashset);
        k = k + 1;
    }
    assert(fs@.take(fs@.len() as int) =~= fs@);
}

/// Scan the statements and the tail expression of a block.
pub fn scan_block_for_collections(block: &RustBlock, needs_hashmap: &mut bool, needs_hashset: &mut bool)
    ensures
        *final(needs_hashmap) == (*old(needs_hashmap) || block_mentions(*block, "HashMap"@)),
        *final(needs_hashset) == (*old(needs_hashset) || block_mentions(*block, "HashSet"@)),
    decreases block, 0int,
{
    scan_stmts_for_collections(&block.stmts, needs_hashmap, needs_hashset);
    match &block.expr {
        Some(x) => scan_expr_for_collections(x, needs_hashmap, needs_hashset),
        None => {},
    }
}

/// Scan each statement of the list.
pub fn scan_stmts_for_collections(ss: &Vec<RustStmt>, needs_hashmap: &mut bool, needs_hashset: &mut bool)
    ensures
        *final(needs_hashmap) == (*old(needs_hashmap) || stmts_mention(ss@, "HashMap"@)),
        *final(needs_hashset) == (*old(needs_hashset) || stmts_mention(ss@, "HashSet"@)),
    decreases ss, 0int,
{
    let mut k: usize = 0;
    #[verifier::loop_isolation(false)]
    while k < ss.len()
        invariant
            k <= ss.len(),
            *needs_hashmap == (*old(needs_hashmap) || stmts_mention(ss@.take(k as int), "HashMap"@)),
            *needs_hashset == (*old(needs_hashset) || stmts_mention(ss@.take(k as int), "HashSet"@)),
        decreases ss.len() - k,
    {
        proof {
            assert(decreases_to!(ss => ss@));
            assert(decreases_to!(ss@ => ss@[k as int]));
            assert(ss@.take(k + 1).drop_last() =~= ss@.take(k as int));
        }
        scan_stmt_for_collections(&ss[k], needs_hashmap, needs_hashset);
        k = k + 1;
    }
    assert(ss@.take(ss@.len() as int) =~= ss@);
}

/// Scan the bodies of the arms of a `match`.
pub fn scan_arms_for_collections(arms: &Vec<RustMatchArm>, needs_hashmap: &mut bool, needs_hashset: &mut bool)
    ensures
        *final(needs_hashmap) == (*old(needs_hashmap) || arms_mention(arms@, "HashMap"@)),
        *final(needs_hashset) == (*old(needs_hashset) || arms_mention(arms@, "HashSet"@)),
    decreases arms, 0int,
{
    let mut k: usize = 0;
    #[verifier::loop_isolation(false)]
    while k < arms.len()
        invariant
            k <= arms.len(),
            *needs_hashmap == (*old(needs_hashmap) || arms_mention(arms@.take(k as int), "HashMap"@)),
            *needs_hashset == (*old(needs_hashset) || arms_mention(arms@.take(k as int), "HashSet"@)),
        decreases arms.len() - k,
    {
        proof {
            assert(decreases_to!(arms => arms@));
            assert(decreases_to!(arms@ => arms@[k as int]));
            assert(decreases_to!(arms@[k as int] => arms@[k as int].body));
            assert(arms@.take(k + 1).drop_last() =~= arms@.take(k as int));
        }
        scan_block_for_collections(&arms[k].body, needs_hashmap, needs_hashset);
        k = k + 1;
    }
    assert(arms@.take(arms@.len() as int) =~= arms@);
}

/// Scan a statement: the type of a `let`, and its expressions and blocks.
pub fn scan_stmt_for_collections(stmt: &RustStmt, needs_hashmap: &mut bool, needs_hashset: &mut bool)
    ensures
        *final(needs_hashmap) == (*old(needs_hashmap) || stmt_mentions(*stmt, "HashMap"@)),
        *final(needs_hashset) == (*old(needs_hashset) || stmt_mentions(*stmt, "HashSet"@)),
    decreases stmt, 0int,
{
    match stmt {
        RustStmt::Let { name, mutable, ty, init } => {
            match ty {
                Some(t) => scan_type_for_collections(t, needs_hashmap, needs_hashset),
                None => {},
            }
            scan_expr_for_collections(init, needs_hashmap, needs_hashset);
        },
        RustStmt::Expr(x) => scan_expr_for_collections(x, needs_hashmap, needs_hashset),
        RustStmt::Semi(x) => scan_expr_for_collections(x, needs_hashmap, needs_hashset),
        RustStmt::Return(v) => match v {
            Some(x) => scan_expr_for_collections(x, needs_hashmap, needs_hashset),
            None => {},
        },
        RustStmt::If(i) => {
            scan_expr_for_collections(&i.condition, needs_hashmap, needs_hashset);
            scan_block_for_collections(&i.then_block, needs_hashmap, needs_hashset);
            match &i.else_clause {
                Some(RustElse::Block(b)) => scan_block_for_collections(b, needs_hashmap, needs_hashset),
                Some(RustElse::ElseIf(nested)) => {
                    proof {
                        assert(decreases_to!(*stmt => i.else_clause));
                    }
                    scan_expr_for_collections(&nested.condition, needs_hashmap, needs_hashset);
                    scan_block_for_collections(&nested.then_block, needs_hashmap, needs_hashset);
                },
                None => {},
            }
        },
        RustStmt::While { condition, body } => {
            scan_expr_for_collections(condition, needs_hashmap, needs_hashset);
            scan_block_for_collections(body, needs_hashmap, needs_hashset);
        },
        RustStmt::Destructure { names, init } => scan_expr_for_collections(init, needs_hashmap, needs_hashset),
        RustStmt::Match { scrutinee, arms } => {
            scan_expr_for_collections(scrutinee, needs_hashmap, needs_hashset);
            scan_arms_for_collections(arms, needs_hashmap, needs_hashset);
        },
        RustStmt::IfLet { pattern, expr, then_block, else_branch } => {
            scan_expr_for_collections(expr, needs_hashmap, needs_hashset);
            scan_block_for_collections(then_block, needs_hashmap, needs_hashset);
            match else_branch {
                Some(b) => scan_block_for_collections(b, needs_hashmap, needs_hashset),
                None => {},
            }
        },
        RustStmt::MatchResult { expr, ok_binding, ok_block, err_binding, err_block } => {
            scan_expr_for_collections(expr, needs_hashmap, needs_hashset);
            scan_block_for_collections(ok_block, needs_hashmap, needs_hashset);
            scan_block_for_collections(err_block, needs_hashmap, needs_hashset);
        },
        RustStmt::ForIn { variable, iterable, body } => {
            scan_expr_for_collections(iterable, needs_hashmap, needs_hashset);
            scan_block_for_collections(body, needs_hashmap, needs_hashset);
        },
        RustStmt::LetElse { pattern, expr, else_block } => {
            scan_expr_for_collections(expr, needs_hashmap, needs_hashset);
            scan_block_for_collections(else_block, needs_hashmap, needs_hashset);
        },
        RustStmt::Break(_) => {},
        RustStmt::Continue(_) => {},
    }
}

// ---------------------------------------------------------------------------
// Items
// ---------------------------------------------------------------------------

/// The type of the parameter mentions `name`.
pub open spec fn param_mentions(p: RustParam, name: Seq<char>) -> bool {
    type_mentions(p.ty, name)
}

/// The type of the field mentions `name`.
pub open spec fn field_mentions(f: RustField, name: Seq<char>) -> bool {
    type_mentions(f.ty, name)
}

/// Some parameter of the list mentions `name` in its type.
pub open spec fn params_mention(ps: Seq<RustParam>, name: Seq<char>) -> bool {
    exists|k: int| 0 <= k < ps.len() && #[trigger] param_mentions(ps[k], name)
}

/// Some field of the list mentions `name` in its type.
pub open spec fn fields_mention(fs: Seq<RustField>, name: Seq<char>) -> bool {
    exists|k: int| 0 <= k < fs.len() && #[trigger] field_mentions(fs[k], name)
}

/// The return type, where there is one, mentions `name`.
pub open spec fn return_mentions(t: Option<RustType>, name: Seq<char>) -> bool {
    match t {
        Some(t) => type_mentions(t, name),
        None => false,
    }
}

/// A method mentions `name` in a parameter type, its return type or its body.
pub open spec fn method_mentions(m: RustMethod, name: Seq<char>) -> bool {
    params_mention(m.params@, name) || return_mentions(m.return_type, name) || block_mentions(m.body, name)
}

/// Some field of the variant mentions `name` in its type.
pub open spec fn variant_mentions(v: RustVariant, name: Seq<char>) -> bool {
    fields_mention(v.fields@, name)
}

/// A trait method signature mentions `name` in a parameter or its return type.
pub open spec fn signature_mentions(m: RustTraitMethod, name: Seq<char>) -> bool {
    params_mention(m.params@, name) || return_mentions(m.return_type, name)
}

/// Some method of the list mentions `name`.
pub open spec fn methods_mention(ms: Seq<RustMethod>, name: Seq<char>) -> bool {
    exists|k: int| 0 <= k < ms.len() && #[trigger] method_mentions(ms[k], name)
}

/// The item mentions `name`: functions and methods in their signatures and
/// bodies, structs and enums in their field types, traits in their method
/// signatures.
pub open spec fn item_mentions(it: RustItem, name: Seq<char>) -> bool {
    match it {
        RustItem::Function(f) => params_mention(f.params@, name) || return_mentions(f.return_type, name)
            || block_mentions(f.body, name),
        RustItem::Struct { public, name: n, fields } => fields_mention(fields@, name),
        RustItem::Enum { name: n, variants } => exists|k: int|
            0 <= k < variants@.len() && #[trigger] variant_mentions(variants@[k], name),
        RustItem::Trait { name: n, signatures } => exists|k: int|
            0 <= k < signatures@.len() && #[trigger] signature_mentions(signatures@[k], name),
        RustItem::Impl { self_type, methods } => methods_mention(methods@, name),
        RustItem::TraitImpl { trait_name, self_type, associated_types, methods } => methods_mention(methods@, name),
    }
}

/// Some item of the list mentions `name`.
pub open spec fn items_mention(items: Seq<RustItem>, name: Seq<char>) -> bool {
    exists|k: int| 0 <= k < items.len() && #[trigger] item_mentions(items[k], name)
}

/// Scan the types of a parameter list.
pub fn scan_params_for_collections(ps: &Vec<RustParam>, needs_hashmap: &mut bool, needs_hashset: &mut bool)
    ensures
        *final(needs_hashmap) == (*old(needs_hashmap) || params_mention(ps@, "HashMap"@)),
        *final(needs_hashset) == (*old(needs_hashset) || params_mention(ps@, "HashSet"@)),
{
    let mut k: usize = 0;
    while k < ps.len()
        invariant
            k <= ps.len(),
            *needs_hashmap == (*old(needs_hashmap) || params_mention(ps@.take(k as int), "HashMap"@)),
            *needs_hashset == (*old(needs_hashset) || params_mention(ps@.take(k as int), "HashSet"@)),
        decreases ps.len() - k,
    {
        scan_type_for_collections(&ps[k].ty, needs_hashmap, needs_hashset);
        proof {
            let t = ps@.take(k + 1);
            assert(param_mentions(t[k as int], "HashMap"@) == param_mentions(ps@[k as int], "HashMap"@));
            assert(param_mentions(t[k as int], "HashSet"@) == param_mentions(ps@[k as int], "HashSet"@));
            assert(forall|j: int| 0 <= j < k ==> t[j] == ps@.take(k as int)[j]);
        }
        k = k + 1;
    }
    assert(ps@.take(ps@.len() as int) =~= ps@);
}

/// Scan the types of a field list.
pub fn scan_fields_for_collections(fs: &Vec<RustField>, needs_hashmap: &mut bool, needs_hashset: &mut bool)
    ensures
        *final(needs_hashmap) == (*old(needs_hashmap) || fields_mention(fs@, "HashMap"@)),
        *final(needs_hashset) == (*old(needs_hashset) || fields_mention(fs@, "HashSet"@)),
{
    let mut k: usize = 0;
    while k < fs.len()
        invariant
            k <= fs.len(),
            *needs_hashmap == (*old(needs_hashmap) || fields_mention(fs@.take(k as int), "HashMap"@)),
            *needs_hashset == (*old(needs_hashset) || fields_mention(fs@.take(k as int), "HashSet"@)),
        decreases fs.len() - k,
    {
        scan_type_for_collections(&fs[k].ty, needs_hashmap, needs_hashset);
        proof {
            let t = fs@.take(k + 1);
            assert(field_mentions(t[k as int], "HashMap"@) == field_mentions(fs@[k as int], "HashMap"@));
            assert(field_mentions(t[k as int], "HashSet"@) == field_mentions(fs@[k as int], "HashSet"@));
            assert(forall|j: int| 0 <= j < k ==> t[j] == fs@.take(k as int)[j]);
        }
        k = k + 1;
    }
    assert(fs@.take(fs@.len() as int) =~= fs@);
}

/// Scan a return type, where there is one.
fn scan_return_for_collections(t: &Option<RustType>, needs_hashmap: &mut bool, needs_hashset: &mut bool)
    ensures
        *final(needs_hashmap) == (*old(needs_hashmap) || return_mentions(*t, "HashMap"@)),
        *final(needs_hashset) == (*old(needs_hashset) || return_mentions(*t, "HashSet"@)),
{
    match t {
        Some(t) => scan_type_for_collections(t, needs_hashmap, needs_hashset),
        None => {},
    }
}

/// Scan a method: its parameter types, its return type and its body.
pub fn scan_method_for_collections(method: &RustMethod, needs_hashmap: &mut bool, needs_hashset: &mut bool)
    ensures
        *final(needs_hashmap) == (*old(needs_hashmap) || method_mentions(*method, "HashMap"@)),
        *final(needs_hashset) == (*old(needs_hashset) || method_mentions(*method, "HashSet"@)),
{
    scan_params_for_collections(&method.params, needs_hashmap, needs_hashset);
    scan_return_for_collections(&method.return_type, needs_hashmap, needs_hashset);
    scan_block_for_collections(&method.body, needs_hashmap, needs_hashset);
}

/// Scan each method of an `impl` block.
fn scan_methods_for_collections(ms: &Vec<RustMethod>, needs_hashmap: &mut bool, needs_hashset: &mut bool)
    ensures
        *final(needs_hashmap) == (*old(needs_hashmap) || methods_mention(ms@, "HashMap"@)),
        *final(needs_hashset) == (*old(needs_hashset) || methods_mention(ms@, "HashSet"@)),
{
    let mut k: usize = 0;
    while k < ms.len()
        invariant
            k <= ms.len(),
            *needs_hashmap == (*old(needs_hashmap) || methods_mention(ms@.take(k as int), "HashMap"@)),
            *needs_hashset == (*old(needs_hashset) || methods_mention(ms@.take(k as int), "HashSet"@)),
        decreases ms.len() - k,
    {
        scan_method_for_collections(&ms[k], needs_hashmap, needs_hashset);
        proof {
            let t = ms@.take(k + 1);
            assert(method_mentions(t[k as int], "HashMap"@) == method_mentions(ms@[k as int], "HashMap"@));
            assert(method_mentions(t[k as int], "HashSet"@) == method_mentions(ms@[k as int], "HashSet"@));
            assert(forall|j: int| 0 <= j < k ==> t[j] == ms@.take(k as int)[j]);
        }
        k = k + 1;
    }
    assert(ms@.take(ms@.len() as int) =~= ms@);
}

/// Scan a single item for `HashMap` and `HashSet` (see `item_mentions`).
pub fn scan_item_for_collections(item: &RustItem, needs_hashmap: &mut bool, needs_hashset: &mut bool)
    ensures
        *final(needs_hashmap) == (*old(needs_hashmap) || item_mentions(*item, "HashMap"@)),
        *final(needs_hashset) == (*old(needs_hashset) || item_mentions(*item, "HashSet"@)),
{
    match item {
        RustItem::Function(f) => {
            scan_params_for_collections(&f.params, needs_hashmap, needs_hashset);
            scan_return_for_collections(&f.return_type, needs_hashmap, needs_hashset);
            scan_block_for_collections(&f.body, needs_hashmap, needs_hashset);
        },
        RustItem::Struct { public, name, fields } => scan_fields_for_collections(fields, needs_hashmap, needs_hashset),
        RustItem::Enum { name, variants } => {
            let mut k: usize = 0;
            while k < variants.len()
                invariant
                    k <= variants.len(),
                    *needs_hashmap == (*old(needs_hashmap) || exists|j: int|
                        0 <= j < k && #[trigger] variant_mentions(variants@[j], "HashMap"@)),
                    *needs_hashset == (*old(needs_hashset) || exists|j: int|
                        0 <= j < k && #[trigger] variant_mentions(variants@[j], "HashSet"@)),
                decreases variants.len() - k,
            {
                scan_fields_for_collections(&variants[k].fields, needs_hashmap, needs_hashset);
                assert(variant_mentions(variants@[k as int], "HashMap"@) == fields_mention(
                    variants@[k as int].fields@, "HashMap"@));
                assert(variant_mentions(variants@[k as int], "HashSet"@) == fields_mention(
                    variants@[k as int].fields@, "HashSet"@));
                k = k + 1;
            }
        },
        RustItem::Trait { name, signatures } => {
            let mut k: usize = 0;
            while k < signatures.len()
                invariant
                    k <= signatures.len(),
                    *needs_hashmap == (*old(needs_hashmap) || exists|j: int|
                        0 <= j < k && #[trigger] signature_mentions(signatures@[j], "HashMap"@)),
                    *needs_hashset == (*old(needs_hashset) || exists|j: int|
                        0 <= j < k && #[trigger] signature_mentions(signatures@[j], "HashSet"@)),
                decreases signatures.len() - k,
            {
                let sig = &signatures[k];
                scan_params_for_collections(&sig.params, needs_hashmap, needs_hashset);
                scan_return_for_collections(&sig.return_type, needs_hashmap, needs_hashset);
                assert(signature_mentions(*sig, "HashMap"@) == (params_mention(sig.params@, "HashMap"@)
                    || return_mentions(sig.return_type, "HashMap"@)));
                assert(signature_mentions(*sig, "HashSet"@) == (params_mention(sig.params@, "HashSet"@)
                    || return_mentions(sig.return_type, "HashSet"@)));
                k = k + 1;
            }
        },
        RustItem::Impl { self_type, methods } => scan_methods_for_collections(methods, needs_hashmap, needs_hashset),
        RustItem::TraitImpl { trait_name, self_type, associated_types, methods } => {
            scan_methods_for_collections(methods, needs_hashmap, needs_hashset)
        },
    }
}

/// The `use std::collections::..` declarations that generated items need:
/// `HashMap` where some item mentions it, then `HashSet` likewise, all private.
pub fn collect_use_declarations(items: &[RustItem]) -> (r: Vec<RustUseDecl>)
    ensures
        r@.map_values(|d: RustUseDecl| d.path@) == use_paths(
            items_mention(items@, "HashMap"@),
            items_mention(items@, "HashSet"@),
        ),
        forall|i: int| 0 <= i < r@.len() ==> !(#[trigger] r@[i]).public,
{
    let mut needs_hashmap = false;
    let mut needs_hashset = false;
    let mut k: usize = 0;
    while k < items.len()
        invariant
            k <= items.len(),
            needs_hashmap == exists|j: int| 0 <= j < k && #[trigger] item_mentions(items@[j], "HashMap"@),
            needs_hashset == exists|j: int| 0 <= j < k && #[trigger] item_mentions(items@[j], "HashSet"@),
        decreases items.len() - k,
    {
        scan_item_for_collections(&items[k], &mut needs_hashmap, &mut needs_hashset);
        k = k + 1;
    }
    collection_use_decls(needs_hashmap, needs_hashset)
}

} // verus!
