//! Standard library dependency detection.
//!
//! Scans function and method bodies for builtins whose generated code needs
//! an outside crate: `JSON.stringify` / `JSON.parse` (`serde_json`),
//! `Math.random()` (`rand`) and `new RegExp(..)` (`regex`).

use vstd::prelude::*;

use crate::ast::{Block, ClassMember, ElseClause, ExprKind, ForInit, IfStmt, Item, Module, Stmt};
use crate::text::{chars_of, eq_str};

verus! {

/// What a scan looks for.
#[derive(Debug, Clone, Copy, PartialEq, Eq, Structural)]
pub enum Needle {
    /// `JSON.stringify` or `JSON.parse`.
    Json,
    /// `Math.random`.
    MathRandom,
    /// `new RegExp`.
    RegExp,
}

// ---------------------------------------------------------------------------
// Specification
// ---------------------------------------------------------------------------

/// A call `object.method` that the needle stands for.
pub open spec fn needle_call(n: Needle, object: Seq<char>, method: Seq<char>) -> bool {
    match n {
        Needle::Json => object == "JSON"@ && (method == "stringify"@ || method == "parse"@),
        Needle::MathRandom => object == "Math"@ && method == "random"@,
        Needle::RegExp => false,
    }
}

/// The expression uses the needle: in a call it stands for, or in a part
/// that the scan reads (receivers and arguments of calls, operands,
/// parenthesized and awaited expressions, assigned values; for `RegExp`
/// also `new` expressions and their arguments).
pub open spec fn expr_hit(n: Needle, e: ExprKind) -> bool
    decreases e, 0int,
{
    match e {
        ExprKind::MethodCall { object, method, args } => {
            (match *object {
                ExprKind::Ident(name) => needle_call(n, name@, method@),
                _ => false,
            }) || expr_hit(n, *object) || any_expr_hit(n, args@)
        },
        ExprKind::New { class_name, args } => n == Needle::RegExp && (class_name@ == "RegExp"@ || any_expr_hit(n, args@)),
        ExprKind::Call { callee, args } => any_expr_hit(n, args@),
        ExprKind::Binary(_, l, r) => expr_hit(n, *l) || expr_hit(n, *r),
        ExprKind::Unary(_, x) => expr_hit(n, *x),
        ExprKind::Paren(x) => expr_hit(n, *x),
        ExprKind::Await(x) => expr_hit(n, *x),
        ExprKind::Assign { target, value } => expr_hit(n, *value),
        _ => false,
    }
}

/// Some expression of the list uses the needle.
pub open spec fn any_expr_hit(n: Needle, es: Seq<ExprKind>) -> bool
    decreases es, 0int,
{
    if es.len() == 0 {
        false
    } else {
        any_expr_hit(n, es.drop_last()) || expr_hit(n, es.last())
    }
}

/// An optional expression uses the needle.
pub open spec fn opt_expr_hit(n: Needle, e: Option<ExprKind>) -> bool {
    match e {
        Some(x) => expr_hit(n, x),
        None => false,
    }
}

/// The statement uses the needle in an expression or block that the scan reads.
pub open spec fn stmt_hit(n: Needle, s: Stmt) -> bool
    decreases s, 0int,
{
    match s {
        Stmt::Expr(e) => expr_hit(n, e),
        Stmt::Return(v) => opt_expr_hit(n, v),
        Stmt::VarDecl { name, type_ann, init } => expr_hit(n, init),
        Stmt::Using { name, init } => expr_hit(n, init),
        Stmt::If(i) => if_hit(n, i),
        Stmt::While { condition, body } => expr_hit(n, condition) || block_hit(n, body),
        Stmt::DoWhile { body, condition } => block_hit(n, body) || expr_hit(n, condition),
        Stmt::For { iterable, body } => expr_hit(n, iterable) || block_hit(n, body),
        Stmt::ForIn { iterable, body } => expr_hit(n, iterable) || block_hit(n, body),
        Stmt::ForClassic { setup, test, update, body } => (match setup {
            Some(ForInit::VarDecl { name, init }) => expr_hit(n, init),
            Some(ForInit::Expr(e)) => expr_hit(n, e),
            None => false,
        }) || opt_expr_hit(n, test) || opt_expr_hit(n, update) || block_hit(n, body),
        Stmt::TryCatch { try_block, catch_block, finally_block } => block_hit(n, try_block)
            || (match catch_block {
            Some(b) => block_hit(n, b),
            None => false,
        }) || (match finally_block {
            Some(b) => block_hit(n, b),
            None => false,
        }),
        _ => false,
    }
}

/// The `if` statement uses the needle in its condition, its block or its
/// `else` part.
pub open spec fn if_hit(n: Needle, i: IfStmt) -> bool
    decreases i, 0int,
{
    expr_hit(n, i.condition) || block_hit(n, i.then_block) || match i.else_clause {
        Some(ElseClause::Block(b)) => block_hit(n, b),
        Some(ElseClause::ElseIf(e)) => if_hit(n, *e),
        None => false,
    }
}

/// Some statement of the block uses the needle.
pub open spec fn block_hit(n: Needle, b: Block) -> bool
    decreases b, 1int,
{
    any_stmt_hit(n, b.stmts@)
}

/// Some statement of the list uses the needle.
pub open spec fn any_stmt_hit(n: Needle, ss: Seq<Stmt>) -> bool
    decreases ss, 0int,
{
    if ss.len() == 0 {
        false
    } else {
        any_stmt_hit(n, ss.drop_last()) || stmt_hit(n, ss.last())
    }
}

/// The item uses the needle: in a function body or a class method body.
pub open spec fn item_hit(n: Needle, it: Item) -> bool {
    match it {
        Item::Function { name, body } => block_hit(n, body),
        Item::Class { name, members, derives } => exists|k: int|
            0 <= k < members@.len() && #[trigger] member_hit(n, members@[k]),
        _ => false,
    }
}

/// The class member is a method whose body uses the needle.
pub open spec fn member_hit(n: Needle, m: ClassMember) -> bool {
    match m {
        ClassMember::Method { name, body } => block_hit(n, body),
        ClassMember::Other => false,
    }
}

/// Some item of the module uses the needle.
pub open spec fn module_hit(n: Needle, m: Module) -> bool {
    exists|k: int| 0 <= k < m.items@.len() && #[trigger] item_hit(n, m.items@[k])
}

// ---------------------------------------------------------------------------
// Scans
// ---------------------------------------------------------------------------

fn is_needle_call(n: Needle, object: &str, method: &str) -> (r: bool)
    ensures
        r == needle_call(n, object@, method@),
{
    let o = chars_of(object);
    let m = chars_of(method);
    match n {
        Needle::Json => eq_str(&o, "JSON") && (eq_str(&m, "stringify") || eq_str(&m, "parse")),
        Needle::MathRandom => eq_str(&o, "Math") && eq_str(&m, "random"),
        Needle::RegExp => false,
    }
}

fn expr_uses(n: Needle, e: &ExprKind) -> (r: bool)
    ensures
        r == expr_hit(n, *e),
    decreases e, 0int,
{
    match e {
        ExprKind::MethodCall { object, method, args } => {
            let direct = match &**object {
                ExprKind::Ident(name) => is_needle_call(n, name.as_str(), method.as_str()),
                _ => false,
            };
            let in_object = expr_uses(n, object);
            let in_args = any_expr_uses(n, args);
            assert(direct == (match **object {
                ExprKind::Ident(name) => needle_call(n, name@, method@),
                _ => false,
            }));
            assert(in_object == expr_hit(n, **object));
            assert(in_args == any_expr_hit(n, args@));
            direct || in_object || in_args
        },
        ExprKind::New { class_name, args } => {
            match n {
                Needle::RegExp => {},
                _ => return false,
            }
            let t = chars_of(class_name.as_str());
            eq_str(&t, "RegExp") || any_expr_uses(n, args)
        },
        ExprKind::Call { callee, args } => any_expr_uses(n, args),
        ExprKind::Binary(_, l, r) => expr_uses(n, l) || expr_uses(n, r),
        ExprKind::Unary(_, x) => expr_uses(n, x),
        ExprKind::Paren(x) => expr_uses(n, x),
        ExprKind::Await(x) => expr_uses(n, x),
        ExprKind::Assign { target, value } => expr_uses(n, value),
        _ => false,
    }
}

fn any_expr_uses(n: Needle, es: &Vec<ExprKind>) -> (r: bool)
    ensures
        r == any_expr_hit(n, es@),
    decreases es, 0int,
{
    let mut k: usize = 0;
    while k < es.len()
        invariant
            k <= es.len(),
            !any_expr_hit(n, es@.take(k as int)),
        decreases es.len() - k,
    {
        proof {
            assert(decreases_to!(es => es@));
            assert(decreases_to!(es@ => es@[k as int]));
            assert(es@.take(k + 1).drop_last() =~= es@.take(k as int));
        }
        if expr_uses(n, &es[k]) {
            proof {
                lemma_any_expr_hit_at(n, es@, k as int);
            }
            return true;
        }
        k = k + 1;
    }
    assert(es@.take(es.len() as int) =~= es@);
    false
}

proof fn lemma_any_expr_hit_at(n: Needle, es: Seq<ExprKind>, k: int)
    requires
        0 <= k < es.len(),
        expr_hit(n, es[k]),
    ensures
        any_expr_hit(n, es),
    decreases es.len(),
{
    if k < es.len() - 1 {
        lemma_any_expr_hit_at(n, es.drop_last(), k);
    }
}

proof fn lemma_any_stmt_hit_at(n: Needle, ss: Seq<Stmt>, k: int)
    requires
        0 <= k < ss.len(),
        stmt_hit(n, ss[k]),
    ensures
        any_stmt_hit(n, ss),
    decreases ss.len(),
{
    if k < ss.len() - 1 {
        lemma_any_stmt_hit_at(n, ss.drop_last(), k);
    }
}

fn opt_expr_uses(n: Needle, e: &Option<ExprKind>) -> (r: bool)
    ensures
        r == opt_expr_hit(n, *e),
{
    match e {
        Some(x) => expr_uses(n, x),
        None => false,
    }
}

fn stmt_uses(n: Needle, s: &Stmt) -> (r: bool)
    ensures
        r == stmt_hit(n, *s),
    decreases s, 0int,
{
    match s {
        Stmt::Expr(e) => expr_uses(n, e),
        Stmt::Return(v) => opt_expr_uses(n, v),
        Stmt::VarDecl { name, type_ann, init } => expr_uses(n, init),
        Stmt::Using { name, init } => expr_uses(n, init),
        Stmt::If(i) => if_uses(n, i),
        Stmt::While { condition, body } => expr_uses(n, condition) || block_uses(n, body),
        Stmt::DoWhile { body, condition } => block_uses(n, body) || expr_uses(n, condition),
        Stmt::For { iterable, body } => expr_uses(n, iterable) || block_uses(n, body),
        Stmt::ForIn { iterable, body } => expr_uses(n, iterable) || block_uses(n, body),
        Stmt::ForClassic { setup, test, update, body } => {
            let in_setup = match setup {
                Some(ForInit::VarDecl { name, init }) => expr_uses(n, init),
                Some(ForInit::Expr(e)) => expr_uses(n, e),
                None => false,
            };
            in_setup || opt_expr_uses(n, test) || opt_expr_uses(n, update) || block_uses(n, body)
        },
        Stmt::TryCatch { try_block, catch_block, finally_block } => {
            if block_uses(n, try_block) {
                return true;
            }
            let in_catch = match catch_block {
                Some(b) => block_uses(n, b),
                None => false,
            };
            in_catch || match finally_block {
                Some(b) => block_uses(n, b),
                None => false,
            }
        },
        _ => false,
    }
}

fn if_uses(n: Needle, i: &IfStmt) -> (r: bool)
    ensures
        r == if_hit(n, *i),
    decreases i, 0int,
{
    if expr_uses(n, &i.condition) || block_uses(n, &i.then_block) {
        return true;
    }
    match &i.else_clause {
        Some(ElseClause::Block(b)) => block_uses(n, b),
        Some(ElseClause::ElseIf(e)) => if_uses(n, e),
        None => false,
    }
}

fn block_uses(n: Needle, b: &Block) -> (r: bool)
    ensures
        r == block_hit(n, *b),
    decreases b, 1int,
{
    let ss = &b.stmts;
    let mut k: usize = 0;
    while k < ss.len()
        invariant
            k <= ss.len(),
            ss == &b.stmts,
            !any_stmt_hit(n, ss@.take(k as int)),
        decreases ss.len() - k,
    {
        proof {
            assert(decreases_to!(b => b.stmts));
            assert(decreases_to!(b.stmts => b.stmts@));
            assert(decreases_to!(b.stmts@ => b.stmts@[k as int]));
            assert(ss@.take(k + 1).drop_last() =~= ss@.take(k as int));
        }
        if stmt_uses(n, &ss[k]) {
            proof {
                lemma_any_stmt_hit_at(n, ss@, k as int);
            }
            return true;
        }
        k = k + 1;
    }
    assert(ss@.take(ss.len() as int) =~= ss@);
    false
}

fn item_uses(n: Needle, it: &Item) -> (r: bool)
    ensures
        r == item_hit(n, *it),
{
    match it {
        Item::Function { name, body } => block_uses(n, body),
        Item::Class { name, members, derives } => {
            let mut k: usize = 0;
            while k < members.len()
                invariant
                    k <= members.len(),
                    item_hit(n, *it) == exists|j: int| 0 <= j < members@.len() && #[trigger] member_hit(n, members@[j]),
                    forall|j: int| 0 <= j < k ==> !#[trigger] member_hit(n, members@[j]),
                decreases members.len() - k,
            {
                let hit = match &members[k] {
                    ClassMember::Method { name, body } => block_uses(n, body),
                    ClassMember::Other => false,
                };
                if hit {
                    assert(member_hit(n, members@[k as int]));
                    return true;
                }
                k = k + 1;
            }
            false
        },
        _ => false,
    }
}

fn module_uses(n: Needle, module: &Module) -> (r: bool)
    ensures
        r == module_hit(n, *module),
{
    let mut k: usize = 0;
    while k < module.items.len()
        invariant
            k <= module.items.len(),
            forall|j: int| 0 <= j < k ==> !#[trigger] item_hit(n, module.items@[j]),
        decreases module.items.len() - k,
    {
        if item_uses(n, &module.items[k]) {
            assert(item_hit(n, module.items@[k as int]));
            return true;
        }
        k = k + 1;
    }
    false
}

/// Whether a module uses `JSON.stringify()` or `JSON.parse()`.
pub fn module_needs_serde_json(module: &Module) -> (r: bool)
    ensures
        r == module_hit(Needle::Json, *module),
{
    module_uses(Needle::Json, module)
}

/// Whether a module uses `Math.random()`.
pub fn module_needs_rand(module: &Module) -> (r: bool)
    ensures
        r == module_hit(Needle::MathRandom, *module),
{
    module_uses(Needle::MathRandom, module)
}

/// Whether a module uses `new RegExp()`.
pub fn module_needs_regex(module: &Module) -> (r: bool)
    ensures
        r == module_hit(Needle::RegExp, *module),
{
    module_uses(Needle::RegExp, module)
}

} // verus!
