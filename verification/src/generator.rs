//! Generator functions as state machines.
//!
//! The statements of a generator's body become the states of a
//! `loop { match self._state { .. } }` body: either a loop whose body
//! yields (the loop condition checked in one state, the code after the
//! `yield` in the next), or straight-line code split at each `yield`.
//! Locals live in the generator struct, so they are written `self.name`.

use vstd::prelude::*;

use crate::assoc::{
    key_index, key_position, keyed, keys_unique, lemma_key_index_from, lemma_key_index_same_keys, lookup,
};
use crate::ast::{BinaryOp, Block, ElseClause, ExprKind, Stmt, UnaryOp};
use crate::lower::{
    capitalized, default_value_for_type, default_value_text, generator_struct_name,
    resolve_type_annotation, resolved_type, Diagnostic, TypeAnnotation,
    block_yields, body_contains_yield, format_state_machine, has_while_with_yield,
    state_machine_text, while_with_yield, GeneratorState,
};
use crate::rust_ir::{
    copy_type, type_view, RustBlock, RustExpr, RustField, RustItem, RustMethod, RustParam,
    RustSelfParam, RustType, TypeView,
};
use crate::text::{
    chars_of, decimal, decimal_chars, join, join_chars, push_all, push_str, split_sep, split_str,
    string_of, views,
};

verus! {

// ---------------------------------------------------------------------------
// Emitting expressions and statements
// ---------------------------------------------------------------------------

/// The line break between statements of a state.
pub open spec fn nl() -> Seq<char> {
    "\n                        "@
}

/// The line break before the closing brace of a state's `if`.
pub open spec fn nl_close() -> Seq<char> {
    "\n                    "@
}

/// The decimal text of an `i64`, as `to_string` gives it.
pub open spec fn int_text(v: i64) -> Seq<char> {
    if v < 0 {
        "-"@ + decimal((0 - v) as nat)
    } else {
        decimal(v as nat)
    }
}

/// The Rust text of a binary operator; `+` for those the emitter does not
/// support.
pub open spec fn binop_text(op: BinaryOp) -> Seq<char> {
    match op {
        BinaryOp::Sub => "-"@,
        BinaryOp::Mul => "*"@,
        BinaryOp::Div => "/"@,
        BinaryOp::Mod => "%"@,
        BinaryOp::Eq => "=="@,
        BinaryOp::Ne => "!="@,
        BinaryOp::Lt => "<"@,
        BinaryOp::Gt => ">"@,
        BinaryOp::Le => "<="@,
        BinaryOp::Ge => ">="@,
        BinaryOp::And => "&&"@,
        BinaryOp::Or => "||"@,
        _ => "+"@,
    }
}

/// The Rust text of an expression in a state machine body.
pub open spec fn expr_code(e: ExprKind) -> Seq<char>
    decreases e, 0int,
{
    match e {
        ExprKind::Ident(n) => "self."@ + n@,
        ExprKind::IntLit(v) => int_text(v),
        ExprKind::FloatLit(t) => t@,
        ExprKind::BoolLit(b) => if b { "true"@ } else { "false"@ },
        ExprKind::StringLit(s) => "\""@ + s@ + "\".to_string()"@,
        ExprKind::Binary(op, l, r) => expr_code(*l) + " "@ + binop_text(op) + " "@ + expr_code(*r),
        ExprKind::Unary(op, x) => (match op {
            UnaryOp::Neg => "-"@,
            _ => "!"@,
        }) + expr_code(*x),
        ExprKind::Assign { target, value } => "self."@ + target@ + " = "@ + expr_code(*value),
        ExprKind::Call { callee, args } => callee@ + "("@ + join(expr_codes(args@), ", "@) + ")"@,
        ExprKind::Paren(x) => "("@ + expr_code(*x) + ")"@,
        _ => "/* unsupported expr */"@,
    }
}

/// The texts of a list of expressions.
pub open spec fn expr_codes(es: Seq<ExprKind>) -> Seq<Seq<char>>
    decreases es, 0int,
{
    if es.len() == 0 {
        Seq::empty()
    } else {
        expr_codes(es.drop_last()).push(expr_code(es.last()))
    }
}

/// The compound assignment operator for an arithmetic operator.
pub open spec fn compound_text(op: BinaryOp) -> Option<Seq<char>> {
    match op {
        BinaryOp::Add => Some("+="@),
        BinaryOp::Sub => Some("-="@),
        BinaryOp::Mul => Some("*="@),
        BinaryOp::Div => Some("/="@),
        BinaryOp::Mod => Some("%="@),
        _ => None,
    }
}

/// The statement `target = value;`, as `target op= rhs;` when the value is
/// `target op rhs` for an arithmetic `op`.
pub open spec fn assign_code(target: Seq<char>, value: ExprKind) -> Seq<char> {
    let plain = "self."@ + target + " = "@ + expr_code(value) + ";"@;
    match value {
        ExprKind::Binary(op, l, r) => match *l {
            ExprKind::Ident(n) => if n@ == target {
                match compound_text(op) {
                    Some(c) => "self."@ + target + " "@ + c + " "@ + expr_code(*r) + ";"@,
                    None => plain,
                }
            } else {
                plain
            },
            _ => plain,
        },
        _ => plain,
    }
}

/// The Rust text of a statement in a state machine body.
pub open spec fn stmt_code(s: Stmt) -> Seq<char> {
    match s {
        Stmt::Expr(e) => match e {
            ExprKind::Assign { target, value } => assign_code(target@, *value),
            _ => expr_code(e) + ";"@,
        },
        Stmt::VarDecl { name, type_ann, init } => "self."@ + name@ + " = "@ + expr_code(init) + ";"@,
        Stmt::Return(v) => match v {
            Some(x) => "return Some("@ + expr_code(x) + ");"@,
            None => "return None;"@,
        },
        _ => "/* unsupported stmt */"@,
    }
}

/// The texts of a list of statements.
pub open spec fn stmt_codes(ss: Seq<Stmt>) -> Seq<Seq<char>> {
    ss.map_values(|s: Stmt| stmt_code(s))
}

fn int_chars(v: i64) -> (r: Vec<char>)
    ensures
        r@ == int_text(v),
{
    if v < 0 {
        let mut out = chars_of("-");
        let magnitude = (0 - (v as i128)) as u128;
        let digits = decimal_chars(magnitude);
        push_all(&mut out, &digits);
        out
    } else {
        decimal_chars(v as u128)
    }
}

fn binop_str(op: BinaryOp) -> (r: &'static str)
    ensures
        r@ == binop_text(op),
{
    match op {
        BinaryOp::Sub => "-",
        BinaryOp::Mul => "*",
        BinaryOp::Div => "/",
        BinaryOp::Mod => "%",
        BinaryOp::Eq => "==",
        BinaryOp::Ne => "!=",
        BinaryOp::Lt => "<",
        BinaryOp::Gt => ">",
        BinaryOp::Le => "<=",
        BinaryOp::Ge => ">=",
        BinaryOp::And => "&&",
        BinaryOp::Or => "||",
        _ => "+",
    }
}

fn expr_chars(e: &ExprKind) -> (r: Vec<char>)
    ensures
        r@ == expr_code(*e),
    decreases e, 0int,
{
    match e {
        ExprKind::Ident(n) => {
            let mut out = chars_of("self.");
            push_str(&mut out, n.as_str());
            out
        },
        ExprKind::IntLit(v) => int_chars(*v),
        ExprKind::FloatLit(t) => chars_of(t.as_str()),
        ExprKind::BoolLit(b) => if *b {
            chars_of("true")
        } else {
            chars_of("false")
        },
        ExprKind::StringLit(s) => {
            let mut out = chars_of("\"");
            push_str(&mut out, s.as_str());
            push_str(&mut out, "\".to_string()");
            out
        },
        ExprKind::Binary(op, l, r) => {
            let mut out = expr_chars(l);
            push_str(&mut out, " ");
            push_str(&mut out, binop_str(*op));
            push_str(&mut out, " ");
            let right = expr_chars(r);
            push_all(&mut out, &right);
            out
        },
        ExprKind::Unary(op, x) => {
            let mut out = match op {
                UnaryOp::Neg => chars_of("-"),
                _ => chars_of("!"),
            };
            let inner = expr_chars(x);
            push_all(&mut out, &inner);
            out
        },
        ExprKind::Assign { target, value } => {
            let mut out = chars_of("self.");
            push_str(&mut out, target.as_str());
            push_str(&mut out, " = ");
            let v = expr_chars(value);
            push_all(&mut out, &v);
            out
        },
        ExprKind::Call { callee, args } => {
            let mut out = chars_of(callee.as_str());
            push_str(&mut out, "(");
            let codes = expr_list_chars(args);
            let joined = join_chars(&codes, ", ");
            push_all(&mut out, &joined);
            push_str(&mut out, ")");
            out
        },
        ExprKind::Paren(x) => {
            let mut out = chars_of("(");
            let inner = expr_chars(x);
            push_all(&mut out, &inner);
            push_str(&mut out, ")");
            out
        },
        _ => chars_of("/* unsupported expr */"),
    }
}

fn expr_list_chars(es: &Vec<ExprKind>) -> (r: Vec<Vec<char>>)
    ensures
        views(r@) == expr_codes(es@),
    decreases es, 0int,
{
    let mut out: Vec<Vec<char>> = Vec::new();
    let mut k: usize = 0;
    while k < es.len()
        invariant
            k <= es.len(),
            views(out@) == expr_codes(es@.take(k as int)),
        decreases es.len() - k,
    {
        proof {
            assert(decreases_to!(es => es@));
            assert(decreases_to!(es@ => es@[k as int]));
        }
        let c = expr_chars(&es[k]);
        let ghost before = views(out@);
        out.push(c);
        assert(views(out@) =~= before.push(c@));
        assert(es@.take(k + 1).drop_last() =~= es@.take(k as int));
        k = k + 1;
    }
    assert(es@.take(es.len() as int) =~= es@);
    out
}

/// Emit an expression as the Rust text of a state machine body.
pub fn emit_expr_to_string(expr: &ExprKind) -> (r: String)
    ensures
        r@ == expr_code(*expr),
{
    let v = expr_chars(expr);
    string_of(&v)
}

fn compound_str(op: BinaryOp) -> (r: Option<&'static str>)
    ensures
        match r {
            Some(s) => compound_text(op) == Some(s@),
            None => compound_text(op) is None,
        },
{
    match op {
        BinaryOp::Add => Some("+="),
        BinaryOp::Sub => Some("-="),
        BinaryOp::Mul => Some("*="),
        BinaryOp::Div => Some("/="),
        BinaryOp::Mod => Some("%="),
        _ => None,
    }
}

fn assign_chars(target: &String, value: &ExprKind) -> (r: Vec<char>)
    ensures
        r@ == assign_code(target@, *value),
{
    let mut plain = chars_of("self.");
    push_str(&mut plain, target.as_str());
    push_str(&mut plain, " = ");
    let v = expr_chars(value);
    push_all(&mut plain, &v);
    push_str(&mut plain, ";");
    match value {
        ExprKind::Binary(op, l, r) => match &**l {
            ExprKind::Ident(n) => {
                if *n == *target {
                    match compound_str(*op) {
                        Some(c) => {
                            let mut out = chars_of("self.");
                            push_str(&mut out, target.as_str());
                            push_str(&mut out, " ");
                            push_str(&mut out, c);
                            push_str(&mut out, " ");
                            let rhs = expr_chars(r);
                            push_all(&mut out, &rhs);
                            push_str(&mut out, ";");
                            out
                        },
                        None => plain,
                    }
                } else {
                    plain
                }
            },
            _ => plain,
        },
        _ => plain,
    }
}

fn stmt_chars(s: &Stmt) -> (r: Vec<char>)
    ensures
        r@ == stmt_code(*s),
{
    match s {
        Stmt::Expr(e) => match e {
            ExprKind::Assign { target, value } => assign_chars(target, value),
            _ => {
                let mut out = expr_chars(e);
                push_str(&mut out, ";");
                out
            },
        },
        Stmt::VarDecl { name, type_ann, init } => {
            let mut out = chars_of("self.");
            push_str(&mut out, name.as_str());
            push_str(&mut out, " = ");
            let v = expr_chars(init);
            push_all(&mut out, &v);
            push_str(&mut out, ";");
            out
        },
        Stmt::Return(v) => match v {
            Some(x) => {
                let mut out = chars_of("return Some(");
                let c = expr_chars(x);
                push_all(&mut out, &c);
                push_str(&mut out, ");");
                out
            },
            None => chars_of("return None;"),
        },
        _ => chars_of("/* unsupported stmt */"),
    }
}

/// Emit a statement as the Rust text of a state machine body.
pub fn emit_stmt_to_string(stmt: &Stmt) -> (r: String)
    ensures
        r@ == stmt_code(*stmt),
{
    let v = stmt_chars(stmt);
    string_of(&v)
}

// ---------------------------------------------------------------------------
// States
// ---------------------------------------------------------------------------

/// The states as index and code.
pub open spec fn state_views(v: Seq<GeneratorState>) -> Seq<(u32, Seq<char>)> {
    v.map_values(|s: GeneratorState| (s.index, s.code@))
}

/// `code` appended to `acc` on a new line (no line break when `acc` is empty).
pub open spec fn then_nl(acc: Seq<char>, code: Seq<char>) -> Seq<char> {
    if acc.len() == 0 {
        code
    } else {
        acc + nl() + code
    }
}

/// Straight-line code read so far: the finished states, the code since
/// the last `yield`, and the number of the state being built.
pub struct SeqAcc {
    pub states: Seq<(u32, Seq<char>)>,
    pub pending: Seq<char>,
    pub index: nat,
}

/// One statement of straight-line code: a `yield` closes the current state,
/// which moves to the next one and returns the value; any other statement
/// is added to the current state's code.
pub open spec fn seq_step(a: SeqAcc, s: Stmt) -> SeqAcc {
    match s {
        Stmt::Expr(ExprKind::Yield(inner)) => {
            let next = a.index + 1;
            let head = if a.pending.len() == 0 { Seq::empty() } else { a.pending + nl() };
            let code = head + "self._state = "@ + decimal(next) + ";"@ + nl() + "return Some("@
                + expr_code(*inner) + ");"@;
            SeqAcc { states: a.states.push((a.index as u32, code)), pending: Seq::empty(), index: next }
        },
        _ => SeqAcc { states: a.states, pending: then_nl(a.pending, stmt_code(s)), index: a.index },
    }
}

/// Straight-line code after the given statements.
pub open spec fn seq_fold(ss: Seq<Stmt>) -> SeqAcc
    decreases ss.len(),
{
    if ss.len() == 0 {
        SeqAcc { states: Seq::empty(), pending: Seq::empty(), index: 0 }
    } else {
        seq_step(seq_fold(ss.drop_last()), ss.last())
    }
}

/// The states of straight-line generator code: one per `yield`, and a last
/// one that runs what follows the last `yield` and ends the generator.
pub open spec fn sequential_states(ss: Seq<Stmt>) -> Seq<(u32, Seq<char>)> {
    let a = seq_fold(ss);
    let last = if a.pending.len() == 0 { "return None;"@ } else { a.pending + nl() + "return None;"@ };
    a.states.push((a.index as u32, last))
}

proof fn lemma_seq_fold_numbered(ss: Seq<Stmt>)
    requires
        ss.len() < 0xffff_ffff,
    ensures
        seq_fold(ss).index <= ss.len(),
        seq_fold(ss).states.len() == seq_fold(ss).index,
        forall|i: int| 0 <= i < seq_fold(ss).states.len() ==> #[trigger] seq_fold(ss).states[i].0 == i,
    decreases ss.len(),
{
    if ss.len() > 0 {
        lemma_seq_fold_numbered(ss.drop_last());
    }
}

/// Straight-line generator code becomes states numbered 0, 1, 2, ... in
/// order: one for each `yield`, and the last one that ends the generator.
pub proof fn lemma_sequential_states_numbered(ss: Seq<Stmt>)
    requires
        ss.len() < 0xffff_ffff,
    ensures
        sequential_states(ss).len() == seq_fold(ss).index + 1,
        forall|i: int| 0 <= i < sequential_states(ss).len() ==> #[trigger] sequential_states(ss)[i].0 == i,
{
    lemma_seq_fold_numbered(ss);
}

/// Analyze straight-line generator code (no loop) into states.
pub fn analyze_sequential_pattern(stmts: &[Stmt]) -> (r: Vec<GeneratorState>)
    requires
        stmts@.len() < 0xffff_ffff,
    ensures
        state_views(r@) == sequential_states(stmts@),
{
    let mut states: Vec<GeneratorState> = Vec::new();
    let mut pending: Vec<char> = Vec::new();
    let mut index: u32 = 0;
    let mut k: usize = 0;
    while k < stmts.len()
        invariant
            k <= stmts.len(),
            stmts@.len() < 0xffff_ffff,
            state_views(states@) == seq_fold(stmts@.take(k as int)).states,
            pending@ == seq_fold(stmts@.take(k as int)).pending,
            index as nat == seq_fold(stmts@.take(k as int)).index,
            index <= k,
        decreases stmts.len() - k,
    {
        proof {
            assert(stmts@.take(k + 1).drop_last() =~= stmts@.take(k as int));
            assert(stmts@.take(k + 1).last() == stmts@[k as int]);
        }
        match &stmts[k] {
            Stmt::Expr(ExprKind::Yield(inner)) => {
                let next = index + 1;
                let mut code: Vec<char> = Vec::new();
                if pending.len() > 0 {
                    push_all(&mut code, &pending);
                    push_str(&mut code, "\n                        ");
                }
                push_str(&mut code, "self._state = ");
                let digits = decimal_chars(next as u128);
                push_all(&mut code, &digits);
                push_str(&mut code, ";");
                push_str(&mut code, "\n                        ");
                push_str(&mut code, "return Some(");
                let value = expr_chars(inner);
                push_all(&mut code, &value);
                push_str(&mut code, ");");
                let ghost before = state_views(states@);
                let st = GeneratorState { index, code: string_of(&code) };
                states.push(st);
                assert(state_views(states@) =~= before.push((index, code@)));
                proof {
                    let a = seq_fold(stmts@.take(k as int));
                    let head = if a.pending.len() == 0 { Seq::empty() } else { a.pending + nl() };
                    assert(code@ =~= head + "self._state = "@ + decimal(a.index + 1) + ";"@ + nl()
                        + "return Some("@ + expr_code(**inner) + ");"@);
                }
                pending = Vec::new();
                index = next;
            },
            other => {
                let c = stmt_chars(other);
                if pending.len() > 0 {
                    push_str(&mut pending, "\n                        ");
                }
                push_all(&mut pending, &c);
            },
        }
        k = k + 1;
    }
    assert(stmts@.take(stmts@.len() as int) =~= stmts@);
    let mut last: Vec<char> = Vec::new();
    if pending.len() > 0 {
        push_all(&mut last, &pending);
        push_str(&mut last, "\n                        ");
    }
    push_str(&mut last, "return None;");
    let ghost before = state_views(states@);
    states.push(GeneratorState { index, code: string_of(&last) });
    assert(state_views(states@) =~= before.push((index, last@)));
    states
}


/// `s` with every occurrence of `from` replaced by `to`, left to right
/// (`str::replace`).
pub open spec fn replace_all(s: Seq<char>, from: Seq<char>, to: Seq<char>) -> Seq<char> {
    join(split_sep(s, from), to)
}

/// Index of the first statement from `i` on that is a `yield`.
pub open spec fn first_yield_from(ss: Seq<Stmt>, i: int) -> Option<int>
    decreases ss.len() - i,
{
    if i < 0 || i >= ss.len() {
        None
    } else if ss[i] matches Stmt::Expr(ExprKind::Yield(_)) {
        Some(i)
    } else {
        first_yield_from(ss, i + 1)
    }
}

/// The text of the value a `yield` statement yields.
pub open spec fn yielded_code(s: Stmt) -> Seq<char> {
    match s {
        Stmt::Expr(ExprKind::Yield(inner)) => expr_code(*inner),
        _ => Seq::empty(),
    }
}

/// The code of a state that runs `post` and goes back to state `loop_state`.
pub open spec fn post_state(index: u32, loop_state: u32, post: Seq<Stmt>) -> (u32, Seq<char>) {
    let post_code = join(stmt_codes(post), nl());
    let back = "self._state = "@ + decimal(loop_state as nat) + ";"@ + nl() + "continue;"@;
    (index, if post_code.len() == 0 { back } else { post_code + nl() + back })
}

/// The state that checks the loop condition: it runs the statements before
/// the `yield`, moves to state 1 and yields; or ends the generator.
pub open spec fn yield_body(condition: Seq<char>, pre: Seq<Stmt>, yielded: Seq<char>) -> Seq<char> {
    let pre_yield_code = join(stmt_codes(pre), nl());
    let pre_code = if pre_yield_code.len() == 0 { Seq::empty() } else { pre_yield_code + nl() };
    "if "@ + condition + " {"@ + nl() + pre_code + "self._state = 1;"@ + nl() + "return Some("@ + yielded
        + ");"@ + nl_close() + "} else {"@ + nl() + "return None;"@ + nl_close() + "}"@
}

/// The states a yielding `while` loop adds, given the code before it.
pub open spec fn loop_states(pre_while: Seq<char>, condition: ExprKind, body: Seq<Stmt>) -> Seq<(u32, Seq<char>)> {
    let (pre, yielded, post) = match first_yield_from(body, 0) {
        Some(f) => (body.take(f), yielded_code(body[f]), body.skip(f + 1)),
        None => (body, Seq::<char>::empty(), Seq::<Stmt>::empty()),
    };
    let yb = yield_body(expr_code(condition), pre, yielded);
    if pre_while.len() == 0 {
        seq![(0u32, yb), post_state(1, 0, post)]
    } else {
        seq![
            (0u32, pre_while + nl() + "self._state = 1;"@ + nl() + "continue;"@),
            (1u32, replace_all(yb, "self._state = 1"@, "self._state = 2"@)),
            post_state(2, 1, post),
        ]
    }
}

/// A loop body read so far: the states, the code before the first yielding
/// loop, and whether such a loop was met.
pub struct LoopAcc {
    pub states: Seq<(u32, Seq<char>)>,
    pub pre_while: Seq<char>,
    pub found: bool,
}

/// One statement of a generator body with a yielding loop: each yielding
/// `while` adds its states; statements before the first one are collected
/// as initial code; later statements are dropped.
pub open spec fn loop_step(a: LoopAcc, s: Stmt) -> LoopAcc {
    let other = if a.found { a } else {
        LoopAcc { states: a.states, pre_while: then_nl(a.pre_while, stmt_code(s)), found: false }
    };
    match s {
        Stmt::While { condition, body } => if block_yields(body) {
            LoopAcc {
                states: a.states + loop_states(a.pre_while, condition, body.stmts@),
                pre_while: a.pre_while,
                found: true,
            }
        } else {
            other
        },
        _ => other,
    }
}

/// A generator body with a yielding loop, read up to the given statements.
pub open spec fn loop_fold(ss: Seq<Stmt>) -> LoopAcc
    decreases ss.len(),
{
    if ss.len() == 0 {
        LoopAcc { states: Seq::empty(), pre_while: Seq::empty(), found: false }
    } else {
        loop_step(loop_fold(ss.drop_last()), ss.last())
    }
}

/// The states of a generator body with a yielding loop; a single ending
/// state when nothing produced one.
pub open spec fn loop_pattern_states(ss: Seq<Stmt>) -> Seq<(u32, Seq<char>)> {
    let a = loop_fold(ss);
    if a.states.len() == 0 {
        seq![(0u32, "return None;"@)]
    } else {
        a.states
    }
}

/// The states of a generator body: the loop pattern when a `while` loop
/// yields, straight-line code otherwise.
pub open spec fn generator_states(ss: Seq<Stmt>) -> Seq<(u32, Seq<char>)> {
    if while_with_yield(ss) {
        loop_pattern_states(ss)
    } else {
        sequential_states(ss)
    }
}

fn stmt_list_chars(ss: &[Stmt], lo: usize, hi: usize) -> (r: Vec<Vec<char>>)
    requires
        lo <= hi <= ss@.len(),
    ensures
        views(r@) == stmt_codes(ss@.subrange(lo as int, hi as int)),
{
    let mut out: Vec<Vec<char>> = Vec::new();
    let mut k: usize = lo;
    while k < hi
        invariant
            lo <= k <= hi,
            hi <= ss@.len(),
            views(out@) == stmt_codes(ss@.subrange(lo as int, k as int)),
        decreases hi - k,
    {
        let c = stmt_chars(&ss[k]);
        let ghost before = views(out@);
        out.push(c);
        assert(views(out@) =~= before.push(c@));
        assert(stmt_codes(ss@.subrange(lo as int, k + 1)) =~= stmt_codes(ss@.subrange(lo as int, k as int)).push(
            stmt_code(ss@[k as int]),
        ));
        k = k + 1;
    }
    out
}

/// Push a state that runs the statements `body[from..]` and goes back to
/// state `loop_state`.
pub fn push_post_yield_state(states: &mut Vec<GeneratorState>, state_idx: u32, loop_state: u32, body: &[Stmt], from: usize)
    requires
        from <= body@.len(),
    ensures
        state_views(final(states)@) == state_views(old(states)@).push(
            post_state(state_idx, loop_state, body@.skip(from as int)),
        ),
{
    let codes = stmt_list_chars(body, from, body.len());
    assert(body@.subrange(from as int, body@.len() as int) =~= body@.skip(from as int));
    let post_code = join_chars(&codes, "\n                        ");
    let mut code: Vec<char> = Vec::new();
    if post_code.len() > 0 {
        push_all(&mut code, &post_code);
        push_str(&mut code, "\n                        ");
    }
    push_str(&mut code, "self._state = ");
    let digits = decimal_chars(loop_state as u128);
    push_all(&mut code, &digits);
    push_str(&mut code, ";");
    push_str(&mut code, "\n                        ");
    push_str(&mut code, "continue;");
    proof {
        let pc = join(stmt_codes(body@.skip(from as int)), nl());
        assert(post_code@ == pc);
        let back = "self._state = "@ + decimal(loop_state as nat) + ";"@ + nl() + "continue;"@;
        if pc.len() == 0 {
            assert(code@ =~= back);
        } else {
            assert(code@ =~= pc + nl() + back);
        }
    }
    let ghost before = state_views(states@);
    states.push(GeneratorState { index: state_idx, code: string_of(&code) });
    assert(state_views(states@) =~= before.push((state_idx, code@)));
}

fn first_yield_index(ss: &[Stmt]) -> (r: Option<usize>)
    ensures
        match r {
            Some(f) => first_yield_from(ss@, 0) == Some(f as int) && f < ss@.len(),
            None => first_yield_from(ss@, 0) is None,
        },
{
    let mut k: usize = 0;
    while k < ss.len()
        invariant
            k <= ss.len(),
            first_yield_from(ss@, k as int) == first_yield_from(ss@, 0),
        decreases ss.len() - k,
    {
        match &ss[k] {
            Stmt::Expr(ExprKind::Yield(_)) => {
                return Some(k);
            },
            _ => {},
        }
        k = k + 1;
    }
    None
}

/// The states a yielding `while` loop adds, given the code before it.
#[verifier::spinoff_prover]
#[verifier::rlimit(40)]
fn push_loop_states(states: &mut Vec<GeneratorState>, pre_while: &Vec<char>, condition: &ExprKind, body: &Vec<Stmt>)
    ensures
        state_views(final(states)@) == state_views(old(states)@) + loop_states(pre_while@, *condition, body@),
{
    let ghost start = state_views(states@);
    let cond = expr_chars(condition);
    let n = body.len();
    let (pre_end, yielded, post_from) = match first_yield_index(body.as_slice()) {
        Some(f) => {
            assert(f < n);
            let y = match &body[f] {
                Stmt::Expr(ExprKind::Yield(inner)) => expr_chars(inner),
                _ => Vec::new(),
            };
            (f, y, f + 1)
        },
        None => (body.len(), Vec::new(), body.len()),
    };
    let pre_codes = stmt_list_chars(body.as_slice(), 0, pre_end);
    let pre_yield_code = join_chars(&pre_codes, "\n                        ");
    let mut yb = chars_of("if ");
    push_all(&mut yb, &cond);
    push_str(&mut yb, " {");
    push_str(&mut yb, "\n                        ");
    if pre_yield_code.len() > 0 {
        push_all(&mut yb, &pre_yield_code);
        push_str(&mut yb, "\n                        ");
    }
    push_str(&mut yb, "self._state = 1;");
    push_str(&mut yb, "\n                        ");
    push_str(&mut yb, "return Some(");
    push_all(&mut yb, &yielded);
    push_str(&mut yb, ");");
    push_str(&mut yb, "\n                    ");
    push_str(&mut yb, "} else {");
    push_str(&mut yb, "\n                        ");
    push_str(&mut yb, "return None;");
    push_str(&mut yb, "\n                    ");
    push_str(&mut yb, "}");
    proof {
        let (pre, y, post) = match first_yield_from(body@, 0) {
            Some(f) => (body@.take(f), yielded_code(body@[f]), body@.skip(f + 1)),
            None => (body@, Seq::<char>::empty(), Seq::<Stmt>::empty()),
        };
        assert(body@.subrange(0, pre_end as int) =~= pre);
        assert(yielded@ == y);
        assert(body@.skip(post_from as int) =~= post);
        assert(yb@ =~= yield_body(expr_code(*condition), pre, y));
    }
    if pre_while.len() == 0 {
        let ghost before = state_views(states@);
        states.push(GeneratorState { index: 0, code: string_of(&yb) });
        assert(state_views(states@) =~= before.push((0u32, yb@)));
        push_post_yield_state(states, 1, 0, body.as_slice(), post_from);
    } else {
        let mut init: Vec<char> = Vec::new();
        push_all(&mut init, pre_while);
        push_str(&mut init, "\n                        ");
        push_str(&mut init, "self._state = 1;");
        push_str(&mut init, "\n                        ");
        push_str(&mut init, "continue;");
        let ghost before = state_views(states@);
        states.push(GeneratorState { index: 0, code: string_of(&init) });
        assert(state_views(states@) =~= before.push((0u32, init@)));
        proof {
            reveal_strlit("self._state = 1");
        }
        let pieces = split_str(&yb, "self._state = 1");
        let replaced = join_chars(&pieces, "self._state = 2");
        let ghost before2 = state_views(states@);
        states.push(GeneratorState { index: 1, code: string_of(&replaced) });
        assert(state_views(states@) =~= before2.push((1u32, replaced@)));
        push_post_yield_state(states, 2, 1, body.as_slice(), post_from);
    }
    assert(state_views(states@) =~= start + loop_states(pre_while@, *condition, body@));
}

/// Analyze a generator body whose `while` loop yields into states.
pub fn analyze_while_yield_pattern(stmts: &[Stmt]) -> (r: Vec<GeneratorState>)
    ensures
        state_views(r@) == loop_pattern_states(stmts@),
{
    let mut states: Vec<GeneratorState> = Vec::new();
    let mut pre_while: Vec<char> = Vec::new();
    let mut found = false;
    let mut k: usize = 0;
    while k < stmts.len()
        invariant
            k <= stmts.len(),
            state_views(states@) == loop_fold(stmts@.take(k as int)).states,
            pre_while@ == loop_fold(stmts@.take(k as int)).pre_while,
            found == loop_fold(stmts@.take(k as int)).found,
        decreases stmts.len() - k,
    {
        proof {
            assert(stmts@.take(k + 1).drop_last() =~= stmts@.take(k as int));
            assert(stmts@.take(k + 1).last() == stmts@[k as int]);
        }
        let mut handled = false;
        match &stmts[k] {
            Stmt::While { condition, body } => {
                if body_contains_yield(body) {
                    push_loop_states(&mut states, &pre_while, condition, &body.stmts);
                    found = true;
                    handled = true;
                }
            },
            _ => {},
        }
        if !handled && !found {
            let c = stmt_chars(&stmts[k]);
            if pre_while.len() > 0 {
                push_str(&mut pre_while, "\n                        ");
            }
            push_all(&mut pre_while, &c);
        }
        k = k + 1;
    }
    assert(stmts@.take(stmts@.len() as int) =~= stmts@);
    if states.len() == 0 {
        states.push(GeneratorState { index: 0, code: "return None;".to_owned() });
        assert(state_views(states@) =~= seq![(0u32, "return None;"@)]);
    }
    states
}

/// Analyze a generator body into states: the loop pattern when a `while`
/// loop yields, straight-line code otherwise.
pub fn analyze_generator_body(stmts: &[Stmt]) -> (r: Vec<GeneratorState>)
    requires
        stmts@.len() < 0xffff_ffff,
    ensures
        state_views(r@) == generator_states(stmts@),
{
    if has_while_with_yield(stmts) {
        analyze_while_yield_pattern(stmts)
    } else {
        analyze_sequential_pattern(stmts)
    }
}

/// Build the `loop { match self._state { .. } }` body of a generator's
/// `next()` from the generator function's body.
pub fn build_state_machine_body(body: &Block) -> (r: String)
    requires
        body.stmts@.len() < 0xffff_ffff,
    ensures
        exists|states: Seq<GeneratorState>| state_views(states) == generator_states(body.stmts@)
            && r@ == state_machine_text(states),
{
    let states = analyze_generator_body(body.stmts.as_slice());
    let r = format_state_machine(states.as_slice());
    assert(state_views(states@) == generator_states(body.stmts@) && r@ == state_machine_text(states@));
    r
}


// ---------------------------------------------------------------------------
// Generator locals
// ---------------------------------------------------------------------------

/// Names with the values of their types.
pub open spec fn typed_entries(v: Seq<(String, RustType)>) -> Seq<(Seq<char>, TypeView)> {
    v.map_values(|p: (String, RustType)| (p.0@, type_view(p.1)))
}

/// The type that an annotation resolves to (`i64` for an unknown name).
pub open spec fn annotation_type(ta: TypeAnnotation) -> RustType {
    match ta {
        TypeAnnotation::Void => RustType::Unit,
        TypeAnnotation::Named(n) => match resolved_type(n@) {
            Some(t) => t,
            None => RustType::I64,
        },
    }
}

/// The type of a local without annotation, from its initializer: the type of
/// the parameter, else of the earlier local, that an identifier names, `f64`,
/// `bool` and `String` for those literals, and `i32` otherwise.
pub open spec fn inferred_local_type(
    init: ExprKind,
    params: Seq<(Seq<char>, TypeView)>,
    locals: Seq<(Seq<char>, TypeView)>,
) -> TypeView {
    match init {
        ExprKind::Ident(x) => match lookup(params, x@) {
            Some(t) => t,
            None => match lookup(locals, x@) {
                Some(t) => t,
                None => TypeView::I32,
            },
        },
        ExprKind::FloatLit(_) => TypeView::F64,
        ExprKind::BoolLit(_) => TypeView::Bool,
        ExprKind::StringLit(_) => TypeView::String,
        _ => TypeView::I32,
    }
}

/// The locals after a statement, given those before: a declaration of a
/// name that is neither a parameter nor an earlier local is added with its
/// type; the bodies of loops, the first block of an `if` and a plain `else`
/// block are looked into.
pub open spec fn stmt_locals(
    s: Stmt,
    params: Seq<(Seq<char>, TypeView)>,
    acc: Seq<(Seq<char>, TypeView)>,
) -> Seq<(Seq<char>, TypeView)>
    decreases s, 0int,
{
    match s {
        Stmt::VarDecl { name, type_ann, init } => if key_index(params, name@) is Some
            || key_index(acc, name@) is Some {
            acc
        } else {
            acc.push((name@, match type_ann {
                Some(ta) => type_view(annotation_type(ta)),
                None => inferred_local_type(init, params, acc),
            }))
        },
        Stmt::While { condition, body } => locals_after(body.stmts@, params, acc),
        Stmt::DoWhile { body, condition } => locals_after(body.stmts@, params, acc),
        Stmt::If(i) => match i.else_clause {
            Some(ElseClause::Block(b)) => locals_after(b.stmts@, params, locals_after(i.then_block.stmts@, params, acc)),
            _ => locals_after(i.then_block.stmts@, params, acc),
        },
        Stmt::For { iterable, body } => locals_after(body.stmts@, params, acc),
        Stmt::ForIn { iterable, body } => locals_after(body.stmts@, params, acc),
        _ => acc,
    }
}

/// The locals after a list of statements, taken in order.
pub open spec fn locals_after(
    ss: Seq<Stmt>,
    params: Seq<(Seq<char>, TypeView)>,
    acc: Seq<(Seq<char>, TypeView)>,
) -> Seq<(Seq<char>, TypeView)>
    decreases ss, 0int,
{
    if ss.len() == 0 {
        acc
    } else {
        locals_after(ss.drop_first(), params, stmt_locals(ss[0], params, acc))
    }
}


/// No name occurs twice among the locals, and none is a parameter's.
pub open spec fn fresh_locals(params: Seq<(Seq<char>, TypeView)>, locals: Seq<(Seq<char>, TypeView)>) -> bool {
    &&& keys_unique(locals)
    &&& forall|i: int| 0 <= i < locals.len() ==> key_index(params, #[trigger] locals[i].0) is None
}

/// A statement keeps the locals fresh, and keeps those already found, in
/// front.
pub proof fn lemma_stmt_locals_fresh(
    s: Stmt,
    params: Seq<(Seq<char>, TypeView)>,
    acc: Seq<(Seq<char>, TypeView)>,
)
    requires
        fresh_locals(params, acc),
    ensures
        fresh_locals(params, stmt_locals(s, params, acc)),
        stmt_locals(s, params, acc).len() >= acc.len(),
        stmt_locals(s, params, acc).take(acc.len() as int) == acc,
    decreases s, 0int,
{
    match s {
        Stmt::VarDecl { name, type_ann, init } => {
            lemma_key_index_from(acc, name@, 0);
            let r = stmt_locals(s, params, acc);
            assert(r.take(acc.len() as int) =~= acc);
        },
        Stmt::While { condition, body } => lemma_locals_after_fresh(body.stmts@, params, acc),
        Stmt::DoWhile { body, condition } => lemma_locals_after_fresh(body.stmts@, params, acc),
        Stmt::If(i) => {
            lemma_locals_after_fresh(i.then_block.stmts@, params, acc);
            let mid = locals_after(i.then_block.stmts@, params, acc);
            match i.else_clause {
                Some(ElseClause::Block(b)) => {
                    lemma_locals_after_fresh(b.stmts@, params, mid);
                    let r = locals_after(b.stmts@, params, mid);
                    assert(r.take(acc.len() as int) =~= mid.take(mid.len() as int).take(acc.len() as int));
                },
                _ => {},
            }
        },
        Stmt::For { iterable, body } => lemma_locals_after_fresh(body.stmts@, params, acc),
        Stmt::ForIn { iterable, body } => lemma_locals_after_fresh(body.stmts@, params, acc),
        _ => {
            assert(acc.take(acc.len() as int) =~= acc);
        },
    }
}

/// The locals of a statement list stay fresh, with those already found in
/// front.
pub proof fn lemma_locals_after_fresh(
    ss: Seq<Stmt>,
    params: Seq<(Seq<char>, TypeView)>,
    acc: Seq<(Seq<char>, TypeView)>,
)
    requires
        fresh_locals(params, acc),
    ensures
        fresh_locals(params, locals_after(ss, params, acc)),
        locals_after(ss, params, acc).len() >= acc.len(),
        locals_after(ss, params, acc).take(acc.len() as int) == acc,
    decreases ss, 0int,
{
    if ss.len() == 0 {
        assert(acc.take(acc.len() as int) =~= acc);
    } else {
        lemma_stmt_locals_fresh(ss[0], params, acc);
        let mid = stmt_locals(ss[0], params, acc);
        lemma_locals_after_fresh(ss.drop_first(), params, mid);
        let r = locals_after(ss.drop_first(), params, mid);
        assert(r.take(acc.len() as int) =~= r.take(mid.len() as int).take(acc.len() as int));
    }
}

/// The type of an entry of the list, by position, as the lookup finds it.
fn entry_type(entries: &Vec<(String, RustType)>, name: &String) -> (r: Option<RustType>)
    ensures
        match r {
            Some(t) => lookup(typed_entries(entries@), name@) == Some(t@),
            None => lookup(typed_entries(entries@), name@) is None,
        },
{
    proof {
        lemma_key_index_same_keys(keyed(entries@), typed_entries(entries@), name@, 0);
    }
    match key_position(entries, name) {
        Some(i) => Some(copy_type(&entries[i].1)),
        None => None,
    }
}

/// Infer the type of a generator local from its initializer (see
/// `inferred_local_type`).
pub fn infer_generator_local_type(
    init: &ExprKind,
    params: &Vec<(String, RustType)>,
    locals: &Vec<(String, RustType)>,
) -> (r: RustType)
    ensures
        r@ == inferred_local_type(*init, typed_entries(params@), typed_entries(locals@)),
{
    match init {
        ExprKind::Ident(x) => {
            if let Some(t) = entry_type(params, x) {
                return t;
            }
            if let Some(t) = entry_type(locals, x) {
                return t;
            }
            RustType::I32
        },
        ExprKind::FloatLit(_) => RustType::F64,
        ExprKind::BoolLit(_) => RustType::Bool,
        ExprKind::StringLit(_) => RustType::String,
        _ => RustType::I32,
    }
}

/// Add the locals that one statement declares (see `stmt_locals`).
fn collect_locals_from_stmt(
    stmt: &Stmt,
    params: &Vec<(String, RustType)>,
    locals: &mut Vec<(String, RustType)>,
)
    ensures
        typed_entries(final(locals)@) == stmt_locals(*stmt, typed_entries(params@), typed_entries(old(locals)@)),
    decreases stmt, 0int,
{
    match stmt {
        Stmt::VarDecl { name, type_ann, init } => {
            proof {
                lemma_key_index_same_keys(keyed(params@), typed_entries(params@), name@, 0);
                lemma_key_index_same_keys(keyed(locals@), typed_entries(locals@), name@, 0);
            }
            if key_position(params, name).is_none() && key_position(locals, name).is_none() {
                let ty = match type_ann {
                    Some(ta) => {
                        let mut diags: Vec<Diagnostic> = Vec::new();
                        resolve_type_annotation(ta, &mut diags)
                    },
                    None => infer_generator_local_type(init, params, locals),
                };
                let ghost before = locals@;
                locals.push((name.clone(), ty));
                assert(typed_entries(locals@) =~= typed_entries(before).push((name@, ty@)));
            }
        },
        Stmt::While { condition, body } => collect_locals_from_stmts(&body.stmts, params, locals),
        Stmt::DoWhile { body, condition } => collect_locals_from_stmts(&body.stmts, params, locals),
        Stmt::If(i) => {
            collect_locals_from_stmts(&i.then_block.stmts, params, locals);
            match &i.else_clause {
                Some(ElseClause::Block(b)) => collect_locals_from_stmts(&b.stmts, params, locals),
                _ => {},
            }
        },
        Stmt::For { iterable, body } => collect_locals_from_stmts(&body.stmts, params, locals),
        Stmt::ForIn { iterable, body } => collect_locals_from_stmts(&body.stmts, params, locals),
        _ => {},
    }
}

/// Add, in order, the locals that a list of statements declares (see
/// `locals_after`).
pub fn collect_locals_from_stmts(
    stmts: &Vec<Stmt>,
    params: &Vec<(String, RustType)>,
    locals: &mut Vec<(String, RustType)>,
)
    ensures
        typed_entries(final(locals)@) == locals_after(stmts@, typed_entries(params@), typed_entries(old(locals)@)),
    decreases stmts, 0int,
{
    let mut k: usize = 0;
    assert(stmts@.subrange(0, stmts@.len() as int) =~= stmts@);
    #[verifier::loop_isolation(false)]
    while k < stmts.len()
        invariant
            k <= stmts.len(),
            locals_after(stmts@, typed_entries(params@), typed_entries(old(locals)@)) == locals_after(
                stmts@.subrange(k as int, stmts@.len() as int),
                typed_entries(params@),
                typed_entries(locals@),
            ),
        decreases stmts.len() - k,
    {
        proof {
            assert(decreases_to!(stmts => stmts@));
            assert(decreases_to!(stmts@ => stmts@[k as int]));
            let rest = stmts@.subrange(k as int, stmts@.len() as int);
            assert(rest.drop_first() =~= stmts@.subrange(k + 1, stmts@.len() as int));
            assert(rest[0] == stmts@[k as int]);
        }
        collect_locals_from_stmt(&stmts[k], params, locals);
        k = k + 1;
    }
    assert(stmts@.subrange(stmts@.len() as int, stmts@.len() as int) =~= Seq::<Stmt>::empty());
}

/// The locals of a generator body: each declared name that is not a
/// parameter, once, with its type, in the order of declaration.
pub fn collect_generator_locals(body: &Block, params: &Vec<(String, RustType)>) -> (r: Vec<(String, RustType)>)
    ensures
        typed_entries(r@) == locals_after(body.stmts@, typed_entries(params@), Seq::empty()),
        fresh_locals(typed_entries(params@), typed_entries(r@)),
{
    let mut locals: Vec<(String, RustType)> = Vec::new();
    assert(typed_entries(locals@) =~= Seq::empty());
    collect_locals_from_stmts(&body.stmts, params, &mut locals);
    proof {
        lemma_locals_after_fresh(body.stmts@, typed_entries(params@), Seq::empty());
    }
    locals
}

// ---------------------------------------------------------------------------
// Generator items
// ---------------------------------------------------------------------------

/// The default value written for a field of a type, by the type's value
/// (see `default_value_text`).
pub open spec fn default_value_of(t: TypeView) -> Seq<char> {
    match t {
        TypeView::I8 | TypeView::I16 | TypeView::I32 | TypeView::I64 | TypeView::U8 | TypeView::U16
        | TypeView::U32 | TypeView::U64 => "0"@,
        TypeView::F32 | TypeView::F64 => "0.0"@,
        TypeView::Bool => "false"@,
        TypeView::String => "String::new()"@,
        TypeView::Unit => "()"@,
        _ => "Default::default()"@,
    }
}

/// The fields of a struct, by name and type value.
pub open spec fn field_entries(fs: Seq<RustField>) -> Seq<(Seq<char>, TypeView)> {
    fs.map_values(|f: RustField| (f.name@, type_view(f.ty)))
}

/// The parameters of a method, by name and type value.
pub open spec fn param_entries(ps: Seq<RustParam>) -> Seq<(Seq<char>, TypeView)> {
    ps.map_values(|p: RustParam| (p.name@, type_view(p.ty)))
}

/// The field initialisers of a generator's `new`: each parameter by its
/// name, each local set to the default of its type, and `_state: 0`.
pub open spec fn generator_inits(
    params: Seq<(Seq<char>, TypeView)>,
    locals: Seq<(Seq<char>, TypeView)>,
) -> Seq<Seq<char>> {
    params.map_values(|p: (Seq<char>, TypeView)| p.0) + locals.map_values(
        |l: (Seq<char>, TypeView)| l.0 + ": "@ + default_value_of(l.1),
    ) + seq!["_state: 0"@]
}

/// The body text of a generator's `new`.
pub open spec fn generator_new_text(
    params: Seq<(Seq<char>, TypeView)>,
    locals: Seq<(Seq<char>, TypeView)>,
) -> Seq<char> {
    "Self { "@ + join(generator_inits(params, locals), ", "@) + " }"@
}

/// The three items of a generator function `fn_name` with parameters
/// `params`, yield type `yield_type` and body `body`:
/// - a struct named by `generator_struct_name`, public when `exported`, whose
///   fields are the parameters, the locals of the body (see `locals_after`)
///   and `_state: u32`;
/// - an `impl` with `fn new(params) -> Self` setting each parameter, each
///   local to its default and `_state` to 0;
/// - an `impl Iterator` with `type Item = yield_type` and
///   `fn next(&mut self) -> Option<yield_type>`, whose body is the state
///   machine of the body's states (see `generator_states`).
pub open spec fn generator_items_spec(
    fn_name: Seq<char>,
    exported: bool,
    params: Seq<(Seq<char>, TypeView)>,
    yield_type: TypeView,
    body: Block,
    r: Seq<RustItem>,
) -> bool {
    let name = capitalized(fn_name) + "Iter"@;
    let locals = locals_after(body.stmts@, params, Seq::empty());
    &&& r.len() == 3
    &&& r[0] matches RustItem::Struct { public, name: n, fields } && public == exported && n@ == name
        && field_entries(fields@) == params + locals + seq![("_state"@, TypeView::U32)]
    &&& r[1] matches RustItem::Impl { self_type, methods } && self_type@ == name && methods@.len() == 1
        && methods@[0].name@ == "new"@ && methods@[0].self_param is None
        && param_entries(methods@[0].params@) == params
        && (methods@[0].return_type matches Some(t) && type_view(t) == TypeView::Named("Self"@))
        && methods@[0].body.stmts@.len() == 0
        && (methods@[0].body.expr matches Some(e) && *e matches RustExpr::Raw(code)
            && code@ == generator_new_text(params, locals))
    &&& r[2] matches RustItem::TraitImpl { trait_name, self_type, associated_types, methods }
        && trait_name@ == "Iterator"@ && self_type@ == name
        && associated_types@.len() == 1 && associated_types@[0].0@ == "Item"@
        && type_view(associated_types@[0].1) == yield_type
        && methods@.len() == 1 && methods@[0].name@ == "next"@
        && methods@[0].self_param == Some(RustSelfParam::RefMut)
        && methods@[0].params@.len() == 0
        && (methods@[0].return_type matches Some(t) && type_view(t) == TypeView::Option(Box::new(yield_type)))
        && methods@[0].body.stmts@.len() == 0
        && (methods@[0].body.expr matches Some(e) && *e matches RustExpr::Raw(code)
            && exists|states: Seq<GeneratorState>| state_views(states) == generator_states(body.stmts@)
            && code@ == state_machine_text(states))
}

/// Lower a generator function to its struct, its `new` and its `Iterator`
/// impl (see `generator_items_spec`), from the parameters and the yield type
/// as resolved types.
#[verifier::loop_isolation(false)]
pub fn generator_items(
    fn_name: &str,
    exported: bool,
    param_fields: &Vec<(String, RustType)>,
    yield_type: RustType,
    body: &Block,
) -> (r: Vec<RustItem>)
    requires
        body.stmts@.len() < 0xffff_ffff,
    ensures
        generator_items_spec(fn_name@, exported, typed_entries(param_fields@), yield_type@, *body, r@),
{
    let ghost params = typed_entries(param_fields@);
    let struct_name = generator_struct_name(fn_name);
    let locals = collect_generator_locals(body, param_fields);
    let ghost lv = typed_entries(locals@);

    // Struct fields: parameters, locals, `_state`.
    let mut fields: Vec<RustField> = Vec::new();
    let mut k: usize = 0;
    while k < param_fields.len()
        invariant
            k <= param_fields.len(),
            field_entries(fields@) == typed_entries(param_fields@.take(k as int)),
        decreases param_fields.len() - k,
    {
        let f = RustField { name: param_fields[k].0.clone(), ty: copy_type(&param_fields[k].1) };
        let ghost prev = fields@;
        fields.push(f);
        proof {
            assert(field_entries(fields@) =~= field_entries(prev).push((f.name@, type_view(f.ty))));
            assert(typed_entries(param_fields@.take(k + 1)) =~= typed_entries(param_fields@.take(k as int)).push(
                (param_fields@[k as int].0@, type_view(param_fields@[k as int].1))));
        }
        k = k + 1;
    }
    assert(param_fields@.take(param_fields@.len() as int) =~= param_fields@);
    let mut k: usize = 0;
    while k < locals.len()
        invariant
            k <= locals.len(),
            field_entries(fields@) == params + typed_entries(locals@.take(k as int)),
        decreases locals.len() - k,
    {
        let f = RustField { name: locals[k].0.clone(), ty: copy_type(&locals[k].1) };
        let ghost prev = fields@;
        fields.push(f);
        proof {
            assert(field_entries(fields@) =~= field_entries(prev).push((f.name@, type_view(f.ty))));
            assert(typed_entries(locals@.take(k + 1)) =~= typed_entries(locals@.take(k as int)).push(
                (locals@[k as int].0@, type_view(locals@[k as int].1))));
            assert(params + typed_entries(locals@.take(k + 1)) =~= (params + typed_entries(locals@.take(k as int))).push(
                (locals@[k as int].0@, type_view(locals@[k as int].1))));
        }
        k = k + 1;
    }
    assert(locals@.take(locals@.len() as int) =~= locals@);
    let state_name = string_of(&chars_of("_state"));
    fields.push(RustField { name: state_name, ty: RustType::U32 });
    proof {
        reveal_strlit("_state");
    }
    assert(field_entries(fields@) =~= params + lv + seq![("_state"@, TypeView::U32)]);

    // `new`: parameters and the body that initialises every field.
    let mut new_params: Vec<RustParam> = Vec::new();
    let mut pieces: Vec<Vec<char>> = Vec::new();
    let mut k: usize = 0;
    while k < param_fields.len()
        invariant
            k <= param_fields.len(),
            param_entries(new_params@) == typed_entries(param_fields@.take(k as int)),
            views(pieces@) == typed_entries(param_fields@.take(k as int)).map_values(
                |p: (Seq<char>, TypeView)| p.0,
            ),
        decreases param_fields.len() - k,
    {
        let np = RustParam { name: param_fields[k].0.clone(), ty: copy_type(&param_fields[k].1) };
        let piece = chars_of(param_fields[k].0.as_str());
        let ghost prev_params = new_params@;
        let ghost prev_pieces = pieces@;
        new_params.push(np);
        pieces.push(piece);
        proof {
            let e = (param_fields@[k as int].0@, type_view(param_fields@[k as int].1));
            let t0 = typed_entries(param_fields@.take(k as int));
            let t1 = typed_entries(param_fields@.take(k + 1));
            assert(t1 =~= t0.push(e));
            assert(param_entries(new_params@) =~= param_entries(prev_params).push((np.name@, type_view(np.ty))));
            assert(views(pieces@) =~= views(prev_pieces).push(piece@));
            assert(t1.map_values(|p: (Seq<char>, TypeView)| p.0) =~= t0.map_values(
                |p: (Seq<char>, TypeView)| p.0).push(e.0));
        }
        k = k + 1;
    }
    let ghost param_pieces = params.map_values(|p: (Seq<char>, TypeView)| p.0);
    assert(views(pieces@) == param_pieces);
    let mut k: usize = 0;
    while k < locals.len()
        invariant
            k <= locals.len(),
            lv == typed_entries(locals@),
            views(pieces@) == param_pieces + typed_entries(locals@.take(k as int)).map_values(
                |l: (Seq<char>, TypeView)| l.0 + ": "@ + default_value_of(l.1),
            ),
        decreases locals.len() - k,
    {
        let mut piece = chars_of(locals[k].0.as_str());
        push_str(&mut piece, ": ");
        let d = default_value_for_type(&locals[k].1);
        proof {
            reveal_strlit("0");
            reveal_strlit("0.0");
            reveal_strlit("false");
            reveal_strlit("String::new()");
            reveal_strlit("()");
            reveal_strlit("Default::default()");
            assert(default_value_text(locals@[k as int].1) == default_value_of(type_view(locals@[k as int].1)));
        }
        push_str(&mut piece, d.as_str());
        let ghost prev_pieces = pieces@;
        pieces.push(piece);
        proof {
            let e = (locals@[k as int].0@, type_view(locals@[k as int].1));
            let t0 = typed_entries(locals@.take(k as int));
            let t1 = typed_entries(locals@.take(k + 1));
            assert(t1 =~= t0.push(e));
            let f = |l: (Seq<char>, TypeView)| l.0 + ": "@ + default_value_of(l.1);
            assert(t1.map_values(f) =~= t0.map_values(f).push(f(e)));
            assert(views(pieces@) =~= views(prev_pieces).push(piece@));
            assert(param_pieces + t1.map_values(f) =~= (param_pieces + t0.map_values(f)).push(f(e)));
        }
        k = k + 1;
    }
    pieces.push(chars_of("_state: 0"));
    assert(views(pieces@) =~= generator_inits(params, lv));
    let mut code = chars_of("Self { ");
    let inits = join_chars(&pieces, ", ");
    push_all(&mut code, &inits);
    push_str(&mut code, " }");
    let new_method = RustMethod {
        name: string_of(&chars_of("new")),
        self_param: None,
        params: new_params,
        return_type: Some(RustType::Named(string_of(&chars_of("Self")))),
        body: RustBlock { stmts: Vec::new(), expr: Some(Box::new(RustExpr::Raw(string_of(&code)))) },
    };

    // `next`: the state machine.
    let next_code = build_state_machine_body(body);
    let item_type = copy_type(&yield_type);
    let next_method = RustMethod {
        name: string_of(&chars_of("next")),
        self_param: Some(RustSelfParam::RefMut),
        params: Vec::new(),
        return_type: Some(RustType::Option(Box::new(yield_type))),
        body: RustBlock { stmts: Vec::new(), expr: Some(Box::new(RustExpr::Raw(next_code))) },
    };
    let mut associated_types: Vec<(String, RustType)> = Vec::new();
    associated_types.push((string_of(&chars_of("Item")), item_type));
    let mut new_methods: Vec<RustMethod> = Vec::new();
    new_methods.push(new_method);
    let mut next_methods: Vec<RustMethod> = Vec::new();
    next_methods.push(next_method);

    let mut items: Vec<RustItem> = Vec::new();
    items.push(RustItem::Struct { public: exported, name: struct_name.clone(), fields });
    items.push(RustItem::Impl { self_type: struct_name.clone(), methods: new_methods });
    items.push(RustItem::TraitImpl {
        trait_name: string_of(&chars_of("Iterator")),
        self_type: struct_name,
        associated_types,
        methods: next_methods,
    });
    items
}

/// The operator text a state machine writes for each binary operator: the
/// arithmetic, comparison and logical operators as Rust spells them, and `+`
/// for the operators that the state machine does not translate.
pub proof fn lemma_binop_text_table()
    ensures
        binop_text(BinaryOp::Sub) == "-"@,
        binop_text(BinaryOp::Mul) == "*"@,
        binop_text(BinaryOp::Div) == "/"@,
        binop_text(BinaryOp::Mod) == "%"@,
        binop_text(BinaryOp::Eq) == "=="@,
        binop_text(BinaryOp::Ne) == "!="@,
        binop_text(BinaryOp::Lt) == "<"@,
        binop_text(BinaryOp::Gt) == ">"@,
        binop_text(BinaryOp::Le) == "<="@,
        binop_text(BinaryOp::Ge) == ">="@,
        binop_text(BinaryOp::And) == "&&"@,
        binop_text(BinaryOp::Or) == "||"@,
        binop_text(BinaryOp::Add) == "+"@,
        binop_text(BinaryOp::Pow) == "+"@,
        binop_text(BinaryOp::BitAnd) == "+"@,
        binop_text(BinaryOp::BitOr) == "+"@,
        binop_text(BinaryOp::BitXor) == "+"@,
        binop_text(BinaryOp::Shl) == "+"@,
        binop_text(BinaryOp::Shr) == "+"@,
        binop_text(BinaryOp::In) == "+"@,
{
}

} // verus!
