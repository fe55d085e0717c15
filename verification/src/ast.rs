//! The shapes of RustScript syntax that the lowering helpers read:
//! operators, expressions, statements, items and type annotations.

use vstd::prelude::*;

use crate::lower::TypeAnnotation;

verus! {

// ---------------------------------------------------------------------------
// Expressions
// ---------------------------------------------------------------------------

/// A binary operator of RustScript.
#[derive(Debug, Clone, Copy, PartialEq, Eq)]
pub enum BinaryOp {
    Add,
    Sub,
    Mul,
    Div,
    Mod,
    Eq,
    Ne,
    Lt,
    Gt,
    Le,
    Ge,
    And,
    Or,
    BitAnd,
    BitOr,
    BitXor,
    Shl,
    Shr,
    /// `**`, lowered to a method call elsewhere.
    Pow,
    /// `in`, lowered to a method call elsewhere.
    In,
}

/// A unary operator of RustScript.
#[derive(Debug, Clone, Copy, PartialEq, Eq)]
pub enum UnaryOp {
    Neg,
    Not,
    BitNot,
}

/// The shape of an expression, as far as the lowering helpers read it.
#[derive(Debug)]
pub enum ExprKind {
    /// An integer literal.
    IntLit(i64),
    /// A floating-point literal, held as the text that Rust's `{:?}` gives
    /// for its value.
    FloatLit(String),
    /// A string literal.
    StringLit(String),
    /// A template literal.
    TemplateLit(String),
    /// A boolean literal.
    BoolLit(bool),
    /// `null`.
    NullLit,
    /// An identifier.
    Ident(String),
    /// A binary operation.
    Binary(BinaryOp, Box<ExprKind>, Box<ExprKind>),
    /// A unary operation.
    Unary(UnaryOp, Box<ExprKind>),
    /// A method call `object.method(args)`.
    MethodCall { object: Box<ExprKind>, method: String, args: Vec<ExprKind> },
    /// A call `callee(args)` of a named function.
    Call { callee: String, args: Vec<ExprKind> },
    /// A parenthesized expression.
    Paren(Box<ExprKind>),
    /// An `await` expression.
    Await(Box<ExprKind>),
    /// An assignment `target = value` to a variable.
    Assign { target: String, value: Box<ExprKind> },
    /// A construction `new ClassName(args)`.
    New { class_name: String, args: Vec<ExprKind> },
    /// A `yield` expression.
    Yield(Box<ExprKind>),
    /// `throw value`.
    Throw(Box<ExprKind>),
    /// Any other expression.
    Other,
}

// ---------------------------------------------------------------------------
// Statements and items
// ---------------------------------------------------------------------------

/// A block of statements.
#[derive(Debug)]
pub struct Block {
    pub stmts: Vec<Stmt>,
}

/// The initializer of a classic `for` loop.
#[derive(Debug)]
pub enum ForInit {
    /// `let i = init`.
    VarDecl { name: String, init: ExprKind },
    /// An expression.
    Expr(ExprKind),
}

/// An `if` statement.
#[derive(Debug)]
pub struct IfStmt {
    pub condition: ExprKind,
    pub then_block: Block,
    pub else_clause: Option<ElseClause>,
}

/// The `else` part of an `if`.
#[derive(Debug)]
pub enum ElseClause {
    /// `else { .. }`.
    Block(Block),
    /// `else if ..`.
    ElseIf(Box<IfStmt>),
}

/// A statement, as far as the scans read it.
#[derive(Debug)]
pub enum Stmt {
    Expr(ExprKind),
    Return(Option<ExprKind>),
    VarDecl { name: String, type_ann: Option<TypeAnnotation>, init: ExprKind },
    Using { name: String, init: ExprKind },
    If(IfStmt),
    While { condition: ExprKind, body: Block },
    DoWhile { body: Block, condition: ExprKind },
    For { iterable: ExprKind, body: Block },
    ForIn { iterable: ExprKind, body: Block },
    ForClassic { setup: Option<ForInit>, test: Option<ExprKind>, update: Option<ExprKind>, body: Block },
    TryCatch { try_block: Block, catch_block: Option<Block>, finally_block: Option<Block> },
    Break,
    Continue,
    /// Any other statement.
    Other,
}

/// A member of a class.
#[derive(Debug)]
pub enum ClassMember {
    Method { name: String, body: Block },
    Other,
}

/// A top-level item.
#[derive(Debug)]
pub enum Item {
    Function { name: String, body: Block },
    Class { name: String, members: Vec<ClassMember>, derives: Vec<String> },
    TypeDef { name: String, derives: Vec<String> },
    EnumDef { name: String, derives: Vec<String> },
    Other,
}

/// A module: its items in order.
#[derive(Debug)]
pub struct Module {
    pub items: Vec<Item>,
}

// ---------------------------------------------------------------------------
// Type annotations
// ---------------------------------------------------------------------------

/// The shape of a type annotation, as far as type parameters, utility types
/// and key lists read it.
#[derive(Debug)]
pub enum TypeKind {
    /// A named type.
    Named(String),
    /// A generic type `Name<args>`.
    Generic(String, Vec<TypeKind>),
    /// An intersection `A & B`.
    Intersection(Vec<TypeKind>),
    /// A union `A | B`.
    Union(Vec<TypeKind>),
    /// A string literal type `"name"`.
    StringLiteral(String),
    /// Any other annotation.
    Other,
}

/// A type parameter `T extends Bound`.
#[derive(Debug)]
pub struct TypeParam {
    /// The parameter name.
    pub name: String,
    /// The constraint after `extends`, if any.
    pub constraint: Option<TypeKind>,
}

} // verus!
