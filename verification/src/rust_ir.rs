//! The Rust IR type representation read by the display and lowering helpers.

use vstd::prelude::*;

verus! {

/// A Rust type in the compiler's intermediate representation.
#[derive(Debug, PartialEq, Eq)]
pub enum RustType {
    I8,
    I16,
    I32,
    I64,
    U8,
    U16,
    U32,
    U64,
    F32,
    F64,
    Bool,
    String,
    Unit,
    Never,
    /// A user-defined named type.
    Named(String),
    /// A generic type parameter.
    TypeParam(String),
    /// A generic instantiation `Base<Args...>`.
    Generic(Box<RustType>, Vec<RustType>),
    /// `Option<T>`.
    Option(Box<RustType>),
    /// `Result<T, E>`.
    Result(Box<RustType>, Box<RustType>),
    /// `impl Fn(Params...) -> Ret`.
    ImplFn(Vec<RustType>, Box<RustType>),
    /// `Self`.
    SelfType,
    /// A type left for inference.
    Infer,
    /// `Arc<Mutex<T>>`.
    ArcMutex(Box<RustType>),
    /// `(T1, T2, ...)`.
    Tuple(Vec<RustType>),
    /// A generated union enum with its `(variant name, type)` list.
    GeneratedUnion { name: String, variants: Vec<(String, RustType)> },
    /// `&dyn Trait`.
    DynRef(String),
    /// `Box<dyn std::any::Any>`.
    BoxDynAny,
    /// `&T`.
    Reference(Box<RustType>),
    /// `[T]`.
    Slice(Box<RustType>),
    /// `&str`.
    StrRef,
}

/// A binary operator of generated Rust.
#[derive(Debug, Clone, Copy, PartialEq, Eq)]
pub enum RustBinaryOp {
    Add,
    Sub,
    Mul,
    Div,
    Rem,
    Eq,
    Ne,
    Lt,
    Gt,
    Le,
    Ge,
    And,
    Or,
    BitAnd,
    BitOr,
    BitXor,
    Shl,
    Shr,
}

/// A unary operator of generated Rust.
#[derive(Debug, Clone, Copy, PartialEq, Eq)]
pub enum RustUnaryOp {
    Neg,
    Not,
    BitNot,
}

/// A compound assignment operator of generated Rust (`+=` and the like).
#[derive(Debug, Clone, Copy, PartialEq, Eq)]
pub enum RustCompoundAssignOp {
    AddAssign,
    SubAssign,
    MulAssign,
    DivAssign,
    RemAssign,
}

/// The mathematical value of a `RustType`: the same shape, with sequences in
/// place of vectors and strings.
pub enum TypeView {
    I8,
    I16,
    I32,
    I64,
    U8,
    U16,
    U32,
    U64,
    F32,
    F64,
    Bool,
    String,
    Unit,
    Never,
    Named(Seq<char>),
    TypeParam(Seq<char>),
    Generic(Box<TypeView>, Seq<TypeView>),
    Option(Box<TypeView>),
    Result(Box<TypeView>, Box<TypeView>),
    ImplFn(Seq<TypeView>, Box<TypeView>),
    SelfType,
    Infer,
    ArcMutex(Box<TypeView>),
    Tuple(Seq<TypeView>),
    GeneratedUnion { name: Seq<char>, variants: Seq<(Seq<char>, TypeView)> },
    DynRef(Seq<char>),
    BoxDynAny,
    Reference(Box<TypeView>),
    Slice(Box<TypeView>),
    StrRef,
}

/// The value of a type.
pub open spec fn type_view(t: RustType) -> TypeView
    decreases t, 0int,
{
    match t {
        RustType::I8 => TypeView::I8,
        RustType::I16 => TypeView::I16,
        RustType::I32 => TypeView::I32,
        RustType::I64 => TypeView::I64,
        RustType::U8 => TypeView::U8,
        RustType::U16 => TypeView::U16,
        RustType::U32 => TypeView::U32,
        RustType::U64 => TypeView::U64,
        RustType::F32 => TypeView::F32,
        RustType::F64 => TypeView::F64,
        RustType::Bool => TypeView::Bool,
        RustType::String => TypeView::String,
        RustType::Unit => TypeView::Unit,
        RustType::Never => TypeView::Never,
        RustType::Named(n) => TypeView::Named(n@),
        RustType::TypeParam(n) => TypeView::TypeParam(n@),
        RustType::Generic(base, args) => TypeView::Generic(Box::new(type_view(*base)), types_view(args@)),
        RustType::Option(inner) => TypeView::Option(Box::new(type_view(*inner))),
        RustType::Result(ok, err) => TypeView::Result(Box::new(type_view(*ok)), Box::new(type_view(*err))),
        RustType::ImplFn(params, ret) => TypeView::ImplFn(types_view(params@), Box::new(type_view(*ret))),
        RustType::SelfType => TypeView::SelfType,
        RustType::Infer => TypeView::Infer,
        RustType::ArcMutex(inner) => TypeView::ArcMutex(Box::new(type_view(*inner))),
        RustType::Tuple(elems) => TypeView::Tuple(types_view(elems@)),
        RustType::GeneratedUnion { name, variants } => TypeView::GeneratedUnion {
            name: name@,
            variants: variants_view(variants@),
        },
        RustType::DynRef(n) => TypeView::DynRef(n@),
        RustType::BoxDynAny => TypeView::BoxDynAny,
        RustType::Reference(inner) => TypeView::Reference(Box::new(type_view(*inner))),
        RustType::Slice(inner) => TypeView::Slice(Box::new(type_view(*inner))),
        RustType::StrRef => TypeView::StrRef,
    }
}

/// The values of a list of types.
pub open spec fn types_view(ts: Seq<RustType>) -> Seq<TypeView>
    decreases ts, 0int,
{
    if ts.len() == 0 {
        Seq::empty()
    } else {
        types_view(ts.drop_last()).push(type_view(ts.last()))
    }
}

/// The values of a list of `(variant name, type)` pairs.
pub open spec fn variants_view(vs: Seq<(String, RustType)>) -> Seq<(Seq<char>, TypeView)>
    decreases vs, 0int,
{
    if vs.len() == 0 {
        Seq::empty()
    } else {
        variants_view(vs.drop_last()).push((vs.last().0@, type_view(vs.last().1)))
    }
}

impl View for RustType {
    type V = TypeView;

    open spec fn view(&self) -> TypeView {
        type_view(*self)
    }
}

/// A copy of a type, of the same value.
pub fn copy_type(ty: &RustType) -> (r: RustType)
    ensures
        r@ == ty@,
    decreases ty, 0int,
{
    match ty {
        RustType::I8 => RustType::I8,
        RustType::I16 => RustType::I16,
        RustType::I32 => RustType::I32,
        RustType::I64 => RustType::I64,
        RustType::U8 => RustType::U8,
        RustType::U16 => RustType::U16,
        RustType::U32 => RustType::U32,
        RustType::U64 => RustType::U64,
        RustType::F32 => RustType::F32,
        RustType::F64 => RustType::F64,
        RustType::Bool => RustType::Bool,
        RustType::String => RustType::String,
        RustType::Unit => RustType::Unit,
        RustType::Never => RustType::Never,
        RustType::Named(n) => RustType::Named(n.clone()),
        RustType::TypeParam(n) => RustType::TypeParam(n.clone()),
        RustType::Generic(base, args) => RustType::Generic(Box::new(copy_type(base)), copy_types(args)),
        RustType::Option(inner) => RustType::Option(Box::new(copy_type(inner))),
        RustType::Result(ok, err) => RustType::Result(Box::new(copy_type(ok)), Box::new(copy_type(err))),
        RustType::ImplFn(params, ret) => RustType::ImplFn(copy_types(params), Box::new(copy_type(ret))),
        RustType::SelfType => RustType::SelfType,
        RustType::Infer => RustType::Infer,
        RustType::ArcMutex(inner) => RustType::ArcMutex(Box::new(copy_type(inner))),
        RustType::Tuple(elems) => RustType::Tuple(copy_types(elems)),
        RustType::GeneratedUnion { name, variants } => RustType::GeneratedUnion {
            name: name.clone(),
            variants: copy_variants(variants),
        },
        RustType::DynRef(n) => RustType::DynRef(n.clone()),
        RustType::BoxDynAny => RustType::BoxDynAny,
        RustType::Reference(inner) => RustType::Reference(Box::new(copy_type(inner))),
        RustType::Slice(inner) => RustType::Slice(Box::new(copy_type(inner))),
        RustType::StrRef => RustType::StrRef,
    }
}

/// A copy of a list of types.
pub fn copy_types(ts: &Vec<RustType>) -> (r: Vec<RustType>)
    ensures
        types_view(r@) == types_view(ts@),
    decreases ts, 0int,
{
    let mut out: Vec<RustType> = Vec::new();
    let mut k: usize = 0;
    #[verifier::loop_isolation(false)]
    while k < ts.len()
        invariant
            k <= ts.len(),
            types_view(out@) == types_view(ts@.take(k as int)),
        decreases ts.len() - k,
    {
        proof {
            assert(decreases_to!(ts => ts@));
            assert(decreases_to!(ts@ => ts@[k as int]));
        }
        let c = copy_type(&ts[k]);
        let ghost prev = out@;
        out.push(c);
        proof {
            assert(out@.drop_last() =~= prev);
            assert(ts@.take(k + 1).drop_last() =~= ts@.take(k as int));
        }
        k = k + 1;
    }
    assert(ts@.take(ts@.len() as int) =~= ts@);
    out
}

/// A copy of a list of `(variant name, type)` pairs.
pub fn copy_variants(vs: &Vec<(String, RustType)>) -> (r: Vec<(String, RustType)>)
    ensures
        variants_view(r@) == variants_view(vs@),
    decreases vs, 0int,
{
    let mut out: Vec<(String, RustType)> = Vec::new();
    let mut k: usize = 0;
    #[verifier::loop_isolation(false)]
    while k < vs.len()
        invariant
            k <= vs.len(),
            variants_view(out@) == variants_view(vs@.take(k as int)),
        decreases vs.len() - k,
    {
        proof {
            assert(decreases_to!(vs => vs@));
            assert(decreases_to!(vs@ => vs@[k as int]));
            assert(decreases_to!(vs@[k as int] => vs@[k as int].1));
        }
        let c = (vs[k].0.clone(), copy_type(&vs[k].1));
        let ghost prev = out@;
        out.push(c);
        proof {
            assert(out@.drop_last() =~= prev);
            assert(vs@.take(k + 1).drop_last() =~= vs@.take(k as int));
        }
        k = k + 1;
    }
    assert(vs@.take(vs@.len() as int) =~= vs@);
    out
}

/// An expression of generated Rust.
#[derive(Debug, PartialEq, Eq)]
pub enum RustExpr {
    IntLit(i64),
    /// A float literal, kept as its source text.
    FloatLit(String),
    StringLit(String),
    BoolLit(bool),
    Ident(String),
    /// `Owner::method(args)`, a call of an associated function.
    StaticCall { owner: String, method: String, args: Vec<RustExpr> },
    /// `vec![elems]`.
    VecLit(Vec<RustExpr>),
    Index { object: Box<RustExpr>, index: Box<RustExpr> },
    Binary { op: RustBinaryOp, left: Box<RustExpr>, right: Box<RustExpr> },
    Unary { unary_op: RustUnaryOp, operand: Box<RustExpr> },
    Call { func: String, args: Vec<RustExpr> },
    /// `name!(args)`.
    Macro { name: String, args: Vec<RustExpr> },
    MethodCall { receiver: Box<RustExpr>, method: String, args: Vec<RustExpr> },
    Paren(Box<RustExpr>),
    /// `inner.clone()`.
    Clone(Box<RustExpr>),
    /// `inner.to_string()`.
    ToString(Box<RustExpr>),
    /// `Some(inner)`.
    SomeExpr(Box<RustExpr>),
    /// `inner?`.
    QuestionMark(Box<RustExpr>),
    /// `Ok(inner)`.
    OkExpr(Box<RustExpr>),
    /// `Err(inner)`.
    ErrExpr(Box<RustExpr>),
    Assign { target: String, value: Box<RustExpr> },
    CompoundAssign { target: String, assign_op: RustCompoundAssignOp, value: Box<RustExpr> },
    /// `self.field = value`.
    SelfFieldAssign { field: String, value: Box<RustExpr> },
    StructLit { name: String, fields: Vec<(String, RustExpr)> },
    /// `Self { fields }`.
    SelfStructLit { fields: Vec<(String, RustExpr)> },
    FieldAccess { object: Box<RustExpr>, field: String },
    EnumVariant { enum_name: String, variant: String },
    /// `None`.
    NoneExpr,
    /// `self`.
    SelfRef,
    /// `self.field`.
    SelfFieldAccess { field: String },
    /// `expr.unwrap_or(default)`.
    UnwrapOr { expr: Box<RustExpr>, default: Box<RustExpr> },
    /// `expr.map(|binding| closure_body)`.
    OptionMap { expr: Box<RustExpr>, binding: String, closure_body: Box<RustExpr> },
    /// `(|| { body })()`.
    ClosureCall { block: RustBlock },
    Closure { params: Vec<String>, body: RustClosureBody },
    /// Rust code emitted as written.
    Raw(String),
}

/// The body of a closure: one expression or a block.
#[derive(Debug, PartialEq, Eq)]
pub enum RustClosureBody {
    Expr(Box<RustExpr>),
    Block(RustBlock),
}

/// A block: statements and an optional tail expression.
#[derive(Debug, PartialEq, Eq)]
pub struct RustBlock {
    pub stmts: Vec<RustStmt>,
    pub expr: Option<Box<RustExpr>>,
}

/// An `if` statement.
#[derive(Debug, PartialEq, Eq)]
pub struct RustIfStmt {
    pub condition: RustExpr,
    pub then_block: RustBlock,
    pub else_clause: Option<RustElse>,
}

/// The `else` part of an `if`.
#[derive(Debug, PartialEq, Eq)]
pub enum RustElse {
    Block(RustBlock),
    ElseIf(Box<RustIfStmt>),
}

/// One arm of a `match`.
#[derive(Debug, PartialEq, Eq)]
pub struct RustMatchArm {
    pub pattern: String,
    pub body: RustBlock,
}

/// A statement of generated Rust.
#[derive(Debug, PartialEq, Eq)]
pub enum RustStmt {
    Let { name: String, mutable: bool, ty: Option<RustType>, init: RustExpr },
    /// An expression without a semicolon.
    Expr(RustExpr),
    /// An expression followed by a semicolon.
    Semi(RustExpr),
    Return(Option<RustExpr>),
    If(RustIfStmt),
    While { condition: RustExpr, body: RustBlock },
    /// `let (names..) = init;`
    Destructure { names: Vec<String>, init: RustExpr },
    Match { scrutinee: RustExpr, arms: Vec<RustMatchArm> },
    IfLet { pattern: String, expr: RustExpr, then_block: RustBlock, else_branch: Option<RustBlock> },
    /// `match expr { Ok(ok_binding) => ok_block, Err(err_binding) => err_block }`.
    MatchResult {
        expr: RustExpr,
        ok_binding: String,
        ok_block: RustBlock,
        err_binding: String,
        err_block: RustBlock,
    },
    ForIn { variable: String, iterable: RustExpr, body: RustBlock },
    LetElse { pattern: String, expr: RustExpr, else_block: RustBlock },
    Break(Option<String>),
    Continue(Option<String>),
}

/// A function or method parameter.
#[derive(Debug, PartialEq, Eq)]
pub struct RustParam {
    pub name: String,
    pub ty: RustType,
}

/// A struct field, or a field of an enum variant.
#[derive(Debug, PartialEq, Eq)]
pub struct RustField {
    pub name: String,
    pub ty: RustType,
}

/// A free function.
#[derive(Debug, PartialEq, Eq)]
pub struct RustFnDecl {
    pub name: String,
    pub params: Vec<RustParam>,
    pub return_type: Option<RustType>,
    pub body: RustBlock,
}

/// How a method takes `self`.
#[derive(Debug, Clone, Copy, PartialEq, Eq)]
pub enum RustSelfParam {
    /// `&self`.
    Ref,
    /// `&mut self`.
    RefMut,
    /// `self`.
    Value,
}

/// A method with a body, in an `impl` block.
#[derive(Debug, PartialEq, Eq)]
pub struct RustMethod {
    pub name: String,
    pub self_param: Option<RustSelfParam>,
    pub params: Vec<RustParam>,
    pub return_type: Option<RustType>,
    pub body: RustBlock,
}

/// A method signature of a trait.
#[derive(Debug, PartialEq, Eq)]
pub struct RustTraitMethod {
    pub name: String,
    pub params: Vec<RustParam>,
    pub return_type: Option<RustType>,
}

/// A variant of an enum.
#[derive(Debug, PartialEq, Eq)]
pub struct RustVariant {
    pub name: String,
    pub fields: Vec<RustField>,
}

/// A top-level item of generated Rust.
#[derive(Debug, PartialEq, Eq)]
pub enum RustItem {
    Function(RustFnDecl),
    Struct { public: bool, name: String, fields: Vec<RustField> },
    Enum { name: String, variants: Vec<RustVariant> },
    Trait { name: String, signatures: Vec<RustTraitMethod> },
    Impl { self_type: String, methods: Vec<RustMethod> },
    TraitImpl {
        trait_name: String,
        self_type: String,
        associated_types: Vec<(String, RustType)>,
        methods: Vec<RustMethod>,
    },
}

/// A `use` declaration of generated Rust.
#[derive(Debug, PartialEq, Eq)]
pub struct RustUseDecl {
    pub path: String,
    pub public: bool,
}

} // verus!
