//! The expression tree that the rewrite engine works on, together with its
//! mathematical model.
//!
//! Executable nodes own their children exclusively; there is no sharing and
//! no cycle. Every shape that the engine either rewrites or emits has a
//! variant of its own; every other shape is an [`OtherNode`], which keeps an
//! opaque tag for the host and the node's sub-expressions in evaluation
//! order.

use vstd::prelude::*;

verus! {

/// An identifier: the name of a variable, of a property, or of the haven
/// object that intercepted operations are routed through.
#[derive(Debug, PartialEq)]
pub struct Ident {
    pub sym: String,
}

/// A literal. Only the literals the engine emits are distinguished; every
/// other literal kind is an [`OtherNode`] without children.
#[derive(Debug, PartialEq)]
pub enum Lit {
    Str(String),
    Bool(bool),
}

/// The property designator of a member access.
#[derive(Debug, PartialEq)]
pub enum MemberProp {
    /// A fixed property name, as in `o.k`.
    Named(String),
    /// A private, unnameable designator. Rewriting a plain member access
    /// keyed by one is out of the engine's scope.
    Private(String),
    /// A computed key, as in `o[e]`.
    Computed(Box<Expr>),
}

/// A plain (non-optional) member access: `obj.k` or `obj[e]`.
#[derive(Debug, PartialEq)]
pub struct MemberExpr {
    pub obj: Box<Expr>,
    pub prop: MemberProp,
}

/// An optional-chained member access: `obj?.k` or `obj?.[e]`. The engine
/// never redirects one; it emits them for the guarded reads and writes of
/// the haven's `active` property.
#[derive(Debug, PartialEq)]
pub struct OptMemberExpr {
    pub obj: Box<Expr>,
    pub prop: MemberProp,
}

/// An assignment operator: plain `=`, or a compound form carrying the name
/// of its update operator (for `+=` the name is `+`).
#[derive(Debug, PartialEq)]
pub enum AssignOp {
    Plain,
    Compound(String),
}

/// The target of an assignment. Only a plain member target is redirected;
/// an optional-chained target appears in emitted code; every other target
/// shape passes through with its sub-expressions rewritten in place.
#[derive(Debug, PartialEq)]
pub enum AssignTarget {
    Member(MemberExpr),
    OptMember(OptMemberExpr),
    Other(OtherNode),
}

/// An assignment: `target op value`.
#[derive(Debug, PartialEq)]
pub struct AssignExpr {
    pub op: AssignOp,
    pub target: AssignTarget,
    pub value: Box<Expr>,
}

/// The callee of a call. A callee that is not a plain expression (such as a
/// super call) is out of the engine's scope.
#[derive(Debug, PartialEq)]
pub enum Callee {
    Expr(Box<Expr>),
    Unsupported,
}

/// One call argument, with its optional spread marker, which the engine
/// carries through unchanged.
#[derive(Debug, PartialEq)]
pub struct Arg {
    pub spread: bool,
    pub expr: Expr,
}

/// A call: `callee(args)`.
#[derive(Debug, PartialEq)]
pub struct CallExpr {
    pub callee: Callee,
    pub args: Vec<Arg>,
}

/// A conditional expression: `test ? cons : alt`.
#[derive(Debug, PartialEq)]
pub struct CondExpr {
    pub test: Box<Expr>,
    pub cons: Box<Expr>,
    pub alt: Box<Expr>,
}

/// Any expression shape outside the rewrite rules. `shape` is an opaque tag
/// by which the host recognises the node; `children` are the node's
/// sub-expressions in evaluation order.
#[derive(Debug, PartialEq)]
pub struct OtherNode {
    pub shape: u64,
    pub children: Vec<Expr>,
}

/// An expression tree node.
#[derive(Debug, PartialEq)]
pub enum Expr {
    Ident(Ident),
    Lit(Lit),
    Member(MemberExpr),
    OptMember(OptMemberExpr),
    Assign(AssignExpr),
    Call(CallExpr),
    Cond(CondExpr),
    Sequence(Vec<Expr>),
    Other(OtherNode),
}

// ----------------------------------------------------------------------
// The mathematical model: the same tree over `Seq` instead of `Vec` and
// `String`. Contracts and the rewrite rules are stated over these.
// ----------------------------------------------------------------------

pub enum SpecLit {
    Str(Seq<char>),
    Bool(bool),
}

pub enum SpecProp {
    Named(Seq<char>),
    Private(Seq<char>),
    Computed(Box<SpecExpr>),
}

pub struct SpecMember {
    pub obj: Box<SpecExpr>,
    pub prop: SpecProp,
}

pub struct SpecOptMember {
    pub obj: Box<SpecExpr>,
    pub prop: SpecProp,
}

pub enum SpecOp {
    Plain,
    Compound(Seq<char>),
}

pub enum SpecTarget {
    Member(SpecMember),
    OptMember(SpecOptMember),
    Other(SpecOther),
}

pub struct SpecAssign {
    pub op: SpecOp,
    pub target: SpecTarget,
    pub value: Box<SpecExpr>,
}

pub enum SpecCallee {
    Expr(Box<SpecExpr>),
    Unsupported,
}

pub struct SpecArg {
    pub spread: bool,
    pub expr: SpecExpr,
}

pub struct SpecCall {
    pub callee: SpecCallee,
    pub args: Seq<SpecArg>,
}

pub struct SpecCond {
    pub test: Box<SpecExpr>,
    pub cons: Box<SpecExpr>,
    pub alt: Box<SpecExpr>,
}

pub struct SpecOther {
    pub shape: u64,
    pub children: Seq<SpecExpr>,
}

pub enum SpecExpr {
    Ident(Seq<char>),
    Lit(SpecLit),
    Member(SpecMember),
    OptMember(SpecOptMember),
    Assign(SpecAssign),
    Call(SpecCall),
    Cond(SpecCond),
    Sequence(Seq<SpecExpr>),
    Other(SpecOther),
}

// ----------------------------------------------------------------------
// Views: the deep abstraction from the executable tree to the model.
// ----------------------------------------------------------------------

pub open spec fn view_lit(l: Lit) -> SpecLit {
    match l {
        Lit::Str(s) => SpecLit::Str(s@),
        Lit::Bool(b) => SpecLit::Bool(b),
    }
}

pub open spec fn view_op(op: AssignOp) -> SpecOp {
    match op {
        AssignOp::Plain => SpecOp::Plain,
        AssignOp::Compound(name) => SpecOp::Compound(name@),
    }
}

pub open spec fn view_expr(e: Expr) -> SpecExpr
    decreases e,
{
    match e {
        Expr::Ident(i) => SpecExpr::Ident(i.sym@),
        Expr::Lit(l) => SpecExpr::Lit(view_lit(l)),
        Expr::Member(m) => SpecExpr::Member(view_member(m)),
        Expr::OptMember(m) => SpecExpr::OptMember(view_opt_member(m)),
        Expr::Assign(a) => SpecExpr::Assign(view_assign(a)),
        Expr::Call(c) => SpecExpr::Call(view_call(c)),
        Expr::Cond(c) => SpecExpr::Cond(view_cond(c)),
        Expr::Sequence(es) => SpecExpr::Sequence(view_exprs(es@)),
        Expr::Other(o) => SpecExpr::Other(view_other(o)),
    }
}

pub open spec fn view_prop(p: MemberProp) -> SpecProp
    decreases p,
{
    match p {
        MemberProp::Named(s) => SpecProp::Named(s@),
        MemberProp::Private(s) => SpecProp::Private(s@),
        MemberProp::Computed(e) => SpecProp::Computed(Box::new(view_expr(*e))),
    }
}

pub open spec fn view_member(m: MemberExpr) -> SpecMember
    decreases m,
{
    SpecMember { obj: Box::new(view_expr(*m.obj)), prop: view_prop(m.prop) }
}

pub open spec fn view_opt_member(m: OptMemberExpr) -> SpecOptMember
    decreases m,
{
    SpecOptMember { obj: Box::new(view_expr(*m.obj)), prop: view_prop(m.prop) }
}

pub open spec fn view_target(t: AssignTarget) -> SpecTarget
    decreases t,
{
    match t {
        AssignTarget::Member(m) => SpecTarget::Member(view_member(m)),
        AssignTarget::OptMember(m) => SpecTarget::OptMember(view_opt_member(m)),
        AssignTarget::Other(o) => SpecTarget::Other(view_other(o)),
    }
}

pub open spec fn view_assign(a: AssignExpr) -> SpecAssign
    decreases a,
{
    SpecAssign {
        op: view_op(a.op),
        target: view_target(a.target),
        value: Box::new(view_expr(*a.value)),
    }
}

pub open spec fn view_callee(c: Callee) -> SpecCallee
    decreases c,
{
    match c {
        Callee::Expr(e) => SpecCallee::Expr(Box::new(view_expr(*e))),
        Callee::Unsupported => SpecCallee::Unsupported,
    }
}

pub open spec fn view_arg(a: Arg) -> SpecArg
    decreases a,
{
    SpecArg { spread: a.spread, expr: view_expr(a.expr) }
}

pub open spec fn view_args(args: Seq<Arg>) -> Seq<SpecArg>
    decreases args,
{
    if args.len() == 0 {
        Seq::empty()
    } else {
        seq![view_arg(args[0])] + view_args(args.subrange(1, args.len() as int))
    }
}

pub open spec fn view_call(c: CallExpr) -> SpecCall
    decreases c,
{
    SpecCall { callee: view_callee(c.callee), args: view_args(c.args@) }
}

pub open spec fn view_cond(c: CondExpr) -> SpecCond
    decreases c,
{
    SpecCond {
        test: Box::new(view_expr(*c.test)),
        cons: Box::new(view_expr(*c.cons)),
        alt: Box::new(view_expr(*c.alt)),
    }
}

pub open spec fn view_exprs(es: Seq<Expr>) -> Seq<SpecExpr>
    decreases es,
{
    if es.len() == 0 {
        Seq::empty()
    } else {
        seq![view_expr(es[0])] + view_exprs(es.subrange(1, es.len() as int))
    }
}

pub open spec fn view_other(o: OtherNode) -> SpecOther
    decreases o,
{
    SpecOther { shape: o.shape, children: view_exprs(o.children@) }
}

impl View for Ident {
    type V = Seq<char>;

    open spec fn view(&self) -> Seq<char> {
        self.sym@
    }
}

impl View for Expr {
    type V = SpecExpr;

    open spec fn view(&self) -> SpecExpr {
        view_expr(*self)
    }
}

/// A view taken element by element equals the recursive definition above.
pub proof fn lemma_view_args_pointwise(args: Seq<Arg>)
    ensures
        view_args(args).len() == args.len(),
        forall|i: int| 0 <= i < args.len() ==> view_args(args)[i] == view_arg(args[i]),
    decreases args.len(),
{
    if args.len() > 0 {
        lemma_view_args_pointwise(args.subrange(1, args.len() as int));
    }
}

/// A view taken element by element equals the recursive definition above.
pub proof fn lemma_view_exprs_pointwise(es: Seq<Expr>)
    ensures
        view_exprs(es).len() == es.len(),
        forall|i: int| 0 <= i < es.len() ==> view_exprs(es)[i] == view_expr(es[i]),
    decreases es.len(),
{
    if es.len() > 0 {
        lemma_view_exprs_pointwise(es.subrange(1, es.len() as int));
    }
}

} // verus!
