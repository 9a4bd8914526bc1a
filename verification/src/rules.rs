//! The rewrite rules, stated over the mathematical model.
//!
//! `rewrite_spec` says, for every supported node, exactly what tree the
//! engine produces for it: a redirected node (a member read, an assignment
//! to a member, or a call) is replaced by a call on the haven — wrapped,
//! when the activity flag is set, in a conditional that falls back to the
//! unredirected form — and every other node keeps its shape while its
//! children are rewritten in place.

use vstd::prelude::*;

use crate::ast::SpecArg;
use crate::ast::SpecAssign;
use crate::ast::SpecCall;
use crate::ast::SpecCallee;
use crate::ast::SpecCond;
use crate::ast::SpecExpr;
use crate::ast::SpecLit;
use crate::ast::SpecMember;
use crate::ast::SpecOp;
use crate::ast::SpecOptMember;
use crate::ast::SpecOther;
use crate::ast::SpecProp;
use crate::ast::SpecTarget;

verus! {

// ----------------------------------------------------------------------
// The names the engine relies on: the haven's four capabilities, its
// activity property, and the one callee name that is never redirected.
// ----------------------------------------------------------------------

pub open spec fn get_name() -> Seq<char> {
    "get"@
}

pub open spec fn set_name() -> Seq<char> {
    "set"@
}

pub open spec fn call_name() -> Seq<char> {
    "call"@
}

pub open spec fn call_member_name() -> Seq<char> {
    "call_member"@
}

pub open spec fn active_name() -> Seq<char> {
    "active"@
}

pub open spec fn eval_name() -> Seq<char> {
    "eval"@
}

// ----------------------------------------------------------------------
// Supported trees. Two shapes are out of the engine's scope and fatal for
// an invocation: a plain member access keyed by a private designator
// (whether read, assigned to, or called), and a call whose callee is not a
// plain expression. A private designator under an optional-chained member
// is never converted, so it is carried through and remains supported.
// ----------------------------------------------------------------------

pub open spec fn supported(e: SpecExpr) -> bool
    decreases e,
{
    match e {
        SpecExpr::Ident(_) => true,
        SpecExpr::Lit(_) => true,
        SpecExpr::Member(m) => !(m.prop is Private) && supported(*m.obj) && supported_prop(m.prop),
        SpecExpr::OptMember(m) => supported(*m.obj) && supported_prop(m.prop),
        SpecExpr::Assign(a) => supported_target(a.target) && supported(*a.value),
        SpecExpr::Call(c) => c.callee is Expr && supported(*c.callee->Expr_0) && supported_args(
            c.args,
        ),
        SpecExpr::Cond(c) => supported(*c.test) && supported(*c.cons) && supported(*c.alt),
        SpecExpr::Sequence(es) => supported_exprs(es),
        SpecExpr::Other(o) => supported_exprs(o.children),
    }
}

pub open spec fn supported_prop(p: SpecProp) -> bool
    decreases p,
{
    match p {
        SpecProp::Named(_) => true,
        SpecProp::Private(_) => true,
        SpecProp::Computed(e) => supported(*e),
    }
}

pub open spec fn supported_target(t: SpecTarget) -> bool
    decreases t,
{
    match t {
        SpecTarget::Member(m) => !(m.prop is Private) && supported(*m.obj) && supported_prop(
            m.prop,
        ),
        SpecTarget::OptMember(m) => supported(*m.obj) && supported_prop(m.prop),
        SpecTarget::Other(o) => supported_exprs(o.children),
    }
}

pub open spec fn supported_args(args: Seq<SpecArg>) -> bool
    decreases args,
{
    if args.len() == 0 {
        true
    } else {
        supported(args[0].expr) && supported_args(args.subrange(1, args.len() as int))
    }
}

pub open spec fn supported_exprs(es: Seq<SpecExpr>) -> bool
    decreases es,
{
    if es.len() == 0 {
        true
    } else {
        supported(es[0]) && supported_exprs(es.subrange(1, es.len() as int))
    }
}

// ----------------------------------------------------------------------
// The emitted forms.
// ----------------------------------------------------------------------

/// A member access on the haven naming one of its capabilities.
pub open spec fn spec_haven_member(haven: Seq<char>, name: Seq<char>) -> SpecExpr {
    SpecExpr::Member(
        SpecMember { obj: Box::new(SpecExpr::Ident(haven)), prop: SpecProp::Named(name) },
    )
}

/// A call of one of the haven's capabilities.
pub open spec fn spec_haven_call(haven: Seq<char>, name: Seq<char>, args: Seq<SpecArg>) -> SpecExpr {
    SpecExpr::Call(
        SpecCall { callee: SpecCallee::Expr(Box::new(spec_haven_member(haven, name))), args },
    )
}

/// An argument without a spread marker.
pub open spec fn spec_plain_arg(e: SpecExpr) -> SpecArg {
    SpecArg { spread: false, expr: e }
}

/// The guarded read of the haven's activity property: `haven?.active`. A
/// missing haven or a missing property is treated as "not active" rather
/// than an error.
pub open spec fn spec_active_test(haven: Seq<char>) -> SpecExpr {
    SpecExpr::OptMember(
        SpecOptMember { obj: Box::new(SpecExpr::Ident(haven)), prop: SpecProp::Named(active_name()) },
    )
}

/// The write that disables interception: `haven?.active = false`.
pub open spec fn spec_deactivate(haven: Seq<char>) -> SpecExpr {
    SpecExpr::Assign(
        SpecAssign {
            op: SpecOp::Plain,
            target: SpecTarget::OptMember(
                SpecOptMember {
                    obj: Box::new(SpecExpr::Ident(haven)),
                    prop: SpecProp::Named(active_name()),
                },
            ),
            value: Box::new(SpecExpr::Lit(SpecLit::Bool(false))),
        },
    )
}

/// The dual-path conditional around one redirected node: if the haven is
/// active, disable it and take the primary (intercepted) expression;
/// otherwise take the fallback.
pub open spec fn spec_wrapped(haven: Seq<char>, primary: SpecExpr, fallback: SpecExpr) -> SpecExpr {
    SpecExpr::Cond(
        SpecCond {
            test: Box::new(spec_active_test(haven)),
            cons: Box::new(SpecExpr::Sequence(seq![spec_deactivate(haven), primary])),
            alt: Box::new(fallback),
        },
    )
}

// ----------------------------------------------------------------------
// Dispatch.
// ----------------------------------------------------------------------

/// Whether a node is replaced by a call on the haven. Dispatch must test
/// the assignment and call shapes before the member shape, so a member
/// access standing as an assignment target or as a callee is never
/// independently collapsed into a `get`; here that ordering shows up as
/// redirection being decided on the node as a whole.
pub open spec fn is_redirected(e: SpecExpr) -> bool {
    match e {
        SpecExpr::Member(_) => true,
        SpecExpr::Assign(a) => a.target is Member,
        SpecExpr::Call(_) => true,
        _ => false,
    }
}

/// What a node rewrites to.
pub open spec fn rewrite_spec(haven: Seq<char>, activity: bool, e: SpecExpr) -> SpecExpr
    decreases e, 2int,
{
    if is_redirected(e) {
        let primary = redirect_spec(haven, activity, e);
        if activity {
            spec_wrapped(haven, primary, rewrite_children_spec(haven, activity, e))
        } else {
            primary
        }
    } else {
        rewrite_children_spec(haven, activity, e)
    }
}

/// The key argument handed to the haven for a member property: a fixed name
/// becomes a string literal (which rewriting then leaves unchanged, a
/// literal being a leaf); a computed key is rewritten as any expression. A
/// private designator has no key form: it is out of scope.
pub open spec fn key_spec(haven: Seq<char>, activity: bool, p: SpecProp) -> SpecExpr
    decreases p,
{
    match p {
        SpecProp::Named(name) => SpecExpr::Lit(SpecLit::Str(name)),
        SpecProp::Private(name) => SpecExpr::Lit(SpecLit::Str(name)),
        SpecProp::Computed(e) => rewrite_spec(haven, activity, *e),
    }
}

/// The replacement call for a redirected node.
///
/// - A member read `o.k` becomes `haven.get(o', k')`.
/// - An assignment `o.k = v` becomes `haven.set(o', k', v')`; a compound
///   assignment appends one string literal naming its update operator.
/// - A call classifies its callee: a member callee `o.m(..)` becomes
///   `haven.call_member(o', k', ..)`; a direct call of the identifier
///   `eval` keeps its callee untouched while its arguments are rewritten;
///   any other callee is rewritten and the call becomes
///   `haven.call(callee', ..)`.
pub open spec fn redirect_spec(haven: Seq<char>, activity: bool, e: SpecExpr) -> SpecExpr
    decreases e, 1int,
{
    match e {
        SpecExpr::Member(m) => spec_haven_call(
            haven,
            get_name(),
            seq![
                spec_plain_arg(rewrite_spec(haven, activity, *m.obj)),
                spec_plain_arg(key_spec(haven, activity, m.prop)),
            ],
        ),
        SpecExpr::Assign(a) => {
            if a.target is Member {
                let m = a.target->Member_0;
                let value = rewrite_spec(haven, activity, *a.value);
                let obj = rewrite_spec(haven, activity, *m.obj);
                let key = key_spec(haven, activity, m.prop);
                let base = seq![spec_plain_arg(obj), spec_plain_arg(key), spec_plain_arg(value)];
                let args = match a.op {
                    SpecOp::Plain => base,
                    SpecOp::Compound(name) => base.push(
                        spec_plain_arg(SpecExpr::Lit(SpecLit::Str(name))),
                    ),
                };
                spec_haven_call(haven, set_name(), args)
            } else {
                e
            }
        },
        SpecExpr::Call(c) => {
            let args = rewrite_args_spec(haven, activity, c.args);
            match c.callee {
                SpecCallee::Expr(ce) => match *ce {
                    SpecExpr::Member(m) => spec_haven_call(
                        haven,
                        call_member_name(),
                        seq![
                            spec_plain_arg(rewrite_spec(haven, activity, *m.obj)),
                            spec_plain_arg(key_spec(haven, activity, m.prop)),
                        ] + args,
                    ),
                    SpecExpr::Ident(sym) => {
                        if sym == eval_name() {
                            SpecExpr::Call(
                                SpecCall {
                                    callee: SpecCallee::Expr(Box::new(SpecExpr::Ident(sym))),
                                    args,
                                },
                            )
                        } else {
                            spec_haven_call(
                                haven,
                                call_name(),
                                seq![
                                    spec_plain_arg(rewrite_spec(haven, activity, SpecExpr::Ident(sym))),
                                ] + args,
                            )
                        }
                    },
                    other => spec_haven_call(
                        haven,
                        call_name(),
                        seq![spec_plain_arg(rewrite_spec(haven, activity, other))] + args,
                    ),
                },
                SpecCallee::Unsupported => e,
            }
        },
        _ => e,
    }
}

/// The default, shape-preserving recursion: the node stays what it is and
/// each of its sub-expressions is rewritten in place. For a node that is
/// not redirected this is the whole rewrite; for a redirected node under
/// the activity flag it is the fallback branch.
pub open spec fn rewrite_children_spec(haven: Seq<char>, activity: bool, e: SpecExpr) -> SpecExpr
    decreases e, 0int,
{
    match e {
        SpecExpr::Ident(_) => e,
        SpecExpr::Lit(_) => e,
        SpecExpr::Member(m) => SpecExpr::Member(
            SpecMember {
                obj: Box::new(rewrite_spec(haven, activity, *m.obj)),
                prop: rewrite_prop_spec(haven, activity, m.prop),
            },
        ),
        SpecExpr::OptMember(m) => SpecExpr::OptMember(
            SpecOptMember {
                obj: Box::new(rewrite_spec(haven, activity, *m.obj)),
                prop: rewrite_prop_spec(haven, activity, m.prop),
            },
        ),
        SpecExpr::Assign(a) => SpecExpr::Assign(
            SpecAssign {
                op: a.op,
                target: rewrite_target_spec(haven, activity, a.target),
                value: Box::new(rewrite_spec(haven, activity, *a.value)),
            },
        ),
        SpecExpr::Call(c) => SpecExpr::Call(
            SpecCall {
                callee: rewrite_callee_spec(haven, activity, c.callee),
                args: rewrite_args_spec(haven, activity, c.args),
            },
        ),
        SpecExpr::Cond(c) => SpecExpr::Cond(
            SpecCond {
                test: Box::new(rewrite_spec(haven, activity, *c.test)),
                cons: Box::new(rewrite_spec(haven, activity, *c.cons)),
                alt: Box::new(rewrite_spec(haven, activity, *c.alt)),
            },
        ),
        SpecExpr::Sequence(es) => SpecExpr::Sequence(rewrite_exprs_spec(haven, activity, es)),
        SpecExpr::Other(o) => SpecExpr::Other(
            SpecOther {
                shape: o.shape,
                children: rewrite_exprs_spec(haven, activity, o.children),
            },
        ),
    }
}

/// A property visited as a child: a fixed or private name stays itself; a
/// computed key has its expression rewritten.
pub open spec fn rewrite_prop_spec(haven: Seq<char>, activity: bool, p: SpecProp) -> SpecProp
    decreases p,
{
    match p {
        SpecProp::Named(_) => p,
        SpecProp::Private(_) => p,
        SpecProp::Computed(e) => SpecProp::Computed(Box::new(rewrite_spec(haven, activity, *e))),
    }
}

/// An assignment target visited as a child keeps its shape; a member
/// target here (which happens only in a fallback branch) is not collapsed
/// into a `get`, only its object and computed key are rewritten.
pub open spec fn rewrite_target_spec(haven: Seq<char>, activity: bool, t: SpecTarget) -> SpecTarget
    decreases t,
{
    match t {
        SpecTarget::Member(m) => SpecTarget::Member(
            SpecMember {
                obj: Box::new(rewrite_spec(haven, activity, *m.obj)),
                prop: rewrite_prop_spec(haven, activity, m.prop),
            },
        ),
        SpecTarget::OptMember(m) => SpecTarget::OptMember(
            SpecOptMember {
                obj: Box::new(rewrite_spec(haven, activity, *m.obj)),
                prop: rewrite_prop_spec(haven, activity, m.prop),
            },
        ),
        SpecTarget::Other(o) => SpecTarget::Other(
            SpecOther {
                shape: o.shape,
                children: rewrite_exprs_spec(haven, activity, o.children),
            },
        ),
    }
}

/// A callee visited as a child is rewritten as a whole expression: in a
/// fallback branch a member callee does become a `get`.
pub open spec fn rewrite_callee_spec(haven: Seq<char>, activity: bool, c: SpecCallee) -> SpecCallee
    decreases c,
{
    match c {
        SpecCallee::Expr(e) => SpecCallee::Expr(Box::new(rewrite_spec(haven, activity, *e))),
        SpecCallee::Unsupported => c,
    }
}

/// Every argument's expression is rewritten; spread markers are kept.
pub open spec fn rewrite_args_spec(haven: Seq<char>, activity: bool, args: Seq<SpecArg>) -> Seq<
    SpecArg,
>
    decreases args,
{
    if args.len() == 0 {
        Seq::empty()
    } else {
        seq![rewrite_arg_spec(haven, activity, args[0])] + rewrite_args_spec(
            haven,
            activity,
            args.subrange(1, args.len() as int),
        )
    }
}

pub open spec fn rewrite_arg_spec(haven: Seq<char>, activity: bool, a: SpecArg) -> SpecArg
    decreases a,
{
    SpecArg { spread: a.spread, expr: rewrite_spec(haven, activity, a.expr) }
}

pub open spec fn rewrite_exprs_spec(haven: Seq<char>, activity: bool, es: Seq<SpecExpr>) -> Seq<
    SpecExpr,
>
    decreases es,
{
    if es.len() == 0 {
        Seq::empty()
    } else {
        seq![rewrite_spec(haven, activity, es[0])] + rewrite_exprs_spec(
            haven,
            activity,
            es.subrange(1, es.len() as int),
        )
    }
}

// ----------------------------------------------------------------------
// Element-by-element readings of the sequence rules, for callers that
// reason about one argument or child at a time.
// ----------------------------------------------------------------------

pub proof fn lemma_rewrite_args_pointwise(haven: Seq<char>, activity: bool, args: Seq<SpecArg>)
    ensures
        rewrite_args_spec(haven, activity, args).len() == args.len(),
        forall|i: int|
            0 <= i < args.len() ==> rewrite_args_spec(haven, activity, args)[i]
                == rewrite_arg_spec(haven, activity, args[i]),
    decreases args.len(),
{
    if args.len() > 0 {
        lemma_rewrite_args_pointwise(haven, activity, args.subrange(1, args.len() as int));
    }
}

pub proof fn lemma_rewrite_exprs_pointwise(haven: Seq<char>, activity: bool, es: Seq<SpecExpr>)
    ensures
        rewrite_exprs_spec(haven, activity, es).len() == es.len(),
        forall|i: int|
            0 <= i < es.len() ==> rewrite_exprs_spec(haven, activity, es)[i] == rewrite_spec(
                haven,
                activity,
                es[i],
            ),
    decreases es.len(),
{
    if es.len() > 0 {
        lemma_rewrite_exprs_pointwise(haven, activity, es.subrange(1, es.len() as int));
    }
}

pub proof fn lemma_supported_args_pointwise(args: Seq<SpecArg>)
    ensures
        supported_args(args) <==> (forall|i: int|
            0 <= i < args.len() ==> supported(#[trigger] args[i].expr)),
    decreases args.len(),
{
    if args.len() > 0 {
        lemma_supported_args_pointwise(args.subrange(1, args.len() as int));
        if forall|i: int| 0 <= i < args.len() ==> supported(#[trigger] args[i].expr) {
            assert forall|i: int|
                0 <= i < args.len() - 1 implies supported(
                #[trigger] args.subrange(1, args.len() as int)[i].expr,
            ) by {
                assert(args.subrange(1, args.len() as int)[i] == args[i + 1]);
            }
        } else {
            if supported_args(args) {
                assert forall|i: int| 0 <= i < args.len() implies supported(
                    #[trigger] args[i].expr,
                ) by {
                    if i > 0 {
                        assert(args[i] == args.subrange(1, args.len() as int)[i - 1]);
                    }
                }
            }
        }
    }
}

pub proof fn lemma_supported_exprs_pointwise(es: Seq<SpecExpr>)
    ensures
        supported_exprs(es) <==> (forall|i: int| 0 <= i < es.len() ==> supported(#[trigger] es[i])),
    decreases es.len(),
{
    if es.len() > 0 {
        lemma_supported_exprs_pointwise(es.subrange(1, es.len() as int));
        if forall|i: int| 0 <= i < es.len() ==> supported(#[trigger] es[i]) {
            assert forall|i: int|
                0 <= i < es.len() - 1 implies supported(
                #[trigger] es.subrange(1, es.len() as int)[i],
            ) by {
                assert(es.subrange(1, es.len() as int)[i] == es[i + 1]);
            }
        } else {
            if supported_exprs(es) {
                assert forall|i: int| 0 <= i < es.len() implies supported(#[trigger] es[i]) by {
                    if i > 0 {
                        assert(es[i] == es.subrange(1, es.len() as int)[i - 1]);
                    }
                }
            }
        }
    }
}

} // verus!
