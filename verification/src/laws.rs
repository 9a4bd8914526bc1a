//! Laws of the rewrite rules: properties that hold of every input, proved
//! from the rules themselves.

use vstd::prelude::*;

use crate::ast::SpecArg;
use crate::ast::SpecAssign;
use crate::ast::SpecCall;
use crate::ast::SpecCallee;
use crate::ast::SpecExpr;
use crate::ast::SpecLit;
use crate::ast::SpecMember;
use crate::ast::SpecOp;
use crate::ast::SpecOptMember;
use crate::ast::SpecProp;
use crate::ast::SpecTarget;
use crate::rules::active_name;
use crate::rules::call_member_name;
use crate::rules::eval_name;
use crate::rules::get_name;
use crate::rules::is_redirected;
use crate::rules::key_spec;
use crate::rules::lemma_rewrite_args_pointwise;
use crate::rules::redirect_spec;
use crate::rules::rewrite_arg_spec;
use crate::rules::rewrite_args_spec;
use crate::rules::rewrite_children_spec;
use crate::rules::rewrite_exprs_spec;
use crate::rules::rewrite_prop_spec;
use crate::rules::rewrite_spec;
use crate::rules::rewrite_target_spec;
use crate::rules::set_name;
use crate::rules::spec_active_test;
use crate::rules::spec_deactivate;
use crate::rules::spec_haven_member;
use crate::rules::spec_plain_arg;
use crate::rules::spec_wrapped;

verus! {

// ----------------------------------------------------------------------
// Nodes the dispatch never replaces.
// ----------------------------------------------------------------------

/// A tree that holds no plain member access, no assignment to a member,
/// and no call — only shapes that dispatch passes through.
pub open spec fn passthrough(e: SpecExpr) -> bool
    decreases e,
{
    match e {
        SpecExpr::Ident(_) => true,
        SpecExpr::Lit(_) => true,
        SpecExpr::Member(_) => false,
        SpecExpr::OptMember(m) => passthrough(*m.obj) && passthrough_prop(m.prop),
        SpecExpr::Assign(a) => !(a.target is Member) && passthrough_target(a.target)
            && passthrough(*a.value),
        SpecExpr::Call(_) => false,
        SpecExpr::Cond(c) => passthrough(*c.test) && passthrough(*c.cons) && passthrough(*c.alt),
        SpecExpr::Sequence(es) => passthrough_exprs(es),
        SpecExpr::Other(o) => passthrough_exprs(o.children),
    }
}

pub open spec fn passthrough_prop(p: SpecProp) -> bool
    decreases p,
{
    match p {
        SpecProp::Named(_) => true,
        SpecProp::Private(_) => true,
        SpecProp::Computed(e) => passthrough(*e),
    }
}

pub open spec fn passthrough_target(t: SpecTarget) -> bool
    decreases t,
{
    match t {
        SpecTarget::Member(_) => false,
        SpecTarget::OptMember(m) => passthrough(*m.obj) && passthrough_prop(m.prop),
        SpecTarget::Other(o) => passthrough_exprs(o.children),
    }
}

pub open spec fn passthrough_exprs(es: Seq<SpecExpr>) -> bool
    decreases es,
{
    if es.len() == 0 {
        true
    } else {
        passthrough(es[0]) && passthrough_exprs(es.subrange(1, es.len() as int))
    }
}

// ----------------------------------------------------------------------
// Idempotent classification: a tree of pass-through nodes only is returned
// unchanged — whatever the haven is called and whether or not the activity
// flag is set.
// ----------------------------------------------------------------------

/// Rewriting a tree that holds no member access, no assignment to a member
/// and no call returns it unchanged: dispatch only recurses into children,
/// and is the identity on leaves.
pub proof fn lemma_passthrough_identity(haven: Seq<char>, activity: bool, e: SpecExpr)
    requires
        passthrough(e),
    ensures
        rewrite_spec(haven, activity, e) == e,
    decreases e, 1int,
{
    assert(!is_redirected(e));
    assert(rewrite_spec(haven, activity, e) == rewrite_children_spec(haven, activity, e));
    match e {
        SpecExpr::Ident(_) => {},
        SpecExpr::Lit(_) => {},
        SpecExpr::Member(_) => {},
        SpecExpr::OptMember(m) => {
            lemma_passthrough_identity(haven, activity, *m.obj);
            lemma_passthrough_prop_identity(haven, activity, m.prop);
            assert((SpecOptMember { obj: Box::new(*m.obj), prop: m.prop }) == m);
        },
        SpecExpr::Assign(a) => {
            lemma_passthrough_target_identity(haven, activity, a.target);
            lemma_passthrough_identity(haven, activity, *a.value);
            assert((SpecAssign { op: a.op, target: a.target, value: Box::new(*a.value) }) == a);
        },
        SpecExpr::Call(_) => {},
        SpecExpr::Cond(c) => {
            lemma_passthrough_identity(haven, activity, *c.test);
            lemma_passthrough_identity(haven, activity, *c.cons);
            lemma_passthrough_identity(haven, activity, *c.alt);
            assert(rewrite_children_spec(haven, activity, e)->Cond_0 == c);
        },
        SpecExpr::Sequence(es) => {
            lemma_passthrough_exprs_identity(haven, activity, es);
        },
        SpecExpr::Other(o) => {
            lemma_passthrough_exprs_identity(haven, activity, o.children);
        },
    }
}

pub proof fn lemma_passthrough_prop_identity(haven: Seq<char>, activity: bool, p: SpecProp)
    requires
        passthrough_prop(p),
    ensures
        rewrite_prop_spec(haven, activity, p) == p,
    decreases p, 1int,
{
    match p {
        SpecProp::Named(_) => {},
        SpecProp::Private(_) => {},
        SpecProp::Computed(e) => {
            lemma_passthrough_identity(haven, activity, *e);
        },
    }
}

pub proof fn lemma_passthrough_target_identity(haven: Seq<char>, activity: bool, t: SpecTarget)
    requires
        passthrough_target(t),
    ensures
        rewrite_target_spec(haven, activity, t) == t,
    decreases t, 1int,
{
    match t {
        SpecTarget::Member(_) => {},
        SpecTarget::OptMember(m) => {
            lemma_passthrough_identity(haven, activity, *m.obj);
            lemma_passthrough_prop_identity(haven, activity, m.prop);
            assert((SpecOptMember { obj: Box::new(*m.obj), prop: m.prop }) == m);
        },
        SpecTarget::Other(o) => {
            lemma_passthrough_exprs_identity(haven, activity, o.children);
        },
    }
}

pub proof fn lemma_passthrough_exprs_identity(haven: Seq<char>, activity: bool, es: Seq<SpecExpr>)
    requires
        passthrough_exprs(es),
    ensures
        rewrite_exprs_spec(haven, activity, es) == es,
    decreases es, 1int,
{
    if es.len() > 0 {
        lemma_passthrough_identity(haven, activity, es[0]);
        lemma_passthrough_exprs_identity(haven, activity, es.subrange(1, es.len() as int));
        assert(rewrite_exprs_spec(haven, activity, es) =~= es);
    }
}

// ----------------------------------------------------------------------
// The forms of the three replacement calls.
// ----------------------------------------------------------------------

/// A member read becomes a `get` call on the haven whose two arguments are
/// the rewritten object and the resolved key, in that order: the object is
/// rewritten before the key, matching the left-to-right evaluation of the
/// original read.
pub proof fn lemma_member_get_form(haven: Seq<char>, activity: bool, m: SpecMember)
    ensures
        ({
            let r = redirect_spec(haven, activity, SpecExpr::Member(m));
            &&& r is Call
            &&& r->Call_0.callee == SpecCallee::Expr(
                Box::new(spec_haven_member(haven, get_name())),
            )
            &&& r->Call_0.args == seq![
                spec_plain_arg(rewrite_spec(haven, activity, *m.obj)),
                spec_plain_arg(key_spec(haven, activity, m.prop)),
            ]
        }),
{
}

/// An assignment to a member becomes a `set` call on the haven. The value
/// is rewritten before the target's object and key are re-resolved, and
/// the call's arguments are, in order, the rewritten object, the key and
/// the rewritten value. A plain assignment passes exactly those three; a
/// compound assignment appends exactly one more, a string literal naming
/// its update operator — the only signal the haven receives of the
/// difference.
pub proof fn lemma_assignment_set_form(haven: Seq<char>, activity: bool, a: SpecAssign)
    requires
        a.target is Member,
    ensures
        ({
            let m = a.target->Member_0;
            let obj = rewrite_spec(haven, activity, *m.obj);
            let key = key_spec(haven, activity, m.prop);
            let value = rewrite_spec(haven, activity, *a.value);
            let r = redirect_spec(haven, activity, SpecExpr::Assign(a));
            &&& r is Call
            &&& r->Call_0.callee == SpecCallee::Expr(
                Box::new(spec_haven_member(haven, set_name())),
            )
            &&& r->Call_0.args.len() == (if a.op is Plain {
                3int
            } else {
                4int
            })
            &&& r->Call_0.args[0] == spec_plain_arg(obj)
            &&& r->Call_0.args[1] == spec_plain_arg(key)
            &&& r->Call_0.args[2] == spec_plain_arg(value)
            &&& (a.op matches SpecOp::Compound(name) ==> r->Call_0.args[3] == spec_plain_arg(
                SpecExpr::Lit(SpecLit::Str(name)),
            ))
        }),
{
}

/// A call whose callee is a member access `o.m` becomes a `call_member`
/// call on the haven whose arguments are exactly the rewritten object, the
/// resolved key, and then the rewritten original arguments in their
/// original order. The callee is never independently collapsed into a
/// `get`.
pub proof fn lemma_member_call_threading(
    haven: Seq<char>,
    activity: bool,
    m: SpecMember,
    args: Seq<SpecArg>,
)
    ensures
        ({
            let call = SpecExpr::Call(
                SpecCall { callee: SpecCallee::Expr(Box::new(SpecExpr::Member(m))), args },
            );
            let r = redirect_spec(haven, activity, call);
            &&& r is Call
            &&& r->Call_0.callee == SpecCallee::Expr(
                Box::new(spec_haven_member(haven, call_member_name())),
            )
            &&& r->Call_0.args.len() == 2 + args.len()
            &&& r->Call_0.args[0] == spec_plain_arg(rewrite_spec(haven, activity, *m.obj))
            &&& r->Call_0.args[1] == spec_plain_arg(key_spec(haven, activity, m.prop))
            &&& (forall|i: int|
                0 <= i < args.len() ==> r->Call_0.args[2 + i] == rewrite_arg_spec(
                    haven,
                    activity,
                    #[trigger] args[i],
                ))
        }),
{
    lemma_rewrite_args_pointwise(haven, activity, args);
}

/// A direct call of the identifier `eval` keeps its callee untouched — it
/// is never redirected through the haven — while its arguments are still
/// rewritten, each in place.
pub proof fn lemma_eval_carve_out(haven: Seq<char>, activity: bool, args: Seq<SpecArg>)
    ensures
        ({
            let call = SpecExpr::Call(
                SpecCall {
                    callee: SpecCallee::Expr(Box::new(SpecExpr::Ident(eval_name()))),
                    args,
                },
            );
            let r = redirect_spec(haven, activity, call);
            &&& r == SpecExpr::Call(
                SpecCall {
                    callee: SpecCallee::Expr(Box::new(SpecExpr::Ident(eval_name()))),
                    args: rewrite_args_spec(haven, activity, args),
                },
            )
            &&& (forall|i: int|
                0 <= i < args.len() ==> r->Call_0.args[i] == rewrite_arg_spec(
                    haven,
                    activity,
                    #[trigger] args[i],
                ))
        }),
{
    lemma_rewrite_args_pointwise(haven, activity, args);
}

// ----------------------------------------------------------------------
// Dual-path instrumentation.
// ----------------------------------------------------------------------

/// With the activity flag enabled, every redirected node becomes one
/// conditional. Its test is the guarded read `haven?.active`, which treats
/// a missing haven like an inactive one; its first branch disables that
/// property — a write of `false` through `haven?.active` — and then
/// evaluates the intercepted form of the node; its second branch is the
/// non-intercepted form: the node's own shape with every child rewritten,
/// so interception deeper in the fallback stays possible.
pub proof fn lemma_dual_path(haven: Seq<char>, e: SpecExpr)
    requires
        is_redirected(e),
    ensures
        ({
            let r = rewrite_spec(haven, true, e);
            &&& r == spec_wrapped(haven, redirect_spec(haven, true, e), rewrite_children_spec(haven, true, e))
            &&& r is Cond
            &&& *r->Cond_0.test == spec_active_test(haven)
            &&& *r->Cond_0.cons == SpecExpr::Sequence(
                seq![spec_deactivate(haven), redirect_spec(haven, true, e)],
            )
            &&& *r->Cond_0.alt == rewrite_children_spec(haven, true, e)
            &&& spec_deactivate(haven) == SpecExpr::Assign(
                SpecAssign {
                    op: SpecOp::Plain,
                    target: SpecTarget::OptMember(
                        SpecOptMember {
                            obj: Box::new(SpecExpr::Ident(haven)),
                            prop: SpecProp::Named(active_name()),
                        },
                    ),
                    value: Box::new(SpecExpr::Lit(SpecLit::Bool(false))),
                },
            )
        }),
{
}

/// A node that no rule replaces is never wrapped in a dual-path
/// conditional, whatever the activity flag: it keeps its shape and only
/// its children are rewritten.
pub proof fn lemma_passthrough_not_wrapped(haven: Seq<char>, activity: bool, e: SpecExpr)
    requires
        !is_redirected(e),
    ensures
        rewrite_spec(haven, activity, e) == rewrite_children_spec(haven, activity, e),
{
}

} // verus!
