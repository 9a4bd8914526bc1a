//! The rewrite engine itself: an executable traversal whose result is, node
//! for node, the tree that [`crate::rules::rewrite_spec`] describes.

use vstd::prelude::*;

use vstd::pervasive::unreached;

use crate::ast::Arg;
use crate::ast::AssignExpr;
use crate::ast::AssignOp;
use crate::ast::AssignTarget;
use crate::ast::CallExpr;
use crate::ast::Callee;
use crate::ast::CondExpr;
use crate::ast::Expr;
use crate::ast::Ident;
use crate::ast::Lit;
use crate::ast::MemberExpr;
use crate::ast::MemberProp;
use crate::ast::OptMemberExpr;
use crate::ast::OtherNode;
use crate::ast::SpecArg;
use crate::ast::SpecAssign;
use crate::ast::SpecCall;
use crate::ast::SpecCallee;
use crate::ast::SpecCond;
use crate::ast::SpecExpr;
use crate::ast::SpecLit;
use crate::ast::SpecMember;
use crate::ast::SpecOp;
use crate::ast::SpecOptMember;
use crate::ast::SpecOther;
use crate::ast::SpecProp;
use crate::ast::SpecTarget;
use crate::ast::lemma_view_args_pointwise;
use crate::ast::lemma_view_exprs_pointwise;
use crate::ast::view_arg;
use crate::ast::view_args;
use crate::ast::view_assign;
use crate::ast::view_call;
use crate::ast::view_callee;
use crate::ast::view_cond;
use crate::ast::view_expr;
use crate::ast::view_exprs;
use crate::ast::view_lit;
use crate::ast::view_member;
use crate::ast::view_op;
use crate::ast::view_opt_member;
use crate::ast::view_other;
use crate::ast::view_prop;
use crate::ast::view_target;
use crate::rules::active_name;
use crate::rules::eval_name;
use crate::rules::is_redirected;
use crate::rules::key_spec;
use crate::rules::lemma_rewrite_args_pointwise;
use crate::rules::lemma_rewrite_exprs_pointwise;
use crate::rules::lemma_supported_args_pointwise;
use crate::rules::lemma_supported_exprs_pointwise;
use crate::rules::redirect_spec;
use crate::rules::rewrite_arg_spec;
use crate::rules::rewrite_args_spec;
use crate::rules::rewrite_callee_spec;
use crate::rules::rewrite_children_spec;
use crate::rules::rewrite_exprs_spec;
use crate::rules::rewrite_prop_spec;
use crate::rules::rewrite_spec;
use crate::rules::rewrite_target_spec;
use crate::rules::spec_active_test;
use crate::rules::spec_deactivate;
use crate::rules::spec_haven_call;
use crate::rules::spec_haven_member;
use crate::rules::spec_plain_arg;
use crate::rules::spec_wrapped;
use crate::rules::supported;
use crate::rules::supported_args;
use crate::rules::supported_exprs;
use crate::rules::supported_prop;
use crate::rules::supported_target;

verus! {

/// The rewrite engine: the haven's name and the activity flag. Both are
/// read-only configuration; rewriting never changes them.
#[non_exhaustive]
pub struct Tipper {
    pub haven: Ident,
    pub activity: bool,
}

/// Whether dispatch replaces this node with a call on the haven.
fn is_redirected_node(e: &Expr) -> (r: bool)
    ensures
        r == is_redirected(e@),
{
    match e {
        Expr::Member(_) => true,
        Expr::Assign(a) => {
            proof {
                assert(e@ == SpecExpr::Assign(view_assign(*a)));
                assert(view_assign(*a).target == view_target(a.target));
            }
            match &a.target {
                AssignTarget::Member(_) => true,
                _ => false,
            }
        },
        Expr::Call(_) => true,
        _ => false,
    }
}

fn copy_lit(l: &Lit) -> (r: Lit)
    ensures
        view_lit(r) == view_lit(*l),
{
    match l {
        Lit::Str(s) => Lit::Str(s.clone()),
        Lit::Bool(b) => Lit::Bool(*b),
    }
}

fn copy_op(op: &AssignOp) -> (r: AssignOp)
    ensures
        view_op(r) == view_op(*op),
{
    match op {
        AssignOp::Plain => AssignOp::Plain,
        AssignOp::Compound(name) => AssignOp::Compound(name.clone()),
    }
}

impl Tipper {
    /// Makes an engine that redirects through `haven`, with dual-path
    /// instrumentation initially disabled.
    pub fn new(haven: Ident) -> (t: Tipper)
        ensures
            t.haven == haven,
            t.activity == false,
    {
        Tipper { haven, activity: false }
    }

    /// A fresh reference to the haven.
    fn haven_ident(&self) -> (r: Expr)
        ensures
            r@ == SpecExpr::Ident(self.haven@),
    {
        Expr::Ident(Ident { sym: self.haven.sym.clone() })
    }

    /// A member access naming one of the haven's capabilities.
    fn haven_member(&self, name: &str) -> (r: Expr)
        ensures
            r@ == spec_haven_member(self.haven@, name@),
    {
        let hid = self.haven_ident();
        let prop = MemberProp::Named(name.to_owned());
        proof {
            assert(view_prop(prop) == SpecProp::Named(name@));
        }
        let m0 = MemberExpr { obj: Box::new(hid), prop };
        proof {
            assert(view_member(m0) == (SpecMember {
                obj: Box::new(SpecExpr::Ident(self.haven@)),
                prop: SpecProp::Named(name@),
            }));
        }
        Expr::Member(m0)
    }

    /// A call of one of the haven's capabilities, with the given arguments.
    fn haven_call(&self, name: &str, args: Vec<Arg>) -> (r: Expr)
        ensures
            r@ == spec_haven_call(self.haven@, name@, view_args(args@)),
    {
        let ghost args_v = view_args(args@);
        let mem = self.haven_member(name);
        let ghost mem_v = mem@;
        let c0 = CallExpr { callee: Callee::Expr(Box::new(mem)), args };
        proof {
            assert(view_callee(c0.callee) == SpecCallee::Expr(Box::new(mem_v)));
            assert(view_call(c0) == (SpecCall {
                callee: SpecCallee::Expr(Box::new(mem_v)),
                args: args_v,
            }));
        }
        Expr::Call(c0)
    }

    /// The dual-path conditional around one redirected node.
    fn wrap(&self, primary: Expr, fallback: Expr) -> (r: Expr)
        ensures
            r@ == spec_wrapped(self.haven@, primary@, fallback@),
    {
        let ghost primary_v = primary@;
        let ghost fallback_v = fallback@;
        let hid1 = self.haven_ident();
        let om1 = OptMemberExpr { obj: Box::new(hid1), prop: MemberProp::Named("active".to_owned()) };
        proof {
            assert(view_opt_member(om1) == (SpecOptMember {
                obj: Box::new(SpecExpr::Ident(self.haven@)),
                prop: SpecProp::Named(active_name()),
            }));
        }
        let test = Expr::OptMember(om1);
        proof {
            assert(test@ == spec_active_test(self.haven@));
        }
        let hid2 = self.haven_ident();
        let om2 = OptMemberExpr { obj: Box::new(hid2), prop: MemberProp::Named("active".to_owned()) };
        proof {
            assert(view_opt_member(om2) == (SpecOptMember {
                obj: Box::new(SpecExpr::Ident(self.haven@)),
                prop: SpecProp::Named(active_name()),
            }));
        }
        let target = AssignTarget::OptMember(om2);
        proof {
            assert(view_target(target) == SpecTarget::OptMember(
                SpecOptMember {
                    obj: Box::new(SpecExpr::Ident(self.haven@)),
                    prop: SpecProp::Named(active_name()),
                },
            ));
        }
        let false_lit = Expr::Lit(Lit::Bool(false));
        proof {
            assert(false_lit@ == SpecExpr::Lit(SpecLit::Bool(false)));
        }
        let a0 = AssignExpr { op: AssignOp::Plain, target, value: Box::new(false_lit) };
        proof {
            assert(view_assign(a0) == (SpecAssign {
                op: SpecOp::Plain,
                target: SpecTarget::OptMember(
                    SpecOptMember {
                        obj: Box::new(SpecExpr::Ident(self.haven@)),
                        prop: SpecProp::Named(active_name()),
                    },
                ),
                value: Box::new(SpecExpr::Lit(SpecLit::Bool(false))),
            }));
        }
        let deactivate = Expr::Assign(a0);
        proof {
            assert(deactivate@ == spec_deactivate(self.haven@));
        }
        let mut cons: Vec<Expr> = Vec::new();
        cons.push(deactivate);
        cons.push(primary);
        let ghost cons_s = cons@;
        proof {
            lemma_view_exprs_pointwise(cons_s);
            assert(view_exprs(cons_s) =~= seq![spec_deactivate(self.haven@), primary_v]);
        }
        let cons_node = Expr::Sequence(cons);
        proof {
            assert(cons_node@ == SpecExpr::Sequence(
                seq![spec_deactivate(self.haven@), primary_v],
            ));
        }
        let c0 = CondExpr {
            test: Box::new(test),
            cons: Box::new(cons_node),
            alt: Box::new(fallback),
        };
        proof {
            assert(view_cond(c0) == (SpecCond {
                test: Box::new(spec_active_test(self.haven@)),
                cons: Box::new(
                    SpecExpr::Sequence(seq![spec_deactivate(self.haven@), primary_v]),
                ),
                alt: Box::new(fallback_v),
            }));
        }
        Expr::Cond(c0)
    }

    /// Rewrites one expression: the replacement tree is exactly
    /// `rewrite_spec` of the input. Termination holds for every finite
    /// tree; each recursive step descends strictly into the input.
    pub fn rewrite_expr(&self, e: &Expr) -> (r: Expr)
        requires
            supported(e@),
        ensures
            r@ == rewrite_spec(self.haven@, self.activity, e@),
        decreases e, 3int,
    {
        if is_redirected_node(e) {
            let primary = self.redirect(e);
            if self.activity {
                let fallback = self.rewrite_children(e);
                self.wrap(primary, fallback)
            } else {
                primary
            }
        } else {
            self.rewrite_children(e)
        }
    }

    /// The key argument handed to the haven for a member property.
    fn key_expr(&self, p: &MemberProp) -> (r: Expr)
        requires
            supported_prop(view_prop(*p)),
            !(view_prop(*p) is Private),
        ensures
            r@ == key_spec(self.haven@, self.activity, view_prop(*p)),
        decreases p, 0int,
    {
        match p {
            MemberProp::Named(name) => {
                proof {
                    assert(view_prop(*p) == SpecProp::Named(name@));
                }
                let lit = Lit::Str(name.clone());
                proof {
                    assert(view_lit(lit) == SpecLit::Str(name@));
                }
                Expr::Lit(lit)
            },
            MemberProp::Private(_) => {
                proof {
                    assert(view_prop(*p) is Private);
                }
                unreached()
            },
            MemberProp::Computed(inner) => {
                proof {
                    assert(view_prop(*p) == SpecProp::Computed(Box::new(view_expr(**inner))));
                }
                self.rewrite_expr(&**inner)
            },
        }
    }

    /// The replacement call for a redirected node.
    #[verifier::rlimit(50)]
    fn redirect(&self, e: &Expr) -> (r: Expr)
        requires
            supported(e@),
            is_redirected(e@),
        ensures
            r@ == redirect_spec(self.haven@, self.activity, e@),
        decreases e, 2int,
    {
        match e {
            Expr::Member(m) => {
                proof {
                    assert(e@ == SpecExpr::Member(view_member(*m)));
                    assert(view_member(*m) == (SpecMember {
                        obj: Box::new(view_expr(*m.obj)),
                        prop: view_prop(m.prop),
                    }));
                }
                let obj = self.rewrite_expr(&*m.obj);
                let key = self.key_expr(&m.prop);
                let ghost obj_v = obj@;
                let ghost key_v = key@;
                let mut args: Vec<Arg> = Vec::new();
                args.push(Arg { spread: false, expr: obj });
                args.push(Arg { spread: false, expr: key });
                proof {
                    lemma_view_args_pointwise(args@);
                    assert(view_args(args@) =~= seq![
                        spec_plain_arg(obj_v),
                        spec_plain_arg(key_v),
                    ]);
                }
                self.haven_call("get", args)
            },
            Expr::Assign(a) => {
                proof {
                    assert(e@ == SpecExpr::Assign(view_assign(*a)));
                    assert(view_assign(*a) == (SpecAssign {
                        op: view_op(a.op),
                        target: view_target(a.target),
                        value: Box::new(view_expr(*a.value)),
                    }));
                    assert(supported_target(view_target(a.target)));
                }
                match &a.target {
                    AssignTarget::Member(m) => {
                        proof {
                            assert(view_target(a.target) == SpecTarget::Member(view_member(*m)));
                            assert(view_member(*m) == (SpecMember {
                                obj: Box::new(view_expr(*m.obj)),
                                prop: view_prop(m.prop),
                            }));
                        }
                        let value = self.rewrite_expr(&*a.value);
                        let obj = self.rewrite_expr(&*m.obj);
                        let key = self.key_expr(&m.prop);
                        let ghost value_v = value@;
                        let ghost obj_v = obj@;
                        let ghost key_v = key@;
                        let mut args: Vec<Arg> = Vec::new();
                        args.push(Arg { spread: false, expr: obj });
                        args.push(Arg { spread: false, expr: key });
                        args.push(Arg { spread: false, expr: value });
                        let ghost base = seq![
                            spec_plain_arg(obj_v),
                            spec_plain_arg(key_v),
                            spec_plain_arg(value_v),
                        ];
                        match &a.op {
                            AssignOp::Plain => {
                                proof {
                                    assert(view_op(a.op) == SpecOp::Plain);
                                    lemma_view_args_pointwise(args@);
                                    assert(view_args(args@) =~= base);
                                }
                                self.haven_call("set", args)
                            },
                            AssignOp::Compound(name) => {
                                proof {
                                    assert(view_op(a.op) == SpecOp::Compound(name@));
                                }
                                let lit = Lit::Str(name.clone());
                                proof {
                                    assert(view_lit(lit) == SpecLit::Str(name@));
                                }
                                let extra = Expr::Lit(lit);
                                proof {
                                    assert(extra@ == SpecExpr::Lit(SpecLit::Str(name@)));
                                }
                                args.push(Arg { spread: false, expr: extra });
                                proof {
                                    lemma_view_args_pointwise(args@);
                                    assert(view_args(args@) =~= base.push(
                                        spec_plain_arg(SpecExpr::Lit(SpecLit::Str(name@))),
                                    ));
                                }
                                self.haven_call("set", args)
                            },
                        }
                    },
                    _ => {
                        proof {
                            assert(!(view_target(a.target) is Member));
                        }
                        unreached()
                    },
                }
            },
            Expr::Call(c) => {
                proof {
                    assert(e@ == SpecExpr::Call(view_call(*c)));
                    assert(view_call(*c) == (SpecCall {
                        callee: view_callee(c.callee),
                        args: view_args(c.args@),
                    }));
                    assert(supported_args(view_args(c.args@)));
                }
                let mut rest = self.rewrite_args(&c.args);
                let ghost rest_seq = rest@;
                let ghost rest_v = view_args(rest@);
                proof {
                    lemma_view_args_pointwise(rest_seq);
                }
                match &c.callee {
                    Callee::Expr(ce) => {
                        proof {
                            assert(view_callee(c.callee) == SpecCallee::Expr(
                                Box::new(view_expr(**ce)),
                            ));
                            assert(supported(view_expr(**ce)));
                        }
                        match &**ce {
                            Expr::Member(m) => {
                                proof {
                                    assert(view_expr(**ce) == SpecExpr::Member(view_member(*m)));
                                    assert(view_member(*m) == (SpecMember {
                                        obj: Box::new(view_expr(*m.obj)),
                                        prop: view_prop(m.prop),
                                    }));
                                }
                                let obj = self.rewrite_expr(&*m.obj);
                                let key = self.key_expr(&m.prop);
                                let ghost obj_v = obj@;
                                let ghost key_v = key@;
                                let mut args: Vec<Arg> = Vec::new();
                                args.push(Arg { spread: false, expr: obj });
                                args.push(Arg { spread: false, expr: key });
                                args.append(&mut rest);
                                proof {
                                    lemma_view_args_pointwise(args@);
                                    assert(view_args(args@) =~= seq![
                                        spec_plain_arg(obj_v),
                                        spec_plain_arg(key_v),
                                    ] + rest_v);
                                }
                                self.haven_call("call_member", args)
                            },
                            Expr::Ident(id) => {
                                proof {
                                    assert(view_expr(**ce) == SpecExpr::Ident(id.sym@));
                                }
                                let eval_sym: String = "eval".to_owned();
                                if id.sym == eval_sym {
                                    proof {
                                        assert(id.sym@ == eval_name());
                                    }
                                    let id2 = Expr::Ident(Ident { sym: id.sym.clone() });
                                    proof {
                                        assert(id2@ == SpecExpr::Ident(id.sym@));
                                    }
                                    let c0 = CallExpr {
                                        callee: Callee::Expr(Box::new(id2)),
                                        args: rest,
                                    };
                                    proof {
                                        assert(view_callee(c0.callee) == SpecCallee::Expr(
                                            Box::new(SpecExpr::Ident(id.sym@)),
                                        ));
                                        assert(view_call(c0) == (SpecCall {
                                            callee: SpecCallee::Expr(
                                                Box::new(SpecExpr::Ident(id.sym@)),
                                            ),
                                            args: rest_v,
                                        }));
                                    }
                                    Expr::Call(c0)
                                } else {
                                    proof {
                                        assert(id.sym@ != eval_name());
                                    }
                                    let callee2 = self.rewrite_expr(&**ce);
                                    let ghost callee_v = callee2@;
                                    let mut args: Vec<Arg> = Vec::new();
                                    args.push(Arg { spread: false, expr: callee2 });
                                    args.append(&mut rest);
                                    proof {
                                        lemma_view_args_pointwise(args@);
                                        assert(view_args(args@) =~= seq![
                                            spec_plain_arg(callee_v),
                                        ] + rest_v);
                                    }
                                    self.haven_call("call", args)
                                }
                            },
                            _ => {
                                let callee2 = self.rewrite_expr(&**ce);
                                let ghost callee_v = callee2@;
                                let mut args: Vec<Arg> = Vec::new();
                                args.push(Arg { spread: false, expr: callee2 });
                                args.append(&mut rest);
                                proof {
                                    lemma_view_args_pointwise(args@);
                                    assert(view_args(args@) =~= seq![
                                        spec_plain_arg(callee_v),
                                    ] + rest_v);
                                }
                                self.haven_call("call", args)
                            },
                        }
                    },
                    Callee::Unsupported => {
                        proof {
                            assert(view_callee(c.callee) is Unsupported);
                        }
                        unreached()
                    },
                }
            },
            _ => unreached(),
        }
    }

    /// The default, shape-preserving recursion into a node's children.
    #[verifier::rlimit(50)]
    fn rewrite_children(&self, e: &Expr) -> (r: Expr)
        requires
            supported(e@),
        ensures
            r@ == rewrite_children_spec(self.haven@, self.activity, e@),
        decreases e, 1int,
    {
        match e {
            Expr::Ident(i) => {
                proof {
                    assert(e@ == SpecExpr::Ident(i.sym@));
                }
                Expr::Ident(Ident { sym: i.sym.clone() })
            },
            Expr::Lit(l) => {
                proof {
                    assert(e@ == SpecExpr::Lit(view_lit(*l)));
                }
                Expr::Lit(copy_lit(l))
            },
            Expr::Member(m) => {
                proof {
                    assert(e@ == SpecExpr::Member(view_member(*m)));
                    assert(view_member(*m) == (SpecMember {
                        obj: Box::new(view_expr(*m.obj)),
                        prop: view_prop(m.prop),
                    }));
                }
                let obj2 = self.rewrite_expr(&*m.obj);
                let prop2 = self.rewrite_prop(&m.prop);
                let ghost obj2_v = obj2@;
                let ghost prop2_v = view_prop(prop2);
                let m2 = MemberExpr { obj: Box::new(obj2), prop: prop2 };
                proof {
                    assert(view_member(m2) == (SpecMember {
                        obj: Box::new(obj2_v),
                        prop: prop2_v,
                    }));
                }
                Expr::Member(m2)
            },
            Expr::OptMember(m) => {
                proof {
                    assert(e@ == SpecExpr::OptMember(view_opt_member(*m)));
                    assert(view_opt_member(*m) == (SpecOptMember {
                        obj: Box::new(view_expr(*m.obj)),
                        prop: view_prop(m.prop),
                    }));
                }
                let obj2 = self.rewrite_expr(&*m.obj);
                let prop2 = self.rewrite_prop(&m.prop);
                let ghost obj2_v = obj2@;
                let ghost prop2_v = view_prop(prop2);
                let m2 = OptMemberExpr { obj: Box::new(obj2), prop: prop2 };
                proof {
                    assert(view_opt_member(m2) == (SpecOptMember {
                        obj: Box::new(obj2_v),
                        prop: prop2_v,
                    }));
                }
                Expr::OptMember(m2)
            },
            Expr::Assign(a) => {
                proof {
                    assert(e@ == SpecExpr::Assign(view_assign(*a)));
                    assert(view_assign(*a) == (SpecAssign {
                        op: view_op(a.op),
                        target: view_target(a.target),
                        value: Box::new(view_expr(*a.value)),
                    }));
                }
                let op2 = copy_op(&a.op);
                let target2 = self.rewrite_target(&a.target);
                let value2 = self.rewrite_expr(&*a.value);
                let ghost op2_v = view_op(op2);
                let ghost target2_v = view_target(target2);
                let ghost value2_v = value2@;
                let a2 = AssignExpr { op: op2, target: target2, value: Box::new(value2) };
                proof {
                    assert(view_assign(a2) == (SpecAssign {
                        op: op2_v,
                        target: target2_v,
                        value: Box::new(value2_v),
                    }));
                }
                Expr::Assign(a2)
            },
            Expr::Call(c) => {
                proof {
                    assert(e@ == SpecExpr::Call(view_call(*c)));
                    assert(view_call(*c) == (SpecCall {
                        callee: view_callee(c.callee),
                        args: view_args(c.args@),
                    }));
                }
                let callee2 = self.rewrite_callee(&c.callee);
                let args2 = self.rewrite_args(&c.args);
                let ghost callee2_v = view_callee(callee2);
                let ghost args2_v = view_args(args2@);
                let c2 = CallExpr { callee: callee2, args: args2 };
                proof {
                    assert(view_call(c2) == (SpecCall { callee: callee2_v, args: args2_v }));
                }
                Expr::Call(c2)
            },
            Expr::Cond(c) => {
                proof {
                    assert(e@ == SpecExpr::Cond(view_cond(*c)));
                    assert(view_cond(*c) == (SpecCond {
                        test: Box::new(view_expr(*c.test)),
                        cons: Box::new(view_expr(*c.cons)),
                        alt: Box::new(view_expr(*c.alt)),
                    }));
                }
                let test2 = self.rewrite_expr(&*c.test);
                let cons2 = self.rewrite_expr(&*c.cons);
                let alt2 = self.rewrite_expr(&*c.alt);
                let ghost test2_v = test2@;
                let ghost cons2_v = cons2@;
                let ghost alt2_v = alt2@;
                let c2 = CondExpr {
                    test: Box::new(test2),
                    cons: Box::new(cons2),
                    alt: Box::new(alt2),
                };
                proof {
                    assert(view_cond(c2) == (SpecCond {
                        test: Box::new(test2_v),
                        cons: Box::new(cons2_v),
                        alt: Box::new(alt2_v),
                    }));
                }
                Expr::Cond(c2)
            },
            Expr::Sequence(es) => {
                proof {
                    assert(e@ == SpecExpr::Sequence(view_exprs(es@)));
                }
                Expr::Sequence(self.rewrite_exprs(es))
            },
            Expr::Other(o) => {
                proof {
                    assert(e@ == SpecExpr::Other(view_other(*o)));
                    assert(view_other(*o) == (SpecOther {
                        shape: o.shape,
                        children: view_exprs(o.children@),
                    }));
                }
                let children2 = self.rewrite_exprs(&o.children);
                let ghost children2_v = view_exprs(children2@);
                let o2 = OtherNode { shape: o.shape, children: children2 };
                proof {
                    assert(view_other(o2) == (SpecOther {
                        shape: o.shape,
                        children: children2_v,
                    }));
                }
                Expr::Other(o2)
            },
        }
    }

    /// A property visited as a child.
    fn rewrite_prop(&self, p: &MemberProp) -> (r: MemberProp)
        requires
            supported_prop(view_prop(*p)),
        ensures
            view_prop(r) == rewrite_prop_spec(self.haven@, self.activity, view_prop(*p)),
        decreases p, 0int,
    {
        match p {
            MemberProp::Named(name) => {
                proof {
                    assert(view_prop(*p) == SpecProp::Named(name@));
                }
                MemberProp::Named(name.clone())
            },
            MemberProp::Private(name) => {
                proof {
                    assert(view_prop(*p) == SpecProp::Private(name@));
                }
                MemberProp::Private(name.clone())
            },
            MemberProp::Computed(inner) => {
                proof {
                    assert(view_prop(*p) == SpecProp::Computed(Box::new(view_expr(**inner))));
                }
                MemberProp::Computed(Box::new(self.rewrite_expr(&**inner)))
            },
        }
    }

    /// An assignment target visited as a child.
    fn rewrite_target(&self, t: &AssignTarget) -> (r: AssignTarget)
        requires
            supported_target(view_target(*t)),
        ensures
            view_target(r) == rewrite_target_spec(self.haven@, self.activity, view_target(*t)),
        decreases t, 0int,
    {
        match t {
            AssignTarget::Member(m) => {
                proof {
                    assert(view_target(*t) == SpecTarget::Member(view_member(*m)));
                    assert(view_member(*m) == (SpecMember {
                        obj: Box::new(view_expr(*m.obj)),
                        prop: view_prop(m.prop),
                    }));
                }
                let obj2 = self.rewrite_expr(&*m.obj);
                let prop2 = self.rewrite_prop(&m.prop);
                let ghost obj2_v = obj2@;
                let ghost prop2_v = view_prop(prop2);
                let m2 = MemberExpr { obj: Box::new(obj2), prop: prop2 };
                proof {
                    assert(view_member(m2) == (SpecMember {
                        obj: Box::new(obj2_v),
                        prop: prop2_v,
                    }));
                }
                AssignTarget::Member(m2)
            },
            AssignTarget::OptMember(m) => {
                proof {
                    assert(view_target(*t) == SpecTarget::OptMember(view_opt_member(*m)));
                    assert(view_opt_member(*m) == (SpecOptMember {
                        obj: Box::new(view_expr(*m.obj)),
                        prop: view_prop(m.prop),
                    }));
                }
                let obj2 = self.rewrite_expr(&*m.obj);
                let prop2 = self.rewrite_prop(&m.prop);
                let ghost obj2_v = obj2@;
                let ghost prop2_v = view_prop(prop2);
                let m2 = OptMemberExpr { obj: Box::new(obj2), prop: prop2 };
                proof {
                    assert(view_opt_member(m2) == (SpecOptMember {
                        obj: Box::new(obj2_v),
                        prop: prop2_v,
                    }));
                }
                AssignTarget::OptMember(m2)
            },
            AssignTarget::Other(o) => {
                proof {
                    assert(view_target(*t) == SpecTarget::Other(view_other(*o)));
                    assert(view_other(*o) == (SpecOther {
                        shape: o.shape,
                        children: view_exprs(o.children@),
                    }));
                }
                let children2 = self.rewrite_exprs(&o.children);
                let ghost children2_v = view_exprs(children2@);
                let o2 = OtherNode { shape: o.shape, children: children2 };
                proof {
                    assert(view_other(o2) == (SpecOther {
                        shape: o.shape,
                        children: children2_v,
                    }));
                }
                AssignTarget::Other(o2)
            },
        }
    }

    /// A callee visited as a child.
    fn rewrite_callee(&self, c: &Callee) -> (r: Callee)
        requires
            view_callee(*c) is Expr ==> supported(*view_callee(*c)->Expr_0),
        ensures
            view_callee(r) == rewrite_callee_spec(self.haven@, self.activity, view_callee(*c)),
        decreases c, 0int,
    {
        match c {
            Callee::Expr(inner) => {
                proof {
                    assert(view_callee(*c) == SpecCallee::Expr(Box::new(view_expr(**inner))));
                }
                Callee::Expr(Box::new(self.rewrite_expr(&**inner)))
            },
            Callee::Unsupported => {
                proof {
                    assert(view_callee(*c) == SpecCallee::Unsupported);
                }
                Callee::Unsupported
            },
        }
    }

    /// Rewrites every argument's expression, keeping spread markers.
    fn rewrite_args(&self, args: &Vec<Arg>) -> (r: Vec<Arg>)
        requires
            supported_args(view_args(args@)),
        ensures
            view_args(r@) == rewrite_args_spec(self.haven@, self.activity, view_args(args@)),
        decreases args@, 0int,
    {
        let ghost h = self.haven@;
        let ghost act = self.activity;
        proof {
            lemma_view_args_pointwise(args@);
            lemma_supported_args_pointwise(view_args(args@));
        }
        let mut out: Vec<Arg> = Vec::new();
        let mut i: usize = 0;
        while i < args.len()
            invariant
                0 <= i <= args@.len(),
                out@.len() == i,
                supported_args(view_args(args@)),
                view_args(args@).len() == args@.len(),
                forall|k: int| 0 <= k < args@.len() ==> view_args(args@)[k] == view_arg(
                    #[trigger] args@[k],
                ),
                forall|k: int|
                    0 <= k < args@.len() ==> supported(#[trigger] view_args(args@)[k].expr),
                forall|j: int|
                    0 <= j < i ==> view_arg(#[trigger] out@[j]) == rewrite_arg_spec(
                        h,
                        act,
                        view_arg(args@[j]),
                    ),
                h == self.haven@,
                act == self.activity,
            decreases args@.len() - i,
        {
            let a = &args[i];
            proof {
                assert(view_args(args@)[i as int] == view_arg(args@[i as int]));
                assert(supported(view_args(args@)[i as int].expr));
                assert(view_arg(args@[i as int]) == (SpecArg {
                    spread: args@[i as int].spread,
                    expr: view_expr(args@[i as int].expr),
                }));
            }
            let e2 = self.rewrite_expr(&a.expr);
            let ghost e2_v = e2@;
            let a2 = Arg { spread: a.spread, expr: e2 };
            proof {
                assert(view_arg(a2) == (SpecArg { spread: a.spread, expr: e2_v }));
            }
            out.push(a2);
            i = i + 1;
        }
        proof {
            lemma_view_args_pointwise(out@);
            lemma_rewrite_args_pointwise(h, act, view_args(args@));
            assert(view_args(out@) =~= rewrite_args_spec(h, act, view_args(args@)));
        }
        out
    }

    /// Rewrites every expression of a list in place.
    fn rewrite_exprs(&self, es: &Vec<Expr>) -> (r: Vec<Expr>)
        requires
            supported_exprs(view_exprs(es@)),
        ensures
            view_exprs(r@) == rewrite_exprs_spec(self.haven@, self.activity, view_exprs(es@)),
        decreases es@, 0int,
    {
        let ghost h = self.haven@;
        let ghost act = self.activity;
        proof {
            lemma_view_exprs_pointwise(es@);
            lemma_supported_exprs_pointwise(view_exprs(es@));
        }
        let mut out: Vec<Expr> = Vec::new();
        let mut i: usize = 0;
        while i < es.len()
            invariant
                0 <= i <= es@.len(),
                out@.len() == i,
                supported_exprs(view_exprs(es@)),
                view_exprs(es@).len() == es@.len(),
                forall|k: int| 0 <= k < es@.len() ==> view_exprs(es@)[k] == view_expr(
                    #[trigger] es@[k],
                ),
                forall|k: int| 0 <= k < es@.len() ==> supported(#[trigger] view_exprs(es@)[k]),
                forall|j: int|
                    0 <= j < i ==> view_expr(#[trigger] out@[j]) == rewrite_spec(
                        h,
                        act,
                        view_expr(es@[j]),
                    ),
                h == self.haven@,
                act == self.activity,
            decreases es@.len() - i,
        {
            proof {
                assert(view_exprs(es@)[i as int] == view_expr(es@[i as int]));
                assert(supported(view_exprs(es@)[i as int]));
            }
            let e2 = self.rewrite_expr(&es[i]);
            out.push(e2);
            i = i + 1;
        }
        proof {
            lemma_view_exprs_pointwise(out@);
            lemma_rewrite_exprs_pointwise(h, act, view_exprs(es@));
            assert(view_exprs(out@) =~= rewrite_exprs_spec(h, act, view_exprs(es@)));
        }
        out
    }
}

} // verus!
