use haven_rewrite::Arg;
use haven_rewrite::AssignExpr;
use haven_rewrite::AssignOp;
use haven_rewrite::AssignTarget;
use haven_rewrite::CallExpr;
use haven_rewrite::Callee;
use haven_rewrite::CondExpr;
use haven_rewrite::Expr;
use haven_rewrite::Ident;
use haven_rewrite::Lit;
use haven_rewrite::MemberExpr;
use haven_rewrite::MemberProp;
use haven_rewrite::OptMemberExpr;
use haven_rewrite::OtherNode;
use haven_rewrite::Tipper;

fn ident(name: &str) -> Expr {
    Expr::Ident(Ident {
        sym: name.to_string(),
    })
}

fn str_lit(s: &str) -> Expr {
    Expr::Lit(Lit::Str(s.to_string()))
}

fn member(obj: Expr, prop: &str) -> Expr {
    Expr::Member(MemberExpr {
        obj: Box::new(obj),
        prop: MemberProp::Named(prop.to_string()),
    })
}

fn plain_arg(e: Expr) -> Arg {
    Arg {
        spread: false,
        expr: e,
    }
}

fn call(callee: Expr, args: Vec<Arg>) -> Expr {
    Expr::Call(CallExpr {
        callee: Callee::Expr(Box::new(callee)),
        args,
    })
}

/// The call the engine emits for the capability `name` of the haven `hv`.
fn haven_call(name: &str, args: Vec<Arg>) -> Expr {
    call(member(ident("hv"), name), args)
}

fn engine() -> Tipper {
    Tipper::new(Ident {
        sym: "hv".to_string(),
    })
}

fn active_engine() -> Tipper {
    let mut t = engine();
    t.activity = true;
    t
}

#[test]
fn new_engine_starts_inactive() {
    let t = engine();
    assert_eq!(t.haven.sym, "hv");
    assert!(!t.activity);
}

#[test]
fn identity_on_leaves() {
    let t = engine();
    assert_eq!(t.rewrite_expr(&ident("x")), ident("x"));
    assert_eq!(
        t.rewrite_expr(&Expr::Lit(Lit::Bool(true))),
        Expr::Lit(Lit::Bool(true))
    );
    let leaf = Expr::Other(OtherNode {
        shape: 42,
        children: vec![],
    });
    assert_eq!(
        t.rewrite_expr(&leaf),
        Expr::Other(OtherNode {
            shape: 42,
            children: vec![],
        })
    );
}

#[test]
fn member_read_becomes_get() {
    let t = engine();
    let r = t.rewrite_expr(&member(ident("a"), "b"));
    assert_eq!(
        r,
        haven_call("get", vec![plain_arg(ident("a")), plain_arg(str_lit("b"))])
    );
}

#[test]
fn computed_member_key_is_rewritten() {
    let t = engine();
    let e = Expr::Member(MemberExpr {
        obj: Box::new(ident("a")),
        prop: MemberProp::Computed(Box::new(member(ident("k"), "n"))),
    });
    let inner = haven_call("get", vec![plain_arg(ident("k")), plain_arg(str_lit("n"))]);
    assert_eq!(
        t.rewrite_expr(&e),
        haven_call("get", vec![plain_arg(ident("a")), plain_arg(inner)])
    );
}

#[test]
fn nested_member_reads_nest_gets() {
    let t = engine();
    let r = t.rewrite_expr(&member(member(ident("a"), "b"), "c"));
    let inner = haven_call("get", vec![plain_arg(ident("a")), plain_arg(str_lit("b"))]);
    assert_eq!(
        r,
        haven_call("get", vec![plain_arg(inner), plain_arg(str_lit("c"))])
    );
}

#[test]
fn plain_assignment_passes_three_arguments() {
    let t = engine();
    let e = Expr::Assign(AssignExpr {
        op: AssignOp::Plain,
        target: AssignTarget::Member(MemberExpr {
            obj: Box::new(ident("a")),
            prop: MemberProp::Named("b".to_string()),
        }),
        value: Box::new(ident("c")),
    });
    assert_eq!(
        t.rewrite_expr(&e),
        haven_call(
            "set",
            vec![
                plain_arg(ident("a")),
                plain_arg(str_lit("b")),
                plain_arg(ident("c")),
            ]
        )
    );
}

#[test]
fn compound_assignment_passes_four_arguments() {
    let t = engine();
    let e = Expr::Assign(AssignExpr {
        op: AssignOp::Compound("+".to_string()),
        target: AssignTarget::Member(MemberExpr {
            obj: Box::new(ident("o")),
            prop: MemberProp::Named("k".to_string()),
        }),
        value: Box::new(ident("v")),
    });
    assert_eq!(
        t.rewrite_expr(&e),
        haven_call(
            "set",
            vec![
                plain_arg(ident("o")),
                plain_arg(str_lit("k")),
                plain_arg(ident("v")),
                plain_arg(str_lit("+")),
            ]
        )
    );
}

#[test]
fn member_callee_threads_arguments() {
    let t = engine();
    let e = call(
        member(ident("o"), "m"),
        vec![plain_arg(ident("x")), plain_arg(ident("y"))],
    );
    assert_eq!(
        t.rewrite_expr(&e),
        haven_call(
            "call_member",
            vec![
                plain_arg(ident("o")),
                plain_arg(str_lit("m")),
                plain_arg(ident("x")),
                plain_arg(ident("y")),
            ]
        )
    );
}

#[test]
fn member_callee_without_arguments() {
    let t = engine();
    let e = call(member(ident("o"), "m"), vec![]);
    assert_eq!(
        t.rewrite_expr(&e),
        haven_call(
            "call_member",
            vec![plain_arg(ident("o")), plain_arg(str_lit("m"))]
        )
    );
}

#[test]
fn computed_assignment_key_is_rewritten() {
    let t = engine();
    let e = Expr::Assign(AssignExpr {
        op: AssignOp::Plain,
        target: AssignTarget::Member(MemberExpr {
            obj: Box::new(ident("a")),
            prop: MemberProp::Computed(Box::new(member(ident("k"), "n"))),
        }),
        value: Box::new(ident("c")),
    });
    let key = haven_call("get", vec![plain_arg(ident("k")), plain_arg(str_lit("n"))]);
    assert_eq!(
        t.rewrite_expr(&e),
        haven_call(
            "set",
            vec![
                plain_arg(ident("a")),
                plain_arg(key),
                plain_arg(ident("c")),
            ]
        )
    );
}

#[test]
fn eval_callee_is_kept_direct() {
    let t = engine();
    let e = call(ident("eval"), vec![plain_arg(member(ident("a"), "b"))]);
    let rewritten_arg = haven_call("get", vec![plain_arg(ident("a")), plain_arg(str_lit("b"))]);
    assert_eq!(
        t.rewrite_expr(&e),
        call(ident("eval"), vec![plain_arg(rewritten_arg)])
    );
}

#[test]
fn other_callee_becomes_call() {
    let t = engine();
    let e = call(ident("f"), vec![plain_arg(ident("x"))]);
    assert_eq!(
        t.rewrite_expr(&e),
        haven_call("call", vec![plain_arg(ident("f")), plain_arg(ident("x"))])
    );
}

#[test]
fn spread_markers_are_kept() {
    let t = engine();
    let e = call(
        ident("f"),
        vec![Arg {
            spread: true,
            expr: ident("xs"),
        }],
    );
    assert_eq!(
        t.rewrite_expr(&e),
        haven_call(
            "call",
            vec![
                plain_arg(ident("f")),
                Arg {
                    spread: true,
                    expr: ident("xs"),
                },
            ]
        )
    );
}

#[test]
fn non_member_assignment_keeps_its_shape() {
    let t = engine();
    let target = AssignTarget::Other(OtherNode {
        shape: 9,
        children: vec![],
    });
    let e = Expr::Assign(AssignExpr {
        op: AssignOp::Plain,
        target,
        value: Box::new(member(ident("a"), "b")),
    });
    let expected = Expr::Assign(AssignExpr {
        op: AssignOp::Plain,
        target: AssignTarget::Other(OtherNode {
            shape: 9,
            children: vec![],
        }),
        value: Box::new(haven_call(
            "get",
            vec![plain_arg(ident("a")), plain_arg(str_lit("b"))],
        )),
    });
    assert_eq!(t.rewrite_expr(&e), expected);
}

#[test]
fn unknown_shapes_keep_tag_and_recurse() {
    let t = engine();
    let e = Expr::Other(OtherNode {
        shape: 7,
        children: vec![member(ident("a"), "b"), ident("z")],
    });
    let expected = Expr::Other(OtherNode {
        shape: 7,
        children: vec![
            haven_call("get", vec![plain_arg(ident("a")), plain_arg(str_lit("b"))]),
            ident("z"),
        ],
    });
    assert_eq!(t.rewrite_expr(&e), expected);
}

#[test]
fn optional_member_is_not_redirected() {
    let t = engine();
    let e = Expr::OptMember(OptMemberExpr {
        obj: Box::new(member(ident("a"), "b")),
        prop: MemberProp::Named("c".to_string()),
    });
    let expected = Expr::OptMember(OptMemberExpr {
        obj: Box::new(haven_call(
            "get",
            vec![plain_arg(ident("a")), plain_arg(str_lit("b"))],
        )),
        prop: MemberProp::Named("c".to_string()),
    });
    assert_eq!(t.rewrite_expr(&e), expected);
}

#[test]
fn dual_path_wraps_a_member_read() {
    let t = active_engine();
    let r = t.rewrite_expr(&member(ident("a"), "b"));
    let test = Expr::OptMember(OptMemberExpr {
        obj: Box::new(ident("hv")),
        prop: MemberProp::Named("active".to_string()),
    });
    let deactivate = Expr::Assign(AssignExpr {
        op: AssignOp::Plain,
        target: AssignTarget::OptMember(OptMemberExpr {
            obj: Box::new(ident("hv")),
            prop: MemberProp::Named("active".to_string()),
        }),
        value: Box::new(Expr::Lit(Lit::Bool(false))),
    });
    let primary = haven_call("get", vec![plain_arg(ident("a")), plain_arg(str_lit("b"))]);
    let fallback = member(ident("a"), "b");
    let expected = Expr::Cond(CondExpr {
        test: Box::new(test),
        cons: Box::new(Expr::Sequence(vec![deactivate, primary])),
        alt: Box::new(fallback),
    });
    assert_eq!(r, expected);
}

#[test]
fn dual_path_leaves_passthrough_nodes_bare() {
    let t = active_engine();
    assert_eq!(t.rewrite_expr(&ident("x")), ident("x"));
    let e = Expr::Sequence(vec![ident("x"), ident("y")]);
    assert_eq!(
        t.rewrite_expr(&e),
        Expr::Sequence(vec![ident("x"), ident("y")])
    );
}

#[test]
fn dual_path_fallback_instruments_children() {
    let t = active_engine();
    // o.m(x): the fallback keeps the call but its callee, visited as an
    // ordinary child expression, is itself dual-path rewritten.
    let e = call(member(ident("o"), "m"), vec![plain_arg(ident("x"))]);
    let r = t.rewrite_expr(&e);
    match r {
        Expr::Cond(c) => {
            match *c.alt {
                Expr::Call(ref inner) => {
                    match inner.callee {
                        Callee::Expr(ref ce) => match **ce {
                            Expr::Cond(_) => {}
                            _ => panic!("fallback callee is not instrumented"),
                        },
                        _ => panic!("fallback callee vanished"),
                    }
                    assert_eq!(inner.args.len(), 1);
                }
                _ => panic!("fallback lost the call shape"),
            }
            match *c.cons {
                Expr::Sequence(ref exprs) => assert_eq!(exprs.len(), 2),
                _ => panic!("primary branch is not a sequence"),
            }
        }
        _ => panic!("redirected node was not wrapped"),
    }
}
