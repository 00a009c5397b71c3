use voile::abs::{Abs, LabAbs};
use voile::check::{check, check_subtype, check_type, infer};
use voile::common::{Label, SyntaxInfo, VarRec, Visib};
use voile::error::TCE;
use voile::tcs::TCS;
use voile::term::{Closure, ClosureBody, DtKind, LocalEnv, Neutral, Term, TermInfo};
use voile::unify::unify;

fn here() -> SyntaxInfo {
    SyntaxInfo { start: 0, end: 0 }
}

fn ti(ast: Term) -> TermInfo {
    TermInfo::new(ast, here())
}

/// A closure with the given parameter type and constant body, capturing
/// an empty environment.
fn const_closure(param: Term, body: Term) -> Closure {
    Closure {
        param_type: Box::new(param),
        body: ClosureBody { body: Box::new(ti(body)), env: LocalEnv::Nil },
    }
}

#[test]
fn universe_check_succeeds_below() {
    // Scenario: check(Type(0), Type(1)) elaborates to Type(0).
    let (t, tcs) = check(TCS::new(), Abs::Type(here(), 0), Term::Type(1)).unwrap();
    assert_eq!(t.ast, Term::Type(0));
    assert_eq!(tcs.local_gamma.len(), 0);
    assert_eq!(tcs.local_env.len(), 0);
}

#[test]
fn universe_check_level_mismatch() {
    // Scenario: check(Type(1), Type(1)) fails with LevelMismatch(_, 2, 1).
    let e = check(TCS::new(), Abs::Type(here(), 1), Term::Type(1)).unwrap_err();
    match e {
        TCE::LevelMismatch(_, small, big) => {
            assert_eq!(small, 2);
            assert_eq!(big, 1);
        }
        other => panic!("expected LevelMismatch, got {:?}", other),
    }
}

#[test]
fn universe_cumulativity_sweep() {
    for i in 0..4u32 {
        for j in 0..4u32 {
            let r = check(TCS::new(), Abs::Type(here(), i), Term::Type(j));
            if i < j {
                assert_eq!(r.unwrap().0.ast, Term::Type(i));
            } else {
                match r.unwrap_err() {
                    TCE::LevelMismatch(_, small, big) => {
                        assert_eq!(small, i + 1);
                        assert_eq!(big, j);
                    }
                    other => panic!("expected LevelMismatch, got {:?}", other),
                }
            }
        }
    }
}

#[test]
fn app_inference_instantiates_codomain() {
    // Scenario: with f : Pi(Type(5), Type(7)) and the argument checked
    // against Type(5), infer(App(f, a)) is the codomain at the argument.
    let mut tcs = TCS::new();
    let pi = Term::pi(Visib::Explicit, const_closure(Term::Type(5), Term::Type(7)));
    tcs.push_local(ti(pi), ti(Term::mock()));
    let app = Abs::App(
        here(),
        Box::new(Abs::Local(here(), 0)),
        Box::new(Abs::Type(here(), 3)),
    );
    let (t, tcs) = infer(tcs, app).unwrap();
    assert_eq!(t.ast, Term::Type(7));
    assert_eq!(tcs.local_gamma.len(), 1);
}

#[test]
fn fst_on_non_sigma_fails() {
    // Scenario: infer(Fst(x)) where x's type is not a Sigma.
    let mut tcs = TCS::new();
    tcs.push_local(ti(Term::Type(0)), ti(Term::mock()));
    let e = infer(tcs, Abs::Fst(here(), Box::new(Abs::Local(here(), 0)))).unwrap_err();
    match e {
        TCE::NotSigma(_, actual) => assert_eq!(actual, Term::Type(0)),
        other => panic!("expected NotSigma, got {:?}", other),
    }
}

#[test]
fn duplicate_record_field_fails() {
    // Scenario: a record literal with two fields named "x".
    let fields = vec![
        LabAbs {
            label: Label { info: here(), text: "x".to_owned() },
            expr: Abs::Type(here(), 0),
        },
        LabAbs {
            label: Label { info: here(), text: "x".to_owned() },
            expr: Abs::Bot(here()),
        },
    ];
    let e = check(TCS::new(), Abs::Rec(here(), fields), Term::Type(0)).unwrap_err();
    match e {
        TCE::DuplicateField(_, name) => assert_eq!(name, "x"),
        other => panic!("expected DuplicateField, got {:?}", other),
    }
}

#[test]
fn unify_universe_against_pi_fails() {
    // Scenario: unifying Type(0) against a Pi-type value.
    let pi = Term::pi(Visib::Explicit, const_closure(Term::Type(0), Term::Type(0)));
    let a = Term::Type(0);
    let e = unify(TCS::new(), &a, &pi).unwrap_err();
    match e {
        TCE::CannotUnify(left, right) => {
            assert_eq!(left, Term::Type(0));
            assert_eq!(
                right,
                Term::pi(Visib::Explicit, const_closure(Term::Type(0), Term::Type(0)))
            );
        }
        other => panic!("expected CannotUnify, got {:?}", other),
    }
}

#[test]
fn unify_equal_values_succeeds() {
    let pi1 = Term::pi(Visib::Explicit, const_closure(Term::Type(1), Term::Type(2)));
    let pi2 = Term::pi(Visib::Explicit, const_closure(Term::Type(1), Term::Type(2)));
    unify(TCS::new(), &pi1, &pi2).unwrap();
    let p1 = Term::pair(Term::Type(0), Term::Bot(1));
    let p2 = Term::pair(Term::Type(0), Term::Bot(1));
    unify(TCS::new(), &p1, &p2).unwrap();
    let e = unify(TCS::new(), &p1, &Term::pair(Term::Type(0), Term::Bot(2))).unwrap_err();
    assert!(matches!(e, TCE::CannotUnify(_, _)));
}

#[test]
fn bot_checks_against_universe() {
    let (t, _) = check(TCS::new(), Abs::Bot(here()), Term::Type(3)).unwrap();
    assert_eq!(t.ast, Term::Bot(2));
    // The level-zero corner: the grade bottoms out instead of wrapping.
    let (t0, _) = check(TCS::new(), Abs::Bot(here()), Term::Type(0)).unwrap();
    assert_eq!(t0.ast, Term::Bot(0));
}

#[test]
fn local_variable_checks_by_subtyping() {
    let mut tcs = TCS::new();
    tcs.push_local(ti(Term::Type(1)), ti(Term::mock()));
    // x : Type(1) checks against Type(4) by cumulativity.
    let (t, _) = check(tcs, Abs::Local(here(), 0), Term::Type(4)).unwrap();
    assert_eq!(t.ast, Term::gen(0));

    let mut tcs2 = TCS::new();
    tcs2.push_local(ti(Term::Type(5)), ti(Term::mock()));
    let e = check(tcs2, Abs::Local(here(), 0), Term::Type(2)).unwrap_err();
    match e {
        TCE::NotSubtype(sub, sup) => {
            assert_eq!(sub, Term::Type(5));
            assert_eq!(sup, Term::Type(2));
        }
        other => panic!("expected NotSubtype, got {:?}", other),
    }
}

#[test]
fn out_of_bounds_index_is_reported() {
    let e = infer(TCS::new(), Abs::Local(here(), 0)).unwrap_err();
    match e {
        TCE::DbiOverflow(max, requested) => {
            assert_eq!(max, 0);
            assert_eq!(requested, 0);
        }
        other => panic!("expected DbiOverflow, got {:?}", other),
    }
}

#[test]
fn unsupported_shapes_fail_explicitly() {
    // A lambda cannot be inferred: analysis-directed shapes need check.
    let lam = Abs::Lam(here(), here(), Box::new(Abs::Local(here(), 0)));
    assert!(matches!(infer(TCS::new(), lam).unwrap_err(), TCE::CannotInfer(_, _)));
    // A pair is no type expression.
    let pair = Abs::Pair(
        here(),
        Box::new(Abs::Type(here(), 0)),
        Box::new(Abs::Type(here(), 0)),
    );
    assert!(matches!(check_type(TCS::new(), pair).unwrap_err(), TCE::NotTypeAbs(_, _)));
    // Applying a universe: NotPi.
    let app = Abs::App(
        here(),
        Box::new(Abs::Type(here(), 0)),
        Box::new(Abs::Bot(here())),
    );
    assert!(matches!(infer(TCS::new(), app).unwrap_err(), TCE::NotPi(_, _)));
}

#[test]
fn row_type_errors() {
    // A well-formed record literal still cannot match a core type.
    let fields = vec![LabAbs {
        label: Label { info: here(), text: "x".to_owned() },
        expr: Abs::Type(here(), 0),
    }];
    let e = check(TCS::new(), Abs::Rec(here(), fields), Term::Type(0)).unwrap_err();
    assert!(matches!(e, TCE::NotRowType(VarRec::Record, _, _)));
    // A variant row type with a repeated tag overlaps.
    let fields2 = vec![
        LabAbs {
            label: Label { info: here(), text: "cons".to_owned() },
            expr: Abs::Type(here(), 0),
        },
        LabAbs {
            label: Label { info: here(), text: "cons".to_owned() },
            expr: Abs::Type(here(), 0),
        },
    ];
    let e2 = check(
        TCS::new(),
        Abs::RowPoly(here(), VarRec::Variant, fields2),
        Term::Type(0),
    )
    .unwrap_err();
    match e2 {
        TCE::OverlappingVariant(_, name) => assert_eq!(name, "cons"),
        other => panic!("expected OverlappingVariant, got {:?}", other),
    }
}

#[test]
fn check_type_elaborates_pi() {
    // Pi(Type(0), Type(0)) is a type expression and elaborates to a Dt.
    let dt = Abs::Dt(
        here(),
        Visib::Explicit,
        DtKind::Pi,
        Box::new(Abs::Type(here(), 0)),
        Box::new(Abs::Type(here(), 0)),
    );
    let (t, tcs) = check_type(TCS::new(), dt).unwrap();
    match t.ast {
        Term::Dt(Visib::Explicit, DtKind::Pi, closure) => {
            assert_eq!(*closure.param_type, Term::Type(0));
            assert_eq!(closure.body.body.ast, Term::Type(0));
            assert_eq!(closure.body.env, LocalEnv::Nil);
        }
        other => panic!("expected a dependent type, got {:?}", other),
    }
    assert_eq!(tcs.local_gamma.len(), 0);
    assert_eq!(tcs.local_env.len(), 0);
}

#[test]
fn pair_checks_against_sigma() {
    // (Type(0), Type(1)) against Sigma(Type(1), Type(2)).
    let sigma = Term::sig(Visib::Explicit, const_closure(Term::Type(1), Term::Type(2)));
    let pair = Abs::Pair(
        here(),
        Box::new(Abs::Type(here(), 0)),
        Box::new(Abs::Type(here(), 1)),
    );
    let (t, tcs) = check(TCS::new(), pair, sigma).unwrap();
    assert_eq!(t.ast, Term::pair(Term::Type(0), Term::Type(1)));
    assert_eq!(tcs.local_gamma.len(), 0);
    assert_eq!(tcs.local_env.len(), 0);
}

#[test]
fn non_dependent_sigma_inference() {
    // infer (Type(0), Bot-at-1) synthesizes an independent Sigma.
    let mut tcs = TCS::new();
    tcs.push_local(ti(Term::Type(0)), ti(Term::mock()));
    let pair = Abs::Pair(
        here(),
        Box::new(Abs::Type(here(), 0)),
        Box::new(Abs::Local(here(), 0)),
    );
    let (t, _) = infer(tcs, pair).unwrap();
    match t.ast {
        Term::Dt(Visib::Explicit, DtKind::Sigma, closure) => {
            assert_eq!(*closure.param_type, Term::Type(1));
            assert_eq!(closure.body.body.ast, Term::Type(0));
        }
        other => panic!("expected a Sigma, got {:?}", other),
    }
}

#[test]
fn subtype_universes_only() {
    let tcs = check_subtype(TCS::new(), &Term::Type(2), &Term::Type(2)).unwrap();
    check_subtype(tcs, &Term::Type(0), &Term::Type(9)).unwrap();
    let e = check_subtype(TCS::new(), &Term::Bot(0), &Term::Bot(0)).unwrap_err();
    assert!(matches!(e, TCE::NotSubtype(_, _)));
}

#[test]
fn method_forms_match_free_functions() {
    let (t, _) = TCS::new().check(Abs::Type(here(), 0), Term::Type(1)).unwrap();
    assert_eq!(t.ast, Term::Type(0));
    let e = TCS::new().infer(Abs::Local(here(), 3)).unwrap_err();
    assert!(matches!(e, TCE::DbiOverflow(0, 3)));
    let (t2, _) = TCS::new().check_type(Abs::Bot(here())).unwrap();
    assert_eq!(t2.ast, Term::Bot(0));
    TCS::new().check_subtype(&Term::Type(0), &Term::Type(0)).unwrap();
}

#[test]
fn error_helpers() {
    let inner = TCE::TypeNotInGamma(SyntaxInfo { start: 1, end: 2 });
    let wrapped = inner.wrap(SyntaxInfo { start: 3, end: 4 });
    match wrapped {
        TCE::Wrapped(boxed, info) => {
            assert_eq!(*boxed, TCE::TypeNotInGamma(SyntaxInfo { start: 1, end: 2 }));
            assert_eq!(info, SyntaxInfo { start: 3, end: 4 });
        }
        other => panic!("expected Wrapped, got {:?}", other),
    }
    let dup = TCE::duplicate_field(Label { info: here(), text: "y".to_owned() });
    assert_eq!(dup, TCE::DuplicateField(here(), "y".to_owned()));
}

#[test]
fn lambda_checks_against_pi() {
    // \x. x against Pi(Type(3), Type(5)): the body is elaborated under
    // the parameter's binding; the rule hands the body's elaboration
    // back.
    let pi = Term::pi(Visib::Explicit, const_closure(Term::Type(3), Term::Type(5)));
    let lam = Abs::Lam(here(), here(), Box::new(Abs::Local(here(), 0)));
    let (t, tcs) = check(TCS::new(), lam, pi).unwrap();
    assert_eq!(t.ast, Term::gen(0));
    assert_eq!(tcs.local_gamma.len(), 0);
    assert_eq!(tcs.local_env.len(), 0);
}

#[test]
fn type_former_checks_against_universe() {
    // Sigma(Type(0), Bot) against Type(9) goes through the type-former
    // rule and rebuilds the dependent type.
    let dt = Abs::Dt(
        here(),
        Visib::Explicit,
        DtKind::Sigma,
        Box::new(Abs::Type(here(), 0)),
        Box::new(Abs::Bot(here())),
    );
    let (t, tcs) = check(TCS::new(), dt, Term::Type(9)).unwrap();
    match t.ast {
        Term::Dt(Visib::Explicit, DtKind::Sigma, closure) => {
            assert_eq!(*closure.param_type, Term::Type(0));
            assert_eq!(closure.body.body.ast, Term::Bot(0));
        }
        other => panic!("expected a dependent type, got {:?}", other),
    }
    assert_eq!(tcs.local_gamma.len(), 0);
}

#[test]
fn runaway_codomain_reports_the_budget() {
    // A pair checked against a Sigma whose codomain loops forever: the
    // checker reports the evaluation budget instead of diverging.
    let self_app = Term::app(Neutral::Gen(Some(0)), Term::gen(0));
    let omega = Term::Lam(Closure {
        param_type: Box::new(Term::Type(0)),
        body: ClosureBody {
            body: Box::new(ti(self_app.duplicate())),
            env: LocalEnv::Nil,
        },
    });
    let looping_body = Term::app(Neutral::Gen(Some(1)), Term::gen(1));
    let sigma = Term::sig(
        Visib::Explicit,
        Closure {
            param_type: Box::new(Term::Type(1)),
            body: ClosureBody {
                body: Box::new(ti(looping_body)),
                env: LocalEnv::Nil.cons(omega),
            },
        },
    );
    let pair = Abs::Pair(
        here(),
        Box::new(Abs::Type(here(), 0)),
        Box::new(Abs::Type(here(), 0)),
    );
    let e = check(TCS::new(), pair, sigma).unwrap_err();
    assert!(matches!(e, TCE::EvalLimit(_)));
}

#[test]
fn globals_are_consulted_by_index() {
    // The driver populates the global table in dependency order; a
    // global reference synthesizes the stored type, and as a type
    // expression it elaborates to the stored value.
    let mut tcs = TCS::new();
    tcs.global_gamma.push(ti(Term::Type(1)));
    tcs.global_env.push(ti(Term::Bot(0)));
    let (t, tcs) = infer(tcs, Abs::Var(here(), 0)).unwrap();
    assert_eq!(t.ast, Term::Type(1));
    let (v, _) = check_type(tcs, Abs::Var(here(), 0)).unwrap();
    assert_eq!(v.ast, Term::Bot(0));
    // An index beyond the table is a structural bug, reported as such.
    let e = infer(TCS::new(), Abs::Var(here(), 2)).unwrap_err();
    assert!(matches!(e, TCE::DbiOverflow(0, 2)));
}

#[test]
fn type_former_closure_captures_the_environment() {
    // Elaborating a dependent type under a nonempty context captures
    // the values in scope, innermost first, in the closure.
    let mut tcs = TCS::new();
    tcs.push_local(ti(Term::Type(6)), ti(Term::Type(5)));
    let dt = Abs::Dt(
        here(),
        Visib::Explicit,
        DtKind::Pi,
        Box::new(Abs::Type(here(), 0)),
        Box::new(Abs::Type(here(), 0)),
    );
    let (t, _) = check_type(tcs, dt).unwrap();
    match t.ast {
        Term::Dt(_, _, closure) => {
            assert_eq!(
                closure.body.env,
                LocalEnv::Cons(Box::new(Term::Type(5)), Box::new(LocalEnv::Nil))
            );
        }
        other => panic!("expected a dependent type, got {:?}", other),
    }
}
