use voile::common::{SyntaxInfo, Visib};
use voile::term::{Closure, ClosureBody, DtKind, LocalEnv, Neutral, Term, TermInfo};

fn here() -> SyntaxInfo {
    SyntaxInfo { start: 0, end: 0 }
}

/// The identity function as a closure: its body is the innermost
/// variable, under an empty captured environment.
fn identity_closure(param: Term) -> Closure {
    Closure {
        param_type: Box::new(param),
        body: ClosureBody {
            body: Box::new(TermInfo::new(Term::gen(0), here())),
            env: LocalEnv::Nil,
        },
    }
}

#[test]
fn beta_law() {
    // apply(Lam(closure), a) equals closure.body.instantiate(a).
    let closure = identity_closure(Term::Type(0));
    let arg = Term::pair(Term::Type(1), Term::Bot(0));
    let via_apply = Term::Lam(closure.duplicate()).apply(arg.duplicate()).unwrap();
    let via_instantiate = closure.body.instantiate(arg.duplicate()).unwrap();
    assert_eq!(via_apply, via_instantiate);
    assert_eq!(via_apply, arg);
}

#[test]
fn projection_laws() {
    // first(pair(a, b)) reduces to a; second(pair(a, b)) reduces to b.
    let a = Term::Type(3);
    let b = Term::Bot(1);
    assert_eq!(Term::pair(a.duplicate(), b.duplicate()).first(), a);
    assert_eq!(Term::pair(a.duplicate(), b.duplicate()).second(), b);
}

#[test]
fn projections_on_neutrals_stay_stuck() {
    let n = Neutral::Gen(Some(4));
    assert_eq!(Term::Neut(n.duplicate()).first(), Term::fst(n.duplicate()));
    assert_eq!(Term::Neut(n.duplicate()).second(), Term::snd(n));
}

#[test]
fn reduce_resolves_environment_references() {
    let env = LocalEnv::new().cons(Term::Type(9));
    // The innermost index resolves to the stored value.
    assert_eq!(Term::gen(0).reduce(&env).unwrap(), Term::Type(9));
    // An absent index stays a generated reference.
    assert_eq!(Term::gen(5).reduce(&env).unwrap(), Term::gen(5));
    // A postulate stays opaque.
    assert_eq!(Term::mock().reduce(&env).unwrap(), Term::mock());
}

#[test]
fn reduce_beta_redex_under_environment() {
    // Under env = [identity], the stuck application (gen 0) (Type 7)
    // beta-reduces all the way to Type 7.
    let env = LocalEnv::new().cons(Term::Lam(identity_closure(Term::Type(8))));
    let redex = Term::app(Neutral::Gen(Some(0)), Term::Type(7));
    assert_eq!(redex.reduce(&env).unwrap(), Term::Type(7));
}

#[test]
fn reduce_projection_of_pair() {
    // fst (gen 0) under env = [(Type 1, Type 2)] reduces to Type 1.
    let env = LocalEnv::new().cons(Term::pair(Term::Type(1), Term::Type(2)));
    let fst = Term::fst(Neutral::Gen(Some(0)));
    assert_eq!(fst.reduce(&env).unwrap(), Term::Type(1));
    let snd = Term::snd(Neutral::Gen(Some(0)));
    assert_eq!(snd.reduce(&env).unwrap(), Term::Type(2));
}

#[test]
fn reduce_is_idempotent_on_first_order_terms() {
    // reduce(reduce(t, env), env) == reduce(t, env) for terms and
    // environments free of closures.
    let env = LocalEnv::new().cons(Term::Type(2)).cons(Term::pair(Term::Type(0), Term::Bot(0)));
    let terms = vec![
        Term::Type(0),
        Term::gen(0),
        Term::gen(1),
        Term::gen(7),
        Term::pair(Term::gen(0), Term::gen(1)),
        Term::fst(Neutral::Gen(Some(0))),
        Term::snd(Neutral::Gen(Some(0))),
        Term::app(Neutral::Gen(Some(9)), Term::gen(1)),
        Term::mock(),
    ];
    for t in terms {
        let once = t.duplicate().reduce(&env).unwrap();
        let twice = once.duplicate().reduce(&env).unwrap();
        assert_eq!(twice, once);
    }
}

#[test]
fn canonical_shapes_pass_through() {
    let env = LocalEnv::new().cons(Term::Type(0));
    let lam = Term::Lam(identity_closure(Term::Type(1)));
    assert_eq!(lam.duplicate().reduce(&env).unwrap(), lam);
    let pi = Term::pi(Visib::Explicit, identity_closure(Term::Type(1)));
    assert_eq!(pi.duplicate().reduce(&env).unwrap(), pi);
    assert_eq!(Term::Bot(4).reduce(&env).unwrap(), Term::Bot(4));
}

#[test]
fn term_info_reduce_variants_agree() {
    let env = LocalEnv::new().cons(Term::Type(6));
    let info = TermInfo::new(Term::gen(0), here());
    assert_eq!(info.reduce_cloned(&env).unwrap(), Term::Type(6));
    assert_eq!(info.reduce(&env).unwrap(), Term::Type(6));
}

#[test]
fn constructors_build_expected_shapes() {
    assert_eq!(Term::gen(2), Term::Neut(Neutral::Gen(Some(2))));
    assert_eq!(Term::mock(), Term::Neut(Neutral::Gen(None)));
    let c = identity_closure(Term::Type(0));
    assert_eq!(
        Term::pi(Visib::Implicit, c.duplicate()),
        Term::Dt(Visib::Implicit, DtKind::Pi, c.duplicate())
    );
    assert_eq!(
        Term::sig(Visib::Explicit, c.duplicate()),
        Term::Dt(Visib::Explicit, DtKind::Sigma, c.duplicate())
    );
    assert_eq!(
        Term::dependent_type(Visib::Explicit, DtKind::Pi, c.duplicate()),
        Term::pi(Visib::Explicit, c)
    );
    assert!(Term::Type(0).is_type());
    assert!(Term::Bot(0).is_type());
    assert!(!Term::mock().is_type());
}

#[test]
fn environment_projection() {
    let env = LocalEnv::new().cons(Term::Type(0)).cons(Term::Type(1));
    // Index 0 is the innermost (most recently bound) value.
    assert_eq!(env.project(0), Some(&Term::Type(1)));
    assert_eq!(env.project(1), Some(&Term::Type(0)));
    assert_eq!(env.project(2), None);
}

#[test]
fn runaway_reduction_exhausts_the_budget() {
    // The self-application loop: under env = [omega] with
    // omega = \x. x x, the application (gen 0) (gen 0) never reaches a
    // normal form, and reduction reports exhaustion instead of spinning.
    let self_app = Term::app(Neutral::Gen(Some(0)), Term::gen(0));
    let omega = Term::Lam(Closure {
        param_type: Box::new(Term::Type(0)),
        body: ClosureBody {
            body: Box::new(TermInfo::new(self_app.duplicate(), here())),
            env: LocalEnv::Nil,
        },
    });
    let env = LocalEnv::new().cons(omega);
    assert_eq!(self_app.reduce(&env), None);
}
