//! Normalization by evaluation.
//!
//! Reduction is specified by a fueled evaluator over the core terms:
//! beta-reduction for application, projections for pairs, and closure
//! instantiation, all driven by environments rather than substitution.
//! Because an ill-typed term can make reduction diverge, every evaluation
//! spec function takes a fuel bound and yields `None` when the bound runs
//! out or when evaluation reaches an ill-typed redex (where the system
//! would otherwise abort).  The executable evaluator runs with the fixed
//! budget `EVAL_FUEL` and matches the spec exactly.

use vstd::prelude::*;
use crate::term::{Closure, ClosureBody, LocalEnv, Neutral, Term, TermInfo};

verus! {

/// The evaluation budget used by the executable evaluator.  Fuel is
/// spent only on beta-reduction steps and on re-reduction of
/// projections, so the budget bounds the depth of chained
/// beta-reductions, not the size of terms; only a diverging or
/// absurdly deep computation can exhaust it.  It is kept small enough
/// that a runaway reduction fails cleanly instead of exhausting the
/// call stack.
pub const EVAL_FUEL: u64 = 1024;

/// De Bruijn lookup in an environment sequence (innermost value first).
pub open spec fn env_lookup(env: Seq<Term>, n: nat) -> Option<Term> {
    if n < env.len() {
        Some(env[n as int])
    } else {
        None
    }
}

/// One step of first projection: a pair yields its first component, a
/// neutral stays stuck; any other shape is an ill-typed redex.
pub open spec fn spec_first(t: Term) -> Option<Term> {
    match t {
        Term::Pair(a, _) => Some(*a),
        Term::Neut(n) => Some(Term::Neut(Neutral::Fst(Box::new(n)))),
        _ => None,
    }
}

/// One step of second projection, symmetric to `spec_first`.
pub open spec fn spec_second(t: Term) -> Option<Term> {
    match t {
        Term::Pair(_, b) => Some(*b),
        Term::Neut(n) => Some(Term::Neut(Neutral::Snd(Box::new(n)))),
        _ => None,
    }
}

/// Reduction of a term under an environment: pairs reduce component-wise,
/// neutrals reduce via `spec_neut_reduce`, and every other canonical shape
/// (universes, the empty type, un-applied dependent types, lambdas) is
/// already normal and passes through unchanged.
pub open spec fn spec_reduce(t: Term, env: Seq<Term>, fuel: nat) -> Option<Term>
    decreases fuel, t,
{
    match t {
        Term::Pair(a, b) => match (spec_reduce(*a, env, fuel), spec_reduce(*b, env, fuel)) {
            (Some(ra), Some(rb)) => Some(Term::Pair(Box::new(ra), Box::new(rb))),
            _ => None,
        },
        Term::Neut(n) => spec_neut_reduce(n, env, fuel),
        _ => Some(t),
    }
}

/// Reduction of a stuck computation.  A generated variable looks its index
/// up in the environment, staying neutral when the index is absent; an
/// application reduces the argument, then the function, then applies; a
/// projection reduces the inner neutral and immediately re-reduces the
/// projected component, so results are in full normal form.
pub open spec fn spec_neut_reduce(n: Neutral, env: Seq<Term>, fuel: nat) -> Option<Term>
    decreases fuel, n,
{
    match n {
        Neutral::Gen(o) => match o {
            Some(i) => match env_lookup(env, i as nat) {
                Some(t) => Some(t),
                None => Some(Term::Neut(Neutral::Gen(Some(i)))),
            },
            None => Some(Term::Neut(Neutral::Gen(None))),
        },
        Neutral::App(f, a) => {
            if fuel == 0 {
                None
            } else {
                match (spec_reduce(*a, env, fuel), spec_neut_reduce(*f, env, fuel)) {
                    (Some(ra), Some(rf)) => spec_apply(rf, ra, (fuel - 1) as nat),
                    _ => None,
                }
            }
        }
        Neutral::Fst(p) => {
            if fuel == 0 {
                None
            } else {
                match spec_neut_reduce(*p, env, fuel) {
                    Some(rp) => match spec_first(rp) {
                        Some(x) => spec_reduce(x, env, (fuel - 1) as nat),
                        None => None,
                    },
                    None => None,
                }
            }
        }
        Neutral::Snd(p) => {
            if fuel == 0 {
                None
            } else {
                match spec_neut_reduce(*p, env, fuel) {
                    Some(rp) => match spec_second(rp) {
                        Some(x) => spec_reduce(x, env, (fuel - 1) as nat),
                        None => None,
                    },
                    None => None,
                }
            }
        }
    }
}

/// Application for evaluation during beta-reduction: a lambda instantiates
/// its closure body, a neutral stays stuck; any other shape is an
/// ill-typed redex.
pub open spec fn spec_apply(f: Term, arg: Term, fuel: nat) -> Option<Term>
    decreases fuel, f,
{
    match f {
        Term::Lam(c) => spec_instantiate(c.body, arg, fuel),
        Term::Neut(n) => Some(Term::Neut(Neutral::App(Box::new(n), Box::new(arg)))),
        _ => None,
    }
}

/// Closure instantiation: extend the captured environment with the
/// argument at the innermost position and reduce the body under it.
pub open spec fn spec_instantiate(cb: ClosureBody, arg: Term, fuel: nat) -> Option<Term>
    decreases fuel, cb,
{
    spec_reduce((*cb.body).ast, seq![arg] + cb.env@, fuel)
}

fn first_total(t: Term) -> (r: Option<Term>)
    ensures
        r == spec_first(t),
{
    match t {
        Term::Pair(a, _) => Some(*a),
        Term::Neut(n) => Some(Term::fst(n)),
        _ => None,
    }
}

fn second_total(t: Term) -> (r: Option<Term>)
    ensures
        r == spec_second(t),
{
    match t {
        Term::Pair(_, b) => Some(*b),
        Term::Neut(n) => Some(Term::snd(n)),
        _ => None,
    }
}

fn reduce_go(t: Term, env: &LocalEnv, fuel: u64) -> (r: Option<Term>)
    ensures
        r == spec_reduce(t, env@, fuel as nat),
    decreases fuel, t,
{
    match t {
        Term::Pair(a, b) => {
            let ra = reduce_go(*a, env, fuel);
            let rb = reduce_go(*b, env, fuel);
            match (ra, rb) {
                (Some(ra), Some(rb)) => Some(Term::pair(ra, rb)),
                _ => None,
            }
        }
        Term::Neut(n) => neut_reduce_go(n, env, fuel),
        other => Some(other),
    }
}

fn neut_reduce_go(n: Neutral, env: &LocalEnv, fuel: u64) -> (r: Option<Term>)
    ensures
        r == spec_neut_reduce(n, env@, fuel as nat),
    decreases fuel, n,
{
    match n {
        Neutral::Gen(o) => match o {
            Some(i) => match env.project(i) {
                Some(t) => Some(t.duplicate()),
                None => Some(Term::gen(i)),
            },
            None => Some(Term::mock()),
        },
        Neutral::App(f, a) => {
            if fuel == 0 {
                None
            } else {
                let ra = reduce_go(*a, env, fuel);
                let rf = neut_reduce_go(*f, env, fuel);
                match (ra, rf) {
                    (Some(ra), Some(rf)) => apply_go(rf, ra, fuel - 1),
                    _ => None,
                }
            }
        }
        Neutral::Fst(p) => {
            if fuel == 0 {
                None
            } else {
                match neut_reduce_go(*p, env, fuel) {
                    Some(rp) => match first_total(rp) {
                        Some(x) => reduce_go(x, env, fuel - 1),
                        None => None,
                    },
                    None => None,
                }
            }
        }
        Neutral::Snd(p) => {
            if fuel == 0 {
                None
            } else {
                match neut_reduce_go(*p, env, fuel) {
                    Some(rp) => match second_total(rp) {
                        Some(x) => reduce_go(x, env, fuel - 1),
                        None => None,
                    },
                    None => None,
                }
            }
        }
    }
}

fn apply_go(f: Term, arg: Term, fuel: u64) -> (r: Option<Term>)
    ensures
        r == spec_apply(f, arg, fuel as nat),
    decreases fuel, f,
{
    match f {
        Term::Lam(c) => instantiate_go(c.body, arg, fuel),
        Term::Neut(n) => Some(Term::app(n, arg)),
        _ => None,
    }
}

fn instantiate_go(cb: ClosureBody, arg: Term, fuel: u64) -> (r: Option<Term>)
    ensures
        r == spec_instantiate(cb, arg, fuel as nat),
    decreases fuel, cb,
{
    let ClosureBody { body, env } = cb;
    let env = env.cons(arg);
    reduce_go((*body).ast, &env, fuel)
}

impl Term {
    /// Just for evaluation during beta-reduction.  `None` when the
    /// evaluation budget runs out or evaluation gets stuck on an
    /// ill-typed redex.
    pub fn apply(self, arg: Term) -> (r: Option<Term>)
        requires
            self is Lam || self is Neut,
        ensures
            r == spec_apply(self, arg, EVAL_FUEL as nat),
    {
        apply_go(self, arg, EVAL_FUEL)
    }

    /// Just for evaluation during beta-reduction.
    pub fn first(self) -> (r: Term)
        requires
            self is Pair || self is Neut,
        ensures
            Some(r) == spec_first(self),
    {
        match self {
            Term::Pair(a, _) => *a,
            Term::Neut(n) => Term::fst(n),
            other => other,
        }
    }

    /// Just for evaluation during beta-reduction.
    pub fn second(self) -> (r: Term)
        requires
            self is Pair || self is Neut,
        ensures
            Some(r) == spec_second(self),
    {
        match self {
            Term::Pair(_, b) => *b,
            Term::Neut(n) => Term::snd(n),
            other => other,
        }
    }

    /// Reduce this term under an environment.
    pub fn reduce(self, env: &LocalEnv) -> (r: Option<Term>)
        ensures
            r == spec_reduce(self, env@, EVAL_FUEL as nat),
    {
        reduce_go(self, env, EVAL_FUEL)
    }
}

impl Neutral {
    /// Reduce this stuck computation under an environment.
    pub fn reduce(self, env: &LocalEnv) -> (r: Option<Term>)
        ensures
            r == spec_neut_reduce(self, env@, EVAL_FUEL as nat),
    {
        neut_reduce_go(self, env, EVAL_FUEL)
    }
}

impl ClosureBody {
    /// Extend the captured environment with `arg` and reduce the body
    /// under it: the evaluation step for beta-reduction and for computing
    /// a dependent codomain at a concrete argument.
    pub fn instantiate(self, arg: Term) -> (r: Option<Term>)
        ensures
            r == spec_instantiate(self, arg, EVAL_FUEL as nat),
    {
        instantiate_go(self, arg, EVAL_FUEL)
    }
}

impl TermInfo {
    /// Reduce the carried term under an environment.
    pub fn reduce(self, env: &LocalEnv) -> (r: Option<Term>)
        ensures
            r == spec_reduce(self.ast, env@, EVAL_FUEL as nat),
    {
        reduce_go(self.ast, env, EVAL_FUEL)
    }

    /// Because in `reduce`, what actually moves is the carried term, not
    /// the location, this borrowing variant copies the term first.
    pub fn reduce_cloned(&self, env: &LocalEnv) -> (r: Option<Term>)
        ensures
            r == spec_reduce(self.ast, env@, EVAL_FUEL as nat),
    {
        reduce_go(self.ast.duplicate(), env, EVAL_FUEL)
    }
}

/// Beta law: applying a lambda is exactly instantiating its closure body
/// with the argument, at every fuel bound.
pub proof fn lemma_beta(c: Closure, arg: Term, fuel: nat)
    ensures
        spec_apply(Term::Lam(c), arg, fuel) == spec_instantiate(c.body, arg, fuel),
{
}

/// Projection laws: the first projection of a pair is its first component
/// and the second projection is its second component.
pub proof fn lemma_projections(a: Term, b: Term)
    ensures
        spec_first(Term::Pair(Box::new(a), Box::new(b))) == Some(a),
        spec_second(Term::Pair(Box::new(a), Box::new(b))) == Some(b),
{
}


/// A term free of closures: no lambdas and no dependent-type formers
/// anywhere inside.
pub open spec fn first_order(t: Term) -> bool
    decreases t,
{
    match t {
        Term::Type(_) => true,
        Term::Bot(_) => true,
        Term::Lam(_) => false,
        Term::Dt(..) => false,
        Term::Pair(a, b) => first_order(*a) && first_order(*b),
        Term::Neut(n) => first_order_neut(n),
    }
}

/// A stuck computation free of closures.
pub open spec fn first_order_neut(n: Neutral) -> bool
    decreases n,
{
    match n {
        Neutral::Gen(_) => true,
        Neutral::App(f, a) => first_order_neut(*f) && first_order(*a),
        Neutral::Fst(p) => first_order_neut(*p),
        Neutral::Snd(p) => first_order_neut(*p),
    }
}

/// Every value of the environment is free of closures.
pub open spec fn env_first_order(env: Seq<Term>) -> bool {
    forall|i: int| 0 <= i < env.len() ==> first_order(#[trigger] env[i])
}

/// Every value of the environment reduces to itself under the
/// environment, whatever the budget: the environment holds normal forms.
pub open spec fn env_stable(env: Seq<Term>) -> bool {
    forall|i: int, f: nat|
        0 <= i < env.len() ==> #[trigger] spec_reduce(env[i], env, f) == Some(env[i])
}

proof fn lemma_mono_reduce(t: Term, env: Seq<Term>, fuel: nat, fuel2: nat)
    requires
        fuel <= fuel2,
        spec_reduce(t, env, fuel) is Some,
    ensures
        spec_reduce(t, env, fuel2) == spec_reduce(t, env, fuel),
    decreases fuel, t,
{
    match t {
        Term::Pair(a, b) => {
            lemma_mono_reduce(*a, env, fuel, fuel2);
            lemma_mono_reduce(*b, env, fuel, fuel2);
        }
        Term::Neut(n) => {
            lemma_mono_neut(n, env, fuel, fuel2);
        }
        _ => {}
    }
}

proof fn lemma_mono_neut(n: Neutral, env: Seq<Term>, fuel: nat, fuel2: nat)
    requires
        fuel <= fuel2,
        spec_neut_reduce(n, env, fuel) is Some,
    ensures
        spec_neut_reduce(n, env, fuel2) == spec_neut_reduce(n, env, fuel),
    decreases fuel, n,
{
    match n {
        Neutral::Gen(_) => {}
        Neutral::App(f, a) => {
            lemma_mono_reduce(*a, env, fuel, fuel2);
            lemma_mono_neut(*f, env, fuel, fuel2);
            let ra = spec_reduce(*a, env, fuel).unwrap();
            let rf = spec_neut_reduce(*f, env, fuel).unwrap();
            lemma_mono_apply(rf, ra, (fuel - 1) as nat, (fuel2 - 1) as nat);
        }
        Neutral::Fst(p) => {
            lemma_mono_neut(*p, env, fuel, fuel2);
            let rp = spec_neut_reduce(*p, env, fuel).unwrap();
            let x = spec_first(rp).unwrap();
            lemma_mono_reduce(x, env, (fuel - 1) as nat, (fuel2 - 1) as nat);
        }
        Neutral::Snd(p) => {
            lemma_mono_neut(*p, env, fuel, fuel2);
            let rp = spec_neut_reduce(*p, env, fuel).unwrap();
            let x = spec_second(rp).unwrap();
            lemma_mono_reduce(x, env, (fuel - 1) as nat, (fuel2 - 1) as nat);
        }
    }
}

proof fn lemma_mono_apply(f: Term, arg: Term, fuel: nat, fuel2: nat)
    requires
        fuel <= fuel2,
        spec_apply(f, arg, fuel) is Some,
    ensures
        spec_apply(f, arg, fuel2) == spec_apply(f, arg, fuel),
    decreases fuel, f,
{
    match f {
        Term::Lam(c) => {
            lemma_mono_reduce((*c.body.body).ast, seq![arg] + c.body.env@, fuel, fuel2);
        }
        _ => {}
    }
}

proof fn lemma_fo_reduce(t: Term, env: Seq<Term>, fuel: nat)
    requires
        first_order(t),
        env_first_order(env),
    ensures
        match spec_reduce(t, env, fuel) {
            Some(r) => first_order(r),
            None => true,
        },
    decreases fuel, t,
{
    match t {
        Term::Pair(a, b) => {
            lemma_fo_reduce(*a, env, fuel);
            lemma_fo_reduce(*b, env, fuel);
        }
        Term::Neut(n) => {
            lemma_fo_neut(n, env, fuel);
        }
        _ => {}
    }
}

proof fn lemma_fo_neut(n: Neutral, env: Seq<Term>, fuel: nat)
    requires
        first_order_neut(n),
        env_first_order(env),
    ensures
        match spec_neut_reduce(n, env, fuel) {
            Some(r) => first_order(r),
            None => true,
        },
    decreases fuel, n,
{
    match n {
        Neutral::Gen(o) => {
            match o {
                Some(i) => {
                    if (i as nat) < env.len() {
                        assert(first_order(env[i as int]));
                    } else {
                        assert(first_order_neut(n));
                        assert(first_order(Term::Neut(n)));
                    }
                }
                None => {
                    assert(first_order(Term::Neut(n)));
                }
            }
        }
        Neutral::App(f, a) => {
            if fuel > 0 {
                lemma_fo_reduce(*a, env, fuel);
                lemma_fo_neut(*f, env, fuel);
                match (spec_reduce(*a, env, fuel), spec_neut_reduce(*f, env, fuel)) {
                    (Some(ra), Some(rf)) => {
                        match rf {
                            Term::Neut(nf) => {
                                assert(first_order_neut(nf));
                                assert(first_order(ra));
                                assert(spec_apply(rf, ra, (fuel - 1) as nat) == Some(
                                    Term::Neut(Neutral::App(Box::new(nf), Box::new(ra))),
                                ));
                                assert(first_order_neut(Neutral::App(Box::new(nf), Box::new(ra))));
                                assert(first_order(Term::Neut(
                                    Neutral::App(Box::new(nf), Box::new(ra)),
                                )));
                            }
                            _ => {}
                        }
                    }
                    _ => {}
                }
            }
        }
        Neutral::Fst(p) => {
            if fuel > 0 {
                lemma_fo_neut(*p, env, fuel);
                match spec_neut_reduce(*p, env, fuel) {
                    Some(rp) => match spec_first(rp) {
                        Some(x) => {
                            assert(first_order(rp));
                            match rp {
                                Term::Pair(ra, rb) => {
                                    assert(x == *ra);
                                    assert(first_order(x));
                                }
                                Term::Neut(np) => {
                                    assert(first_order_neut(np));
                                    assert(x == Term::Neut(Neutral::Fst(Box::new(np))));
                                    assert(first_order_neut(Neutral::Fst(Box::new(np))));
                                    assert(first_order(x));
                                }
                                _ => {}
                            }
                            lemma_fo_reduce(x, env, (fuel - 1) as nat);
                        }
                        None => {}
                    },
                    None => {}
                }
            }
        }
        Neutral::Snd(p) => {
            if fuel > 0 {
                lemma_fo_neut(*p, env, fuel);
                match spec_neut_reduce(*p, env, fuel) {
                    Some(rp) => match spec_second(rp) {
                        Some(x) => {
                            assert(first_order(rp));
                            match rp {
                                Term::Pair(ra, rb) => {
                                    assert(x == *rb);
                                    assert(first_order(x));
                                }
                                Term::Neut(np) => {
                                    assert(first_order_neut(np));
                                    assert(x == Term::Neut(Neutral::Snd(Box::new(np))));
                                    assert(first_order_neut(Neutral::Snd(Box::new(np))));
                                    assert(first_order(x));
                                }
                                _ => {}
                            }
                            lemma_fo_reduce(x, env, (fuel - 1) as nat);
                        }
                        None => {}
                    },
                    None => {}
                }
            }
        }
    }
}

proof fn lemma_idem_reduce(t: Term, env: Seq<Term>, fuel: nat)
    requires
        first_order(t),
        env_first_order(env),
        env_stable(env),
    ensures
        match spec_reduce(t, env, fuel) {
            Some(r) => spec_reduce(r, env, fuel) == Some(r),
            None => true,
        },
    decreases fuel, t,
{
    match t {
        Term::Pair(a, b) => {
            lemma_idem_reduce(*a, env, fuel);
            lemma_idem_reduce(*b, env, fuel);
        }
        Term::Neut(n) => {
            lemma_idem_neut(n, env, fuel);
        }
        _ => {}
    }
}

proof fn lemma_idem_neut(n: Neutral, env: Seq<Term>, fuel: nat)
    requires
        first_order_neut(n),
        env_first_order(env),
        env_stable(env),
    ensures
        match spec_neut_reduce(n, env, fuel) {
            Some(r) => spec_reduce(r, env, fuel) == Some(r),
            None => true,
        },
    decreases fuel, n,
{
    match n {
        Neutral::Gen(o) => match o {
            Some(i) => {
                if (i as nat) < env.len() {
                    assert(spec_reduce(env[i as int], env, fuel) == Some(env[i as int]));
                }
            }
            None => {}
        },
        Neutral::App(f, a) => {
            if fuel > 0 {
                lemma_idem_reduce(*a, env, fuel);
                lemma_idem_neut(*f, env, fuel);
                lemma_fo_reduce(*a, env, fuel);
                lemma_fo_neut(*f, env, fuel);
                match (spec_reduce(*a, env, fuel), spec_neut_reduce(*f, env, fuel)) {
                    (Some(ra), Some(rf)) => {
                        // A closure-free head that applies is a stuck one,
                        // so the application stays stuck, and its parts are
                        // already normal.
                        match rf {
                            Term::Neut(nf) => {
                                match spec_apply(rf, ra, (fuel - 1) as nat) {
                                    Some(r) => {
                                        assert(r == Term::Neut(
                                            Neutral::App(Box::new(nf), Box::new(ra)),
                                        ));
                                        assert(spec_reduce(rf, env, fuel) == Some(rf));
                                        assert(spec_reduce(rf, env, fuel) == spec_neut_reduce(
                                            nf,
                                            env,
                                            fuel,
                                        ));
                                        assert(spec_reduce(ra, env, fuel) == Some(ra));
                                        assert(spec_apply(Term::Neut(nf), ra, (fuel - 1) as nat)
                                            == Some(r));
                                        assert(spec_neut_reduce(
                                            Neutral::App(Box::new(nf), Box::new(ra)),
                                            env,
                                            fuel,
                                        ) == Some(r));
                                        assert(spec_reduce(r, env, fuel) == Some(r));
                                    }
                                    None => {}
                                }
                            }
                            _ => {}
                        }
                    }
                    _ => {}
                }
            }
        }
        Neutral::Fst(p) => {
            if fuel > 0 {
                lemma_idem_fst_snd(n, env, fuel);
            }
        }
        Neutral::Snd(p) => {
            if fuel > 0 {
                lemma_idem_fst_snd(n, env, fuel);
            }
        }
    }
}

proof fn lemma_idem_fst_snd(n: Neutral, env: Seq<Term>, fuel: nat)
    requires
        n is Fst || n is Snd,
        fuel > 0,
        first_order_neut(n),
        env_first_order(env),
        env_stable(env),
    ensures
        match spec_neut_reduce(n, env, fuel) {
            Some(r) => spec_reduce(r, env, fuel) == Some(r),
            None => true,
        },
    decreases fuel, n, 0nat,
{
    let p = match n {
        Neutral::Fst(p) => *p,
        Neutral::Snd(p) => *p,
        _ => arbitrary(),
    };
    lemma_fo_neut(p, env, fuel);
    match spec_neut_reduce(p, env, fuel) {
        Some(rp) => {
            let proj = if n is Fst {
                spec_first(rp)
            } else {
                spec_second(rp)
            };
            match proj {
                Some(x) => {
                    assert(first_order(rp));
                    match rp {
                        Term::Pair(ra, rb) => {
                            if n is Fst {
                                assert(x == *ra);
                            } else {
                                assert(x == *rb);
                            }
                            assert(first_order(x));
                        }
                        Term::Neut(np) => {
                            assert(first_order_neut(np));
                            if n is Fst {
                                assert(x == Term::Neut(Neutral::Fst(Box::new(np))));
                                assert(first_order_neut(Neutral::Fst(Box::new(np))));
                            } else {
                                assert(x == Term::Neut(Neutral::Snd(Box::new(np))));
                                assert(first_order_neut(Neutral::Snd(Box::new(np))));
                            }
                            assert(first_order(x));
                        }
                        _ => {}
                    }
                    lemma_idem_reduce(x, env, (fuel - 1) as nat);
                    match spec_reduce(x, env, (fuel - 1) as nat) {
                        Some(r) => {
                            lemma_mono_reduce(r, env, (fuel - 1) as nat, fuel);
                        }
                        None => {}
                    }
                }
                None => {}
            }
        }
        None => {}
    }
}

/// Evaluator idempotence: reducing an already-reduced term changes
/// nothing, for terms and environments free of closures, over an
/// environment of normal forms.  (With closures the law fails: a closure
/// body reduced under its own extended environment can surface a
/// generated reference that the outer environment then resolves on the
/// second pass.)
pub proof fn lemma_reduce_idempotent(t: Term, env: Seq<Term>, fuel: nat, r: Term)
    requires
        first_order(t),
        env_first_order(env),
        env_stable(env),
        spec_reduce(t, env, fuel) == Some(r),
    ensures
        spec_reduce(r, env, fuel) == Some(r),
{
    lemma_idem_reduce(t, env, fuel);
}

} // verus!
