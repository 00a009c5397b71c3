//! Structural unification of core values: matching universes must carry
//! the same level, matching dependent types unify domain, codomain body,
//! and captured environments, pairs unify component-wise, and neutral
//! spines unify head-to-head.  Source locations never affect unification.
//! Structurally incompatible values fail with `CannotUnify` carrying the
//! innermost clashing pair.
//!
//! The core term model carries no metavariable constructor, so there is
//! nothing for unification to solve: it is a pure comparison that threads
//! the checking state unchanged.

use vstd::prelude::*;
use crate::error::TCE;
use crate::check::same_state;
use crate::tcs::{TCM, TCS};
use crate::term::{Closure, LocalEnv, Neutral, Term};

verus! {

/// Structural unification of two values.
pub open spec fn spec_unify(a: Term, b: Term) -> Result<(), TCE>
    decreases a,
{
    match (a, b) {
        (Term::Type(i), Term::Type(j)) => if i == j {
            Ok(())
        } else {
            Err(TCE::CannotUnify(a, b))
        },
        (Term::Bot(i), Term::Bot(j)) => if i == j {
            Ok(())
        } else {
            Err(TCE::CannotUnify(a, b))
        },
        (Term::Lam(c1), Term::Lam(c2)) => spec_unify_closure(c1, c2, a, b),
        (Term::Dt(v1, k1, c1), Term::Dt(v2, k2, c2)) => if v1 == v2 && k1 == k2 {
            spec_unify_closure(c1, c2, a, b)
        } else {
            Err(TCE::CannotUnify(a, b))
        },
        (Term::Pair(a1, b1), Term::Pair(a2, b2)) => match spec_unify(*a1, *a2) {
            Err(e) => Err(e),
            Ok(_) => spec_unify(*b1, *b2),
        },
        (Term::Neut(n1), Term::Neut(n2)) => spec_unify_neut(n1, n2),
        _ => Err(TCE::CannotUnify(a, b)),
    }
}

/// Unification of two stuck computations along their spines.
pub open spec fn spec_unify_neut(n1: Neutral, n2: Neutral) -> Result<(), TCE>
    decreases n1,
{
    match (n1, n2) {
        (Neutral::Gen(o1), Neutral::Gen(o2)) => if o1 == o2 {
            Ok(())
        } else {
            Err(TCE::CannotUnify(Term::Neut(n1), Term::Neut(n2)))
        },
        (Neutral::App(f1, a1), Neutral::App(f2, a2)) => match spec_unify_neut(*f1, *f2) {
            Err(e) => Err(e),
            Ok(_) => spec_unify(*a1, *a2),
        },
        (Neutral::Fst(p1), Neutral::Fst(p2)) => spec_unify_neut(*p1, *p2),
        (Neutral::Snd(p1), Neutral::Snd(p2)) => spec_unify_neut(*p1, *p2),
        _ => Err(TCE::CannotUnify(Term::Neut(n1), Term::Neut(n2))),
    }
}

/// Unification of two closures: parameter types, bodies, and captured
/// environments, in that order.  A shape mismatch between the captured
/// environments is attributed to the owning values.
pub open spec fn spec_unify_closure(c1: Closure, c2: Closure, owner1: Term, owner2: Term) -> Result<
    (),
    TCE,
>
    decreases c1,
{
    match spec_unify(*c1.param_type, *c2.param_type) {
        Err(e) => Err(e),
        Ok(_) => match spec_unify((*c1.body.body).ast, (*c2.body.body).ast) {
            Err(e) => Err(e),
            Ok(_) => spec_unify_env(c1.body.env, c2.body.env, owner1, owner2),
        },
    }
}

/// Pointwise unification of two captured environments.
pub open spec fn spec_unify_env(e1: LocalEnv, e2: LocalEnv, owner1: Term, owner2: Term) -> Result<
    (),
    TCE,
>
    decreases e1,
{
    match (e1, e2) {
        (LocalEnv::Nil, LocalEnv::Nil) => Ok(()),
        (LocalEnv::Cons(t1, r1), LocalEnv::Cons(t2, r2)) => match spec_unify(*t1, *t2) {
            Err(e) => Err(e),
            Ok(_) => spec_unify_env(*r1, *r2, owner1, owner2),
        },
        _ => Err(TCE::CannotUnify(owner1, owner2)),
    }
}

fn unify_terms(a: &Term, b: &Term) -> (r: Result<(), TCE>)
    ensures
        r == spec_unify(*a, *b),
    decreases a,
{
    match (a, b) {
        (Term::Type(i), Term::Type(j)) => {
            if *i == *j {
                Ok(())
            } else {
                Err(TCE::CannotUnify(a.duplicate(), b.duplicate()))
            }
        }
        (Term::Bot(i), Term::Bot(j)) => {
            if *i == *j {
                Ok(())
            } else {
                Err(TCE::CannotUnify(a.duplicate(), b.duplicate()))
            }
        }
        (Term::Lam(c1), Term::Lam(c2)) => unify_closures(c1, c2, a, b),
        (Term::Dt(v1, k1, c1), Term::Dt(v2, k2, c2)) => {
            if *v1 == *v2 && *k1 == *k2 {
                unify_closures(c1, c2, a, b)
            } else {
                Err(TCE::CannotUnify(a.duplicate(), b.duplicate()))
            }
        }
        (Term::Pair(a1, b1), Term::Pair(a2, b2)) => match unify_terms(a1, a2) {
            Err(e) => Err(e),
            Ok(_) => unify_terms(b1, b2),
        },
        (Term::Neut(n1), Term::Neut(n2)) => unify_neutrals(n1, n2),
        _ => Err(TCE::CannotUnify(a.duplicate(), b.duplicate())),
    }
}

fn unify_neutrals(n1: &Neutral, n2: &Neutral) -> (r: Result<(), TCE>)
    ensures
        r == spec_unify_neut(*n1, *n2),
    decreases n1,
{
    match (n1, n2) {
        (Neutral::Gen(o1), Neutral::Gen(o2)) => {
            let same = match (o1, o2) {
                (Some(i1), Some(i2)) => *i1 == *i2,
                (None, None) => true,
                _ => false,
            };
            if same {
                Ok(())
            } else {
                Err(TCE::CannotUnify(Term::Neut(n1.duplicate()), Term::Neut(n2.duplicate())))
            }
        }
        (Neutral::App(f1, a1), Neutral::App(f2, a2)) => match unify_neutrals(f1, f2) {
            Err(e) => Err(e),
            Ok(_) => unify_terms(a1, a2),
        },
        (Neutral::Fst(p1), Neutral::Fst(p2)) => unify_neutrals(p1, p2),
        (Neutral::Snd(p1), Neutral::Snd(p2)) => unify_neutrals(p1, p2),
        _ => Err(TCE::CannotUnify(Term::Neut(n1.duplicate()), Term::Neut(n2.duplicate()))),
    }
}

fn unify_closures(c1: &Closure, c2: &Closure, owner1: &Term, owner2: &Term) -> (r: Result<(), TCE>)
    ensures
        r == spec_unify_closure(*c1, *c2, *owner1, *owner2),
    decreases c1,
{
    match unify_terms(&c1.param_type, &c2.param_type) {
        Err(e) => Err(e),
        Ok(_) => match unify_terms(&c1.body.body.ast, &c2.body.body.ast) {
            Err(e) => Err(e),
            Ok(_) => unify_envs(&c1.body.env, &c2.body.env, owner1, owner2),
        },
    }
}

fn unify_envs(e1: &LocalEnv, e2: &LocalEnv, owner1: &Term, owner2: &Term) -> (r: Result<(), TCE>)
    ensures
        r == spec_unify_env(*e1, *e2, *owner1, *owner2),
    decreases e1,
{
    match (e1, e2) {
        (LocalEnv::Nil, LocalEnv::Nil) => Ok(()),
        (LocalEnv::Cons(t1, r1), LocalEnv::Cons(t2, r2)) => match unify_terms(t1, t2) {
            Err(e) => Err(e),
            Ok(_) => unify_envs(r1, r2, owner1, owner2),
        },
        _ => Err(TCE::CannotUnify(owner1.duplicate(), owner2.duplicate())),
    }
}

/// Structurally unify two values, threading the checking state.  The
/// state comes back unchanged on success; incompatible values fail with
/// `CannotUnify` carrying the clashing pair.
pub fn unify(tcs: TCS, val1: &Term, val2: &Term) -> (r: TCM)
    ensures
        match r {
            Ok(tcs2) => spec_unify(*val1, *val2) == Ok::<(), TCE>(()) && same_state(tcs2, tcs),
            Err(e) => spec_unify(*val1, *val2) == Err::<(), TCE>(e),
        },
{
    match unify_terms(val1, val2) {
        Ok(unit_val) => {
            proof {
                assert(spec_unify(*val1, *val2) == Ok::<(), TCE>(unit_val));
            }
            Ok(tcs)
        }
        Err(e) => Err(e),
    }
}

} // verus!
