//! The core term model: universes, the empty type, dependent-type formers,
//! pairs, lambdas, and neutral (stuck) computations, together with the
//! persistent environments that closures capture.

use vstd::prelude::*;
use crate::common::{DBI, Level, SyntaxInfo, Visib};

verus! {

/// Irreducible computation, blocked on a generated (free or postulated)
/// value.
#[derive(Debug, PartialEq, Eq)]
pub enum Neutral {
    /// Local variable, referred to by de Bruijn index.
    /// `None` indicates that this is a postulated value.
    Gen(Option<DBI>),
    /// Function application.
    App(Box<Neutral>, Box<Term>),
    /// Projecting the first element of a pair.
    Fst(Box<Neutral>),
    /// Projecting the second element of a pair.
    Snd(Box<Neutral>),
}

/// Various kinds of dependent types.
#[derive(Debug, Clone, Copy, PartialEq, Eq, Structural)]
pub enum DtKind {
    Pi,
    Sigma,
}

/// Non-redex: a fully- or partially-evaluated core term.
#[derive(Debug, PartialEq, Eq)]
pub enum Term {
    /// Type universe.
    Type(Level),
    /// The empty type, graded by a universe level.
    Bot(Level),
    /// Closure.
    Lam(Closure),
    /// Pi-like types (dependent types).  Since it affects type-checking
    /// translation, the visibility of the parameter needs to be specified.
    Dt(Visib, DtKind, Closure),
    /// Sigma instance.
    Pair(Box<Term>, Box<Term>),
    Neut(Neutral),
}

/// Ordered sequence of values addressed by de Bruijn index, extended only
/// at the front (innermost) position.  A persistent cons-list, so that
/// extending an environment is O(1) and closures can capture a snapshot
/// by value.
#[derive(Debug, PartialEq, Eq)]
pub enum LocalEnv {
    Nil,
    Cons(Box<Term>, Box<LocalEnv>),
}

/// A term paired with its originating source location, used purely for
/// diagnostics.
#[derive(Debug, PartialEq, Eq)]
pub struct TermInfo {
    pub ast: Term,
    pub info: SyntaxInfo,
}

/// A closure with parameter type explicitly specified.
#[derive(Debug, PartialEq, Eq)]
pub struct Closure {
    pub param_type: Box<Term>,
    pub body: ClosureBody,
}

/// The instantiatable part of a closure: a body together with the
/// environment captured, by value, at closure-creation time.
#[derive(Debug, PartialEq, Eq)]
pub struct ClosureBody {
    pub body: Box<TermInfo>,
    pub env: LocalEnv,
}

/// The sequence of values held by an environment, innermost (index 0)
/// first.
pub open spec fn env_seq(e: LocalEnv) -> Seq<Term>
    decreases e,
{
    match e {
        LocalEnv::Nil => Seq::empty(),
        LocalEnv::Cons(t, rest) => seq![*t] + env_seq(*rest),
    }
}

impl View for LocalEnv {
    type V = Seq<Term>;

    open spec fn view(&self) -> Seq<Term> {
        env_seq(*self)
    }
}

impl LocalEnv {
    pub fn new() -> (r: LocalEnv)
        ensures
            r == LocalEnv::Nil,
            r@ == Seq::<Term>::empty(),
    {
        LocalEnv::Nil
    }

    /// Extend the environment at the innermost position.
    pub fn cons(self, t: Term) -> (r: LocalEnv)
        ensures
            r@ == seq![t] + self@,
            r == LocalEnv::Cons(Box::new(t), Box::new(self)),
    {
        LocalEnv::Cons(Box::new(t), Box::new(self))
    }

    /// Look a de Bruijn index up; `None` when the index is out of range.
    pub fn project(&self, n: DBI) -> (r: Option<&Term>)
        ensures
            match r {
                Some(t) => n < self@.len() && *t == self@[n as int],
                None => n >= self@.len(),
            },
        decreases self,
    {
        match self {
            LocalEnv::Nil => None,
            LocalEnv::Cons(t, rest) => {
                if n == 0 {
                    Some(t)
                } else {
                    rest.project(n - 1)
                }
            }
        }
    }
}

impl Term {
    /// A deep copy, equal to the original.
    pub fn duplicate(&self) -> (r: Term)
        ensures
            r == *self,
        decreases self,
    {
        match self {
            Term::Type(l) => Term::Type(*l),
            Term::Bot(l) => Term::Bot(*l),
            Term::Lam(c) => Term::Lam(c.duplicate()),
            Term::Dt(v, k, c) => Term::Dt(*v, *k, c.duplicate()),
            Term::Pair(a, b) => Term::Pair(Box::new(a.duplicate()), Box::new(b.duplicate())),
            Term::Neut(n) => Term::Neut(n.duplicate()),
        }
    }
}

impl Neutral {
    /// A deep copy, equal to the original.
    pub fn duplicate(&self) -> (r: Neutral)
        ensures
            r == *self,
        decreases self,
    {
        match self {
            Neutral::Gen(o) => Neutral::Gen(*o),
            Neutral::App(f, a) => Neutral::App(Box::new(f.duplicate()), Box::new(a.duplicate())),
            Neutral::Fst(p) => Neutral::Fst(Box::new(p.duplicate())),
            Neutral::Snd(p) => Neutral::Snd(Box::new(p.duplicate())),
        }
    }
}

impl Closure {
    /// A deep copy, equal to the original.
    pub fn duplicate(&self) -> (r: Closure)
        ensures
            r == *self,
        decreases self,
    {
        Closure { param_type: Box::new(self.param_type.duplicate()), body: self.body.duplicate() }
    }
}

impl ClosureBody {
    /// A deep copy, equal to the original.
    pub fn duplicate(&self) -> (r: ClosureBody)
        ensures
            r == *self,
        decreases self,
    {
        ClosureBody { body: Box::new(self.body.duplicate()), env: self.env.duplicate() }
    }
}

impl TermInfo {
    /// A deep copy, equal to the original.
    pub fn duplicate(&self) -> (r: TermInfo)
        ensures
            r == *self,
        decreases self,
    {
        TermInfo { ast: self.ast.duplicate(), info: self.info }
    }
}

impl LocalEnv {
    /// A deep copy, equal to the original.
    pub fn duplicate(&self) -> (r: LocalEnv)
        ensures
            r == *self,
        decreases self,
    {
        match self {
            LocalEnv::Nil => LocalEnv::Nil,
            LocalEnv::Cons(t, rest) => {
                LocalEnv::Cons(Box::new(t.duplicate()), Box::new(rest.duplicate()))
            }
        }
    }
}

impl TermInfo {
    pub fn new(ast: Term, info: SyntaxInfo) -> (r: TermInfo)
        ensures
            r == (TermInfo { ast, info }),
    {
        TermInfo { ast, info }
    }
}

/// Whether a term is a canonical type former: a universe, the empty type,
/// or a dependent type.
pub open spec fn spec_is_type(t: Term) -> bool {
    t is Type || t is Bot || t is Dt
}

impl Term {
    /// Whether this term is a canonical type former.
    pub fn is_type(&self) -> (r: bool)
        ensures
            r == spec_is_type(*self),
    {
        match self {
            Term::Type(_) => true,
            Term::Bot(_) => true,
            Term::Dt(..) => true,
            _ => false,
        }
    }

    pub fn pair(first: Self, second: Self) -> (r: Self)
        ensures
            r == Term::Pair(Box::new(first), Box::new(second)),
    {
        Term::Pair(Box::new(first), Box::new(second))
    }

    pub fn gen(index: DBI) -> (r: Self)
        ensures
            r == Term::Neut(Neutral::Gen(Some(index))),
    {
        Term::Neut(Neutral::Gen(Some(index)))
    }

    /// An opaque, unconstrained placeholder: an unnamed postulate.
    pub fn mock() -> (r: Self)
        ensures
            r == Term::Neut(Neutral::Gen(None)),
    {
        Term::Neut(Neutral::Gen(None))
    }

    pub fn app(function: Neutral, arg: Term) -> (r: Self)
        ensures
            r == Term::Neut(Neutral::App(Box::new(function), Box::new(arg))),
    {
        Term::Neut(Neutral::App(Box::new(function), Box::new(arg)))
    }

    pub fn fst(pair: Neutral) -> (r: Self)
        ensures
            r == Term::Neut(Neutral::Fst(Box::new(pair))),
    {
        Term::Neut(Neutral::Fst(Box::new(pair)))
    }

    pub fn snd(pair: Neutral) -> (r: Self)
        ensures
            r == Term::Neut(Neutral::Snd(Box::new(pair))),
    {
        Term::Neut(Neutral::Snd(Box::new(pair)))
    }

    pub fn dependent_type(visibility: Visib, kind: DtKind, closure: Closure) -> (r: Self)
        ensures
            r == Term::Dt(visibility, kind, closure),
    {
        Term::Dt(visibility, kind, closure)
    }

    pub fn pi(visibility: Visib, closure: Closure) -> (r: Self)
        ensures
            r == Term::Dt(visibility, DtKind::Pi, closure),
    {
        Self::dependent_type(visibility, DtKind::Pi, closure)
    }

    pub fn sig(visibility: Visib, closure: Closure) -> (r: Self)
        ensures
            r == Term::Dt(visibility, DtKind::Sigma, closure),
    {
        Self::dependent_type(visibility, DtKind::Sigma, closure)
    }
}

} // verus!
