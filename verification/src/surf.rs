//! Surface syntax: what the parser produces.  Identifiers are recorded
//! as source spans; name resolution into de Bruijn indices is an
//! external collaborator's job.

use vstd::prelude::*;
use crate::common::{Level, SyntaxInfo};

verus! {

/// Surface identifier, recorded as its source span.
#[derive(Debug, Clone, Copy, PartialEq, Eq, Structural)]
pub struct Ident {
    pub info: SyntaxInfo,
}

/// Surface syntax tree node: Expression.
#[derive(Debug, PartialEq, Eq)]
pub enum Expr {
    /// Variable reference.
    Var(Ident),
    /// Constructor call.
    Cons(Ident),
    /// Explicit meta variable.
    Meta(Ident),
    /// `Type` literal, with its level.
    Type(SyntaxInfo, Level),
    /// Function application; `f a b` associates as `App(App(f, a), b)`.
    App(Box<Expr>, Box<Expr>),
    /// Pipeline operator.
    Pipe(Box<Expr>, Box<Expr>),
    /// Sum of two expressions.
    Sum(Box<Expr>, Box<Expr>),
}

/// Left fold of a head expression with a run of arguments into nested
/// applications.
pub open spec fn app_fold(acc: Expr, rest: Seq<Expr>) -> Expr
    decreases rest.len(),
{
    if rest.len() == 0 {
        acc
    } else {
        app_fold(Expr::App(Box::new(acc), Box::new(rest[0])), rest.drop_first())
    }
}

/// Left fold of a head expression with a run of pipeline stages.
pub open spec fn pipe_fold(acc: Expr, rest: Seq<Expr>) -> Expr
    decreases rest.len(),
{
    if rest.len() == 0 {
        acc
    } else {
        pipe_fold(Expr::Pipe(Box::new(acc), Box::new(rest[0])), rest.drop_first())
    }
}

impl Expr {
    /// `f a b c` as nested applications.
    pub fn app(applied: Self, arguments: Vec<Self>) -> (r: Self)
        ensures
            r == app_fold(applied, arguments@),
    {
        let mut acc = applied;
        let mut args = arguments;
        let ghost orig = args@;
        while args.len() > 0
            invariant
                app_fold(acc, args@) == app_fold(applied, orig),
            decreases args@.len(),
        {
            let ghost pre = args@;
            let a = args.remove(0);
            proof {
                assert(args@ =~= pre.drop_first());
            }
            acc = Expr::App(Box::new(acc), Box::new(a));
        }
        acc
    }

    /// `a |> f |> g` as nested pipeline stages.
    pub fn pipe(first: Self, functions: Vec<Self>) -> (r: Self)
        ensures
            r == pipe_fold(first, functions@),
    {
        let mut acc = first;
        let mut args = functions;
        let ghost orig = args@;
        while args.len() > 0
            invariant
                pipe_fold(acc, args@) == pipe_fold(first, orig),
            decreases args@.len(),
        {
            let ghost pre = args@;
            let a = args.remove(0);
            proof {
                assert(args@ =~= pre.drop_first());
            }
            acc = Expr::Pipe(Box::new(acc), Box::new(a));
        }
        acc
    }
}

/// Indicates whether a declaration is a type signature or an
/// implementation.
#[derive(Debug, Clone, Copy, PartialEq, Eq, Structural)]
pub enum DeclKind {
    /// Implementation.
    Impl,
    /// Signature.
    Sign,
}

/// Surface syntax tree node: Declaration.  A type signature pairs a name
/// with a type expression; an implementation pairs a name with a body.
#[derive(Debug, PartialEq, Eq)]
pub struct Decl {
    pub name: Ident,
    pub body: Expr,
    pub kind: DeclKind,
}

} // verus!
