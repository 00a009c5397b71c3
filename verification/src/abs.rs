//! Scope-resolved abstract syntax: the checker's input, produced by an
//! external name-resolution pass.  Every local or global reference is
//! already a de Bruijn index; an out-of-bounds index is a structural bug
//! in the resolver and is surfaced defensively as `DbiOverflow`.

use vstd::prelude::*;
use crate::common::{DBI, Label, Level, SyntaxInfo, VarRec, Visib};
use crate::term::DtKind;

verus! {

/// A labelled field of a record or row literal.
#[derive(Debug, PartialEq, Eq)]
pub struct LabAbs {
    pub label: Label,
    pub expr: Abs,
}

/// Abstract syntax node.
#[derive(Debug, PartialEq, Eq)]
pub enum Abs {
    /// `Type` literal, with level.
    Type(SyntaxInfo, Level),
    /// The empty type.
    Bot(SyntaxInfo),
    /// Bound local reference: a de Bruijn index into the local context.
    Local(SyntaxInfo, DBI),
    /// Global reference: an index into the global table.
    Var(SyntaxInfo, DBI),
    /// Pair literal.
    Pair(SyntaxInfo, Box<Abs>, Box<Abs>),
    /// First projection.
    Fst(SyntaxInfo, Box<Abs>),
    /// Function application.
    App(SyntaxInfo, Box<Abs>, Box<Abs>),
    /// Lambda: the whole expression's location, the parameter's location,
    /// and the body.
    Lam(SyntaxInfo, SyntaxInfo, Box<Abs>),
    /// Dependent-type former, tagged by visibility and by kind (Pi or
    /// Sigma): parameter type and return type.
    Dt(SyntaxInfo, Visib, DtKind, Box<Abs>, Box<Abs>),
    /// Record literal.
    Rec(SyntaxInfo, Vec<LabAbs>),
    /// Row-polymorphic type literal: a record type or a variant type.
    RowPoly(SyntaxInfo, VarRec, Vec<LabAbs>),
    /// One case of a case-chain: label, body, rest of the chain.
    Cases(SyntaxInfo, Label, Box<Abs>, Box<Abs>),
}

/// The source location attached to a node.
pub open spec fn spec_abs_info(a: Abs) -> SyntaxInfo {
    match a {
        Abs::Type(info, _) => info,
        Abs::Bot(info) => info,
        Abs::Local(info, _) => info,
        Abs::Var(info, _) => info,
        Abs::Pair(info, _, _) => info,
        Abs::Fst(info, _) => info,
        Abs::App(info, _, _) => info,
        Abs::Lam(info, _, _) => info,
        Abs::Dt(info, _, _, _, _) => info,
        Abs::Rec(info, _) => info,
        Abs::RowPoly(info, _, _) => info,
        Abs::Cases(info, _, _, _) => info,
    }
}

/// Every universe literal that the checker will walk into sits strictly
/// below the largest representable level, so that synthesizing the level
/// above it cannot overflow.  Fields of row constructs are not elaborated
/// and are therefore not constrained.
pub open spec fn levels_ok(a: Abs) -> bool
    decreases a,
{
    match a {
        Abs::Type(_, l) => l < Level::MAX,
        Abs::Pair(_, f, s) => levels_ok(*f) && levels_ok(*s),
        Abs::Fst(_, p) => levels_ok(*p),
        Abs::App(_, f, x) => levels_ok(*f) && levels_ok(*x),
        Abs::Lam(_, _, b) => levels_ok(*b),
        Abs::Dt(_, _, _, p, r) => levels_ok(*p) && levels_ok(*r),
        _ => true,
    }
}

impl Abs {
    /// The source location attached to this node.
    pub fn syntax_info(&self) -> (r: SyntaxInfo)
        ensures
            r == spec_abs_info(*self),
    {
        match self {
            Abs::Type(info, _) => *info,
            Abs::Bot(info) => *info,
            Abs::Local(info, _) => *info,
            Abs::Var(info, _) => *info,
            Abs::Pair(info, _, _) => *info,
            Abs::Fst(info, _) => *info,
            Abs::App(info, _, _) => *info,
            Abs::Lam(info, _, _) => *info,
            Abs::Dt(info, _, _, _, _) => *info,
            Abs::Rec(info, _) => *info,
            Abs::RowPoly(info, _, _) => *info,
            Abs::Cases(info, _, _, _) => *info,
        }
    }
}

} // verus!
