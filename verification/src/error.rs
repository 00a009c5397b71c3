//! Type-checking errors: a closed, data-carrying classification of every
//! distinguishable failure, so that an external diagnostic printer can
//! render a precise message from the attached locations and values.
//!
//! Nothing is recovered locally; every failure is an immediate error
//! returned to the caller.  The only structured transformation is
//! `wrap`, which lets an outer call site attach its own location to a
//! propagating inner error.

use vstd::prelude::*;
use crate::abs::Abs;
use crate::common::{DBI, Label, Level, MI, SyntaxInfo, VarRec};
use crate::term::Term;

verus! {

/// Type-checking error.
#[derive(Debug, PartialEq, Eq)]
pub enum TCE {
    Textual(String),

    /// Expression shape not covered by inference or elaboration.
    CannotInfer(SyntaxInfo, Abs),
    /// Two values are structurally irreconcilable.
    CannotUnify(Term, Term),

    /// Expected a sigma type, got the carried value.
    NotSigma(SyntaxInfo, Term),
    /// Expected a pi type (a function), got the carried value.
    NotPi(SyntaxInfo, Term),
    /// Expected the first value to be a subtype of the second.
    NotSubtype(Term, Term),
    /// Expected a type expression, got the carried abstract syntax.
    NotTypeAbs(SyntaxInfo, Abs),
    /// Expected a type expression, got the carried value.
    NotTypeVal(SyntaxInfo, Term),
    /// Expected a record or variant type, got the carried value.
    NotRowType(VarRec, SyntaxInfo, Term),
    /// Expected a record value, got the carried value.
    NotRecVal(SyntaxInfo, Term),
    /// Expected a universe, got the carried value.
    NotUniverseVal(SyntaxInfo, Term),

    /// The context holds no type information at this location.
    TypeNotInGamma(SyntaxInfo),
    /// A variant case collides with one already covering its tag.
    OverlappingVariant(SyntaxInfo, String),
    /// A record field is declared more than once.
    DuplicateField(SyntaxInfo, String),
    /// An open variant chain fell through to an undeclared tag.
    UnexpectedVariant(SyntaxInfo, String),
    /// A required field or case is absent, tagged by the row kind.
    MissingVariant(VarRec, String),
    /// Maximum de Bruijn index vs. requested index.
    DbiOverflow(DBI, DBI),
    /// Expected the first level to be strictly smaller than the second.
    LevelMismatch(SyntaxInfo, Level, Level),
    /// Cannot find the definition.
    LookUpFailed(Label),
    /// An inner error annotated with an outer call site's location.
    Wrapped(Box<TCE>, SyntaxInfo),
    /// The evaluation budget ran out, or evaluation reached an ill-typed
    /// redex, while computing a type during checking.
    EvalLimit(SyntaxInfo),

    /// The definition at the first location would hide the definition at
    /// the second.
    ReDefine(SyntaxInfo, SyntaxInfo),

    /// Recursive metavariable solutions are disallowed.
    MetaRecursion(MI),
    /// A metavariable solution may mention bound variables only.
    MetaWithNonVar(SyntaxInfo),
    /// A metavariable left unsolved at generalization time.
    MetaUnsolved(MI),
}

impl TCE {
    /// Annotate this error with an outer call site's location without
    /// discarding the inner cause.
    pub fn wrap(self, info: SyntaxInfo) -> (r: Self)
        ensures
            r == TCE::Wrapped(Box::new(self), info),
    {
        TCE::Wrapped(Box::new(self), info)
    }

    /// The error for a record field declared more than once.
    pub fn duplicate_field(label: Label) -> (r: Self)
        ensures
            r == TCE::DuplicateField(label.info, label.text),
    {
        TCE::DuplicateField(label.info, label.text)
    }
}

} // verus!
