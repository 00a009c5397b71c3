//! Shared scalar types: universe levels, de Bruijn indices, source
//! locations, and the small tag enums used across the syntax trees.

use vstd::prelude::*;

verus! {

/// Universe level.
pub type Level = u32;

/// De Bruijn index: a binder reference encoded as a distance count.
pub type DBI = usize;

/// Metavariable index.
pub type MI = usize;

/// Source location of a piece of syntax, as byte offsets into the source
/// text.  It is carried around purely for diagnostics and never affects
/// equality or evaluation semantics.
#[derive(Debug, Clone, Copy, PartialEq, Eq, Structural)]
pub struct SyntaxInfo {
    pub start: usize,
    pub end: usize,
}

impl SyntaxInfo {
    pub fn new(start: usize, end: usize) -> (r: SyntaxInfo)
        ensures
            r == (SyntaxInfo { start, end }),
    {
        SyntaxInfo { start, end }
    }
}

/// Whether a parameter is written explicitly by the user or left implicit.
#[derive(Debug, Clone, Copy, PartialEq, Eq, Structural)]
pub enum Visib {
    Explicit,
    Implicit,
}

/// The two kinds of row-polymorphic things: record rows and variant rows.
#[derive(Debug, Clone, Copy, PartialEq, Eq, Structural)]
pub enum VarRec {
    Record,
    Variant,
}

/// A label occurrence in a row: its text together with its location.
#[derive(Debug, PartialEq, Eq)]
pub struct Label {
    pub info: SyntaxInfo,
    pub text: String,
}

} // verus!
