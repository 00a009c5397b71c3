//! Elaboration core of a small dependently-typed language.
//!
//! The library takes scope-resolved abstract syntax and either verifies it
//! against an expected type or synthesizes a type for it, producing a
//! fully-elaborated core term.  Evaluation is normalization-by-evaluation
//! over closures that capture their environment by value; contexts and
//! environments are de Bruijn indexed; universes are cumulative.

pub mod common;
pub mod term;
pub mod eval;
pub mod abs;
pub mod error;
pub mod tcs;
pub mod check;
pub mod unify;
pub mod surf;
pub mod parse;
