//! Recursive-descent parser for the surface grammar, over the bytes of
//! the source text.
//!
//! ```text
//! file           = { declaration* }
//! declaration    = { signature | implementation }
//! signature      = { "val" ~ identifier ~ ":" ~ expr ~ ";" }
//! implementation = { "let" ~ identifier ~ "=" ~ expr ~ ";" }
//! expr           = { dollar_expr }
//! dollar_expr    = { pipe_expr ~ ("$" ~ pipe_expr)* }
//! pipe_expr      = { sum_expr ~ ("|>" ~ sum_expr)* }
//! sum_expr       = { app_expr ~ ("|" ~ app_expr)* }
//! app_expr       = { primary_expr ~ primary_expr* }
//! primary_expr   = { type_keyword | identifier | constructor
//!                  | meta_var | "(" ~ expr ~ ")" }
//! type_keyword   = { "Type" ~ digit+ }
//! constructor    = { "'" ~ identifier }
//! meta_var       = { "_" }
//! ```
//!
//! Every parsing function returns the expression (or `None` on failure)
//! together with the position after it; on failure the position is
//! handed back unmoved, and a success always makes strict progress, so
//! parsing terminates on every input.  A `Type` level too large for a
//! universe level is rejected rather than wrapped.

use vstd::prelude::*;
use vstd::string::StringSliceAdditionalSpecFns;
use crate::common::{Level, SyntaxInfo};
use crate::surf::{Decl, DeclKind, Expr, Ident};

verus! {

/// Where parsing failed: a byte offset into the source text.
#[derive(Debug, Clone, Copy, PartialEq, Eq, Structural)]
pub struct ParseError {
    pub pos: usize,
}

/// Whitespace: space, tab, line feed, carriage return.
pub open spec fn is_ws(c: u8) -> bool {
    c == 32 || c == 9 || c == 10 || c == 13
}

/// An ASCII decimal digit.
pub open spec fn is_digit(c: u8) -> bool {
    48 <= c <= 57
}

/// An ASCII letter.
pub open spec fn is_alpha(c: u8) -> bool {
    (65 <= c <= 90) || (97 <= c <= 122)
}

/// A byte that may continue an identifier.
pub open spec fn is_ident_char(c: u8) -> bool {
    is_alpha(c) || is_digit(c) || c == 95
}

/// The numeric value of a digit run.
pub open spec fn digits_val(s: Seq<u8>) -> nat
    decreases s.len(),
{
    if s.len() == 0 {
        0
    } else {
        (digits_val(s.drop_last()) * 10 + (s.last() - 48)) as nat
    }
}

/// Skip whitespace; the returned position sits on the first byte that is
/// not whitespace, or at the end of the input.
fn skip_ws(b: &[u8], pos: usize) -> (r: usize)
    requires
        pos <= b@.len(),
    ensures
        pos <= r <= b@.len(),
        forall|k: int| pos <= k < r ==> is_ws(b@[k]),
        r < b@.len() ==> !is_ws(b@[r as int]),
{
    let mut p = pos;
    while p < b.len()
        invariant
            pos <= p <= b@.len(),
            forall|k: int| pos <= k < p ==> is_ws(b@[k]),
        decreases b@.len() - p,
    {
        let c = b[p];
        if c == 32 || c == 9 || c == 10 || c == 13 {
            p = p + 1;
        } else {
            return p;
        }
    }
    p
}

/// Parse an identifier: a letter followed by the longest run of
/// letters, digits, and underscores.  The returned identifier's span is
/// exactly the consumed range.
fn ident_at(b: &[u8], pos: usize) -> (r: (Option<Ident>, usize))
    requires
        pos <= b@.len(),
    ensures
        r.1 <= b@.len(),
        r.0 is None ==> r.1 == pos,
        r.0 is None ==> pos == b@.len() || !is_alpha(b@[pos as int]),
        match r.0 {
            Some(id) => {
                &&& pos < r.1
                &&& id.info == (SyntaxInfo { start: pos, end: r.1 })
                &&& is_alpha(b@[pos as int])
                &&& forall|k: int| pos < k < r.1 ==> is_ident_char(b@[k])
                &&& r.1 < b@.len() ==> !is_ident_char(b@[r.1 as int])
            }
            None => true,
        },
    decreases b@.len() - pos,
{
    if pos >= b.len() {
        return (None, pos);
    }
    let c = b[pos];
    if !((65 <= c && c <= 90) || (97 <= c && c <= 122)) {
        return (None, pos);
    }
    let mut p = pos + 1;
    while p < b.len()
        invariant
            pos < p <= b@.len(),
            is_alpha(b@[pos as int]),
            forall|k: int| pos < k < p ==> is_ident_char(b@[k]),
        decreases b@.len() - p,
    {
        let c = b[p];
        if (65 <= c && c <= 90) || (97 <= c && c <= 122) || (48 <= c && c <= 57) || c == 95 {
            p = p + 1;
        } else {
            return (Some(Ident { info: SyntaxInfo { start: pos, end: p } }), p);
        }
    }
    (Some(Ident { info: SyntaxInfo { start: pos, end: p } }), p)
}

/// Parse a run of digits into a universe level.  A run whose value does
/// not fit in a level is rejected.
fn level_at(b: &[u8], pos: usize) -> (r: (Option<Level>, usize))
    requires
        pos <= b@.len(),
    ensures
        r.1 <= b@.len(),
        r.0 is None ==> r.1 == pos,
        match r.0 {
            Some(lvl) => pos < r.1 && lvl as nat == digits_val(b@.subrange(pos as int, r.1 as int)),
            None => true,
        },
    decreases b@.len() - pos,
{
    if pos >= b.len() {
        return (None, pos);
    }
    let c0 = b[pos];
    if !(48 <= c0 && c0 <= 57) {
        return (None, pos);
    }
    let mut acc: u64 = 0;
    let mut p = pos;
    while p < b.len()
        invariant
            pos <= p <= b@.len(),
            acc <= 0xFFFF_FFFFu64,
            acc as nat == digits_val(b@.subrange(pos as int, p as int)),
        decreases b@.len() - p,
    {
        let c = b[p];
        if 48 <= c && c <= 57 {
            let ghost pre = b@.subrange(pos as int, p as int);
            acc = acc * 10 + ((c - 48) as u64);
            p = p + 1;
            proof {
                let cur = b@.subrange(pos as int, p as int);
                assert(cur.drop_last() =~= pre);
                assert(cur.last() == c);
            }
            if acc > 0xFFFF_FFFFu64 {
                return (None, pos);
            }
        } else {
            break;
        }
    }
    if p == pos {
        return (None, pos);
    }
    (Some(acc as u32), p)
}

/// Parse a primary expression: a `Type` literal, a variable, a
/// constructor, a metavariable, or a parenthesized expression.
fn primary_at(b: &[u8], pos: usize) -> (r: (Option<Expr>, usize))
    requires
        pos <= b@.len(),
    ensures
        r.1 <= b@.len(),
        r.0 is Some ==> pos < r.1,
        r.0 is None ==> r.1 == pos,
    decreases b@.len() - pos, 0nat,
{
    let p = skip_ws(b, pos);
    if p >= b.len() {
        return (None, pos);
    }
    let c = b[p];
    if c == 39 {
        // a constructor: '
        match ident_at(b, p + 1) {
            (Some(id), p2) => (
                Some(Expr::Cons(Ident { info: SyntaxInfo { start: p, end: id.info.end } })),
                p2,
            ),
            (None, _) => (None, pos),
        }
    } else if c == 40 {
        // a parenthesized expression: (
        let (e, p2) = expr_at(b, p + 1);
        match e {
            None => (None, pos),
            Some(e) => {
                let p3 = skip_ws(b, p2);
                if p3 < b.len() && b[p3] == 41 {
                    (Some(e), p3 + 1)
                } else {
                    (None, pos)
                }
            }
        }
    } else if c == 95 {
        // a metavariable: _
        (Some(Expr::Meta(Ident { info: SyntaxInfo { start: p, end: p + 1 } })), p + 1)
    } else if (65 <= c && c <= 90) || (97 <= c && c <= 122) {
        let is_type_lit = b.len() - p > 4 && b[p] == 84 && b[p + 1] == 121 && b[p + 2] == 112 && b[p
            + 3] == 101 && 48 <= b[p + 4] && b[p + 4] <= 57;
        if is_type_lit {
            match level_at(b, p + 4) {
                (Some(lvl), p2) => (Some(Expr::Type(SyntaxInfo { start: p, end: p2 }, lvl)), p2),
                (None, _) => (None, pos),
            }
        } else {
            match ident_at(b, p) {
                (Some(id), p2) => (Some(Expr::Var(id)), p2),
                (None, _) => (None, pos),
            }
        }
    } else {
        (None, pos)
    }
}

/// Parse a run of juxtaposed primary expressions as applications.
fn app_at(b: &[u8], pos: usize) -> (r: (Option<Expr>, usize))
    requires
        pos <= b@.len(),
    ensures
        r.1 <= b@.len(),
        r.0 is Some ==> pos < r.1,
        r.0 is None ==> r.1 == pos,
    decreases b@.len() - pos, 1nat,
{
    let (first, p1) = primary_at(b, pos);
    match first {
        None => (None, pos),
        Some(first) => {
            let mut acc = first;
            let mut p = p1;
            loop
                invariant
                    pos < p <= b@.len(),
                decreases b@.len() - p,
            {
                let (nxt, p2) = primary_at(b, p);
                match nxt {
                    None => {
                        break;
                    }
                    Some(e2) => {
                        acc = Expr::App(Box::new(acc), Box::new(e2));
                        p = p2;
                    }
                }
            }
            (Some(acc), p)
        }
    }
}

/// Parse `|`-separated application chains as sums.  A `|` immediately
/// followed by `>` belongs to the pipeline operator and stops the sum.
fn sum_at(b: &[u8], pos: usize) -> (r: (Option<Expr>, usize))
    requires
        pos <= b@.len(),
    ensures
        r.1 <= b@.len(),
        r.0 is Some ==> pos < r.1,
        r.0 is None ==> r.1 == pos,
    decreases b@.len() - pos, 2nat,
{
    let (first, p1) = app_at(b, pos);
    match first {
        None => (None, pos),
        Some(first) => {
            let mut acc = first;
            let mut p = p1;
            loop
                invariant
                    pos < p <= b@.len(),
                decreases b@.len() - p,
            {
                let pw = skip_ws(b, p);
                if pw < b.len() && b[pw] == 124 && !(b.len() - pw > 1 && b[pw + 1] == 62) {
                    let (nxt, p2) = app_at(b, pw + 1);
                    match nxt {
                        None => {
                            break;
                        }
                        Some(e2) => {
                            acc = Expr::Sum(Box::new(acc), Box::new(e2));
                            p = p2;
                        }
                    }
                } else {
                    break;
                }
            }
            (Some(acc), p)
        }
    }
}

/// Parse `|>`-separated sums as a pipeline.
fn pipe_at(b: &[u8], pos: usize) -> (r: (Option<Expr>, usize))
    requires
        pos <= b@.len(),
    ensures
        r.1 <= b@.len(),
        r.0 is Some ==> pos < r.1,
        r.0 is None ==> r.1 == pos,
    decreases b@.len() - pos, 3nat,
{
    let (first, p1) = sum_at(b, pos);
    match first {
        None => (None, pos),
        Some(first) => {
            let mut acc = first;
            let mut p = p1;
            loop
                invariant
                    pos < p <= b@.len(),
                decreases b@.len() - p,
            {
                let pw = skip_ws(b, p);
                if pw < b.len() && b.len() - pw > 1 && b[pw] == 124 && b[pw + 1] == 62 {
                    let (nxt, p2) = sum_at(b, pw + 2);
                    match nxt {
                        None => {
                            break;
                        }
                        Some(e2) => {
                            acc = Expr::Pipe(Box::new(acc), Box::new(e2));
                            p = p2;
                        }
                    }
                } else {
                    break;
                }
            }
            (Some(acc), p)
        }
    }
}

/// Parse `$`-separated pipelines as low-precedence applications.
fn dollar_at(b: &[u8], pos: usize) -> (r: (Option<Expr>, usize))
    requires
        pos <= b@.len(),
    ensures
        r.1 <= b@.len(),
        r.0 is Some ==> pos < r.1,
        r.0 is None ==> r.1 == pos,
    decreases b@.len() - pos, 4nat,
{
    let (first, p1) = pipe_at(b, pos);
    match first {
        None => (None, pos),
        Some(first) => {
            let mut acc = first;
            let mut p = p1;
            loop
                invariant
                    pos < p <= b@.len(),
                decreases b@.len() - p,
            {
                let pw = skip_ws(b, p);
                if pw < b.len() && b[pw] == 36 {
                    let (nxt, p2) = pipe_at(b, pw + 1);
                    match nxt {
                        None => {
                            break;
                        }
                        Some(e2) => {
                            acc = Expr::App(Box::new(acc), Box::new(e2));
                            p = p2;
                        }
                    }
                } else {
                    break;
                }
            }
            (Some(acc), p)
        }
    }
}

/// Parse one expression.
fn expr_at(b: &[u8], pos: usize) -> (r: (Option<Expr>, usize))
    requires
        pos <= b@.len(),
    ensures
        r.1 <= b@.len(),
        r.0 is Some ==> pos < r.1,
        r.0 is None ==> r.1 == pos,
    decreases b@.len() - pos, 5nat,
{
    dollar_at(b, pos)
}

/// Whether the three-byte keyword starting at `pos` stands alone, not as
/// an identifier prefix.
fn keyword3_at(b: &[u8], pos: usize, c0: u8, c1: u8, c2: u8) -> (r: bool)
    requires
        pos <= b@.len(),
    ensures
        r ==> pos + 3 <= b@.len() && b@[pos as int] == c0 && b@[pos + 1] == c1 && b@[pos + 2]
            == c2,
{
    if b.len() - pos < 3 {
        return false;
    }
    if !(b[pos] == c0 && b[pos + 1] == c1 && b[pos + 2] == c2) {
        return false;
    }
    if pos + 3 < b.len() {
        let c = b[pos + 3];
        if (65 <= c && c <= 90) || (97 <= c && c <= 122) || (48 <= c && c <= 57) || c == 95 {
            return false;
        }
    }
    true
}

/// Parse one declaration: a signature `val x : e;` or an implementation
/// `let x = e;`.  The kind of the result records which keyword opened
/// the declaration.
fn declaration_at(b: &[u8], pos: usize) -> (r: (Option<Decl>, usize))
    requires
        pos <= b@.len(),
    ensures
        r.1 <= b@.len(),
        r.0 is Some ==> pos < r.1,
        r.0 is None ==> r.1 == pos,
        match r.0 {
            Some(d) => {
                &&& (d.kind == DeclKind::Sign <==> b@[pos as int] == 118)
                &&& (d.kind == DeclKind::Impl <==> b@[pos as int] == 108)
            }
            None => true,
        },
    decreases b@.len() - pos,
{
    // "val" = 118 97 108; "let" = 108 101 116
    let is_sign = keyword3_at(b, pos, 118, 97, 108);
    let is_impl = if is_sign {
        false
    } else {
        keyword3_at(b, pos, 108, 101, 116)
    };
    if !is_sign && !is_impl {
        return (None, pos);
    }
    let sep: u8 = if is_sign {
        58
    } else {
        61
    };  // ':' or '='
    let n = b.len();
    proof {
        assert(pos + 3 <= n);
    }
    let p1 = skip_ws(b, pos + 3);
    match ident_at(b, p1) {
        (None, _) => (None, pos),
        (Some(name), p2) => {
            let p3 = skip_ws(b, p2);
            if !(p3 < b.len() && b[p3] == sep) {
                return (None, pos);
            }
            match expr_at(b, p3 + 1) {
                (None, _) => (None, pos),
                (Some(body), p4) => {
                    let p5 = skip_ws(b, p4);
                    if p5 < b.len() && b[p5] == 59 {
                        // ';'
                        let kind = if is_sign {
                            DeclKind::Sign
                        } else {
                            DeclKind::Impl
                        };
                        (Some(Decl { name, body, kind }), p5 + 1)
                    } else {
                        (None, pos)
                    }
                }
            }
        }
    }
}

/// Parse a whole source text into its declarations.  The entire input
/// must be consumed, up to trailing whitespace; otherwise the byte
/// offset where parsing stopped is reported.
pub fn parse_str(input: &str) -> (r: Result<Vec<Decl>, ParseError>)
    ensures
        r matches Err(e) ==> e.pos <= input.spec_bytes().len(),
{
    let b = input.as_bytes();
    let mut decls: Vec<Decl> = Vec::new();
    let mut pos: usize = 0;
    loop
        invariant
            pos <= b@.len(),
            b@ == input.spec_bytes(),
        decreases b@.len() - pos,
    {
        let p = skip_ws(b, pos);
        if p == b.len() {
            return Ok(decls);
        }
        let (d, p2) = declaration_at(b, p);
        match d {
            Some(d) => {
                decls.push(d);
                pos = p2;
            }
            None => {
                return Err(ParseError { pos: p });
            }
        }
    }
}

} // verus!
