//! The bidirectional checker: `check` elaborates abstract syntax against
//! an expected type, `infer` synthesizes a type, `check_type` recognizes
//! type expressions, and `check_subtype` decides universe cumulativity.
//!
//! Rule selection is a joint pattern match on the shapes of the
//! expression and of the expected type.  Every function is total over its
//! input union: shapes outside the enumerated rules fail with an explicit
//! error rather than aborting.  The whole behavior of each executable
//! function is pinned by a specification twin over the views of the
//! state; in particular a successful call hands the state back with the
//! local context and environment exactly as they were before the call.

use vstd::prelude::*;
use crate::abs::{levels_ok, spec_abs_info, Abs, LabAbs};
use crate::common::{Label, SyntaxInfo, VarRec, Visib};
use crate::error::TCE;
use crate::eval::{spec_instantiate, EVAL_FUEL};
use crate::tcs::{spec_lookup_global, spec_lookup_stack, stack_env_list, TCM, TCS, TermTCM};
use crate::term::{spec_is_type, Closure, ClosureBody, DtKind, Neutral, Term, TermInfo};

verus! {

/// Whether the field at `j` repeats the text of an earlier field.
pub open spec fn repeats_earlier(fields: Seq<LabAbs>, j: int) -> bool {
    exists|i: int| 0 <= i < j && fields[i].label.text@ == fields[j].label.text@
}

/// The smallest index at or after `from` whose label repeats an earlier
/// one.
pub open spec fn first_dup_at(fields: Seq<LabAbs>, from: int) -> Option<int>
    decreases fields.len() - from,
{
    if from < 0 || from >= fields.len() {
        None
    } else if repeats_earlier(fields, from) {
        Some(from)
    } else {
        first_dup_at(fields, from + 1)
    }
}

/// The first label that repeats an earlier one among the fields, if any.
pub open spec fn spec_find_dup(fields: Seq<LabAbs>) -> Option<Label> {
    match first_dup_at(fields, 0) {
        Some(j) => Some(fields[j].label),
        None => None,
    }
}

proof fn lemma_first_dup_skip(fields: Seq<LabAbs>, from: int, j: int)
    requires
        0 <= from <= j <= fields.len(),
        forall|k: int| from <= k < j ==> !repeats_earlier(fields, k),
    ensures
        first_dup_at(fields, from) == first_dup_at(fields, j),
    decreases j - from,
{
    if from < j {
        lemma_first_dup_skip(fields, from + 1, j);
    }
}

/// Scan the declared fields for a label declared more than once; the
/// first repeated occurrence is reported, as its location and text.
fn find_dup(fields: &Vec<LabAbs>) -> (r: Option<(SyntaxInfo, String)>)
    ensures
        match spec_find_dup(fields@) {
            Some(lab) => r == Some((lab.info, lab.text)),
            None => r is None,
        },
{
    let n = fields.len();
    let mut j: usize = 1;
    while j < n
        invariant
            1 <= j,
            n == fields@.len(),
            forall|k: int| 0 <= k < j ==> !repeats_earlier(fields@, k),
        decreases n - j,
    {
        let mut i: usize = 0;
        while i < j
            invariant
                0 <= i <= j < n,
                n == fields@.len(),
                forall|k: int| 0 <= k < j ==> !repeats_earlier(fields@, k),
                forall|k: int| 0 <= k < i ==> fields@[k].label.text@ != fields@[j as int].label.text@,
            decreases j - i,
        {
            if fields[i].label.text == fields[j].label.text {
                proof {
                    assert(repeats_earlier(fields@, j as int));
                    lemma_first_dup_skip(fields@, 0, j as int);
                    assert(first_dup_at(fields@, j as int) == Some(j as int));
                }
                return Some((fields[j].label.info, fields[j].label.text.clone()));
            }
            i = i + 1;
        }
        proof {
            assert(!repeats_earlier(fields@, j as int));
        }
        j = j + 1;
    }
    proof {
        if n == 0 {
            assert(first_dup_at(fields@, 0) is None);
        } else {
            assert(!repeats_earlier(fields@, 0));
            lemma_first_dup_skip(fields@, 0, n as int);
        }
    }
    None
}

/// Subtyping: only universe cumulativity is covered, `Type(i)` is a
/// subtype of `Type(j)` exactly when `i <= j`; every other pair fails.
pub open spec fn spec_check_subtype(sub: Term, sup: Term) -> Result<(), TCE> {
    match (sub, sup) {
        (Term::Type(i), Term::Type(j)) => if i <= j {
            Ok(())
        } else {
            Err(TCE::NotSubtype(sub, sup))
        },
        _ => Err(TCE::NotSubtype(sub, sup)),
    }
}

/// The specification of `check_type`: which expressions are accepted as
/// type expressions, and the core term each elaborates to.
pub open spec fn spec_check_type(
    lg: Seq<TermInfo>,
    le: Seq<TermInfo>,
    gg: Seq<TermInfo>,
    ge: Seq<TermInfo>,
    expr: Abs,
) -> Result<TermInfo, TCE>
    decreases expr,
{
    match expr {
        Abs::Type(info, level) => Ok(TermInfo { ast: Term::Type(level), info }),
        Abs::Bot(info) => Ok(TermInfo { ast: Term::Bot(0), info }),
        Abs::Local(info, dbi) => match spec_lookup_stack(lg, dbi as nat) {
            None => Err(TCE::DbiOverflow(lg.len() as usize, dbi)),
            Some(ti) => if spec_is_type(ti.ast) {
                Ok(TermInfo { ast: Term::Neut(Neutral::Gen(Some(dbi))), info })
            } else {
                Err(TCE::NotTypeAbs(info, Abs::Local(info, dbi)))
            },
        },
        Abs::Var(info, dbi) => match spec_lookup_global(gg, dbi as nat) {
            None => Err(TCE::DbiOverflow(gg.len() as usize, dbi)),
            Some(ti) => if spec_is_type(ti.ast) {
                Ok(
                    TermInfo {
                        ast: match spec_lookup_global(ge, dbi as nat) {
                            Some(v) => v.ast,
                            None => Term::Neut(Neutral::Gen(None)),
                        },
                        info,
                    },
                )
            } else {
                Err(TCE::NotTypeAbs(info, Abs::Var(info, dbi)))
            },
        },
        Abs::Dt(info, visib, kind, param, ret) => match spec_check_type(lg, le, gg, ge, *param) {
            Err(e) => Err(e),
            Ok(param_ti) => {
                let mock_ti = TermInfo { ast: Term::Neut(Neutral::Gen(None)), info: param_ti.info };
                match spec_check_type(lg.push(param_ti), le.push(mock_ti), gg, ge, *ret) {
                    Err(e) => Err(e),
                    Ok(ret_ti) => Ok(
                        TermInfo {
                            ast: Term::Dt(
                                visib,
                                kind,
                                Closure {
                                    param_type: Box::new(param_ti.ast),
                                    body: ClosureBody {
                                        body: Box::new(ret_ti),
                                        env: stack_env_list(le),
                                    },
                                },
                            ),
                            info,
                        },
                    ),
                }
            }
        },
        e => Err(TCE::NotTypeAbs(spec_abs_info(e), e)),
    }
}

/// The specification of `infer`: the type synthesized for each
/// synthesis-directed expression shape, and the error for every other.
pub open spec fn spec_infer(
    lg: Seq<TermInfo>,
    le: Seq<TermInfo>,
    gg: Seq<TermInfo>,
    ge: Seq<TermInfo>,
    expr: Abs,
) -> Result<TermInfo, TCE>
    decreases expr,
{
    match expr {
        Abs::Type(info, level) => Ok(TermInfo { ast: Term::Type((level + 1) as u32), info }),
        Abs::Local(info, dbi) => match spec_lookup_stack(lg, dbi as nat) {
            None => Err(TCE::DbiOverflow(lg.len() as usize, dbi)),
            Some(ti) => Ok(TermInfo { ast: ti.ast, info }),
        },
        Abs::Var(info, dbi) => match spec_lookup_global(gg, dbi as nat) {
            None => Err(TCE::DbiOverflow(gg.len() as usize, dbi)),
            Some(ti) => Ok(TermInfo { ast: ti.ast, info }),
        },
        Abs::Pair(info, fst, snd) => match spec_infer(lg, le, gg, ge, *fst) {
            Err(e) => Err(e),
            Ok(fst_ty) => match spec_infer(lg, le, gg, ge, *snd) {
                Err(e) => Err(e),
                Ok(snd_ty) => Ok(
                    TermInfo {
                        ast: Term::Dt(
                            Visib::Explicit,
                            DtKind::Sigma,
                            Closure {
                                param_type: Box::new(fst_ty.ast),
                                body: ClosureBody {
                                    body: Box::new(snd_ty),
                                    env: stack_env_list(le),
                                },
                            },
                        ),
                        info,
                    },
                ),
            },
        },
        Abs::Fst(info, pair) => match spec_infer(lg, le, gg, ge, *pair) {
            Err(e) => Err(e),
            Ok(pair_ty) => match pair_ty.ast {
                Term::Dt(_, DtKind::Sigma, closure) => Ok(
                    TermInfo { ast: *closure.param_type, info },
                ),
                other => Err(TCE::NotSigma(pair_ty.info, other)),
            },
        },
        Abs::App(info, f, a) => match spec_infer(lg, le, gg, ge, *f) {
            Err(e) => Err(e),
            Ok(f_ty) => match f_ty.ast {
                Term::Dt(_, DtKind::Pi, closure) => match spec_check(
                    lg,
                    le,
                    gg,
                    ge,
                    *a,
                    *closure.param_type,
                ) {
                    Err(e) => Err(e),
                    Ok(new_a) => match spec_instantiate(closure.body, new_a.ast, EVAL_FUEL as nat) {
                        None => Err(TCE::EvalLimit(info)),
                        Some(t) => Ok(TermInfo { ast: t, info }),
                    },
                },
                other => Err(TCE::NotPi(info, other)),
            },
        },
        e => Err(TCE::CannotInfer(spec_abs_info(e), e)),
    }
}

/// The specification of `check`: for each pair of expression shape and
/// expected-type shape, the elaborated core term or the error.
pub open spec fn spec_check(
    lg: Seq<TermInfo>,
    le: Seq<TermInfo>,
    gg: Seq<TermInfo>,
    ge: Seq<TermInfo>,
    expr: Abs,
    expected: Term,
) -> Result<TermInfo, TCE>
    decreases expr,
{
    match (expr, expected) {
        (Abs::Type(info, lower), Term::Type(upper)) => if upper > lower {
            Ok(TermInfo { ast: Term::Type(lower), info })
        } else {
            Err(TCE::LevelMismatch(info, (lower + 1) as u32, upper))
        },
        (Abs::Pair(info, fst, snd), Term::Dt(_, DtKind::Sigma, closure)) => match spec_check(
            lg,
            le,
            gg,
            ge,
            *fst,
            *closure.param_type,
        ) {
            Err(e) => Err(e),
            Ok(fst_term) => match spec_instantiate(closure.body, fst_term.ast, EVAL_FUEL as nat) {
                None => Err(TCE::EvalLimit(info)),
                Some(snd_ty) => {
                    let param_ti = TermInfo { ast: *closure.param_type, info: fst_term.info };
                    match spec_check(lg.push(param_ti), le.push(fst_term), gg, ge, *snd, snd_ty) {
                        Err(e) => Err(e),
                        Ok(snd_term) => Ok(
                            TermInfo {
                                ast: Term::Pair(Box::new(fst_term.ast), Box::new(snd_term.ast)),
                                info,
                            },
                        ),
                    }
                }
            },
        },
        (Abs::Lam(info, param_info, body), Term::Dt(_, DtKind::Pi, closure)) => {
            let param_ti = TermInfo { ast: *closure.param_type, info: param_info };
            let mock_ti = TermInfo { ast: Term::Neut(Neutral::Gen(None)), info: param_info };
            match spec_instantiate(closure.body, Term::Neut(Neutral::Gen(None)), EVAL_FUEL as nat) {
                None => Err(TCE::EvalLimit(info)),
                Some(body_ty) => spec_check(
                    lg.push(param_ti),
                    le.push(mock_ti),
                    gg,
                    ge,
                    *body,
                    body_ty,
                ),
            }
        }
        (Abs::Local(info, dbi), anything) => match spec_lookup_stack(lg, dbi as nat) {
            None => Err(TCE::DbiOverflow(lg.len() as usize, dbi)),
            Some(ti) => match spec_check_subtype(ti.ast, anything) {
                Err(e) => Err(e),
                Ok(_) => Ok(TermInfo { ast: Term::Neut(Neutral::Gen(Some(dbi))), info }),
            },
        },
        (Abs::Bot(info), Term::Type(level)) => Ok(
            TermInfo {
                ast: Term::Bot(if level == 0 { 0u32 } else { (level - 1) as u32 }),
                info,
            },
        ),
        (Abs::Dt(info, visib, kind, param, ret), Term::Type(_)) => match spec_check_type(
            lg,
            le,
            gg,
            ge,
            *param,
        ) {
            Err(e) => Err(e),
            Ok(param_ti) => {
                let mock_ti = TermInfo { ast: Term::Neut(Neutral::Gen(None)), info: param_ti.info };
                match spec_check_type(lg.push(param_ti), le.push(mock_ti), gg, ge, *ret) {
                    Err(e) => Err(e),
                    Ok(ret_ti) => Ok(
                        TermInfo {
                            ast: Term::Dt(
                                visib,
                                kind,
                                Closure {
                                    param_type: Box::new(param_ti.ast),
                                    body: ClosureBody {
                                        body: Box::new(ret_ti),
                                        env: stack_env_list(le),
                                    },
                                },
                            ),
                            info,
                        },
                    ),
                }
            }
        },
        (Abs::Rec(info, fields), anything) => match spec_find_dup(fields@) {
            Some(lab) => Err(TCE::DuplicateField(lab.info, lab.text)),
            None => Err(TCE::NotRowType(VarRec::Record, info, anything)),
        },
        (Abs::RowPoly(info, kind, fields), _) => match spec_find_dup(fields@) {
            Some(lab) => match kind {
                VarRec::Record => Err(TCE::DuplicateField(lab.info, lab.text)),
                VarRec::Variant => Err(TCE::OverlappingVariant(lab.info, lab.text)),
            },
            None => Err(TCE::CannotInfer(info, Abs::RowPoly(info, kind, fields))),
        },
        (e, _) => Err(TCE::CannotInfer(spec_abs_info(e), e)),
    }
}

/// The two states hold the same contexts and environments.
pub open spec fn same_state(a: TCS, b: TCS) -> bool {
    a.local_gamma@ == b.local_gamma@ && a.local_env@ == b.local_env@ && a.global_gamma@
        == b.global_gamma@ && a.global_env@ == b.global_env@
}

/// The spec checker applied to the views of a state.
pub open spec fn check_of(tcs: TCS, expr: Abs, expected: Term) -> Result<TermInfo, TCE> {
    spec_check(tcs.local_gamma@, tcs.local_env@, tcs.global_gamma@, tcs.global_env@, expr, expected)
}

/// The spec inference applied to the views of a state.
pub open spec fn infer_of(tcs: TCS, expr: Abs) -> Result<TermInfo, TCE> {
    spec_infer(tcs.local_gamma@, tcs.local_env@, tcs.global_gamma@, tcs.global_env@, expr)
}

/// The spec type recognizer applied to the views of a state.
pub open spec fn check_type_of(tcs: TCS, expr: Abs) -> Result<TermInfo, TCE> {
    spec_check_type(tcs.local_gamma@, tcs.local_env@, tcs.global_gamma@, tcs.global_env@, expr)
}

/// Abstract term, checked under an expected type, to core term.
///
/// On success the returned state is the given one unchanged: every rule
/// that extends the local context pops what it pushed, on every path
/// (context balance).  On failure the state is consumed, as the threading
/// discipline prescribes.
pub fn check(tcs: TCS, expr: Abs, expected_type: Term) -> (r: TermTCM)
    requires
        levels_ok(expr),
    ensures
        match r {
            Ok((ti, tcs2)) => check_of(tcs, expr, expected_type) == Ok::<TermInfo, TCE>(ti)
                && same_state(tcs2, tcs),
            Err(e) => check_of(tcs, expr, expected_type) == Err::<TermInfo, TCE>(e),
        },
    decreases expr,
{
    let ghost old_lg = tcs.local_gamma@;
    let ghost old_le = tcs.local_env@;
    match (expr, expected_type) {
        (Abs::Type(info, lower), Term::Type(upper)) => {
            if upper > lower {
                Ok((TermInfo::new(Term::Type(lower), info), tcs))
            } else {
                Err(TCE::LevelMismatch(info, lower + 1, upper))
            }
        }
        (Abs::Pair(info, fst, snd), Term::Dt(_, DtKind::Sigma, closure)) => {
            let Closure { param_type, body } = closure;
            match check(tcs, *fst, param_type.duplicate()) {
                Err(e) => Err(e),
                Ok((fst_term, mut tcs)) => {
                    let fst_term_ast = fst_term.ast.duplicate();
                    match body.instantiate(fst_term.ast.duplicate()) {
                        None => Err(TCE::EvalLimit(info)),
                        Some(snd_ty) => {
                            let param_ti = TermInfo::new(*param_type, fst_term.info);
                            tcs.push_local(param_ti, fst_term);
                            match check(tcs, *snd, snd_ty) {
                                Err(e) => Err(e),
                                Ok((snd_term, mut tcs)) => {
                                    tcs.pop_local();
                                    proof {
                                        assert(tcs.local_gamma@ =~= old_lg);
                                        assert(tcs.local_env@ =~= old_le);
                                    }
                                    Ok(
                                        (
                                            TermInfo::new(Term::pair(fst_term_ast, snd_term.ast), info),
                                            tcs,
                                        ),
                                    )
                                }
                            }
                        }
                    }
                }
            }
        }
        (Abs::Lam(info, param_info, body), Term::Dt(_, DtKind::Pi, closure)) => {
            let Closure { param_type, body: ret_body } = closure;
            let param_ti = TermInfo::new(*param_type, param_info);
            let mock_ti = TermInfo::new(Term::mock(), param_info);
            match ret_body.instantiate(Term::mock()) {
                None => Err(TCE::EvalLimit(info)),
                Some(body_ty) => {
                    let mut tcs = tcs;
                    tcs.push_local(param_ti, mock_ti);
                    match check(tcs, *body, body_ty) {
                        Err(e) => Err(e),
                        Ok((lam_term, mut tcs)) => {
                            tcs.pop_local();
                            proof {
                                assert(tcs.local_gamma@ =~= old_lg);
                                assert(tcs.local_env@ =~= old_le);
                            }
                            Ok((lam_term, tcs))
                        }
                    }
                }
            }
        }
        (Abs::Local(info, dbi), anything) => {
            let inferred = match tcs.local_type(dbi) {
                Some(ti) => Some(ti.ast.duplicate()),
                None => None,
            };
            match inferred {
                None => {
                    let max = tcs.local_gamma.len();
                    Err(TCE::DbiOverflow(max, dbi))
                }
                Some(sub) => match check_subtype(tcs, &sub, &anything) {
                    Err(e) => Err(e),
                    Ok(tcs2) => Ok((TermInfo::new(Term::gen(dbi), info), tcs2)),
                },
            }
        }
        (Abs::Bot(info), Term::Type(level)) => {
            let graded: u32 = if level == 0 { 0 } else { level - 1 };
            Ok((TermInfo::new(Term::Bot(graded), info), tcs))
        }
        (Abs::Dt(info, visib, kind, param, ret), Term::Type(_)) => {
            match check_type(tcs, *param) {
                Err(e) => Err(e),
                Ok((param_ti, mut tcs)) => {
                    let env_snapshot = tcs.current_env();
                    let param_dup = param_ti.duplicate();
                    let mock_ti = TermInfo::new(Term::mock(), param_ti.info);
                    tcs.push_local(param_dup, mock_ti);
                    match check_type(tcs, *ret) {
                        Err(e) => Err(e),
                        Ok((ret_ti, mut tcs)) => {
                            tcs.pop_local();
                            proof {
                                assert(tcs.local_gamma@ =~= old_lg);
                                assert(tcs.local_env@ =~= old_le);
                            }
                            let closure = Closure {
                                param_type: Box::new(param_ti.ast),
                                body: ClosureBody { body: Box::new(ret_ti), env: env_snapshot },
                            };
                            Ok((TermInfo::new(Term::dependent_type(visib, kind, closure), info), tcs))
                        }
                    }
                }
            }
        }
        (Abs::Rec(info, fields), anything) => match find_dup(&fields) {
            Some((lab_info, lab_text)) => Err(TCE::DuplicateField(lab_info, lab_text)),
            None => Err(TCE::NotRowType(VarRec::Record, info, anything)),
        },
        (Abs::RowPoly(info, kind, fields), _) => match find_dup(&fields) {
            Some((lab_info, lab_text)) => match kind {
                VarRec::Record => Err(TCE::DuplicateField(lab_info, lab_text)),
                VarRec::Variant => Err(TCE::OverlappingVariant(lab_info, lab_text)),
            },
            None => Err(TCE::CannotInfer(info, Abs::RowPoly(info, kind, fields))),
        },
        (e, _) => {
            let info = e.syntax_info();
            Err(TCE::CannotInfer(info, e))
        }
    }
}

/// Check whether an expression is a valid type expression and elaborate
/// it.  Universes, the empty type, dependent-type formers, and any bound
/// or global variable whose recorded type is itself a type former are
/// accepted; everything else fails.  A local variable elaborates to a
/// generated reference, resolved against the local environment when it
/// is reduced; a global has no core reference form, so its stored value
/// is inlined, or a postulate stands in while the driver has not
/// supplied one.
pub fn check_type(tcs: TCS, expr: Abs) -> (r: TermTCM)
    ensures
        match r {
            Ok((ti, tcs2)) => check_type_of(tcs, expr) == Ok::<TermInfo, TCE>(ti) && same_state(
                tcs2,
                tcs,
            ),
            Err(e) => check_type_of(tcs, expr) == Err::<TermInfo, TCE>(e),
        },
    decreases expr,
{
    let ghost old_lg = tcs.local_gamma@;
    let ghost old_le = tcs.local_env@;
    match expr {
        Abs::Type(info, level) => Ok((TermInfo::new(Term::Type(level), info), tcs)),
        Abs::Bot(info) => Ok((TermInfo::new(Term::Bot(0), info), tcs)),
        Abs::Local(info, dbi) => {
            let is_ty = match tcs.local_type(dbi) {
                Some(ti) => Some(ti.ast.is_type()),
                None => None,
            };
            match is_ty {
                None => {
                    let max = tcs.local_gamma.len();
                    Err(TCE::DbiOverflow(max, dbi))
                }
                Some(true) => Ok((TermInfo::new(Term::gen(dbi), info), tcs)),
                Some(false) => Err(TCE::NotTypeAbs(info, Abs::Local(info, dbi))),
            }
        }
        Abs::Var(info, dbi) => {
            let is_ty = match tcs.glob_type(dbi) {
                Some(ti) => Some(ti.ast.is_type()),
                None => None,
            };
            match is_ty {
                None => {
                    let max = tcs.global_gamma.len();
                    Err(TCE::DbiOverflow(max, dbi))
                }
                Some(true) => {
                    let ast = match tcs.glob_val(dbi) {
                        Some(v) => v.ast.duplicate(),
                        None => Term::mock(),
                    };
                    Ok((TermInfo::new(ast, info), tcs))
                }
                Some(false) => Err(TCE::NotTypeAbs(info, Abs::Var(info, dbi))),
            }
        }
        Abs::Dt(info, visib, kind, param, ret) => {
            match check_type(tcs, *param) {
                Err(e) => Err(e),
                Ok((param_ti, mut tcs)) => {
                    let env_snapshot = tcs.current_env();
                    let param_dup = param_ti.duplicate();
                    let mock_ti = TermInfo::new(Term::mock(), param_ti.info);
                    tcs.push_local(param_dup, mock_ti);
                    match check_type(tcs, *ret) {
                        Err(e) => Err(e),
                        Ok((ret_ti, mut tcs)) => {
                            tcs.pop_local();
                            proof {
                                assert(tcs.local_gamma@ =~= old_lg);
                                assert(tcs.local_env@ =~= old_le);
                            }
                            let closure = Closure {
                                param_type: Box::new(param_ti.ast),
                                body: ClosureBody { body: Box::new(ret_ti), env: env_snapshot },
                            };
                            Ok((TermInfo::new(Term::dependent_type(visib, kind, closure), info), tcs))
                        }
                    }
                }
            }
        }
        e => {
            let info = e.syntax_info();
            Err(TCE::NotTypeAbs(info, e))
        }
    }
}

/// Infer the type of a value: universes live one level up, variables
/// carry the type stored for them, pairs synthesize a non-dependent
/// sigma, projections and applications destructure the inferred type of
/// their head.  Inference is intentionally partial: analysis-directed
/// shapes need `check` with an expected type.
pub fn infer(tcs: TCS, value: Abs) -> (r: TermTCM)
    requires
        levels_ok(value),
    ensures
        match r {
            Ok((ti, tcs2)) => infer_of(tcs, value) == Ok::<TermInfo, TCE>(ti) && same_state(
                tcs2,
                tcs,
            ),
            Err(e) => infer_of(tcs, value) == Err::<TermInfo, TCE>(e),
        },
    decreases value,
{
    match value {
        Abs::Type(info, level) => Ok((TermInfo::new(Term::Type(level + 1), info), tcs)),
        Abs::Local(info, dbi) => {
            let found = match tcs.local_type(dbi) {
                Some(ti) => Some(ti.ast.duplicate()),
                None => None,
            };
            match found {
                Some(ast) => Ok((TermInfo::new(ast, info), tcs)),
                None => {
                    let max = tcs.local_gamma.len();
                    Err(TCE::DbiOverflow(max, dbi))
                }
            }
        }
        Abs::Var(info, dbi) => {
            let found = match tcs.glob_type(dbi) {
                Some(ti) => Some(ti.ast.duplicate()),
                None => None,
            };
            match found {
                Some(ast) => Ok((TermInfo::new(ast, info), tcs)),
                None => {
                    let max = tcs.global_gamma.len();
                    Err(TCE::DbiOverflow(max, dbi))
                }
            }
        }
        Abs::Pair(info, fst, snd) => match infer(tcs, *fst) {
            Err(e) => Err(e),
            Ok((fst_ty, tcs)) => match infer(tcs, *snd) {
                Err(e) => Err(e),
                Ok((snd_ty, tcs)) => {
                    let env_snapshot = tcs.current_env();
                    let closure = Closure {
                        param_type: Box::new(fst_ty.ast),
                        body: ClosureBody { body: Box::new(snd_ty), env: env_snapshot },
                    };
                    Ok((TermInfo::new(Term::sig(Visib::Explicit, closure), info), tcs))
                }
            },
        },
        Abs::Fst(info, pair) => match infer(tcs, *pair) {
            Err(e) => Err(e),
            Ok((pair_ty, tcs)) => match pair_ty.ast {
                Term::Dt(_, DtKind::Sigma, closure) => Ok(
                    (TermInfo::new(*closure.param_type, info), tcs),
                ),
                other => Err(TCE::NotSigma(pair_ty.info, other)),
            },
        },
        Abs::App(info, f, a) => match infer(tcs, *f) {
            Err(e) => Err(e),
            Ok((f_ty, tcs)) => match f_ty.ast {
                Term::Dt(_, DtKind::Pi, closure) => {
                    let Closure { param_type, body } = closure;
                    match check(tcs, *a, *param_type) {
                        Err(e) => Err(e),
                        Ok((new_a, tcs)) => match body.instantiate(new_a.ast) {
                            None => Err(TCE::EvalLimit(info)),
                            Some(t) => Ok((TermInfo::new(t, info), tcs)),
                        },
                    }
                }
                other => Err(TCE::NotPi(info, other)),
            },
        },
        e => {
            let info = e.syntax_info();
            Err(TCE::CannotInfer(info, e))
        }
    }
}

/// Check whether `subtype` is a subtype of `supertype`: universe
/// cumulativity only.
pub fn check_subtype(tcs: TCS, subtype: &Term, supertype: &Term) -> (r: TCM)
    ensures
        match r {
            Ok(tcs2) => spec_check_subtype(*subtype, *supertype) == Ok::<(), TCE>(()) && same_state(
                tcs2,
                tcs,
            ),
            Err(e) => spec_check_subtype(*subtype, *supertype) == Err::<(), TCE>(e),
        },
{
    match (subtype, supertype) {
        (Term::Type(sub_level), Term::Type(super_level)) => {
            if *sub_level <= *super_level {
                Ok(tcs)
            } else {
                Err(TCE::NotSubtype(subtype.duplicate(), supertype.duplicate()))
            }
        }
        _ => Err(TCE::NotSubtype(subtype.duplicate(), supertype.duplicate())),
    }
}

impl TCS {
    /// Method form of `check`, for call chains.
    pub fn check(self, expr: Abs, expected_type: Term) -> (r: TermTCM)
        requires
            levels_ok(expr),
        ensures
            match r {
                Ok((ti, tcs2)) => check_of(self, expr, expected_type) == Ok::<TermInfo, TCE>(ti)
                    && same_state(tcs2, self),
                Err(e) => check_of(self, expr, expected_type) == Err::<TermInfo, TCE>(e),
            },
    {
        check(self, expr, expected_type)
    }

    /// Method form of `infer`, for call chains.
    pub fn infer(self, value: Abs) -> (r: TermTCM)
        requires
            levels_ok(value),
        ensures
            match r {
                Ok((ti, tcs2)) => infer_of(self, value) == Ok::<TermInfo, TCE>(ti) && same_state(
                    tcs2,
                    self,
                ),
                Err(e) => infer_of(self, value) == Err::<TermInfo, TCE>(e),
            },
    {
        infer(self, value)
    }

    /// Method form of `check_subtype`, for call chains.
    pub fn check_subtype(self, subtype: &Term, supertype: &Term) -> (r: TCM)
        ensures
            match r {
                Ok(tcs2) => spec_check_subtype(*subtype, *supertype) == Ok::<(), TCE>(())
                    && same_state(tcs2, self),
                Err(e) => spec_check_subtype(*subtype, *supertype) == Err::<(), TCE>(e),
            },
    {
        check_subtype(self, subtype, supertype)
    }

    /// Method form of `check_type`, for call chains.
    pub fn check_type(self, expr: Abs) -> (r: TermTCM)
        ensures
            match r {
                Ok((ti, tcs2)) => check_type_of(self, expr) == Ok::<TermInfo, TCE>(ti)
                    && same_state(tcs2, self),
                Err(e) => check_type_of(self, expr) == Err::<TermInfo, TCE>(e),
            },
    {
        check_type(self, expr)
    }
}

/// Universe cumulativity: checking `Type(i)` against `Type(j)` succeeds
/// and elaborates to `Type(i)` exactly when `i < j`; otherwise it fails
/// with a level mismatch carrying `i + 1` and `j`.
pub proof fn lemma_universe_cumulativity(
    lg: Seq<TermInfo>,
    le: Seq<TermInfo>,
    gg: Seq<TermInfo>,
    ge: Seq<TermInfo>,
    info: SyntaxInfo,
    i: u32,
    j: u32,
)
    requires
        i < u32::MAX,
    ensures
        i < j ==> spec_check(lg, le, gg, ge, Abs::Type(info, i), Term::Type(j)) == Ok::<
            TermInfo,
            TCE,
        >(TermInfo { ast: Term::Type(i), info }),
        i >= j ==> spec_check(lg, le, gg, ge, Abs::Type(info, i), Term::Type(j)) == Err::<
            TermInfo,
            TCE,
        >(TCE::LevelMismatch(info, (i + 1) as u32, j)),
{
}

/// Reflexive subtyping on universes: `check_subtype(T, T)` succeeds for
/// every universe `T`.  Subtyping covers nothing but universe
/// cumulativity, so for any other shape even `check_subtype(T, T)` fails
/// with `NotSubtype`, as `spec_check_subtype` states.
pub proof fn lemma_subtype_reflexive(t: Term)
    requires
        t is Type,
    ensures
        spec_check_subtype(t, t) == Ok::<(), TCE>(()),
{
}

} // verus!
