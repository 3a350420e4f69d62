//! When a substitution changes nothing.

use crate::binders::{
    binders_apart_ceffect, binders_apart_ctype, binders_apart_effect, binders_apart_idxtm,
    binders_apart_nmsettm, binders_apart_nmsettms, binders_apart_nmtm, binders_apart_prop,
    binders_apart_type,
};
use crate::fv_lemmas::lemma_under_thunk_contains;
use crate::fv_spec::{
    fv_ceffect, fv_ctype, fv_effect, fv_idxtm, fv_nmsettm, fv_nmsettms, fv_nmtm, fv_prop, fv_term,
    fv_type, idx_var, name_var, type_var,
};
use crate::model::{CEffectV, CTypeV, EffectV, IdxTmV, NameTmV, NmSetTmV, PropV, TermV, TypeV};
use crate::subst_lemmas::lemma_fv_of_var;
use crate::subst_spec::{
    idxtm_writescope_var, is_writescope_var, nmtm_writescope_var, subst_in_ceffect,
    subst_in_ctype, subst_in_effect, subst_in_idxtm, subst_in_nmsettm, subst_in_nmsettms,
    subst_in_nmtm, subst_in_prop, subst_in_type,
};
use vstd::prelude::*;
use vstd::seq_lib::{
    lemma_seq_concat_contains_all_elements, lemma_seq_contains_after_push,
    lemma_seq_empty_contains_nothing,
};

verus! {

/// The variable named `x` of the sort of `t`: the one that `t` can replace.
pub open spec fn var_like(t: TermV, x: Seq<char>) -> TermV {
    match t {
        TermV::NmTm(_) => name_var(x),
        TermV::IdxTm(_) => idx_var(x),
        TermV::Type(_) => type_var(x),
    }
}

/// Whether `x` is the write scope variable of the sort of `t`, and the write
/// scope of that sort is among `free`.
pub open spec fn replaces_write_scope(t: TermV, x: Seq<char>, free: Seq<TermV>) -> bool {
    match t {
        TermV::NmTm(_) => x == nmtm_writescope_var() && free.contains(
            TermV::NmTm(NameTmV::WriteScope),
        ),
        TermV::IdxTm(_) => x == idxtm_writescope_var() && free.contains(
            TermV::IdxTm(IdxTmV::WriteScope),
        ),
        TermV::Type(_) => false,
    }
}

/// Whether the substitution of `t` for `x` has nothing to do in a term with
/// the free variables `free` under the bound variables `bound`: no write
/// scope gives way, and either `t` is the variable `x` itself, or `x` is not
/// free in the term and no binder of the term has to be renamed (`apart`).
pub open spec fn nothing_to_replace(
    t: TermV,
    x: Seq<char>,
    free: Seq<TermV>,
    bound: Seq<TermV>,
    apart: bool,
) -> bool {
    &&& !replaces_write_scope(t, x, free)
    &&& (t == var_like(t, x) || (!bound.contains(var_like(t, x)) && !free.contains(var_like(t, x))
        && apart))
}

/// A substitution that finds nothing to replace and no binder to rename
/// leaves a name term as it is.
pub proof fn lemma_subst_in_nmtm_unchanged(t: TermV, x: Seq<char>, n: NameTmV, bound: Seq<TermV>)
    requires
        nothing_to_replace(
            t,
            x,
            fv_nmtm(n, bound),
            bound,
            binders_apart_nmtm(fv_term(t), n),
        ),
    ensures
        subst_in_nmtm(t, x, n) == n,
    decreases n,
{
    broadcast use
        lemma_seq_concat_contains_all_elements,
        lemma_seq_contains_after_push,
        lemma_seq_empty_contains_nothing,
    ;

    if t == var_like(t, x) {
        lemma_fv_of_var(t);
    }
    if t is NmTm {
        match n {
            NameTmV::Bin(l, r) => {
                lemma_subst_in_nmtm_unchanged(t, x, *l, bound);
                lemma_subst_in_nmtm_unchanged(t, x, *r, bound);
            },
            NameTmV::App(l, r) => {
                lemma_subst_in_nmtm_unchanged(t, x, *l, bound);
                lemma_subst_in_nmtm_unchanged(t, x, *r, bound);
            },
            NameTmV::Lam(w, _, m1) => {
                if !(x == w) {
                    lemma_subst_in_nmtm_unchanged(t, x, *m1, bound.push(name_var(w)));
                }
            },
            _ => {},
        }
    }
}

/// A substitution that finds nothing to replace and no binder to rename
/// leaves a member of a literal set as it is.
pub proof fn lemma_subst_in_nmsettm_unchanged(t: TermV, x: Seq<char>, tm: NmSetTmV, bound: Seq<TermV>)
    requires
        nothing_to_replace(
            t,
            x,
            fv_nmsettm(tm, bound),
            bound,
            binders_apart_nmsettm(fv_term(t), tm),
        ),
    ensures
        subst_in_nmsettm(t, x, tm) == tm,
    decreases tm,
{
    broadcast use
        lemma_seq_concat_contains_all_elements,
        lemma_seq_contains_after_push,
        lemma_seq_empty_contains_nothing,
    ;

    if t == var_like(t, x) {
        lemma_fv_of_var(t);
    }
    match tm {
        NmSetTmV::Single(n) => {
            lemma_subst_in_nmtm_unchanged(t, x, n, bound);
        },
        NmSetTmV::Subset(i) => {
            lemma_subst_in_idxtm_unchanged(t, x, i, bound);
        },
    }
}

/// A substitution that finds nothing to replace and no binder to rename
/// leaves the members of a literal set as it is.
pub proof fn lemma_subst_in_nmsettms_unchanged(t: TermV, x: Seq<char>, ts: Seq<NmSetTmV>, bound: Seq<TermV>)
    requires
        nothing_to_replace(
            t,
            x,
            fv_nmsettms(ts, bound),
            bound,
            binders_apart_nmsettms(fv_term(t), ts),
        ),
    ensures
        subst_in_nmsettms(t, x, ts) == ts,
    decreases ts,
{
    broadcast use
        lemma_seq_concat_contains_all_elements,
        lemma_seq_contains_after_push,
        lemma_seq_empty_contains_nothing,
    ;

    if t == var_like(t, x) {
        lemma_fv_of_var(t);
    }
    if ts.len() > 0 {
        lemma_subst_in_nmsettms_unchanged(t, x, ts.drop_last(), bound);
        lemma_subst_in_nmsettm_unchanged(t, x, ts.last(), bound);
        assert(ts.drop_last().push(ts.last()) =~= ts);
    }
}

/// A substitution that finds nothing to replace and no binder to rename
/// leaves an index term as it is.
pub proof fn lemma_subst_in_idxtm_unchanged(t: TermV, x: Seq<char>, i: IdxTmV, bound: Seq<TermV>)
    requires
        nothing_to_replace(
            t,
            x,
            fv_idxtm(i, bound),
            bound,
            binders_apart_idxtm(fv_term(t), i),
        ),
    ensures
        subst_in_idxtm(t, x, i) == i,
    decreases i,
{
    broadcast use
        lemma_seq_concat_contains_all_elements,
        lemma_seq_contains_after_push,
        lemma_seq_empty_contains_nothing,
    ;

    if t == var_like(t, x) {
        lemma_fv_of_var(t);
    }
    if !(t is Type) {
        match i {
            IdxTmV::Sing(n) => {
                lemma_subst_in_nmtm_unchanged(t, x, n, bound);
            },
            IdxTmV::NmTm(n) => {
                lemma_subst_in_nmtm_unchanged(t, x, n, bound);
            },
            IdxTmV::NmSet(s) => {
                lemma_subst_in_nmsettms_unchanged(t, x, s.terms, bound);
            },
            IdxTmV::Apart(a, b) => {
                lemma_subst_in_idxtm_unchanged(t, x, *a, bound);
                lemma_subst_in_idxtm_unchanged(t, x, *b, bound);
            },
            IdxTmV::Union(a, b) => {
                lemma_subst_in_idxtm_unchanged(t, x, *a, bound);
                lemma_subst_in_idxtm_unchanged(t, x, *b, bound);
            },
            IdxTmV::Bin(a, b) => {
                lemma_subst_in_idxtm_unchanged(t, x, *a, bound);
                lemma_subst_in_idxtm_unchanged(t, x, *b, bound);
            },
            IdxTmV::Pair(a, b) => {
                lemma_subst_in_idxtm_unchanged(t, x, *a, bound);
                lemma_subst_in_idxtm_unchanged(t, x, *b, bound);
            },
            IdxTmV::App(a, b) => {
                lemma_subst_in_idxtm_unchanged(t, x, *a, bound);
                lemma_subst_in_idxtm_unchanged(t, x, *b, bound);
            },
            IdxTmV::FlatMap(a, b) => {
                lemma_subst_in_idxtm_unchanged(t, x, *a, bound);
                lemma_subst_in_idxtm_unchanged(t, x, *b, bound);
            },
            IdxTmV::FlatMapStar(a, b) => {
                lemma_subst_in_idxtm_unchanged(t, x, *a, bound);
                lemma_subst_in_idxtm_unchanged(t, x, *b, bound);
            },
            IdxTmV::MapNm(n, a) => {
                lemma_subst_in_nmtm_unchanged(t, x, *n, bound);
                lemma_subst_in_idxtm_unchanged(t, x, *a, bound);
            },
            IdxTmV::MapStar(n, a) => {
                lemma_subst_in_nmtm_unchanged(t, x, *n, bound);
                lemma_subst_in_idxtm_unchanged(t, x, *a, bound);
            },
            IdxTmV::Proj1(a) => {
                lemma_subst_in_idxtm_unchanged(t, x, *a, bound);
            },
            IdxTmV::Proj2(a) => {
                lemma_subst_in_idxtm_unchanged(t, x, *a, bound);
            },
            IdxTmV::Lam(w, _, i1) => {
                if !(t is IdxTm && x == w) {
                    lemma_subst_in_idxtm_unchanged(t, x, *i1, bound.push(idx_var(w)));
                }
            },
            _ => {},
        }
    }
}

/// A substitution that finds nothing to replace and no binder to rename
/// leaves a proposition as it is.
pub proof fn lemma_subst_in_prop_unchanged(t: TermV, x: Seq<char>, p: PropV, bound: Seq<TermV>)
    requires
        nothing_to_replace(
            t,
            x,
            fv_prop(p, bound),
            bound,
            binders_apart_prop(fv_term(t), p),
        ),
    ensures
        subst_in_prop(t, x, p) == p,
    decreases p,
{
    broadcast use
        lemma_seq_concat_contains_all_elements,
        lemma_seq_contains_after_push,
        lemma_seq_empty_contains_nothing,
    ;

    if t == var_like(t, x) {
        lemma_fv_of_var(t);
    }
    match p {
        PropV::Equiv(i, j, _) => {
            lemma_subst_in_idxtm_unchanged(t, x, i, bound);
            lemma_subst_in_idxtm_unchanged(t, x, j, bound);
        },
        PropV::Apart(i, j, _) => {
            lemma_subst_in_idxtm_unchanged(t, x, i, bound);
            lemma_subst_in_idxtm_unchanged(t, x, j, bound);
        },
        PropV::Conj(p1, p2) => {
            lemma_subst_in_prop_unchanged(t, x, *p1, bound);
            lemma_subst_in_prop_unchanged(t, x, *p2, bound);
        },
        _ => {},
    }
}

/// A substitution that finds nothing to replace and no binder to rename
/// leaves an effect as it is.
pub proof fn lemma_subst_in_effect_unchanged(t: TermV, x: Seq<char>, e: EffectV, bound: Seq<TermV>)
    requires
        nothing_to_replace(
            t,
            x,
            fv_effect(e, bound),
            bound,
            binders_apart_effect(fv_term(t), e),
        ),
    ensures
        subst_in_effect(t, x, e) == e,
    decreases e,
{
    broadcast use
        lemma_seq_concat_contains_all_elements,
        lemma_seq_contains_after_push,
        lemma_seq_empty_contains_nothing,
    ;

    if t == var_like(t, x) {
        lemma_fv_of_var(t);
    }
    match e {
        EffectV::WR(i, j) => {
            lemma_subst_in_idxtm_unchanged(t, x, i, bound);
            lemma_subst_in_idxtm_unchanged(t, x, j, bound);
        },
        _ => {},
    }
}

/// A substitution that finds nothing to replace and no binder to rename
/// leaves a type as it is.
pub proof fn lemma_subst_in_type_unchanged(t: TermV, x: Seq<char>, a: TypeV, bound: Seq<TermV>)
    requires
        nothing_to_replace(
            t,
            x,
            fv_type(a, bound),
            bound,
            binders_apart_type(fv_term(t), a),
        ),
    ensures
        subst_in_type(t, x, a) == a,
    decreases a,
{
    broadcast use
        lemma_seq_concat_contains_all_elements,
        lemma_seq_contains_after_push,
        lemma_seq_empty_contains_nothing,
    ;

    if t == var_like(t, x) {
        lemma_fv_of_var(t);
    }
    match a {
        TypeV::IdentDef(_, d) => {
            lemma_subst_in_type_unchanged(t, x, *d, bound);
        },
        TypeV::Sum(a1, a2) => {
            lemma_subst_in_type_unchanged(t, x, *a1, bound);
            lemma_subst_in_type_unchanged(t, x, *a2, bound);
        },
        TypeV::Prod(a1, a2) => {
            lemma_subst_in_type_unchanged(t, x, *a1, bound);
            lemma_subst_in_type_unchanged(t, x, *a2, bound);
        },
        TypeV::TypeApp(a1, a2) => {
            lemma_subst_in_type_unchanged(t, x, *a1, bound);
            lemma_subst_in_type_unchanged(t, x, *a2, bound);
        },
        TypeV::Ref(i, a1) => {
            lemma_subst_in_idxtm_unchanged(t, x, i, bound);
            lemma_subst_in_type_unchanged(t, x, *a1, bound);
        },
        TypeV::Thk(i, ce) => {
            lemma_subst_in_idxtm_unchanged(t, x, i, bound);
            lemma_under_thunk_contains(fv_ceffect(*ce, bound), var_like(t, x));
            if !is_writescope_var(x) {
                lemma_subst_in_ceffect_unchanged(t, x, *ce, bound);
            }
        },
        TypeV::IdxApp(a1, i) => {
            lemma_subst_in_type_unchanged(t, x, *a1, bound);
            lemma_subst_in_idxtm_unchanged(t, x, i, bound);
        },
        TypeV::Nm(i) => {
            lemma_subst_in_idxtm_unchanged(t, x, i, bound);
        },
        TypeV::NmFn(n) => {
            lemma_subst_in_nmtm_unchanged(t, x, n, bound);
        },
        TypeV::TypeFn(w, _, a1) => {
            if !(t is Type && x == w) {
                lemma_subst_in_type_unchanged(t, x, *a1, bound.push(type_var(w)));
            }
        },
        TypeV::Rec(w, a1) => {
            if !(t is Type && x == w) {
                lemma_subst_in_type_unchanged(t, x, *a1, bound.push(type_var(w)));
            }
        },
        TypeV::IdxFn(w, _, a1) => {
            if !(t is IdxTm && x == w) {
                lemma_subst_in_type_unchanged(t, x, *a1, bound.push(idx_var(w)));
            }
        },
        TypeV::Exists(w, _, p, a1) => {
            if !(t is IdxTm && x == w) {
                lemma_subst_in_prop_unchanged(t, x, p, bound.push(idx_var(w)));
                lemma_subst_in_type_unchanged(t, x, *a1, bound.push(idx_var(w)));
            }
        },
        _ => {},
    }
}

/// A substitution that finds nothing to replace and no binder to rename
/// leaves a computation type as it is.
pub proof fn lemma_subst_in_ctype_unchanged(t: TermV, x: Seq<char>, c: CTypeV, bound: Seq<TermV>)
    requires
        nothing_to_replace(
            t,
            x,
            fv_ctype(c, bound),
            bound,
            binders_apart_ctype(fv_term(t), c),
        ),
    ensures
        subst_in_ctype(t, x, c) == c,
    decreases c,
{
    broadcast use
        lemma_seq_concat_contains_all_elements,
        lemma_seq_contains_after_push,
        lemma_seq_empty_contains_nothing,
    ;

    if t == var_like(t, x) {
        lemma_fv_of_var(t);
    }
    match c {
        CTypeV::Lift(a) => {
            lemma_subst_in_type_unchanged(t, x, a, bound);
        },
        CTypeV::Arrow(a, ce) => {
            lemma_subst_in_type_unchanged(t, x, a, bound);
            lemma_subst_in_ceffect_unchanged(t, x, *ce, bound);
        },
        _ => {},
    }
}

/// A substitution that finds nothing to replace and no binder to rename
/// leaves a computation effect as it is.
pub proof fn lemma_subst_in_ceffect_unchanged(t: TermV, x: Seq<char>, ce: CEffectV, bound: Seq<TermV>)
    requires
        nothing_to_replace(
            t,
            x,
            fv_ceffect(ce, bound),
            bound,
            binders_apart_ceffect(fv_term(t), ce),
        ),
    ensures
        subst_in_ceffect(t, x, ce) == ce,
    decreases ce,
{
    broadcast use
        lemma_seq_concat_contains_all_elements,
        lemma_seq_contains_after_push,
        lemma_seq_empty_contains_nothing,
    ;

    if t == var_like(t, x) {
        lemma_fv_of_var(t);
    }
    match ce {
        CEffectV::Cons(c, e) => {
            lemma_subst_in_ctype_unchanged(t, x, c, bound);
            lemma_subst_in_effect_unchanged(t, x, e, bound);
        },
        CEffectV::ForallType(w, _, ce1) => {
            if !(t is Type && x == w) {
                lemma_subst_in_ceffect_unchanged(t, x, *ce1, bound.push(type_var(w)));
            }
        },
        CEffectV::ForallIdx(w, _, p, ce1) => {
            if !(t is IdxTm && x == w) {
                lemma_subst_in_prop_unchanged(t, x, p, bound.push(idx_var(w)));
                lemma_subst_in_ceffect_unchanged(t, x, *ce1, bound.push(idx_var(w)));
            }
        },
        _ => {},
    }
}

} // verus!
