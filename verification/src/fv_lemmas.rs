//! Facts about lists of free variables.

use crate::fv_spec::{
    fv_ceffect, fv_ctype, fv_effect, fv_idxtm, fv_nmsettm, fv_nmsettms, fv_nmtm, fv_prop, fv_type,
    idx_var, is_var, is_write_scope, name_var, type_var, under_thunk,
};
use crate::model::{CEffectV, CTypeV, EffectV, IdxTmV, NameTmV, NmSetTmV, PropV, TermV, TypeV};
use vstd::prelude::*;
use vstd::seq_lib::{
    lemma_seq_concat_contains_all_elements, lemma_seq_contains_after_push,
    lemma_seq_empty_contains_nothing,
};

verus! {

/// A list with one more element holds that element and what it held before.
pub proof fn lemma_seq_contains_push(s: Seq<TermV>, last: TermV)
    ensures
        forall|v: TermV| #[trigger] s.push(last).contains(v) <==> s.contains(v) || v == last,
{
    broadcast use lemma_seq_contains_after_push;

}

/// Nothing is left of no free variables.
pub proof fn lemma_under_thunk_empty()
    ensures
        under_thunk(Seq::empty()) == Seq::<TermV>::empty(),
{
    reveal(Seq::filter);
}

/// A thunk keeps the free variables of its effect in their order, one by
/// one, and drops the write scopes.
pub proof fn lemma_under_thunk_step(fv: Seq<TermV>, k: int)
    requires
        0 <= k < fv.len(),
    ensures
        under_thunk(fv.take(k + 1)) == if is_write_scope(fv[k]) {
            under_thunk(fv.take(k))
        } else {
            under_thunk(fv.take(k)).push(fv[k])
        },
{
    reveal(Seq::filter);
    assert(fv.take(k + 1).drop_last() =~= fv.take(k));
    assert(fv.take(k + 1).last() == fv[k]);
}

/// What a thunk leaves of a list of free variables is what the list holds
/// but for the write scopes.
pub proof fn lemma_under_thunk_contains(fv: Seq<TermV>, v: TermV)
    ensures
        under_thunk(fv).contains(v) <==> fv.contains(v) && !is_write_scope(v),
    decreases fv.len(),
{
    broadcast use lemma_seq_contains_after_push, lemma_seq_empty_contains_nothing;

    reveal(Seq::filter);
    if fv.len() > 0 {
        lemma_under_thunk_contains(fv.drop_last(), v);
        assert(fv =~= fv.drop_last().push(fv.last()));
    }
}

/// A bound variable is not free in a name term, and only name terms are.
pub proof fn lemma_fv_nmtm_facts(n: NameTmV, bound: Seq<TermV>, v: TermV)
    ensures
        is_var(v) && bound.contains(v) ==> !fv_nmtm(n, bound).contains(v),
        fv_nmtm(n, bound).contains(v) ==> v is NmTm,
    decreases n,
{
    broadcast use
        lemma_seq_concat_contains_all_elements,
        lemma_seq_contains_after_push,
        lemma_seq_empty_contains_nothing,
    ;

    match n {
        NameTmV::Bin(l, r) => {
            lemma_fv_nmtm_facts(*l, bound, v);
            lemma_fv_nmtm_facts(*r, bound, v);
        },
        NameTmV::App(l, r) => {
            lemma_fv_nmtm_facts(*l, bound, v);
            lemma_fv_nmtm_facts(*r, bound, v);
        },
        NameTmV::Lam(w, _, m1) => {
            lemma_fv_nmtm_facts(*m1, bound.push(name_var(w)), v);
        },
        _ => {},
    }
}

/// A bound variable is not free in a member of a literal set, and no type is.
pub proof fn lemma_fv_nmsettm_facts(tm: NmSetTmV, bound: Seq<TermV>, v: TermV)
    ensures
        is_var(v) && bound.contains(v) ==> !fv_nmsettm(tm, bound).contains(v),
        fv_nmsettm(tm, bound).contains(v) ==> !(v is Type),
    decreases tm,
{
    broadcast use
        lemma_seq_concat_contains_all_elements,
        lemma_seq_contains_after_push,
        lemma_seq_empty_contains_nothing,
    ;

    match tm {
        NmSetTmV::Single(n) => {
            lemma_fv_nmtm_facts(n, bound, v);
        },
        NmSetTmV::Subset(i) => {
            lemma_fv_idxtm_facts(i, bound, v);
        },
    }
}

/// A bound variable is not free in a literal set, and no type is.
pub proof fn lemma_fv_nmsettms_facts(ts: Seq<NmSetTmV>, bound: Seq<TermV>, v: TermV)
    ensures
        is_var(v) && bound.contains(v) ==> !fv_nmsettms(ts, bound).contains(v),
        fv_nmsettms(ts, bound).contains(v) ==> !(v is Type),
    decreases ts,
{
    broadcast use
        lemma_seq_concat_contains_all_elements,
        lemma_seq_contains_after_push,
        lemma_seq_empty_contains_nothing,
    ;

    if ts.len() > 0 {
        lemma_fv_nmsettms_facts(ts.drop_last(), bound, v);
        lemma_fv_nmsettm_facts(ts.last(), bound, v);
    }
}

/// A bound variable is not free in an index term, and no type is.
pub proof fn lemma_fv_idxtm_facts(i: IdxTmV, bound: Seq<TermV>, v: TermV)
    ensures
        is_var(v) && bound.contains(v) ==> !fv_idxtm(i, bound).contains(v),
        fv_idxtm(i, bound).contains(v) ==> !(v is Type),
    decreases i,
{
    broadcast use
        lemma_seq_concat_contains_all_elements,
        lemma_seq_contains_after_push,
        lemma_seq_empty_contains_nothing,
    ;

    match i {
        IdxTmV::Sing(n) => {
            lemma_fv_nmtm_facts(n, bound, v);
        },
        IdxTmV::NmTm(n) => {
            lemma_fv_nmtm_facts(n, bound, v);
        },
        IdxTmV::NmSet(s) => {
            lemma_fv_nmsettms_facts(s.terms, bound, v);
        },
        IdxTmV::Apart(a, b) => {
            lemma_fv_idxtm_facts(*a, bound, v);
            lemma_fv_idxtm_facts(*b, bound, v);
        },
        IdxTmV::Union(a, b) => {
            lemma_fv_idxtm_facts(*a, bound, v);
            lemma_fv_idxtm_facts(*b, bound, v);
        },
        IdxTmV::Bin(a, b) => {
            lemma_fv_idxtm_facts(*a, bound, v);
            lemma_fv_idxtm_facts(*b, bound, v);
        },
        IdxTmV::Pair(a, b) => {
            lemma_fv_idxtm_facts(*a, bound, v);
            lemma_fv_idxtm_facts(*b, bound, v);
        },
        IdxTmV::App(a, b) => {
            lemma_fv_idxtm_facts(*a, bound, v);
            lemma_fv_idxtm_facts(*b, bound, v);
        },
        IdxTmV::FlatMap(a, b) => {
            lemma_fv_idxtm_facts(*a, bound, v);
            lemma_fv_idxtm_facts(*b, bound, v);
        },
        IdxTmV::FlatMapStar(a, b) => {
            lemma_fv_idxtm_facts(*a, bound, v);
            lemma_fv_idxtm_facts(*b, bound, v);
        },
        IdxTmV::MapNm(n, a) => {
            lemma_fv_nmtm_facts(*n, bound, v);
            lemma_fv_idxtm_facts(*a, bound, v);
        },
        IdxTmV::MapStar(n, a) => {
            lemma_fv_nmtm_facts(*n, bound, v);
            lemma_fv_idxtm_facts(*a, bound, v);
        },
        IdxTmV::Proj1(a) => {
            lemma_fv_idxtm_facts(*a, bound, v);
        },
        IdxTmV::Proj2(a) => {
            lemma_fv_idxtm_facts(*a, bound, v);
        },
        IdxTmV::Lam(w, _, i1) => {
            lemma_fv_idxtm_facts(*i1, bound.push(idx_var(w)), v);
        },
        _ => {},
    }
}

/// A bound variable is not free in a proposition, and no type is.
pub proof fn lemma_fv_prop_facts(p: PropV, bound: Seq<TermV>, v: TermV)
    ensures
        is_var(v) && bound.contains(v) ==> !fv_prop(p, bound).contains(v),
        fv_prop(p, bound).contains(v) ==> !(v is Type),
    decreases p,
{
    broadcast use
        lemma_seq_concat_contains_all_elements,
        lemma_seq_contains_after_push,
        lemma_seq_empty_contains_nothing,
    ;

    match p {
        PropV::Equiv(i, j, _) => {
            lemma_fv_idxtm_facts(i, bound, v);
            lemma_fv_idxtm_facts(j, bound, v);
        },
        PropV::Apart(i, j, _) => {
            lemma_fv_idxtm_facts(i, bound, v);
            lemma_fv_idxtm_facts(j, bound, v);
        },
        PropV::Conj(p1, p2) => {
            lemma_fv_prop_facts(*p1, bound, v);
            lemma_fv_prop_facts(*p2, bound, v);
        },
        _ => {},
    }
}

/// A bound variable is not free in an effect, and no type is.
pub proof fn lemma_fv_effect_facts(e: EffectV, bound: Seq<TermV>, v: TermV)
    ensures
        is_var(v) && bound.contains(v) ==> !fv_effect(e, bound).contains(v),
        fv_effect(e, bound).contains(v) ==> !(v is Type),
    decreases e,
{
    broadcast use
        lemma_seq_concat_contains_all_elements,
        lemma_seq_contains_after_push,
        lemma_seq_empty_contains_nothing,
    ;

    match e {
        EffectV::WR(i, j) => {
            lemma_fv_idxtm_facts(i, bound, v);
            lemma_fv_idxtm_facts(j, bound, v);
        },
        _ => {},
    }
}

/// A bound variable is not free in a type.
pub proof fn lemma_fv_type_facts(a: TypeV, bound: Seq<TermV>, v: TermV)
    ensures
        is_var(v) && bound.contains(v) ==> !fv_type(a, bound).contains(v),
    decreases a,
{
    broadcast use
        lemma_seq_concat_contains_all_elements,
        lemma_seq_contains_after_push,
        lemma_seq_empty_contains_nothing,
    ;

    match a {
        TypeV::IdentDef(_, d) => {
            lemma_fv_type_facts(*d, bound, v);
        },
        TypeV::Sum(a1, a2) => {
            lemma_fv_type_facts(*a1, bound, v);
            lemma_fv_type_facts(*a2, bound, v);
        },
        TypeV::Prod(a1, a2) => {
            lemma_fv_type_facts(*a1, bound, v);
            lemma_fv_type_facts(*a2, bound, v);
        },
        TypeV::TypeApp(a1, a2) => {
            lemma_fv_type_facts(*a1, bound, v);
            lemma_fv_type_facts(*a2, bound, v);
        },
        TypeV::Ref(i, a1) => {
            lemma_fv_idxtm_facts(i, bound, v);
            lemma_fv_type_facts(*a1, bound, v);
        },
        TypeV::Thk(i, ce) => {
            lemma_fv_idxtm_facts(i, bound, v);
            lemma_fv_ceffect_facts(*ce, bound, v);
            lemma_under_thunk_contains(fv_ceffect(*ce, bound), v);
        },
        TypeV::IdxApp(a1, i) => {
            lemma_fv_type_facts(*a1, bound, v);
            lemma_fv_idxtm_facts(i, bound, v);
        },
        TypeV::Nm(i) => {
            lemma_fv_idxtm_facts(i, bound, v);
        },
        TypeV::NmFn(n) => {
            lemma_fv_nmtm_facts(n, bound, v);
        },
        TypeV::TypeFn(w, _, a1) => {
            lemma_fv_type_facts(*a1, bound.push(type_var(w)), v);
        },
        TypeV::Rec(w, a1) => {
            lemma_fv_type_facts(*a1, bound.push(type_var(w)), v);
        },
        TypeV::IdxFn(w, _, a1) => {
            lemma_fv_type_facts(*a1, bound.push(idx_var(w)), v);
        },
        TypeV::Exists(w, _, p, a1) => {
            lemma_fv_prop_facts(p, bound.push(idx_var(w)), v);
            lemma_fv_type_facts(*a1, bound.push(idx_var(w)), v);
        },
        _ => {},
    }
}

/// A bound variable is not free in a computation type.
pub proof fn lemma_fv_ctype_facts(c: CTypeV, bound: Seq<TermV>, v: TermV)
    ensures
        is_var(v) && bound.contains(v) ==> !fv_ctype(c, bound).contains(v),
    decreases c,
{
    broadcast use
        lemma_seq_concat_contains_all_elements,
        lemma_seq_contains_after_push,
        lemma_seq_empty_contains_nothing,
    ;

    match c {
        CTypeV::Lift(a) => {
            lemma_fv_type_facts(a, bound, v);
        },
        CTypeV::Arrow(a, ce) => {
            lemma_fv_type_facts(a, bound, v);
            lemma_fv_ceffect_facts(*ce, bound, v);
        },
        _ => {},
    }
}

/// A bound variable is not free in a computation effect.
pub proof fn lemma_fv_ceffect_facts(ce: CEffectV, bound: Seq<TermV>, v: TermV)
    ensures
        is_var(v) && bound.contains(v) ==> !fv_ceffect(ce, bound).contains(v),
    decreases ce,
{
    broadcast use
        lemma_seq_concat_contains_all_elements,
        lemma_seq_contains_after_push,
        lemma_seq_empty_contains_nothing,
    ;

    match ce {
        CEffectV::Cons(c, e) => {
            lemma_fv_ctype_facts(c, bound, v);
            lemma_fv_effect_facts(e, bound, v);
        },
        CEffectV::ForallType(w, _, ce1) => {
            lemma_fv_ceffect_facts(*ce1, bound.push(type_var(w)), v);
        },
        CEffectV::ForallIdx(w, _, p, ce1) => {
            lemma_fv_prop_facts(p, bound.push(idx_var(w)), v);
            lemma_fv_ceffect_facts(*ce1, bound.push(idx_var(w)), v);
        },
        _ => {},
    }
}


} // verus!
