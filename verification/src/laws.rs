//! What holds of substitution and free variables, whatever the terms.

use crate::binders::{binders_apart_term, binders_apart_type};
use crate::fv_spec::{fv_term, fv_type, idx_var, is_var, name_var};
use crate::model::{CEffectV, IdxTmV, KindV, NameTmV, PropV, SortV, TermV, TypeV};
use crate::round_trip::{
    lemma_rename_fv_idxtm, lemma_rename_fv_nmtm, lemma_rename_fv_type, renames,
};
use crate::subst_lemmas::{lemma_alpha_vary_differs, lemma_rename_type_size};
use crate::subst_spec::{
    alpha_vary_spec, idxtm_writescope_var, is_writescope_var, nmtm_writescope_var,
    subst_in_ceffect, subst_in_idxtm, subst_in_nmtm, subst_in_term, subst_in_type,
};
use crate::unchanged::{lemma_subst_in_type_unchanged, var_like};
use vstd::prelude::*;

verus! {

/// A type is put nowhere in an index term, and only a name term is put
/// anywhere in a name term.
pub proof fn law_sort_gate(t: TermV, x: Seq<char>, i: IdxTmV, n: NameTmV)
    ensures
        t is Type ==> subst_in_idxtm(t, x, i) == i,
        !(t is NmTm) ==> subst_in_nmtm(t, x, n) == n,
{
}

/// Only a type takes the place of a type variable.
pub proof fn law_type_var_kept(t: TermV, x: Seq<char>, y: Seq<char>)
    requires
        !(t is Type),
    ensures
        subst_in_type(t, x, TypeV::Var(y)) == TypeV::Var(y),
{
}

/// An index term that is put in the place of `x` leaves a type as it is where
/// the index variable `x` is not free in the type, no binder of the type
/// binds a free variable of the index term, and the write scope of name sets
/// is not free in the type if `x` is its variable.
pub proof fn law_index_subst_no_op(i: IdxTmV, x: Seq<char>, a: TypeV)
    requires
        !fv_type(a, Seq::empty()).contains(idx_var(x)),
        binders_apart_type(fv_term(TermV::IdxTm(i)), a),
        x == idxtm_writescope_var() ==> !fv_type(a, Seq::empty()).contains(
            TermV::IdxTm(IdxTmV::WriteScope),
        ),
    ensures
        subst_in_type(TermV::IdxTm(i), x, a) == a,
{
    assert(!Seq::<TermV>::empty().contains(idx_var(x)));
    lemma_subst_in_type_unchanged(TermV::IdxTm(i), x, a, Seq::empty());
}

/// A substitution for the variable that a binder binds, of a term of the
/// binder's sort, leaves the binder as it is.
pub proof fn law_shadowing(
    t: TermV,
    y: Seq<char>,
    g: SortV,
    k: KindV,
    p: PropV,
    body: TypeV,
    ce: CEffectV,
    i: IdxTmV,
    n: NameTmV,
)
    ensures
        t is IdxTm ==> subst_in_type(t, y, TypeV::IdxFn(y, g, Box::new(body))) == TypeV::IdxFn(
            y,
            g,
            Box::new(body),
        ),
        t is IdxTm ==> subst_in_type(t, y, TypeV::Exists(y, g, p, Box::new(body)))
            == TypeV::Exists(y, g, p, Box::new(body)),
        t is Type ==> subst_in_type(t, y, TypeV::Rec(y, Box::new(body))) == TypeV::Rec(
            y,
            Box::new(body),
        ),
        t is Type ==> subst_in_type(t, y, TypeV::TypeFn(y, k, Box::new(body))) == TypeV::TypeFn(
            y,
            k,
            Box::new(body),
        ),
        t is Type ==> subst_in_ceffect(t, y, CEffectV::ForallType(y, k, Box::new(ce)))
            == CEffectV::ForallType(y, k, Box::new(ce)),
        t is IdxTm ==> subst_in_ceffect(t, y, CEffectV::ForallIdx(y, g, p, Box::new(ce)))
            == CEffectV::ForallIdx(y, g, p, Box::new(ce)),
        t is IdxTm ==> subst_in_idxtm(t, y, IdxTmV::Lam(y, g, Box::new(i))) == IdxTmV::Lam(
            y,
            g,
            Box::new(i),
        ),
        t is NmTm ==> subst_in_nmtm(t, y, NameTmV::Lam(y, g, Box::new(n))) == NameTmV::Lam(
            y,
            g,
            Box::new(n),
        ),
{
}

/// A binder of an index variable that is free in the index term gives way:
/// it binds its primed name in the result, and the term goes into the body
/// in which the variable was renamed. So no variable of the term is caught
/// by that binder.
pub proof fn law_capture_avoided(i: IdxTmV, x: Seq<char>, y: Seq<char>, g: SortV, body: TypeV)
    requires
        x != y,
        fv_term(TermV::IdxTm(i)).contains(idx_var(y)),
    ensures
        alpha_vary_spec(y) != y,
        subst_in_type(TermV::IdxTm(i), x, TypeV::IdxFn(y, g, Box::new(body))) == TypeV::IdxFn(
            alpha_vary_spec(y),
            g,
            Box::new(
                subst_in_type(
                    TermV::IdxTm(i),
                    x,
                    subst_in_type(idx_var(alpha_vary_spec(y)), y, body),
                ),
            ),
        ),
{
    lemma_alpha_vary_differs(y);
    lemma_rename_type_size(idx_var(alpha_vary_spec(y)), y, body);
}

/// To put a variable in its own place changes nothing, unless the variable
/// is a write scope variable and the write scope of its sort is free in the
/// type.
pub proof fn law_identity_subst(v: TermV, x: Seq<char>, a: TypeV)
    requires
        is_var(v),
        v == var_like(v, x),
        v == name_var(nmtm_writescope_var()) ==> !fv_type(a, Seq::empty()).contains(
            TermV::NmTm(NameTmV::WriteScope),
        ),
        v == idx_var(idxtm_writescope_var()) ==> !fv_type(a, Seq::empty()).contains(
            TermV::IdxTm(IdxTmV::WriteScope),
        ),
    ensures
        subst_in_type(v, x, a) == a,
{
    lemma_subst_in_type_unchanged(v, x, a, Seq::empty());
}

/// A type that is put in the place of `x` takes the place of the type
/// variable `x`.
pub proof fn law_type_var_replaced(b: TypeV, x: Seq<char>)
    ensures
        subst_in_type(TermV::Type(b), x, TypeV::Var(x)) == b,
{
}

/// A substitution for a write scope variable does not go into the effect of
/// a thunk; every other substitution does. Both go into its index.
pub proof fn law_thunk_write_scope(t: TermV, x: Seq<char>, i: IdxTmV, ce: CEffectV)
    ensures
        is_writescope_var(x) ==> subst_in_type(t, x, TypeV::Thk(i, Box::new(ce))) == TypeV::Thk(
            subst_in_idxtm(t, x, i),
            Box::new(ce),
        ),
        !is_writescope_var(x) ==> subst_in_type(t, x, TypeV::Thk(i, Box::new(ce))) == TypeV::Thk(
            subst_in_idxtm(t, x, i),
            Box::new(subst_in_ceffect(t, x, ce)),
        ),
{
}

/// Let the variable `vx` occur nowhere in `t`, neither free nor in a binder,
/// and let `y` be another name, and no write scope variable. Then in `t`
/// with `vx` in the place of `y`, `vx` is free exactly if `y` was free in
/// `t`, and `y` is not free.
pub proof fn law_free_vars_round_trip(vx: TermV, y: Seq<char>, t: TermV)
    requires
        renames(vx, y),
        !fv_term(t).contains(vx),
        binders_apart_term(seq![vx], t),
    ensures
        fv_term(subst_in_term(vx, y, t)).contains(vx) <==> fv_term(t).contains(var_like(vx, y)),
        !fv_term(subst_in_term(vx, y, t)).contains(var_like(vx, y)),
{
    assert(!Seq::<TermV>::empty().contains(vx));
    assert(!Seq::<TermV>::empty().contains(var_like(vx, y)));
    match t {
        TermV::NmTm(n) => lemma_rename_fv_nmtm(vx, y, n, Seq::empty()),
        TermV::IdxTm(i) => lemma_rename_fv_idxtm(vx, y, i, Seq::empty()),
        TermV::Type(a) => lemma_rename_fv_type(vx, y, a, Seq::empty()),
    }
}

} // verus!
