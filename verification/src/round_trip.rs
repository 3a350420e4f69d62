//! The free variables of a term in which a variable was renamed.

use crate::binders::{
    binders_apart_ceffect, binders_apart_ctype, binders_apart_effect, binders_apart_idxtm,
    binders_apart_nmsettm, binders_apart_nmsettms, binders_apart_nmtm, binders_apart_prop,
    binders_apart_type,
};
use crate::fv_lemmas::{
    lemma_fv_ceffect_facts, lemma_fv_idxtm_facts, lemma_fv_nmtm_facts, lemma_fv_prop_facts,
    lemma_fv_type_facts, lemma_under_thunk_contains,
};
use crate::fv_spec::{
    fv_ceffect, fv_ctype, fv_effect, fv_idxtm, fv_nmsettm, fv_nmsettms, fv_nmtm, fv_prop, fv_type,
    idx_var, is_var, name_var, type_var,
};
use crate::model::{CEffectV, CTypeV, EffectV, IdxTmV, NameTmV, NmSetTmV, PropV, TermV, TypeV};
use crate::subst_lemmas::lemma_fv_of_var;
use crate::subst_spec::{
    is_writescope_var, subst_in_ceffect, subst_in_ctype, subst_in_effect, subst_in_idxtm,
    subst_in_nmsettm, subst_in_nmsettms, subst_in_nmtm, subst_in_prop, subst_in_type,
};
use crate::unchanged::var_like;
use vstd::prelude::*;
use vstd::seq_lib::{
    lemma_seq_concat_contains_all_elements, lemma_seq_contains_after_push,
    lemma_seq_empty_contains_nothing,
};

verus! {

/// Whether to put the variable `vx` in the place of `y` renames a variable:
/// `vx` is a variable, `y` is another name, and `y` is no write scope
/// variable.
pub open spec fn renames(vx: TermV, y: Seq<char>) -> bool {
    is_var(vx) && vx != var_like(vx, y) && !is_writescope_var(y)
}

/// A fresh variable put in the place of `y` in a name term
/// is free where `y` was, and `y` is free no more.
pub proof fn lemma_rename_fv_nmtm(vx: TermV, y: Seq<char>, n: NameTmV, bound: Seq<TermV>)
    requires
        renames(vx, y),
        !bound.contains(vx),
        !bound.contains(var_like(vx, y)),
        !fv_nmtm(n, bound).contains(vx),
        binders_apart_nmtm(seq![vx], n),
    ensures
        fv_nmtm(subst_in_nmtm(vx, y, n), bound).contains(vx) <==> fv_nmtm(n, bound).contains(
            var_like(vx, y),
        ),
        !fv_nmtm(subst_in_nmtm(vx, y, n), bound).contains(var_like(vx, y)),
    decreases n,
{
    broadcast use
        lemma_seq_concat_contains_all_elements,
        lemma_seq_contains_after_push,
        lemma_seq_empty_contains_nothing,
    ;

    let vy = var_like(vx, y);
    lemma_fv_of_var(vx);
    if vx is NmTm {
        match n {
            NameTmV::Bin(l, r) => {
                lemma_rename_fv_nmtm(vx, y, *l, bound);
                lemma_rename_fv_nmtm(vx, y, *r, bound);
            },
            NameTmV::App(l, r) => {
                lemma_rename_fv_nmtm(vx, y, *l, bound);
                lemma_rename_fv_nmtm(vx, y, *r, bound);
            },
            NameTmV::Lam(w, _, m1) => {
                if y == w {
                    lemma_fv_nmtm_facts(*m1, bound.push(name_var(w)), vy);
                } else {
                    lemma_rename_fv_nmtm(vx, y, *m1, bound.push(name_var(w)));
                }
            },
            _ => {},
        }
    } else {
        lemma_fv_nmtm_facts(n, bound, vy);
    }
}

/// A fresh variable put in the place of `y` in a member of a literal set
/// is free where `y` was, and `y` is free no more.
pub proof fn lemma_rename_fv_nmsettm(vx: TermV, y: Seq<char>, tm: NmSetTmV, bound: Seq<TermV>)
    requires
        renames(vx, y),
        !bound.contains(vx),
        !bound.contains(var_like(vx, y)),
        !fv_nmsettm(tm, bound).contains(vx),
        binders_apart_nmsettm(seq![vx], tm),
    ensures
        fv_nmsettm(subst_in_nmsettm(vx, y, tm), bound).contains(vx) <==> fv_nmsettm(tm, bound).contains(
            var_like(vx, y),
        ),
        !fv_nmsettm(subst_in_nmsettm(vx, y, tm), bound).contains(var_like(vx, y)),
    decreases tm,
{
    broadcast use
        lemma_seq_concat_contains_all_elements,
        lemma_seq_contains_after_push,
        lemma_seq_empty_contains_nothing,
    ;

    let vy = var_like(vx, y);
    lemma_fv_of_var(vx);
    match tm {
        NmSetTmV::Single(n) => {
            lemma_rename_fv_nmtm(vx, y, n, bound);
        },
        NmSetTmV::Subset(i) => {
            lemma_rename_fv_idxtm(vx, y, i, bound);
        },
    }
}

/// A fresh variable put in the place of `y` in the members of a literal set
/// is free where `y` was, and `y` is free no more.
pub proof fn lemma_rename_fv_nmsettms(vx: TermV, y: Seq<char>, ts: Seq<NmSetTmV>, bound: Seq<TermV>)
    requires
        renames(vx, y),
        !bound.contains(vx),
        !bound.contains(var_like(vx, y)),
        !fv_nmsettms(ts, bound).contains(vx),
        binders_apart_nmsettms(seq![vx], ts),
    ensures
        fv_nmsettms(subst_in_nmsettms(vx, y, ts), bound).contains(vx) <==> fv_nmsettms(ts, bound).contains(
            var_like(vx, y),
        ),
        !fv_nmsettms(subst_in_nmsettms(vx, y, ts), bound).contains(var_like(vx, y)),
    decreases ts,
{
    broadcast use
        lemma_seq_concat_contains_all_elements,
        lemma_seq_contains_after_push,
        lemma_seq_empty_contains_nothing,
    ;

    let vy = var_like(vx, y);
    lemma_fv_of_var(vx);
    if ts.len() > 0 {
        lemma_rename_fv_nmsettms(vx, y, ts.drop_last(), bound);
        lemma_rename_fv_nmsettm(vx, y, ts.last(), bound);
        let front = subst_in_nmsettms(vx, y, ts.drop_last());
        let back = subst_in_nmsettm(vx, y, ts.last());
        assert(front.push(back).drop_last() =~= front);
        assert(front.push(back).last() == back);
    }
}

/// A fresh variable put in the place of `y` in an index term
/// is free where `y` was, and `y` is free no more.
pub proof fn lemma_rename_fv_idxtm(vx: TermV, y: Seq<char>, i: IdxTmV, bound: Seq<TermV>)
    requires
        renames(vx, y),
        !bound.contains(vx),
        !bound.contains(var_like(vx, y)),
        !fv_idxtm(i, bound).contains(vx),
        binders_apart_idxtm(seq![vx], i),
    ensures
        fv_idxtm(subst_in_idxtm(vx, y, i), bound).contains(vx) <==> fv_idxtm(i, bound).contains(
            var_like(vx, y),
        ),
        !fv_idxtm(subst_in_idxtm(vx, y, i), bound).contains(var_like(vx, y)),
    decreases i,
{
    broadcast use
        lemma_seq_concat_contains_all_elements,
        lemma_seq_contains_after_push,
        lemma_seq_empty_contains_nothing,
    ;

    let vy = var_like(vx, y);
    lemma_fv_of_var(vx);
    if !(vx is Type) {
        match i {
            IdxTmV::Sing(n) => {
                lemma_rename_fv_nmtm(vx, y, n, bound);
            },
            IdxTmV::NmTm(n) => {
                lemma_rename_fv_nmtm(vx, y, n, bound);
            },
            IdxTmV::NmSet(s) => {
                lemma_rename_fv_nmsettms(vx, y, s.terms, bound);
            },
            IdxTmV::Apart(a, b) => {
                lemma_rename_fv_idxtm(vx, y, *a, bound);
                lemma_rename_fv_idxtm(vx, y, *b, bound);
            },
            IdxTmV::Union(a, b) => {
                lemma_rename_fv_idxtm(vx, y, *a, bound);
                lemma_rename_fv_idxtm(vx, y, *b, bound);
            },
            IdxTmV::Bin(a, b) => {
                lemma_rename_fv_idxtm(vx, y, *a, bound);
                lemma_rename_fv_idxtm(vx, y, *b, bound);
            },
            IdxTmV::Pair(a, b) => {
                lemma_rename_fv_idxtm(vx, y, *a, bound);
                lemma_rename_fv_idxtm(vx, y, *b, bound);
            },
            IdxTmV::App(a, b) => {
                lemma_rename_fv_idxtm(vx, y, *a, bound);
                lemma_rename_fv_idxtm(vx, y, *b, bound);
            },
            IdxTmV::FlatMap(a, b) => {
                lemma_rename_fv_idxtm(vx, y, *a, bound);
                lemma_rename_fv_idxtm(vx, y, *b, bound);
            },
            IdxTmV::FlatMapStar(a, b) => {
                lemma_rename_fv_idxtm(vx, y, *a, bound);
                lemma_rename_fv_idxtm(vx, y, *b, bound);
            },
            IdxTmV::MapNm(n, a) => {
                lemma_rename_fv_nmtm(vx, y, *n, bound);
                lemma_rename_fv_idxtm(vx, y, *a, bound);
            },
            IdxTmV::MapStar(n, a) => {
                lemma_rename_fv_nmtm(vx, y, *n, bound);
                lemma_rename_fv_idxtm(vx, y, *a, bound);
            },
            IdxTmV::Proj1(a) => {
                lemma_rename_fv_idxtm(vx, y, *a, bound);
            },
            IdxTmV::Proj2(a) => {
                lemma_rename_fv_idxtm(vx, y, *a, bound);
            },
            IdxTmV::Lam(w, _, i1) => {
                if vx is IdxTm && y == w {
                    lemma_fv_idxtm_facts(*i1, bound.push(idx_var(w)), vy);
                } else {
                    lemma_rename_fv_idxtm(vx, y, *i1, bound.push(idx_var(w)));
                }
            },
            _ => {},
        }
    } else {
        lemma_fv_idxtm_facts(i, bound, vy);
    }
}

/// A fresh variable put in the place of `y` in a proposition
/// is free where `y` was, and `y` is free no more.
pub proof fn lemma_rename_fv_prop(vx: TermV, y: Seq<char>, p: PropV, bound: Seq<TermV>)
    requires
        renames(vx, y),
        !bound.contains(vx),
        !bound.contains(var_like(vx, y)),
        !fv_prop(p, bound).contains(vx),
        binders_apart_prop(seq![vx], p),
    ensures
        fv_prop(subst_in_prop(vx, y, p), bound).contains(vx) <==> fv_prop(p, bound).contains(
            var_like(vx, y),
        ),
        !fv_prop(subst_in_prop(vx, y, p), bound).contains(var_like(vx, y)),
    decreases p,
{
    broadcast use
        lemma_seq_concat_contains_all_elements,
        lemma_seq_contains_after_push,
        lemma_seq_empty_contains_nothing,
    ;

    let vy = var_like(vx, y);
    lemma_fv_of_var(vx);
    match p {
        PropV::Equiv(i, j, _) => {
            lemma_rename_fv_idxtm(vx, y, i, bound);
            lemma_rename_fv_idxtm(vx, y, j, bound);
        },
        PropV::Apart(i, j, _) => {
            lemma_rename_fv_idxtm(vx, y, i, bound);
            lemma_rename_fv_idxtm(vx, y, j, bound);
        },
        PropV::Conj(p1, p2) => {
            lemma_rename_fv_prop(vx, y, *p1, bound);
            lemma_rename_fv_prop(vx, y, *p2, bound);
        },
        _ => {},
    }
}

/// A fresh variable put in the place of `y` in an effect
/// is free where `y` was, and `y` is free no more.
pub proof fn lemma_rename_fv_effect(vx: TermV, y: Seq<char>, e: EffectV, bound: Seq<TermV>)
    requires
        renames(vx, y),
        !bound.contains(vx),
        !bound.contains(var_like(vx, y)),
        !fv_effect(e, bound).contains(vx),
        binders_apart_effect(seq![vx], e),
    ensures
        fv_effect(subst_in_effect(vx, y, e), bound).contains(vx) <==> fv_effect(e, bound).contains(
            var_like(vx, y),
        ),
        !fv_effect(subst_in_effect(vx, y, e), bound).contains(var_like(vx, y)),
    decreases e,
{
    broadcast use
        lemma_seq_concat_contains_all_elements,
        lemma_seq_contains_after_push,
        lemma_seq_empty_contains_nothing,
    ;

    let vy = var_like(vx, y);
    lemma_fv_of_var(vx);
    match e {
        EffectV::WR(i, j) => {
            lemma_rename_fv_idxtm(vx, y, i, bound);
            lemma_rename_fv_idxtm(vx, y, j, bound);
        },
        _ => {},
    }
}

/// A fresh variable put in the place of `y` in a type
/// is free where `y` was, and `y` is free no more.
pub proof fn lemma_rename_fv_type(vx: TermV, y: Seq<char>, a: TypeV, bound: Seq<TermV>)
    requires
        renames(vx, y),
        !bound.contains(vx),
        !bound.contains(var_like(vx, y)),
        !fv_type(a, bound).contains(vx),
        binders_apart_type(seq![vx], a),
    ensures
        fv_type(subst_in_type(vx, y, a), bound).contains(vx) <==> fv_type(a, bound).contains(
            var_like(vx, y),
        ),
        !fv_type(subst_in_type(vx, y, a), bound).contains(var_like(vx, y)),
    decreases a,
{
    broadcast use
        lemma_seq_concat_contains_all_elements,
        lemma_seq_contains_after_push,
        lemma_seq_empty_contains_nothing,
    ;

    let vy = var_like(vx, y);
    lemma_fv_of_var(vx);
    match a {
        TypeV::IdentDef(_, d) => {
            lemma_rename_fv_type(vx, y, *d, bound);
        },
        TypeV::Sum(a1, a2) => {
            lemma_rename_fv_type(vx, y, *a1, bound);
            lemma_rename_fv_type(vx, y, *a2, bound);
        },
        TypeV::Prod(a1, a2) => {
            lemma_rename_fv_type(vx, y, *a1, bound);
            lemma_rename_fv_type(vx, y, *a2, bound);
        },
        TypeV::TypeApp(a1, a2) => {
            lemma_rename_fv_type(vx, y, *a1, bound);
            lemma_rename_fv_type(vx, y, *a2, bound);
        },
        TypeV::Ref(i, a1) => {
            lemma_rename_fv_idxtm(vx, y, i, bound);
            lemma_rename_fv_type(vx, y, *a1, bound);
        },
        TypeV::Thk(i, ce) => {
            lemma_rename_fv_idxtm(vx, y, i, bound);
            lemma_rename_fv_ceffect(vx, y, *ce, bound);
            lemma_under_thunk_contains(fv_ceffect(*ce, bound), vx);
            lemma_under_thunk_contains(fv_ceffect(*ce, bound), vy);
            lemma_under_thunk_contains(fv_ceffect(subst_in_ceffect(vx, y, *ce), bound), vx);
            lemma_under_thunk_contains(fv_ceffect(subst_in_ceffect(vx, y, *ce), bound), vy);
        },
        TypeV::IdxApp(a1, i) => {
            lemma_rename_fv_type(vx, y, *a1, bound);
            lemma_rename_fv_idxtm(vx, y, i, bound);
        },
        TypeV::Nm(i) => {
            lemma_rename_fv_idxtm(vx, y, i, bound);
        },
        TypeV::NmFn(n) => {
            lemma_rename_fv_nmtm(vx, y, n, bound);
        },
        TypeV::TypeFn(w, _, a1) => {
            if vx is Type && y == w {
                lemma_fv_type_facts(*a1, bound.push(type_var(w)), vy);
            } else {
                lemma_rename_fv_type(vx, y, *a1, bound.push(type_var(w)));
            }
        },
        TypeV::Rec(w, a1) => {
            if vx is Type && y == w {
                lemma_fv_type_facts(*a1, bound.push(type_var(w)), vy);
            } else {
                lemma_rename_fv_type(vx, y, *a1, bound.push(type_var(w)));
            }
        },
        TypeV::IdxFn(w, _, a1) => {
            if vx is IdxTm && y == w {
                lemma_fv_type_facts(*a1, bound.push(idx_var(w)), vy);
            } else {
                lemma_rename_fv_type(vx, y, *a1, bound.push(idx_var(w)));
            }
        },
        TypeV::Exists(w, _, p, a1) => {
            if vx is IdxTm && y == w {
                lemma_fv_prop_facts(p, bound.push(idx_var(w)), vy);
                lemma_fv_type_facts(*a1, bound.push(idx_var(w)), vy);
            } else {
                lemma_rename_fv_prop(vx, y, p, bound.push(idx_var(w)));
                lemma_rename_fv_type(vx, y, *a1, bound.push(idx_var(w)));
            }
        },
        _ => {},
    }
}

/// A fresh variable put in the place of `y` in a computation type
/// is free where `y` was, and `y` is free no more.
pub proof fn lemma_rename_fv_ctype(vx: TermV, y: Seq<char>, c: CTypeV, bound: Seq<TermV>)
    requires
        renames(vx, y),
        !bound.contains(vx),
        !bound.contains(var_like(vx, y)),
        !fv_ctype(c, bound).contains(vx),
        binders_apart_ctype(seq![vx], c),
    ensures
        fv_ctype(subst_in_ctype(vx, y, c), bound).contains(vx) <==> fv_ctype(c, bound).contains(
            var_like(vx, y),
        ),
        !fv_ctype(subst_in_ctype(vx, y, c), bound).contains(var_like(vx, y)),
    decreases c,
{
    broadcast use
        lemma_seq_concat_contains_all_elements,
        lemma_seq_contains_after_push,
        lemma_seq_empty_contains_nothing,
    ;

    let vy = var_like(vx, y);
    lemma_fv_of_var(vx);
    match c {
        CTypeV::Lift(a) => {
            lemma_rename_fv_type(vx, y, a, bound);
        },
        CTypeV::Arrow(a, ce) => {
            lemma_rename_fv_type(vx, y, a, bound);
            lemma_rename_fv_ceffect(vx, y, *ce, bound);
        },
        _ => {},
    }
}

/// A fresh variable put in the place of `y` in a computation effect
/// is free where `y` was, and `y` is free no more.
pub proof fn lemma_rename_fv_ceffect(vx: TermV, y: Seq<char>, ce: CEffectV, bound: Seq<TermV>)
    requires
        renames(vx, y),
        !bound.contains(vx),
        !bound.contains(var_like(vx, y)),
        !fv_ceffect(ce, bound).contains(vx),
        binders_apart_ceffect(seq![vx], ce),
    ensures
        fv_ceffect(subst_in_ceffect(vx, y, ce), bound).contains(vx) <==> fv_ceffect(ce, bound).contains(
            var_like(vx, y),
        ),
        !fv_ceffect(subst_in_ceffect(vx, y, ce), bound).contains(var_like(vx, y)),
    decreases ce,
{
    broadcast use
        lemma_seq_concat_contains_all_elements,
        lemma_seq_contains_after_push,
        lemma_seq_empty_contains_nothing,
    ;

    let vy = var_like(vx, y);
    lemma_fv_of_var(vx);
    match ce {
        CEffectV::Cons(c, e) => {
            lemma_rename_fv_ctype(vx, y, c, bound);
            lemma_rename_fv_effect(vx, y, e, bound);
        },
        CEffectV::ForallType(w, _, ce1) => {
            if vx is Type && y == w {
                lemma_fv_ceffect_facts(*ce1, bound.push(type_var(w)), vy);
            } else {
                lemma_rename_fv_ceffect(vx, y, *ce1, bound.push(type_var(w)));
            }
        },
        CEffectV::ForallIdx(w, _, p, ce1) => {
            if vx is IdxTm && y == w {
                lemma_fv_prop_facts(p, bound.push(idx_var(w)), vy);
                lemma_fv_ceffect_facts(*ce1, bound.push(idx_var(w)), vy);
            } else {
                lemma_rename_fv_prop(vx, y, p, bound.push(idx_var(w)));
                lemma_rename_fv_ceffect(vx, y, *ce1, bound.push(idx_var(w)));
            }
        },
        _ => {},
    }
}

} // verus!
