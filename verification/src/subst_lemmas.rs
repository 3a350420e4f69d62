//! Substitution of a variable for a variable: it never makes a term larger,
//! and it can always be carried out. Capture-avoiding substitution renames
//! binders by it.

use crate::fv_spec::{fv_term, idx_var, is_var, name_var};
use crate::model::{CEffectV, CTypeV, EffectV, IdxTmV, NameTmV, NmSetTmV, PropV, TermV, TypeV};
use crate::size::{
    ceffect_size, ctype_size, effect_size, idxtm_size, lemma_nmsettms_size_unfold, nmsettm_size,
    nmsettms_size, nmtm_size, prop_size, type_size,
};
use crate::subst_spec::{
    alpha_vary_spec, is_writescope_var, primes_fresh_ceffect, primes_fresh_ctype,
    primes_fresh_effect, primes_fresh_idxtm, primes_fresh_nmsettm, primes_fresh_nmsettms,
    primes_fresh_nmtm, primes_fresh_prop, primes_fresh_type, subst_in_ceffect, subst_in_ctype,
    subst_in_effect, subst_in_idxtm, subst_in_nmsettm, subst_in_nmsettms, subst_in_nmtm,
    subst_in_prop, subst_in_type,
};
use vstd::prelude::*;

verus! {

/// Substitution in a literal set keeps the number of members, and works on
/// each member by itself.
pub proof fn lemma_subst_nmsettms_member(t: TermV, x: Seq<char>, ts: Seq<NmSetTmV>, k: int)
    requires
        0 <= k < ts.len(),
    ensures
        subst_in_nmsettms(t, x, ts).len() == ts.len(),
        subst_in_nmsettms(t, x, ts)[k] == subst_in_nmsettm(t, x, ts[k]),
    decreases ts.len(),
{
    lemma_subst_nmsettms_len(t, x, ts.drop_last());
    if k < ts.len() - 1 {
        lemma_subst_nmsettms_member(t, x, ts.drop_last(), k);
    }
}

/// Substitution in a literal set keeps the number of members.
pub proof fn lemma_subst_nmsettms_len(t: TermV, x: Seq<char>, ts: Seq<NmSetTmV>)
    ensures
        subst_in_nmsettms(t, x, ts).len() == ts.len(),
    decreases ts.len(),
{
    if ts.len() > 0 {
        lemma_subst_nmsettms_len(t, x, ts.drop_last());
    }
}

/// Where a substitution can be carried out in a literal set, it can be
/// carried out in each member.
pub proof fn lemma_primes_fresh_nmsettms_member(
    t: TermV,
    x: Seq<char>,
    ts: Seq<NmSetTmV>,
    k: int,
)
    requires
        0 <= k < ts.len(),
        primes_fresh_nmsettms(t, x, ts),
    ensures
        primes_fresh_nmsettm(t, x, ts[k]),
    decreases ts.len(),
{
    if k < ts.len() - 1 {
        lemma_primes_fresh_nmsettms_member(t, x, ts.drop_last(), k);
    }
}

/// A variable is its own and only free variable.
pub proof fn lemma_fv_of_var(v: TermV)
    requires
        is_var(v),
    ensures
        fv_term(v) == seq![v],
{
    assert(!Seq::<TermV>::empty().contains(v));
}

/// Whether no free variable of `t` is the primed name of another free
/// variable of `t` of the same sort.
pub open spec fn no_primed_pair(t: TermV) -> bool {
    &&& forall|w: Seq<char>| #[trigger]
        fv_term(t).contains(idx_var(w)) ==> !fv_term(t).contains(idx_var(alpha_vary_spec(w)))
    &&& forall|w: Seq<char>| #[trigger]
        fv_term(t).contains(name_var(w)) ==> !fv_term(t).contains(name_var(alpha_vary_spec(w)))
}

/// A variable has no primed pair: it is its only free variable.
pub proof fn lemma_var_no_primed_pair(v: TermV)
    requires
        is_var(v),
    ensures
        no_primed_pair(v),
{
    lemma_fv_of_var(v);
    assert forall|w: Seq<char>| #[trigger]
        fv_term(v).contains(idx_var(w)) implies !fv_term(v).contains(
        idx_var(alpha_vary_spec(w)),
    ) by {
        lemma_alpha_vary_differs(w);
    }
    assert forall|w: Seq<char>| #[trigger]
        fv_term(v).contains(name_var(w)) implies !fv_term(v).contains(
        name_var(alpha_vary_spec(w)),
    ) by {
        lemma_alpha_vary_differs(w);
    }
}

/// A primed name is not the name itself.
pub proof fn lemma_alpha_vary_differs(x: Seq<char>)
    ensures
        alpha_vary_spec(x) != x,
{
    assert(alpha_vary_spec(x).len() == x.len() + 1);
}

/// To put a variable in the place of a variable does not make a name term
/// larger.
pub proof fn lemma_rename_nmtm_size(v: TermV, y: Seq<char>, m: NameTmV)
    requires
        is_var(v),
    ensures
        nmtm_size(subst_in_nmtm(v, y, m)) <= nmtm_size(m),
    decreases nmtm_size(m),
{
    if v is NmTm {
        match m {
            NameTmV::App(l, r) => {
                lemma_rename_nmtm_size(v, y, *l);
                lemma_rename_nmtm_size(v, y, *r);
            },
            NameTmV::Bin(l, r) => {
                lemma_rename_nmtm_size(v, y, *l);
                lemma_rename_nmtm_size(v, y, *r);
            },
            NameTmV::Lam(w, _, m1) => {
                if y == w {
                } else if fv_term(v).contains(name_var(w)) {
                    let w2 = alpha_vary_spec(w);
                    let m2 = subst_in_nmtm(name_var(w2), w, *m1);
                    lemma_rename_nmtm_size(name_var(w2), w, *m1);
                    lemma_rename_nmtm_size(v, y, m2);
                } else {
                    lemma_rename_nmtm_size(v, y, *m1);
                }
            },
            _ => {},
        }
    }
}

/// To put a variable in the place of a variable does not make a member of a
/// literal set larger.
pub proof fn lemma_rename_nmsettm_size(v: TermV, y: Seq<char>, tm: NmSetTmV)
    requires
        is_var(v),
    ensures
        nmsettm_size(subst_in_nmsettm(v, y, tm)) <= nmsettm_size(tm),
    decreases nmsettm_size(tm),
{
    match tm {
        NmSetTmV::Single(n) => lemma_rename_nmtm_size(v, y, n),
        NmSetTmV::Subset(i) => lemma_rename_idxtm_size(v, y, i),
    }
}

/// To put a variable in the place of a variable keeps the number of members
/// of a literal set, and does not make them larger.
pub proof fn lemma_rename_nmsettms_size(v: TermV, y: Seq<char>, ts: Seq<NmSetTmV>)
    requires
        is_var(v),
    ensures
        subst_in_nmsettms(v, y, ts).len() == ts.len(),
        nmsettms_size(subst_in_nmsettms(v, y, ts)) <= nmsettms_size(ts),
    decreases nmsettms_size(ts),
{
    if ts.len() > 0 {
        lemma_nmsettms_size_unfold(ts);
        lemma_rename_nmsettms_size(v, y, ts.drop_last());
        lemma_rename_nmsettm_size(v, y, ts.last());
        let r = subst_in_nmsettms(v, y, ts);
        assert(r.drop_last() =~= subst_in_nmsettms(v, y, ts.drop_last()));
        lemma_nmsettms_size_unfold(r);
    }
}

/// To put a variable in the place of a variable does not make an index term
/// larger.
pub proof fn lemma_rename_idxtm_size(v: TermV, y: Seq<char>, i: IdxTmV)
    requires
        is_var(v),
    ensures
        idxtm_size(subst_in_idxtm(v, y, i)) <= idxtm_size(i),
    decreases idxtm_size(i),
{
    if !(v is Type) {
        match i {
            IdxTmV::Sing(n) => lemma_rename_nmtm_size(v, y, n),
            IdxTmV::NmTm(n) => lemma_rename_nmtm_size(v, y, n),
            IdxTmV::NmSet(s) => lemma_rename_nmsettms_size(v, y, s.terms),
            IdxTmV::Apart(a, b) => {
                lemma_rename_idxtm_size(v, y, *a);
                lemma_rename_idxtm_size(v, y, *b);
            },
            IdxTmV::Union(a, b) => {
                lemma_rename_idxtm_size(v, y, *a);
                lemma_rename_idxtm_size(v, y, *b);
            },
            IdxTmV::Bin(a, b) => {
                lemma_rename_idxtm_size(v, y, *a);
                lemma_rename_idxtm_size(v, y, *b);
            },
            IdxTmV::Pair(a, b) => {
                lemma_rename_idxtm_size(v, y, *a);
                lemma_rename_idxtm_size(v, y, *b);
            },
            IdxTmV::App(a, b) => {
                lemma_rename_idxtm_size(v, y, *a);
                lemma_rename_idxtm_size(v, y, *b);
            },
            IdxTmV::FlatMap(a, b) => {
                lemma_rename_idxtm_size(v, y, *a);
                lemma_rename_idxtm_size(v, y, *b);
            },
            IdxTmV::FlatMapStar(a, b) => {
                lemma_rename_idxtm_size(v, y, *a);
                lemma_rename_idxtm_size(v, y, *b);
            },
            IdxTmV::MapNm(n, a) => {
                lemma_rename_nmtm_size(v, y, *n);
                lemma_rename_idxtm_size(v, y, *a);
            },
            IdxTmV::MapStar(n, a) => {
                lemma_rename_nmtm_size(v, y, *n);
                lemma_rename_idxtm_size(v, y, *a);
            },
            IdxTmV::Proj1(a) => lemma_rename_idxtm_size(v, y, *a),
            IdxTmV::Proj2(a) => lemma_rename_idxtm_size(v, y, *a),
            IdxTmV::Lam(w, _, i1) => {
                if v is IdxTm && y == w {
                } else if fv_term(v).contains(idx_var(w)) {
                    let w2 = alpha_vary_spec(w);
                    let i2 = subst_in_idxtm(idx_var(w2), w, *i1);
                    lemma_rename_idxtm_size(idx_var(w2), w, *i1);
                    lemma_rename_idxtm_size(v, y, i2);
                } else {
                    lemma_rename_idxtm_size(v, y, *i1);
                }
            },
            _ => {},
        }
    }
}

/// To put a variable in the place of a variable does not make a proposition
/// larger.
pub proof fn lemma_rename_prop_size(v: TermV, y: Seq<char>, p: PropV)
    requires
        is_var(v),
    ensures
        prop_size(subst_in_prop(v, y, p)) <= prop_size(p),
    decreases p,
{
    match p {
        PropV::Equiv(i, j, _) => {
            lemma_rename_idxtm_size(v, y, i);
            lemma_rename_idxtm_size(v, y, j);
        },
        PropV::Apart(i, j, _) => {
            lemma_rename_idxtm_size(v, y, i);
            lemma_rename_idxtm_size(v, y, j);
        },
        PropV::Conj(p1, p2) => {
            lemma_rename_prop_size(v, y, *p1);
            lemma_rename_prop_size(v, y, *p2);
        },
        _ => {},
    }
}

/// To put a variable in the place of a variable does not make an effect
/// larger.
pub proof fn lemma_rename_effect_size(v: TermV, y: Seq<char>, e: EffectV)
    requires
        is_var(v),
    ensures
        effect_size(subst_in_effect(v, y, e)) <= effect_size(e),
{
    match e {
        EffectV::WR(i, j) => {
            lemma_rename_idxtm_size(v, y, i);
            lemma_rename_idxtm_size(v, y, j);
        },
        EffectV::NoParse(_) => {},
    }
}

/// To put a variable in the place of a variable does not make a type larger.
/// It can make it smaller: an identifier whose definition changes is dropped.
pub proof fn lemma_rename_type_size(v: TermV, y: Seq<char>, a: TypeV)
    requires
        is_var(v),
    ensures
        type_size(subst_in_type(v, y, a)) <= type_size(a),
    decreases type_size(a),
{
    match a {
        TypeV::IdentDef(_, d) => lemma_rename_type_size(v, y, *d),
        TypeV::Sum(a1, a2) => {
            lemma_rename_type_size(v, y, *a1);
            lemma_rename_type_size(v, y, *a2);
        },
        TypeV::Prod(a1, a2) => {
            lemma_rename_type_size(v, y, *a1);
            lemma_rename_type_size(v, y, *a2);
        },
        TypeV::TypeApp(a1, a2) => {
            lemma_rename_type_size(v, y, *a1);
            lemma_rename_type_size(v, y, *a2);
        },
        TypeV::Ref(i, a1) => {
            lemma_rename_idxtm_size(v, y, i);
            lemma_rename_type_size(v, y, *a1);
        },
        TypeV::Thk(i, ce) => {
            lemma_rename_idxtm_size(v, y, i);
            if !is_writescope_var(y) {
                lemma_rename_ceffect_size(v, y, *ce);
            }
        },
        TypeV::IdxApp(a1, i) => {
            lemma_rename_type_size(v, y, *a1);
            lemma_rename_idxtm_size(v, y, i);
        },
        TypeV::Nm(i) => lemma_rename_idxtm_size(v, y, i),
        TypeV::NmFn(n) => lemma_rename_nmtm_size(v, y, n),
        TypeV::Rec(w, a1) => {
            if !(v is Type && y == w) {
                lemma_rename_type_size(v, y, *a1);
            }
        },
        TypeV::TypeFn(w, _, a1) => {
            if !(v is Type && y == w) {
                lemma_rename_type_size(v, y, *a1);
            }
        },
        TypeV::IdxFn(w, _, a1) => {
            if v is IdxTm && y == w {
            } else if fv_term(v).contains(idx_var(w)) {
                let w2 = alpha_vary_spec(w);
                let a2 = subst_in_type(idx_var(w2), w, *a1);
                lemma_rename_type_size(idx_var(w2), w, *a1);
                lemma_rename_type_size(v, y, a2);
            } else {
                lemma_rename_type_size(v, y, *a1);
            }
        },
        TypeV::Exists(w, _, p, a1) => {
            if v is IdxTm && y == w {
            } else if fv_term(v).contains(idx_var(w)) {
                let w2 = alpha_vary_spec(w);
                let a2 = subst_in_type(idx_var(w2), w, *a1);
                lemma_rename_type_size(idx_var(w2), w, *a1);
                lemma_rename_prop_size(idx_var(w2), w, p);
                lemma_rename_prop_size(v, y, subst_in_prop(idx_var(w2), w, p));
                lemma_rename_type_size(v, y, a2);
            } else {
                lemma_rename_prop_size(v, y, p);
                lemma_rename_type_size(v, y, *a1);
            }
        },
        _ => {},
    }
}

/// To put a variable in the place of a variable does not make a computation
/// type larger.
pub proof fn lemma_rename_ctype_size(v: TermV, y: Seq<char>, c: CTypeV)
    requires
        is_var(v),
    ensures
        ctype_size(subst_in_ctype(v, y, c)) <= ctype_size(c),
    decreases ctype_size(c),
{
    match c {
        CTypeV::Lift(a) => lemma_rename_type_size(v, y, a),
        CTypeV::Arrow(a, ce) => {
            lemma_rename_type_size(v, y, a);
            lemma_rename_ceffect_size(v, y, *ce);
        },
        CTypeV::NoParse(_) => {},
    }
}

/// To put a variable in the place of a variable does not make a computation
/// effect larger.
pub proof fn lemma_rename_ceffect_size(v: TermV, y: Seq<char>, ce: CEffectV)
    requires
        is_var(v),
    ensures
        ceffect_size(subst_in_ceffect(v, y, ce)) <= ceffect_size(ce),
    decreases ceffect_size(ce),
{
    match ce {
        CEffectV::Cons(c, e) => {
            lemma_rename_ctype_size(v, y, c);
            lemma_rename_effect_size(v, y, e);
        },
        CEffectV::ForallType(w, _, ce1) => {
            if !(v is Type && y == w) {
                lemma_rename_ceffect_size(v, y, *ce1);
            }
        },
        CEffectV::ForallIdx(w, _, p, ce1) => {
            if !(v is IdxTm && y == w) {
                lemma_rename_prop_size(v, y, p);
                lemma_rename_ceffect_size(v, y, *ce1);
            }
        },
        CEffectV::NoParse(_) => {},
    }
}

/// A term without a primed pair can be put in the place of a variable in
/// every name term.
pub proof fn lemma_primes_fresh_nmtm(t: TermV, x: Seq<char>, m: NameTmV)
    requires
        no_primed_pair(t),
    ensures
        primes_fresh_nmtm(t, x, m),
    decreases nmtm_size(m),
{
    if t is NmTm {
        match m {
            NameTmV::App(l, r) => {
                lemma_primes_fresh_nmtm(t, x, *l);
                lemma_primes_fresh_nmtm(t, x, *r);
            },
            NameTmV::Bin(l, r) => {
                lemma_primes_fresh_nmtm(t, x, *l);
                lemma_primes_fresh_nmtm(t, x, *r);
            },
            NameTmV::Lam(w, _, m1) => {
                if x == w {
                } else if fv_term(t).contains(name_var(w)) {
                    let w2 = alpha_vary_spec(w);
                    let m2 = subst_in_nmtm(name_var(w2), w, *m1);
                lemma_rename_nmtm_size(name_var(w2), w, *m1);
                    lemma_primes_fresh_nmtm(t, x, m2);
                } else {
                    lemma_primes_fresh_nmtm(t, x, *m1);
                }
            },
            _ => {},
        }
    }
}

/// A term without a primed pair can be put in the place of a variable in
/// every member of a literal set.
pub proof fn lemma_primes_fresh_nmsettm(t: TermV, x: Seq<char>, tm: NmSetTmV)
    requires
        no_primed_pair(t),
    ensures
        primes_fresh_nmsettm(t, x, tm),
    decreases nmsettm_size(tm),
{
    match tm {
        NmSetTmV::Single(n) => lemma_primes_fresh_nmtm(t, x, n),
        NmSetTmV::Subset(i) => lemma_primes_fresh_idxtm(t, x, i),
    }
}

/// A term without a primed pair can be put in the place of a variable in
/// every literal set.
pub proof fn lemma_primes_fresh_nmsettms(t: TermV, x: Seq<char>, ts: Seq<NmSetTmV>)
    requires
        no_primed_pair(t),
    ensures
        primes_fresh_nmsettms(t, x, ts),
    decreases nmsettms_size(ts),
{
    if ts.len() > 0 {
        lemma_nmsettms_size_unfold(ts);
        lemma_primes_fresh_nmsettms(t, x, ts.drop_last());
        lemma_primes_fresh_nmsettm(t, x, ts.last());
    }
}

/// A term without a primed pair can be put in the place of a variable in
/// every index term.
pub proof fn lemma_primes_fresh_idxtm(t: TermV, x: Seq<char>, i: IdxTmV)
    requires
        no_primed_pair(t),
    ensures
        primes_fresh_idxtm(t, x, i),
    decreases idxtm_size(i),
{
    if !(t is Type) {
        match i {
            IdxTmV::Sing(n) => lemma_primes_fresh_nmtm(t, x, n),
            IdxTmV::NmTm(n) => lemma_primes_fresh_nmtm(t, x, n),
            IdxTmV::NmSet(s) => lemma_primes_fresh_nmsettms(t, x, s.terms),
            IdxTmV::Apart(a, b) => {
                lemma_primes_fresh_idxtm(t, x, *a);
                lemma_primes_fresh_idxtm(t, x, *b);
            },
            IdxTmV::Union(a, b) => {
                lemma_primes_fresh_idxtm(t, x, *a);
                lemma_primes_fresh_idxtm(t, x, *b);
            },
            IdxTmV::Bin(a, b) => {
                lemma_primes_fresh_idxtm(t, x, *a);
                lemma_primes_fresh_idxtm(t, x, *b);
            },
            IdxTmV::Pair(a, b) => {
                lemma_primes_fresh_idxtm(t, x, *a);
                lemma_primes_fresh_idxtm(t, x, *b);
            },
            IdxTmV::App(a, b) => {
                lemma_primes_fresh_idxtm(t, x, *a);
                lemma_primes_fresh_idxtm(t, x, *b);
            },
            IdxTmV::FlatMap(a, b) => {
                lemma_primes_fresh_idxtm(t, x, *a);
                lemma_primes_fresh_idxtm(t, x, *b);
            },
            IdxTmV::FlatMapStar(a, b) => {
                lemma_primes_fresh_idxtm(t, x, *a);
                lemma_primes_fresh_idxtm(t, x, *b);
            },
            IdxTmV::MapNm(n, a) => {
                lemma_primes_fresh_nmtm(t, x, *n);
                lemma_primes_fresh_idxtm(t, x, *a);
            },
            IdxTmV::MapStar(n, a) => {
                lemma_primes_fresh_nmtm(t, x, *n);
                lemma_primes_fresh_idxtm(t, x, *a);
            },
            IdxTmV::Proj1(a) => lemma_primes_fresh_idxtm(t, x, *a),
            IdxTmV::Proj2(a) => lemma_primes_fresh_idxtm(t, x, *a),
            IdxTmV::Lam(w, _, i1) => {
                if t is IdxTm && x == w {
                } else if fv_term(t).contains(idx_var(w)) {
                    let w2 = alpha_vary_spec(w);
                    let i2 = subst_in_idxtm(idx_var(w2), w, *i1);
                lemma_rename_idxtm_size(idx_var(w2), w, *i1);
                    lemma_primes_fresh_idxtm(t, x, i2);
                } else {
                    lemma_primes_fresh_idxtm(t, x, *i1);
                }
            },
            _ => {},
        }
    }
}

/// A term without a primed pair can be put in the place of a variable in
/// every proposition.
pub proof fn lemma_primes_fresh_prop(t: TermV, x: Seq<char>, p: PropV)
    requires
        no_primed_pair(t),
    ensures
        primes_fresh_prop(t, x, p),
    decreases p,
{
    match p {
        PropV::Equiv(i, j, _) => {
            lemma_primes_fresh_idxtm(t, x, i);
            lemma_primes_fresh_idxtm(t, x, j);
        },
        PropV::Apart(i, j, _) => {
            lemma_primes_fresh_idxtm(t, x, i);
            lemma_primes_fresh_idxtm(t, x, j);
        },
        PropV::Conj(p1, p2) => {
            lemma_primes_fresh_prop(t, x, *p1);
            lemma_primes_fresh_prop(t, x, *p2);
        },
        _ => {},
    }
}

/// A term without a primed pair can be put in the place of a variable in
/// every effect.
pub proof fn lemma_primes_fresh_effect(t: TermV, x: Seq<char>, e: EffectV)
    requires
        no_primed_pair(t),
    ensures
        primes_fresh_effect(t, x, e),
{
    match e {
        EffectV::WR(i, j) => {
            lemma_primes_fresh_idxtm(t, x, i);
            lemma_primes_fresh_idxtm(t, x, j);
        },
        EffectV::NoParse(_) => {},
    }
}

/// A term without a primed pair can be put in the place of a variable in
/// every type.
pub proof fn lemma_primes_fresh_type(t: TermV, x: Seq<char>, a: TypeV)
    requires
        no_primed_pair(t),
    ensures
        primes_fresh_type(t, x, a),
    decreases type_size(a),
{
    match a {
        TypeV::IdentDef(_, d) => lemma_primes_fresh_type(t, x, *d),
        TypeV::Sum(a1, a2) => {
            lemma_primes_fresh_type(t, x, *a1);
            lemma_primes_fresh_type(t, x, *a2);
        },
        TypeV::Prod(a1, a2) => {
            lemma_primes_fresh_type(t, x, *a1);
            lemma_primes_fresh_type(t, x, *a2);
        },
        TypeV::TypeApp(a1, a2) => {
            lemma_primes_fresh_type(t, x, *a1);
            lemma_primes_fresh_type(t, x, *a2);
        },
        TypeV::Ref(i, a1) => {
            lemma_primes_fresh_idxtm(t, x, i);
            lemma_primes_fresh_type(t, x, *a1);
        },
        TypeV::Thk(i, ce) => {
            lemma_primes_fresh_idxtm(t, x, i);
            if !is_writescope_var(x) {
                lemma_primes_fresh_ceffect(t, x, *ce);
            }
        },
        TypeV::IdxApp(a1, i) => {
            lemma_primes_fresh_type(t, x, *a1);
            lemma_primes_fresh_idxtm(t, x, i);
        },
        TypeV::Nm(i) => lemma_primes_fresh_idxtm(t, x, i),
        TypeV::NmFn(n) => lemma_primes_fresh_nmtm(t, x, n),
        TypeV::Rec(w, a1) => {
            if !(t is Type && x == w) {
                lemma_primes_fresh_type(t, x, *a1);
            }
        },
        TypeV::TypeFn(w, _, a1) => {
            if !(t is Type && x == w) {
                lemma_primes_fresh_type(t, x, *a1);
            }
        },
        TypeV::IdxFn(w, _, a1) => {
            if t is IdxTm && x == w {
            } else if fv_term(t).contains(idx_var(w)) {
                let w2 = alpha_vary_spec(w);
                let a2 = subst_in_type(idx_var(w2), w, *a1);
                lemma_rename_type_size(idx_var(w2), w, *a1);
                lemma_primes_fresh_type(t, x, a2);
            } else {
                lemma_primes_fresh_type(t, x, *a1);
            }
        },
        TypeV::Exists(w, _, p, a1) => {
            if t is IdxTm && x == w {
            } else if fv_term(t).contains(idx_var(w)) {
                let w2 = alpha_vary_spec(w);
                let a2 = subst_in_type(idx_var(w2), w, *a1);
                lemma_rename_type_size(idx_var(w2), w, *a1);
                lemma_primes_fresh_prop(t, x, subst_in_prop(idx_var(w2), w, p));
                lemma_primes_fresh_type(t, x, a2);
            } else {
                lemma_primes_fresh_prop(t, x, p);
                lemma_primes_fresh_type(t, x, *a1);
            }
        },
        _ => {},
    }
}

/// A term without a primed pair can be put in the place of a variable in
/// every computation type.
pub proof fn lemma_primes_fresh_ctype(t: TermV, x: Seq<char>, c: CTypeV)
    requires
        no_primed_pair(t),
    ensures
        primes_fresh_ctype(t, x, c),
    decreases ctype_size(c),
{
    match c {
        CTypeV::Lift(a) => lemma_primes_fresh_type(t, x, a),
        CTypeV::Arrow(a, ce) => {
            lemma_primes_fresh_type(t, x, a);
            lemma_primes_fresh_ceffect(t, x, *ce);
        },
        CTypeV::NoParse(_) => {},
    }
}

/// A term without a primed pair can be put in the place of a variable in
/// every computation effect.
pub proof fn lemma_primes_fresh_ceffect(t: TermV, x: Seq<char>, ce: CEffectV)
    requires
        no_primed_pair(t),
    ensures
        primes_fresh_ceffect(t, x, ce),
    decreases ceffect_size(ce),
{
    match ce {
        CEffectV::Cons(c, e) => {
            lemma_primes_fresh_ctype(t, x, c);
            lemma_primes_fresh_effect(t, x, e);
        },
        CEffectV::ForallType(w, _, ce1) => {
            if !(t is Type && x == w) {
                lemma_primes_fresh_ceffect(t, x, *ce1);
            }
        },
        CEffectV::ForallIdx(w, _, p, ce1) => {
            if !(t is IdxTm && x == w) {
                lemma_primes_fresh_prop(t, x, p);
                lemma_primes_fresh_ceffect(t, x, *ce1);
            }
        },
        CEffectV::NoParse(_) => {},
    }
}

} // verus!
