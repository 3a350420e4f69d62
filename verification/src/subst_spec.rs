//! Capture-avoiding substitution, as a function of the models.
//!
//! `subst_in_type(t, x, a)` is `a` with the term `t` in the place of the free
//! occurrences of the variable `x` of `t`'s sort, and likewise for the other
//! sorts. A term replaces variables of its own sort only: a type replaces
//! type variables, an index term index variables, a name term name
//! variables.
//!
//! The binders of index and name variables (`TypeV::IdxFn`, `TypeV::Exists`,
//! `IdxTmV::Lam`, `NameTmV::Lam`) avoid capture: a binder whose variable is
//! free in `t` is first renamed to `alpha_vary_spec` of its variable. The
//! second substitution then works on the renamed body, which is no sub-term
//! of the argument, so these functions recur on the node count. Each of them
//! tests that the renamed body has not grown before it recurs on it; the
//! test never fails (`lemma_rename_type_size` and its companions in
//! `subst_lemmas`), and is there for the termination check alone.

use crate::fv_spec::{fv_term, idx_var, name_var};
use crate::model::{
    CEffectV, CTypeV, EffectV, IdxTmV, NameTmV, NmSetTmV, NmSetV, PropV, TermV, TypeV,
};
use crate::size::{
    ceffect_size, ctype_size, idxtm_size, lemma_nmsettms_size_unfold, nmsettm_size,
    nmsettms_size, nmtm_size, type_size,
};
use vstd::prelude::*;

verus! {

/// The name that a binder takes when it has to give way: its own name with a
/// tilde behind it.
pub open spec fn alpha_vary_spec(x: Seq<char>) -> Seq<char> {
    x.push('~')
}

/// `"@@"`: the variable that stands for the write scope of names.
pub open spec fn nmtm_writescope_var() -> Seq<char> {
    seq!['@', '@']
}

/// `"@!"`: the variable that stands for the write scope of name sets.
pub open spec fn idxtm_writescope_var() -> Seq<char> {
    seq!['@', '!']
}

/// Whether `x` is one of the two variables that every thunk binds.
pub open spec fn is_writescope_var(x: Seq<char>) -> bool {
    x == nmtm_writescope_var() || x == idxtm_writescope_var()
}

/// A name term with `t` in the place of the variable `x`. Only a name term
/// is put anywhere; it also takes the place of the write scope where `x` is
/// `"@@"`.
pub open spec fn subst_in_nmtm(t: TermV, x: Seq<char>, m: NameTmV) -> NameTmV
    decreases nmtm_size(m),
{
    match t {
        TermV::NmTm(n) => match m {
            NameTmV::Var(y) => if x == y {
                n
            } else {
                m
            },
            NameTmV::WriteScope => if x == nmtm_writescope_var() {
                n
            } else {
                m
            },
            NameTmV::App(l, r) => NameTmV::App(
                Box::new(subst_in_nmtm(t, x, *l)),
                Box::new(subst_in_nmtm(t, x, *r)),
            ),
            NameTmV::Bin(l, r) => NameTmV::Bin(
                Box::new(subst_in_nmtm(t, x, *l)),
                Box::new(subst_in_nmtm(t, x, *r)),
            ),
            NameTmV::Lam(y, g, m1) => if x == y {
                m
            } else if fv_term(t).contains(name_var(y)) {
                let y2 = alpha_vary_spec(y);
                let m2 = subst_in_nmtm(name_var(y2), y, *m1);
                if nmtm_size(m2) <= nmtm_size(*m1) {
                    NameTmV::Lam(y2, g, Box::new(subst_in_nmtm(t, x, m2)))
                } else {
                    m
                }
            } else {
                NameTmV::Lam(y, g, Box::new(subst_in_nmtm(t, x, *m1)))
            },
            _ => m,
        },
        _ => m,
    }
}

/// A member of a literal set with `t` in the place of the variable `x`.
pub open spec fn subst_in_nmsettm(t: TermV, x: Seq<char>, tm: NmSetTmV) -> NmSetTmV
    decreases nmsettm_size(tm),
{
    match tm {
        NmSetTmV::Single(n) => NmSetTmV::Single(subst_in_nmtm(t, x, n)),
        NmSetTmV::Subset(i) => NmSetTmV::Subset(subst_in_idxtm(t, x, i)),
    }
}

/// Substitution in the members of a literal set, member by member.
pub open spec fn subst_in_nmsettms(t: TermV, x: Seq<char>, ts: Seq<NmSetTmV>) -> Seq<NmSetTmV>
    decreases nmsettms_size(ts),
{
    if ts.len() == 0 {
        Seq::empty()
    } else {
        proof {
            lemma_nmsettms_size_unfold(ts);
        }
        subst_in_nmsettms(t, x, ts.drop_last()).push(subst_in_nmsettm(t, x, ts.last()))
    }
}

/// An index term with `t` in the place of the variable `x`. A type is put
/// nowhere; an index term also takes the place of the write scope where `x`
/// is `"@!"`.
pub open spec fn subst_in_idxtm(t: TermV, x: Seq<char>, i: IdxTmV) -> IdxTmV
    decreases idxtm_size(i),
{
    match t {
        TermV::Type(_) => i,
        _ => match i {
            IdxTmV::Var(y) => match t {
                TermV::IdxTm(j) => if x == y {
                    j
                } else {
                    i
                },
                _ => i,
            },
            IdxTmV::WriteScope => match t {
                TermV::IdxTm(j) => if x == idxtm_writescope_var() {
                    j
                } else {
                    i
                },
                _ => i,
            },
            IdxTmV::Sing(n) => IdxTmV::Sing(subst_in_nmtm(t, x, n)),
            IdxTmV::NmTm(n) => IdxTmV::NmTm(subst_in_nmtm(t, x, n)),
            IdxTmV::NmSet(s) => IdxTmV::NmSet(
                NmSetV { cons: s.cons, terms: subst_in_nmsettms(t, x, s.terms) },
            ),
            IdxTmV::Apart(a, b) => IdxTmV::Apart(
                Box::new(subst_in_idxtm(t, x, *a)),
                Box::new(subst_in_idxtm(t, x, *b)),
            ),
            IdxTmV::Union(a, b) => IdxTmV::Union(
                Box::new(subst_in_idxtm(t, x, *a)),
                Box::new(subst_in_idxtm(t, x, *b)),
            ),
            IdxTmV::Bin(a, b) => IdxTmV::Bin(
                Box::new(subst_in_idxtm(t, x, *a)),
                Box::new(subst_in_idxtm(t, x, *b)),
            ),
            IdxTmV::Pair(a, b) => IdxTmV::Pair(
                Box::new(subst_in_idxtm(t, x, *a)),
                Box::new(subst_in_idxtm(t, x, *b)),
            ),
            IdxTmV::App(a, b) => IdxTmV::App(
                Box::new(subst_in_idxtm(t, x, *a)),
                Box::new(subst_in_idxtm(t, x, *b)),
            ),
            IdxTmV::FlatMap(a, b) => IdxTmV::FlatMap(
                Box::new(subst_in_idxtm(t, x, *a)),
                Box::new(subst_in_idxtm(t, x, *b)),
            ),
            IdxTmV::FlatMapStar(a, b) => IdxTmV::FlatMapStar(
                Box::new(subst_in_idxtm(t, x, *a)),
                Box::new(subst_in_idxtm(t, x, *b)),
            ),
            IdxTmV::MapNm(n, a) => IdxTmV::MapNm(
                Box::new(subst_in_nmtm(t, x, *n)),
                Box::new(subst_in_idxtm(t, x, *a)),
            ),
            IdxTmV::MapStar(n, a) => IdxTmV::MapStar(
                Box::new(subst_in_nmtm(t, x, *n)),
                Box::new(subst_in_idxtm(t, x, *a)),
            ),
            IdxTmV::Proj1(a) => IdxTmV::Proj1(Box::new(subst_in_idxtm(t, x, *a))),
            IdxTmV::Proj2(a) => IdxTmV::Proj2(Box::new(subst_in_idxtm(t, x, *a))),
            IdxTmV::Lam(y, g, i1) => if t is IdxTm && x == y {
                i
            } else if fv_term(t).contains(idx_var(y)) {
                let y2 = alpha_vary_spec(y);
                let i2 = subst_in_idxtm(idx_var(y2), y, *i1);
                if idxtm_size(i2) <= idxtm_size(*i1) {
                    IdxTmV::Lam(y2, g, Box::new(subst_in_idxtm(t, x, i2)))
                } else {
                    i
                }
            } else {
                IdxTmV::Lam(y, g, Box::new(subst_in_idxtm(t, x, *i1)))
            },
            _ => i,
        },
    }
}

/// A proposition with `t` in the place of the variable `x`.
pub open spec fn subst_in_prop(t: TermV, x: Seq<char>, p: PropV) -> PropV
    decreases p,
{
    match p {
        PropV::Equiv(i, j, g) => PropV::Equiv(subst_in_idxtm(t, x, i), subst_in_idxtm(t, x, j), g),
        PropV::Apart(i, j, g) => PropV::Apart(subst_in_idxtm(t, x, i), subst_in_idxtm(t, x, j), g),
        PropV::Conj(p1, p2) => PropV::Conj(
            Box::new(subst_in_prop(t, x, *p1)),
            Box::new(subst_in_prop(t, x, *p2)),
        ),
        _ => p,
    }
}

/// An effect with `t` in the place of the variable `x`.
pub open spec fn subst_in_effect(t: TermV, x: Seq<char>, e: EffectV) -> EffectV {
    match e {
        EffectV::WR(i, j) => EffectV::WR(subst_in_idxtm(t, x, i), subst_in_idxtm(t, x, j)),
        EffectV::NoParse(_) => e,
    }
}

/// A type with `t` in the place of the variable `x`.
///
/// A binder of `x` itself, of the sort of `t`, shadows `x`. The binders of
/// index variables give way to the free variables of `t`; those of type
/// variables never do. The effect of a thunk is closed to the two write
/// scope variables. An identifier is dropped where its definition changes.
pub open spec fn subst_in_type(t: TermV, x: Seq<char>, a: TypeV) -> TypeV
    decreases type_size(a),
{
    match a {
        TypeV::Var(y) => match t {
            TermV::Type(b) => if x == y {
                b
            } else {
                a
            },
            _ => a,
        },
        TypeV::IdentDef(_, d) => {
            let d2 = subst_in_type(t, x, *d);
            if d2 != *d {
                d2
            } else {
                a
            }
        },
        TypeV::Sum(a1, a2) => TypeV::Sum(
            Box::new(subst_in_type(t, x, *a1)),
            Box::new(subst_in_type(t, x, *a2)),
        ),
        TypeV::Prod(a1, a2) => TypeV::Prod(
            Box::new(subst_in_type(t, x, *a1)),
            Box::new(subst_in_type(t, x, *a2)),
        ),
        TypeV::TypeApp(a1, a2) => TypeV::TypeApp(
            Box::new(subst_in_type(t, x, *a1)),
            Box::new(subst_in_type(t, x, *a2)),
        ),
        TypeV::Ref(i, a1) => TypeV::Ref(subst_in_idxtm(t, x, i), Box::new(subst_in_type(t, x, *a1))),
        TypeV::Thk(i, ce) => TypeV::Thk(
            subst_in_idxtm(t, x, i),
            if is_writescope_var(x) {
                ce
            } else {
                Box::new(subst_in_ceffect(t, x, *ce))
            },
        ),
        TypeV::IdxApp(a1, i) => TypeV::IdxApp(
            Box::new(subst_in_type(t, x, *a1)),
            subst_in_idxtm(t, x, i),
        ),
        TypeV::Nm(i) => TypeV::Nm(subst_in_idxtm(t, x, i)),
        TypeV::NmFn(n) => TypeV::NmFn(subst_in_nmtm(t, x, n)),
        TypeV::Rec(y, a1) => if t is Type && x == y {
            a
        } else {
            TypeV::Rec(y, Box::new(subst_in_type(t, x, *a1)))
        },
        TypeV::TypeFn(y, k, a1) => if t is Type && x == y {
            a
        } else {
            TypeV::TypeFn(y, k, Box::new(subst_in_type(t, x, *a1)))
        },
        TypeV::IdxFn(y, g, a1) => if t is IdxTm && x == y {
            a
        } else if fv_term(t).contains(idx_var(y)) {
            let y2 = alpha_vary_spec(y);
            let a2 = subst_in_type(idx_var(y2), y, *a1);
            if type_size(a2) <= type_size(*a1) {
                TypeV::IdxFn(y2, g, Box::new(subst_in_type(t, x, a2)))
            } else {
                a
            }
        } else {
            TypeV::IdxFn(y, g, Box::new(subst_in_type(t, x, *a1)))
        },
        TypeV::Exists(y, g, p, a1) => if t is IdxTm && x == y {
            a
        } else if fv_term(t).contains(idx_var(y)) {
            let y2 = alpha_vary_spec(y);
            let a2 = subst_in_type(idx_var(y2), y, *a1);
            let p2 = subst_in_prop(idx_var(y2), y, p);
            if type_size(a2) <= type_size(*a1) {
                TypeV::Exists(y2, g, subst_in_prop(t, x, p2), Box::new(subst_in_type(t, x, a2)))
            } else {
                a
            }
        } else {
            TypeV::Exists(y, g, subst_in_prop(t, x, p), Box::new(subst_in_type(t, x, *a1)))
        },
        _ => a,
    }
}

/// A computation type with `t` in the place of the variable `x`.
pub open spec fn subst_in_ctype(t: TermV, x: Seq<char>, c: CTypeV) -> CTypeV
    decreases ctype_size(c),
{
    match c {
        CTypeV::Lift(a) => CTypeV::Lift(subst_in_type(t, x, a)),
        CTypeV::Arrow(a, ce) => CTypeV::Arrow(
            subst_in_type(t, x, a),
            Box::new(subst_in_ceffect(t, x, *ce)),
        ),
        CTypeV::NoParse(_) => c,
    }
}

/// A computation effect with `t` in the place of the variable `x`. Its
/// binders shadow, and never give way.
pub open spec fn subst_in_ceffect(t: TermV, x: Seq<char>, ce: CEffectV) -> CEffectV
    decreases ceffect_size(ce),
{
    match ce {
        CEffectV::Cons(c, e) => CEffectV::Cons(subst_in_ctype(t, x, c), subst_in_effect(t, x, e)),
        CEffectV::ForallType(y, k, ce1) => if t is Type && x == y {
            ce
        } else {
            CEffectV::ForallType(y, k, Box::new(subst_in_ceffect(t, x, *ce1)))
        },
        CEffectV::ForallIdx(y, g, p, ce1) => if t is IdxTm && x == y {
            ce
        } else {
            CEffectV::ForallIdx(
                y,
                g,
                subst_in_prop(t, x, p),
                Box::new(subst_in_ceffect(t, x, *ce1)),
            )
        },
        CEffectV::NoParse(_) => ce,
    }
}

/// Substitution in a term of any sort.
pub open spec fn subst_in_term(t: TermV, x: Seq<char>, into: TermV) -> TermV {
    match into {
        TermV::NmTm(n) => TermV::NmTm(subst_in_nmtm(t, x, n)),
        TermV::IdxTm(i) => TermV::IdxTm(subst_in_idxtm(t, x, i)),
        TermV::Type(a) => TermV::Type(subst_in_type(t, x, a)),
    }
}

/// Whether the substitution of `t` for `x` in `m` finds, for each binder that
/// it has to rename, a primed name that is not itself free in `t`.
pub open spec fn primes_fresh_nmtm(t: TermV, x: Seq<char>, m: NameTmV) -> bool
    decreases nmtm_size(m),
{
    match t {
        TermV::NmTm(_) => match m {
            NameTmV::App(l, r) => primes_fresh_nmtm(t, x, *l) && primes_fresh_nmtm(t, x, *r),
            NameTmV::Bin(l, r) => primes_fresh_nmtm(t, x, *l) && primes_fresh_nmtm(t, x, *r),
            NameTmV::Lam(y, _, m1) => if x == y {
                true
            } else if fv_term(t).contains(name_var(y)) {
                let y2 = alpha_vary_spec(y);
                let m2 = subst_in_nmtm(name_var(y2), y, *m1);
                &&& !fv_term(t).contains(name_var(y2))
                &&& nmtm_size(m2) <= nmtm_size(*m1)
                &&& primes_fresh_nmtm(t, x, m2)
            } else {
                primes_fresh_nmtm(t, x, *m1)
            },
            _ => true,
        },
        _ => true,
    }
}

/// Whether the substitution of `t` for `x` in a member of a literal set finds a fresh
/// primed name for each binder that it has to rename.
pub open spec fn primes_fresh_nmsettm(t: TermV, x: Seq<char>, tm: NmSetTmV) -> bool
    decreases nmsettm_size(tm),
{
    match tm {
        NmSetTmV::Single(n) => primes_fresh_nmtm(t, x, n),
        NmSetTmV::Subset(i) => primes_fresh_idxtm(t, x, i),
    }
}

/// Whether the substitution of `t` for `x` in the members of a literal set finds a fresh
/// primed name for each binder that it has to rename.
pub open spec fn primes_fresh_nmsettms(t: TermV, x: Seq<char>, ts: Seq<NmSetTmV>) -> bool
    decreases nmsettms_size(ts),
{
    if ts.len() == 0 {
        true
    } else {
        proof {
            lemma_nmsettms_size_unfold(ts);
        }
        primes_fresh_nmsettms(t, x, ts.drop_last()) && primes_fresh_nmsettm(t, x, ts.last())
    }
}

/// Whether the substitution of `t` for `x` in `i` finds, for each binder that
/// it has to rename, a primed name that is not itself free in `t`.
pub open spec fn primes_fresh_idxtm(t: TermV, x: Seq<char>, i: IdxTmV) -> bool
    decreases idxtm_size(i),
{
    match t {
        TermV::Type(_) => true,
        _ => match i {
            IdxTmV::Sing(n) => primes_fresh_nmtm(t, x, n),
            IdxTmV::NmTm(n) => primes_fresh_nmtm(t, x, n),
            IdxTmV::NmSet(s) => primes_fresh_nmsettms(t, x, s.terms),
            IdxTmV::Apart(a, b) => primes_fresh_idxtm(t, x, *a) && primes_fresh_idxtm(t, x, *b),
            IdxTmV::Union(a, b) => primes_fresh_idxtm(t, x, *a) && primes_fresh_idxtm(t, x, *b),
            IdxTmV::Bin(a, b) => primes_fresh_idxtm(t, x, *a) && primes_fresh_idxtm(t, x, *b),
            IdxTmV::Pair(a, b) => primes_fresh_idxtm(t, x, *a) && primes_fresh_idxtm(t, x, *b),
            IdxTmV::App(a, b) => primes_fresh_idxtm(t, x, *a) && primes_fresh_idxtm(t, x, *b),
            IdxTmV::FlatMap(a, b) => primes_fresh_idxtm(t, x, *a) && primes_fresh_idxtm(
                t,
                x,
                *b,
            ),
            IdxTmV::FlatMapStar(a, b) => primes_fresh_idxtm(t, x, *a) && primes_fresh_idxtm(
                t,
                x,
                *b,
            ),
            IdxTmV::MapNm(n, a) => primes_fresh_nmtm(t, x, *n) && primes_fresh_idxtm(t, x, *a),
            IdxTmV::MapStar(n, a) => primes_fresh_nmtm(t, x, *n) && primes_fresh_idxtm(t, x, *a),
            IdxTmV::Proj1(a) => primes_fresh_idxtm(t, x, *a),
            IdxTmV::Proj2(a) => primes_fresh_idxtm(t, x, *a),
            IdxTmV::Lam(y, _, i1) => if t is IdxTm && x == y {
                true
            } else if fv_term(t).contains(idx_var(y)) {
                let y2 = alpha_vary_spec(y);
                let i2 = subst_in_idxtm(idx_var(y2), y, *i1);
                &&& !fv_term(t).contains(idx_var(y2))
                &&& idxtm_size(i2) <= idxtm_size(*i1)
                &&& primes_fresh_idxtm(t, x, i2)
            } else {
                primes_fresh_idxtm(t, x, *i1)
            },
            _ => true,
        },
    }
}

/// Whether the substitution of `t` for `x` in a proposition finds a fresh
/// primed name for each binder that it has to rename.
pub open spec fn primes_fresh_prop(t: TermV, x: Seq<char>, p: PropV) -> bool
    decreases p,
{
    match p {
        PropV::Equiv(i, j, _) => primes_fresh_idxtm(t, x, i) && primes_fresh_idxtm(t, x, j),
        PropV::Apart(i, j, _) => primes_fresh_idxtm(t, x, i) && primes_fresh_idxtm(t, x, j),
        PropV::Conj(p1, p2) => primes_fresh_prop(t, x, *p1) && primes_fresh_prop(t, x, *p2),
        _ => true,
    }
}

/// Whether the substitution of `t` for `x` in an effect finds a fresh
/// primed name for each binder that it has to rename.
pub open spec fn primes_fresh_effect(t: TermV, x: Seq<char>, e: EffectV) -> bool {
    match e {
        EffectV::WR(i, j) => primes_fresh_idxtm(t, x, i) && primes_fresh_idxtm(t, x, j),
        EffectV::NoParse(_) => true,
    }
}

/// Whether the substitution of `t` for `x` in `a` finds, for each binder that
/// it has to rename, a primed name that is not itself free in `t`.
pub open spec fn primes_fresh_type(t: TermV, x: Seq<char>, a: TypeV) -> bool
    decreases type_size(a),
{
    match a {
        TypeV::IdentDef(_, d) => primes_fresh_type(t, x, *d),
        TypeV::Sum(a1, a2) => primes_fresh_type(t, x, *a1) && primes_fresh_type(t, x, *a2),
        TypeV::Prod(a1, a2) => primes_fresh_type(t, x, *a1) && primes_fresh_type(t, x, *a2),
        TypeV::TypeApp(a1, a2) => primes_fresh_type(t, x, *a1) && primes_fresh_type(t, x, *a2),
        TypeV::Ref(i, a1) => primes_fresh_idxtm(t, x, i) && primes_fresh_type(t, x, *a1),
        TypeV::Thk(i, ce) => primes_fresh_idxtm(t, x, i) && (is_writescope_var(x)
            || primes_fresh_ceffect(t, x, *ce)),
        TypeV::IdxApp(a1, i) => primes_fresh_type(t, x, *a1) && primes_fresh_idxtm(t, x, i),
        TypeV::Nm(i) => primes_fresh_idxtm(t, x, i),
        TypeV::NmFn(n) => primes_fresh_nmtm(t, x, n),
        TypeV::Rec(y, a1) => (t is Type && x == y) || primes_fresh_type(t, x, *a1),
        TypeV::TypeFn(y, _, a1) => (t is Type && x == y) || primes_fresh_type(t, x, *a1),
        TypeV::IdxFn(y, _, a1) => if t is IdxTm && x == y {
            true
        } else if fv_term(t).contains(idx_var(y)) {
            let y2 = alpha_vary_spec(y);
            let a2 = subst_in_type(idx_var(y2), y, *a1);
            &&& !fv_term(t).contains(idx_var(y2))
            &&& type_size(a2) <= type_size(*a1)
            &&& primes_fresh_type(t, x, a2)
        } else {
            primes_fresh_type(t, x, *a1)
        },
        TypeV::Exists(y, _, p, a1) => if t is IdxTm && x == y {
            true
        } else if fv_term(t).contains(idx_var(y)) {
            let y2 = alpha_vary_spec(y);
            let a2 = subst_in_type(idx_var(y2), y, *a1);
            let p2 = subst_in_prop(idx_var(y2), y, p);
            &&& !fv_term(t).contains(idx_var(y2))
            &&& type_size(a2) <= type_size(*a1)
            &&& primes_fresh_prop(t, x, p2)
            &&& primes_fresh_type(t, x, a2)
        } else {
            primes_fresh_prop(t, x, p) && primes_fresh_type(t, x, *a1)
        },
        _ => true,
    }
}

/// Whether the substitution of `t` for `x` in a computation type finds a fresh
/// primed name for each binder that it has to rename.
pub open spec fn primes_fresh_ctype(t: TermV, x: Seq<char>, c: CTypeV) -> bool
    decreases ctype_size(c),
{
    match c {
        CTypeV::Lift(a) => primes_fresh_type(t, x, a),
        CTypeV::Arrow(a, ce) => primes_fresh_type(t, x, a) && primes_fresh_ceffect(t, x, *ce),
        CTypeV::NoParse(_) => true,
    }
}

/// Whether the substitution of `t` for `x` in a computation effect finds a fresh
/// primed name for each binder that it has to rename.
pub open spec fn primes_fresh_ceffect(t: TermV, x: Seq<char>, ce: CEffectV) -> bool
    decreases ceffect_size(ce),
{
    match ce {
        CEffectV::Cons(c, e) => primes_fresh_ctype(t, x, c) && primes_fresh_effect(t, x, e),
        CEffectV::ForallType(y, _, ce1) => (t is Type && x == y) || primes_fresh_ceffect(
            t,
            x,
            *ce1,
        ),
        CEffectV::ForallIdx(y, _, p, ce1) => (t is IdxTm && x == y) || (primes_fresh_prop(t, x, p)
            && primes_fresh_ceffect(t, x, *ce1)),
        CEffectV::NoParse(_) => true,
    }
}

} // verus!
