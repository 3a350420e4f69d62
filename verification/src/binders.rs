//! The variables that a term binds.

use crate::fv_spec::{idx_var, name_var, type_var};
use crate::model::{CEffectV, CTypeV, EffectV, IdxTmV, NameTmV, NmSetTmV, PropV, TermV, TypeV};
use vstd::prelude::*;

verus! {

/// Whether no binder of `n` binds a variable of `vars`.
pub open spec fn binders_apart_nmtm(vars: Seq<TermV>, n: NameTmV) -> bool
    decreases n,
{
    match n {
        NameTmV::Bin(l, r) => binders_apart_nmtm(vars, *l) && binders_apart_nmtm(vars, *r),
        NameTmV::App(l, r) => binders_apart_nmtm(vars, *l) && binders_apart_nmtm(vars, *r),
        NameTmV::Lam(x, _, m) => !vars.contains(name_var(x)) && binders_apart_nmtm(vars, *m),
        _ => true,
    }
}

/// Whether no binder of a member of a literal set binds a variable of `vars`.
pub open spec fn binders_apart_nmsettm(vars: Seq<TermV>, tm: NmSetTmV) -> bool
    decreases tm,
{
    match tm {
        NmSetTmV::Single(n) => binders_apart_nmtm(vars, n),
        NmSetTmV::Subset(i) => binders_apart_idxtm(vars, i),
    }
}

/// Whether no binder of the members of a literal set binds a variable of `vars`.
pub open spec fn binders_apart_nmsettms(vars: Seq<TermV>, ts: Seq<NmSetTmV>) -> bool
    decreases ts,
{
    if ts.len() == 0 {
        true
    } else {
        binders_apart_nmsettms(vars, ts.drop_last()) && binders_apart_nmsettm(vars, ts.last())
    }
}

/// Whether no binder of `i` binds a variable of `vars`.
pub open spec fn binders_apart_idxtm(vars: Seq<TermV>, i: IdxTmV) -> bool
    decreases i,
{
    match i {
        IdxTmV::Sing(n) => binders_apart_nmtm(vars, n),
        IdxTmV::NmTm(n) => binders_apart_nmtm(vars, n),
        IdxTmV::NmSet(s) => binders_apart_nmsettms(vars, s.terms),
        IdxTmV::Apart(a, b) => binders_apart_idxtm(vars, *a) && binders_apart_idxtm(vars, *b),
        IdxTmV::Union(a, b) => binders_apart_idxtm(vars, *a) && binders_apart_idxtm(vars, *b),
        IdxTmV::Bin(a, b) => binders_apart_idxtm(vars, *a) && binders_apart_idxtm(vars, *b),
        IdxTmV::Pair(a, b) => binders_apart_idxtm(vars, *a) && binders_apart_idxtm(vars, *b),
        IdxTmV::App(a, b) => binders_apart_idxtm(vars, *a) && binders_apart_idxtm(vars, *b),
        IdxTmV::FlatMap(a, b) => binders_apart_idxtm(vars, *a) && binders_apart_idxtm(vars, *b),
        IdxTmV::FlatMapStar(a, b) => binders_apart_idxtm(vars, *a) && binders_apart_idxtm(
            vars,
            *b,
        ),
        IdxTmV::MapNm(n, a) => binders_apart_nmtm(vars, *n) && binders_apart_idxtm(vars, *a),
        IdxTmV::MapStar(n, a) => binders_apart_nmtm(vars, *n) && binders_apart_idxtm(vars, *a),
        IdxTmV::Proj1(a) => binders_apart_idxtm(vars, *a),
        IdxTmV::Proj2(a) => binders_apart_idxtm(vars, *a),
        IdxTmV::Lam(x, _, a) => !vars.contains(idx_var(x)) && binders_apart_idxtm(vars, *a),
        _ => true,
    }
}

/// Whether no binder of a proposition binds a variable of `vars`.
pub open spec fn binders_apart_prop(vars: Seq<TermV>, p: PropV) -> bool
    decreases p,
{
    match p {
        PropV::Equiv(i, j, _) => binders_apart_idxtm(vars, i) && binders_apart_idxtm(vars, j),
        PropV::Apart(i, j, _) => binders_apart_idxtm(vars, i) && binders_apart_idxtm(vars, j),
        PropV::Conj(p1, p2) => binders_apart_prop(vars, *p1) && binders_apart_prop(vars, *p2),
        _ => true,
    }
}

/// Whether no binder of an effect binds a variable of `vars`.
pub open spec fn binders_apart_effect(vars: Seq<TermV>, e: EffectV) -> bool {
    match e {
        EffectV::WR(i, j) => binders_apart_idxtm(vars, i) && binders_apart_idxtm(vars, j),
        EffectV::NoParse(_) => true,
    }
}

/// Whether no binder of `a` binds a variable of `vars`.
pub open spec fn binders_apart_type(vars: Seq<TermV>, a: TypeV) -> bool
    decreases a,
{
    match a {
        TypeV::IdentDef(_, d) => binders_apart_type(vars, *d),
        TypeV::Sum(a1, a2) => binders_apart_type(vars, *a1) && binders_apart_type(vars, *a2),
        TypeV::Prod(a1, a2) => binders_apart_type(vars, *a1) && binders_apart_type(vars, *a2),
        TypeV::TypeApp(a1, a2) => binders_apart_type(vars, *a1) && binders_apart_type(vars, *a2),
        TypeV::Ref(i, a1) => binders_apart_idxtm(vars, i) && binders_apart_type(vars, *a1),
        TypeV::Thk(i, ce) => binders_apart_idxtm(vars, i) && binders_apart_ceffect(vars, *ce),
        TypeV::IdxApp(a1, i) => binders_apart_type(vars, *a1) && binders_apart_idxtm(vars, i),
        TypeV::Nm(i) => binders_apart_idxtm(vars, i),
        TypeV::NmFn(n) => binders_apart_nmtm(vars, n),
        TypeV::TypeFn(x, _, a1) => !vars.contains(type_var(x)) && binders_apart_type(vars, *a1),
        TypeV::Rec(x, a1) => !vars.contains(type_var(x)) && binders_apart_type(vars, *a1),
        TypeV::IdxFn(x, _, a1) => !vars.contains(idx_var(x)) && binders_apart_type(vars, *a1),
        TypeV::Exists(x, _, p, a1) => !vars.contains(idx_var(x)) && binders_apart_prop(vars, p)
            && binders_apart_type(vars, *a1),
        _ => true,
    }
}

/// Whether no binder of a computation type binds a variable of `vars`.
pub open spec fn binders_apart_ctype(vars: Seq<TermV>, c: CTypeV) -> bool
    decreases c,
{
    match c {
        CTypeV::Lift(a) => binders_apart_type(vars, a),
        CTypeV::Arrow(a, ce) => binders_apart_type(vars, a) && binders_apart_ceffect(vars, *ce),
        CTypeV::NoParse(_) => true,
    }
}

/// Whether no binder of a computation effect binds a variable of `vars`.
pub open spec fn binders_apart_ceffect(vars: Seq<TermV>, ce: CEffectV) -> bool
    decreases ce,
{
    match ce {
        CEffectV::Cons(c, e) => binders_apart_ctype(vars, c) && binders_apart_effect(vars, e),
        CEffectV::ForallType(x, _, ce1) => !vars.contains(type_var(x)) && binders_apart_ceffect(
            vars,
            *ce1,
        ),
        CEffectV::ForallIdx(x, _, p, ce1) => !vars.contains(idx_var(x)) && binders_apart_prop(
            vars,
            p,
        ) && binders_apart_ceffect(vars, *ce1),
        CEffectV::NoParse(_) => true,
    }
}

/// Whether no binder of a term of any sort binds a variable of `vars`.
pub open spec fn binders_apart_term(vars: Seq<TermV>, t: TermV) -> bool {
    match t {
        TermV::NmTm(n) => binders_apart_nmtm(vars, n),
        TermV::IdxTm(i) => binders_apart_idxtm(vars, i),
        TermV::Type(a) => binders_apart_type(vars, a),
    }
}

} // verus!
