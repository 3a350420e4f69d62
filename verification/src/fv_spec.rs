//! Free variables, as a function of the model of a term.
//!
//! The free variables of a term are listed in the order in which a walk from
//! left to right meets them, once for every free occurrence. A walk carries
//! the variables that the binders above have bound.

use crate::model::{CEffectV, CTypeV, EffectV, IdxTmV, NameTmV, NmSetTmV, PropV, TermV, TypeV};
use vstd::prelude::*;

verus! {

/// The name variable `x`, as a term.
pub open spec fn name_var(x: Seq<char>) -> TermV {
    TermV::NmTm(NameTmV::Var(x))
}

/// The index variable `x`, as a term.
pub open spec fn idx_var(x: Seq<char>) -> TermV {
    TermV::IdxTm(IdxTmV::Var(x))
}

/// The type variable `x`, as a term.
pub open spec fn type_var(x: Seq<char>) -> TermV {
    TermV::Type(TypeV::Var(x))
}

/// Whether `v` is a variable of one of the three sorts.
pub open spec fn is_var(v: TermV) -> bool {
    match v {
        TermV::NmTm(NameTmV::Var(_)) => true,
        TermV::IdxTm(IdxTmV::Var(_)) => true,
        TermV::Type(TypeV::Var(_)) => true,
        _ => false,
    }
}

/// Whether `v` is the write scope of names or the write scope of name sets.
pub open spec fn is_write_scope(v: TermV) -> bool {
    v == TermV::NmTm(NameTmV::WriteScope) || v == TermV::IdxTm(IdxTmV::WriteScope)
}

/// What is left of a list of free variables under a thunk, which binds both
/// write scopes.
pub open spec fn under_thunk(fv: Seq<TermV>) -> Seq<TermV> {
    fv.filter(|v: TermV| !is_write_scope(v))
}

/// The free variables of a name term under the bound variables `bound`. The
/// write scope is free whatever is bound.
pub open spec fn fv_nmtm(n: NameTmV, bound: Seq<TermV>) -> Seq<TermV>
    decreases n,
{
    match n {
        NameTmV::Var(_) | NameTmV::ValVar(_) => if bound.contains(TermV::NmTm(n)) {
            Seq::empty()
        } else {
            seq![TermV::NmTm(n)]
        },
        NameTmV::Name(_) => Seq::empty(),
        NameTmV::Bin(l, r) => fv_nmtm(*l, bound) + fv_nmtm(*r, bound),
        NameTmV::App(l, r) => fv_nmtm(*l, bound) + fv_nmtm(*r, bound),
        NameTmV::Lam(x, _, m) => fv_nmtm(*m, bound.push(name_var(x))),
        NameTmV::WriteScope => seq![TermV::NmTm(NameTmV::WriteScope)],
        NameTmV::Ident(_) => Seq::empty(),
        NameTmV::NoParse(_) => Seq::empty(),
    }
}

/// The free variables of a member of a literal set under the bound variables `bound`.
pub open spec fn fv_nmsettm(t: NmSetTmV, bound: Seq<TermV>) -> Seq<TermV>
    decreases t,
{
    match t {
        NmSetTmV::Single(n) => fv_nmtm(n, bound),
        NmSetTmV::Subset(i) => fv_idxtm(i, bound),
    }
}

/// The free variables of the members of a literal set, member after member.
pub open spec fn fv_nmsettms(ts: Seq<NmSetTmV>, bound: Seq<TermV>) -> Seq<TermV>
    decreases ts,
{
    if ts.len() == 0 {
        Seq::empty()
    } else {
        fv_nmsettms(ts.drop_last(), bound) + fv_nmsettm(ts.last(), bound)
    }
}

/// The free variables of an index term under the bound variables `bound`.
/// The write scope is free whatever is bound.
pub open spec fn fv_idxtm(i: IdxTmV, bound: Seq<TermV>) -> Seq<TermV>
    decreases i,
{
    match i {
        IdxTmV::Var(_) => if bound.contains(TermV::IdxTm(i)) {
            Seq::empty()
        } else {
            seq![TermV::IdxTm(i)]
        },
        IdxTmV::Lam(x, _, a) => fv_idxtm(*a, bound.push(idx_var(x))),
        IdxTmV::WriteScope => seq![TermV::IdxTm(IdxTmV::WriteScope)],
        IdxTmV::Sing(n) => fv_nmtm(n, bound),
        IdxTmV::NmTm(n) => fv_nmtm(n, bound),
        IdxTmV::MapNm(n, a) => fv_nmtm(*n, bound) + fv_idxtm(*a, bound),
        IdxTmV::MapStar(n, a) => fv_nmtm(*n, bound) + fv_idxtm(*a, bound),
        IdxTmV::Proj1(a) => fv_idxtm(*a, bound),
        IdxTmV::Proj2(a) => fv_idxtm(*a, bound),
        IdxTmV::NmSet(s) => fv_nmsettms(s.terms, bound),
        IdxTmV::Apart(a, b) => fv_idxtm(*a, bound) + fv_idxtm(*b, bound),
        IdxTmV::Union(a, b) => fv_idxtm(*a, bound) + fv_idxtm(*b, bound),
        IdxTmV::Bin(a, b) => fv_idxtm(*a, bound) + fv_idxtm(*b, bound),
        IdxTmV::Pair(a, b) => fv_idxtm(*a, bound) + fv_idxtm(*b, bound),
        IdxTmV::App(a, b) => fv_idxtm(*a, bound) + fv_idxtm(*b, bound),
        IdxTmV::FlatMap(a, b) => fv_idxtm(*a, bound) + fv_idxtm(*b, bound),
        IdxTmV::FlatMapStar(a, b) => fv_idxtm(*a, bound) + fv_idxtm(*b, bound),
        IdxTmV::Ident(_) => Seq::empty(),
        IdxTmV::NoParse(_) => Seq::empty(),
        IdxTmV::Unit => Seq::empty(),
        IdxTmV::Empty => Seq::empty(),
        IdxTmV::Unknown => Seq::empty(),
    }
}

/// The free variables of a proposition under the bound variables `bound`.
pub open spec fn fv_prop(p: PropV, bound: Seq<TermV>) -> Seq<TermV>
    decreases p,
{
    match p {
        PropV::Tt => Seq::empty(),
        PropV::Equiv(i, j, _) => fv_idxtm(i, bound) + fv_idxtm(j, bound),
        PropV::Apart(i, j, _) => fv_idxtm(i, bound) + fv_idxtm(j, bound),
        PropV::Conj(p1, p2) => fv_prop(*p1, bound) + fv_prop(*p2, bound),
        PropV::NoParse(_) => Seq::empty(),
    }
}

/// The free variables of an effect under the bound variables `bound`.
pub open spec fn fv_effect(e: EffectV, bound: Seq<TermV>) -> Seq<TermV> {
    match e {
        EffectV::WR(i, j) => fv_idxtm(i, bound) + fv_idxtm(j, bound),
        EffectV::NoParse(_) => Seq::empty(),
    }
}

/// The free variables of a type under the bound variables `bound`. A thunk
/// binds both write scopes in its effect; the definition of an identifier is
/// looked into.
pub open spec fn fv_type(a: TypeV, bound: Seq<TermV>) -> Seq<TermV>
    decreases a,
{
    match a {
        TypeV::Var(_) => if bound.contains(TermV::Type(a)) {
            Seq::empty()
        } else {
            seq![TermV::Type(a)]
        },
        TypeV::IdentDef(_, d) => fv_type(*d, bound),
        TypeV::Sum(a1, a2) => fv_type(*a1, bound) + fv_type(*a2, bound),
        TypeV::Prod(a1, a2) => fv_type(*a1, bound) + fv_type(*a2, bound),
        TypeV::TypeApp(a1, a2) => fv_type(*a1, bound) + fv_type(*a2, bound),
        TypeV::Ref(i, a1) => fv_idxtm(i, bound) + fv_type(*a1, bound),
        TypeV::Thk(i, ce) => fv_idxtm(i, bound) + under_thunk(fv_ceffect(*ce, bound)),
        TypeV::IdxApp(a1, i) => fv_type(*a1, bound) + fv_idxtm(i, bound),
        TypeV::Nm(i) => fv_idxtm(i, bound),
        TypeV::NmFn(n) => fv_nmtm(n, bound),
        TypeV::TypeFn(x, _, a1) => fv_type(*a1, bound.push(type_var(x))),
        TypeV::Rec(x, a1) => fv_type(*a1, bound.push(type_var(x))),
        TypeV::IdxFn(x, _, a1) => fv_type(*a1, bound.push(idx_var(x))),
        TypeV::Exists(x, _, p, a1) => fv_prop(p, bound.push(idx_var(x))) + fv_type(
            *a1,
            bound.push(idx_var(x)),
        ),
        TypeV::Unit => Seq::empty(),
        TypeV::Ident(_) => Seq::empty(),
        TypeV::IdentUndef(_) => Seq::empty(),
        TypeV::Abstract(_) => Seq::empty(),
        TypeV::Prim(_) => Seq::empty(),
        TypeV::NoParse(_) => Seq::empty(),
    }
}

/// The free variables of a computation type under the bound variables `bound`.
pub open spec fn fv_ctype(c: CTypeV, bound: Seq<TermV>) -> Seq<TermV>
    decreases c,
{
    match c {
        CTypeV::Lift(a) => fv_type(a, bound),
        CTypeV::Arrow(a, ce) => fv_type(a, bound) + fv_ceffect(*ce, bound),
        CTypeV::NoParse(_) => Seq::empty(),
    }
}

/// The free variables of a computation effect under the bound variables `bound`.
pub open spec fn fv_ceffect(ce: CEffectV, bound: Seq<TermV>) -> Seq<TermV>
    decreases ce,
{
    match ce {
        CEffectV::Cons(c, e) => fv_ctype(c, bound) + fv_effect(e, bound),
        CEffectV::ForallType(x, _, ce1) => fv_ceffect(*ce1, bound.push(type_var(x))),
        CEffectV::ForallIdx(x, _, p, ce1) => fv_prop(p, bound.push(idx_var(x))) + fv_ceffect(
            *ce1,
            bound.push(idx_var(x)),
        ),
        CEffectV::NoParse(_) => Seq::empty(),
    }
}

/// The free variables of a term of any sort, with nothing bound.
pub open spec fn fv_term(t: TermV) -> Seq<TermV> {
    match t {
        TermV::NmTm(n) => fv_nmtm(n, Seq::empty()),
        TermV::IdxTm(i) => fv_idxtm(i, Seq::empty()),
        TermV::Type(a) => fv_type(a, Seq::empty()),
    }
}

} // verus!
