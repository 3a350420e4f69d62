//! The number of nodes of a term. Substitution recurs on a body that it has
//! first renamed, which is no sub-term of its argument; the node count is
//! the measure that this recursion decreases.

use crate::model::{CEffectV, CTypeV, EffectV, IdxTmV, NameTmV, NmSetTmV, PropV, TypeV};
use vstd::prelude::*;

verus! {

/// The number of nodes of a name term.
pub open spec fn nmtm_size(n: NameTmV) -> nat
    decreases n,
{
    match n {
        NameTmV::Bin(l, r) => 1 + nmtm_size(*l) + nmtm_size(*r),
        NameTmV::App(l, r) => 1 + nmtm_size(*l) + nmtm_size(*r),
        NameTmV::Lam(_, _, m) => 1 + nmtm_size(*m),
        _ => 1,
    }
}

/// The number of nodes of a member of a literal set.
pub open spec fn nmsettm_size(t: NmSetTmV) -> nat
    decreases t,
{
    match t {
        NmSetTmV::Single(n) => 1 + nmtm_size(n),
        NmSetTmV::Subset(i) => 1 + idxtm_size(i),
    }
}

/// The nodes of the members of a literal set, all together, and one for the
/// list itself.
pub open spec fn nmsettms_size(ts: Seq<NmSetTmV>) -> nat
    decreases ts,
{
    if ts.len() == 0 {
        1
    } else {
        nmsettms_size(ts.drop_last()) + nmsettm_size(ts.last())
    }
}

/// A literal set with a member is larger than the set without its last
/// member, and larger than that member.
pub proof fn lemma_nmsettms_size_unfold(ts: Seq<NmSetTmV>)
    requires
        ts.len() > 0,
    ensures
        nmsettms_size(ts) == nmsettms_size(ts.drop_last()) + nmsettm_size(ts.last()),
        nmsettms_size(ts.drop_last()) < nmsettms_size(ts),
        nmsettm_size(ts.last()) < nmsettms_size(ts),
    decreases ts.len(),
{
    match ts.last() {
        NmSetTmV::Single(_) => {},
        NmSetTmV::Subset(_) => {},
    }
    if ts.len() > 1 {
        lemma_nmsettms_size_unfold(ts.drop_last());
    }
}

/// A literal set is larger than each of its members.
pub proof fn lemma_nmsettms_size_member(ts: Seq<NmSetTmV>, k: int)
    requires
        0 <= k < ts.len(),
    ensures
        nmsettm_size(ts[k]) < nmsettms_size(ts),
    decreases ts.len(),
{
    lemma_nmsettms_size_unfold(ts);
    if k < ts.len() - 1 {
        lemma_nmsettms_size_member(ts.drop_last(), k);
    }
}

/// The number of nodes of an index term.
pub open spec fn idxtm_size(i: IdxTmV) -> nat
    decreases i,
{
    match i {
        IdxTmV::Sing(n) => 1 + nmtm_size(n),
        IdxTmV::NmTm(n) => 1 + nmtm_size(n),
        IdxTmV::NmSet(s) => 1 + nmsettms_size(s.terms),
        IdxTmV::Apart(a, b) => 1 + idxtm_size(*a) + idxtm_size(*b),
        IdxTmV::Union(a, b) => 1 + idxtm_size(*a) + idxtm_size(*b),
        IdxTmV::Bin(a, b) => 1 + idxtm_size(*a) + idxtm_size(*b),
        IdxTmV::Pair(a, b) => 1 + idxtm_size(*a) + idxtm_size(*b),
        IdxTmV::App(a, b) => 1 + idxtm_size(*a) + idxtm_size(*b),
        IdxTmV::FlatMap(a, b) => 1 + idxtm_size(*a) + idxtm_size(*b),
        IdxTmV::FlatMapStar(a, b) => 1 + idxtm_size(*a) + idxtm_size(*b),
        IdxTmV::MapNm(n, a) => 1 + nmtm_size(*n) + idxtm_size(*a),
        IdxTmV::MapStar(n, a) => 1 + nmtm_size(*n) + idxtm_size(*a),
        IdxTmV::Proj1(a) => 1 + idxtm_size(*a),
        IdxTmV::Proj2(a) => 1 + idxtm_size(*a),
        IdxTmV::Lam(_, _, a) => 1 + idxtm_size(*a),
        _ => 1,
    }
}

/// The number of nodes of a proposition.
pub open spec fn prop_size(p: PropV) -> nat
    decreases p,
{
    match p {
        PropV::Equiv(i, j, _) => 1 + idxtm_size(i) + idxtm_size(j),
        PropV::Apart(i, j, _) => 1 + idxtm_size(i) + idxtm_size(j),
        PropV::Conj(p1, p2) => 1 + prop_size(*p1) + prop_size(*p2),
        _ => 1,
    }
}

/// The number of nodes of an effect.
pub open spec fn effect_size(e: EffectV) -> nat {
    match e {
        EffectV::WR(i, j) => 1 + idxtm_size(i) + idxtm_size(j),
        EffectV::NoParse(_) => 1,
    }
}

/// The number of nodes of a type.
pub open spec fn type_size(a: TypeV) -> nat
    decreases a,
{
    match a {
        TypeV::IdentDef(_, d) => 1 + type_size(*d),
        TypeV::Sum(a1, a2) => 1 + type_size(*a1) + type_size(*a2),
        TypeV::Prod(a1, a2) => 1 + type_size(*a1) + type_size(*a2),
        TypeV::TypeApp(a1, a2) => 1 + type_size(*a1) + type_size(*a2),
        TypeV::Ref(i, a1) => 1 + idxtm_size(i) + type_size(*a1),
        TypeV::Thk(i, ce) => 1 + idxtm_size(i) + ceffect_size(*ce),
        TypeV::IdxApp(a1, i) => 1 + type_size(*a1) + idxtm_size(i),
        TypeV::Nm(i) => 1 + idxtm_size(i),
        TypeV::NmFn(n) => 1 + nmtm_size(n),
        TypeV::TypeFn(_, _, a1) => 1 + type_size(*a1),
        TypeV::IdxFn(_, _, a1) => 1 + type_size(*a1),
        TypeV::Rec(_, a1) => 1 + type_size(*a1),
        TypeV::Exists(_, _, p, a1) => 1 + prop_size(p) + type_size(*a1),
        _ => 1,
    }
}

/// The number of nodes of a computation type.
pub open spec fn ctype_size(c: CTypeV) -> nat
    decreases c,
{
    match c {
        CTypeV::Lift(a) => 1 + type_size(a),
        CTypeV::Arrow(a, ce) => 1 + type_size(a) + ceffect_size(*ce),
        CTypeV::NoParse(_) => 1,
    }
}

/// The number of nodes of a computation effect.
pub open spec fn ceffect_size(ce: CEffectV) -> nat
    decreases ce,
{
    match ce {
        CEffectV::Cons(c, e) => 1 + ctype_size(c) + effect_size(e),
        CEffectV::ForallType(_, _, ce1) => 1 + ceffect_size(*ce1),
        CEffectV::ForallIdx(_, _, p, ce1) => 1 + prop_size(p) + ceffect_size(*ce1),
        CEffectV::NoParse(_) => 1,
    }
}

} // verus!
