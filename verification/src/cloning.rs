//! `Clone` for the term algebra. A clone shares every sub-term that sits
//! behind an `Rc`, so it costs no more than the node itself and the index
//! and name terms that the node holds directly.

use crate::ast::{
    CEffect, CType, Effect, IdxTm, Kind, Name, NameTm, NmSet, NmSetTm, Prop, Sort, Term, Type,
};
use crate::model::{nmset_view, nmsettm_view};
use std::rc::Rc;
use vstd::prelude::*;

verus! {

/// `Rc::clone`: a second handle on the same shared value. The contract says
/// that the new handle points to a value equal to the one behind `r`.
#[verifier::external_body]
pub(crate) fn share<T>(r: &Rc<T>) -> (res: Rc<T>)
    ensures
        res == *r,
{
    Rc::clone(r)
}

impl Clone for Name {
    fn clone(&self) -> (r: Self)
        ensures
            r@ == self@,
    {
        match self {
            Name::NoParse(s) => Name::NoParse(s.clone()),
            Name::Leaf => Name::Leaf,
            Name::Sym(s) => Name::Sym(s.clone()),
            Name::Num(k) => Name::Num(*k),
            Name::Bin(l, r) => Name::Bin(share(l), share(r)),
        }
    }
}

impl Clone for Sort {
    fn clone(&self) -> (r: Self)
        ensures
            r@ == self@,
    {
        match self {
            Sort::Nm => Sort::Nm,
            Sort::NmSet => Sort::NmSet,
            Sort::NmArrow(a, b) => Sort::NmArrow(share(a), share(b)),
            Sort::IdxArrow(a, b) => Sort::IdxArrow(share(a), share(b)),
            Sort::Unit => Sort::Unit,
            Sort::Prod(a, b) => Sort::Prod(share(a), share(b)),
            Sort::NoParse(s) => Sort::NoParse(s.clone()),
        }
    }
}

impl Clone for Kind {
    fn clone(&self) -> (r: Self)
        ensures
            r@ == self@,
    {
        match self {
            Kind::Type => Kind::Type,
            Kind::TypeParam(k) => Kind::TypeParam(share(k)),
            Kind::IdxParam(g, k) => Kind::IdxParam(g.clone(), share(k)),
            Kind::NoParse(s) => Kind::NoParse(s.clone()),
        }
    }
}

impl Clone for NameTm {
    fn clone(&self) -> (r: Self)
        ensures
            r@ == self@,
    {
        match self {
            NameTm::Var(x) => NameTm::Var(x.clone()),
            NameTm::ValVar(x) => NameTm::ValVar(x.clone()),
            NameTm::Name(n) => NameTm::Name(n.clone()),
            NameTm::Bin(l, r) => NameTm::Bin(share(l), share(r)),
            NameTm::Lam(x, g, m) => NameTm::Lam(x.clone(), g.clone(), share(m)),
            NameTm::App(l, r) => NameTm::App(share(l), share(r)),
            NameTm::WriteScope => NameTm::WriteScope,
            NameTm::Ident(x) => NameTm::Ident(x.clone()),
            NameTm::NoParse(s) => NameTm::NoParse(s.clone()),
        }
    }
}

/// A copy of one member of a literal name set.
pub fn clone_nmsettm(t: &NmSetTm) -> (r: NmSetTm)
    ensures
        r@ == t@,
    decreases t,
{
    match t {
        NmSetTm::Single(n) => NmSetTm::Single(n.clone()),
        NmSetTm::Subset(i) => NmSetTm::Subset(clone_idxtm(i)),
    }
}

/// A copy of a literal name set, member by member.
pub fn clone_nmset(s: &NmSet) -> (r: NmSet)
    ensures
        r@ == s@,
    decreases s,
{
    let mut terms: Vec<NmSetTm> = Vec::new();
    let mut k: usize = 0;
    while k < s.terms.len()
        invariant
            k <= s.terms.len(),
            terms.len() == k,
            forall|j: int| 0 <= j < k ==> nmsettm_view(#[trigger] terms@[j]) == nmsettm_view(s.terms@[j]),
        decreases s.terms.len() - k,
    {
        let t = clone_nmsettm(&s.terms[k]);
        terms.push(t);
        k += 1;
    }
    let r = NmSet { cons: s.cons, terms };
    assert(nmset_view(r).terms =~= nmset_view(*s).terms);
    r
}

/// A copy of an index term. Only a literal set is copied in depth; every
/// other sub-term is shared.
pub fn clone_idxtm(i: &IdxTm) -> (r: IdxTm)
    ensures
        r@ == i@,
    decreases i,
{
    match i {
        IdxTm::Var(x) => IdxTm::Var(x.clone()),
        IdxTm::Ident(x) => IdxTm::Ident(x.clone()),
        IdxTm::Sing(n) => IdxTm::Sing(n.clone()),
        IdxTm::Empty => IdxTm::Empty,
        IdxTm::Apart(a, b) => IdxTm::Apart(share(a), share(b)),
        IdxTm::Union(a, b) => IdxTm::Union(share(a), share(b)),
        IdxTm::NmSet(s) => IdxTm::NmSet(clone_nmset(s)),
        IdxTm::Bin(a, b) => IdxTm::Bin(share(a), share(b)),
        IdxTm::WriteScope => IdxTm::WriteScope,
        IdxTm::Unit => IdxTm::Unit,
        IdxTm::Pair(a, b) => IdxTm::Pair(share(a), share(b)),
        IdxTm::Proj1(a) => IdxTm::Proj1(share(a)),
        IdxTm::Proj2(a) => IdxTm::Proj2(share(a)),
        IdxTm::Lam(x, g, a) => IdxTm::Lam(x.clone(), g.clone(), share(a)),
        IdxTm::App(a, b) => IdxTm::App(share(a), share(b)),
        IdxTm::MapNm(n, a) => IdxTm::MapNm(share(n), share(a)),
        IdxTm::MapStar(n, a) => IdxTm::MapStar(share(n), share(a)),
        IdxTm::FlatMap(a, b) => IdxTm::FlatMap(share(a), share(b)),
        IdxTm::FlatMapStar(a, b) => IdxTm::FlatMapStar(share(a), share(b)),
        IdxTm::NmTm(n) => IdxTm::NmTm(n.clone()),
        IdxTm::NoParse(s) => IdxTm::NoParse(s.clone()),
        IdxTm::Unknown => IdxTm::Unknown,
    }
}

impl Clone for NmSetTm {
    fn clone(&self) -> (r: Self)
        ensures
            r@ == self@,
    {
        clone_nmsettm(self)
    }
}

impl Clone for NmSet {
    fn clone(&self) -> (r: Self)
        ensures
            r@ == self@,
    {
        clone_nmset(self)
    }
}

impl Clone for IdxTm {
    fn clone(&self) -> (r: Self)
        ensures
            r@ == self@,
    {
        clone_idxtm(self)
    }
}

impl Clone for Prop {
    fn clone(&self) -> (r: Self)
        ensures
            r@ == self@,
    {
        match self {
            Prop::Tt => Prop::Tt,
            Prop::Equiv(i, j, g) => Prop::Equiv(i.clone(), j.clone(), g.clone()),
            Prop::Apart(i, j, g) => Prop::Apart(i.clone(), j.clone(), g.clone()),
            Prop::Conj(p, q) => Prop::Conj(share(p), share(q)),
            Prop::NoParse(s) => Prop::NoParse(s.clone()),
        }
    }
}

impl Clone for Effect {
    fn clone(&self) -> (r: Self)
        ensures
            r@ == self@,
    {
        match self {
            Effect::WR(i, j) => Effect::WR(i.clone(), j.clone()),
            Effect::NoParse(s) => Effect::NoParse(s.clone()),
        }
    }
}

impl Clone for Type {
    fn clone(&self) -> (r: Self)
        ensures
            r@ == self@,
    {
        match self {
            Type::Unit => Type::Unit,
            Type::Var(x) => Type::Var(x.clone()),
            Type::Ident(x) => Type::Ident(x.clone()),
            Type::IdentDef(x, d) => Type::IdentDef(x.clone(), share(d)),
            Type::IdentUndef(x) => Type::IdentUndef(x.clone()),
            Type::Abstract(x) => Type::Abstract(x.clone()),
            Type::Prim(p) => Type::Prim(*p),
            Type::Sum(a, b) => Type::Sum(share(a), share(b)),
            Type::Prod(a, b) => Type::Prod(share(a), share(b)),
            Type::Ref(i, a) => Type::Ref(i.clone(), share(a)),
            Type::Thk(i, ce) => Type::Thk(i.clone(), share(ce)),
            Type::IdxApp(a, i) => Type::IdxApp(share(a), i.clone()),
            Type::TypeApp(a, b) => Type::TypeApp(share(a), share(b)),
            Type::Nm(i) => Type::Nm(i.clone()),
            Type::NmFn(n) => Type::NmFn(n.clone()),
            Type::TypeFn(x, k, a) => Type::TypeFn(x.clone(), k.clone(), share(a)),
            Type::IdxFn(x, g, a) => Type::IdxFn(x.clone(), g.clone(), share(a)),
            Type::Rec(x, a) => Type::Rec(x.clone(), share(a)),
            Type::Exists(x, g, p, a) => Type::Exists(x.clone(), share(g), p.clone(), share(a)),
            Type::NoParse(s) => Type::NoParse(s.clone()),
        }
    }
}

impl Clone for CType {
    fn clone(&self) -> (r: Self)
        ensures
            r@ == self@,
    {
        match self {
            CType::Lift(a) => CType::Lift(a.clone()),
            CType::Arrow(a, ce) => CType::Arrow(a.clone(), share(ce)),
            CType::NoParse(s) => CType::NoParse(s.clone()),
        }
    }
}

impl Clone for CEffect {
    fn clone(&self) -> (r: Self)
        ensures
            r@ == self@,
    {
        match self {
            CEffect::Cons(c, e) => CEffect::Cons(c.clone(), e.clone()),
            CEffect::ForallType(x, k, ce) => CEffect::ForallType(x.clone(), k.clone(), share(ce)),
            CEffect::ForallIdx(x, g, p, ce) => CEffect::ForallIdx(
                x.clone(),
                g.clone(),
                p.clone(),
                share(ce),
            ),
            CEffect::NoParse(s) => CEffect::NoParse(s.clone()),
        }
    }
}

impl Clone for Term {
    fn clone(&self) -> (r: Self)
        ensures
            r@ == self@,
    {
        match self {
            Term::NmTm(n) => Term::NmTm(n.clone()),
            Term::IdxTm(i) => Term::IdxTm(i.clone()),
            Term::Type(a) => Term::Type(a.clone()),
        }
    }
}

} // verus!
