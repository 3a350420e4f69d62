//! Structural equality of terms, decided on the executable trees and stated
//! over their models: two terms are equal when their models are.

use crate::ast::{
    CEffect, CType, Effect, IdxTm, Kind, Name, NameTm, NmSet, NmSetCons, NmSetTm, Prop, Sort, Term,
    Type,
};
use crate::model::{nmset_view, nmsettm_view};
use vstd::prelude::*;
use vstd::std_specs::cmp::PartialEqSpecImpl;

verus! {

/// Whether two name literals have the same model.
pub fn name_eq(a: &Name, b: &Name) -> (r: bool)
    ensures
        r == (a@ == b@),
    decreases a,
{
    match (a, b) {
        (Name::NoParse(s1), Name::NoParse(s2)) => *s1 == *s2,
        (Name::Leaf, Name::Leaf) => true,
        (Name::Sym(s1), Name::Sym(s2)) => *s1 == *s2,
        (Name::Num(k1), Name::Num(k2)) => *k1 == *k2,
        (Name::Bin(l1, r1), Name::Bin(l2, r2)) => name_eq(&**l1, &**l2) && name_eq(&**r1, &**r2),
        _ => false,
    }
}

/// Whether two sorts have the same model.
pub fn sort_eq(a: &Sort, b: &Sort) -> (r: bool)
    ensures
        r == (a@ == b@),
    decreases a,
{
    match (a, b) {
        (Sort::Nm, Sort::Nm) => true,
        (Sort::NmSet, Sort::NmSet) => true,
        (Sort::NmArrow(a1, b1), Sort::NmArrow(a2, b2)) => sort_eq(&**a1, &**a2) && sort_eq(
            &**b1,
            &**b2,
        ),
        (Sort::IdxArrow(a1, b1), Sort::IdxArrow(a2, b2)) => sort_eq(&**a1, &**a2) && sort_eq(
            &**b1,
            &**b2,
        ),
        (Sort::Unit, Sort::Unit) => true,
        (Sort::Prod(a1, b1), Sort::Prod(a2, b2)) => sort_eq(&**a1, &**a2) && sort_eq(&**b1, &**b2),
        (Sort::NoParse(s1), Sort::NoParse(s2)) => *s1 == *s2,
        _ => false,
    }
}

/// Whether two kinds have the same model.
pub fn kind_eq(a: &Kind, b: &Kind) -> (r: bool)
    ensures
        r == (a@ == b@),
    decreases a,
{
    match (a, b) {
        (Kind::Type, Kind::Type) => true,
        (Kind::TypeParam(k1), Kind::TypeParam(k2)) => kind_eq(&**k1, &**k2),
        (Kind::IdxParam(g1, k1), Kind::IdxParam(g2, k2)) => sort_eq(g1, g2) && kind_eq(
            &**k1,
            &**k2,
        ),
        (Kind::NoParse(s1), Kind::NoParse(s2)) => *s1 == *s2,
        _ => false,
    }
}

/// Whether two name terms have the same model.
pub fn nametm_eq(a: &NameTm, b: &NameTm) -> (r: bool)
    ensures
        r == (a@ == b@),
    decreases a,
{
    match (a, b) {
        (NameTm::Var(x1), NameTm::Var(x2)) => *x1 == *x2,
        (NameTm::ValVar(x1), NameTm::ValVar(x2)) => *x1 == *x2,
        (NameTm::Name(n1), NameTm::Name(n2)) => name_eq(n1, n2),
        (NameTm::Bin(l1, r1), NameTm::Bin(l2, r2)) => nametm_eq(&**l1, &**l2) && nametm_eq(
            &**r1,
            &**r2,
        ),
        (NameTm::Lam(x1, g1, m1), NameTm::Lam(x2, g2, m2)) => *x1 == *x2 && sort_eq(g1, g2)
            && nametm_eq(&**m1, &**m2),
        (NameTm::App(l1, r1), NameTm::App(l2, r2)) => nametm_eq(&**l1, &**l2) && nametm_eq(
            &**r1,
            &**r2,
        ),
        (NameTm::WriteScope, NameTm::WriteScope) => true,
        (NameTm::Ident(x1), NameTm::Ident(x2)) => *x1 == *x2,
        (NameTm::NoParse(s1), NameTm::NoParse(s2)) => *s1 == *s2,
        _ => false,
    }
}

fn cons_eq(a: &Option<NmSetCons>, b: &Option<NmSetCons>) -> (r: bool)
    ensures
        r == (*a == *b),
{
    match (a, b) {
        (None, None) => true,
        (Some(NmSetCons::Union), Some(NmSetCons::Union)) => true,
        (Some(NmSetCons::Apart), Some(NmSetCons::Apart)) => true,
        _ => false,
    }
}

/// Whether two members of literal sets have the same model.
pub fn nmsettm_eq(a: &NmSetTm, b: &NmSetTm) -> (r: bool)
    ensures
        r == (a@ == b@),
    decreases a,
{
    match (a, b) {
        (NmSetTm::Single(n1), NmSetTm::Single(n2)) => nametm_eq(n1, n2),
        (NmSetTm::Subset(i1), NmSetTm::Subset(i2)) => idxtm_eq(i1, i2),
        _ => false,
    }
}

/// Whether two literal sets have the same model: the same members in the
/// same order, joined in the same way.
pub fn nmset_eq(a: &NmSet, b: &NmSet) -> (r: bool)
    ensures
        r == (a@ == b@),
    decreases a,
{
    if !cons_eq(&a.cons, &b.cons) {
        return false;
    }
    if a.terms.len() != b.terms.len() {
        assert(nmset_view(*a).terms.len() != nmset_view(*b).terms.len());
        return false;
    }
    let mut k: usize = 0;
    while k < a.terms.len()
        invariant
            k <= a.terms.len(),
            a.terms.len() == b.terms.len(),
            forall|j: int|
                0 <= j < k ==> nmsettm_view(#[trigger] a.terms@[j]) == nmsettm_view(b.terms@[j]),
        decreases a.terms.len() - k,
    {
        if !nmsettm_eq(&a.terms[k], &b.terms[k]) {
            assert(nmset_view(*a).terms[k as int] != nmset_view(*b).terms[k as int]);
            return false;
        }
        k += 1;
    }
    assert(nmset_view(*a).terms =~= nmset_view(*b).terms);
    true
}

/// Whether two index terms have the same model.
pub fn idxtm_eq(a: &IdxTm, b: &IdxTm) -> (r: bool)
    ensures
        r == (a@ == b@),
    decreases a,
{
    match (a, b) {
        (IdxTm::Var(x1), IdxTm::Var(x2)) => *x1 == *x2,
        (IdxTm::Ident(x1), IdxTm::Ident(x2)) => *x1 == *x2,
        (IdxTm::Sing(n1), IdxTm::Sing(n2)) => nametm_eq(n1, n2),
        (IdxTm::Empty, IdxTm::Empty) => true,
        (IdxTm::Apart(a1, b1), IdxTm::Apart(a2, b2)) => idxtm_eq(&**a1, &**a2) && idxtm_eq(
            &**b1,
            &**b2,
        ),
        (IdxTm::Union(a1, b1), IdxTm::Union(a2, b2)) => idxtm_eq(&**a1, &**a2) && idxtm_eq(
            &**b1,
            &**b2,
        ),
        (IdxTm::NmSet(s1), IdxTm::NmSet(s2)) => nmset_eq(s1, s2),
        (IdxTm::Bin(a1, b1), IdxTm::Bin(a2, b2)) => idxtm_eq(&**a1, &**a2) && idxtm_eq(
            &**b1,
            &**b2,
        ),
        (IdxTm::WriteScope, IdxTm::WriteScope) => true,
        (IdxTm::Unit, IdxTm::Unit) => true,
        (IdxTm::Pair(a1, b1), IdxTm::Pair(a2, b2)) => idxtm_eq(&**a1, &**a2) && idxtm_eq(
            &**b1,
            &**b2,
        ),
        (IdxTm::Proj1(a1), IdxTm::Proj1(a2)) => idxtm_eq(&**a1, &**a2),
        (IdxTm::Proj2(a1), IdxTm::Proj2(a2)) => idxtm_eq(&**a1, &**a2),
        (IdxTm::Lam(x1, g1, a1), IdxTm::Lam(x2, g2, a2)) => *x1 == *x2 && sort_eq(g1, g2)
            && idxtm_eq(&**a1, &**a2),
        (IdxTm::App(a1, b1), IdxTm::App(a2, b2)) => idxtm_eq(&**a1, &**a2) && idxtm_eq(
            &**b1,
            &**b2,
        ),
        (IdxTm::MapNm(n1, a1), IdxTm::MapNm(n2, a2)) => nametm_eq(&**n1, &**n2) && idxtm_eq(
            &**a1,
            &**a2,
        ),
        (IdxTm::MapStar(n1, a1), IdxTm::MapStar(n2, a2)) => nametm_eq(&**n1, &**n2) && idxtm_eq(
            &**a1,
            &**a2,
        ),
        (IdxTm::FlatMap(a1, b1), IdxTm::FlatMap(a2, b2)) => idxtm_eq(&**a1, &**a2) && idxtm_eq(
            &**b1,
            &**b2,
        ),
        (IdxTm::FlatMapStar(a1, b1), IdxTm::FlatMapStar(a2, b2)) => idxtm_eq(&**a1, &**a2)
            && idxtm_eq(&**b1, &**b2),
        (IdxTm::NmTm(n1), IdxTm::NmTm(n2)) => nametm_eq(n1, n2),
        (IdxTm::NoParse(s1), IdxTm::NoParse(s2)) => *s1 == *s2,
        (IdxTm::Unknown, IdxTm::Unknown) => true,
        _ => false,
    }
}

/// Whether two propositions have the same model.
pub fn prop_eq(a: &Prop, b: &Prop) -> (r: bool)
    ensures
        r == (a@ == b@),
    decreases a,
{
    match (a, b) {
        (Prop::Tt, Prop::Tt) => true,
        (Prop::Equiv(i1, j1, g1), Prop::Equiv(i2, j2, g2)) => idxtm_eq(i1, i2) && idxtm_eq(j1, j2)
            && sort_eq(g1, g2),
        (Prop::Apart(i1, j1, g1), Prop::Apart(i2, j2, g2)) => idxtm_eq(i1, i2) && idxtm_eq(j1, j2)
            && sort_eq(g1, g2),
        (Prop::Conj(p1, q1), Prop::Conj(p2, q2)) => prop_eq(&**p1, &**p2) && prop_eq(&**q1, &**q2),
        (Prop::NoParse(s1), Prop::NoParse(s2)) => *s1 == *s2,
        _ => false,
    }
}

/// Whether two effects have the same model.
pub fn effect_eq(a: &Effect, b: &Effect) -> (r: bool)
    ensures
        r == (a@ == b@),
{
    match (a, b) {
        (Effect::WR(i1, j1), Effect::WR(i2, j2)) => idxtm_eq(i1, i2) && idxtm_eq(j1, j2),
        (Effect::NoParse(s1), Effect::NoParse(s2)) => *s1 == *s2,
        _ => false,
    }
}

/// Whether two types have the same model.
pub fn type_eq(a: &Type, b: &Type) -> (r: bool)
    ensures
        r == (a@ == b@),
    decreases a,
{
    match (a, b) {
        (Type::Unit, Type::Unit) => true,
        (Type::Var(x1), Type::Var(x2)) => *x1 == *x2,
        (Type::Ident(x1), Type::Ident(x2)) => *x1 == *x2,
        (Type::IdentDef(x1, d1), Type::IdentDef(x2, d2)) => *x1 == *x2 && type_eq(&**d1, &**d2),
        (Type::IdentUndef(x1), Type::IdentUndef(x2)) => *x1 == *x2,
        (Type::Abstract(x1), Type::Abstract(x2)) => *x1 == *x2,
        (Type::Prim(p1), Type::Prim(p2)) => *p1 == *p2,
        (Type::Sum(a1, b1), Type::Sum(a2, b2)) => type_eq(&**a1, &**a2) && type_eq(&**b1, &**b2),
        (Type::Prod(a1, b1), Type::Prod(a2, b2)) => type_eq(&**a1, &**a2) && type_eq(
            &**b1,
            &**b2,
        ),
        (Type::Ref(i1, a1), Type::Ref(i2, a2)) => idxtm_eq(i1, i2) && type_eq(&**a1, &**a2),
        (Type::Thk(i1, c1), Type::Thk(i2, c2)) => idxtm_eq(i1, i2) && ceffect_eq(&**c1, &**c2),
        (Type::IdxApp(a1, i1), Type::IdxApp(a2, i2)) => type_eq(&**a1, &**a2) && idxtm_eq(i1, i2),
        (Type::TypeApp(a1, b1), Type::TypeApp(a2, b2)) => type_eq(&**a1, &**a2) && type_eq(
            &**b1,
            &**b2,
        ),
        (Type::Nm(i1), Type::Nm(i2)) => idxtm_eq(i1, i2),
        (Type::NmFn(n1), Type::NmFn(n2)) => nametm_eq(n1, n2),
        (Type::TypeFn(x1, k1, a1), Type::TypeFn(x2, k2, a2)) => *x1 == *x2 && kind_eq(k1, k2)
            && type_eq(&**a1, &**a2),
        (Type::IdxFn(x1, g1, a1), Type::IdxFn(x2, g2, a2)) => *x1 == *x2 && sort_eq(g1, g2)
            && type_eq(&**a1, &**a2),
        (Type::Rec(x1, a1), Type::Rec(x2, a2)) => *x1 == *x2 && type_eq(&**a1, &**a2),
        (Type::Exists(x1, g1, p1, a1), Type::Exists(x2, g2, p2, a2)) => *x1 == *x2 && sort_eq(
            &**g1,
            &**g2,
        ) && prop_eq(p1, p2) && type_eq(&**a1, &**a2),
        (Type::NoParse(s1), Type::NoParse(s2)) => *s1 == *s2,
        _ => false,
    }
}

/// Whether two computation types have the same model.
pub fn ctype_eq(a: &CType, b: &CType) -> (r: bool)
    ensures
        r == (a@ == b@),
    decreases a,
{
    match (a, b) {
        (CType::Lift(a1), CType::Lift(a2)) => type_eq(a1, a2),
        (CType::Arrow(a1, c1), CType::Arrow(a2, c2)) => type_eq(a1, a2) && ceffect_eq(
            &**c1,
            &**c2,
        ),
        (CType::NoParse(s1), CType::NoParse(s2)) => *s1 == *s2,
        _ => false,
    }
}

/// Whether two computation effects have the same model.
pub fn ceffect_eq(a: &CEffect, b: &CEffect) -> (r: bool)
    ensures
        r == (a@ == b@),
    decreases a,
{
    match (a, b) {
        (CEffect::Cons(c1, e1), CEffect::Cons(c2, e2)) => ctype_eq(c1, c2) && effect_eq(e1, e2),
        (CEffect::ForallType(x1, k1, c1), CEffect::ForallType(x2, k2, c2)) => *x1 == *x2
            && kind_eq(k1, k2) && ceffect_eq(&**c1, &**c2),
        (CEffect::ForallIdx(x1, g1, p1, c1), CEffect::ForallIdx(x2, g2, p2, c2)) => *x1 == *x2
            && sort_eq(g1, g2) && prop_eq(p1, p2) && ceffect_eq(&**c1, &**c2),
        (CEffect::NoParse(s1), CEffect::NoParse(s2)) => *s1 == *s2,
        _ => false,
    }
}

/// Whether two terms are of one sort and have the same model.
pub fn term_eq(a: &Term, b: &Term) -> (r: bool)
    ensures
        r == (a@ == b@),
{
    match (a, b) {
        (Term::NmTm(n1), Term::NmTm(n2)) => nametm_eq(n1, n2),
        (Term::IdxTm(i1), Term::IdxTm(i2)) => idxtm_eq(i1, i2),
        (Term::Type(a1), Term::Type(a2)) => type_eq(a1, a2),
        _ => false,
    }
}

impl PartialEq for Name {
    fn eq(&self, other: &Self) -> (r: bool) {
        name_eq(self, other)
    }
}

impl PartialEqSpecImpl for Name {
    open spec fn obeys_eq_spec() -> bool {
        true
    }

    open spec fn eq_spec(&self, other: &Self) -> bool {
        self@ == other@
    }
}

impl Eq for Name {

}

impl PartialEq for Sort {
    fn eq(&self, other: &Self) -> (r: bool) {
        sort_eq(self, other)
    }
}

impl PartialEqSpecImpl for Sort {
    open spec fn obeys_eq_spec() -> bool {
        true
    }

    open spec fn eq_spec(&self, other: &Self) -> bool {
        self@ == other@
    }
}

impl Eq for Sort {

}

impl PartialEq for Kind {
    fn eq(&self, other: &Self) -> (r: bool) {
        kind_eq(self, other)
    }
}

impl PartialEqSpecImpl for Kind {
    open spec fn obeys_eq_spec() -> bool {
        true
    }

    open spec fn eq_spec(&self, other: &Self) -> bool {
        self@ == other@
    }
}

impl Eq for Kind {

}

impl PartialEq for NameTm {
    fn eq(&self, other: &Self) -> (r: bool) {
        nametm_eq(self, other)
    }
}

impl PartialEqSpecImpl for NameTm {
    open spec fn obeys_eq_spec() -> bool {
        true
    }

    open spec fn eq_spec(&self, other: &Self) -> bool {
        self@ == other@
    }
}

impl Eq for NameTm {

}

impl PartialEq for NmSetTm {
    fn eq(&self, other: &Self) -> (r: bool) {
        nmsettm_eq(self, other)
    }
}

impl PartialEqSpecImpl for NmSetTm {
    open spec fn obeys_eq_spec() -> bool {
        true
    }

    open spec fn eq_spec(&self, other: &Self) -> bool {
        self@ == other@
    }
}

impl Eq for NmSetTm {

}

impl PartialEq for NmSet {
    fn eq(&self, other: &Self) -> (r: bool) {
        nmset_eq(self, other)
    }
}

impl PartialEqSpecImpl for NmSet {
    open spec fn obeys_eq_spec() -> bool {
        true
    }

    open spec fn eq_spec(&self, other: &Self) -> bool {
        self@ == other@
    }
}

impl Eq for NmSet {

}

impl PartialEq for IdxTm {
    fn eq(&self, other: &Self) -> (r: bool) {
        idxtm_eq(self, other)
    }
}

impl PartialEqSpecImpl for IdxTm {
    open spec fn obeys_eq_spec() -> bool {
        true
    }

    open spec fn eq_spec(&self, other: &Self) -> bool {
        self@ == other@
    }
}

impl Eq for IdxTm {

}

impl PartialEq for Prop {
    fn eq(&self, other: &Self) -> (r: bool) {
        prop_eq(self, other)
    }
}

impl PartialEqSpecImpl for Prop {
    open spec fn obeys_eq_spec() -> bool {
        true
    }

    open spec fn eq_spec(&self, other: &Self) -> bool {
        self@ == other@
    }
}

impl Eq for Prop {

}

impl PartialEq for Effect {
    fn eq(&self, other: &Self) -> (r: bool) {
        effect_eq(self, other)
    }
}

impl PartialEqSpecImpl for Effect {
    open spec fn obeys_eq_spec() -> bool {
        true
    }

    open spec fn eq_spec(&self, other: &Self) -> bool {
        self@ == other@
    }
}

impl Eq for Effect {

}

impl PartialEq for Type {
    fn eq(&self, other: &Self) -> (r: bool) {
        type_eq(self, other)
    }
}

impl PartialEqSpecImpl for Type {
    open spec fn obeys_eq_spec() -> bool {
        true
    }

    open spec fn eq_spec(&self, other: &Self) -> bool {
        self@ == other@
    }
}

impl Eq for Type {

}

impl PartialEq for CType {
    fn eq(&self, other: &Self) -> (r: bool) {
        ctype_eq(self, other)
    }
}

impl PartialEqSpecImpl for CType {
    open spec fn obeys_eq_spec() -> bool {
        true
    }

    open spec fn eq_spec(&self, other: &Self) -> bool {
        self@ == other@
    }
}

impl Eq for CType {

}

impl PartialEq for CEffect {
    fn eq(&self, other: &Self) -> (r: bool) {
        ceffect_eq(self, other)
    }
}

impl PartialEqSpecImpl for CEffect {
    open spec fn obeys_eq_spec() -> bool {
        true
    }

    open spec fn eq_spec(&self, other: &Self) -> bool {
        self@ == other@
    }
}

impl Eq for CEffect {

}

impl PartialEq for Term {
    fn eq(&self, other: &Self) -> (r: bool) {
        term_eq(self, other)
    }
}

impl PartialEqSpecImpl for Term {
    open spec fn obeys_eq_spec() -> bool {
        true
    }

    open spec fn eq_spec(&self, other: &Self) -> bool {
        self@ == other@
    }
}

impl Eq for Term {

}

} // verus!
