//! The mathematical model of the term algebra.
//!
//! Each executable term type has a ghost counterpart here, with strings as
//! sequences of characters and collections as sequences. Contracts speak of
//! these values; the `view` of an executable term is its counterpart.

use crate::ast::{
    CEffect, CType, Effect, IdxTm, Kind, Name, NameTm, NmSet, NmSetCons, NmSetTm, PrimType, Prop,
    Sort, Term, Type,
};
use vstd::prelude::*;

verus! {

/// The model of `Name`.
pub enum NameV {
    NoParse(Seq<char>),
    Leaf,
    Sym(Seq<char>),
    Num(usize),
    Bin(Box<NameV>, Box<NameV>),
}

/// The model of `Sort`.
pub enum SortV {
    Nm,
    NmSet,
    NmArrow(Box<SortV>, Box<SortV>),
    IdxArrow(Box<SortV>, Box<SortV>),
    Unit,
    Prod(Box<SortV>, Box<SortV>),
    NoParse(Seq<char>),
}

/// The model of `Kind`.
pub enum KindV {
    Type,
    TypeParam(Box<KindV>),
    IdxParam(SortV, Box<KindV>),
    NoParse(Seq<char>),
}

/// The model of `NameTm`.
pub enum NameTmV {
    Var(Seq<char>),
    ValVar(Seq<char>),
    Name(NameV),
    Bin(Box<NameTmV>, Box<NameTmV>),
    Lam(Seq<char>, SortV, Box<NameTmV>),
    App(Box<NameTmV>, Box<NameTmV>),
    WriteScope,
    Ident(Seq<char>),
    NoParse(Seq<char>),
}

/// The model of `NmSetTm`.
pub enum NmSetTmV {
    Single(NameTmV),
    Subset(IdxTmV),
}

/// The model of `NmSet`.
pub struct NmSetV {
    pub cons: Option<NmSetCons>,
    pub terms: Seq<NmSetTmV>,
}

/// The model of `IdxTm`.
pub enum IdxTmV {
    Var(Seq<char>),
    Ident(Seq<char>),
    Sing(NameTmV),
    Empty,
    Apart(Box<IdxTmV>, Box<IdxTmV>),
    Union(Box<IdxTmV>, Box<IdxTmV>),
    NmSet(NmSetV),
    Bin(Box<IdxTmV>, Box<IdxTmV>),
    WriteScope,
    Unit,
    Pair(Box<IdxTmV>, Box<IdxTmV>),
    Proj1(Box<IdxTmV>),
    Proj2(Box<IdxTmV>),
    Lam(Seq<char>, SortV, Box<IdxTmV>),
    App(Box<IdxTmV>, Box<IdxTmV>),
    MapNm(Box<NameTmV>, Box<IdxTmV>),
    MapStar(Box<NameTmV>, Box<IdxTmV>),
    FlatMap(Box<IdxTmV>, Box<IdxTmV>),
    FlatMapStar(Box<IdxTmV>, Box<IdxTmV>),
    NmTm(NameTmV),
    NoParse(Seq<char>),
    Unknown,
}

/// The model of `Prop`.
pub enum PropV {
    Tt,
    Equiv(IdxTmV, IdxTmV, SortV),
    Apart(IdxTmV, IdxTmV, SortV),
    Conj(Box<PropV>, Box<PropV>),
    NoParse(Seq<char>),
}

/// The model of `Effect`.
pub enum EffectV {
    WR(IdxTmV, IdxTmV),
    NoParse(Seq<char>),
}

/// The model of `Type`.
pub enum TypeV {
    Unit,
    Var(Seq<char>),
    Ident(Seq<char>),
    IdentDef(Seq<char>, Box<TypeV>),
    IdentUndef(Seq<char>),
    Abstract(Seq<char>),
    Prim(PrimType),
    Sum(Box<TypeV>, Box<TypeV>),
    Prod(Box<TypeV>, Box<TypeV>),
    Ref(IdxTmV, Box<TypeV>),
    Thk(IdxTmV, Box<CEffectV>),
    IdxApp(Box<TypeV>, IdxTmV),
    TypeApp(Box<TypeV>, Box<TypeV>),
    Nm(IdxTmV),
    NmFn(NameTmV),
    TypeFn(Seq<char>, KindV, Box<TypeV>),
    IdxFn(Seq<char>, SortV, Box<TypeV>),
    Rec(Seq<char>, Box<TypeV>),
    Exists(Seq<char>, SortV, PropV, Box<TypeV>),
    NoParse(Seq<char>),
}

/// The model of `CType`.
pub enum CTypeV {
    Lift(TypeV),
    Arrow(TypeV, Box<CEffectV>),
    NoParse(Seq<char>),
}

/// The model of `CEffect`.
pub enum CEffectV {
    Cons(CTypeV, EffectV),
    ForallType(Seq<char>, KindV, Box<CEffectV>),
    ForallIdx(Seq<char>, SortV, PropV, Box<CEffectV>),
    NoParse(Seq<char>),
}

/// The model of `Term`.
pub enum TermV {
    NmTm(NameTmV),
    IdxTm(IdxTmV),
    Type(TypeV),
}

/// The model of a name literal.
pub open spec fn name_view(n: Name) -> NameV
    decreases n,
{
    match n {
        Name::NoParse(s) => NameV::NoParse(s@),
        Name::Leaf => NameV::Leaf,
        Name::Sym(s) => NameV::Sym(s@),
        Name::Num(k) => NameV::Num(k),
        Name::Bin(l, r) => NameV::Bin(Box::new(name_view(*l)), Box::new(name_view(*r))),
    }
}

/// The model of a sort.
pub open spec fn sort_view(g: Sort) -> SortV
    decreases g,
{
    match g {
        Sort::Nm => SortV::Nm,
        Sort::NmSet => SortV::NmSet,
        Sort::NmArrow(a, b) => SortV::NmArrow(Box::new(sort_view(*a)), Box::new(sort_view(*b))),
        Sort::IdxArrow(a, b) => SortV::IdxArrow(Box::new(sort_view(*a)), Box::new(sort_view(*b))),
        Sort::Unit => SortV::Unit,
        Sort::Prod(a, b) => SortV::Prod(Box::new(sort_view(*a)), Box::new(sort_view(*b))),
        Sort::NoParse(s) => SortV::NoParse(s@),
    }
}

/// The model of a kind.
pub open spec fn kind_view(k: Kind) -> KindV
    decreases k,
{
    match k {
        Kind::Type => KindV::Type,
        Kind::TypeParam(k1) => KindV::TypeParam(Box::new(kind_view(*k1))),
        Kind::IdxParam(g, k1) => KindV::IdxParam(sort_view(g), Box::new(kind_view(*k1))),
        Kind::NoParse(s) => KindV::NoParse(s@),
    }
}

/// The model of a name term.
pub open spec fn nametm_view(n: NameTm) -> NameTmV
    decreases n,
{
    match n {
        NameTm::Var(x) => NameTmV::Var(x@),
        NameTm::ValVar(x) => NameTmV::ValVar(x@),
        NameTm::Name(m) => NameTmV::Name(name_view(m)),
        NameTm::Bin(l, r) => NameTmV::Bin(Box::new(nametm_view(*l)), Box::new(nametm_view(*r))),
        NameTm::Lam(x, g, m) => NameTmV::Lam(x@, sort_view(g), Box::new(nametm_view(*m))),
        NameTm::App(l, r) => NameTmV::App(Box::new(nametm_view(*l)), Box::new(nametm_view(*r))),
        NameTm::WriteScope => NameTmV::WriteScope,
        NameTm::Ident(x) => NameTmV::Ident(x@),
        NameTm::NoParse(s) => NameTmV::NoParse(s@),
    }
}

/// The model of a member of a literal set.
pub open spec fn nmsettm_view(t: NmSetTm) -> NmSetTmV
    decreases t,
{
    match t {
        NmSetTm::Single(n) => NmSetTmV::Single(nametm_view(n)),
        NmSetTm::Subset(i) => NmSetTmV::Subset(idxtm_view(i)),
    }
}

/// The model of a literal set.
pub open spec fn nmset_view(s: NmSet) -> NmSetV
    decreases s,
{
    NmSetV {
        cons: s.cons,
        terms: Seq::new(
            s.terms@.len(),
            |k: int|
                if 0 <= k < s.terms@.len() {
                    nmsettm_view(s.terms@[k])
                } else {
                    arbitrary()
                },
        ),
    }
}

/// The model of an index term.
pub open spec fn idxtm_view(i: IdxTm) -> IdxTmV
    decreases i,
{
    match i {
        IdxTm::Var(x) => IdxTmV::Var(x@),
        IdxTm::Ident(x) => IdxTmV::Ident(x@),
        IdxTm::Sing(n) => IdxTmV::Sing(nametm_view(n)),
        IdxTm::Empty => IdxTmV::Empty,
        IdxTm::Apart(a, b) => IdxTmV::Apart(Box::new(idxtm_view(*a)), Box::new(idxtm_view(*b))),
        IdxTm::Union(a, b) => IdxTmV::Union(Box::new(idxtm_view(*a)), Box::new(idxtm_view(*b))),
        IdxTm::NmSet(s) => IdxTmV::NmSet(nmset_view(s)),
        IdxTm::Bin(a, b) => IdxTmV::Bin(Box::new(idxtm_view(*a)), Box::new(idxtm_view(*b))),
        IdxTm::WriteScope => IdxTmV::WriteScope,
        IdxTm::Unit => IdxTmV::Unit,
        IdxTm::Pair(a, b) => IdxTmV::Pair(Box::new(idxtm_view(*a)), Box::new(idxtm_view(*b))),
        IdxTm::Proj1(a) => IdxTmV::Proj1(Box::new(idxtm_view(*a))),
        IdxTm::Proj2(a) => IdxTmV::Proj2(Box::new(idxtm_view(*a))),
        IdxTm::Lam(x, g, a) => IdxTmV::Lam(x@, sort_view(g), Box::new(idxtm_view(*a))),
        IdxTm::App(a, b) => IdxTmV::App(Box::new(idxtm_view(*a)), Box::new(idxtm_view(*b))),
        IdxTm::MapNm(n, a) => IdxTmV::MapNm(Box::new(nametm_view(*n)), Box::new(idxtm_view(*a))),
        IdxTm::MapStar(n, a) => IdxTmV::MapStar(
            Box::new(nametm_view(*n)),
            Box::new(idxtm_view(*a)),
        ),
        IdxTm::FlatMap(a, b) => IdxTmV::FlatMap(
            Box::new(idxtm_view(*a)),
            Box::new(idxtm_view(*b)),
        ),
        IdxTm::FlatMapStar(a, b) => IdxTmV::FlatMapStar(
            Box::new(idxtm_view(*a)),
            Box::new(idxtm_view(*b)),
        ),
        IdxTm::NmTm(n) => IdxTmV::NmTm(nametm_view(n)),
        IdxTm::NoParse(s) => IdxTmV::NoParse(s@),
        IdxTm::Unknown => IdxTmV::Unknown,
    }
}

/// The model of a proposition.
pub open spec fn prop_view(p: Prop) -> PropV
    decreases p,
{
    match p {
        Prop::Tt => PropV::Tt,
        Prop::Equiv(i, j, g) => PropV::Equiv(idxtm_view(i), idxtm_view(j), sort_view(g)),
        Prop::Apart(i, j, g) => PropV::Apart(idxtm_view(i), idxtm_view(j), sort_view(g)),
        Prop::Conj(p1, p2) => PropV::Conj(Box::new(prop_view(*p1)), Box::new(prop_view(*p2))),
        Prop::NoParse(s) => PropV::NoParse(s@),
    }
}

/// The model of an effect.
pub open spec fn effect_view(e: Effect) -> EffectV {
    match e {
        Effect::WR(i, j) => EffectV::WR(idxtm_view(i), idxtm_view(j)),
        Effect::NoParse(s) => EffectV::NoParse(s@),
    }
}

/// The model of a type.
pub open spec fn type_view(a: Type) -> TypeV
    decreases a,
{
    match a {
        Type::Unit => TypeV::Unit,
        Type::Var(x) => TypeV::Var(x@),
        Type::Ident(x) => TypeV::Ident(x@),
        Type::IdentDef(x, d) => TypeV::IdentDef(x@, Box::new(type_view(*d))),
        Type::IdentUndef(x) => TypeV::IdentUndef(x@),
        Type::Abstract(x) => TypeV::Abstract(x@),
        Type::Prim(p) => TypeV::Prim(p),
        Type::Sum(a1, a2) => TypeV::Sum(Box::new(type_view(*a1)), Box::new(type_view(*a2))),
        Type::Prod(a1, a2) => TypeV::Prod(Box::new(type_view(*a1)), Box::new(type_view(*a2))),
        Type::Ref(i, a1) => TypeV::Ref(idxtm_view(i), Box::new(type_view(*a1))),
        Type::Thk(i, ce) => TypeV::Thk(idxtm_view(i), Box::new(ceffect_view(*ce))),
        Type::IdxApp(a1, i) => TypeV::IdxApp(Box::new(type_view(*a1)), idxtm_view(i)),
        Type::TypeApp(a1, a2) => TypeV::TypeApp(
            Box::new(type_view(*a1)),
            Box::new(type_view(*a2)),
        ),
        Type::Nm(i) => TypeV::Nm(idxtm_view(i)),
        Type::NmFn(n) => TypeV::NmFn(nametm_view(n)),
        Type::TypeFn(x, k, a1) => TypeV::TypeFn(x@, kind_view(k), Box::new(type_view(*a1))),
        Type::IdxFn(x, g, a1) => TypeV::IdxFn(x@, sort_view(g), Box::new(type_view(*a1))),
        Type::Rec(x, a1) => TypeV::Rec(x@, Box::new(type_view(*a1))),
        Type::Exists(x, g, p, a1) => TypeV::Exists(
            x@,
            sort_view(*g),
            prop_view(p),
            Box::new(type_view(*a1)),
        ),
        Type::NoParse(s) => TypeV::NoParse(s@),
    }
}

/// The model of a computation type.
pub open spec fn ctype_view(c: CType) -> CTypeV
    decreases c,
{
    match c {
        CType::Lift(a) => CTypeV::Lift(type_view(a)),
        CType::Arrow(a, ce) => CTypeV::Arrow(type_view(a), Box::new(ceffect_view(*ce))),
        CType::NoParse(s) => CTypeV::NoParse(s@),
    }
}

/// The model of a computation effect.
pub open spec fn ceffect_view(ce: CEffect) -> CEffectV
    decreases ce,
{
    match ce {
        CEffect::Cons(c, e) => CEffectV::Cons(ctype_view(c), effect_view(e)),
        CEffect::ForallType(x, k, ce1) => CEffectV::ForallType(
            x@,
            kind_view(k),
            Box::new(ceffect_view(*ce1)),
        ),
        CEffect::ForallIdx(x, g, p, ce1) => CEffectV::ForallIdx(
            x@,
            sort_view(g),
            prop_view(p),
            Box::new(ceffect_view(*ce1)),
        ),
        CEffect::NoParse(s) => CEffectV::NoParse(s@),
    }
}

/// The model of a term of any sort.
pub open spec fn term_view(t: Term) -> TermV {
    match t {
        Term::NmTm(n) => TermV::NmTm(nametm_view(n)),
        Term::IdxTm(i) => TermV::IdxTm(idxtm_view(i)),
        Term::Type(a) => TermV::Type(type_view(a)),
    }
}

/// The models of a list of terms, in the same order.
pub open spec fn terms_view(ts: Seq<Term>) -> Seq<TermV> {
    ts.map_values(|t: Term| t@)
}

impl View for Name {
    type V = NameV;

    open spec fn view(&self) -> NameV {
        name_view(*self)
    }
}

impl View for Sort {
    type V = SortV;

    open spec fn view(&self) -> SortV {
        sort_view(*self)
    }
}

impl View for Kind {
    type V = KindV;

    open spec fn view(&self) -> KindV {
        kind_view(*self)
    }
}

impl View for NameTm {
    type V = NameTmV;

    open spec fn view(&self) -> NameTmV {
        nametm_view(*self)
    }
}

impl View for NmSetTm {
    type V = NmSetTmV;

    open spec fn view(&self) -> NmSetTmV {
        nmsettm_view(*self)
    }
}

impl View for NmSet {
    type V = NmSetV;

    open spec fn view(&self) -> NmSetV {
        nmset_view(*self)
    }
}

impl View for IdxTm {
    type V = IdxTmV;

    open spec fn view(&self) -> IdxTmV {
        idxtm_view(*self)
    }
}

impl View for Prop {
    type V = PropV;

    open spec fn view(&self) -> PropV {
        prop_view(*self)
    }
}

impl View for Effect {
    type V = EffectV;

    open spec fn view(&self) -> EffectV {
        effect_view(*self)
    }
}

impl View for Type {
    type V = TypeV;

    open spec fn view(&self) -> TypeV {
        type_view(*self)
    }
}

impl View for CType {
    type V = CTypeV;

    open spec fn view(&self) -> CTypeV {
        ctype_view(*self)
    }
}

impl View for CEffect {
    type V = CEffectV;

    open spec fn view(&self) -> CEffectV {
        ceffect_view(*self)
    }
}

impl View for Term {
    type V = TermV;

    open spec fn view(&self) -> TermV {
        term_view(*self)
    }
}

} // verus!
