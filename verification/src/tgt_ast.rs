//! The target calculus: a smaller language of names, indices, types, values
//! and expressions that later stages work on. It is a data model only;
//! substitution does not reach it.

use std::rc::Rc;
use vstd::prelude::*;

verus! {

#[derive(Clone, Debug, Eq, PartialEq, Hash)]
pub struct Pointer(pub Name);

pub type Var = String;

/// Name literals.
#[derive(Clone, Debug, Eq, PartialEq, Hash)]
pub enum Name {
    Leaf,
    Sym(String),
    Num(usize),
    Bin(NameRec, NameRec),
}

pub type NameRec = Rc<Name>;

/// Name terms.
#[derive(Clone, Debug, Eq, PartialEq, Hash)]
pub enum NameTm {
    Var(Var),
    Name(Name),
    Bin(NameTmRec, NameTmRec),
    Lam(Var, NameTmRec),
    App(NameTmRec, NameTmRec),
}

pub type NameTmRec = Rc<NameTm>;

/// Index terms.
#[derive(Clone, Debug, Eq, PartialEq, Hash)]
pub enum IdxTm {
    Var(Var),
    Sing(NameTm),
    Empty,
    Disj(IdxTmRec, IdxTmRec),
    Union(IdxTmRec, IdxTmRec),
    Unit,
    Pair(IdxTmRec, IdxTmRec),
    Proj1(IdxTmRec),
    Proj2(IdxTmRec),
    Lam(Var, IdxTmRec),
    App(IdxTmRec, IdxTmRec),
    /// The image of a set under a name function.
    MapNm(NameTmRec, IdxTmRec),
    FlatMap(IdxTmRec, IdxTmRec),
    Star(IdxTmRec, IdxTmRec),
}

pub type IdxTmRec = Rc<IdxTm>;

pub type SortRec = Rc<Sort>;

/// Sorts (classify name and index terms).
#[derive(Clone, Debug, Eq, PartialEq, Hash)]
pub enum Sort {
    Nm,
    NmSet,
    NmArrow(SortRec, SortRec),
    IdxArrow(SortRec, SortRec),
    Unit,
    Prod(SortRec, SortRec),
}

pub type KindRec = Rc<Kind>;

/// Kinds (classify types).
#[derive(Clone, Debug, Eq, PartialEq, Hash)]
pub enum Kind {
    Type,
    TypeParam(KindRec),
    IdxParam(Sort, KindRec),
}

pub type PropRec = Rc<Prop>;

/// Propositions about name and index terms.
#[derive(Clone, Debug, Eq, PartialEq, Hash)]
pub enum Prop {
    Tt,
    Equiv(IdxTm, IdxTm, Sort),
    Disj(IdxTm, IdxTm, Sort),
    Conj(PropRec, PropRec),
}

pub type EffectRec = Rc<Effect>;

/// Effects.
#[derive(Clone, Debug, Eq, PartialEq, Hash)]
pub enum Effect {
    WR(IdxTm, IdxTm),
    Then(EffectRec, EffectRec),
}

/// Type constructors.
#[derive(Clone, Debug, Eq, PartialEq, Hash)]
pub enum TypeCons {
    D,
    Sequence,
    Nat,
}

pub type TypeRec = Rc<Type>;

/// Value types.
#[derive(Clone, Debug, Eq, PartialEq, Hash)]
pub enum Type {
    TVar(Var),
    Var(Var),
    Cons(TypeCons),
    Sum(TypeRec, TypeRec),
    Prod(TypeRec, TypeRec),
    Unit,
    Ref(IdxTm, TypeRec),
    Thk(IdxTm, CEffectRec),
    IdxApp(TypeRec, IdxTm),
    TypeApp(TypeCons, TypeRec),
    Nm(IdxTm),
    NmFn(NameTm),
    Rec(Var, TypeRec),
}

/// Computation types.
#[derive(Clone, Debug, Eq, PartialEq, Hash)]
pub enum CType {
    Lift(Type),
    Arrow(Type, CEffectRec),
}

pub type CEffectRec = Rc<CEffect>;

/// Computation effects.
#[derive(Clone, Debug, Eq, PartialEq, Hash)]
pub enum CEffect {
    Cons(CType, Effect),
    ForallType(Var, Kind, CEffectRec),
    ForallIdx(Var, Sort, Prop, CEffectRec),
}

pub type ValRec = Rc<Val>;

/// Value terms.
#[derive(Clone, Debug, Eq, PartialEq, Hash)]
pub enum Val {
    Var(Var),
    Unit,
    Pair(ValRec, ValRec),
    Inj1(ValRec),
    Inj2(ValRec),
    Name(Name),
    NameFn(NameTm),
    Ref(Pointer),
    Thunk(Pointer),
    Anno(ValRec, Type),
    Nat(usize),
    Str(String),
}

pub type ExpRec = Rc<Exp>;

/// Expressions (aka, computation terms).
#[derive(Clone, Debug, Eq, PartialEq, Hash)]
pub enum Exp {
    Anno(ExpRec, CType),
    Force(Val),
    Thunk(Val, ExpRec),
    Fix(Var, ExpRec),
    Ret(Val),
    Let(Var, ExpRec, ExpRec),
    Lam(Var, ExpRec),
    App(ExpRec, Val),
    Split(Val, Var, Var, ExpRec),
    Case(Val, Var, ExpRec, Var, ExpRec),
    Ref(Val, Val),
    Get(Val),
    Scope(NameTm, ExpRec),
    NameApp(Val, Val),
    Unimp,
    DebugLabel(String, ExpRec),
}

} // verus!
