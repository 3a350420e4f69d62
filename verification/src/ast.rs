//! The term algebra: name terms, index terms, sorts, kinds, propositions,
//! effects, value types, computation types and computation effects.
//!
//! Every recursive position is held behind an `Rc`, so terms are immutable
//! and sub-terms are shared between every tree that mentions them.

use std::rc::Rc;
use vstd::prelude::*;

verus! {

/// Variables of every sort are plain strings.
pub type Var = String;

/// Identifiers of definitions, lexically distinct from variables.
pub type Ident = String;

/// A shared name literal; the aliases below share the other terms.
pub type NameRec = Rc<Name>;

pub type NameTmRec = Rc<NameTm>;

pub type IdxTmRec = Rc<IdxTm>;

pub type SortRec = Rc<Sort>;

pub type KindRec = Rc<Kind>;

pub type PropRec = Rc<Prop>;

pub type TypeRec = Rc<Type>;

pub type CEffectRec = Rc<CEffect>;

/// Name literals.
#[derive(Debug, Hash)]
pub enum Name {
    NoParse(String),
    Leaf,
    Sym(String),
    Num(usize),
    Bin(NameRec, NameRec),
}

/// Sorts classify name terms and index terms.
#[derive(Debug, Hash)]
pub enum Sort {
    Nm,
    NmSet,
    NmArrow(SortRec, SortRec),
    IdxArrow(SortRec, SortRec),
    Unit,
    Prod(SortRec, SortRec),
    NoParse(String),
}

/// Kinds classify types.
#[derive(Debug, Hash)]
pub enum Kind {
    Type,
    TypeParam(KindRec),
    IdxParam(Sort, KindRec),
    NoParse(String),
}

/// Name terms denote single names, or functions over names.
#[derive(Debug, Hash)]
pub enum NameTm {
    /// A name variable.
    Var(Var),
    /// A value variable that stands for a name.
    ValVar(Var),
    /// A literal name.
    Name(Name),
    /// The pairing of two names into one.
    Bin(NameTmRec, NameTmRec),
    /// A function over names; the only binder of this sort.
    Lam(Var, Sort, NameTmRec),
    App(NameTmRec, NameTmRec),
    /// The ambient write scope, a function over names.
    WriteScope,
    Ident(Ident),
    NoParse(String),
}

/// How the members of a literal name set are joined.
#[derive(Clone, Copy, Debug, PartialEq, Eq, Structural, Hash)]
pub enum NmSetCons {
    Union,
    Apart,
}

/// A member of a literal name set: one name, or a whole subset.
#[derive(Debug, Hash)]
pub enum NmSetTm {
    Single(NameTm),
    Subset(IdxTm),
}

/// A literal name set. The members keep the order in which they were given.
#[derive(Debug, Hash)]
pub struct NmSet {
    pub cons: Option<NmSetCons>,
    pub terms: Vec<NmSetTm>,
}

/// Index terms denote sets of names, and functions and tuples of them.
#[derive(Debug, Hash)]
pub enum IdxTm {
    /// An index variable.
    Var(Var),
    Ident(Ident),
    /// The singleton set of one name.
    Sing(NameTm),
    Empty,
    /// Disjoint union.
    Apart(IdxTmRec, IdxTmRec),
    Union(IdxTmRec, IdxTmRec),
    /// A literal set.
    NmSet(NmSet),
    Bin(IdxTmRec, IdxTmRec),
    /// The ambient write scope, a function over name sets.
    WriteScope,
    Unit,
    Pair(IdxTmRec, IdxTmRec),
    Proj1(IdxTmRec),
    Proj2(IdxTmRec),
    /// A function over indices; the only binder of this sort.
    Lam(Var, Sort, IdxTmRec),
    App(IdxTmRec, IdxTmRec),
    /// The image of a set under a name function.
    MapNm(NameTmRec, IdxTmRec),
    /// The image of a set under the closure of a name function.
    MapStar(NameTmRec, IdxTmRec),
    FlatMap(IdxTmRec, IdxTmRec),
    FlatMapStar(IdxTmRec, IdxTmRec),
    /// A name term in the place of an index.
    NmTm(NameTm),
    NoParse(String),
    Unknown,
}

/// Propositions about index terms. They are rewritten here, never decided.
#[derive(Debug, Hash)]
pub enum Prop {
    Tt,
    Equiv(IdxTm, IdxTm, Sort),
    Apart(IdxTm, IdxTm, Sort),
    Conj(PropRec, PropRec),
    NoParse(String),
}

/// Effects: the names that a computation writes and those that it reads.
#[derive(Debug, Hash)]
pub enum Effect {
    WR(IdxTm, IdxTm),
    NoParse(String),
}

/// Primitive types.
#[derive(Clone, Copy, Debug, PartialEq, Eq, Structural, Hash)]
pub enum PrimType {
    Bool,
    Nat,
    Char,
    String,
}

/// Value types.
#[derive(Debug, Hash)]
pub enum Type {
    Unit,
    /// A type variable.
    Var(Var),
    /// An identifier whose definition is not carried along.
    Ident(Ident),
    /// An identifier together with the type it abbreviates.
    IdentDef(Ident, TypeRec),
    IdentUndef(Ident),
    Abstract(Ident),
    Prim(PrimType),
    Sum(TypeRec, TypeRec),
    Prod(TypeRec, TypeRec),
    /// A reference cell named by the index.
    Ref(IdxTm, TypeRec),
    /// A suspended computation named by the index. The write scope is
    /// bound afresh at every thunk.
    Thk(IdxTm, CEffectRec),
    IdxApp(TypeRec, IdxTm),
    TypeApp(TypeRec, TypeRec),
    Nm(IdxTm),
    NmFn(NameTm),
    /// Binds a type variable.
    TypeFn(Var, Kind, TypeRec),
    /// Binds an index variable.
    IdxFn(Var, Sort, TypeRec),
    /// Binds a type variable.
    Rec(Var, TypeRec),
    /// Binds an index variable in the proposition and in the type.
    Exists(Var, SortRec, Prop, TypeRec),
    NoParse(String),
}

/// Computation types.
#[derive(Debug, Hash)]
pub enum CType {
    Lift(Type),
    Arrow(Type, CEffectRec),
    NoParse(String),
}

/// Computation effects.
#[derive(Debug, Hash)]
pub enum CEffect {
    Cons(CType, Effect),
    /// Binds a type variable.
    ForallType(Var, Kind, CEffectRec),
    /// Binds an index variable in the proposition and in the body.
    ForallIdx(Var, Sort, Prop, CEffectRec),
    NoParse(String),
}

/// A term of one of the three sorts that can be put in the place of a
/// variable.
#[derive(Debug, Hash)]
pub enum Term {
    NmTm(NameTm),
    IdxTm(IdxTm),
    Type(Type),
}

} // verus!
