//! Substitution on borrowed terms.
//!
//! Each function here answers `None` where the substitution leaves the term
//! as it is, and the new term otherwise. So a term is rebuilt only along the
//! paths that lead to a change: every sub-term off those paths is the same
//! shared node in the result as in the argument.

use crate::ast::{
    CEffect, CType, Effect, IdxTm, NameTm, NmSet, NmSetTm, Prop, Term, Type,
};
use crate::cloning::share;
use crate::equal::type_eq;
use crate::fv_spec::{idx_var, name_var};
use crate::model::NmSetV;
use crate::size::{
    ceffect_size, ctype_size, idxtm_size, lemma_nmsettms_size_member, nmsettms_size, nmtm_size,
    prop_size, type_size,
};
use crate::subst::{
    alpha_vary, fv_contains, fv_contains_idxtm, fv_of_term, idxtm_writescope_var_str,
    nmtm_writescope_var_str, term_is_idxtm, term_is_type,
};
use crate::subst_lemmas::{
    lemma_primes_fresh_idxtm, lemma_primes_fresh_nmsettms_member, lemma_primes_fresh_nmtm,
    lemma_primes_fresh_prop, lemma_primes_fresh_type, lemma_subst_nmsettms_len,
    lemma_subst_nmsettms_member, lemma_var_no_primed_pair,
};
use crate::subst_spec::{
    is_writescope_var, primes_fresh_ceffect, primes_fresh_ctype, primes_fresh_effect,
    primes_fresh_idxtm, primes_fresh_nmsettms, primes_fresh_nmtm, primes_fresh_prop,
    primes_fresh_type, subst_in_ceffect, subst_in_ctype, subst_in_effect, subst_in_idxtm,
    subst_in_nmsettm, subst_in_nmsettms, subst_in_nmtm, subst_in_prop, subst_in_type,
};
use std::rc::Rc;
use vstd::prelude::*;
use vstd::string::*;

verus! {

/// Whether the variable `x` is spelled `name`.
fn is_named(x: &String, name: &str) -> (r: bool)
    ensures
        r == (x@ == name@),
{
    let n = String::from_str(name);
    *x == n
}

/// Whether `x` is one of the two write scope variables.
fn is_writescope_name(x: &String) -> (r: bool)
    ensures
        r == is_writescope_var(x@),
{
    is_named(x, idxtm_writescope_var_str()) || is_named(x, nmtm_writescope_var_str())
}

/// A handle on a sub-term after a substitution: a new node where the
/// substitution changed it, else a second handle on the node that is there.
fn fresh_or_shared<T>(new: Option<T>, old: &Rc<T>) -> (r: Rc<T>)
    ensures
        *r == (match new {
            Some(n) => n,
            None => **old,
        }),
{
    match new {
        Some(n) => Rc::new(n),
        None => share(old),
    }
}

/// Substitution in both sub-terms of a name term.
fn rewrite_nmtm_pair(t: &Term, x: &String, l: &Rc<NameTm>, r: &Rc<NameTm>) -> (res: Option<
    (Rc<NameTm>, Rc<NameTm>),
>)
    requires
        primes_fresh_nmtm(t@, x@, l@),
        primes_fresh_nmtm(t@, x@, r@),
    ensures
        match res {
            Some((l2, r2)) => l2@ == subst_in_nmtm(t@, x@, l@) && r2@ == subst_in_nmtm(
                t@,
                x@,
                r@,
            ),
            None => subst_in_nmtm(t@, x@, l@) == l@ && subst_in_nmtm(t@, x@, r@) == r@,
        },
    decreases 1 + nmtm_size(l@) + nmtm_size(r@), 0nat,
{
    let l2 = rewrite_nmtm(t, x, &**l);
    let r2 = rewrite_nmtm(t, x, &**r);
    if l2.is_none() && r2.is_none() {
        None
    } else {
        Some((fresh_or_shared(l2, l), fresh_or_shared(r2, r)))
    }
}

/// Substitute a term into a name term. A term of another sort is put
/// nowhere. The write scope of names gives way to a name term that is put in
/// the place of `"@@"`. A binder of the variable `x` is left as it is; a
/// binder of a name variable that is free in `t` is renamed before the
/// substitution goes on below it.
pub fn rewrite_nmtm(t: &Term, x: &String, m: &NameTm) -> (r: Option<NameTm>)
    requires
        primes_fresh_nmtm(t@, x@, m@),
    ensures
        match r {
            Some(b) => b@ == subst_in_nmtm(t@, x@, m@),
            None => subst_in_nmtm(t@, x@, m@) == m@,
        },
    decreases nmtm_size(m@), 1nat,
{
    match t {
        Term::NmTm(n) => match m {
            NameTm::Var(y) => {
                if *x == *y {
                    Some(n.clone())
                } else {
                    None
                }
            },
            NameTm::WriteScope => {
                if is_named(x, nmtm_writescope_var_str()) {
                    Some(n.clone())
                } else {
                    None
                }
            },
            NameTm::App(n1, n2) => match rewrite_nmtm_pair(t, x, n1, n2) {
                Some((l, r)) => Some(NameTm::App(l, r)),
                None => None,
            },
            NameTm::Bin(n1, n2) => match rewrite_nmtm_pair(t, x, n1, n2) {
                Some((l, r)) => Some(NameTm::Bin(l, r)),
                None => None,
            },
            NameTm::Lam(y, yg, m1) => {
                if *x == *y {
                    None
                } else {
                    let fv = fv_of_term(t);
                    if fv_contains(&fv, &Term::NmTm(NameTm::Var(y.clone()))) {
                        // `y` is free in `t`: the binder gives way before
                        // the substitution goes into its body.
                        let y_ = alpha_vary(y);
                        let t_y_ = Term::NmTm(NameTm::Var(y_.clone()));
                        proof {
                            lemma_var_no_primed_pair(name_var(y_@));
                            lemma_primes_fresh_nmtm(name_var(y_@), y@, m1@);
                        }
                        let m2 = fresh_or_shared(rewrite_nmtm(&t_y_, y, &**m1), m1);
                        let m3 = fresh_or_shared(rewrite_nmtm(t, x, &*m2), &m2);
                        Some(NameTm::Lam(y_, yg.clone(), m3))
                    } else {
                        match rewrite_nmtm(t, x, &**m1) {
                            Some(b) => Some(NameTm::Lam(y.clone(), yg.clone(), Rc::new(b))),
                            None => None,
                        }
                    }
                }
            },
            NameTm::ValVar(_) => None,
            NameTm::Ident(_) => None,
            NameTm::NoParse(_) => None,
            NameTm::Name(_) => None,
        },
        _ => None,
    }
}

/// Substitute a term into the members of a literal set. The members keep
/// their order.
fn rewrite_nmset(t: &Term, x: &String, s: &NmSet) -> (r: Option<NmSet>)
    requires
        primes_fresh_nmsettms(t@, x@, s@.terms),
    ensures
        match r {
            Some(s2) => s2@ == (NmSetV {
                cons: s@.cons,
                terms: subst_in_nmsettms(t@, x@, s@.terms),
            }),
            None => subst_in_nmsettms(t@, x@, s@.terms) == s@.terms,
        },
    decreases nmsettms_size(s@.terms), 0nat,
{
    let mut terms: Vec<NmSetTm> = Vec::new();
    let mut changed = false;
    let mut k: usize = 0;
    while k < s.terms.len()
        invariant
            k <= s.terms.len(),
            terms.len() == k,
            primes_fresh_nmsettms(t@, x@, s@.terms),
            forall|j: int|
                0 <= j < k ==> (#[trigger] terms@[j])@ == subst_in_nmsettm(t@, x@, s@.terms[j]),
            !changed ==> forall|j: int|
                0 <= j < k ==> subst_in_nmsettm(t@, x@, #[trigger] s@.terms[j]) == s@.terms[j],
        decreases s.terms.len() - k,
    {
        proof {
            lemma_primes_fresh_nmsettms_member(t@, x@, s@.terms, k as int);
            lemma_nmsettms_size_member(s@.terms, k as int);
        }
        let tm = match &s.terms[k] {
            NmSetTm::Single(n) => match rewrite_nmtm(t, x, n) {
                Some(n2) => {
                    changed = true;
                    NmSetTm::Single(n2)
                },
                None => NmSetTm::Single(n.clone()),
            },
            NmSetTm::Subset(i) => match rewrite_idxtm(t, x, i) {
                Some(i2) => {
                    changed = true;
                    NmSetTm::Subset(i2)
                },
                None => NmSetTm::Subset(i.clone()),
            },
        };
        terms.push(tm);
        k += 1;
    }
    proof {
        let want = subst_in_nmsettms(t@, x@, s@.terms);
        lemma_subst_nmsettms_len(t@, x@, s@.terms);
        assert forall|j: int| 0 <= j < want.len() implies want[j] == subst_in_nmsettm(
            t@,
            x@,
            s@.terms[j],
        ) by {
            lemma_subst_nmsettms_member(t@, x@, s@.terms, j);
        }
        if !changed {
            assert(want =~= s@.terms);
        }
    }
    if changed {
        let r = NmSet { cons: s.cons, terms };
        assert(r@.terms =~= subst_in_nmsettms(t@, x@, s@.terms));
        Some(r)
    } else {
        None
    }
}

/// Substitution in both sub-terms of an index term.
fn rewrite_idxtm_pair(t: &Term, x: &String, l: &Rc<IdxTm>, r: &Rc<IdxTm>) -> (res: Option<
    (Rc<IdxTm>, Rc<IdxTm>),
>)
    requires
        primes_fresh_idxtm(t@, x@, l@),
        primes_fresh_idxtm(t@, x@, r@),
    ensures
        match res {
            Some((l2, r2)) => l2@ == subst_in_idxtm(t@, x@, l@) && r2@ == subst_in_idxtm(
                t@,
                x@,
                r@,
            ),
            None => subst_in_idxtm(t@, x@, l@) == l@ && subst_in_idxtm(t@, x@, r@) == r@,
        },
    decreases 1 + idxtm_size(l@) + idxtm_size(r@), 0nat,
{
    let l2 = rewrite_idxtm(t, x, &**l);
    let r2 = rewrite_idxtm(t, x, &**r);
    if l2.is_none() && r2.is_none() {
        None
    } else {
        Some((fresh_or_shared(l2, l), fresh_or_shared(r2, r)))
    }
}

/// Substitution in the name function and in the set of an image.
fn rewrite_image(t: &Term, x: &String, n: &Rc<NameTm>, j: &Rc<IdxTm>) -> (res: Option<
    (Rc<NameTm>, Rc<IdxTm>),
>)
    requires
        primes_fresh_nmtm(t@, x@, n@),
        primes_fresh_idxtm(t@, x@, j@),
    ensures
        match res {
            Some((n2, j2)) => n2@ == subst_in_nmtm(t@, x@, n@) && j2@ == subst_in_idxtm(
                t@,
                x@,
                j@,
            ),
            None => subst_in_nmtm(t@, x@, n@) == n@ && subst_in_idxtm(t@, x@, j@) == j@,
        },
    decreases 1 + nmtm_size(n@) + idxtm_size(j@), 0nat,
{
    let n2 = rewrite_nmtm(t, x, &**n);
    let j2 = rewrite_idxtm(t, x, &**j);
    if n2.is_none() && j2.is_none() {
        None
    } else {
        Some((fresh_or_shared(n2, n), fresh_or_shared(j2, j)))
    }
}

/// Substitute a term into an index term.
///
/// Types never appear in index terms, so a type is put nowhere. The write
/// scope of name sets gives way to an index term that is put in the place of
/// `"@!"`. A binder of the variable `x` itself, for an index term, is left
/// as it is; a binder of an index variable that is free in `t` is renamed
/// before the substitution goes on below it.
pub fn rewrite_idxtm(t: &Term, x: &String, i: &IdxTm) -> (r: Option<IdxTm>)
    requires
        primes_fresh_idxtm(t@, x@, i@),
    ensures
        match r {
            Some(b) => b@ == subst_in_idxtm(t@, x@, i@),
            None => subst_in_idxtm(t@, x@, i@) == i@,
        },
    decreases idxtm_size(i@), 1nat,
{
    if term_is_type(t) {
        None
    } else {
        match i {
            // Variables and identifiers are lexically distinct.
            IdxTm::Unknown => None,
            IdxTm::Ident(_) => None,
            IdxTm::NoParse(_) => None,
            IdxTm::Unit => None,
            IdxTm::Empty => None,
            IdxTm::WriteScope => match t {
                Term::IdxTm(j) => {
                    if is_named(x, idxtm_writescope_var_str()) {
                        Some(j.clone())
                    } else {
                        None
                    }
                },
                _ => None,
            },
            IdxTm::Var(y) => match t {
                Term::IdxTm(j) => {
                    if *x == *y {
                        Some(j.clone())
                    } else {
                        None
                    }
                },
                _ => None,
            },
            IdxTm::Sing(n) => match rewrite_nmtm(t, x, n) {
                Some(n2) => Some(IdxTm::Sing(n2)),
                None => None,
            },
            IdxTm::NmTm(n) => match rewrite_nmtm(t, x, n) {
                Some(n2) => Some(IdxTm::NmTm(n2)),
                None => None,
            },
            IdxTm::NmSet(s) => match rewrite_nmset(t, x, s) {
                Some(s2) => Some(IdxTm::NmSet(s2)),
                None => None,
            },
            IdxTm::Apart(i1, i2) => match rewrite_idxtm_pair(t, x, i1, i2) {
                Some((l, r)) => Some(IdxTm::Apart(l, r)),
                None => None,
            },
            IdxTm::Union(i1, i2) => match rewrite_idxtm_pair(t, x, i1, i2) {
                Some((l, r)) => Some(IdxTm::Union(l, r)),
                None => None,
            },
            IdxTm::Bin(i1, i2) => match rewrite_idxtm_pair(t, x, i1, i2) {
                Some((l, r)) => Some(IdxTm::Bin(l, r)),
                None => None,
            },
            IdxTm::Pair(i1, i2) => match rewrite_idxtm_pair(t, x, i1, i2) {
                Some((l, r)) => Some(IdxTm::Pair(l, r)),
                None => None,
            },
            IdxTm::App(i1, i2) => match rewrite_idxtm_pair(t, x, i1, i2) {
                Some((l, r)) => Some(IdxTm::App(l, r)),
                None => None,
            },
            IdxTm::FlatMap(i1, i2) => match rewrite_idxtm_pair(t, x, i1, i2) {
                Some((l, r)) => Some(IdxTm::FlatMap(l, r)),
                None => None,
            },
            IdxTm::FlatMapStar(i1, i2) => match rewrite_idxtm_pair(t, x, i1, i2) {
                Some((l, r)) => Some(IdxTm::FlatMapStar(l, r)),
                None => None,
            },
            IdxTm::MapNm(n, j) => match rewrite_image(t, x, n, j) {
                Some((n2, j2)) => Some(IdxTm::MapNm(n2, j2)),
                None => None,
            },
            IdxTm::MapStar(n, j) => match rewrite_image(t, x, n, j) {
                Some((n2, j2)) => Some(IdxTm::MapStar(n2, j2)),
                None => None,
            },
            IdxTm::Proj1(i1) => match rewrite_idxtm(t, x, &**i1) {
                Some(b) => Some(IdxTm::Proj1(Rc::new(b))),
                None => None,
            },
            IdxTm::Proj2(i1) => match rewrite_idxtm(t, x, &**i1) {
                Some(b) => Some(IdxTm::Proj2(Rc::new(b))),
                None => None,
            },
            IdxTm::Lam(y, g, i1) => {
                if term_is_idxtm(t) && *x == *y {
                    None
                } else {
                    let fv = fv_of_term(t);
                    if fv_contains_idxtm(&fv, y) {
                        // `y` is free in `t`: the binder gives way before
                        // the substitution goes into its body.
                        let y_ = alpha_vary(y);
                        let t_y_ = Term::IdxTm(IdxTm::Var(y_.clone()));
                        proof {
                            lemma_var_no_primed_pair(idx_var(y_@));
                            lemma_primes_fresh_idxtm(idx_var(y_@), y@, i1@);
                        }
                        let i2 = fresh_or_shared(rewrite_idxtm(&t_y_, y, &**i1), i1);
                        let i3 = fresh_or_shared(rewrite_idxtm(t, x, &*i2), &i2);
                        Some(IdxTm::Lam(y_, g.clone(), i3))
                    } else {
                        match rewrite_idxtm(t, x, &**i1) {
                            Some(b) => Some(IdxTm::Lam(y.clone(), g.clone(), Rc::new(b))),
                            None => None,
                        }
                    }
                }
            },
        }
    }
}

/// Substitute a term into a proposition.
pub fn rewrite_prop(t: &Term, x: &String, p: &Prop) -> (r: Option<Prop>)
    requires
        primes_fresh_prop(t@, x@, p@),
    ensures
        match r {
            Some(b) => b@ == subst_in_prop(t@, x@, p@),
            None => subst_in_prop(t@, x@, p@) == p@,
        },
    decreases prop_size(p@),
{
    match p {
        Prop::Tt => None,
        Prop::NoParse(_) => None,
        Prop::Equiv(i, j, g) => {
            let i2 = rewrite_idxtm(t, x, i);
            let j2 = rewrite_idxtm(t, x, j);
            if i2.is_none() && j2.is_none() {
                None
            } else {
                Some(Prop::Equiv(idxtm_or_clone(i2, i), idxtm_or_clone(j2, j), g.clone()))
            }
        },
        Prop::Apart(i, j, g) => {
            let i2 = rewrite_idxtm(t, x, i);
            let j2 = rewrite_idxtm(t, x, j);
            if i2.is_none() && j2.is_none() {
                None
            } else {
                Some(Prop::Apart(idxtm_or_clone(i2, i), idxtm_or_clone(j2, j), g.clone()))
            }
        },
        Prop::Conj(p1, p2) => {
            let q1 = rewrite_prop(t, x, &**p1);
            let q2 = rewrite_prop(t, x, &**p2);
            if q1.is_none() && q2.is_none() {
                None
            } else {
                Some(Prop::Conj(fresh_or_shared(q1, p1), fresh_or_shared(q2, p2)))
            }
        },
    }
}

/// The index term after a substitution: the new one, or a copy of the old.
fn idxtm_or_clone(new: Option<IdxTm>, old: &IdxTm) -> (r: IdxTm)
    ensures
        r@ == (match new {
            Some(i) => i@,
            None => old@,
        }),
{
    match new {
        Some(i) => i,
        None => old.clone(),
    }
}

/// The proposition after a substitution: the new one, or a copy of the old.
fn prop_or_clone(new: Option<Prop>, old: &Prop) -> (r: Prop)
    ensures
        r@ == (match new {
            Some(p) => p@,
            None => old@,
        }),
{
    match new {
        Some(p) => p,
        None => old.clone(),
    }
}

/// The type after a substitution: the new one, or a copy of the old.
fn type_or_clone(new: Option<Type>, old: &Type) -> (r: Type)
    ensures
        r@ == (match new {
            Some(a) => a@,
            None => old@,
        }),
{
    match new {
        Some(a) => a,
        None => old.clone(),
    }
}

/// Substitute a term into an effect.
pub fn rewrite_effect(t: &Term, x: &String, e: &Effect) -> (r: Option<Effect>)
    requires
        primes_fresh_effect(t@, x@, e@),
    ensures
        match r {
            Some(b) => b@ == subst_in_effect(t@, x@, e@),
            None => subst_in_effect(t@, x@, e@) == e@,
        },
{
    match e {
        Effect::WR(i, j) => {
            let i2 = rewrite_idxtm(t, x, i);
            let j2 = rewrite_idxtm(t, x, j);
            if i2.is_none() && j2.is_none() {
                None
            } else {
                Some(Effect::WR(idxtm_or_clone(i2, i), idxtm_or_clone(j2, j)))
            }
        },
        Effect::NoParse(_) => None,
    }
}

/// Substitution in both sub-terms of a type.
fn rewrite_type_pair(t: &Term, x: &String, l: &Rc<Type>, r: &Rc<Type>) -> (res: Option<
    (Rc<Type>, Rc<Type>),
>)
    requires
        primes_fresh_type(t@, x@, l@),
        primes_fresh_type(t@, x@, r@),
    ensures
        match res {
            Some((l2, r2)) => l2@ == subst_in_type(t@, x@, l@) && r2@ == subst_in_type(
                t@,
                x@,
                r@,
            ),
            None => subst_in_type(t@, x@, l@) == l@ && subst_in_type(t@, x@, r@) == r@,
        },
    decreases 1 + type_size(l@) + type_size(r@), 0nat,
{
    let l2 = rewrite_type(t, x, &**l);
    let r2 = rewrite_type(t, x, &**r);
    if l2.is_none() && r2.is_none() {
        None
    } else {
        Some((fresh_or_shared(l2, l), fresh_or_shared(r2, r)))
    }
}

/// Substitute a term into a type.
///
/// A binder of the variable `x` itself, of the sort of `t`, is left as it
/// is. A binder of an index variable that is free in `t` is renamed before
/// the substitution goes on below it; the binders of type variables never
/// give way. The effect of a thunk is left as it is where `x` is one of the
/// two write scope variables. An identifier is dropped where the
/// substitution changes its definition.
pub fn rewrite_type(t: &Term, x: &String, a: &Type) -> (r: Option<Type>)
    requires
        primes_fresh_type(t@, x@, a@),
    ensures
        match r {
            Some(b) => b@ == subst_in_type(t@, x@, a@),
            None => subst_in_type(t@, x@, a@) == a@,
        },
    decreases type_size(a@), 1nat,
{
    match a {
        Type::Unit => None,
        Type::Abstract(_) => None,
        Type::Ident(_) => None,
        Type::IdentUndef(_) => None,
        Type::Prim(_) => None,
        Type::NoParse(_) => None,
        Type::IdentDef(_, ydef) => match rewrite_type(t, x, &**ydef) {
            // Where the substitution changes the definition, the identifier
            // no longer stands for it and is dropped.
            Some(ydef2) => {
                if !type_eq(&**ydef, &ydef2) {
                    Some(ydef2)
                } else {
                    None
                }
            },
            None => None,
        },
        Type::Var(y) => match t {
            Term::Type(b) => {
                if *x == *y {
                    Some(b.clone())
                } else {
                    None
                }
            },
            _ => None,
        },
        Type::Sum(a1, a2) => match rewrite_type_pair(t, x, a1, a2) {
            Some((l, r)) => Some(Type::Sum(l, r)),
            None => None,
        },
        Type::Prod(a1, a2) => match rewrite_type_pair(t, x, a1, a2) {
            Some((l, r)) => Some(Type::Prod(l, r)),
            None => None,
        },
        Type::TypeApp(a1, a2) => match rewrite_type_pair(t, x, a1, a2) {
            Some((l, r)) => Some(Type::TypeApp(l, r)),
            None => None,
        },
        Type::Ref(i, a0) => {
            let i2 = rewrite_idxtm(t, x, i);
            let b = rewrite_type(t, x, &**a0);
            if i2.is_none() && b.is_none() {
                None
            } else {
                Some(Type::Ref(idxtm_or_clone(i2, i), fresh_or_shared(b, a0)))
            }
        },
        Type::Thk(i, ce) => {
            // Every thunk binds the two write scope variables anew: a
            // substitution for one of them stops at its effect.
            let i2 = rewrite_idxtm(t, x, i);
            let ce2 = if is_writescope_name(x) {
                None
            } else {
                rewrite_ceffect(t, x, &**ce)
            };
            if i2.is_none() && ce2.is_none() {
                None
            } else {
                Some(Type::Thk(idxtm_or_clone(i2, i), fresh_or_shared(ce2, ce)))
            }
        },
        Type::IdxApp(a0, i) => {
            let b = rewrite_type(t, x, &**a0);
            let i2 = rewrite_idxtm(t, x, i);
            if b.is_none() && i2.is_none() {
                None
            } else {
                Some(Type::IdxApp(fresh_or_shared(b, a0), idxtm_or_clone(i2, i)))
            }
        },
        Type::Nm(i) => match rewrite_idxtm(t, x, i) {
            Some(i2) => Some(Type::Nm(i2)),
            None => None,
        },
        Type::NmFn(n) => match rewrite_nmtm(t, x, n) {
            Some(n2) => Some(Type::NmFn(n2)),
            None => None,
        },
        Type::Rec(y, a1) => {
            if term_is_type(t) && *x == *y {
                None
            } else {
                match rewrite_type(t, x, &**a1) {
                    Some(b) => Some(Type::Rec(y.clone(), Rc::new(b))),
                    None => None,
                }
            }
        },
        Type::TypeFn(y, k, a1) => {
            if term_is_type(t) && *x == *y {
                None
            } else {
                match rewrite_type(t, x, &**a1) {
                    Some(b) => Some(Type::TypeFn(y.clone(), k.clone(), Rc::new(b))),
                    None => None,
                }
            }
        },
        Type::IdxFn(y, g, a1) => {
            if term_is_idxtm(t) && *x == *y {
                None
            } else {
                let fv = fv_of_term(t);
                if fv_contains_idxtm(&fv, y) {
                    // `y` is free in `t`: the binder gives way before the
                    // substitution goes into its body.
                    let y_ = alpha_vary(y);
                    let t_y_ = Term::IdxTm(IdxTm::Var(y_.clone()));
                    proof {
                        lemma_var_no_primed_pair(idx_var(y_@));
                        lemma_primes_fresh_type(idx_var(y_@), y@, a1@);
                    }
                    let a2 = fresh_or_shared(rewrite_type(&t_y_, y, &**a1), a1);
                    let a3 = fresh_or_shared(rewrite_type(t, x, &*a2), &a2);
                    Some(Type::IdxFn(y_, g.clone(), a3))
                } else {
                    match rewrite_type(t, x, &**a1) {
                        Some(b) => Some(Type::IdxFn(y.clone(), g.clone(), Rc::new(b))),
                        None => None,
                    }
                }
            }
        },
        Type::Exists(y, g, p, a1) => {
            if term_is_idxtm(t) && *x == *y {
                None
            } else {
                let fv = fv_of_term(t);
                if fv_contains_idxtm(&fv, y) {
                    let y_ = alpha_vary(y);
                    let t_y_ = Term::IdxTm(IdxTm::Var(y_.clone()));
                    proof {
                        lemma_var_no_primed_pair(idx_var(y_@));
                        lemma_primes_fresh_type(idx_var(y_@), y@, a1@);
                        lemma_primes_fresh_prop(idx_var(y_@), y@, p@);
                    }
                    let a2 = fresh_or_shared(rewrite_type(&t_y_, y, &**a1), a1);
                    let p2 = prop_or_clone(rewrite_prop(&t_y_, y, p), p);
                    let a3 = fresh_or_shared(rewrite_type(t, x, &*a2), &a2);
                    let p3 = prop_or_clone(rewrite_prop(t, x, &p2), &p2);
                    Some(Type::Exists(y_, share(g), p3, a3))
                } else {
                    let p2 = rewrite_prop(t, x, p);
                    let b = rewrite_type(t, x, &**a1);
                    if p2.is_none() && b.is_none() {
                        None
                    } else {
                        Some(
                            Type::Exists(
                                y.clone(),
                                share(g),
                                prop_or_clone(p2, p),
                                fresh_or_shared(b, a1),
                            ),
                        )
                    }
                }
            }
        },
    }
}

/// Substitute a term into a computation type.
pub fn rewrite_ctype(t: &Term, x: &String, ct: &CType) -> (r: Option<CType>)
    requires
        primes_fresh_ctype(t@, x@, ct@),
    ensures
        match r {
            Some(b) => b@ == subst_in_ctype(t@, x@, ct@),
            None => subst_in_ctype(t@, x@, ct@) == ct@,
        },
    decreases ctype_size(ct@), 1nat,
{
    match ct {
        CType::Lift(a) => match rewrite_type(t, x, a) {
            Some(b) => Some(CType::Lift(b)),
            None => None,
        },
        CType::Arrow(a, ce) => {
            let b = rewrite_type(t, x, a);
            let ce2 = rewrite_ceffect(t, x, &**ce);
            if b.is_none() && ce2.is_none() {
                None
            } else {
                Some(CType::Arrow(type_or_clone(b, a), fresh_or_shared(ce2, ce)))
            }
        },
        CType::NoParse(_) => None,
    }
}

/// Substitute a term into a computation effect.
///
/// A binder of the variable `x` itself, of the sort of `t`, is left as it
/// is. The binders of computation effects never give way.
pub fn rewrite_ceffect(t: &Term, x: &String, ce: &CEffect) -> (r: Option<CEffect>)
    requires
        primes_fresh_ceffect(t@, x@, ce@),
    ensures
        match r {
            Some(b) => b@ == subst_in_ceffect(t@, x@, ce@),
            None => subst_in_ceffect(t@, x@, ce@) == ce@,
        },
    decreases ceffect_size(ce@), 1nat,
{
    match ce {
        CEffect::Cons(ct, eff) => {
            let ct2 = rewrite_ctype(t, x, ct);
            let eff2 = rewrite_effect(t, x, eff);
            if ct2.is_none() && eff2.is_none() {
                None
            } else {
                let ct3 = match ct2 {
                    Some(c) => c,
                    None => ct.clone(),
                };
                let eff3 = match eff2 {
                    Some(e) => e,
                    None => eff.clone(),
                };
                Some(CEffect::Cons(ct3, eff3))
            }
        },
        CEffect::ForallType(y, k, ce1) => {
            if term_is_type(t) && *x == *y {
                None
            } else {
                match rewrite_ceffect(t, x, &**ce1) {
                    Some(b) => Some(CEffect::ForallType(y.clone(), k.clone(), Rc::new(b))),
                    None => None,
                }
            }
        },
        CEffect::ForallIdx(y, g, p, ce1) => {
            if term_is_idxtm(t) && *x == *y {
                None
            } else {
                let p2 = rewrite_prop(t, x, p);
                let b = rewrite_ceffect(t, x, &**ce1);
                if p2.is_none() && b.is_none() {
                    None
                } else {
                    Some(
                        CEffect::ForallIdx(
                            y.clone(),
                            g.clone(),
                            prop_or_clone(p2, p),
                            fresh_or_shared(b, ce1),
                        ),
                    )
                }
            }
        },
        CEffect::NoParse(_) => None,
    }
}

} // verus!
