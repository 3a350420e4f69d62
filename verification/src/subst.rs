//! Static (typing-time) substitution, and the free variables that steer it.

use crate::ast::{CEffect, CType, Effect, IdxTm, NameTm, NmSet, NmSetTm, Prop, Term, Type};
use crate::fv_lemmas::{lemma_seq_contains_push, lemma_under_thunk_empty, lemma_under_thunk_step};
use crate::fv_spec::{
    fv_ceffect, fv_ctype, fv_effect, fv_idxtm, fv_nmsettm, fv_nmsettms, fv_nmtm, fv_prop,
    fv_term, fv_type, idx_var, is_write_scope, name_var, type_var, under_thunk,
};
use crate::model::{terms_view, TermV};
use crate::rewrite::{
    rewrite_ceffect, rewrite_ctype, rewrite_effect, rewrite_idxtm, rewrite_nmtm, rewrite_prop,
    rewrite_type,
};
use crate::subst_lemmas::no_primed_pair;
use crate::subst_spec::{
    alpha_vary_spec, idxtm_writescope_var, nmtm_writescope_var, primes_fresh_ceffect,
    primes_fresh_ctype, primes_fresh_effect, primes_fresh_idxtm, primes_fresh_nmtm,
    primes_fresh_prop, primes_fresh_type, subst_in_ceffect, subst_in_ctype, subst_in_effect,
    subst_in_idxtm, subst_in_nmtm, subst_in_prop, subst_in_type,
};
use std::rc::Rc;
use vstd::prelude::*;
use vstd::string::*;

verus! {

/// Simplistic policy to create a "primed" version of `x`.
pub fn alpha_vary(x: &String) -> (r: String)
    ensures
        r@ == alpha_vary_spec(x@),
{
    proof {
        reveal_strlit("~");
    }
    let r = x.clone().concat("~");
    assert(r@ =~= x@.push('~'));
    r
}

/// Test if a variable term appears in a vector of variable terms.
pub fn fv_contains(fv: &Vec<Term>, x: &Term) -> (r: bool)
    ensures
        r == terms_view(fv@).contains(x@),
{
    let mut k: usize = 0;
    while k < fv.len()
        invariant
            k <= fv.len(),
            forall|j: int| 0 <= j < k ==> terms_view(fv@)[j] != x@,
        decreases fv.len() - k,
    {
        if fv[k] == *x {
            assert(terms_view(fv@)[k as int] == x@);
            return true;
        }
        k += 1;
    }
    false
}

/// Test if an index term variable appears in a vector of variable terms.
pub fn fv_contains_idxtm(fv: &Vec<Term>, x: &String) -> (r: bool)
    ensures
        r == terms_view(fv@).contains(idx_var(x@)),
{
    let x = Term::IdxTm(IdxTm::Var(x.clone()));
    fv_contains(fv, &x)
}

/// Test if a term can be put in the place of a variable in every term: no
/// free variable of `t` is the primed name of another free variable of `t`
/// of the same sort, so every binder that has to give way to `t` can take
/// its primed name.
pub fn term_has_no_primed_pair(t: &Term) -> (r: bool)
    ensures
        r == no_primed_pair(t@),
{
    let fv = fv_of_term(t);
    let ghost free = fv_term(t@);
    let mut k: usize = 0;
    while k < fv.len()
        invariant
            k <= fv.len(),
            free == terms_view(fv@),
            free == fv_term(t@),
            forall|w: Seq<char>| #[trigger]
                free.take(k as int).contains(idx_var(w)) ==> !free.contains(
                    idx_var(alpha_vary_spec(w)),
                ),
            forall|w: Seq<char>| #[trigger]
                free.take(k as int).contains(name_var(w)) ==> !free.contains(
                    name_var(alpha_vary_spec(w)),
                ),
        decreases fv.len() - k,
    {
        proof {
            assert(free.take(k + 1) =~= free.take(k as int).push(free[k as int]));
            lemma_seq_contains_push(free.take(k as int), free[k as int]);
        }
        match &fv[k] {
            Term::IdxTm(IdxTm::Var(w)) => {
                let w2 = alpha_vary(w);
                if fv_contains_idxtm(&fv, &w2) {
                    assert(free[k as int] == idx_var(w@));
                    assert(free.contains(idx_var(w@)));
                    return false;
                }
            },
            Term::NmTm(NameTm::Var(w)) => {
                let w2 = alpha_vary(w);
                if fv_contains(&fv, &Term::NmTm(NameTm::Var(w2))) {
                    assert(free[k as int] == name_var(w@));
                    assert(free.contains(name_var(w@)));
                    return false;
                }
            },
            _ => {},
        }
        k += 1;
    }
    assert(free.take(k as int) =~= free);
    true
}

/// A copy of a list of bound variables.
fn clone_bound(bound: &Vec<Term>) -> (r: Vec<Term>)
    ensures
        terms_view(r@) == terms_view(bound@),
{
    let mut r: Vec<Term> = Vec::new();
    let mut k: usize = 0;
    while k < bound.len()
        invariant
            k <= bound.len(),
            r.len() == k,
            forall|j: int| 0 <= j < k ==> (#[trigger] r@[j])@ == bound@[j]@,
        decreases bound.len() - k,
    {
        r.push(bound[k].clone());
        k += 1;
    }
    assert(terms_view(r@) =~= terms_view(bound@));
    r
}

/// Compute a list of variables (as terms) that appear free in the given term.
pub fn fv_of_term(t: &Term) -> (out: Vec<Term>)
    ensures
        terms_view(out@) == fv_term(t@),
{
    let mut out: Vec<Term> = Vec::new();
    assert(terms_view(out@) =~= Seq::empty());
    let bound: Vec<Term> = Vec::new();
    assert(terms_view(bound@) =~= Seq::empty());
    match t {
        Term::NmTm(n) => fv_of_nmtm(n, bound, &mut out),
        Term::IdxTm(i) => fv_of_idxtm(i, bound, &mut out),
        Term::Type(a) => fv_of_type(a, bound, &mut out),
    }
    assert(terms_view(out@) =~= fv_term(t@));
    out
}

/// Compute the free variables of a name term: those of its variables that
/// `bound` does not hold are put behind what `out` holds already.
pub fn fv_of_nmtm(n: &NameTm, bound: Vec<Term>, out: &mut Vec<Term>)
    ensures
        terms_view(final(out)@) == terms_view(old(out)@) + fv_nmtm(n@, terms_view(bound@)),
    decreases n,
{
    match n {
        NameTm::Var(_) | NameTm::ValVar(_) => {
            let x = Term::NmTm(n.clone());
            if !fv_contains(&bound, &x) {
                out.push(x);
            }
        },
        NameTm::Name(_) => {},
        NameTm::Bin(l, r) => {
            fv_of_nmtm(l, clone_bound(&bound), out);
            fv_of_nmtm(r, bound, out);
        },
        NameTm::App(l, r) => {
            fv_of_nmtm(l, clone_bound(&bound), out);
            fv_of_nmtm(r, bound, out);
        },
        NameTm::Lam(x, _, m) => {
            let mut bound = bound;
            let ghost before = terms_view(bound@);
            bound.push(Term::NmTm(NameTm::Var(x.clone())));
            assert(terms_view(bound@) =~= before.push(name_var(x@)));
            fv_of_nmtm(m, bound, out);
        },
        NameTm::WriteScope => {
            out.push(Term::NmTm(NameTm::WriteScope));
        },
        NameTm::NoParse(_) => {},
        NameTm::Ident(_) => {},
    }
    assert(terms_view(out@) =~= terms_view(old(out)@) + fv_nmtm(n@, terms_view(bound@)));
}

/// Compute the free variables of an index term: those of its variables that
/// `bound` does not hold are put behind what `out` holds already.
pub fn fv_of_idxtm(i: &IdxTm, bound: Vec<Term>, out: &mut Vec<Term>)
    ensures
        terms_view(final(out)@) == terms_view(old(out)@) + fv_idxtm(i@, terms_view(bound@)),
    decreases i,
{
    let ghost start = terms_view(out@);
    let ghost bv = terms_view(bound@);
    match i {
        IdxTm::Unknown => {},
        IdxTm::Var(_) => {
            let x = Term::IdxTm(i.clone());
            if !fv_contains(&bound, &x) {
                out.push(x);
            }
        },
        IdxTm::Lam(x, _, j) => {
            let mut bound = bound;
            bound.push(Term::IdxTm(IdxTm::Var(x.clone())));
            assert(terms_view(bound@) =~= bv.push(idx_var(x@)));
            fv_of_idxtm(j, bound, out);
        },
        IdxTm::Ident(_) => {},
        IdxTm::NoParse(_) => {},
        IdxTm::Unit => {},
        IdxTm::Empty => {},
        IdxTm::WriteScope => {
            out.push(Term::IdxTm(IdxTm::WriteScope));
        },
        IdxTm::Sing(n) => {
            fv_of_nmtm(n, bound, out);
        },
        IdxTm::MapNm(n, j) => {
            fv_of_nmtm(n, clone_bound(&bound), out);
            fv_of_idxtm(j, bound, out);
        },
        IdxTm::MapStar(n, j) => {
            fv_of_nmtm(n, clone_bound(&bound), out);
            fv_of_idxtm(j, bound, out);
        },
        IdxTm::Proj1(j) => {
            fv_of_idxtm(j, bound, out);
        },
        IdxTm::Proj2(j) => {
            fv_of_idxtm(j, bound, out);
        },
        IdxTm::NmSet(s) => {
            fv_of_nmset(s, bound, out);
        },
        IdxTm::NmTm(n) => {
            fv_of_nmtm(n, bound, out);
        },
        IdxTm::Apart(a, b) => {
            fv_of_idxtm(a, clone_bound(&bound), out);
            fv_of_idxtm(b, bound, out);
        },
        IdxTm::Union(a, b) => {
            fv_of_idxtm(a, clone_bound(&bound), out);
            fv_of_idxtm(b, bound, out);
        },
        IdxTm::Bin(a, b) => {
            fv_of_idxtm(a, clone_bound(&bound), out);
            fv_of_idxtm(b, bound, out);
        },
        IdxTm::Pair(a, b) => {
            fv_of_idxtm(a, clone_bound(&bound), out);
            fv_of_idxtm(b, bound, out);
        },
        IdxTm::App(a, b) => {
            fv_of_idxtm(a, clone_bound(&bound), out);
            fv_of_idxtm(b, bound, out);
        },
        IdxTm::FlatMap(a, b) => {
            fv_of_idxtm(a, clone_bound(&bound), out);
            fv_of_idxtm(b, bound, out);
        },
        IdxTm::FlatMapStar(a, b) => {
            fv_of_idxtm(a, clone_bound(&bound), out);
            fv_of_idxtm(b, bound, out);
        },
    }
    assert(terms_view(out@) =~= start + fv_idxtm(i@, bv));
}

/// Compute the free variables of the members of a literal set, member after
/// member.
fn fv_of_nmset(s: &NmSet, bound: Vec<Term>, out: &mut Vec<Term>)
    ensures
        terms_view(final(out)@) == terms_view(old(out)@) + fv_nmsettms(
            s@.terms,
            terms_view(bound@),
        ),
    decreases s,
{
    let ghost start = terms_view(out@);
    let ghost bv = terms_view(bound@);
    let mut k: usize = 0;
    assert(s@.terms.take(0) =~= Seq::empty());
    while k < s.terms.len()
        invariant
            k <= s.terms.len(),
            bv == terms_view(bound@),
            terms_view(out@) =~= start + fv_nmsettms(s@.terms.take(k as int), bv),
        decreases s.terms.len() - k,
    {
        let ghost before = terms_view(out@);
        match &s.terms[k] {
            NmSetTm::Single(n) => fv_of_nmtm(n, clone_bound(&bound), out),
            NmSetTm::Subset(j) => fv_of_idxtm(j, clone_bound(&bound), out),
        }
        proof {
            let next = s@.terms.take(k + 1);
            assert(next.drop_last() =~= s@.terms.take(k as int));
            assert(next.last() == s.terms@[k as int]@);
            assert(terms_view(out@) == before + fv_nmsettm(next.last(), bv));
        }
        k += 1;
    }
    assert(s@.terms.take(k as int) =~= s@.terms);
}

/// Compute the free variables of a proposition.
pub fn fv_of_prop(p: &Prop, bound: Vec<Term>, out: &mut Vec<Term>)
    ensures
        terms_view(final(out)@) == terms_view(old(out)@) + fv_prop(p@, terms_view(bound@)),
    decreases p,
{
    let ghost start = terms_view(out@);
    let ghost bv = terms_view(bound@);
    match p {
        Prop::Tt => {},
        Prop::Equiv(i, j, _) => {
            fv_of_idxtm(i, clone_bound(&bound), out);
            fv_of_idxtm(j, bound, out);
        },
        Prop::Apart(i, j, _) => {
            fv_of_idxtm(i, clone_bound(&bound), out);
            fv_of_idxtm(j, bound, out);
        },
        Prop::Conj(p1, p2) => {
            fv_of_prop(p1, clone_bound(&bound), out);
            fv_of_prop(p2, bound, out);
        },
        Prop::NoParse(_) => {},
    }
    assert(terms_view(out@) =~= start + fv_prop(p@, bv));
}

/// Whether a term is one of the two write scopes.
fn term_is_write_scope(v: &Term) -> (r: bool)
    ensures
        r == is_write_scope(v@),
{
    match v {
        Term::NmTm(NameTm::WriteScope) => true,
        Term::IdxTm(IdxTm::WriteScope) => true,
        _ => false,
    }
}

/// Compute the free variables of a type. A thunk binds both write scopes:
/// those that its computation effect mentions are not free in the thunk.
pub fn fv_of_type(a: &Type, bound: Vec<Term>, out: &mut Vec<Term>)
    ensures
        terms_view(final(out)@) == terms_view(old(out)@) + fv_type(a@, terms_view(bound@)),
    decreases a,
{
    let ghost start = terms_view(out@);
    let ghost bv = terms_view(bound@);
    match a {
        Type::Unit => {},
        Type::Ident(_) => {},
        Type::IdentUndef(_) => {},
        Type::Abstract(_) => {},
        Type::Prim(_) => {},
        Type::NoParse(_) => {},
        Type::Var(_) => {
            let x = Term::Type(a.clone());
            if !fv_contains(&bound, &x) {
                out.push(x);
            }
        },
        Type::IdentDef(_, d) => {
            fv_of_type(d, bound, out);
        },
        Type::Sum(a1, a2) => {
            fv_of_type(a1, clone_bound(&bound), out);
            fv_of_type(a2, bound, out);
        },
        Type::Prod(a1, a2) => {
            fv_of_type(a1, clone_bound(&bound), out);
            fv_of_type(a2, bound, out);
        },
        Type::TypeApp(a1, a2) => {
            fv_of_type(a1, clone_bound(&bound), out);
            fv_of_type(a2, bound, out);
        },
        Type::Ref(i, a1) => {
            fv_of_idxtm(i, clone_bound(&bound), out);
            fv_of_type(a1, bound, out);
        },
        Type::Thk(i, ce) => {
            fv_of_idxtm(i, clone_bound(&bound), out);
            let mut inner: Vec<Term> = Vec::new();
            assert(terms_view(inner@) =~= Seq::empty());
            fv_of_ceffect(ce, bound, &mut inner);
            assert(terms_view(inner@) =~= fv_ceffect(ce@, bv));
            let ghost mid = terms_view(out@);
            let ghost inside = terms_view(inner@);
            let mut k: usize = 0;
            proof {
                lemma_under_thunk_empty();
                assert(inside.take(0) =~= Seq::empty());
            }
            while k < inner.len()
                invariant
                    k <= inner.len(),
                    inside == terms_view(inner@),
                    terms_view(out@) =~= mid + under_thunk(inside.take(k as int)),
                decreases inner.len() - k,
            {
                let ghost before = terms_view(out@);
                if !term_is_write_scope(&inner[k]) {
                    out.push(inner[k].clone());
                    assert(terms_view(out@) =~= before.push(inside[k as int]));
                }
                proof {
                    lemma_under_thunk_step(inside, k as int);
                }
                k += 1;
            }
            assert(inside.take(k as int) =~= inside);
        },
        Type::IdxApp(a1, i) => {
            fv_of_type(a1, clone_bound(&bound), out);
            fv_of_idxtm(i, bound, out);
        },
        Type::Nm(i) => {
            fv_of_idxtm(i, bound, out);
        },
        Type::NmFn(n) => {
            fv_of_nmtm(n, bound, out);
        },
        Type::TypeFn(x, _, a1) => {
            let mut bound = bound;
            bound.push(Term::Type(Type::Var(x.clone())));
            assert(terms_view(bound@) =~= bv.push(type_var(x@)));
            fv_of_type(a1, bound, out);
        },
        Type::Rec(x, a1) => {
            let mut bound = bound;
            bound.push(Term::Type(Type::Var(x.clone())));
            assert(terms_view(bound@) =~= bv.push(type_var(x@)));
            fv_of_type(a1, bound, out);
        },
        Type::IdxFn(x, _, a1) => {
            let mut bound = bound;
            bound.push(Term::IdxTm(IdxTm::Var(x.clone())));
            assert(terms_view(bound@) =~= bv.push(idx_var(x@)));
            fv_of_type(a1, bound, out);
        },
        Type::Exists(x, _, p, a1) => {
            let mut bound = bound;
            bound.push(Term::IdxTm(IdxTm::Var(x.clone())));
            assert(terms_view(bound@) =~= bv.push(idx_var(x@)));
            fv_of_prop(p, clone_bound(&bound), out);
            fv_of_type(a1, bound, out);
        },
    }
    assert(terms_view(out@) =~= start + fv_type(a@, bv));
}

/// Compute the free variables of a computation type.
pub fn fv_of_ctype(ct: &CType, bound: Vec<Term>, out: &mut Vec<Term>)
    ensures
        terms_view(final(out)@) == terms_view(old(out)@) + fv_ctype(ct@, terms_view(bound@)),
    decreases ct,
{
    let ghost start = terms_view(out@);
    let ghost bv = terms_view(bound@);
    match ct {
        CType::Lift(a) => {
            fv_of_type(a, bound, out);
        },
        CType::Arrow(a, ce) => {
            fv_of_type(a, clone_bound(&bound), out);
            fv_of_ceffect(ce, bound, out);
        },
        CType::NoParse(_) => {},
    }
    assert(terms_view(out@) =~= start + fv_ctype(ct@, bv));
}

/// Compute the free variables of a computation effect.
pub fn fv_of_ceffect(ce: &CEffect, bound: Vec<Term>, out: &mut Vec<Term>)
    ensures
        terms_view(final(out)@) == terms_view(old(out)@) + fv_ceffect(ce@, terms_view(bound@)),
    decreases ce,
{
    let ghost start = terms_view(out@);
    let ghost bv = terms_view(bound@);
    match ce {
        CEffect::Cons(ct, e) => {
            fv_of_ctype(ct, clone_bound(&bound), out);
            fv_of_effect(e, bound, out);
        },
        CEffect::ForallType(x, _, ce1) => {
            let mut bound = bound;
            bound.push(Term::Type(Type::Var(x.clone())));
            assert(terms_view(bound@) =~= bv.push(type_var(x@)));
            fv_of_ceffect(ce1, bound, out);
        },
        CEffect::ForallIdx(x, _, p, ce1) => {
            let mut bound = bound;
            bound.push(Term::IdxTm(IdxTm::Var(x.clone())));
            assert(terms_view(bound@) =~= bv.push(idx_var(x@)));
            fv_of_prop(p, clone_bound(&bound), out);
            fv_of_ceffect(ce1, bound, out);
        },
        CEffect::NoParse(_) => {},
    }
    assert(terms_view(out@) =~= start + fv_ceffect(ce@, bv));
}

/// Compute the free variables of an effect.
pub fn fv_of_effect(e: &Effect, bound: Vec<Term>, out: &mut Vec<Term>)
    ensures
        terms_view(final(out)@) == terms_view(old(out)@) + fv_effect(e@, terms_view(bound@)),
{
    let ghost start = terms_view(out@);
    let ghost bv = terms_view(bound@);
    match e {
        Effect::WR(i, j) => {
            fv_of_idxtm(i, clone_bound(&bound), out);
            fv_of_idxtm(j, bound, out);
        },
        Effect::NoParse(_) => {},
    }
    assert(terms_view(out@) =~= start + fv_effect(e@, bv));
}

/// Substitute a type for a type variable in another type.
pub fn subst_type_type(a: Type, x: &String, b: Type) -> (r: Type)
    requires
        primes_fresh_type(TermV::Type(a@), x@, b@),
    ensures
        r@ == subst_in_type(TermV::Type(a@), x@, b@),
{
    subst_term_type(Term::Type(a), x, b)
}

/// Substitute an index for an index variable in another type.
pub fn subst_idxtm_type(i: IdxTm, x: &String, b: Type) -> (r: Type)
    requires
        primes_fresh_type(TermV::IdxTm(i@), x@, b@),
    ensures
        r@ == subst_in_type(TermV::IdxTm(i@), x@, b@),
{
    subst_term_type(Term::IdxTm(i), x, b)
}

/// Predicate for type terms.
pub fn term_is_type(t: &Term) -> (r: bool)
    ensures
        r == (t@ is Type),
{
    match t {
        Term::Type(_) => true,
        _ => false,
    }
}

/// Predicate for index terms.
pub fn term_is_idxtm(t: &Term) -> (r: bool)
    ensures
        r == (t@ is IdxTm),
{
    match t {
        Term::IdxTm(_) => true,
        _ => false,
    }
}

/// Predicate for name terms.
pub fn term_is_nmtm(t: &Term) -> (r: bool)
    ensures
        r == (t@ is NmTm),
{
    match t {
        Term::NmTm(_) => true,
        _ => false,
    }
}

/// Magic variable name for the write scope function over name sets (`"@!"`).
pub fn idxtm_writescope_var_str() -> (r: &'static str)
    ensures
        r@ == idxtm_writescope_var(),
{
    proof {
        reveal_strlit("@!");
    }
    let r = "@!";
    assert(r@ =~= idxtm_writescope_var());
    r
}

/// Magic variable name for the write scope function over names (`"@@"`).
pub fn nmtm_writescope_var_str() -> (r: &'static str)
    ensures
        r@ == nmtm_writescope_var(),
{
    proof {
        reveal_strlit("@@");
    }
    let r = "@@";
    assert(r@ =~= nmtm_writescope_var());
    r
}

/// Substitute terms into types.
pub fn subst_term_type_rec(t: Term, x: &String, a: Rc<Type>) -> (r: Rc<Type>)
    requires
        primes_fresh_type(t@, x@, a@),
    ensures
        r@ == subst_in_type(t@, x@, a@),
{
    match rewrite_type(&t, x, &*a) {
        Some(b) => Rc::new(b),
        None => a,
    }
}

/// Substitute terms into computation types.
pub fn subst_term_ctype(t: Term, x: &String, ct: CType) -> (r: CType)
    requires
        primes_fresh_ctype(t@, x@, ct@),
    ensures
        r@ == subst_in_ctype(t@, x@, ct@),
{
    match rewrite_ctype(&t, x, &ct) {
        Some(c) => c,
        None => ct,
    }
}

/// Substitute terms into effects.
pub fn subst_term_effect_rec(t: Term, x: &String, eff: Rc<Effect>) -> (r: Rc<Effect>)
    requires
        primes_fresh_effect(t@, x@, eff@),
    ensures
        r@ == subst_in_effect(t@, x@, eff@),
{
    match rewrite_effect(&t, x, &*eff) {
        Some(e) => Rc::new(e),
        None => eff,
    }
}

/// Substitute terms into effects.
pub fn subst_term_effect(t: Term, x: &String, eff: Effect) -> (r: Effect)
    requires
        primes_fresh_effect(t@, x@, eff@),
    ensures
        r@ == subst_in_effect(t@, x@, eff@),
{
    match rewrite_effect(&t, x, &eff) {
        Some(e) => e,
        None => eff,
    }
}

/// Substitute terms into computation effects.
pub fn subst_term_ceffect_rec(t: Term, x: &String, ce: Rc<CEffect>) -> (r: Rc<CEffect>)
    requires
        primes_fresh_ceffect(t@, x@, ce@),
    ensures
        r@ == subst_in_ceffect(t@, x@, ce@),
{
    match rewrite_ceffect(&t, x, &*ce) {
        Some(c) => Rc::new(c),
        None => ce,
    }
}

/// Substitute terms into computation effects.
///
/// A binder of the variable `x` itself, of the sort of `t`, is left as it
/// is. The binders of computation effects never give way.
pub fn subst_term_ceffect(t: Term, x: &String, ce: CEffect) -> (r: CEffect)
    requires
        primes_fresh_ceffect(t@, x@, ce@),
    ensures
        r@ == subst_in_ceffect(t@, x@, ce@),
{
    match rewrite_ceffect(&t, x, &ce) {
        Some(c) => c,
        None => ce,
    }
}

/// Substitute terms into types.
///
/// A binder of the variable `x` itself, of the sort of `t`, is left as it
/// is. A binder of an index variable that is free in `t` is renamed before
/// the substitution goes on below it. The effect of a thunk is left as it is
/// where `x` is one of the two write scope variables. An identifier is
/// dropped where the substitution changes its definition.
pub fn subst_term_type(t: Term, x: &String, a: Type) -> (r: Type)
    requires
        primes_fresh_type(t@, x@, a@),
    ensures
        r@ == subst_in_type(t@, x@, a@),
{
    match rewrite_type(&t, x, &a) {
        Some(b) => b,
        None => a,
    }
}

/// Substitute terms into propositions.
pub fn subst_term_prop(t: Term, x: &String, p: Prop) -> (r: Prop)
    requires
        primes_fresh_prop(t@, x@, p@),
    ensures
        r@ == subst_in_prop(t@, x@, p@),
{
    match rewrite_prop(&t, x, &p) {
        Some(q) => q,
        None => p,
    }
}

/// Substitute terms into propositions.
pub fn subst_term_prop_rec(t: Term, x: &String, p: Rc<Prop>) -> (r: Rc<Prop>)
    requires
        primes_fresh_prop(t@, x@, p@),
    ensures
        r@ == subst_in_prop(t@, x@, p@),
{
    match rewrite_prop(&t, x, &*p) {
        Some(q) => Rc::new(q),
        None => p,
    }
}

/// Substitute terms into index terms.
pub fn subst_term_idxtm_rec(t: Term, x: &String, i: Rc<IdxTm>) -> (r: Rc<IdxTm>)
    requires
        primes_fresh_idxtm(t@, x@, i@),
    ensures
        r@ == subst_in_idxtm(t@, x@, i@),
{
    match rewrite_idxtm(&t, x, &*i) {
        Some(j) => Rc::new(j),
        None => i,
    }
}

/// Substitute terms into index terms.
///
/// Types never appear in index terms, so a type is put nowhere. The write
/// scope of name sets gives way to an index term that is put in the place of
/// `"@!"`. A binder of an index variable that is free in `t` is renamed
/// before the substitution goes on below it.
pub fn subst_term_idxtm(t: Term, x: &String, i: IdxTm) -> (r: IdxTm)
    requires
        primes_fresh_idxtm(t@, x@, i@),
    ensures
        r@ == subst_in_idxtm(t@, x@, i@),
{
    match rewrite_idxtm(&t, x, &i) {
        Some(j) => j,
        None => i,
    }
}

/// Substitute terms into name terms.
pub fn subst_term_nmtm_rec(t: Term, x: &String, m: Rc<NameTm>) -> (r: Rc<NameTm>)
    requires
        primes_fresh_nmtm(t@, x@, m@),
    ensures
        r@ == subst_in_nmtm(t@, x@, m@),
{
    match rewrite_nmtm(&t, x, &*m) {
        Some(n) => Rc::new(n),
        None => m,
    }
}

/// Substitute name terms into name terms. A term of another sort is put
/// nowhere. The write scope of names gives way to a name term that is put in
/// the place of `"@@"`. A binder of a name variable that is free in `t` is
/// renamed before the substitution goes on below it.
pub fn subst_term_nmtm(t: Term, x: &String, m: NameTm) -> (r: NameTm)
    requires
        primes_fresh_nmtm(t@, x@, m@),
    ensures
        r@ == subst_in_nmtm(t@, x@, m@),
{
    match rewrite_nmtm(&t, x, &m) {
        Some(n) => n,
        None => m,
    }
}

/// Substitute name terms into name terms.
pub fn subst_nmtm(t: NameTm, x: &String, m: NameTm) -> (r: NameTm)
    requires
        primes_fresh_nmtm(TermV::NmTm(t@), x@, m@),
    ensures
        r@ == subst_in_nmtm(TermV::NmTm(t@), x@, m@),
{
    subst_term_nmtm(Term::NmTm(t), x, m)
}

/// Substitute name terms into name terms.
pub fn subst_nmtm_rec(t: NameTm, x: &String, m: Rc<NameTm>) -> (r: Rc<NameTm>)
    requires
        primes_fresh_nmtm(TermV::NmTm(t@), x@, m@),
    ensures
        r@ == subst_in_nmtm(TermV::NmTm(t@), x@, m@),
{
    subst_term_nmtm_rec(Term::NmTm(t), x, m)
}

} // verus!
