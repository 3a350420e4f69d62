use fungi_lang::ast::{
    Effect, IdxTm, Name, NameTm, NmSet, NmSetCons, NmSetTm, Prop, Sort, Term, Type,
};
use fungi_lang::subst::{
    subst_term_effect, subst_term_effect_rec, subst_term_idxtm, subst_term_idxtm_rec,
    subst_term_prop, subst_term_prop_rec,
};
use std::rc::Rc;

fn s(x: &str) -> String {
    x.to_string()
}

fn nvar(x: &str) -> NameTm {
    NameTm::Var(s(x))
}

fn ivar(x: &str) -> IdxTm {
    IdxTm::Var(s(x))
}

fn sym(x: &str) -> NameTm {
    NameTm::Name(Name::Sym(s(x)))
}

fn pair(l: IdxTm, r: IdxTm) -> IdxTm {
    IdxTm::Pair(Rc::new(l), Rc::new(r))
}

fn lam(x: &str, i: IdxTm) -> IdxTm {
    IdxTm::Lam(s(x), Sort::NmSet, Rc::new(i))
}

fn idx(i: IdxTm) -> Term {
    Term::IdxTm(i)
}

#[test]
fn index_variable_gives_way_in_every_position() {
    let two = |f: fn(Rc<IdxTm>, Rc<IdxTm>) -> IdxTm| {
        let before = f(Rc::new(ivar("X")), Rc::new(ivar("Y")));
        let after = f(Rc::new(IdxTm::Empty), Rc::new(ivar("Y")));
        assert_eq!(subst_term_idxtm(idx(IdxTm::Empty), &s("X"), before), after);
    };
    two(IdxTm::Apart);
    two(IdxTm::Union);
    two(IdxTm::Bin);
    two(IdxTm::Pair);
    two(IdxTm::App);
    two(IdxTm::FlatMap);
    two(IdxTm::FlatMapStar);
    let one = |f: fn(Rc<IdxTm>) -> IdxTm| {
        let before = f(Rc::new(ivar("X")));
        let after = f(Rc::new(IdxTm::Unit));
        assert_eq!(subst_term_idxtm(idx(IdxTm::Unit), &s("X"), before), after);
    };
    one(IdxTm::Proj1);
    one(IdxTm::Proj2);
    let map = |f: fn(Rc<NameTm>, Rc<IdxTm>) -> IdxTm| {
        let before = f(Rc::new(nvar("X")), Rc::new(ivar("X")));
        let after = f(Rc::new(nvar("X")), Rc::new(IdxTm::Empty));
        assert_eq!(subst_term_idxtm(idx(IdxTm::Empty), &s("X"), before), after);
    };
    map(IdxTm::MapNm);
    map(IdxTm::MapStar);
}

#[test]
fn name_term_goes_into_the_names_of_an_index_term() {
    let before = IdxTm::MapNm(
        Rc::new(nvar("a")),
        Rc::new(pair(
            IdxTm::Sing(nvar("a")),
            pair(IdxTm::NmTm(nvar("a")), ivar("a")),
        )),
    );
    let after = IdxTm::MapNm(
        Rc::new(sym("k")),
        Rc::new(pair(
            IdxTm::Sing(sym("k")),
            pair(IdxTm::NmTm(sym("k")), ivar("a")),
        )),
    );
    assert_eq!(subst_term_idxtm(Term::NmTm(sym("k")), &s("a"), before), after);
}

#[test]
fn type_goes_nowhere_in_an_index_term() {
    let i = pair(ivar("X"), pair(IdxTm::WriteScope, IdxTm::Sing(nvar("X"))));
    assert_eq!(subst_term_idxtm(Term::Type(Type::Unit), &s("X"), i.clone()), i);
    assert_eq!(subst_term_idxtm(Term::Type(Type::Unit), &s("@!"), i.clone()), i);
}

#[test]
fn leaves_that_are_no_index_variables_stay() {
    for i in [
        IdxTm::Unknown,
        IdxTm::Ident(s("X")),
        IdxTm::NoParse(s("X")),
        IdxTm::Unit,
        IdxTm::Empty,
        IdxTm::WriteScope,
        ivar("Y"),
    ] {
        assert_eq!(subst_term_idxtm(idx(IdxTm::Empty), &s("X"), i.clone()), i);
    }
}

#[test]
fn write_scope_of_name_sets_gives_way_to_an_index_term_only() {
    let i = pair(IdxTm::WriteScope, IdxTm::Sing(NameTm::WriteScope));
    let r = subst_term_idxtm(idx(ivar("W")), &s("@!"), i.clone());
    assert_eq!(r, pair(ivar("W"), IdxTm::Sing(NameTm::WriteScope)));
    // a name term for "@!" finds no write scope of its sort
    let r = subst_term_idxtm(Term::NmTm(sym("k")), &s("@!"), i.clone());
    assert_eq!(r, i);
    // a name term for "@@" reaches the write scope of names
    let r = subst_term_idxtm(Term::NmTm(sym("k")), &s("@@"), i.clone());
    assert_eq!(r, pair(IdxTm::WriteScope, IdxTm::Sing(sym("k"))));
    // an index term for "@@" reaches neither
    let r = subst_term_idxtm(idx(ivar("W")), &s("@@"), i.clone());
    assert_eq!(r, i);
}

#[test]
fn members_of_a_literal_set_keep_their_order() {
    let set = |x: IdxTm, a: NameTm| {
        IdxTm::NmSet(NmSet {
            cons: Some(NmSetCons::Apart),
            terms: vec![
                NmSetTm::Single(a.clone()),
                NmSetTm::Subset(x.clone()),
                NmSetTm::Single(sym("c")),
                NmSetTm::Subset(pair(x, IdxTm::Sing(a))),
            ],
        })
    };
    let r = subst_term_idxtm(idx(IdxTm::Empty), &s("X"), set(ivar("X"), nvar("a")));
    assert_eq!(r, set(IdxTm::Empty, nvar("a")));
    let r = subst_term_idxtm(Term::NmTm(sym("k")), &s("a"), set(ivar("X"), nvar("a")));
    assert_eq!(r, set(ivar("X"), sym("k")));
    let none = IdxTm::NmSet(NmSet { cons: None, terms: vec![] });
    assert_eq!(subst_term_idxtm(idx(IdxTm::Empty), &s("X"), none.clone()), none);
}

#[test]
fn index_binder_shadows_its_variable_for_index_terms() {
    let i = lam("X", pair(ivar("X"), IdxTm::Sing(nvar("X"))));
    assert_eq!(subst_term_idxtm(idx(IdxTm::Empty), &s("X"), i.clone()), i);
    // a name term for the name variable X goes below the binder
    let r = subst_term_idxtm(Term::NmTm(sym("k")), &s("X"), i);
    assert_eq!(r, lam("X", pair(ivar("X"), IdxTm::Sing(sym("k")))));
}

#[test]
fn index_binder_gives_way_to_a_free_variable() {
    // [(X, Z)/Y] #X. (X, Y)  =  #X~. (X~, (X, Z))
    let i = lam("X", pair(ivar("X"), ivar("Y")));
    let r = subst_term_idxtm(idx(pair(ivar("X"), ivar("Z"))), &s("Y"), i);
    assert_eq!(r, lam("X~", pair(ivar("X~"), pair(ivar("X"), ivar("Z")))));
}

#[test]
fn index_binder_stays_where_its_variable_is_not_free_in_the_term() {
    // the bound X of the term is not free in it
    let t = lam("X", ivar("X"));
    let i = lam("X", pair(ivar("X"), ivar("Y")));
    let r = subst_term_idxtm(idx(t.clone()), &s("Y"), i);
    assert_eq!(r, lam("X", pair(ivar("X"), t)));
    // the name variable X is not the index variable X
    let i = lam("X", pair(ivar("X"), IdxTm::Sing(nvar("a"))));
    let r = subst_term_idxtm(Term::NmTm(nvar("X")), &s("a"), i);
    assert_eq!(r, lam("X", pair(ivar("X"), IdxTm::Sing(nvar("X")))));
}

#[test]
fn name_binder_inside_an_index_term_gives_way() {
    let i = IdxTm::MapNm(
        Rc::new(NameTm::Lam(
            s("a"),
            Sort::Nm,
            Rc::new(NameTm::Bin(Rc::new(nvar("a")), Rc::new(nvar("b")))),
        )),
        Rc::new(ivar("X")),
    );
    let r = subst_term_idxtm(Term::NmTm(nvar("a")), &s("b"), i);
    let want = IdxTm::MapNm(
        Rc::new(NameTm::Lam(
            s("a~"),
            Sort::Nm,
            Rc::new(NameTm::Bin(Rc::new(nvar("a~")), Rc::new(nvar("a")))),
        )),
        Rc::new(ivar("X")),
    );
    assert_eq!(r, want);
}

#[test]
fn shared_index_term_is_rebuilt_not_changed() {
    let shared = Rc::new(pair(ivar("X"), ivar("Y")));
    let r = subst_term_idxtm_rec(idx(IdxTm::Empty), &s("X"), shared.clone());
    assert_eq!(*r, pair(IdxTm::Empty, ivar("Y")));
    assert_eq!(*shared, pair(ivar("X"), ivar("Y")));
}

#[test]
fn propositions_are_rewritten_in_their_index_terms() {
    let p = Prop::Conj(
        Rc::new(Prop::Equiv(ivar("X"), ivar("Y"), Sort::NmSet)),
        Rc::new(Prop::Conj(
            Rc::new(Prop::Apart(ivar("Y"), ivar("X"), Sort::Nm)),
            Rc::new(Prop::Tt),
        )),
    );
    let want = Prop::Conj(
        Rc::new(Prop::Equiv(IdxTm::Empty, ivar("Y"), Sort::NmSet)),
        Rc::new(Prop::Conj(
            Rc::new(Prop::Apart(ivar("Y"), IdxTm::Empty, Sort::Nm)),
            Rc::new(Prop::Tt),
        )),
    );
    assert_eq!(subst_term_prop(idx(IdxTm::Empty), &s("X"), p.clone()), want);
    assert_eq!(
        *subst_term_prop_rec(idx(IdxTm::Empty), &s("X"), Rc::new(p.clone())),
        want
    );
    assert_eq!(subst_term_prop(Term::Type(Type::Unit), &s("X"), p.clone()), p);
    let bad = Prop::NoParse(s("X == "));
    assert_eq!(subst_term_prop(idx(IdxTm::Empty), &s("X"), bad.clone()), bad);
}

#[test]
fn effects_are_rewritten_in_both_sets() {
    let e = Effect::WR(ivar("X"), pair(ivar("X"), IdxTm::WriteScope));
    let want = Effect::WR(IdxTm::Empty, pair(IdxTm::Empty, IdxTm::WriteScope));
    assert_eq!(subst_term_effect(idx(IdxTm::Empty), &s("X"), e.clone()), want);
    assert_eq!(
        *subst_term_effect_rec(idx(IdxTm::Empty), &s("X"), Rc::new(e.clone())),
        want
    );
    let want = Effect::WR(ivar("X"), pair(ivar("X"), IdxTm::Unit));
    assert_eq!(subst_term_effect(idx(IdxTm::Unit), &s("@!"), e), want);
    let bad = Effect::NoParse(s("?"));
    assert_eq!(subst_term_effect(idx(IdxTm::Empty), &s("X"), bad.clone()), bad);
}
