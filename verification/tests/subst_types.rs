use fungi_lang::ast::{
    CEffect, CType, Effect, IdxTm, Kind, NameTm, PrimType, Prop, Sort, Term, Type,
};
use fungi_lang::subst::{
    fv_contains, fv_of_term, subst_idxtm_type, subst_term_ceffect, subst_term_ceffect_rec,
    subst_term_ctype, subst_term_type, subst_term_type_rec, subst_type_type,
};
use std::rc::Rc;

fn s(x: &str) -> String {
    x.to_string()
}

fn nvar(x: &str) -> NameTm {
    NameTm::Var(s(x))
}

fn ivar(x: &str) -> IdxTm {
    IdxTm::Var(s(x))
}

fn tvar(x: &str) -> Type {
    Type::Var(s(x))
}

fn pair(l: IdxTm, r: IdxTm) -> IdxTm {
    IdxTm::Pair(Rc::new(l), Rc::new(r))
}

fn sum(l: Type, r: Type) -> Type {
    Type::Sum(Rc::new(l), Rc::new(r))
}

fn prod(l: Type, r: Type) -> Type {
    Type::Prod(Rc::new(l), Rc::new(r))
}

fn idxfn(x: &str, a: Type) -> Type {
    Type::IdxFn(s(x), Sort::NmSet, Rc::new(a))
}

fn ex(x: &str, p: Prop, a: Type) -> Type {
    Type::Exists(s(x), Rc::new(Sort::NmSet), p, Rc::new(a))
}

fn pure_effect() -> Effect {
    Effect::WR(IdxTm::Empty, IdxTm::Empty)
}

/// F a [r; w]
fn ret(a: Type, r: IdxTm, w: IdxTm) -> CEffect {
    CEffect::Cons(CType::Lift(a), Effect::WR(r, w))
}

#[test]
fn index_term_leaves_a_type_without_indices_alone() {
    let a = sum(
        tvar("x"),
        prod(
            Type::Unit,
            Type::Rec(s("x"), Rc::new(Type::TypeApp(Rc::new(tvar("x")), Rc::new(tvar("y"))))),
        ),
    );
    let r = subst_idxtm_type(IdxTm::Empty, &s("x"), a.clone());
    assert_eq!(r, a);
    let r = subst_term_type(Term::NmTm(nvar("k")), &s("x"), a.clone());
    assert_eq!(r, a);
}

#[test]
fn index_term_goes_into_the_indices_of_a_type() {
    let a = prod(
        Type::Ref(ivar("X"), Rc::new(tvar("X"))),
        Type::IdxApp(Rc::new(Type::Nm(ivar("X"))), pair(ivar("X"), ivar("Y"))),
    );
    let want = prod(
        Type::Ref(IdxTm::Empty, Rc::new(tvar("X"))),
        Type::IdxApp(Rc::new(Type::Nm(IdxTm::Empty)), pair(IdxTm::Empty, ivar("Y"))),
    );
    assert_eq!(subst_idxtm_type(IdxTm::Empty, &s("X"), a), want);
}

#[test]
fn name_term_goes_into_the_names_of_a_type() {
    let a = prod(Type::NmFn(nvar("a")), Type::Nm(IdxTm::Sing(nvar("a"))));
    let want = prod(Type::NmFn(nvar("b")), Type::Nm(IdxTm::Sing(nvar("b"))));
    assert_eq!(subst_term_type(Term::NmTm(nvar("b")), &s("a"), a), want);
}

#[test]
fn type_variable_gives_way_to_the_type() {
    let b = prod(Type::Unit, Type::Prim(PrimType::Nat));
    assert_eq!(subst_type_type(b.clone(), &s("x"), tvar("x")), b);
    let a = sum(tvar("x"), Type::TypeApp(Rc::new(tvar("y")), Rc::new(tvar("x"))));
    let want = sum(b.clone(), Type::TypeApp(Rc::new(tvar("y")), Rc::new(b.clone())));
    assert_eq!(subst_type_type(b, &s("x"), a), want);
}

#[test]
fn variable_in_its_own_place_changes_nothing() {
    let ce = CEffect::ForallType(
        s("x"),
        Kind::Type,
        Rc::new(ret(tvar("x"), ivar("x"), IdxTm::WriteScope)),
    );
    let a = idxfn(
        "y",
        sum(
            Type::IdentDef(s("Foo"), Rc::new(tvar("x"))),
            prod(
                Type::Thk(pair(ivar("x"), ivar("y")), Rc::new(ce)),
                Type::Rec(s("x"), Rc::new(tvar("x"))),
            ),
        ),
    );
    assert_eq!(subst_type_type(tvar("x"), &s("x"), a.clone()), a);
    assert_eq!(subst_idxtm_type(ivar("x"), &s("x"), a.clone()), a);
    assert_eq!(subst_idxtm_type(ivar("y"), &s("y"), a.clone()), a);
    assert_eq!(subst_term_type(Term::NmTm(nvar("x")), &s("x"), a.clone()), a);
}

#[test]
fn leaves_that_are_no_type_variables_stay() {
    for a in [
        Type::Unit,
        Type::Abstract(s("x")),
        Type::Ident(s("x")),
        Type::IdentUndef(s("x")),
        Type::Prim(PrimType::Bool),
        Type::Prim(PrimType::Char),
        Type::Prim(PrimType::String),
        Type::NoParse(s("x")),
        tvar("y"),
    ] {
        assert_eq!(subst_type_type(Type::Unit, &s("x"), a.clone()), a);
    }
}

#[test]
fn index_binder_of_a_type_shadows_its_variable() {
    let a = idxfn("y", Type::Nm(pair(ivar("y"), ivar("z"))));
    assert_eq!(subst_idxtm_type(IdxTm::Empty, &s("y"), a.clone()), a);
    assert_eq!(subst_idxtm_type(ivar("z"), &s("y"), a.clone()), a);
    let a = ex(
        "y",
        Prop::Equiv(ivar("y"), IdxTm::Empty, Sort::NmSet),
        Type::Nm(ivar("y")),
    );
    assert_eq!(subst_idxtm_type(IdxTm::Unit, &s("y"), a.clone()), a);
}

#[test]
fn index_binder_does_not_shadow_a_type_variable() {
    let a = idxfn("y", prod(tvar("y"), Type::Nm(ivar("y"))));
    let want = idxfn("y", prod(Type::Unit, Type::Nm(ivar("y"))));
    assert_eq!(subst_type_type(Type::Unit, &s("y"), a), want);
}

#[test]
fn type_binders_shadow_type_variables_only() {
    let body = prod(tvar("t"), Type::Nm(ivar("t")));
    let rec = Type::Rec(s("t"), Rc::new(body.clone()));
    let tfn = Type::TypeFn(s("t"), Kind::Type, Rc::new(body.clone()));
    assert_eq!(subst_type_type(Type::Unit, &s("t"), rec.clone()), rec);
    assert_eq!(subst_type_type(Type::Unit, &s("t"), tfn.clone()), tfn);
    let body2 = prod(tvar("t"), Type::Nm(IdxTm::Empty));
    assert_eq!(
        subst_idxtm_type(IdxTm::Empty, &s("t"), rec),
        Type::Rec(s("t"), Rc::new(body2.clone()))
    );
    assert_eq!(
        subst_idxtm_type(IdxTm::Empty, &s("t"), tfn),
        Type::TypeFn(s("t"), Kind::Type, Rc::new(body2))
    );
    let body3 = prod(Type::Unit, Type::Nm(ivar("t")));
    assert_eq!(
        subst_type_type(
            Type::Unit,
            &s("t"),
            Type::Rec(s("u"), Rc::new(body.clone()))
        ),
        Type::Rec(s("u"), Rc::new(body3))
    );
}

#[test]
fn type_binders_do_not_give_way() {
    // rec u. t  with u for t: the binder stays, the variable is caught
    let a = Type::Rec(s("u"), Rc::new(tvar("t")));
    let want = Type::Rec(s("u"), Rc::new(tvar("u")));
    assert_eq!(subst_type_type(tvar("u"), &s("t"), a), want);
}

#[test]
fn index_binder_of_a_type_gives_way_to_a_free_variable() {
    // forall y. Nm (x, y)  with y for x
    let body = idxfn("y", Type::Nm(pair(ivar("x"), ivar("y"))));
    let r = subst_idxtm_type(ivar("y"), &s("x"), body.clone());
    let want = idxfn("y~", Type::Nm(pair(ivar("y"), ivar("y~"))));
    assert_eq!(r, want);
    let caught = idxfn("y", Type::Nm(pair(ivar("y"), ivar("y"))));
    assert_ne!(r, caught);
}

#[test]
fn index_binder_gives_way_though_the_variable_is_absent() {
    // forall y. Nm y  with y for x: x is not there, the binder is renamed all the same
    let body = idxfn("y", Type::Nm(ivar("y")));
    let r = subst_idxtm_type(ivar("y"), &s("x"), body.clone());
    assert_eq!(r, idxfn("y~", Type::Nm(ivar("y~"))));
    assert_ne!(r, body);
}

#[test]
fn index_binder_gives_way_to_a_free_index_of_a_type() {
    // forall y. t * Nm y  with (Nm y) for t
    let body = idxfn("y", prod(tvar("t"), Type::Nm(ivar("y"))));
    let r = subst_type_type(Type::Nm(ivar("y")), &s("t"), body);
    assert_eq!(
        r,
        idxfn("y~", prod(Type::Nm(ivar("y")), Type::Nm(ivar("y~"))))
    );
}

#[test]
fn existential_gives_way_in_proposition_and_body() {
    let a = ex(
        "y",
        Prop::Apart(ivar("y"), ivar("x"), Sort::NmSet),
        Type::Nm(pair(ivar("x"), ivar("y"))),
    );
    let r = subst_idxtm_type(pair(ivar("y"), ivar("z")), &s("x"), a);
    let t = pair(ivar("y"), ivar("z"));
    let want = ex(
        "y~",
        Prop::Apart(ivar("y~"), t.clone(), Sort::NmSet),
        Type::Nm(pair(t, ivar("y~"))),
    );
    assert_eq!(r, want);
}

#[test]
fn existential_is_rewritten_in_proposition_and_body() {
    let a = ex(
        "y",
        Prop::Apart(ivar("y"), ivar("x"), Sort::NmSet),
        Type::Nm(pair(ivar("x"), ivar("y"))),
    );
    let want = ex(
        "y",
        Prop::Apart(ivar("y"), IdxTm::Empty, Sort::NmSet),
        Type::Nm(pair(IdxTm::Empty, ivar("y"))),
    );
    assert_eq!(subst_idxtm_type(IdxTm::Empty, &s("x"), a), want);
}

#[test]
fn renaming_goes_on_below_a_renamed_binder() {
    // forall y. forall y~. Nm ((y, y~), x)  with y for x
    let a = idxfn(
        "y",
        idxfn("y~", Type::Nm(pair(pair(ivar("y"), ivar("y~")), ivar("x")))),
    );
    let r = subst_idxtm_type(ivar("y"), &s("x"), a);
    let want = idxfn(
        "y~",
        idxfn("y~~", Type::Nm(pair(pair(ivar("y~"), ivar("y~~")), ivar("y")))),
    );
    assert_eq!(r, want);
}

#[test]
fn thunk_keeps_its_effect_from_the_write_scope_variables() {
    let ce = ret(
        Type::Nm(pair(IdxTm::WriteScope, ivar("@!"))),
        IdxTm::Sing(NameTm::App(Rc::new(NameTm::WriteScope), Rc::new(nvar("@@")))),
        ivar("X"),
    );
    let thk = |i: IdxTm, ce: CEffect| Type::Thk(i, Rc::new(ce));
    let a = thk(pair(IdxTm::WriteScope, IdxTm::Sing(NameTm::WriteScope)), ce.clone());

    let r = subst_idxtm_type(ivar("W"), &s("@!"), a.clone());
    assert_eq!(
        r,
        thk(pair(ivar("W"), IdxTm::Sing(NameTm::WriteScope)), ce.clone())
    );
    let r = subst_term_type(Term::NmTm(nvar("w")), &s("@@"), a.clone());
    assert_eq!(
        r,
        thk(pair(IdxTm::WriteScope, IdxTm::Sing(nvar("w"))), ce.clone())
    );
    let r = subst_type_type(Type::Unit, &s("@@"), thk(IdxTm::Empty, ret(tvar("@@"), IdxTm::Empty, IdxTm::Empty)));
    assert_eq!(
        r,
        thk(IdxTm::Empty, ret(tvar("@@"), IdxTm::Empty, IdxTm::Empty))
    );
}

#[test]
fn thunk_lets_every_other_variable_into_its_effect() {
    let ce = ret(
        Type::Nm(pair(IdxTm::WriteScope, ivar("X"))),
        IdxTm::Sing(NameTm::WriteScope),
        ivar("X"),
    );
    let a = Type::Thk(ivar("X"), Rc::new(ce));
    let want = Type::Thk(
        IdxTm::Empty,
        Rc::new(ret(
            Type::Nm(pair(IdxTm::WriteScope, IdxTm::Empty)),
            IdxTm::Sing(NameTm::WriteScope),
            IdxTm::Empty,
        )),
    );
    assert_eq!(subst_idxtm_type(IdxTm::Empty, &s("X"), a), want);
}

#[test]
fn identifier_is_forgotten_when_its_definition_changes() {
    let foo = Type::IdentDef(s("Foo"), Rc::new(tvar("x")));
    let b = prod(Type::Unit, Type::Unit);
    assert_eq!(subst_type_type(b.clone(), &s("x"), foo), b);
}

#[test]
fn identifier_is_kept_when_its_definition_stays() {
    let foo = Type::IdentDef(s("Foo"), Rc::new(tvar("x")));
    assert_eq!(subst_type_type(Type::Unit, &s("y"), foo.clone()), foo);
    // the variable in its own place changes nothing, so the identifier stays
    assert_eq!(subst_type_type(tvar("x"), &s("x"), foo.clone()), foo);
}

#[test]
fn nested_identifiers_are_forgotten_from_the_inside() {
    let inner = Type::IdentDef(s("In"), Rc::new(tvar("x")));
    let outer = Type::IdentDef(s("Out"), Rc::new(sum(inner, tvar("y"))));
    let r = subst_type_type(Type::Unit, &s("x"), outer.clone());
    assert_eq!(r, sum(Type::Unit, tvar("y")));
    let r = subst_type_type(Type::Unit, &s("y"), outer);
    assert_eq!(
        r,
        sum(Type::IdentDef(s("In"), Rc::new(tvar("x"))), Type::Unit)
    );
}

#[test]
fn shared_type_is_rebuilt_not_changed() {
    let shared = Rc::new(sum(tvar("x"), tvar("y")));
    let r = subst_term_type_rec(Term::Type(Type::Unit), &s("x"), shared.clone());
    assert_eq!(*r, sum(Type::Unit, tvar("y")));
    assert_eq!(*shared, sum(tvar("x"), tvar("y")));
}

#[test]
fn computation_types_are_rewritten_on_both_sides() {
    let c = CType::Arrow(
        prod(tvar("t"), Type::Nm(ivar("t"))),
        Rc::new(ret(tvar("t"), ivar("t"), IdxTm::Empty)),
    );
    let want = CType::Arrow(
        prod(Type::Unit, Type::Nm(ivar("t"))),
        Rc::new(ret(Type::Unit, ivar("t"), IdxTm::Empty)),
    );
    assert_eq!(subst_term_ctype(Term::Type(Type::Unit), &s("t"), c.clone()), want);
    let want = CType::Arrow(
        prod(tvar("t"), Type::Nm(IdxTm::Unit)),
        Rc::new(ret(tvar("t"), IdxTm::Unit, IdxTm::Empty)),
    );
    assert_eq!(subst_term_ctype(Term::IdxTm(IdxTm::Unit), &s("t"), c), want);
    let lift = CType::Lift(tvar("t"));
    assert_eq!(
        subst_term_ctype(Term::Type(Type::Unit), &s("t"), lift),
        CType::Lift(Type::Unit)
    );
    let bad = CType::NoParse(s("t"));
    assert_eq!(subst_term_ctype(Term::Type(Type::Unit), &s("t"), bad.clone()), bad);
}

#[test]
fn effect_binders_shadow_at_their_own_sort() {
    let body = ret(tvar("v"), ivar("v"), IdxTm::Empty);
    let all_t = CEffect::ForallType(s("v"), Kind::Type, Rc::new(body.clone()));
    let p = Prop::Equiv(ivar("v"), IdxTm::Empty, Sort::NmSet);
    let all_i = CEffect::ForallIdx(s("v"), Sort::NmSet, p.clone(), Rc::new(body.clone()));

    assert_eq!(subst_term_ceffect(Term::Type(Type::Unit), &s("v"), all_t.clone()), all_t);
    assert_eq!(subst_term_ceffect(Term::IdxTm(IdxTm::Unit), &s("v"), all_i.clone()), all_i);

    let want = CEffect::ForallType(
        s("v"),
        Kind::Type,
        Rc::new(ret(tvar("v"), IdxTm::Unit, IdxTm::Empty)),
    );
    assert_eq!(subst_term_ceffect(Term::IdxTm(IdxTm::Unit), &s("v"), all_t), want);
    let want = CEffect::ForallIdx(
        s("v"),
        Sort::NmSet,
        p,
        Rc::new(ret(Type::Unit, ivar("v"), IdxTm::Empty)),
    );
    assert_eq!(subst_term_ceffect(Term::Type(Type::Unit), &s("v"), all_i), want);
}

#[test]
fn effect_binder_of_indices_is_rewritten_in_its_proposition() {
    let ce = CEffect::ForallIdx(
        s("v"),
        Sort::NmSet,
        Prop::Apart(ivar("v"), ivar("w"), Sort::NmSet),
        Rc::new(ret(Type::Unit, ivar("w"), ivar("v"))),
    );
    let want = CEffect::ForallIdx(
        s("v"),
        Sort::NmSet,
        Prop::Apart(ivar("v"), IdxTm::Empty, Sort::NmSet),
        Rc::new(ret(Type::Unit, IdxTm::Empty, ivar("v"))),
    );
    assert_eq!(subst_term_ceffect(Term::IdxTm(IdxTm::Empty), &s("w"), ce.clone()), want);
    assert_eq!(
        *subst_term_ceffect_rec(Term::IdxTm(IdxTm::Empty), &s("w"), Rc::new(ce)),
        want
    );
    let bad = CEffect::NoParse(s("?"));
    assert_eq!(subst_term_ceffect(Term::IdxTm(IdxTm::Empty), &s("w"), bad.clone()), bad);
}

#[test]
fn effect_binders_do_not_give_way() {
    // forall v. F 1 [w; 0]  with v for w: the binder stays, the variable is caught
    let ce = CEffect::ForallIdx(
        s("v"),
        Sort::NmSet,
        Prop::Tt,
        Rc::new(ret(Type::Unit, ivar("w"), IdxTm::Empty)),
    );
    let want = CEffect::ForallIdx(
        s("v"),
        Sort::NmSet,
        Prop::Tt,
        Rc::new(ret(Type::Unit, ivar("v"), IdxTm::Empty)),
    );
    assert_eq!(subst_term_ceffect(Term::IdxTm(ivar("v")), &s("w"), ce), want);
}

#[test]
fn fresh_variable_is_free_where_the_old_one_was() {
    // forall z. (Ref (y, z) t) * (forall y. Nm y)
    let a = idxfn(
        "z",
        prod(
            Type::Ref(pair(ivar("y"), ivar("z")), Rc::new(tvar("t"))),
            idxfn("y", Type::Nm(ivar("y"))),
        ),
    );
    let x = Term::IdxTm(ivar("x"));
    let y = Term::IdxTm(ivar("y"));
    assert!(fv_contains(&fv_of_term(&Term::Type(a.clone())), &y));
    let r = subst_idxtm_type(ivar("x"), &s("y"), a);
    let fv = fv_of_term(&Term::Type(r));
    assert!(fv_contains(&fv, &x));
    assert!(!fv_contains(&fv, &y));
    assert_eq!(fv, vec![x.clone(), Term::Type(tvar("t"))]);

    // where y was not free, x is not free afterwards
    let b = idxfn("y", Type::Nm(pair(ivar("y"), ivar("z"))));
    assert!(!fv_contains(&fv_of_term(&Term::Type(b.clone())), &y));
    let r = subst_idxtm_type(ivar("x"), &s("y"), b);
    let fv = fv_of_term(&Term::Type(r));
    assert!(!fv_contains(&fv, &x));
    assert!(!fv_contains(&fv, &y));
}
