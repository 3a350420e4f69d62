use fungi_lang::ast::{
    CEffect, CType, Effect, IdxTm, Kind, Name, NameTm, NmSet, NmSetCons, NmSetTm, Prop, Sort, Term,
    Type,
};
use fungi_lang::subst::{
    fv_of_ceffect, fv_of_ctype, fv_of_effect, fv_of_idxtm, fv_of_nmtm, fv_of_prop, fv_of_term,
    fv_of_type,
};
use std::rc::Rc;

fn s(x: &str) -> String {
    x.to_string()
}

fn nvar(x: &str) -> NameTm {
    NameTm::Var(s(x))
}

fn ivar(x: &str) -> IdxTm {
    IdxTm::Var(s(x))
}

fn tvar(x: &str) -> Type {
    Type::Var(s(x))
}

fn n_(x: &str) -> Term {
    Term::NmTm(nvar(x))
}

fn i_(x: &str) -> Term {
    Term::IdxTm(ivar(x))
}

fn t_(x: &str) -> Term {
    Term::Type(tvar(x))
}

fn pure_effect() -> Effect {
    Effect::WR(IdxTm::Empty, IdxTm::Empty)
}

#[test]
fn binder_hides_its_variable_from_its_body_only() {
    // (#a. a,b) a
    let t = NameTm::App(
        Rc::new(NameTm::Lam(
            s("a"),
            Sort::Nm,
            Rc::new(NameTm::Bin(Rc::new(nvar("a")), Rc::new(nvar("b")))),
        )),
        Rc::new(nvar("a")),
    );
    assert_eq!(fv_of_term(&Term::NmTm(t)), vec![n_("b"), n_("a")]);
}

#[test]
fn every_free_occurrence_is_listed() {
    let t = NameTm::Bin(Rc::new(nvar("a")), Rc::new(nvar("a")));
    assert_eq!(fv_of_term(&Term::NmTm(t)), vec![n_("a"), n_("a")]);
}

#[test]
fn closed_and_unparsed_terms_have_no_free_variables() {
    let empty: Vec<Term> = vec![];
    assert_eq!(fv_of_term(&Term::NmTm(NameTm::Name(Name::Leaf))), empty);
    assert_eq!(fv_of_term(&Term::NmTm(NameTm::NoParse(s("a b")))), empty);
    assert_eq!(fv_of_term(&Term::NmTm(NameTm::Ident(s("a")))), empty);
    assert_eq!(fv_of_term(&Term::IdxTm(IdxTm::NoParse(s("X")))), empty);
    assert_eq!(fv_of_term(&Term::IdxTm(IdxTm::Ident(s("X")))), empty);
    assert_eq!(fv_of_term(&Term::IdxTm(IdxTm::Unknown)), empty);
    assert_eq!(fv_of_term(&Term::IdxTm(IdxTm::Unit)), empty);
    assert_eq!(fv_of_term(&Term::IdxTm(IdxTm::Empty)), empty);
    assert_eq!(fv_of_term(&Term::Type(Type::NoParse(s("T")))), empty);
    assert_eq!(fv_of_term(&Term::Type(Type::Ident(s("T")))), empty);
    assert_eq!(fv_of_term(&Term::Type(Type::Unit)), empty);
}

#[test]
fn write_scope_of_names_is_free_whatever_is_bound() {
    let mut out = vec![];
    fv_of_nmtm(&NameTm::WriteScope, vec![Term::NmTm(NameTm::WriteScope)], &mut out);
    assert_eq!(out, vec![Term::NmTm(NameTm::WriteScope)]);
    let under_lam = NameTm::Lam(s("@@"), Sort::Nm, Rc::new(NameTm::WriteScope));
    assert_eq!(
        fv_of_term(&Term::NmTm(under_lam)),
        vec![Term::NmTm(NameTm::WriteScope)]
    );
}

#[test]
fn write_scope_of_name_sets_is_free_whatever_is_bound() {
    let mut out = vec![];
    fv_of_idxtm(&IdxTm::WriteScope, vec![Term::IdxTm(IdxTm::WriteScope)], &mut out);
    assert_eq!(out, vec![Term::IdxTm(IdxTm::WriteScope)]);
}

#[test]
fn value_variable_is_not_bound_by_a_name_binder() {
    let t = NameTm::Lam(s("v"), Sort::Nm, Rc::new(NameTm::ValVar(s("v"))));
    assert_eq!(
        fv_of_term(&Term::NmTm(t)),
        vec![Term::NmTm(NameTm::ValVar(s("v")))]
    );
    let mut out = vec![];
    fv_of_nmtm(
        &NameTm::ValVar(s("v")),
        vec![Term::NmTm(NameTm::ValVar(s("v")))],
        &mut out,
    );
    assert!(out.is_empty());
}

#[test]
fn free_variables_are_put_behind_what_is_there() {
    let mut out = vec![t_("kept")];
    fv_of_nmtm(
        &NameTm::Bin(Rc::new(nvar("a")), Rc::new(nvar("b"))),
        vec![n_("a")],
        &mut out,
    );
    assert_eq!(out, vec![t_("kept"), n_("b")]);
}

#[test]
fn index_binder_binds_index_variables_only() {
    // #X. (X, Y)
    let t = IdxTm::Lam(
        s("X"),
        Sort::NmSet,
        Rc::new(IdxTm::Pair(Rc::new(ivar("X")), Rc::new(ivar("Y")))),
    );
    assert_eq!(fv_of_term(&Term::IdxTm(t)), vec![i_("Y")]);
    // #a. {a}: the name variable a is another variable
    let t = IdxTm::Lam(s("a"), Sort::NmSet, Rc::new(IdxTm::Sing(nvar("a"))));
    assert_eq!(fv_of_term(&Term::IdxTm(t)), vec![n_("a")]);
}

#[test]
fn index_term_lists_names_and_indices_from_left_to_right() {
    let set = NmSet {
        cons: Some(NmSetCons::Union),
        terms: vec![
            NmSetTm::Single(nvar("a")),
            NmSetTm::Subset(ivar("X")),
            NmSetTm::Single(NameTm::Name(Name::Num(3))),
            NmSetTm::Subset(IdxTm::WriteScope),
        ],
    };
    let t = IdxTm::Apart(
        Rc::new(IdxTm::MapStar(Rc::new(nvar("f")), Rc::new(IdxTm::NmSet(set)))),
        Rc::new(IdxTm::Proj2(Rc::new(IdxTm::NmTm(nvar("g"))))),
    );
    assert_eq!(
        fv_of_term(&Term::IdxTm(t)),
        vec![
            n_("f"),
            n_("a"),
            i_("X"),
            Term::IdxTm(IdxTm::WriteScope),
            n_("g")
        ]
    );
}

#[test]
fn type_binders_bind_at_their_own_sort() {
    // forall X. Ref((X, Y), T)
    let a = Type::IdxFn(
        s("X"),
        Sort::NmSet,
        Rc::new(Type::Ref(
            IdxTm::Pair(Rc::new(ivar("X")), Rc::new(ivar("Y"))),
            Rc::new(tvar("T")),
        )),
    );
    assert_eq!(fv_of_term(&Term::Type(a)), vec![i_("Y"), t_("T")]);
    // rec T. T + U
    let a = Type::Rec(
        s("T"),
        Rc::new(Type::Sum(Rc::new(tvar("T")), Rc::new(tvar("U")))),
    );
    assert_eq!(fv_of_term(&Term::Type(a)), vec![t_("U")]);
    // a binder of the type variable X does not bind the index variable X
    let a = Type::TypeFn(s("X"), Kind::Type, Rc::new(Type::Nm(ivar("X"))));
    assert_eq!(fv_of_term(&Term::Type(a)), vec![i_("X")]);
    // and the other way round
    let a = Type::IdxFn(s("T"), Sort::NmSet, Rc::new(tvar("T")));
    assert_eq!(fv_of_term(&Term::Type(a)), vec![t_("T")]);
}

#[test]
fn existential_binds_in_its_proposition_too() {
    let a = Type::Exists(
        s("X"),
        Rc::new(Sort::NmSet),
        Prop::Equiv(ivar("X"), ivar("Z"), Sort::NmSet),
        Rc::new(Type::Nm(ivar("X"))),
    );
    assert_eq!(fv_of_term(&Term::Type(a)), vec![i_("Z")]);
}

#[test]
fn thunk_binds_the_write_scopes_of_its_effect() {
    let ce = CEffect::Cons(
        CType::Lift(Type::Nm(IdxTm::WriteScope)),
        Effect::WR(
            ivar("X"),
            IdxTm::Sing(NameTm::App(Rc::new(NameTm::WriteScope), Rc::new(nvar("n")))),
        ),
    );
    let a = Type::Thk(IdxTm::Sing(NameTm::WriteScope), Rc::new(ce));
    assert_eq!(
        fv_of_term(&Term::Type(a)),
        vec![Term::NmTm(NameTm::WriteScope), i_("X"), n_("n")]
    );
}

#[test]
fn definition_of_an_identifier_is_looked_into() {
    let a = Type::IdentDef(s("Foo"), Rc::new(tvar("x")));
    assert_eq!(fv_of_term(&Term::Type(a)), vec![t_("x")]);
}

#[test]
fn computation_types_and_effects_are_walked() {
    // forall T. forall X | X % Y. (T -> F U [0; 0]) [X; {a}]
    let inner = CEffect::Cons(CType::Lift(tvar("U")), pure_effect());
    let ce = CEffect::ForallType(
        s("T"),
        Kind::Type,
        Rc::new(CEffect::ForallIdx(
            s("X"),
            Sort::NmSet,
            Prop::Apart(ivar("X"), ivar("Y"), Sort::NmSet),
            Rc::new(CEffect::Cons(
                CType::Arrow(tvar("T"), Rc::new(inner)),
                Effect::WR(ivar("X"), IdxTm::Sing(nvar("a"))),
            )),
        )),
    );
    let mut out = vec![];
    fv_of_ceffect(&ce, vec![], &mut out);
    assert_eq!(out, vec![i_("Y"), t_("U"), n_("a")]);

    let mut out = vec![];
    fv_of_ctype(
        &CType::Arrow(
            tvar("A"),
            Rc::new(CEffect::Cons(CType::Lift(tvar("B")), pure_effect())),
        ),
        vec![t_("A")],
        &mut out,
    );
    assert_eq!(out, vec![t_("B")]);

    let mut out = vec![];
    fv_of_effect(&Effect::WR(ivar("R"), ivar("W")), vec![i_("W")], &mut out);
    assert_eq!(out, vec![i_("R")]);
    let mut out = vec![];
    fv_of_effect(&Effect::NoParse(s("?")), vec![], &mut out);
    assert!(out.is_empty());

    let mut out = vec![];
    fv_of_prop(
        &Prop::Conj(
            Rc::new(Prop::Equiv(ivar("X"), ivar("Y"), Sort::NmSet)),
            Rc::new(Prop::Conj(
                Rc::new(Prop::Tt),
                Rc::new(Prop::Apart(ivar("Z"), IdxTm::Empty, Sort::NmSet)),
            )),
        ),
        vec![],
        &mut out,
    );
    assert_eq!(out, vec![i_("X"), i_("Y"), i_("Z")]);

    let mut out = vec![];
    fv_of_type(&tvar("T"), vec![t_("T")], &mut out);
    assert!(out.is_empty());
}
