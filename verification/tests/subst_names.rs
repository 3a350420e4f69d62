use fungi_lang::ast::{IdxTm, Name, NameTm, Sort, Term, Type};
use fungi_lang::subst::{subst_nmtm, subst_nmtm_rec, subst_term_nmtm, subst_term_nmtm_rec};
use std::rc::Rc;

fn s(x: &str) -> String {
    x.to_string()
}

fn nvar(x: &str) -> NameTm {
    NameTm::Var(s(x))
}

fn sym(x: &str) -> NameTm {
    NameTm::Name(Name::Sym(s(x)))
}

fn bin(l: NameTm, r: NameTm) -> NameTm {
    NameTm::Bin(Rc::new(l), Rc::new(r))
}

fn app(l: NameTm, r: NameTm) -> NameTm {
    NameTm::App(Rc::new(l), Rc::new(r))
}

fn lam(x: &str, m: NameTm) -> NameTm {
    NameTm::Lam(s(x), Sort::Nm, Rc::new(m))
}

#[test]
fn name_variable_gives_way_to_a_name_term() {
    let m = app(bin(nvar("a"), nvar("b")), nvar("a"));
    let r = subst_nmtm(sym("k"), &s("a"), m);
    assert_eq!(r, app(bin(sym("k"), nvar("b")), sym("k")));
}

#[test]
fn only_a_name_term_goes_into_a_name_term() {
    let m = app(bin(nvar("a"), NameTm::WriteScope), nvar("a"));
    let r = subst_term_nmtm(Term::IdxTm(IdxTm::Empty), &s("a"), m.clone());
    assert_eq!(r, m);
    let r = subst_term_nmtm(Term::Type(Type::Unit), &s("a"), m.clone());
    assert_eq!(r, m);
    let r = subst_term_nmtm(Term::IdxTm(IdxTm::Empty), &s("@@"), m.clone());
    assert_eq!(r, m);
}

#[test]
fn leaves_that_are_no_name_variables_stay() {
    let t = Term::NmTm(sym("k"));
    for m in [
        NameTm::ValVar(s("a")),
        NameTm::Ident(s("a")),
        NameTm::NoParse(s("a")),
        NameTm::Name(Name::Sym(s("a"))),
        NameTm::Name(Name::NoParse(s("a"))),
        NameTm::WriteScope,
        nvar("b"),
    ] {
        assert_eq!(subst_term_nmtm(t.clone(), &s("a"), m.clone()), m);
    }
}

#[test]
fn write_scope_of_names_gives_way_to_its_variable() {
    let m = app(NameTm::WriteScope, nvar("@@"));
    let r = subst_nmtm(sym("ws"), &s("@@"), m);
    assert_eq!(r, app(sym("ws"), sym("ws")));
    // the variable of the other write scope is an ordinary variable here
    let m = app(NameTm::WriteScope, nvar("@!"));
    let r = subst_nmtm(sym("ws"), &s("@!"), m);
    assert_eq!(r, app(NameTm::WriteScope, sym("ws")));
}

#[test]
fn name_binder_shadows_its_variable() {
    let m = lam("a", bin(nvar("a"), nvar("b")));
    assert_eq!(subst_nmtm(sym("k"), &s("a"), m.clone()), m);
    let r = subst_nmtm(sym("k"), &s("b"), m);
    assert_eq!(r, lam("a", bin(nvar("a"), sym("k"))));
}

#[test]
fn name_binder_gives_way_to_a_free_variable() {
    // [a/b] #a. a,b  =  #a~. a~,a
    let m = lam("a", bin(nvar("a"), nvar("b")));
    let r = subst_nmtm(nvar("a"), &s("b"), m);
    assert_eq!(r, lam("a~", bin(nvar("a~"), nvar("a"))));
}

#[test]
fn renaming_goes_on_where_the_primed_name_is_bound_below() {
    // [a/b] #a. #a~. (a, a~), b  =  #a~. #a~~. (a~, a~~), a
    let m = lam("a", lam("a~", bin(bin(nvar("a"), nvar("a~")), nvar("b"))));
    let r = subst_nmtm(nvar("a"), &s("b"), m);
    assert_eq!(
        r,
        lam("a~", lam("a~~", bin(bin(nvar("a~"), nvar("a~~")), nvar("a"))))
    );
}

#[test]
fn shared_name_term_is_rebuilt_not_changed() {
    let shared = Rc::new(bin(nvar("a"), nvar("b")));
    let r = subst_nmtm_rec(sym("k"), &s("a"), shared.clone());
    assert_eq!(*r, bin(sym("k"), nvar("b")));
    assert_eq!(*shared, bin(nvar("a"), nvar("b")));
    let r = subst_term_nmtm_rec(Term::NmTm(sym("k")), &s("b"), shared.clone());
    assert_eq!(*r, bin(nvar("a"), sym("k")));
    assert_eq!(*shared, bin(nvar("a"), nvar("b")));
}
