use fungi_lang::ast::{IdxTm, NameTm, Sort, Term, Type};
use fungi_lang::subst::{
    alpha_vary, fv_contains, fv_contains_idxtm, idxtm_writescope_var_str,
    nmtm_writescope_var_str, term_has_no_primed_pair, term_is_idxtm, term_is_nmtm, term_is_type,
};
use std::rc::Rc;

fn s(x: &str) -> String {
    x.to_string()
}

#[test]
fn alpha_vary_appends_a_tilde() {
    assert_eq!(alpha_vary(&s("x")), "x~");
    assert_eq!(alpha_vary(&s("x~")), "x~~");
    assert_eq!(alpha_vary(&s("")), "~");
}

#[test]
fn write_scope_variables_are_spelled_as_documented() {
    assert_eq!(idxtm_writescope_var_str(), "@!");
    assert_eq!(nmtm_writescope_var_str(), "@@");
}

#[test]
fn term_predicates_tell_the_sorts_apart() {
    let n = Term::NmTm(NameTm::Var(s("a")));
    let i = Term::IdxTm(IdxTm::Empty);
    let a = Term::Type(Type::Unit);
    assert!(term_is_nmtm(&n) && !term_is_idxtm(&n) && !term_is_type(&n));
    assert!(!term_is_nmtm(&i) && term_is_idxtm(&i) && !term_is_type(&i));
    assert!(!term_is_nmtm(&a) && !term_is_idxtm(&a) && term_is_type(&a));
}

#[test]
fn fv_contains_compares_whole_terms() {
    let fv = vec![
        Term::NmTm(NameTm::Var(s("a"))),
        Term::IdxTm(IdxTm::Var(s("b"))),
        Term::IdxTm(IdxTm::WriteScope),
    ];
    assert!(fv_contains(&fv, &Term::NmTm(NameTm::Var(s("a")))));
    assert!(fv_contains(&fv, &Term::IdxTm(IdxTm::WriteScope)));
    // the same name at another sort is another variable
    assert!(!fv_contains(&fv, &Term::IdxTm(IdxTm::Var(s("a")))));
    assert!(!fv_contains(&fv, &Term::NmTm(NameTm::ValVar(s("a")))));
    assert!(!fv_contains(&vec![], &Term::Type(Type::Unit)));
}

#[test]
fn fv_contains_idxtm_looks_for_an_index_variable() {
    let fv = vec![Term::NmTm(NameTm::Var(s("a"))), Term::IdxTm(IdxTm::Var(s("b")))];
    assert!(fv_contains_idxtm(&fv, &s("b")));
    assert!(!fv_contains_idxtm(&fv, &s("a")));
    assert!(!fv_contains_idxtm(&fv, &s("c")));
}

#[test]
fn primed_pair_is_found_among_free_variables_only() {
    let pair = |l: &str, r: &str| {
        IdxTm::Pair(Rc::new(IdxTm::Var(s(l))), Rc::new(IdxTm::Var(s(r))))
    };
    assert!(term_has_no_primed_pair(&Term::IdxTm(pair("y", "z"))));
    assert!(!term_has_no_primed_pair(&Term::IdxTm(pair("y", "y~"))));
    assert!(!term_has_no_primed_pair(&Term::IdxTm(pair("y~", "y"))));
    // a bound primed name does not count
    let bound = IdxTm::Pair(
        Rc::new(IdxTm::Var(s("y"))),
        Rc::new(IdxTm::Lam(s("y~"), Sort::NmSet, Rc::new(IdxTm::Var(s("y~"))))),
    );
    assert!(term_has_no_primed_pair(&Term::IdxTm(bound)));
    // a name variable and an index variable are no pair
    let mixed = IdxTm::Pair(
        Rc::new(IdxTm::Var(s("y~"))),
        Rc::new(IdxTm::Sing(NameTm::Var(s("y")))),
    );
    assert!(term_has_no_primed_pair(&Term::IdxTm(mixed)));
    let names = NameTm::Bin(Rc::new(NameTm::Var(s("a"))), Rc::new(NameTm::Var(s("a~"))));
    assert!(!term_has_no_primed_pair(&Term::NmTm(names)));
    assert!(term_has_no_primed_pair(&Term::Type(Type::Unit)));
}
