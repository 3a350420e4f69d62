use fungi_lang::ast::{
    CEffect, CType, Effect, IdxTm, Name, NameTm, NmSet, NmSetCons, NmSetTm, Prop, Sort, Term, Type,
};
use fungi_lang::rewrite::{
    rewrite_ceffect, rewrite_ctype, rewrite_effect, rewrite_idxtm, rewrite_nmtm, rewrite_prop,
    rewrite_type,
};
use fungi_lang::subst::{
    subst_term_idxtm_rec, subst_term_nmtm_rec, subst_term_type_rec, subst_type_type,
};
use std::rc::Rc;

fn s(x: &str) -> String {
    x.to_string()
}

fn nvar(x: &str) -> NameTm {
    NameTm::Var(s(x))
}

fn ivar(x: &str) -> IdxTm {
    IdxTm::Var(s(x))
}

fn tvar(x: &str) -> Type {
    Type::Var(s(x))
}

fn untouched() -> Type {
    Type::IdxFn(
        s("X"),
        Sort::NmSet,
        Rc::new(Type::Ref(
            ivar("X"),
            Rc::new(Type::Prod(Rc::new(tvar("a")), Rc::new(tvar("b")))),
        )),
    )
}

#[test]
fn sub_term_without_the_variable_is_the_same_node_in_the_result() {
    let left = Rc::new(untouched());
    let right = Rc::new(tvar("x"));
    let a = Type::Sum(left.clone(), right.clone());
    match subst_type_type(Type::Unit, &s("x"), a) {
        Type::Sum(l, r) => {
            assert!(Rc::ptr_eq(&l, &left));
            assert!(!Rc::ptr_eq(&r, &right));
            assert_eq!(*r, Type::Unit);
        }
        other => panic!("a sum became {:?}", other),
    }
    assert_eq!(*right, tvar("x"));
}

#[test]
fn term_without_the_variable_comes_back_as_the_same_node() {
    let a = Rc::new(untouched());
    let r = subst_term_type_rec(Term::Type(Type::Unit), &s("x"), a.clone());
    assert!(Rc::ptr_eq(&r, &a));
    let i = Rc::new(IdxTm::Pair(Rc::new(ivar("X")), Rc::new(IdxTm::Sing(nvar("a")))));
    let r = subst_term_idxtm_rec(Term::IdxTm(IdxTm::Empty), &s("Y"), i.clone());
    assert!(Rc::ptr_eq(&r, &i));
    let n = Rc::new(NameTm::Bin(Rc::new(nvar("a")), Rc::new(NameTm::WriteScope)));
    let r = subst_term_nmtm_rec(Term::NmTm(nvar("c")), &s("b"), n.clone());
    assert!(Rc::ptr_eq(&r, &n));
}

#[test]
fn body_of_a_shadowing_binder_is_the_same_node() {
    let body = Rc::new(Type::Nm(ivar("X")));
    let a = Type::Prod(
        Rc::new(Type::IdxFn(s("X"), Sort::NmSet, body.clone())),
        Rc::new(Type::Nm(ivar("X"))),
    );
    match rewrite_type(&Term::IdxTm(IdxTm::Empty), &s("X"), &a) {
        Some(Type::Prod(l, r)) => {
            match &*l {
                Type::IdxFn(_, _, b) => assert!(Rc::ptr_eq(b, &body)),
                other => panic!("a binder became {:?}", other),
            }
            assert_eq!(*r, Type::Nm(IdxTm::Empty));
        }
        other => panic!("a product became {:?}", other),
    }
}

#[test]
fn effect_of_a_thunk_is_the_same_node_for_a_write_scope_variable() {
    let ce = Rc::new(CEffect::Cons(
        CType::Lift(Type::Nm(IdxTm::WriteScope)),
        Effect::WR(IdxTm::Empty, IdxTm::WriteScope),
    ));
    let a = Type::Thk(IdxTm::WriteScope, ce.clone());
    match rewrite_type(&Term::IdxTm(ivar("W")), &s("@!"), &a) {
        Some(Type::Thk(i, ce2)) => {
            assert_eq!(i, ivar("W"));
            assert!(Rc::ptr_eq(&ce2, &ce));
        }
        other => panic!("a thunk became {:?}", other),
    }
}

#[test]
fn nothing_is_answered_where_nothing_changes() {
    let t = Term::IdxTm(IdxTm::Empty);
    let x = s("X");
    assert_eq!(rewrite_type(&t, &x, &untouched()), None);
    assert_eq!(rewrite_type(&t, &s("a"), &untouched()), None);
    assert_eq!(rewrite_nmtm(&t, &x, &nvar("X")), None);
    assert_eq!(rewrite_idxtm(&t, &x, &ivar("Y")), None);
    assert_eq!(
        rewrite_prop(&t, &x, &Prop::Equiv(ivar("Y"), ivar("Z"), Sort::NmSet)),
        None
    );
    assert_eq!(rewrite_effect(&t, &x, &Effect::WR(ivar("Y"), ivar("Z"))), None);
    assert_eq!(rewrite_ctype(&t, &x, &CType::Lift(Type::Nm(ivar("Y")))), None);
    assert_eq!(
        rewrite_ceffect(
            &t,
            &x,
            &CEffect::ForallIdx(
                s("X"),
                Sort::NmSet,
                Prop::Tt,
                Rc::new(CEffect::Cons(
                    CType::Lift(Type::Nm(ivar("X"))),
                    Effect::WR(ivar("X"), IdxTm::Empty)
                ))
            )
        ),
        None
    );
    let set = IdxTm::NmSet(NmSet {
        cons: Some(NmSetCons::Union),
        terms: vec![
            NmSetTm::Single(NameTm::Name(Name::Leaf)),
            NmSetTm::Subset(ivar("Y")),
        ],
    });
    assert_eq!(rewrite_idxtm(&t, &x, &set), None);
    // an identifier whose definition stays is kept
    let foo = Type::IdentDef(s("Foo"), Rc::new(tvar("x")));
    assert_eq!(rewrite_type(&Term::Type(tvar("x")), &s("x"), &foo), None);
}

#[test]
fn new_term_is_answered_where_something_changes() {
    let t = Term::IdxTm(IdxTm::Empty);
    let x = s("X");
    assert_eq!(rewrite_idxtm(&t, &x, &ivar("X")), Some(IdxTm::Empty));
    assert_eq!(
        rewrite_type(&t, &x, &Type::Nm(ivar("X"))),
        Some(Type::Nm(IdxTm::Empty))
    );
    assert_eq!(
        rewrite_prop(&t, &x, &Prop::Apart(ivar("X"), ivar("Z"), Sort::NmSet)),
        Some(Prop::Apart(IdxTm::Empty, ivar("Z"), Sort::NmSet))
    );
    assert_eq!(
        rewrite_effect(&t, &x, &Effect::WR(ivar("Y"), ivar("X"))),
        Some(Effect::WR(ivar("Y"), IdxTm::Empty))
    );
    assert_eq!(
        rewrite_ctype(&t, &x, &CType::Lift(Type::Nm(ivar("X")))),
        Some(CType::Lift(Type::Nm(IdxTm::Empty)))
    );
    assert_eq!(
        rewrite_ceffect(
            &t,
            &x,
            &CEffect::Cons(CType::Lift(Type::Unit), Effect::WR(ivar("X"), IdxTm::Unit))
        ),
        Some(CEffect::Cons(
            CType::Lift(Type::Unit),
            Effect::WR(IdxTm::Empty, IdxTm::Unit)
        ))
    );
    assert_eq!(
        rewrite_nmtm(&Term::NmTm(nvar("b")), &s("a"), &nvar("a")),
        Some(nvar("b"))
    );
    // a binder that gives way is a change, whatever its body holds
    let a = Type::IdxFn(s("y"), Sort::NmSet, Rc::new(Type::Unit));
    assert_eq!(
        rewrite_type(&Term::IdxTm(ivar("y")), &x, &a),
        Some(Type::IdxFn(s("y~"), Sort::NmSet, Rc::new(Type::Unit)))
    );
}
