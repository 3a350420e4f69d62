use fungi_lang::ast::{
    CEffect, CType, Effect, IdxTm, Kind, Name, NameTm, NmSet, NmSetCons, NmSetTm, PrimType, Prop,
    Sort, Term, Type,
};
use fungi_lang::equal::{idxtm_eq, nmset_eq, type_eq};
use std::rc::Rc;

fn s(x: &str) -> String {
    x.to_string()
}

fn sample_set() -> NmSet {
    NmSet {
        cons: Some(NmSetCons::Apart),
        terms: vec![
            NmSetTm::Single(NameTm::Name(Name::Sym(s("a")))),
            NmSetTm::Subset(IdxTm::Var(s("X"))),
            NmSetTm::Single(NameTm::Name(Name::Num(7))),
        ],
    }
}

fn sample_type() -> Type {
    let ce = CEffect::ForallIdx(
        s("X"),
        Sort::NmSet,
        Prop::Apart(IdxTm::Var(s("X")), IdxTm::Empty, Sort::NmSet),
        Rc::new(CEffect::Cons(
            CType::Arrow(
                Type::Nm(IdxTm::Var(s("X"))),
                Rc::new(CEffect::Cons(
                    CType::Lift(Type::Prim(PrimType::Nat)),
                    Effect::WR(IdxTm::NmSet(sample_set()), IdxTm::WriteScope),
                )),
            ),
            Effect::WR(IdxTm::Empty, IdxTm::Empty),
        )),
    );
    Type::TypeFn(
        s("T"),
        Kind::IdxParam(Sort::Nm, Rc::new(Kind::Type)),
        Rc::new(Type::Prod(
            Rc::new(Type::Thk(IdxTm::Sing(NameTm::WriteScope), Rc::new(ce))),
            Rc::new(Type::Var(s("T"))),
        )),
    )
}

#[test]
fn equality_is_structural() {
    assert_eq!(sample_type(), sample_type());
    assert!(type_eq(&sample_type(), &sample_type()));
    assert_ne!(Type::Var(s("x")), Type::Var(s("y")));
    assert_ne!(Type::Var(s("x")), Type::Ident(s("x")));
    assert_ne!(Type::Prim(PrimType::Nat), Type::Prim(PrimType::Bool));
    assert_ne!(
        Term::NmTm(NameTm::Var(s("x"))),
        Term::IdxTm(IdxTm::Var(s("x")))
    );
    assert_ne!(NameTm::Var(s("x")), NameTm::ValVar(s("x")));
    assert_ne!(
        Sort::NmArrow(Rc::new(Sort::Nm), Rc::new(Sort::Nm)),
        Sort::IdxArrow(Rc::new(Sort::Nm), Rc::new(Sort::Nm))
    );
    assert_ne!(Name::Num(1), Name::Num(2));
    assert_eq!(
        Name::Bin(Rc::new(Name::Leaf), Rc::new(Name::Sym(s("a")))),
        Name::Bin(Rc::new(Name::Leaf), Rc::new(Name::Sym(s("a"))))
    );
}

#[test]
fn literal_sets_are_compared_in_order() {
    let a = sample_set();
    let mut b = sample_set();
    assert!(nmset_eq(&a, &b));
    b.terms.swap(0, 2);
    assert!(!nmset_eq(&a, &b));
    let mut c = sample_set();
    c.cons = Some(NmSetCons::Union);
    assert!(!nmset_eq(&a, &c));
    let mut d = sample_set();
    d.terms.pop();
    assert!(!nmset_eq(&a, &d));
    assert!(!idxtm_eq(&IdxTm::NmSet(a), &IdxTm::NmSet(d)));
}

#[test]
fn clone_is_equal_and_shares_sub_terms() {
    let left = Rc::new(Type::Var(s("x")));
    let right = Rc::new(Type::Unit);
    let a = Type::Sum(left.clone(), right.clone());
    assert_eq!(Rc::strong_count(&left), 2);
    let b = a.clone();
    assert_eq!(a, b);
    // the clone holds the same nodes, not copies of them
    assert_eq!(Rc::strong_count(&left), 3);
    match (&a, &b) {
        (Type::Sum(l1, r1), Type::Sum(l2, r2)) => {
            assert!(Rc::ptr_eq(l1, l2));
            assert!(Rc::ptr_eq(r1, r2));
        }
        _ => panic!("a sum was cloned into something else"),
    }
    let t = sample_type();
    assert_eq!(t.clone(), t);
    let i = IdxTm::NmSet(sample_set());
    assert_eq!(i.clone(), i);
}
