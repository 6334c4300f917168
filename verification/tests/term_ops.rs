use cas::symbol::Symbol;
use cas::Term;
use std::collections::VecDeque;

#[test]
fn ops_add_works() {
    let x = Term::Variable(Symbol::try_from("x").unwrap());
    let y = Term::Variable(Symbol::try_from("y").unwrap());
    let expected = Term::Sum(VecDeque::from([x.clone(), y.clone()]));
    assert_eq!(x + y, expected);
}

#[test]
fn add_assign_works() {
    let mut x1 = Term::Variable(Symbol::try_from("x1").unwrap());
    let mut x2 = Term::Variable(Symbol::try_from("x2").unwrap());
    let x3 = Term::Variable(Symbol::try_from("x3").unwrap());
    let x4 = Term::Variable(Symbol::try_from("x4").unwrap());
    let x5 = Term::Variable(Symbol::try_from("x5").unwrap());
    let x6 = Term::Variable(Symbol::try_from("x6").unwrap());
    let x5_plus_x6 = Term::Sum(vec![x5.clone(), x6.clone()].into());
    let expected = Term::Sum(VecDeque::from([
        x1.clone(),
        x2.clone(),
        x3.clone(),
        x4.clone(),
        x5.clone(),
        x6.clone(),
    ]));
    x2 += x3; // not Sum += not Sum
    x2 += x4; // Sum += not Sum
    x1 += x2; // not Sum += Sum
    x1 += x5_plus_x6; // Sum += Sum
    assert_eq!(x1, expected);
}

#[test]
fn neg_works() {
    let x = Term::Variable(Symbol::try_from("x").unwrap());
    let expected = Term::Neg(Box::new(x.clone()));
    assert_eq!(-x, expected);
}

#[test]
fn sub_works() {
    let x = Term::Variable(Symbol::try_from("x").unwrap());
    let y = Term::Variable(Symbol::try_from("y").unwrap());
    let expected = Term::Sum(VecDeque::from([x.clone(), Term::Neg(Box::new(y.clone()))]));
    assert_eq!(x - y, expected);
}

#[test]
fn sub_assign_works() {
    let mut x = Term::Variable(Symbol::try_from("x").unwrap());
    let y = Term::Variable(Symbol::try_from("y").unwrap());
    let expected = Term::Sum(VecDeque::from([x.clone(), Term::Neg(Box::new(y.clone()))]));
    x -= y;
    assert_eq!(x, expected);
}

fn var(name: &str) -> Term {
    Term::Variable(Symbol::try_from(name).unwrap())
}

#[test]
fn addition_flattens_however_grouped() {
    let (a, b, c) = (var("a"), var("b"), var("c"));
    let flat = Term::Sum(VecDeque::from([a.clone(), b.clone(), c.clone()]));
    assert_eq!((a.clone() + b.clone()) + c.clone(), flat);
    assert_eq!(a.clone() + (b.clone() + c.clone()), flat);

    let ab = a.clone() + b.clone();
    let neg_c = -c.clone();
    let n = Term::Constant(5.into());
    let expected = Term::Sum(VecDeque::from([a.clone(), b.clone(), neg_c.clone(), n.clone()]));
    assert_eq!((ab.clone() + neg_c.clone()) + n.clone(), expected);
    assert_eq!(ab.clone() + (neg_c.clone() + n.clone()), expected);
}

#[test]
fn addition_of_two_plain_terms_lists_both() {
    let x = var("x");
    let n = Term::Constant(7.into());
    let neg = -var("y");
    assert_eq!(x.clone() + n.clone(), Term::Sum(VecDeque::from([x.clone(), n.clone()])));
    assert_eq!(neg.clone() + x.clone(), Term::Sum(VecDeque::from([neg.clone(), x.clone()])));
    assert_eq!(
        Term::Undefined + Term::Undefined,
        Term::Sum(VecDeque::from([Term::Undefined, Term::Undefined]))
    );
    assert_ne!(x.clone() + n.clone(), n + x);
}

#[test]
fn addition_keeps_zero() {
    let x = var("x");
    assert_eq!(x.clone() + Term::zero(), Term::Sum(VecDeque::from([x.clone(), Term::zero()])));
    assert_eq!(Term::zero() + x.clone(), Term::Sum(VecDeque::from([Term::zero(), x.clone()])));
    let xy = x.clone() + var("y");
    assert_eq!(
        xy + Term::zero(),
        Term::Sum(VecDeque::from([x.clone(), var("y"), Term::zero()]))
    );
    assert_eq!(Term::zero(), Term::Constant(0.into()));
    assert_eq!((x + Term::zero()).to_string(), "(x + 0)");
}

#[test]
fn three_variables_make_one_sum() {
    let sum = var("x") + var("y") + var("z");
    assert_eq!(sum, Term::Sum(VecDeque::from([var("x"), var("y"), var("z")])));
    assert_eq!(sum.to_string(), "(x + y + z)");
}

#[test]
fn difference_is_a_sum_with_a_negation() {
    let difference = var("x") - var("y");
    assert_eq!(
        difference,
        Term::Sum(VecDeque::from([var("x"), Term::Neg(Box::new(var("y")))]))
    );
    assert_eq!(difference.to_string(), "(x + -(y))");
}

#[test]
fn negation_is_kept_as_it_is() {
    let x = var("x");
    let twice = -(-x.clone());
    assert_eq!(twice, Term::Neg(Box::new(Term::Neg(Box::new(x.clone())))));
    assert_ne!(twice, x);
    assert_eq!(twice.to_string(), "-(-(x))");
    let sum = x.clone() + var("y");
    assert_eq!(-sum.clone(), Term::Neg(Box::new(sum)));
}

#[test]
fn accumulating_agrees_with_adding() {
    let shapes = [
        var("a"),
        var("a") + var("b"),
        -var("c"),
        Term::Constant(3.into()),
        Term::Undefined,
        Term::Sum(VecDeque::new()),
    ];
    for left in &shapes {
        for right in &shapes {
            let mut accumulated = left.clone();
            accumulated += right.clone();
            assert_eq!(accumulated, left.clone() + right.clone());
            let mut reduced = left.clone();
            reduced -= right.clone();
            assert_eq!(reduced, left.clone() - right.clone());
            assert_eq!(reduced, left.clone() + (-right.clone()));
        }
    }
}

#[test]
fn sum_of_flat_terms_holds_no_sum() {
    let terms = [var("a") + var("b"), var("c"), -(var("d") + var("e")), Term::zero()];
    let mut total = Term::Sum(VecDeque::new());
    for term in terms {
        total += term;
    }
    match total {
        Term::Sum(addends) => {
            assert_eq!(addends.len(), 5);
            assert!(addends.iter().all(|addend| !matches!(addend, Term::Sum(_))));
        }
        _ => panic!("a sum was expected"),
    }
}

#[test]
fn term_equality_is_structural() {
    let x = var("x");
    let y = var("y");
    assert_eq!(x.clone(), x);
    assert_ne!(x, y);
    assert_ne!(x.clone() + y.clone(), y.clone() + x.clone());
    assert_ne!(x.clone() + y.clone(), x.clone() + y.clone() + y.clone());
    assert_ne!(Term::Undefined, Term::zero());
    assert_ne!(Term::Constant(1.into()), Term::Constant(2.into()));
    assert_ne!(-x.clone(), x);
    assert_ne!(-x.clone(), -y.clone());
    assert_eq!(Term::Sum(VecDeque::new()), Term::Sum(VecDeque::new()));
    let nested = Term::Sum(VecDeque::from([x.clone() + y.clone(), -y.clone()]));
    assert_eq!(nested.clone(), nested);
}
