use cas::fmt::ToLatex;
use cas::number::integer::Integer;
use cas::number::Number;
use cas::symbol::Symbol;
use cas::Term;
use std::collections::VecDeque;

#[test]
fn fmt_display_works() {
    let x = Term::Variable(Symbol::try_from("x").unwrap());
    let n = Term::Constant(123.into());
    let neg_x = Term::Neg(Box::new(x.clone()));
    let sum = Term::Sum(VecDeque::from([x.clone(), n.clone()]));
    let undefined = Term::Undefined;

    assert_eq!(x.to_string(), "x");
    assert_eq!(n.to_string(), "123");
    assert_eq!(neg_x.to_string(), "-(x)");
    assert_eq!(sum.to_string(), "(x + 123)");
    assert_eq!(undefined.to_string(), "undefined");
}

#[test]
fn latex_works() {
    let x = Term::Variable(Symbol::try_from("x").unwrap());
    let n = Term::Constant(123.into());
    let neg_x = Term::Neg(Box::new(x.clone()));
    let sum = Term::Sum(VecDeque::from([x.clone(), n.clone()]));
    let undefined = Term::Undefined;
    let neg_neg_x = Term::Neg(Box::new(neg_x.clone()));

    assert_eq!(x.to_latex(), "x");
    assert_eq!(n.to_latex(), "123");
    assert_eq!(neg_x.to_latex(), r"-\left(x\right)");
    assert_eq!(sum.to_latex(), r"\left(x + 123\right)");
    assert_eq!(undefined.to_latex(), r"\text{undefined}");
    assert_eq!(neg_neg_x.to_latex(), r"-\left(-\left(x\right)\right)");
}

#[test]
fn negation_renders_in_both_forms() {
    let neg_x = Term::Neg(Box::new(Term::Variable(Symbol::try_from("x").unwrap())));
    assert_eq!(neg_x.to_string(), "-(x)");
    assert_eq!(neg_x.to_latex(), r"-\left(x\right)");
    assert_eq!(neg_x.to_string(), neg_x.to_string());
    assert_eq!(neg_x.to_latex(), neg_x.clone().to_latex());
}

#[test]
fn zero_and_undefined_render() {
    assert_eq!(Term::zero().to_string(), "0");
    assert_eq!(Term::Constant(0.into()).to_string(), "0");
    assert_eq!(Term::zero().to_latex(), "0");
    assert_eq!(Term::Undefined.to_string(), "undefined");
    assert_eq!(Term::Undefined.to_latex(), r"\text{undefined}");
}

#[test]
fn sums_render_with_their_brackets() {
    let x = Term::Variable(Symbol::try_from("x").unwrap());
    let y = Term::Variable(Symbol::try_from("y").unwrap());
    assert_eq!(Term::Sum(VecDeque::new()).to_string(), "()");
    assert_eq!(Term::Sum(VecDeque::new()).to_latex(), r"\left(\right)");
    assert_eq!(Term::Sum(VecDeque::from([x.clone()])).to_string(), "(x)");
    assert_eq!(Term::Sum(VecDeque::from([x.clone()])).to_latex(), r"\left(x\right)");
    let inner = Term::Sum(VecDeque::from([x.clone(), y.clone()]));
    let nested = Term::Sum(VecDeque::from([inner.clone(), Term::Neg(Box::new(inner))]));
    assert_eq!(nested.to_string(), "((x + y) + -((x + y)))");
    assert_eq!(
        nested.to_latex(),
        r"\left(\left(x + y\right) + -\left(\left(x + y\right)\right)\right)"
    );
    let mut out = String::from("$");
    cas::fmt::Latex::latex(&nested, &mut out);
    out.push('$');
    assert_eq!(out, r"$\left(\left(x + y\right) + -\left(\left(x + y\right)\right)\right)$");
    let mut text = String::from("t = ");
    nested.fmt(&mut text);
    assert_eq!(text, "t = ((x + y) + -((x + y)))");
}

#[test]
fn constants_render_as_their_numbers() {
    let z = Term::Constant(Number::new(Integer::from(3), Integer::from(2)));
    assert_eq!(z.to_string(), "3 + 2i");
    assert_eq!(z.to_latex(), "3 + 2i");
    let x = Term::Variable(Symbol::try_from("x").unwrap());
    assert_eq!((x + Term::Constant((-123).into())).to_string(), "(x + -123)");
}
