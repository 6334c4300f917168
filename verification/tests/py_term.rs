use cas::py::expression::{variable, PyTerm, PyTermOrNumber};
use cas::symbol::Symbol;
use cas::Term;
use num_bigint::BigInt;
use std::collections::VecDeque;

fn var(name: &str) -> Term {
    Term::Variable(Symbol::try_from(name).unwrap())
}

#[test]
fn python_variable_needs_a_name() {
    assert_eq!(variable("x".to_string()).unwrap().0, var("x"));
    assert_eq!(variable(String::new()).unwrap_err(), "Symbol cannot be empty");
}

#[test]
fn python_operand_becomes_a_term() {
    assert_eq!(Term::from(PyTermOrNumber::PyExpression(PyTerm(var("x")))), var("x"));
    assert_eq!(Term::from(PyTermOrNumber::Int(-7)), Term::Constant((-7).into()));
    assert_eq!(Term::from(PyTermOrNumber::Int(i64::MIN)), Term::Constant(i64::MIN.into()));
    assert_eq!(
        Term::from(PyTermOrNumber::BigInt(BigInt::from(u128::MAX))),
        Term::Constant(u128::MAX.into())
    );
    let huge: BigInt = BigInt::from(1) << 2000usize;
    assert_eq!(Term::from(PyTermOrNumber::BigInt(-huge.clone())).to_string(), (-huge).to_string());
}

#[test]
fn python_addition_on_either_side() {
    let x = PyTerm(var("x"));
    let sum = x.__add__(PyTermOrNumber::Int(2));
    assert_eq!(sum.0, Term::Sum(VecDeque::from([var("x"), Term::Constant(2.into())])));
    let sum = x.__radd__(PyTermOrNumber::Int(2));
    assert_eq!(sum.0, Term::Sum(VecDeque::from([Term::Constant(2.into()), var("x")])));
    let xy = x.__add__(PyTermOrNumber::PyExpression(PyTerm(var("y"))));
    let xyz = xy.__add__(PyTermOrNumber::BigInt(BigInt::from(36)));
    assert_eq!(
        xyz.0,
        Term::Sum(VecDeque::from([var("x"), var("y"), Term::Constant(36.into())]))
    );
    let zxy = xy.__radd__(PyTermOrNumber::PyExpression(PyTerm(var("z"))));
    assert_eq!(zxy.0, Term::Sum(VecDeque::from([var("z"), var("x"), var("y")])));
    assert_eq!(x.0, var("x"));
}

#[test]
fn python_markup_stands_between_dollars() {
    let x = PyTerm(var("x"));
    assert_eq!(x._repr_latex_(), "$x$");
    let sum = x.__add__(PyTermOrNumber::Int(1));
    assert_eq!(sum._repr_latex_(), r"$\left(x + 1\right)$");
    assert_eq!(PyTerm(-var("x"))._repr_latex_(), r"$-\left(x\right)$");
    assert_eq!(PyTerm(Term::Undefined)._repr_latex_(), r"$\text{undefined}$");
}
