use cas::ast::Expression;
use cas::py::ast::{variable, PyExpression, PyExpressionOrNumber};
use cas::symbol::Symbol;
use num_bigint::BigInt;

fn var(name: &str) -> Expression {
    Expression::Variable(Symbol::try_from(name).unwrap())
}

#[test]
fn python_symbol_needs_a_name() {
    assert_eq!(variable("x".to_string()).unwrap().0, var("x"));
    assert_eq!(variable(String::new()).unwrap_err(), "Symbol cannot be empty");
}

#[test]
fn python_operand_becomes_an_expression() {
    assert_eq!(
        Expression::from(PyExpressionOrNumber::PyExpression(PyExpression(var("x")))),
        var("x")
    );
    assert_eq!(Expression::from(PyExpressionOrNumber::Int(12)), Expression::Integer(12.into()));
    assert_eq!(
        Expression::from(PyExpressionOrNumber::BigInt(BigInt::from(-12))),
        Expression::Integer((-12).into())
    );
}

#[test]
fn python_expression_adds_on_either_side() {
    let x = PyExpression(var("x"));
    let right = x.__add__(PyExpressionOrNumber::Int(2));
    assert_eq!(
        right.0,
        Expression::Add(Box::new(var("x")), Box::new(Expression::Integer(2.into())))
    );
    let left = x.__radd__(PyExpressionOrNumber::BigInt(BigInt::from(2)));
    assert_eq!(
        left.0,
        Expression::Add(Box::new(Expression::Integer(2.into())), Box::new(var("x")))
    );
    let nested = right.__add__(PyExpressionOrNumber::PyExpression(PyExpression(var("y"))));
    assert_eq!(nested.0.to_string(), "((x + 2) + y)");
    assert_eq!(nested._repr_latex_(), r"$\left(\left(x + 2\right) + y\right)$");
    assert_eq!(x._repr_latex_(), "$x$");
}
