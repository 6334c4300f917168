//! Abstract Syntax Tree.
use crate::ast::{expression_latex, Expression, ExpressionView};
use crate::fmt::ToLatex;
use crate::number::integer::bigint::bigint_value;
use crate::symbol::{empty_symbol_message, Symbol};
use num_bigint::BigInt;
use vstd::prelude::*;
use vstd::std_specs::convert::FromSpecImpl;

verus! {

/// An expression as Python holds it.
#[derive(Debug)]
pub struct PyExpression(pub Expression);

/// What Python may add to an expression: an expression, a machine integer or a big
/// integer.
#[derive(Debug)]
pub enum PyExpressionOrNumber {
    PyExpression(PyExpression),
    Int(i64),
    BigInt(BigInt),
}

/// The expression that an operand stands for: the expression that it holds, or the
/// integer that it holds.
pub open spec fn operand_expression(other: PyExpressionOrNumber) -> ExpressionView {
    match other {
        PyExpressionOrNumber::PyExpression(e) => e.0@,
        PyExpressionOrNumber::Int(i) => ExpressionView::Integer(i as int),
        PyExpressionOrNumber::BigInt(i) => ExpressionView::Integer(bigint_value(i)),
    }
}

impl FromSpecImpl<PyExpressionOrNumber> for Expression {
    open spec fn obeys_from_spec() -> bool {
        false
    }

    open spec fn from_spec(other: PyExpressionOrNumber) -> Expression {
        arbitrary()
    }
}

impl From<PyExpressionOrNumber> for Expression {
    /// The expression that an operand stands for.
    fn from(other: PyExpressionOrNumber) -> (expression: Expression)
        ensures
            expression@ == operand_expression(other),
    {
        match other {
            PyExpressionOrNumber::PyExpression(e) => e.0,
            PyExpressionOrNumber::Int(i) => Expression::Integer(i.into()),
            PyExpressionOrNumber::BigInt(i) => Expression::Integer(i.into()),
        }
    }
}

impl PyExpression {
    /// The addition of this expression and an operand to its right.
    #[allow(non_snake_case)]
    pub fn __add__(&self, other: PyExpressionOrNumber) -> (sum: PyExpression)
        ensures
            sum.0@ == ExpressionView::Add(
                Box::new(self.0@),
                Box::new(operand_expression(other)),
            ),
    {
        PyExpression(Expression::Add(Box::new(self.0.clone()), Box::new(other.into())))
    }

    /// The addition of an operand to the left and this expression.
    #[allow(non_snake_case)]
    pub fn __radd__(&self, other: PyExpressionOrNumber) -> (sum: PyExpression)
        ensures
            sum.0@ == ExpressionView::Add(
                Box::new(operand_expression(other)),
                Box::new(self.0@),
            ),
    {
        PyExpression(Expression::Add(Box::new(other.into()), Box::new(self.0.clone())))
    }

    /// The markup of the expression between two dollar signs.
    #[allow(non_snake_case)]
    pub fn _repr_latex_(&self) -> (markup: String)
        ensures
            markup@ == "$"@ + expression_latex(self.0@) + "$"@,
    {
        let mut markup = "$".to_owned();
        markup.append(self.0.to_latex().as_str());
        markup.append("$");
        markup
    }
}

/// Creates a symbol.
pub fn variable(name: String) -> (made: Result<PyExpression, String>)
    ensures
        made is Err <==> name@.len() == 0,
        made is Ok ==> made->Ok_0.0@ == ExpressionView::Variable(name@),
        made is Err ==> made->Err_0@ == empty_symbol_message(),
{
    match Symbol::try_from(name) {
        Ok(s) => Ok(PyExpression(Expression::Variable(s))),
        Err(e) => Err(e),
    }
}

} // verus!
