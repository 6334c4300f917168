//! Expression.
use crate::fmt::ToLatex;
use crate::number::integer::bigint::bigint_value;
use crate::number::NumberView;
use crate::symbol::{empty_symbol_message, Symbol};
use crate::term::ops::combine;
use crate::term::fmt::term_latex;
use crate::term::{Term, TermView};
use num_bigint::BigInt;
use vstd::prelude::*;
use vstd::std_specs::convert::FromSpecImpl;

verus! {

/// A term as Python holds it.
#[derive(Debug)]
pub struct PyTerm(pub Term);

/// What Python may add to a term: a term, a machine integer or a big integer.
#[derive(Debug)]
pub enum PyTermOrNumber {
    PyExpression(PyTerm),
    Int(i64),
    BigInt(BigInt),
}

/// The term that an operand stands for: the term that it holds, or the constant of the
/// integer that it holds.
pub open spec fn operand_term(other: PyTermOrNumber) -> TermView {
    match other {
        PyTermOrNumber::PyExpression(e) => e.0@,
        PyTermOrNumber::Int(i) => TermView::Constant(NumberView { real: i as int, imag: 0 }),
        PyTermOrNumber::BigInt(i) => TermView::Constant(
            NumberView { real: bigint_value(i), imag: 0 },
        ),
    }
}

impl FromSpecImpl<PyTermOrNumber> for Term {
    open spec fn obeys_from_spec() -> bool {
        false
    }

    open spec fn from_spec(other: PyTermOrNumber) -> Term {
        arbitrary()
    }
}

impl From<PyTermOrNumber> for Term {
    /// The term that an operand stands for.
    fn from(other: PyTermOrNumber) -> (term: Term)
        ensures
            term@ == operand_term(other),
    {
        match other {
            PyTermOrNumber::PyExpression(e) => e.0,
            PyTermOrNumber::Int(i) => Term::Constant(i.into()),
            PyTermOrNumber::BigInt(i) => Term::Constant(i.into()),
        }
    }
}

impl PyTerm {
    /// The sum of this term and an operand to its right.
    #[allow(non_snake_case)]
    pub fn __add__(&self, other: PyTermOrNumber) -> (sum: PyTerm)
        ensures
            sum.0@ == combine(self.0@, operand_term(other)),
    {
        PyTerm(self.0.clone() + Term::from(other))
    }

    /// The sum of an operand to the left and this term.
    #[allow(non_snake_case)]
    pub fn __radd__(&self, other: PyTermOrNumber) -> (sum: PyTerm)
        ensures
            sum.0@ == combine(operand_term(other), self.0@),
    {
        PyTerm(Term::from(other) + self.0.clone())
    }

    /// The markup of the term between two dollar signs.
    #[allow(non_snake_case)]
    pub fn _repr_latex_(&self) -> (markup: String)
        ensures
            markup@ == "$"@ + term_latex(self.0@) + "$"@,
    {
        let mut markup = "$".to_owned();
        markup.append(self.0.to_latex().as_str());
        markup.append("$");
        markup
    }
}

/// Creates a symbol.
pub fn variable(name: String) -> (made: Result<PyTerm, String>)
    ensures
        made is Err <==> name@.len() == 0,
        made is Ok ==> made->Ok_0.0@ == TermView::Variable(name@),
        made is Err ==> made->Err_0@ == empty_symbol_message(),
{
    match Symbol::try_from(name) {
        Ok(s) => Ok(PyTerm(Term::Variable(s))),
        Err(e) => Err(e),
    }
}

} // verus!
