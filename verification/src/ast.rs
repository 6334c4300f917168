//! Expressions as binary trees of additions over integers and variables.
use crate::fmt::Latex;
use crate::number::integer::Integer;
use crate::number::numeral::int_text;
use crate::symbol::Symbol;
use vstd::prelude::*;
use vstd::std_specs::cmp::PartialEqSpecImpl;
use vstd::std_specs::ops::AddSpecImpl;

verus! {

/// A mathematical expression.
#[derive(Debug)]
pub enum Expression {
    /// An integer.
    Integer(Integer),
    /// A variable specified by a symbol, like 'x'.
    Variable(Symbol),
    /// Binary addition operation.
    Add(Box<Expression>, Box<Expression>),
}

/// What an expression holds: the tree of its nodes, with the values of its leaves.
pub ghost enum ExpressionView {
    Integer(int),
    Variable(Seq<char>),
    Add(Box<ExpressionView>, Box<ExpressionView>),
}

/// The tree of an expression.
pub open spec fn expression_view(e: Expression) -> ExpressionView
    decreases e,
{
    match e {
        Expression::Integer(i) => ExpressionView::Integer(i@),
        Expression::Variable(s) => ExpressionView::Variable(s@),
        Expression::Add(a, b) => ExpressionView::Add(
            Box::new(expression_view(*a)),
            Box::new(expression_view(*b)),
        ),
    }
}

impl View for Expression {
    type V = ExpressionView;

    open spec fn view(&self) -> ExpressionView {
        expression_view(*self)
    }
}

impl PartialEqSpecImpl for Expression {
    open spec fn obeys_eq_spec() -> bool {
        true
    }

    /// Two expressions are equal where their trees are.
    open spec fn eq_spec(&self, other: &Expression) -> bool {
        self@ == other@
    }
}

impl PartialEq for Expression {
    fn eq(&self, other: &Expression) -> (equal: bool)
        decreases self,
    {
        match (self, other) {
            (Expression::Integer(a), Expression::Integer(b)) => a == b,
            (Expression::Variable(a), Expression::Variable(b)) => a == b,
            (Expression::Add(a1, b1), Expression::Add(a2, b2)) => {
                let a1: &Expression = &**a1;
                let b1: &Expression = &**b1;
                let a2: &Expression = &**a2;
                let b2: &Expression = &**b2;
                a1.eq(a2) && b1.eq(b2)
            },
            _ => false,
        }
    }
}

impl Clone for Expression {
    fn clone(&self) -> (copy: Self)
        ensures
            copy@ == self@,
        decreases self,
    {
        match self {
            Expression::Integer(i) => Expression::Integer(i.clone()),
            Expression::Variable(s) => Expression::Variable(s.clone()),
            Expression::Add(a, b) => {
                let a: &Expression = &**a;
                let b: &Expression = &**b;
                Expression::Add(Box::new(a.clone()), Box::new(b.clone()))
            },
        }
    }
}

impl AddSpecImpl<Expression> for Expression {
    open spec fn obeys_add_spec() -> bool {
        false
    }

    open spec fn add_req(self, rhs: Expression) -> bool {
        true
    }

    open spec fn add_spec(self, rhs: Expression) -> Expression {
        arbitrary()
    }
}

impl core::ops::Add<Expression> for Expression {
    type Output = Expression;

    /// The addition of the two expressions, each kept as it is.
    fn add(self, other: Expression) -> (sum: Expression)
        ensures
            sum@ == ExpressionView::Add(Box::new(self@), Box::new(other@)),
    {
        Expression::Add(Box::new(self), Box::new(other))
    }
}

/// The plain text of an expression: a leaf as its value or name, an addition as
/// `(a + b)`.
pub open spec fn expression_text(e: ExpressionView) -> Seq<char>
    decreases e,
{
    match e {
        ExpressionView::Integer(i) => int_text(i, 10),
        ExpressionView::Variable(s) => s,
        ExpressionView::Add(a, b) => "("@ + expression_text(*a) + " + "@ + expression_text(*b)
            + ")"@,
    }
}

/// The LaTeX markup of an expression: as the plain text, with sized delimiters for the
/// brackets.
pub open spec fn expression_latex(e: ExpressionView) -> Seq<char>
    decreases e,
{
    match e {
        ExpressionView::Integer(i) => int_text(i, 10),
        ExpressionView::Variable(s) => s,
        ExpressionView::Add(a, b) => "\\left("@ + expression_latex(*a) + " + "@
            + expression_latex(*b) + "\\right)"@,
    }
}

impl Expression {
    /// Appends the plain text of the expression to `out`.
    pub fn fmt(&self, out: &mut String)
        ensures
            final(out)@ == old(out)@ + expression_text(self@),
        decreases self,
    {
        let ghost start = out@;
        match self {
            Expression::Integer(i) => {
                i.fmt(out);
            },
            Expression::Variable(s) => {
                s.fmt(out);
            },
            Expression::Add(a, b) => {
                let a: &Expression = &**a;
                let b: &Expression = &**b;
                out.append("(");
                a.fmt(out);
                out.append(" + ");
                b.fmt(out);
                out.append(")");
                assert(out@ =~= start + ("("@ + expression_text(a@) + " + "@ + expression_text(
                    b@,
                ) + ")"@));
            },
        }
    }

    /// The plain text of the expression.
    pub fn to_string(&self) -> (text: String)
        ensures
            text@ == expression_text(self@),
    {
        let mut text = String::new();
        self.fmt(&mut text);
        assert(text@ =~= expression_text(self@));
        text
    }
}

impl Latex for Expression {
    open spec fn latex_spec(&self) -> Seq<char> {
        expression_latex(self@)
    }

    fn latex(&self, out: &mut String)
        decreases self,
    {
        let ghost start = out@;
        match self {
            Expression::Integer(i) => {
                i.fmt(out);
            },
            Expression::Variable(s) => {
                s.fmt(out);
            },
            Expression::Add(a, b) => {
                let a: &Expression = &**a;
                let b: &Expression = &**b;
                out.append("\\left(");
                a.latex(out);
                out.append(" + ");
                b.latex(out);
                out.append("\\right)");
                assert(out@ =~= start + ("\\left("@ + expression_latex(a@) + " + "@
                    + expression_latex(b@) + "\\right)"@));
            },
        }
    }
}

} // verus!
