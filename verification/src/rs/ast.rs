//! Expressions as binary trees of additions over symbols.
use crate::fmt::Latex;
use vstd::prelude::*;
use vstd::std_specs::cmp::PartialEqSpecImpl;

verus! {

/// A mathematical expression.
#[derive(Debug)]
pub enum Expression {
    /// A symbol, like 'x'.
    Symbol(String),
    /// Binary addition operation.
    Add(Box<Expression>, Box<Expression>),
}

/// What an expression holds: the tree of its nodes, with the values of its leaves.
pub ghost enum ExpressionView {
    Symbol(Seq<char>),
    Add(Box<ExpressionView>, Box<ExpressionView>),
}

/// The tree of an expression.
pub open spec fn expression_view(e: Expression) -> ExpressionView
    decreases e,
{
    match e {
        Expression::Symbol(s) => ExpressionView::Symbol(s@),
        Expression::Add(a, b) => ExpressionView::Add(
            Box::new(expression_view(*a)),
            Box::new(expression_view(*b)),
        ),
    }
}

impl View for Expression {
    type V = ExpressionView;

    open spec fn view(&self) -> ExpressionView {
        expression_view(*self)
    }
}

impl PartialEqSpecImpl for Expression {
    open spec fn obeys_eq_spec() -> bool {
        true
    }

    /// Two expressions are equal where their trees are.
    open spec fn eq_spec(&self, other: &Expression) -> bool {
        self@ == other@
    }
}

impl PartialEq for Expression {
    fn eq(&self, other: &Expression) -> (equal: bool)
        decreases self,
    {
        match (self, other) {
            (Expression::Symbol(a), Expression::Symbol(b)) => *a == *b,
            (Expression::Add(a1, b1), Expression::Add(a2, b2)) => {
                let a1: &Expression = &**a1;
                let b1: &Expression = &**b1;
                let a2: &Expression = &**a2;
                let b2: &Expression = &**b2;
                a1.eq(a2) && b1.eq(b2)
            },
            _ => false,
        }
    }
}

impl Clone for Expression {
    fn clone(&self) -> (copy: Self)
        ensures
            copy@ == self@,
        decreases self,
    {
        match self {
            Expression::Symbol(s) => Expression::Symbol(s.clone()),
            Expression::Add(a, b) => {
                let a: &Expression = &**a;
                let b: &Expression = &**b;
                Expression::Add(Box::new(a.clone()), Box::new(b.clone()))
            },
        }
    }
}

/// The plain text of an expression: a symbol as its name, an addition as
/// `(a + b)`.
pub open spec fn expression_text(e: ExpressionView) -> Seq<char>
    decreases e,
{
    match e {
        ExpressionView::Symbol(s) => s,
        ExpressionView::Add(a, b) => "("@ + expression_text(*a) + " + "@ + expression_text(*b)
            + ")"@,
    }
}

/// The LaTeX markup of an expression: as the plain text, with sized delimiters for the
/// brackets.
pub open spec fn expression_latex(e: ExpressionView) -> Seq<char>
    decreases e,
{
    match e {
        ExpressionView::Symbol(s) => s,
        ExpressionView::Add(a, b) => "\\left("@ + expression_latex(*a) + " + "@
            + expression_latex(*b) + "\\right)"@,
    }
}

impl Expression {
    /// Appends the plain text of the expression to `out`.
    pub fn fmt(&self, out: &mut String)
        ensures
            final(out)@ == old(out)@ + expression_text(self@),
        decreases self,
    {
        let ghost start = out@;
        match self {
            Expression::Symbol(s) => {
                out.append(s.as_str());
            },
            Expression::Add(a, b) => {
                let a: &Expression = &**a;
                let b: &Expression = &**b;
                out.append("(");
                a.fmt(out);
                out.append(" + ");
                b.fmt(out);
                out.append(")");
                assert(out@ =~= start + ("("@ + expression_text(a@) + " + "@ + expression_text(
                    b@,
                ) + ")"@));
            },
        }
    }

    /// The plain text of the expression.
    pub fn to_string(&self) -> (text: String)
        ensures
            text@ == expression_text(self@),
    {
        let mut text = String::new();
        self.fmt(&mut text);
        assert(text@ =~= expression_text(self@));
        text
    }
}

impl Latex for Expression {
    open spec fn latex_spec(&self) -> Seq<char> {
        expression_latex(self@)
    }

    fn latex(&self, out: &mut String)
        decreases self,
    {
        let ghost start = out@;
        match self {
            Expression::Symbol(s) => {
                out.append(s.as_str());
            },
            Expression::Add(a, b) => {
                let a: &Expression = &**a;
                let b: &Expression = &**b;
                out.append("\\left(");
                a.latex(out);
                out.append(" + ");
                b.latex(out);
                out.append("\\right)");
                assert(out@ =~= start + ("\\left("@ + expression_latex(a@) + " + "@
                    + expression_latex(b@) + "\\right)"@));
            },
        }
    }
}

} // verus!
