//! Expressions of numbers, variables and flat sums.
use crate::fmt::{join_plus, lemma_join_plus_next, Latex};
use crate::number::{number_text, Number, NumberView};
use crate::symbol::Symbol;
use std::collections::VecDeque;
use vstd::prelude::*;
use vstd::std_specs::cmp::PartialEqSpecImpl;
use vstd::std_specs::ops::AddSpecImpl;

verus! {

/// A mathematical expression.
#[derive(Debug)]
pub enum Expression {
    /// A number.
    Number(Number),
    /// A variable specified by a symbol, like 'x'.
    Variable(Symbol),
    /// A sum over subexpressions.
    Sum(VecDeque<Expression>),
}

/// What an expression holds: the tree of its nodes, with the values of its leaves.
pub ghost enum ExpressionView {
    Number(NumberView),
    Variable(Seq<char>),
    Sum(Seq<ExpressionView>),
}

/// The tree of an expression.
pub open spec fn expression_view(e: Expression) -> ExpressionView
    decreases e,
{
    match e {
        Expression::Number(n) => ExpressionView::Number(n@),
        Expression::Variable(s) => ExpressionView::Variable(s@),
        Expression::Sum(es) => ExpressionView::Sum(
            Seq::new(
                es@.len(),
                |i: int|
                    if 0 <= i < es@.len() {
                        expression_view(es@[i])
                    } else {
                        ExpressionView::Sum(Seq::empty())
                    },
            ),
        ),
    }
}

/// The trees of a sequence of expressions.
pub open spec fn expression_views(es: Seq<Expression>) -> Seq<ExpressionView> {
    Seq::new(es.len(), |i: int| expression_view(es[i]))
}

/// The tree of a sum holds the trees of its addends, in their order.
pub proof fn lemma_sum_view(es: VecDeque<Expression>)
    ensures
        Expression::Sum(es)@ == ExpressionView::Sum(expression_views(es@)),
{
    assert(Expression::Sum(es)@->Sum_0 =~= expression_views(es@));
}

impl View for Expression {
    type V = ExpressionView;

    open spec fn view(&self) -> ExpressionView {
        expression_view(*self)
    }
}

impl PartialEqSpecImpl for Expression {
    open spec fn obeys_eq_spec() -> bool {
        true
    }

    /// Two expressions are equal where their trees are.
    open spec fn eq_spec(&self, other: &Expression) -> bool {
        self@ == other@
    }
}

impl PartialEq for Expression {
    fn eq(&self, other: &Expression) -> (equal: bool)
        decreases self,
    {
        match (self, other) {
            (Expression::Number(a), Expression::Number(b)) => a == b,
            (Expression::Variable(a), Expression::Variable(b)) => a == b,
            (Expression::Sum(xs), Expression::Sum(ys)) => {
                proof {
                    lemma_sum_view(*xs);
                    lemma_sum_view(*ys);
                }
                if xs.len() != ys.len() {
                    assert(expression_views(xs@).len() != expression_views(ys@).len());
                    return false;
                }
                let mut i: usize = 0;
                while i < xs.len()
                    invariant
                        decreases_to!(self => xs),
                        i <= xs@.len(),
                        xs@.len() == ys@.len(),
                        self@ == ExpressionView::Sum(expression_views(xs@)),
                        other@ == ExpressionView::Sum(expression_views(ys@)),
                        forall|k: int| 0 <= k < i ==> xs@[k]@ == ys@[k]@,
                    decreases xs@.len() - i,
                {
                    proof {
                        vstd::std_specs::vecdeque::axiom_vec_dequeue_index_decreases(
                            *xs,
                            i as int,
                        );
                    }
                    if !xs[i].eq(&ys[i]) {
                        proof {
                            assert(expression_views(xs@)[i as int] != expression_views(
                                ys@,
                            )[i as int]);
                        }
                        return false;
                    }
                    i += 1;
                }
                assert(expression_views(xs@) =~= expression_views(ys@));
                true
            },
            _ => false,
        }
    }
}

impl Clone for Expression {
    fn clone(&self) -> (copy: Self)
        ensures
            copy@ == self@,
        decreases self,
    {
        match self {
            Expression::Number(n) => Expression::Number(n.clone()),
            Expression::Variable(s) => Expression::Variable(s.clone()),
            Expression::Sum(es) => {
                let mut copies: VecDeque<Expression> = VecDeque::new();
                let mut i: usize = 0;
                while i < es.len()
                    invariant
                        decreases_to!(self => es),
                        i <= es@.len(),
                        copies@.len() == i,
                        forall|k: int| 0 <= k < i ==> (#[trigger] copies@[k])@ == es@[k]@,
                    decreases es@.len() - i,
                {
                    proof {
                        vstd::std_specs::vecdeque::axiom_vec_dequeue_index_decreases(
                            *es,
                            i as int,
                        );
                    }
                    let copy = es[i].clone();
                    copies.push_back(copy);
                    i += 1;
                }
                let copy = Expression::Sum(copies);
                assert(copy@ =~= self@) by {
                    assert(copy@->Sum_0 =~= self@->Sum_0);
                }
                copy
            },
        }
    }
}

/// The addends that an expression brings to a sum: those of a sum, else the expression
/// itself.
pub open spec fn summands(e: ExpressionView) -> Seq<ExpressionView> {
    match e {
        ExpressionView::Sum(es) => es,
        _ => seq![e],
    }
}

/// The sum of two expressions: one flat sum of the addends of the first and then those of
/// the second.
pub open spec fn combine(a: ExpressionView, b: ExpressionView) -> ExpressionView {
    ExpressionView::Sum(summands(a) + summands(b))
}

impl AddSpecImpl<Expression> for Expression {
    open spec fn obeys_add_spec() -> bool {
        false
    }

    open spec fn add_req(self, rhs: Expression) -> bool {
        true
    }

    open spec fn add_spec(self, rhs: Expression) -> Expression {
        arbitrary()
    }
}

impl core::ops::Add<Expression> for Expression {
    type Output = Expression;

    /// Adds two expressions into one sum.
    fn add(self, other: Expression) -> (sum: Expression)
        ensures
            sum@ == combine(self@, other@),
            sum@ is Sum,
    {
        match (self, other) {
            (Expression::Sum(mut summands_self), Expression::Sum(mut summands_other)) => {
                proof {
                    lemma_sum_view(summands_self);
                    lemma_sum_view(summands_other);
                }
                let ghost xs = summands_self@;
                let ghost ys = summands_other@;
                summands_self.append(&mut summands_other);
                proof {
                    lemma_sum_view(summands_self);
                    assert(expression_views(xs + ys) =~= expression_views(xs) + expression_views(
                        ys,
                    ));
                }
                Expression::Sum(summands_self)
            },
            (Expression::Sum(mut summands), x) => {
                proof {
                    lemma_sum_view(summands);
                }
                let ghost xs = summands@;
                summands.push_back(x);
                proof {
                    lemma_sum_view(summands);
                    assert(expression_views(xs.push(x)) =~= expression_views(xs) + seq![x@]);
                }
                Expression::Sum(summands)
            },
            (x, Expression::Sum(mut summands)) => {
                proof {
                    lemma_sum_view(summands);
                }
                let ghost ys = summands@;
                summands.push_front(x);
                proof {
                    lemma_sum_view(summands);
                    assert(expression_views(seq![x] + ys) =~= seq![x@] + expression_views(ys));
                }
                Expression::Sum(summands)
            },
            (x, y) => {
                let mut summands = VecDeque::new();
                summands.push_back(x);
                summands.push_back(y);
                proof {
                    lemma_sum_view(summands);
                    assert(expression_views(summands@) =~= seq![x@] + seq![y@]);
                }
                Expression::Sum(summands)
            },
        }
    }
}

/// Adding three expressions gives one sum of the addends of the first, then those of the
/// second, then those of the third, however the two additions are grouped.
pub proof fn lemma_combine_associative(a: ExpressionView, b: ExpressionView, c: ExpressionView)
    ensures
        combine(combine(a, b), c) == ExpressionView::Sum(summands(a) + summands(b) + summands(c)),
        combine(a, combine(b, c)) == ExpressionView::Sum(summands(a) + summands(b) + summands(c)),
{
    assert(summands(a) + (summands(b) + summands(c)) =~= summands(a) + summands(b) + summands(c));
}

/// The plain text of an expression: a leaf as its value or name, a sum as
/// `(e0 + e1 + ... + en)`.
pub open spec fn expression_text(e: ExpressionView) -> Seq<char>
    decreases e,
{
    match e {
        ExpressionView::Number(n) => number_text(n),
        ExpressionView::Variable(s) => s,
        ExpressionView::Sum(es) => "("@ + join_plus(expressions_text(es)) + ")"@,
    }
}

/// The plain texts of the expressions, each in its place.
pub open spec fn expressions_text(es: Seq<ExpressionView>) -> Seq<Seq<char>>
    decreases es,
{
    Seq::new(
        es.len(),
        |i: int|
            if 0 <= i < es.len() {
                expression_text(es[i])
            } else {
                Seq::empty()
            },
    )
}

/// The LaTeX markup of an expression: as the plain text, with sized delimiters for the
/// brackets.
pub open spec fn expression_latex(e: ExpressionView) -> Seq<char>
    decreases e,
{
    match e {
        ExpressionView::Number(n) => number_text(n),
        ExpressionView::Variable(s) => s,
        ExpressionView::Sum(es) => "\\left("@ + join_plus(expressions_latex(es)) + "\\right)"@,
    }
}

/// The LaTeX markups of the expressions, each in its place.
pub open spec fn expressions_latex(es: Seq<ExpressionView>) -> Seq<Seq<char>>
    decreases es,
{
    Seq::new(
        es.len(),
        |i: int|
            if 0 <= i < es.len() {
                expression_latex(es[i])
            } else {
                Seq::empty()
            },
    )
}

impl Expression {
    /// Appends the plain text of the expression to `out`.
    pub fn fmt(&self, out: &mut String)
        ensures
            final(out)@ == old(out)@ + expression_text(self@),
        decreases self,
    {
        let ghost start = out@;
        match self {
            Expression::Number(i) => {
                i.fmt(out);
            },
            Expression::Variable(s) => {
                s.fmt(out);
            },
            Expression::Sum(es) => {
                let ghost parts = expressions_text(self@->Sum_0);
                out.append("(");
                let mut i: usize = 0;
                while i < es.len()
                    invariant
                        decreases_to!(self => es),
                        i <= es@.len(),
                        parts.len() == es@.len(),
                        forall|k: int|
                            0 <= k < es@.len() ==> parts[k] == expression_text(es@[k]@),
                        out@ == start + "("@ + join_plus(parts.take(i as int)),
                    decreases es@.len() - i,
                {
                    proof {
                        vstd::std_specs::vecdeque::axiom_vec_dequeue_index_decreases(
                            *es,
                            i as int,
                        );
                        lemma_join_plus_next(parts, i as int);
                    }
                    if i > 0 {
                        out.append(" + ");
                    }
                    es[i].fmt(out);
                    i += 1;
                    assert(out@ =~= start + "("@ + join_plus(parts.take(i as int)));
                }
                out.append(")");
                assert(parts.take(i as int) =~= parts);
                assert(out@ =~= start + ("("@ + join_plus(parts) + ")"@));
            },
        }
    }

    /// The plain text of the expression.
    pub fn to_string(&self) -> (text: String)
        ensures
            text@ == expression_text(self@),
    {
        let mut text = String::new();
        self.fmt(&mut text);
        assert(text@ =~= expression_text(self@));
        text
    }
}

impl Latex for Expression {
    open spec fn latex_spec(&self) -> Seq<char> {
        expression_latex(self@)
    }

    fn latex(&self, out: &mut String)
        decreases self,
    {
        let ghost start = out@;
        match self {
            Expression::Number(i) => {
                i.fmt(out);
            },
            Expression::Variable(s) => {
                s.fmt(out);
            },
            Expression::Sum(es) => {
                let ghost parts = expressions_latex(self@->Sum_0);
                out.append("\\left(");
                let mut i: usize = 0;
                while i < es.len()
                    invariant
                        decreases_to!(self => es),
                        i <= es@.len(),
                        parts.len() == es@.len(),
                        forall|k: int|
                            0 <= k < es@.len() ==> parts[k] == expression_latex(es@[k]@),
                        out@ == start + "\\left("@ + join_plus(parts.take(i as int)),
                    decreases es@.len() - i,
                {
                    proof {
                        vstd::std_specs::vecdeque::axiom_vec_dequeue_index_decreases(
                            *es,
                            i as int,
                        );
                        lemma_join_plus_next(parts, i as int);
                    }
                    if i > 0 {
                        out.append(" + ");
                    }
                    es[i].latex(out);
                    i += 1;
                    assert(out@ =~= start + "\\left("@ + join_plus(parts.take(i as int)));
                }
                out.append("\\right)");
                assert(parts.take(i as int) =~= parts);
                assert(out@ =~= start + ("\\left("@ + join_plus(parts) + "\\right)"@));
            },
        }
    }
}

} // verus!
