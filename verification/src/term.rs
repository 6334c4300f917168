//! Terms: constants, variables, negations and flat sums.
use crate::number::{Number, NumberView};
use crate::symbol::Symbol;
use std::collections::VecDeque;
use vstd::prelude::*;
use vstd::std_specs::cmp::PartialEqSpecImpl;

/// Rendering of terms as plain text and as LaTeX.
pub mod fmt;
/// The operators on terms.
pub mod ops;

verus! {

/// A mathematical term.
#[derive(Debug)]
pub enum Term {
    /// An undefined term (e.g. division by zero).
    Undefined,
    /// A constant value specified by a number.
    Constant(Number),
    /// A variable specified by a symbol, like 'x'.
    Variable(Symbol),
    /// Unary negation operator (additive inverse).
    Neg(Box<Term>),
    /// A sum over subexpressions (n-ary addition).
    Sum(VecDeque<Term>),
}

/// What a term holds: the tree of its nodes, with the values of its leaves.
pub ghost enum TermView {
    Undefined,
    Constant(NumberView),
    Variable(Seq<char>),
    Neg(Box<TermView>),
    Sum(Seq<TermView>),
}

/// The tree of a term.
pub open spec fn term_view(t: Term) -> TermView
    decreases t,
{
    match t {
        Term::Undefined => TermView::Undefined,
        Term::Constant(n) => TermView::Constant(n@),
        Term::Variable(s) => TermView::Variable(s@),
        Term::Neg(x) => TermView::Neg(Box::new(term_view(*x))),
        Term::Sum(xs) => TermView::Sum(
            Seq::new(
                xs@.len(),
                |i: int|
                    if 0 <= i < xs@.len() {
                        term_view(xs@[i])
                    } else {
                        TermView::Undefined
                    },
            ),
        ),
    }
}

/// The trees of a sequence of terms.
pub open spec fn term_views(ts: Seq<Term>) -> Seq<TermView> {
    Seq::new(ts.len(), |i: int| term_view(ts[i]))
}

/// The tree of a sum holds the trees of its addends, in their order.
pub proof fn lemma_sum_view(xs: VecDeque<Term>)
    ensures
        Term::Sum(xs)@ == TermView::Sum(term_views(xs@)),
{
    assert(Term::Sum(xs)@->Sum_0 =~= term_views(xs@));
}

impl View for Term {
    type V = TermView;

    open spec fn view(&self) -> TermView {
        term_view(*self)
    }
}

impl PartialEqSpecImpl for Term {
    open spec fn obeys_eq_spec() -> bool {
        true
    }

    /// Two terms are equal where their trees are: the same shape, with the same values
    /// at the leaves.
    open spec fn eq_spec(&self, other: &Term) -> bool {
        self@ == other@
    }
}

impl PartialEq for Term {
    fn eq(&self, other: &Term) -> (equal: bool)
        decreases self,
    {
        match (self, other) {
            (Term::Undefined, Term::Undefined) => true,
            (Term::Constant(a), Term::Constant(b)) => a == b,
            (Term::Variable(a), Term::Variable(b)) => a == b,
            (Term::Neg(a), Term::Neg(b)) => {
                let a: &Term = &**a;
                let b: &Term = &**b;
                a.eq(b)
            },
            (Term::Sum(xs), Term::Sum(ys)) => {
                proof {
                    lemma_sum_view(*xs);
                    lemma_sum_view(*ys);
                }
                if xs.len() != ys.len() {
                    assert(term_views(xs@).len() != term_views(ys@).len());
                    return false;
                }
                let mut i: usize = 0;
                while i < xs.len()
                    invariant
                        decreases_to!(self => xs),
                        i <= xs@.len(),
                        xs@.len() == ys@.len(),
                        self@ == TermView::Sum(term_views(xs@)),
                        other@ == TermView::Sum(term_views(ys@)),
                        forall|k: int| 0 <= k < i ==> xs@[k]@ == ys@[k]@,
                    decreases xs@.len() - i,
                {
                    proof {
                        vstd::std_specs::vecdeque::axiom_vec_dequeue_index_decreases(
                            *xs,
                            i as int,
                        );
                    }
                    if !xs[i].eq(&ys[i]) {
                        proof {
                            assert(term_views(xs@)[i as int] != term_views(ys@)[i as int]);
                        }
                        return false;
                    }
                    i += 1;
                }
                assert(term_views(xs@) =~= term_views(ys@));
                true
            },
            _ => false,
        }
    }
}

impl Clone for Term {
    fn clone(&self) -> (copy: Self)
        ensures
            copy@ == self@,
        decreases self,
    {
        match self {
            Term::Undefined => Term::Undefined,
            Term::Constant(n) => Term::Constant(n.clone()),
            Term::Variable(s) => Term::Variable(s.clone()),
            Term::Neg(x) => {
                let inner: &Term = &**x;
                Term::Neg(Box::new(inner.clone()))
            },
            Term::Sum(xs) => {
                let mut copies: VecDeque<Term> = VecDeque::new();
                let mut i: usize = 0;
                while i < xs.len()
                    invariant
                        decreases_to!(self => xs),
                        i <= xs@.len(),
                        copies@.len() == i,
                        forall|k: int| 0 <= k < i ==> (#[trigger] copies@[k])@ == xs@[k]@,
                    decreases xs@.len() - i,
                {
                    proof {
                        vstd::std_specs::vecdeque::axiom_vec_dequeue_index_decreases(
                            *xs,
                            i as int,
                        );
                    }
                    let copy = xs[i].clone();
                    copies.push_back(copy);
                    i += 1;
                }
                let copy = Term::Sum(copies);
                assert(copy@ =~= self@) by {
                    assert(copy@->Sum_0 =~= self@->Sum_0);
                }
                copy
            },
        }
    }
}

/// The constant zero as a tree.
pub open spec fn zero_view() -> TermView {
    TermView::Constant(NumberView { real: 0, imag: 0 })
}

impl Term {
    /// Returns a term that represents the constant zero.
    #[must_use]
    pub fn zero() -> (zero: Self)
        ensures
            zero@ == zero_view(),
    {
        Term::Constant(Number::zero())
    }
}

} // verus!
