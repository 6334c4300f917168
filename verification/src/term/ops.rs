//! Addition, negation and subtraction of terms, and what holds of them.
use crate::term::{lemma_sum_view, term_views, zero_view, Term, TermView};
use std::collections::VecDeque;
use vstd::prelude::*;
use vstd::std_specs::ops::{AddSpecImpl, NegSpecImpl, SubSpecImpl};

verus! {

/// The addends that a term brings to a sum: those of a sum, else the term itself.
pub open spec fn summands(t: TermView) -> Seq<TermView> {
    match t {
        TermView::Sum(xs) => xs,
        _ => seq![t],
    }
}

/// The sum of two terms: one flat sum of the addends of the first and then those of the
/// second.
pub open spec fn combine(a: TermView, b: TermView) -> TermView {
    TermView::Sum(summands(a) + summands(b))
}

/// The additive inverse of a term: the term under a negation, as it is.
pub open spec fn negate(a: TermView) -> TermView {
    TermView::Neg(Box::new(a))
}

impl AddSpecImpl<Term> for Term {
    open spec fn obeys_add_spec() -> bool {
        false
    }

    open spec fn add_req(self, rhs: Term) -> bool {
        true
    }

    open spec fn add_spec(self, rhs: Term) -> Term {
        arbitrary()
    }
}

impl core::ops::Add<Term> for Term {
    type Output = Term;

    /// Adds two terms into one sum. The sum of flat terms is flat.
    #[inline]
    fn add(self, other: Term) -> (sum: Term)
        ensures
            sum@ == combine(self@, other@),
            sum@ is Sum,
            is_flat(self@) && is_flat(other@) ==> is_flat(sum@),
            is_normal(self@) && is_normal(other@) ==> is_normal(sum@),
    {
        let mut sum = self;
        core::ops::AddAssign::add_assign(&mut sum, other);
        sum
    }
}

impl core::ops::AddAssign<Term> for Term {
    /// Adds a term to this one in place: what `+` gives is written back.
    fn add_assign(&mut self, other: Term)
        ensures
            final(self)@ == combine(old(self)@, other@),
            final(self)@ is Sum,
            is_flat(old(self)@) && is_flat(other@) ==> is_flat(final(self)@),
            is_normal(old(self)@) && is_normal(other@) ==> is_normal(final(self)@),
    {
        proof {
            if is_normal(old(self)@) && is_normal(other@) {
                lemma_combine_normal(old(self)@, other@);
            }
        }
        let mut taken = Term::zero();
        core::mem::swap(self, &mut taken);
        *self = match (taken, other) {
            (Term::Sum(mut summands_self), Term::Sum(mut summands_other)) => {
                proof {
                    lemma_sum_view(summands_self);
                    lemma_sum_view(summands_other);
                }
                let ghost xs = summands_self@;
                let ghost ys = summands_other@;
                summands_self.append(&mut summands_other);
                proof {
                    lemma_sum_view(summands_self);
                    assert(term_views(xs + ys) =~= term_views(xs) + term_views(ys));
                }
                Term::Sum(summands_self)
            },
            (Term::Sum(mut summands), x) => {
                proof {
                    lemma_sum_view(summands);
                }
                let ghost xs = summands@;
                summands.push_back(x);
                proof {
                    lemma_sum_view(summands);
                    assert(term_views(xs.push(x)) =~= term_views(xs) + seq![x@]);
                }
                Term::Sum(summands)
            },
            (x, Term::Sum(mut summands)) => {
                proof {
                    lemma_sum_view(summands);
                }
                let ghost ys = summands@;
                summands.push_front(x);
                proof {
                    lemma_sum_view(summands);
                    assert(term_views(seq![x] + ys) =~= seq![x@] + term_views(ys));
                }
                Term::Sum(summands)
            },
            (x, y) => {
                let mut summands = VecDeque::new();
                summands.push_back(x);
                summands.push_back(y);
                proof {
                    lemma_sum_view(summands);
                    assert(term_views(summands@) =~= seq![x@] + seq![y@]);
                }
                Term::Sum(summands)
            },
        };
    }
}

impl NegSpecImpl for Term {
    open spec fn obeys_neg_spec() -> bool {
        false
    }

    open spec fn neg_req(self) -> bool {
        true
    }

    open spec fn neg_spec(self) -> Term {
        arbitrary()
    }
}

impl core::ops::Neg for Term {
    type Output = Term;

    /// Puts the term under a negation; a negation under it is kept.
    #[inline]
    fn neg(self) -> (inverse: Term)
        ensures
            inverse@ == negate(self@),
            is_flat(inverse@),
            is_normal(self@) ==> is_normal(inverse@),
    {
        Term::Neg(Box::new(self))
    }
}

impl SubSpecImpl<Term> for Term {
    open spec fn obeys_sub_spec() -> bool {
        false
    }

    open spec fn sub_req(self, rhs: Term) -> bool {
        true
    }

    open spec fn sub_spec(self, rhs: Term) -> Term {
        arbitrary()
    }
}

impl core::ops::Sub<Term> for Term {
    type Output = Term;

    /// Subtracts by adding the negation.
    #[inline]
    fn sub(self, other: Term) -> (difference: Term)
        ensures
            difference@ == combine(self@, negate(other@)),
            difference@ is Sum,
            is_flat(self@) ==> is_flat(difference@),
            is_normal(self@) && is_normal(other@) ==> is_normal(difference@),
    {
        self + core::ops::Neg::neg(other)
    }
}

impl core::ops::SubAssign<Term> for Term {
    /// Subtracts a term from this one in place.
    #[inline]
    fn sub_assign(&mut self, other: Term)
        ensures
            final(self)@ == combine(old(self)@, negate(other@)),
            final(self)@ is Sum,
            is_flat(old(self)@) ==> is_flat(final(self)@),
            is_normal(old(self)@) && is_normal(other@) ==> is_normal(final(self)@),
    {
        core::ops::AddAssign::add_assign(self, core::ops::Neg::neg(other));
    }
}

/// Whether a sum lists no sum among its addends. Every other term is flat.
pub open spec fn is_flat(t: TermView) -> bool {
    match t {
        TermView::Sum(xs) => forall|i: int| 0 <= i < xs.len() ==> !(#[trigger] xs[i] is Sum),
        _ => true,
    }
}

/// Whether no sum stands directly in a sum, anywhere in the term.
pub open spec fn is_normal(t: TermView) -> bool
    decreases t,
{
    match t {
        TermView::Sum(xs) => forall|i: int|
            0 <= i < xs.len() ==> !(#[trigger] xs[i] is Sum) && is_normal(xs[i]),
        TermView::Neg(x) => is_normal(*x),
        _ => true,
    }
}

/// What is normal is flat.
pub proof fn lemma_normal_flat(a: TermView)
    requires
        is_normal(a),
    ensures
        is_flat(a),
{
}

/// The sum of two normal terms is normal, and so is the negation of a normal term: terms
/// that are built from leaves by adding and negating hold no sum directly in a sum.
pub proof fn lemma_combine_normal(a: TermView, b: TermView)
    requires
        is_normal(a),
        is_normal(b),
    ensures
        is_normal(combine(a, b)),
        is_normal(negate(a)),
        is_normal(combine(a, negate(b))),
{
    let left = summands(a);
    let right = summands(b);
    assert forall|i: int| 0 <= i < (left + right).len() implies !(#[trigger] (left + right)[i]
        is Sum) && is_normal((left + right)[i]) by {
        if i < left.len() {
            assert((left + right)[i] == left[i]);
        } else {
            assert((left + right)[i] == right[i - left.len()]);
        }
    }
    let last = seq![negate(b)];
    assert forall|i: int| 0 <= i < (left + last).len() implies !(#[trigger] (left + last)[i]
        is Sum) && is_normal((left + last)[i]) by {
        if i < left.len() {
            assert((left + last)[i] == left[i]);
        } else {
            assert((left + last)[i] == negate(b));
        }
    }
}

/// The sum of two flat terms is a sum, and flat.
pub proof fn lemma_combine_flat(a: TermView, b: TermView)
    requires
        is_flat(a),
        is_flat(b),
    ensures
        combine(a, b) is Sum,
        is_flat(combine(a, b)),
{
}

/// Adding three terms gives one sum of the addends of the first, then those of the second,
/// then those of the third, however the two additions are grouped.
pub proof fn lemma_combine_associative(a: TermView, b: TermView, c: TermView)
    ensures
        combine(combine(a, b), c) == combine(a, combine(b, c)),
        combine(combine(a, b), c) == TermView::Sum(summands(a) + summands(b) + summands(c)),
{
    assert(summands(a) + (summands(b) + summands(c)) =~= summands(a) + summands(b) + summands(c));
}

/// Adding three terms of which none is a sum gives the sum that lists the three in their
/// order, however the two additions are grouped; and that sum is flat.
pub proof fn lemma_combine_three(a: TermView, b: TermView, c: TermView)
    requires
        !(a is Sum),
        !(b is Sum),
        !(c is Sum),
    ensures
        combine(combine(a, b), c) == TermView::Sum(seq![a, b, c]),
        combine(a, combine(b, c)) == TermView::Sum(seq![a, b, c]),
        is_flat(TermView::Sum(seq![a, b, c])),
{
    lemma_combine_associative(a, b, c);
    assert(seq![a] + seq![b] + seq![c] =~= seq![a, b, c]);
}

/// The sum of two terms of which neither is a sum lists the two.
pub proof fn lemma_combine_pair(a: TermView, b: TermView)
    requires
        !(a is Sum),
        !(b is Sum),
    ensures
        combine(a, b) == TermView::Sum(seq![a, b]),
{
    assert(seq![a] + seq![b] =~= seq![a, b]);
}

/// Adding zero to a term that is no sum keeps the zero: the sum lists the term and the
/// zero.
pub proof fn lemma_combine_zero(a: TermView)
    requires
        !(a is Sum),
    ensures
        combine(a, zero_view()) == TermView::Sum(seq![a, zero_view()]),
{
    lemma_combine_pair(a, zero_view());
}

/// Adding zero to any term keeps the zero: it comes last among the addends.
pub proof fn lemma_combine_zero_last(a: TermView)
    ensures
        combine(a, zero_view()) == TermView::Sum(summands(a).push(zero_view())),
{
    assert(summands(a) + seq![zero_view()] =~= summands(a).push(zero_view()));
}

/// How many negations stand on top of a term.
pub open spec fn negations(t: TermView) -> nat
    decreases t,
{
    match t {
        TermView::Neg(x) => negations(*x) + 1,
        _ => 0,
    }
}

/// A difference is the sum of the first term and the second under a negation, and a
/// negation under a negation stays.
pub proof fn lemma_negation_kept(a: TermView, b: TermView)
    ensures
        summands(combine(a, negate(b))) == summands(a).push(negate(b)),
        negate(negate(a)) != a,
        negate(negate(a)) == TermView::Neg(Box::new(TermView::Neg(Box::new(a)))),
{
    assert(summands(a) + seq![negate(b)] =~= summands(a).push(negate(b)));
    assert(negations(negate(negate(a))) == negations(a) + 2) by {
        assert(negations(negate(a)) == negations(a) + 1);
    }
}

} // verus!
