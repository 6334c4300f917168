//! The plain text and the LaTeX markup of a term.
use crate::fmt::{join_plus, lemma_join_plus_next, Latex, ToLatex};
use crate::number::number_text;
use crate::term::{Term, TermView};
use vstd::prelude::*;

verus! {

/// The plain text of a term: a leaf as its value or name, a negation as `-(x)`, a sum as
/// `(x0 + x1 + ... + xn)`, and the undefined term as the word `undefined`.
pub open spec fn term_text(t: TermView) -> Seq<char>
    decreases t,
{
    match t {
        TermView::Undefined => "undefined"@,
        TermView::Constant(n) => number_text(n),
        TermView::Variable(s) => s,
        TermView::Neg(x) => "-("@ + term_text(*x) + ")"@,
        TermView::Sum(xs) => "("@ + join_plus(terms_text(xs)) + ")"@,
    }
}

/// The plain texts of the terms, each in its place.
pub open spec fn terms_text(ts: Seq<TermView>) -> Seq<Seq<char>>
    decreases ts,
{
    Seq::new(
        ts.len(),
        |i: int|
            if 0 <= i < ts.len() {
                term_text(ts[i])
            } else {
                Seq::empty()
            },
    )
}

/// The LaTeX markup of a term: as the plain text, with sized delimiters for the brackets
/// and the undefined term as upright text.
pub open spec fn term_latex(t: TermView) -> Seq<char>
    decreases t,
{
    match t {
        TermView::Undefined => "\\text{undefined}"@,
        TermView::Constant(n) => number_text(n),
        TermView::Variable(s) => s,
        TermView::Neg(x) => "-\\left("@ + term_latex(*x) + "\\right)"@,
        TermView::Sum(xs) => "\\left("@ + join_plus(terms_latex(xs)) + "\\right)"@,
    }
}

/// The LaTeX markups of the terms, each in its place.
pub open spec fn terms_latex(ts: Seq<TermView>) -> Seq<Seq<char>>
    decreases ts,
{
    Seq::new(
        ts.len(),
        |i: int|
            if 0 <= i < ts.len() {
                term_latex(ts[i])
            } else {
                Seq::empty()
            },
    )
}

/// The text and the markup of a term depend on its tree alone: terms of one tree have one
/// text and one markup, whenever they are rendered.
pub proof fn lemma_rendering_determined(a: Term, b: Term)
    requires
        a@ == b@,
    ensures
        term_text(a@) == term_text(b@),
        a.latex_spec() == b.latex_spec(),
        a.to_latex_spec() == b.to_latex_spec(),
{
}

impl Term {
    /// Appends the plain text of the term to `out`.
    pub fn fmt(&self, out: &mut String)
        ensures
            final(out)@ == old(out)@ + term_text(self@),
        decreases self,
    {
        let ghost start = out@;
        match self {
            Term::Undefined => {
                out.append("undefined");
            },
            Term::Constant(x) => {
                x.fmt(out);
            },
            Term::Variable(x) => {
                x.fmt(out);
            },
            Term::Neg(x) => {
                let inner: &Term = &**x;
                out.append("-(");
                inner.fmt(out);
                out.append(")");
                assert(out@ =~= start + ("-("@ + term_text(inner@) + ")"@));
            },
            Term::Sum(xs) => {
                let ghost parts = terms_text(self@->Sum_0);
                out.append("(");
                let mut i: usize = 0;
                while i < xs.len()
                    invariant
                        decreases_to!(self => xs),
                        i <= xs@.len(),
                        parts.len() == xs@.len(),
                        forall|k: int| 0 <= k < xs@.len() ==> parts[k] == term_text(xs@[k]@),
                        out@ == start + "("@ + join_plus(parts.take(i as int)),
                    decreases xs@.len() - i,
                {
                    proof {
                        vstd::std_specs::vecdeque::axiom_vec_dequeue_index_decreases(
                            *xs,
                            i as int,
                        );
                        lemma_join_plus_next(parts, i as int);
                    }
                    if i > 0 {
                        out.append(" + ");
                    }
                    xs[i].fmt(out);
                    i += 1;
                    assert(out@ =~= start + "("@ + join_plus(parts.take(i as int)));
                }
                out.append(")");
                assert(parts.take(i as int) =~= parts);
                assert(out@ =~= start + ("("@ + join_plus(parts) + ")"@));
            },
        }
    }

    /// The plain text of the term.
    pub fn to_string(&self) -> (text: String)
        ensures
            text@ == term_text(self@),
    {
        let mut text = String::new();
        self.fmt(&mut text);
        assert(text@ =~= term_text(self@));
        text
    }
}

impl Latex for Term {
    open spec fn latex_spec(&self) -> Seq<char> {
        term_latex(self@)
    }

    fn latex(&self, out: &mut String)
        decreases self,
    {
        let ghost start = out@;
        match self {
            Term::Undefined => {
                out.append("\\text{undefined}");
            },
            Term::Constant(x) => {
                x.fmt(out);
            },
            Term::Variable(x) => {
                x.fmt(out);
            },
            Term::Neg(x) => {
                let inner: &Term = &**x;
                out.append("-\\left(");
                inner.latex(out);
                out.append("\\right)");
                assert(out@ =~= start + ("-\\left("@ + term_latex(inner@) + "\\right)"@));
            },
            Term::Sum(xs) => {
                let ghost parts = terms_latex(self@->Sum_0);
                out.append("\\left(");
                let mut i: usize = 0;
                while i < xs.len()
                    invariant
                        decreases_to!(self => xs),
                        i <= xs@.len(),
                        parts.len() == xs@.len(),
                        forall|k: int| 0 <= k < xs@.len() ==> parts[k] == term_latex(xs@[k]@),
                        out@ == start + "\\left("@ + join_plus(parts.take(i as int)),
                    decreases xs@.len() - i,
                {
                    proof {
                        vstd::std_specs::vecdeque::axiom_vec_dequeue_index_decreases(
                            *xs,
                            i as int,
                        );
                        lemma_join_plus_next(parts, i as int);
                    }
                    if i > 0 {
                        out.append(" + ");
                    }
                    xs[i].latex(out);
                    i += 1;
                    assert(out@ =~= start + "\\left("@ + join_plus(parts.take(i as int)));
                }
                out.append("\\right)");
                assert(parts.take(i as int) =~= parts);
                assert(out@ =~= start + ("\\left("@ + join_plus(parts) + "\\right)"@));
            },
        }
    }
}

} // verus!
