//! Rendering as LaTeX markup, and what the renderers of sums share.
use vstd::prelude::*;

verus! {

/// A type whose values can be written as LaTeX markup.
pub trait Latex {
    /// The markup of the value.
    spec fn latex_spec(&self) -> Seq<char>;

    /// Appends the markup of the value to `out`.
    fn latex(&self, out: &mut String)
        ensures
            final(out)@ == old(out)@ + self.latex_spec(),
    ;
}

/// Conversion of a value to a string of LaTeX markup.
pub trait ToLatex {
    /// The markup of the value.
    spec fn to_latex_spec(&self) -> Seq<char>;

    /// The markup of the value as a string of its own.
    fn to_latex(&self) -> (markup: String)
        ensures
            markup@ == self.to_latex_spec(),
    ;
}

impl<T: Latex> ToLatex for T {
    open spec fn to_latex_spec(&self) -> Seq<char> {
        self.latex_spec()
    }

    fn to_latex(&self) -> (markup: String) {
        let mut markup = String::new();
        self.latex(&mut markup);
        assert(Seq::<char>::empty() + self.latex_spec() =~= self.latex_spec());
        markup
    }
}

/// The parts in their order, with ` + ` between each two of them.
pub open spec fn join_plus(parts: Seq<Seq<char>>) -> Seq<char>
    decreases parts.len(),
{
    if parts.len() == 0 {
        Seq::empty()
    } else if parts.len() == 1 {
        parts[0]
    } else {
        join_plus(parts.drop_last()) + " + "@ + parts.last()
    }
}

/// What one more part adds to the joined text of the first `i` parts: the part itself
/// where it is the first, else ` + ` and the part.
pub proof fn lemma_join_plus_next(parts: Seq<Seq<char>>, i: int)
    requires
        0 <= i < parts.len(),
    ensures
        i == 0 ==> join_plus(parts.take(i + 1)) == parts[i],
        i > 0 ==> join_plus(parts.take(i + 1)) == join_plus(parts.take(i)) + " + "@ + parts[i],
{
    let next = parts.take(i + 1);
    assert(next.last() == parts[i]);
    assert(next.drop_last() =~= parts.take(i));
    if i == 0 {
        assert(next[0] == parts[i]);
    }
}

} // verus!
