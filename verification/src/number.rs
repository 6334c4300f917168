//! Numbers: a real and an imaginary part, each an integer of any size.
use crate::number::integer::Integer;
use crate::number::numeral::int_text;
use vstd::prelude::*;
use vstd::std_specs::cmp::PartialEqSpecImpl;

/// Conversions of machine integers to numbers.
pub mod convert;
pub mod integer;
pub mod numeral;

verus! {

/// A part of a number.
#[derive(Debug)]
enum NumberComponent {
    Integer(Integer),
}

impl View for NumberComponent {
    type V = int;

    /// The value of the part.
    closed spec fn view(&self) -> int {
        match self {
            NumberComponent::Integer(i) => i@,
        }
    }
}

impl Clone for NumberComponent {
    fn clone(&self) -> (copy: Self)
        ensures
            copy@ == self@,
    {
        match self {
            NumberComponent::Integer(i) => NumberComponent::Integer(i.clone()),
        }
    }
}

impl PartialEqSpecImpl for NumberComponent {
    open spec fn obeys_eq_spec() -> bool {
        true
    }

    open spec fn eq_spec(&self, other: &NumberComponent) -> bool {
        self@ == other@
    }
}

impl PartialEq for NumberComponent {
    fn eq(&self, other: &NumberComponent) -> (equal: bool) {
        match (self, other) {
            (NumberComponent::Integer(a), NumberComponent::Integer(b)) => a == b,
        }
    }
}

/// A number: a real part and an imaginary part.
#[derive(Debug)]
pub struct Number {
    real: NumberComponent,
    imag: NumberComponent,
}

/// What a number holds: its two parts.
pub ghost struct NumberView {
    pub real: int,
    pub imag: int,
}

/// The text of a number: the real part alone where the imaginary part is zero, the
/// imaginary part with an `i` behind it where only the real part is zero, else both with a
/// plus sign between them. The parts are written in decimal.
pub open spec fn number_text(n: NumberView) -> Seq<char> {
    if n.imag == 0 {
        int_text(n.real, 10)
    } else if n.real == 0 {
        int_text(n.imag, 10) + "i"@
    } else {
        int_text(n.real, 10) + " + "@ + int_text(n.imag, 10) + "i"@
    }
}

impl View for Number {
    type V = NumberView;

    closed spec fn view(&self) -> NumberView {
        NumberView { real: self.real@, imag: self.imag@ }
    }
}

impl Clone for Number {
    fn clone(&self) -> (copy: Self)
        ensures
            copy@ == self@,
    {
        Number { real: self.real.clone(), imag: self.imag.clone() }
    }
}

impl PartialEqSpecImpl for Number {
    open spec fn obeys_eq_spec() -> bool {
        true
    }

    /// Two numbers are equal where their parts are.
    open spec fn eq_spec(&self, other: &Number) -> bool {
        self@ == other@
    }
}

impl PartialEq for Number {
    fn eq(&self, other: &Number) -> (equal: bool) {
        self.real == other.real && self.imag == other.imag
    }
}

impl Number {
    /// The number zero (additive identity).
    pub fn zero() -> (zero: Self)
        ensures
            zero@ == (NumberView { real: 0, imag: 0 }),
    {
        Number {
            real: NumberComponent::Integer(Integer::zero()),
            imag: NumberComponent::Integer(Integer::zero()),
        }
    }

    /// The number with the given parts.
    pub fn new(re: Integer, im: Integer) -> (number: Self)
        ensures
            number@ == (NumberView { real: re@, imag: im@ }),
    {
        Number { real: NumberComponent::Integer(re), imag: NumberComponent::Integer(im) }
    }

    /// Whether the number is zero: both of its parts are.
    pub fn is_zero(&self) -> (zero: bool)
        ensures
            zero == (self@.real == 0 && self@.imag == 0),
    {
        match self {
            Number { real: NumberComponent::Integer(r), imag: NumberComponent::Integer(i) } => {
                r.is_zero() && i.is_zero()
            },
        }
    }

    /// Appends the text of the number to `out`.
    pub fn fmt(&self, out: &mut String)
        ensures
            final(out)@ == old(out)@ + number_text(self@),
    {
        match self {
            Number { real: NumberComponent::Integer(r), imag: NumberComponent::Integer(i) } => {
                if i.is_zero() {
                    r.fmt(out);
                } else if r.is_zero() {
                    i.fmt(out);
                    out.append("i");
                    assert(out@ =~= old(out)@ + (int_text(i@, 10) + "i"@));
                } else {
                    r.fmt(out);
                    out.append(" + ");
                    i.fmt(out);
                    out.append("i");
                    assert(out@ =~= old(out)@ + (int_text(r@, 10) + " + "@ + int_text(i@, 10)
                        + "i"@));
                }
            },
        }
    }

    /// The text of the number.
    pub fn to_string(&self) -> (text: String)
        ensures
            text@ == number_text(self@),
    {
        let mut text = String::new();
        self.fmt(&mut text);
        assert(text@ =~= number_text(self@));
        text
    }
}

} // verus!
