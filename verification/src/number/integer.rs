//! Integers of any size, and their numerals.
use crate::number::numeral::{
    digits_value, int_text, is_digit, is_digits, is_numeral, nat_text, numeral_value,
};
use vstd::prelude::*;
use vstd::std_specs::cmp::PartialEqSpecImpl;

/// Conversions between integers and `num_bigint::BigInt`.
pub mod bigint;
/// Comparison of integers with machine integers.
pub mod compare;
/// Conversions of machine integers to integers.
pub mod convert;

verus! {

/// The number that a limb counts in: 2 to the power 64.
pub open spec fn limb_base() -> nat {
    0x1_0000_0000_0000_0000
}

/// The number that the limbs denote, the least significant limb first.
pub open spec fn limbs_value(limbs: Seq<u64>) -> nat
    decreases limbs.len(),
{
    if limbs.len() == 0 {
        0
    } else {
        limbs[0] as nat + limb_base() * limbs_value(limbs.drop_first())
    }
}

/// Whether the limbs end in no zero limb, so that a number has one sequence of limbs only.
pub open spec fn is_canonical(limbs: Seq<u64>) -> bool {
    limbs.len() == 0 || limbs.last() != 0
}

/// Limbs that do not end in a zero limb denote a positive number.
pub proof fn lemma_canonical_positive(limbs: Seq<u64>)
    requires
        is_canonical(limbs),
        limbs.len() > 0,
    ensures
        limbs_value(limbs) > 0,
    decreases limbs.len(),
{
    let rest = limbs.drop_first();
    if rest.len() > 0 {
        assert(rest.last() == limbs.last());
        lemma_canonical_positive(rest);
        assert(limb_base() * limbs_value(rest) > 0) by (nonlinear_arith)
            requires
                limbs_value(rest) > 0,
                limb_base() > 0,
        ;
    } else {
        assert(limbs[0] == limbs.last());
        assert(limb_base() * limbs_value(rest) == 0) by (nonlinear_arith)
            requires
                limbs_value(rest) == 0,
        ;
    }
}

/// Two sequences of limbs that do not end in a zero limb and denote the same number are
/// the same sequence.
pub proof fn lemma_canonical_unique(a: Seq<u64>, b: Seq<u64>)
    requires
        is_canonical(a),
        is_canonical(b),
        limbs_value(a) == limbs_value(b),
    ensures
        a == b,
    decreases a.len(),
{
    if a.len() == 0 {
        if b.len() > 0 {
            lemma_canonical_positive(b);
        }
        assert(a =~= b);
    } else if b.len() == 0 {
        lemma_canonical_positive(a);
    } else {
        let a_rest = a.drop_first();
        let b_rest = b.drop_first();
        if a_rest.len() > 0 {
            assert(a_rest.last() == a.last());
        }
        if b_rest.len() > 0 {
            assert(b_rest.last() == b.last());
        }
        assert(a[0] == b[0] && limbs_value(a_rest) == limbs_value(b_rest));
        lemma_canonical_unique(a_rest, b_rest);
        assert(a =~= seq![a[0]] + a_rest);
        assert(b =~= seq![b[0]] + b_rest);
    }
}

/// Why a text is no numeral.
#[derive(Debug, Clone, Copy, PartialEq, Eq, Structural)]
pub enum ConversionError {
    /// The text holds no digit: it is empty or a lone minus sign.
    NoDigits,
    /// The text holds a character that is no digit of the radix.
    InvalidDigit,
}

/// What is left of a text once a leading minus sign is taken off.
pub open spec fn unsigned_part(s: Seq<char>) -> Seq<char> {
    if s.len() > 0 && s[0] == '-' {
        s.drop_first()
    } else {
        s
    }
}

/// `rug::integer::ParseIntegerError`, with which `rug::Integer::from_str_radix` fails.
/// Nothing is read from it.
#[verifier::external_type_specification]
#[verifier::external_body]
pub struct ExParseIntegerError(rug::integer::ParseIntegerError);

/// The digits of a magnitude in a radix, by `rug::Integer::to_string_radix`.
///
/// The limbs become a `rug::Integer` through `rug::Integer::assign_digits`, which reads
/// them least significant first and gives a number that is not negative. For such a number
/// `to_string_radix` writes the digits most significant first, in lower case, without
/// leading zeros, and `0` for zero. It panics on a radix below 2 or above 36.
#[verifier::external_body]
fn magnitude_text(limbs: &Vec<u64>, radix: i32) -> (text: String)
    requires
        2 <= radix <= 36,
    ensures
        text@ == nat_text(limbs_value(limbs@), radix as nat),
{
    let mut number = rug::Integer::new();
    number.assign_digits(limbs.as_slice(), rug::integer::Order::Lsf);
    number.to_string_radix(radix)
}

/// The magnitude that a run of digits denotes, by `rug::Integer::from_str_radix`.
///
/// On one or more digits of the radix, with no sign, blank or underscore among them, the
/// parse succeeds with the number that the digits denote. `rug::Integer::to_digits` hands
/// out its limbs least significant first, as many as the number needs: none for zero, and
/// no zero limb at the end. The parse panics on a radix below 2 or above 36.
#[verifier::external_body]
fn magnitude_limbs(digits: &str, radix: i32) -> (parsed: Result<
    Vec<u64>,
    rug::integer::ParseIntegerError,
>)
    requires
        2 <= radix <= 36,
        is_digits(digits@, radix as nat),
    ensures
        parsed is Ok,
        is_canonical(parsed->Ok_0@),
        limbs_value(parsed->Ok_0@) == digits_value(digits@, radix as nat),
{
    match rug::Integer::from_str_radix(digits, radix) {
        Ok(number) => Ok(number.to_digits::<u64>(rug::integer::Order::Lsf)),
        Err(error) => Err(error),
    }
}

/// An arbitrarily large integer, held as a sign and a magnitude.
///
/// The magnitude is a sequence of limbs, the least significant first, that does not end in
/// a zero limb; zero has no limbs and is not negative.
#[derive(Debug)]
pub struct Integer {
    negative: bool,
    limbs: Vec<u64>,
}

impl View for Integer {
    type V = int;

    /// The number that the integer holds.
    closed spec fn view(&self) -> int {
        if self.negative {
            -(limbs_value(self.limbs@) as int)
        } else {
            limbs_value(self.limbs@) as int
        }
    }
}

impl Clone for Integer {
    fn clone(&self) -> (copy: Self)
        ensures
            copy@ == self@,
    {
        proof {
            use_type_invariant(self);
        }
        let limbs = self.limbs.clone();
        assert(limbs@ =~= self.limbs@);
        Integer { negative: self.negative, limbs }
    }
}

impl PartialEqSpecImpl for Integer {
    open spec fn obeys_eq_spec() -> bool {
        true
    }

    /// Two integers are equal where they hold the same number.
    open spec fn eq_spec(&self, other: &Integer) -> bool {
        self@ == other@
    }
}

impl PartialEq for Integer {
    fn eq(&self, other: &Integer) -> (equal: bool) {
        proof {
            use_type_invariant(self);
            use_type_invariant(other);
            if self.limbs@.len() > 0 {
                lemma_canonical_positive(self.limbs@);
            }
            if other.limbs@.len() > 0 {
                lemma_canonical_positive(other.limbs@);
            }
            if limbs_value(self.limbs@) == limbs_value(other.limbs@) {
                lemma_canonical_unique(self.limbs@, other.limbs@);
            }
        }
        if self.negative != other.negative || self.limbs.len() != other.limbs.len() {
            return false;
        }
        let mut i: usize = 0;
        while i < self.limbs.len()
            invariant
                i <= self.limbs@.len(),
                self.limbs@.len() == other.limbs@.len(),
                self@ == other@ ==> self.limbs@ == other.limbs@,
                forall|k: int| 0 <= k < i ==> self.limbs@[k] == other.limbs@[k],
            decreases self.limbs@.len() - i,
        {
            if self.limbs[i] != other.limbs[i] {
                return false;
            }
            i += 1;
        }
        assert(self.limbs@ =~= other.limbs@);
        true
    }
}

impl Integer {
    #[verifier::type_invariant]
    spec fn well_formed(&self) -> bool {
        &&& is_canonical(self.limbs@)
        &&& self.negative ==> self.limbs@.len() > 0
    }

    /// The integer of a sign and a magnitude; the sign of zero is dropped.
    pub(crate) fn from_sign_magnitude(negative: bool, magnitude: u128) -> (integer: Self)
        ensures
            integer@ == if negative {
                -(magnitude as int)
            } else {
                magnitude as int
            },
    {
        let low = (magnitude % 0x1_0000_0000_0000_0000u128) as u64;
        let high = (magnitude / 0x1_0000_0000_0000_0000u128) as u64;
        let mut limbs: Vec<u64> = Vec::new();
        if magnitude > 0 {
            limbs.push(low);
            if high > 0 {
                limbs.push(high);
            }
        }
        proof {
            if limbs@.len() > 0 {
                let rest = limbs@.drop_first();
                if rest.len() > 0 {
                    let none = rest.drop_first();
                    assert(limbs_value(none) == 0);
                    assert(limbs_value(rest) == rest[0] + limb_base() * limbs_value(none));
                    assert(limbs_value(rest) == high);
                } else {
                    assert(limbs_value(rest) == 0);
                }
                assert(limbs_value(limbs@) == limbs@[0] + limb_base() * limbs_value(rest));
            }
            assert(limbs_value(limbs@) == magnitude);
        }
        Integer { negative: negative && magnitude > 0, limbs }
    }

    /// The integer zero.
    pub fn zero() -> (zero: Self)
        ensures
            zero@ == 0,
    {
        Integer { negative: false, limbs: Vec::new() }
    }

    /// Whether the integer is zero.
    pub fn is_zero(&self) -> (zero: bool)
        ensures
            zero == (self@ == 0),
    {
        proof {
            use_type_invariant(self);
            if self.limbs@.len() > 0 {
                lemma_canonical_positive(self.limbs@);
            }
        }
        self.limbs.len() == 0
    }

    /// The integer that a numeral of a radix from 2 to 36 denotes.
    ///
    /// A numeral is an optional minus sign and then one or more digits, `0` to `9` and `a`
    /// to `z`, each below the radix. Any other text is rejected: with `NoDigits` where
    /// nothing follows the optional sign, else with `InvalidDigit`.
    pub fn from_str_radix(text: &str, radix: i32) -> (parsed: Result<Integer, ConversionError>)
        requires
            2 <= radix <= 36,
        ensures
            parsed is Ok <==> is_numeral(text@, radix as nat),
            parsed is Ok ==> parsed->Ok_0@ == numeral_value(text@, radix as nat),
            parsed is Err ==> (parsed->Err_0 == ConversionError::NoDigits <==> unsigned_part(
                text@,
            ).len() == 0),
    {
        if !text.is_ascii() {
            proof {
                let i = choose|i: int|
                    0 <= i < text@.len() && !('\0' <= #[trigger] text@[i] <= '\u{7f}');
                assert(!is_digit(text@[i], radix as nat));
                if text@[0] == '-' {
                    assert(text@.drop_first()[i - 1] == text@[i]);
                }
            }
            return Err(ConversionError::InvalidDigit);
        }
        let bytes = text.as_bytes();
        let len = bytes.len();
        proof {
            vstd::string::is_ascii_spec_bytes(text);
        }
        let negative = len > 0 && bytes[0] == 45u8;
        let start: usize = if negative {
            1
        } else {
            0
        };
        if start == len {
            return Err(ConversionError::NoDigits);
        }
        let ghost digits_spec = unsigned_part(text@);
        assert(digits_spec =~= text@.subrange(start as int, len as int));
        let mut i: usize = start;
        while i < len
            invariant
                start <= i <= len,
                len == bytes@.len(),
                len == text@.len(),
                2 <= radix <= 36,
                digits_spec == text@.subrange(start as int, len as int),
                digits_spec == unsigned_part(text@),
                is_numeral(text@, radix as nat) == is_digits(digits_spec, radix as nat),
                forall|k: int| 0 <= k < len ==> #[trigger] bytes@[k] == text@[k] as u8,
                forall|k: int| 0 <= k < len ==> '\0' <= #[trigger] text@[k] <= '\u{7f}',
                forall|k: int| start <= k < i ==> is_digit(#[trigger] text@[k], radix as nat),
            decreases len - i,
        {
            let b = bytes[i];
            let digit = (48 <= b && b <= 57 && ((b - 48) as i32) < radix) || (97 <= b && b <= 122
                && ((b - 87) as i32) < radix);
            assert(digit == is_digit(text@[i as int], radix as nat));
            if !digit {
                proof {
                    assert(digits_spec[i - start] == text@[i as int]);
                }
                return Err(ConversionError::InvalidDigit);
            }
            i += 1;
        }
        let digits = text.substring_ascii(start, len);
        assert(is_digits(digits@, radix as nat)) by {
            assert forall|k: int| 0 <= k < digits@.len() implies is_digit(
                #[trigger] digits@[k],
                radix as nat,
            ) by {
                assert(digits@[k] == text@[k + start]);
            }
        }
        match magnitude_limbs(digits, radix) {
            Ok(limbs) => {
                proof {
                    if limbs@.len() > 0 {
                        lemma_canonical_positive(limbs@);
                    }
                }
                let negative = negative && limbs.len() > 0;
                Ok(Integer { negative, limbs })
            },
            Err(_) => Err(ConversionError::InvalidDigit),
        }
    }

    /// The numeral of the integer in a radix from 2 to 36.
    pub fn to_string_radix(&self, radix: i32) -> (text: String)
        requires
            2 <= radix <= 36,
        ensures
            text@ == int_text(self@, radix as nat),
    {
        proof {
            use_type_invariant(self);
            if self.limbs@.len() > 0 {
                lemma_canonical_positive(self.limbs@);
            }
        }
        let digits = magnitude_text(&self.limbs, radix);
        if self.negative {
            let mut text = "-".to_owned();
            text.append(digits.as_str());
            proof {
                reveal_strlit("-");
                assert("-"@ =~= seq!['-']);
            }
            text
        } else {
            digits
        }
    }

    /// The decimal numeral of the integer.
    pub fn to_string(&self) -> (text: String)
        ensures
            text@ == int_text(self@, 10),
    {
        self.to_string_radix(10)
    }

    /// Appends the decimal numeral of the integer to `out`.
    pub fn fmt(&self, out: &mut String)
        ensures
            final(out)@ == old(out)@ + int_text(self@, 10),
    {
        let text = self.to_string_radix(10);
        out.append(text.as_str());
    }
}

} // verus!
