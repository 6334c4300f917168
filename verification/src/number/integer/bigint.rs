//! Integers and `num_bigint::BigInt`: the way from one to the other, over numerals in
//! radix 36.
use crate::number::integer::{limbs_value, Integer};
use crate::number::numeral::{int_text, is_numeral, lemma_int_text_round_trip, numeral_value};
use num_bigint::BigInt;
use vstd::prelude::*;
use vstd::std_specs::convert::FromSpecImpl;

verus! {

/// `num_bigint::BigInt`, a signed integer of any size. It is known by its digits and its
/// sign alone.
#[verifier::external_type_specification]
#[verifier::external_body]
pub struct ExBigInt(BigInt);

/// The digits that a `BigInt` holds, the least significant first, each counting in 2 to
/// the power 64: what `num_bigint::BigInt::iter_u64_digits` walks through.
pub uninterp spec fn bigint_digits(value: BigInt) -> Seq<u64>;

/// Whether a `BigInt` holds the sign `Minus`: what `num_bigint::BigInt::sign` tells.
pub uninterp spec fn bigint_is_negative(value: BigInt) -> bool;

/// The number of a sign and the digits of a magnitude.
pub open spec fn signed_value(negative: bool, digits: Seq<u64>) -> int {
    if negative {
        -(limbs_value(digits) as int)
    } else {
        limbs_value(digits) as int
    }
}

/// The number that a `BigInt` holds: the number of its digits, with its sign.
pub open spec fn bigint_value(value: BigInt) -> int {
    signed_value(bigint_is_negative(value), bigint_digits(value))
}

/// The numeral of a `BigInt` in a radix, by `num_bigint::BigInt::to_str_radix`.
///
/// It writes a minus sign for a negative number and then the digits of the magnitude, the
/// most significant first and without leading zeros, as `0` to `9` and `a` to `z`; zero is
/// the single digit `0`. It panics on a radix below 2 or above 36.
#[verifier::external_body]
fn bigint_text(value: &BigInt, radix: u32) -> (text: String)
    requires
        2 <= radix <= 36,
    ensures
        text@ == int_text(
            signed_value(bigint_is_negative(*value), bigint_digits(*value)),
            radix as nat,
        ),
{
    value.to_str_radix(radix)
}

/// The `BigInt` of a numeral in a radix, by `num_bigint::BigInt::parse_bytes`.
///
/// It accepts an optional minus sign followed by one or more digits of the radix, and
/// gives the number that they denote. It panics on a radix below 2 or above 36.
#[verifier::external_body]
fn bigint_of_text(text: &str, radix: u32) -> (parsed: Option<BigInt>)
    requires
        2 <= radix <= 36,
    ensures
        is_numeral(text@, radix as nat) ==> parsed is Some && signed_value(
            bigint_is_negative(parsed->Some_0),
            bigint_digits(parsed->Some_0),
        ) == numeral_value(text@, radix as nat),
{
    BigInt::parse_bytes(text.as_bytes(), radix)
}

impl FromSpecImpl<BigInt> for Integer {
    open spec fn obeys_from_spec() -> bool {
        false
    }

    open spec fn from_spec(value: BigInt) -> Integer {
        arbitrary()
    }
}

impl From<BigInt> for Integer {
    /// The integer of the number that `value` holds. The number goes over as its numeral
    /// in radix 36.
    fn from(value: BigInt) -> (integer: Integer)
        ensures
            integer@ == bigint_value(value),
    {
        let text = bigint_text(&value, 36);
        proof {
            lemma_int_text_round_trip(bigint_value(value), 36);
        }
        match Integer::from_str_radix(text.as_str(), 36) {
            Ok(integer) => integer,
            Err(_) => unreached(),
        }
    }
}

impl FromSpecImpl<Integer> for BigInt {
    open spec fn obeys_from_spec() -> bool {
        false
    }

    open spec fn from_spec(value: Integer) -> BigInt {
        arbitrary()
    }
}

impl From<Integer> for BigInt {
    /// The `BigInt` of the number that `value` holds. The number goes over as its numeral
    /// in radix 36.
    fn from(value: Integer) -> (outside: BigInt)
        ensures
            bigint_value(outside) == value@,
    {
        let text = value.to_string_radix(36);
        proof {
            lemma_int_text_round_trip(value@, 36);
        }
        match bigint_of_text(text.as_str(), 36) {
            Some(number) => number,
            None => unreached(),
        }
    }
}

/// An integer that goes out as a `BigInt` and comes back is the integer that went out:
/// what holds the number of the integer gives an integer of the same number.
pub proof fn lemma_round_trip(start: Integer, outside: BigInt, back: Integer)
    requires
        bigint_value(outside) == start@,
        back@ == bigint_value(outside),
    ensures
        back@ == start@,
{
}

} // verus!
