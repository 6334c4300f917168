//! Numbers of machine integers and of `num_bigint::BigInt`.
use crate::number::integer::bigint::bigint_value;
use crate::number::integer::Integer;
use crate::number::{Number, NumberView};
use num_bigint::BigInt;
use vstd::prelude::*;
use vstd::std_specs::convert::FromSpecImpl;

verus! {

impl FromSpecImpl<bool> for Number {
    open spec fn obeys_from_spec() -> bool {
        false
    }

    open spec fn from_spec(value: bool) -> Number {
        arbitrary()
    }
}

impl From<bool> for Number {
    /// One for `true`, zero for `false`, with no imaginary part.
    fn from(value: bool) -> (number: Number)
        ensures
            number@ == (NumberView { real: if value {
                1int
            } else {
                0int
            }, imag: 0 }),
    {
        Number::new(Integer::from(value), Integer::zero())
    }
}

impl FromSpecImpl<i8> for Number {
    open spec fn obeys_from_spec() -> bool {
        false
    }

    open spec fn from_spec(value: i8) -> Number {
        arbitrary()
    }
}

impl From<i8> for Number {
    /// The number of the same value, with no imaginary part.
    fn from(value: i8) -> (number: Number)
        ensures
            number@ == (NumberView { real: value as int, imag: 0 }),
    {
        Number::new(Integer::from(value), Integer::zero())
    }
}

impl FromSpecImpl<i16> for Number {
    open spec fn obeys_from_spec() -> bool {
        false
    }

    open spec fn from_spec(value: i16) -> Number {
        arbitrary()
    }
}

impl From<i16> for Number {
    /// The number of the same value, with no imaginary part.
    fn from(value: i16) -> (number: Number)
        ensures
            number@ == (NumberView { real: value as int, imag: 0 }),
    {
        Number::new(Integer::from(value), Integer::zero())
    }
}

impl FromSpecImpl<i32> for Number {
    open spec fn obeys_from_spec() -> bool {
        false
    }

    open spec fn from_spec(value: i32) -> Number {
        arbitrary()
    }
}

impl From<i32> for Number {
    /// The number of the same value, with no imaginary part.
    fn from(value: i32) -> (number: Number)
        ensures
            number@ == (NumberView { real: value as int, imag: 0 }),
    {
        Number::new(Integer::from(value), Integer::zero())
    }
}

impl FromSpecImpl<i64> for Number {
    open spec fn obeys_from_spec() -> bool {
        false
    }

    open spec fn from_spec(value: i64) -> Number {
        arbitrary()
    }
}

impl From<i64> for Number {
    /// The number of the same value, with no imaginary part.
    fn from(value: i64) -> (number: Number)
        ensures
            number@ == (NumberView { real: value as int, imag: 0 }),
    {
        Number::new(Integer::from(value), Integer::zero())
    }
}

impl FromSpecImpl<i128> for Number {
    open spec fn obeys_from_spec() -> bool {
        false
    }

    open spec fn from_spec(value: i128) -> Number {
        arbitrary()
    }
}

impl From<i128> for Number {
    /// The number of the same value, with no imaginary part.
    fn from(value: i128) -> (number: Number)
        ensures
            number@ == (NumberView { real: value as int, imag: 0 }),
    {
        Number::new(Integer::from(value), Integer::zero())
    }
}

impl FromSpecImpl<isize> for Number {
    open spec fn obeys_from_spec() -> bool {
        false
    }

    open spec fn from_spec(value: isize) -> Number {
        arbitrary()
    }
}

impl From<isize> for Number {
    /// The number of the same value, with no imaginary part.
    fn from(value: isize) -> (number: Number)
        ensures
            number@ == (NumberView { real: value as int, imag: 0 }),
    {
        Number::new(Integer::from(value), Integer::zero())
    }
}

impl FromSpecImpl<u8> for Number {
    open spec fn obeys_from_spec() -> bool {
        false
    }

    open spec fn from_spec(value: u8) -> Number {
        arbitrary()
    }
}

impl From<u8> for Number {
    /// The number of the same value, with no imaginary part.
    fn from(value: u8) -> (number: Number)
        ensures
            number@ == (NumberView { real: value as int, imag: 0 }),
    {
        Number::new(Integer::from(value), Integer::zero())
    }
}

impl FromSpecImpl<u16> for Number {
    open spec fn obeys_from_spec() -> bool {
        false
    }

    open spec fn from_spec(value: u16) -> Number {
        arbitrary()
    }
}

impl From<u16> for Number {
    /// The number of the same value, with no imaginary part.
    fn from(value: u16) -> (number: Number)
        ensures
            number@ == (NumberView { real: value as int, imag: 0 }),
    {
        Number::new(Integer::from(value), Integer::zero())
    }
}

impl FromSpecImpl<u32> for Number {
    open spec fn obeys_from_spec() -> bool {
        false
    }

    open spec fn from_spec(value: u32) -> Number {
        arbitrary()
    }
}

impl From<u32> for Number {
    /// The number of the same value, with no imaginary part.
    fn from(value: u32) -> (number: Number)
        ensures
            number@ == (NumberView { real: value as int, imag: 0 }),
    {
        Number::new(Integer::from(value), Integer::zero())
    }
}

impl FromSpecImpl<u64> for Number {
    open spec fn obeys_from_spec() -> bool {
        false
    }

    open spec fn from_spec(value: u64) -> Number {
        arbitrary()
    }
}

impl From<u64> for Number {
    /// The number of the same value, with no imaginary part.
    fn from(value: u64) -> (number: Number)
        ensures
            number@ == (NumberView { real: value as int, imag: 0 }),
    {
        Number::new(Integer::from(value), Integer::zero())
    }
}

impl FromSpecImpl<u128> for Number {
    open spec fn obeys_from_spec() -> bool {
        false
    }

    open spec fn from_spec(value: u128) -> Number {
        arbitrary()
    }
}

impl From<u128> for Number {
    /// The number of the same value, with no imaginary part.
    fn from(value: u128) -> (number: Number)
        ensures
            number@ == (NumberView { real: value as int, imag: 0 }),
    {
        Number::new(Integer::from(value), Integer::zero())
    }
}

impl FromSpecImpl<usize> for Number {
    open spec fn obeys_from_spec() -> bool {
        false
    }

    open spec fn from_spec(value: usize) -> Number {
        arbitrary()
    }
}

impl From<usize> for Number {
    /// The number of the same value, with no imaginary part.
    fn from(value: usize) -> (number: Number)
        ensures
            number@ == (NumberView { real: value as int, imag: 0 }),
    {
        Number::new(Integer::from(value), Integer::zero())
    }
}

impl FromSpecImpl<BigInt> for Number {
    open spec fn obeys_from_spec() -> bool {
        false
    }

    open spec fn from_spec(value: BigInt) -> Number {
        arbitrary()
    }
}

impl From<BigInt> for Number {
    /// The number that `value` holds, with no imaginary part.
    fn from(value: BigInt) -> (number: Number)
        ensures
            number@ == (NumberView { real: bigint_value(value), imag: 0 }),
    {
        Number::new(Integer::from(value), Integer::zero())
    }
}

} // verus!
