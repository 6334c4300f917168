//! Integers of machine integers.
use crate::number::integer::Integer;
use vstd::prelude::*;
use vstd::std_specs::convert::FromSpecImpl;

verus! {

impl FromSpecImpl<bool> for Integer {
    open spec fn obeys_from_spec() -> bool {
        false
    }

    open spec fn from_spec(value: bool) -> Integer {
        arbitrary()
    }
}

impl From<bool> for Integer {
    /// One for `true`, zero for `false`.
    fn from(value: bool) -> (integer: Integer)
        ensures
            integer@ == if value {
                1int
            } else {
                0int
            },
    {
        if value {
            Integer::from_sign_magnitude(false, 1)
        } else {
            Integer::zero()
        }
    }
}

impl FromSpecImpl<i8> for Integer {
    open spec fn obeys_from_spec() -> bool {
        false
    }

    open spec fn from_spec(value: i8) -> Integer {
        arbitrary()
    }
}

impl From<i8> for Integer {
    /// The integer of the same value.
    fn from(value: i8) -> (integer: Integer)
        ensures
            integer@ == value,
    {
        if value < 0 {
            Integer::from_sign_magnitude(true, (-(value as i128)) as u128)
        } else {
            Integer::from_sign_magnitude(false, value as u128)
        }
    }
}

impl FromSpecImpl<i16> for Integer {
    open spec fn obeys_from_spec() -> bool {
        false
    }

    open spec fn from_spec(value: i16) -> Integer {
        arbitrary()
    }
}

impl From<i16> for Integer {
    /// The integer of the same value.
    fn from(value: i16) -> (integer: Integer)
        ensures
            integer@ == value,
    {
        if value < 0 {
            Integer::from_sign_magnitude(true, (-(value as i128)) as u128)
        } else {
            Integer::from_sign_magnitude(false, value as u128)
        }
    }
}

impl FromSpecImpl<i32> for Integer {
    open spec fn obeys_from_spec() -> bool {
        false
    }

    open spec fn from_spec(value: i32) -> Integer {
        arbitrary()
    }
}

impl From<i32> for Integer {
    /// The integer of the same value.
    fn from(value: i32) -> (integer: Integer)
        ensures
            integer@ == value,
    {
        if value < 0 {
            Integer::from_sign_magnitude(true, (-(value as i128)) as u128)
        } else {
            Integer::from_sign_magnitude(false, value as u128)
        }
    }
}

impl FromSpecImpl<i64> for Integer {
    open spec fn obeys_from_spec() -> bool {
        false
    }

    open spec fn from_spec(value: i64) -> Integer {
        arbitrary()
    }
}

impl From<i64> for Integer {
    /// The integer of the same value.
    fn from(value: i64) -> (integer: Integer)
        ensures
            integer@ == value,
    {
        if value < 0 {
            Integer::from_sign_magnitude(true, (-(value as i128)) as u128)
        } else {
            Integer::from_sign_magnitude(false, value as u128)
        }
    }
}

impl FromSpecImpl<i128> for Integer {
    open spec fn obeys_from_spec() -> bool {
        false
    }

    open spec fn from_spec(value: i128) -> Integer {
        arbitrary()
    }
}

impl From<i128> for Integer {
    /// The integer of the same value.
    fn from(value: i128) -> (integer: Integer)
        ensures
            integer@ == value,
    {
        if value < 0 {
            Integer::from_sign_magnitude(true, (-(value + 1)) as u128 + 1)
        } else {
            Integer::from_sign_magnitude(false, value as u128)
        }
    }
}

impl FromSpecImpl<isize> for Integer {
    open spec fn obeys_from_spec() -> bool {
        false
    }

    open spec fn from_spec(value: isize) -> Integer {
        arbitrary()
    }
}

impl From<isize> for Integer {
    /// The integer of the same value.
    fn from(value: isize) -> (integer: Integer)
        ensures
            integer@ == value,
    {
        if value < 0 {
            Integer::from_sign_magnitude(true, (-(value as i128)) as u128)
        } else {
            Integer::from_sign_magnitude(false, value as u128)
        }
    }
}

impl FromSpecImpl<u8> for Integer {
    open spec fn obeys_from_spec() -> bool {
        false
    }

    open spec fn from_spec(value: u8) -> Integer {
        arbitrary()
    }
}

impl From<u8> for Integer {
    /// The integer of the same value.
    fn from(value: u8) -> (integer: Integer)
        ensures
            integer@ == value,
    {
        Integer::from_sign_magnitude(false, value as u128)
    }
}

impl FromSpecImpl<u16> for Integer {
    open spec fn obeys_from_spec() -> bool {
        false
    }

    open spec fn from_spec(value: u16) -> Integer {
        arbitrary()
    }
}

impl From<u16> for Integer {
    /// The integer of the same value.
    fn from(value: u16) -> (integer: Integer)
        ensures
            integer@ == value,
    {
        Integer::from_sign_magnitude(false, value as u128)
    }
}

impl FromSpecImpl<u32> for Integer {
    open spec fn obeys_from_spec() -> bool {
        false
    }

    open spec fn from_spec(value: u32) -> Integer {
        arbitrary()
    }
}

impl From<u32> for Integer {
    /// The integer of the same value.
    fn from(value: u32) -> (integer: Integer)
        ensures
            integer@ == value,
    {
        Integer::from_sign_magnitude(false, value as u128)
    }
}

impl FromSpecImpl<u64> for Integer {
    open spec fn obeys_from_spec() -> bool {
        false
    }

    open spec fn from_spec(value: u64) -> Integer {
        arbitrary()
    }
}

impl From<u64> for Integer {
    /// The integer of the same value.
    fn from(value: u64) -> (integer: Integer)
        ensures
            integer@ == value,
    {
        Integer::from_sign_magnitude(false, value as u128)
    }
}

impl FromSpecImpl<u128> for Integer {
    open spec fn obeys_from_spec() -> bool {
        false
    }

    open spec fn from_spec(value: u128) -> Integer {
        arbitrary()
    }
}

impl From<u128> for Integer {
    /// The integer of the same value.
    fn from(value: u128) -> (integer: Integer)
        ensures
            integer@ == value,
    {
        Integer::from_sign_magnitude(false, value)
    }
}

impl FromSpecImpl<usize> for Integer {
    open spec fn obeys_from_spec() -> bool {
        false
    }

    open spec fn from_spec(value: usize) -> Integer {
        arbitrary()
    }
}

impl From<usize> for Integer {
    /// The integer of the same value.
    fn from(value: usize) -> (integer: Integer)
        ensures
            integer@ == value,
    {
        Integer::from_sign_magnitude(false, value as u128)
    }
}

} // verus!
