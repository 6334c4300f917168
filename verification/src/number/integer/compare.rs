//! Equality of integers and machine integers, in both orders.
use crate::number::integer::Integer;
use vstd::prelude::*;
use vstd::std_specs::cmp::PartialEqSpecImpl;

verus! {

impl PartialEqSpecImpl<i8> for Integer {
    open spec fn obeys_eq_spec() -> bool {
        true
    }

    /// An integer equals a machine integer of the same value.
    open spec fn eq_spec(&self, other: &i8) -> bool {
        self@ == *other
    }
}

impl PartialEq<i8> for Integer {
    fn eq(&self, other: &i8) -> (equal: bool) {
        *self == Integer::from(*other)
    }
}

impl PartialEqSpecImpl<Integer> for i8 {
    open spec fn obeys_eq_spec() -> bool {
        true
    }

    /// A machine integer equals an integer of the same value.
    open spec fn eq_spec(&self, other: &Integer) -> bool {
        *self == other@
    }
}

impl PartialEq<Integer> for i8 {
    fn eq(&self, other: &Integer) -> (equal: bool) {
        Integer::from(*self) == *other
    }
}

impl PartialEqSpecImpl<i16> for Integer {
    open spec fn obeys_eq_spec() -> bool {
        true
    }

    /// An integer equals a machine integer of the same value.
    open spec fn eq_spec(&self, other: &i16) -> bool {
        self@ == *other
    }
}

impl PartialEq<i16> for Integer {
    fn eq(&self, other: &i16) -> (equal: bool) {
        *self == Integer::from(*other)
    }
}

impl PartialEqSpecImpl<Integer> for i16 {
    open spec fn obeys_eq_spec() -> bool {
        true
    }

    /// A machine integer equals an integer of the same value.
    open spec fn eq_spec(&self, other: &Integer) -> bool {
        *self == other@
    }
}

impl PartialEq<Integer> for i16 {
    fn eq(&self, other: &Integer) -> (equal: bool) {
        Integer::from(*self) == *other
    }
}

impl PartialEqSpecImpl<i32> for Integer {
    open spec fn obeys_eq_spec() -> bool {
        true
    }

    /// An integer equals a machine integer of the same value.
    open spec fn eq_spec(&self, other: &i32) -> bool {
        self@ == *other
    }
}

impl PartialEq<i32> for Integer {
    fn eq(&self, other: &i32) -> (equal: bool) {
        *self == Integer::from(*other)
    }
}

impl PartialEqSpecImpl<Integer> for i32 {
    open spec fn obeys_eq_spec() -> bool {
        true
    }

    /// A machine integer equals an integer of the same value.
    open spec fn eq_spec(&self, other: &Integer) -> bool {
        *self == other@
    }
}

impl PartialEq<Integer> for i32 {
    fn eq(&self, other: &Integer) -> (equal: bool) {
        Integer::from(*self) == *other
    }
}

impl PartialEqSpecImpl<i64> for Integer {
    open spec fn obeys_eq_spec() -> bool {
        true
    }

    /// An integer equals a machine integer of the same value.
    open spec fn eq_spec(&self, other: &i64) -> bool {
        self@ == *other
    }
}

impl PartialEq<i64> for Integer {
    fn eq(&self, other: &i64) -> (equal: bool) {
        *self == Integer::from(*other)
    }
}

impl PartialEqSpecImpl<Integer> for i64 {
    open spec fn obeys_eq_spec() -> bool {
        true
    }

    /// A machine integer equals an integer of the same value.
    open spec fn eq_spec(&self, other: &Integer) -> bool {
        *self == other@
    }
}

impl PartialEq<Integer> for i64 {
    fn eq(&self, other: &Integer) -> (equal: bool) {
        Integer::from(*self) == *other
    }
}

impl PartialEqSpecImpl<i128> for Integer {
    open spec fn obeys_eq_spec() -> bool {
        true
    }

    /// An integer equals a machine integer of the same value.
    open spec fn eq_spec(&self, other: &i128) -> bool {
        self@ == *other
    }
}

impl PartialEq<i128> for Integer {
    fn eq(&self, other: &i128) -> (equal: bool) {
        *self == Integer::from(*other)
    }
}

impl PartialEqSpecImpl<Integer> for i128 {
    open spec fn obeys_eq_spec() -> bool {
        true
    }

    /// A machine integer equals an integer of the same value.
    open spec fn eq_spec(&self, other: &Integer) -> bool {
        *self == other@
    }
}

impl PartialEq<Integer> for i128 {
    fn eq(&self, other: &Integer) -> (equal: bool) {
        Integer::from(*self) == *other
    }
}

impl PartialEqSpecImpl<isize> for Integer {
    open spec fn obeys_eq_spec() -> bool {
        true
    }

    /// An integer equals a machine integer of the same value.
    open spec fn eq_spec(&self, other: &isize) -> bool {
        self@ == *other
    }
}

impl PartialEq<isize> for Integer {
    fn eq(&self, other: &isize) -> (equal: bool) {
        *self == Integer::from(*other)
    }
}

impl PartialEqSpecImpl<Integer> for isize {
    open spec fn obeys_eq_spec() -> bool {
        true
    }

    /// A machine integer equals an integer of the same value.
    open spec fn eq_spec(&self, other: &Integer) -> bool {
        *self == other@
    }
}

impl PartialEq<Integer> for isize {
    fn eq(&self, other: &Integer) -> (equal: bool) {
        Integer::from(*self) == *other
    }
}

impl PartialEqSpecImpl<u8> for Integer {
    open spec fn obeys_eq_spec() -> bool {
        true
    }

    /// An integer equals a machine integer of the same value.
    open spec fn eq_spec(&self, other: &u8) -> bool {
        self@ == *other
    }
}

impl PartialEq<u8> for Integer {
    fn eq(&self, other: &u8) -> (equal: bool) {
        *self == Integer::from(*other)
    }
}

impl PartialEqSpecImpl<Integer> for u8 {
    open spec fn obeys_eq_spec() -> bool {
        true
    }

    /// A machine integer equals an integer of the same value.
    open spec fn eq_spec(&self, other: &Integer) -> bool {
        *self == other@
    }
}

impl PartialEq<Integer> for u8 {
    fn eq(&self, other: &Integer) -> (equal: bool) {
        Integer::from(*self) == *other
    }
}

impl PartialEqSpecImpl<u16> for Integer {
    open spec fn obeys_eq_spec() -> bool {
        true
    }

    /// An integer equals a machine integer of the same value.
    open spec fn eq_spec(&self, other: &u16) -> bool {
        self@ == *other
    }
}

impl PartialEq<u16> for Integer {
    fn eq(&self, other: &u16) -> (equal: bool) {
        *self == Integer::from(*other)
    }
}

impl PartialEqSpecImpl<Integer> for u16 {
    open spec fn obeys_eq_spec() -> bool {
        true
    }

    /// A machine integer equals an integer of the same value.
    open spec fn eq_spec(&self, other: &Integer) -> bool {
        *self == other@
    }
}

impl PartialEq<Integer> for u16 {
    fn eq(&self, other: &Integer) -> (equal: bool) {
        Integer::from(*self) == *other
    }
}

impl PartialEqSpecImpl<u32> for Integer {
    open spec fn obeys_eq_spec() -> bool {
        true
    }

    /// An integer equals a machine integer of the same value.
    open spec fn eq_spec(&self, other: &u32) -> bool {
        self@ == *other
    }
}

impl PartialEq<u32> for Integer {
    fn eq(&self, other: &u32) -> (equal: bool) {
        *self == Integer::from(*other)
    }
}

impl PartialEqSpecImpl<Integer> for u32 {
    open spec fn obeys_eq_spec() -> bool {
        true
    }

    /// A machine integer equals an integer of the same value.
    open spec fn eq_spec(&self, other: &Integer) -> bool {
        *self == other@
    }
}

impl PartialEq<Integer> for u32 {
    fn eq(&self, other: &Integer) -> (equal: bool) {
        Integer::from(*self) == *other
    }
}

impl PartialEqSpecImpl<u64> for Integer {
    open spec fn obeys_eq_spec() -> bool {
        true
    }

    /// An integer equals a machine integer of the same value.
    open spec fn eq_spec(&self, other: &u64) -> bool {
        self@ == *other
    }
}

impl PartialEq<u64> for Integer {
    fn eq(&self, other: &u64) -> (equal: bool) {
        *self == Integer::from(*other)
    }
}

impl PartialEqSpecImpl<Integer> for u64 {
    open spec fn obeys_eq_spec() -> bool {
        true
    }

    /// A machine integer equals an integer of the same value.
    open spec fn eq_spec(&self, other: &Integer) -> bool {
        *self == other@
    }
}

impl PartialEq<Integer> for u64 {
    fn eq(&self, other: &Integer) -> (equal: bool) {
        Integer::from(*self) == *other
    }
}

impl PartialEqSpecImpl<u128> for Integer {
    open spec fn obeys_eq_spec() -> bool {
        true
    }

    /// An integer equals a machine integer of the same value.
    open spec fn eq_spec(&self, other: &u128) -> bool {
        self@ == *other
    }
}

impl PartialEq<u128> for Integer {
    fn eq(&self, other: &u128) -> (equal: bool) {
        *self == Integer::from(*other)
    }
}

impl PartialEqSpecImpl<Integer> for u128 {
    open spec fn obeys_eq_spec() -> bool {
        true
    }

    /// A machine integer equals an integer of the same value.
    open spec fn eq_spec(&self, other: &Integer) -> bool {
        *self == other@
    }
}

impl PartialEq<Integer> for u128 {
    fn eq(&self, other: &Integer) -> (equal: bool) {
        Integer::from(*self) == *other
    }
}

impl PartialEqSpecImpl<usize> for Integer {
    open spec fn obeys_eq_spec() -> bool {
        true
    }

    /// An integer equals a machine integer of the same value.
    open spec fn eq_spec(&self, other: &usize) -> bool {
        self@ == *other
    }
}

impl PartialEq<usize> for Integer {
    fn eq(&self, other: &usize) -> (equal: bool) {
        *self == Integer::from(*other)
    }
}

impl PartialEqSpecImpl<Integer> for usize {
    open spec fn obeys_eq_spec() -> bool {
        true
    }

    /// A machine integer equals an integer of the same value.
    open spec fn eq_spec(&self, other: &Integer) -> bool {
        *self == other@
    }
}

impl PartialEq<Integer> for usize {
    fn eq(&self, other: &Integer) -> (equal: bool) {
        Integer::from(*self) == *other
    }
}

} // verus!
