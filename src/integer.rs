//! Constrained integer number

use vstd::prelude::*;

use crate::error::{agrees_with, ConstrainedTypeError, ConstrainedTypeErrorKind, ConstrainedTypeResult, ErrorView};
use crate::numeral::{int_text, signed_text, unsigned_text};

verus! {

/// A primitive integer type: its values compare as integers and render in
/// decimal.
pub trait Integral: Copy {
    /// The mathematical value.
    spec fn int_value(&self) -> int;

    /// Whether `self` is smaller than `other`.
    fn less_than(&self, other: &Self) -> (r: bool)
        ensures
            r == (self.int_value() < other.int_value()),
    ;

    /// The decimal rendering, with a leading `-` when negative.
    fn to_decimal(&self) -> (r: String)
        ensures
            r@ == int_text(self.int_value()),
    ;
}

impl Integral for u8 {
    open spec fn int_value(&self) -> int {
        *self as int
    }

    fn less_than(&self, other: &Self) -> (r: bool) {
        *self < *other
    }

    fn to_decimal(&self) -> (r: String) {
        unsigned_text(*self as u128)
    }
}

impl Integral for u16 {
    open spec fn int_value(&self) -> int {
        *self as int
    }

    fn less_than(&self, other: &Self) -> (r: bool) {
        *self < *other
    }

    fn to_decimal(&self) -> (r: String) {
        unsigned_text(*self as u128)
    }
}

impl Integral for u32 {
    open spec fn int_value(&self) -> int {
        *self as int
    }

    fn less_than(&self, other: &Self) -> (r: bool) {
        *self < *other
    }

    fn to_decimal(&self) -> (r: String) {
        unsigned_text(*self as u128)
    }
}

impl Integral for u64 {
    open spec fn int_value(&self) -> int {
        *self as int
    }

    fn less_than(&self, other: &Self) -> (r: bool) {
        *self < *other
    }

    fn to_decimal(&self) -> (r: String) {
        unsigned_text(*self as u128)
    }
}

impl Integral for u128 {
    open spec fn int_value(&self) -> int {
        *self as int
    }

    fn less_than(&self, other: &Self) -> (r: bool) {
        *self < *other
    }

    fn to_decimal(&self) -> (r: String) {
        unsigned_text(*self)
    }
}

impl Integral for usize {
    open spec fn int_value(&self) -> int {
        *self as int
    }

    fn less_than(&self, other: &Self) -> (r: bool) {
        *self < *other
    }

    fn to_decimal(&self) -> (r: String) {
        unsigned_text(*self as u128)
    }
}

impl Integral for i8 {
    open spec fn int_value(&self) -> int {
        *self as int
    }

    fn less_than(&self, other: &Self) -> (r: bool) {
        *self < *other
    }

    fn to_decimal(&self) -> (r: String) {
        signed_text(*self as i128)
    }
}

impl Integral for i16 {
    open spec fn int_value(&self) -> int {
        *self as int
    }

    fn less_than(&self, other: &Self) -> (r: bool) {
        *self < *other
    }

    fn to_decimal(&self) -> (r: String) {
        signed_text(*self as i128)
    }
}

impl Integral for i32 {
    open spec fn int_value(&self) -> int {
        *self as int
    }

    fn less_than(&self, other: &Self) -> (r: bool) {
        *self < *other
    }

    fn to_decimal(&self) -> (r: String) {
        signed_text(*self as i128)
    }
}

impl Integral for i64 {
    open spec fn int_value(&self) -> int {
        *self as int
    }

    fn less_than(&self, other: &Self) -> (r: bool) {
        *self < *other
    }

    fn to_decimal(&self) -> (r: String) {
        signed_text(*self as i128)
    }
}

impl Integral for i128 {
    open spec fn int_value(&self) -> int {
        *self as int
    }

    fn less_than(&self, other: &Self) -> (r: bool) {
        *self < *other
    }

    fn to_decimal(&self) -> (r: String) {
        signed_text(*self)
    }
}

impl Integral for isize {
    open spec fn int_value(&self) -> int {
        *self as int
    }

    fn less_than(&self, other: &Self) -> (r: bool) {
        *self < *other
    }

    fn to_decimal(&self) -> (r: String) {
        signed_text(*self as i128)
    }
}

/// The error that the inclusive range `[min_val, max_val]` reports on a
/// value, if any: below the minimum first, then above the maximum.
pub open spec fn range_verdict(field_name: Seq<char>, min_val: int, max_val: int, val: int) -> Option<
    ErrorView,
> {
    if val < min_val {
        Some(
            ErrorView::InvalidMinVal {
                field_name,
                expected: int_text(min_val),
                found: int_text(val),
            },
        )
    } else if val > max_val {
        Some(
            ErrorView::InvalidMaxVal {
                field_name,
                expected: int_text(max_val),
                found: int_text(val),
            },
        )
    } else {
        None
    }
}

/// A builder function constraining an integer number between a minimum and maximum value
pub fn new_int<T, F, V>(field_name: &str, ctor: F, min_val: V, max_val: V, val: V) -> (r:
    ConstrainedTypeResult<T>) where F: Fn(V) -> T, V: Integral
    requires
        ctor.requires((val,)),
    ensures
        agrees_with(
            r,
            range_verdict(field_name@, min_val.int_value(), max_val.int_value(), val.int_value()),
        ),
        r matches Ok(t) ==> ctor.ensures((val,), t),
{
    if val.less_than(&min_val) {
        return Err(
            ConstrainedTypeError::from(
                ConstrainedTypeErrorKind::InvalidMinVal {
                    field_name: String::from_str(field_name),
                    expected: min_val.to_decimal(),
                    found: val.to_decimal(),
                },
            ),
        );
    }
    if max_val.less_than(&val) {
        return Err(
            ConstrainedTypeError::from(
                ConstrainedTypeErrorKind::InvalidMaxVal {
                    field_name: String::from_str(field_name),
                    expected: max_val.to_decimal(),
                    found: val.to_decimal(),
                },
            ),
        );
    }
    Ok(ctor(val))
}

/// The range is inclusive at both ends: every value from `min_val` to
/// `max_val`, the bounds included, passes; a value below the minimum is
/// reported as `InvalidMinVal` with the minimum and the value, and one above
/// the maximum as `InvalidMaxVal` with the maximum and the value.
pub proof fn lemma_range_inclusive(field_name: Seq<char>, min_val: int, max_val: int, val: int)
    requires
        min_val <= max_val,
    ensures
        min_val <= val <= max_val ==> range_verdict(field_name, min_val, max_val, val) is None,
        range_verdict(field_name, min_val, max_val, min_val) is None,
        range_verdict(field_name, min_val, max_val, max_val) is None,
        val < min_val ==> range_verdict(field_name, min_val, max_val, val) == Some(
            ErrorView::InvalidMinVal {
                field_name,
                expected: int_text(min_val),
                found: int_text(val),
            },
        ),
        val > max_val ==> range_verdict(field_name, min_val, max_val, val) == Some(
            ErrorView::InvalidMaxVal {
                field_name,
                expected: int_text(max_val),
                found: int_text(val),
            },
        ),
{
}

/// Checking the same value against the same range twice gives the same
/// classification and, on failure, the same error.
pub proof fn lemma_range_check_repeatable<T>(
    field_name: Seq<char>,
    min_val: int,
    max_val: int,
    val: int,
    first: ConstrainedTypeResult<T>,
    second: ConstrainedTypeResult<T>,
)
    requires
        agrees_with(first, range_verdict(field_name, min_val, max_val, val)),
        agrees_with(second, range_verdict(field_name, min_val, max_val, val)),
    ensures
        first is Ok <==> second is Ok,
        first matches Err(e1) ==> (second matches Err(e2) && e1@ == e2@),
{
}

} // verus!
