//! Constrained unsigned integer number

use vstd::prelude::*;

use crate::error::{agrees_with, ConstrainedTypeError, ConstrainedTypeErrorKind, ConstrainedTypeResult};
use crate::integer::range_verdict;
use crate::numeral::unsigned_text;

verus! {

/// A builder function for unsigned integer values validating for min/max values
pub fn new_uint<T, F>(field_name: &str, ctor: F, min_val: usize, max_val: usize, uint: usize) -> (r:
    ConstrainedTypeResult<T>) where F: Fn(usize) -> T
    requires
        ctor.requires((uint,)),
    ensures
        agrees_with(r, range_verdict(field_name@, min_val as int, max_val as int, uint as int)),
        r matches Ok(t) ==> ctor.ensures((uint,), t),
{
    if uint < min_val {
        return Err(
            ConstrainedTypeError::from(
                ConstrainedTypeErrorKind::InvalidMinVal {
                    field_name: String::from_str(field_name),
                    expected: unsigned_text(min_val as u128),
                    found: unsigned_text(uint as u128),
                },
            ),
        );
    }
    if uint > max_val {
        return Err(
            ConstrainedTypeError::from(
                ConstrainedTypeErrorKind::InvalidMaxVal {
                    field_name: String::from_str(field_name),
                    expected: unsigned_text(max_val as u128),
                    found: unsigned_text(uint as u128),
                },
            ),
        );
    }
    Ok(ctor(uint))
}

} // verus!
