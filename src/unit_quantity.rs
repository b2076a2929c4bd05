//! A quantity of units, from 1 to 1000.

use vstd::prelude::*;

use crate::builder::{new_uint, range_message, CtorResult};

verus! {

/// The smallest quantity.
pub const UNIT_QUANTITY_MIN: usize = 1;

/// The largest quantity.
pub const UNIT_QUANTITY_MAX: usize = 1000;

/// A quantity of units.
#[derive(Debug, Clone, PartialEq, Eq, PartialOrd, Ord)]
pub struct UnitQuantity {
    value: usize,
}

impl View for UnitQuantity {
    type V = nat;

    closed spec fn view(&self) -> nat {
        self.value as nat
    }
}

impl UnitQuantity {
    /// Wraps `value` as it is.
    pub fn new(value: usize) -> (r: CtorResult<UnitQuantity>)
        ensures
            r matches Ok(Some(q)) && q@ == value,
    {
        Ok(Some(UnitQuantity { value }))
    }

    /// The quantity.
    pub fn value(&self) -> (r: usize)
        ensures
            r == self@,
    {
        self.value
    }
}

/// Builds a `UnitQuantity` from a value in `[1, 1000]`.
pub fn new(field_name: &str, value: usize) -> (r: CtorResult<UnitQuantity>)
    ensures
        match range_message(
            field_name@,
            UNIT_QUANTITY_MIN as int,
            UNIT_QUANTITY_MAX as int,
            value as int,
        ) {
            Some(m) => r matches Err(e) && e@ == m,
            None => r matches Ok(Some(q)) && q@ == value,
        },
{
    new_uint(field_name, UnitQuantity::new, UNIT_QUANTITY_MIN, UNIT_QUANTITY_MAX, value)
}

} // verus!
