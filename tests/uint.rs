use constrained_type::error::ConstrainedTypeErrorKind::{InvalidMaxVal, InvalidMinVal};
use constrained_type::error::{ConstrainedTypeError, ConstrainedTypeResult};
use constrained_type::uint::new_uint;

const MIN_VAL: usize = 1;
const MAX_VAL: usize = 1000;

#[derive(Debug, Clone, Copy, PartialEq, Eq, PartialOrd, Ord)]
pub struct UnitQuantity {
    value: usize,
}

impl UnitQuantity {
    fn new(value: usize) -> Self {
        Self { value }
    }

    pub fn value(&self) -> usize {
        self.value
    }
}

fn unit_quantity(field_name: &str, value: usize) -> ConstrainedTypeResult<UnitQuantity> {
    new_uint(field_name, |v| UnitQuantity::new(v), MIN_VAL, MAX_VAL, value)
}

#[test]
fn uint_it_errors_on_out_of_bounds_value() {
    assert_eq!(
        unit_quantity("qty", 0),
        ConstrainedTypeError::from(InvalidMinVal {
            field_name: "qty".to_string(),
            expected: 1.to_string(),
            found: 0.to_string(),
        })
        .into()
    );

    assert_eq!(
        unit_quantity("qty", 1001),
        ConstrainedTypeError::from(InvalidMaxVal {
            field_name: "qty".to_string(),
            expected: 1000.to_string(),
            found: 1001.to_string(),
        })
        .into()
    );
}

#[test]
fn uint_it_can_construct_a_unit_quantity() {
    assert_eq!(unit_quantity("qty", 1).unwrap().value(), 1);
}

#[test]
fn uint_accepts_the_upper_bound_and_the_largest_range() {
    assert_eq!(unit_quantity("qty", 1000).unwrap().value(), 1000);
    let r: ConstrainedTypeResult<usize> = new_uint("n", |v| v, 0, usize::MAX, usize::MAX);
    assert_eq!(r, Ok(usize::MAX));
}
