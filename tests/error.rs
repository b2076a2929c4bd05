use constrained_type::error::ConstrainedTypeError;
use constrained_type::error::ConstrainedTypeErrorKind::{
    InvalidMaxLen, InvalidMaxVal, InvalidMinVal, InvalidOption, InvalidPattern,
};
use constrained_type::numeral::{signed_text, unsigned_text};

#[test]
fn error_exposes_its_kind() {
    let e = ConstrainedTypeError::from(InvalidOption { field_name: "name".to_string() });
    assert_eq!(e.kind(), &InvalidOption { field_name: "name".to_string() });
}

#[test]
fn error_renders_each_kind() {
    let min = ConstrainedTypeError::from(InvalidMinVal {
        field_name: "qty".to_string(),
        expected: "1".to_string(),
        found: "0".to_string(),
    });
    assert_eq!(min.to_string(), "qty must not be less than 1, found 0");
    let max = ConstrainedTypeError::from(InvalidMaxVal {
        field_name: "qty".to_string(),
        expected: "1000".to_string(),
        found: "1001".to_string(),
    });
    assert_eq!(max.to_string(), "qty must not be greater than 1000, found 1001");
    let pattern = ConstrainedTypeError::from(InvalidPattern {
        field_name: "email".to_string(),
        expected: ".+@.+".to_string(),
        found: "<redacted>".to_string(),
    });
    assert_eq!(pattern.to_string(), "'email': '<redacted>' must match the pattern '.+@.+'");
    let empty = ConstrainedTypeError::from(InvalidOption { field_name: "name".to_string() });
    assert_eq!(empty.to_string(), "name must not be empty");
    let long = ConstrainedTypeError::from(InvalidMaxLen {
        field_name: "name".to_string(),
        expected: "5".to_string(),
        found: "6".to_string(),
    });
    assert_eq!(long.to_string(), "name must not be greater than 5 characters, found 6");
    assert_eq!(long.kind().to_string(), long.to_string());
}

#[test]
fn numbers_render_in_decimal() {
    assert_eq!(unsigned_text(0), "0");
    assert_eq!(unsigned_text(9), "9");
    assert_eq!(unsigned_text(10), "10");
    assert_eq!(unsigned_text(1000), "1000");
    assert_eq!(unsigned_text(u128::MAX), u128::MAX.to_string());
    assert_eq!(signed_text(-1), "-1");
    assert_eq!(signed_text(-120), "-120");
    assert_eq!(signed_text(i128::MIN), i128::MIN.to_string());
    assert_eq!(signed_text(i128::MAX), i128::MAX.to_string());
}
