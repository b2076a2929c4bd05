use constrained_type::error::ConstrainedTypeErrorKind::{InvalidMaxLen, InvalidOption};
use constrained_type::error::{ConstrainedTypeError, ConstrainedTypeResult};
use constrained_type::string::new_string;

#[derive(Debug, Clone, PartialEq, Eq, PartialOrd, Ord)]
pub struct String5 {
    value: String,
}

impl String5 {
    const MAX_LEN: usize = 5;

    fn new(raw: &str) -> String5 {
        Self { value: raw.to_string() }
    }

    pub fn value(&self) -> &str {
        &self.value
    }
}

fn string_5(field_name: &str, str: &str) -> ConstrainedTypeResult<String5> {
    new_string(field_name, |v| String5::new(v), String5::MAX_LEN, str)
}

#[test]
fn it_validates_an_empty_string5() {
    assert_eq!(
        string_5("name", ""),
        ConstrainedTypeError::from(InvalidOption {
            field_name: "name".to_string(),
        })
        .into()
    );
}

#[test]
fn it_validates_a_string5_max_len() {
    assert_eq!(
        string_5("name", "🐺🐺🐺🐺🐺🐺"),
        ConstrainedTypeError::from(InvalidMaxLen {
            field_name: "name".to_string(),
            expected: (5).to_string(),
            found: (6).to_string(),
        })
        .into()
    );
}

#[test]
fn it_can_construct_a_string5() {
    assert_eq!(string_5("name", "🐺").unwrap().value(), "🐺");
}

#[test]
fn string5_counts_characters_not_bytes() {
    // five four-byte characters: 20 bytes, within the limit of 5 characters
    assert_eq!(string_5("name", "🐺🐺🐺🐺🐺").unwrap().value(), "🐺🐺🐺🐺🐺");
}

#[test]
fn string5_accepts_a_single_character_and_the_limit() {
    assert_eq!(string_5("name", "a").unwrap().value(), "a");
    assert_eq!(string_5("name", "abcde").unwrap().value(), "abcde");
    assert_eq!(
        string_5("name", "abcdef"),
        ConstrainedTypeError::from(InvalidMaxLen {
            field_name: "name".to_string(),
            expected: "5".to_string(),
            found: "6".to_string(),
        })
        .into()
    );
}

#[test]
fn string5_validation_is_repeatable() {
    for raw in ["", "abc", "abcdefgh", "🐺🐺🐺🐺🐺🐺"] {
        assert_eq!(string_5("name", raw), string_5("name", raw));
    }
}

#[test]
fn string_with_limit_zero_rejects_every_non_empty_string() {
    let r: ConstrainedTypeResult<String5> = new_string("name", |v| String5::new(v), 0, "a");
    assert_eq!(
        r,
        ConstrainedTypeError::from(InvalidMaxLen {
            field_name: "name".to_string(),
            expected: "0".to_string(),
            found: "1".to_string(),
        })
        .into()
    );
}
