use constrained_type::error::ConstrainedTypeErrorKind::InvalidPattern;
use constrained_type::error::{ConstrainedTypeError, ConstrainedTypeResult};
use constrained_type::pattern::Pattern;
use constrained_type::string_like::new_string_like;

const HANDLE_PATTERN: &str = r"^[a-z][a-z0-9\-]{0,62}(?<!\-)[a-z0-9]{0,1}$";

#[derive(Debug, Clone, PartialEq, Eq)]
pub struct Handle(String);

fn handle(raw: &str) -> ConstrainedTypeResult<Handle> {
    new_string_like(
        "handle",
        |v| Handle(v.to_string()),
        Pattern::new(HANDLE_PATTERN).unwrap(),
        raw,
        None,
    )
}

fn rejected(raw: &str) -> ConstrainedTypeResult<Handle> {
    ConstrainedTypeError::from(InvalidPattern {
        field_name: "handle".to_string(),
        expected: HANDLE_PATTERN.to_string(),
        found: raw.to_string(),
    })
    .into()
}

#[test]
fn handle_accepts_lowercase_letters_digits_and_inner_hyphens() {
    assert_eq!(handle("a"), Ok(Handle("a".to_string())));
    assert_eq!(handle("a1"), Ok(Handle("a1".to_string())));
    assert_eq!(handle("a-1"), Ok(Handle("a-1".to_string())));
}

#[test]
fn handle_rejects_trailing_hyphen_leading_non_letter_and_uppercase() {
    for raw in ["a-", "-a", "1", "1a", "A"] {
        assert_eq!(handle(raw), rejected(raw));
    }
}

#[test]
fn handle_length_limit_is_64_characters() {
    let long = "a".repeat(64);
    assert_eq!(handle(&long), Ok(Handle(long.clone())));
    let too_long = "a".repeat(65);
    assert_eq!(handle(&too_long), rejected(&too_long));
}
