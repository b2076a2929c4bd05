use constrained_type::builder::{apply_regex_verdict, new_int, new_string, new_string_like, new_string_option, new_uint, CtorResult};

fn keep(v: &str) -> CtorResult<String> {
    Ok(Some(v.to_string()))
}

#[test]
fn builder_string_reports_empty_and_too_long() {
    assert_eq!(new_string("name", keep, 3, ""), Err("name must not be empty".to_string()));
    assert_eq!(
        new_string("name", keep, 3, "abcd"),
        Err("name must not be greater than 3 characters, found 4".to_string())
    );
    assert_eq!(new_string("name", keep, 3, "🐺🐺🐺"), Ok(Some("🐺🐺🐺".to_string())));
}

#[test]
fn builder_string_passes_on_the_constructor_result() {
    let decline = |_: &str| -> CtorResult<String> { Ok(None) };
    assert_eq!(new_string("name", decline, 3, "ab"), Ok(None));
    let fail = |_: &str| -> CtorResult<String> { Err("no".to_string()) };
    assert_eq!(new_string("name", fail, 3, "ab"), Err("no".to_string()));
}

#[test]
fn builder_string_option_accepts_absence_and_empty() {
    assert_eq!(new_string_option("name", keep, 3, None), Ok(None));
    assert_eq!(new_string_option("name", keep, 3, Some("")), Ok(Some("".to_string())));
    assert_eq!(
        new_string_option("name", keep, 3, Some("abcd")),
        Err("name must not be greater than 3 characters, found 4".to_string())
    );
}

#[test]
fn builder_string_like_uses_the_pattern() {
    assert_eq!(
        new_string_like("code", keep, r"^[0-9]+$", "12a"),
        Err("'code': '12a' must match the pattern '^[0-9]+$'".to_string())
    );
    assert_eq!(new_string_like("code", keep, r"^[0-9]+$", "123"), Ok(Some("123".to_string())));
    assert_eq!(
        new_string_like("code", keep, r"(", "123"),
        Err("'code': the pattern '(' is not valid".to_string())
    );
}

#[test]
fn builder_numbers_report_the_bound() {
    let keep_i = |v: isize| -> CtorResult<isize> { Ok(Some(v)) };
    assert_eq!(new_int("t", keep_i, -10, 10, -11), Err("t must not be less than -10, found -11".to_string()));
    assert_eq!(new_int("t", keep_i, -10, 10, 11), Err("t must not be greater than 10, found 11".to_string()));
    assert_eq!(new_int("t", keep_i, -10, 10, -10), Ok(Some(-10)));
    let keep_u = |v: usize| -> CtorResult<usize> { Ok(Some(v)) };
    assert_eq!(new_uint("n", keep_u, 2, 4, 1), Err("n must not be less than 2, found 1".to_string()));
    assert_eq!(new_uint("n", keep_u, 2, 4, 4), Ok(Some(4)));
}

#[test]
fn builder_regex_verdict_decides_the_outcome() {
    assert_eq!(apply_regex_verdict("code", keep, "^x$", "abc", Some(true)), Ok(Some("abc".to_string())));
    assert_eq!(
        apply_regex_verdict("code", keep, "^x$", "abc", Some(false)),
        Err("'code': 'abc' must match the pattern '^x$'".to_string())
    );
    assert_eq!(
        apply_regex_verdict("code", keep, "^x$", "abc", None),
        Err("'code': the pattern '^x$' is not valid".to_string())
    );
}
