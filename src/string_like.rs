//! Constrained String Like

use vstd::prelude::*;

use crate::error::{agrees_with, ConstrainedTypeError, ConstrainedTypeErrorKind, ConstrainedTypeResult, ErrorView};
use crate::pattern::{fancy_match_verdict, Pattern};

verus! {

/// The error that a pattern reports on a candidate, if any, given whether
/// the candidate matched. The reported value is the redaction value where
/// one is given, else the candidate itself.
pub open spec fn pattern_verdict(
    field_name: Seq<char>,
    pattern: Seq<char>,
    val: Seq<char>,
    err_val: Option<Seq<char>>,
    matched: bool,
) -> Option<ErrorView> {
    if matched {
        None
    } else {
        Some(
            ErrorView::InvalidPattern {
                field_name,
                expected: pattern,
                found: match err_val {
                    Some(e) => e,
                    None => val,
                },
            },
        )
    }
}

/// Builds the error for a candidate that does not match `pattern`.
pub(crate) fn pattern_error(field_name: &str, pattern: &str, val: &str, err_val: Option<&str>) -> (e:
    ConstrainedTypeError)
    ensures
        Some(e@) == pattern_verdict(field_name@, pattern@, val@, err_val.deep_view(), false),
{
    let found = match err_val {
        Some(e) => String::from_str(e),
        None => String::from_str(val),
    };
    ConstrainedTypeError::from(
        ConstrainedTypeErrorKind::InvalidPattern {
            field_name: String::from_str(field_name),
            expected: String::from_str(pattern),
            found,
        },
    )
}

/// Finishes the pattern constraint once the engine has answered for `val`:
/// only `Some(true)` accepts the candidate; a mismatch, or an engine that
/// gave up, rejects it.
pub fn apply_match_verdict<'val, 'err_val, T, F>(
    field_name: &str,
    ctor: F,
    pattern: &Pattern,
    val: &'val str,
    err_val: Option<&'err_val str>,
    verdict: Option<bool>,
) -> (r: ConstrainedTypeResult<T>) where F: Fn(&'val str) -> T
    requires
        ctor.requires((val,)),
    ensures
        agrees_with(
            r,
            pattern_verdict(field_name@, pattern@, val@, err_val.deep_view(), verdict == Some(true)),
        ),
        r matches Ok(t) ==> ctor.ensures((val,), t),
{
    match verdict {
        Some(true) => Ok(ctor(val)),
        _ => Err(pattern_error(field_name, pattern.as_str(), val, err_val)),
    }
}

/// A builder function constraining a String to match a given pattern.
/// Without a redaction value `err_val`, the error embeds the raw candidate.
pub fn new_string_like<'val, 'err_val, T, F>(
    field_name: &str,
    ctor: F,
    pattern: Pattern,
    val: &'val str,
    err_val: Option<&'err_val str>,
) -> (r: ConstrainedTypeResult<T>) where F: Fn(&'val str) -> T
    requires
        ctor.requires((val,)),
    ensures
        agrees_with(
            r,
            pattern_verdict(
                field_name@,
                pattern@,
                val@,
                err_val.deep_view(),
                fancy_match_verdict(pattern@, val@) == Some(true),
            ),
        ),
        r matches Ok(t) ==> ctor.ensures((val,), t),
{
    let verdict = pattern.search(val);
    apply_match_verdict(field_name, ctor, &pattern, val, err_val, verdict)
}

/// Checking the same candidate against the same pattern twice gives the
/// same classification and, on failure, the same error: the engine's answer
/// depends on the pattern text and the candidate alone.
pub proof fn lemma_pattern_check_repeatable<T>(
    field_name: Seq<char>,
    pattern: Seq<char>,
    val: Seq<char>,
    err_val: Option<Seq<char>>,
    first: ConstrainedTypeResult<T>,
    second: ConstrainedTypeResult<T>,
)
    requires
        agrees_with(
            first,
            pattern_verdict(
                field_name,
                pattern,
                val,
                err_val,
                fancy_match_verdict(pattern, val) == Some(true),
            ),
        ),
        agrees_with(
            second,
            pattern_verdict(
                field_name,
                pattern,
                val,
                err_val,
                fancy_match_verdict(pattern, val) == Some(true),
            ),
        ),
    ensures
        first is Ok <==> second is Ok,
        first matches Err(e1) ==> (second matches Err(e2) && e1@ == e2@),
{
}

} // verus!
