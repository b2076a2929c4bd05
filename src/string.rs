//! Constrained String

use vstd::prelude::*;

use crate::error::{agrees_with, ConstrainedTypeError, ConstrainedTypeErrorKind, ConstrainedTypeResult, ErrorView};
use crate::numeral::{decimal, unsigned_text};

verus! {

/// The error that a character limit reports on a present string, if any:
/// more than `max_len` characters (not bytes) is too long.
pub open spec fn max_len_verdict(field_name: Seq<char>, max_len: usize, val: Seq<char>) -> Option<ErrorView> {
    if val.len() > max_len {
        Some(
            ErrorView::InvalidMaxLen {
                field_name,
                expected: decimal(max_len as nat),
                found: decimal(val.len()),
            },
        )
    } else {
        None
    }
}

/// The error that the constraint "not empty and at most `max_len`
/// characters" reports on a string, if any.
pub open spec fn length_verdict(field_name: Seq<char>, max_len: usize, val: Seq<char>) -> Option<ErrorView> {
    if val.len() == 0 {
        Some(ErrorView::InvalidOption { field_name })
    } else {
        max_len_verdict(field_name, max_len, val)
    }
}

/// Builds the character-limit error for a string of `count` characters.
pub(crate) fn max_len_error(field_name: &str, max_len: usize, count: usize) -> (e: ConstrainedTypeError)
    ensures
        e@ == (ErrorView::InvalidMaxLen {
            field_name: field_name@,
            expected: decimal(max_len as nat),
            found: decimal(count as nat),
        }),
{
    ConstrainedTypeError::from(
        ConstrainedTypeErrorKind::InvalidMaxLen {
            field_name: String::from_str(field_name),
            expected: unsigned_text(max_len as u128),
            found: unsigned_text(count as u128),
        },
    )
}

/// A builder function constraining a String to be not empty and neither exceeding a character limit
pub fn new_string<'a, T, F>(field_name: &str, ctor: F, max_len: usize, val: &'a str) -> (r:
    ConstrainedTypeResult<T>) where F: Fn(&'a str) -> T
    requires
        ctor.requires((val,)),
    ensures
        agrees_with(r, length_verdict(field_name@, max_len, val@)),
        r matches Ok(t) ==> ctor.ensures((val,), t),
{
    if val.is_empty() {
        return Err(
            ConstrainedTypeError::from(
                ConstrainedTypeErrorKind::InvalidOption { field_name: String::from_str(field_name) },
            ),
        );
    }
    let count = val.unicode_len();
    if count > max_len {
        return Err(max_len_error(field_name, max_len, count));
    }
    Ok(ctor(val))
}

/// Checking the same string against the same limit twice gives the same
/// classification and, on failure, the same error.
pub proof fn lemma_length_check_repeatable<T>(
    field_name: Seq<char>,
    max_len: usize,
    val: Seq<char>,
    first: ConstrainedTypeResult<T>,
    second: ConstrainedTypeResult<T>,
)
    requires
        agrees_with(first, length_verdict(field_name, max_len, val)),
        agrees_with(second, length_verdict(field_name, max_len, val)),
    ensures
        first is Ok <==> second is Ok,
        first matches Err(e1) ==> (second matches Err(e2) && e1@ == e2@),
{
}

} // verus!
