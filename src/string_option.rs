//! Constrained String Option

use vstd::prelude::*;

use crate::error::{agrees_with, ConstrainedTypeResult, ErrorView};
use crate::string::{max_len_error, max_len_verdict};

verus! {

/// The error that the constraint "absent, or at most `max_len` characters"
/// reports on an optional string, if any. A present empty string passes.
pub open spec fn optional_length_verdict(
    field_name: Seq<char>,
    max_len: usize,
    val: Option<Seq<char>>,
) -> Option<ErrorView> {
    match val {
        Some(v) => max_len_verdict(field_name, max_len, v),
        None => None,
    }
}

/// A builder function constraining an optional String to not exceed a character limit
pub fn new_string_option<'val, T, F>(
    field_name: &str,
    ctor: F,
    max_len: usize,
    val: Option<&'val str>,
) -> (r: ConstrainedTypeResult<T>) where F: Fn(Option<&'val str>) -> T
    requires
        ctor.requires((val,)),
    ensures
        agrees_with(r, optional_length_verdict(field_name@, max_len, val.deep_view())),
        r matches Ok(t) ==> ctor.ensures((val,), t),
{
    if let Some(s) = val {
        let count = s.unicode_len();
        if count > max_len {
            return Err(max_len_error(field_name, max_len, count));
        }
    }
    Ok(ctor(val))
}

/// Checking the same optional string against the same limit twice gives the
/// same classification and, on failure, the same error.
pub proof fn lemma_optional_length_check_repeatable<T>(
    field_name: Seq<char>,
    max_len: usize,
    val: Option<Seq<char>>,
    first: ConstrainedTypeResult<T>,
    second: ConstrainedTypeResult<T>,
)
    requires
        agrees_with(first, optional_length_verdict(field_name, max_len, val)),
        agrees_with(second, optional_length_verdict(field_name, max_len, val)),
    ensures
        first is Ok <==> second is Ok,
        first matches Err(e1) ==> (second matches Err(e2) && e1@ == e2@),
{
}

} // verus!
