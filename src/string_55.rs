//! A string of one to 55 characters.

use vstd::prelude::*;

use crate::builder::{length_message, new_string, new_string_option, too_long_message, CtorResult};

verus! {

/// The character limit of a `String55`.
pub const STRING55_MAX_LEN: usize = 55;

/// What `new_option` builds or reports.
pub type String55Option = Option<String55>;

/// What the builders of this module return.
pub type String55CtorResult = CtorResult<String55>;

/// A string of at most 55 characters.
#[derive(Debug, Clone, PartialEq, Eq, PartialOrd, Ord)]
pub struct String55 {
    value: String,
}

impl View for String55 {
    type V = Seq<char>;

    closed spec fn view(&self) -> Seq<char> {
        self.value@
    }
}

impl String55 {
    /// Wraps `raw` as it is.
    pub fn new(raw: &str) -> (r: CtorResult<String55>)
        ensures
            r matches Ok(Some(s)) && s@ == raw@,
    {
        Ok(Some(String55 { value: String::from_str(raw) }))
    }

    /// The characters.
    pub fn value(&self) -> (r: &str)
        ensures
            r@ == self@,
    {
        self.value.as_str()
    }
}

/// Builds a `String55` from a string of one to 55 characters.
pub fn new(field_name: &str, str: &str) -> (r: String55CtorResult)
    ensures
        match length_message(field_name@, STRING55_MAX_LEN, str@) {
            Some(m) => r matches Err(e) && e@ == m,
            None => r matches Ok(Some(s)) && s@ == str@,
        },
{
    new_string(field_name, String55::new, STRING55_MAX_LEN, str)
}

/// Builds a `String55` from a present string of at most 55 characters;
/// absence builds nothing.
pub fn new_option(field_name: &str, str: Option<&str>) -> (r: String55CtorResult)
    ensures
        match str {
            Some(s) => if s@.len() > STRING55_MAX_LEN {
                r matches Err(e) && e@ == too_long_message(field_name@, STRING55_MAX_LEN, s@.len())
            } else {
                r matches Ok(Some(v)) && v@ == s@
            },
            None => r matches Ok(None),
        },
{
    new_string_option(field_name, String55::new, STRING55_MAX_LEN, str)
}

} // verus!
