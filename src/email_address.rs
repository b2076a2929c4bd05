//! An email address: a string with an `@` between two non-empty parts.

use vstd::prelude::*;

use crate::builder::{new_string_like, pattern_message, CtorResult};

verus! {

/// The pattern that an email address must contain a match of.
pub const EMAIL_PATTERN: &'static str = r".+@.+";

/// An email address.
#[derive(Debug, Clone, PartialEq, Eq, PartialOrd, Ord)]
pub struct EmailAddress {
    value: String,
}

impl View for EmailAddress {
    type V = Seq<char>;

    closed spec fn view(&self) -> Seq<char> {
        self.value@
    }
}

impl EmailAddress {
    /// Wraps `raw` as it is.
    pub fn new(raw: &str) -> (r: CtorResult<EmailAddress>)
        ensures
            r matches Ok(Some(a)) && a@ == raw@,
    {
        Ok(Some(EmailAddress { value: String::from_str(raw) }))
    }

    /// The address.
    pub fn value(&self) -> (r: &str)
        ensures
            r@ == self@,
    {
        self.value.as_str()
    }
}

/// Builds an `EmailAddress` from a string that contains a match of
/// `EMAIL_PATTERN`.
pub fn new(field_name: &str, str: &str) -> (r: CtorResult<EmailAddress>)
    ensures
        match pattern_message(field_name@, EMAIL_PATTERN@, str@) {
            Some(m) => r matches Err(e) && e@ == m,
            None => r matches Ok(Some(a)) && a@ == str@,
        },
{
    new_string_like(field_name, EmailAddress::new, EMAIL_PATTERN, str)
}

} // verus!
