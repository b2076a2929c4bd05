//! Builder functions that report a failed constraint as a message, and let
//! the wrapping constructor itself fail or decline to build a value.

use vstd::prelude::*;

use crate::numeral::{decimal, int_text, signed_text, unsigned_text};

verus! {

/// What these builders and their wrapping constructors return: a value, no
/// value, or a message.
pub type CtorResult<T> = Result<Option<T>, String>;

#[verifier::external_type_specification]
#[verifier::external_body]
pub struct ExRegex(regex::Regex);

/// Whether the `regex` crate accepts a pattern text.
pub uninterp spec fn regex_pattern_valid(pattern: Seq<char>) -> bool;

/// Whether the `regex` crate finds a compiled pattern text anywhere in a
/// string.
pub uninterp spec fn regex_finds(pattern: Seq<char>, s: Seq<char>) -> bool;

/// Relies on `regex::Regex::new`: whether it compiles a pattern depends on
/// the pattern text alone.
#[verifier::external_body]
fn compile_regex(pattern: &str) -> (r: Option<regex::Regex>)
    ensures
        r is Some <==> regex_pattern_valid(pattern@),
{
    regex::Regex::new(pattern).ok()
}

/// A regex together with the text it was compiled from.
struct CompiledRegex {
    regex: regex::Regex,
    text: String,
}

impl View for CompiledRegex {
    type V = Seq<char>;

    closed spec fn view(&self) -> Seq<char> {
        self.text@
    }
}

/// Relies on `regex::Regex::is_match`: whether it finds a match depends
/// only on the text that the regex was compiled from (by `regex::Regex::new`
/// in `new_string_like`) and on the input.
#[verifier::external_body]
fn regex_is_match(compiled: &CompiledRegex, s: &str) -> (r: bool)
    ensures
        r == regex_finds(compiled@, s@),
{
    compiled.regex.is_match(s)
}

/// The message for an empty string.
pub open spec fn empty_message(field_name: Seq<char>) -> Seq<char> {
    field_name + " must not be empty"@
}

/// The message for a string of `count` characters, over the character
/// limit.
pub open spec fn too_long_message(field_name: Seq<char>, max_len: usize, count: nat) -> Seq<char> {
    field_name + " must not be greater than "@ + decimal(max_len as nat) + " characters, found "@
        + decimal(count)
}

/// The message for a number below the minimum.
pub open spec fn below_min_message(field_name: Seq<char>, min_val: int, val: int) -> Seq<char> {
    field_name + " must not be less than "@ + int_text(min_val) + ", found "@ + int_text(val)
}

/// The message for a number above the maximum.
pub open spec fn above_max_message(field_name: Seq<char>, max_val: int, val: int) -> Seq<char> {
    field_name + " must not be greater than "@ + int_text(max_val) + ", found "@ + int_text(val)
}

/// The message for a string that does not match the pattern.
pub open spec fn mismatch_message(field_name: Seq<char>, val: Seq<char>, pattern: Seq<char>) -> Seq<
    char,
> {
    "'"@ + field_name + "': '"@ + val + "' must match the pattern '"@ + pattern + "'"@
}

/// The message for a pattern text that is not a valid pattern.
pub open spec fn invalid_pattern_message(field_name: Seq<char>, pattern: Seq<char>) -> Seq<char> {
    "'"@ + field_name + "': the pattern '"@ + pattern + "' is not valid"@
}

/// The message that "not empty and at most `max_len` characters" reports on
/// a string, if any.
pub open spec fn length_message(field_name: Seq<char>, max_len: usize, raw: Seq<char>) -> Option<
    Seq<char>,
> {
    if raw.len() == 0 {
        Some(empty_message(field_name))
    } else if raw.len() > max_len {
        Some(too_long_message(field_name, max_len, raw.len()))
    } else {
        None
    }
}

/// The message that the inclusive range `[min_val, max_val]` reports on a
/// number, if any.
pub open spec fn range_message(field_name: Seq<char>, min_val: int, max_val: int, val: int) -> Option<
    Seq<char>,
> {
    if val < min_val {
        Some(below_min_message(field_name, min_val, val))
    } else if val > max_val {
        Some(above_max_message(field_name, max_val, val))
    } else {
        None
    }
}

/// The message that a pattern text reports on a string, if any, given what
/// the matcher answered: `None` where the pattern text did not compile,
/// else whether a match was found.
pub open spec fn verdict_message(
    field_name: Seq<char>,
    pattern: Seq<char>,
    s: Seq<char>,
    verdict: Option<bool>,
) -> Option<Seq<char>> {
    match verdict {
        None => Some(invalid_pattern_message(field_name, pattern)),
        Some(false) => Some(mismatch_message(field_name, s, pattern)),
        Some(true) => None,
    }
}

/// What the `regex` crate answers for a pattern text and a string: `None`
/// for a pattern text it refuses, else whether it finds a match.
pub open spec fn regex_verdict(pattern: Seq<char>, s: Seq<char>) -> Option<bool> {
    if regex_pattern_valid(pattern) {
        Some(regex_finds(pattern, s))
    } else {
        None
    }
}

/// The message that a pattern text reports on a string, if any.
pub open spec fn pattern_message(field_name: Seq<char>, pattern: Seq<char>, s: Seq<char>) -> Option<
    Seq<char>,
> {
    verdict_message(field_name, pattern, s, regex_verdict(pattern, s))
}

fn too_long(field_name: &str, max_len: usize, count: usize) -> (r: String)
    ensures
        r@ == too_long_message(field_name@, max_len, count as nat),
{
    let mut s = String::from_str(field_name);
    s.append(" must not be greater than ");
    s.append(unsigned_text(max_len as u128).as_str());
    s.append(" characters, found ");
    s.append(unsigned_text(count as u128).as_str());
    s
}

fn below_min(field_name: &str, min_text: String, found_text: String) -> (r: String)
    ensures
        r@ == field_name@ + " must not be less than "@ + min_text@ + ", found "@ + found_text@,
{
    let mut s = String::from_str(field_name);
    s.append(" must not be less than ");
    s.append(min_text.as_str());
    s.append(", found ");
    s.append(found_text.as_str());
    s
}

fn above_max(field_name: &str, max_text: String, found_text: String) -> (r: String)
    ensures
        r@ == field_name@ + " must not be greater than "@ + max_text@ + ", found "@ + found_text@,
{
    let mut s = String::from_str(field_name);
    s.append(" must not be greater than ");
    s.append(max_text.as_str());
    s.append(", found ");
    s.append(found_text.as_str());
    s
}

/// A builder constraining a string to be non-empty and at most `max_len`
/// characters long.
pub fn new_string<'a, T, F>(field_name: &str, ctor: F, max_len: usize, raw: &'a str) -> (r:
    CtorResult<T>) where F: Fn(&'a str) -> CtorResult<T>
    requires
        ctor.requires((raw,)),
    ensures
        match length_message(field_name@, max_len, raw@) {
            Some(m) => r matches Err(e) && e@ == m,
            None => ctor.ensures((raw,), r),
        },
{
    if raw.is_empty() {
        let mut s = String::from_str(field_name);
        s.append(" must not be empty");
        return Err(s);
    }
    let count = raw.unicode_len();
    if count > max_len {
        return Err(too_long(field_name, max_len, count));
    }
    ctor(raw)
}

/// A builder constraining an optional string to at most `max_len`
/// characters; absence builds nothing and is no error.
pub fn new_string_option<'a, T, F>(
    field_name: &str,
    ctor: F,
    max_len: usize,
    str: Option<&'a str>,
) -> (r: CtorResult<T>) where F: Fn(&'a str) -> CtorResult<T>
    requires
        str matches Some(s) ==> ctor.requires((s,)),
    ensures
        match str {
            Some(s) => if s@.len() > max_len {
                r matches Err(e) && e@ == too_long_message(field_name@, max_len, s@.len())
            } else {
                ctor.ensures((s,), r)
            },
            None => r == Ok::<Option<T>, String>(None),
        },
{
    match str {
        Some(s) => {
            let count = s.unicode_len();
            if count > max_len {
                return Err(too_long(field_name, max_len, count));
            }
            ctor(s)
        },
        None => Ok(None),
    }
}

/// Finishes the pattern constraint once the engine has answered for `str`:
/// `None` (the pattern text was refused) and `Some(false)` (no match) reject
/// the string with their message; `Some(true)` hands it to the constructor.
pub fn apply_regex_verdict<'a, T, F>(
    field_name: &str,
    ctor: F,
    pattern: &str,
    str: &'a str,
    verdict: Option<bool>,
) -> (r: CtorResult<T>) where F: Fn(&'a str) -> CtorResult<T>
    requires
        ctor.requires((str,)),
    ensures
        match verdict_message(field_name@, pattern@, str@, verdict) {
            Some(m) => r matches Err(e) && e@ == m,
            None => ctor.ensures((str,), r),
        },
{
    match verdict {
        Some(true) => ctor(str),
        Some(false) => {
            let mut s = String::from_str("'");
            s.append(field_name);
            s.append("': '");
            s.append(str);
            s.append("' must match the pattern '");
            s.append(pattern);
            s.append("'");
            Err(s)
        },
        None => {
            let mut s = String::from_str("'");
            s.append(field_name);
            s.append("': the pattern '");
            s.append(pattern);
            s.append("' is not valid");
            Err(s)
        },
    }
}

/// A builder constraining a string to contain a match of the pattern text
/// `pattern`. A pattern text that is not a valid pattern rejects every
/// string.
pub fn new_string_like<'a, T, F>(field_name: &str, ctor: F, pattern: &str, str: &'a str) -> (r:
    CtorResult<T>) where F: Fn(&'a str) -> CtorResult<T>
    requires
        ctor.requires((str,)),
    ensures
        match pattern_message(field_name@, pattern@, str@) {
            Some(m) => r matches Err(e) && e@ == m,
            None => ctor.ensures((str,), r),
        },
{
    let verdict = match compile_regex(pattern) {
        Some(regex) => {
            let compiled = CompiledRegex { regex, text: String::from_str(pattern) };
            Some(regex_is_match(&compiled, str))
        },
        None => None,
    };
    apply_regex_verdict(field_name, ctor, pattern, str, verdict)
}

/// A builder constraining a signed number to `[min_val, max_val]`.
pub fn new_int<T, F>(field_name: &str, ctor: F, min_val: isize, max_val: isize, value: isize) -> (r:
    CtorResult<T>) where F: Fn(isize) -> CtorResult<T>
    requires
        ctor.requires((value,)),
    ensures
        match range_message(field_name@, min_val as int, max_val as int, value as int) {
            Some(m) => r matches Err(e) && e@ == m,
            None => ctor.ensures((value,), r),
        },
{
    if value < min_val {
        return Err(below_min(field_name, signed_text(min_val as i128), signed_text(value as i128)));
    }
    if value > max_val {
        return Err(above_max(field_name, signed_text(max_val as i128), signed_text(value as i128)));
    }
    ctor(value)
}

/// A builder constraining an unsigned number to `[min_val, max_val]`.
pub fn new_uint<T, F>(field_name: &str, ctor: F, min_val: usize, max_val: usize, value: usize) -> (r:
    CtorResult<T>) where F: Fn(usize) -> CtorResult<T>
    requires
        ctor.requires((value,)),
    ensures
        match range_message(field_name@, min_val as int, max_val as int, value as int) {
            Some(m) => r matches Err(e) && e@ == m,
            None => ctor.ensures((value,), r),
        },
{
    if value < min_val {
        return Err(below_min(field_name, unsigned_text(min_val as u128), unsigned_text(value as u128)));
    }
    if value > max_val {
        return Err(above_max(field_name, unsigned_text(max_val as u128), unsigned_text(value as u128)));
    }
    ctor(value)
}

} // verus!
