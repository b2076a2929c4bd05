//! Compiled patterns, matched by the `fancy_regex` engine (which supports
//! lookahead and lookbehind).

use vstd::prelude::*;

verus! {

#[verifier::external_type_specification]
#[verifier::external_body]
pub struct ExFancyRegex(fancy_regex::Regex);

/// Whether `fancy_regex` accepts a pattern text.
pub uninterp spec fn fancy_pattern_valid(pattern: Seq<char>) -> bool;

/// What `fancy_regex` reports when a compiled pattern text is searched for in
/// a string: `Some(found)`, or `None` where the engine gives up (it bounds
/// its backtracking).
pub uninterp spec fn fancy_match_verdict(pattern: Seq<char>, s: Seq<char>) -> Option<bool>;

/// Relies on `fancy_regex::Regex::new` (default options): whether it
/// compiles a pattern depends on the pattern text alone.
#[verifier::external_body]
fn compile_fancy(pattern: &str) -> (r: Option<fancy_regex::Regex>)
    ensures
        r is Some <==> fancy_pattern_valid(pattern@),
{
    fancy_regex::Regex::new(pattern).ok()
}

/// A pattern, compiled, together with its text.
pub struct Pattern {
    regex: fancy_regex::Regex,
    text: String,
}

impl View for Pattern {
    type V = Seq<char>;

    /// The pattern text.
    closed spec fn view(&self) -> Seq<char> {
        self.text@
    }
}

/// Relies on `fancy_regex::Regex::is_match`: it answers `Ok(found)`, or an
/// error when the backtracking limits are reached, and both depend only on
/// the text that the regex was compiled from (with default options, as
/// `Pattern::new` does) and on the input.
#[verifier::external_body]
fn fancy_is_match(pattern: &Pattern, s: &str) -> (r: Option<bool>)
    ensures
        r == fancy_match_verdict(pattern@, s@),
{
    pattern.regex.is_match(s).ok()
}

impl Pattern {
    /// Compiles a pattern; `None` where the text is not a valid pattern.
    pub fn new(text: &str) -> (r: Option<Pattern>)
        ensures
            r is Some <==> fancy_pattern_valid(text@),
            r matches Some(p) ==> p@ == text@,
    {
        match compile_fancy(text) {
            Some(regex) => Some(Pattern { regex, text: String::from_str(text) }),
            None => None,
        }
    }

    /// The pattern text.
    pub fn as_str(&self) -> (r: &str)
        ensures
            r@ == self@,
    {
        self.text.as_str()
    }

    /// Searches for the pattern in `s`: `Some(found)`, or `None` where the
    /// engine gives up.
    pub fn search(&self, s: &str) -> (r: Option<bool>)
        ensures
            r == fancy_match_verdict(self@, s@),
    {
        fancy_is_match(self, s)
    }
}

} // verus!
