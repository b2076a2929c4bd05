//! A secret value, exposed at most once and wiped on destruction.

use vstd::prelude::*;

use crate::error::{agrees_with, ConstrainedTypeResult};
use crate::pattern::{fancy_match_verdict, fancy_pattern_valid, Pattern};
use crate::string_like::{new_string_like, pattern_error, pattern_verdict};

verus! {

/// At least 8 and at most 32 characters, with at least one digit, one
/// lowercase letter, one uppercase letter and one special character.
pub const PASSWORD_PATTERN: &'static str = r"^(?=.*[0-9])(?=.*[a-z])(?=.*[A-Z])(?=.*[*.!@$%\^\&(){}\[\]:;<>,.?\/~_+\-=|\\]).{8,32}$";

/// What every textual rendering of a password shows.
pub const REDACTED: &'static str = "*******";

/// What the debug rendering of a password shows.
pub const REDACTED_DEBUG: &'static str = "\"*******\"";

/// The failure of a second read: the secret was already handed out.
#[derive(Debug, PartialEq, Eq)]
pub struct AlreadyConsumed;

/// Relies on `zeroize::Zeroize` for `Option<String>`: it overwrites the
/// string's bytes with zeros and leaves `None` behind.
#[verifier::external_body]
fn wipe(secret: &mut Option<String>)
    ensures
        *final(secret) is None,
    opens_invariants none
    no_unwind
{
    zeroize::Zeroize::zeroize(secret)
}

/// A password that can be read once. Its state is `Some(secret)` until the
/// read, `None` after it.
pub struct Password {
    secret: Option<String>,
}

impl View for Password {
    type V = Option<Seq<char>>;

    closed spec fn view(&self) -> Option<Seq<char>> {
        match self.secret {
            Some(s) => Some(s@),
            None => None,
        }
    }
}

/// What a read hands out: the secret while it is held, nothing once
/// consumed.
pub open spec fn read_output(state: Option<Seq<char>>) -> Option<Seq<char>> {
    state
}

/// What `n` successive reads hand out, in order, starting from `state`:
/// every read leaves the value consumed.
pub open spec fn successive_reads(state: Option<Seq<char>>, n: nat) -> Seq<Option<Seq<char>>>
    decreases n,
{
    if n == 0 {
        Seq::empty()
    } else {
        seq![read_output(state)] + successive_reads(None, (n - 1) as nat)
    }
}

/// Reading a consumed value never hands anything out.
proof fn lemma_consumed_reads(n: nat)
    ensures
        forall|i: int| 0 <= i < n ==> successive_reads(None, n)[i] is None,
        successive_reads(None, n).len() == n,
    decreases n,
{
    if n > 0 {
        lemma_consumed_reads((n - 1) as nat);
        assert forall|i: int| 0 <= i < n implies successive_reads(None, n)[i] is None by {
            if i > 0 {
                assert(successive_reads(None, n)[i] == successive_reads(None, (n - 1) as nat)[i
                    - 1]);
            }
        }
    }
}

/// Of any number of successive reads of a password holding `secret`, the
/// first hands out `secret` and every later one fails.
pub proof fn lemma_read_once(secret: Seq<char>, n: nat)
    requires
        n > 0,
    ensures
        successive_reads(Some(secret), n).len() == n,
        successive_reads(Some(secret), n)[0] == Some(secret),
        forall|i: int| 0 < i < n ==> successive_reads(Some(secret), n)[i] is None,
{
    lemma_consumed_reads((n - 1) as nat);
    assert forall|i: int| 0 < i < n implies successive_reads(Some(secret), n)[i] is None by {
        assert(successive_reads(Some(secret), n)[i] == successive_reads(None, (n - 1) as nat)[i
            - 1]);
    }
}

impl Password {
    fn new(raw: &str) -> (p: Password)
        ensures
            p@ == Some(raw@),
    {
        Password { secret: Some(String::from_str(raw)) }
    }

    /// Hands out the secret on the first call and fails on every later one.
    pub fn value(&mut self) -> (r: Result<String, AlreadyConsumed>)
        ensures
            final(self)@ is None,
            match read_output(old(self)@) {
                Some(s) => r matches Ok(v) && v@ == s,
                None => r is Err,
            },
    {
        let taken = self.secret.take();
        match taken {
            Some(s) => Ok(s),
            None => Err(AlreadyConsumed),
        }
    }

    /// The display rendering: always the placeholder, never the secret.
    pub fn to_string(&self) -> (r: String)
        ensures
            r@ == REDACTED@,
    {
        String::from_str(REDACTED)
    }

    /// The debug rendering: always the quoted placeholder, never the secret.
    pub fn to_debug_string(&self) -> (r: String)
        ensures
            r@ == REDACTED_DEBUG@,
    {
        String::from_str(REDACTED_DEBUG)
    }
}

// A secret that was never read is wiped before its memory is released.
impl Drop for Password {
    fn drop(&mut self)
        ensures
            final(self)@ is None,
        opens_invariants none
        no_unwind
    {
        if let Some(_) = &self.secret {
            wipe(&mut self.secret);
        }
    }
}

/// Builds a password from `raw` where it matches `PASSWORD_PATTERN`; the
/// error reports `err_val` in place of the raw input where one is given.
/// A pattern that the engine refuses, or a search it gives up on, rejects
/// the input.
pub fn new(field_name: &str, raw: &str, err_val: Option<&str>) -> (r: ConstrainedTypeResult<Password>)
    ensures
        agrees_with(
            r,
            pattern_verdict(
                field_name@,
                PASSWORD_PATTERN@,
                raw@,
                err_val.deep_view(),
                fancy_pattern_valid(PASSWORD_PATTERN@) && fancy_match_verdict(PASSWORD_PATTERN@, raw@)
                    == Some(true),
            ),
        ),
        r matches Ok(p) ==> p@ == Some(raw@),
{
    match Pattern::new(PASSWORD_PATTERN) {
        Some(pattern) => new_string_like(
            field_name,
            Password::new,
            pattern,
            raw,
            err_val,
        ),
        None => Err(pattern_error(field_name, PASSWORD_PATTERN, raw, err_val)),
    }
}

} // verus!
