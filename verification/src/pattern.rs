//! The regular expressions of the `regex` crate, as far as the scan of a
//! source file needs them: compile one pattern, then ask of each line whether
//! the pattern matches it. Nothing here is proved; each item says what it
//! takes on trust.

use regex::Regex;
use vstd::prelude::*;

verus! {

/// `regex::Regex`, a compiled regular expression, carried as an opaque value.
#[verifier::external_type_specification]
#[verifier::external_body]
pub struct ExRegex(regex::Regex);

/// `regex::Error`, the reason why a pattern was not compiled.
#[verifier::external_type_specification]
#[verifier::external_body]
pub struct ExRegexError(regex::Error);

/// What `Regex::is_match` of the compiled expression `re` answers on `text`:
/// whether the expression matches somewhere in the text.
pub uninterp spec fn regex_matches(re: Regex, text: Seq<char>) -> bool;

/// What compiling `pattern` with `Regex::new` and then matching `text` with
/// `Regex::is_match` gives: `None` where the pattern is rejected, else
/// whether it matches somewhere in the text.
pub uninterp spec fn pattern_matches(pattern: Seq<char>, text: Seq<char>) -> Option<bool>;

/// Whether `Regex::new` accepts `pattern`.
pub open spec fn pattern_compiles(pattern: Seq<char>) -> bool {
    pattern_matches(pattern, Seq::empty()) is Some
}

/// Calls `Regex::new`. Trusted: whether the pattern is accepted depends on
/// the pattern alone, and an expression compiled from it answers every text
/// as `pattern_matches` says of the pattern.
#[verifier::external_body]
pub(crate) fn compile(pattern: &str) -> (compiled: Result<Regex, regex::Error>)
    ensures
        compiled is Ok == pattern_compiles(pattern@),
        compiled matches Ok(re) ==> forall|text: Seq<char>|
            pattern_matches(pattern@, text) == Some(#[trigger] regex_matches(re, text)),
{
    Regex::new(pattern)
}

/// Calls `Regex::is_match`. Trusted: the answer depends on the expression
/// and the text alone.
#[verifier::external_body]
pub(crate) fn is_match(re: &Regex, text: &str) -> (found: bool)
    ensures
        found == regex_matches(*re, text@),
{
    re.is_match(text)
}

} // verus!
