//! Searching text: the characters of a string, and whether one text occurs
//! in, begins or ends another.

use vstd::prelude::*;
use vstd::string::StringExecFns;

verus! {

/// Whether `token` stands in `text` at position `at`.
pub open spec fn occurs_at(text: Seq<char>, token: Seq<char>, at: int) -> bool {
    &&& 0 <= at
    &&& at + token.len() <= text.len()
    &&& text.subrange(at, at + token.len()) == token
}

/// Whether `token` stands somewhere in `text`.
pub open spec fn occurs_in(text: Seq<char>, token: Seq<char>) -> bool {
    exists|at: int| occurs_at(text, token, at)
}

/// Whether `text` begins with `token`.
pub open spec fn begins_with(text: Seq<char>, token: Seq<char>) -> bool {
    occurs_at(text, token, 0)
}

/// Whether `text` ends with `token`.
pub open spec fn ends_with(text: Seq<char>, token: Seq<char>) -> bool {
    occurs_at(text, token, text.len() - token.len())
}

/// A directory, written with a slash at its end.
pub open spec fn with_slash(directory: Seq<char>) -> Seq<char> {
    if ends_with(directory, "/"@) {
        directory
    } else {
        directory + "/"@
    }
}

/// The texts of strings.
pub open spec fn texts(strings: Seq<String>) -> Seq<Seq<char>> {
    Seq::new(strings.len(), |i: int| strings[i]@)
}

/// The characters of `s`, in order.
pub fn chars_of(s: &str) -> (chars: Vec<char>)
    ensures
        chars@ == s@,
{
    broadcast use vstd::string::axiom_spec_iter;

    let mut chars: Vec<char> = Vec::new();
    for c in it: s.chars()
        invariant
            it.seq() == s@,
            chars@ == s@.take(it.index()),
    {
        chars.push(c);
    }
    chars
}

/// Tests whether two strings hold the same text.
pub fn same_text(a: &str, b: &str) -> (same: bool)
    ensures
        same == (a@ == b@),
{
    let a_chars = chars_of(a);
    let b_chars = chars_of(b);
    if a_chars.len() != b_chars.len() {
        return false;
    }
    assert(a@.subrange(0, b@.len() as int) == a@);
    has_token_at(&a_chars, &b_chars, 0)
}

/// Tests whether `token` stands in `text` at position `at`.
pub fn has_token_at(text: &Vec<char>, token: &Vec<char>, at: usize) -> (found: bool)
    ensures
        found == occurs_at(text@, token@, at as int),
{
    if at > text.len() || token.len() > text.len() - at {
        return false;
    }
    let mut i: usize = 0;
    while i < token.len()
        invariant
            at + token.len() <= text.len(),
            i <= token.len(),
            forall|j: int| 0 <= j < i ==> text@[at + j] == token@[j],
        decreases token.len() - i,
    {
        if text[at + i] != token[i] {
            assert(text@.subrange(at as int, at + token.len())[i as int] != token@[i as int]);
            return false;
        }
        i += 1;
    }
    assert(text@.subrange(at as int, at + token.len()) =~= token@);
    true
}

/// Tests whether `token` stands somewhere in `text`.
pub fn contains(text: &Vec<char>, token: &str) -> (found: bool)
    ensures
        found == occurs_in(text@, token@),
{
    let needle = chars_of(token);
    if needle.len() > text.len() {
        return false;
    }
    let last: usize = text.len() - needle.len();
    let mut at: usize = 0;
    loop
        invariant
            needle@ == token@,
            last == text.len() - needle.len(),
            at <= last,
            forall|k: int| 0 <= k < at ==> !occurs_at(text@, needle@, k),
        decreases last - at,
    {
        if has_token_at(text, &needle, at) {
            return true;
        }
        if at == last {
            return false;
        }
        at += 1;
    }
}

/// Tests whether `text` begins with `token`.
pub fn starts_with(text: &Vec<char>, token: &str) -> (found: bool)
    ensures
        found == begins_with(text@, token@),
{
    let token = chars_of(token);
    has_token_at(text, &token, 0)
}

/// Tests whether `text` ends with `token`.
pub fn finishes_with(text: &Vec<char>, token: &str) -> (found: bool)
    ensures
        found == ends_with(text@, token@),
{
    let token = chars_of(token);
    if token.len() > text.len() {
        return false;
    }
    has_token_at(text, &token, text.len() - token.len())
}

/// Writes a directory with a slash at its end.
pub fn slashed(directory: String) -> (path: String)
    ensures
        path@ == with_slash(directory@),
{
    let chars = chars_of(directory.as_str());
    if finishes_with(&chars, "/") {
        directory
    } else {
        directory.concat("/")
    }
}

} // verus!
