//! Regular expressions, as the `regex` crate reads and runs them.
use vstd::prelude::*;

verus! {

/// Whether `regex::Regex::new` accepts the pattern.
pub uninterp spec fn regex_compiles(pattern: Seq<char>) -> bool;

/// Whether the compiled pattern matches somewhere in the text
/// (`regex::Regex::is_match`).
pub uninterp spec fn regex_finds(pattern: Seq<char>, text: Seq<char>) -> bool;

/// The text of the first capture group of the leftmost match of the pattern
/// in the text (`regex::Regex::captures`, then group 1); `None` where the
/// pattern does not match or the group took no part in the match.
pub uninterp spec fn regex_group(pattern: Seq<char>, text: Seq<char>) -> Option<Seq<char>>;

/// Calls `regex::Regex::new` and reports whether it accepted the pattern.
/// Claimed: the answer depends on the pattern alone.
#[verifier::external_body]
pub(crate) fn regex_valid(pattern: &str) -> (r: bool)
    ensures
        r == regex_compiles(pattern@),
{
    regex::Regex::new(pattern).is_ok()
}

/// Compiles the pattern and calls `regex::Regex::is_match`. Claimed: the
/// answer depends on the pattern and the text alone. The pattern is one
/// that `Regex::new` accepts, so the compilation does not fail.
#[verifier::external_body]
pub(crate) fn regex_is_match(pattern: &str, text: &str) -> (r: bool)
    requires
        regex_compiles(pattern@),
    ensures
        r == regex_finds(pattern@, text@),
{
    regex::Regex::new(pattern).unwrap().is_match(text)
}

/// Compiles the pattern, calls `regex::Regex::captures` and takes group 1.
/// Claimed: the result depends on the pattern and the text alone. The
/// pattern is one that `Regex::new` accepts.
#[verifier::external_body]
pub(crate) fn regex_first_group(pattern: &str, text: &str) -> (r: Option<String>)
    requires
        regex_compiles(pattern@),
    ensures
        r matches Some(g) ==> regex_group(pattern@, text@) == Some(g@),
        r is None <==> regex_group(pattern@, text@) is None,
{
    let caps = regex::Regex::new(pattern).unwrap().captures(text)?;
    Some(caps.get(1)?.as_str().to_string())
}

} // verus!
